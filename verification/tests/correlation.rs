use netscan::addr::IpAddr;
use netscan::correlate::{
    correlate_host_scan, correlate_port_scan, record_host_reply, record_port_reply,
};
use netscan::frame::{
    IcmpHeader, Icmpv6Header, IpProtocol, Ipv4Header, Ipv6Header, PacketFrame, TcpHeader,
    verdict_of_flags, TCP_ACK, TCP_RST, TCP_RST_ACK, TCP_SYN, TCP_SYN_ACK,
};
use netscan::host::{HostInfo, HostTarget, PortInfo, PortStatus};
use netscan::result::{ScanResult, ScanStatus};
use netscan::scan::{host_scan_result, port_scan_result};
use netscan::setting::{IpMap, ScanSetting, ScanType};

fn tcp_reply(ip: IpAddr, ttl: u8, port: u16, flags: u8) -> PacketFrame {
    let mut frame = PacketFrame::new();
    match ip {
        IpAddr::V4(bits) => {
            frame.ipv4_header = Some(Ipv4Header {
                total_length: 44,
                identification: 0,
                ttl,
                next_level_protocol: IpProtocol::Tcp,
                source: bits,
                destination: 0x0a00_0001,
            });
        }
        IpAddr::V6(bits) => {
            frame.ipv6_header = Some(Ipv6Header {
                payload_length: 24,
                next_header: IpProtocol::Tcp,
                hop_limit: ttl,
                source: bits,
                destination: 1,
            });
        }
    }
    frame.tcp_header = Some(TcpHeader {
        source: port,
        destination: 53443,
        sequence: 1,
        acknowledgement: 1,
        flags,
        window: 1024,
    });
    frame
}

fn echo_reply(ip: IpAddr, ttl: u8) -> PacketFrame {
    let mut frame = PacketFrame::new();
    match ip {
        IpAddr::V4(bits) => {
            frame.ipv4_header = Some(Ipv4Header {
                total_length: 28,
                identification: 7,
                ttl,
                next_level_protocol: IpProtocol::Icmp,
                source: bits,
                destination: 0x0a00_0001,
            });
            frame.icmp_header = Some(IcmpHeader { icmp_type: 0, icmp_code: 0 });
        }
        IpAddr::V6(bits) => {
            frame.ipv6_header = Some(Ipv6Header {
                payload_length: 8,
                next_header: IpProtocol::Icmpv6,
                hop_limit: ttl,
                source: bits,
                destination: 1,
            });
            frame.icmpv6_header = Some(Icmpv6Header { icmpv6_type: 129, icmpv6_code: 0 });
        }
    }
    frame
}

fn port_unreachable(ip: IpAddr, ttl: u8) -> PacketFrame {
    let mut frame = echo_reply(ip, ttl);
    frame.icmp_header = Some(IcmpHeader { icmp_type: 3, icmp_code: 3 });
    frame
}

fn setting_for(scan_type: ScanType, targets: Vec<HostTarget>) -> ScanSetting {
    let mut setting = ScanSetting::new();
    setting.src_ip = IpAddr::v4(10, 0, 0, 1);
    setting.scan_type = scan_type;
    setting.targets = targets;
    setting
}

fn host(ip: IpAddr, ttl: u8, ports: Vec<PortInfo>) -> HostInfo {
    HostInfo { ip_addr: ip, host_name: String::new(), ttl, ports }
}

#[test]
fn flags_give_verdicts() {
    assert_eq!(verdict_of_flags(TCP_SYN | TCP_ACK), Some(PortStatus::Open));
    assert_eq!(verdict_of_flags(TCP_RST | TCP_ACK), Some(PortStatus::Closed));
    assert_eq!(verdict_of_flags(TCP_SYN_ACK), Some(PortStatus::Open));
    assert_eq!(verdict_of_flags(TCP_RST_ACK), Some(PortStatus::Closed));
    assert_eq!(verdict_of_flags(TCP_SYN), None);
    assert_eq!(verdict_of_flags(TCP_RST), None);
    assert_eq!(verdict_of_flags(TCP_ACK), None);
    assert_eq!(verdict_of_flags(0), None);
    assert_eq!(verdict_of_flags(0x1a), None);
    assert_eq!(TCP_SYN_ACK, 0x12);
    assert_eq!(TCP_RST_ACK, 0x14);
}

#[test]
fn syn_scan_of_one_host_and_three_ports() {
    let target = IpAddr::v4(10, 0, 0, 5);
    let setting = setting_for(ScanType::TcpSynScan, vec![HostTarget::new(target, vec![22, 80, 81])]);
    let frames = vec![
        tcp_reply(target, 64, 22, TCP_SYN_ACK),
        tcp_reply(target, 64, 80, TCP_SYN_ACK),
        tcp_reply(target, 64, 81, TCP_RST_ACK),
    ];
    let result = port_scan_result(&setting, &frames, false);
    assert_eq!(result.scan_status, ScanStatus::Done);
    assert_eq!(
        result.hosts,
        vec![host(
            target,
            64,
            vec![
                PortInfo::new(22, PortStatus::Open),
                PortInfo::new(80, PortStatus::Open),
                PortInfo::new(81, PortStatus::Closed),
            ],
        )]
    );
    assert_eq!(result.fingerprints, frames);
}

#[test]
fn second_reply_on_a_port_is_passed_over() {
    let target = IpAddr::v4(10, 0, 0, 5);
    let setting = setting_for(ScanType::TcpSynScan, vec![HostTarget::new(target, vec![22])]);
    let frames = vec![tcp_reply(target, 64, 22, TCP_SYN_ACK), tcp_reply(target, 64, 22, TCP_RST_ACK)];
    let result = port_scan_result(&setting, &frames, false);
    assert_eq!(result.hosts, vec![host(target, 64, vec![PortInfo::new(22, PortStatus::Open)])]);
    assert_eq!(result.fingerprints.len(), 1);
    assert_eq!(result.fingerprints[0], frames[0]);
}

#[test]
fn first_verdict_wins_also_when_it_is_closed() {
    let target = IpAddr::v4(10, 0, 0, 5);
    let frames = vec![tcp_reply(target, 64, 22, TCP_RST_ACK), tcp_reply(target, 64, 22, TCP_SYN_ACK)];
    let result = correlate_port_scan(&IpMap::new(), &frames);
    assert_eq!(result.hosts, vec![host(target, 64, vec![PortInfo::new(22, PortStatus::Closed)])]);
}

#[test]
fn ping_sweep_lists_hosts_in_order_of_arrival() {
    let a = IpAddr::v4(10, 0, 0, 5);
    let b = IpAddr::v4(10, 0, 0, 6);
    let c = IpAddr::v4(10, 0, 0, 7);
    let setting = setting_for(
        ScanType::IcmpPingScan,
        vec![HostTarget::new(a, vec![]), HostTarget::new(b, vec![]), HostTarget::new(c, vec![])],
    );
    let frames = vec![echo_reply(c, 60), echo_reply(a, 64)];
    let result = host_scan_result(&setting, &frames, false);
    assert_eq!(result.scan_status, ScanStatus::Done);
    assert_eq!(result.hosts, vec![host(c, 60, vec![]), host(a, 64, vec![])]);
    assert!(result.hosts.iter().all(|h| h.ip_addr != b));
    assert_eq!(result.fingerprints, frames);
}

#[test]
fn udp_ping_counts_port_unreachable() {
    let target = IpAddr::v4(10, 0, 0, 5);
    let setting = setting_for(ScanType::UdpPingScan, vec![HostTarget::new(target, vec![])]);
    let frames = vec![port_unreachable(target, 63)];
    let result = host_scan_result(&setting, &frames, false);
    assert_eq!(result.hosts, vec![host(target, 63, vec![])]);
}

#[test]
fn udp_ping_counts_icmpv6_replies() {
    let target = IpAddr::V6(0x2001_0db8_0000_0000_0000_0000_0000_0005);
    let mut setting = setting_for(ScanType::UdpPingScan, vec![HostTarget::new(target, vec![])]);
    setting.src_ip = IpAddr::V6(0x2001_0db8_0000_0000_0000_0000_0000_0001);
    let frames = vec![echo_reply(target, 55)];
    let result = host_scan_result(&setting, &frames, false);
    assert_eq!(result.hosts, vec![host(target, 55, vec![])]);
}

#[test]
fn udp_ping_passes_over_frames_without_icmp() {
    let target = IpAddr::v4(10, 0, 0, 5);
    let frames = vec![tcp_reply(target, 64, 80, TCP_SYN_ACK)];
    let result = correlate_host_scan(ScanType::UdpPingScan, &IpMap::new(), &frames);
    assert!(result.hosts.is_empty());
    assert!(result.fingerprints.is_empty());
}

#[test]
fn tcp_ping_attaches_the_port_of_the_reply() {
    let target = IpAddr::v4(10, 0, 0, 5);
    let setting = setting_for(ScanType::TcpPingScan, vec![HostTarget::new(target, vec![80])]);
    let frames = vec![
        tcp_reply(target, 64, 80, TCP_SYN),
        tcp_reply(target, 64, 80, TCP_RST_ACK),
        tcp_reply(target, 64, 80, TCP_RST_ACK),
    ];
    let result = host_scan_result(&setting, &frames, false);
    assert_eq!(result.hosts, vec![host(target, 64, vec![PortInfo::new(80, PortStatus::Closed)])]);
    assert_eq!(result.fingerprints.len(), 1);
}

#[test]
fn host_scan_keeps_hosts_that_differ_in_ttl() {
    let target = IpAddr::v4(10, 0, 0, 5);
    let frames = vec![echo_reply(target, 64), echo_reply(target, 64), echo_reply(target, 63)];
    let result = correlate_host_scan(ScanType::IcmpPingScan, &IpMap::new(), &frames);
    assert_eq!(result.hosts, vec![host(target, 64, vec![]), host(target, 63, vec![])]);
}

#[test]
fn host_scan_of_agreeing_frames_has_each_address_once() {
    let a = IpAddr::v4(10, 0, 0, 5);
    let b = IpAddr::v4(10, 0, 0, 7);
    let frames = vec![echo_reply(a, 64), echo_reply(b, 64), echo_reply(a, 64), echo_reply(b, 64)];
    let result = correlate_host_scan(ScanType::IcmpPingScan, &IpMap::new(), &frames);
    assert_eq!(result.hosts, vec![host(a, 64, vec![]), host(b, 64, vec![])]);
}

#[test]
fn port_scan_has_each_address_once() {
    let a = IpAddr::v4(10, 0, 0, 5);
    let b = IpAddr::v4(10, 0, 0, 6);
    let frames = vec![
        tcp_reply(a, 64, 22, TCP_SYN_ACK),
        tcp_reply(b, 128, 22, TCP_RST_ACK),
        tcp_reply(a, 61, 80, TCP_SYN_ACK),
        tcp_reply(b, 128, 80, TCP_SYN_ACK),
        tcp_reply(a, 64, 22, TCP_SYN_ACK),
    ];
    let result = correlate_port_scan(&IpMap::new(), &frames);
    assert_eq!(
        result.hosts,
        vec![
            host(a, 64, vec![PortInfo::new(22, PortStatus::Open), PortInfo::new(80, PortStatus::Open)]),
            host(
                b,
                128,
                vec![PortInfo::new(22, PortStatus::Closed), PortInfo::new(80, PortStatus::Open)],
            ),
        ]
    );
    assert_eq!(result.fingerprints.len(), 4);
}

#[test]
fn port_scan_passes_over_other_flags_and_missing_headers() {
    let a = IpAddr::v4(10, 0, 0, 5);
    let mut no_ip = tcp_reply(a, 64, 22, TCP_SYN_ACK);
    no_ip.ipv4_header = None;
    let mut no_tcp = tcp_reply(a, 64, 22, TCP_SYN_ACK);
    no_tcp.tcp_header = None;
    let frames = vec![
        no_ip,
        no_tcp,
        tcp_reply(a, 64, 22, TCP_SYN),
        tcp_reply(a, 64, 22, TCP_ACK),
        tcp_reply(a, 64, 22, TCP_SYN_ACK | 0x08),
        PacketFrame::new(),
    ];
    let result = correlate_port_scan(&IpMap::new(), &frames);
    assert!(result.hosts.is_empty());
    assert!(result.fingerprints.is_empty());
    assert_eq!(result.scan_status, ScanStatus::Done);
}

#[test]
fn port_scan_reads_ipv6_replies() {
    let a = IpAddr::V6(0x2001_0db8_0000_0000_0000_0000_0000_0005);
    let frames = vec![tcp_reply(a, 57, 443, TCP_SYN_ACK)];
    let result = correlate_port_scan(&IpMap::new(), &frames);
    assert_eq!(result.hosts, vec![host(a, 57, vec![PortInfo::new(443, PortStatus::Open)])]);
}

#[test]
fn ipv4_header_is_read_before_ipv6_header() {
    let a = IpAddr::v4(10, 0, 0, 5);
    let mut frame = tcp_reply(a, 64, 22, TCP_SYN_ACK);
    frame.ipv6_header = Some(Ipv6Header {
        payload_length: 24,
        next_header: IpProtocol::Tcp,
        hop_limit: 9,
        source: 77,
        destination: 1,
    });
    assert_eq!(frame.source_ip(), Some(a));
    assert_eq!(frame.ttl(), 64);
    assert_eq!(frame.protocol(), Some(IpProtocol::Tcp));
    let result = correlate_port_scan(&IpMap::new(), &vec![frame]);
    assert_eq!(result.hosts, vec![host(a, 64, vec![PortInfo::new(22, PortStatus::Open)])]);
}

#[test]
fn hosts_are_named_from_the_map() {
    let a = IpAddr::v4(10, 0, 0, 5);
    let b = IpAddr::v4(10, 0, 0, 6);
    let mut names = IpMap::new();
    names.insert(a, String::from("old"));
    names.insert(a, String::from("printer"));
    assert_eq!(names.get(&a), Some(&String::from("printer")));
    assert_eq!(names.get(&b), None);
    assert_eq!(names.name_of(&b), String::new());
    let frames = vec![tcp_reply(a, 64, 22, TCP_SYN_ACK), tcp_reply(b, 64, 22, TCP_SYN_ACK)];
    let result = correlate_port_scan(&names, &frames);
    assert_eq!(result.hosts[0].host_name, "printer");
    assert_eq!(result.hosts[1].host_name, "");
    let sweep = correlate_host_scan(ScanType::IcmpPingScan, &names, &vec![echo_reply(a, 64)]);
    assert_eq!(sweep.hosts[0].host_name, "printer");
}

#[test]
fn recorded_verdicts_stand_when_more_frames_are_read() {
    let a = IpAddr::v4(10, 0, 0, 5);
    let b = IpAddr::v4(10, 0, 0, 6);
    let names = IpMap::new();
    let mut result = ScanResult::new();
    record_port_reply(&mut result, &names, &tcp_reply(a, 64, 22, TCP_SYN_ACK));
    record_port_reply(&mut result, &names, &tcp_reply(b, 64, 22, TCP_RST_ACK));
    let early = result.hosts.clone();
    record_port_reply(&mut result, &names, &tcp_reply(a, 64, 22, TCP_RST_ACK));
    record_port_reply(&mut result, &names, &tcp_reply(a, 64, 23, TCP_RST_ACK));
    record_port_reply(&mut result, &names, &tcp_reply(b, 64, 22, TCP_SYN_ACK));
    assert_eq!(result.scan_status, ScanStatus::Ready);
    assert_eq!(result.hosts.len(), 2);
    for (before, after) in early.iter().zip(result.hosts.iter()) {
        assert_eq!(before.ip_addr, after.ip_addr);
        assert_eq!(before.ttl, after.ttl);
        assert_eq!(before.ports[..], after.ports[..before.ports.len()]);
    }
    assert_eq!(
        result.hosts[0].ports,
        vec![PortInfo::new(22, PortStatus::Open), PortInfo::new(23, PortStatus::Closed)]
    );
    assert_eq!(result.hosts[1].ports, vec![PortInfo::new(22, PortStatus::Closed)]);
}

#[test]
fn record_host_reply_appends_only_new_hosts() {
    let a = IpAddr::v4(10, 0, 0, 5);
    let names = IpMap::new();
    let mut result = ScanResult::new();
    record_host_reply(&mut result, ScanType::IcmpPingScan, &names, &echo_reply(a, 64));
    record_host_reply(&mut result, ScanType::IcmpPingScan, &names, &echo_reply(a, 64));
    record_host_reply(&mut result, ScanType::IcmpPingScan, &names, &tcp_reply(a, 64, 1, TCP_SYN_ACK));
    assert_eq!(result.hosts, vec![host(a, 64, vec![])]);
    assert_eq!(result.fingerprints.len(), 1);
}

#[test]
fn same_frames_give_the_same_hosts() {
    let a = IpAddr::v4(10, 0, 0, 5);
    let setting = setting_for(ScanType::TcpSynScan, vec![HostTarget::new(a, vec![22, 80, 81])]);
    let frames = vec![
        tcp_reply(a, 64, 81, TCP_RST_ACK),
        tcp_reply(a, 64, 22, TCP_SYN_ACK),
        tcp_reply(a, 64, 80, TCP_SYN_ACK),
    ];
    let first = port_scan_result(&setting, &frames, false);
    let second = port_scan_result(&setting, &frames, false);
    assert_eq!(first.hosts, second.hosts);
    assert_eq!(first.fingerprints, second.fingerprints);
}

#[test]
fn every_listed_port_is_a_target_port() {
    let a = IpAddr::v4(10, 0, 0, 5);
    let b = IpAddr::v4(10, 0, 0, 6);
    let stranger = IpAddr::v4(10, 0, 0, 9);
    let setting = setting_for(
        ScanType::TcpSynScan,
        vec![HostTarget::new(a, vec![22, 80]), HostTarget::new(b, vec![443])],
    );
    let frames = vec![
        tcp_reply(a, 64, 22, TCP_SYN_ACK),
        tcp_reply(a, 64, 8080, TCP_SYN_ACK),
        tcp_reply(stranger, 64, 22, TCP_SYN_ACK),
        tcp_reply(b, 64, 443, TCP_RST_ACK),
        tcp_reply(b, 64, 80, TCP_SYN_ACK),
        echo_reply(a, 64),
    ];
    let result = port_scan_result(&setting, &frames, false);
    assert_eq!(
        result.hosts,
        vec![
            host(a, 64, vec![PortInfo::new(22, PortStatus::Open)]),
            host(
                b,
                64,
                vec![PortInfo::new(443, PortStatus::Closed), PortInfo::new(80, PortStatus::Open)],
            ),
        ]
    );
    for found in &result.hosts {
        for entry in &found.ports {
            assert!(setting.targets.iter().any(|t| t.ports.contains(&entry.port)));
        }
    }
}

#[test]
fn scan_without_targets_finds_nothing() {
    let a = IpAddr::v4(10, 0, 0, 5);
    let frames = vec![tcp_reply(a, 64, 22, TCP_SYN_ACK), echo_reply(a, 64)];
    let ports = port_scan_result(&setting_for(ScanType::TcpSynScan, vec![]), &frames, false);
    assert_eq!(ports.scan_status, ScanStatus::Done);
    assert!(ports.hosts.is_empty());
    assert!(ports.fingerprints.is_empty());
    let hosts = host_scan_result(&setting_for(ScanType::IcmpPingScan, vec![]), &frames, false);
    assert_eq!(hosts.scan_status, ScanStatus::Done);
    assert!(hosts.hosts.is_empty());
}

#[test]
fn port_scan_of_target_without_ports_lists_nothing() {
    let a = IpAddr::v4(10, 0, 0, 5);
    let setting = setting_for(ScanType::TcpSynScan, vec![HostTarget::new(a, vec![])]);
    let frames = vec![tcp_reply(a, 64, 22, TCP_SYN_ACK)];
    let result = port_scan_result(&setting, &frames, false);
    assert!(result.hosts.is_empty());
}

#[test]
fn cut_off_scan_reports_timeout() {
    let a = IpAddr::v4(10, 0, 0, 5);
    let setting = setting_for(ScanType::TcpConnectScan, vec![HostTarget::new(a, vec![22, 80])]);
    let frames = vec![tcp_reply(a, 64, 22, TCP_SYN_ACK)];
    let result = port_scan_result(&setting, &frames, true);
    assert_eq!(result.scan_status, ScanStatus::Timeout);
    assert_eq!(result.hosts, vec![host(a, 64, vec![PortInfo::new(22, PortStatus::Open)])]);
    let sweep = host_scan_result(&setting_for(ScanType::IcmpPingScan, vec![]), &frames, true);
    assert_eq!(sweep.scan_status, ScanStatus::Timeout);
}

#[test]
fn new_result_is_ready_and_error_result_is_error() {
    let fresh = ScanResult::new();
    assert_eq!(fresh.scan_status, ScanStatus::Ready);
    assert!(fresh.hosts.is_empty());
    assert!(fresh.fingerprints.is_empty());
    assert!(fresh.scan_time.is_zero());
    let failed = ScanResult::error();
    assert_eq!(failed.scan_status, ScanStatus::Error);
    assert!(failed.hosts.is_empty());
}

#[test]
fn order_of_arrival_does_not_change_the_entries() {
    let a = IpAddr::v4(10, 0, 0, 5);
    let b = IpAddr::v4(10, 0, 0, 6);
    let replies = vec![
        tcp_reply(a, 64, 22, TCP_SYN_ACK),
        tcp_reply(a, 64, 80, TCP_SYN_ACK),
        tcp_reply(a, 64, 81, TCP_RST_ACK),
        tcp_reply(b, 64, 22, TCP_RST_ACK),
    ];
    let mut shuffled: Vec<PacketFrame> = replies.iter().rev().cloned().collect();
    shuffled.push(tcp_reply(a, 64, 80, TCP_SYN_ACK));
    let first = correlate_port_scan(&IpMap::new(), &replies);
    let second = correlate_port_scan(&IpMap::new(), &shuffled);
    let entries = |result: &ScanResult| {
        let mut all: Vec<(IpAddr, u16, PortStatus)> = Vec::new();
        for found in &result.hosts {
            for entry in &found.ports {
                all.push((found.ip_addr, entry.port, entry.status));
            }
        }
        all.sort_by_key(|e| (e.0 == b, e.1));
        all
    };
    assert_eq!(entries(&first), entries(&second));
    assert_eq!(entries(&first).len(), 4);
    assert_eq!(second.hosts[0].ip_addr, b);
}
