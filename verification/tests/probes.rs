use netscan::addr::{IpAddr, MacAddr, SocketAddr};
use netscan::host::HostTarget;
use netscan::packet::TcpOption;
use netscan::probe::{
    icmp_echo_probes, make_syn_options, ping_probes, port_scan_probes, tcp_ping_probes,
    tcp_syn_probes, tcp_syn_probes_min, udp_ping_probes, Probe, TCP_PING_PORT,
};
use netscan::setting::{ScanSetting, ScanType, DEFAULT_SRC_PORT, UDP_BASE_DST_PORT};

const SRC_MAC: MacAddr = MacAddr(0x02, 0x11, 0x22, 0x33, 0x44, 0x55);
const DST_MAC: MacAddr = MacAddr(0x0a, 0xbb, 0xcc, 0xdd, 0xee, 0xff);
const SRC_V6: u128 = 0x2001_0db8_0000_0000_0000_0000_0000_0001;
const DST_V6: u128 = 0x2001_0db8_0000_0000_0000_0000_0000_0005;

fn setting_v4(targets: Vec<HostTarget>) -> ScanSetting {
    let mut setting = ScanSetting::new();
    setting.src_mac = SRC_MAC;
    setting.dst_mac = DST_MAC;
    setting.src_ip = IpAddr::v4(10, 0, 0, 1);
    setting.targets = targets;
    setting
}

fn setting_v6(targets: Vec<HostTarget>) -> ScanSetting {
    let mut setting = setting_v4(targets);
    setting.src_ip = IpAddr::V6(SRC_V6);
    setting
}

fn ones_complement_sum(bytes: &[u8]) -> u32 {
    let mut sum: u32 = 0;
    for pair in bytes.chunks(2) {
        sum += u32::from(pair[0]) * 256 + u32::from(pair[1]);
    }
    while sum > 0xffff {
        sum = (sum & 0xffff) + (sum >> 16);
    }
    sum
}

fn assert_ethernet(frame: &[u8], ether_type: [u8; 2]) {
    assert_eq!(frame[0..6], [0x0a, 0xbb, 0xcc, 0xdd, 0xee, 0xff]);
    assert_eq!(frame[6..12], [0x02, 0x11, 0x22, 0x33, 0x44, 0x55]);
    assert_eq!(frame[12..14], ether_type);
}

fn assert_ipv4(frame: &[u8], total_length: u16, protocol: u8, dst: [u8; 4]) {
    assert_eq!(frame[14], 0x45);
    assert_eq!(frame[15], 0);
    assert_eq!(frame[16..18], total_length.to_be_bytes());
    assert_eq!(frame[20..22], [0x40, 0x00]);
    assert_eq!(frame[22], 64);
    assert_eq!(frame[23], protocol);
    assert_eq!(frame[26..30], [10, 0, 0, 1]);
    assert_eq!(frame[30..34], dst);
    assert_eq!(ones_complement_sum(&frame[14..34]), 0xffff);
}

fn assert_ipv6(frame: &[u8], payload_length: u16, next_header: u8) {
    assert_eq!(frame[14..18], [0x60, 0, 0, 0]);
    assert_eq!(frame[18..20], payload_length.to_be_bytes());
    assert_eq!(frame[20], next_header);
    assert_eq!(frame[21], 64);
    assert_eq!(frame[22..38], SRC_V6.to_be_bytes());
    assert_eq!(frame[38..54], DST_V6.to_be_bytes());
}

fn targets_of(probes: &[Probe]) -> Vec<SocketAddr> {
    probes.iter().map(|p| p.target).collect()
}

#[test]
fn full_syn_probe_over_ipv4_has_the_stated_bytes() {
    let target = IpAddr::v4(10, 0, 0, 5);
    let setting = setting_v4(vec![HostTarget::new(target, vec![80])]);
    let probes = tcp_syn_probes(&setting);
    assert_eq!(probes.len(), 1);
    assert_eq!(probes[0].target, SocketAddr::new(target, 80));
    let frame = &probes[0].frame;
    assert_eq!(frame.len(), 78);
    assert_ethernet(frame, [0x08, 0x00]);
    assert_ipv4(frame, 64, 6, [10, 0, 0, 5]);
    assert_eq!(frame[34..36], DEFAULT_SRC_PORT.to_be_bytes());
    assert_eq!(frame[36..38], 80u16.to_be_bytes());
    assert_eq!(frame[38..46], [0u8; 8]);
    assert_eq!(frame[46], 0xb0);
    assert_eq!(frame[47], 0x02);
    assert_eq!(frame[48..50], [0xff, 0xff]);
    assert_eq!(frame[52..54], [0, 0]);
    assert_eq!(
        frame[54..78],
        [
            2, 4, 0x05, 0xb4, 1, 3, 3, 6, 1, 1, 8, 10, 0xff, 0xff, 0xff, 0xff, 0, 0, 0, 0, 4, 2, 0,
            0
        ]
    );
}

#[test]
fn reduced_syn_probe_over_ipv4_has_the_stated_bytes() {
    let target = IpAddr::v4(10, 0, 0, 5);
    let mut setting = setting_v4(vec![HostTarget::new(target, vec![443])]);
    setting.src_port = 40000;
    let probes = tcp_syn_probes_min(&setting);
    assert_eq!(probes.len(), 1);
    let frame = &probes[0].frame;
    assert_eq!(frame.len(), 66);
    assert_ethernet(frame, [0x08, 0x00]);
    assert_ipv4(frame, 52, 6, [10, 0, 0, 5]);
    assert_eq!(frame[34..36], 40000u16.to_be_bytes());
    assert_eq!(frame[36..38], 443u16.to_be_bytes());
    assert_eq!(frame[46], 0x80);
    assert_eq!(frame[47], 0x02);
    assert_eq!(frame[48..50], 64240u16.to_be_bytes());
    assert_eq!(frame[54..66], [2, 4, 0x05, 0xb4, 4, 2, 1, 1, 3, 3, 7, 0]);
}

#[test]
fn syn_probes_over_ipv6_have_the_stated_bytes() {
    let target = IpAddr::V6(DST_V6);
    let setting = setting_v6(vec![HostTarget::new(target, vec![22])]);
    let full = tcp_syn_probes(&setting);
    assert_eq!(full.len(), 1);
    let frame = &full[0].frame;
    assert_eq!(frame.len(), 98);
    assert_ethernet(frame, [0x86, 0xdd]);
    assert_ipv6(frame, 44, 6);
    assert_eq!(frame[54..56], DEFAULT_SRC_PORT.to_be_bytes());
    assert_eq!(frame[56..58], 22u16.to_be_bytes());
    assert_eq!(frame[66], 0xb0);
    assert_eq!(frame[67], 0x02);
    assert_eq!(frame[68..70], [0xff, 0xff]);
    let reduced = tcp_syn_probes_min(&setting);
    let frame = &reduced[0].frame;
    assert_eq!(frame.len(), 86);
    assert_ipv6(frame, 32, 6);
    assert_eq!(frame[66], 0x80);
    assert_eq!(frame[74..86], [2, 4, 0x05, 0xb4, 4, 2, 1, 1, 3, 3, 7, 0]);
}

#[test]
fn syn_probes_follow_targets_then_ports() {
    let a = IpAddr::v4(10, 0, 0, 5);
    let b = IpAddr::v4(10, 0, 0, 6);
    let setting = setting_v4(vec![HostTarget::new(a, vec![81, 22]), HostTarget::new(b, vec![80])]);
    let probes = tcp_syn_probes(&setting);
    assert_eq!(
        targets_of(&probes),
        vec![SocketAddr::new(a, 81), SocketAddr::new(a, 22), SocketAddr::new(b, 80)]
    );
    assert_eq!(probes[0].frame[30..34], [10, 0, 0, 5]);
    assert_eq!(probes[0].frame[36..38], 81u16.to_be_bytes());
    assert_eq!(probes[1].frame[30..34], [10, 0, 0, 5]);
    assert_eq!(probes[1].frame[36..38], 22u16.to_be_bytes());
    assert_eq!(probes[2].frame[30..34], [10, 0, 0, 6]);
    assert_eq!(probes[2].frame[36..38], 80u16.to_be_bytes());
    for probe in &probes {
        assert_eq!(probe.frame.len(), 78);
        assert_ethernet(&probe.frame, [0x08, 0x00]);
    }
}

#[test]
fn no_targets_no_probes() {
    let setting = setting_v4(vec![]);
    assert!(tcp_syn_probes(&setting).is_empty());
    assert!(tcp_syn_probes_min(&setting).is_empty());
    assert!(icmp_echo_probes(&setting).is_empty());
    assert!(udp_ping_probes(&setting).is_empty());
    assert!(port_scan_probes(&setting).is_empty());
}

#[test]
fn target_without_ports_gets_no_syn_probe() {
    let a = IpAddr::v4(10, 0, 0, 5);
    let b = IpAddr::v4(10, 0, 0, 6);
    let setting = setting_v4(vec![HostTarget::new(a, vec![]), HostTarget::new(b, vec![80])]);
    let probes = tcp_syn_probes(&setting);
    assert_eq!(targets_of(&probes), vec![SocketAddr::new(b, 80)]);
}

#[test]
fn target_of_the_other_family_is_passed_over() {
    let v6_only = IpAddr::V6(DST_V6);
    let v4 = IpAddr::v4(10, 0, 0, 6);
    let from_v4 = setting_v4(vec![HostTarget::new(v6_only, vec![80])]);
    assert!(tcp_syn_probes(&from_v4).is_empty());
    assert!(tcp_syn_probes_min(&from_v4).is_empty());
    assert!(icmp_echo_probes(&from_v4).is_empty());
    assert!(udp_ping_probes(&from_v4).is_empty());
    let from_v6 = setting_v6(vec![HostTarget::new(v4, vec![80]), HostTarget::new(v6_only, vec![80])]);
    let probes = tcp_syn_probes(&from_v6);
    assert_eq!(targets_of(&probes), vec![SocketAddr::new(v6_only, 80)]);
    let pings = icmp_echo_probes(&from_v6);
    assert_eq!(targets_of(&pings), vec![SocketAddr::new(v6_only, 0)]);
}

#[test]
fn echo_probe_over_ipv4_has_the_stated_bytes() {
    let a = IpAddr::v4(10, 0, 0, 5);
    let b = IpAddr::v4(10, 0, 0, 7);
    let setting = setting_v4(vec![HostTarget::new(a, vec![1, 2]), HostTarget::new(b, vec![])]);
    let probes = icmp_echo_probes(&setting);
    assert_eq!(targets_of(&probes), vec![SocketAddr::new(a, 0), SocketAddr::new(b, 0)]);
    let frame = &probes[0].frame;
    assert_eq!(frame.len(), 42);
    assert_ethernet(frame, [0x08, 0x00]);
    assert_ipv4(frame, 28, 1, [10, 0, 0, 5]);
    assert_eq!(frame[34], 8);
    assert_eq!(frame[35], 0);
    assert_eq!(ones_complement_sum(&frame[34..42]), 0xffff);
    assert_ipv4(&probes[1].frame, 28, 1, [10, 0, 0, 7]);
    assert_eq!(probes[1].frame[34], 8);
}

#[test]
fn echo_probe_over_ipv6_has_the_stated_bytes() {
    let setting = setting_v6(vec![HostTarget::new(IpAddr::V6(DST_V6), vec![])]);
    let probes = icmp_echo_probes(&setting);
    assert_eq!(probes.len(), 1);
    let frame = &probes[0].frame;
    assert_eq!(frame.len(), 62);
    assert_ethernet(frame, [0x86, 0xdd]);
    assert_ipv6(frame, 8, 58);
    assert_eq!(frame[54], 128);
    assert_eq!(frame[55], 0);
}

#[test]
fn udp_ping_goes_to_the_fixed_port_without_payload() {
    let a = IpAddr::v4(10, 0, 0, 5);
    let setting = setting_v4(vec![HostTarget::new(a, vec![53])]);
    let probes = udp_ping_probes(&setting);
    assert_eq!(targets_of(&probes), vec![SocketAddr::new(a, 0)]);
    let frame = &probes[0].frame;
    assert_eq!(frame.len(), 42);
    assert_ethernet(frame, [0x08, 0x00]);
    assert_ipv4(frame, 28, 17, [10, 0, 0, 5]);
    assert_eq!(frame[34..36], DEFAULT_SRC_PORT.to_be_bytes());
    assert_eq!(frame[36..38], UDP_BASE_DST_PORT.to_be_bytes());
    assert_eq!(UDP_BASE_DST_PORT, 33435);
    assert_eq!(frame[38..40], [0, 8]);
}

#[test]
fn udp_ping_over_ipv6_has_the_stated_bytes() {
    let setting = setting_v6(vec![HostTarget::new(IpAddr::V6(DST_V6), vec![])]);
    let probes = udp_ping_probes(&setting);
    let frame = &probes[0].frame;
    assert_eq!(frame.len(), 62);
    assert_ethernet(frame, [0x86, 0xdd]);
    assert_ipv6(frame, 8, 17);
    assert_eq!(frame[56..58], 33435u16.to_be_bytes());
    assert_eq!(frame[58..60], [0, 8]);
}

#[test]
fn ping_plan_follows_the_kind_of_scan() {
    let a = IpAddr::v4(10, 0, 0, 5);
    let mut setting = setting_v4(vec![HostTarget::new(a, vec![80, 443])]);
    setting.scan_type = ScanType::IcmpPingScan;
    let echo = ping_probes(&setting);
    assert_eq!(echo.len(), 1);
    assert_eq!(echo[0].frame[23], 1);
    setting.scan_type = ScanType::UdpPingScan;
    let udp = ping_probes(&setting);
    assert_eq!(udp.len(), 1);
    assert_eq!(udp[0].frame[23], 17);
    setting.scan_type = ScanType::TcpPingScan;
    let tcp = ping_probes(&setting);
    assert_eq!(targets_of(&tcp), vec![SocketAddr::new(a, 80), SocketAddr::new(a, 443)]);
    assert_eq!(tcp[0].frame.len(), 78);
    setting.minimize_packet = true;
    assert_eq!(ping_probes(&setting)[0].frame.len(), 66);
    setting.scan_type = ScanType::TcpSynScan;
    assert!(ping_probes(&setting).is_empty());
    setting.scan_type = ScanType::TcpConnectScan;
    assert!(ping_probes(&setting).is_empty());
}

#[test]
fn port_scan_plan_follows_the_kind_of_scan() {
    let a = IpAddr::v4(10, 0, 0, 5);
    let mut setting = setting_v4(vec![HostTarget::new(a, vec![80, 443])]);
    setting.scan_type = ScanType::TcpSynScan;
    let full = port_scan_probes(&setting);
    assert_eq!(full.len(), 2);
    assert_eq!(full[1].frame.len(), 78);
    setting.minimize_packet = true;
    let reduced = port_scan_probes(&setting);
    assert_eq!(reduced.len(), 2);
    assert_eq!(reduced[1].frame.len(), 66);
    setting.scan_type = ScanType::TcpConnectScan;
    assert!(port_scan_probes(&setting).is_empty());
}

#[test]
fn syn_options_are_the_stated_lists() {
    assert_eq!(
        make_syn_options(false),
        vec![
            TcpOption::Mss(1460),
            TcpOption::Nop,
            TcpOption::WindowScale(6),
            TcpOption::Nop,
            TcpOption::Nop,
            TcpOption::Timestamp(u32::MAX, 0),
            TcpOption::SackPermitted,
        ]
    );
    assert_eq!(
        make_syn_options(true),
        vec![
            TcpOption::Mss(1460),
            TcpOption::SackPermitted,
            TcpOption::Nop,
            TcpOption::Nop,
            TcpOption::WindowScale(7),
        ]
    );
}

#[test]
fn many_ports_give_as_many_probes() {
    let a = IpAddr::v4(10, 0, 0, 5);
    let setting = setting_v4(vec![HostTarget::new_with_port_range(a, 1, 1000)]);
    let probes = tcp_syn_probes(&setting);
    assert_eq!(probes.len(), 1000);
    assert_eq!(probes[0].target, SocketAddr::new(a, 1));
    assert_eq!(probes[999].target, SocketAddr::new(a, 1000));
    assert_eq!(probes[999].frame[36..38], 1000u16.to_be_bytes());
}

#[test]
fn tcp_ping_of_a_target_without_ports_sends_one_probe() {
    let a = IpAddr::v4(10, 0, 0, 5);
    let mut setting = setting_v4(vec![HostTarget::new(a, vec![])]);
    setting.scan_type = ScanType::TcpPingScan;
    let probes = ping_probes(&setting);
    assert_eq!(targets_of(&probes), vec![SocketAddr::new(a, 0)]);
    let frame = &probes[0].frame;
    assert_eq!(frame.len(), 78);
    assert_ethernet(frame, [0x08, 0x00]);
    assert_ipv4(frame, 64, 6, [10, 0, 0, 5]);
    assert_eq!(frame[34..36], DEFAULT_SRC_PORT.to_be_bytes());
    assert_eq!(frame[36..38], 80u16.to_be_bytes());
    assert_eq!(TCP_PING_PORT, 80);
    assert_eq!(frame[47], 0x02);
    setting.minimize_packet = true;
    let reduced = ping_probes(&setting);
    assert_eq!(targets_of(&reduced), vec![SocketAddr::new(a, 0)]);
    assert_eq!(reduced[0].frame.len(), 66);
    assert_eq!(reduced[0].frame[36..38], 80u16.to_be_bytes());
}

#[test]
fn tcp_ping_mixes_targets_with_and_without_ports() {
    let a = IpAddr::v4(10, 0, 0, 5);
    let b = IpAddr::v4(10, 0, 0, 6);
    let c = IpAddr::v4(10, 0, 0, 7);
    let other = IpAddr::V6(DST_V6);
    let mut setting = setting_v4(vec![
        HostTarget::new(a, vec![]),
        HostTarget::new(other, vec![]),
        HostTarget::new(b, vec![443, 0]),
        HostTarget::new(c, vec![]),
    ]);
    setting.scan_type = ScanType::TcpPingScan;
    let probes = tcp_ping_probes(&setting);
    assert_eq!(
        targets_of(&probes),
        vec![
            SocketAddr::new(a, 0),
            SocketAddr::new(b, 443),
            SocketAddr::new(b, 0),
            SocketAddr::new(c, 0),
        ]
    );
    let sent_to: Vec<(Vec<u8>, Vec<u8>)> =
        probes.iter().map(|p| (p.frame[30..34].to_vec(), p.frame[36..38].to_vec())).collect();
    assert_eq!(
        sent_to,
        vec![
            (vec![10, 0, 0, 5], 80u16.to_be_bytes().to_vec()),
            (vec![10, 0, 0, 6], 443u16.to_be_bytes().to_vec()),
            (vec![10, 0, 0, 6], 0u16.to_be_bytes().to_vec()),
            (vec![10, 0, 0, 7], 80u16.to_be_bytes().to_vec()),
        ]
    );
    assert_eq!(targets_of(&ping_probes(&setting)), targets_of(&probes));
}

#[test]
fn port_scan_still_sends_nothing_to_a_target_without_ports() {
    let a = IpAddr::v4(10, 0, 0, 5);
    let mut setting = setting_v4(vec![HostTarget::new(a, vec![])]);
    setting.scan_type = ScanType::TcpSynScan;
    assert!(port_scan_probes(&setting).is_empty());
    assert!(tcp_syn_probes(&setting).is_empty());
    assert!(tcp_syn_probes_min(&setting).is_empty());
}
