use netscan::addr::{IpAddr, MacAddr};
use netscan::async_scanner::{AsyncHostScanner, AsyncPortScanner};
use netscan::base_type::{HostScanResult, PortScanResult, PortScanType};
use netscan::host::{HostInfo, HostTarget, PortInfo, PortStatus};
use netscan::interface::{
    find_by_index, find_by_name, get_interface_index_by_name, index_of_name, source_ip,
    InterfaceInfo,
};
use netscan::result::{ScanResult, ScanStatus};
use netscan::scanner::{
    host_addresses, host_ports, targets_without_ports, HostScanner, PortScanner, PrepareError,
};
use netscan::setting::{ScanType, DEFAULT_SRC_PORT};
use netscan::time::Duration;

fn found(status: ScanStatus) -> ScanResult {
    let mut result = ScanResult::new();
    result.scan_status = status;
    result.hosts = vec![
        HostInfo {
            ip_addr: IpAddr::v4(10, 0, 0, 7),
            host_name: String::new(),
            ttl: 64,
            ports: vec![PortInfo::new(1, PortStatus::Closed)],
        },
        HostInfo {
            ip_addr: IpAddr::v4(10, 0, 0, 5),
            host_name: String::new(),
            ttl: 64,
            ports: vec![PortInfo::new(22, PortStatus::Open), PortInfo::new(81, PortStatus::Closed)],
        },
    ];
    result
}

fn interface(index: u32, name: &str, mac: Option<MacAddr>, ips: Vec<IpAddr>) -> InterfaceInfo {
    InterfaceInfo { index, name: String::from(name), mac, ips }
}

#[test]
fn new_host_scanner_has_the_stated_defaults() {
    let scanner = HostScanner::new().unwrap();
    assert_eq!(scanner.get_src_ipaddr(), IpAddr::v4(127, 0, 0, 1));
    assert!(scanner.get_target_hosts().is_empty());
    assert_eq!(scanner.get_timeout(), Duration::from_millis(10000));
    assert_eq!(scanner.get_wait_time(), Duration::from_millis(200));
    let result = scanner.get_result();
    assert!(result.up_hosts.is_empty());
    assert_eq!(result.scan_time, Duration::from_millis(1));
    assert_eq!(result.scan_status, ScanStatus::Ready);
}

#[test]
fn host_scanner_setters_change_one_field() {
    let mut scanner = HostScanner::new().unwrap();
    scanner.add_ipaddr("10.0.0.5");
    scanner.add_ipaddr("not an address");
    scanner.add_ipaddr("10.0.0.0/24");
    scanner.add_ipaddr("::1");
    scanner.add_parsed(None);
    scanner.add_parsed(Some(IpAddr::V4(9)));
    assert_eq!(
        scanner.get_target_hosts(),
        vec![IpAddr::v4(10, 0, 0, 5), IpAddr::V6(1), IpAddr::V4(9)]
    );
    scanner.set_timeout(Duration::from_millis(7));
    scanner.set_wait_time(Duration::from_millis(8));
    scanner.set_src_ipaddr(IpAddr::v4(10, 0, 0, 1));
    assert_eq!(scanner.get_timeout(), Duration::from_millis(7));
    assert_eq!(scanner.get_wait_time(), Duration::from_millis(8));
    assert_eq!(scanner.get_src_ipaddr(), IpAddr::v4(10, 0, 0, 1));
    assert_eq!(scanner.get_target_hosts().len(), 3);
}

#[test]
fn host_scanner_scans_with_echo_requests() {
    let mut scanner = HostScanner::new().unwrap();
    scanner.add_ipaddr("10.0.0.5");
    scanner.add_ipaddr("10.0.0.6");
    scanner.set_timeout(Duration::from_millis(900));
    let setting = scanner.scan_setting();
    assert_eq!(setting.scan_type, ScanType::IcmpPingScan);
    assert_eq!(setting.src_ip, IpAddr::v4(127, 0, 0, 1));
    assert_eq!(setting.src_port, DEFAULT_SRC_PORT);
    assert_eq!(
        setting.targets,
        vec![
            HostTarget::new(IpAddr::v4(10, 0, 0, 5), vec![]),
            HostTarget::new(IpAddr::v4(10, 0, 0, 6), vec![]),
        ]
    );
    assert_eq!(setting.timeout, Duration::from_millis(900));
    assert_eq!(setting.wait_time, Duration::from_millis(200));
    assert_eq!(setting.send_rate, Duration::from_millis(1));
    assert_eq!(setting.src_mac, MacAddr::zero());
    assert!(!setting.minimize_packet);
}

#[test]
fn host_scanner_keeps_the_hosts_found() {
    let mut scanner = HostScanner::new().unwrap();
    scanner.store_result(&found(ScanStatus::Done), Duration::from_millis(321));
    let result = scanner.get_result();
    assert_eq!(result.up_hosts, vec![IpAddr::v4(10, 0, 0, 7), IpAddr::v4(10, 0, 0, 5)]);
    assert_eq!(result.scan_time, Duration::from_millis(321));
    assert_eq!(result.scan_status, ScanStatus::Done);
    assert_eq!(scanner.get_timeout(), Duration::from_millis(10000));
    assert_eq!(host_addresses(&Vec::new()), Vec::new());
}

#[test]
fn port_scanner_on_a_found_interface() {
    let scanner = PortScanner::with_interface(Some("eth0"), Some(4)).unwrap();
    assert_eq!(scanner.get_if_index(), 4);
    assert_eq!(scanner.get_if_name(), "eth0");
    assert_eq!(scanner.src_mac, MacAddr::zero());
    assert_eq!(scanner.dst_mac, MacAddr::zero());
    assert_eq!(scanner.src_ip, IpAddr::v4(127, 0, 0, 1));
    assert_eq!(scanner.get_target_ipaddr(), IpAddr::v4(127, 0, 0, 1));
    assert_eq!(scanner.get_src_port_num(), DEFAULT_SRC_PORT);
    assert!(scanner.get_target_ports().is_empty());
    assert_eq!(scanner.get_scan_type(), PortScanType::SynScan);
    assert_eq!(scanner.get_timeout(), Duration::from_millis(30000));
    assert_eq!(scanner.get_wait_time(), Duration::from_millis(100));
    assert_eq!(scanner.get_send_rate(), Duration::from_millis(0));
    assert_eq!(scanner.get_result(), PortScanResult::new());
    let unnamed = PortScanner::with_interface(None, Some(2)).unwrap();
    assert_eq!(unnamed.get_if_index(), 2);
    assert_eq!(unnamed.get_if_name(), "");
}

#[test]
fn port_scanner_without_interface_fails() {
    assert_eq!(
        PortScanner::with_interface(Some("eth0"), None).err(),
        Some(String::from("Failed to get interface info by name."))
    );
    assert_eq!(
        PortScanner::with_interface(None, None).err(),
        Some(String::from("Failed to get default interface info."))
    );
    assert_eq!(
        PortScanner::new(Some("no-such-interface-zz9")).err(),
        Some(String::from("Failed to get interface info by name."))
    );
}

#[test]
fn port_scanner_on_the_default_interface() {
    match PortScanner::new(None) {
        Ok(scanner) => {
            assert_eq!(scanner.get_if_name(), "");
            assert_eq!(scanner.get_scan_type(), PortScanType::SynScan);
            assert!(scanner.get_target_ports().is_empty());
        }
        Err(message) => assert_eq!(message, "Failed to get default interface info."),
    }
}

#[test]
fn port_scanner_setters_change_one_field() {
    let mut scanner = PortScanner::with_interface(None, Some(1)).unwrap();
    scanner.set_target_ipaddr(IpAddr::v4(192, 168, 1, 8));
    scanner.add_target_port(22);
    scanner.set_range(80, 82);
    scanner.set_range(9, 8);
    scanner.add_target_port(22);
    scanner.set_scan_type(PortScanType::ConnectScan);
    scanner.set_timeout(Duration::from_millis(10000));
    scanner.set_wait_time(Duration::from_millis(150));
    scanner.set_send_rate(Duration::from_millis(1));
    scanner.set_src_port(40000);
    assert_eq!(scanner.get_target_ipaddr(), IpAddr::v4(192, 168, 1, 8));
    assert_eq!(scanner.get_target_ports(), vec![22, 80, 81, 82, 22]);
    assert_eq!(scanner.get_scan_type(), PortScanType::ConnectScan);
    assert_eq!(scanner.get_timeout(), Duration::from_millis(10000));
    assert_eq!(scanner.get_wait_time(), Duration::from_millis(150));
    assert_eq!(scanner.get_send_rate(), Duration::from_millis(1));
    assert_eq!(scanner.get_src_port_num(), 40000);
    assert_eq!(scanner.get_if_index(), 1);
}

#[test]
fn port_scanner_range_reaches_the_last_port() {
    let mut scanner = PortScanner::with_interface(None, Some(1)).unwrap();
    scanner.set_range(65533, 65535);
    assert_eq!(scanner.get_target_ports(), vec![65533, 65534, 65535]);
}

#[test]
fn port_scanner_is_made_ready_from_its_interface() {
    let gateway = MacAddr(9, 9, 9, 9, 9, 9);
    let own = MacAddr(2, 0, 0, 0, 0, 1);
    let interfaces = vec![
        interface(1, "lo", None, vec![IpAddr::v4(127, 0, 0, 1)]),
        interface(4, "eth0", Some(own), vec![IpAddr::v4(10, 0, 0, 1), IpAddr::V6(0xfe80 << 112 | 1)]),
        interface(4, "dup", Some(MacAddr(7, 7, 7, 7, 7, 7)), vec![]),
        interface(5, "bare", Some(own), vec![]),
    ];
    let mut scanner = PortScanner::with_interface(Some("eth0"), Some(4)).unwrap();
    assert_eq!(scanner.prepare(&interfaces, gateway), Ok(()));
    assert_eq!(scanner.src_mac, own);
    assert_eq!(scanner.dst_mac, gateway);
    assert_eq!(scanner.src_ip, IpAddr::V6(0xfe80 << 112 | 1));
    scanner.set_scan_type(PortScanType::ConnectScan);
    assert_eq!(scanner.prepare(&interfaces, gateway), Ok(()));
    assert_eq!(scanner.dst_mac, MacAddr::zero());
    let mut bare = PortScanner::with_interface(None, Some(5)).unwrap();
    assert_eq!(bare.prepare(&interfaces, gateway), Ok(()));
    assert_eq!(bare.src_ip, IpAddr::v4(127, 0, 0, 1));
    let mut no_mac = PortScanner::with_interface(None, Some(1)).unwrap();
    assert_eq!(no_mac.prepare(&interfaces, gateway), Err(PrepareError::NoMacAddress));
    assert_eq!(no_mac.src_mac, MacAddr::zero());
    assert_eq!(no_mac.dst_mac, MacAddr::zero());
    let mut missing = PortScanner::with_interface(None, Some(77)).unwrap();
    assert_eq!(missing.prepare(&interfaces, gateway), Err(PrepareError::InterfaceNotFound));
    assert_eq!(missing.src_ip, IpAddr::v4(127, 0, 0, 1));
}

#[test]
fn port_scanner_scans_its_ports_on_its_host() {
    let mut scanner = PortScanner::with_interface(Some("eth0"), Some(4)).unwrap();
    scanner.set_target_ipaddr(IpAddr::v4(10, 0, 0, 5));
    scanner.set_range(22, 23);
    scanner.set_src_port(1234);
    scanner.set_send_rate(Duration::from_millis(2));
    let setting = scanner.scan_setting();
    assert_eq!(setting.if_index, 4);
    assert_eq!(setting.if_name, "eth0");
    assert_eq!(setting.scan_type, ScanType::TcpSynScan);
    assert_eq!(setting.targets, vec![HostTarget::new(IpAddr::v4(10, 0, 0, 5), vec![22, 23])]);
    assert_eq!(setting.src_port, 1234);
    assert_eq!(setting.send_rate, Duration::from_millis(2));
    assert_eq!(setting.timeout, Duration::from_millis(30000));
    scanner.set_scan_type(PortScanType::ConnectScan);
    assert_eq!(scanner.scan_setting().scan_type, ScanType::TcpConnectScan);
    assert_eq!(PortScanType::SynScan.scan_type(), ScanType::TcpSynScan);
}

#[test]
fn port_scanner_keeps_the_ports_of_its_host() {
    let mut scanner = PortScanner::with_interface(None, Some(1)).unwrap();
    scanner.set_target_ipaddr(IpAddr::v4(10, 0, 0, 5));
    scanner.store_result(&found(ScanStatus::Timeout), Duration::from_millis(50));
    let result = scanner.get_result();
    assert_eq!(
        result.ports,
        vec![PortInfo::new(22, PortStatus::Open), PortInfo::new(81, PortStatus::Closed)]
    );
    assert_eq!(result.scan_status, ScanStatus::Timeout);
    assert_eq!(result.scan_time, Duration::from_millis(50));
    scanner.set_target_ipaddr(IpAddr::v4(10, 0, 0, 9));
    scanner.store_result(&found(ScanStatus::Done), Duration::from_millis(51));
    assert!(scanner.get_result().ports.is_empty());
    assert_eq!(host_ports(&found(ScanStatus::Done).hosts, IpAddr::v4(10, 0, 0, 7)).len(), 1);
}

#[test]
fn interfaces_are_found_by_name_and_index() {
    let interfaces = vec![
        interface(1, "lo", None, vec![]),
        interface(4, "eth0", None, vec![]),
        interface(6, "eth0", None, vec![]),
        interface(4, "wlan0", None, vec![]),
    ];
    assert_eq!(find_by_name(&interfaces, "eth0"), Some(1));
    assert_eq!(find_by_name(&interfaces, "wlan0"), Some(3));
    assert_eq!(find_by_name(&interfaces, "eth"), None);
    assert_eq!(index_of_name(&interfaces, "eth0"), Some(4));
    assert_eq!(index_of_name(&interfaces, "lo"), Some(1));
    assert_eq!(index_of_name(&interfaces, ""), None);
    assert_eq!(find_by_index(&interfaces, 4), Some(1));
    assert_eq!(find_by_index(&interfaces, 6), Some(2));
    assert_eq!(find_by_index(&interfaces, 0), None);
    assert_eq!(find_by_index(&Vec::new(), 0), None);
}

#[test]
fn unknown_interfaces_are_not_found_on_this_machine() {
    assert_eq!(get_interface_index_by_name(String::from("no-such-interface-zz9")), None);
}

#[test]
fn probes_leave_from_the_last_address() {
    assert_eq!(source_ip(&Vec::new()), IpAddr::v4(127, 0, 0, 1));
    assert_eq!(source_ip(&vec![IpAddr::v4(10, 0, 0, 1)]), IpAddr::v4(10, 0, 0, 1));
    assert_eq!(source_ip(&vec![IpAddr::v4(10, 0, 0, 1), IpAddr::V6(3)]), IpAddr::V6(3));
}

#[test]
fn new_async_host_scanner_has_the_stated_defaults() {
    let scanner = AsyncHostScanner::new(IpAddr::v4(192, 168, 1, 4)).unwrap();
    assert_eq!(scanner.get_src_ip(), IpAddr::v4(192, 168, 1, 4));
    assert!(scanner.get_dst_ips().is_empty());
    assert_eq!(scanner.get_timeout(), Duration::from_millis(30000));
    assert_eq!(scanner.get_wait_time(), Duration::from_millis(100));
    assert_eq!(scanner.get_scan_result(), HostScanResult::new());
    assert_eq!(HostScanResult::new().scan_status, ScanStatus::Ready);
    assert!(HostScanResult::new().scan_time.is_zero());
}

#[test]
fn async_host_scanner_setters_change_one_field() {
    let mut scanner = AsyncHostScanner::new(IpAddr::v4(192, 168, 1, 4)).unwrap();
    scanner.set_src_ip(IpAddr::V6(1));
    scanner.add_dst_ip(IpAddr::V6(2));
    scanner.add_dst_ip(IpAddr::V6(3));
    assert_eq!(scanner.get_dst_ips(), vec![IpAddr::V6(2), IpAddr::V6(3)]);
    scanner.set_dst_ips(vec![IpAddr::V6(9)]);
    scanner.set_timeout(Duration::from_millis(11));
    scanner.set_wait_time(Duration::from_millis(12));
    let kept = HostScanResult {
        up_hosts: vec![IpAddr::V6(9)],
        scan_time: Duration::from_millis(3),
        scan_status: ScanStatus::Done,
    };
    scanner.set_scan_result(kept.duplicate());
    assert_eq!(scanner.get_src_ip(), IpAddr::V6(1));
    assert_eq!(scanner.get_dst_ips(), vec![IpAddr::V6(9)]);
    assert_eq!(scanner.get_timeout(), Duration::from_millis(11));
    assert_eq!(scanner.get_wait_time(), Duration::from_millis(12));
    assert_eq!(scanner.get_scan_result(), kept);
}

#[test]
fn async_host_scanner_scans_and_keeps() {
    let mut scanner = AsyncHostScanner::new(IpAddr::v4(10, 0, 0, 1)).unwrap();
    scanner.add_dst_ip(IpAddr::v4(10, 0, 0, 5));
    let setting = scanner.scan_setting();
    assert_eq!(setting.scan_type, ScanType::IcmpPingScan);
    assert_eq!(setting.src_ip, IpAddr::v4(10, 0, 0, 1));
    assert_eq!(setting.targets, targets_without_ports(&vec![IpAddr::v4(10, 0, 0, 5)]));
    assert_eq!(setting.send_rate, Duration::from_millis(1));
    assert_eq!(setting.timeout, Duration::from_millis(30000));
    scanner.store_result(&found(ScanStatus::Done), Duration::from_millis(4));
    assert_eq!(
        scanner.get_scan_result().up_hosts,
        vec![IpAddr::v4(10, 0, 0, 7), IpAddr::v4(10, 0, 0, 5)]
    );
    assert_eq!(scanner.get_scan_result().scan_time, Duration::from_millis(4));
}

#[test]
fn new_async_port_scanner_has_the_stated_defaults() {
    let scanner = AsyncPortScanner::new(IpAddr::v4(192, 168, 1, 4)).unwrap();
    assert_eq!(scanner.get_src_ip(), IpAddr::v4(192, 168, 1, 4));
    assert_eq!(scanner.get_dst_ip(), IpAddr::v4(127, 0, 0, 1));
    assert_eq!(scanner.get_src_port(), DEFAULT_SRC_PORT);
    assert!(scanner.get_dst_ports().is_empty());
    assert_eq!(scanner.get_scan_type(), PortScanType::SynScan);
    assert_eq!(scanner.get_timeout(), Duration::from_millis(30000));
    assert_eq!(scanner.get_wait_time(), Duration::from_millis(100));
    assert_eq!(scanner.get_send_rate(), Duration::from_millis(30000));
    assert_eq!(scanner.get_scan_result(), PortScanResult::new());
}

#[test]
fn async_port_scanner_setters_change_one_field() {
    let mut scanner = AsyncPortScanner::new(IpAddr::v4(192, 168, 1, 4)).unwrap();
    scanner.set_src_ip(IpAddr::v4(10, 0, 0, 1));
    scanner.set_dst_ip(IpAddr::v4(10, 0, 0, 5));
    scanner.set_src_port(5555);
    scanner.add_dst_port(443);
    scanner.set_dst_port_range(1, 3);
    assert_eq!(scanner.get_dst_ports(), vec![443, 1, 2, 3]);
    scanner.set_dst_ports(vec![8080]);
    scanner.set_scan_type(PortScanType::ConnectScan);
    scanner.set_timeout(Duration::from_millis(1));
    scanner.set_wait_time(Duration::from_millis(2));
    scanner.set_send_rate(Duration::from_millis(3));
    let kept = PortScanResult {
        ports: vec![PortInfo::new(8080, PortStatus::Open)],
        scan_time: Duration::from_millis(9),
        scan_status: ScanStatus::Done,
    };
    scanner.set_scan_result(kept.duplicate());
    assert_eq!(scanner.get_src_ip(), IpAddr::v4(10, 0, 0, 1));
    assert_eq!(scanner.get_dst_ip(), IpAddr::v4(10, 0, 0, 5));
    assert_eq!(scanner.get_src_port(), 5555);
    assert_eq!(scanner.get_dst_ports(), vec![8080]);
    assert_eq!(scanner.get_scan_type(), PortScanType::ConnectScan);
    assert_eq!(scanner.get_timeout(), Duration::from_millis(1));
    assert_eq!(scanner.get_wait_time(), Duration::from_millis(2));
    assert_eq!(scanner.get_send_rate(), Duration::from_millis(3));
    assert_eq!(scanner.get_scan_result(), kept);
}

#[test]
fn async_port_scanner_scans_and_keeps() {
    let mut scanner = AsyncPortScanner::new(IpAddr::v4(10, 0, 0, 1)).unwrap();
    scanner.set_dst_ip(IpAddr::v4(10, 0, 0, 5));
    scanner.set_dst_ports(vec![22, 81]);
    let setting = scanner.scan_setting();
    assert_eq!(setting.if_index, 0);
    assert_eq!(setting.scan_type, ScanType::TcpSynScan);
    assert_eq!(setting.src_ip, IpAddr::v4(10, 0, 0, 1));
    assert_eq!(setting.src_port, DEFAULT_SRC_PORT);
    assert_eq!(setting.targets, vec![HostTarget::new(IpAddr::v4(10, 0, 0, 5), vec![22, 81])]);
    assert_eq!(setting.send_rate, Duration::from_millis(30000));
    scanner.store_result(&found(ScanStatus::Done), Duration::from_millis(4));
    assert_eq!(
        scanner.get_scan_result().ports,
        vec![PortInfo::new(22, PortStatus::Open), PortInfo::new(81, PortStatus::Closed)]
    );
    assert_eq!(scanner.get_scan_result().scan_status, ScanStatus::Done);
}
