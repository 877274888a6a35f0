use netscan::addr::{copy_ips, has_char, parse_ip, IpAddr, MacAddr, SocketAddr};
use netscan::host::{
    copy_ports, push_port_range, same_ports, HostInfo, HostTarget, PortInfo, PortStatus,
};
use netscan::setting::{IpMap, ScanSetting, ScanType, DEFAULT_SRC_PORT};
use netscan::time::Duration;

#[test]
fn ipv4_address_from_octets() {
    assert_eq!(IpAddr::v4(10, 0, 0, 5), IpAddr::V4(0x0a00_0005));
    assert_eq!(IpAddr::v4(255, 255, 255, 255), IpAddr::V4(u32::MAX));
    assert_eq!(IpAddr::v4(0, 0, 0, 0), IpAddr::V4(0));
    assert_eq!(IpAddr::v4(192, 168, 1, 4), IpAddr::V4(0xc0a8_0104));
    assert_eq!(IpAddr::localhost(), IpAddr::v4(127, 0, 0, 1));
}

#[test]
fn address_families() {
    let v4 = IpAddr::v4(10, 0, 0, 5);
    let v6 = IpAddr::V6(1);
    assert!(v4.is_ipv4());
    assert!(!v4.is_ipv6());
    assert!(v6.is_ipv6());
    assert!(!v6.is_ipv4());
    assert!(v4.same_family(&IpAddr::V4(0)));
    assert!(v6.same_family(&IpAddr::V6(9)));
    assert!(!v4.same_family(&v6));
    assert!(!v6.same_family(&v4));
}

#[test]
fn addresses_are_read_from_text() {
    assert_eq!(parse_ip("10.0.0.5"), Some(IpAddr::v4(10, 0, 0, 5)));
    assert_eq!(parse_ip("255.255.255.255"), Some(IpAddr::V4(u32::MAX)));
    assert_eq!(parse_ip("::1"), Some(IpAddr::V6(1)));
    assert_eq!(
        parse_ip("2001:db8::5"),
        Some(IpAddr::V6(0x2001_0db8_0000_0000_0000_0000_0000_0005))
    );
    assert_eq!(parse_ip("10.0.0.0/8"), None);
    assert_eq!(parse_ip("10.0.0.5/32"), None);
    assert_eq!(parse_ip("::1/128"), None);
    assert_eq!(parse_ip("10.0.0"), None);
    assert_eq!(parse_ip("10.0.0.256"), None);
    assert_eq!(parse_ip("host.example"), None);
    assert_eq!(parse_ip(""), None);
    assert_eq!(parse_ip(" 10.0.0.5"), None);
}

#[test]
fn characters_are_found_in_text() {
    assert!(has_char("a/b", '/'));
    assert!(has_char("/", '/'));
    assert!(!has_char("", '/'));
    assert!(!has_char("ab", '/'));
    assert!(has_char("\u{e9}t\u{e9}/", '/'));
}

#[test]
fn sockets_and_link_addresses() {
    let socket = SocketAddr::new(IpAddr::V6(7), 443);
    assert_eq!(socket.ip, IpAddr::V6(7));
    assert_eq!(socket.port, 443);
    assert_eq!(MacAddr::zero(), MacAddr(0, 0, 0, 0, 0, 0));
    assert_eq!(MacAddr::new(1, 2, 3, 4, 5, 6), MacAddr(1, 2, 3, 4, 5, 6));
    assert_eq!(copy_ips(&vec![IpAddr::V4(1), IpAddr::V6(2)]), vec![IpAddr::V4(1), IpAddr::V6(2)]);
}

#[test]
fn durations_from_milliseconds() {
    let d = Duration::from_millis(1500);
    assert_eq!(d.as_secs(), 1);
    assert_eq!(d.subsec_nanos(), 500_000_000);
    assert_eq!(d.as_millis(), 1500);
    assert!(!d.is_zero());
    assert!(Duration::from_millis(0).is_zero());
    assert_eq!(Duration::from_millis(u64::MAX).as_millis(), 18_446_744_073_709_551_615);
    assert_eq!(Duration::from_millis(u64::MAX).as_secs(), 18_446_744_073_709_551);
    assert_eq!(Duration::from_millis(u64::MAX).subsec_nanos(), 615_000_000);
    assert_eq!(Duration::from_secs(3), Duration::from_millis(3000));
    assert_eq!(Duration::new(2, 999_999_999).as_millis(), 2999);
    assert_eq!(Duration::new(2, 999_999_999).subsec_nanos(), 999_999_999);
    assert_eq!(Duration::new(2, 3_000_000_001), Duration::new(5, 1));
    assert_eq!(Duration::new(0, 1_000_000_000), Duration::from_secs(1));
    assert_eq!(Duration::new(u64::MAX, 999_999_999).as_secs(), u64::MAX);
}

#[test]
fn durations_are_compared_by_length() {
    let short = Duration::from_millis(100);
    let long = Duration::new(0, 100_000_001);
    assert!(long.is_longer_than(&short));
    assert!(!short.is_longer_than(&long));
    assert!(!short.is_longer_than(&short));
    assert!(Duration::from_secs(1).is_longer_than(&Duration::new(0, 999_999_999)));
    assert!(!Duration::new(0, 999_999_999).is_longer_than(&Duration::from_secs(1)));
}

#[test]
fn port_ranges() {
    let mut ports = vec![9];
    push_port_range(&mut ports, 20, 23);
    assert_eq!(ports, vec![9, 20, 21, 22, 23]);
    push_port_range(&mut ports, 5, 5);
    assert_eq!(ports, vec![9, 20, 21, 22, 23, 5]);
    push_port_range(&mut ports, 6, 5);
    assert_eq!(ports.len(), 6);
    let mut top = Vec::new();
    push_port_range(&mut top, 65534, 65535);
    assert_eq!(top, vec![65534, 65535]);
    let mut all = Vec::new();
    push_port_range(&mut all, 0, 65535);
    assert_eq!(all.len(), 65536);
    assert_eq!(all[0], 0);
    assert_eq!(all[65535], 65535);
}

#[test]
fn targets_and_their_ports() {
    let ip = IpAddr::v4(192, 168, 1, 8);
    let target = HostTarget::new_with_port_range(ip, 1, 1000);
    assert_eq!(target.ip_addr, ip);
    assert_eq!(target.ports.len(), 1000);
    assert_eq!(target.ports[0], 1);
    assert_eq!(target.ports[999], 1000);
    assert_eq!(target.get_ports(), target.ports);
    assert_eq!(target.duplicate(), target);
    let listed = HostTarget::new(ip, vec![22, 80, 443, 5000, 8080]);
    assert_eq!(listed.get_ports(), vec![22, 80, 443, 5000, 8080]);
    assert!(HostTarget::new_with_port_range(ip, 10, 9).ports.is_empty());
}

#[test]
fn hosts_are_compared_field_by_field() {
    let ip = IpAddr::v4(10, 0, 0, 5);
    let mut host = HostInfo::new(ip, String::from("a"), 64);
    assert!(host.ports.is_empty());
    host.ports.push(PortInfo::new(22, PortStatus::Open));
    host.ports.push(PortInfo::new(23, PortStatus::Filtered));
    let copy = host.duplicate();
    assert_eq!(copy, host);
    assert!(host.same_as(&copy));
    let mut other = host.duplicate();
    other.ttl = 63;
    assert!(!host.same_as(&other));
    let mut other = host.duplicate();
    other.host_name = String::from("b");
    assert!(!host.same_as(&other));
    let mut other = host.duplicate();
    other.ip_addr = IpAddr::v4(10, 0, 0, 6);
    assert!(!host.same_as(&other));
    let mut other = host.duplicate();
    other.ports[1].status = PortStatus::Closed;
    assert!(!host.same_as(&other));
    let mut other = host.duplicate();
    other.ports.pop();
    assert!(!host.same_as(&other));
    assert!(same_ports(&host.ports, &copy_ports(&host.ports)));
    assert!(!same_ports(&host.ports, &other.ports));
}

#[test]
fn new_setting_has_the_stated_defaults() {
    let setting = ScanSetting::new();
    assert_eq!(setting.if_index, 0);
    assert_eq!(setting.if_name, "");
    assert_eq!(setting.src_mac, MacAddr::zero());
    assert_eq!(setting.dst_mac, MacAddr::zero());
    assert_eq!(setting.src_ip, IpAddr::v4(127, 0, 0, 1));
    assert_eq!(setting.src_port, DEFAULT_SRC_PORT);
    assert!(setting.targets.is_empty());
    assert_eq!(setting.scan_type, ScanType::TcpSynScan);
    assert_eq!(setting.timeout, Duration::from_millis(30000));
    assert_eq!(setting.wait_time, Duration::from_millis(100));
    assert!(setting.send_rate.is_zero());
    assert!(!setting.minimize_packet);
    assert!(!setting.tunnel);
    assert!(!setting.loopback);
    assert_eq!(setting.ip_map.get(&IpAddr::v4(127, 0, 0, 1)), None);
}

#[test]
fn name_map_keeps_the_last_name() {
    let mut names = IpMap::new();
    let a = IpAddr::v4(10, 0, 0, 5);
    assert_eq!(names.name_of(&a), "");
    names.insert(a, String::from("first"));
    names.insert(IpAddr::V6(5), String::from("six"));
    names.insert(a, String::from("second"));
    assert_eq!(names.name_of(&a), "second");
    assert_eq!(names.name_of(&IpAddr::V6(5)), "six");
    let copy = names.duplicate();
    assert_eq!(copy.name_of(&a), "second");
    assert_eq!(copy.get(&IpAddr::V4(5)), None);
}
