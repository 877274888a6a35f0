//! Scanners that keep their settings and their last result.

use vstd::prelude::*;
use crate::addr::{IpAddr, MacAddr, copy_ips, copy_port_numbers, parse_ip, spec_parse_ip};
use crate::base_type::{
    HostScanResult, HostScanResultView, PortScanResult, PortScanResultView, PortScanType,
};
use crate::host::{
    HostInfo, HostInfoView, HostTarget, HostTargetView, PortInfo, host_views, push_port_range,
    port_range, target_views,
};
use crate::interface::{
    InterfaceInfo, default_interface_index, find_by_index, first_indexed,
    get_interface_index_by_name, network_interfaces, source_ip, spec_source_ip,
};
use crate::result::{ScanResult, ScanStatus};
use crate::setting::{DEFAULT_SRC_PORT, IpMap, ScanSetting, ScanSettingView, ScanType};
use crate::time::Duration;

verus! {

/// One target without ports for each address, in the same order.
pub open spec fn hosts_only(ips: Seq<IpAddr>) -> Seq<HostTargetView> {
    Seq::new(ips.len(), |i: int| HostTargetView { ip_addr: ips[i], ports: Seq::empty() })
}

/// One target without ports for each address.
pub fn targets_without_ports(ips: &Vec<IpAddr>) -> (targets: Vec<HostTarget>)
    ensures
        target_views(targets@) == hosts_only(ips@),
{
    let mut targets: Vec<HostTarget> = Vec::new();
    let mut i: usize = 0;
    while i < ips.len()
        invariant
            i <= ips.len(),
            targets@.len() == i,
            forall|k: int| 0 <= k < i ==> (#[trigger] targets@[k])@ == hosts_only(ips@)[k],
        decreases ips.len() - i,
    {
        targets.push(HostTarget { ip_addr: ips[i], ports: Vec::new() });
        i += 1;
    }
    assert(target_views(targets@) =~= hosts_only(ips@));
    targets
}

/// The addresses of the hosts, in order.
pub open spec fn addresses_of(hosts: Seq<HostInfoView>) -> Seq<IpAddr> {
    Seq::new(hosts.len(), |i: int| hosts[i].ip_addr)
}

/// The addresses of the hosts, in order.
pub fn host_addresses(hosts: &Vec<HostInfo>) -> (ips: Vec<IpAddr>)
    ensures
        ips@ == addresses_of(host_views(hosts@)),
{
    let mut ips: Vec<IpAddr> = Vec::new();
    let mut i: usize = 0;
    while i < hosts.len()
        invariant
            i <= hosts.len(),
            ips@.len() == i,
            forall|k: int| 0 <= k < i ==> #[trigger] ips@[k] == hosts@[k].ip_addr,
        decreases hosts.len() - i,
    {
        ips.push(hosts[i].ip_addr);
        i += 1;
    }
    assert(ips@ =~= addresses_of(host_views(hosts@)));
    ips
}

/// The port entries of the hosts with the address `ip`, in order.
pub open spec fn ports_of(hosts: Seq<HostInfoView>, ip: IpAddr) -> Seq<PortInfo>
    decreases hosts.len(),
{
    if hosts.len() == 0 {
        Seq::empty()
    } else if hosts.last().ip_addr == ip {
        ports_of(hosts.drop_last(), ip) + hosts.last().ports
    } else {
        ports_of(hosts.drop_last(), ip)
    }
}

/// The port entries of the hosts with the address `ip`, in order.
pub fn host_ports(hosts: &Vec<HostInfo>, ip: IpAddr) -> (ports: Vec<PortInfo>)
    ensures
        ports@ == ports_of(host_views(hosts@), ip),
{
    let mut ports: Vec<PortInfo> = Vec::new();
    let ghost views = host_views(hosts@);
    let mut i: usize = 0;
    assert(views.take(0) =~= Seq::<HostInfoView>::empty());
    while i < hosts.len()
        invariant
            i <= hosts.len(),
            views == host_views(hosts@),
            ports@ == ports_of(views.take(i as int), ip),
        decreases hosts.len() - i,
    {
        assert(views.take(i + 1).drop_last() =~= views.take(i as int));
        if hosts[i].ip_addr == ip {
            let ghost before = ports@;
            let mut j: usize = 0;
            assert(before + hosts@[i as int].ports@.take(0) =~= before);
            while j < hosts[i].ports.len()
                invariant
                    i < hosts.len(),
                    j <= hosts@[i as int].ports@.len(),
                    ports@ == before + hosts@[i as int].ports@.take(j as int),
                decreases hosts@[i as int].ports@.len() - j,
            {
                ports.push(hosts[i].ports[j]);
                assert(hosts@[i as int].ports@.take(j + 1) =~= hosts@[i as int].ports@.take(
                    j as int,
                ).push(hosts@[i as int].ports@[j as int]));
                assert(ports@ =~= before + hosts@[i as int].ports@.take(j + 1));
                j += 1;
            }
            assert(hosts@[i as int].ports@.take(hosts@[i as int].ports@.len() as int)
                =~= hosts@[i as int].ports@);
        }
        i += 1;
    }
    assert(views.take(hosts.len() as int) =~= views);
    ports
}

/// A host scanner: pings a list of hosts and keeps the result.
#[derive(Clone, Debug)]
pub struct HostScanner {
    /// Address that probes are sent from.
    pub src_ip: IpAddr,
    /// The hosts to probe.
    pub dst_ips: Vec<IpAddr>,
    /// Budget for the whole scan.
    pub timeout: Duration,
    /// Grace after the last probe.
    pub wait_time: Duration,
    /// Result of the last scan.
    pub scan_result: HostScanResult,
}

/// What a [`HostScanner`] holds.
pub ghost struct HostScannerView {
    pub src_ip: IpAddr,
    pub dst_ips: Seq<IpAddr>,
    pub timeout: Duration,
    pub wait_time: Duration,
    pub scan_result: HostScanResultView,
}

impl View for HostScanner {
    type V = HostScannerView;

    open spec fn view(&self) -> HostScannerView {
        HostScannerView {
            src_ip: self.src_ip,
            dst_ips: self.dst_ips@,
            timeout: self.timeout,
            wait_time: self.wait_time,
            scan_result: self.scan_result@,
        }
    }
}

/// The setting of a sweep of the given kind from `src_ip` over
/// `dst_ips`: probes from the default source port, with the given pause
/// after each, bound to no interface.
pub open spec fn sweep_setting(
    src_ip: IpAddr,
    dst_ips: Seq<IpAddr>,
    timeout: Duration,
    wait_time: Duration,
    send_rate: Duration,
    kind: ScanType,
) -> ScanSettingView {
    ScanSettingView {
        if_index: 0,
        if_name: Seq::empty(),
        src_mac: MacAddr(0, 0, 0, 0, 0, 0),
        dst_mac: MacAddr(0, 0, 0, 0, 0, 0),
        src_ip,
        src_port: DEFAULT_SRC_PORT,
        targets: hosts_only(dst_ips),
        ip_map: Map::empty(),
        scan_type: kind,
        timeout,
        wait_time,
        send_rate,
        minimize_packet: false,
        tunnel: false,
        loopback: false,
    }
}

/// The setting of a sweep of the given kind from `src_ip` over `dst_ips`.
pub fn make_sweep_setting(
    src_ip: IpAddr,
    dst_ips: &Vec<IpAddr>,
    timeout: Duration,
    wait_time: Duration,
    send_rate: Duration,
    kind: ScanType,
) -> (setting: ScanSetting)
    ensures
        setting@ == sweep_setting(src_ip, dst_ips@, timeout, wait_time, send_rate, kind),
{
    ScanSetting {
        if_index: 0,
        if_name: String::new(),
        src_mac: MacAddr::zero(),
        dst_mac: MacAddr::zero(),
        src_ip,
        src_port: DEFAULT_SRC_PORT,
        targets: targets_without_ports(dst_ips),
        ip_map: IpMap::new(),
        scan_type: kind,
        timeout,
        wait_time,
        send_rate,
        minimize_packet: false,
        tunnel: false,
        loopback: false,
    }
}

impl HostScanner {
    /// A scanner from the loopback address with no targets, a timeout of
    /// 10 s and a wait time of 200 ms. Its result is empty, with a scan
    /// time of 1 ms and the status `Ready`.
    pub fn new() -> (r: Result<HostScanner, String>)
        ensures
            r is Ok,
            r->Ok_0@.src_ip == IpAddr::V4(0x7f00_0001u32),
            r->Ok_0@.dst_ips == Seq::<IpAddr>::empty(),
            r->Ok_0@.timeout.as_nanos() == 10_000 * 1_000_000,
            r->Ok_0@.wait_time.as_nanos() == 200 * 1_000_000,
            r->Ok_0@.scan_result.up_hosts == Seq::<IpAddr>::empty(),
            r->Ok_0@.scan_result.scan_time.as_nanos() == 1_000_000,
            r->Ok_0@.scan_result.scan_status == ScanStatus::Ready,
    {
        let scan_result = HostScanResult {
            up_hosts: Vec::new(),
            scan_time: Duration::from_millis(1),
            scan_status: ScanStatus::Ready,
        };
        Ok(
            HostScanner {
                src_ip: IpAddr::localhost(),
                dst_ips: Vec::new(),
                timeout: Duration::from_millis(10_000),
                wait_time: Duration::from_millis(200),
                scan_result,
            },
        )
    }

    /// Adds the target host that was read from a text, if one was.
    pub fn add_parsed(&mut self, parsed: Option<IpAddr>)
        ensures
            final(self)@ == match parsed {
                Some(ip_addr) => HostScannerView {
                    dst_ips: old(self)@.dst_ips.push(ip_addr),
                    ..old(self)@
                },
                None => old(self)@,
            },
    {
        match parsed {
            Some(ip_addr) => {
                self.dst_ips.push(ip_addr);
            },
            None => {},
        }
    }

    /// Adds the target host that `ipaddr` spells. A text that spells no
    /// address adds nothing.
    pub fn add_ipaddr(&mut self, ipaddr: &str)
        ensures
            final(self)@ == match spec_parse_ip(ipaddr@) {
                Some(ip_addr) => HostScannerView {
                    dst_ips: old(self)@.dst_ips.push(ip_addr),
                    ..old(self)@
                },
                None => old(self)@,
            },
    {
        self.add_parsed(parse_ip(ipaddr));
    }

    /// Sets the budget for the whole scan.
    pub fn set_timeout(&mut self, timeout: Duration)
        ensures
            final(self)@ == (HostScannerView { timeout, ..old(self)@ }),
    {
        self.timeout = timeout;
    }

    /// Sets the grace after the last probe.
    pub fn set_wait_time(&mut self, wait_time: Duration)
        ensures
            final(self)@ == (HostScannerView { wait_time, ..old(self)@ }),
    {
        self.wait_time = wait_time;
    }

    /// Sets the address that probes are sent from.
    pub fn set_src_ipaddr(&mut self, src_ipaddr: IpAddr)
        ensures
            final(self)@ == (HostScannerView { src_ip: src_ipaddr, ..old(self)@ }),
    {
        self.src_ip = src_ipaddr;
    }

    pub fn get_src_ipaddr(&self) -> (ip: IpAddr)
        ensures
            ip == self@.src_ip,
    {
        self.src_ip
    }

    pub fn get_target_hosts(&self) -> (hosts: Vec<IpAddr>)
        ensures
            hosts@ == self@.dst_ips,
    {
        copy_ips(&self.dst_ips)
    }

    pub fn get_timeout(&self) -> (timeout: Duration)
        ensures
            timeout == self@.timeout,
    {
        self.timeout
    }

    pub fn get_wait_time(&self) -> (wait_time: Duration)
        ensures
            wait_time == self@.wait_time,
    {
        self.wait_time
    }

    /// A copy of the result of the last scan.
    pub fn get_result(&self) -> (result: HostScanResult)
        ensures
            result@ == self@.scan_result,
    {
        self.scan_result.duplicate()
    }

    /// The setting of the scan that this scanner runs: an echo sweep over
    /// its targets, with a pause of 1 ms after each probe.
    pub fn scan_setting(&self) -> (setting: ScanSetting)
        ensures
            setting@ == sweep_setting(
                self@.src_ip,
                self@.dst_ips,
                self@.timeout,
                self@.wait_time,
                Duration::from_millis(1),
                ScanType::IcmpPingScan,
            ),
    {
        make_sweep_setting(
            self.src_ip,
            &self.dst_ips,
            self.timeout,
            self.wait_time,
            Duration::from_millis(1),
            ScanType::IcmpPingScan,
        )
    }

    /// Keeps the outcome of a scan that took `scan_time`: the addresses
    /// of the hosts found, in order, and the status.
    pub fn store_result(&mut self, result: &ScanResult, scan_time: Duration)
        ensures
            final(self)@ == (HostScannerView {
                scan_result: HostScanResultView {
                    up_hosts: addresses_of(result@.hosts),
                    scan_time,
                    scan_status: result@.scan_status,
                },
                ..old(self)@
            }),
    {
        self.scan_result =
        HostScanResult {
            up_hosts: host_addresses(&result.hosts),
            scan_time,
            scan_status: result.scan_status,
        };
    }
}

/// A port scanner: probes a list of ports on one host and keeps the
/// result.
#[derive(Clone, Debug)]
pub struct PortScanner {
    /// Index of the network interface.
    pub if_index: u32,
    /// Name of the network interface.
    pub if_name: String,
    pub src_mac: MacAddr,
    pub dst_mac: MacAddr,
    pub src_ip: IpAddr,
    pub dst_ip: IpAddr,
    pub src_port: u16,
    pub dst_ports: Vec<u16>,
    pub scan_type: PortScanType,
    /// Budget for the whole scan.
    pub timeout: Duration,
    /// Grace after the last probe.
    pub wait_time: Duration,
    /// Pause after each probe.
    pub send_rate: Duration,
    /// Result of the last scan.
    pub scan_result: PortScanResult,
}

/// What a [`PortScanner`] holds.
pub ghost struct PortScannerView {
    pub if_index: u32,
    pub if_name: Seq<char>,
    pub src_mac: MacAddr,
    pub dst_mac: MacAddr,
    pub src_ip: IpAddr,
    pub dst_ip: IpAddr,
    pub src_port: u16,
    pub dst_ports: Seq<u16>,
    pub scan_type: PortScanType,
    pub timeout: Duration,
    pub wait_time: Duration,
    pub send_rate: Duration,
    pub scan_result: PortScanResultView,
}

impl View for PortScanner {
    type V = PortScannerView;

    open spec fn view(&self) -> PortScannerView {
        PortScannerView {
            if_index: self.if_index,
            if_name: self.if_name@,
            src_mac: self.src_mac,
            dst_mac: self.dst_mac,
            src_ip: self.src_ip,
            dst_ip: self.dst_ip,
            src_port: self.src_port,
            dst_ports: self.dst_ports@,
            scan_type: self.scan_type,
            timeout: self.timeout,
            wait_time: self.wait_time,
            send_rate: self.send_rate,
            scan_result: self.scan_result@,
        }
    }
}

/// Why a port scanner could not be made ready.
#[derive(Clone, Copy, Debug, PartialEq, Eq, Structural)]
pub enum PrepareError {
    /// No interface has the scanner's index.
    InterfaceNotFound,
    /// The interface has no link-layer address.
    NoMacAddress,
}

/// Whether `scanner` is a new port scanner on the interface `if_index`,
/// named `if_name`: a SYN scan from and to the loopback address, from the
/// default source port, with no ports, a timeout of 30 s, a wait time of
/// 100 ms, no pause between probes and an empty result.
pub open spec fn is_new_port_scanner(
    scanner: PortScannerView,
    if_index: u32,
    if_name: Seq<char>,
) -> bool {
    &&& scanner.if_index == if_index
    &&& scanner.if_name == if_name
    &&& scanner.src_mac == MacAddr(0, 0, 0, 0, 0, 0)
    &&& scanner.dst_mac == MacAddr(0, 0, 0, 0, 0, 0)
    &&& scanner.src_ip == IpAddr::V4(0x7f00_0001u32)
    &&& scanner.dst_ip == IpAddr::V4(0x7f00_0001u32)
    &&& scanner.src_port == DEFAULT_SRC_PORT
    &&& scanner.dst_ports == Seq::<u16>::empty()
    &&& scanner.scan_type == PortScanType::SynScan
    &&& scanner.timeout.as_nanos() == 30_000 * 1_000_000
    &&& scanner.wait_time.as_nanos() == 100 * 1_000_000
    &&& scanner.send_rate.as_nanos() == 0
    &&& scanner.scan_result.ports == Seq::<PortInfo>::empty()
    &&& scanner.scan_result.scan_time.as_nanos() == 0
    &&& scanner.scan_result.scan_status == ScanStatus::Ready
}

/// The name that a new port scanner keeps: the one asked for, or none.
pub open spec fn kept_name(if_name: Option<&str>) -> Seq<char> {
    match if_name {
        Some(name) => name@,
        None => Seq::empty(),
    }
}

/// The message for an interface that was not found.
pub open spec fn not_found_message(if_name: Option<&str>) -> Seq<char> {
    match if_name {
        Some(_) => "Failed to get interface info by name."@,
        None => "Failed to get default interface info."@,
    }
}

/// The setting of a port scan of one host.
pub open spec fn port_scan_setting(scanner: PortScannerView) -> ScanSettingView {
    ScanSettingView {
        if_index: scanner.if_index,
        if_name: scanner.if_name,
        src_mac: scanner.src_mac,
        dst_mac: scanner.dst_mac,
        src_ip: scanner.src_ip,
        src_port: scanner.src_port,
        targets: seq![HostTargetView { ip_addr: scanner.dst_ip, ports: scanner.dst_ports }],
        ip_map: Map::empty(),
        scan_type: scanner.scan_type.spec_scan_type(),
        timeout: scanner.timeout,
        wait_time: scanner.wait_time,
        send_rate: scanner.send_rate,
        minimize_packet: false,
        tunnel: false,
        loopback: false,
    }
}

impl PortScanner {
    /// A new port scanner on the interface with the index `if_index`, if
    /// one was found. `if_name` is the name that was asked for, if any.
    pub fn with_interface(if_name: Option<&str>, if_index: Option<u32>) -> (r: Result<
        PortScanner,
        String,
    >)
        ensures
            r is Ok == if_index is Some,
            r matches Ok(scanner) ==> is_new_port_scanner(
                scanner@,
                if_index->0,
                kept_name(if_name),
            ),
            r matches Err(message) ==> message@ == not_found_message(if_name),
    {
        let index: u32 = match if_index {
            Some(index) => index,
            None => {
                return Err(
                    match if_name {
                        Some(_) => "Failed to get interface info by name.".to_owned(),
                        None => "Failed to get default interface info.".to_owned(),
                    },
                );
            },
        };
        Ok(
            PortScanner {
                if_index: index,
                if_name: match if_name {
                    Some(name) => name.to_owned(),
                    None => String::new(),
                },
                src_mac: MacAddr::zero(),
                dst_mac: MacAddr::zero(),
                src_ip: IpAddr::localhost(),
                dst_ip: IpAddr::localhost(),
                src_port: DEFAULT_SRC_PORT,
                dst_ports: Vec::new(),
                scan_type: PortScanType::SynScan,
                timeout: Duration::from_millis(30_000),
                wait_time: Duration::from_millis(100),
                send_rate: Duration::from_millis(0),
                scan_result: PortScanResult::new(),
            },
        )
    }

    /// A new port scanner on the interface named `if_name`, or on the
    /// interface of the default route where no name is given. Fails
    /// where the system knows no such interface.
    pub fn new(if_name: Option<&str>) -> (r: Result<PortScanner, String>)
        ensures
            r matches Ok(scanner) ==> exists|if_index: u32|
                is_new_port_scanner(scanner@, if_index, kept_name(if_name)),
            r matches Err(message) ==> message@ == not_found_message(if_name),
    {
        let if_index = match if_name {
            Some(name) => get_interface_index_by_name(name.to_owned()),
            None => default_interface_index(),
        };
        PortScanner::with_interface(if_name, if_index)
    }

    /// Sets the host to probe.
    pub fn set_target_ipaddr(&mut self, ip_addr: IpAddr)
        ensures
            final(self)@ == (PortScannerView { dst_ip: ip_addr, ..old(self)@ }),
    {
        self.dst_ip = ip_addr;
    }

    /// Adds the ports `start..=end` to the ports to probe.
    pub fn set_range(&mut self, start: u16, end: u16)
        ensures
            final(self)@ == (PortScannerView {
                dst_ports: old(self)@.dst_ports + port_range(start, end),
                ..old(self)@
            }),
    {
        push_port_range(&mut self.dst_ports, start, end);
    }

    /// Adds a port to probe.
    pub fn add_target_port(&mut self, port_num: u16)
        ensures
            final(self)@ == (PortScannerView {
                dst_ports: old(self)@.dst_ports.push(port_num),
                ..old(self)@
            }),
    {
        self.dst_ports.push(port_num);
    }

    /// Sets the way of probing.
    pub fn set_scan_type(&mut self, scan_type: PortScanType)
        ensures
            final(self)@ == (PortScannerView { scan_type, ..old(self)@ }),
    {
        self.scan_type = scan_type;
    }

    /// Sets the budget for the whole scan.
    pub fn set_timeout(&mut self, timeout: Duration)
        ensures
            final(self)@ == (PortScannerView { timeout, ..old(self)@ }),
    {
        self.timeout = timeout;
    }

    /// Sets the grace after the last probe.
    pub fn set_wait_time(&mut self, wait_time: Duration)
        ensures
            final(self)@ == (PortScannerView { wait_time, ..old(self)@ }),
    {
        self.wait_time = wait_time;
    }

    /// Sets the pause after each probe.
    pub fn set_send_rate(&mut self, send_rate: Duration)
        ensures
            final(self)@ == (PortScannerView { send_rate, ..old(self)@ }),
    {
        self.send_rate = send_rate;
    }

    /// Sets the port that probes are sent from.
    pub fn set_src_port(&mut self, src_port: u16)
        ensures
            final(self)@ == (PortScannerView { src_port, ..old(self)@ }),
    {
        self.src_port = src_port;
    }

    pub fn get_if_index(&self) -> (if_index: u32)
        ensures
            if_index == self@.if_index,
    {
        self.if_index
    }

    pub fn get_if_name(&self) -> (if_name: String)
        ensures
            if_name@ == self@.if_name,
    {
        self.if_name.clone()
    }

    pub fn get_target_ipaddr(&self) -> (ip: IpAddr)
        ensures
            ip == self@.dst_ip,
    {
        self.dst_ip
    }

    pub fn get_target_ports(&self) -> (ports: Vec<u16>)
        ensures
            ports@ == self@.dst_ports,
    {
        copy_port_numbers(&self.dst_ports)
    }

    pub fn get_scan_type(&self) -> (scan_type: PortScanType)
        ensures
            scan_type == self@.scan_type,
    {
        self.scan_type
    }

    pub fn get_src_port_num(&self) -> (port: u16)
        ensures
            port == self@.src_port,
    {
        self.src_port
    }

    pub fn get_timeout(&self) -> (timeout: Duration)
        ensures
            timeout == self@.timeout,
    {
        self.timeout
    }

    pub fn get_wait_time(&self) -> (wait_time: Duration)
        ensures
            wait_time == self@.wait_time,
    {
        self.wait_time
    }

    pub fn get_send_rate(&self) -> (send_rate: Duration)
        ensures
            send_rate == self@.send_rate,
    {
        self.send_rate
    }

    /// A copy of the result of the last scan.
    pub fn get_result(&self) -> (result: PortScanResult)
        ensures
            result@ == self@.scan_result,
    {
        self.scan_result.duplicate()
    }

    /// Makes the scanner ready to scan from its interface, which is the
    /// first of `interfaces` with its index: probes go from that
    /// interface's link-layer address and from its last IP address, to
    /// the gateway's link-layer address, or to none for a connect scan.
    /// Where the interface is missing or has no link-layer address the
    /// scanner stays as it was.
    pub fn prepare(&mut self, interfaces: &Vec<InterfaceInfo>, gateway_mac: MacAddr) -> (r: Result<
        (),
        PrepareError,
    >)
        ensures
            match first_indexed(interfaces@, old(self)@.if_index) {
                None => r == Err::<(), PrepareError>(PrepareError::InterfaceNotFound) && final(self)@ == old(self)@,
                Some(i) => match interfaces@[i].mac {
                    None => r == Err::<(), PrepareError>(PrepareError::NoMacAddress) && final(self)@ == old(self)@,
                    Some(mac) => r is Ok && final(self)@ == (PortScannerView {
                        src_mac: mac,
                        dst_mac: if old(self)@.scan_type == PortScanType::ConnectScan {
                            MacAddr(0, 0, 0, 0, 0, 0)
                        } else {
                            gateway_mac
                        },
                        src_ip: spec_source_ip(interfaces@[i].ips@),
                        ..old(self)@
                    }),
                },
            },
    {
        let place: usize = match find_by_index(interfaces, self.if_index) {
            Some(place) => place,
            None => {
                return Err(PrepareError::InterfaceNotFound);
            },
        };
        let interface = &interfaces[place];
        let src_mac = match interface.mac {
            Some(mac) => mac,
            None => {
                return Err(PrepareError::NoMacAddress);
            },
        };
        self.src_mac = src_mac;
        self.dst_mac =
        match self.scan_type {
            PortScanType::ConnectScan => MacAddr::zero(),
            PortScanType::SynScan => gateway_mac,
        };
        self.src_ip = source_ip(&interface.ips);
        Ok(())
    }

    /// Makes the scanner ready to scan from its interface on this
    /// machine, as the system lists it at the time of the call. Where
    /// that fails the scanner stays as it was.
    pub fn prepare_here(&mut self, gateway_mac: MacAddr) -> (r: Result<(), PrepareError>)
        ensures
            r is Err ==> final(self)@ == old(self)@,
            r is Ok ==> final(self)@ == (PortScannerView {
                src_mac: final(self)@.src_mac,
                dst_mac: if old(self)@.scan_type == PortScanType::ConnectScan {
                    MacAddr(0, 0, 0, 0, 0, 0)
                } else {
                    gateway_mac
                },
                src_ip: final(self)@.src_ip,
                ..old(self)@
            }),
    {
        let interfaces = network_interfaces();
        self.prepare(&interfaces, gateway_mac)
    }

    /// The setting of the scan that this scanner runs: its ports on its
    /// one host.
    pub fn scan_setting(&self) -> (setting: ScanSetting)
        ensures
            setting@ == port_scan_setting(self@),
    {
        let mut targets: Vec<HostTarget> = Vec::new();
        targets.push(
            HostTarget { ip_addr: self.dst_ip, ports: copy_port_numbers(&self.dst_ports) },
        );
        assert(target_views(targets@) =~= seq![
            HostTargetView { ip_addr: self.dst_ip, ports: self.dst_ports@ },
        ]);
        ScanSetting {
            if_index: self.if_index,
            if_name: self.if_name.clone(),
            src_mac: self.src_mac,
            dst_mac: self.dst_mac,
            src_ip: self.src_ip,
            src_port: self.src_port,
            targets,
            ip_map: IpMap::new(),
            scan_type: self.scan_type.scan_type(),
            timeout: self.timeout,
            wait_time: self.wait_time,
            send_rate: self.send_rate,
            minimize_packet: false,
            tunnel: false,
            loopback: false,
        }
    }

    /// Keeps the outcome of a scan that took `scan_time`: the port
    /// entries found on the scanner's host, in order, and the status.
    pub fn store_result(&mut self, result: &ScanResult, scan_time: Duration)
        ensures
            final(self)@ == (PortScannerView {
                scan_result: PortScanResultView {
                    ports: ports_of(result@.hosts, old(self)@.dst_ip),
                    scan_time,
                    scan_status: result@.scan_status,
                },
                ..old(self)@
            }),
    {
        self.scan_result =
        PortScanResult {
            ports: host_ports(&result.hosts, self.dst_ip),
            scan_time,
            scan_status: result.scan_status,
        };
    }
}

} // verus!
