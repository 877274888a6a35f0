//! Scanners for callers that drive the scan from a task of their own.

use vstd::prelude::*;
use crate::addr::{IpAddr, MacAddr, copy_ips, copy_port_numbers};
use crate::base_type::{
    HostScanResult, HostScanResultView, PortScanResult, PortScanResultView, PortScanType,
};
use crate::host::{HostTarget, HostTargetView, PortInfo, port_range, push_port_range, target_views};
use crate::result::{ScanResult, ScanStatus};
use crate::scanner::{
    addresses_of, host_addresses, host_ports, make_sweep_setting, ports_of, sweep_setting,
};
use crate::setting::{DEFAULT_SRC_PORT, IpMap, ScanSetting, ScanSettingView, ScanType};
use crate::time::Duration;

verus! {

/// A host scanner: pings a list of hosts and keeps the result.
#[derive(Clone, Debug)]
pub struct AsyncHostScanner {
    /// Address that probes are sent from.
    pub src_ip: IpAddr,
    /// The hosts to probe.
    pub dst_ips: Vec<IpAddr>,
    /// Budget for the whole scan.
    pub timeout: Duration,
    /// Grace after the last probe.
    pub wait_time: Duration,
    /// Result of the last scan.
    pub scan_result: HostScanResult,
}

/// What an [`AsyncHostScanner`] holds.
pub ghost struct AsyncHostScannerView {
    pub src_ip: IpAddr,
    pub dst_ips: Seq<IpAddr>,
    pub timeout: Duration,
    pub wait_time: Duration,
    pub scan_result: HostScanResultView,
}

impl View for AsyncHostScanner {
    type V = AsyncHostScannerView;

    open spec fn view(&self) -> AsyncHostScannerView {
        AsyncHostScannerView {
            src_ip: self.src_ip,
            dst_ips: self.dst_ips@,
            timeout: self.timeout,
            wait_time: self.wait_time,
            scan_result: self.scan_result@,
        }
    }
}

impl AsyncHostScanner {
    /// A scanner from `src_ip` with no targets, a timeout of 30 s, a wait
    /// time of 100 ms and an empty result.
    pub fn new(src_ip: IpAddr) -> (r: Result<AsyncHostScanner, String>)
        ensures
            r is Ok,
            r->Ok_0@.src_ip == src_ip,
            r->Ok_0@.dst_ips == Seq::<IpAddr>::empty(),
            r->Ok_0@.timeout.as_nanos() == 30_000 * 1_000_000,
            r->Ok_0@.wait_time.as_nanos() == 100 * 1_000_000,
            r->Ok_0@.scan_result.up_hosts == Seq::<IpAddr>::empty(),
            r->Ok_0@.scan_result.scan_time.as_nanos() == 0,
            r->Ok_0@.scan_result.scan_status == ScanStatus::Ready,
    {
        Ok(
            AsyncHostScanner {
                src_ip,
                dst_ips: Vec::new(),
                timeout: Duration::from_millis(30_000),
                wait_time: Duration::from_millis(100),
                scan_result: HostScanResult::new(),
            },
        )
    }

    /// Sets the address that probes are sent from.
    pub fn set_src_ip(&mut self, ip_addr: IpAddr)
        ensures
            final(self)@ == (AsyncHostScannerView { src_ip: ip_addr, ..old(self)@ }),
    {
        self.src_ip = ip_addr;
    }

    /// Adds a target host.
    pub fn add_dst_ip(&mut self, ip_addr: IpAddr)
        ensures
            final(self)@ == (AsyncHostScannerView {
                dst_ips: old(self)@.dst_ips.push(ip_addr),
                ..old(self)@
            }),
    {
        self.dst_ips.push(ip_addr);
    }

    /// Replaces the target hosts.
    pub fn set_dst_ips(&mut self, ips: Vec<IpAddr>)
        ensures
            final(self)@ == (AsyncHostScannerView { dst_ips: ips@, ..old(self)@ }),
    {
        self.dst_ips = ips;
    }

    /// Sets the budget for the whole scan.
    pub fn set_timeout(&mut self, timeout: Duration)
        ensures
            final(self)@ == (AsyncHostScannerView { timeout, ..old(self)@ }),
    {
        self.timeout = timeout;
    }

    /// Sets the grace after the last probe.
    pub fn set_wait_time(&mut self, wait_time: Duration)
        ensures
            final(self)@ == (AsyncHostScannerView { wait_time, ..old(self)@ }),
    {
        self.wait_time = wait_time;
    }

    /// Replaces the kept result.
    pub fn set_scan_result(&mut self, scan_result: HostScanResult)
        ensures
            final(self)@ == (AsyncHostScannerView { scan_result: scan_result@, ..old(self)@ }),
    {
        self.scan_result = scan_result;
    }

    pub fn get_src_ip(&self) -> (ip: IpAddr)
        ensures
            ip == self@.src_ip,
    {
        self.src_ip
    }

    pub fn get_dst_ips(&self) -> (ips: Vec<IpAddr>)
        ensures
            ips@ == self@.dst_ips,
    {
        copy_ips(&self.dst_ips)
    }

    pub fn get_timeout(&self) -> (timeout: Duration)
        ensures
            timeout == self@.timeout,
    {
        self.timeout
    }

    pub fn get_wait_time(&self) -> (wait_time: Duration)
        ensures
            wait_time == self@.wait_time,
    {
        self.wait_time
    }

    /// A copy of the kept result.
    pub fn get_scan_result(&self) -> (result: HostScanResult)
        ensures
            result@ == self@.scan_result,
    {
        self.scan_result.duplicate()
    }

    /// The setting of the scan that this scanner runs: an echo sweep over
    /// its targets, with a pause of 1 ms after each probe.
    pub fn scan_setting(&self) -> (setting: ScanSetting)
        ensures
            setting@ == sweep_setting(
                self@.src_ip,
                self@.dst_ips,
                self@.timeout,
                self@.wait_time,
                Duration::from_millis(1),
                ScanType::IcmpPingScan,
            ),
    {
        make_sweep_setting(
            self.src_ip,
            &self.dst_ips,
            self.timeout,
            self.wait_time,
            Duration::from_millis(1),
            ScanType::IcmpPingScan,
        )
    }

    /// Keeps the outcome of a scan that took `scan_time`: the addresses
    /// of the hosts found, in order, and the status.
    pub fn store_result(&mut self, result: &ScanResult, scan_time: Duration)
        ensures
            final(self)@ == (AsyncHostScannerView {
                scan_result: HostScanResultView {
                    up_hosts: addresses_of(result@.hosts),
                    scan_time,
                    scan_status: result@.scan_status,
                },
                ..old(self)@
            }),
    {
        self.scan_result =
        HostScanResult {
            up_hosts: host_addresses(&result.hosts),
            scan_time,
            scan_status: result.scan_status,
        };
    }
}

/// A port scanner: probes a list of ports on one host and keeps the
/// result.
#[derive(Clone, Debug)]
pub struct AsyncPortScanner {
    pub src_ip: IpAddr,
    pub dst_ip: IpAddr,
    pub src_port: u16,
    pub dst_ports: Vec<u16>,
    pub scan_type: PortScanType,
    /// Budget for the whole scan.
    pub timeout: Duration,
    /// Grace after the last probe.
    pub wait_time: Duration,
    /// Pause after each probe.
    pub send_rate: Duration,
    /// Result of the last scan.
    pub scan_result: PortScanResult,
}

/// What an [`AsyncPortScanner`] holds.
pub ghost struct AsyncPortScannerView {
    pub src_ip: IpAddr,
    pub dst_ip: IpAddr,
    pub src_port: u16,
    pub dst_ports: Seq<u16>,
    pub scan_type: PortScanType,
    pub timeout: Duration,
    pub wait_time: Duration,
    pub send_rate: Duration,
    pub scan_result: PortScanResultView,
}

impl View for AsyncPortScanner {
    type V = AsyncPortScannerView;

    open spec fn view(&self) -> AsyncPortScannerView {
        AsyncPortScannerView {
            src_ip: self.src_ip,
            dst_ip: self.dst_ip,
            src_port: self.src_port,
            dst_ports: self.dst_ports@,
            scan_type: self.scan_type,
            timeout: self.timeout,
            wait_time: self.wait_time,
            send_rate: self.send_rate,
            scan_result: self.scan_result@,
        }
    }
}

/// The setting of a port scan of one host that is not bound to an
/// interface.
pub open spec fn unbound_port_scan_setting(scanner: AsyncPortScannerView) -> ScanSettingView {
    ScanSettingView {
        if_index: 0,
        if_name: Seq::empty(),
        src_mac: MacAddr(0, 0, 0, 0, 0, 0),
        dst_mac: MacAddr(0, 0, 0, 0, 0, 0),
        src_ip: scanner.src_ip,
        src_port: scanner.src_port,
        targets: seq![HostTargetView { ip_addr: scanner.dst_ip, ports: scanner.dst_ports }],
        ip_map: Map::empty(),
        scan_type: scanner.scan_type.spec_scan_type(),
        timeout: scanner.timeout,
        wait_time: scanner.wait_time,
        send_rate: scanner.send_rate,
        minimize_packet: false,
        tunnel: false,
        loopback: false,
    }
}

impl AsyncPortScanner {
    /// A SYN scanner from `src_ip` to the loopback address, from the
    /// default source port, with no ports, a timeout of 30 s, a wait time
    /// of 100 ms, a pause of 30 s after each probe and an empty result.
    pub fn new(src_ip: IpAddr) -> (r: Result<AsyncPortScanner, String>)
        ensures
            r is Ok,
            r->Ok_0@.src_ip == src_ip,
            r->Ok_0@.dst_ip == IpAddr::V4(0x7f00_0001u32),
            r->Ok_0@.src_port == DEFAULT_SRC_PORT,
            r->Ok_0@.dst_ports == Seq::<u16>::empty(),
            r->Ok_0@.scan_type == PortScanType::SynScan,
            r->Ok_0@.timeout.as_nanos() == 30_000 * 1_000_000,
            r->Ok_0@.wait_time.as_nanos() == 100 * 1_000_000,
            r->Ok_0@.send_rate.as_nanos() == 30_000 * 1_000_000,
            r->Ok_0@.scan_result.ports == Seq::<PortInfo>::empty(),
            r->Ok_0@.scan_result.scan_time.as_nanos() == 0,
            r->Ok_0@.scan_result.scan_status == ScanStatus::Ready,
    {
        Ok(
            AsyncPortScanner {
                src_ip,
                dst_ip: IpAddr::localhost(),
                src_port: DEFAULT_SRC_PORT,
                dst_ports: Vec::new(),
                scan_type: PortScanType::SynScan,
                timeout: Duration::from_millis(30_000),
                wait_time: Duration::from_millis(100),
                send_rate: Duration::from_millis(30_000),
                scan_result: PortScanResult::new(),
            },
        )
    }

    /// Sets the address that probes are sent from.
    pub fn set_src_ip(&mut self, ip_addr: IpAddr)
        ensures
            final(self)@ == (AsyncPortScannerView { src_ip: ip_addr, ..old(self)@ }),
    {
        self.src_ip = ip_addr;
    }

    /// Sets the host to probe.
    pub fn set_dst_ip(&mut self, ip_addr: IpAddr)
        ensures
            final(self)@ == (AsyncPortScannerView { dst_ip: ip_addr, ..old(self)@ }),
    {
        self.dst_ip = ip_addr;
    }

    /// Sets the port that probes are sent from.
    pub fn set_src_port(&mut self, port: u16)
        ensures
            final(self)@ == (AsyncPortScannerView { src_port: port, ..old(self)@ }),
    {
        self.src_port = port;
    }

    /// Adds a port to probe.
    pub fn add_dst_port(&mut self, port: u16)
        ensures
            final(self)@ == (AsyncPortScannerView {
                dst_ports: old(self)@.dst_ports.push(port),
                ..old(self)@
            }),
    {
        self.dst_ports.push(port);
    }

    /// Adds the ports `start_port..=end_port` to the ports to probe.
    pub fn set_dst_port_range(&mut self, start_port: u16, end_port: u16)
        ensures
            final(self)@ == (AsyncPortScannerView {
                dst_ports: old(self)@.dst_ports + port_range(start_port, end_port),
                ..old(self)@
            }),
    {
        push_port_range(&mut self.dst_ports, start_port, end_port);
    }

    /// Replaces the ports to probe.
    pub fn set_dst_ports(&mut self, ports: Vec<u16>)
        ensures
            final(self)@ == (AsyncPortScannerView { dst_ports: ports@, ..old(self)@ }),
    {
        self.dst_ports = ports;
    }

    /// Sets the way of probing.
    pub fn set_scan_type(&mut self, scan_type: PortScanType)
        ensures
            final(self)@ == (AsyncPortScannerView { scan_type, ..old(self)@ }),
    {
        self.scan_type = scan_type;
    }

    /// Sets the budget for the whole scan.
    pub fn set_timeout(&mut self, timeout: Duration)
        ensures
            final(self)@ == (AsyncPortScannerView { timeout, ..old(self)@ }),
    {
        self.timeout = timeout;
    }

    /// Sets the grace after the last probe.
    pub fn set_wait_time(&mut self, wait_time: Duration)
        ensures
            final(self)@ == (AsyncPortScannerView { wait_time, ..old(self)@ }),
    {
        self.wait_time = wait_time;
    }

    /// Sets the pause after each probe.
    pub fn set_send_rate(&mut self, send_rate: Duration)
        ensures
            final(self)@ == (AsyncPortScannerView { send_rate, ..old(self)@ }),
    {
        self.send_rate = send_rate;
    }

    /// Replaces the kept result.
    pub fn set_scan_result(&mut self, scan_result: PortScanResult)
        ensures
            final(self)@ == (AsyncPortScannerView { scan_result: scan_result@, ..old(self)@ }),
    {
        self.scan_result = scan_result;
    }

    pub fn get_src_ip(&self) -> (ip: IpAddr)
        ensures
            ip == self@.src_ip,
    {
        self.src_ip
    }

    pub fn get_dst_ip(&self) -> (ip: IpAddr)
        ensures
            ip == self@.dst_ip,
    {
        self.dst_ip
    }

    pub fn get_src_port(&self) -> (port: u16)
        ensures
            port == self@.src_port,
    {
        self.src_port
    }

    pub fn get_dst_ports(&self) -> (ports: Vec<u16>)
        ensures
            ports@ == self@.dst_ports,
    {
        copy_port_numbers(&self.dst_ports)
    }

    pub fn get_scan_type(&self) -> (scan_type: PortScanType)
        ensures
            scan_type == self@.scan_type,
    {
        self.scan_type
    }

    pub fn get_timeout(&self) -> (timeout: Duration)
        ensures
            timeout == self@.timeout,
    {
        self.timeout
    }

    pub fn get_wait_time(&self) -> (wait_time: Duration)
        ensures
            wait_time == self@.wait_time,
    {
        self.wait_time
    }

    pub fn get_send_rate(&self) -> (send_rate: Duration)
        ensures
            send_rate == self@.send_rate,
    {
        self.send_rate
    }

    /// A copy of the kept result.
    pub fn get_scan_result(&self) -> (result: PortScanResult)
        ensures
            result@ == self@.scan_result,
    {
        self.scan_result.duplicate()
    }

    /// The setting of the scan that this scanner runs: its ports on its
    /// one host.
    pub fn scan_setting(&self) -> (setting: ScanSetting)
        ensures
            setting@ == unbound_port_scan_setting(self@),
    {
        let mut targets: Vec<HostTarget> = Vec::new();
        targets.push(
            HostTarget { ip_addr: self.dst_ip, ports: copy_port_numbers(&self.dst_ports) },
        );
        assert(target_views(targets@) =~= seq![
            HostTargetView { ip_addr: self.dst_ip, ports: self.dst_ports@ },
        ]);
        ScanSetting {
            if_index: 0,
            if_name: String::new(),
            src_mac: MacAddr::zero(),
            dst_mac: MacAddr::zero(),
            src_ip: self.src_ip,
            src_port: self.src_port,
            targets,
            ip_map: IpMap::new(),
            scan_type: self.scan_type.scan_type(),
            timeout: self.timeout,
            wait_time: self.wait_time,
            send_rate: self.send_rate,
            minimize_packet: false,
            tunnel: false,
            loopback: false,
        }
    }

    /// Keeps the outcome of a scan that took `scan_time`: the port
    /// entries found on the scanner's host, in order, and the status.
    pub fn store_result(&mut self, result: &ScanResult, scan_time: Duration)
        ensures
            final(self)@ == (AsyncPortScannerView {
                scan_result: PortScanResultView {
                    ports: ports_of(result@.hosts, old(self)@.dst_ip),
                    scan_time,
                    scan_status: result@.scan_status,
                },
                ..old(self)@
            }),
    {
        self.scan_result =
        PortScanResult {
            ports: host_ports(&result.hosts, self.dst_ip),
            scan_time,
            scan_status: result.scan_status,
        };
    }
}

} // verus!
