//! The results that the scanners hand back.

use vstd::prelude::*;
use crate::addr::{IpAddr, copy_ips};
use crate::host::{PortInfo, copy_ports};
use crate::result::ScanStatus;
use crate::setting::ScanType;
use crate::time::Duration;

verus! {

/// The way a port scanner probes.
#[derive(Clone, Copy, Debug, PartialEq, Eq, Structural)]
pub enum PortScanType {
    /// Half-open: SYN probes on the link layer.
    SynScan,
    /// Full connections through the operating system.
    ConnectScan,
}

impl PortScanType {
    /// The kind of scan that this way of probing is.
    pub open spec fn spec_scan_type(self) -> ScanType {
        match self {
            PortScanType::SynScan => ScanType::TcpSynScan,
            PortScanType::ConnectScan => ScanType::TcpConnectScan,
        }
    }

    #[verifier::when_used_as_spec(spec_scan_type)]
    pub fn scan_type(self) -> (scan_type: ScanType)
        ensures
            scan_type == self.spec_scan_type(),
    {
        match self {
            PortScanType::SynScan => ScanType::TcpSynScan,
            PortScanType::ConnectScan => ScanType::TcpConnectScan,
        }
    }
}

/// What a host scan found.
#[derive(Clone, Debug, PartialEq, Eq)]
pub struct HostScanResult {
    /// The hosts that answered, in order of their first reply.
    pub up_hosts: Vec<IpAddr>,
    pub scan_time: Duration,
    pub scan_status: ScanStatus,
}

/// What a [`HostScanResult`] holds.
pub ghost struct HostScanResultView {
    pub up_hosts: Seq<IpAddr>,
    pub scan_time: Duration,
    pub scan_status: ScanStatus,
}

impl View for HostScanResult {
    type V = HostScanResultView;

    open spec fn view(&self) -> HostScanResultView {
        HostScanResultView {
            up_hosts: self.up_hosts@,
            scan_time: self.scan_time,
            scan_status: self.scan_status,
        }
    }
}

impl HostScanResult {
    /// No hosts, no time, status `Ready`.
    pub fn new() -> (r: HostScanResult)
        ensures
            r@.up_hosts == Seq::<IpAddr>::empty(),
            r@.scan_time.as_nanos() == 0,
            r@.scan_status == ScanStatus::Ready,
    {
        HostScanResult {
            up_hosts: Vec::new(),
            scan_time: Duration::from_millis(0),
            scan_status: ScanStatus::Ready,
        }
    }

    /// A copy of this result.
    pub fn duplicate(&self) -> (copy: HostScanResult)
        ensures
            copy@ == self@,
    {
        HostScanResult {
            up_hosts: copy_ips(&self.up_hosts),
            scan_time: self.scan_time,
            scan_status: self.scan_status,
        }
    }
}

/// What a port scan of one host found.
#[derive(Clone, Debug, PartialEq, Eq)]
pub struct PortScanResult {
    /// The ports that answered, in order of their first reply.
    pub ports: Vec<PortInfo>,
    pub scan_time: Duration,
    pub scan_status: ScanStatus,
}

/// What a [`PortScanResult`] holds.
pub ghost struct PortScanResultView {
    pub ports: Seq<PortInfo>,
    pub scan_time: Duration,
    pub scan_status: ScanStatus,
}

impl View for PortScanResult {
    type V = PortScanResultView;

    open spec fn view(&self) -> PortScanResultView {
        PortScanResultView {
            ports: self.ports@,
            scan_time: self.scan_time,
            scan_status: self.scan_status,
        }
    }
}

impl PortScanResult {
    /// No ports, no time, status `Ready`.
    pub fn new() -> (r: PortScanResult)
        ensures
            r@.ports == Seq::<PortInfo>::empty(),
            r@.scan_time.as_nanos() == 0,
            r@.scan_status == ScanStatus::Ready,
    {
        PortScanResult {
            ports: Vec::new(),
            scan_time: Duration::from_millis(0),
            scan_status: ScanStatus::Ready,
        }
    }

    /// A copy of this result.
    pub fn duplicate(&self) -> (copy: PortScanResult)
        ensures
            copy@ == self@,
    {
        PortScanResult {
            ports: copy_ports(&self.ports),
            scan_time: self.scan_time,
            scan_status: self.scan_status,
        }
    }
}

} // verus!
