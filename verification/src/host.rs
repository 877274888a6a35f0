//! Hosts, ports and the verdicts attached to them.

use vstd::prelude::*;
use crate::addr::{IpAddr, copy_port_numbers};

verus! {

/// The verdict on one port of one host.
#[derive(Clone, Copy, Debug, PartialEq, Eq, Structural)]
pub enum PortStatus {
    /// A SYN+ACK reply was observed.
    Open,
    /// A RST+ACK reply was observed.
    Closed,
    /// No reply was observed.
    Filtered,
}

/// A port together with its verdict.
#[derive(Clone, Copy, Debug, PartialEq, Eq, Structural)]
pub struct PortInfo {
    pub port: u16,
    pub status: PortStatus,
}

impl PortInfo {
    pub fn new(port: u16, status: PortStatus) -> (p: PortInfo)
        ensures
            p == (PortInfo { port, status }),
    {
        PortInfo { port, status }
    }
}

/// A host that answered, with the ports it answered on.
#[derive(Clone, Debug, PartialEq, Eq)]
pub struct HostInfo {
    pub ip_addr: IpAddr,
    pub host_name: String,
    /// TTL of the first IPv4 reply, or hop limit of the first IPv6 reply.
    pub ttl: u8,
    pub ports: Vec<PortInfo>,
}

/// What a [`HostInfo`] holds.
pub ghost struct HostInfoView {
    pub ip_addr: IpAddr,
    pub host_name: Seq<char>,
    pub ttl: u8,
    pub ports: Seq<PortInfo>,
}

impl View for HostInfo {
    type V = HostInfoView;

    open spec fn view(&self) -> HostInfoView {
        HostInfoView {
            ip_addr: self.ip_addr,
            host_name: self.host_name@,
            ttl: self.ttl,
            ports: self.ports@,
        }
    }
}

/// The contents of a sequence of hosts.
pub open spec fn host_views(hosts: Seq<HostInfo>) -> Seq<HostInfoView> {
    Seq::new(hosts.len(), |i: int| hosts[i]@)
}

/// Whether two port lists hold the same entries in the same order.
pub fn same_ports(a: &Vec<PortInfo>, b: &Vec<PortInfo>) -> (same: bool)
    ensures
        same == (a@ == b@),
{
    if a.len() != b.len() {
        return false;
    }
    let mut i: usize = 0;
    while i < a.len()
        invariant
            a.len() == b.len(),
            i <= a.len(),
            forall|k: int| 0 <= k < i ==> a@[k] == b@[k],
        decreases a.len() - i,
    {
        if a[i] != b[i] {
            return false;
        }
        i += 1;
    }
    assert(a@ =~= b@);
    true
}

/// A copy of a port list.
pub fn copy_ports(ports: &Vec<PortInfo>) -> (copy: Vec<PortInfo>)
    ensures
        copy@ == ports@,
{
    let mut copy: Vec<PortInfo> = Vec::new();
    let mut i: usize = 0;
    while i < ports.len()
        invariant
            i <= ports.len(),
            copy@ == ports@.take(i as int),
        decreases ports.len() - i,
    {
        copy.push(ports[i]);
        assert(ports@.take(i + 1) =~= ports@.take(i as int).push(ports@[i as int]));
        i += 1;
    }
    assert(ports@.take(ports.len() as int) =~= ports@);
    copy
}

impl HostInfo {
    /// A host with no port entries.
    pub fn new(ip_addr: IpAddr, host_name: String, ttl: u8) -> (h: HostInfo)
        ensures
            h@ == (HostInfoView { ip_addr, host_name: host_name@, ttl, ports: Seq::empty() }),
    {
        HostInfo { ip_addr, host_name, ttl, ports: Vec::new() }
    }

    /// Whether both hosts hold the same address, name, TTL and port entries.
    pub fn same_as(&self, other: &HostInfo) -> (same: bool)
        ensures
            same == (self@ == other@),
    {
        self.ip_addr == other.ip_addr && self.host_name == other.host_name && self.ttl
            == other.ttl && same_ports(&self.ports, &other.ports)
    }

    /// A copy of this host.
    pub fn duplicate(&self) -> (copy: HostInfo)
        ensures
            copy@ == self@,
    {
        HostInfo {
            ip_addr: self.ip_addr,
            host_name: self.host_name.clone(),
            ttl: self.ttl,
            ports: copy_ports(&self.ports),
        }
    }
}

/// A host to probe, with the ports to probe on it. Ping scans ignore the
/// ports.
#[derive(Clone, Debug, PartialEq, Eq)]
pub struct HostTarget {
    pub ip_addr: IpAddr,
    pub ports: Vec<u16>,
}

/// What a [`HostTarget`] holds.
pub ghost struct HostTargetView {
    pub ip_addr: IpAddr,
    pub ports: Seq<u16>,
}

impl View for HostTarget {
    type V = HostTargetView;

    open spec fn view(&self) -> HostTargetView {
        HostTargetView { ip_addr: self.ip_addr, ports: self.ports@ }
    }
}

/// The contents of a sequence of targets.
pub open spec fn target_views(targets: Seq<HostTarget>) -> Seq<HostTargetView> {
    Seq::new(targets.len(), |i: int| targets[i]@)
}

/// The ports `start, start + 1, ..., end`; empty where `end < start`.
pub open spec fn port_range(start: u16, end: u16) -> Seq<u16> {
    if end < start {
        Seq::empty()
    } else {
        Seq::new((end - start + 1) as nat, |i: int| (start + i) as u16)
    }
}

/// Appends the ports `start..=end` to `ports`.
pub fn push_port_range(ports: &mut Vec<u16>, start: u16, end: u16)
    ensures
        final(ports)@ == old(ports)@ + port_range(start, end),
{
    if end < start {
        assert(ports@ + port_range(start, end) =~= ports@);
        return ;
    }
    let mut next: u16 = start;
    loop
        invariant_except_break
            start <= next <= end,
            ports@ == old(ports)@ + port_range(start, end).take(next - start),
        ensures
            ports@ == old(ports)@ + port_range(start, end),
        decreases end - next,
    {
        ports.push(next);
        assert(port_range(start, end).take(next - start + 1) =~= port_range(start, end).take(
            next - start,
        ).push(next));
        assert(ports@ =~= old(ports)@ + port_range(start, end).take(next - start + 1));
        if next == end {
            assert(port_range(start, end).take(end - start + 1) =~= port_range(start, end));
            break ;
        }
        next += 1;
    }
}

impl HostTarget {
    /// A target with the given ports.
    pub fn new(ip_addr: IpAddr, ports: Vec<u16>) -> (t: HostTarget)
        ensures
            t@ == (HostTargetView { ip_addr, ports: ports@ }),
    {
        HostTarget { ip_addr, ports }
    }

    /// A target with the ports `start..=end`.
    pub fn new_with_port_range(ip_addr: IpAddr, start: u16, end: u16) -> (t: HostTarget)
        ensures
            t@ == (HostTargetView { ip_addr, ports: port_range(start, end) }),
    {
        let mut ports: Vec<u16> = Vec::new();
        push_port_range(&mut ports, start, end);
        assert(Seq::<u16>::empty() + port_range(start, end) =~= port_range(start, end));
        HostTarget { ip_addr, ports }
    }

    /// A copy of the target's ports.
    pub fn get_ports(&self) -> (ports: Vec<u16>)
        ensures
            ports@ == self@.ports,
    {
        copy_port_numbers(&self.ports)
    }

    /// A copy of this target.
    pub fn duplicate(&self) -> (copy: HostTarget)
        ensures
            copy@ == self@,
    {
        HostTarget { ip_addr: self.ip_addr, ports: self.get_ports() }
    }
}

} // verus!
