//! Reading verdicts from captured frames.
//!
//! Frames are read in order of arrival. The first verdict on a host and
//! port stands; later frames on the same pair are passed over.

use vstd::prelude::*;
use crate::addr::IpAddr;
use crate::correlate_laws::{
    distinct_ips, lemma_port_scan_hosts_distinct, lemma_port_scan_pairs_listed_once, listed_once,
    only_observed_verdicts,
};
use crate::frame::{PacketFrame, PacketFrameView, frame_views, verdict_of_flags};
use crate::host::{HostInfo, HostInfoView, PortInfo, host_views};
use crate::result::{ScanResult, ScanResultView, ScanStatus};
use crate::setting::{IpMap, ScanType, name_or_empty};

verus! {

/// What correlation has gathered so far.
pub ghost struct Findings {
    pub hosts: Seq<HostInfoView>,
    pub fingerprints: Seq<PacketFrameView>,
}

impl ScanResultView {
    /// The hosts and fingerprints of a result.
    pub open spec fn findings(self) -> Findings {
        Findings { hosts: self.hosts, fingerprints: self.fingerprints }
    }
}

/// Nothing gathered.
pub open spec fn no_findings() -> Findings {
    Findings { hosts: Seq::empty(), fingerprints: Seq::empty() }
}

/// What one frame says in a port scan.
pub ghost struct PortReply {
    pub ip_addr: IpAddr,
    pub ttl: u8,
    pub port: PortInfo,
}

/// The reply that a frame carries in a port scan: it needs an IP header,
/// a TCP header, and flags that are exactly SYN+ACK or RST+ACK.
pub open spec fn port_reply(frame: PacketFrameView) -> Option<PortReply> {
    match (frame.source_ip(), frame.tcp_header) {
        (Some(ip_addr), Some(tcp)) => match verdict_of_flags(tcp.flags) {
            Some(status) => Some(
                PortReply {
                    ip_addr,
                    ttl: frame.ttl(),
                    port: PortInfo { port: tcp.source, status },
                },
            ),
            None => None,
        },
        _ => None,
    }
}

/// Whether some host has the address `ip`.
pub open spec fn has_host(hosts: Seq<HostInfoView>, ip: IpAddr) -> bool {
    exists|i: int| 0 <= i < hosts.len() && #[trigger] hosts[i].ip_addr == ip
}

/// Whether entry `j` of host `i` is an entry for `port` on the host `ip`.
pub open spec fn entry_at(hosts: Seq<HostInfoView>, i: int, j: int, ip: IpAddr, port: u16) -> bool {
    &&& 0 <= i < hosts.len()
    &&& 0 <= j < hosts[i].ports.len()
    &&& hosts[i].ip_addr == ip
    &&& hosts[i].ports[j].port == port
}

/// Whether a verdict on `port` of the host `ip` is on record.
pub open spec fn listed(hosts: Seq<HostInfoView>, ip: IpAddr, port: u16) -> bool {
    exists|i: int, j: int| entry_at(hosts, i, j, ip, port)
}

/// A host with one more port entry.
pub open spec fn with_port(host: HostInfoView, port: PortInfo) -> HostInfoView {
    HostInfoView { ports: host.ports.push(port), ..host }
}

/// The hosts after `port` was appended to every host with the address
/// `ip`.
pub open spec fn add_port(hosts: Seq<HostInfoView>, ip: IpAddr, port: PortInfo) -> Seq<
    HostInfoView,
> {
    Seq::new(
        hosts.len(),
        |i: int|
            if hosts[i].ip_addr == ip {
                with_port(hosts[i], port)
            } else {
                hosts[i]
            },
    )
}

/// The hosts after a reply was recorded: the port entry goes to the host
/// with that address, or to a new host at the end if there is none yet.
pub open spec fn record_port(hosts: Seq<HostInfoView>, reply: PortReply, name: Seq<char>) -> Seq<
    HostInfoView,
> {
    if has_host(hosts, reply.ip_addr) {
        add_port(hosts, reply.ip_addr, reply.port)
    } else {
        hosts.push(
            HostInfoView {
                ip_addr: reply.ip_addr,
                host_name: name,
                ttl: reply.ttl,
                ports: seq![reply.port],
            },
        )
    }
}

/// The findings after one more frame of a port scan was read.
pub open spec fn port_step(
    names: Map<IpAddr, Seq<char>>,
    found: Findings,
    frame: PacketFrameView,
) -> Findings {
    match port_reply(frame) {
        None => found,
        Some(reply) => if listed(found.hosts, reply.ip_addr, reply.port.port) {
            found
        } else {
            Findings {
                hosts: record_port(found.hosts, reply, name_or_empty(names, reply.ip_addr)),
                fingerprints: found.fingerprints.push(frame),
            }
        },
    }
}

/// The findings of a port scan that captured `frames`, in this order.
pub open spec fn port_findings(names: Map<IpAddr, Seq<char>>, frames: Seq<PacketFrameView>) -> Findings
    decreases frames.len(),
{
    if frames.len() == 0 {
        no_findings()
    } else {
        port_step(names, port_findings(names, frames.drop_last()), frames.last())
    }
}

/// Whether a port entry for `port` stands in `ports`.
pub fn has_port(ports: &Vec<PortInfo>, port: u16) -> (found: bool)
    ensures
        found == exists|j: int| 0 <= j < ports@.len() && #[trigger] ports@[j].port == port,
{
    let mut j: usize = 0;
    while j < ports.len()
        invariant
            j <= ports.len(),
            forall|k: int| 0 <= k < j ==> (#[trigger] ports@[k]).port != port,
        decreases ports.len() - j,
    {
        if ports[j].port == port {
            return true;
        }
        j += 1;
    }
    false
}

/// Whether a verdict on `port` of the host `ip` is on record.
pub fn is_listed(hosts: &Vec<HostInfo>, ip: IpAddr, port: u16) -> (found: bool)
    ensures
        found == listed(host_views(hosts@), ip, port),
{
    let mut i: usize = 0;
    while i < hosts.len()
        invariant
            i <= hosts.len(),
            forall|a: int, b: int| 0 <= a < i ==> !entry_at(host_views(hosts@), a, b, ip, port),
        decreases hosts.len() - i,
    {
        if hosts[i].ip_addr == ip && has_port(&hosts[i].ports, port) {
            proof {
                let j = choose|j: int|
                    0 <= j < hosts@[i as int].ports@.len() && #[trigger] hosts@[i as int].ports@[j].port
                        == port;
                assert(entry_at(host_views(hosts@), i as int, j, ip, port));
            }
            return true;
        }
        i += 1;
    }
    false
}

/// Appends `port` to every host with the address `ip` and says whether
/// there was one.
pub fn add_port_to_host(hosts: &mut Vec<HostInfo>, ip: IpAddr, port: PortInfo) -> (found: bool)
    ensures
        found == has_host(host_views(old(hosts)@), ip),
        host_views(final(hosts)@) == add_port(host_views(old(hosts)@), ip, port),
{
    let ghost before = host_views(hosts@);
    let mut found: bool = false;
    let mut i: usize = 0;
    while i < hosts.len()
        invariant
            i <= hosts.len(),
            hosts@.len() == before.len(),
            forall|k: int| 0 <= k < i ==> #[trigger] hosts@[k]@ == add_port(before, ip, port)[k],
            forall|k: int| i <= k < hosts@.len() ==> #[trigger] hosts@[k]@ == before[k],
            found == exists|k: int| 0 <= k < i && #[trigger] before[k].ip_addr == ip,
        decreases hosts.len() - i,
    {
        let ghost at_entry = hosts@;
        assert(at_entry[i as int]@ == before[i as int]);
        if hosts[i].ip_addr == ip {
            hosts[i].ports.push(port);
            found = true;
            assert(hosts@[i as int]@ == with_port(before[i as int], port));
            assert(forall|k: int| 0 <= k < hosts@.len() && k != i ==> hosts@[k] == at_entry[k]);
        }
        i += 1;
        assert(found == exists|k: int| 0 <= k < i && #[trigger] before[k].ip_addr == ip) by {
            if before[i - 1].ip_addr != ip && exists|k: int|
                0 <= k < i && #[trigger] before[k].ip_addr == ip {
                let k = choose|k: int| 0 <= k < i && #[trigger] before[k].ip_addr == ip;
                assert(k < i - 1);
            }
        }
    }
    assert(host_views(hosts@) =~= add_port(before, ip, port));
    found
}

/// Reads one frame of a port scan into `result`.
pub fn record_port_reply(result: &mut ScanResult, ip_map: &IpMap, frame: &PacketFrame)
    ensures
        final(result)@.findings() == port_step(ip_map@, old(result)@.findings(), frame@),
        final(result)@.scan_status == old(result)@.scan_status,
        final(result)@.scan_time == old(result)@.scan_time,
{
    let ip: IpAddr = match frame.source_ip() {
        Some(ip) => ip,
        None => {
            return ;
        },
    };
    let tcp = match frame.tcp_header {
        Some(tcp) => tcp,
        None => {
            return ;
        },
    };
    let status = match verdict_of_flags(tcp.flags) {
        Some(status) => status,
        None => {
            return ;
        },
    };
    if is_listed(&result.hosts, ip, tcp.source) {
        return ;
    }
    let port = PortInfo { port: tcp.source, status };
    let ghost hosts_before = host_views(result.hosts@);
    let ghost prints_before = frame_views(result.fingerprints@);
    let found = add_port_to_host(&mut result.hosts, ip, port);
    if !found {
        let mut ports: Vec<PortInfo> = Vec::new();
        ports.push(port);
        assert(ports@ =~= seq![port]);
        assert(add_port(hosts_before, ip, port) =~= hosts_before);
        let host = HostInfo { ip_addr: ip, host_name: ip_map.name_of(&ip), ttl: frame.ttl(), ports };
        result.hosts.push(host);
        assert(host_views(result.hosts@) =~= hosts_before.push(host@));
    }
    result.fingerprints.push(frame.duplicate());
    assert(frame_views(result.fingerprints@) =~= prints_before.push(frame@));
}

/// The result of a port scan that captured `frames`, in this order. The
/// status is `Done` and the scan time is zero. No two hosts of the result
/// share an address, and no host and port stand in it twice.
pub fn correlate_port_scan(ip_map: &IpMap, frames: &Vec<PacketFrame>) -> (result: ScanResult)
    ensures
        result@.findings() == port_findings(ip_map@, frame_views(frames@)),
        result@.scan_status == ScanStatus::Done,
        result@.scan_time.as_nanos() == 0,
        distinct_ips(result@.hosts),
        listed_once(result@.hosts),
        only_observed_verdicts(result@.hosts),
{
    proof {
        lemma_port_scan_hosts_distinct(ip_map@, frame_views(frames@));
        lemma_port_scan_pairs_listed_once(ip_map@, frame_views(frames@));
    }
    let mut result = ScanResult::new();
    result.scan_status = ScanStatus::Done;
    let mut i: usize = 0;
    assert(frame_views(frames@).take(0) =~= Seq::<PacketFrameView>::empty());
    while i < frames.len()
        invariant
            i <= frames.len(),
            result@.findings() == port_findings(ip_map@, frame_views(frames@).take(i as int)),
            result@.scan_status == ScanStatus::Done,
            result@.scan_time.as_nanos() == 0,
        decreases frames.len() - i,
    {
        record_port_reply(&mut result, ip_map, &frames[i]);
        assert(frame_views(frames@).take(i + 1).drop_last() =~= frame_views(frames@).take(i as int));
        i += 1;
    }
    assert(frame_views(frames@).take(frames.len() as int) =~= frame_views(frames@));
    result
}

/// The port entries that a frame contributes in a host scan, or `None`
/// where the frame is no reply to such a scan: an ICMP ping and a UDP
/// ping need an ICMP or ICMPv6 header, a TCP ping needs a TCP header
/// whose flags are exactly SYN+ACK or RST+ACK and contributes one entry
/// for the port it came from.
pub open spec fn host_reply_ports(scan_type: ScanType, frame: PacketFrameView) -> Option<
    Seq<PortInfo>,
> {
    match scan_type {
        ScanType::IcmpPingScan | ScanType::UdpPingScan => if frame.icmp_header is Some
            || frame.icmpv6_header is Some {
            Some(Seq::empty())
        } else {
            None
        },
        ScanType::TcpPingScan => match frame.tcp_header {
            Some(tcp) => match verdict_of_flags(tcp.flags) {
                Some(status) => Some(seq![PortInfo { port: tcp.source, status }]),
                None => None,
            },
            None => None,
        },
        _ => Some(Seq::empty()),
    }
}

/// The host that a frame stands for in a host scan.
pub open spec fn host_reply(
    scan_type: ScanType,
    names: Map<IpAddr, Seq<char>>,
    frame: PacketFrameView,
) -> Option<HostInfoView> {
    match (host_reply_ports(scan_type, frame), frame.source_ip()) {
        (Some(ports), Some(ip_addr)) => Some(
            HostInfoView {
                ip_addr,
                host_name: name_or_empty(names, ip_addr),
                ttl: frame.ttl(),
                ports,
            },
        ),
        _ => None,
    }
}

/// The findings after one more frame of a host scan was read: a host
/// that equals none on record is appended, with its frame.
pub open spec fn host_step(
    scan_type: ScanType,
    names: Map<IpAddr, Seq<char>>,
    found: Findings,
    frame: PacketFrameView,
) -> Findings {
    match host_reply(scan_type, names, frame) {
        None => found,
        Some(host) => if found.hosts.contains(host) {
            found
        } else {
            Findings {
                hosts: found.hosts.push(host),
                fingerprints: found.fingerprints.push(frame),
            }
        },
    }
}

/// The findings of a host scan that captured `frames`, in this order.
pub open spec fn host_findings(
    scan_type: ScanType,
    names: Map<IpAddr, Seq<char>>,
    frames: Seq<PacketFrameView>,
) -> Findings
    decreases frames.len(),
{
    if frames.len() == 0 {
        no_findings()
    } else {
        host_step(
            scan_type,
            names,
            host_findings(scan_type, names, frames.drop_last()),
            frames.last(),
        )
    }
}

/// Whether a host equal to `host` is on record.
pub fn contains_host(hosts: &Vec<HostInfo>, host: &HostInfo) -> (found: bool)
    ensures
        found == host_views(hosts@).contains(host@),
{
    let mut i: usize = 0;
    while i < hosts.len()
        invariant
            i <= hosts.len(),
            forall|k: int| 0 <= k < i ==> host_views(hosts@)[k] != host@,
        decreases hosts.len() - i,
    {
        if hosts[i].same_as(host) {
            assert(host_views(hosts@)[i as int] == host@);
            return true;
        }
        i += 1;
    }
    false
}

/// The port entries that a frame contributes in a host scan.
pub fn reply_ports(scan_type: ScanType, frame: &PacketFrame) -> (ports: Option<Vec<PortInfo>>)
    ensures
        ports is Some == host_reply_ports(scan_type, frame@) is Some,
        ports is Some ==> ports->0@ == host_reply_ports(scan_type, frame@)->0,
{
    let mut ports: Vec<PortInfo> = Vec::new();
    match scan_type {
        ScanType::IcmpPingScan | ScanType::UdpPingScan => {
            if frame.icmp_header.is_none() && frame.icmpv6_header.is_none() {
                return None;
            }
        },
        ScanType::TcpPingScan => {
            match frame.tcp_header {
                Some(tcp) => match verdict_of_flags(tcp.flags) {
                    Some(status) => {
                        ports.push(PortInfo { port: tcp.source, status });
                        assert(ports@ =~= seq![PortInfo { port: tcp.source, status }]);
                    },
                    None => {
                        return None;
                    },
                },
                None => {
                    return None;
                },
            }
        },
        _ => {},
    }
    Some(ports)
}

/// Reads one frame of a host scan into `result`.
pub fn record_host_reply(
    result: &mut ScanResult,
    scan_type: ScanType,
    ip_map: &IpMap,
    frame: &PacketFrame,
)
    ensures
        final(result)@.findings() == host_step(
            scan_type,
            ip_map@,
            old(result)@.findings(),
            frame@,
        ),
        final(result)@.scan_status == old(result)@.scan_status,
        final(result)@.scan_time == old(result)@.scan_time,
{
    let ports = match reply_ports(scan_type, frame) {
        Some(ports) => ports,
        None => {
            return ;
        },
    };
    let ip: IpAddr = match frame.source_ip() {
        Some(ip) => ip,
        None => {
            return ;
        },
    };
    let host = HostInfo { ip_addr: ip, host_name: ip_map.name_of(&ip), ttl: frame.ttl(), ports };
    if !contains_host(&result.hosts, &host) {
        let ghost hosts_before = host_views(result.hosts@);
        let ghost prints_before = frame_views(result.fingerprints@);
        result.hosts.push(host);
        result.fingerprints.push(frame.duplicate());
        assert(host_views(result.hosts@) =~= hosts_before.push(host@));
        assert(frame_views(result.fingerprints@) =~= prints_before.push(frame@));
    }
}

/// The result of a host scan that captured `frames`, in this order. The
/// status is `Done` and the scan time is zero.
pub fn correlate_host_scan(scan_type: ScanType, ip_map: &IpMap, frames: &Vec<PacketFrame>) -> (result:
    ScanResult)
    ensures
        result@.findings() == host_findings(scan_type, ip_map@, frame_views(frames@)),
        result@.scan_status == ScanStatus::Done,
        result@.scan_time.as_nanos() == 0,
{
    let mut result = ScanResult::new();
    result.scan_status = ScanStatus::Done;
    let mut i: usize = 0;
    assert(frame_views(frames@).take(0) =~= Seq::<PacketFrameView>::empty());
    while i < frames.len()
        invariant
            i <= frames.len(),
            result@.findings() == host_findings(
                scan_type,
                ip_map@,
                frame_views(frames@).take(i as int),
            ),
            result@.scan_status == ScanStatus::Done,
            result@.scan_time.as_nanos() == 0,
        decreases frames.len() - i,
    {
        record_host_reply(&mut result, scan_type, ip_map, &frames[i]);
        assert(frame_views(frames@).take(i + 1).drop_last() =~= frame_views(frames@).take(i as int));
        i += 1;
    }
    assert(frame_views(frames@).take(frames.len() as int) =~= frame_views(frames@));
    result
}

} // verus!
