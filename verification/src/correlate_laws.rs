//! What holds of the findings of every scan, whatever was captured.

use vstd::prelude::*;
use crate::addr::IpAddr;
use crate::correlate::{
    PortReply, entry_at, has_host, host_findings, host_reply, listed, port_findings, port_reply,
    record_port,
};
use crate::frame::PacketFrameView;
use crate::host::{HostInfoView, PortInfo, PortStatus};
use crate::setting::{ScanType, name_or_empty};

verus! {

/// No two hosts share an address.
pub open spec fn distinct_ips(hosts: Seq<HostInfoView>) -> bool {
    forall|i: int, j: int|
        #![trigger hosts[i], hosts[j]]
        0 <= i < j < hosts.len() ==> hosts[i].ip_addr != hosts[j].ip_addr
}

/// No two entries of a port list share a port number.
pub open spec fn distinct_ports(ports: Seq<PortInfo>) -> bool {
    forall|j: int, k: int|
        #![trigger ports[j], ports[k]]
        0 <= j < k < ports.len() ==> ports[j].port != ports[k].port
}

/// Every host has a port list without repeated port numbers.
pub open spec fn each_host_distinct_ports(hosts: Seq<HostInfoView>) -> bool {
    forall|i: int| 0 <= i < hosts.len() ==> distinct_ports(#[trigger] hosts[i].ports)
}

/// Every port entry is `Open` or `Closed`.
pub open spec fn only_observed_verdicts(hosts: Seq<HostInfoView>) -> bool {
    forall|i: int, j: int|
        #![trigger hosts[i].ports[j]]
        0 <= i < hosts.len() && 0 <= j < hosts[i].ports.len() ==> hosts[i].ports[j].status
            != PortStatus::Filtered
}

/// A verdict on a host and port stands at one place at most.
pub open spec fn listed_once(hosts: Seq<HostInfoView>) -> bool {
    forall|i1: int, j1: int, i2: int, j2: int, ip: IpAddr, port: u16|
        #![trigger entry_at(hosts, i1, j1, ip, port), entry_at(hosts, i2, j2, ip, port)]
        entry_at(hosts, i1, j1, ip, port) && entry_at(hosts, i2, j2, ip, port) ==> i1 == i2 && j1
            == j2
}

/// `later` holds everything that `earlier` holds, at the same places:
/// hosts were only appended, and port entries only appended to them.
pub open spec fn extends(later: Seq<HostInfoView>, earlier: Seq<HostInfoView>) -> bool {
    &&& earlier.len() <= later.len()
    &&& forall|i: int|
        #![trigger later[i]]
        #![trigger earlier[i]]
        0 <= i < earlier.len() ==> {
            &&& later[i].ip_addr == earlier[i].ip_addr
            &&& later[i].host_name == earlier[i].host_name
            &&& later[i].ttl == earlier[i].ttl
            &&& earlier[i].ports.is_prefix_of(later[i].ports)
        }
}

/// Whether `frame` is a port-scan reply from `ip` that carries `port`.
pub open spec fn reply_is(frame: PacketFrameView, ip: IpAddr, port: PortInfo) -> bool {
    port_reply(frame) matches Some(reply) && reply.ip_addr == ip && reply.port == port
}

/// Every port entry was read from one of `frames`.
pub open spec fn read_from(hosts: Seq<HostInfoView>, frames: Seq<PacketFrameView>) -> bool {
    forall|i: int, j: int|
        #![trigger hosts[i].ports[j]]
        0 <= i < hosts.len() && 0 <= j < hosts[i].ports.len() ==> exists|k: int|
            0 <= k < frames.len() && reply_is(#[trigger] frames[k], hosts[i].ip_addr, hosts[i].ports[j])
}

proof fn lemma_record_port_tidy(hosts: Seq<HostInfoView>, reply: PortReply, name: Seq<char>)
    requires
        distinct_ips(hosts),
        each_host_distinct_ports(hosts),
        !listed(hosts, reply.ip_addr, reply.port.port),
    ensures
        distinct_ips(record_port(hosts, reply, name)),
        each_host_distinct_ports(record_port(hosts, reply, name)),
        extends(record_port(hosts, reply, name), hosts),
        listed(record_port(hosts, reply, name), reply.ip_addr, reply.port.port),
{
    let after = record_port(hosts, reply, name);
    if has_host(hosts, reply.ip_addr) {
        let w = choose|i: int| 0 <= i < hosts.len() && #[trigger] hosts[i].ip_addr == reply.ip_addr;
        assert forall|i: int| 0 <= i < after.len() implies distinct_ports(
            #[trigger] after[i].ports,
        ) by {
            assert(distinct_ports(hosts[i].ports));
            if hosts[i].ip_addr == reply.ip_addr {
                let ports = after[i].ports;
                assert forall|j: int, k: int| 0 <= j < k < ports.len() implies ports[j].port
                    != ports[k].port by {
                    if k == ports.len() - 1 {
                        assert(!entry_at(hosts, i, j, reply.ip_addr, reply.port.port));
                    } else {
                        assert(hosts[i].ports[j].port != hosts[i].ports[k].port);
                    }
                }
            }
        }
        assert(entry_at(
            after,
            w,
            after[w].ports.len() - 1,
            reply.ip_addr,
            reply.port.port,
        ));
    } else {
        assert forall|i: int, j: int| 0 <= i < j < after.len() implies after[i].ip_addr
            != after[j].ip_addr by {
            if j == after.len() - 1 {
                assert(hosts[i].ip_addr != reply.ip_addr);
            } else {
                assert(hosts[i].ip_addr != hosts[j].ip_addr);
            }
        }
        assert forall|i: int| 0 <= i < after.len() implies distinct_ports(
            #[trigger] after[i].ports,
        ) by {
            if i < hosts.len() {
                assert(distinct_ports(hosts[i].ports));
            }
        }
        assert(entry_at(after, after.len() - 1, 0, reply.ip_addr, reply.port.port));
    }
}

proof fn lemma_extends_transitive(
    a: Seq<HostInfoView>,
    b: Seq<HostInfoView>,
    c: Seq<HostInfoView>,
)
    requires
        extends(b, a),
        extends(c, b),
    ensures
        extends(c, a),
{
    assert forall|i: int| 0 <= i < a.len() implies a[i].ports.is_prefix_of(c[i].ports) by {
        assert(a[i].ports.is_prefix_of(b[i].ports));
        assert(b[i].ports.is_prefix_of(c[i].ports));
        assert(a[i].ports =~= c[i].ports.subrange(0, a[i].ports.len() as int));
    }
}

proof fn lemma_port_findings_tidy(names: Map<IpAddr, Seq<char>>, frames: Seq<PacketFrameView>)
    ensures
        distinct_ips(port_findings(names, frames).hosts),
        each_host_distinct_ports(port_findings(names, frames).hosts),
    decreases frames.len(),
{
    if frames.len() > 0 {
        lemma_port_findings_tidy(names, frames.drop_last());
        let before = port_findings(names, frames.drop_last());
        match port_reply(frames.last()) {
            Some(reply) => {
                if !listed(before.hosts, reply.ip_addr, reply.port.port) {
                    lemma_record_port_tidy(
                        before.hosts,
                        reply,
                        name_or_empty(names, reply.ip_addr),
                    );
                }
            },
            None => {},
        }
    }
}

/// In the findings of a port scan no two hosts share an address.
pub proof fn lemma_port_scan_hosts_distinct(
    names: Map<IpAddr, Seq<char>>,
    frames: Seq<PacketFrameView>,
)
    ensures
        distinct_ips(port_findings(names, frames).hosts),
{
    lemma_port_findings_tidy(names, frames);
}

/// In the findings of a port scan a verdict on a host and port stands at
/// one place at most, and it is `Open` or `Closed`.
pub proof fn lemma_port_scan_pairs_listed_once(
    names: Map<IpAddr, Seq<char>>,
    frames: Seq<PacketFrameView>,
)
    ensures
        listed_once(port_findings(names, frames).hosts),
        only_observed_verdicts(port_findings(names, frames).hosts),
{
    lemma_port_findings_tidy(names, frames);
    lemma_port_scan_entries_read_from_frames(names, frames);
    let hosts = port_findings(names, frames).hosts;
    assert forall|i1: int, j1: int, i2: int, j2: int, ip: IpAddr, port: u16|
        entry_at(hosts, i1, j1, ip, port) && entry_at(hosts, i2, j2, ip, port) implies i1 == i2
        && j1 == j2 by {
        if i1 < i2 {
            assert(hosts[i1].ip_addr != hosts[i2].ip_addr);
        } else if i2 < i1 {
            assert(hosts[i2].ip_addr != hosts[i1].ip_addr);
        } else {
            assert(distinct_ports(hosts[i1].ports));
            if j1 < j2 {
                assert(hosts[i1].ports[j1].port != hosts[i1].ports[j2].port);
            } else if j2 < j1 {
                assert(hosts[i1].ports[j2].port != hosts[i1].ports[j1].port);
            }
        }
    }
    assert forall|i: int, j: int|
        0 <= i < hosts.len() && 0 <= j < hosts[i].ports.len() implies (
    #[trigger] hosts[i].ports[j]).status != PortStatus::Filtered by {
        let k = choose|k: int|
            0 <= k < frames.len() && reply_is(
                #[trigger] frames[k],
                hosts[i].ip_addr,
                hosts[i].ports[j],
            );
        assert(reply_is(frames[k], hosts[i].ip_addr, hosts[i].ports[j]));
    }
}

/// Reading more frames never changes what a port scan has on record: the
/// findings from all of `frames` hold the findings from the first `n` of
/// them, host by host and entry by entry, and only append to them.
pub proof fn lemma_port_scan_verdicts_stand(
    names: Map<IpAddr, Seq<char>>,
    frames: Seq<PacketFrameView>,
    n: int,
)
    requires
        0 <= n <= frames.len(),
    ensures
        extends(port_findings(names, frames).hosts, port_findings(names, frames.take(n)).hosts),
    decreases frames.len() - n,
{
    if n == frames.len() {
        assert(frames.take(n) =~= frames);
        let hosts = port_findings(names, frames).hosts;
        assert forall|i: int| 0 <= i < hosts.len() implies hosts[i].ports.is_prefix_of(
            hosts[i].ports,
        ) by {
            assert(hosts[i].ports =~= hosts[i].ports.subrange(0, hosts[i].ports.len() as int));
        }
    } else {
        let shorter = frames.drop_last();
        lemma_port_scan_verdicts_stand(names, shorter, n);
        assert(shorter.take(n) =~= frames.take(n));
        lemma_port_findings_tidy(names, shorter);
        let before = port_findings(names, shorter);
        let after = port_findings(names, frames);
        match port_reply(frames.last()) {
            Some(reply) => {
                if !listed(before.hosts, reply.ip_addr, reply.port.port) {
                    lemma_record_port_tidy(
                        before.hosts,
                        reply,
                        name_or_empty(names, reply.ip_addr),
                    );
                } else {
                    lemma_port_scan_verdicts_stand(names, shorter, shorter.len() as int);
                    assert(shorter.take(shorter.len() as int) =~= shorter);
                }
            },
            None => {
                lemma_port_scan_verdicts_stand(names, shorter, shorter.len() as int);
                assert(shorter.take(shorter.len() as int) =~= shorter);
            },
        }
        lemma_extends_transitive(
            port_findings(names, frames.take(n)).hosts,
            before.hosts,
            after.hosts,
        );
    }
}

/// Every port entry in the findings of a port scan was read from one of
/// the captured frames: a frame from that host whose TCP source port and
/// flags give that entry.
pub proof fn lemma_port_scan_entries_read_from_frames(
    names: Map<IpAddr, Seq<char>>,
    frames: Seq<PacketFrameView>,
)
    ensures
        read_from(port_findings(names, frames).hosts, frames),
    decreases frames.len(),
{
    if frames.len() > 0 {
        let shorter = frames.drop_last();
        lemma_port_scan_entries_read_from_frames(names, shorter);
        let before = port_findings(names, shorter).hosts;
        let after = port_findings(names, frames).hosts;
        let last = frames.len() - 1;
        assert forall|i: int, j: int|
            0 <= i < after.len() && 0 <= j < after[i].ports.len() implies exists|k: int|
            0 <= k < frames.len() && reply_is(
                #[trigger] frames[k],
                after[i].ip_addr,
                (#[trigger] after[i].ports[j]),
            ) by {
            if i < before.len() && j < before[i].ports.len() {
                assert(after[i].ip_addr == before[i].ip_addr);
                assert(after[i].ports[j] == before[i].ports[j]);
                let k = choose|k: int|
                    0 <= k < shorter.len() && reply_is(
                        #[trigger] shorter[k],
                        before[i].ip_addr,
                        before[i].ports[j],
                    );
                assert(reply_is(frames[k], after[i].ip_addr, after[i].ports[j]));
            } else {
                assert(reply_is(frames[last], after[i].ip_addr, after[i].ports[j]));
            }
        }
    }
}

/// Every reply among the captured frames of a port scan has its host and
/// port on record.
pub proof fn lemma_port_scan_replies_are_listed(
    names: Map<IpAddr, Seq<char>>,
    frames: Seq<PacketFrameView>,
    k: int,
)
    requires
        0 <= k < frames.len(),
        port_reply(frames[k]) is Some,
    ensures
        listed(
            port_findings(names, frames).hosts,
            port_reply(frames[k])->0.ip_addr,
            port_reply(frames[k])->0.port.port,
        ),
    decreases frames.len(),
{
    let shorter = frames.drop_last();
    let before = port_findings(names, shorter).hosts;
    let after = port_findings(names, frames).hosts;
    let wanted = port_reply(frames[k])->0;
    lemma_port_findings_tidy(names, shorter);
    if k < frames.len() - 1 {
        lemma_port_scan_replies_are_listed(names, shorter, k);
        lemma_port_scan_verdicts_stand(names, frames, frames.len() - 1);
        assert(frames.take(frames.len() - 1) =~= shorter);
        let (i, j) = choose|i: int, j: int|
            entry_at(before, i, j, wanted.ip_addr, wanted.port.port);
        assert(entry_at(before, i, j, wanted.ip_addr, wanted.port.port));
        assert(before[i].ports.is_prefix_of(after[i].ports));
        assert(after[i].ports[j] == before[i].ports[j]);
        assert(entry_at(after, i, j, wanted.ip_addr, wanted.port.port));
    } else {
        if !listed(before, wanted.ip_addr, wanted.port.port) {
            lemma_record_port_tidy(before, wanted, name_or_empty(names, wanted.ip_addr));
        }
    }
}

/// Whether any two frames that stand for a host of the same address
/// stand for the same host: same TTL and same port entries.
pub open spec fn replies_agree(
    scan_type: ScanType,
    names: Map<IpAddr, Seq<char>>,
    frames: Seq<PacketFrameView>,
) -> bool {
    forall|a: int, b: int|
        #![trigger frames[a], frames[b]]
        0 <= a < frames.len() && 0 <= b < frames.len() && host_reply(scan_type, names, frames[a])
            is Some && host_reply(scan_type, names, frames[b]) is Some && host_reply(
            scan_type,
            names,
            frames[a],
        )->0.ip_addr == host_reply(scan_type, names, frames[b])->0.ip_addr ==> host_reply(
            scan_type,
            names,
            frames[a],
        ) == host_reply(scan_type, names, frames[b])
}

/// Every host in the findings of a host scan is what one of the captured
/// frames stands for.
pub proof fn lemma_host_scan_hosts_read_from_frames(
    scan_type: ScanType,
    names: Map<IpAddr, Seq<char>>,
    frames: Seq<PacketFrameView>,
)
    ensures
        forall|i: int|
            0 <= i < host_findings(scan_type, names, frames).hosts.len() ==> exists|k: int|
                0 <= k < frames.len() && host_reply(scan_type, names, #[trigger] frames[k])
                    == Some(#[trigger] host_findings(scan_type, names, frames).hosts[i]),
    decreases frames.len(),
{
    if frames.len() > 0 {
        let shorter = frames.drop_last();
        lemma_host_scan_hosts_read_from_frames(scan_type, names, shorter);
        let before = host_findings(scan_type, names, shorter).hosts;
        let after = host_findings(scan_type, names, frames).hosts;
        assert forall|i: int| 0 <= i < after.len() implies exists|k: int|
            0 <= k < frames.len() && host_reply(scan_type, names, #[trigger] frames[k]) == Some(
                #[trigger] after[i],
            ) by {
            if i < before.len() {
                assert(after[i] == before[i]);
                let k = choose|k: int|
                    0 <= k < shorter.len() && host_reply(scan_type, names, #[trigger] shorter[k])
                        == Some(before[i]);
                assert(host_reply(scan_type, names, frames[k]) == Some(after[i]));
            } else {
                assert(host_reply(scan_type, names, frames[frames.len() - 1]) == Some(after[i]));
            }
        }
    }
}

/// The findings of a host scan hold the host of every captured reply, and
/// reading more frames only appends hosts.
pub proof fn lemma_host_scan_replies_are_listed(
    scan_type: ScanType,
    names: Map<IpAddr, Seq<char>>,
    frames: Seq<PacketFrameView>,
    k: int,
)
    requires
        0 <= k < frames.len(),
        host_reply(scan_type, names, frames[k]) is Some,
    ensures
        host_findings(scan_type, names, frames).hosts.contains(
            host_reply(scan_type, names, frames[k])->0,
        ),
        host_findings(scan_type, names, frames.drop_last()).hosts.is_prefix_of(
            host_findings(scan_type, names, frames).hosts,
        ),
    decreases frames.len(),
{
    let shorter = frames.drop_last();
    let before = host_findings(scan_type, names, shorter).hosts;
    let after = host_findings(scan_type, names, frames).hosts;
    let wanted = host_reply(scan_type, names, frames[k])->0;
    assert(before =~= after.subrange(0, before.len() as int));
    if k < frames.len() - 1 {
        lemma_host_scan_replies_are_listed(scan_type, names, shorter, k);
        let i = choose|i: int| 0 <= i < before.len() && before[i] == wanted;
        assert(after[i] == wanted);
    } else {
        if !before.contains(wanted) {
            assert(after[after.len() - 1] == wanted);
        } else {
            let i = choose|i: int| 0 <= i < before.len() && before[i] == wanted;
            assert(after[i] == wanted);
        }
    }
}

/// In the findings of a host scan no host stands twice with the same
/// address, name, TTL and port entries.
pub proof fn lemma_host_scan_no_host_twice(
    scan_type: ScanType,
    names: Map<IpAddr, Seq<char>>,
    frames: Seq<PacketFrameView>,
)
    ensures
        host_findings(scan_type, names, frames).hosts.no_duplicates(),
    decreases frames.len(),
{
    if frames.len() > 0 {
        lemma_host_scan_no_host_twice(scan_type, names, frames.drop_last());
    }
}

/// Where the frames of a host scan agree on each host, no two hosts in
/// its findings share an address.
pub proof fn lemma_host_scan_hosts_distinct(
    scan_type: ScanType,
    names: Map<IpAddr, Seq<char>>,
    frames: Seq<PacketFrameView>,
)
    requires
        replies_agree(scan_type, names, frames),
    ensures
        distinct_ips(host_findings(scan_type, names, frames).hosts),
{
    let hosts = host_findings(scan_type, names, frames).hosts;
    lemma_host_scan_no_host_twice(scan_type, names, frames);
    lemma_host_scan_hosts_read_from_frames(scan_type, names, frames);
    assert forall|i: int, j: int| 0 <= i < j < hosts.len() implies hosts[i].ip_addr
        != hosts[j].ip_addr by {
        let a = choose|k: int|
            0 <= k < frames.len() && host_reply(scan_type, names, #[trigger] frames[k]) == Some(
                hosts[i],
            );
        let b = choose|k: int|
            0 <= k < frames.len() && host_reply(scan_type, names, #[trigger] frames[k]) == Some(
                hosts[j],
            );
        if hosts[i].ip_addr == hosts[j].ip_addr {
            assert(host_reply(scan_type, names, frames[a]) == host_reply(
                scan_type,
                names,
                frames[b],
            ));
            assert(hosts[i] == hosts[j]);
        }
    }
}

/// Whether `hosts` lists the port entry `entry` for the host `ip`.
pub open spec fn has_entry(hosts: Seq<HostInfoView>, ip: IpAddr, entry: PortInfo) -> bool {
    exists|i: int, j: int|
        0 <= i < hosts.len() && 0 <= j < hosts[i].ports.len() && hosts[i].ip_addr == ip
            && #[trigger] hosts[i].ports[j] == entry
}

/// Whether some frame is a reply from `ip` that carries `entry`.
pub open spec fn has_reply(frames: Seq<PacketFrameView>, ip: IpAddr, entry: PortInfo) -> bool {
    exists|k: int| 0 <= k < frames.len() && reply_is(#[trigger] frames[k], ip, entry)
}

/// Whether the frames agree on every host and port: no two replies from
/// the same host and port carry different verdicts.
pub open spec fn verdicts_agree(frames: Seq<PacketFrameView>) -> bool {
    forall|ip: IpAddr, first: PortInfo, second: PortInfo|
        #![trigger has_reply(frames, ip, first), has_reply(frames, ip, second)]
        has_reply(frames, ip, first) && has_reply(frames, ip, second) && first.port == second.port
            ==> first == second
}

/// Where the frames agree on every host and port, the findings of a
/// port scan list exactly the replies among the frames.
pub proof fn lemma_port_scan_lists_the_replies(
    names: Map<IpAddr, Seq<char>>,
    frames: Seq<PacketFrameView>,
    ip: IpAddr,
    entry: PortInfo,
)
    requires
        verdicts_agree(frames),
    ensures
        has_entry(port_findings(names, frames).hosts, ip, entry) <==> has_reply(frames, ip, entry),
{
    let hosts = port_findings(names, frames).hosts;
    lemma_port_scan_entries_read_from_frames(names, frames);
    if has_entry(hosts, ip, entry) {
        let (i, j) = choose|i: int, j: int|
            0 <= i < hosts.len() && 0 <= j < hosts[i].ports.len() && hosts[i].ip_addr == ip
                && #[trigger] hosts[i].ports[j] == entry;
        let k = choose|k: int|
            0 <= k < frames.len() && reply_is(#[trigger] frames[k], hosts[i].ip_addr, hosts[i].ports[j]);
        assert(reply_is(frames[k], ip, entry));
    }
    if has_reply(frames, ip, entry) {
        let k = choose|k: int| 0 <= k < frames.len() && reply_is(#[trigger] frames[k], ip, entry);
        lemma_port_scan_replies_are_listed(names, frames, k);
        let (i, j) = choose|i: int, j: int| entry_at(hosts, i, j, ip, entry.port);
        assert(entry_at(hosts, i, j, ip, entry.port));
        let listed_entry = hosts[i].ports[j];
        let m = choose|m: int|
            0 <= m < frames.len() && reply_is(#[trigger] frames[m], hosts[i].ip_addr, hosts[i].ports[j]);
        assert(reply_is(frames[m], ip, listed_entry));
        assert(has_reply(frames, ip, listed_entry));
        assert(listed_entry == entry);
    }
}

/// The order of arrival does not change what a port scan finds of a
/// target that answers the same way each time: two captures that hold
/// the same replies, and agree on every host and port, give the same
/// port entries for every host.
pub proof fn lemma_port_scan_order_does_not_matter(
    names: Map<IpAddr, Seq<char>>,
    first: Seq<PacketFrameView>,
    second: Seq<PacketFrameView>,
)
    requires
        verdicts_agree(first),
        forall|ip: IpAddr, entry: PortInfo|
            has_reply(first, ip, entry) <==> has_reply(second, ip, entry),
    ensures
        forall|ip: IpAddr, entry: PortInfo|
            has_entry(port_findings(names, first).hosts, ip, entry) <==> has_entry(
                port_findings(names, second).hosts,
                ip,
                entry,
            ),
{
    assert(verdicts_agree(second)) by {
        assert forall|ip: IpAddr, a: PortInfo, b: PortInfo|
            has_reply(second, ip, a) && has_reply(second, ip, b) && a.port == b.port implies a
            == b by {
            assert(has_reply(first, ip, a));
            assert(has_reply(first, ip, b));
        }
    }
    assert forall|ip: IpAddr, entry: PortInfo|
        has_entry(port_findings(names, first).hosts, ip, entry) <==> has_entry(
            port_findings(names, second).hosts,
            ip,
            entry,
        ) by {
        lemma_port_scan_lists_the_replies(names, first, ip, entry);
        lemma_port_scan_lists_the_replies(names, second, ip, entry);
    }
}

} // verus!
