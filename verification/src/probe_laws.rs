//! What holds of every plan of probes.

use vstd::prelude::*;
use crate::addr::{IpAddr, SocketAddr, be_bytes};
use crate::host::HostTargetView;
use crate::packet::{TcpOption, option_bytes, options_bytes};
use crate::probe::{
    TCP_PING_PORT, host_probe_targets, port_probe_targets, syn_options, target_host,
    target_sockets, tcp_ping_aims, tcp_ping_destinations, tcp_ping_reports, tcp_ping_targets,
};

verus! {

/// Whether `socket` is a port of a target of the source's address
/// family.
pub open spec fn is_target_port(
    src: IpAddr,
    targets: Seq<HostTargetView>,
    socket: SocketAddr,
) -> bool {
    exists|i: int, j: int|
        0 <= i < targets.len() && 0 <= j < targets[i].ports.len() && src.same_family(
            &targets[i].ip_addr,
        ) && socket.ip == targets[i].ip_addr && socket.port == #[trigger] targets[i].ports[j]
}

/// Whether `ip` is the address of a target of the source's address
/// family.
pub open spec fn is_target_host(src: IpAddr, targets: Seq<HostTargetView>, ip: IpAddr) -> bool {
    exists|i: int|
        0 <= i < targets.len() && src.same_family(&ip) && ip == (#[trigger] targets[i]).ip_addr
}

/// Without targets there is nothing to probe.
pub proof fn lemma_no_targets_no_probes(src: IpAddr)
    ensures
        port_probe_targets(src, Seq::empty()) == Seq::<SocketAddr>::empty(),
        host_probe_targets(src, Seq::empty()) == Seq::<SocketAddr>::empty(),
        tcp_ping_targets(src, Seq::empty()) == Seq::<SocketAddr>::empty(),
        tcp_ping_destinations(src, Seq::empty()) == Seq::<SocketAddr>::empty(),
{
}

/// A target without ports adds nothing to a port-wise plan, and a target
/// of another address family than the source adds nothing to any plan.
/// To a TCP ping a target of the source's family without ports adds one
/// probe, to port 80 and reported with port 0.
pub proof fn lemma_target_without_probes(src: IpAddr, target: HostTargetView)
    ensures
        target.ports.len() == 0 ==> target_sockets(src, target) == Seq::<SocketAddr>::empty(),
        !src.same_family(&target.ip_addr) ==> target_sockets(src, target) == Seq::<
            SocketAddr,
        >::empty(),
        !src.same_family(&target.ip_addr) ==> target_host(src, target) == Seq::<
            SocketAddr,
        >::empty(),
        !src.same_family(&target.ip_addr) ==> tcp_ping_reports(src, target) == Seq::<
            SocketAddr,
        >::empty() && tcp_ping_aims(src, target) == Seq::<SocketAddr>::empty(),
        src.same_family(&target.ip_addr) && target.ports.len() == 0 ==> tcp_ping_reports(
            src,
            target,
        ) == seq![SocketAddr { ip: target.ip_addr, port: 0 }] && tcp_ping_aims(src, target)
            == seq![SocketAddr { ip: target.ip_addr, port: TCP_PING_PORT }],
        src.same_family(&target.ip_addr) && target.ports.len() > 0 ==> tcp_ping_reports(
            src,
            target,
        ) == target_sockets(src, target) && tcp_ping_aims(src, target) == target_sockets(
            src,
            target,
        ),
{
    assert(target.ports.len() == 0 ==> target_sockets(src, target) =~= Seq::<SocketAddr>::empty());
}

/// A port-wise plan has one probe for each port of each target of the
/// source's address family.
pub proof fn lemma_port_plan_length(src: IpAddr, targets: Seq<HostTargetView>)
    ensures
        port_probe_targets(src, targets).len() == probed_ports(src, targets),
    decreases targets.len(),
{
    if targets.len() > 0 {
        lemma_port_plan_length(src, targets.drop_last());
    }
}

/// The number of ports on targets of the source's address family.
pub open spec fn probed_ports(src: IpAddr, targets: Seq<HostTargetView>) -> nat
    decreases targets.len(),
{
    if targets.len() == 0 {
        0
    } else {
        probed_ports(src, targets.drop_last()) + if src.same_family(&targets.last().ip_addr) {
            targets.last().ports.len()
        } else {
            0
        }
    }
}

/// Every probe of a port-wise plan goes to a port of a target, and that
/// target is of the source's address family: a target of the other
/// family is passed over, and so is one without ports.
pub proof fn lemma_port_probes_come_from_targets(
    src: IpAddr,
    targets: Seq<HostTargetView>,
    k: int,
)
    requires
        0 <= k < port_probe_targets(src, targets).len(),
    ensures
        is_target_port(src, targets, port_probe_targets(src, targets)[k]),
        src.same_family(&port_probe_targets(src, targets)[k].ip),
    decreases targets.len(),
{
    let shorter = targets.drop_last();
    let earlier = port_probe_targets(src, shorter);
    let socket = port_probe_targets(src, targets)[k];
    if k < earlier.len() {
        lemma_port_probes_come_from_targets(src, shorter, k);
        let (i, j) = choose|i: int, j: int|
            0 <= i < shorter.len() && 0 <= j < shorter[i].ports.len() && src.same_family(
                &shorter[i].ip_addr,
            ) && socket.ip == shorter[i].ip_addr && socket.port == #[trigger] shorter[i].ports[j];
        assert(targets[i].ports[j] == socket.port);
    } else {
        let last = targets.len() - 1;
        assert(targets[last].ports[k - earlier.len()] == socket.port);
    }
}

/// Every port of every target of the source's address family is probed
/// by a port-wise plan.
pub proof fn lemma_target_ports_are_probed(
    src: IpAddr,
    targets: Seq<HostTargetView>,
    i: int,
    j: int,
)
    requires
        0 <= i < targets.len(),
        0 <= j < targets[i].ports.len(),
        src.same_family(&targets[i].ip_addr),
    ensures
        port_probe_targets(src, targets).contains(
            SocketAddr { ip: targets[i].ip_addr, port: targets[i].ports[j] },
        ),
    decreases targets.len(),
{
    let shorter = targets.drop_last();
    let earlier = port_probe_targets(src, shorter);
    let all = port_probe_targets(src, targets);
    let socket = SocketAddr { ip: targets[i].ip_addr, port: targets[i].ports[j] };
    if i < targets.len() - 1 {
        lemma_target_ports_are_probed(src, shorter, i, j);
        let k = choose|k: int| 0 <= k < earlier.len() && earlier[k] == socket;
        assert(all[k] == socket);
    } else {
        assert(all[earlier.len() + j] == socket);
    }
}

/// Every probe of a host-wise plan goes to a target of the source's
/// address family and reports port 0.
pub proof fn lemma_host_probes_come_from_targets(
    src: IpAddr,
    targets: Seq<HostTargetView>,
    k: int,
)
    requires
        0 <= k < host_probe_targets(src, targets).len(),
    ensures
        is_target_host(src, targets, host_probe_targets(src, targets)[k].ip),
        host_probe_targets(src, targets)[k].port == 0,
    decreases targets.len(),
{
    let shorter = targets.drop_last();
    let earlier = host_probe_targets(src, shorter);
    let socket = host_probe_targets(src, targets)[k];
    if k < earlier.len() {
        lemma_host_probes_come_from_targets(src, shorter, k);
        let i = choose|i: int|
            0 <= i < shorter.len() && src.same_family(&socket.ip) && socket.ip == (
            #[trigger] shorter[i]).ip_addr;
        assert(targets[i].ip_addr == socket.ip);
    } else {
        let last = targets.len() - 1;
        assert(targets[last].ip_addr == socket.ip);
    }
}

/// Where no target is of the source's address family, no plan holds a
/// probe.
pub proof fn lemma_other_family_no_probes(src: IpAddr, targets: Seq<HostTargetView>)
    requires
        forall|i: int| 0 <= i < targets.len() ==> !src.same_family(&(#[trigger] targets[i]).ip_addr),
    ensures
        port_probe_targets(src, targets) == Seq::<SocketAddr>::empty(),
        host_probe_targets(src, targets) == Seq::<SocketAddr>::empty(),
        tcp_ping_targets(src, targets) == Seq::<SocketAddr>::empty(),
        tcp_ping_destinations(src, targets) == Seq::<SocketAddr>::empty(),
    decreases targets.len(),
{
    if targets.len() > 0 {
        lemma_other_family_no_probes(src, targets.drop_last());
        assert(port_probe_targets(src, targets) =~= Seq::<SocketAddr>::empty());
        assert(host_probe_targets(src, targets) =~= Seq::<SocketAddr>::empty());
        assert(tcp_ping_targets(src, targets) =~= Seq::<SocketAddr>::empty());
        assert(tcp_ping_destinations(src, targets) =~= Seq::<SocketAddr>::empty());
    }
}

/// Every probe of a TCP ping goes to the host that it reports, which is
/// a target of the source's address family. It goes to the port that it
/// reports, but for a probe that reports port 0 for a target without
/// ports: that one goes to port 80.
pub proof fn lemma_tcp_ping_probes_go_to_their_hosts(
    src: IpAddr,
    targets: Seq<HostTargetView>,
    k: int,
)
    requires
        0 <= k < tcp_ping_targets(src, targets).len(),
    ensures
        tcp_ping_destinations(src, targets).len() == tcp_ping_targets(src, targets).len(),
        tcp_ping_destinations(src, targets)[k].ip == tcp_ping_targets(src, targets)[k].ip,
        is_target_host(src, targets, tcp_ping_targets(src, targets)[k].ip),
        tcp_ping_destinations(src, targets)[k] == tcp_ping_targets(src, targets)[k] || (
        tcp_ping_targets(src, targets)[k].port == 0 && tcp_ping_destinations(
            src,
            targets,
        )[k].port == TCP_PING_PORT),
    decreases targets.len(),
{
    let shorter = targets.drop_last();
    let earlier = tcp_ping_targets(src, shorter);
    lemma_tcp_ping_plan_length(src, shorter);
    lemma_tcp_ping_plan_length(src, targets);
    let reported = tcp_ping_targets(src, targets)[k];
    if k < earlier.len() {
        lemma_tcp_ping_probes_go_to_their_hosts(src, shorter, k);
        let i = choose|i: int|
            0 <= i < shorter.len() && src.same_family(&reported.ip) && reported.ip == (
            #[trigger] shorter[i]).ip_addr;
        assert(targets[i].ip_addr == reported.ip);
    } else {
        let last = targets.len() - 1;
        assert(targets[last].ip_addr == reported.ip);
    }
}

/// A TCP ping reports as many probes as it sends.
pub proof fn lemma_tcp_ping_plan_length(src: IpAddr, targets: Seq<HostTargetView>)
    ensures
        tcp_ping_destinations(src, targets).len() == tcp_ping_targets(src, targets).len(),
    decreases targets.len(),
{
    if targets.len() > 0 {
        lemma_tcp_ping_plan_length(src, targets.drop_last());
    }
}

/// A TCP ping probes every target of the source's address family: a
/// target without ports once, with port 0 reported, and a target with
/// ports on each of them.
pub proof fn lemma_tcp_ping_reaches_every_target(
    src: IpAddr,
    targets: Seq<HostTargetView>,
    i: int,
)
    requires
        0 <= i < targets.len(),
        src.same_family(&targets[i].ip_addr),
    ensures
        targets[i].ports.len() == 0 ==> tcp_ping_targets(src, targets).contains(
            SocketAddr { ip: targets[i].ip_addr, port: 0 },
        ),
        forall|j: int|
            0 <= j < targets[i].ports.len() ==> tcp_ping_targets(src, targets).contains(
                SocketAddr { ip: targets[i].ip_addr, port: #[trigger] targets[i].ports[j] },
            ),
    decreases targets.len(),
{
    let shorter = targets.drop_last();
    let earlier = tcp_ping_targets(src, shorter);
    let all = tcp_ping_targets(src, targets);
    if i < targets.len() - 1 {
        lemma_tcp_ping_reaches_every_target(src, shorter, i);
        if targets[i].ports.len() == 0 {
            let host = SocketAddr { ip: targets[i].ip_addr, port: 0 };
            let k = choose|k: int| 0 <= k < earlier.len() && earlier[k] == host;
            assert(all[k] == host);
        }
        assert forall|j: int| 0 <= j < targets[i].ports.len() implies all.contains(
            SocketAddr { ip: targets[i].ip_addr, port: #[trigger] targets[i].ports[j] },
        ) by {
            let socket = SocketAddr { ip: targets[i].ip_addr, port: targets[i].ports[j] };
            assert(shorter[i].ports[j] == targets[i].ports[j]);
            let k = choose|k: int| 0 <= k < earlier.len() && earlier[k] == socket;
            assert(all[k] == socket);
        }
    } else {
        if targets[i].ports.len() == 0 {
            assert(all[earlier.len() as int] == SocketAddr { ip: targets[i].ip_addr, port: 0 });
        }
        assert forall|j: int| 0 <= j < targets[i].ports.len() implies all.contains(
            SocketAddr { ip: targets[i].ip_addr, port: #[trigger] targets[i].ports[j] },
        ) by {
            assert(all[earlier.len() + j] == SocketAddr {
                ip: targets[i].ip_addr,
                port: targets[i].ports[j],
            });
        }
    }
}

proof fn lemma_options_bytes_push(options: Seq<TcpOption>, option: TcpOption)
    ensures
        options_bytes(options.push(option)) == options_bytes(options) + option_bytes(option),
{
    assert(options.push(option).drop_last() =~= options);
}

/// The options of a SYN probe stand in its TCP header as these bytes:
/// with the full set, MSS 1460, NOP, window scale 6, NOP, NOP, timestamp
/// with all bits set and reply 0, SACK permitted; with the reduced set,
/// MSS 1460, SACK permitted, NOP, NOP, window scale 7.
pub proof fn lemma_syn_option_bytes()
    ensures
        options_bytes(syn_options(false)) == seq![
            2u8, 4u8, 0x05u8, 0xb4u8,
            1u8,
            3u8, 3u8, 6u8,
            1u8,
            1u8,
            8u8, 10u8, 0xffu8, 0xffu8, 0xffu8, 0xffu8, 0u8, 0u8, 0u8, 0u8,
            4u8, 2u8,
        ],
        options_bytes(syn_options(true)) == seq![
            2u8, 4u8, 0x05u8, 0xb4u8,
            4u8, 2u8,
            1u8,
            1u8,
            3u8, 3u8, 7u8,
        ],
{
    reveal_with_fuel(be_bytes, 5);
    let mss = TcpOption::Mss(1460);
    let nop = TcpOption::Nop;
    let sack = TcpOption::SackPermitted;
    let stamp = TcpOption::Timestamp(u32::MAX, 0);
    assert(be_bytes(1460, 2) =~= seq![0x05u8, 0xb4u8]);
    assert(be_bytes(u32::MAX as nat, 4) =~= seq![0xffu8, 0xffu8, 0xffu8, 0xffu8]);
    assert(be_bytes(0, 4) =~= seq![0u8, 0u8, 0u8, 0u8]);
    assert(option_bytes(mss) =~= seq![2u8, 4u8, 0x05u8, 0xb4u8]);
    assert(option_bytes(stamp) =~= seq![
        8u8, 10u8, 0xffu8, 0xffu8, 0xffu8, 0xffu8, 0u8, 0u8, 0u8, 0u8,
    ]);
    let none = Seq::<TcpOption>::empty();
    assert(options_bytes(none) =~= Seq::<u8>::empty());

    let f1 = none.push(mss);
    let f2 = f1.push(nop);
    let f3 = f2.push(TcpOption::WindowScale(6));
    let f4 = f3.push(nop);
    let f5 = f4.push(nop);
    let f6 = f5.push(stamp);
    let f7 = f6.push(sack);
    lemma_options_bytes_push(none, mss);
    lemma_options_bytes_push(f1, nop);
    lemma_options_bytes_push(f2, TcpOption::WindowScale(6));
    lemma_options_bytes_push(f3, nop);
    lemma_options_bytes_push(f4, nop);
    lemma_options_bytes_push(f5, stamp);
    lemma_options_bytes_push(f6, sack);
    assert(f7 =~= syn_options(false));
    assert(options_bytes(f7) =~= seq![
        2u8, 4u8, 0x05u8, 0xb4u8,
        1u8,
        3u8, 3u8, 6u8,
        1u8,
        1u8,
        8u8, 10u8, 0xffu8, 0xffu8, 0xffu8, 0xffu8, 0u8, 0u8, 0u8, 0u8,
        4u8, 2u8,
    ]);

    let r1 = none.push(mss);
    let r2 = r1.push(sack);
    let r3 = r2.push(nop);
    let r4 = r3.push(nop);
    let r5 = r4.push(TcpOption::WindowScale(7));
    lemma_options_bytes_push(r1, sack);
    lemma_options_bytes_push(r2, nop);
    lemma_options_bytes_push(r3, nop);
    lemma_options_bytes_push(r4, TcpOption::WindowScale(7));
    assert(r5 =~= syn_options(true));
    assert(options_bytes(r5) =~= seq![
        2u8, 4u8, 0x05u8, 0xb4u8,
        4u8, 2u8,
        1u8,
        1u8,
        3u8, 3u8, 7u8,
    ]);
}

} // verus!
