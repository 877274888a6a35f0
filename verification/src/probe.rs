//! Planning the probes of a scan.
//!
//! A plan lists the frames to put on the wire, in order: target by
//! target and, within a target, port by port. A target whose address
//! family differs from that of the source gets no probe. A ping sends
//! one probe to a target without ports; a port scan sends it none.

use vstd::prelude::*;
use xenet::util::packet_builder::builder::PacketBuilder;
use crate::addr::{IpAddr, SocketAddr};
use crate::frame::TCP_SYN;
use crate::host::{HostTarget, HostTargetView};
use crate::packet::{
    ETHERTYPE_IPV4, ETHERTYPE_IPV6, ICMPV6_ECHO_REQUEST, ICMP_ECHO_REQUEST, TCP_OPTIONS_MAX_LEN,
    TcpOption,
    builder_bytes, builder_packet, ethernet_header, ipv4_total_length, ipv6_header,
    ipv6_payload_length, is_echo_header, is_ipv4_header, new_builder, options_size, patched,
    set_echo_request, set_echo_request_v6, set_ethernet, set_ipv4, set_ipv6, set_tcp, set_udp, tcp_checksum, tcp_header,
    tcp_segment_len, transport_offset, udp_checksum, udp_header,
};
use crate::setting::{ScanSetting, ScanSettingView, ScanType, UDP_BASE_DST_PORT};

verus! {

/// Window of a SYN probe with the full option set.
pub const SYN_WINDOW: u16 = 65535;

/// Window of a SYN probe with the reduced option set.
pub const SYN_WINDOW_MIN: u16 = 64240;

/// Maximum segment size that SYN probes announce.
pub const SYN_MSS: u16 = 1460;

/// Total length in the IPv4 header of a SYN probe with the full option
/// set.
pub const SYN_IPV4_TOTAL_LENGTH: u16 = 64;

/// Payload length in the IPv6 header of a SYN probe with the full option
/// set.
pub const SYN_IPV6_PAYLOAD_LENGTH: u16 = 44;

/// Destination port of the one SYN probe that a TCP ping sends to a
/// target without ports.
pub const TCP_PING_PORT: u16 = 80;

/// Protocol number of ICMP.
pub const PROTOCOL_ICMP: u8 = 1;

/// Protocol number of TCP.
pub const PROTOCOL_TCP: u8 = 6;

/// Protocol number of UDP.
pub const PROTOCOL_UDP: u8 = 17;

/// Protocol number of ICMPv6.
pub const PROTOCOL_ICMPV6: u8 = 58;

/// One frame to send, and the address to report once it was sent.
#[derive(Clone, Debug, PartialEq, Eq)]
pub struct Probe {
    pub frame: Vec<u8>,
    pub target: SocketAddr,
}

/// What a [`Probe`] holds.
pub ghost struct ProbeView {
    pub frame: Seq<u8>,
    pub target: SocketAddr,
}

impl View for Probe {
    type V = ProbeView;

    open spec fn view(&self) -> ProbeView {
        ProbeView { frame: self.frame@, target: self.target }
    }
}

/// The contents of a sequence of probes.
pub open spec fn probe_views(probes: Seq<Probe>) -> Seq<ProbeView> {
    Seq::new(probes.len(), |i: int| probes[i]@)
}

/// The addresses that a plan reports, in order.
pub open spec fn probe_targets(probes: Seq<ProbeView>) -> Seq<SocketAddr> {
    Seq::new(probes.len(), |i: int| probes[i].target)
}

/// The sockets probed on one target: one per port in the target's order
/// where the target is of the source's address family, none otherwise.
pub open spec fn target_sockets(src: IpAddr, target: HostTargetView) -> Seq<SocketAddr> {
    if src.same_family(&target.ip_addr) {
        Seq::new(
            target.ports.len(),
            |i: int| SocketAddr { ip: target.ip_addr, port: target.ports[i] },
        )
    } else {
        Seq::empty()
    }
}

/// The sockets that a port-wise plan probes, in order.
pub open spec fn port_probe_targets(src: IpAddr, targets: Seq<HostTargetView>) -> Seq<SocketAddr>
    decreases targets.len(),
{
    if targets.len() == 0 {
        Seq::empty()
    } else {
        port_probe_targets(src, targets.drop_last()) + target_sockets(src, targets.last())
    }
}

/// What a host-wise plan reports for one target: the address with port 0
/// where the target is of the source's address family, nothing otherwise.
pub open spec fn target_host(src: IpAddr, target: HostTargetView) -> Seq<SocketAddr> {
    if src.same_family(&target.ip_addr) {
        seq![SocketAddr { ip: target.ip_addr, port: 0 }]
    } else {
        Seq::empty()
    }
}

/// The hosts that a host-wise plan probes, in order.
pub open spec fn host_probe_targets(src: IpAddr, targets: Seq<HostTargetView>) -> Seq<SocketAddr>
    decreases targets.len(),
{
    if targets.len() == 0 {
        Seq::empty()
    } else {
        host_probe_targets(src, targets.drop_last()) + target_host(src, targets.last())
    }
}

/// What a TCP ping reports for one target of the source's address
/// family: its sockets in the order of its ports, or the address with
/// port 0 where it has no ports. A target of the other family is passed
/// over.
pub open spec fn tcp_ping_reports(src: IpAddr, target: HostTargetView) -> Seq<SocketAddr> {
    if !src.same_family(&target.ip_addr) {
        Seq::empty()
    } else if target.ports.len() == 0 {
        seq![SocketAddr { ip: target.ip_addr, port: 0 }]
    } else {
        target_sockets(src, target)
    }
}

/// Where the probes of a TCP ping to one target go: to its sockets in
/// the order of its ports, or to port 80 where it has no ports.
pub open spec fn tcp_ping_aims(src: IpAddr, target: HostTargetView) -> Seq<SocketAddr> {
    if !src.same_family(&target.ip_addr) {
        Seq::empty()
    } else if target.ports.len() == 0 {
        seq![SocketAddr { ip: target.ip_addr, port: TCP_PING_PORT }]
    } else {
        target_sockets(src, target)
    }
}

/// What the probes of a TCP ping report, in order.
pub open spec fn tcp_ping_targets(src: IpAddr, targets: Seq<HostTargetView>) -> Seq<SocketAddr>
    decreases targets.len(),
{
    if targets.len() == 0 {
        Seq::empty()
    } else {
        tcp_ping_targets(src, targets.drop_last()) + tcp_ping_reports(src, targets.last())
    }
}

/// Where the probes of a TCP ping go, in order.
pub open spec fn tcp_ping_destinations(src: IpAddr, targets: Seq<HostTargetView>) -> Seq<
    SocketAddr,
>
    decreases targets.len(),
{
    if targets.len() == 0 {
        Seq::empty()
    } else {
        tcp_ping_destinations(src, targets.drop_last()) + tcp_ping_aims(src, targets.last())
    }
}

/// The EtherType of frames from `src`.
pub open spec fn ether_type_of(src: IpAddr) -> u16 {
    if src is V4 {
        ETHERTYPE_IPV4
    } else {
        ETHERTYPE_IPV6
    }
}

/// The options of a SYN probe.
pub open spec fn syn_options(minimized: bool) -> Seq<TcpOption> {
    if minimized {
        seq![
            TcpOption::Mss(SYN_MSS),
            TcpOption::SackPermitted,
            TcpOption::Nop,
            TcpOption::Nop,
            TcpOption::WindowScale(7),
        ]
    } else {
        seq![
            TcpOption::Mss(SYN_MSS),
            TcpOption::Nop,
            TcpOption::WindowScale(6),
            TcpOption::Nop,
            TcpOption::Nop,
            TcpOption::Timestamp(u32::MAX, 0),
            TcpOption::SackPermitted,
        ]
    }
}

/// The window of a SYN probe.
pub open spec fn syn_window(minimized: bool) -> u16 {
    if minimized {
        SYN_WINDOW_MIN
    } else {
        SYN_WINDOW
    }
}

/// The length that the IP header of a SYN probe is told to carry: 64 as
/// IPv4 total length or 44 as IPv6 payload length with the full option
/// set, the composer's own with the reduced one.
pub open spec fn syn_ip_length(dst: IpAddr, minimized: bool) -> Option<u16> {
    if minimized {
        None
    } else if dst is V4 {
        Some(SYN_IPV4_TOTAL_LENGTH)
    } else {
        Some(SYN_IPV6_PAYLOAD_LENGTH)
    }
}

/// Whether `frame` starts with the Ethernet header of the setting and an
/// IP header from the setting's source to `dst` for `protocol`.
pub open spec fn has_link_and_ip_headers(
    frame: Seq<u8>,
    setting: ScanSettingView,
    dst: IpAddr,
    protocol: u8,
    length: Option<u16>,
) -> bool {
    &&& frame.len() >= transport_offset(dst)
    &&& frame.subrange(0, 14) == ethernet_header(
        setting.dst_mac,
        setting.src_mac,
        ether_type_of(setting.src_ip),
    )
    &&& match (setting.src_ip, dst) {
        (IpAddr::V4(s), IpAddr::V4(d)) => is_ipv4_header(
            frame.subrange(14, 34),
            s,
            d,
            protocol,
            ipv4_total_length(protocol, length),
        ),
        (IpAddr::V6(s), IpAddr::V6(d)) => frame.subrange(14, 54) == ipv6_header(
            s,
            d,
            protocol,
            ipv6_payload_length(protocol, length),
        ),
        _ => false,
    }
}

/// Whether `frame` is the SYN probe of the setting to `dst`: Ethernet
/// header, IP header, then a TCP header from the setting's source port
/// with the flag SYN and the options and window of the chosen variant.
/// Every byte of the TCP header is stated but the checksum.
pub open spec fn is_syn_probe(
    frame: Seq<u8>,
    setting: ScanSettingView,
    dst: SocketAddr,
    minimized: bool,
) -> bool {
    &&& frame.len() == transport_offset(dst.ip) + tcp_segment_len(syn_options(minimized))
    &&& has_link_and_ip_headers(
        frame,
        setting,
        dst.ip,
        PROTOCOL_TCP,
        syn_ip_length(dst.ip, minimized),
    )
    &&& frame.subrange(transport_offset(dst.ip), frame.len() as int) == tcp_header(
        setting.src_port,
        dst.port,
        syn_window(minimized),
        TCP_SYN,
        syn_options(minimized),
        tcp_checksum(
            SocketAddr { ip: setting.src_ip, port: setting.src_port },
            dst,
            syn_window(minimized),
            TCP_SYN,
            syn_options(minimized),
        ),
    )
}

/// Whether `frame` is the echo request of the setting to `dst`: Ethernet
/// header, IP header, then an ICMP echo request for IPv4 or an ICMPv6
/// echo request for IPv6.
pub open spec fn is_echo_probe(frame: Seq<u8>, setting: ScanSettingView, dst: IpAddr) -> bool {
    &&& frame.len() == transport_offset(dst) + 8
    &&& has_link_and_ip_headers(
        frame,
        setting,
        dst,
        if dst is V4 {
            PROTOCOL_ICMP
        } else {
            PROTOCOL_ICMPV6
        },
        None,
    )
    &&& is_echo_header(
        frame.subrange(transport_offset(dst), frame.len() as int),
        if dst is V4 {
            ICMP_ECHO_REQUEST
        } else {
            ICMPV6_ECHO_REQUEST
        },
    )
}

/// Whether `frame` is the UDP ping of the setting to `dst`: Ethernet
/// header, IP header, then a UDP header without payload from the
/// setting's source port to port 33435.
pub open spec fn is_udp_probe(frame: Seq<u8>, setting: ScanSettingView, dst: IpAddr) -> bool {
    &&& frame.len() == transport_offset(dst) + 8
    &&& has_link_and_ip_headers(frame, setting, dst, PROTOCOL_UDP, None)
    &&& frame.subrange(transport_offset(dst), frame.len() as int) == udp_header(
        setting.src_port,
        UDP_BASE_DST_PORT,
        udp_checksum(
            SocketAddr { ip: setting.src_ip, port: setting.src_port },
            SocketAddr { ip: dst, port: UDP_BASE_DST_PORT },
        ),
    )
}

/// Bytes outside a patch stay as they were.
proof fn lemma_patched_keeps(before: Seq<u8>, after: Seq<u8>, at: int, len: int, lo: int, hi: int)
    requires
        patched(before, after, at, len),
        0 <= lo <= hi <= before.len(),
        hi <= at || at + len <= lo,
        0 <= at,
        0 <= len,
    ensures
        after.subrange(lo, hi) == before.subrange(lo, hi),
{
    assert(after.subrange(lo, hi) =~= before.subrange(lo, hi));
}

fn push_option(options: &mut Vec<TcpOption>, option: TcpOption)
    ensures
        final(options)@ == old(options)@.push(option),
        options_size(final(options)@) == options_size(old(options)@) + option.spec_size(),
{
    let ghost before = options@;
    options.push(option);
    assert(options@.drop_last() =~= before);
}

/// The options of a SYN probe: MSS 1460, NOP, window scale 6, NOP, NOP,
/// timestamp (`u32::MAX`, 0), SACK permitted; or, reduced, MSS 1460, SACK
/// permitted, NOP, NOP, window scale 7.
pub fn make_syn_options(minimized: bool) -> (options: Vec<TcpOption>)
    ensures
        options@ == syn_options(minimized),
        options_size(options@) == if minimized {
            11nat
        } else {
            22nat
        },
        tcp_segment_len(options@) == if minimized {
            32int
        } else {
            44int
        },
{
    let mut options: Vec<TcpOption> = Vec::new();
    if minimized {
        push_option(&mut options, TcpOption::Mss(SYN_MSS));
        push_option(&mut options, TcpOption::SackPermitted);
        push_option(&mut options, TcpOption::Nop);
        push_option(&mut options, TcpOption::Nop);
        push_option(&mut options, TcpOption::WindowScale(7));
    } else {
        push_option(&mut options, TcpOption::Mss(SYN_MSS));
        push_option(&mut options, TcpOption::Nop);
        push_option(&mut options, TcpOption::WindowScale(6));
        push_option(&mut options, TcpOption::Nop);
        push_option(&mut options, TcpOption::Nop);
        push_option(&mut options, TcpOption::Timestamp(u32::MAX, 0));
        push_option(&mut options, TcpOption::SackPermitted);
    }
    assert(options@ =~= syn_options(minimized));
    options
}

/// Whether the builder holds the link and IP headers for `dst`, and
/// nothing beyond a frame with `room` bytes behind them.
spec fn headers_set(
    bytes: Seq<u8>,
    setting: ScanSettingView,
    dst: IpAddr,
    protocol: u8,
    length: Option<u16>,
    room: int,
) -> bool {
    &&& has_link_and_ip_headers(bytes, setting, dst, protocol, length)
    &&& bytes.len() <= transport_offset(dst) + room
}

/// Whether the builder holds the setting's Ethernet header and nothing
/// beyond a frame of `limit` bytes.
spec fn link_set(bytes: Seq<u8>, setting: ScanSettingView, limit: int) -> bool {
    &&& 14 <= bytes.len() <= limit
    &&& bytes.subrange(0, 14) == ethernet_header(
        setting.dst_mac,
        setting.src_mac,
        ether_type_of(setting.src_ip),
    )
}

/// A builder that holds the Ethernet header of the setting.
fn start_builder(setting: &ScanSetting) -> (builder: PacketBuilder)
    ensures
        builder_bytes(builder).len() == 14,
        builder_bytes(builder).subrange(0, 14) == ethernet_header(
            setting@.dst_mac,
            setting@.src_mac,
            ether_type_of(setting@.src_ip),
        ),
{
    let mut builder = new_builder();
    let ether_type: u16 = if setting.src_ip.is_ipv4() {
        ETHERTYPE_IPV4
    } else {
        ETHERTYPE_IPV6
    };
    set_ethernet(&mut builder, setting.src_mac, setting.dst_mac, ether_type);
    builder
}

/// Writes the IP header for `dst` into a builder that holds the Ethernet
/// header. Returns false, and leaves the builder as it was, where `dst`
/// is not of the source's address family.
fn set_ip_header(
    builder: &mut PacketBuilder,
    setting: &ScanSetting,
    dst: IpAddr,
    protocol: u8,
    length: Option<u16>,
    Ghost(room): Ghost<int>,
) -> (same_family: bool)
    requires
        protocol == PROTOCOL_TCP || protocol == PROTOCOL_UDP || (protocol == PROTOCOL_ICMP && dst
            is V4) || (protocol == PROTOCOL_ICMPV6 && dst is V6),
        room >= 0,
        setting@.src_ip.same_family(&dst) ==> link_set(
            builder_bytes(*old(builder)),
            setting@,
            transport_offset(dst) + room,
        ),
    ensures
        same_family == setting@.src_ip.same_family(&dst),
        same_family ==> headers_set(
            builder_bytes(*final(builder)),
            setting@,
            dst,
            protocol,
            length,
            room,
        ),
        !same_family ==> builder_bytes(*final(builder)) == builder_bytes(*old(builder)),
{
    let ghost before = builder_bytes(*builder);
    match (setting.src_ip, dst) {
        (IpAddr::V4(s), IpAddr::V4(d)) => {
            set_ipv4(builder, s, d, protocol, length);
            proof {
                lemma_patched_keeps(before, builder_bytes(*builder), 14, 20, 0, 14);
            }
            true
        },
        (IpAddr::V6(s), IpAddr::V6(d)) => {
            set_ipv6(builder, s, d, protocol, length);
            proof {
                lemma_patched_keeps(before, builder_bytes(*builder), 14, 40, 0, 14);
            }
            true
        },
        _ => false,
    }
}

/// Whether every probe of a plan is a SYN probe to the address that it
/// reports.
pub open spec fn all_syn_probes(
    probes: Seq<ProbeView>,
    setting: ScanSettingView,
    minimized: bool,
) -> bool {
    forall|k: int|
        0 <= k < probes.len() ==> is_syn_probe(
            (#[trigger] probes[k]).frame,
            setting,
            probes[k].target,
            minimized,
        )
}

/// Whether the plan holds one probe for each of `aims`, in this order,
/// and each is the SYN probe to its aim.
pub open spec fn syn_probes_aim_at(
    probes: Seq<ProbeView>,
    setting: ScanSettingView,
    minimized: bool,
    aims: Seq<SocketAddr>,
) -> bool {
    &&& probes.len() == aims.len()
    &&& forall|k: int|
        0 <= k < probes.len() ==> is_syn_probe(
            (#[trigger] probes[k]).frame,
            setting,
            aims[k],
            minimized,
        )
}

/// Whether every probe of a plan is an echo request to the host that it
/// reports, with port 0.
pub open spec fn all_echo_probes(probes: Seq<ProbeView>, setting: ScanSettingView) -> bool {
    forall|k: int|
        0 <= k < probes.len() ==> (#[trigger] probes[k]).target.port == 0 && is_echo_probe(
            probes[k].frame,
            setting,
            probes[k].target.ip,
        )
}

/// Whether every probe of a plan is a UDP ping to the host that it
/// reports, with port 0.
pub open spec fn all_udp_probes(probes: Seq<ProbeView>, setting: ScanSettingView) -> bool {
    forall|k: int|
        0 <= k < probes.len() ==> (#[trigger] probes[k]).target.port == 0 && is_udp_probe(
            probes[k].frame,
            setting,
            probes[k].target.ip,
        )
}

/// What a plan of SYN probes reports for one target: as a TCP ping, or
/// port by port.
spec fn plan_reports(ping: bool, src: IpAddr, target: HostTargetView) -> Seq<SocketAddr> {
    if ping {
        tcp_ping_reports(src, target)
    } else {
        target_sockets(src, target)
    }
}

/// Where the SYN probes to one target go.
spec fn plan_aims(ping: bool, src: IpAddr, target: HostTargetView) -> Seq<SocketAddr> {
    if ping {
        tcp_ping_aims(src, target)
    } else {
        target_sockets(src, target)
    }
}

/// What a plan of SYN probes reports, in order.
spec fn plan_targets(ping: bool, src: IpAddr, targets: Seq<HostTargetView>) -> Seq<SocketAddr> {
    if ping {
        tcp_ping_targets(src, targets)
    } else {
        port_probe_targets(src, targets)
    }
}

/// Where the probes of a plan of SYN probes go, in order.
spec fn plan_destinations(ping: bool, src: IpAddr, targets: Seq<HostTargetView>) -> Seq<
    SocketAddr,
> {
    if ping {
        tcp_ping_destinations(src, targets)
    } else {
        port_probe_targets(src, targets)
    }
}

/// A plan with one more probe reports one more target and aims at one
/// more socket.
proof fn lemma_plan_grows(
    before: Seq<ProbeView>,
    after: Seq<ProbeView>,
    setting: ScanSettingView,
    minimized: bool,
    aims: Seq<SocketAddr>,
    dst: SocketAddr,
)
    requires
        after.len() == before.len() + 1,
        after.drop_last() == before,
        syn_probes_aim_at(before, setting, minimized, aims),
        is_syn_probe(after.last().frame, setting, dst, minimized),
    ensures
        syn_probes_aim_at(after, setting, minimized, aims.push(dst)),
        probe_targets(after) == probe_targets(before).push(after.last().target),
{
    assert forall|k: int| 0 <= k < after.len() implies is_syn_probe(
        (#[trigger] after[k]).frame,
        setting,
        aims.push(dst)[k],
        minimized,
    ) by {
        if k < before.len() {
            assert(after[k] == after.drop_last()[k]);
            assert(is_syn_probe(before[k].frame, setting, aims[k], minimized));
        }
    }
    assert forall|k: int| 0 <= k < before.len() implies probe_targets(after)[k] == probe_targets(
        before,
    )[k] by {
        assert(after[k] == after.drop_last()[k]);
    }
    assert(probe_targets(after) =~= probe_targets(before).push(after.last().target));
}

/// Appends the SYN probe to `dst`, whose IP header the builder holds,
/// and reports it as `reported`.
fn push_syn_probe(
    builder: &mut PacketBuilder,
    probes: &mut Vec<Probe>,
    setting: &ScanSetting,
    dst: SocketAddr,
    reported: SocketAddr,
    minimized: bool,
    options: &Vec<TcpOption>,
)
    requires
        options@ == syn_options(minimized),
        options_size(options@) <= TCP_OPTIONS_MAX_LEN,
        setting@.src_ip.same_family(&dst.ip),
        headers_set(
            builder_bytes(*old(builder)),
            setting@,
            dst.ip,
            PROTOCOL_TCP,
            syn_ip_length(dst.ip, minimized),
            tcp_segment_len(options@),
        ),
    ensures
        final(probes)@.len() == old(probes)@.len() + 1,
        probe_views(final(probes)@).drop_last() == probe_views(old(probes)@),
        probe_views(final(probes)@).last().target == reported,
        is_syn_probe(probe_views(final(probes)@).last().frame, setting@, dst, minimized),
        headers_set(
            builder_bytes(*final(builder)),
            setting@,
            dst.ip,
            PROTOCOL_TCP,
            syn_ip_length(dst.ip, minimized),
            tcp_segment_len(options@),
        ),
{
    let src = SocketAddr { ip: setting.src_ip, port: setting.src_port };
    let window: u16 = if minimized {
        SYN_WINDOW_MIN
    } else {
        SYN_WINDOW
    };
    let ghost at = transport_offset(dst.ip);
    let ghost len = tcp_segment_len(options@);
    let ghost before = builder_bytes(*builder);
    let ghost planned = probe_views(probes@);
    set_tcp(builder, src, dst, window, TCP_SYN, options);
    let frame = builder_packet(builder);
    proof {
        lemma_patched_keeps(before, frame@, at, len, 0, 14);
        lemma_patched_keeps(before, frame@, at, len, 14, at);
        assert(frame@.subrange(at, at + len) == frame@.subrange(at, frame@.len() as int));
        assert(is_syn_probe(frame@, setting@, dst, minimized));
    }
    probes.push(Probe { frame, target: reported });
    proof {
        assert(probe_views(probes@) =~= planned.push(ProbeView { frame: frame@, target: reported }));
        assert(probe_views(probes@).drop_last() =~= planned);
    }
}

/// Appends the SYN probes to the ports of one target, whose IP header
/// the builder holds. Each is reported as the socket that it goes to.
fn push_syn_probes(
    builder: &mut PacketBuilder,
    probes: &mut Vec<Probe>,
    setting: &ScanSetting,
    target: &HostTarget,
    minimized: bool,
    options: &Vec<TcpOption>,
    Ghost(aims): Ghost<Seq<SocketAddr>>,
)
    requires
        options@ == syn_options(minimized),
        options_size(options@) <= TCP_OPTIONS_MAX_LEN,
        setting@.src_ip.same_family(&target.ip_addr),
        headers_set(
            builder_bytes(*old(builder)),
            setting@,
            target.ip_addr,
            PROTOCOL_TCP,
            syn_ip_length(target.ip_addr, minimized),
            tcp_segment_len(options@),
        ),
        syn_probes_aim_at(probe_views(old(probes)@), setting@, minimized, aims),
    ensures
        probe_targets(probe_views(final(probes)@)) == probe_targets(probe_views(old(probes)@))
            + target_sockets(setting@.src_ip, target@),
        syn_probes_aim_at(
            probe_views(final(probes)@),
            setting@,
            minimized,
            aims + target_sockets(setting@.src_ip, target@),
        ),
        headers_set(
            builder_bytes(*final(builder)),
            setting@,
            target.ip_addr,
            PROTOCOL_TCP,
            syn_ip_length(target.ip_addr, minimized),
            tcp_segment_len(options@),
        ),
{
    let ghost sockets = target_sockets(setting@.src_ip, target@);
    let ghost reported = probe_targets(probe_views(probes@));
    let mut i: usize = 0;
    assert(reported + sockets.take(0) =~= reported);
    assert(aims + sockets.take(0) =~= aims);
    while i < target.ports.len()
        invariant
            i <= target.ports.len(),
            options@ == syn_options(minimized),
            options_size(options@) <= TCP_OPTIONS_MAX_LEN,
            setting@.src_ip.same_family(&target.ip_addr),
            sockets == target_sockets(setting@.src_ip, target@),
            headers_set(
                builder_bytes(*builder),
                setting@,
                target.ip_addr,
                PROTOCOL_TCP,
                syn_ip_length(target.ip_addr, minimized),
                tcp_segment_len(options@),
            ),
            probe_targets(probe_views(probes@)) == reported + sockets.take(i as int),
            syn_probes_aim_at(
                probe_views(probes@),
                setting@,
                minimized,
                aims + sockets.take(i as int),
            ),
        decreases target.ports.len() - i,
    {
        let dst = SocketAddr { ip: target.ip_addr, port: target.ports[i] };
        let ghost planned = probe_views(probes@);
        push_syn_probe(builder, probes, setting, dst, dst, minimized, options);
        proof {
            lemma_plan_grows(
                planned,
                probe_views(probes@),
                setting@,
                minimized,
                aims + sockets.take(i as int),
                dst,
            );
            assert(sockets.take(i + 1) =~= sockets.take(i as int).push(dst));
            assert((reported + sockets.take(i as int)).push(dst) =~= reported + sockets.take(
                i + 1,
            ));
            assert((aims + sockets.take(i as int)).push(dst) =~= aims + sockets.take(i + 1));
        }
        i += 1;
    }
    assert(sockets.take(target.ports.len() as int) =~= sockets);
}

/// The plan of SYN probes of a setting with the chosen option set: that
/// of a TCP ping, or one probe per target and port.
fn syn_plan(setting: &ScanSetting, minimized: bool, ping: bool) -> (probes: Vec<Probe>)
    ensures
        probe_targets(probe_views(probes@)) == plan_targets(
            ping,
            setting@.src_ip,
            setting@.targets,
        ),
        syn_probes_aim_at(
            probe_views(probes@),
            setting@,
            minimized,
            plan_destinations(ping, setting@.src_ip, setting@.targets),
        ),
{
    let options = make_syn_options(minimized);
    let mut builder = start_builder(setting);
    let mut probes: Vec<Probe> = Vec::new();
    let ghost src = setting@.src_ip;
    let ghost room = tcp_segment_len(options@);
    let ghost limit = transport_offset(setting@.src_ip) + room;
    let mut t: usize = 0;
    assert(setting@.targets.take(0) =~= Seq::<HostTargetView>::empty());
    assert(probe_targets(probe_views(probes@)) =~= Seq::<SocketAddr>::empty());
    while t < setting.targets.len()
        invariant
            t <= setting.targets.len(),
            src == setting@.src_ip,
            options@ == syn_options(minimized),
            options_size(options@) <= TCP_OPTIONS_MAX_LEN,
            room == tcp_segment_len(options@),
            limit == transport_offset(setting@.src_ip) + room,
            link_set(builder_bytes(builder), setting@, limit),
            probe_targets(probe_views(probes@)) == plan_targets(
                ping,
                src,
                setting@.targets.take(t as int),
            ),
            syn_probes_aim_at(
                probe_views(probes@),
                setting@,
                minimized,
                plan_destinations(ping, src, setting@.targets.take(t as int)),
            ),
        decreases setting.targets.len() - t,
    {
        let target = &setting.targets[t];
        let length: Option<u16> = if minimized {
            None
        } else if target.ip_addr.is_ipv4() {
            Some(SYN_IPV4_TOTAL_LENGTH)
        } else {
            Some(SYN_IPV6_PAYLOAD_LENGTH)
        };
        let ghost reported = probe_targets(probe_views(probes@));
        let ghost aims = plan_destinations(ping, src, setting@.targets.take(t as int));
        let ghost planned = probe_views(probes@);
        proof {
            assert(setting@.targets.take(t + 1).drop_last() =~= setting@.targets.take(t as int));
            assert(setting@.targets.take(t + 1).last() == target@);
            assert(plan_targets(ping, src, setting@.targets.take(t + 1)) == reported
                + plan_reports(ping, src, target@));
            assert(plan_destinations(ping, src, setting@.targets.take(t + 1)) == aims + plan_aims(
                ping,
                src,
                target@,
            ));
        }
        if set_ip_header(
            &mut builder,
            setting,
            target.ip_addr,
            PROTOCOL_TCP,
            length,
            Ghost(room),
        ) {
            if ping && target.ports.len() == 0 {
                let dst = SocketAddr { ip: target.ip_addr, port: TCP_PING_PORT };
                let host = SocketAddr { ip: target.ip_addr, port: 0 };
                push_syn_probe(&mut builder, &mut probes, setting, dst, host, minimized, &options);
                proof {
                    lemma_plan_grows(
                        planned,
                        probe_views(probes@),
                        setting@,
                        minimized,
                        aims,
                        dst,
                    );
                    assert(reported.push(host) =~= reported + seq![host]);
                    assert(aims.push(dst) =~= aims + seq![dst]);
                }
            } else {
                push_syn_probes(
                    &mut builder,
                    &mut probes,
                    setting,
                    target,
                    minimized,
                    &options,
                    Ghost(aims),
                );
            }
        } else {
            assert(reported + plan_reports(ping, src, target@) =~= reported);
            assert(aims + plan_aims(ping, src, target@) =~= aims);
        }
        t += 1;
    }
    assert(setting@.targets.take(setting.targets.len() as int) =~= setting@.targets);
    probes
}

/// The SYN probes of a setting with the chosen option set, one per
/// target and port.
fn syn_probes(setting: &ScanSetting, minimized: bool) -> (probes: Vec<Probe>)
    ensures
        probe_targets(probe_views(probes@)) == port_probe_targets(
            setting@.src_ip,
            setting@.targets,
        ),
        all_syn_probes(probe_views(probes@), setting@, minimized),
{
    let probes = syn_plan(setting, minimized, false);
    proof {
        let views = probe_views(probes@);
        let aims = port_probe_targets(setting@.src_ip, setting@.targets);
        assert forall|k: int| 0 <= k < views.len() implies is_syn_probe(
            (#[trigger] views[k]).frame,
            setting@,
            views[k].target,
            minimized,
        ) by {
            assert(probe_targets(views)[k] == aims[k]);
        }
    }
    probes
}

/// The SYN probes of a TCP ping, with the option set that the setting
/// asks for. A target with ports gets one probe per port, reported as
/// that socket; a target without ports gets one probe to port 80,
/// reported as its address with port 0; a target of another address
/// family than the source gets none.
pub fn tcp_ping_probes(setting: &ScanSetting) -> (probes: Vec<Probe>)
    ensures
        probe_targets(probe_views(probes@)) == tcp_ping_targets(
            setting@.src_ip,
            setting@.targets,
        ),
        syn_probes_aim_at(
            probe_views(probes@),
            setting@,
            setting@.minimize_packet,
            tcp_ping_destinations(setting@.src_ip, setting@.targets),
        ),
{
    syn_plan(setting, setting.minimize_packet, true)
}

/// The SYN probes of a scan with the full option set: one per target and
/// port, in the order of the targets and of their ports, with no probe
/// for a target of another address family than the source.
pub fn tcp_syn_probes(setting: &ScanSetting) -> (probes: Vec<Probe>)
    ensures
        probe_targets(probe_views(probes@)) == port_probe_targets(
            setting@.src_ip,
            setting@.targets,
        ),
        all_syn_probes(probe_views(probes@), setting@, false),
{
    syn_probes(setting, false)
}

/// The SYN probes of a scan with the reduced option set, in the same
/// order as with the full one.
pub fn tcp_syn_probes_min(setting: &ScanSetting) -> (probes: Vec<Probe>)
    ensures
        probe_targets(probe_views(probes@)) == port_probe_targets(
            setting@.src_ip,
            setting@.targets,
        ),
        all_syn_probes(probe_views(probes@), setting@, true),
{
    syn_probes(setting, true)
}

/// Plans the echo requests, reusing one builder for all targets.
fn echo_probes(setting: &ScanSetting) -> (probes: Vec<Probe>)
    ensures
        probe_targets(probe_views(probes@)) == host_probe_targets(
            setting@.src_ip,
            setting@.targets,
        ),
        all_echo_probes(probe_views(probes@), setting@),
{
    let mut builder = start_builder(setting);
    let mut probes: Vec<Probe> = Vec::new();
    let ghost limit = transport_offset(setting@.src_ip) + 8;
    let mut t: usize = 0;
    assert(setting@.targets.take(0) =~= Seq::<HostTargetView>::empty());
    assert(probe_targets(probe_views(probes@)) =~= Seq::<SocketAddr>::empty());
    while t < setting.targets.len()
        invariant
            t <= setting.targets.len(),
            limit == transport_offset(setting@.src_ip) + 8,
            link_set(builder_bytes(builder), setting@, limit),
            probe_targets(probe_views(probes@)) == host_probe_targets(
                setting@.src_ip,
                setting@.targets.take(t as int),
            ),
            all_echo_probes(probe_views(probes@), setting@),
        decreases setting.targets.len() - t,
    {
        let dst: IpAddr = setting.targets[t].ip_addr;
        let protocol: u8 = if dst.is_ipv4() {
            PROTOCOL_ICMP
        } else {
            PROTOCOL_ICMPV6
        };
        let ghost reported = probe_targets(probe_views(probes@));
        let ghost planned = probe_views(probes@);
        proof {
            assert(setting@.targets.take(t + 1).drop_last() =~= setting@.targets.take(t as int));
            assert(setting@.targets.take(t + 1).last() == setting.targets@[t as int]@);
        }
        if set_ip_header(&mut builder, setting, dst, protocol, None, Ghost(8)) {
            let ghost before = builder_bytes(builder);
            let ghost at = transport_offset(dst);
            match (setting.src_ip, dst) {
                (IpAddr::V4(s), IpAddr::V4(d)) => {
                    set_echo_request(&mut builder, s, d);
                },
                (IpAddr::V6(s), IpAddr::V6(d)) => {
                    set_echo_request_v6(&mut builder, s, d);
                },
                _ => {},
            }
            let frame = builder_packet(&builder);
            let target = SocketAddr { ip: dst, port: 0 };
            proof {
                lemma_patched_keeps(before, frame@, at, 8, 0, 14);
                lemma_patched_keeps(before, frame@, at, 8, 14, at);
                assert(frame@.subrange(at, at + 8) == frame@.subrange(at, frame@.len() as int));
                assert(is_echo_probe(frame@, setting@, dst));
            }
            probes.push(Probe { frame, target });
            proof {
                assert(probe_views(probes@) =~= planned.push(ProbeView { frame: frame@, target }));
                assert(probe_targets(probe_views(probes@)) =~= reported.push(target));
                assert(reported.push(target) =~= reported + seq![target]);
            }
        } else {
            assert(reported + target_host(setting@.src_ip, setting.targets@[t as int]@)
                =~= reported);
        }
        t += 1;
    }
    assert(setting@.targets.take(setting.targets.len() as int) =~= setting@.targets);
    probes
}

/// The echo requests of a ping sweep: one per target of the source's
/// address family, in the order of the targets, ICMP for IPv4 and ICMPv6
/// for IPv6. Each reports its host with port 0.
pub fn icmp_echo_probes(setting: &ScanSetting) -> (probes: Vec<Probe>)
    ensures
        probe_targets(probe_views(probes@)) == host_probe_targets(
            setting@.src_ip,
            setting@.targets,
        ),
        all_echo_probes(probe_views(probes@), setting@),
{
    echo_probes(setting)
}

/// The UDP pings of a sweep: one per target of the source's address
/// family, in the order of the targets, each an empty datagram to port
/// 33435. Each reports its host with port 0.
pub fn udp_ping_probes(setting: &ScanSetting) -> (probes: Vec<Probe>)
    ensures
        probe_targets(probe_views(probes@)) == host_probe_targets(
            setting@.src_ip,
            setting@.targets,
        ),
        all_udp_probes(probe_views(probes@), setting@),
{
    let mut builder = start_builder(setting);
    let mut probes: Vec<Probe> = Vec::new();
    let src = SocketAddr { ip: setting.src_ip, port: setting.src_port };
    let ghost limit = transport_offset(setting@.src_ip) + 8;
    let mut t: usize = 0;
    assert(setting@.targets.take(0) =~= Seq::<HostTargetView>::empty());
    assert(probe_targets(probe_views(probes@)) =~= Seq::<SocketAddr>::empty());
    while t < setting.targets.len()
        invariant
            t <= setting.targets.len(),
            limit == transport_offset(setting@.src_ip) + 8,
            src == (SocketAddr { ip: setting@.src_ip, port: setting@.src_port }),
            link_set(builder_bytes(builder), setting@, limit),
            probe_targets(probe_views(probes@)) == host_probe_targets(
                setting@.src_ip,
                setting@.targets.take(t as int),
            ),
            all_udp_probes(probe_views(probes@), setting@),
        decreases setting.targets.len() - t,
    {
        let dst: IpAddr = setting.targets[t].ip_addr;
        let ghost reported = probe_targets(probe_views(probes@));
        let ghost planned = probe_views(probes@);
        proof {
            assert(setting@.targets.take(t + 1).drop_last() =~= setting@.targets.take(t as int));
            assert(setting@.targets.take(t + 1).last() == setting.targets@[t as int]@);
        }
        if set_ip_header(&mut builder, setting, dst, PROTOCOL_UDP, None, Ghost(8)) {
            let ghost before = builder_bytes(builder);
            let ghost at = transport_offset(dst);
            set_udp(&mut builder, src, SocketAddr { ip: dst, port: UDP_BASE_DST_PORT });
            let frame = builder_packet(&builder);
            let target = SocketAddr { ip: dst, port: 0 };
            proof {
                lemma_patched_keeps(before, frame@, at, 8, 0, 14);
                lemma_patched_keeps(before, frame@, at, 8, 14, at);
                assert(frame@.subrange(at, at + 8) == frame@.subrange(at, frame@.len() as int));
                assert(is_udp_probe(frame@, setting@, dst));
            }
            probes.push(Probe { frame, target });
            proof {
                assert(probe_views(probes@) =~= planned.push(ProbeView { frame: frame@, target }));
                assert(probe_targets(probe_views(probes@)) =~= reported.push(target));
                assert(reported.push(target) =~= reported + seq![target]);
            }
        } else {
            assert(reported + target_host(setting@.src_ip, setting.targets@[t as int]@)
                =~= reported);
        }
        t += 1;
    }
    assert(setting@.targets.take(setting.targets.len() as int) =~= setting@.targets);
    probes
}

/// Whether `probes` is the link-layer plan of a host scan with this
/// setting: echo requests for an ICMP ping; for a TCP ping, SYN probes
/// to the targets' ports and one SYN probe to port 80, reported with
/// port 0, for each target without ports; UDP pings for a UDP ping;
/// nothing for any other kind of scan.
pub open spec fn is_ping_plan(probes: Seq<ProbeView>, setting: ScanSettingView) -> bool {
    match setting.scan_type {
        ScanType::IcmpPingScan => probe_targets(probes) == host_probe_targets(
            setting.src_ip,
            setting.targets,
        ) && all_echo_probes(probes, setting),
        ScanType::TcpPingScan => probe_targets(probes) == tcp_ping_targets(
            setting.src_ip,
            setting.targets,
        ) && syn_probes_aim_at(
            probes,
            setting,
            setting.minimize_packet,
            tcp_ping_destinations(setting.src_ip, setting.targets),
        ),
        ScanType::UdpPingScan => probe_targets(probes) == host_probe_targets(
            setting.src_ip,
            setting.targets,
        ) && all_udp_probes(probes, setting),
        _ => probes.len() == 0,
    }
}

/// The link-layer probes of a host scan. There is none where the
/// setting has no targets.
pub fn ping_probes(setting: &ScanSetting) -> (probes: Vec<Probe>)
    ensures
        is_ping_plan(probe_views(probes@), setting@),
        setting@.targets.len() == 0 ==> probes@.len() == 0,
{
    let probes = match setting.scan_type {
        ScanType::IcmpPingScan => icmp_echo_probes(setting),
        ScanType::TcpPingScan => tcp_ping_probes(setting),
        ScanType::UdpPingScan => udp_ping_probes(setting),
        _ => Vec::new(),
    };
    assert(probe_targets(probe_views(probes@)).len() == probes@.len());
    probes
}

/// Whether `probes` is the link-layer plan of a port scan with this
/// setting: nothing for a connect scan, which probes through the
/// operating system, and SYN probes to the targets' ports otherwise.
pub open spec fn is_port_scan_plan(probes: Seq<ProbeView>, setting: ScanSettingView) -> bool {
    match setting.scan_type {
        ScanType::TcpConnectScan => probes.len() == 0,
        _ => probe_targets(probes) == port_probe_targets(setting.src_ip, setting.targets)
            && all_syn_probes(probes, setting, setting.minimize_packet),
    }
}

/// The link-layer probes of a port scan. There is none where the
/// setting has no targets.
pub fn port_scan_probes(setting: &ScanSetting) -> (probes: Vec<Probe>)
    ensures
        is_port_scan_plan(probe_views(probes@), setting@),
        setting@.targets.len() == 0 ==> probes@.len() == 0,
{
    let probes = match setting.scan_type {
        ScanType::TcpConnectScan => Vec::new(),
        _ => syn_probes(setting, setting.minimize_packet),
    };
    assert(probe_targets(probe_views(probes@)).len() == probes@.len());
    probes
}

} // verus!
