//! Composing probe frames.
//!
//! The bytes of each header come from xenet's packet builder. This module
//! says what the builder holds after each step, as far as its source
//! shows it, and leaves the rest to the functions that plan probes.

use vstd::prelude::*;
use xenet::packet::ethernet::EtherType;
use xenet::packet::ip::IpNextLevelProtocol;
use xenet::packet::tcp::TcpOption as WireOption;
use xenet::util::packet_builder::builder::PacketBuilder;
use xenet::util::packet_builder::ethernet::EthernetPacketBuilder;
use xenet::util::packet_builder::icmp::IcmpPacketBuilder;
use xenet::util::packet_builder::icmpv6::Icmpv6PacketBuilder;
use xenet::util::packet_builder::ipv4::Ipv4PacketBuilder;
use xenet::util::packet_builder::ipv6::Ipv6PacketBuilder;
use xenet::util::packet_builder::tcp::TcpPacketBuilder;
use xenet::util::packet_builder::udp::UdpPacketBuilder;
use crate::addr::{IpAddr, MacAddr, SocketAddr, be_bytes};

verus! {

/// EtherType of IPv4.
pub const ETHERTYPE_IPV4: u16 = 0x0800;

/// EtherType of IPv6.
pub const ETHERTYPE_IPV6: u16 = 0x86DD;

/// Type of an ICMP echo request.
pub const ICMP_ECHO_REQUEST: u8 = 8;

/// Type of an ICMPv6 echo request.
pub const ICMPV6_ECHO_REQUEST: u8 = 128;

/// Most bytes that the options of one TCP header can take.
pub const TCP_OPTIONS_MAX_LEN: usize = 40;

/// One option of a TCP header.
#[derive(Clone, Copy, Debug, PartialEq, Eq, Structural)]
pub enum TcpOption {
    /// Maximum segment size.
    Mss(u16),
    /// Padding.
    Nop,
    /// Window scale shift.
    WindowScale(u8),
    /// Timestamp value and echo reply.
    Timestamp(u32, u32),
    /// Selective acknowledgement permitted.
    SackPermitted,
}

impl TcpOption {
    /// Bytes that the option takes in a header.
    pub open spec fn spec_size(self) -> nat {
        match self {
            TcpOption::Mss(_) => 4,
            TcpOption::Nop => 1,
            TcpOption::WindowScale(_) => 3,
            TcpOption::Timestamp(_, _) => 10,
            TcpOption::SackPermitted => 2,
        }
    }
}

/// Bytes that a list of options takes, before padding.
pub open spec fn options_size(options: Seq<TcpOption>) -> nat
    decreases options.len(),
{
    if options.len() == 0 {
        0
    } else {
        options_size(options.drop_last()) + options.last().spec_size()
    }
}

/// Bytes of a TCP header with the given options and no payload: the
/// options are padded to a multiple of four bytes.
pub open spec fn tcp_segment_len(options: Seq<TcpOption>) -> int {
    20 + 4 * ((options_size(options) as int + 3) / 4)
}

/// `count` zero bytes.
pub open spec fn zeros(count: nat) -> Seq<u8> {
    Seq::new(count, |i: int| 0u8)
}

/// The bytes of one option: its kind, its length unless it is padding,
/// and its value.
pub open spec fn option_bytes(option: TcpOption) -> Seq<u8> {
    match option {
        TcpOption::Mss(size) => seq![2u8, 4u8] + be_bytes(size as nat, 2),
        TcpOption::Nop => seq![1u8],
        TcpOption::WindowScale(shift) => seq![3u8, 3u8, shift],
        TcpOption::Timestamp(value, reply) => seq![8u8, 10u8] + be_bytes(value as nat, 4)
            + be_bytes(reply as nat, 4),
        TcpOption::SackPermitted => seq![4u8, 2u8],
    }
}

/// The bytes of a list of options, one after the other.
pub open spec fn options_bytes(options: Seq<TcpOption>) -> Seq<u8>
    decreases options.len(),
{
    if options.len() == 0 {
        Seq::empty()
    } else {
        options_bytes(options.drop_last()) + option_bytes(options.last())
    }
}

/// A TCP header without payload: ports, sequence and acknowledgement
/// number 0, the header length in words, the flags, the window, the
/// checksum, no urgent pointer, then the options, padded with zeros to a
/// multiple of four bytes.
pub open spec fn tcp_header(
    src_port: u16,
    dst_port: u16,
    window: u16,
    flags: u8,
    options: Seq<TcpOption>,
    checksum: u16,
) -> Seq<u8> {
    be_bytes(src_port as nat, 2) + be_bytes(dst_port as nat, 2) + zeros(8) + seq![
        (tcp_segment_len(options) / 4 * 16) as u8,
        flags,
    ] + be_bytes(window as nat, 2) + be_bytes(checksum as nat, 2) + zeros(2) + options_bytes(
        options,
    ) + zeros((tcp_segment_len(options) - 20 - options_size(options)) as nat)
}

/// A UDP header without payload: ports, the length 8, the checksum.
pub open spec fn udp_header(src_port: u16, dst_port: u16, checksum: u16) -> Seq<u8> {
    be_bytes(src_port as nat, 2) + be_bytes(dst_port as nat, 2) + be_bytes(8, 2) + be_bytes(
        checksum as nat,
        2,
    )
}

/// Whether `after` is `before` with the `len` bytes from `at` replaced,
/// after `before` was padded with zeros to hold them.
pub open spec fn patched(before: Seq<u8>, after: Seq<u8>, at: int, len: int) -> bool {
    &&& after.len() == if before.len() < at + len {
        at + len
    } else {
        before.len() as int
    }
    &&& forall|i: int|
        0 <= i < after.len() && !(at <= i < at + len) ==> #[trigger] after[i] == if i
            < before.len() {
            before[i]
        } else {
            0u8
        }
}

/// An Ethernet header: destination, source, EtherType.
pub open spec fn ethernet_header(dst: MacAddr, src: MacAddr, ether_type: u16) -> Seq<u8> {
    dst.octets() + src.octets() + be_bytes(ether_type as nat, 2)
}

/// The total length that an IPv4 header carries: the one given, or else
/// what a header of that protocol with its default payload takes.
pub open spec fn ipv4_total_length(protocol: u8, given: Option<u16>) -> u16 {
    match given {
        Some(length) => length,
        None => if protocol == 6 {
            52
        } else {
            28
        },
    }
}

/// Whether `header` is an IPv4 header without options from `src` to `dst`
/// for `protocol`: version 4, five words long, "don't fragment" set,
/// TTL 64. The identification and the checksum are left open.
pub open spec fn is_ipv4_header(
    header: Seq<u8>,
    src: u32,
    dst: u32,
    protocol: u8,
    total_length: u16,
) -> bool {
    &&& header.len() == 20
    &&& header[0] == 0x45
    &&& header[1] == 0
    &&& header.subrange(2, 4) == be_bytes(total_length as nat, 2)
    &&& header[6] == 0x40
    &&& header[7] == 0
    &&& header[8] == 64
    &&& header[9] == protocol
    &&& header.subrange(12, 16) == be_bytes(src as nat, 4)
    &&& header.subrange(16, 20) == be_bytes(dst as nat, 4)
}

/// The payload length that an IPv6 header carries: the one given, or
/// else what the default payload of that protocol takes.
pub open spec fn ipv6_payload_length(protocol: u8, given: Option<u16>) -> u16 {
    match given {
        Some(length) => length,
        None => if protocol == 6 {
            32
        } else {
            8
        },
    }
}

/// An IPv6 header from `src` to `dst`: version 6, no traffic class or
/// flow label, hop limit 64.
pub open spec fn ipv6_header(src: u128, dst: u128, protocol: u8, payload_length: u16) -> Seq<u8> {
    seq![0x60u8, 0u8, 0u8, 0u8] + be_bytes(payload_length as nat, 2) + seq![protocol, 64u8]
        + be_bytes(src as nat, 16) + be_bytes(dst as nat, 16)
}

/// Whether `header` is an echo header of the given type with code 0. The
/// checksum, the identifier and the sequence number are left open.
pub open spec fn is_echo_header(header: Seq<u8>, echo_type: u8) -> bool {
    &&& header.len() == 8
    &&& header[0] == echo_type
    &&& header[1] == 0
}

/// Where the builder puts what follows the IP header of a packet to
/// `dst`: behind the 14 bytes of the Ethernet header and the 20 bytes of
/// an IPv4 header or the 40 bytes of an IPv6 header.
pub open spec fn transport_offset(dst: IpAddr) -> int {
    if dst is V4 {
        34
    } else {
        54
    }
}

/// xenet's `PacketBuilder`: a buffer of bytes that its setters write
/// headers into. Nothing is known of it but through [`builder_bytes`].
#[verifier::external_type_specification]
#[verifier::external_body]
pub struct ExPacketBuilder(PacketBuilder);

/// The bytes that a packet builder holds.
pub uninterp spec fn builder_bytes(builder: PacketBuilder) -> Seq<u8>;

/// The checksum that xenet computes for the TCP header of a segment
/// without payload from `src` to `dst`.
pub uninterp spec fn tcp_checksum(
    src: SocketAddr,
    dst: SocketAddr,
    window: u16,
    flags: u8,
    options: Seq<TcpOption>,
) -> u16;

/// The checksum that xenet computes for the UDP header of a datagram
/// without payload from `src` to `dst`.
pub uninterp spec fn udp_checksum(src: SocketAddr, dst: SocketAddr) -> u16;

/// `PacketBuilder::new`: a builder that holds no bytes.
#[verifier::external_body]
pub(crate) fn new_builder() -> (builder: PacketBuilder)
    ensures
        builder_bytes(builder) == Seq::<u8>::empty(),
{
    PacketBuilder::new()
}

/// `PacketBuilder::packet`: a copy of the bytes that the builder holds.
#[verifier::external_body]
pub(crate) fn builder_packet(builder: &PacketBuilder) -> (bytes: Vec<u8>)
    ensures
        bytes@ == builder_bytes(*builder),
{
    builder.packet()
}

/// `PacketBuilder::set_ethernet`: writes the 14 bytes of an Ethernet
/// header at the start. The EtherType must be that of IPv4 or IPv6; the
/// builder writes no other.
#[verifier::external_body]
pub(crate) fn set_ethernet(builder: &mut PacketBuilder, src: MacAddr, dst: MacAddr, ether_type: u16)
    requires
        ether_type == ETHERTYPE_IPV4 || ether_type == ETHERTYPE_IPV6,
    ensures
        patched(builder_bytes(*old(builder)), builder_bytes(*final(builder)), 0, 14),
        builder_bytes(*final(builder)).subrange(0, 14) == ethernet_header(dst, src, ether_type),
{
    builder.set_ethernet(
        EthernetPacketBuilder {
            src_mac: xenet::net::mac::MacAddr(src.0, src.1, src.2, src.3, src.4, src.5),
            dst_mac: xenet::net::mac::MacAddr(dst.0, dst.1, dst.2, dst.3, dst.4, dst.5),
            ether_type: EtherType::new(ether_type),
        },
    );
}

/// `PacketBuilder::set_ipv4` on an `Ipv4PacketBuilder` with the given
/// total length: writes the 20 bytes of an IPv4 header after the Ethernet
/// header. The identification is drawn at random, so only the other
/// fields are stated. The protocol must be ICMP, TCP or UDP; for others
/// the builder leaves the length out.
#[verifier::external_body]
pub(crate) fn set_ipv4(
    builder: &mut PacketBuilder,
    src: u32,
    dst: u32,
    protocol: u8,
    total_length: Option<u16>,
)
    requires
        protocol == 1 || protocol == 6 || protocol == 17,
    ensures
        patched(builder_bytes(*old(builder)), builder_bytes(*final(builder)), 14, 20),
        is_ipv4_header(
            builder_bytes(*final(builder)).subrange(14, 34),
            src,
            dst,
            protocol,
            ipv4_total_length(protocol, total_length),
        ),
{
    let mut ip = Ipv4PacketBuilder::new(src.into(), dst.into(), IpNextLevelProtocol::new(protocol));
    ip.total_length = total_length;
    builder.set_ipv4(ip);
}

/// `PacketBuilder::set_ipv6` on an `Ipv6PacketBuilder` with the given
/// payload length: writes the 40 bytes of an IPv6 header after the
/// Ethernet header. The protocol must be TCP, UDP or ICMPv6; for others
/// the builder leaves the next header out.
#[verifier::external_body]
pub(crate) fn set_ipv6(
    builder: &mut PacketBuilder,
    src: u128,
    dst: u128,
    protocol: u8,
    payload_length: Option<u16>,
)
    requires
        protocol == 6 || protocol == 17 || protocol == 58,
    ensures
        patched(builder_bytes(*old(builder)), builder_bytes(*final(builder)), 14, 40),
        builder_bytes(*final(builder)).subrange(14, 54) == ipv6_header(
            src,
            dst,
            protocol,
            ipv6_payload_length(protocol, payload_length),
        ),
{
    let mut ip = Ipv6PacketBuilder::new(src.into(), dst.into(), IpNextLevelProtocol::new(protocol));
    ip.payload_length = payload_length;
    builder.set_ipv6(ip);
}

/// `PacketBuilder::set_tcp` on a `TcpPacketBuilder` without payload:
/// writes the TCP header and its options where the transport header of a
/// packet to `dst` belongs. Every byte but the checksum is stated. The
/// options may take 40 bytes at most, which is what a TCP header has room
/// for.
#[verifier::external_body]
pub(crate) fn set_tcp(
    builder: &mut PacketBuilder,
    src: SocketAddr,
    dst: SocketAddr,
    window: u16,
    flags: u8,
    options: &Vec<TcpOption>,
)
    requires
        options_size(options@) <= TCP_OPTIONS_MAX_LEN,
    ensures
        patched(
            builder_bytes(*old(builder)),
            builder_bytes(*final(builder)),
            transport_offset(dst.ip),
            tcp_segment_len(options@),
        ),
        builder_bytes(*final(builder)).subrange(
            transport_offset(dst.ip),
            transport_offset(dst.ip) + tcp_segment_len(options@),
        ) == tcp_header(
            src.port,
            dst.port,
            window,
            flags,
            options@,
            tcp_checksum(src, dst, window, flags, options@),
        ),
{
    let ip = |x| match x {
        IpAddr::V4(a) => a.to_be_bytes().into(),
        IpAddr::V6(a) => a.to_be_bytes().into(),
    };
    let options = options.iter().map(|o| match *o {
        TcpOption::Mss(v) => WireOption::mss(v),
        TcpOption::Nop => WireOption::nop(),
        TcpOption::WindowScale(v) => WireOption::wscale(v),
        TcpOption::Timestamp(a, b) => WireOption::timestamp(a, b),
        TcpOption::SackPermitted => WireOption::sack_perm(),
    }).collect();
    builder.set_tcp(TcpPacketBuilder { src_ip: ip(src.ip), src_port: src.port, dst_ip: ip(dst.ip), dst_port: dst.port, window, flags, options, payload: Vec::new() });
}

/// `PacketBuilder::set_udp` on a `UdpPacketBuilder` without payload:
/// writes the 8 bytes of a UDP header where the transport header of a
/// packet to `dst` belongs. Every byte but the checksum is stated.
#[verifier::external_body]
pub(crate) fn set_udp(builder: &mut PacketBuilder, src: SocketAddr, dst: SocketAddr)
    ensures
        patched(
            builder_bytes(*old(builder)),
            builder_bytes(*final(builder)),
            transport_offset(dst.ip),
            8,
        ),
        builder_bytes(*final(builder)).subrange(
            transport_offset(dst.ip),
            transport_offset(dst.ip) + 8,
        ) == udp_header(src.port, dst.port, udp_checksum(src, dst)),
{
    let ip = |x| match x {
        IpAddr::V4(a) => a.to_be_bytes().into(),
        IpAddr::V6(a) => a.to_be_bytes().into(),
    };
    builder.set_udp(UdpPacketBuilder { src_ip: ip(src.ip), src_port: src.port, dst_ip: ip(dst.ip), dst_port: dst.port, payload: Vec::new() });
}

/// `PacketBuilder::set_icmp` on `IcmpPacketBuilder::new`: writes the 8
/// bytes of an ICMP echo request after the IPv4 header. Identifier and
/// sequence number are drawn at random, so only type and code are stated.
#[verifier::external_body]
pub(crate) fn set_echo_request(builder: &mut PacketBuilder, src: u32, dst: u32)
    ensures
        patched(builder_bytes(*old(builder)), builder_bytes(*final(builder)), 34, 8),
        is_echo_header(builder_bytes(*final(builder)).subrange(34, 42), ICMP_ECHO_REQUEST),
{
    builder.set_icmp(IcmpPacketBuilder::new(src.into(), dst.into()));
}

/// `PacketBuilder::set_icmpv6` on `Icmpv6PacketBuilder::new`: writes the
/// 8 bytes of an ICMPv6 echo request after the IPv6 header. Identifier
/// and sequence number are drawn at random, so only type and code are
/// stated.
#[verifier::external_body]
pub(crate) fn set_echo_request_v6(builder: &mut PacketBuilder, src: u128, dst: u128)
    ensures
        patched(builder_bytes(*old(builder)), builder_bytes(*final(builder)), 54, 8),
        is_echo_header(builder_bytes(*final(builder)).subrange(54, 62), ICMPV6_ECHO_REQUEST),
{
    builder.set_icmpv6(Icmpv6PacketBuilder::new(src.into(), dst.into()));
}

/// `width` bytes stand for a number of that width.
pub proof fn lemma_be_bytes_len(value: nat, width: nat)
    ensures
        be_bytes(value, width).len() == width,
    decreases width,
{
    if width > 0 {
        lemma_be_bytes_len(value / 256, (width - 1) as nat);
    }
}

/// The options take as many bytes as their sizes say.
pub proof fn lemma_options_bytes_len(options: Seq<TcpOption>)
    ensures
        options_bytes(options).len() == options_size(options),
    decreases options.len(),
{
    if options.len() > 0 {
        lemma_options_bytes_len(options.drop_last());
        match options.last() {
            TcpOption::Mss(size) => {
                lemma_be_bytes_len(size as nat, 2);
            },
            TcpOption::Timestamp(value, reply) => {
                lemma_be_bytes_len(value as nat, 4);
                lemma_be_bytes_len(reply as nat, 4);
            },
            _ => {},
        }
    }
}

/// The headers are as long as the builder makes room for: 14 bytes of
/// Ethernet, 40 of IPv6, 8 of UDP, and of TCP 20 and the padded options.
pub proof fn lemma_header_lengths(
    mac: MacAddr,
    ether_type: u16,
    src: u128,
    dst: u128,
    protocol: u8,
    length: u16,
    src_port: u16,
    dst_port: u16,
    window: u16,
    flags: u8,
    options: Seq<TcpOption>,
    checksum: u16,
)
    ensures
        ethernet_header(mac, mac, ether_type).len() == 14,
        ipv6_header(src, dst, protocol, length).len() == 40,
        udp_header(src_port, dst_port, checksum).len() == 8,
        tcp_header(src_port, dst_port, window, flags, options, checksum).len() == tcp_segment_len(
            options,
        ),
{
    lemma_be_bytes_len(ether_type as nat, 2);
    lemma_be_bytes_len(length as nat, 2);
    lemma_be_bytes_len(src as nat, 16);
    lemma_be_bytes_len(dst as nat, 16);
    lemma_be_bytes_len(src_port as nat, 2);
    lemma_be_bytes_len(dst_port as nat, 2);
    lemma_be_bytes_len(window as nat, 2);
    lemma_be_bytes_len(checksum as nat, 2);
    lemma_be_bytes_len(8, 2);
    lemma_options_bytes_len(options);
}

} // verus!
