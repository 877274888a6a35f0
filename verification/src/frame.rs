//! Captured frames: the parsed headers that correlation reads.

use vstd::prelude::*;
use crate::addr::{IpAddr, MacAddr};
use crate::host::PortStatus;

verus! {

/// TCP flag bit: synchronise sequence numbers.
pub const TCP_SYN: u8 = 0x02;

/// TCP flag bit: reset the connection.
pub const TCP_RST: u8 = 0x04;

/// TCP flag bit: the acknowledgement field is significant.
pub const TCP_ACK: u8 = 0x10;

/// The flags of a reply from an open port.
pub const TCP_SYN_ACK: u8 = 0x12;

/// The flags of a reply from a closed port.
pub const TCP_RST_ACK: u8 = 0x14;

/// The protocol carried by an IP packet.
#[derive(Clone, Copy, Debug, PartialEq, Eq, Structural)]
pub enum IpProtocol {
    Icmp,
    Tcp,
    Udp,
    Icmpv6,
    /// Any other protocol, by its assigned number.
    Other(u8),
}

impl IpProtocol {
    /// The assigned protocol number.
    pub open spec fn spec_number(self) -> u8 {
        match self {
            IpProtocol::Icmp => 1,
            IpProtocol::Tcp => 6,
            IpProtocol::Udp => 17,
            IpProtocol::Icmpv6 => 58,
            IpProtocol::Other(n) => n,
        }
    }

    #[verifier::when_used_as_spec(spec_number)]
    pub fn number(self) -> (n: u8)
        ensures
            n == self.spec_number(),
    {
        match self {
            IpProtocol::Icmp => 1,
            IpProtocol::Tcp => 6,
            IpProtocol::Udp => 17,
            IpProtocol::Icmpv6 => 58,
            IpProtocol::Other(n) => n,
        }
    }

    /// The protocol with the given number; the four named protocols are
    /// never returned as `Other`.
    pub fn from_number(n: u8) -> (p: IpProtocol)
        ensures
            p.spec_number() == n,
            n == 1 ==> p == IpProtocol::Icmp,
            n == 6 ==> p == IpProtocol::Tcp,
            n == 17 ==> p == IpProtocol::Udp,
            n == 58 ==> p == IpProtocol::Icmpv6,
            n != 1 && n != 6 && n != 17 && n != 58 ==> p == IpProtocol::Other(n),
    {
        if n == 1 {
            IpProtocol::Icmp
        } else if n == 6 {
            IpProtocol::Tcp
        } else if n == 17 {
            IpProtocol::Udp
        } else if n == 58 {
            IpProtocol::Icmpv6
        } else {
            IpProtocol::Other(n)
        }
    }
}

#[derive(Clone, Copy, Debug, PartialEq, Eq, Structural)]
pub struct EthernetHeader {
    pub destination: MacAddr,
    pub source: MacAddr,
    pub ethertype: u16,
}

#[derive(Clone, Copy, Debug, PartialEq, Eq, Structural)]
pub struct Ipv4Header {
    pub total_length: u16,
    pub identification: u16,
    pub ttl: u8,
    pub next_level_protocol: IpProtocol,
    /// The 32 bits of the source address.
    pub source: u32,
    /// The 32 bits of the destination address.
    pub destination: u32,
}

#[derive(Clone, Copy, Debug, PartialEq, Eq, Structural)]
pub struct Ipv6Header {
    pub payload_length: u16,
    pub next_header: IpProtocol,
    pub hop_limit: u8,
    /// The 128 bits of the source address.
    pub source: u128,
    /// The 128 bits of the destination address.
    pub destination: u128,
}

#[derive(Clone, Copy, Debug, PartialEq, Eq, Structural)]
pub struct IcmpHeader {
    pub icmp_type: u8,
    pub icmp_code: u8,
}

#[derive(Clone, Copy, Debug, PartialEq, Eq, Structural)]
pub struct Icmpv6Header {
    pub icmpv6_type: u8,
    pub icmpv6_code: u8,
}

#[derive(Clone, Copy, Debug, PartialEq, Eq, Structural)]
pub struct TcpHeader {
    pub source: u16,
    pub destination: u16,
    pub sequence: u32,
    pub acknowledgement: u32,
    pub flags: u8,
    pub window: u16,
}

#[derive(Clone, Copy, Debug, PartialEq, Eq, Structural)]
pub struct UdpHeader {
    pub source: u16,
    pub destination: u16,
    pub length: u16,
}

/// One captured frame: each header that was found in it, and the bytes
/// that follow the last of them.
#[derive(Clone, Debug, PartialEq, Eq)]
pub struct PacketFrame {
    pub ethernet_header: Option<EthernetHeader>,
    pub ipv4_header: Option<Ipv4Header>,
    pub ipv6_header: Option<Ipv6Header>,
    pub icmp_header: Option<IcmpHeader>,
    pub icmpv6_header: Option<Icmpv6Header>,
    pub tcp_header: Option<TcpHeader>,
    pub udp_header: Option<UdpHeader>,
    pub payload: Vec<u8>,
}

/// What a [`PacketFrame`] holds.
pub ghost struct PacketFrameView {
    pub ethernet_header: Option<EthernetHeader>,
    pub ipv4_header: Option<Ipv4Header>,
    pub ipv6_header: Option<Ipv6Header>,
    pub icmp_header: Option<IcmpHeader>,
    pub icmpv6_header: Option<Icmpv6Header>,
    pub tcp_header: Option<TcpHeader>,
    pub udp_header: Option<UdpHeader>,
    pub payload: Seq<u8>,
}

impl View for PacketFrame {
    type V = PacketFrameView;

    open spec fn view(&self) -> PacketFrameView {
        PacketFrameView {
            ethernet_header: self.ethernet_header,
            ipv4_header: self.ipv4_header,
            ipv6_header: self.ipv6_header,
            icmp_header: self.icmp_header,
            icmpv6_header: self.icmpv6_header,
            tcp_header: self.tcp_header,
            udp_header: self.udp_header,
            payload: self.payload@,
        }
    }
}

/// The contents of a sequence of frames.
pub open spec fn frame_views(frames: Seq<PacketFrame>) -> Seq<PacketFrameView> {
    Seq::new(frames.len(), |i: int| frames[i]@)
}

impl PacketFrameView {
    /// The address the frame came from: that of the IPv4 header where
    /// there is one, else that of the IPv6 header.
    pub open spec fn source_ip(self) -> Option<IpAddr> {
        match self.ipv4_header {
            Some(ipv4) => Some(IpAddr::V4(ipv4.source)),
            None => match self.ipv6_header {
                Some(ipv6) => Some(IpAddr::V6(ipv6.source)),
                None => None,
            },
        }
    }

    /// The TTL of the IPv4 header where there is one, else the hop limit
    /// of the IPv6 header, else 0.
    pub open spec fn ttl(self) -> u8 {
        match self.ipv4_header {
            Some(ipv4) => ipv4.ttl,
            None => match self.ipv6_header {
                Some(ipv6) => ipv6.hop_limit,
                None => 0,
            },
        }
    }

    /// The protocol named by the IP header that [`Self::source_ip`] reads.
    pub open spec fn protocol(self) -> Option<IpProtocol> {
        match self.ipv4_header {
            Some(ipv4) => Some(ipv4.next_level_protocol),
            None => match self.ipv6_header {
                Some(ipv6) => Some(ipv6.next_header),
                None => None,
            },
        }
    }
}

/// A copy of a byte vector.
pub fn copy_bytes(bytes: &Vec<u8>) -> (copy: Vec<u8>)
    ensures
        copy@ == bytes@,
{
    let mut copy: Vec<u8> = Vec::new();
    let mut i: usize = 0;
    while i < bytes.len()
        invariant
            i <= bytes.len(),
            copy@ == bytes@.take(i as int),
        decreases bytes.len() - i,
    {
        copy.push(bytes[i]);
        assert(bytes@.take(i + 1) =~= bytes@.take(i as int).push(bytes@[i as int]));
        i += 1;
    }
    assert(bytes@.take(bytes.len() as int) =~= bytes@);
    copy
}

impl PacketFrame {
    /// A frame without headers or payload.
    pub fn new() -> (frame: PacketFrame)
        ensures
            frame@ == (PacketFrameView {
                ethernet_header: None,
                ipv4_header: None,
                ipv6_header: None,
                icmp_header: None,
                icmpv6_header: None,
                tcp_header: None,
                udp_header: None,
                payload: Seq::empty(),
            }),
    {
        PacketFrame {
            ethernet_header: None,
            ipv4_header: None,
            ipv6_header: None,
            icmp_header: None,
            icmpv6_header: None,
            tcp_header: None,
            udp_header: None,
            payload: Vec::new(),
        }
    }

    /// A copy of this frame.
    pub fn duplicate(&self) -> (copy: PacketFrame)
        ensures
            copy@ == self@,
    {
        PacketFrame {
            ethernet_header: self.ethernet_header,
            ipv4_header: self.ipv4_header,
            ipv6_header: self.ipv6_header,
            icmp_header: self.icmp_header,
            icmpv6_header: self.icmpv6_header,
            tcp_header: self.tcp_header,
            udp_header: self.udp_header,
            payload: copy_bytes(&self.payload),
        }
    }

    /// The address the frame came from, if it has an IP header.
    pub fn source_ip(&self) -> (ip: Option<IpAddr>)
        ensures
            ip == self@.source_ip(),
    {
        match self.ipv4_header {
            Some(ipv4) => Some(IpAddr::V4(ipv4.source)),
            None => match self.ipv6_header {
                Some(ipv6) => Some(IpAddr::V6(ipv6.source)),
                None => None,
            },
        }
    }

    /// The TTL or hop limit of the frame's IP header, 0 without one.
    pub fn ttl(&self) -> (ttl: u8)
        ensures
            ttl == self@.ttl(),
    {
        match self.ipv4_header {
            Some(ipv4) => ipv4.ttl,
            None => match self.ipv6_header {
                Some(ipv6) => ipv6.hop_limit,
                None => 0,
            },
        }
    }

    /// The protocol named by the frame's IP header, if it has one.
    pub fn protocol(&self) -> (protocol: Option<IpProtocol>)
        ensures
            protocol == self@.protocol(),
    {
        match self.ipv4_header {
            Some(ipv4) => Some(ipv4.next_level_protocol),
            None => match self.ipv6_header {
                Some(ipv6) => Some(ipv6.next_header),
                None => None,
            },
        }
    }
}

/// The verdict that a TCP reply with the given flags carries: `Open` for
/// exactly SYN+ACK, `Closed` for exactly RST+ACK, none for anything else.
pub open spec fn spec_verdict_of_flags(flags: u8) -> Option<PortStatus> {
    if flags == TCP_SYN_ACK {
        Some(PortStatus::Open)
    } else if flags == TCP_RST_ACK {
        Some(PortStatus::Closed)
    } else {
        None
    }
}

#[verifier::when_used_as_spec(spec_verdict_of_flags)]
pub fn verdict_of_flags(flags: u8) -> (verdict: Option<PortStatus>)
    ensures
        verdict == spec_verdict_of_flags(flags),
{
    if flags == TCP_SYN_ACK {
        Some(PortStatus::Open)
    } else if flags == TCP_RST_ACK {
        Some(PortStatus::Closed)
    } else {
        None
    }
}

/// The two flag patterns that carry a verdict are SYN together with ACK
/// and RST together with ACK, and nothing else.
pub proof fn lemma_verdict_flags()
    ensures
        TCP_SYN_ACK == TCP_SYN | TCP_ACK,
        TCP_RST_ACK == TCP_RST | TCP_ACK,
{
    assert(0x12u8 == 0x02u8 | 0x10u8) by (bit_vector);
    assert(0x14u8 == 0x04u8 | 0x10u8) by (bit_vector);
}

} // verus!
