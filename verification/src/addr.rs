//! Network addresses as plain values.

use pnet::ipnetwork::IpNetwork;
use vstd::prelude::*;

verus! {

/// An IP address: the 32 bits of an IPv4 address or the 128 bits of an
/// IPv6 address, most significant byte first on the wire.
#[derive(Clone, Copy, Debug, PartialEq, Eq, Structural)]
pub enum IpAddr {
    V4(u32),
    V6(u128),
}

impl IpAddr {
    /// The IPv4 address `a.b.c.d`.
    pub fn v4(a: u8, b: u8, c: u8, d: u8) -> (ip: IpAddr)
        ensures
            ip == IpAddr::V4(spec_v4_bits(a, b, c, d)),
    {
        let high: u32 = (a as u32) * 0x100_0000 + (b as u32) * 0x1_0000;
        let low: u32 = (c as u32) * 0x100 + (d as u32);
        IpAddr::V4(high + low)
    }

    /// The bytes of the address as they stand in a packet: four for
    /// IPv4, sixteen for IPv6, most significant first.
    pub open spec fn octets(self) -> Seq<u8> {
        match self {
            IpAddr::V4(bits) => be_bytes(bits as nat, 4),
            IpAddr::V6(bits) => be_bytes(bits as nat, 16),
        }
    }

    /// The IPv4 loopback address.
    pub fn localhost() -> (ip: IpAddr)
        ensures
            ip == IpAddr::V4(0x7f00_0001u32),
    {
        IpAddr::V4(0x7f00_0001u32)
    }

    pub open spec fn spec_is_ipv4(&self) -> bool {
        *self is V4
    }

    #[verifier::when_used_as_spec(spec_is_ipv4)]
    pub fn is_ipv4(&self) -> (b: bool)
        ensures
            b == (*self is V4),
    {
        match self {
            IpAddr::V4(_) => true,
            IpAddr::V6(_) => false,
        }
    }

    pub open spec fn spec_is_ipv6(&self) -> bool {
        *self is V6
    }

    #[verifier::when_used_as_spec(spec_is_ipv6)]
    pub fn is_ipv6(&self) -> (b: bool)
        ensures
            b == (*self is V6),
    {
        match self {
            IpAddr::V4(_) => false,
            IpAddr::V6(_) => true,
        }
    }

    /// Whether both addresses belong to the same address family.
    pub open spec fn spec_same_family(&self, other: &IpAddr) -> bool {
        (*self is V4) == (*other is V4)
    }

    #[verifier::when_used_as_spec(spec_same_family)]
    pub fn same_family(&self, other: &IpAddr) -> (b: bool)
        ensures
            b == self.spec_same_family(other),
    {
        self.is_ipv4() == other.is_ipv4()
    }
}

/// The 32 bits of the IPv4 address `a.b.c.d`.
pub open spec fn spec_v4_bits(a: u8, b: u8, c: u8, d: u8) -> u32 {
    (a * 0x100_0000 + b * 0x1_0000 + c * 0x100 + d) as u32
}

/// The `width` low bytes of `value`, most significant first.
pub open spec fn be_bytes(value: nat, width: nat) -> Seq<u8>
    decreases width,
{
    if width == 0 {
        Seq::empty()
    } else {
        be_bytes(value / 256, (width - 1) as nat).push((value % 256) as u8)
    }
}

/// The address `a.b.c.d` stands in a packet as the bytes `a`, `b`, `c`,
/// `d`.
pub proof fn lemma_v4_octets(a: u8, b: u8, c: u8, d: u8)
    ensures
        IpAddr::V4(spec_v4_bits(a, b, c, d)).octets() == seq![a, b, c, d],
{
    let bits = spec_v4_bits(a, b, c, d) as nat;
    assert(bits == a * 0x100_0000 + b * 0x1_0000 + c * 0x100 + d);
    reveal_with_fuel(be_bytes, 5);
    assert(bits % 256 == d);
    assert((bits / 256) % 256 == c);
    assert((bits / 256 / 256) % 256 == b);
    assert((bits / 256 / 256 / 256) % 256 == a);
    assert(be_bytes(bits, 4) =~= seq![a, b, c, d]);
}

/// An IP address together with a port.
#[derive(Clone, Copy, Debug, PartialEq, Eq, Structural)]
pub struct SocketAddr {
    pub ip: IpAddr,
    pub port: u16,
}

impl SocketAddr {
    pub fn new(ip: IpAddr, port: u16) -> (s: SocketAddr)
        ensures
            s == (SocketAddr { ip, port }),
    {
        SocketAddr { ip, port }
    }
}

/// A 48-bit link-layer address, first octet first.
#[derive(Clone, Copy, Debug, PartialEq, Eq, Structural)]
pub struct MacAddr(pub u8, pub u8, pub u8, pub u8, pub u8, pub u8);

impl MacAddr {
    pub fn new(a: u8, b: u8, c: u8, d: u8, e: u8, f: u8) -> (m: MacAddr)
        ensures
            m == MacAddr(a, b, c, d, e, f),
    {
        MacAddr(a, b, c, d, e, f)
    }

    /// The all-zero address, which stands for "no link-layer transmit".
    pub fn zero() -> (m: MacAddr)
        ensures
            m == MacAddr(0, 0, 0, 0, 0, 0),
    {
        MacAddr(0, 0, 0, 0, 0, 0)
    }

    /// The six octets in wire order.
    pub open spec fn octets(self) -> Seq<u8> {
        seq![self.0, self.1, self.2, self.3, self.4, self.5]
    }
}

/// A copy of a list of addresses.
pub fn copy_ips(ips: &Vec<IpAddr>) -> (copy: Vec<IpAddr>)
    ensures
        copy@ == ips@,
{
    let mut copy: Vec<IpAddr> = Vec::new();
    let mut i: usize = 0;
    while i < ips.len()
        invariant
            i <= ips.len(),
            copy@ == ips@.take(i as int),
        decreases ips.len() - i,
    {
        copy.push(ips[i]);
        assert(ips@.take(i + 1) =~= ips@.take(i as int).push(ips@[i as int]));
        i += 1;
    }
    assert(ips@.take(ips.len() as int) =~= ips@);
    copy
}

/// A copy of a list of ports.
pub fn copy_port_numbers(ports: &Vec<u16>) -> (copy: Vec<u16>)
    ensures
        copy@ == ports@,
{
    let mut copy: Vec<u16> = Vec::new();
    let mut i: usize = 0;
    while i < ports.len()
        invariant
            i <= ports.len(),
            copy@ == ports@.take(i as int),
        decreases ports.len() - i,
    {
        copy.push(ports[i]);
        assert(ports@.take(i + 1) =~= ports@.take(i as int).push(ports@[i as int]));
        i += 1;
    }
    assert(ports@.take(ports.len() as int) =~= ports@);
    copy
}

/// The address of the network that ipnetwork reads from `text`, if it
/// reads one. For a text without `/` that is the address which the text
/// spells in the usual notation of IPv4 or IPv6.
pub uninterp spec fn network_address(text: Seq<char>) -> Option<IpAddr>;

/// `IpNetwork::from_str`, of which the network's address is kept.
#[verifier::external_body]
pub(crate) fn parse_network_address(text: &str) -> (ip: Option<IpAddr>)
    ensures
        ip == network_address(text@),
{
    text.parse::<IpNetwork>().ok().map(|n| match n {
        IpNetwork::V4(n) => IpAddr::V4(n.ip().into()),
        IpNetwork::V6(n) => IpAddr::V6(n.ip().into()),
    })
}

/// The address that `text` spells: none where the text holds a `/`,
/// which would make it a network.
pub open spec fn spec_parse_ip(text: Seq<char>) -> Option<IpAddr> {
    if text.contains('/') {
        None
    } else {
        network_address(text)
    }
}

/// Whether `text` holds the character `wanted`.
pub fn has_char(text: &str, wanted: char) -> (found: bool)
    ensures
        found == text@.contains(wanted),
{
    let len: usize = text.unicode_len();
    let mut i: usize = 0;
    while i < len
        invariant
            i <= len,
            len == text@.len(),
            forall|k: int| 0 <= k < i ==> text@[k] != wanted,
        decreases len - i,
    {
        if text.get_char(i) == wanted {
            return true;
        }
        i += 1;
    }
    false
}

/// The address that `text` spells, if it spells one.
pub fn parse_ip(text: &str) -> (ip: Option<IpAddr>)
    ensures
        ip == spec_parse_ip(text@),
{
    if has_char(text, '/') {
        None
    } else {
        parse_network_address(text)
    }
}

} // verus!
