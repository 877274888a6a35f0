//! Network interfaces of this machine.

use pnet::ipnetwork::IpNetwork;
use vstd::prelude::*;
use crate::addr::{IpAddr, MacAddr};

verus! {

/// What a scan needs to know of one network interface.
#[derive(Clone, Debug, PartialEq, Eq)]
pub struct InterfaceInfo {
    /// The index that the operating system gave it.
    pub index: u32,
    pub name: String,
    pub mac: Option<MacAddr>,
    /// Its addresses, in the order in which the system lists them.
    pub ips: Vec<IpAddr>,
}

/// `pnet::datalink::interfaces`: the interfaces that the operating system
/// lists at the time of the call. Nothing is known of them beforehand.
#[verifier::external_body]
pub(crate) fn network_interfaces() -> (interfaces: Vec<InterfaceInfo>) {
    pnet::datalink::interfaces().into_iter().map(|i| InterfaceInfo {
        index: i.index,
        name: i.name,
        mac: i.mac.map(|m| MacAddr(m.0, m.1, m.2, m.3, m.4, m.5)),
        ips: i.ips.iter().map(|n| match n {
            IpNetwork::V4(n) => IpAddr::V4(n.ip().into()),
            IpNetwork::V6(n) => IpAddr::V6(n.ip().into()),
        }).collect(),
    }).collect()
}

/// `default_net::interface::get_default_interface_index`: the index of
/// the interface that carries this machine's default route at the time
/// of the call, if the system names one.
#[verifier::external_body]
pub(crate) fn default_interface_index() -> (index: Option<u32>) {
    default_net::interface::get_default_interface_index()
}

/// The place of the first interface named `name`.
pub open spec fn first_named(interfaces: Seq<InterfaceInfo>, name: Seq<char>) -> Option<int>
    decreases interfaces.len(),
{
    if interfaces.len() == 0 {
        None
    } else {
        match first_named(interfaces.drop_last(), name) {
            Some(i) => Some(i),
            None => if interfaces.last().name@ == name {
                Some(interfaces.len() - 1)
            } else {
                None
            },
        }
    }
}

/// The place of the first interface with the index `index`.
pub open spec fn first_indexed(interfaces: Seq<InterfaceInfo>, index: u32) -> Option<int>
    decreases interfaces.len(),
{
    if interfaces.len() == 0 {
        None
    } else {
        match first_indexed(interfaces.drop_last(), index) {
            Some(i) => Some(i),
            None => if interfaces.last().index == index {
                Some(interfaces.len() - 1)
            } else {
                None
            },
        }
    }
}

/// The place of the first interface named `name`, if there is one.
pub fn find_by_name(interfaces: &Vec<InterfaceInfo>, name: &str) -> (place: Option<usize>)
    ensures
        first_named(interfaces@, name@) == match place {
            Some(i) => Some(i as int),
            None => None,
        },
        place matches Some(i) ==> i < interfaces@.len() && interfaces@[i as int].name@ == name@,
{
    let wanted = name.to_owned();
    let mut i: usize = 0;
    assert(interfaces@.take(0) =~= Seq::<InterfaceInfo>::empty());
    while i < interfaces.len()
        invariant
            i <= interfaces.len(),
            wanted@ == name@,
            first_named(interfaces@.take(i as int), name@) is None,
        decreases interfaces.len() - i,
    {
        assert(interfaces@.take(i + 1).drop_last() =~= interfaces@.take(i as int));
        if interfaces[i].name == wanted {
            proof {
                lemma_first_named_stays(interfaces@, name@, i + 1);
            }
            return Some(i);
        }
        i += 1;
    }
    assert(interfaces@.take(interfaces.len() as int) =~= interfaces@);
    None
}

proof fn lemma_first_named_stays(interfaces: Seq<InterfaceInfo>, name: Seq<char>, n: int)
    requires
        0 <= n <= interfaces.len(),
        first_named(interfaces.take(n), name) is Some,
    ensures
        first_named(interfaces, name) == first_named(interfaces.take(n), name),
    decreases interfaces.len() - n,
{
    if n < interfaces.len() {
        assert(interfaces.take(n + 1).drop_last() =~= interfaces.take(n));
        lemma_first_named_stays(interfaces, name, n + 1);
    } else {
        assert(interfaces.take(n) =~= interfaces);
    }
}

proof fn lemma_first_indexed_stays(interfaces: Seq<InterfaceInfo>, index: u32, n: int)
    requires
        0 <= n <= interfaces.len(),
        first_indexed(interfaces.take(n), index) is Some,
    ensures
        first_indexed(interfaces, index) == first_indexed(interfaces.take(n), index),
    decreases interfaces.len() - n,
{
    if n < interfaces.len() {
        assert(interfaces.take(n + 1).drop_last() =~= interfaces.take(n));
        lemma_first_indexed_stays(interfaces, index, n + 1);
    } else {
        assert(interfaces.take(n) =~= interfaces);
    }
}

/// The place of the first interface with the index `index`, if there is
/// one.
pub fn find_by_index(interfaces: &Vec<InterfaceInfo>, index: u32) -> (place: Option<usize>)
    ensures
        first_indexed(interfaces@, index) == match place {
            Some(i) => Some(i as int),
            None => None,
        },
        place matches Some(i) ==> i < interfaces@.len() && interfaces@[i as int].index == index,
{
    let mut i: usize = 0;
    assert(interfaces@.take(0) =~= Seq::<InterfaceInfo>::empty());
    while i < interfaces.len()
        invariant
            i <= interfaces.len(),
            first_indexed(interfaces@.take(i as int), index) is None,
        decreases interfaces.len() - i,
    {
        assert(interfaces@.take(i + 1).drop_last() =~= interfaces@.take(i as int));
        if interfaces[i].index == index {
            proof {
                lemma_first_indexed_stays(interfaces@, index, i + 1);
            }
            return Some(i);
        }
        i += 1;
    }
    assert(interfaces@.take(interfaces.len() as int) =~= interfaces@);
    None
}

/// The index of the first of `interfaces` that is named `name`.
pub fn index_of_name(interfaces: &Vec<InterfaceInfo>, name: &str) -> (index: Option<u32>)
    ensures
        index == match first_named(interfaces@, name@) {
            Some(i) => Some(interfaces@[i].index),
            None => None,
        },
{
    match find_by_name(interfaces, name) {
        Some(i) => Some(interfaces[i].index),
        None => None,
    }
}

/// The index of the interface of this machine that is named `if_name`,
/// if the system lists one at the time of the call.
pub fn get_interface_index_by_name(if_name: String) -> (index: Option<u32>) {
    let interfaces = network_interfaces();
    index_of_name(&interfaces, if_name.as_str())
}

/// The address that probes are sent from: the last address of the
/// interface, or the IPv4 loopback address where it has none.
pub open spec fn spec_source_ip(ips: Seq<IpAddr>) -> IpAddr {
    if ips.len() == 0 {
        IpAddr::V4(0x7f00_0001u32)
    } else {
        ips.last()
    }
}

/// The address that probes are sent from.
pub fn source_ip(ips: &Vec<IpAddr>) -> (ip: IpAddr)
    ensures
        ip == spec_source_ip(ips@),
{
    if ips.len() == 0 {
        IpAddr::localhost()
    } else {
        ips[ips.len() - 1]
    }
}

} // verus!
