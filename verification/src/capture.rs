//! Deciding which captured frames are kept.

use std::collections::HashSet;
use vstd::prelude::*;
use crate::addr::IpAddr;
use crate::frame::{IpProtocol, PacketFrame, PacketFrameView, frame_views};
use crate::time::Duration;

verus! {

broadcast use vstd::std_specs::hash::group_hash_axioms;

/// A set of IP addresses.
#[derive(Debug)]
pub struct IpSet {
    v4: HashSet<u32>,
    v6: HashSet<u128>,
}

impl View for IpSet {
    type V = Set<IpAddr>;

    closed spec fn view(&self) -> Set<IpAddr> {
        Set::new(
            |ip: IpAddr|
                match ip {
                    IpAddr::V4(bits) => self.v4@.contains(bits),
                    IpAddr::V6(bits) => self.v6@.contains(bits),
                },
        )
    }
}

impl IpSet {
    /// The empty set.
    pub fn new() -> (set: IpSet)
        ensures
            set@ == Set::<IpAddr>::empty(),
    {
        let set = IpSet { v4: HashSet::new(), v6: HashSet::new() };
        assert(set@ =~= Set::<IpAddr>::empty());
        set
    }

    /// Adds `ip` to the set.
    pub fn insert(&mut self, ip: IpAddr)
        ensures
            final(self)@ == old(self)@.insert(ip),
    {
        let ghost before = self@;
        match ip {
            IpAddr::V4(bits) => {
                self.v4.insert(bits);
            },
            IpAddr::V6(bits) => {
                self.v6.insert(bits);
            },
        }
        assert(self@ =~= before.insert(ip));
    }

    /// Whether `ip` is in the set.
    pub fn contains(&self, ip: &IpAddr) -> (found: bool)
        ensures
            found == self@.contains(*ip),
    {
        match ip {
            IpAddr::V4(bits) => self.v4.contains(bits),
            IpAddr::V6(bits) => self.v6.contains(bits),
        }
    }
}

/// What a listener is told to keep.
#[derive(Debug)]
pub struct PacketCaptureOptions {
    pub interface_index: u32,
    pub interface_name: String,
    /// The addresses that replies may come from.
    pub src_ips: IpSet,
    /// The ports that TCP replies may come from, where
    /// `filter_src_ports` is set.
    pub src_ports: HashSet<u16>,
    /// Whether TCP frames are held to `src_ports`.
    pub filter_src_ports: bool,
    /// The protocols that replies may carry.
    pub ip_protocols: Vec<IpProtocol>,
    /// How long the capture may run at most.
    pub duration: Duration,
    /// How long one read may block at most.
    pub read_timeout: Duration,
    pub promiscuous: bool,
    /// Whether frames are stored at all.
    pub store: bool,
    /// How many frames are stored at most.
    pub store_limit: u32,
    /// Whether frames that match nothing are kept too.
    pub receive_undefined: bool,
    pub tunnel: bool,
    pub loopback: bool,
}

/// What a [`PacketCaptureOptions`] holds.
pub ghost struct PacketCaptureOptionsView {
    pub interface_index: u32,
    pub interface_name: Seq<char>,
    pub src_ips: Set<IpAddr>,
    pub src_ports: Set<u16>,
    pub filter_src_ports: bool,
    pub ip_protocols: Set<IpProtocol>,
    pub duration: Duration,
    pub read_timeout: Duration,
    pub promiscuous: bool,
    pub store: bool,
    pub store_limit: u32,
    pub receive_undefined: bool,
    pub tunnel: bool,
    pub loopback: bool,
}

impl View for PacketCaptureOptions {
    type V = PacketCaptureOptionsView;

    open spec fn view(&self) -> PacketCaptureOptionsView {
        PacketCaptureOptionsView {
            interface_index: self.interface_index,
            interface_name: self.interface_name@,
            src_ips: self.src_ips@,
            src_ports: self.src_ports@,
            filter_src_ports: self.filter_src_ports,
            ip_protocols: self.ip_protocols@.to_set(),
            duration: self.duration,
            read_timeout: self.read_timeout,
            promiscuous: self.promiscuous,
            store: self.store,
            store_limit: self.store_limit,
            receive_undefined: self.receive_undefined,
            tunnel: self.tunnel,
            loopback: self.loopback,
        }
    }
}

impl PacketCaptureOptionsView {
    /// Whether `frame` is what the listener waits for: it comes from one
    /// of the expected addresses, carries one of the expected protocols
    /// and, where TCP frames are held to the expected ports and it has a
    /// TCP header, comes from one of those ports.
    pub open spec fn matches(self, frame: PacketFrameView) -> bool {
        &&& frame.source_ip() matches Some(ip) && self.src_ips.contains(ip)
        &&& frame.protocol() matches Some(protocol) && self.ip_protocols.contains(protocol)
        &&& self.filter_src_ports ==> match frame.tcp_header {
            Some(tcp) => self.src_ports.contains(tcp.source),
            None => true,
        }
    }

    /// Whether the listener keeps `frame`.
    pub open spec fn keeps(self, frame: PacketFrameView) -> bool {
        self.receive_undefined || self.matches(frame)
    }

    /// The frames stored from `frames`, which arrived in this order:
    /// those that are kept, up to the store limit, and none where
    /// nothing is to be stored.
    pub open spec fn stored(self, frames: Seq<PacketFrameView>) -> Seq<PacketFrameView>
        decreases frames.len(),
    {
        if frames.len() == 0 {
            Seq::empty()
        } else {
            let earlier = self.stored(frames.drop_last());
            if self.store && earlier.len() < self.store_limit && self.keeps(frames.last()) {
                earlier.push(frames.last())
            } else {
                earlier
            }
        }
    }
}

/// Whether `protocol` is in `protocols`.
pub fn has_protocol(protocols: &Vec<IpProtocol>, protocol: IpProtocol) -> (found: bool)
    ensures
        found == protocols@.to_set().contains(protocol),
{
    let mut i: usize = 0;
    while i < protocols.len()
        invariant
            i <= protocols.len(),
            forall|k: int| 0 <= k < i ==> protocols@[k] != protocol,
        decreases protocols.len() - i,
    {
        if protocols[i] == protocol {
            return true;
        }
        i += 1;
    }
    false
}

impl PacketCaptureOptions {
    /// Whether `frame` is what the listener waits for.
    pub fn matches(&self, frame: &PacketFrame) -> (matched: bool)
        ensures
            matched == self@.matches(frame@),
    {
        let from_expected = match frame.source_ip() {
            Some(ip) => self.src_ips.contains(&ip),
            None => false,
        };
        let carries_expected = match frame.protocol() {
            Some(protocol) => has_protocol(&self.ip_protocols, protocol),
            None => false,
        };
        let port_expected = if self.filter_src_ports {
            match frame.tcp_header {
                Some(tcp) => self.src_ports.contains(&tcp.source),
                None => true,
            }
        } else {
            true
        };
        from_expected && carries_expected && port_expected
    }

    /// Whether the listener keeps `frame`.
    pub fn keeps(&self, frame: &PacketFrame) -> (kept: bool)
        ensures
            kept == self@.keeps(frame@),
    {
        self.receive_undefined || self.matches(frame)
    }

    /// Whether the capture is over, `elapsed` after it began: it is once
    /// it was told to stop or has run for longer than its duration.
    pub fn is_over(&self, stopped: bool, elapsed: &Duration) -> (over: bool)
        ensures
            over == (stopped || elapsed.as_nanos() > self@.duration.as_nanos()),
    {
        stopped || elapsed.is_longer_than(&self.duration)
    }

    /// Stores `frame` if it is kept and there is room for it.
    pub fn store_frame(&self, stored: &mut Vec<PacketFrame>, frame: &PacketFrame)
        ensures
            frame_views(final(stored)@) == if self@.store && old(stored)@.len() < self@.store_limit
                && self@.keeps(frame@) {
                frame_views(old(stored)@).push(frame@)
            } else {
                frame_views(old(stored)@)
            },
    {
        if self.store && stored.len() < self.store_limit as usize && self.keeps(frame) {
            let ghost before = frame_views(stored@);
            stored.push(frame.duplicate());
            assert(frame_views(stored@) =~= before.push(frame@));
        }
    }

    /// The frames stored from `frames`, which arrived in this order.
    pub fn store_frames(&self, frames: &Vec<PacketFrame>) -> (stored: Vec<PacketFrame>)
        ensures
            frame_views(stored@) == self@.stored(frame_views(frames@)),
    {
        let mut stored: Vec<PacketFrame> = Vec::new();
        let mut i: usize = 0;
        assert(frame_views(frames@).take(0) =~= Seq::<PacketFrameView>::empty());
        assert(frame_views(stored@) =~= Seq::<PacketFrameView>::empty());
        while i < frames.len()
            invariant
                i <= frames.len(),
                frame_views(stored@) == self@.stored(frame_views(frames@).take(i as int)),
            decreases frames.len() - i,
        {
            self.store_frame(&mut stored, &frames[i]);
            assert(frame_views(frames@).take(i + 1).drop_last() =~= frame_views(frames@).take(
                i as int,
            ));
            i += 1;
        }
        assert(frame_views(frames@).take(frames.len() as int) =~= frame_views(frames@));
        stored
    }
}

} // verus!
