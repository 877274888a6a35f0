//! What a scan is asked to do.

use vstd::prelude::*;
use crate::addr::{IpAddr, MacAddr};
use crate::host::{HostTarget, HostTargetView, target_views};
use crate::time::Duration;

verus! {

/// Milliseconds the listener is given to arm before the first probe leaves.
pub const LISTENER_WAIT_TIME_MILLIS: u64 = 100;

/// Source port of probes unless the setting names another.
pub const DEFAULT_SRC_PORT: u16 = 53443;

/// Destination port of UDP ping probes.
pub const UDP_BASE_DST_PORT: u16 = 33435;

/// Milliseconds allowed to each connection attempt of a connect scan.
pub const CONNECT_TIMEOUT_MILLIS: u64 = 200;

/// Bytes of each buffer of the link-layer channel.
pub const CHANNEL_BUFFER_SIZE: usize = 4096;

/// The kind of scan.
#[derive(Clone, Copy, Debug, PartialEq, Eq, Structural)]
pub enum ScanType {
    TcpSynScan,
    TcpConnectScan,
    IcmpPingScan,
    TcpPingScan,
    UdpPingScan,
}

/// One entry of an [`IpMap`].
#[derive(Clone, Debug, PartialEq, Eq)]
pub struct HostName {
    pub ip_addr: IpAddr,
    pub name: String,
}

/// Host names by address. A later entry for an address replaces an
/// earlier one.
#[derive(Clone, Debug, PartialEq, Eq)]
pub struct IpMap {
    entries: Vec<HostName>,
}

/// The mapping that a sequence of entries stands for.
pub open spec fn names_of(entries: Seq<HostName>) -> Map<IpAddr, Seq<char>>
    decreases entries.len(),
{
    if entries.len() == 0 {
        Map::empty()
    } else {
        names_of(entries.drop_last()).insert(entries.last().ip_addr, entries.last().name@)
    }
}

/// The name on record for `ip`, empty where there is none.
pub open spec fn name_or_empty(names: Map<IpAddr, Seq<char>>, ip: IpAddr) -> Seq<char> {
    if names.contains_key(ip) {
        names[ip]
    } else {
        Seq::empty()
    }
}

impl View for IpMap {
    type V = Map<IpAddr, Seq<char>>;

    closed spec fn view(&self) -> Map<IpAddr, Seq<char>> {
        names_of(self.entries@)
    }
}

impl IpMap {
    /// The empty mapping.
    pub fn new() -> (m: IpMap)
        ensures
            m@ == Map::<IpAddr, Seq<char>>::empty(),
    {
        IpMap { entries: Vec::new() }
    }

    /// Records `name` for `ip_addr`.
    pub fn insert(&mut self, ip_addr: IpAddr, name: String)
        ensures
            final(self)@ == old(self)@.insert(ip_addr, name@),
    {
        let ghost before = self.entries@;
        self.entries.push(HostName { ip_addr, name });
        assert(self.entries@.drop_last() =~= before);
    }

    /// The name on record for `ip_addr`.
    pub fn get(&self, ip_addr: &IpAddr) -> (name: Option<&String>)
        ensures
            name is Some == self@.contains_key(*ip_addr),
            name is Some ==> name->0@ == self@[*ip_addr],
    {
        let mut i: usize = self.entries.len();
        assert(self.entries@.take(i as int) =~= self.entries@);
        while i > 0
            invariant
                i <= self.entries.len(),
                names_of(self.entries@).contains_key(*ip_addr) == names_of(
                    self.entries@.take(i as int),
                ).contains_key(*ip_addr),
                names_of(self.entries@).contains_key(*ip_addr) ==> names_of(self.entries@)[*ip_addr]
                    == names_of(self.entries@.take(i as int))[*ip_addr],
            decreases i,
        {
            i -= 1;
            assert(self.entries@.take(i + 1).drop_last() =~= self.entries@.take(i as int));
            if self.entries[i].ip_addr == *ip_addr {
                return Some(&self.entries[i].name);
            }
        }
        assert(self.entries@.take(0) =~= Seq::<HostName>::empty());
        None
    }

    /// The name on record for `ip_addr`, empty where there is none.
    pub fn name_of(&self, ip_addr: &IpAddr) -> (name: String)
        ensures
            name@ == name_or_empty(self@, *ip_addr),
    {
        match self.get(ip_addr) {
            Some(name) => name.clone(),
            None => String::new(),
        }
    }

    /// A copy of this mapping.
    pub fn duplicate(&self) -> (copy: IpMap)
        ensures
            copy@ == self@,
    {
        let mut entries: Vec<HostName> = Vec::new();
        let mut i: usize = 0;
        while i < self.entries.len()
            invariant
                i <= self.entries.len(),
                entries@.len() == i,
                names_of(entries@) == names_of(self.entries@.take(i as int)),
            decreases self.entries.len() - i,
        {
            let ghost before = entries@;
            entries.push(
                HostName { ip_addr: self.entries[i].ip_addr, name: self.entries[i].name.clone() },
            );
            assert(entries@.drop_last() =~= before);
            assert(self.entries@.take(i + 1).drop_last() =~= self.entries@.take(i as int));
            i += 1;
        }
        assert(self.entries@.take(self.entries.len() as int) =~= self.entries@);
        IpMap { entries }
    }
}

/// Everything one scan needs to know. It does not change while the scan
/// runs.
#[derive(Clone, Debug)]
pub struct ScanSetting {
    pub if_index: u32,
    pub if_name: String,
    pub src_mac: MacAddr,
    /// The next hop; all zero where nothing is sent on the link layer.
    pub dst_mac: MacAddr,
    pub src_ip: IpAddr,
    pub src_port: u16,
    pub targets: Vec<HostTarget>,
    pub ip_map: IpMap,
    pub scan_type: ScanType,
    /// Budget for the whole scan.
    pub timeout: Duration,
    /// Grace after the last probe during which replies still count.
    pub wait_time: Duration,
    /// Pause after each probe.
    pub send_rate: Duration,
    /// Whether TCP probes carry the reduced option set.
    pub minimize_packet: bool,
    pub tunnel: bool,
    pub loopback: bool,
}

/// What a [`ScanSetting`] holds.
pub ghost struct ScanSettingView {
    pub if_index: u32,
    pub if_name: Seq<char>,
    pub src_mac: MacAddr,
    pub dst_mac: MacAddr,
    pub src_ip: IpAddr,
    pub src_port: u16,
    pub targets: Seq<HostTargetView>,
    pub ip_map: Map<IpAddr, Seq<char>>,
    pub scan_type: ScanType,
    pub timeout: Duration,
    pub wait_time: Duration,
    pub send_rate: Duration,
    pub minimize_packet: bool,
    pub tunnel: bool,
    pub loopback: bool,
}

impl View for ScanSetting {
    type V = ScanSettingView;

    open spec fn view(&self) -> ScanSettingView {
        ScanSettingView {
            if_index: self.if_index,
            if_name: self.if_name@,
            src_mac: self.src_mac,
            dst_mac: self.dst_mac,
            src_ip: self.src_ip,
            src_port: self.src_port,
            targets: target_views(self.targets@),
            ip_map: self.ip_map@,
            scan_type: self.scan_type,
            timeout: self.timeout,
            wait_time: self.wait_time,
            send_rate: self.send_rate,
            minimize_packet: self.minimize_packet,
            tunnel: self.tunnel,
            loopback: self.loopback,
        }
    }
}

impl ScanSetting {
    /// A SYN scan from the loopback address with no targets, a timeout of
    /// 30 s, a wait time of 100 ms and no pause between probes.
    pub fn new() -> (s: ScanSetting)
        ensures
            s@.if_index == 0,
            s@.if_name == Seq::<char>::empty(),
            s@.src_mac == MacAddr(0, 0, 0, 0, 0, 0),
            s@.dst_mac == MacAddr(0, 0, 0, 0, 0, 0),
            s@.src_ip == IpAddr::V4(0x7f00_0001u32),
            s@.src_port == DEFAULT_SRC_PORT,
            s@.targets == Seq::<HostTargetView>::empty(),
            s@.ip_map == Map::<IpAddr, Seq<char>>::empty(),
            s@.scan_type == ScanType::TcpSynScan,
            s@.timeout.as_nanos() == 30_000 * 1_000_000,
            s@.wait_time.as_nanos() == 100 * 1_000_000,
            s@.send_rate.as_nanos() == 0,
            !s@.minimize_packet,
            !s@.tunnel,
            !s@.loopback,
    {
        let s = ScanSetting {
            if_index: 0,
            if_name: String::new(),
            src_mac: MacAddr::zero(),
            dst_mac: MacAddr::zero(),
            src_ip: IpAddr::localhost(),
            src_port: DEFAULT_SRC_PORT,
            targets: Vec::new(),
            ip_map: IpMap::new(),
            scan_type: ScanType::TcpSynScan,
            timeout: Duration::from_millis(30_000),
            wait_time: Duration::from_millis(100),
            send_rate: Duration::from_millis(0),
            minimize_packet: false,
            tunnel: false,
            loopback: false,
        };
        assert(s@.targets =~= Seq::<HostTargetView>::empty());
        s
    }
}

} // verus!
