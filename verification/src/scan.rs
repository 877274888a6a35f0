//! One scan from setting to result.
//!
//! A scan has three parts that this module decides: what the listener is
//! to keep, how the link-layer channel is opened, and what the captured
//! frames say once the listener has stopped. Between them the caller
//! opens the channel, arms the listener, waits for
//! [`LISTENER_WAIT_TIME_MILLIS`](crate::setting::LISTENER_WAIT_TIME_MILLIS),
//! sends the probes, waits for the setting's wait time and stops the
//! listener.

use std::collections::HashSet;
use vstd::prelude::*;
use crate::addr::IpAddr;
use crate::capture::{IpSet, PacketCaptureOptions, PacketCaptureOptionsView};
use crate::correlate::{
    correlate_host_scan, correlate_port_scan, host_findings, no_findings, port_findings,
};
use crate::correlate_laws::{
    distinct_ips, lemma_host_scan_no_host_twice, listed_once, only_observed_verdicts,
};
use crate::scan_laws::{
    lemma_host_scan_finds_targets, lemma_no_targets_nothing_found,
    lemma_port_scan_finds_target_ports, only_target_ports, only_targets,
};
use crate::frame::{IpProtocol, PacketFrame, frame_views};
use crate::host::{HostTarget, HostTargetView, target_views};
use crate::result::{ScanResult, ScanStatus};
use crate::setting::{CHANNEL_BUFFER_SIZE, ScanSetting, ScanSettingView, ScanType};
use crate::time::Duration;

verus! {

broadcast use vstd::std_specs::hash::group_hash_axioms;

/// Attempts to find a free packet filter device before giving up.
pub const BPF_FD_ATTEMPTS: usize = 1000;

/// How the link-layer channel of a scan is opened.
#[derive(Clone, Copy, Debug, PartialEq, Eq)]
pub struct ChannelConfig {
    pub write_buffer_size: usize,
    pub read_buffer_size: usize,
    pub read_timeout: Option<Duration>,
    pub write_timeout: Option<Duration>,
    pub bpf_fd_attempts: usize,
    pub promiscuous: bool,
}

/// The channel of a scan: buffers of 4096 bytes each way, reads that
/// block for the wait time at most, writes that block without limit, not
/// promiscuous.
pub fn channel_config(setting: &ScanSetting) -> (config: ChannelConfig)
    ensures
        config == (ChannelConfig {
            write_buffer_size: CHANNEL_BUFFER_SIZE,
            read_buffer_size: CHANNEL_BUFFER_SIZE,
            read_timeout: Some(setting@.wait_time),
            write_timeout: None,
            bpf_fd_attempts: BPF_FD_ATTEMPTS,
            promiscuous: false,
        }),
{
    ChannelConfig {
        write_buffer_size: CHANNEL_BUFFER_SIZE,
        read_buffer_size: CHANNEL_BUFFER_SIZE,
        read_timeout: Some(setting.wait_time),
        write_timeout: None,
        bpf_fd_attempts: BPF_FD_ATTEMPTS,
        promiscuous: false,
    }
}

/// The addresses of the targets.
pub open spec fn target_ips(targets: Seq<HostTargetView>) -> Set<IpAddr> {
    Set::new(
        |ip: IpAddr| exists|i: int| 0 <= i < targets.len() && (#[trigger] targets[i]).ip_addr == ip,
    )
}

/// The ports of the targets, of all of them together.
pub open spec fn target_ports(targets: Seq<HostTargetView>) -> Set<u16> {
    Set::new(
        |port: u16|
            exists|i: int, j: int|
                0 <= i < targets.len() && 0 <= j < targets[i].ports.len()
                    && #[trigger] targets[i].ports[j] == port,
    )
}

/// The protocols that replies to a port scan carry.
pub open spec fn port_scan_protocols(scan_type: ScanType) -> Set<IpProtocol> {
    match scan_type {
        ScanType::TcpSynScan | ScanType::TcpConnectScan => set![IpProtocol::Tcp],
        _ => Set::empty(),
    }
}

/// The protocols that replies to a host scan carry.
pub open spec fn host_scan_protocols(scan_type: ScanType) -> Set<IpProtocol> {
    match scan_type {
        ScanType::IcmpPingScan => set![IpProtocol::Icmp, IpProtocol::Icmpv6],
        ScanType::TcpPingScan => set![IpProtocol::Tcp],
        ScanType::UdpPingScan => set![IpProtocol::Udp, IpProtocol::Icmp, IpProtocol::Icmpv6],
        _ => Set::empty(),
    }
}

/// What the listener of a scan is told, but for the addresses, ports and
/// protocols: it captures on the setting's interface for the timeout at
/// most, each read blocks for the wait time at most, and every frame it
/// keeps is stored.
pub open spec fn capture_of(
    setting: ScanSettingView,
    src_ports: Set<u16>,
    filter_src_ports: bool,
    ip_protocols: Set<IpProtocol>,
) -> PacketCaptureOptionsView {
    PacketCaptureOptionsView {
        interface_index: setting.if_index,
        interface_name: setting.if_name,
        src_ips: target_ips(setting.targets),
        src_ports,
        filter_src_ports,
        ip_protocols,
        duration: setting.timeout,
        read_timeout: setting.wait_time,
        promiscuous: false,
        store: true,
        store_limit: u32::MAX,
        receive_undefined: false,
        tunnel: setting.tunnel,
        loopback: setting.loopback,
    }
}

/// What the listener of a port scan is told to keep: TCP frames from a
/// target's address and from a port of some target.
pub open spec fn port_scan_capture(setting: ScanSettingView) -> PacketCaptureOptionsView {
    capture_of(
        setting,
        target_ports(setting.targets),
        true,
        port_scan_protocols(setting.scan_type),
    )
}

/// What the listener of a host scan is told to keep: frames from a
/// target's address that carry a protocol of the scan's kind, from any
/// port.
pub open spec fn host_scan_capture(setting: ScanSettingView) -> PacketCaptureOptionsView {
    capture_of(setting, Set::empty(), false, host_scan_protocols(setting.scan_type))
}

proof fn lemma_target_ips_step(targets: Seq<HostTargetView>)
    requires
        targets.len() > 0,
    ensures
        target_ips(targets) == target_ips(targets.drop_last()).insert(targets.last().ip_addr),
{
    let shorter = targets.drop_last();
    let grown = target_ips(shorter).insert(targets.last().ip_addr);
    assert forall|ip: IpAddr| target_ips(targets).contains(ip) implies grown.contains(ip) by {
        let i = choose|i: int| 0 <= i < targets.len() && (#[trigger] targets[i]).ip_addr == ip;
        if i < shorter.len() {
            assert(shorter[i].ip_addr == ip);
        }
    }
    assert forall|ip: IpAddr| grown.contains(ip) implies target_ips(targets).contains(ip) by {
        if ip == targets.last().ip_addr {
            assert(targets[targets.len() - 1].ip_addr == ip);
        } else {
            let i = choose|i: int| 0 <= i < shorter.len() && (#[trigger] shorter[i]).ip_addr == ip;
            assert(targets[i].ip_addr == ip);
        }
    }
    assert(target_ips(targets) =~= grown);
}

proof fn lemma_target_ports_step(targets: Seq<HostTargetView>)
    requires
        targets.len() > 0,
    ensures
        target_ports(targets) == target_ports(targets.drop_last()) + targets.last().ports.to_set(),
{
    let shorter = targets.drop_last();
    let last = targets.len() - 1;
    let grown = target_ports(shorter) + targets.last().ports.to_set();
    assert forall|port: u16| target_ports(targets).contains(port) implies grown.contains(port) by {
        let (i, j) = choose|i: int, j: int|
            0 <= i < targets.len() && 0 <= j < targets[i].ports.len()
                && #[trigger] targets[i].ports[j] == port;
        if i < shorter.len() {
            assert(shorter[i].ports[j] == port);
        } else {
            assert(targets.last().ports[j] == port);
        }
    }
    assert forall|port: u16| grown.contains(port) implies target_ports(targets).contains(port) by {
        if target_ports(shorter).contains(port) {
            let (i, j) = choose|i: int, j: int|
                0 <= i < shorter.len() && 0 <= j < shorter[i].ports.len()
                    && #[trigger] shorter[i].ports[j] == port;
            assert(targets[i].ports[j] == port);
        } else {
            let j = choose|j: int|
                0 <= j < targets.last().ports.len() && targets.last().ports[j] == port;
            assert(targets[last].ports[j] == port);
        }
    }
    assert(target_ports(targets) =~= grown);
}

/// The addresses of the targets, as a set.
pub fn collect_target_ips(targets: &Vec<HostTarget>) -> (ips: IpSet)
    ensures
        ips@ == target_ips(target_views(targets@)),
{
    let mut ips = IpSet::new();
    let ghost views = target_views(targets@);
    let mut t: usize = 0;
    assert(target_ips(views.take(0)) =~= Set::<IpAddr>::empty());
    while t < targets.len()
        invariant
            t <= targets.len(),
            views == target_views(targets@),
            ips@ == target_ips(views.take(t as int)),
        decreases targets.len() - t,
    {
        ips.insert(targets[t].ip_addr);
        proof {
            assert(views.take(t + 1).drop_last() =~= views.take(t as int));
            lemma_target_ips_step(views.take(t + 1));
        }
        t += 1;
    }
    assert(views.take(targets.len() as int) =~= views);
    ips
}

/// The ports of the targets, as a set.
pub fn collect_target_ports(targets: &Vec<HostTarget>) -> (ports: HashSet<u16>)
    ensures
        ports@ == target_ports(target_views(targets@)),
{
    let mut ports: HashSet<u16> = HashSet::new();
    let ghost views = target_views(targets@);
    let mut t: usize = 0;
    assert(target_ports(views.take(0)) =~= Set::<u16>::empty());
    while t < targets.len()
        invariant
            t <= targets.len(),
            views == target_views(targets@),
            ports@ == target_ports(views.take(t as int)),
        decreases targets.len() - t,
    {
        let target = &targets[t];
        let ghost before = ports@;
        let mut j: usize = 0;
        assert(before + target.ports@.take(0).to_set() =~= before);
        while j < target.ports.len()
            invariant
                j <= target.ports.len(),
                ports@ == before + target.ports@.take(j as int).to_set(),
            decreases target.ports.len() - j,
        {
            ports.insert(target.ports[j]);
            proof {
                let port = target.ports@[j as int];
                let earlier = target.ports@.take(j as int);
                let later = target.ports@.take(j + 1);
                assert(later =~= earlier.push(port));
                assert forall|p: u16| later.to_set().contains(p) <==> earlier.to_set().insert(
                    port,
                ).contains(p) by {
                    if later.contains(p) {
                        let k = choose|k: int| 0 <= k < later.len() && later[k] == p;
                        if k < j {
                            assert(earlier[k] == p);
                        }
                    }
                    if earlier.contains(p) {
                        let k = choose|k: int| 0 <= k < earlier.len() && earlier[k] == p;
                        assert(later[k] == p);
                    }
                    if p == port {
                        assert(later[j as int] == p);
                    }
                }
                assert(later.to_set() =~= earlier.to_set().insert(port));
                assert(ports@ =~= before + later.to_set());
            }
            j += 1;
        }
        proof {
            assert(target.ports@.take(target.ports.len() as int) =~= target.ports@);
            assert(views.take(t + 1).drop_last() =~= views.take(t as int));
            assert(views.take(t + 1).last().ports == target.ports@);
            lemma_target_ports_step(views.take(t + 1));
        }
        t += 1;
    }
    assert(views.take(targets.len() as int) =~= views);
    ports
}

fn listener_options(
    setting: &ScanSetting,
    src_ports: HashSet<u16>,
    filter_src_ports: bool,
    ip_protocols: Vec<IpProtocol>,
) -> (options: PacketCaptureOptions)
    ensures
        options@ == capture_of(setting@, src_ports@, filter_src_ports, ip_protocols@.to_set()),
{
    PacketCaptureOptions {
        interface_index: setting.if_index,
        interface_name: setting.if_name.clone(),
        src_ips: collect_target_ips(&setting.targets),
        src_ports,
        filter_src_ports,
        ip_protocols,
        duration: setting.timeout,
        read_timeout: setting.wait_time,
        promiscuous: false,
        store: true,
        store_limit: u32::MAX,
        receive_undefined: false,
        tunnel: setting.tunnel,
        loopback: setting.loopback,
    }
}

/// What the listener of a port scan is told.
pub fn port_scan_capture_options(setting: &ScanSetting) -> (options: PacketCaptureOptions)
    ensures
        options@ == port_scan_capture(setting@),
{
    let mut protocols: Vec<IpProtocol> = Vec::new();
    match setting.scan_type {
        ScanType::TcpSynScan | ScanType::TcpConnectScan => {
            protocols.push(IpProtocol::Tcp);
            assert(protocols@ =~= seq![IpProtocol::Tcp]);
            assert(protocols@[0] == IpProtocol::Tcp);
        },
        _ => {},
    }
    assert(protocols@.to_set() =~= port_scan_protocols(setting@.scan_type));
    listener_options(setting, collect_target_ports(&setting.targets), true, protocols)
}

/// What the listener of a host scan is told.
pub fn host_scan_capture_options(setting: &ScanSetting) -> (options: PacketCaptureOptions)
    ensures
        options@ == host_scan_capture(setting@),
{
    let mut protocols: Vec<IpProtocol> = Vec::new();
    match setting.scan_type {
        ScanType::IcmpPingScan => {
            protocols.push(IpProtocol::Icmp);
            protocols.push(IpProtocol::Icmpv6);
            assert(protocols@[0] == IpProtocol::Icmp);
            assert(protocols@[1] == IpProtocol::Icmpv6);
        },
        ScanType::TcpPingScan => {
            protocols.push(IpProtocol::Tcp);
            assert(protocols@[0] == IpProtocol::Tcp);
        },
        ScanType::UdpPingScan => {
            protocols.push(IpProtocol::Udp);
            protocols.push(IpProtocol::Icmp);
            protocols.push(IpProtocol::Icmpv6);
            assert(protocols@[0] == IpProtocol::Udp);
            assert(protocols@[1] == IpProtocol::Icmp);
            assert(protocols@[2] == IpProtocol::Icmpv6);
        },
        _ => {},
    }
    assert(protocols@.to_set() =~= host_scan_protocols(setting@.scan_type));
    listener_options(setting, HashSet::new(), false, protocols)
}

/// The status of a scan that ran to its end, or was cut off by its
/// timeout.
pub open spec fn final_status(timed_out: bool) -> ScanStatus {
    if timed_out {
        ScanStatus::Timeout
    } else {
        ScanStatus::Done
    }
}

/// The result of a port scan during which `frames` arrived, in this
/// order: the frames that the listener keeps are read for verdicts. The
/// status says whether the probing was cut off by the timeout; the scan
/// time is left at zero for the caller to fill in. No two hosts of the
/// result share an address, no host and port stand in it twice, and
/// every port in it is a port of some target.
pub fn port_scan_result(setting: &ScanSetting, frames: &Vec<PacketFrame>, timed_out: bool) -> (result:
    ScanResult)
    ensures
        result@.findings() == port_findings(
            setting@.ip_map,
            port_scan_capture(setting@).stored(frame_views(frames@)),
        ),
        result@.scan_status == final_status(timed_out),
        result@.scan_time.as_nanos() == 0,
        distinct_ips(result@.hosts),
        listed_once(result@.hosts),
        only_observed_verdicts(result@.hosts),
        only_target_ports(result@.hosts, setting@.targets),
        setting@.targets.len() == 0 ==> result@.findings() == no_findings(),
{
    proof {
        lemma_port_scan_finds_target_ports(setting@, frame_views(frames@));
        if setting@.targets.len() == 0 {
            lemma_no_targets_nothing_found(setting@, frame_views(frames@));
        }
    }
    let options = port_scan_capture_options(setting);
    let kept = options.store_frames(frames);
    let mut result = correlate_port_scan(&setting.ip_map, &kept);
    if timed_out {
        result.scan_status = ScanStatus::Timeout;
    }
    result
}

/// The result of a host scan during which `frames` arrived, in this
/// order: the frames that the listener keeps are read for hosts. The
/// status says whether the probing was cut off by the timeout; the scan
/// time is left at zero for the caller to fill in. No host stands in the
/// result twice, and every host in it is a target.
pub fn host_scan_result(setting: &ScanSetting, frames: &Vec<PacketFrame>, timed_out: bool) -> (result:
    ScanResult)
    ensures
        result@.findings() == host_findings(
            setting@.scan_type,
            setting@.ip_map,
            host_scan_capture(setting@).stored(frame_views(frames@)),
        ),
        result@.scan_status == final_status(timed_out),
        result@.scan_time.as_nanos() == 0,
        result@.hosts.no_duplicates(),
        only_targets(result@.hosts, setting@.targets),
        setting@.targets.len() == 0 ==> result@.findings() == no_findings(),
{
    proof {
        if setting@.targets.len() == 0 {
            lemma_no_targets_nothing_found(setting@, frame_views(frames@));
        }
        lemma_host_scan_finds_targets(setting@, frame_views(frames@));
        lemma_host_scan_no_host_twice(
            setting@.scan_type,
            setting@.ip_map,
            host_scan_capture(setting@).stored(frame_views(frames@)),
        );
    }
    let options = host_scan_capture_options(setting);
    let kept = options.store_frames(frames);
    let mut result = correlate_host_scan(setting.scan_type, &setting.ip_map, &kept);
    if timed_out {
        result.scan_status = ScanStatus::Timeout;
    }
    result
}

} // verus!
