//! What holds of the result of every scan.

use vstd::prelude::*;
use crate::addr::SocketAddr;
use crate::capture::PacketCaptureOptionsView;
use crate::correlate::{host_findings, host_reply, no_findings, port_findings, port_reply};
use crate::correlate_laws::{
    lemma_host_scan_hosts_read_from_frames, lemma_port_scan_entries_read_from_frames, reply_is,
};
use crate::frame::PacketFrameView;
use crate::host::{HostInfoView, HostTargetView};
use crate::scan::{host_scan_capture, port_scan_capture, target_ips, target_ports};
use crate::setting::ScanSettingView;

verus! {

/// Every stored frame is one that the listener keeps.
pub proof fn lemma_stored_frames_are_kept(
    options: PacketCaptureOptionsView,
    frames: Seq<PacketFrameView>,
)
    ensures
        forall|k: int|
            0 <= k < options.stored(frames).len() ==> options.keeps(
                #[trigger] options.stored(frames)[k],
            ),
        options.stored(frames).len() <= options.store_limit,
        options.stored(frames).len() <= frames.len(),
    decreases frames.len(),
{
    if frames.len() > 0 {
        lemma_stored_frames_are_kept(options, frames.drop_last());
    }
}

/// Whether every host is a target, and every port entry is for a port
/// from some target's port list.
pub open spec fn only_target_ports(hosts: Seq<HostInfoView>, targets: Seq<HostTargetView>) -> bool {
    forall|i: int, j: int|
        #![trigger hosts[i].ports[j]]
        0 <= i < hosts.len() && 0 <= j < hosts[i].ports.len() ==> target_ips(targets).contains(
            hosts[i].ip_addr,
        ) && target_ports(targets).contains(hosts[i].ports[j].port)
}

/// Whether every host is a target.
pub open spec fn only_targets(hosts: Seq<HostInfoView>, targets: Seq<HostTargetView>) -> bool {
    forall|i: int|
        0 <= i < hosts.len() ==> target_ips(targets).contains((#[trigger] hosts[i]).ip_addr)
}

/// In the result of a port scan every host is a target, and every port
/// entry is for a port from some target's port list.
pub proof fn lemma_port_scan_finds_target_ports(
    setting: ScanSettingView,
    frames: Seq<PacketFrameView>,
)
    ensures
        only_target_ports(
            port_findings(setting.ip_map, port_scan_capture(setting).stored(frames)).hosts,
            setting.targets,
        ),
{
    let options = port_scan_capture(setting);
    let kept = options.stored(frames);
    let hosts = port_findings(setting.ip_map, kept).hosts;
    lemma_stored_frames_are_kept(options, frames);
    lemma_port_scan_entries_read_from_frames(setting.ip_map, kept);
    assert forall|i: int, j: int|
        0 <= i < hosts.len() && 0 <= j < hosts[i].ports.len() implies target_ips(
        setting.targets,
    ).contains(hosts[i].ip_addr) && target_ports(setting.targets).contains(
        (#[trigger] hosts[i].ports[j]).port,
    ) by {
        let k = choose|k: int|
            0 <= k < kept.len() && reply_is(#[trigger] kept[k], hosts[i].ip_addr, hosts[i].ports[j]);
        assert(options.keeps(kept[k]));
        assert(port_reply(kept[k]) is Some);
    }
}

/// In the result of a host scan every host is a target.
pub proof fn lemma_host_scan_finds_targets(setting: ScanSettingView, frames: Seq<PacketFrameView>)
    ensures
        only_targets(
            host_findings(
                setting.scan_type,
                setting.ip_map,
                host_scan_capture(setting).stored(frames),
            ).hosts,
            setting.targets,
        ),
{
    let options = host_scan_capture(setting);
    let kept = options.stored(frames);
    let hosts = host_findings(setting.scan_type, setting.ip_map, kept).hosts;
    lemma_stored_frames_are_kept(options, frames);
    lemma_host_scan_hosts_read_from_frames(setting.scan_type, setting.ip_map, kept);
    assert forall|i: int| 0 <= i < hosts.len() implies target_ips(setting.targets).contains(
        (#[trigger] hosts[i]).ip_addr,
    ) by {
        let k = choose|k: int|
            0 <= k < kept.len() && host_reply(setting.scan_type, setting.ip_map, #[trigger] kept[k])
                == Some(hosts[i]);
        assert(options.keeps(kept[k]));
    }
}

/// A scan without targets finds nothing, whatever arrives.
pub proof fn lemma_no_targets_nothing_found(setting: ScanSettingView, frames: Seq<PacketFrameView>)
    requires
        setting.targets.len() == 0,
    ensures
        port_scan_capture(setting).stored(frames) == Seq::<PacketFrameView>::empty(),
        host_scan_capture(setting).stored(frames) == Seq::<PacketFrameView>::empty(),
        port_findings(setting.ip_map, port_scan_capture(setting).stored(frames)) == no_findings(),
        host_findings(
            setting.scan_type,
            setting.ip_map,
            host_scan_capture(setting).stored(frames),
        ) == no_findings(),
{
    let port_kept = port_scan_capture(setting).stored(frames);
    let host_kept = host_scan_capture(setting).stored(frames);
    lemma_stored_frames_are_kept(port_scan_capture(setting), frames);
    lemma_stored_frames_are_kept(host_scan_capture(setting), frames);
    if port_kept.len() > 0 {
        assert(port_scan_capture(setting).keeps(port_kept[0]));
    }
    if host_kept.len() > 0 {
        assert(host_scan_capture(setting).keeps(host_kept[0]));
    }
    assert(port_kept =~= Seq::<PacketFrameView>::empty());
    assert(host_kept =~= Seq::<PacketFrameView>::empty());
}

/// Every stored frame is one of the frames that arrived.
pub proof fn lemma_stored_frames_arrived(
    options: PacketCaptureOptionsView,
    frames: Seq<PacketFrameView>,
)
    ensures
        forall|k: int|
            0 <= k < options.stored(frames).len() ==> frames.contains(
                #[trigger] options.stored(frames)[k],
            ),
    decreases frames.len(),
{
    if frames.len() > 0 {
        let shorter = frames.drop_last();
        lemma_stored_frames_arrived(options, shorter);
        let kept = options.stored(frames);
        assert forall|k: int| 0 <= k < kept.len() implies frames.contains(#[trigger] kept[k]) by {
            if k < options.stored(shorter).len() {
                let m = choose|m: int|
                    0 <= m < shorter.len() && shorter[m] == options.stored(shorter)[k];
                assert(frames[m] == kept[k]);
            } else {
                assert(frames[frames.len() - 1] == kept[k]);
            }
        }
    }
}

/// Whether every reply among the frames comes from one of `sockets`.
pub open spec fn replies_come_from(frames: Seq<PacketFrameView>, sockets: Seq<SocketAddr>) -> bool {
    forall|k: int|
        0 <= k < frames.len() ==> (port_reply(#[trigger] frames[k]) matches Some(reply)
            ==> sockets.contains(SocketAddr { ip: reply.ip_addr, port: reply.port.port }))
}

/// Whether every port entry stands for one of `sockets`.
pub open spec fn only_sockets(hosts: Seq<HostInfoView>, sockets: Seq<SocketAddr>) -> bool {
    forall|i: int, j: int|
        #![trigger hosts[i].ports[j]]
        0 <= i < hosts.len() && 0 <= j < hosts[i].ports.len() ==> sockets.contains(
            SocketAddr { ip: hosts[i].ip_addr, port: hosts[i].ports[j].port },
        )
}

/// The result of a port scan lists only sockets that a reply came from.
/// So where replies come from attempted sockets only, as they do when
/// nothing else on the network answers, the result of a connect scan
/// that was cut off lists only ports of the attempted prefix.
pub proof fn lemma_port_scan_lists_only_answering_sockets(
    setting: ScanSettingView,
    frames: Seq<PacketFrameView>,
    sockets: Seq<SocketAddr>,
)
    requires
        replies_come_from(frames, sockets),
    ensures
        only_sockets(
            port_findings(setting.ip_map, port_scan_capture(setting).stored(frames)).hosts,
            sockets,
        ),
{
    let options = port_scan_capture(setting);
    let kept = options.stored(frames);
    let hosts = port_findings(setting.ip_map, kept).hosts;
    lemma_stored_frames_arrived(options, frames);
    lemma_port_scan_entries_read_from_frames(setting.ip_map, kept);
    assert forall|i: int, j: int|
        0 <= i < hosts.len() && 0 <= j < hosts[i].ports.len() implies sockets.contains(
        SocketAddr { ip: hosts[i].ip_addr, port: (#[trigger] hosts[i].ports[j]).port },
    ) by {
        let k = choose|k: int|
            0 <= k < kept.len() && reply_is(#[trigger] kept[k], hosts[i].ip_addr, hosts[i].ports[j]);
        assert(frames.contains(kept[k]));
        let m = choose|m: int| 0 <= m < frames.len() && frames[m] == kept[k];
        assert(port_reply(frames[m]) is Some);
    }
}

} // verus!
