//! What a scan found.

use vstd::prelude::*;
use crate::frame::{PacketFrame, PacketFrameView, frame_views};
use crate::host::{HostInfo, HostInfoView, host_views};
use crate::time::Duration;

verus! {

/// How far a scan has come.
#[derive(Clone, Copy, Debug, PartialEq, Eq, Structural)]
pub enum ScanStatus {
    Ready,
    Running,
    Done,
    Timeout,
    Error,
}

/// The outcome of one scan.
#[derive(Clone, Debug)]
pub struct ScanResult {
    pub scan_status: ScanStatus,
    /// The hosts that answered, in order of their first reply.
    pub hosts: Vec<HostInfo>,
    /// The frames that verdicts were read from, in order of arrival.
    pub fingerprints: Vec<PacketFrame>,
    pub scan_time: Duration,
}

/// What a [`ScanResult`] holds.
pub ghost struct ScanResultView {
    pub scan_status: ScanStatus,
    pub hosts: Seq<HostInfoView>,
    pub fingerprints: Seq<PacketFrameView>,
    pub scan_time: Duration,
}

impl View for ScanResult {
    type V = ScanResultView;

    open spec fn view(&self) -> ScanResultView {
        ScanResultView {
            scan_status: self.scan_status,
            hosts: host_views(self.hosts@),
            fingerprints: frame_views(self.fingerprints@),
            scan_time: self.scan_time,
        }
    }
}

impl ScanResult {
    /// An empty result with status `Ready`.
    pub fn new() -> (r: ScanResult)
        ensures
            r@.scan_status == ScanStatus::Ready,
            r@.hosts == Seq::<HostInfoView>::empty(),
            r@.fingerprints == Seq::<PacketFrameView>::empty(),
            r@.scan_time.as_nanos() == 0,
    {
        let r = ScanResult {
            scan_status: ScanStatus::Ready,
            hosts: Vec::new(),
            fingerprints: Vec::new(),
            scan_time: Duration::from_millis(0),
        };
        assert(r@.hosts =~= Seq::<HostInfoView>::empty());
        assert(r@.fingerprints =~= Seq::<PacketFrameView>::empty());
        r
    }

    /// An empty result with status `Error`: what a scan returns when it
    /// could not start.
    pub fn error() -> (r: ScanResult)
        ensures
            r@.scan_status == ScanStatus::Error,
            r@.hosts == Seq::<HostInfoView>::empty(),
            r@.fingerprints == Seq::<PacketFrameView>::empty(),
            r@.scan_time.as_nanos() == 0,
    {
        let mut r = ScanResult::new();
        r.scan_status = ScanStatus::Error;
        r
    }
}

} // verus!
