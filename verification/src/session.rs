//! The course of one scan.
//!
//! A scan alternates between work on the machine and decisions. The
//! decisions are made here: a session is told what has happened and says
//! what to do next. The caller does it and comes back with the outcome.
//!
//! The order is fixed: find the interface, open the channel, arm the
//! listener, wait for it, send the probes of the link layer, attempt the
//! connections, wait for late replies, stop the listener, and read the
//! captured frames. An unknown interface ends the scan with an error
//! before anything is sent.

use vstd::prelude::*;
use crate::addr::SocketAddr;
use crate::capture::{PacketCaptureOptions, PacketCaptureOptionsView};
use crate::connect::{
    ConnectCursor, ConnectStep, ConnectStepView, next_connect_step, scan_connect_step,
};
use crate::correlate::{host_findings, no_findings, port_findings};
use crate::frame::{PacketFrame, PacketFrameView, frame_views};
use crate::probe::{
    Probe, ProbeView, is_ping_plan, is_port_scan_plan, ping_probes, port_scan_probes, probe_views,
};
use crate::result::{ScanResult, ScanResultView, ScanStatus};
use crate::scan::{
    BPF_FD_ATTEMPTS, ChannelConfig, channel_config, final_status, host_scan_capture,
    host_scan_capture_options, host_scan_result, port_scan_capture, port_scan_capture_options,
    port_scan_result,
};
use crate::setting::{
    CHANNEL_BUFFER_SIZE, CONNECT_TIMEOUT_MILLIS, LISTENER_WAIT_TIME_MILLIS, ScanSetting,
    ScanSettingView,
};
use crate::time::Duration;

verus! {

/// What a scan looks for.
#[derive(Clone, Copy, Debug, PartialEq, Eq, Structural)]
pub enum ScanKind {
    /// Which hosts answer.
    HostScan,
    /// Which ports answer, and how.
    PortScan,
}

/// How far a session has come.
#[derive(Clone, Copy, Debug, PartialEq, Eq, Structural)]
pub enum ScanPhase {
    Ready,
    FindingInterface,
    OpeningChannel,
    ArmingListener,
    PreRoll,
    Sending,
    Connecting,
    PostRoll,
    Stopping,
    Finished,
}

impl ScanPhase {
    /// The place of the phase in the course of a scan.
    pub open spec fn rank(self) -> nat {
        match self {
            ScanPhase::Ready => 0,
            ScanPhase::FindingInterface => 1,
            ScanPhase::OpeningChannel => 2,
            ScanPhase::ArmingListener => 3,
            ScanPhase::PreRoll => 4,
            ScanPhase::Sending => 5,
            ScanPhase::Connecting => 6,
            ScanPhase::PostRoll => 7,
            ScanPhase::Stopping => 8,
            ScanPhase::Finished => 9,
        }
    }
}

/// What has happened on the machine.
#[derive(Debug)]
pub enum ScanEvent {
    /// The scan is asked for.
    Begin,
    /// The system knows the interface.
    InterfaceFound,
    /// The system knows no interface with the setting's index.
    InterfaceMissing,
    /// The channel is open.
    ChannelOpen,
    /// The listener runs.
    ListenerArmed,
    /// The time to wait has passed.
    Slept,
    /// The probes have left.
    Sent,
    /// The connections were attempted; the time says how long ago the
    /// probing began.
    Connected(Duration),
    /// The listener has stopped and hands over what it stored.
    Captured(Vec<PacketFrame>),
}

/// What a [`ScanEvent`] holds.
pub ghost enum ScanEventView {
    Begin,
    InterfaceFound,
    InterfaceMissing,
    ChannelOpen,
    ListenerArmed,
    Slept,
    Sent,
    Connected(Duration),
    Captured(Seq<PacketFrameView>),
}

impl View for ScanEvent {
    type V = ScanEventView;

    open spec fn view(&self) -> ScanEventView {
        match self {
            ScanEvent::Begin => ScanEventView::Begin,
            ScanEvent::InterfaceFound => ScanEventView::InterfaceFound,
            ScanEvent::InterfaceMissing => ScanEventView::InterfaceMissing,
            ScanEvent::ChannelOpen => ScanEventView::ChannelOpen,
            ScanEvent::ListenerArmed => ScanEventView::ListenerArmed,
            ScanEvent::Slept => ScanEventView::Slept,
            ScanEvent::Sent => ScanEventView::Sent,
            ScanEvent::Connected(elapsed) => ScanEventView::Connected(*elapsed),
            ScanEvent::Captured(frames) => ScanEventView::Captured(frame_views(frames@)),
        }
    }
}

/// What to do next on the machine.
#[derive(Debug)]
pub enum ScanAction {
    /// Look for the interface with this index.
    FindInterface(u32),
    /// Open the link-layer channel.
    OpenChannel(ChannelConfig),
    /// Start the listener on a thread of its own.
    ArmListener(PacketCaptureOptions),
    /// Wait.
    Sleep(Duration),
    /// Put these frames on the wire in this order, report each target
    /// once its frame has left, and pause after each for the given time,
    /// or not at all where none is given.
    Send(Vec<Probe>, Option<Duration>),
    /// Attempt these connections, each for the given time at most, and
    /// report each once it was attempted.
    Connect(Vec<SocketAddr>, Duration),
    /// Tell the listener to stop and wait for its frames.
    StopListener,
    /// The scan is over; this is its result.
    Report(ScanResult),
}

/// What a [`ScanAction`] holds.
pub ghost enum ScanActionView {
    FindInterface(u32),
    OpenChannel(ChannelConfig),
    ArmListener(PacketCaptureOptionsView),
    Sleep(Duration),
    Send(Seq<ProbeView>, Option<Duration>),
    Connect(Seq<SocketAddr>, Duration),
    StopListener,
    Report(ScanResultView),
}

impl View for ScanAction {
    type V = ScanActionView;

    open spec fn view(&self) -> ScanActionView {
        match self {
            ScanAction::FindInterface(index) => ScanActionView::FindInterface(*index),
            ScanAction::OpenChannel(config) => ScanActionView::OpenChannel(*config),
            ScanAction::ArmListener(options) => ScanActionView::ArmListener(options@),
            ScanAction::Sleep(time) => ScanActionView::Sleep(*time),
            ScanAction::Send(probes, pause) => ScanActionView::Send(probe_views(probes@), *pause),
            ScanAction::Connect(sockets, limit) => ScanActionView::Connect(sockets@, *limit),
            ScanAction::StopListener => ScanActionView::StopListener,
            ScanAction::Report(result) => ScanActionView::Report(result@),
        }
    }
}

/// One scan under way.
#[derive(Debug)]
pub struct ScanSession {
    setting: ScanSetting,
    kind: ScanKind,
    batch: usize,
    phase: ScanPhase,
    status: ScanStatus,
    cursor: ConnectCursor,
    timed_out: bool,
}

/// What a [`ScanSession`] holds.
pub ghost struct ScanSessionView {
    pub setting: ScanSettingView,
    pub kind: ScanKind,
    /// Connections attempted at once, 0 for no bound.
    pub batch: usize,
    pub phase: ScanPhase,
    /// `Ready` before the scan begins, `Running` while it runs, and the
    /// status of its report once it is over.
    pub status: ScanStatus,
    /// How far the connection attempts have come.
    pub cursor: ConnectCursor,
    /// Whether the timeout cut the probing off.
    pub timed_out: bool,
}

impl View for ScanSession {
    type V = ScanSessionView;

    closed spec fn view(&self) -> ScanSessionView {
        ScanSessionView {
            setting: self.setting@,
            kind: self.kind,
            batch: self.batch,
            phase: self.phase,
            status: self.status,
            cursor: self.cursor,
            timed_out: self.timed_out,
        }
    }
}

/// The channel that a scan with this setting opens.
pub open spec fn channel_of(setting: ScanSettingView) -> ChannelConfig {
    ChannelConfig {
        write_buffer_size: CHANNEL_BUFFER_SIZE,
        read_buffer_size: CHANNEL_BUFFER_SIZE,
        read_timeout: Some(setting.wait_time),
        write_timeout: None,
        bpf_fd_attempts: BPF_FD_ATTEMPTS,
        promiscuous: false,
    }
}

/// The pause after each probe: the setting's send rate, or none where
/// that is zero, so that the probes leave back to back.
pub open spec fn pause_of(setting: ScanSettingView) -> Option<Duration> {
    if setting.send_rate.as_nanos() == 0 {
        None
    } else {
        Some(setting.send_rate)
    }
}

/// Whether `result` is what a scan reports that could not begin: the
/// status `Error` and nothing found.
pub open spec fn is_error_report(result: ScanResultView) -> bool {
    &&& result.scan_status == ScanStatus::Error
    &&& result.findings() == no_findings()
    &&& result.scan_time.as_nanos() == 0
}

/// Whether `result` is what the session reports of the frames that its
/// listener stored.
pub open spec fn is_report_of(
    session: ScanSessionView,
    frames: Seq<PacketFrameView>,
    result: ScanResultView,
) -> bool {
    &&& result.scan_status == final_status(session.timed_out)
    &&& result.scan_time.as_nanos() == 0
    &&& result.findings() == match session.kind {
        ScanKind::HostScan => host_findings(
            session.setting.scan_type,
            session.setting.ip_map,
            host_scan_capture(session.setting).stored(frames),
        ),
        ScanKind::PortScan => port_findings(
            session.setting.ip_map,
            port_scan_capture(session.setting).stored(frames),
        ),
    }
}

/// What the session does about connections, `expired` saying whether
/// the timeout has passed: a host scan attempts none; a port scan
/// attempts the next batch, or goes on to wait for late replies when
/// none is left or the timeout has passed.
pub open spec fn connects(
    before: ScanSessionView,
    expired: bool,
    after: ScanSessionView,
    action: ScanActionView,
) -> bool {
    let (step, cursor) = match before.kind {
        ScanKind::HostScan => (ConnectStepView::Finished, before.cursor),
        ScanKind::PortScan => scan_connect_step(
            before.setting,
            before.cursor,
            expired,
            before.batch,
        ),
    };
    &&& after.cursor == cursor
    &&& match step {
        ConnectStepView::Connect(sockets) => {
            &&& after.phase == ScanPhase::Connecting
            &&& after.timed_out == before.timed_out
            &&& action == ScanActionView::Connect(
                sockets,
                Duration::from_millis(CONNECT_TIMEOUT_MILLIS),
            )
        },
        ConnectStepView::TimedOut => {
            &&& after.phase == ScanPhase::PostRoll
            &&& after.timed_out
            &&& action == ScanActionView::Sleep(before.setting.wait_time)
        },
        ConnectStepView::Finished => {
            &&& after.phase == ScanPhase::PostRoll
            &&& after.timed_out == before.timed_out
            &&& action == ScanActionView::Sleep(before.setting.wait_time)
        },
    }
}

/// Whether the session, told of `event`, may go from `before` to `after`
/// and ask for `action`. An event that does not belong to the phase ends
/// the scan with an error report.
pub open spec fn follows(
    before: ScanSessionView,
    event: ScanEventView,
    after: ScanSessionView,
    action: ScanActionView,
) -> bool {
    &&& after.setting == before.setting
    &&& after.kind == before.kind
    &&& after.batch == before.batch
    &&& after.status == match action {
        ScanActionView::Report(result) => result.scan_status,
        _ => ScanStatus::Running,
    }
    &&& match (before.phase, event) {
        (ScanPhase::Ready, ScanEventView::Begin) => {
            &&& after.phase == ScanPhase::FindingInterface
            &&& after.cursor == before.cursor
            &&& after.timed_out == before.timed_out
            &&& action == ScanActionView::FindInterface(before.setting.if_index)
        },
        (ScanPhase::FindingInterface, ScanEventView::InterfaceFound) => {
            &&& after.phase == ScanPhase::OpeningChannel
            &&& after.cursor == before.cursor
            &&& after.timed_out == before.timed_out
            &&& action == ScanActionView::OpenChannel(channel_of(before.setting))
        },
        (ScanPhase::OpeningChannel, ScanEventView::ChannelOpen) => {
            &&& after.phase == ScanPhase::ArmingListener
            &&& after.cursor == before.cursor
            &&& after.timed_out == before.timed_out
            &&& action == ScanActionView::ArmListener(
                match before.kind {
                    ScanKind::HostScan => host_scan_capture(before.setting),
                    ScanKind::PortScan => port_scan_capture(before.setting),
                },
            )
        },
        (ScanPhase::ArmingListener, ScanEventView::ListenerArmed) => {
            &&& after.phase == ScanPhase::PreRoll
            &&& after.cursor == before.cursor
            &&& after.timed_out == before.timed_out
            &&& action == ScanActionView::Sleep(Duration::from_millis(LISTENER_WAIT_TIME_MILLIS))
        },
        (ScanPhase::PreRoll, ScanEventView::Slept) => {
            &&& after.phase == ScanPhase::Sending
            &&& after.cursor == before.cursor
            &&& after.timed_out == before.timed_out
            &&& action matches ScanActionView::Send(probes, pause)
            &&& pause == pause_of(before.setting)
            &&& match before.kind {
                ScanKind::HostScan => is_ping_plan(probes, before.setting),
                ScanKind::PortScan => is_port_scan_plan(probes, before.setting),
            }
        },
        (ScanPhase::Sending, ScanEventView::Sent) => connects(before, false, after, action),
        (ScanPhase::Connecting, ScanEventView::Connected(elapsed)) => connects(
            before,
            elapsed.as_nanos() > before.setting.timeout.as_nanos(),
            after,
            action,
        ),
        (ScanPhase::PostRoll, ScanEventView::Slept) => {
            &&& after.phase == ScanPhase::Stopping
            &&& after.cursor == before.cursor
            &&& after.timed_out == before.timed_out
            &&& action == ScanActionView::StopListener
        },
        (ScanPhase::Stopping, ScanEventView::Captured(frames)) => {
            &&& after.phase == ScanPhase::Finished
            &&& after.cursor == before.cursor
            &&& after.timed_out == before.timed_out
            &&& action matches ScanActionView::Report(result)
            &&& is_report_of(before, frames, result)
        },
        _ => {
            &&& after.phase == ScanPhase::Finished
            &&& after.cursor == before.cursor
            &&& after.timed_out == before.timed_out
            &&& action matches ScanActionView::Report(result)
            &&& is_error_report(result)
        },
    }
}

impl ScanSession {
    /// A session that has not begun. `batch` is the number of
    /// connections that the caller attempts at once, 0 for no bound.
    pub fn new(setting: ScanSetting, kind: ScanKind, batch: usize) -> (session: ScanSession)
        ensures
            session@ == (ScanSessionView {
                setting: setting@,
                kind,
                batch,
                phase: ScanPhase::Ready,
                status: ScanStatus::Ready,
                cursor: ConnectCursor { target: 0, port: 0 },
                timed_out: false,
            }),
    {
        ScanSession {
            setting,
            kind,
            batch,
            phase: ScanPhase::Ready,
            status: ScanStatus::Ready,
            cursor: ConnectCursor::new(),
            timed_out: false,
        }
    }

    /// The status of the scan.
    pub fn status(&self) -> (status: ScanStatus)
        ensures
            status == self@.status,
    {
        self.status
    }

    /// The phase of the session.
    pub fn phase(&self) -> (phase: ScanPhase)
        ensures
            phase == self@.phase,
    {
        self.phase
    }

    /// The setting of the scan.
    pub fn setting(&self) -> (setting: &ScanSetting)
        ensures
            setting@ == self@.setting,
    {
        &self.setting
    }

    /// Whether the timeout has cut the probing off.
    pub fn timed_out(&self) -> (timed_out: bool)
        ensures
            timed_out == self@.timed_out,
    {
        self.timed_out
    }

    fn connect(&mut self, elapsed: &Duration) -> (action: ScanAction)
        requires
            old(self).phase == ScanPhase::Sending || old(self).phase == ScanPhase::Connecting,
        ensures
            final(self)@.setting == old(self)@.setting,
            final(self)@.kind == old(self)@.kind,
            final(self)@.batch == old(self)@.batch,
            final(self)@.status == ScanStatus::Running,
            !(action is Report),
            connects(
                old(self)@,
                elapsed.as_nanos() > old(self)@.setting.timeout.as_nanos(),
                final(self)@,
                action@,
            ),
    {
        self.status = ScanStatus::Running;
        let step = match self.kind {
            ScanKind::HostScan => ConnectStep::Finished,
            ScanKind::PortScan => next_connect_step(
                &self.setting,
                &mut self.cursor,
                elapsed,
                self.batch,
            ),
        };
        match step {
            ConnectStep::Connect(sockets) => {
                self.phase = ScanPhase::Connecting;
                ScanAction::Connect(sockets, Duration::from_millis(CONNECT_TIMEOUT_MILLIS))
            },
            ConnectStep::TimedOut => {
                self.phase = ScanPhase::PostRoll;
                self.timed_out = true;
                ScanAction::Sleep(self.setting.wait_time)
            },
            ConnectStep::Finished => {
                self.phase = ScanPhase::PostRoll;
                ScanAction::Sleep(self.setting.wait_time)
            },
        }
    }

    fn fail(&mut self) -> (action: ScanAction)
        ensures
            final(self)@ == (ScanSessionView {
                phase: ScanPhase::Finished,
                status: ScanStatus::Error,
                ..old(self)@
            }),
            action@ matches ScanActionView::Report(result) && is_error_report(result),
    {
        self.phase = ScanPhase::Finished;
        self.status = ScanStatus::Error;
        ScanAction::Report(ScanResult::error())
    }

    /// Tells the session what has happened and asks what to do next.
    pub fn step(&mut self, event: ScanEvent) -> (action: ScanAction)
        ensures
            follows(old(self)@, event@, final(self)@, action@),
    {
        match (self.phase, event) {
            (ScanPhase::Ready, ScanEvent::Begin) => {
                self.phase = ScanPhase::FindingInterface;
                self.status = ScanStatus::Running;
                ScanAction::FindInterface(self.setting.if_index)
            },
            (ScanPhase::FindingInterface, ScanEvent::InterfaceFound) => {
                self.phase = ScanPhase::OpeningChannel;
                self.status = ScanStatus::Running;
                ScanAction::OpenChannel(channel_config(&self.setting))
            },
            (ScanPhase::OpeningChannel, ScanEvent::ChannelOpen) => {
                self.phase = ScanPhase::ArmingListener;
                self.status = ScanStatus::Running;
                ScanAction::ArmListener(
                    match self.kind {
                        ScanKind::HostScan => host_scan_capture_options(&self.setting),
                        ScanKind::PortScan => port_scan_capture_options(&self.setting),
                    },
                )
            },
            (ScanPhase::ArmingListener, ScanEvent::ListenerArmed) => {
                self.phase = ScanPhase::PreRoll;
                self.status = ScanStatus::Running;
                ScanAction::Sleep(Duration::from_millis(LISTENER_WAIT_TIME_MILLIS))
            },
            (ScanPhase::PreRoll, ScanEvent::Slept) => {
                self.phase = ScanPhase::Sending;
                self.status = ScanStatus::Running;
                let pause = if self.setting.send_rate.is_zero() {
                    None
                } else {
                    Some(self.setting.send_rate)
                };
                ScanAction::Send(
                    match self.kind {
                        ScanKind::HostScan => ping_probes(&self.setting),
                        ScanKind::PortScan => port_scan_probes(&self.setting),
                    },
                    pause,
                )
            },
            (ScanPhase::Sending, ScanEvent::Sent) => {
                let none = Duration::from_millis(0);
                self.connect(&none)
            },
            (ScanPhase::Connecting, ScanEvent::Connected(elapsed)) => self.connect(&elapsed),
            (ScanPhase::PostRoll, ScanEvent::Slept) => {
                self.phase = ScanPhase::Stopping;
                self.status = ScanStatus::Running;
                ScanAction::StopListener
            },
            (ScanPhase::Stopping, ScanEvent::Captured(frames)) => {
                self.phase = ScanPhase::Finished;
                let result = match self.kind {
                    ScanKind::HostScan => host_scan_result(&self.setting, &frames, self.timed_out),
                    ScanKind::PortScan => port_scan_result(&self.setting, &frames, self.timed_out),
                };
                self.status = result.scan_status;
                ScanAction::Report(result)
            },
            _ => self.fail(),
        }
    }
}

} // verus!
