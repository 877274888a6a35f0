//! What holds of every course that a scan can take.

use vstd::prelude::*;
use crate::addr::SocketAddr;
use crate::connect::{
    ConnectCursor, attempted, connect_sockets, cursor_fits, lemma_connect_steps_in_order,
    representable,
};
use crate::session::{
    ScanActionView, ScanEventView, ScanKind, ScanPhase, ScanSessionView, connects, follows,
    is_error_report,
};
use crate::result::ScanStatus;
use crate::setting::{LISTENER_WAIT_TIME_MILLIS, ScanType};
use crate::time::Duration;

verus! {

/// Whether the three sequences are a course of a scan from its
/// beginning: the session starts in the phase `Ready`, and each state
/// and action follow from the state and the event before them.
pub open spec fn is_course(
    states: Seq<ScanSessionView>,
    events: Seq<ScanEventView>,
    actions: Seq<ScanActionView>,
) -> bool {
    &&& states.len() == events.len() + 1
    &&& actions.len() == events.len()
    &&& states[0].phase == ScanPhase::Ready
    &&& forall|i: int|
        0 <= i < events.len() ==> follows(
            #[trigger] states[i],
            events[i],
            states[i + 1],
            actions[i],
        )
}

/// A session never goes back: each step takes it to a later phase, but
/// for the steps from one batch of connections to the next, and for a
/// finished session, which stays finished.
pub proof fn lemma_session_advances(
    before: ScanSessionView,
    event: ScanEventView,
    after: ScanSessionView,
    action: ScanActionView,
)
    requires
        follows(before, event, after, action),
    ensures
        before.phase.rank() <= after.phase.rank(),
        before.phase.rank() == after.phase.rank() ==> before.phase == ScanPhase::Connecting
            || before.phase == ScanPhase::Finished,
        before.phase == ScanPhase::Finished ==> (action matches ScanActionView::Report(result)
            && is_error_report(result)),
{
}

/// The status of a session is `Running` until the scan is over, and
/// then `Done`, `Timeout` or `Error`; it is `Timeout` exactly when the
/// timeout cut the probing off and the captured frames were read.
pub proof fn lemma_status_follows_the_course(
    before: ScanSessionView,
    event: ScanEventView,
    after: ScanSessionView,
    action: ScanActionView,
)
    requires
        follows(before, event, after, action),
    ensures
        after.phase != ScanPhase::Finished ==> after.status == ScanStatus::Running,
        after.phase == ScanPhase::Finished ==> after.status == ScanStatus::Done || after.status
            == ScanStatus::Timeout || after.status == ScanStatus::Error,
        after.status == ScanStatus::Timeout ==> before.timed_out && before.phase
            == ScanPhase::Stopping,
        after.status == ScanStatus::Done ==> !before.timed_out && before.phase
            == ScanPhase::Stopping,
{
}

/// Probes are asked for at one point only: link-layer probes when the
/// pre-roll has passed, connections after the link-layer probes have
/// left, and connections only by a connect scan whose timeout has not
/// passed.
pub proof fn lemma_probes_have_their_place(
    before: ScanSessionView,
    event: ScanEventView,
    after: ScanSessionView,
    action: ScanActionView,
)
    requires
        follows(before, event, after, action),
    ensures
        action is Send ==> before.phase == ScanPhase::PreRoll && event == ScanEventView::Slept,
        action is Connect ==> (before.phase == ScanPhase::Sending || before.phase
            == ScanPhase::Connecting) && before.kind == ScanKind::PortScan
            && before.setting.scan_type == ScanType::TcpConnectScan,
        action is Connect ==> (event matches ScanEventView::Connected(elapsed)
            ==> elapsed.as_nanos() <= before.setting.timeout.as_nanos()),
        action is StopListener ==> before.phase == ScanPhase::PostRoll,
{
}

/// An unknown interface ends the scan at once with an error report.
pub proof fn lemma_missing_interface_ends_the_scan(
    before: ScanSessionView,
    after: ScanSessionView,
    action: ScanActionView,
)
    requires
        before.phase == ScanPhase::FindingInterface,
        follows(before, ScanEventView::InterfaceMissing, after, action),
    ensures
        after.phase == ScanPhase::Finished,
        action matches ScanActionView::Report(result) && is_error_report(result),
{
}

proof fn lemma_course_keeps_step(
    states: Seq<ScanSessionView>,
    events: Seq<ScanEventView>,
    actions: Seq<ScanActionView>,
    i: int,
)
    requires
        is_course(states, events, actions),
        0 <= i <= events.len(),
    ensures
        i <= 5 ==> states[i].phase.rank() == i || states[i].phase == ScanPhase::Finished,
        i > 5 ==> states[i].phase.rank() > 5,
    decreases i,
{
    if i > 0 {
        lemma_course_keeps_step(states, events, actions, i - 1);
        assert(follows(states[i - 1], events[i - 1], states[i], actions[i - 1]));
    }
}

/// In every course of a scan the link-layer probes leave only after the
/// interface was looked for, the channel was opened, the listener was
/// armed and the pre-roll was waited for, in this order.
pub proof fn lemma_probes_leave_after_the_pre_roll(
    states: Seq<ScanSessionView>,
    events: Seq<ScanEventView>,
    actions: Seq<ScanActionView>,
    k: int,
)
    requires
        is_course(states, events, actions),
        0 <= k < actions.len(),
        actions[k] is Send,
    ensures
        k == 4,
        actions[0] is FindInterface,
        actions[1] is OpenChannel,
        actions[2] is ArmListener,
        actions[3] == ScanActionView::Sleep(Duration::from_millis(LISTENER_WAIT_TIME_MILLIS)),
{
    assert(follows(states[k], events[k], states[k + 1], actions[k]));
    lemma_course_keeps_step(states, events, actions, k);
    lemma_course_keeps_step(states, events, actions, 0);
    lemma_course_keeps_step(states, events, actions, 1);
    lemma_course_keeps_step(states, events, actions, 2);
    lemma_course_keeps_step(states, events, actions, 3);
    lemma_course_keeps_step(states, events, actions, 4);
    assert(follows(states[0], events[0], states[1], actions[0]));
    assert(follows(states[1], events[1], states[2], actions[1]));
    assert(follows(states[2], events[2], states[3], actions[2]));
    assert(follows(states[3], events[3], states[4], actions[3]));
}

/// In every course of a scan a report that is no error report comes
/// only after the listener was told to stop.
pub proof fn lemma_report_follows_the_stop(
    states: Seq<ScanSessionView>,
    events: Seq<ScanEventView>,
    actions: Seq<ScanActionView>,
    k: int,
)
    requires
        is_course(states, events, actions),
        0 <= k < actions.len(),
        actions[k] matches ScanActionView::Report(result) && !is_error_report(result),
    ensures
        k > 0,
        actions[k - 1] is StopListener,
        states[k].phase == ScanPhase::Stopping,
{
    assert(follows(states[k], events[k], states[k + 1], actions[k]));
    assert(states[k].phase == ScanPhase::Stopping);
    assert(k > 0);
    assert(follows(states[k - 1], events[k - 1], states[k], actions[k - 1]));
}

/// The connections that an action asks for.
pub open spec fn asked(action: ScanActionView) -> Seq<SocketAddr> {
    match action {
        ScanActionView::Connect(sockets, _) => sockets,
        _ => Seq::empty(),
    }
}

/// The connections that a sequence of actions has asked for, in order.
pub open spec fn connections(actions: Seq<ScanActionView>) -> Seq<SocketAddr>
    decreases actions.len(),
{
    if actions.len() == 0 {
        Seq::empty()
    } else {
        connections(actions.drop_last()) + asked(actions.last())
    }
}

/// Whether the session is as new: no connection handed out, and not
/// cut off.
pub open spec fn is_fresh(session: ScanSessionView) -> bool {
    &&& session.cursor == (ConnectCursor { target: 0, port: 0 })
    &&& !session.timed_out
}

/// What holds of the connection attempts of a session at every point of
/// its course: those handed out are a prefix of all, and a session that
/// was cut off has left the probing behind with some attempts not made.
spec fn attempts_in_order(session: ScanSessionView) -> bool {
    let targets = session.setting.targets;
    &&& cursor_fits(targets, session.cursor)
    &&& 0 <= attempted(targets, session.cursor) <= connect_sockets(targets).len()
    &&& session.timed_out ==> session.phase.rank() >= ScanPhase::PostRoll.rank() && attempted(
        targets,
        session.cursor,
    ) < connect_sockets(targets).len()
}

proof fn lemma_connects_in_order(
    before: ScanSessionView,
    expired: bool,
    after: ScanSessionView,
    action: ScanActionView,
)
    requires
        connects(before, expired, after, action),
        after.setting == before.setting,
        representable(before.setting.targets),
        cursor_fits(before.setting.targets, before.cursor),
        !before.timed_out,
    ensures
        cursor_fits(before.setting.targets, after.cursor),
        attempted(before.setting.targets, before.cursor) <= attempted(
            before.setting.targets,
            after.cursor,
        ) <= connect_sockets(before.setting.targets).len(),
        asked(action) == connect_sockets(before.setting.targets).subrange(
            attempted(before.setting.targets, before.cursor),
            attempted(before.setting.targets, after.cursor),
        ),
        after.timed_out ==> after.phase == ScanPhase::PostRoll && attempted(
            before.setting.targets,
            after.cursor,
        ) < connect_sockets(before.setting.targets).len(),
{
    let targets = before.setting.targets;
    let all = connect_sockets(targets);
    let was = attempted(targets, before.cursor);
    lemma_connect_steps_in_order(targets, before.cursor, expired, before.batch);
    assert(all.subrange(was, was) =~= Seq::<SocketAddr>::empty());
    if before.kind == ScanKind::HostScan || before.setting.scan_type != ScanType::TcpConnectScan {
        assert(after.cursor == before.cursor);
    }
}

proof fn lemma_step_keeps_attempts_in_order(
    before: ScanSessionView,
    event: ScanEventView,
    after: ScanSessionView,
    action: ScanActionView,
)
    requires
        follows(before, event, after, action),
        representable(before.setting.targets),
        attempts_in_order(before),
    ensures
        attempts_in_order(after),
        attempted(before.setting.targets, before.cursor) <= attempted(
            before.setting.targets,
            after.cursor,
        ),
        asked(action) == connect_sockets(before.setting.targets).subrange(
            attempted(before.setting.targets, before.cursor),
            attempted(before.setting.targets, after.cursor),
        ),
{
    let targets = before.setting.targets;
    let all = connect_sockets(targets);
    let was = attempted(targets, before.cursor);
    assert(all.subrange(was, was) =~= Seq::<SocketAddr>::empty());
    if before.phase == ScanPhase::Sending && event == ScanEventView::Sent {
        lemma_connects_in_order(before, false, after, action);
    } else if before.phase == ScanPhase::Connecting && event is Connected {
        let expired = event->Connected_0.as_nanos() > before.setting.timeout.as_nanos();
        lemma_connects_in_order(before, expired, after, action);
    } else {
        assert(after.cursor == before.cursor);
        assert(after.timed_out == before.timed_out);
        assert(!(action is Connect));
    }
}

proof fn lemma_course_connections_upto(
    states: Seq<ScanSessionView>,
    events: Seq<ScanEventView>,
    actions: Seq<ScanActionView>,
    n: int,
)
    requires
        is_course(states, events, actions),
        is_fresh(states[0]),
        representable(states[0].setting.targets),
        0 <= n <= events.len(),
    ensures
        states[n].setting == states[0].setting,
        attempts_in_order(states[n]),
        connections(actions.take(n)) == connect_sockets(states[0].setting.targets).subrange(
            0,
            attempted(states[0].setting.targets, states[n].cursor),
        ),
    decreases n,
{
    let targets = states[0].setting.targets;
    let all = connect_sockets(targets);
    if n == 0 {
        assert(targets.take(0) =~= Seq::<crate::host::HostTargetView>::empty());
        assert(actions.take(0) =~= Seq::<ScanActionView>::empty());
        assert(connections(actions.take(0)) =~= all.subrange(0, 0));
    } else {
        lemma_course_connections_upto(states, events, actions, n - 1);
        let before = states[n - 1];
        let after = states[n];
        assert(follows(before, events[n - 1], after, actions[n - 1]));
        lemma_step_keeps_attempts_in_order(before, events[n - 1], after, actions[n - 1]);
        assert(actions.take(n).drop_last() =~= actions.take(n - 1));
        assert(actions.take(n).last() == actions[n - 1]);
        let was = attempted(targets, before.cursor);
        let is = attempted(targets, after.cursor);
        assert(all.subrange(0, was) + all.subrange(was, is) =~= all.subrange(0, is));
    }
}

/// In every course of a scan the connections asked for are a prefix of
/// all attempts of the scan, in the order of the targets and of their
/// ports. Where the scan reports the status `Timeout`, they are not all:
/// the rest was skipped.
pub proof fn lemma_cut_off_scan_attempts_a_prefix(
    states: Seq<ScanSessionView>,
    events: Seq<ScanEventView>,
    actions: Seq<ScanActionView>,
)
    requires
        is_course(states, events, actions),
        is_fresh(states[0]),
        representable(states[0].setting.targets),
    ensures
        connections(actions).is_prefix_of(connect_sockets(states[0].setting.targets)),
        actions.len() > 0 && (actions.last() matches ScanActionView::Report(result)
            && result.scan_status == ScanStatus::Timeout) ==> connections(actions).len()
            < connect_sockets(states[0].setting.targets).len(),
{
    let targets = states[0].setting.targets;
    let all = connect_sockets(targets);
    let n = events.len() as int;
    lemma_course_connections_upto(states, events, actions, n);
    assert(actions.take(n) =~= actions);
    if n > 0 {
        lemma_course_connections_upto(states, events, actions, n - 1);
        assert(follows(states[n - 1], events[n - 1], states[n], actions[n - 1]));
        lemma_status_follows_the_course(states[n - 1], events[n - 1], states[n], actions[n - 1]);
        lemma_step_keeps_attempts_in_order(
            states[n - 1],
            events[n - 1],
            states[n],
            actions[n - 1],
        );
    }
}

} // verus!
