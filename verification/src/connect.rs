//! The steps of a connect scan.
//!
//! A connect scan probes through the operating system: the caller opens
//! one connection per target and port, each with a timeout of
//! [`CONNECT_TIMEOUT_MILLIS`](crate::setting::CONNECT_TIMEOUT_MILLIS),
//! and reports each attempt. This module hands out the attempts batch by
//! batch, in the order of the targets and of their ports, and stops once
//! the scan's timeout has passed.

use vstd::prelude::*;
use crate::addr::SocketAddr;
use crate::host::HostTargetView;
use crate::setting::{ScanSetting, ScanSettingView, ScanType};
use crate::time::Duration;

verus! {

/// How far a connect scan has come: the target at work, and the number
/// of its ports that were handed out.
#[derive(Clone, Copy, Debug, PartialEq, Eq, Structural)]
pub struct ConnectCursor {
    pub target: usize,
    pub port: usize,
}

/// What a connect scan does next.
#[derive(Clone, Debug, PartialEq, Eq)]
pub enum ConnectStep {
    /// Attempt these connections, in parallel if wanted.
    Connect(Vec<SocketAddr>),
    /// The timeout has passed; the ports that are left are skipped.
    TimedOut,
    /// Every port of every target was handed out.
    Finished,
}

/// What a [`ConnectStep`] holds.
pub ghost enum ConnectStepView {
    Connect(Seq<SocketAddr>),
    TimedOut,
    Finished,
}

impl View for ConnectStep {
    type V = ConnectStepView;

    open spec fn view(&self) -> ConnectStepView {
        match self {
            ConnectStep::Connect(sockets) => ConnectStepView::Connect(sockets@),
            ConnectStep::TimedOut => ConnectStepView::TimedOut,
            ConnectStep::Finished => ConnectStepView::Finished,
        }
    }
}

/// The sockets of one target, in the order of its ports.
pub open spec fn sockets_of(target: HostTargetView) -> Seq<SocketAddr> {
    Seq::new(target.ports.len(), |i: int| SocketAddr { ip: target.ip_addr, port: target.ports[i] })
}

/// The sockets of a connect scan, in the order of the attempts.
pub open spec fn connect_sockets(targets: Seq<HostTargetView>) -> Seq<SocketAddr>
    decreases targets.len(),
{
    if targets.len() == 0 {
        Seq::empty()
    } else {
        connect_sockets(targets.drop_last()) + sockets_of(targets.last())
    }
}

/// The cursor moved past every target that has no port left.
pub open spec fn skip_done(targets: Seq<HostTargetView>, cursor: ConnectCursor) -> ConnectCursor
    decreases targets.len() - cursor.target,
{
    if cursor.target < targets.len() && cursor.target < usize::MAX && cursor.port
        >= targets[cursor.target as int].ports.len() {
        skip_done(targets, ConnectCursor { target: (cursor.target + 1) as usize, port: 0 })
    } else {
        cursor
    }
}

/// The number of ports handed out with the next batch: all that are left
/// of the target where `batch` is 0 or large enough, else `batch`.
pub open spec fn batch_end(ports: int, done: int, batch: usize) -> int {
    if batch == 0 || ports - done <= batch {
        ports
    } else {
        done + batch
    }
}

/// The next step of a connect scan and the cursor after it. Targets
/// without ports left are passed over. Then the scan is finished if no
/// target is left, timed out if the timeout has passed, and otherwise
/// goes on with the next ports of the target at work.
pub open spec fn connect_step(
    targets: Seq<HostTargetView>,
    cursor: ConnectCursor,
    expired: bool,
    batch: usize,
) -> (ConnectStepView, ConnectCursor) {
    let at = skip_done(targets, cursor);
    if at.target >= targets.len() {
        (ConnectStepView::Finished, at)
    } else if expired {
        (ConnectStepView::TimedOut, at)
    } else {
        let target = targets[at.target as int];
        let end = batch_end(target.ports.len() as int, at.port as int, batch);
        (
            ConnectStepView::Connect(sockets_of(target).subrange(at.port as int, end)),
            ConnectCursor { target: at.target, port: end as usize },
        )
    }
}

/// The next step of the scan with this setting: that of a connect scan
/// over its targets, and `Finished` at once for any other kind of scan,
/// which attempts no connection.
pub open spec fn scan_connect_step(
    setting: ScanSettingView,
    cursor: ConnectCursor,
    expired: bool,
    batch: usize,
) -> (ConnectStepView, ConnectCursor) {
    if setting.scan_type == ScanType::TcpConnectScan {
        connect_step(setting.targets, cursor, expired, batch)
    } else {
        (ConnectStepView::Finished, cursor)
    }
}

impl ConnectCursor {
    /// The cursor of a connect scan that has not begun.
    pub fn new() -> (cursor: ConnectCursor)
        ensures
            cursor == (ConnectCursor { target: 0, port: 0 }),
    {
        ConnectCursor { target: 0, port: 0 }
    }
}

/// The next step of the scan with this setting, `elapsed` after its
/// probing began. `batch` is the number of connections that the caller
/// attempts at once, 0 for no bound.
pub fn next_connect_step(
    setting: &ScanSetting,
    cursor: &mut ConnectCursor,
    elapsed: &Duration,
    batch: usize,
) -> (step: ConnectStep)
    ensures
        (step@, *final(cursor)) == scan_connect_step(
            setting@,
            *old(cursor),
            elapsed.as_nanos() > setting@.timeout.as_nanos(),
            batch,
        ),
{
    match setting.scan_type {
        ScanType::TcpConnectScan => {},
        _ => {
            return ConnectStep::Finished;
        },
    }
    let ghost targets = setting@.targets;
    while cursor.target < setting.targets.len() && cursor.port
        >= setting.targets[cursor.target].ports.len()
        invariant
            targets == setting@.targets,
            skip_done(targets, *cursor) == skip_done(targets, *old(cursor)),
        decreases setting.targets.len() - cursor.target,
    {
        cursor.target = cursor.target + 1;
        cursor.port = 0;
    }
    if cursor.target >= setting.targets.len() {
        return ConnectStep::Finished;
    }
    if elapsed.is_longer_than(&setting.timeout) {
        return ConnectStep::TimedOut;
    }
    let target = &setting.targets[cursor.target];
    let end: usize = if batch == 0 || target.ports.len() - cursor.port <= batch {
        target.ports.len()
    } else {
        cursor.port + batch
    };
    let mut sockets: Vec<SocketAddr> = Vec::new();
    let first: usize = cursor.port;
    let mut i: usize = first;
    while i < end
        invariant
            first <= i <= end <= target.ports.len(),
            sockets@ == sockets_of(target@).subrange(first as int, i as int),
        decreases end - i,
    {
        sockets.push(SocketAddr { ip: target.ip_addr, port: target.ports[i] });
        assert(sockets_of(target@).subrange(first as int, i + 1) =~= sockets_of(target@).subrange(
            first as int,
            i as int,
        ).push(sockets_of(target@)[i as int]));
        i += 1;
    }
    cursor.port = end;
    ConnectStep::Connect(sockets)
}

/// The number of attempts handed out before the cursor.
pub open spec fn attempted(targets: Seq<HostTargetView>, cursor: ConnectCursor) -> int {
    connect_sockets(targets.take(cursor.target as int)).len() + cursor.port
}

/// Whether the cursor points into the targets.
pub open spec fn cursor_fits(targets: Seq<HostTargetView>, cursor: ConnectCursor) -> bool {
    if cursor.target < targets.len() {
        cursor.port <= targets[cursor.target as int].ports.len()
    } else {
        cursor.target == targets.len() && cursor.port == 0
    }
}

/// Whether the targets and their port lists are of lengths that a
/// machine can hold, as those of every setting are.
pub open spec fn representable(targets: Seq<HostTargetView>) -> bool {
    &&& targets.len() <= usize::MAX
    &&& forall|i: int| 0 <= i < targets.len() ==> (#[trigger] targets[i]).ports.len() <= usize::MAX
}

proof fn lemma_connect_sockets_prefix(targets: Seq<HostTargetView>, n: int)
    requires
        0 <= n <= targets.len(),
    ensures
        connect_sockets(targets.take(n)).is_prefix_of(connect_sockets(targets)),
        n < targets.len() ==> connect_sockets(targets.take(n + 1)) == connect_sockets(
            targets.take(n),
        ) + sockets_of(targets[n]),
    decreases targets.len() - n,
{
    if n == targets.len() {
        assert(targets.take(n) =~= targets);
    } else {
        assert(targets.take(n + 1).drop_last() =~= targets.take(n));
        lemma_connect_sockets_prefix(targets, n + 1);
    }
}

proof fn lemma_skip_done_keeps_count(targets: Seq<HostTargetView>, cursor: ConnectCursor)
    requires
        representable(targets),
        cursor_fits(targets, cursor),
    ensures
        cursor_fits(targets, skip_done(targets, cursor)),
        attempted(targets, skip_done(targets, cursor)) == attempted(targets, cursor),
        skip_done(targets, cursor).target < targets.len() ==> skip_done(targets, cursor).port
            < targets[skip_done(targets, cursor).target as int].ports.len(),
    decreases targets.len() - cursor.target,
{
    if cursor.target < targets.len() && cursor.port >= targets[cursor.target as int].ports.len() {
        let next = ConnectCursor { target: (cursor.target + 1) as usize, port: 0 };
        lemma_connect_sockets_prefix(targets, cursor.target as int);
        lemma_skip_done_keeps_count(targets, next);
        assert(targets.take(next.target as int) == targets.take(cursor.target + 1));
        assert(sockets_of(targets[cursor.target as int]).len() == cursor.port);
    }
}

/// The attempts of a connect scan are handed out in the order of the
/// targets and of their ports, each once: a batch holds the attempts
/// that follow those handed out before, no more of them than the caller
/// attempts at once, and none once the timeout has passed. A scan that
/// was cut off has handed out a prefix of them all, and not all. The
/// scan is finished exactly when every attempt was handed out.
pub proof fn lemma_connect_steps_in_order(
    targets: Seq<HostTargetView>,
    cursor: ConnectCursor,
    expired: bool,
    batch: usize,
)
    requires
        representable(targets),
        cursor_fits(targets, cursor),
    ensures
        ({
            let (step, next) = connect_step(targets, cursor, expired, batch);
            let all = connect_sockets(targets);
            &&& cursor_fits(targets, next)
            &&& 0 <= attempted(targets, cursor) <= attempted(targets, next) <= all.len()
            &&& match step {
                ConnectStepView::Connect(sockets) => !expired && sockets.len() > 0 && (batch > 0
                    ==> sockets.len() <= batch) && sockets == all.subrange(
                    attempted(targets, cursor),
                    attempted(targets, next),
                ),
                ConnectStepView::TimedOut => expired && attempted(targets, next) == attempted(
                    targets,
                    cursor,
                ) && attempted(targets, cursor) < all.len(),
                ConnectStepView::Finished => attempted(targets, cursor) == all.len(),
            }
        }),
{
    let (step, next) = connect_step(targets, cursor, expired, batch);
    let all = connect_sockets(targets);
    let at = skip_done(targets, cursor);
    lemma_skip_done_keeps_count(targets, cursor);
    if at.target >= targets.len() {
        assert(targets.take(at.target as int) =~= targets);
    } else {
        let t = at.target as int;
        let before = connect_sockets(targets.take(t));
        lemma_connect_sockets_prefix(targets, t);
        lemma_connect_sockets_prefix(targets, t + 1);
        let upto = connect_sockets(targets.take(t + 1));
        assert(upto.is_prefix_of(all));
        assert(upto =~= before + sockets_of(targets[t]));
        if !expired {
            let end = batch_end(targets[t].ports.len() as int, at.port as int, batch);
            let part = sockets_of(targets[t]).subrange(at.port as int, end);
            let whole = all.subrange(before.len() + at.port, before.len() + end);
            assert forall|i: int| 0 <= i < part.len() implies #[trigger] part[i] == whole[i] by {
                assert(upto[before.len() + at.port + i] == sockets_of(targets[t])[at.port + i]);
                assert(all[before.len() + at.port + i] == upto[before.len() + at.port + i]);
            }
            assert(part =~= whole);
        }
    }
}

/// The attempts that a sequence of steps has handed out, in order.
pub open spec fn handed_out(steps: Seq<ConnectStepView>) -> Seq<SocketAddr>
    decreases steps.len(),
{
    if steps.len() == 0 {
        Seq::empty()
    } else {
        handed_out(steps.drop_last()) + match steps.last() {
            ConnectStepView::Connect(sockets) => sockets,
            _ => Seq::empty(),
        }
    }
}

/// Whether the sequences are a run of a connect scan over `targets`
/// from its beginning: `cursors` holds the cursor before each step and
/// after the last, `expired` says for each step whether the timeout had
/// passed when it was asked for, and `steps` holds what was handed out.
pub open spec fn is_connect_run(
    targets: Seq<HostTargetView>,
    batch: usize,
    cursors: Seq<ConnectCursor>,
    expired: Seq<bool>,
    steps: Seq<ConnectStepView>,
) -> bool {
    &&& cursors.len() == steps.len() + 1
    &&& expired.len() == steps.len()
    &&& cursors[0] == (ConnectCursor { target: 0, port: 0 })
    &&& forall|i: int|
        0 <= i < steps.len() ==> (#[trigger] steps[i], cursors[i + 1]) == connect_step(
            targets,
            cursors[i],
            expired[i],
            batch,
        )
}

proof fn lemma_connect_run_upto(
    targets: Seq<HostTargetView>,
    batch: usize,
    cursors: Seq<ConnectCursor>,
    expired: Seq<bool>,
    steps: Seq<ConnectStepView>,
    n: int,
)
    requires
        representable(targets),
        is_connect_run(targets, batch, cursors, expired, steps),
        0 <= n <= steps.len(),
    ensures
        cursor_fits(targets, cursors[n]),
        0 <= attempted(targets, cursors[n]) <= connect_sockets(targets).len(),
        handed_out(steps.take(n)) == connect_sockets(targets).subrange(
            0,
            attempted(targets, cursors[n]),
        ),
    decreases n,
{
    let all = connect_sockets(targets);
    if n == 0 {
        assert(targets.take(0) =~= Seq::<HostTargetView>::empty());
        assert(steps.take(0) =~= Seq::<ConnectStepView>::empty());
        assert(handed_out(steps.take(0)) =~= all.subrange(0, 0));
    } else {
        lemma_connect_run_upto(targets, batch, cursors, expired, steps, n - 1);
        lemma_connect_steps_in_order(targets, cursors[n - 1], expired[n - 1], batch);
        assert((steps[n - 1], cursors[n]) == connect_step(
            targets,
            cursors[n - 1],
            expired[n - 1],
            batch,
        ));
        assert(steps.take(n).drop_last() =~= steps.take(n - 1));
        assert(steps.take(n).last() == steps[n - 1]);
        let before = attempted(targets, cursors[n - 1]);
        let after = attempted(targets, cursors[n]);
        assert(all.subrange(0, before) + all.subrange(before, after) =~= all.subrange(0, after));
        assert(all.subrange(0, before) + Seq::<SocketAddr>::empty() =~= all.subrange(0, before));
    }
}

/// Whatever the clock says from step to step, the attempts that a run
/// of a connect scan hands out are a prefix of all attempts, in the
/// order of the targets and of their ports. No attempt is handed out
/// when the timeout has passed, and a run that ends with `TimedOut` has
/// not handed out all.
pub proof fn lemma_connect_run_hands_out_a_prefix(
    targets: Seq<HostTargetView>,
    batch: usize,
    cursors: Seq<ConnectCursor>,
    expired: Seq<bool>,
    steps: Seq<ConnectStepView>,
)
    requires
        representable(targets),
        is_connect_run(targets, batch, cursors, expired, steps),
    ensures
        handed_out(steps).is_prefix_of(connect_sockets(targets)),
        handed_out(steps).len() == attempted(targets, cursors.last()),
        forall|i: int| 0 <= i < steps.len() && expired[i] ==> !(#[trigger] steps[i] is Connect),
        steps.len() > 0 && steps.last() is TimedOut ==> handed_out(steps).len()
            < connect_sockets(targets).len(),
        steps.len() > 0 && steps.last() is Finished ==> handed_out(steps) == connect_sockets(
            targets,
        ),
{
    let all = connect_sockets(targets);
    let n = steps.len() as int;
    lemma_connect_run_upto(targets, batch, cursors, expired, steps, n);
    assert(steps.take(n) =~= steps);
    assert(all.subrange(0, attempted(targets, cursors[n])) =~= all.subrange(
        0,
        handed_out(steps).len() as int,
    ));
    assert forall|i: int| 0 <= i < steps.len() && expired[i] implies !(
    #[trigger] steps[i] is Connect) by {
        lemma_connect_run_upto(targets, batch, cursors, expired, steps, i);
        lemma_connect_steps_in_order(targets, cursors[i], expired[i], batch);
        assert((steps[i], cursors[i + 1]) == connect_step(targets, cursors[i], expired[i], batch));
    }
    if n > 0 {
        lemma_connect_run_upto(targets, batch, cursors, expired, steps, n - 1);
        lemma_connect_steps_in_order(targets, cursors[n - 1], expired[n - 1], batch);
        assert((steps[n - 1], cursors[n]) == connect_step(
            targets,
            cursors[n - 1],
            expired[n - 1],
            batch,
        ));
        if steps.last() is Finished {
            assert(all.subrange(0, all.len() as int) =~= all);
        }
    }
}

} // verus!
