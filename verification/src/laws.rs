//! What holds of every role, whatever its kind and whatever was asked of it.

use crate::lifecycle::{
    after_corruption, after_finish, after_report, after_shutdown, after_spawn, after_start,
    after_task_poll, fresh, legal_transition, pending_action, report_outcome, scheduler_active,
    shutdown_plan, start_outcome, stop_order, well_formed, Action, LifecycleState, NodeError,
    RoleModel,
};
use crate::role::{first_unready, owned, Collaborators, RoleKind, Subsystem};
use crate::scheduler::{after_cancel, started_at};
use vstd::prelude::*;

verus! {

/// The role after the owner reported `n` subsystems, each the one that was
/// waited for, as up.
pub open spec fn after_ready_reports(m: RoleModel, n: nat) -> RoleModel
    decreases n,
{
    if n == 0 {
        m
    } else {
        let before = after_ready_reports(m, (n - 1) as nat);
        match pending_action(before) {
            Action::Start(s) => after_report(before, s, true),
            _ => before,
        }
    }
}

/// A role of the given kind after a start in which nothing failed: start
/// requested, every owned subsystem reported up, the notification task
/// spawned at second `now`.
pub open spec fn brought_up(kind: RoleKind, c: Collaborators, now: int) -> RoleModel {
    after_spawn(after_ready_reports(after_start(fresh(kind, c)), owned(kind).len()), now)
}

/// Every request keeps a role well formed, and moves it along a legal
/// transition or leaves its state as it is.
pub proof fn lemma_requests_move_legally(m: RoleModel, s: Subsystem, ready: bool, now: int)
    requires
        well_formed(m),
    ensures
        well_formed(after_start(m)),
        well_formed(after_report(m, s, ready)),
        well_formed(after_spawn(m, now)),
        well_formed(after_shutdown(m)),
        well_formed(after_finish(m)),
        well_formed(after_corruption(m)),
        well_formed(after_task_poll(m, now)),
        after_start(m).state == m.state || legal_transition(m.state, after_start(m).state),
        after_report(m, s, ready).state == m.state,
        after_spawn(m, now).state == m.state || legal_transition(
            m.state,
            after_spawn(m, now).state,
        ),
        after_shutdown(m).state == m.state || legal_transition(m.state, after_shutdown(m).state),
        after_finish(m).state == m.state || legal_transition(m.state, after_finish(m).state),
        after_corruption(m).state == m.state || legal_transition(
            m.state,
            after_corruption(m).state,
        ),
        after_task_poll(m, now).state == m.state,
{
}

/// A second request to start is refused and changes nothing: only a new
/// role starts.
pub proof fn lemma_start_only_once(m: RoleModel)
    requires
        m.state != LifecycleState::Uninitialized,
    ensures
        start_outcome(m) == Err::<(), NodeError>(NodeError::InvalidStateTransition),
        after_start(m) == m,
{
}

/// A new role with a collaborator absent or not ready refuses to start,
/// names the first such collaborator, and stays uninitialized.
pub proof fn lemma_start_needs_collaborators(m: RoleModel, missing: Subsystem)
    requires
        m.state == LifecycleState::Uninitialized,
        first_unready(m.kind, m.collaborators) == Some(missing),
    ensures
        start_outcome(m) == Err::<(), NodeError>(NodeError::InitializationError(missing)),
        after_start(m) == m,
        after_start(m).state == LifecycleState::Uninitialized,
{
}

/// A failed start is answered with the name of the subsystem that failed,
/// leaves what was started before up, and leaves the role waiting for
/// nothing but shutdown.
pub proof fn lemma_failed_start_waits_for_shutdown(m: RoleModel, s: Subsystem)
    requires
        well_formed(m),
        pending_action(m) == Action::Start(s),
    ensures
        report_outcome(m, s, false) == Err::<(), NodeError>(NodeError::StartupError(s)),
        after_report(m, s, false).started == m.started,
        after_report(m, s, false).state == LifecycleState::Starting,
        pending_action(after_report(m, s, false)) == Action::Idle,
{
}

/// The stop requests for the first `n` owned subsystems are `n`, and the
/// one at position `i` stops the subsystem that was started `i` places
/// before the last.
pub proof fn lemma_stop_order_reverses_start_order(kind: RoleKind, n: nat, i: int)
    requires
        n <= owned(kind).len(),
        0 <= i < n,
    ensures
        stop_order(kind, n).len() == n,
        stop_order(kind, n)[i] == Action::Stop(owned(kind)[n - 1 - i]),
    decreases n,
{
    lemma_stop_order_len(kind, n);
    if i > 0 {
        lemma_stop_order_reverses_start_order(kind, (n - 1) as nat, i - 1);
    }
}

proof fn lemma_stop_order_len(kind: RoleKind, n: nat)
    ensures
        stop_order(kind, n).len() == n,
    decreases n,
{
    if n > 0 {
        lemma_stop_order_len(kind, (n - 1) as nat);
    }
}

/// Whatever state a role is in, after shutdown nothing that it owned is up
/// and no notification task is active.
pub proof fn lemma_shutdown_halts_everything(m: RoleModel)
    requires
        well_formed(m),
    ensures
        after_shutdown(m).started == 0,
        !scheduler_active(after_shutdown(m)),
        !scheduler_active(after_finish(after_shutdown(m))),
        m.state != LifecycleState::Uninitialized ==> after_finish(after_shutdown(m)).state
            == LifecycleState::Stopped,
{
}

/// Shutdown asked twice does nothing the second time: the second plan is
/// empty and the role is as the first shutdown left it, whether or not the
/// owner reported the first plan as carried out in between.
pub proof fn lemma_shutdown_is_idempotent(m: RoleModel)
    requires
        well_formed(m),
    ensures
        shutdown_plan(after_shutdown(m)) == Seq::<Action>::empty(),
        after_shutdown(after_shutdown(m)) == after_shutdown(m),
        shutdown_plan(after_finish(after_shutdown(m))) == Seq::<Action>::empty(),
        after_shutdown(after_finish(after_shutdown(m))) == after_finish(after_shutdown(m)),
        after_finish(after_finish(after_shutdown(m))) == after_finish(after_shutdown(m)),
{
    let once = after_shutdown(m);
    assert(stop_order(m.kind, 0) =~= Seq::<Action>::empty());
    assert(shutdown_plan(once) =~= Seq::<Action>::empty());
    assert(shutdown_plan(after_finish(once)) =~= Seq::<Action>::empty());
}

/// A start in which nothing fails takes a role of any kind, with every
/// collaborator it depends on ready, to the running state, with all it owns
/// up and one active notification task.
pub proof fn lemma_start_reaches_running(kind: RoleKind, c: Collaborators, now: int)
    requires
        first_unready(kind, c) is None,
    ensures
        brought_up(kind, c, now) == (RoleModel {
            kind,
            state: LifecycleState::Running,
            collaborators: c,
            started: owned(kind).len(),
            failed: None,
            scheduler: Some(started_at(now)),
        }),
        well_formed(brought_up(kind, c, now)),
{
    lemma_ready_reports(kind, c, owned(kind).len());
}

proof fn lemma_ready_reports(kind: RoleKind, c: Collaborators, n: nat)
    requires
        first_unready(kind, c) is None,
        n <= owned(kind).len(),
    ensures
        after_ready_reports(after_start(fresh(kind, c)), n) == (RoleModel {
            started: n,
            ..after_start(fresh(kind, c))
        }),
    decreases n,
{
    if n > 0 {
        lemma_ready_reports(kind, c, (n - 1) as nat);
    }
}

/// A start that fails at the subsystem in position `k`, after those before
/// it came up, is answered with that subsystem's name and leaves exactly
/// those before it up. The shutdown that follows stops them, last started
/// first, and the role is stopped.
pub proof fn lemma_failed_start_unwinds(kind: RoleKind, c: Collaborators, k: nat)
    requires
        first_unready(kind, c) is None,
        k < owned(kind).len(),
    ensures
        ({
            let waiting = after_ready_reports(after_start(fresh(kind, c)), k);
            let culprit = owned(kind)[k as int];
            let failed = after_report(waiting, culprit, false);
            &&& pending_action(waiting) == Action::Start(culprit)
            &&& report_outcome(waiting, culprit, false) == Err::<(), NodeError>(
                NodeError::StartupError(culprit),
            )
            &&& failed.started == k
            &&& failed.state == LifecycleState::Starting
            &&& shutdown_plan(failed) == stop_order(kind, k)
            &&& after_shutdown(failed).state == LifecycleState::Stopped
            &&& after_shutdown(failed).started == 0
        }),
{
    lemma_ready_reports(kind, c, k);
}

/// For each of the three kinds, a start followed by shutdown leaves no
/// background task: the plan cancels the notification task first and then
/// stops everything that was started, and the task is finished afterwards.
pub proof fn lemma_start_then_shutdown_leaves_no_task(kind: RoleKind, c: Collaborators, now: int)
    requires
        first_unready(kind, c) is None,
    ensures
        scheduler_active(brought_up(kind, c, now)),
        shutdown_plan(brought_up(kind, c, now)) == seq![Action::CancelScheduler] + stop_order(
            kind,
            owned(kind).len(),
        ),
        after_shutdown(brought_up(kind, c, now)).scheduler == Some(
            after_cancel(started_at(now)),
        ),
        !scheduler_active(after_shutdown(brought_up(kind, c, now))),
        after_shutdown(brought_up(kind, c, now)).started == 0,
        after_finish(after_shutdown(brought_up(kind, c, now))).state == LifecycleState::Stopped,
{
    lemma_start_reaches_running(kind, c, now);
}

} // verus!
