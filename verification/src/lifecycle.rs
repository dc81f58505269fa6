//! The lifecycle of a role: what each request does to its state, and what
//! the owner of the real subsystems has to do next.
//!
//! A [`NodeRole`] holds no handle. Its owner starts and stops the real
//! subsystems and spawns the real task; the role says which of them is next
//! and is told how it went.

use crate::advisory::{log_clean_error, recovery_text, LogRecord, Severity};
use crate::bulletin::bulletin_text;
use crate::role::{
    find_unready, first_unready, has_capability, owned, owned_at, owned_count, Collaborators,
    HandleStatus, RoleKind, Subsystem,
};
use crate::scheduler::{
    after_cancel, after_poll, fires, start_notification_message_loop, started_at, LoopModel,
    NotificationLoop,
};
use vstd::prelude::*;

verus! {

/// Stage of a role's life.
#[derive(Clone, Copy, Debug, PartialEq, Eq, Structural)]
pub enum LifecycleState {
    Uninitialized,
    Starting,
    Running,
    ShuttingDown,
    Stopped,
}

/// Why a request was turned down.
#[derive(Clone, Copy, Debug, PartialEq, Eq, Structural)]
pub enum NodeError {
    /// A collaborator that the role depends on is absent or not ready.
    InitializationError(Subsystem),
    /// The named subsystem failed to start.
    StartupError(Subsystem),
    /// The role does not own the named subsystem.
    CapabilityUnavailable(Subsystem),
    /// The request is not allowed in the role's present state.
    InvalidStateTransition,
}

/// What the owner of the real subsystems has to do.
#[derive(Clone, Copy, Debug, PartialEq, Eq, Structural)]
pub enum Action {
    /// Start the subsystem and report how it went.
    Start(Subsystem),
    /// Spawn the notification task and report the second at which it began.
    SpawnScheduler,
    /// Cancel the notification task.
    CancelScheduler,
    /// Stop the subsystem; a failure is logged and goes no further.
    Stop(Subsystem),
    /// Nothing.
    Idle,
}

/// A role instance: its kind, where it is in its life, and what it has
/// brought up so far.
#[derive(Debug)]
pub struct NodeRole {
    kind: RoleKind,
    state: LifecycleState,
    collaborators: Collaborators,
    started: usize,
    failed: Option<Subsystem>,
    scheduler: Option<NotificationLoop>,
}

/// What a role is.
pub ghost struct RoleModel {
    pub kind: RoleKind,
    pub state: LifecycleState,
    pub collaborators: Collaborators,
    /// How many of the owned subsystems, in start order, are up.
    pub started: nat,
    /// The subsystem whose start failed, if one did.
    pub failed: Option<Subsystem>,
    /// The notification task, once it was spawned.
    pub scheduler: Option<LoopModel>,
}

/// Whether the role has a notification task that was not cancelled.
pub open spec fn scheduler_active(m: RoleModel) -> bool {
    m.scheduler matches Some(task) && !task.cancelled
}

/// What holds of every role: it has started no more than it owns; before it
/// starts nothing is up; while it runs everything is up and its one
/// notification task is active; once shutdown began nothing is left.
pub open spec fn well_formed(m: RoleModel) -> bool {
    &&& m.started <= owned(m.kind).len()
    &&& match m.state {
        LifecycleState::Uninitialized => m.started == 0 && m.scheduler is None && m.failed is None,
        LifecycleState::Starting => m.scheduler is None && (m.failed matches Some(s) ==> m.started
            < owned(m.kind).len() && s == owned(m.kind)[m.started as int]),
        LifecycleState::Running => m.started == owned(m.kind).len() && scheduler_active(m)
            && m.failed is None,
        LifecycleState::ShuttingDown => m.started == 0 && !scheduler_active(m),
        LifecycleState::Stopped => m.started == 0 && !scheduler_active(m),
    }
}

/// The moves between states that a role may make.
pub open spec fn legal_transition(from: LifecycleState, to: LifecycleState) -> bool {
    ||| from == LifecycleState::Uninitialized && to == LifecycleState::Starting
    ||| from == LifecycleState::Starting && to == LifecycleState::Running
    ||| from == LifecycleState::Starting && to == LifecycleState::Stopped
    ||| from == LifecycleState::Running && to == LifecycleState::ShuttingDown
    ||| from == LifecycleState::Running && to == LifecycleState::Stopped
    ||| from == LifecycleState::ShuttingDown && to == LifecycleState::Stopped
}

/// A role as it is constructed.
pub open spec fn fresh(kind: RoleKind, collaborators: Collaborators) -> RoleModel {
    RoleModel {
        kind,
        state: LifecycleState::Uninitialized,
        collaborators,
        started: 0,
        failed: None,
        scheduler: None,
    }
}

/// What the role waits for while it starts: the next owned subsystem, then
/// the notification task. A role that is not starting, or whose start has
/// failed, waits for nothing.
pub open spec fn pending_action(m: RoleModel) -> Action {
    if m.state == LifecycleState::Starting && m.failed is None {
        if m.started < owned(m.kind).len() {
            Action::Start(owned(m.kind)[m.started as int])
        } else {
            Action::SpawnScheduler
        }
    } else {
        Action::Idle
    }
}

/// Answer to a request to start.
pub open spec fn start_outcome(m: RoleModel) -> Result<(), NodeError> {
    if m.state != LifecycleState::Uninitialized {
        Err(NodeError::InvalidStateTransition)
    } else {
        match first_unready(m.kind, m.collaborators) {
            Some(s) => Err(NodeError::InitializationError(s)),
            None => Ok(()),
        }
    }
}

/// The role after a request to start.
pub open spec fn after_start(m: RoleModel) -> RoleModel {
    if start_outcome(m) is Ok {
        RoleModel { state: LifecycleState::Starting, ..m }
    } else {
        m
    }
}

/// Answer to the report that the start of `s` ended, well or not.
pub open spec fn report_outcome(m: RoleModel, s: Subsystem, ready: bool) -> Result<(), NodeError> {
    if pending_action(m) != Action::Start(s) {
        Err(NodeError::InvalidStateTransition)
    } else if ready {
        Ok(())
    } else {
        Err(NodeError::StartupError(s))
    }
}

/// The role after that report. A failure is remembered and what was started
/// before stays up.
pub open spec fn after_report(m: RoleModel, s: Subsystem, ready: bool) -> RoleModel {
    if pending_action(m) != Action::Start(s) {
        m
    } else if ready {
        RoleModel { started: m.started + 1, ..m }
    } else {
        RoleModel { failed: Some(s), ..m }
    }
}

/// The role after the report that its notification task began at `now`.
pub open spec fn after_spawn(m: RoleModel, now: int) -> RoleModel {
    if pending_action(m) == Action::SpawnScheduler {
        RoleModel { state: LifecycleState::Running, scheduler: Some(started_at(now)), ..m }
    } else {
        m
    }
}

/// Stop requests for the first `n` owned subsystems, last started first.
pub open spec fn stop_order(kind: RoleKind, n: nat) -> Seq<Action>
    recommends
        n <= owned(kind).len(),
    decreases n,
{
    if n == 0 {
        Seq::empty()
    } else {
        seq![Action::Stop(owned(kind)[n - 1])] + stop_order(kind, (n - 1) as nat)
    }
}

/// What shutdown asks of the owner: cancel the notification task if it is
/// active, then stop what is up in reverse start order.
pub open spec fn shutdown_plan(m: RoleModel) -> Seq<Action> {
    if scheduler_active(m) {
        seq![Action::CancelScheduler] + stop_order(m.kind, m.started)
    } else {
        stop_order(m.kind, m.started)
    }
}

/// The state that shutdown leads to.
pub open spec fn state_after_shutdown(state: LifecycleState) -> LifecycleState {
    match state {
        LifecycleState::Uninitialized => LifecycleState::Uninitialized,
        LifecycleState::Starting => LifecycleState::Stopped,
        LifecycleState::Running => LifecycleState::ShuttingDown,
        LifecycleState::ShuttingDown => LifecycleState::ShuttingDown,
        LifecycleState::Stopped => LifecycleState::Stopped,
    }
}

/// The notification task after its owner shut down.
pub open spec fn cancelled_task(task: Option<LoopModel>) -> Option<LoopModel> {
    match task {
        Some(t) => Some(after_cancel(t)),
        None => None,
    }
}

/// The role after shutdown was requested.
pub open spec fn after_shutdown(m: RoleModel) -> RoleModel {
    RoleModel {
        state: state_after_shutdown(m.state),
        started: 0,
        scheduler: cancelled_task(m.scheduler),
        ..m
    }
}

/// The role after the owner carried out the shutdown plan.
pub open spec fn after_finish(m: RoleModel) -> RoleModel {
    if m.state == LifecycleState::ShuttingDown {
        RoleModel { state: LifecycleState::Stopped, ..m }
    } else {
        m
    }
}

/// The role after storage corruption was reported: a running role drops
/// everything at once, any other is left alone.
pub open spec fn after_corruption(m: RoleModel) -> RoleModel {
    if m.state == LifecycleState::Running {
        RoleModel {
            state: LifecycleState::Stopped,
            started: 0,
            scheduler: cancelled_task(m.scheduler),
            ..m
        }
    } else {
        m
    }
}

/// The role after its notification task was polled at second `now`.
pub open spec fn after_task_poll(m: RoleModel, now: int) -> RoleModel {
    match m.scheduler {
        Some(task) => RoleModel { scheduler: Some(after_poll(task, now)), ..m },
        None => m,
    }
}

impl View for NodeRole {
    type V = RoleModel;

    closed spec fn view(&self) -> RoleModel {
        RoleModel {
            kind: self.kind,
            state: self.state,
            collaborators: self.collaborators,
            started: self.started as nat,
            failed: self.failed,
            scheduler: match self.scheduler {
                Some(task) => Some(task@),
                None => None,
            },
        }
    }
}

impl NodeRole {
    #[verifier::type_invariant]
    closed spec fn holds_together(self) -> bool {
        well_formed(self@)
    }

    /// Constructs a role of the given kind from the handles it was given.
    /// Fails where a collaborator that the kind depends on is absent or not
    /// ready, and names the first such in start order.
    pub fn new(kind: RoleKind, collaborators: Collaborators) -> (role: Result<NodeRole, NodeError>)
        ensures
            match first_unready(kind, collaborators) {
                Some(s) => role == Err::<NodeRole, NodeError>(NodeError::InitializationError(s)),
                None => role matches Ok(r) && r@ == fresh(kind, collaborators),
            },
            role matches Ok(r) ==> well_formed(r@),
    {
        match find_unready(kind, &collaborators) {
            Some(s) => Err(NodeError::InitializationError(s)),
            None => Ok(
                NodeRole {
                    kind,
                    state: LifecycleState::Uninitialized,
                    collaborators,
                    started: 0,
                    failed: None,
                    scheduler: None,
                },
            ),
        }
    }

    /// The role's kind.
    pub fn kind(&self) -> (kind: RoleKind)
        ensures
            kind == self@.kind,
    {
        self.kind
    }

    /// The role's present state. Every role is well formed, and a caller
    /// learns it here.
    pub fn state(&self) -> (state: LifecycleState)
        ensures
            state == self@.state,
            well_formed(self@),
    {
        proof {
            use_type_invariant(self);
        }
        self.state
    }

    /// The status recorded for the handle of `s`.
    pub fn collaborator(&self, s: Subsystem) -> (status: HandleStatus)
        ensures
            status == self@.collaborators.status(s),
    {
        self.collaborators.get(s)
    }

    /// How many owned subsystems are up.
    pub fn started_count(&self) -> (n: usize)
        ensures
            n == self@.started,
    {
        self.started
    }

    /// The subsystem whose start failed, if one did.
    pub fn failed_subsystem(&self) -> (failed: Option<Subsystem>)
        ensures
            failed == self@.failed,
    {
        self.failed
    }

    /// Whether the role has a notification task that was not cancelled.
    pub fn has_active_scheduler(&self) -> (active: bool)
        ensures
            active == scheduler_active(self@),
    {
        match self.scheduler {
            Some(task) => !task.is_cancelled(),
            None => false,
        }
    }

    /// Whether no notification task is left: none was spawned, or the one
    /// that was has been cancelled.
    pub fn scheduler_finished(&self) -> (finished: bool)
        ensures
            finished == !scheduler_active(self@),
    {
        !self.has_active_scheduler()
    }

    /// Records what a handle reports of itself now. Only a role that has not
    /// started takes this.
    pub fn update_collaborator(&mut self, s: Subsystem, status: HandleStatus) -> (done: Result<
        (),
        NodeError,
    >)
        ensures
            well_formed(final(self)@),
            done is Ok <==> old(self)@.state == LifecycleState::Uninitialized,
            done is Err ==> done == Err::<(), NodeError>(NodeError::InvalidStateTransition)
                && final(self)@ == old(self)@,
            done is Ok ==> final(self)@ == (RoleModel {
                collaborators: old(self)@.collaborators.with_status(s, status),
                ..old(self)@
            }),
    {
        proof {
            use_type_invariant(&*self);
        }
        match self.state {
            LifecycleState::Uninitialized => {
                let mut collaborators = self.collaborators;
                collaborators.set(s, status);
                self.collaborators = collaborators;
                Ok(())
            },
            _ => Err(NodeError::InvalidStateTransition),
        }
    }

    /// Asks whether the role owns `s`. A role that does not says so; its
    /// state is not touched.
    pub fn require_capability(&self, s: Subsystem) -> (granted: Result<(), NodeError>)
        ensures
            granted == if owned(self@.kind).contains(s) {
                Ok::<(), NodeError>(())
            } else {
                Err::<(), NodeError>(NodeError::CapabilityUnavailable(s))
            },
    {
        if has_capability(self.kind, s) {
            Ok(())
        } else {
            Err(NodeError::CapabilityUnavailable(s))
        }
    }

    /// Requests the start. A role that is not new refuses; one with a
    /// collaborator absent or not ready names it and stays as it was; any
    /// other begins to start.
    pub fn start(&mut self) -> (begun: Result<(), NodeError>)
        ensures
            well_formed(final(self)@),
            begun == start_outcome(old(self)@),
            final(self)@ == after_start(old(self)@),
    {
        proof {
            use_type_invariant(&*self);
        }
        match self.state {
            LifecycleState::Uninitialized => {},
            _ => {
                return Err(NodeError::InvalidStateTransition);
            },
        }
        match find_unready(self.kind, &self.collaborators) {
            Some(s) => Err(NodeError::InitializationError(s)),
            None => {
                self.state = LifecycleState::Starting;
                Ok(())
            },
        }
    }

    /// What the owner has to do now for the start to go on.
    pub fn next_action(&self) -> (action: Action)
        ensures
            action == pending_action(self@),
    {
        proof {
            use_type_invariant(self);
        }
        match self.state {
            LifecycleState::Starting => {
                if self.failed.is_some() {
                    Action::Idle
                } else if self.started < owned_count(self.kind) {
                    Action::Start(owned_at(self.kind, self.started))
                } else {
                    Action::SpawnScheduler
                }
            },
            _ => Action::Idle,
        }
    }

    /// Takes the report that the start of `s` ended, with `ready` saying
    /// whether it is up. A report on anything but the subsystem that the
    /// role waits for is refused. A failure is returned with the name of the
    /// subsystem; what was started before stays up until shutdown.
    pub fn subsystem_started(&mut self, s: Subsystem, ready: bool) -> (taken: Result<(), NodeError>)
        ensures
            well_formed(final(self)@),
            taken == report_outcome(old(self)@, s, ready),
            final(self)@ == after_report(old(self)@, s, ready),
    {
        proof {
            use_type_invariant(&*self);
        }
        if self.next_action() != Action::Start(s) {
            return Err(NodeError::InvalidStateTransition);
        }
        if ready {
            self.started = self.started + 1;
            Ok(())
        } else {
            self.failed = Some(s);
            Err(NodeError::StartupError(s))
        }
    }

    /// Takes the report that the notification task began at second `now`,
    /// which completes the start. Refused unless every owned subsystem is up
    /// and no task was spawned. Returns the task's state for the task to run
    /// on.
    pub fn scheduler_spawned(&mut self, now: u64) -> (task: Result<NotificationLoop, NodeError>)
        ensures
            well_formed(final(self)@),
            final(self)@ == after_spawn(old(self)@, now as int),
            match task {
                Ok(t) => pending_action(old(self)@) == Action::SpawnScheduler && t@ == started_at(
                    now as int,
                ),
                Err(e) => pending_action(old(self)@) != Action::SpawnScheduler && e
                    == NodeError::InvalidStateTransition,
            },
    {
        proof {
            use_type_invariant(&*self);
        }
        if self.next_action() != Action::SpawnScheduler {
            return Err(NodeError::InvalidStateTransition);
        }
        let task = start_notification_message_loop(now);
        *self = NodeRole {
            kind: self.kind,
            state: LifecycleState::Running,
            collaborators: self.collaborators,
            started: self.started,
            failed: self.failed,
            scheduler: Some(task),
        };
        Ok(task)
    }

    /// Polls the role's notification task at second `now`: the bulletin to
    /// emit, if one is due and the task was not cancelled.
    pub fn poll_scheduler(&mut self, now: u64) -> (record: Option<LogRecord>)
        ensures
            well_formed(final(self)@),
            final(self)@ == after_task_poll(old(self)@, now as int),
            record is Some <==> (old(self)@.scheduler matches Some(task) && fires(task, now as int)),
            record matches Some(r) ==> r.severity == Severity::Info && r.text@ == bulletin_text(),
    {
        proof {
            use_type_invariant(&*self);
        }
        match self.scheduler {
            Some(mut task) => {
                let record = task.poll(now);
                self.scheduler = Some(task);
                record
            },
            None => None,
        }
    }

    /// Requests shutdown and returns what the owner has to carry out, in
    /// order. Never refused: a role with nothing up returns an empty plan.
    pub fn shutdown(&mut self) -> (plan: Vec<Action>)
        ensures
            well_formed(final(self)@),
            plan@ == shutdown_plan(old(self)@),
            final(self)@ == after_shutdown(old(self)@),
    {
        proof {
            use_type_invariant(&*self);
        }
        let mut plan: Vec<Action> = Vec::new();
        let scheduler = match self.scheduler {
            Some(mut task) => {
                if !task.is_cancelled() {
                    plan.push(Action::CancelScheduler);
                }
                task.cancel();
                Some(task)
            },
            None => None,
        };
        let ghost head = plan@;
        let mut left: usize = self.started;
        while left > 0
            invariant
                left <= owned(self.kind).len(),
                head + stop_order(self.kind, self.started as nat) == plan@ + stop_order(
                    self.kind,
                    left as nat,
                ),
            decreases left,
        {
            proof {
                assert(plan@.push(Action::Stop(owned(self.kind)[left - 1])) + stop_order(
                    self.kind,
                    (left - 1) as nat,
                ) =~= plan@ + stop_order(self.kind, left as nat));
            }
            plan.push(Action::Stop(owned_at(self.kind, left - 1)));
            left = left - 1;
        }
        proof {
            assert(plan@ + stop_order(self.kind, 0) =~= plan@);
        }
        let state = match self.state {
            LifecycleState::Uninitialized => LifecycleState::Uninitialized,
            LifecycleState::Starting => LifecycleState::Stopped,
            LifecycleState::Running => LifecycleState::ShuttingDown,
            LifecycleState::ShuttingDown => LifecycleState::ShuttingDown,
            LifecycleState::Stopped => LifecycleState::Stopped,
        };
        *self = NodeRole {
            kind: self.kind,
            state,
            collaborators: self.collaborators,
            started: 0,
            failed: self.failed,
            scheduler,
        };
        plan
    }

    /// Takes the report that the shutdown plan was carried out: a role that
    /// was shutting down is stopped. Never refused.
    pub fn finish_shutdown(&mut self)
        ensures
            well_formed(final(self)@),
            final(self)@ == after_finish(old(self)@),
    {
        proof {
            use_type_invariant(&*self);
        }
        match self.state {
            LifecycleState::ShuttingDown => {
                self.state = LifecycleState::Stopped;
            },
            _ => {},
        }
    }

    /// Takes the report that the storage of instance `dev` is corrupted. A
    /// running role stops at once, its task cancelled and nothing unwound,
    /// and returns the advisory to emit at error severity. Any other role
    /// refuses.
    pub fn fail_on_corruption(&mut self, dev: Option<u16>) -> (advisory: Result<
        LogRecord,
        NodeError,
    >)
        ensures
            well_formed(final(self)@),
            final(self)@ == after_corruption(old(self)@),
            match advisory {
                Ok(r) => old(self)@.state == LifecycleState::Running && r.severity
                    == Severity::Error && r.text@ == recovery_text(dev),
                Err(e) => old(self)@.state != LifecycleState::Running && e
                    == NodeError::InvalidStateTransition,
            },
    {
        proof {
            use_type_invariant(&*self);
        }
        match self.state {
            LifecycleState::Running => {},
            _ => {
                return Err(NodeError::InvalidStateTransition);
            },
        }
        let scheduler = match self.scheduler {
            Some(mut task) => {
                task.cancel();
                Some(task)
            },
            None => None,
        };
        *self = NodeRole {
            kind: self.kind,
            state: LifecycleState::Stopped,
            collaborators: self.collaborators,
            started: 0,
            failed: self.failed,
            scheduler,
        };
        Ok(log_clean_error(dev))
    }
}

} // verus!
