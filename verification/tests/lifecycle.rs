use snarkos_node::lifecycle::{Action, LifecycleState, NodeError, NodeRole};
use snarkos_node::role::{
    find_unready, has_capability, owned_at, owned_count, Collaborators, HandleStatus, RoleKind,
    Subsystem,
};

fn all_ready() -> Collaborators {
    Collaborators::uniform(HandleStatus::Ready)
}

fn new_role(kind: RoleKind) -> NodeRole {
    match NodeRole::new(kind, all_ready()) {
        Ok(role) => role,
        Err(e) => panic!("a role with every collaborator ready was refused: {:?}", e),
    }
}

/// Drives a start in which every subsystem comes up; returns what was started, in order.
fn bring_up(role: &mut NodeRole, now: u64) -> Vec<Subsystem> {
    assert_eq!(role.start(), Ok(()));
    let mut order = Vec::new();
    loop {
        match role.next_action() {
            Action::Start(s) => {
                assert_eq!(role.subsystem_started(s, true), Ok(()));
                order.push(s);
            }
            Action::SpawnScheduler => {
                assert!(role.scheduler_spawned(now).is_ok());
            }
            Action::Idle => break,
            other => panic!("unexpected action while starting: {:?}", other),
        }
    }
    order
}

fn check_start_then_shutdown(kind: RoleKind, expected: Vec<Subsystem>) {
    let mut role = new_role(kind);
    assert_eq!(role.state(), LifecycleState::Uninitialized);
    let order = bring_up(&mut role, 0);
    assert_eq!(order, expected);
    assert_eq!(role.state(), LifecycleState::Running);
    assert!(role.has_active_scheduler());
    assert_eq!(role.started_count(), expected.len());

    let plan = role.shutdown();
    let mut wanted = vec![Action::CancelScheduler];
    for s in expected.iter().rev() {
        wanted.push(Action::Stop(*s));
    }
    assert_eq!(plan, wanted);
    assert_eq!(role.state(), LifecycleState::ShuttingDown);
    assert!(role.scheduler_finished());
    assert!(!role.has_active_scheduler());
    assert_eq!(role.started_count(), 0);
    role.finish_shutdown();
    assert_eq!(role.state(), LifecycleState::Stopped);
    assert!(role.scheduler_finished());
    assert!(role.poll_scheduler(10_000).is_none());
}

#[test]
fn client_start_then_shutdown_leaves_no_task() {
    check_start_then_shutdown(RoleKind::Client, vec![Subsystem::Transport, Subsystem::Routing]);
}

#[test]
fn prover_start_then_shutdown_leaves_no_task() {
    check_start_then_shutdown(RoleKind::Prover, vec![Subsystem::Transport, Subsystem::Routing]);
}

#[test]
fn validator_start_then_shutdown_leaves_no_task() {
    check_start_then_shutdown(
        RoleKind::Validator,
        vec![
            Subsystem::Transport,
            Subsystem::Routing,
            Subsystem::Consensus,
            Subsystem::Mempool,
            Subsystem::Rest,
        ],
    );
}

#[test]
fn construction_needs_every_required_collaborator() {
    let mut c = all_ready();
    c.set(Subsystem::Consensus, HandleStatus::Absent);
    assert_eq!(
        NodeRole::new(RoleKind::Validator, c).err(),
        Some(NodeError::InitializationError(Subsystem::Consensus))
    );
    assert!(NodeRole::new(RoleKind::Client, c).is_ok());
    assert!(NodeRole::new(RoleKind::Prover, c).is_ok());
    c.set(Subsystem::Routing, HandleStatus::NotReady);
    assert_eq!(
        NodeRole::new(RoleKind::Validator, c).err(),
        Some(NodeError::InitializationError(Subsystem::Routing))
    );
    assert_eq!(
        NodeRole::new(RoleKind::Client, c).err(),
        Some(NodeError::InitializationError(Subsystem::Routing))
    );
    assert_eq!(
        NodeRole::new(RoleKind::Prover, Collaborators::uniform(HandleStatus::Absent)).err(),
        Some(NodeError::InitializationError(Subsystem::Transport))
    );
}

#[test]
fn start_without_a_collaborator_stays_uninitialized() {
    for kind in [RoleKind::Client, RoleKind::Prover, RoleKind::Validator] {
        let mut role = new_role(kind);
        assert_eq!(role.update_collaborator(Subsystem::Transport, HandleStatus::NotReady), Ok(()));
        assert_eq!(role.collaborator(Subsystem::Transport), HandleStatus::NotReady);
        assert_eq!(role.start(), Err(NodeError::InitializationError(Subsystem::Transport)));
        assert_eq!(role.state(), LifecycleState::Uninitialized);
        assert_eq!(role.next_action(), Action::Idle);
        assert_eq!(role.started_count(), 0);
        assert!(!role.has_active_scheduler());
        assert_eq!(role.update_collaborator(Subsystem::Transport, HandleStatus::Ready), Ok(()));
        assert_eq!(role.start(), Ok(()));
        assert_eq!(role.state(), LifecycleState::Starting);
    }
}

#[test]
fn shutdown_twice_stops_nothing_twice() {
    let mut role = new_role(RoleKind::Validator);
    bring_up(&mut role, 5);
    let first = role.shutdown();
    assert_eq!(first.len(), 6);
    let second = role.shutdown();
    assert!(second.is_empty());
    assert_eq!(role.state(), LifecycleState::ShuttingDown);
    role.finish_shutdown();
    let third = role.shutdown();
    assert!(third.is_empty());
    role.finish_shutdown();
    assert_eq!(role.state(), LifecycleState::Stopped);
}

#[test]
fn shutdown_of_a_new_role_does_nothing() {
    let mut role = new_role(RoleKind::Client);
    assert!(role.shutdown().is_empty());
    role.finish_shutdown();
    assert_eq!(role.state(), LifecycleState::Uninitialized);
    assert_eq!(role.start(), Ok(()));
}

#[test]
fn start_twice_is_an_invalid_transition() {
    let mut role = new_role(RoleKind::Prover);
    assert_eq!(role.start(), Ok(()));
    assert_eq!(role.start(), Err(NodeError::InvalidStateTransition));
    assert_eq!(role.state(), LifecycleState::Starting);
    let mut role = new_role(RoleKind::Prover);
    bring_up(&mut role, 0);
    assert_eq!(role.start(), Err(NodeError::InvalidStateTransition));
    assert_eq!(role.state(), LifecycleState::Running);
    role.shutdown();
    assert_eq!(role.start(), Err(NodeError::InvalidStateTransition));
    role.finish_shutdown();
    assert_eq!(role.start(), Err(NodeError::InvalidStateTransition));
    assert_eq!(role.state(), LifecycleState::Stopped);
}

#[test]
fn failed_start_names_the_subsystem_and_waits_for_shutdown() {
    let mut role = new_role(RoleKind::Validator);
    assert_eq!(role.start(), Ok(()));
    assert_eq!(role.subsystem_started(Subsystem::Transport, true), Ok(()));
    assert_eq!(role.subsystem_started(Subsystem::Routing, true), Ok(()));
    assert_eq!(
        role.subsystem_started(Subsystem::Consensus, false),
        Err(NodeError::StartupError(Subsystem::Consensus))
    );
    assert_eq!(role.state(), LifecycleState::Starting);
    assert_eq!(role.failed_subsystem(), Some(Subsystem::Consensus));
    assert_eq!(role.started_count(), 2);
    assert_eq!(role.next_action(), Action::Idle);
    assert_eq!(
        role.subsystem_started(Subsystem::Consensus, true),
        Err(NodeError::InvalidStateTransition)
    );
    assert_eq!(role.scheduler_spawned(0).err(), Some(NodeError::InvalidStateTransition));
    let plan = role.shutdown();
    assert_eq!(plan, vec![Action::Stop(Subsystem::Routing), Action::Stop(Subsystem::Transport)]);
    assert_eq!(role.state(), LifecycleState::Stopped);
    assert!(role.shutdown().is_empty());
}

#[test]
fn reports_out_of_order_are_refused() {
    let mut role = new_role(RoleKind::Validator);
    assert_eq!(
        role.subsystem_started(Subsystem::Transport, true),
        Err(NodeError::InvalidStateTransition)
    );
    assert_eq!(role.start(), Ok(()));
    assert_eq!(role.next_action(), Action::Start(Subsystem::Transport));
    assert_eq!(
        role.subsystem_started(Subsystem::Routing, true),
        Err(NodeError::InvalidStateTransition)
    );
    assert_eq!(role.scheduler_spawned(0).err(), Some(NodeError::InvalidStateTransition));
    assert_eq!(role.started_count(), 0);
    assert_eq!(role.state(), LifecycleState::Starting);
}

#[test]
fn capabilities_follow_the_role() {
    let client = new_role(RoleKind::Client);
    assert_eq!(client.kind(), RoleKind::Client);
    assert_eq!(client.require_capability(Subsystem::Transport), Ok(()));
    assert_eq!(client.require_capability(Subsystem::Routing), Ok(()));
    assert_eq!(
        client.require_capability(Subsystem::Consensus),
        Err(NodeError::CapabilityUnavailable(Subsystem::Consensus))
    );
    assert_eq!(
        client.require_capability(Subsystem::Mempool),
        Err(NodeError::CapabilityUnavailable(Subsystem::Mempool))
    );
    let prover = new_role(RoleKind::Prover);
    assert_eq!(
        prover.require_capability(Subsystem::Rest),
        Err(NodeError::CapabilityUnavailable(Subsystem::Rest))
    );
    let validator = new_role(RoleKind::Validator);
    for s in [
        Subsystem::Transport,
        Subsystem::Routing,
        Subsystem::Consensus,
        Subsystem::Mempool,
        Subsystem::Rest,
    ] {
        assert_eq!(validator.require_capability(s), Ok(()));
        assert!(has_capability(RoleKind::Validator, s));
    }
    assert!(!has_capability(RoleKind::Client, Subsystem::Rest));
    assert_eq!(owned_count(RoleKind::Client), 2);
    assert_eq!(owned_count(RoleKind::Prover), 2);
    assert_eq!(owned_count(RoleKind::Validator), 5);
    assert_eq!(owned_at(RoleKind::Validator, 4), Subsystem::Rest);
    assert_eq!(owned_at(RoleKind::Client, 1), Subsystem::Routing);
}

#[test]
fn find_unready_takes_the_first_in_start_order() {
    let mut c = all_ready();
    assert_eq!(find_unready(RoleKind::Validator, &c), None);
    c.set(Subsystem::Rest, HandleStatus::Absent);
    c.set(Subsystem::Mempool, HandleStatus::NotReady);
    assert_eq!(c.get(Subsystem::Rest), HandleStatus::Absent);
    assert_eq!(c.get(Subsystem::Consensus), HandleStatus::Ready);
    assert_eq!(find_unready(RoleKind::Validator, &c), Some(Subsystem::Mempool));
    assert_eq!(find_unready(RoleKind::Client, &c), None);
}

#[test]
fn corruption_stops_a_running_role_at_once() {
    let mut role = new_role(RoleKind::Validator);
    assert_eq!(role.fail_on_corruption(None).err(), Some(NodeError::InvalidStateTransition));
    assert_eq!(role.state(), LifecycleState::Uninitialized);
    bring_up(&mut role, 0);
    let record = match role.fail_on_corruption(Some(7)) {
        Ok(record) => record,
        Err(e) => panic!("a running role refused: {:?}", e),
    };
    assert_eq!(record.severity, snarkos_node::Severity::Error);
    assert_eq!(
        record.text,
        "Storage corruption detected! Run `snarkos clean --dev 7` to reset storage"
    );
    assert_eq!(role.state(), LifecycleState::Stopped);
    assert!(role.scheduler_finished());
    assert_eq!(role.started_count(), 0);
    assert!(role.shutdown().is_empty());
    assert_eq!(role.fail_on_corruption(Some(7)).err(), Some(NodeError::InvalidStateTransition));
}

#[test]
fn running_role_emits_bulletins_through_its_task() {
    let mut role = new_role(RoleKind::Client);
    assert!(role.poll_scheduler(1_000).is_none());
    bring_up(&mut role, 100);
    assert!(role.poll_scheduler(279).is_none());
    let record = role.poll_scheduler(280);
    assert_eq!(record.map(|r| r.severity), Some(snarkos_node::Severity::Info));
    assert!(role.poll_scheduler(281).is_none());
    role.shutdown();
    assert!(role.poll_scheduler(460).is_none());
}

#[test]
fn collaborators_are_fixed_once_started() {
    let mut role = new_role(RoleKind::Client);
    assert_eq!(role.start(), Ok(()));
    assert_eq!(
        role.update_collaborator(Subsystem::Routing, HandleStatus::Absent),
        Err(NodeError::InvalidStateTransition)
    );
    assert_eq!(role.collaborator(Subsystem::Routing), HandleStatus::Ready);
}
