//! Roles, the subsystems a role owns, and the order in which they come up.

use vstd::prelude::*;

verus! {

/// Operating mode of a node instance.
#[derive(Clone, Copy, Debug, PartialEq, Eq, Structural)]
pub enum RoleKind {
    Client,
    Prover,
    Validator,
}

/// A collaborator that a role may own. The order of the variants is the
/// order of dependency: each one relies on those before it.
#[derive(Clone, Copy, Debug, PartialEq, Eq, Structural)]
pub enum Subsystem {
    Transport,
    Routing,
    Consensus,
    Mempool,
    Rest,
}

/// What a role knows of one collaborator's handle.
#[derive(Clone, Copy, Debug, PartialEq, Eq, Structural)]
pub enum HandleStatus {
    Absent,
    NotReady,
    Ready,
}

/// The handles a role was given, one status per subsystem.
#[derive(Clone, Copy, Debug, PartialEq, Eq, Structural)]
pub struct Collaborators {
    pub transport: HandleStatus,
    pub routing: HandleStatus,
    pub consensus: HandleStatus,
    pub mempool: HandleStatus,
    pub rest: HandleStatus,
}

/// Position of a subsystem in the order of dependency.
pub open spec fn dependency_rank(s: Subsystem) -> nat {
    match s {
        Subsystem::Transport => 0,
        Subsystem::Routing => 1,
        Subsystem::Consensus => 2,
        Subsystem::Mempool => 3,
        Subsystem::Rest => 4,
    }
}

/// The subsystems that a role of this kind owns, in the order in which they
/// are started.
pub open spec fn owned(kind: RoleKind) -> Seq<Subsystem> {
    match kind {
        RoleKind::Client => seq![Subsystem::Transport, Subsystem::Routing],
        RoleKind::Prover => seq![Subsystem::Transport, Subsystem::Routing],
        RoleKind::Validator => seq![
            Subsystem::Transport,
            Subsystem::Routing,
            Subsystem::Consensus,
            Subsystem::Mempool,
            Subsystem::Rest,
        ],
    }
}

/// The first owned subsystem, from position `i` on, whose handle is not
/// ready; `None` where all of them are.
pub open spec fn first_unready_from(kind: RoleKind, c: Collaborators, i: nat) -> Option<Subsystem>
    decreases owned(kind).len() - i,
{
    if i >= owned(kind).len() {
        None
    } else if c.status(owned(kind)[i as int]) != HandleStatus::Ready {
        Some(owned(kind)[i as int])
    } else {
        first_unready_from(kind, c, i + 1)
    }
}

/// The first owned subsystem whose handle is absent or not ready.
pub open spec fn first_unready(kind: RoleKind, c: Collaborators) -> Option<Subsystem> {
    first_unready_from(kind, c, 0)
}

impl Collaborators {
    /// The status recorded for `s`.
    pub open spec fn status(self, s: Subsystem) -> HandleStatus {
        match s {
            Subsystem::Transport => self.transport,
            Subsystem::Routing => self.routing,
            Subsystem::Consensus => self.consensus,
            Subsystem::Mempool => self.mempool,
            Subsystem::Rest => self.rest,
        }
    }

    /// These handles with the status of `s` replaced.
    pub open spec fn with_status(self, s: Subsystem, status: HandleStatus) -> Collaborators {
        match s {
            Subsystem::Transport => Collaborators { transport: status, ..self },
            Subsystem::Routing => Collaborators { routing: status, ..self },
            Subsystem::Consensus => Collaborators { consensus: status, ..self },
            Subsystem::Mempool => Collaborators { mempool: status, ..self },
            Subsystem::Rest => Collaborators { rest: status, ..self },
        }
    }

    /// Handles with one status for every subsystem.
    pub fn uniform(status: HandleStatus) -> (c: Collaborators)
        ensures
            forall|s: Subsystem| c.status(s) == status,
    {
        Collaborators {
            transport: status,
            routing: status,
            consensus: status,
            mempool: status,
            rest: status,
        }
    }

    /// Reads the status recorded for `s`.
    pub fn get(&self, s: Subsystem) -> (status: HandleStatus)
        ensures
            status == self.status(s),
    {
        match s {
            Subsystem::Transport => self.transport,
            Subsystem::Routing => self.routing,
            Subsystem::Consensus => self.consensus,
            Subsystem::Mempool => self.mempool,
            Subsystem::Rest => self.rest,
        }
    }

    /// Records `status` for `s` and leaves the others as they are.
    pub fn set(&mut self, s: Subsystem, status: HandleStatus)
        ensures
            *final(self) == old(self).with_status(s, status),
    {
        match s {
            Subsystem::Transport => self.transport = status,
            Subsystem::Routing => self.routing = status,
            Subsystem::Consensus => self.consensus = status,
            Subsystem::Mempool => self.mempool = status,
            Subsystem::Rest => self.rest = status,
        }
    }
}

/// Number of subsystems that a role of this kind owns.
pub fn owned_count(kind: RoleKind) -> (n: usize)
    ensures
        n == owned(kind).len(),
{
    match kind {
        RoleKind::Client => 2,
        RoleKind::Prover => 2,
        RoleKind::Validator => 5,
    }
}

/// The owned subsystem at position `i` of the start order.
pub fn owned_at(kind: RoleKind, i: usize) -> (s: Subsystem)
    requires
        i < owned(kind).len(),
    ensures
        s == owned(kind)[i as int],
{
    if i == 0 {
        Subsystem::Transport
    } else if i == 1 {
        Subsystem::Routing
    } else if i == 2 {
        Subsystem::Consensus
    } else if i == 3 {
        Subsystem::Mempool
    } else {
        Subsystem::Rest
    }
}

/// Whether a role of this kind owns `s`.
pub fn has_capability(kind: RoleKind, s: Subsystem) -> (yes: bool)
    ensures
        yes == owned(kind).contains(s),
{
    let yes = match s {
        Subsystem::Transport => true,
        Subsystem::Routing => true,
        _ => match kind {
            RoleKind::Validator => true,
            _ => false,
        },
    };
    proof {
        let o = owned(kind);
        if yes {
            assert(o[dependency_rank(s) as int] == s);
        }
    }
    yes
}

/// Finds the first owned subsystem whose handle is absent or not ready.
pub fn find_unready(kind: RoleKind, c: &Collaborators) -> (missing: Option<Subsystem>)
    ensures
        missing == first_unready(kind, *c),
{
    let n = owned_count(kind);
    let mut i: usize = 0;
    while i < n
        invariant
            n == owned(kind).len(),
            i <= n,
            first_unready_from(kind, *c, i as nat) == first_unready(kind, *c),
        decreases n - i,
    {
        let s = owned_at(kind, i);
        match c.get(s) {
            HandleStatus::Ready => {},
            _ => {
                return Some(s);
            },
        }
        i += 1;
    }
    None
}

/// Every role starts its subsystems in the order of dependency: of two owned
/// subsystems the one that is started first has the lower rank, so transport
/// and routing precede consensus and mempool, and these precede REST.
pub proof fn lemma_start_order_follows_dependencies(kind: RoleKind, i: int, j: int)
    requires
        0 <= i < j < owned(kind).len(),
    ensures
        dependency_rank(owned(kind)[i]) < dependency_rank(owned(kind)[j]),
{
}

/// Every role owns transport and routing; of the three kinds only the
/// validator owns consensus, mempool and REST.
pub proof fn lemma_capabilities(kind: RoleKind, s: Subsystem)
    ensures
        owned(kind).contains(s) <==> (s == Subsystem::Transport || s == Subsystem::Routing || kind
            == RoleKind::Validator),
{
    let o = owned(kind);
    if s == Subsystem::Transport || s == Subsystem::Routing || kind == RoleKind::Validator {
        assert(o[dependency_rank(s) as int] == s);
    }
}

/// Whether the handle of the owned subsystem at position `i` is ready.
pub open spec fn ready_at(kind: RoleKind, c: Collaborators, i: int) -> bool {
    c.status(owned(kind)[i]) == HandleStatus::Ready
}

/// No unready subsystem is found exactly when every owned handle is ready.
pub proof fn lemma_none_unready(kind: RoleKind, c: Collaborators)
    ensures
        first_unready(kind, c) is None <==> (forall|i: int|
            0 <= i < owned(kind).len() ==> ready_at(kind, c, i)),
{
    lemma_none_unready_from(kind, c, 0);
}

/// The subsystem that is found is the one at the first position whose handle
/// is not ready.
pub proof fn lemma_first_unready(kind: RoleKind, c: Collaborators, k: int)
    requires
        0 <= k < owned(kind).len(),
        !ready_at(kind, c, k),
        forall|i: int| 0 <= i < k ==> ready_at(kind, c, i),
    ensures
        first_unready(kind, c) == Some(owned(kind)[k]),
{
    lemma_first_unready_from(kind, c, k, 0);
}

proof fn lemma_none_unready_from(kind: RoleKind, c: Collaborators, from: nat)
    requires
        from <= owned(kind).len(),
    ensures
        first_unready_from(kind, c, from) is None <==> (forall|i: int|
            from <= i < owned(kind).len() ==> ready_at(kind, c, i)),
    decreases owned(kind).len() - from,
{
    if from < owned(kind).len() {
        if ready_at(kind, c, from as int) {
            lemma_none_unready_from(kind, c, from + 1);
        }
    }
}

proof fn lemma_first_unready_from(kind: RoleKind, c: Collaborators, k: int, from: nat)
    requires
        from <= k < owned(kind).len(),
        !ready_at(kind, c, k),
        forall|i: int| from <= i < k ==> ready_at(kind, c, i),
    ensures
        first_unready_from(kind, c, from) == Some(owned(kind)[k]),
    decreases k - from,
{
    if from < k {
        assert(ready_at(kind, c, from as int));
        lemma_first_unready_from(kind, c, k, from + 1);
    }
}

} // verus!
