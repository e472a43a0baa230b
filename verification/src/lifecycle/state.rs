use vstd::prelude::*;

verus! {

/// Discrete lifecycle states for a service.
///
/// States follow a strict linear progression and cannot be skipped,
/// repeated or reordered.
#[derive(Debug, Clone, Copy, PartialEq, Eq, Structural)]
pub enum LifecycleState {
    /// Initial construction phase.
    Initializing,
    /// Startup in progress.
    Starting,
    /// Service is ready to accept traffic.
    Ready,
    /// Shutdown has been initiated.
    ShuttingDown,
    /// Service has fully terminated.
    Terminated,
}

/// Errors returned when lifecycle rules are violated.
#[derive(Debug, Clone, Copy, PartialEq, Eq, Structural)]
pub enum LifecycleError {
    /// Returned when an invalid state transition is attempted.
    InvalidTransition { from: LifecycleState, to: LifecycleState },
}

/// One accepted transition, as it is handed to observers.
#[derive(Debug, Clone, Copy, PartialEq, Eq, Structural)]
pub struct LifecycleEvent {
    pub from: LifecycleState,
    pub to: LifecycleState,
}

impl LifecycleState {
    /// Position of the state along the one path that a service walks:
    /// `Initializing` is 0 and `Terminated` is 4.
    pub open spec fn rank(self) -> nat {
        match self {
            LifecycleState::Initializing => 0,
            LifecycleState::Starting => 1,
            LifecycleState::Ready => 2,
            LifecycleState::ShuttingDown => 3,
            LifecycleState::Terminated => 4,
        }
    }

    /// The transition graph: the four edges that exist, and no other.
    pub open spec fn allows(self, next: LifecycleState) -> bool {
        ||| (self == LifecycleState::Initializing && next == LifecycleState::Starting)
        ||| (self == LifecycleState::Starting && next == LifecycleState::Ready)
        ||| (self == LifecycleState::Ready && next == LifecycleState::ShuttingDown)
        ||| (self == LifecycleState::ShuttingDown && next == LifecycleState::Terminated)
    }

    /// Whether a service in state `self` may move to `next`.
    #[verifier::when_used_as_spec(allows)]
    pub fn can_transition_to(self, next: LifecycleState) -> (allowed: bool)
        ensures
            allowed == self.allows(next),
    {
        match (self, next) {
            (LifecycleState::Initializing, LifecycleState::Starting) => true,
            (LifecycleState::Starting, LifecycleState::Ready) => true,
            (LifecycleState::Ready, LifecycleState::ShuttingDown) => true,
            (LifecycleState::ShuttingDown, LifecycleState::Terminated) => true,
            _ => false,
        }
    }

    /// An edge of the graph always leads to the state one step further along
    /// the path, so no state is skipped, repeated or revisited.
    pub proof fn lemma_allowed_is_next_rank(self, next: LifecycleState)
        ensures
            self.allows(next) <==> next.rank() == self.rank() + 1,
    {
    }

    /// No state may follow itself.
    pub proof fn lemma_no_self_loop(self)
        ensures
            !self.allows(self),
    {
    }

    /// An edge cannot be walked backwards.
    pub proof fn lemma_no_reversal(self, next: LifecycleState)
        requires
            self.allows(next),
        ensures
            !next.allows(self),
    {
    }

    /// `Terminated` is absorbing: nothing may follow it.
    pub proof fn lemma_terminated_is_absorbing(next: LifecycleState)
        ensures
            !LifecycleState::Terminated.allows(next),
    {
    }
}

} // verus!
