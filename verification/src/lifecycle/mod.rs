//! The lifecycle state machine and its observers.
pub mod observer;
pub mod state;

pub use observer::{EventLog, FnObserver, LifecycleObserver};
pub use state::{LifecycleError, LifecycleEvent, LifecycleState};

use vstd::prelude::*;

verus! {

/// What a [`Lifecycle`] is, as far as its contracts are concerned: the
/// current state, and for each registered observer, in registration order,
/// the events it has been handed.
pub struct LifecycleView {
    pub state: LifecycleState,
    pub received: Seq<Seq<LifecycleEvent>>,
}

impl LifecycleView {
    /// What `transition(next)` returns in this situation.
    pub open spec fn transition_result(self, next: LifecycleState) -> Result<(), LifecycleError> {
        if self.state.allows(next) {
            Ok(())
        } else {
            Err(LifecycleError::InvalidTransition { from: self.state, to: next })
        }
    }

    /// What `transition(next)` leaves behind. An accepted transition moves
    /// to `next` and hands the event to every observer; a rejected one
    /// changes nothing.
    pub open spec fn after_transition(self, next: LifecycleState) -> LifecycleView {
        if self.state.allows(next) {
            let event = LifecycleEvent { from: self.state, to: next };
            LifecycleView {
                state: next,
                received: Seq::new(self.received.len(), |i: int| self.received[i].push(event)),
            }
        } else {
            self
        }
    }

    /// What registering an observer with the given past leaves behind.
    pub open spec fn after_register(self, past: Seq<LifecycleEvent>) -> LifecycleView {
        LifecycleView { state: self.state, received: self.received.push(past) }
    }

    /// What a shutdown flow leaves behind: from `Ready` the lifecycle moves
    /// to `ShuttingDown` and on to `Terminated`; from anywhere else nothing
    /// changes.
    pub open spec fn after_shutdown_flow(self) -> LifecycleView {
        if self.state.allows(LifecycleState::ShuttingDown) {
            self.after_transition(LifecycleState::ShuttingDown).after_transition(
                LifecycleState::Terminated,
            )
        } else {
            self
        }
    }

    /// How many of `attempts` calls of `transition(next)`, one after the
    /// other, are accepted.
    pub open spec fn accepted_among(self, next: LifecycleState, attempts: nat) -> nat
        decreases attempts,
    {
        if attempts == 0 {
            0
        } else {
            let first: nat = if self.state.allows(next) {
                1
            } else {
                0
            };
            first + self.after_transition(next).accepted_among(next, (attempts - 1) as nat)
        }
    }

    /// What `attempts` calls of `transition(next)`, one after the other,
    /// leave behind.
    pub open spec fn after_attempts(self, next: LifecycleState, attempts: nat) -> LifecycleView
        decreases attempts,
    {
        if attempts == 0 {
            self
        } else {
            self.after_transition(next).after_attempts(next, (attempts - 1) as nat)
        }
    }

    /// Whether `history` is a walk along the graph that ends in `state`:
    /// every event is an edge, each starts where the one before it ended,
    /// and the last one ends in `state`. The empty history is such a walk:
    /// its observer has seen nothing yet.
    pub open spec fn is_walk_to(history: Seq<LifecycleEvent>, state: LifecycleState) -> bool {
        &&& forall|i: int|
            0 <= i < history.len() ==> (#[trigger] history[i]).from.allows(history[i].to)
        &&& forall|i: int, j: int|
            0 <= i && j == i + 1 && j < history.len() ==> (#[trigger] history[i]).to
                == (#[trigger] history[j]).from
        &&& history.len() > 0 ==> history.last().to == state
    }

    /// Whether what each observer has been handed is a walk that ends in
    /// the current state.
    pub open spec fn histories_are_walks(self) -> bool {
        forall|k: int|
            0 <= k < self.received.len() ==> Self::is_walk_to(
                #[trigger] self.received[k],
                self.state,
            )
    }

    /// What an observer is handed stays contiguous: if every history is a
    /// walk that ends in the current state, it still is after any call of
    /// `transition`, accepted or not.
    pub proof fn lemma_transition_extends_walks(self, next: LifecycleState)
        requires
            self.histories_are_walks(),
        ensures
            self.after_transition(next).histories_are_walks(),
    {
        if self.state.allows(next) {
            let after = self.after_transition(next);
            let event = LifecycleEvent { from: self.state, to: next };
            assert forall|k: int| 0 <= k < after.received.len() implies Self::is_walk_to(
                #[trigger] after.received[k],
                after.state,
            ) by {
                // The history that was, with one more edge at its end, and
                // that edge starts where the history ended.
                assert(Self::is_walk_to(self.received[k], self.state));
                assert(after.received[k] == self.received[k].push(event));
            }
        }
    }

    /// Registering an observer whose past is a walk to the current state,
    /// as the empty past of a new observer is, keeps every history a walk.
    pub proof fn lemma_register_keeps_walks(self, past: Seq<LifecycleEvent>)
        requires
            self.histories_are_walks(),
            Self::is_walk_to(past, self.state),
        ensures
            self.after_register(past).histories_are_walks(),
    {
        let after = self.after_register(past);
        assert forall|k: int| 0 <= k < after.received.len() implies Self::is_walk_to(
            #[trigger] after.received[k],
            after.state,
        ) by {
            if k < self.received.len() {
                assert(after.received[k] == self.received[k]);
            } else {
                assert(after.received[k] == past);
            }
        }
    }

    /// A transition that the graph does not have is rejected with both of
    /// its ends named, and leaves the state and every observer as they
    /// were.
    pub proof fn lemma_rejected_transition_changes_nothing(self, next: LifecycleState)
        requires
            !self.state.allows(next),
        ensures
            self.transition_result(next) == Err::<(), LifecycleError>(
                LifecycleError::InvalidTransition { from: self.state, to: next },
            ),
            self.after_transition(next) == self,
    {
    }

    /// Where a transition is not allowed, no number of attempts gets it
    /// accepted.
    pub proof fn lemma_no_winner(self, next: LifecycleState, attempts: nat)
        requires
            !self.state.allows(next),
        ensures
            self.accepted_among(next, attempts) == 0,
            self.after_attempts(next, attempts) == self,
        decreases attempts,
    {
        if attempts > 0 {
            self.lemma_no_winner(next, (attempts - 1) as nat);
        }
    }

    /// Where callers take turns, any number of them who attempt the same
    /// allowed transition have exactly one winner, the first: the state
    /// moves once and every observer is handed the event once.
    pub proof fn lemma_one_winner(self, next: LifecycleState, attempts: nat)
        requires
            self.state.allows(next),
            attempts >= 1,
        ensures
            self.accepted_among(next, attempts) == 1,
            self.after_attempts(next, attempts) == self.after_transition(next),
            self.after_attempts(next, attempts).state == next,
    {
        self.after_transition(next).lemma_no_winner(next, (attempts - 1) as nat);
    }
}

/// Lifecycle state tracker with strict transition validation.
///
/// `O` is the kind of observer that this lifecycle notifies.
pub struct Lifecycle<O: LifecycleObserver> {
    state: LifecycleState,
    observers: Vec<O>,
}

impl<O: LifecycleObserver> View for Lifecycle<O> {
    type V = LifecycleView;

    closed spec fn view(&self) -> LifecycleView {
        LifecycleView {
            state: self.state,
            received: Seq::new(self.observers@.len(), |i: int| self.observers@[i].received()),
        }
    }
}

impl<O: LifecycleObserver> Lifecycle<O> {
    /// Create a new lifecycle initialized to `Initializing`, with no
    /// observers.
    pub fn new() -> (lifecycle: Self)
        ensures
            lifecycle@.state == LifecycleState::Initializing,
            lifecycle@.received.len() == 0,
    {
        Lifecycle { state: LifecycleState::Initializing, observers: Vec::new() }
    }

    /// Register a lifecycle observer.
    ///
    /// Observers are invoked after every accepted transition from now on, in
    /// the order in which they were registered. Transitions of the past are
    /// not replayed.
    pub fn register_observer(&mut self, observer: O)
        ensures
            final(self)@ == old(self)@.after_register(observer.received()),
    {
        self.observers.push(observer);
        assert(self@.received =~= old(self)@.received.push(observer.received()));
    }

    /// Get the current lifecycle state.
    pub fn state(&self) -> (state: LifecycleState)
        ensures
            state == self@.state,
    {
        self.state
    }

    /// The registered observers, in registration order.
    pub fn observers(&self) -> (observers: &Vec<O>)
        ensures
            observers@.len() == self@.received.len(),
            forall|i: int|
                0 <= i < observers@.len() ==> (#[trigger] observers@[i]).received()
                    == self@.received[i],
    {
        &self.observers
    }

    /// Transition to the next lifecycle state.
    ///
    /// If the graph has no edge from the current state to `next`, the call
    /// fails with `InvalidTransition`, the state stays what it was and no
    /// observer is called. Otherwise `next` becomes the current state, and
    /// then every observer is handed the event, once each, in registration
    /// order.
    pub fn transition(&mut self, next: LifecycleState) -> (result: Result<(), LifecycleError>)
        ensures
            result == old(self)@.transition_result(next),
            final(self)@ == old(self)@.after_transition(next),
            result is Ok <==> old(self)@.state.allows(next),
            result is Ok ==> final(self)@.state == next,
            result is Err ==> result == Err::<(), LifecycleError>(
                LifecycleError::InvalidTransition { from: old(self)@.state, to: next },
            ) && final(self)@ == old(self)@,
    {
        let current = self.state;
        if !current.can_transition_to(next) {
            return Err(LifecycleError::InvalidTransition { from: current, to: next });
        }
        self.state = next;
        self.notify_observers(LifecycleEvent { from: current, to: next });
        assert(self@.received =~= old(self)@.after_transition(next).received);
        Ok(())
    }

    /// Hands `event` to every observer, once each, in registration order.
    /// The lifecycle is in the state that the event leads to before the
    /// first of them is called.
    fn notify_observers(&mut self, event: LifecycleEvent)
        requires
            old(self).state == event.to,
        ensures
            final(self).state == old(self).state,
            final(self).observers@.len() == old(self).observers@.len(),
            forall|i: int|
                0 <= i < old(self).observers@.len() ==> (#[trigger] final(self).observers@[i]).received()
                    == old(self).observers@[i].received().push(event),
    {
        let mut i: usize = 0;
        while i < self.observers.len()
            invariant
                i <= self.observers.len(),
                self.state == old(self).state,
                self.observers.len() == old(self).observers.len(),
                forall|j: int|
                    0 <= j < i ==> (#[trigger] self.observers[j]).received()
                        == old(self).observers[j].received().push(event),
                forall|j: int|
                    i <= j < self.observers.len() ==> (#[trigger] self.observers[j])
                        == old(self).observers[j],
            decreases self.observers.len() - i,
        {
            self.observers[i].on_transition(event);
            i += 1;
        }
    }
}

} // verus!
