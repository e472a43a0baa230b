use super::state::LifecycleEvent;
use vstd::prelude::*;

verus! {

/// Something that wants to be told of every accepted lifecycle transition.
///
/// A [`Lifecycle`](super::Lifecycle) calls `on_transition` once per accepted
/// transition, after the new state is in place, on the caller's thread.
/// Observers should return quickly: the transition does not complete before
/// the last of them has.
///
/// [`EventLog`] keeps what it is told; [`FnObserver`] hands it to a function
/// or a closure.
pub trait LifecycleObserver {
    /// Every event this observer has been handed, oldest first.
    spec fn received(&self) -> Seq<LifecycleEvent>;

    /// Takes note of one accepted transition.
    fn on_transition(&mut self, event: LifecycleEvent)
        ensures
            final(self).received() == old(self).received().push(event),
    ;
}

/// An observer that keeps every event it is handed.
pub struct EventLog {
    events: Vec<LifecycleEvent>,
}

impl EventLog {
    /// An observer that has seen nothing yet.
    pub fn new() -> (log: Self)
        ensures
            log.received() == Seq::<LifecycleEvent>::empty(),
    {
        EventLog { events: Vec::new() }
    }

    /// The events seen so far, oldest first.
    pub fn events(&self) -> (events: &Vec<LifecycleEvent>)
        ensures
            events@ == self.received(),
    {
        &self.events
    }
}

impl LifecycleObserver for EventLog {
    closed spec fn received(&self) -> Seq<LifecycleEvent> {
        self.events@
    }

    fn on_transition(&mut self, event: LifecycleEvent) {
        self.events.push(event);
    }
}

/// An observer made of a function: the function is called with every event
/// that the observer is handed.
pub struct FnObserver<F: Fn(LifecycleEvent)> {
    callback: F,
    handed: Ghost<Seq<LifecycleEvent>>,
}

impl<F: Fn(LifecycleEvent)> FnObserver<F> {
    #[verifier::type_invariant]
    spec fn callback_takes_every_event(self) -> bool {
        forall|event: LifecycleEvent| call_requires(self.callback, (event,))
    }

    /// The function that this observer calls.
    pub closed spec fn callback(&self) -> F {
        self.callback
    }

    /// An observer that calls `callback`, and has not called it yet. The
    /// callback has to accept every event.
    pub fn new(callback: F) -> (observer: Self)
        requires
            forall|event: LifecycleEvent| call_requires(callback, (event,)),
        ensures
            observer.callback() == callback,
            observer.received() == Seq::<LifecycleEvent>::empty(),
    {
        FnObserver { callback, handed: Ghost(Seq::empty()) }
    }
}

impl<F: Fn(LifecycleEvent)> LifecycleObserver for FnObserver<F> {
    closed spec fn received(&self) -> Seq<LifecycleEvent> {
        self.handed@
    }

    /// Calls the function with `event`.
    fn on_transition(&mut self, event: LifecycleEvent)
        ensures
            final(self).callback() == old(self).callback(),
            call_ensures(old(self).callback(), (event,), ()),
    {
        proof {
            use_type_invariant(&*self);
        }
        (self.callback)(event);
        self.handed = Ghost(self.handed@.push(event));
    }
}

} // verus!
