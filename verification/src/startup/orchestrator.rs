use crate::health::{DegradationReason, HealthState, HealthView};
use crate::lifecycle::{Lifecycle, LifecycleError, LifecycleObserver, LifecycleState, LifecycleView};
use vstd::prelude::*;

verus! {

/// What a [`Startup`] is, as far as its contracts are concerned: its
/// lifecycle and its health. It has no state of its own.
pub struct StartupView {
    pub lifecycle: LifecycleView,
    pub health: HealthView,
}

impl StartupView {
    /// What `mark_ready` leaves behind: where the lifecycle may move to
    /// `Ready` it does and health loses every degradation reason; where it
    /// may not, nothing changes.
    pub open spec fn after_mark_ready(self) -> StartupView {
        if self.lifecycle.state.allows(LifecycleState::Ready) {
            StartupView {
                lifecycle: self.lifecycle.after_transition(LifecycleState::Ready),
                health: self.health.after_clear(),
            }
        } else {
            self
        }
    }

    /// What `begin_shutdown` leaves behind: where the lifecycle may move to
    /// `ShuttingDown` it does, and health is dead and degraded by
    /// [`DegradationReason::shutting_down`]; where it may not, nothing
    /// changes.
    pub open spec fn after_begin_shutdown(self) -> StartupView {
        if self.lifecycle.state.allows(LifecycleState::ShuttingDown) {
            StartupView {
                lifecycle: self.lifecycle.after_transition(LifecycleState::ShuttingDown),
                health: HealthView {
                    live: false,
                    reasons: self.health.after_add(DegradationReason::shutting_down_view()).reasons,
                },
            }
        } else {
            self
        }
    }

    /// What `finish_shutdown` leaves behind: the lifecycle moves to
    /// `Terminated` if it may, and health is not touched.
    pub open spec fn after_finish_shutdown(self) -> StartupView {
        StartupView {
            lifecycle: self.lifecycle.after_transition(LifecycleState::Terminated),
            health: self.health,
        }
    }

    /// What `shutdown_now` leaves behind: both halves of a shutdown where
    /// the first is accepted, and nothing where it is not.
    pub open spec fn after_shutdown_now(self) -> StartupView {
        if self.lifecycle.state.allows(LifecycleState::ShuttingDown) {
            self.after_begin_shutdown().after_finish_shutdown()
        } else {
            self
        }
    }

    /// From `Starting`, the whole path completes: `mark_ready` succeeds,
    /// then the shutdown does, in one call of `shutdown_now` or in its two
    /// halves, and the service ends `Terminated`, dead and not ready.
    pub proof fn lemma_valid_path_completes(self)
        requires
            self.lifecycle.state == LifecycleState::Starting,
        ensures
            self.lifecycle.transition_result(LifecycleState::Ready) is Ok,
            self.after_mark_ready().health.ready(),
            self.after_mark_ready().lifecycle.transition_result(LifecycleState::ShuttingDown) is Ok,
            self.after_mark_ready().after_begin_shutdown().lifecycle.transition_result(
                LifecycleState::Terminated,
            ) is Ok,
            ({
                let end = self.after_mark_ready().after_shutdown_now();
                &&& end == self.after_mark_ready().after_begin_shutdown().after_finish_shutdown()
                &&& end.lifecycle.state == LifecycleState::Terminated
                &&& !end.health.live
                &&& !end.health.ready()
            }),
    {
        let shutting_down = self.after_mark_ready().after_begin_shutdown();
        assert(shutting_down.health.reasons.dom().contains(
            DegradationReason::shutting_down_view().code,
        ));
    }

    /// A shutdown begins at most once: once the lifecycle has left `Ready`
    /// for `ShuttingDown` or `Terminated`, `begin_shutdown` is rejected and
    /// changes nothing.
    pub proof fn lemma_shutdown_begins_once(self)
        requires
            self.lifecycle.state == LifecycleState::ShuttingDown || self.lifecycle.state
                == LifecycleState::Terminated,
        ensures
            self.lifecycle.transition_result(LifecycleState::ShuttingDown) is Err,
            self.after_begin_shutdown() == self,
            self.after_shutdown_now() == self,
            self.after_mark_ready() == self,
    {
    }
}

/// Core startup orchestrator.
///
/// Coordinates lifecycle, health, and shutdown concerns without owning any
/// runtime or framework. `O` is the kind of observer that the lifecycle
/// notifies. `C` is the shutdown coordinator: the orchestrator keeps it and
/// hands it to whoever runs it, and knows nothing of what it does.
pub struct Startup<O: LifecycleObserver, C> {
    lifecycle: Lifecycle<O>,
    shutdown_coordinator: C,
    health: HealthState,
}

impl<O: LifecycleObserver, C> View for Startup<O, C> {
    type V = StartupView;

    closed spec fn view(&self) -> StartupView {
        StartupView { lifecycle: self.lifecycle@, health: self.health@ }
    }
}

impl<O: LifecycleObserver, C> Startup<O, C> {
    /// The shutdown coordinator that this orchestrator keeps.
    pub closed spec fn coordinator(&self) -> C {
        self.shutdown_coordinator
    }

    /// An orchestrator for a service that is `Initializing`: no observers,
    /// alive, and not ready because it is starting.
    pub fn new(shutdown_coordinator: C) -> (startup: Self)
        ensures
            startup@.lifecycle.state == LifecycleState::Initializing,
            startup@.lifecycle.received.len() == 0,
            startup@.health.live,
            startup@.health.reasons == map![
                DegradationReason::starting_view().code => DegradationReason::starting_view().message
            ],
            startup.coordinator() == shutdown_coordinator,
    {
        Startup { lifecycle: Lifecycle::new(), shutdown_coordinator, health: HealthState::new() }
    }

    /// The lifecycle, for whoever wants to know the current state.
    pub fn lifecycle(&self) -> (lifecycle: &Lifecycle<O>)
        ensures
            lifecycle@ == self@.lifecycle,
    {
        &self.lifecycle
    }

    /// The lifecycle, for whoever drives it through startup or registers
    /// observers.
    pub fn lifecycle_mut(&mut self) -> (lifecycle: &mut Lifecycle<O>)
        ensures
            lifecycle@ == old(self)@.lifecycle,
            final(self)@ == (StartupView { lifecycle: final(lifecycle)@, health: old(self)@.health }),
            final(self).coordinator() == old(self).coordinator(),
    {
        &mut self.lifecycle
    }

    /// The health state, for whoever answers liveness and readiness probes.
    pub fn health(&self) -> (health: &HealthState)
        ensures
            health@ == self@.health,
    {
        &self.health
    }

    /// The health state, for whoever reports that a dependency has become
    /// unhealthy or healthy again.
    pub fn health_mut(&mut self) -> (health: &mut HealthState)
        ensures
            health@ == old(self)@.health,
            final(self)@ == (StartupView { lifecycle: old(self)@.lifecycle, health: final(health)@ }),
            final(self).coordinator() == old(self).coordinator(),
    {
        &mut self.health
    }

    /// The shutdown coordinator.
    pub fn shutdown(&self) -> (coordinator: &C)
        ensures
            *coordinator == self.coordinator(),
    {
        &self.shutdown_coordinator
    }

    /// Mark the service as ready.
    ///
    /// Fails if the lifecycle is not in `Starting`, and then changes
    /// nothing: health is cleared only once the lifecycle has moved.
    pub fn mark_ready(&mut self) -> (result: Result<(), LifecycleError>)
        ensures
            result == old(self)@.lifecycle.transition_result(LifecycleState::Ready),
            final(self)@ == old(self)@.after_mark_ready(),
            final(self).coordinator() == old(self).coordinator(),
            result is Ok <==> old(self)@.lifecycle.state == LifecycleState::Starting,
            result is Ok ==> final(self)@.lifecycle.state == LifecycleState::Ready
                && final(self)@.health.ready(),
            result is Err ==> final(self)@ == old(self)@,
    {
        match self.lifecycle.transition(LifecycleState::Ready) {
            Ok(()) => {},
            Err(error) => {
                return Err(error);
            },
        }
        self.health.clear_degradations();
        Ok(())
    }

    /// First half of a shutdown: everything that happens before the
    /// shutdown coordinator runs.
    ///
    /// Moves the lifecycle to `ShuttingDown`, then marks the service not
    /// ready, by [`DegradationReason::shutting_down`], and dead. Fails if
    /// the lifecycle is not in `Ready`, and then changes nothing. After
    /// `Ok` the caller runs the coordinator to completion and calls
    /// [`finish_shutdown`](Self::finish_shutdown).
    pub fn begin_shutdown(&mut self) -> (result: Result<(), LifecycleError>)
        ensures
            result == old(self)@.lifecycle.transition_result(LifecycleState::ShuttingDown),
            final(self)@ == old(self)@.after_begin_shutdown(),
            final(self).coordinator() == old(self).coordinator(),
            result is Ok <==> old(self)@.lifecycle.state == LifecycleState::Ready,
            result is Ok ==> final(self)@.lifecycle.state == LifecycleState::ShuttingDown
                && !final(self)@.health.live && !final(self)@.health.ready(),
            result is Err ==> final(self)@ == old(self)@,
    {
        match self.lifecycle.transition(LifecycleState::ShuttingDown) {
            Ok(()) => {},
            Err(error) => {
                return Err(error);
            },
        }
        self.health.add_degradation(DegradationReason::shutting_down());
        self.health.mark_dead();
        assert(self@.health.reasons.dom().contains(DegradationReason::shutting_down_view().code));
        Ok(())
    }

    /// Execute a full shutdown sequence, with `run_shutdown` as the way to
    /// run the shutdown coordinator to completion.
    ///
    /// 1. Moves the lifecycle to `ShuttingDown`; if that is rejected,
    ///    returns the error and does nothing else.
    /// 2. Marks the service not ready and dead.
    /// 3. Runs `run_shutdown` on the coordinator and waits for it.
    /// 4. Moves the lifecycle to `Terminated`.
    ///
    /// A second call finds the lifecycle `Terminated` and is rejected.
    pub fn shutdown_now<F: FnOnce(&C)>(&mut self, run_shutdown: F) -> (result: Result<
        (),
        LifecycleError,
    >)
        requires
            call_requires(run_shutdown, (&old(self).coordinator(),)),
        ensures
            result == old(self)@.lifecycle.transition_result(LifecycleState::ShuttingDown),
            final(self)@ == old(self)@.after_shutdown_now(),
            final(self).coordinator() == old(self).coordinator(),
            result is Ok <==> old(self)@.lifecycle.state == LifecycleState::Ready,
            result is Ok ==> call_ensures(run_shutdown, (&old(self).coordinator(),), ()),
            result is Ok ==> final(self)@.lifecycle.state == LifecycleState::Terminated
                && !final(self)@.health.live && !final(self)@.health.ready(),
            result is Err ==> final(self)@ == old(self)@,
    {
        match self.begin_shutdown() {
            Ok(()) => {},
            Err(error) => {
                return Err(error);
            },
        }
        run_shutdown(&self.shutdown_coordinator);
        self.finish_shutdown()
    }

    /// Second half of a shutdown: what happens once the shutdown
    /// coordinator has completed.
    ///
    /// Moves the lifecycle to `Terminated`. Fails if the lifecycle is not in
    /// `ShuttingDown`, which is where `begin_shutdown` left it unless
    /// somebody else has moved it since.
    pub fn finish_shutdown(&mut self) -> (result: Result<(), LifecycleError>)
        ensures
            result == old(self)@.lifecycle.transition_result(LifecycleState::Terminated),
            final(self)@ == old(self)@.after_finish_shutdown(),
            final(self).coordinator() == old(self).coordinator(),
            result is Ok <==> old(self)@.lifecycle.state == LifecycleState::ShuttingDown,
            result is Ok ==> final(self)@.lifecycle.state == LifecycleState::Terminated,
            result is Err ==> final(self)@ == old(self)@,
    {
        self.lifecycle.transition(LifecycleState::Terminated)
    }
}

} // verus!
