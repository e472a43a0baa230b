//! Supervision of one service's operational life.
//!
//! * [`lifecycle`]: the five phases of a service, the transitions between
//!   them, and the observers that are told of every accepted transition.
//! * [`health`]: the liveness flag and the set of degradation reasons from
//!   which readiness is derived.
//! * [`startup`]: the orchestrator that sequences the two when a service
//!   becomes ready and when it shuts down.
//!
//! Every type here is a plain owned value: mutation goes through `&mut`, and
//! a caller that shares a value between threads puts it behind a lock of its
//! own choosing.
pub mod health;
pub mod lifecycle;
pub mod startup;

use lifecycle::{Lifecycle, LifecycleError, LifecycleObserver, LifecycleState};
use vstd::prelude::*;

verus! {

/// Execute a minimal shutdown flow on the given lifecycle, with
/// `run_shutdown` as the way to run the shutdown coordinator to completion.
///
/// Moves the lifecycle to `ShuttingDown`, runs `run_shutdown`, then moves
/// the lifecycle to `Terminated`. If the first move is rejected, the error
/// is returned, `run_shutdown` is not called and nothing changes. This
/// function performs no signal handling and does not assume any runtime
/// ownership.
pub fn shutdown_flow<O: LifecycleObserver, F: FnOnce()>(
    lifecycle: &mut Lifecycle<O>,
    run_shutdown: F,
) -> (result: Result<(), LifecycleError>)
    requires
        call_requires(run_shutdown, ()),
    ensures
        result == old(lifecycle)@.transition_result(LifecycleState::ShuttingDown),
        final(lifecycle)@ == old(lifecycle)@.after_shutdown_flow(),
        result is Ok <==> old(lifecycle)@.state == LifecycleState::Ready,
        result is Ok ==> call_ensures(run_shutdown, (), ()),
        result is Ok ==> final(lifecycle)@.state == LifecycleState::Terminated,
        result is Err ==> final(lifecycle)@ == old(lifecycle)@,
{
    match lifecycle.transition(LifecycleState::ShuttingDown) {
        Ok(()) => {},
        Err(error) => {
            return Err(error);
        },
    }
    run_shutdown();
    lifecycle.transition(LifecycleState::Terminated)
}

} // verus!
