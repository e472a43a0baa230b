use backend_core::health::DegradationReason;
use backend_core::lifecycle::{
    EventLog, FnObserver, LifecycleError, LifecycleEvent, LifecycleState,
};
use backend_core::startup::Startup;
use std::cell::{Cell, RefCell};
use std::rc::Rc;

/// Stands for a shutdown coordinator: it counts how often it was run.
struct Coordinator {
    runs: Cell<u32>,
}

impl Coordinator {
    fn new() -> Self {
        Coordinator { runs: Cell::new(0) }
    }

    fn run(&self) {
        self.runs.set(self.runs.get() + 1);
    }
}

const DB: DegradationReason =
    DegradationReason { code: "db_unreachable", message: "database unreachable" };

fn rejected(from: LifecycleState, to: LifecycleState) -> Result<(), LifecycleError> {
    Err(LifecycleError::InvalidTransition { from, to })
}

fn codes(startup: &Startup<EventLog, Coordinator>) -> Vec<&'static str> {
    let mut codes: Vec<&'static str> =
        startup.health().degradation_reasons().iter().map(|reason| reason.code).collect();
    codes.sort();
    codes
}

/// An orchestrator with one recording observer, walked along the path until
/// its lifecycle is in `target`.
fn startup_in(target: LifecycleState) -> Startup<EventLog, Coordinator> {
    let mut startup = Startup::new(Coordinator::new());
    startup.lifecycle_mut().register_observer(EventLog::new());
    if target == LifecycleState::Initializing {
        return startup;
    }
    assert_eq!(startup.lifecycle_mut().transition(LifecycleState::Starting), Ok(()));
    if target == LifecycleState::Starting {
        return startup;
    }
    assert_eq!(startup.mark_ready(), Ok(()));
    if target == LifecycleState::Ready {
        return startup;
    }
    assert_eq!(startup.begin_shutdown(), Ok(()));
    if target == LifecycleState::ShuttingDown {
        return startup;
    }
    assert_eq!(startup.finish_shutdown(), Ok(()));
    startup
}

#[test]
fn a_new_orchestrator_is_initializing_live_and_not_ready() {
    let startup: Startup<EventLog, Coordinator> = Startup::new(Coordinator::new());
    assert_eq!(startup.lifecycle().state(), LifecycleState::Initializing);
    assert!(startup.lifecycle().observers().is_empty());
    assert!(startup.health().is_live());
    assert!(!startup.health().is_ready());
    assert_eq!(codes(&startup), vec!["starting"]);
    assert_eq!(startup.shutdown().runs.get(), 0);
}

#[test]
fn the_orchestrator_keeps_the_coordinator_it_was_given() {
    let startup: Startup<EventLog, u32> = Startup::new(41);
    assert_eq!(*startup.shutdown(), 41);
}

#[test]
fn valid_path_completes() {
    let mut startup: Startup<EventLog, Coordinator> = Startup::new(Coordinator::new());
    assert_eq!(startup.lifecycle_mut().transition(LifecycleState::Starting), Ok(()));
    assert_eq!(startup.mark_ready(), Ok(()));
    assert_eq!(startup.lifecycle().state(), LifecycleState::Ready);
    assert!(startup.health().is_ready());
    assert!(startup.health().is_live());
    assert_eq!(startup.shutdown_now(|coordinator: &Coordinator| coordinator.run()), Ok(()));
    assert_eq!(startup.lifecycle().state(), LifecycleState::Terminated);
    assert!(!startup.health().is_live());
    assert!(!startup.health().is_ready());
    assert_eq!(codes(&startup), vec!["shutting_down"]);
    assert_eq!(startup.shutdown().runs.get(), 1);
}

#[test]
fn mark_ready_on_a_new_orchestrator_is_rejected() {
    let mut startup: Startup<EventLog, Coordinator> = Startup::new(Coordinator::new());
    assert_eq!(
        startup.mark_ready(),
        rejected(LifecycleState::Initializing, LifecycleState::Ready)
    );
    assert_eq!(startup.lifecycle().state(), LifecycleState::Initializing);
    assert!(!startup.health().is_ready());
    assert_eq!(codes(&startup), vec!["starting"]);
}

#[test]
fn mark_ready_outside_starting_fails_and_leaves_health_alone() {
    for current in [
        LifecycleState::Initializing,
        LifecycleState::Ready,
        LifecycleState::ShuttingDown,
        LifecycleState::Terminated,
    ] {
        let mut startup = startup_in(current);
        startup.health_mut().add_degradation(DB);
        let live_before = startup.health().is_live();
        let codes_before = codes(&startup);
        let seen_before = startup.lifecycle().observers()[0].events().len();
        assert!(codes_before.contains(&"db_unreachable"));
        assert_eq!(startup.mark_ready(), rejected(current, LifecycleState::Ready));
        assert_eq!(startup.lifecycle().state(), current);
        assert_eq!(codes(&startup), codes_before);
        assert_eq!(startup.health().is_live(), live_before);
        assert!(!startup.health().is_ready());
        assert_eq!(startup.lifecycle().observers()[0].events().len(), seen_before);
    }
}

#[test]
fn mark_ready_twice_fails_the_second_time() {
    let mut startup = startup_in(LifecycleState::Starting);
    assert_eq!(startup.mark_ready(), Ok(()));
    startup.health_mut().add_degradation(DB);
    assert_eq!(startup.mark_ready(), rejected(LifecycleState::Ready, LifecycleState::Ready));
    assert_eq!(codes(&startup), vec!["db_unreachable"]);
}

#[test]
fn mark_ready_clears_every_reason() {
    let mut startup = startup_in(LifecycleState::Starting);
    startup.health_mut().add_degradation(DB);
    assert_eq!(codes(&startup), vec!["db_unreachable", "starting"]);
    assert_eq!(startup.mark_ready(), Ok(()));
    assert!(startup.health().is_ready());
    assert!(startup.health().degradation_reasons().is_empty());
    assert!(startup.health().is_live());
    assert_eq!(
        *startup.lifecycle().observers()[0].events(),
        vec![
            LifecycleEvent { from: LifecycleState::Initializing, to: LifecycleState::Starting },
            LifecycleEvent { from: LifecycleState::Starting, to: LifecycleState::Ready },
        ]
    );
}

#[test]
fn health_is_cleared_after_the_lifecycle_has_moved() {
    // The observer runs inside the transition. Had health been cleared
    // before it, the order in the shared log would be the other way round.
    let log: Rc<RefCell<Vec<&'static str>>> = Rc::new(RefCell::new(Vec::new()));
    let observer_log = Rc::clone(&log);
    let mut startup: Startup<_, Coordinator> = Startup::new(Coordinator::new());
    startup.lifecycle_mut().register_observer(FnObserver::new(move |event: LifecycleEvent| {
        if event.to == LifecycleState::Ready {
            observer_log.borrow_mut().push("moved to ready");
        }
    }));
    assert_eq!(startup.lifecycle_mut().transition(LifecycleState::Starting), Ok(()));
    assert!(!startup.health().is_ready());
    assert_eq!(startup.mark_ready(), Ok(()));
    assert!(startup.health().is_ready());
    assert_eq!(*log.borrow(), vec!["moved to ready"]);
}

#[test]
fn dependencies_can_degrade_a_ready_service() {
    let mut startup = startup_in(LifecycleState::Ready);
    assert!(startup.health().is_ready());
    startup.health_mut().add_degradation(DB);
    assert!(!startup.health().is_ready());
    assert_eq!(startup.lifecycle().state(), LifecycleState::Ready);
    startup.health_mut().remove_degradation(&DB);
    assert!(startup.health().is_ready());
}

#[test]
fn shutdown_now_outside_ready_fails_and_changes_nothing() {
    for current in [
        LifecycleState::Initializing,
        LifecycleState::Starting,
        LifecycleState::ShuttingDown,
        LifecycleState::Terminated,
    ] {
        let mut startup = startup_in(current);
        let live_before = startup.health().is_live();
        let codes_before = codes(&startup);
        let seen_before = startup.lifecycle().observers()[0].events().len();
        assert_eq!(
            startup.shutdown_now(|coordinator: &Coordinator| coordinator.run()),
            rejected(current, LifecycleState::ShuttingDown)
        );
        assert_eq!(startup.lifecycle().state(), current);
        assert_eq!(startup.health().is_live(), live_before);
        assert_eq!(codes(&startup), codes_before);
        assert_eq!(startup.lifecycle().observers()[0].events().len(), seen_before);
        assert_eq!(startup.shutdown().runs.get(), 0);
    }
}

#[test]
fn shutdown_now_is_one_shot() {
    let mut startup = startup_in(LifecycleState::Ready);
    assert_eq!(startup.shutdown_now(|coordinator: &Coordinator| coordinator.run()), Ok(()));
    assert_eq!(
        startup.shutdown_now(|coordinator: &Coordinator| coordinator.run()),
        rejected(LifecycleState::Terminated, LifecycleState::ShuttingDown)
    );
    assert_eq!(startup.shutdown().runs.get(), 1);
    assert_eq!(startup.lifecycle().state(), LifecycleState::Terminated);
}

#[test]
fn shutdown_now_tells_observers_of_both_steps() {
    let mut startup = startup_in(LifecycleState::Ready);
    assert_eq!(startup.shutdown_now(|coordinator: &Coordinator| coordinator.run()), Ok(()));
    let events = startup.lifecycle().observers()[0].events();
    assert_eq!(events.len(), 4);
    assert_eq!(
        events[2],
        LifecycleEvent { from: LifecycleState::Ready, to: LifecycleState::ShuttingDown }
    );
    assert_eq!(
        events[3],
        LifecycleEvent { from: LifecycleState::ShuttingDown, to: LifecycleState::Terminated }
    );
}

#[test]
fn shutdown_now_keeps_the_reasons_that_were_there() {
    let mut startup = startup_in(LifecycleState::Ready);
    startup.health_mut().add_degradation(DB);
    assert_eq!(startup.shutdown_now(|coordinator: &Coordinator| coordinator.run()), Ok(()));
    assert_eq!(codes(&startup), vec!["db_unreachable", "shutting_down"]);
    assert!(!startup.health().is_ready());
}

#[test]
fn health_is_flipped_before_the_coordinator_runs() {
    let mut startup = startup_in(LifecycleState::Ready);
    assert_eq!(startup.begin_shutdown(), Ok(()));
    assert_eq!(startup.lifecycle().state(), LifecycleState::ShuttingDown);
    assert!(!startup.health().is_live());
    assert!(!startup.health().is_ready());
    assert_eq!(codes(&startup), vec!["shutting_down"]);
    startup.shutdown().run();
    assert_eq!(startup.lifecycle().state(), LifecycleState::ShuttingDown);
    assert_eq!(startup.finish_shutdown(), Ok(()));
    assert_eq!(startup.lifecycle().state(), LifecycleState::Terminated);
    assert!(!startup.health().is_live());
    assert!(!startup.health().is_ready());
}

#[test]
fn begin_shutdown_outside_ready_fails_and_changes_nothing() {
    for current in [
        LifecycleState::Initializing,
        LifecycleState::Starting,
        LifecycleState::ShuttingDown,
        LifecycleState::Terminated,
    ] {
        let mut startup = startup_in(current);
        let live_before = startup.health().is_live();
        let codes_before = codes(&startup);
        assert_eq!(startup.begin_shutdown(), rejected(current, LifecycleState::ShuttingDown));
        assert_eq!(startup.lifecycle().state(), current);
        assert_eq!(startup.health().is_live(), live_before);
        assert_eq!(codes(&startup), codes_before);
    }
}

#[test]
fn finish_shutdown_without_a_beginning_is_rejected() {
    for current in [
        LifecycleState::Initializing,
        LifecycleState::Starting,
        LifecycleState::Ready,
        LifecycleState::Terminated,
    ] {
        let mut startup = startup_in(current);
        let live_before = startup.health().is_live();
        let codes_before = codes(&startup);
        assert_eq!(startup.finish_shutdown(), rejected(current, LifecycleState::Terminated));
        assert_eq!(startup.lifecycle().state(), current);
        assert_eq!(startup.health().is_live(), live_before);
        assert_eq!(codes(&startup), codes_before);
    }
}

#[test]
fn finish_shutdown_surfaces_a_conflicting_move() {
    let mut startup = startup_in(LifecycleState::Ready);
    assert_eq!(startup.begin_shutdown(), Ok(()));
    assert_eq!(startup.lifecycle_mut().transition(LifecycleState::Terminated), Ok(()));
    assert_eq!(
        startup.finish_shutdown(),
        rejected(LifecycleState::Terminated, LifecycleState::Terminated)
    );
}
