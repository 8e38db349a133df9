use container_storage::lifecycle::decide;
use container_storage::manager::{ready_answer, settle};
use container_storage::{
    BackendError, ContainerStorageData, ContainerStorageManager, Decision, LifecycleError,
    LifecycleOp, SandboxData, SandboxState, StorageError, StorageRoots, Store,
};

/// A backend that keeps every default.
#[derive(Default)]
struct Plain;

impl Store for Plain {}

/// A backend that records its calls, can be told to fail, and answers
/// readiness as configured.
#[derive(Default)]
struct Recording {
    calls: Vec<String>,
    fail: bool,
    ready_answer: bool,
}

impl Recording {
    fn effect(&mut self, what: &str, sandbox: &SandboxData) -> Result<(), BackendError> {
        self.calls.push(format!("{} {}", what, sandbox.id()));
        if self.fail {
            Err(BackendError::new(format!("{} failed", what)))
        } else {
            Ok(())
        }
    }
}

impl Store for Recording {
    fn run(&mut self, sandbox: &SandboxData) -> Result<(), BackendError> {
        self.effect("run", sandbox)
    }

    fn stop(&mut self, sandbox: &SandboxData) -> Result<(), BackendError> {
        self.effect("stop", sandbox)
    }

    fn remove(&mut self, sandbox: &SandboxData) -> Result<(), BackendError> {
        self.effect("remove", sandbox)
    }

    fn ready(&mut self, sandbox: &SandboxData) -> Result<bool, BackendError> {
        self.calls.push(format!("ready {}", sandbox.id()));
        Ok(self.ready_answer)
    }
}

fn data() -> ContainerStorageData {
    let roots = StorageRoots::resolve(None, None, None, true, "/home/u").unwrap();
    ContainerStorageData::build(roots, None, None, vec![]).unwrap()
}

fn recording(ready_answer: bool) -> ContainerStorageManager<Recording> {
    ContainerStorageManager::with_implementation(
        data(),
        Recording { calls: vec![], fail: false, ready_answer },
    )
}

fn is_already_removed(r: Result<(), StorageError>) -> bool {
    matches!(r, Err(StorageError::Lifecycle(LifecycleError::AlreadyRemoved)))
}

#[test]
fn decisions_follow_the_lifecycle_table() {
    let refused = Decision::Refuse { error: LifecycleError::AlreadyRemoved };
    assert_eq!(decide(SandboxState::Unknown, LifecycleOp::Run), Decision::Call { target: SandboxState::Running });
    assert_eq!(decide(SandboxState::Stopped, LifecycleOp::Run), Decision::Call { target: SandboxState::Running });
    assert_eq!(decide(SandboxState::Running, LifecycleOp::Run), Decision::Skip);
    assert_eq!(decide(SandboxState::Removed, LifecycleOp::Run), refused);
    assert_eq!(decide(SandboxState::Running, LifecycleOp::Stop), Decision::Call { target: SandboxState::Stopped });
    assert_eq!(decide(SandboxState::Unknown, LifecycleOp::Stop), Decision::Skip);
    assert_eq!(decide(SandboxState::Stopped, LifecycleOp::Stop), Decision::Skip);
    assert_eq!(decide(SandboxState::Removed, LifecycleOp::Stop), refused);
    assert_eq!(decide(SandboxState::Unknown, LifecycleOp::Remove), Decision::Call { target: SandboxState::Removed });
    assert_eq!(decide(SandboxState::Running, LifecycleOp::Remove), Decision::Call { target: SandboxState::Removed });
    assert_eq!(decide(SandboxState::Stopped, LifecycleOp::Remove), Decision::Call { target: SandboxState::Removed });
    assert_eq!(decide(SandboxState::Removed, LifecycleOp::Remove), Decision::Skip);
}

#[test]
fn new_manager_tracks_nothing() {
    let m: ContainerStorageManager<Plain> = ContainerStorageManager::new(data());
    assert_eq!(m.sandbox_state(&SandboxData::new(1)), SandboxState::Unknown);
    assert_eq!(m.data().graph_driver_name(), "overlay");
}

#[test]
fn ready_is_false_before_any_run() {
    let mut m = recording(true);
    let a = SandboxData::new(7);
    assert_eq!(m.ready(&a).unwrap(), false);
    assert!(m.implementation().calls.is_empty());
}

#[test]
fn ready_with_default_backend_stays_false_after_run() {
    let mut m: ContainerStorageManager<Plain> = ContainerStorageManager::new(data());
    let a = SandboxData::new(1);
    m.run(&a).unwrap();
    assert_eq!(m.sandbox_state(&a), SandboxState::Running);
    assert_eq!(m.ready(&a).unwrap(), false);
}

#[test]
fn ready_reflects_backend_while_running() {
    let mut m = recording(true);
    let a = SandboxData::new(1);
    m.run(&a).unwrap();
    assert_eq!(m.ready(&a).unwrap(), true);
    m.stop(&a).unwrap();
    assert_eq!(m.ready(&a).unwrap(), false);
    let mut m = recording(false);
    m.run(&a).unwrap();
    assert_eq!(m.ready(&a).unwrap(), false);
}

#[test]
fn remove_twice_succeeds_and_second_is_noop() {
    let mut m = recording(false);
    let a = SandboxData::new(3);
    m.remove(&a).unwrap();
    assert_eq!(m.sandbox_state(&a), SandboxState::Removed);
    m.remove(&a).unwrap();
    assert_eq!(m.sandbox_state(&a), SandboxState::Removed);
    assert_eq!(m.implementation().calls, vec!["remove 3".to_string()]);
}

#[test]
fn run_stop_run_ends_running() {
    let mut m = recording(false);
    let a = SandboxData::new(1);
    m.run(&a).unwrap();
    m.stop(&a).unwrap();
    assert_eq!(m.sandbox_state(&a), SandboxState::Stopped);
    m.run(&a).unwrap();
    assert_eq!(m.sandbox_state(&a), SandboxState::Running);
    assert_eq!(m.implementation().calls, vec!["run 1", "stop 1", "run 1"]);
}

#[test]
fn run_remove_run_is_already_removed() {
    let mut m = recording(false);
    let a = SandboxData::new(1);
    m.run(&a).unwrap();
    m.remove(&a).unwrap();
    assert!(is_already_removed(m.run(&a)));
    assert!(is_already_removed(m.stop(&a)));
    assert_eq!(m.sandbox_state(&a), SandboxState::Removed);
    assert_eq!(m.implementation().calls, vec!["run 1", "remove 1"]);
}

#[test]
fn run_on_running_and_stop_on_unknown_are_noops() {
    let mut m = recording(false);
    let a = SandboxData::new(1);
    let b = SandboxData::new(2);
    m.run(&a).unwrap();
    m.run(&a).unwrap();
    m.stop(&b).unwrap();
    assert_eq!(m.sandbox_state(&b), SandboxState::Unknown);
    m.stop(&a).unwrap();
    m.stop(&a).unwrap();
    assert_eq!(m.implementation().calls, vec!["run 1", "stop 1"]);
}

#[test]
fn backend_failure_leaves_state_unchanged() {
    let mut m = recording(false);
    let a = SandboxData::new(1);
    m.run(&a).unwrap();
    let mut failing = ContainerStorageManager::with_implementation(
        data(),
        Recording { calls: vec![], fail: true, ready_answer: true },
    );
    match failing.run(&a) {
        Err(StorageError::Backend(e)) => assert_eq!(e.message(), "run failed"),
        _ => panic!("expected a backend error"),
    }
    assert_eq!(failing.sandbox_state(&a), SandboxState::Unknown);
    assert!(matches!(failing.remove(&a), Err(StorageError::Backend(_))));
    assert_eq!(failing.sandbox_state(&a), SandboxState::Unknown);
    assert_eq!(m.sandbox_state(&a), SandboxState::Running);
}

#[test]
fn sandboxes_are_independent() {
    let mut m = recording(false);
    let a = SandboxData::new(1);
    let b = SandboxData::new(2);
    m.run(&a).unwrap();
    m.run(&b).unwrap();
    m.remove(&b).unwrap();
    assert_eq!(m.sandbox_state(&a), SandboxState::Running);
    assert_eq!(m.sandbox_state(&b), SandboxState::Removed);
}

#[test]
fn run_and_stop_in_either_order_settle() {
    for start_running in [false, true] {
        for run_first in [false, true] {
            let mut m = recording(false);
            let a = SandboxData::new(9);
            if start_running {
                m.run(&a).unwrap();
            }
            if run_first {
                m.run(&a).unwrap();
                m.stop(&a).unwrap();
                assert_eq!(m.sandbox_state(&a), SandboxState::Stopped);
            } else {
                m.stop(&a).unwrap();
                m.run(&a).unwrap();
                assert_eq!(m.sandbox_state(&a), SandboxState::Running);
            }
        }
    }
}

#[test]
fn default_backend_methods_succeed_and_report_not_ready() {
    let mut b = Plain;
    let a = SandboxData::new(4);
    assert!(b.run(&a).is_ok());
    assert!(b.stop(&a).is_ok());
    assert!(b.remove(&a).is_ok());
    assert_eq!(b.ready(&a).unwrap(), false);
}

#[test]
fn default_backend_runs_stops_and_reruns() {
    let mut m: ContainerStorageManager<Plain> = ContainerStorageManager::new(data());
    let a = SandboxData::new(5);
    assert!(m.run(&a).is_ok());
    assert!(m.stop(&a).is_ok());
    assert!(m.run(&a).is_ok());
    assert_eq!(m.sandbox_state(&a), SandboxState::Running);
    assert_eq!(m.ready(&a).unwrap(), false);
    assert!(m.remove(&a).is_ok());
    assert!(is_already_removed(m.run(&a)));
}

#[test]
fn settle_moves_to_target_on_backend_success() {
    assert_eq!(settle(SandboxState::Stopped, Ok(())).unwrap(), SandboxState::Stopped);
    assert_eq!(settle(SandboxState::Running, Ok(())).unwrap(), SandboxState::Running);
}

#[test]
fn settle_passes_backend_error_on() {
    match settle(SandboxState::Removed, Err(BackendError::new("disk full".to_string()))) {
        Err(StorageError::Backend(e)) => assert_eq!(e.message(), "disk full"),
        _ => panic!("expected the backend's error"),
    }
}

#[test]
fn ready_answer_passes_backend_answer_on() {
    assert_eq!(ready_answer(Ok(true)).unwrap(), true);
    assert_eq!(ready_answer(Ok(false)).unwrap(), false);
    match ready_answer(Err(BackendError::new("probe failed".to_string()))) {
        Err(StorageError::Backend(e)) => assert_eq!(e.message(), "probe failed"),
        _ => panic!("expected the backend's error"),
    }
}

#[test]
fn ready_error_is_not_downgraded() {
    #[derive(Default)]
    struct Broken;
    impl Store for Broken {
        fn ready(&mut self, _: &SandboxData) -> Result<bool, BackendError> {
            Err(BackendError::new("no answer".to_string()))
        }
    }
    let mut m: ContainerStorageManager<Broken> = ContainerStorageManager::new(data());
    let a = SandboxData::new(2);
    m.run(&a).unwrap();
    assert!(matches!(m.ready(&a), Err(StorageError::Backend(_))));
    assert_eq!(m.sandbox_state(&a), SandboxState::Running);
}
