use gatekeeper_supervisor::{
    reap_result, terminate_result, Process, StatusStep, Supervisor, SupervisorError, WorkerStatus,
};

/// Stands in for an OS process handle.
#[derive(Debug, PartialEq)]
struct FakeChild(u32);

fn spawned(pid: u32) -> Result<Process<FakeChild>, String> {
    Ok(Process { handle: FakeChild(pid), pid })
}

fn start(sup: &mut Supervisor<FakeChild>, spawn: Result<Process<FakeChild>, String>) -> Result<u32, SupervisorError> {
    sup.check_start()?;
    sup.record_spawn(spawn)
}

fn stop(
    sup: &mut Supervisor<FakeChild>,
    terminated: Result<(), String>,
    reaped: Result<(), String>,
) -> Result<(), SupervisorError> {
    let _process = sup.claim_for_stop()?;
    terminate_result(terminated)?;
    reap_result(reaped)
}

fn status(sup: &mut Supervisor<FakeChild>, polled: Result<bool, String>) -> Result<WorkerStatus, SupervisorError> {
    match sup.begin_status() {
        StatusStep::Report(s) => Ok(s),
        StatusStep::Poll(p) => sup.finish_status(p, polled),
    }
}

#[test]
fn new_slot_is_empty() {
    let sup: Supervisor<FakeChild> = Supervisor::new();
    assert!(!sup.is_occupied());
    assert_eq!(sup.pid(), None);
}

#[test]
fn start_stores_pid() {
    let mut sup = Supervisor::new();
    assert_eq!(start(&mut sup, spawned(4242)), Ok(4242));
    assert!(sup.is_occupied());
    assert_eq!(sup.pid(), Some(4242));
}

#[test]
fn start_twice_is_already_running() {
    let mut sup = Supervisor::new();
    assert_eq!(start(&mut sup, spawned(10)), Ok(10));
    assert_eq!(start(&mut sup, spawned(11)), Err(SupervisorError::AlreadyRunning));
    assert_eq!(sup.pid(), Some(10));
}

#[test]
fn check_start_refuses_when_occupied() {
    let mut sup = Supervisor::new();
    assert_eq!(sup.check_start(), Ok(()));
    sup.record_spawn(spawned(3)).unwrap();
    assert_eq!(sup.check_start(), Err(SupervisorError::AlreadyRunning));
}

#[test]
fn spawn_failure_leaves_slot_empty() {
    let mut sup: Supervisor<FakeChild> = Supervisor::new();
    assert_eq!(
        start(&mut sup, Err("no such file".to_string())),
        Err(SupervisorError::SpawnFailed("no such file".to_string()))
    );
    assert_eq!(sup.pid(), None);
    assert_eq!(start(&mut sup, spawned(7)), Ok(7));
}

#[test]
fn stop_on_empty_is_not_running() {
    let mut sup: Supervisor<FakeChild> = Supervisor::new();
    assert!(matches!(sup.claim_for_stop(), Err(SupervisorError::NotRunning)));
    assert_eq!(stop(&mut sup, Ok(()), Ok(())), Err(SupervisorError::NotRunning));
    assert!(!sup.is_occupied());
}

#[test]
fn stop_hands_out_the_handle_and_empties_slot() {
    let mut sup = Supervisor::new();
    start(&mut sup, spawned(55)).unwrap();
    let p = sup.claim_for_stop().ok().unwrap();
    assert_eq!(p.pid, 55);
    assert_eq!(p.handle, FakeChild(55));
    assert_eq!(sup.pid(), None);
}

#[test]
fn stop_success() {
    let mut sup = Supervisor::new();
    start(&mut sup, spawned(8)).unwrap();
    assert_eq!(stop(&mut sup, Ok(()), Ok(())), Ok(()));
    assert!(!sup.is_occupied());
}

#[test]
fn terminate_failure_drops_handle() {
    let mut sup = Supervisor::new();
    start(&mut sup, spawned(9)).unwrap();
    assert_eq!(
        stop(&mut sup, Err("denied".to_string()), Ok(())),
        Err(SupervisorError::TerminateFailed("denied".to_string()))
    );
    assert!(!sup.is_occupied());
    assert_eq!(stop(&mut sup, Ok(()), Ok(())), Err(SupervisorError::NotRunning));
}

#[test]
fn wait_failure_is_reported() {
    let mut sup = Supervisor::new();
    start(&mut sup, spawned(12)).unwrap();
    assert_eq!(
        stop(&mut sup, Ok(()), Err("interrupted".to_string())),
        Err(SupervisorError::WaitFailed("interrupted".to_string()))
    );
    assert!(!sup.is_occupied());
}

#[test]
fn terminate_and_reap_results_map_errors() {
    assert_eq!(terminate_result(Ok(())), Ok(()));
    assert_eq!(terminate_result(Err("x".to_string())), Err(SupervisorError::TerminateFailed("x".to_string())));
    assert_eq!(reap_result(Ok(())), Ok(()));
    assert_eq!(reap_result(Err("y".to_string())), Err(SupervisorError::WaitFailed("y".to_string())));
}

#[test]
fn status_on_empty_is_stopped_without_poll() {
    let mut sup: Supervisor<FakeChild> = Supervisor::new();
    assert!(matches!(sup.begin_status(), StatusStep::Report(WorkerStatus::Stopped)));
    assert_eq!(status(&mut sup, Err("never asked".to_string())), Ok(WorkerStatus::Stopped));
}

#[test]
fn status_running_keeps_slot() {
    let mut sup = Supervisor::new();
    start(&mut sup, spawned(21)).unwrap();
    assert_eq!(status(&mut sup, Ok(false)), Ok(WorkerStatus::Running));
    assert_eq!(sup.pid(), Some(21));
}

#[test]
fn status_exited_clears_slot_then_stays_stopped() {
    let mut sup = Supervisor::new();
    start(&mut sup, spawned(22)).unwrap();
    assert_eq!(status(&mut sup, Ok(true)), Ok(WorkerStatus::Stopped));
    assert_eq!(sup.pid(), None);
    assert!(matches!(sup.begin_status(), StatusStep::Report(WorkerStatus::Stopped)));
}

#[test]
fn status_check_failure_keeps_slot() {
    let mut sup = Supervisor::new();
    start(&mut sup, spawned(23)).unwrap();
    assert_eq!(
        status(&mut sup, Err("poll error".to_string())),
        Err(SupervisorError::CheckFailed("poll error".to_string()))
    );
    assert_eq!(sup.pid(), Some(23));
    assert_eq!(status(&mut sup, Ok(false)), Ok(WorkerStatus::Running));
}

#[test]
fn racing_starts_only_first_wins() {
    let mut sup = Supervisor::new();
    let results: Vec<Result<u32, SupervisorError>> =
        (0..5u32).map(|i| start(&mut sup, spawned(100 + i))).collect();
    assert_eq!(results[0], Ok(100));
    for r in &results[1..] {
        assert_eq!(*r, Err(SupervisorError::AlreadyRunning));
    }
    assert_eq!(sup.pid(), Some(100));
}

#[test]
fn start_stop_status_is_stopped() {
    let mut sup = Supervisor::new();
    start(&mut sup, spawned(31)).unwrap();
    stop(&mut sup, Ok(()), Ok(())).unwrap();
    assert_eq!(status(&mut sup, Ok(false)), Ok(WorkerStatus::Stopped));
}

#[test]
fn start_outside_kill_status_is_stopped() {
    let mut sup = Supervisor::new();
    start(&mut sup, spawned(32)).unwrap();
    assert_eq!(status(&mut sup, Ok(true)), Ok(WorkerStatus::Stopped));
    assert!(!sup.is_occupied());
    assert_eq!(start(&mut sup, spawned(33)), Ok(33));
}
