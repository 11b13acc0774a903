use job_scheduler::supervisor::{keep_supervising, respawn_indices, WorkerProcess};

#[test]
fn only_exited_workers_are_respawned() {
    let pool = vec![
        WorkerProcess::Exited,
        WorkerProcess::Running,
        WorkerProcess::Unknown,
        WorkerProcess::Exited,
        WorkerProcess::Exited,
    ];
    assert_eq!(respawn_indices(&pool), vec![0, 3, 4]);
}

#[test]
fn a_healthy_pool_needs_nothing() {
    assert_eq!(respawn_indices(&vec![WorkerProcess::Running; 4]), Vec::<usize>::new());
    assert_eq!(respawn_indices(&Vec::new()), Vec::<usize>::new());
}

#[test]
fn supervision_stops_on_a_signal() {
    assert!(keep_supervising(false));
    assert!(!keep_supervising(true));
}
