use image_tager::pool::{stage_widths, PoolAction, StageWidths, WorkerPool, DOWNLOAD_WIDTH, UPSERT_CHUNK_WIDTH};

#[test]
fn pool_bounds_work_in_flight() {
    let mut p = WorkerPool::new(2, 5);
    assert_eq!(p.next_action(), PoolAction::Launch(0));
    p.launched();
    assert_eq!(p.next_action(), PoolAction::Launch(1));
    p.launched();
    assert_eq!(p.in_flight(), 2);
    assert_eq!(p.next_action(), PoolAction::Wait);
    p.completed();
    assert_eq!(p.next_action(), PoolAction::Launch(2));
}

#[test]
fn pool_runs_to_completion() {
    let mut p = WorkerPool::new(3, 7);
    let mut started = Vec::new();
    let mut max_in_flight = 0;
    loop {
        match p.next_action() {
            PoolAction::Launch(i) => {
                started.push(i);
                p.launched();
                max_in_flight = max_in_flight.max(p.in_flight());
            }
            PoolAction::Wait => p.completed(),
            PoolAction::Finished => break,
        }
    }
    assert_eq!(started, (0..7).collect::<Vec<_>>());
    assert_eq!(max_in_flight, 3);
    assert_eq!(p.in_flight(), 0);
}

#[test]
fn empty_pool_is_finished() {
    let p = WorkerPool::new(4, 0);
    assert_eq!(p.next_action(), PoolAction::Finished);
}

#[test]
fn stage_widths_follow_parallelism() {
    assert_eq!(stage_widths(8), StageWidths { io: 16, compute: 8, network: 8 });
    assert_eq!(stage_widths(0), StageWidths { io: 2, compute: 1, network: 1 });
    assert_eq!(stage_widths(usize::MAX).io, usize::MAX);
    assert_eq!(DOWNLOAD_WIDTH, 4);
    assert_eq!(UPSERT_CHUNK_WIDTH, 32);
}
