use spinring::pool::PoolError;
use spinring::pool::TaskQueue;
use spinring::pool::WorkerPool;

#[test]
fn test_pool_dispatch() {
    // More tasks than workers: every submitted task is claimed exactly once,
    // in submission order, and the pool sees all of them completed.
    let mut pool = WorkerPool::new(2, 8);
    for i in 0..5 {
        assert_eq!(pool.submit(i), Ok(()));
    }
    assert_eq!(pool.pending(), 5);

    let mut executed = Vec::new();
    while let Some(task) = pool.claim() {
        executed.push(task);
        pool.task_done(true);
    }
    assert_eq!(executed, vec![0, 1, 2, 3, 4]);
    assert_eq!(pool.pending(), 0);
    assert_eq!(pool.completed_counts(), (5, 0));

    pool.shutdown();
    assert_eq!(pool.claim(), None);
}

#[test]
fn test_pool_closed_rejection() {
    let mut pool = WorkerPool::new(1, 4);
    assert_eq!(pool.submit(41), Ok(()));
    assert!(!pool.is_closed());

    pool.shutdown();
    assert!(pool.is_closed());
    assert_eq!(pool.submit(42), Err(PoolError::Closed));
    assert_eq!(pool.submit(43), Err(PoolError::Closed));

    // work accepted before the close still drains
    assert_eq!(pool.claim(), Some(41));
    pool.task_done(true);
    assert_eq!(pool.claim(), None);
    assert_eq!(pool.completed_counts(), (1, 0));
}

#[test]
fn test_pool_backlog_full() {
    let mut pool = WorkerPool::new(1, 2);
    assert_eq!(pool.submit(1), Ok(()));
    assert_eq!(pool.submit(2), Ok(()));
    assert_eq!(pool.submit(3), Err(PoolError::Full));
    assert_eq!(pool.claim(), Some(1));
    assert_eq!(pool.submit(3), Ok(()));
    assert_eq!(pool.claim(), Some(2));
    assert_eq!(pool.claim(), Some(3));
    assert_eq!(pool.claim(), None);
}

#[test]
fn test_worker_registration() {
    let mut pool = WorkerPool::<i32>::new(2, 4);
    assert_eq!(pool.worker_count(), 2);
    assert!(pool.worker_enter());
    assert!(pool.worker_enter());
    // the pool never grows past its configured size
    assert!(!pool.worker_enter());
    assert_eq!(pool.active_workers(), 2);
    pool.worker_exit();
    assert_eq!(pool.active_workers(), 1);
    assert!(pool.worker_enter());
}

#[test]
fn test_task_failure_isolated() {
    let mut pool = WorkerPool::new(1, 8);
    for i in 0..3 {
        assert_eq!(pool.submit(i), Ok(()));
    }
    assert_eq!(pool.claim(), Some(0));
    pool.task_done(true);
    assert_eq!(pool.claim(), Some(1));
    // one task fails; the pool keeps dispatching and only counts the failure
    pool.task_done(false);
    assert_eq!(pool.claim(), Some(2));
    pool.task_done(true);
    assert_eq!(pool.completed_counts(), (3, 1));
    assert_eq!(pool.submit(9), Ok(()));
    assert_eq!(pool.claim(), Some(9));
}

#[test]
fn test_taskqueue_fifo() {
    let mut queue = TaskQueue::new(4);
    assert_eq!(queue.len(), 0);
    assert_eq!(queue.dequeue(), None);
    for i in 0..4 {
        assert_eq!(queue.enqueue(i), Ok(()));
    }
    assert_eq!(queue.enqueue(4), Err(PoolError::Full));
    assert_eq!(queue.len(), 4);
    for i in 0..4 {
        assert_eq!(queue.dequeue(), Some(i));
    }
    assert_eq!(queue.dequeue(), None);
}
