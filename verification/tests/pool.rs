use web_server::pool::{PoolCreationError, ThreadPool};

fn make_pool(size: usize) -> ThreadPool {
    match ThreadPool::new(size) {
        Ok(p) => p,
        Err(PoolCreationError::InvalidThreadCount) => panic!("pool of size {size} refused"),
    }
}

#[test]
fn zero_size_pool_is_refused() {
    assert!(matches!(
        ThreadPool::new(0),
        Err(PoolCreationError::InvalidThreadCount)
    ));
}

#[test]
fn pool_creates_exactly_n_workers() {
    for n in 1..8 {
        let p = make_pool(n);
        assert_eq!(p.worker_count(), n);
        for w in 0..n {
            assert!(p.worker_running(w));
        }
        assert!(p.is_connected());
        assert_eq!(p.pending_count(), 0);
        assert_eq!(p.submitted_count(), 0);
    }
}

#[test]
fn jobs_execute_exactly_once_across_workers() {
    let k = 9;
    let mut p = make_pool(3);
    let mut submitted = Vec::new();
    for _ in 0..k {
        submitted.push(p.execute());
    }
    assert_eq!(p.pending_count(), k);

    // Interleave the three workers over the queue.
    let mut w = 0;
    while p.pending_count() > 0 {
        let job = p.worker_step(w);
        assert!(job.is_some());
        w = (w + 1) % 3;
    }

    assert_eq!(p.executed_jobs().len(), k);
    for (i, job) in p.executed_jobs().iter().enumerate() {
        assert_eq!(*job, i as u64);
        assert_eq!(
            p.executed_jobs().iter().filter(|j| **j == *job).count(),
            1
        );
    }
    assert_eq!(p.executed_jobs(), &submitted);
}

#[test]
fn teardown_waits_for_all_jobs_then_stops_every_worker() {
    let mut p = make_pool(2);
    for _ in 0..5 {
        p.execute();
    }
    p.shutdown();
    assert!(!p.is_connected());

    // Each worker keeps looping: it takes jobs while any are queued and
    // stops once it observes the drained, closed queue.
    for w in 0..2 {
        loop {
            match p.worker_step(w) {
                Some(_) => continue,
                None => break,
            }
        }
        assert!(!p.worker_running(w));
    }

    // Teardown has returned: no job is lost and no worker is left running.
    assert_eq!(p.pending_count(), 0);
    assert_eq!(p.executed_jobs().as_slice(), &[0, 1, 2, 3, 4]);
}

#[test]
fn worker_observes_disconnect_on_empty_queue() {
    let mut p = make_pool(1);
    p.shutdown();
    assert_eq!(p.worker_step(0), None);
    assert!(!p.worker_running(0));
}
