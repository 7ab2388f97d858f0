use chuchi::pool::{Pool, Reduction, WorkerHandle};
use chuchi::runtime::EngineState;
use chuchi::IdCounter;

fn worker(id: u32) -> WorkerHandle<u32, u32> {
    WorkerHandle { thread: id, shutdown: Some(id) }
}

#[test]
fn prune_removes_finished_in_swap_order() {
    let mut pool: Pool<u32, u32> = Pool::new(4);
    pool.push_worker(worker(1));
    pool.push_worker(worker(2));
    pool.push_worker(worker(3));
    // the first worker terminated: the last one takes its slot
    pool.check_threads(&vec![true, false, false]);
    assert_eq!(pool.threads.len(), 2);
    assert_eq!(pool.threads[0].thread, 3);
    assert_eq!(pool.threads[1].thread, 2);
}

#[test]
fn prune_keeps_all_when_none_finished() {
    let mut pool: Pool<u32, u32> = Pool::new(4);
    pool.push_worker(worker(1));
    pool.push_worker(worker(2));
    pool.check_threads(&vec![false, false]);
    assert_eq!(pool.threads.len(), 2);
}

#[test]
fn empty_pool_spawns_on_first_submission() {
    let mut pool: Pool<u32, u32> = Pool::new(2);
    pool.check_threads(&vec![]);
    assert!(pool.should_spawn(false));
    pool.push_worker(worker(1));
    assert_eq!(pool.threads.len(), 1);
    // a second submission with a quiet queue does not spawn
    assert!(!pool.should_spawn(false));
}

#[test]
fn full_queue_spawns_until_max() {
    let mut pool: Pool<u32, u32> = Pool::new(2);
    assert!(pool.should_spawn(true));
    pool.push_worker(worker(1));
    assert!(pool.should_spawn(true));
    pool.push_worker(worker(2));
    // at the maximum, backpressure instead of another worker
    assert!(!pool.should_spawn(true));
    assert!(!pool.has_capacity());
}

#[test]
fn reduce_keeps_sole_worker() {
    let mut pool: Pool<u32, u32> = Pool::new(4);
    pool.push_worker(worker(1));
    match pool.reduce_one() {
        Reduction::Kept => {}
        _ => panic!("the sole worker must never be shut down"),
    }
    assert_eq!(pool.threads.len(), 1);
}

#[test]
fn reduce_signals_most_recent_worker() {
    let mut pool: Pool<u32, u32> = Pool::new(4);
    pool.push_worker(worker(1));
    pool.push_worker(worker(2));
    match pool.reduce_one() {
        Reduction::Signaled(s) => assert_eq!(s, 2),
        _ => panic!("a two-worker idle pool must signal one"),
    }
    // the signaled worker is still listed, now draining
    assert_eq!(pool.threads.len(), 2);
    assert!(pool.threads[1].shutdown.is_none());
    // and no second worker is signaled while it drains
    match pool.reduce_one() {
        Reduction::Pending => {}
        _ => panic!("at most one worker drains at a time"),
    }
}

#[test]
fn repeated_ticks_leave_one_worker() {
    let mut pool: Pool<u32, u32> = Pool::new(4);
    pool.push_worker(worker(1));
    pool.push_worker(worker(2));
    pool.push_worker(worker(3));
    for _ in 0..8 {
        // a drained worker terminates before the next tick
        let finished: Vec<bool> = pool.threads.iter().map(|w| w.shutdown.is_none()).collect();
        pool.check_threads(&finished);
        let _ = pool.reduce_one();
        assert!(pool.threads.len() >= 1);
    }
    let finished: Vec<bool> = pool.threads.iter().map(|w| w.shutdown.is_none()).collect();
    pool.check_threads(&finished);
    assert_eq!(pool.threads.len(), 1);
}

#[test]
fn routing_callback_is_set_at_most_once() {
    let mut slot: Option<u32> = None;
    chuchi::install_callback(&mut slot, 1);
    assert_eq!(slot, Some(1));
    chuchi::install_callback(&mut slot, 2);
    assert_eq!(slot, Some(1));
}

#[test]
fn correlation_ids_count_up_and_wrap() {
    let mut ids = IdCounter::new();
    assert_eq!(ids.next(), 0);
    assert_eq!(ids.next(), 1);
    assert_eq!(ids.next(), 2);
    let mut high = IdCounter { inner: usize::MAX };
    assert_eq!(high.next(), usize::MAX);
    assert_eq!(high.next(), 0);
}

#[test]
fn replies_reach_their_own_caller() {
    let mut st: EngineState<u32, String> = EngineState::new(0);
    let a = st.accept_job("reply-a".to_string());
    let b = st.accept_job("reply-b".to_string());
    assert_ne!(a, b);
    assert_eq!(st.send_response(b), Some("reply-b".to_string()));
    assert_eq!(st.send_response(a), Some("reply-a".to_string()));
}

#[test]
fn second_reply_for_same_id_is_rejected() {
    let mut st: EngineState<u32, String> = EngineState::new(0);
    let id = st.accept_job("only-once".to_string());
    assert_eq!(st.send_response(id), Some("only-once".to_string()));
    assert_eq!(st.send_response(id), None);
    assert_eq!(st.send_response(id + 1), None);
}

#[test]
fn detach_keeps_pending_replies() {
    let mut st: EngineState<u32, String> = EngineState::new(7);
    let id = st.accept_job("survives".to_string());
    assert!(st.request_receiver().is_some());
    let taken = st.remove_request_receiver();
    assert_eq!(taken, Some(7));
    assert!(st.request_receiver().is_none());
    // the job pulled before the shutdown signal still gets its reply
    assert_eq!(st.send_response(id), Some("survives".to_string()));
}

#[test]
fn dropped_reply_resolves_empty() {
    let rt = tokio::runtime::Builder::new_multi_thread()
        .worker_threads(2)
        .enable_all()
        .build()
        .unwrap();
    rt.block_on(async {
        let (tx, rx) = flume::bounded::<(u32, tokio::sync::oneshot::Sender<u32>)>(1);
        let worker = tokio::spawn(async move {
            let (_job, reply) = rx.recv_async().await.unwrap();
            // the worker dies while holding the reply channel
            drop(reply);
        });
        let (reply_tx, reply_rx) = tokio::sync::oneshot::channel();
        tx.send_async((7, reply_tx)).await.unwrap();
        let res: Option<u32> = reply_rx.await.ok();
        assert!(res.is_none());
        worker.await.unwrap();
    });
}

#[test]
fn three_jobs_two_workers_all_replied() {
    let rt = tokio::runtime::Builder::new_multi_thread()
        .worker_threads(3)
        .enable_all()
        .build()
        .unwrap();
    rt.block_on(async {
        let max = 2usize;
        let (tx, rx) = flume::bounded::<(u32, tokio::sync::oneshot::Sender<u32>)>(max);
        let mut pool: Pool<tokio::task::JoinHandle<()>, tokio::sync::oneshot::Sender<()>> =
            Pool::new(max);
        let mut spawned = 0usize;
        let mut replies = Vec::new();
        for i in 0..3u32 {
            let finished = vec![false; pool.threads.len()];
            pool.check_threads(&finished);
            if pool.should_spawn(tx.is_full()) {
                let queue = rx.clone();
                let (signal_tx, _signal_rx) = tokio::sync::oneshot::channel::<()>();
                let handle = tokio::spawn(async move {
                    while let Ok((n, reply)) = queue.recv_async().await {
                        let _ = reply.send(n * 2);
                    }
                });
                spawned += 1;
                pool.push_worker(WorkerHandle { thread: handle, shutdown: Some(signal_tx) });
            }
            let (reply_tx, reply_rx) = tokio::sync::oneshot::channel::<u32>();
            tx.send_async((i, reply_tx)).await.unwrap();
            replies.push(reply_rx);
        }
        assert!(spawned <= 2);
        assert!(pool.threads.len() <= 2);
        for (i, reply) in replies.into_iter().enumerate() {
            assert_eq!(reply.await.unwrap(), (i as u32) * 2);
        }
    });
}
