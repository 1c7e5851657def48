use std::cell::Cell;
use std::sync::atomic::{AtomicI32, Ordering};
use std::sync::Arc;
use wasm_mt_hotswap_example::message::{
    JsPayload, MessageType, PointerField, ReceivedMessage, ReclaimAction, WorkerEvent,
};
use wasm_mt_hotswap_example::pool::{
    execute_posted, run_posted, BootItem, Dispatch, Refused, SetupStep, WorkerPool,
};
use wasm_mt_hotswap_example::shared_pool::{
    broadcast_to_workers, broadcast_to_workers_with_js, init_worker_pool, on_worker_event,
    pool_get_web_worker_num, reclaim_worker, submit_all, submit_to_pool, submit_to_pool_with_js_payload, with_worker_pool,
};

/// Sets up a pool; worker number `n` is spawned by the `n`-th attempt.
fn set_up(initial: usize, fail_at: Option<usize>) -> (Result<WorkerPool, String>, usize) {
    let mut attempts = 0;
    let mut step: SetupStep<String> = WorkerPool::new(initial);
    loop {
        match step {
            SetupStep::Ready(pool) => return (Ok(pool), attempts),
            SetupStep::Failed(error) => return (Err(error), attempts),
            SetupStep::Spawn(setup) => {
                let request = setup.request();
                assert_eq!(request.script, "./worker.js");
                assert!(request.as_module);
                assert_eq!(request.boot, vec![BootItem::Module, BootItem::Memory]);
                let spawned = if fail_at == Some(attempts) {
                    Err("no more workers".to_string())
                } else {
                    Ok(attempts)
                };
                attempts += 1;
                step = setup.spawned(spawned);
            }
        }
    }
}

fn pool_of(initial: usize) -> WorkerPool {
    set_up(initial, None).0.unwrap()
}

#[test]
fn setup_primes_the_pool() {
    for initial in 0..5 {
        let (pool, attempts) = set_up(initial, None);
        assert_eq!(attempts, initial);
        let pool = pool.unwrap();
        assert_eq!(pool.get_worker_count(), initial);
        for worker in 0..initial {
            assert!(pool.is_idle(worker));
        }
        assert!(!pool.is_idle(initial));
    }
}

#[test]
fn setup_stops_at_first_failure() {
    let (pool, attempts) = set_up(4, Some(2));
    assert_eq!(pool.err(), Some("no more workers".to_string()));
    assert_eq!(attempts, 3);
}

#[test]
fn spawn_describes_a_worker() {
    let pool = pool_of(0);
    let request = pool.spawn();
    assert_eq!(request.script, "./worker.js");
    assert_eq!(pool.get_worker_count(), 0);
}

#[test]
fn workers_are_taken_from_the_end() {
    let mut pool = pool_of(3);
    assert_eq!(pool.obtain_worker(), 2);
    assert_eq!(pool.obtain_worker(), 1);
    assert_eq!(pool.obtain_worker(), 0);
    assert_eq!(pool.get_worker_count(), 0);
}

#[test]
fn worker_returns_to_the_pool() {
    let mut pool = pool_of(3);
    let dispatch = pool.execute("work", JsPayload::Value(1));
    assert_eq!(dispatch.worker, 2);
    assert_eq!(dispatch.task, "work");
    assert_eq!(dispatch.js_payload, JsPayload::Value(1));
    assert!(!pool.is_idle(2));
    assert_eq!(pool.get_worker_count(), 2);
    pool.push_worker(2);
    assert_eq!(pool.get_worker_count(), 3);
    assert_eq!(pool.obtain_worker(), 2);
}

#[test]
fn reclaimed_worker_is_used_next() {
    let mut pool = pool_of(2);
    let a = pool.obtain_worker();
    let b = pool.obtain_worker();
    pool.push_worker(a);
    pool.push_worker(b);
    assert_eq!(pool.obtain_worker(), b);
    assert_eq!(pool.obtain_worker(), a);
}

#[test]
fn run_ignores_the_payload() {
    let mut pool = pool_of(1);
    let ran = Cell::new(0);
    let dispatch: Dispatch<_, i32> = pool.run(|| ran.set(ran.get() + 1));
    assert_eq!(dispatch.worker, 0);
    assert_eq!(dispatch.js_payload, JsPayload::Undefined);
    dispatch.task.run(99);
    assert_eq!(ran.get(), 1);
}

#[test]
fn run_with_payload_passes_it_on() {
    let mut pool = pool_of(1);
    let mut seen = 0;
    let dispatch = pool.run_with_js_payload(|p: i32| seen = p, JsPayload::Value(6));
    assert_eq!(dispatch.js_payload, JsPayload::Value(6));
    dispatch.task.run(6);
    assert_eq!(seen, 6);
}

#[test]
fn posted_work_stays_with_its_worker() {
    assert_eq!(execute_posted::<String>(5, 64, Ok(())), Ok(5));
    assert_eq!(run_posted::<String>(5, 64, Ok(())), Ok(()));
}

#[test]
fn refused_work_is_dropped() {
    let refused = Refused { dropped_ptr: 64, error: "closed" };
    assert_eq!(execute_posted(5, 64, Err("closed")), Err(refused));
    let refused = Refused { dropped_ptr: 64, error: "closed" };
    assert_eq!(run_posted(5, 64, Err("closed")), Err(refused));
}

#[test]
fn broadcast_reaches_every_worker() {
    let mut pool = pool_of(4);
    let total = Arc::new(AtomicI32::new(0));
    let counter = total.clone();
    let f = Arc::new(move |p: i32| {
        counter.fetch_add(p, Ordering::SeqCst);
    });
    let mut broadcast = pool.broadcast(f, JsPayload::Value(10));
    assert_eq!(broadcast.remaining, 4);
    let mut reached = Vec::new();
    while let Some(dispatch) = broadcast.next(&mut pool) {
        assert_eq!(dispatch.js_payload, JsPayload::Value(10));
        reached.push(dispatch.worker);
        dispatch.task.run(10);
        assert_eq!(broadcast.posted::<String>(dispatch.worker, 64, Ok(())), Ok(()));
    }
    assert_eq!(reached, vec![3, 2, 1, 0]);
    assert_eq!(pool.get_worker_count(), 0);
    assert_eq!(total.load(Ordering::SeqCst), 40);
}

#[test]
fn broadcast_stops_at_first_failure() {
    let mut pool = pool_of(4);
    let mut broadcast = pool.broadcast(Arc::new(|_p: i32| ()), JsPayload::Undefined);
    let mut reached = Vec::new();
    let mut error = None;
    while let Some(dispatch) = broadcast.next(&mut pool) {
        reached.push(dispatch.worker);
        let posted = if reached.len() == 2 { Err("closed") } else { Ok(()) };
        if let Err(refused) = broadcast.posted(dispatch.worker, 8, posted) {
            error = Some(refused);
        }
    }
    assert_eq!(reached, vec![3, 2]);
    assert_eq!(error, Some(Refused { dropped_ptr: 8, error: "closed" }));
    assert_eq!(pool.get_worker_count(), 2);
    assert!(pool.is_idle(0) && pool.is_idle(1));
}

#[test]
fn shared_pool_is_set_once_ready() {
    let mut slot = None;
    assert_eq!(init_worker_pool(&mut slot, set_up(2, Some(0)).0), Err("no more workers".to_string()));
    assert!(slot.is_none());
    assert_eq!(init_worker_pool(&mut slot, set_up(2, None).0), Ok(()));
    assert_eq!(pool_get_web_worker_num(&slot), 2);
    assert_eq!(init_worker_pool(&mut slot, set_up(5, Some(1)).0), Err("no more workers".to_string()));
    assert_eq!(pool_get_web_worker_num(&slot), 2);
    assert_eq!(init_worker_pool(&mut slot, set_up(5, None).0), Ok(()));
    assert_eq!(pool_get_web_worker_num(&slot), 5);
}

#[test]
fn with_pool_gives_the_result_of_the_function() {
    let mut slot = Some(pool_of(3));
    let worker = with_worker_pool(&mut slot, |pool| pool.obtain_worker());
    assert_eq!(worker, 2);
    assert_eq!(pool_get_web_worker_num(&slot), 2);
}

#[test]
fn submissions_take_one_worker_each() {
    let mut slot = Some(pool_of(3));
    let ran = Cell::new(false);
    let first: Dispatch<_, i32> = submit_to_pool(&mut slot, || ran.set(true));
    assert_eq!(first.worker, 2);
    assert_eq!(first.js_payload, JsPayload::Undefined);
    first.task.run(0);
    assert!(ran.get());
    let second = submit_to_pool_with_js_payload(&mut slot, |_p: i32| (), JsPayload::Value(1));
    assert_eq!(second.worker, 1);
    assert_eq!(second.js_payload, JsPayload::Value(1));
    assert_eq!(pool_get_web_worker_num(&slot), 1);
    reclaim_worker(&mut slot, 2);
    assert_eq!(pool_get_web_worker_num(&slot), 2);
}

#[test]
fn reclaiming_without_a_pool_does_nothing() {
    let mut slot: Option<WorkerPool> = None;
    reclaim_worker(&mut slot, 1);
    assert!(slot.is_none());
}

#[test]
fn shared_broadcast() {
    let mut slot = Some(pool_of(2));
    let total = Arc::new(AtomicI32::new(0));
    let counter = total.clone();
    let mut broadcast = broadcast_to_workers(&slot, move || {
        counter.fetch_add(1, Ordering::SeqCst);
    });
    assert_eq!(broadcast.remaining, 2);
    assert_eq!(broadcast.js_payload, JsPayload::<i32>::Undefined);
    with_worker_pool(&mut slot, |pool| {
        while let Some(dispatch) = broadcast.next(pool) {
            dispatch.task.run(77);
            assert_eq!(broadcast.posted::<String>(dispatch.worker, 8, Ok(())), Ok(()));
        }
    });
    assert_eq!(total.load(Ordering::SeqCst), 2);
    assert_eq!(pool_get_web_worker_num(&slot), 0);
}

#[test]
fn shared_broadcast_with_payload() {
    let slot = Some(pool_of(3));
    let broadcast = broadcast_to_workers_with_js(&slot, |_p: i32| (), JsPayload::Value(2));
    assert_eq!(broadcast.remaining, 3);
    assert_eq!(broadcast.js_payload, JsPayload::Value(2));
}

#[test]
fn workers_are_neither_added_nor_used_twice() {
    let mut pool = pool_of(4);
    let mut busy: Vec<usize> = Vec::new();
    let mut lost: Vec<usize> = Vec::new();
    for step in 0..40 {
        if step % 3 < 2 && pool.get_worker_count() > 0 {
            let worker = pool.obtain_worker();
            assert!(!busy.contains(&worker) && !lost.contains(&worker));
            match execute_posted(worker, 8, if step == 7 { Err("closed") } else { Ok(()) }) {
                Ok(worker) => busy.push(worker),
                Err(refused) => {
                    assert_eq!(refused.error, "closed");
                    lost.push(worker);
                }
            }
        } else if !busy.is_empty() {
            let worker = busy.remove(0);
            assert!(!pool.is_idle(worker));
            pool.push_worker(worker);
        }
        assert_eq!(pool.get_worker_count() + busy.len() + lost.len(), 4);
        for worker in 0..4 {
            let places = [pool.is_idle(worker), busy.contains(&worker), lost.contains(&worker)];
            assert_eq!(places.iter().filter(|there| **there).count(), 1);
        }
    }
    assert_eq!(lost.len(), 1);
}

#[test]
fn tasks_are_submitted_together() {
    let mut slot = Some(pool_of(4));
    let dispatches: Vec<Dispatch<_, i32>> = submit_all(&mut slot, vec!["a", "b", "c"]).unwrap();
    let sent: Vec<_> = dispatches.iter().map(|d| (d.worker, d.task)).collect();
    assert_eq!(sent, vec![(3, "a"), (2, "b"), (1, "c")]);
    assert!(dispatches.iter().all(|d| d.js_payload == JsPayload::Undefined));
    assert_eq!(pool_get_web_worker_num(&slot), 1);
    let refused: Option<Vec<Dispatch<_, i32>>> = submit_all(&mut slot, vec!["d", "e"]);
    assert!(refused.is_none());
    assert_eq!(pool_get_web_worker_num(&slot), 1);
}

#[test]
fn worker_joins_when_its_callback_is_set() {
    let mut pool = pool_of(1);
    pool.set_reclaim_callback(8);
    assert!(pool.is_idle(8));
    assert_eq!(pool.obtain_worker(), 8);
}

fn event(msg_type: &str) -> WorkerEvent<i32> {
    WorkerEvent::Message(ReceivedMessage {
        msg_type: Some(msg_type.to_string()),
        ptr: PointerField::Number(4),
        js_payload: None,
    })
}

#[test]
fn done_goes_to_the_current_pool() {
    let mut slot = None;
    assert!(matches!(on_worker_event(&mut slot, 3, event("done")), ReclaimAction::Reclaim));
    assert!(slot.is_none());
    let mut slot = Some(pool_of(2));
    assert!(matches!(on_worker_event(&mut slot, 9, event("done")), ReclaimAction::Reclaim));
    assert_eq!(with_worker_pool(&mut slot, |pool| pool.obtain_worker()), 9);
}

#[test]
fn other_events_leave_the_pool() {
    let mut slot = Some(pool_of(2));
    let action = on_worker_event(&mut slot, 9, event("callback"));
    assert!(matches!(action, ReclaimAction::RunCallback { ptr: 4, .. }));
    let action = on_worker_event(&mut slot, 1, event("started"));
    assert!(matches!(action, ReclaimAction::Ignore));
    assert_eq!(event("done").kind(), Some(MessageType::Done));
    assert_eq!(event("started").kind(), None);
    assert_eq!(pool_get_web_worker_num(&slot), 2);
}
