//! The one pool that the whole program works with.
//!
//! It lives in a slot that is empty until the pool has been set up. Whatever
//! needs the pool before that is an error of the program.

use crate::message::{reclaim_action, JsPayload, ReclaimAction, WorkerEvent};
use crate::pool::{Broadcast, Dispatch, WorkerId, WorkerPool};
use crate::work::{IgnoringPayload, Shared, SharedIgnoringPayload, WithPayload};
use std::sync::Arc;
use vstd::prelude::*;

verus! {

/// Puts a pool that has been set up into the slot, in place of any earlier one.
/// If the setting up failed, the slot stays as it is.
pub fn init_worker_pool<E>(slot: &mut Option<WorkerPool>, pool: Result<WorkerPool, E>) -> (res:
    Result<(), E>)
    ensures
        res is Ok <==> pool is Ok,
        pool matches Ok(p) ==> *final(slot) == Some(p),
        pool matches Err(e) ==> res == Err::<(), E>(e) && *final(slot) == *old(slot),
{
    match pool {
        Ok(pool) => {
            *slot = Some(pool);
            Ok(())
        },
        Err(error) => Err(error),
    }
}

/// Lets `f` work on the pool.
pub fn with_worker_pool<F, R>(slot: &mut Option<WorkerPool>, f: F) -> (res: R) where
    F: FnOnce(&mut WorkerPool) -> R,

    requires
        *old(slot) is Some,
        forall|pool: &mut WorkerPool| *pool == (*old(slot))->0 ==> call_requires(f, (pool,)),
    ensures
        *final(slot) is Some,
        exists|pool: &mut WorkerPool|
            *pool == (*old(slot))->0 && *final(pool) == (*final(slot))->0 && call_ensures(
                f,
                (pool,),
                res,
            ),
{
    let pool = slot.as_mut().expect("WorkerPool not initialized");
    f(pool)
}

fn submit_task<T, P>(slot: &mut Option<WorkerPool>, task: T, js_payload: JsPayload<P>) -> (dispatch:
    Dispatch<T, P>)
    requires
        *old(slot) is Some,
        (*old(slot))->0@.len() > 0,
    ensures
        *final(slot) is Some,
        (*final(slot))->0@ == (*old(slot))->0@.drop_last(),
        dispatch.worker == (*old(slot))->0@.last(),
        crate::pool_laws::is_executed_step(
            (*old(slot))->0@,
            dispatch.worker,
            (*final(slot))->0@,
        ),
        dispatch.task == task,
        dispatch.js_payload == js_payload,
{
    let submit = move |pool: &mut WorkerPool| -> (dispatch: Dispatch<T, P>)
        requires
            pool@.len() > 0,
        ensures
            final(pool)@ == old(pool)@.drop_last(),
            dispatch.worker == old(pool)@.last(),
            dispatch.task == task,
            dispatch.js_payload == js_payload,
        { pool.execute(task, js_payload) };
    with_worker_pool(slot, submit)
}

/// Takes a worker of the pool and makes `f` ready to be sent to it. The work is
/// called with `undefined`, which it does not look at.
pub fn submit_to_pool<F, P>(slot: &mut Option<WorkerPool>, f: F) -> (dispatch: Dispatch<
    IgnoringPayload<F>,
    P,
>) where F: FnOnce()
    requires
        *old(slot) is Some,
        (*old(slot))->0@.len() > 0,
    ensures
        *final(slot) is Some,
        (*final(slot))->0@ == (*old(slot))->0@.drop_last(),
        dispatch.worker == (*old(slot))->0@.last(),
        crate::pool_laws::is_executed_step(
            (*old(slot))->0@,
            dispatch.worker,
            (*final(slot))->0@,
        ),
        dispatch.task.f == f,
        dispatch.js_payload == JsPayload::<P>::Undefined,
{
    submit_task(slot, IgnoringPayload { f }, JsPayload::Undefined)
}

/// Takes a worker of the pool and makes `f` ready to be sent to it, to be called
/// with `js_payload`.
pub fn submit_to_pool_with_js_payload<F, P>(
    slot: &mut Option<WorkerPool>,
    f: F,
    js_payload: JsPayload<P>,
) -> (dispatch: Dispatch<WithPayload<F>, P>) where F: FnOnce(P)
    requires
        *old(slot) is Some,
        (*old(slot))->0@.len() > 0,
    ensures
        *final(slot) is Some,
        (*final(slot))->0@ == (*old(slot))->0@.drop_last(),
        dispatch.worker == (*old(slot))->0@.last(),
        crate::pool_laws::is_executed_step(
            (*old(slot))->0@,
            dispatch.worker,
            (*final(slot))->0@,
        ),
        dispatch.task.f == f,
        dispatch.js_payload == js_payload,
{
    submit_task(slot, WithPayload { f }, js_payload)
}

/// Takes a worker of the pool for each task and makes the tasks ready to be sent
/// to them, the first task to the worker that became free last. If there are
/// more tasks than workers, the pool stays as it is and nothing is sent.
pub fn submit_all<T, P>(slot: &mut Option<WorkerPool>, tasks: Vec<T>) -> (res: Option<
    Vec<Dispatch<T, P>>,
>)
    requires
        *old(slot) is Some,
    ensures
        *final(slot) is Some,
        res is Some <==> tasks@.len() <= (*old(slot))->0@.len(),
        res is None ==> *final(slot) == *old(slot),
        res matches Some(dispatches) ==> {
            let idle = (*old(slot))->0@;
            &&& (*final(slot))->0@ == idle.take(idle.len() - tasks@.len())
            &&& (*final(slot))->0@ == crate::pool_laws::idle_after(idle, tasks@.len())
            &&& dispatches@.len() == tasks@.len()
            &&& forall|i: int|
                #![trigger dispatches@[i]]
                0 <= i < tasks@.len() ==> {
                    &&& dispatches@[i].worker == idle[idle.len() - 1 - i]
                    &&& dispatches@[i].task == tasks@[i]
                    &&& dispatches@[i].js_payload == JsPayload::<P>::Undefined
                }
        },
{
    if tasks.len() > pool_get_web_worker_num(slot) {
        return None;
    }
    let ghost idle = (*slot)->0@;
    let ghost all = tasks@;
    let mut dispatches: Vec<Dispatch<T, P>> = Vec::new();
    assert(idle.take(idle.len() as int) =~= idle);
    for task in iter: tasks
        invariant
            iter.seq() == all,
            all.len() <= idle.len(),
            *slot is Some,
            (*slot)->0@ == idle.take(idle.len() - iter.index()),
            dispatches@.len() == iter.index(),
            forall|i: int|
                #![trigger dispatches@[i]]
                0 <= i < iter.index() ==> {
                    &&& dispatches@[i].worker == idle[idle.len() - 1 - i]
                    &&& dispatches@[i].task == all[i]
                    &&& dispatches@[i].js_payload == JsPayload::<P>::Undefined
                },
    {
        let ghost left = (*slot)->0@;
        dispatches.push(submit_task(slot, task, JsPayload::Undefined));
        assert(left.drop_last() =~= idle.take(left.len() - 1));
    }
    proof {
        crate::pool_laws::law_submissions_leave_the_front(idle, all.len());
    }
    Some(dispatches)
}

/// The number of workers in the pool.
pub fn pool_get_web_worker_num(slot: &Option<WorkerPool>) -> (count: usize)
    requires
        *slot is Some,
    ensures
        count == (*slot)->0@.len(),
{
    slot.as_ref().unwrap().get_worker_count()
}

/// Starts sending `f` to every worker of the pool. It is called with
/// `undefined`, which it does not look at.
pub fn broadcast_to_workers<F, P>(slot: &Option<WorkerPool>, f: F) -> (broadcast: Broadcast<
    SharedIgnoringPayload<F>,
    P,
>) where F: Fn()
    requires
        *slot is Some,
    ensures
        *broadcast.task.f == f,
        broadcast.js_payload == JsPayload::<P>::Undefined,
        broadcast.remaining == (*slot)->0@.len(),
{
    let arcf = Arc::new(f);
    slot.as_ref().unwrap().broadcast_task(
        SharedIgnoringPayload { f: arcf },
        JsPayload::Undefined,
    )
}

/// Starts sending `f` to every worker of the pool, to be called with
/// `js_payload`.
pub fn broadcast_to_workers_with_js<F, P>(
    slot: &Option<WorkerPool>,
    f: F,
    js_payload: JsPayload<P>,
) -> (broadcast: Broadcast<Shared<F>, P>) where F: Fn(P)
    requires
        *slot is Some,
    ensures
        *broadcast.task.f == f,
        broadcast.js_payload == js_payload,
        broadcast.remaining == (*slot)->0@.len(),
{
    let arcf = Arc::new(f);
    slot.as_ref().unwrap().broadcast(arcf, js_payload)
}

/// Puts a worker that has finished back into the pool, if there is one.
pub fn reclaim_worker(slot: &mut Option<WorkerPool>, worker: WorkerId)
    requires
        *old(slot) matches Some(pool) ==> !pool@.contains(worker),
    ensures
        *final(slot) is Some <==> *old(slot) is Some,
        *old(slot) matches Some(pool) ==> (*final(slot))->0@ == pool@.push(worker) && (pool.wf()
            ==> (*final(slot))->0.wf()) && crate::pool_laws::is_done_step(
            pool@,
            worker,
            (*final(slot))->0@,
        ),
{
    if let Some(pool) = slot.as_mut() {
        pool.push_worker(worker);
    }
}

/// The workers of the pool, if there is a pool.
pub open spec fn slot_workers(slot: Option<WorkerPool>) -> Option<Seq<WorkerId>> {
    match slot {
        Some(pool) => Some(pool@),
        None => None,
    }
}

/// The workers of the pool after an event of `worker`. One that is done joins the
/// pool that is there when it says so; if there is none, nothing happens.
pub open spec fn workers_after_event<P>(
    workers: Option<Seq<WorkerId>>,
    worker: WorkerId,
    event: WorkerEvent<P>,
) -> Option<Seq<WorkerId>> {
    match workers {
        Some(idle) => if event.message_type() == Some(crate::message::MessageType::Done) {
            Some(idle.push(worker))
        } else {
            Some(idle)
        },
        None => None,
    }
}

/// Answers an event of a worker: a worker that is done is put back into the pool,
/// and what is left to be done about the event is returned.
pub fn on_worker_event<P>(slot: &mut Option<WorkerPool>, worker: WorkerId, event: WorkerEvent<P>)
    -> (action: ReclaimAction<P>)
    requires
        !event.malformed(),
        event.message_type() == Some(crate::message::MessageType::Done) && *old(slot) is Some
            ==> !(*old(slot))->0@.contains(worker),
    ensures
        crate::message::asks_for(event, action),
        slot_workers(*final(slot)) == workers_after_event(
            slot_workers(*old(slot)),
            worker,
            event,
        ),
        event.message_type() == Some(crate::message::MessageType::Done) && *old(slot) is Some
            ==> crate::pool_laws::is_done_step((*old(slot))->0@, worker, (*final(slot))->0@),
{
    let action = reclaim_action(event);
    if let ReclaimAction::Reclaim = action {
        reclaim_worker(slot, worker);
    }
    action
}

/// A worker that is done goes to the pool that is current when it says so, even
/// if another pool spawned it. Without a pool it goes nowhere.
pub proof fn law_done_goes_to_the_current_pool<P>(
    current: Seq<WorkerId>,
    worker: WorkerId,
    event: WorkerEvent<P>,
)
    requires
        event.message_type() == Some(crate::message::MessageType::Done),
    ensures
        workers_after_event(Some(current), worker, event) == Some(current.push(worker)),
        workers_after_event(None, worker, event) == None::<Seq<WorkerId>>,
{
}

/// No other event of a worker changes the pool.
pub proof fn law_other_events_leave_the_pool<P>(
    workers: Option<Seq<WorkerId>>,
    worker: WorkerId,
    event: WorkerEvent<P>,
)
    requires
        event.message_type() != Some(crate::message::MessageType::Done),
    ensures
        workers_after_event(workers, worker, event) == workers,
{
}

/// The slot stands for the workers of the pool in it.
pub proof fn law_slot_stands_for_its_pool(slot: Option<WorkerPool>)
    ensures
        slot matches Some(pool) ==> slot_workers(slot) == Some(pool@),
        slot is None ==> slot_workers(slot) is None,
{
}

} // verus!
