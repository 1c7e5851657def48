//! The pool of web workers.
//!
//! The pool holds the workers that are free. A worker is known by the number
//! that the application gave it when it was spawned. Spawning a worker and
//! posting a message are up to the application: the pool says what is to be
//! spawned or posted, and is then told what came of it.

use crate::message::JsPayload;
use crate::work::{IgnoringPayload, Shared, WithPayload};
use std::sync::Arc;
use vstd::prelude::*;

verus! {

/// The number by which a worker is known. No two workers share one.
pub type WorkerId = usize;

/// The workers that are free, the one that became free last at the end.
#[derive(Debug)]
pub struct WorkerPool {
    workers: Vec<WorkerId>,
}

impl View for WorkerPool {
    type V = Seq<WorkerId>;

    closed spec fn view(&self) -> Seq<WorkerId> {
        self.workers@
    }
}

/// The script file of a worker.
pub open spec fn worker_script() -> Seq<char> {
    "./worker.js"@
}

/// What a worker is sent first, so that it can set up its copy of the program.
#[derive(Debug, Clone, Copy, PartialEq, Eq, Structural)]
pub enum BootItem {
    /// The compiled WebAssembly module.
    Module,
    /// The memory that all threads share.
    Memory,
}

/// How a worker is to be spawned: from which script, as a module script, and
/// with an array of what as its first message.
#[derive(Debug)]
pub struct SpawnRequest {
    pub script: String,
    pub as_module: bool,
    pub boot: Vec<BootItem>,
}

/// Work on its way to a worker.
pub struct Dispatch<T, P> {
    /// The worker that it goes to.
    pub worker: WorkerId,
    /// What is to be run there.
    pub task: T,
    pub js_payload: JsPayload<P>,
}

/// Work that could not be handed to its worker.
#[derive(Debug, PartialEq, Eq)]
pub struct Refused<E> {
    /// Where the work lies that nobody will run: it is to be dropped.
    pub dropped_ptr: u32,
    /// Why it could not be posted.
    pub error: E,
}

impl WorkerPool {
    /// No worker is in the pool twice.
    pub open spec fn wf(&self) -> bool {
        self@.no_duplicates()
    }

    /// Starts setting up a pool of `initial` workers.
    pub fn new<E>(initial: usize) -> (step: SetupStep<E>)
        ensures
            step@ == setup_settled::<E>(Seq::empty(), initial as nat),
    {
        let pool = WorkerPool { workers: Vec::new() };
        assert(pool@ =~= Seq::<WorkerId>::empty());
        PoolSetup::settle(pool, initial)
    }

    /// Says how one more worker is spawned. The worker is not put into the pool.
    pub fn spawn(&self) -> (request: SpawnRequest)
        ensures
            request.script@ == worker_script(),
            request.as_module,
            request.boot@ == seq![BootItem::Module, BootItem::Memory],
    {
        let mut boot = Vec::new();
        boot.push(BootItem::Module);
        boot.push(BootItem::Memory);
        SpawnRequest { script: "./worker.js".to_owned(), as_module: true, boot }
    }

    /// Puts a newly spawned worker into the pool. From now on its events are
    /// answered as `on_worker_event` says.
    pub fn set_reclaim_callback(&mut self, worker: WorkerId)
        ensures
            final(self)@ == old(self)@.push(worker),
            old(self).wf() && !old(self)@.contains(worker) ==> final(self).wf(),
    {
        self.workers.push(worker);
    }

    /// Takes the worker that became free last.
    pub fn obtain_worker(&mut self) -> (worker: WorkerId)
        requires
            old(self)@.len() > 0,
        ensures
            worker == old(self)@.last(),
            final(self)@ == old(self)@.drop_last(),
            old(self).wf() ==> final(self).wf(),
            crate::pool_laws::is_executed_step(old(self)@, worker, final(self)@),
    {
        self.workers.pop().unwrap()
    }

    /// Takes a worker and makes a task ready to be sent to it.
    pub fn execute<T, P>(&mut self, task: T, js_payload: JsPayload<P>) -> (dispatch: Dispatch<T, P>)
        requires
            old(self)@.len() > 0,
        ensures
            dispatch.worker == old(self)@.last(),
            dispatch.task == task,
            dispatch.js_payload == js_payload,
            final(self)@ == old(self)@.drop_last(),
            old(self).wf() ==> final(self).wf(),
            crate::pool_laws::is_executed_step(old(self)@, dispatch.worker, final(self)@),
    {
        let worker = self.obtain_worker();
        Dispatch { worker, task, js_payload }
    }

    /// Tells whether `worker` is in the pool.
    pub fn is_idle(&self, worker: WorkerId) -> (res: bool)
        ensures
            res == self@.contains(worker),
    {
        let mut i: usize = 0;
        while i < self.workers.len()
            invariant
                i <= self.workers.len(),
                forall|j: int| 0 <= j < i ==> self@[j] != worker,
            decreases self.workers.len() - i,
        {
            if self.workers[i] == worker {
                assert(self@[i as int] == worker);
                return true;
            }
            i = i + 1;
        }
        false
    }

    /// Puts a worker that has finished back into the pool.
    pub fn push_worker(&mut self, worker: WorkerId)
        requires
            !old(self)@.contains(worker),
        ensures
            final(self)@ == old(self)@.push(worker),
            old(self).wf() ==> final(self).wf(),
            crate::pool_laws::is_done_step(old(self)@, worker, final(self)@),
    {
        self.workers.push(worker);
    }

    /// Takes a worker and makes `f` ready to be sent to it. The work is called
    /// with `undefined`, which it does not look at.
    pub fn run<F, P>(&mut self, f: F) -> (dispatch: Dispatch<IgnoringPayload<F>, P>) where
        F: FnOnce(),

        requires
            old(self)@.len() > 0,
        ensures
            dispatch.worker == old(self)@.last(),
            dispatch.task.f == f,
            dispatch.js_payload == JsPayload::<P>::Undefined,
            final(self)@ == old(self)@.drop_last(),
            old(self).wf() ==> final(self).wf(),
            crate::pool_laws::is_executed_step(old(self)@, dispatch.worker, final(self)@),
    {
        self.execute(IgnoringPayload { f }, JsPayload::Undefined)
    }

    /// Takes a worker and makes `f` ready to be sent to it, to be called with
    /// `js_payload`.
    pub fn run_with_js_payload<F, P>(&mut self, f: F, js_payload: JsPayload<P>) -> (dispatch:
        Dispatch<WithPayload<F>, P>) where F: FnOnce(P)
        requires
            old(self)@.len() > 0,
        ensures
            dispatch.worker == old(self)@.last(),
            dispatch.task.f == f,
            dispatch.js_payload == js_payload,
            final(self)@ == old(self)@.drop_last(),
            old(self).wf() ==> final(self).wf(),
            crate::pool_laws::is_executed_step(old(self)@, dispatch.worker, final(self)@),
    {
        self.execute(WithPayload { f }, js_payload)
    }

    /// The number of workers in the pool.
    pub fn get_worker_count(&self) -> (count: usize)
        ensures
            count == self@.len(),
    {
        self.workers.len()
    }

    /// Starts sending `f` to every worker in the pool, to be called with
    /// `js_payload`.
    pub fn broadcast<F, P>(&self, f: Arc<F>, js_payload: JsPayload<P>) -> (broadcast: Broadcast<
        Shared<F>,
        P,
    >) where F: Fn(P)
        ensures
            broadcast.task.f == f,
            broadcast.js_payload == js_payload,
            broadcast.remaining == self@.len(),
    {
        self.broadcast_task(Shared { f }, js_payload)
    }

    /// Starts sending a task to every worker in the pool.
    pub fn broadcast_task<T, P>(&self, task: T, js_payload: JsPayload<P>) -> (broadcast: Broadcast<
        T,
        P,
    >)
        ensures
            broadcast.task == task,
            broadcast.js_payload == js_payload,
            broadcast.remaining == self@.len(),
    {
        let worker_count = self.workers.len();
        Broadcast { task, js_payload, remaining: worker_count }
    }
}

/// What became of posting work to `worker`: on failure the work at `ptr` is to
/// be dropped. The worker does not return to the pool.
pub open spec fn execute_result<E>(worker: WorkerId, ptr: u32, posted: Result<(), E>) -> Result<
    WorkerId,
    Refused<E>,
> {
    match posted {
        Ok(_) => Ok(worker),
        Err(error) => Err(Refused { dropped_ptr: ptr, error }),
    }
}

/// Finishes `execute`, once the work at `ptr` has been posted to `worker`.
pub fn execute_posted<E>(worker: WorkerId, ptr: u32, posted: Result<(), E>) -> (res: Result<
    WorkerId,
    Refused<E>,
>)
    ensures
        res == execute_result(worker, ptr, posted),
{
    match posted {
        Ok(_) => Ok(worker),
        Err(error) => Err(Refused { dropped_ptr: ptr, error }),
    }
}

/// Finishes `run`, `run_with_js_payload` and the submissions, once the work at
/// `ptr` has been posted to `worker`.
pub fn run_posted<E>(worker: WorkerId, ptr: u32, posted: Result<(), E>) -> (res: Result<
    (),
    Refused<E>,
>)
    ensures
        res is Ok <==> posted is Ok,
        res matches Err(refused) ==> execute_result(worker, ptr, posted) == Err::<WorkerId, _>(
            refused,
        ),
{
    match execute_posted(worker, ptr, posted) {
        Ok(_) => Ok(()),
        Err(refused) => Err(refused),
    }
}

/// A pool that is being set up.
pub struct PoolSetup {
    pool: WorkerPool,
    /// How many workers are still to be spawned.
    remaining: usize,
}

/// Where the setting up of a pool stands.
pub enum SetupStep<E> {
    /// A worker is to be spawned; then `PoolSetup::spawned` is to be told of it.
    Spawn(PoolSetup),
    Ready(WorkerPool),
    Failed(E),
}

/// Where the setting up of a pool stands, in terms of its workers.
pub enum SetupState<E> {
    Spawning { workers: Seq<WorkerId>, remaining: nat },
    Ready(Seq<WorkerId>),
    Failed(E),
}

impl<E> View for SetupStep<E> {
    type V = SetupState<E>;

    open spec fn view(&self) -> SetupState<E> {
        match self {
            SetupStep::Spawn(setup) => SetupState::Spawning {
                workers: setup.workers(),
                remaining: setup.remaining(),
            },
            SetupStep::Ready(pool) => SetupState::Ready(pool@),
            SetupStep::Failed(error) => SetupState::Failed(*error),
        }
    }
}

/// The pool is ready when no worker is left to be spawned.
pub open spec fn setup_settled<E>(workers: Seq<WorkerId>, remaining: nat) -> SetupState<E> {
    if remaining == 0 {
        SetupState::Ready(workers)
    } else {
        SetupState::Spawning { workers, remaining }
    }
}

/// A spawned worker joins the pool. The first failure ends the setting up.
pub open spec fn setup_next<E>(state: SetupState<E>, spawned: Result<WorkerId, E>) -> SetupState<
    E,
> {
    match state {
        SetupState::Spawning { workers, remaining } => match spawned {
            Ok(worker) => setup_settled(workers.push(worker), (remaining - 1) as nat),
            Err(error) => SetupState::Failed(error),
        },
        _ => state,
    }
}

impl PoolSetup {
    pub closed spec fn workers(&self) -> Seq<WorkerId> {
        self.pool@
    }

    pub closed spec fn remaining(&self) -> nat {
        self.remaining as nat
    }

    /// A worker is still to be spawned.
    #[verifier::type_invariant]
    spec fn unfinished(&self) -> bool {
        self.remaining > 0
    }

    fn settle<E>(pool: WorkerPool, remaining: usize) -> (step: SetupStep<E>)
        ensures
            step@ == setup_settled::<E>(pool@, remaining as nat),
    {
        if remaining == 0 {
            SetupStep::Ready(pool)
        } else {
            SetupStep::Spawn(PoolSetup { pool, remaining })
        }
    }

    /// How the worker that is awaited is spawned.
    pub fn request(&self) -> (request: SpawnRequest)
        ensures
            request.script@ == worker_script(),
            request.as_module,
            request.boot@ == seq![BootItem::Module, BootItem::Memory],
    {
        self.pool.spawn()
    }

    /// Takes in what came of spawning a worker.
    pub fn spawned<E>(self, spawned: Result<WorkerId, E>) -> (step: SetupStep<E>)
        ensures
            step@ == setup_next(SetupStep::Spawn(self)@, spawned),
    {
        proof {
            use_type_invariant(&self);
        }
        match spawned {
            Ok(worker) => {
                let mut pool = self.pool;
                pool.set_reclaim_callback(worker);
                PoolSetup::settle(pool, self.remaining - 1)
            },
            Err(error) => SetupStep::Failed(error),
        }
    }
}

/// One task on its way to every worker.
pub struct Broadcast<T, P> {
    /// The task that is sent.
    pub task: T,
    /// What it is called with.
    pub js_payload: JsPayload<P>,
    /// How many workers are still to be served: at first, the number of workers
    /// in the pool.
    pub remaining: usize,
}

/// How many workers are still to be served, once it is known whether the last
/// message was posted: after a failure, none.
pub open spec fn broadcast_remaining(remaining: nat, posted: bool) -> nat {
    if posted {
        remaining
    } else {
        0
    }
}

impl<T, P> Broadcast<T, P> {
    /// Takes the next worker and makes a copy of the task ready to be sent to
    /// it, as long as a worker is still to be served.
    pub fn next(&mut self, pool: &mut WorkerPool) -> (res: Option<Dispatch<T, P>>) where
        T: Clone,
        P: Clone,

        requires
            old(self).remaining <= old(pool)@.len(),
        ensures
            final(self).task == old(self).task,
            final(self).js_payload == old(self).js_payload,
            final(self).remaining <= final(pool)@.len(),
            res is Some <==> old(self).remaining > 0,
            res is None ==> final(self).remaining == 0 && final(pool)@ == old(pool)@,
            res is None ==> crate::pool_laws::is_broadcast_end(
                old(pool)@,
                old(self).remaining as nat,
            ),
            res matches Some(dispatch) ==> {
                &&& dispatch.worker == old(pool)@.last()
                &&& cloned(old(self).task, dispatch.task)
                &&& crate::message::payload_cloned(old(self).js_payload, dispatch.js_payload)
                &&& final(self).remaining == old(self).remaining - 1
                &&& final(pool)@ == old(pool)@.drop_last()
                &&& crate::pool_laws::is_executed_step(old(pool)@, dispatch.worker, final(pool)@)
                &&& crate::pool_laws::is_broadcast_step(
                    old(pool)@,
                    old(self).remaining as nat,
                    dispatch.worker,
                    final(pool)@,
                    final(self).remaining as nat,
                )
            },
    {
        if self.remaining == 0 {
            None
        } else {
            self.remaining = self.remaining - 1;
            let task = self.task.clone();
            let js_payload = self.js_payload.clone();
            Some(pool.execute(task, js_payload))
        }
    }

    /// Takes in whether the last message was posted. The first failure ends the
    /// broadcast.
    pub fn posted<E>(&mut self, worker: WorkerId, ptr: u32, posted: Result<(), E>) -> (res: Result<
        (),
        Refused<E>,
    >)
        ensures
            final(self).task == old(self).task,
            final(self).js_payload == old(self).js_payload,
            final(self).remaining == broadcast_remaining(
                old(self).remaining as nat,
                posted is Ok,
            ),
            res is Ok <==> posted is Ok,
            res matches Err(refused) ==> execute_result(worker, ptr, posted) == Err::<WorkerId, _>(
                refused,
            ),
    {
        let res = run_posted(worker, ptr, posted);
        if res.is_err() {
            self.remaining = 0;
        }
        res
    }
}

} // verus!
