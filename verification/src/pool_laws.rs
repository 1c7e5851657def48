//! What holds of the pool over many calls.

use crate::pool::{Refused, SetupState, SetupStep, WorkerId};
use vstd::prelude::*;

verus! {

/// Where the setting up of a pool of `initial` workers stands after these
/// attempts to spawn one.
pub open spec fn setup_after<E>(initial: nat, attempts: Seq<Result<WorkerId, E>>) -> SetupState<E>
    decreases attempts.len(),
{
    if attempts.len() == 0 {
        crate::pool::setup_settled(Seq::empty(), initial)
    } else {
        crate::pool::setup_next(setup_after(initial, attempts.drop_last()), attempts.last())
    }
}

/// The workers that were spawned by attempts that all succeeded.
pub open spec fn spawned_workers<E>(attempts: Seq<Result<WorkerId, E>>) -> Seq<WorkerId> {
    Seq::new(attempts.len(), |i: int| attempts[i]->Ok_0)
}

/// As long as every attempt succeeds, the workers join the pool in the order in
/// which they were spawned, and the pool is ready once there are `initial` of
/// them, no sooner.
pub proof fn law_setup_collects_workers<E>(initial: nat, attempts: Seq<Result<WorkerId, E>>)
    requires
        attempts.len() <= initial,
        forall|i: int| 0 <= i < attempts.len() ==> attempts[i] is Ok,
    ensures
        setup_after(initial, attempts) == crate::pool::setup_settled::<E>(
            spawned_workers(attempts),
            (initial - attempts.len()) as nat,
        ),
    decreases attempts.len(),
{
    if attempts.len() == 0 {
        assert(spawned_workers(attempts) =~= Seq::empty());
    } else {
        let earlier = attempts.drop_last();
        law_setup_collects_workers(initial, earlier);
        assert(spawned_workers(attempts) =~= spawned_workers(earlier).push(attempts.last()->Ok_0));
    }
}

/// A pool that is ready holds `initial` workers, and holds none of them twice if
/// no two attempts spawned the same worker.
pub proof fn law_ready_pool_is_primed<E>(initial: nat, attempts: Seq<Result<WorkerId, E>>)
    requires
        attempts.len() == initial,
        forall|i: int| 0 <= i < attempts.len() ==> attempts[i] is Ok,
    ensures
        setup_after(initial, attempts) == SetupState::<E>::Ready(spawned_workers(attempts)),
        spawned_workers(attempts).len() == initial,
        (forall|i: int, j: int|
            0 <= i < attempts.len() && 0 <= j < attempts.len() && i != j ==> attempts[i]
                != attempts[j]) ==> spawned_workers(attempts).no_duplicates(),
{
    law_setup_collects_workers(initial, attempts);
    let workers = spawned_workers(attempts);
    if forall|i: int, j: int|
        0 <= i < attempts.len() && 0 <= j < attempts.len() && i != j ==> attempts[i] != attempts[j] {
        assert forall|i: int, j: int|
            0 <= i < workers.len() && 0 <= j < workers.len() && i != j implies workers[i]
            != workers[j] by {
            assert(attempts[i] == Ok::<WorkerId, E>(workers[i]));
            assert(attempts[j] == Ok::<WorkerId, E>(workers[j]));
        }
    }
}

/// The first attempt that fails ends the setting up with its error, whatever
/// would have come after it.
pub proof fn law_setup_stops_at_first_failure<E>(
    initial: nat,
    attempts: Seq<Result<WorkerId, E>>,
    k: int,
)
    requires
        0 <= k < attempts.len(),
        k < initial,
        forall|i: int| 0 <= i < k ==> attempts[i] is Ok,
        attempts[k] is Err,
    ensures
        setup_after(initial, attempts) == SetupState::Failed(attempts[k]->Err_0),
    decreases attempts.len(),
{
    let earlier = attempts.drop_last();
    if k == attempts.len() - 1 {
        law_setup_collects_workers(initial, earlier);
    } else {
        law_setup_stops_at_first_failure(initial, earlier, k);
    }
}

/// A worker that is taken from the pool is not in it while it works, so nothing
/// else can be sent to it. When it has finished it can be put back, and the pool
/// is then as it was.
pub proof fn law_worker_returns(idle: Seq<WorkerId>)
    requires
        idle.len() > 0,
        idle.no_duplicates(),
    ensures
        !idle.drop_last().contains(idle.last()),
        idle.drop_last().no_duplicates(),
        idle.drop_last().push(idle.last()) == idle,
{
    assert(idle.drop_last().push(idle.last()) =~= idle);
}

/// The pool after `count` pieces of work in a row were given out.
pub open spec fn idle_after(idle: Seq<WorkerId>, count: nat) -> Seq<WorkerId>
    decreases count,
{
    if count == 0 {
        idle
    } else {
        idle_after(idle, (count - 1) as nat).drop_last()
    }
}

/// Work that is given out in a row leaves the front of the pool as it was.
pub proof fn law_submissions_leave_the_front(idle: Seq<WorkerId>, count: nat)
    requires
        count <= idle.len(),
    ensures
        idle_after(idle, count) == idle.take(idle.len() - count),
    decreases count,
{
    if count == 0 {
        assert(idle.take(idle.len() as int) =~= idle);
    } else {
        law_submissions_leave_the_front(idle, (count - 1) as nat);
        assert(idle.take(idle.len() - count + 1).drop_last() =~= idle.take(idle.len() - count));
    }
}

/// Work that is given out in a row goes to workers from the end of the pool
/// towards its start: each piece takes one worker, and nobody gets two.
pub proof fn law_submissions_take_distinct_workers(idle: Seq<WorkerId>, count: nat)
    requires
        count <= idle.len(),
        idle.no_duplicates(),
    ensures
        idle_after(idle, count) == idle.take(idle.len() - count),
        forall|i: nat|
            i < count ==> #[trigger] idle_after(idle, i).last() == idle[idle.len() - 1 - i],
        forall|i: nat, j: nat|
            i < j < count ==> #[trigger] idle_after(idle, i).last() != #[trigger] idle_after(
                idle,
                j,
            ).last(),
{
    law_submissions_leave_the_front(idle, count);
    assert forall|i: nat| i < count implies #[trigger] idle_after(idle, i).last()
        == idle[idle.len() - 1 - i] by {
        law_submissions_leave_the_front(idle, i);
    }
}

/// What a broadcast does: the workers that it leaves in the pool, and the ones
/// that it sent to, in that order. `posted` says of each message whether it
/// could be posted.
pub open spec fn broadcast_outcome(
    idle: Seq<WorkerId>,
    remaining: nat,
    posted: Seq<bool>,
) -> (Seq<WorkerId>, Seq<WorkerId>)
    decreases remaining,
{
    if remaining == 0 || posted.len() == 0 {
        (idle, Seq::empty())
    } else {
        let rest = crate::pool::broadcast_remaining((remaining - 1) as nat, posted.first());
        let later = broadcast_outcome(idle.drop_last(), rest, posted.drop_first());
        (later.0, seq![idle.last()] + later.1)
    }
}

/// Serving `worker` takes the pool from `before` to `after` and is the first step
/// of a broadcast: whatever becomes of the messages, the broadcast is this worker
/// and then the broadcast to those still to be served, if the message to it could
/// be posted.
pub open spec fn is_broadcast_step(
    before: Seq<WorkerId>,
    remaining_before: nat,
    worker: WorkerId,
    after: Seq<WorkerId>,
    remaining_after: nat,
) -> bool {
    forall|posted: Seq<bool>|
        posted.len() > 0 ==> #[trigger] broadcast_outcome(before, remaining_before, posted) == {
            let later = broadcast_outcome(
                after,
                crate::pool::broadcast_remaining(remaining_after, posted.first()),
                posted.drop_first(),
            );
            (later.0, seq![worker] + later.1)
        }
}

/// A broadcast with that many workers still to be served is over: whatever became
/// of the messages, it sends nothing more and leaves the pool as it is.
pub open spec fn is_broadcast_end(idle: Seq<WorkerId>, remaining: nat) -> bool {
    forall|posted: Seq<bool>| #[trigger]
        broadcast_outcome(idle, remaining, posted) == (idle, Seq::<WorkerId>::empty())
}

/// The last `count` workers of the pool, from its end backwards.
pub open spec fn from_end(idle: Seq<WorkerId>, count: nat) -> Seq<WorkerId> {
    Seq::new(count, |i: int| idle[idle.len() - 1 - i])
}

proof fn lemma_broadcast_prefix(
    idle: Seq<WorkerId>,
    remaining: nat,
    posted: Seq<bool>,
    count: nat,
)
    requires
        count <= remaining <= idle.len(),
        count <= posted.len(),
        count == remaining || (count > 0 && !posted[count - 1]),
        forall|i: int| 0 <= i < count - 1 ==> posted[i],
    ensures
        broadcast_outcome(idle, remaining, posted) == (
            idle.take(idle.len() - count),
            from_end(idle, count),
        ),
    decreases count,
{
    if count == 0 {
        assert(idle.take(idle.len() as int) =~= idle);
        assert(from_end(idle, 0) =~= Seq::empty());
    } else {
        let left = idle.drop_last();
        let rest = crate::pool::broadcast_remaining((remaining - 1) as nat, posted.first());
        if count == 1 && !posted[0] {
            assert(broadcast_outcome(left, 0, posted.drop_first()) == (
                left,
                Seq::<WorkerId>::empty(),
            ));
        } else if count == 1 {
            assert(rest == 0);
        } else {
            assert(posted.drop_first()[count - 2] == posted[count - 1]);
            lemma_broadcast_prefix(left, rest, posted.drop_first(), (count - 1) as nat);
        }
        let later = broadcast_outcome(left, rest, posted.drop_first());
        assert(later.0 =~= idle.take(idle.len() - count));
        assert(seq![idle.last()] + later.1 =~= from_end(idle, count));
    }
}

/// A broadcast whose messages are all posted reaches every worker of the pool,
/// each once, and leaves the pool empty.
pub proof fn law_broadcast_reaches_every_worker(idle: Seq<WorkerId>, posted: Seq<bool>)
    requires
        posted.len() == idle.len(),
        forall|i: int| 0 <= i < posted.len() ==> posted[i],
    ensures
        broadcast_outcome(idle, idle.len(), posted) == (Seq::<WorkerId>::empty(), idle.reverse()),
{
    lemma_broadcast_prefix(idle, idle.len(), posted, idle.len());
    assert(idle.take(0) =~= Seq::empty());
    assert(from_end(idle, idle.len()) =~= idle.reverse());
}

/// A broadcast ends with the first message that cannot be posted: the workers
/// after it are sent nothing and stay in the pool.
pub proof fn law_broadcast_stops_at_first_failure(
    idle: Seq<WorkerId>,
    posted: Seq<bool>,
    k: nat,
)
    requires
        k < posted.len() <= idle.len(),
        forall|i: int| 0 <= i < k ==> posted[i],
        !posted[k as int],
    ensures
        broadcast_outcome(idle, idle.len(), posted) == (
            idle.take(idle.len() - k - 1),
            from_end(idle, k + 1),
        ),
{
    lemma_broadcast_prefix(idle, idle.len(), posted, k + 1);
}

/// All workers of a pool: those that are free, those that work, and those whose
/// work could not be posted, which nothing brings back.
pub struct Workforce {
    pub idle: Seq<WorkerId>,
    pub busy: Set<WorkerId>,
    pub lost: Set<WorkerId>,
}

/// What can happen to the workers of a pool.
pub enum Happening {
    /// Work is given out; `posted` says whether it could be posted.
    Executed { posted: bool },
    /// A worker says that it has finished.
    Done { worker: WorkerId },
}

impl Workforce {
    /// Every worker is in one place.
    pub open spec fn wf(self) -> bool {
        &&& self.idle.no_duplicates()
        &&& self.busy.finite()
        &&& self.lost.finite()
        &&& forall|w: WorkerId| #[trigger] self.idle.contains(w) ==> !self.busy.contains(w)
        &&& forall|w: WorkerId| #[trigger] self.idle.contains(w) ==> !self.lost.contains(w)
        &&& forall|w: WorkerId| #[trigger] self.busy.contains(w) ==> !self.lost.contains(w)
    }

    /// Whether `w` is one of the workers.
    pub open spec fn employs(self, w: WorkerId) -> bool {
        self.idle.contains(w) || self.busy.contains(w) || self.lost.contains(w)
    }

    /// How many workers there are.
    pub open spec fn size(self) -> nat {
        self.idle.len() + self.busy.len() + self.lost.len()
    }

    /// Work is given out only while a worker is free, and only a worker that
    /// works can finish.
    pub open spec fn can_happen(self, happening: Happening) -> bool {
        match happening {
            Happening::Executed { .. } => self.idle.len() > 0,
            Happening::Done { worker } => self.busy.contains(worker),
        }
    }

    /// The workers afterwards.
    pub open spec fn after(self, happening: Happening) -> Workforce {
        match happening {
            Happening::Executed { posted: true } => Workforce {
                idle: self.idle.drop_last(),
                busy: self.busy.insert(self.idle.last()),
                lost: self.lost,
            },
            Happening::Executed { posted: false } => Workforce {
                idle: self.idle.drop_last(),
                busy: self.busy,
                lost: self.lost.insert(self.idle.last()),
            },
            Happening::Done { worker } => Workforce {
                idle: self.idle.push(worker),
                busy: self.busy.remove(worker),
                lost: self.lost,
            },
        }
    }

    /// Each of these can happen after those before it.
    pub open spec fn can_all_happen(self, happenings: Seq<Happening>) -> bool
        decreases happenings.len(),
    {
        happenings.len() == 0 || (self.can_all_happen(happenings.drop_last()) && self.after_all(
            happenings.drop_last(),
        ).can_happen(happenings.last()))
    }

    /// The workers after all of these.
    pub open spec fn after_all(self, happenings: Seq<Happening>) -> Workforce
        decreases happenings.len(),
    {
        if happenings.len() == 0 {
            self
        } else {
            self.after_all(happenings.drop_last()).after(happenings.last())
        }
    }
}

/// Giving out work to `worker`, which takes the pool from `before` to `after`, is
/// the step `Executed` of any workforce with that pool, and can happen there.
pub open spec fn is_executed_step(
    before: Seq<WorkerId>,
    worker: WorkerId,
    after: Seq<WorkerId>,
) -> bool {
    forall|force: Workforce, posted: bool|
        force.idle == before ==> {
            let next = #[trigger] force.after(Happening::Executed { posted });
            &&& force.can_happen(Happening::Executed { posted })
            &&& next.idle == after
            &&& next.busy == (if posted {
                force.busy.insert(worker)
            } else {
                force.busy
            })
            &&& next.lost == (if posted {
                force.lost
            } else {
                force.lost.insert(worker)
            })
        }
}

/// Putting `worker` back, which takes the pool from `before` to `after`, is the
/// step `Done` of any workforce with that pool.
pub open spec fn is_done_step(
    before: Seq<WorkerId>,
    worker: WorkerId,
    after: Seq<WorkerId>,
) -> bool {
    forall|force: Workforce|
        force.idle == before ==> {
            let next = #[trigger] force.after(Happening::Done { worker });
            &&& next.idle == after
            &&& next.busy == force.busy.remove(worker)
            &&& next.lost == force.lost
        }
}

/// Whatever happens, every worker stays in one place, none is added and none
/// vanishes, and a worker that has finished can be put back into the pool.
pub proof fn law_workforce_step(force: Workforce, happening: Happening)
    requires
        force.wf(),
        force.can_happen(happening),
    ensures
        force.after(happening).wf(),
        force.after(happening).size() == force.size(),
        forall|w: WorkerId| force.after(happening).employs(w) <==> force.employs(w),
        happening matches Happening::Done { worker } ==> !force.idle.contains(worker),
{
    let next = force.after(happening);
    match happening {
        Happening::Executed { posted } => {
            let w = force.idle.last();
            law_worker_returns(force.idle);
            assert(force.idle.contains(w));
            assert forall|v: WorkerId| force.idle.contains(v) <==> (next.idle.contains(v) || v
                == w) by {
                if force.idle.contains(v) && v != w {
                    let i = choose|i: int| 0 <= i < force.idle.len() && force.idle[i] == v;
                    assert(next.idle[i] == v);
                }
                if next.idle.contains(v) {
                    let i = choose|i: int| 0 <= i < next.idle.len() && next.idle[i] == v;
                    assert(force.idle[i] == v);
                }
            }
            assert(!next.idle.contains(w));
        },
        Happening::Done { worker } => {
            if force.idle.contains(worker) {
                assert(!force.busy.contains(worker));
            }
            assert forall|v: WorkerId| next.idle.contains(v) <==> (force.idle.contains(v) || v
                == worker) by {
                if force.idle.contains(v) {
                    let i = choose|i: int| 0 <= i < force.idle.len() && force.idle[i] == v;
                    assert(next.idle[i] == v);
                }
                if v == worker {
                    assert(next.idle[next.idle.len() - 1] == v);
                }
            }
        },
    }
}

/// Over any course of events no worker is used twice at a time, added or lost
/// from sight: the free, the working and the unreachable workers together are
/// always the workers that the pool began with.
pub proof fn law_workforce_is_kept(force: Workforce, happenings: Seq<Happening>)
    requires
        force.wf(),
        force.can_all_happen(happenings),
    ensures
        force.after_all(happenings).wf(),
        force.after_all(happenings).size() == force.size(),
        forall|w: WorkerId| force.after_all(happenings).employs(w) <==> force.employs(w),
    decreases happenings.len(),
{
    if happenings.len() > 0 {
        let earlier = happenings.drop_last();
        law_workforce_is_kept(force, earlier);
        law_workforce_step(force.after_all(earlier), happenings.last());
    }
}

/// Setting up asks for workers until none is left to be spawned, and is then
/// ready with those that it has.
pub proof fn law_setup_waits_for_all<E>(workers: Seq<WorkerId>, remaining: nat)
    ensures
        remaining > 0 ==> crate::pool::setup_settled::<E>(workers, remaining) == (
        SetupState::<E>::Spawning { workers, remaining }),
        remaining == 0 ==> crate::pool::setup_settled::<E>(workers, remaining)
            == SetupState::<E>::Ready(workers),
{
}

/// A worker that is spawned is one less to be spawned and stands at the end of
/// the pool. A failure ends the setting up with its error.
pub proof fn law_setup_takes_in_one_worker<E>(
    workers: Seq<WorkerId>,
    remaining: nat,
    worker: WorkerId,
    error: E,
)
    requires
        remaining > 0,
    ensures
        remaining > 1 ==> crate::pool::setup_next::<E>(
            SetupState::Spawning { workers, remaining },
            Ok(worker),
        ) == (SetupState::<E>::Spawning {
            workers: workers.push(worker),
            remaining: (remaining - 1) as nat,
        }),
        remaining == 1 ==> crate::pool::setup_next::<E>(
            SetupState::Spawning { workers, remaining },
            Ok(worker),
        ) == SetupState::<E>::Ready(workers.push(worker)),
        crate::pool::setup_next(SetupState::Spawning { workers, remaining }, Err(error))
            == SetupState::Failed(error),
{
}

/// A setting up that is over takes in nothing more, whether it is ready or has
/// failed.
pub proof fn law_finished_setup_stays<E>(state: SetupState<E>, spawned: Result<WorkerId, E>)
    requires
        state is Ready || state is Failed,
    ensures
        crate::pool::setup_next(state, spawned) == state,
{
}

/// As long as fewer workers were spawned than asked for, and none failed, the
/// setting up goes on, with exactly those workers and exactly the rest to come.
pub proof fn law_setup_goes_on_until_complete<E>(
    initial: nat,
    attempts: Seq<Result<WorkerId, E>>,
)
    requires
        attempts.len() < initial,
        forall|i: int| 0 <= i < attempts.len() ==> attempts[i] is Ok,
    ensures
        setup_after(initial, attempts) matches SetupState::Spawning { workers, remaining }
            && remaining == initial - attempts.len() && workers.len() == attempts.len() && (
        forall|i: int|
            0 <= i < attempts.len() ==> attempts[i] == Ok::<WorkerId, E>(#[trigger] workers[i])),
{
    law_setup_collects_workers(initial, attempts);
    law_setup_waits_for_all::<E>(spawned_workers(attempts), (initial - attempts.len()) as nat);
}

/// Once as many workers were spawned as asked for, the pool is ready with exactly
/// those, whatever would be spawned after them.
pub proof fn law_ready_pool_is_complete<E>(initial: nat, attempts: Seq<Result<WorkerId, E>>)
    requires
        attempts.len() >= initial,
        forall|i: int| 0 <= i < initial ==> attempts[i] is Ok,
    ensures
        setup_after(initial, attempts) matches SetupState::Ready(workers) && workers.len()
            == initial && (forall|i: int|
            0 <= i < initial ==> attempts[i] == Ok::<WorkerId, E>(#[trigger] workers[i])),
    decreases attempts.len(),
{
    if attempts.len() == initial {
        law_ready_pool_is_primed(initial, attempts);
    } else {
        let earlier = attempts.drop_last();
        law_ready_pool_is_complete(initial, earlier);
        law_finished_setup_stays(setup_after(initial, earlier), attempts.last());
    }
}

/// A step of the setting up stands for what it holds: a pool that is ready for
/// its workers, a failure for its error, and a pool to be completed for the
/// workers that it has and those still to come.
pub proof fn law_setup_steps_are_what_they_hold<E>(step: SetupStep<E>)
    ensures
        step matches SetupStep::Ready(pool) ==> step@ == SetupState::<E>::Ready(pool@),
        step matches SetupStep::Failed(error) ==> step@ == SetupState::Failed(error),
        step matches SetupStep::Spawn(setup) ==> step@ == (SetupState::<E>::Spawning {
            workers: setup.workers(),
            remaining: setup.remaining(),
        }),
{
}

/// Work that was posted stays with its worker. Work that was not is to be
/// dropped where it lies, and the reason is handed on.
pub proof fn law_posting_decides<E>(worker: WorkerId, ptr: u32, error: E)
    ensures
        crate::pool::execute_result::<E>(worker, ptr, Ok(())) == Ok::<WorkerId, Refused<E>>(worker),
        crate::pool::execute_result(worker, ptr, Err(error)) matches Err(refused)
            && refused.dropped_ptr == ptr && refused.error == error,
{
}

/// A broadcast goes on with all the workers that are left after a message that
/// was posted, and with none after one that was not.
pub proof fn law_posting_decides_a_broadcast(remaining: nat)
    ensures
        crate::pool::broadcast_remaining(remaining, true) == remaining,
        crate::pool::broadcast_remaining(remaining, false) == 0,
{
}

} // verus!
