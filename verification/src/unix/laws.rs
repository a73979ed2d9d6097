//! What callers may rely on when they allocate and spawn.

use super::{RetryNext, SpawnNext, SpawnStep, Spawning, UnixPtySystem};
use crate::config::WindowSize;
use crate::error::PtyError;
use crate::platform::Platform;
use vstd::prelude::*;

verus! {

/// The number of failures that a try is told of: none at first, then what the decision
/// before it named.
pub open spec fn failures_told<T>(nexts: Seq<RetryNext<T>>, i: int) -> u32 {
    if i == 0 {
        0
    } else {
        nexts[i - 1]->failures
    }
}

/// Whether try `i` was made, because it is the first or the decision before it said so,
/// and was decided on.
pub open spec fn try_decided<T>(
    outcomes: Seq<Result<T, PtyError>>,
    nexts: Seq<RetryNext<T>>,
    i: int,
) -> bool {
    &&& i > 0 ==> nexts[i - 1] is Backoff
    &&& call_ensures(
        super::open_master_with_retry::<T>,
        (failures_told(nexts, i), outcomes[i]),
        nexts[i],
    )
}

/// Whether an allocation made tries that ended so, with these decisions.
pub open spec fn tries<T>(
    outcomes: Seq<Result<T, PtyError>>,
    nexts: Seq<RetryNext<T>>,
) -> bool {
    &&& outcomes.len() > 0
    &&& nexts.len() == outcomes.len()
    &&& forall|i: int| 0 <= i < nexts.len() ==> #[trigger] try_decided(outcomes, nexts, i)
}

/// A failure before the tenth is followed by a pause of two milliseconds for every failure
/// so far.
proof fn lemma_pauses_grow<T>(
    outcomes: Seq<Result<T, PtyError>>,
    nexts: Seq<RetryNext<T>>,
    i: int,
)
    requires
        tries(outcomes, nexts),
        0 <= i < nexts.len(),
        nexts[i] is Backoff,
    ensures
        i + 1 < 10,
        outcomes[i] is Err,
        nexts[i]->failures == i + 1,
        nexts[i]->millis == 2 * (i + 1),
    decreases i,
{
    assert(try_decided(outcomes, nexts, i));
    if i > 0 {
        lemma_pauses_grow(outcomes, nexts, i - 1);
    }
}

/// An allocation makes at most ten tries, one after the other until one succeeds. It
/// returns the first success or, after the tenth failure, the error of that one, and
/// pauses before each further try for two milliseconds per failure so far.
pub proof fn law_allocation_is_tried_ten_times<T>(
    outcomes: Seq<Result<T, PtyError>>,
    nexts: Seq<RetryNext<T>>,
    i: int,
)
    requires
        tries(outcomes, nexts),
        0 <= i < nexts.len(),
    ensures
        nexts.len() <= 10,
        i < nexts.len() - 1 ==> outcomes[i] is Err,
        outcomes[i] matches Ok(value) ==> nexts[i] == RetryNext::Finished(Ok::<T, PtyError>(value)),
        outcomes[i] matches Err(error) ==> nexts[i] == (if i < 9 {
            RetryNext::<T>::Backoff { failures: (i + 1) as u32, millis: (2 * (i + 1)) as u64 }
        } else {
            RetryNext::Finished(Err(error))
        }),
{
    let last = nexts.len() - 1;
    assert(try_decided(outcomes, nexts, last));
    if last > 0 {
        lemma_pauses_grow(outcomes, nexts, last - 1);
    }
    assert(try_decided(outcomes, nexts, i));
    if i > 0 {
        lemma_pauses_grow(outcomes, nexts, i - 1);
    }
    if i < last {
        assert(try_decided(outcomes, nexts, i + 1));
        lemma_pauses_grow(outcomes, nexts, i);
    }
}

/// A success is returned whatever number of failures came before it, and a failure is
/// either tried again or returned as it is: no outcome turns into another.
pub proof fn law_no_outcome_of_a_try_is_lost<T>(
    failures: u32,
    outcome: Result<T, PtyError>,
    next: RetryNext<T>,
)
    requires
        call_ensures(super::open_master_with_retry::<T>, (failures, outcome), next),
    ensures
        next matches RetryNext::Finished(result) ==> result == outcome,
        next is Backoff <==> outcome is Err && failures < 9,
        next matches RetryNext::Backoff { failures: f, millis } ==> f == failures + 1 && millis
            == 2 * f,
{
}

/// Whether a spawn went from its decision `i` on with the result of the step that this
/// named.
pub open spec fn spawn_went_on(
    results: Seq<Result<(), PtyError>>,
    nexts: Seq<SpawnNext>,
    i: int,
) -> bool {
    &&& nexts[i] matches SpawnNext::Continue(spawning)
    &&& call_ensures(Spawning::next, (spawning, results[i]), nexts[i + 1])
}

/// Whether a spawn on an allocated master took steps that ended so, with these decisions.
pub open spec fn spawned_by(
    platform: Platform,
    slave_path: String,
    window: (u16, u16),
    results: Seq<Result<(), PtyError>>,
    nexts: Seq<SpawnNext>,
) -> bool {
    &&& nexts.len() == results.len() + 1
    &&& call_ensures(UnixPtySystem::spawn, (platform, Ok(slave_path), window), nexts[0])
    &&& forall|i: int| 0 <= i < results.len() ==> #[trigger] spawn_went_on(results, nexts, i)
}

/// Whether decision `i` of a spawn was to take this step.
pub open spec fn took(nexts: Seq<SpawnNext>, i: int, step: SpawnStep) -> bool {
    0 <= i < nexts.len() && (nexts[i] matches SpawnNext::Continue(spawning) && spawning.step == step)
}

/// Where a spawn stands after so many steps: what it does next, and that all before it
/// succeeded.
proof fn lemma_spawn_stands(
    platform: Platform,
    slave_path: String,
    window: (u16, u16),
    results: Seq<Result<(), PtyError>>,
    nexts: Seq<SpawnNext>,
    i: int,
)
    requires
        spawned_by(platform, slave_path, window, results, nexts),
        0 <= i < nexts.len(),
    ensures
        ({
            let size = WindowSize { cols: window.0, rows: window.1, xpixel: 0, ypixel: 0 };
            let done = if platform is MacOs {
                i - 1
            } else {
                i
            };
            if i > 0 && results[i - 1] is Err {
                nexts[i] == SpawnNext::Failed(results[i - 1]->Err_0)
            } else if done < 4 {
                nexts[i] == SpawnNext::Continue(
                    Spawning {
                        window_size: size,
                        step: if done == -1 {
                            SpawnStep::StartReadDrain { slave_path }
                        } else if done == 0 {
                            SpawnStep::OpenSlave { slave_path }
                        } else if done == 1 {
                            SpawnStep::SetNonblocking
                        } else if done == 2 {
                            SpawnStep::SetWindowSize(size)
                        } else {
                            SpawnStep::SpawnChild
                        },
                    },
                )
            } else {
                done == 4 && nexts[i] is Spawned
            }
        }),
    decreases i,
{
    if i > 0 {
        lemma_spawn_stands(platform, slave_path, window, results, nexts, i - 1);
        assert(spawn_went_on(results, nexts, i - 1));
    }
}

/// A spawn that ends with its child running has opened the slave at its path, made the
/// master non-blocking, set the window to the size asked for and spawned the child: each of
/// these once, in this order, with the child last.
pub proof fn law_spawned_child_has_its_terminal(
    platform: Platform,
    slave_path: String,
    window: (u16, u16),
    results: Seq<Result<(), PtyError>>,
    nexts: Seq<SpawnNext>,
    i: int,
)
    requires
        spawned_by(platform, slave_path, window, results, nexts),
        nexts.last() is Spawned,
    ensures
        ({
            let child = results.len() - 1;
            let size = WindowSize { cols: window.0, rows: window.1, xpixel: 0, ypixel: 0 };
            &&& took(nexts, i, SpawnStep::SpawnChild) <==> i == child
            &&& took(nexts, i, SpawnStep::SetWindowSize(size)) <==> i == child - 1
            &&& took(nexts, i, SpawnStep::SetNonblocking) <==> i == child - 2
            &&& took(nexts, i, SpawnStep::OpenSlave { slave_path }) <==> i == child - 3
            &&& took(nexts, i, SpawnStep::StartReadDrain { slave_path }) <==> i == child - 4
                && platform is MacOs
            &&& results.len() == (if platform is MacOs {
                5int
            } else {
                4int
            })
            &&& 0 <= i < results.len() ==> results[i] is Ok
        }),
{
    let last = results.len() as int;
    lemma_spawn_stands(platform, slave_path, window, results, nexts, last);
    if 0 <= i < nexts.len() {
        lemma_spawn_stands(platform, slave_path, window, results, nexts, i);
        if i < last {
            assert(spawn_went_on(results, nexts, i));
            lemma_spawn_stands(platform, slave_path, window, results, nexts, i + 1);
            if i + 1 < last {
                assert(spawn_went_on(results, nexts, i + 1));
            }
        }
    }
    let child = last - 1;
    lemma_spawn_stands(platform, slave_path, window, results, nexts, child);
}

/// A spawn fails exactly where a step of it fails, and with the error of that step; while
/// its steps succeed it goes on, until the child runs.
pub proof fn law_spawn_fails_only_with_its_steps(
    platform: Platform,
    slave_path: String,
    window: (u16, u16),
    results: Seq<Result<(), PtyError>>,
    nexts: Seq<SpawnNext>,
    i: int,
)
    requires
        spawned_by(platform, slave_path, window, results, nexts),
        0 <= i < results.len(),
    ensures
        !(nexts[0] is Failed),
        results[i] matches Err(error) ==> nexts[i + 1] == SpawnNext::Failed(error) && i
            == results.len() - 1,
        results[i] is Ok ==> !(nexts[i + 1] is Failed),
        nexts[i + 1] is Spawned <==> results[i] is Ok && i == (if platform is MacOs {
            4int
        } else {
            3int
        }),
{
    lemma_spawn_stands(platform, slave_path, window, results, nexts, 0);
    lemma_spawn_stands(platform, slave_path, window, results, nexts, i + 1);
    if i + 1 < results.len() {
        assert(spawn_went_on(results, nexts, i + 1));
    }
}

/// Without a master there is no spawn, but the error of the allocation.
pub proof fn law_failed_allocation_fails_the_spawn(
    platform: Platform,
    error: PtyError,
    window: (u16, u16),
    next: SpawnNext,
)
    requires
        call_ensures(UnixPtySystem::spawn, (platform, Err(error), window), next),
    ensures
        next == SpawnNext::Failed(error),
{
}

/// Every step of a spawn has its place among the others: what a step that succeeded leads
/// to depends on that step alone, and the path and the window size go along unchanged.
pub proof fn law_spawn_steps_lead_to_each_other(
    spawning: Spawning,
    result: Result<(), PtyError>,
    next: SpawnNext,
)
    requires
        call_ensures(Spawning::next, (spawning, result), next),
    ensures
        result matches Err(error) ==> next == SpawnNext::Failed(error),
        result is Ok ==> (next is Spawned <==> spawning.step is SpawnChild),
        next matches SpawnNext::Continue(following) ==> {
            &&& following.window_size == spawning.window_size
            &&& spawning.step matches SpawnStep::StartReadDrain { slave_path } ==> following.step
                == SpawnStep::OpenSlave { slave_path }
            &&& spawning.step is OpenSlave <==> following.step is SetNonblocking
            &&& spawning.step is SetNonblocking <==> following.step == SpawnStep::SetWindowSize(
                spawning.window_size,
            )
            &&& spawning.step is SetWindowSize <==> following.step is SpawnChild
        },
        result is Ok ==> !(next is Failed),
{
}

/// The plan of a spawn holds the opening of the slave, the non-blocking mode, the window
/// size asked for and the child, each exactly once, with the child last.
pub proof fn law_spawn_plan_has_every_step_once(
    platform: Platform,
    slave_path: String,
    window_size: WindowSize,
    i: int,
)
    requires
        0 <= i < super::spawn_plan(platform, slave_path, window_size).len(),
    ensures
        ({
            let plan = super::spawn_plan(platform, slave_path, window_size);
            let child = plan.len() - 1;
            &&& child >= 3
            &&& plan[i] is SpawnChild <==> i == child
            &&& plan[i] is SetWindowSize <==> i == child - 1
            &&& plan[child - 1] == SpawnStep::SetWindowSize(window_size)
            &&& plan[i] is SetNonblocking <==> i == child - 2
            &&& plan[i] is OpenSlave <==> i == child - 3
            &&& plan[child - 3] == SpawnStep::OpenSlave { slave_path }
        }),
{
}

} // verus!
