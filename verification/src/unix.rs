//! Pseudo-terminals on Unix: allocation with retries, and the order of a spawn.

pub mod laws;
pub mod macos_drain;
pub mod pty;

use crate::config::WindowSize;
use crate::error::PtyError;
use crate::platform::Platform;
use vstd::prelude::*;

verus! {

/// How often an allocation is tried.
pub const ATTEMPTS: u32 = 10;

/// By how much the pause before the next try grows with each failure.
pub const BACKOFF_MILLIS: u64 = 2;

/// How an allocation goes on after a try.
#[derive(Debug, PartialEq, Eq)]
pub enum RetryNext<T> {
    /// Pause without blocking, so that others can release pseudo-terminals, and try
    /// again.
    Backoff {
        /// The tries that failed so far.
        failures: u32,
        /// The length of the pause.
        millis: u64,
    },
    /// It is over.
    Finished(Result<T, PtyError>),
}

/// How an allocation goes on when, after so many failures, one more try ended so.
pub open spec fn retry_step<T>(failures: int, outcome: Result<T, PtyError>) -> RetryNext<T> {
    match outcome {
        Ok(value) => RetryNext::Finished(Ok(value)),
        Err(error) => if failures + 1 < ATTEMPTS {
            RetryNext::Backoff {
                failures: (failures + 1) as u32,
                millis: (BACKOFF_MILLIS * (failures + 1)) as u64,
            }
        } else {
            RetryNext::Finished(Err(error))
        },
    }
}

/// Decides after a try to allocate a master, of which so many failed before: a success
/// is returned at once, a failure is tried again after a growing pause, and the last
/// failure is returned as it is.
///
/// Under heavy concurrent spawning the system may run out of pseudo-terminals for a
/// moment; a short bounded wait rides that out.
pub fn open_master_with_retry<T>(failures: u32, outcome: Result<T, PtyError>) -> (next: RetryNext<T>)
    ensures
        next == retry_step(failures as int, outcome),
{
    match outcome {
        Ok(value) => RetryNext::Finished(Ok(value)),
        Err(error) => {
            if failures < ATTEMPTS - 1 {
                RetryNext::Backoff {
                    failures: failures + 1,
                    millis: BACKOFF_MILLIS * (failures as u64 + 1),
                }
            } else {
                RetryNext::Finished(Err(error))
            }
        },
    }
}

/// An allocation in the course of its tries.
pub struct RetryRun<T> {
    /// The tries made.
    pub tries: nat,
    /// The pauses made, all together.
    pub paused_millis: nat,
    /// The result, once it is over.
    pub result: Option<Result<T, PtyError>>,
}

/// The allocation whose tries end so. Outcomes after its end are not reached.
pub open spec fn retry_run<T>(outcomes: Seq<Result<T, PtyError>>) -> RetryRun<T>
    decreases outcomes.len(),
{
    if outcomes.len() == 0 {
        RetryRun { tries: 0, paused_millis: 0, result: None }
    } else {
        let before = retry_run(outcomes.drop_last());
        if before.result is Some {
            before
        } else {
            match retry_step(before.tries as int, outcomes.last()) {
                RetryNext::Backoff { failures, millis } => RetryRun {
                    tries: failures as nat,
                    paused_millis: before.paused_millis + millis as nat,
                    result: None,
                },
                RetryNext::Finished(result) => RetryRun {
                    tries: before.tries + 1,
                    paused_millis: before.paused_millis,
                    result: Some(result),
                },
            }
        }
    }
}

/// While tries fail, and are fewer than allowed, the allocation goes on, and its pauses
/// grow by two milliseconds each.
proof fn lemma_retry_while_failing<T>(outcomes: Seq<Result<T, PtyError>>)
    requires
        outcomes.len() < ATTEMPTS,
        forall|i: int| 0 <= i < outcomes.len() ==> (#[trigger] outcomes[i]) is Err,
    ensures
        retry_run(outcomes).tries == outcomes.len(),
        retry_run(outcomes).result is None,
        retry_run(outcomes).paused_millis == outcomes.len() * (outcomes.len() + 1),
    decreases outcomes.len(),
{
    if outcomes.len() > 0 {
        lemma_retry_while_failing(outcomes.drop_last());
        let n = outcomes.len() as int;
        assert(outcomes.last() is Err);
        assert((n - 1) * n + 2 * n == n * (n + 1)) by (nonlinear_arith);
    }
}

/// The first success ends an allocation at once and is its result, after as many pauses
/// as there were failures.
pub proof fn law_first_success_is_returned<T>(failed: Seq<Result<T, PtyError>>, value: T)
    requires
        failed.len() < ATTEMPTS,
        forall|i: int| 0 <= i < failed.len() ==> (#[trigger] failed[i]) is Err,
    ensures
        ({
            let run = retry_run(failed.push(Ok(value)));
            &&& run.result == Some(Ok::<T, PtyError>(value))
            &&& run.tries == failed.len() + 1
            &&& run.paused_millis == failed.len() * (failed.len() + 1)
        }),
{
    lemma_retry_while_failing(failed);
    assert(failed.push(Ok(value)).drop_last() =~= failed);
}

/// An allocation that never succeeds makes ten tries with pauses of 90 milliseconds in
/// all, and returns the error of the last one.
pub proof fn law_last_failure_is_returned<T>(failed: Seq<Result<T, PtyError>>)
    requires
        failed.len() == ATTEMPTS,
        forall|i: int| 0 <= i < failed.len() ==> (#[trigger] failed[i]) is Err,
    ensures
        retry_run(failed).result == Some(failed.last()),
        retry_run(failed).tries == ATTEMPTS,
        retry_run(failed).paused_millis == 90,
{
    let n = failed.drop_last().len();
    lemma_retry_while_failing(failed.drop_last());
    assert(n * (n + 1) == 90) by (nonlinear_arith)
        requires
            n == 9,
    ;
    assert(failed.last() is Err);
}

/// No allocation makes more than ten tries or pauses longer than 90 milliseconds in all.
pub proof fn law_retry_is_bounded<T>(outcomes: Seq<Result<T, PtyError>>)
    ensures
        ({
            let run = retry_run(outcomes);
            &&& run.tries <= ATTEMPTS
            &&& run.paused_millis <= 90
            &&& outcomes.len() >= ATTEMPTS ==> run.result is Some
        }),
{
    lemma_retry_progress(outcomes);
}

/// The tries and pauses of an allocation, and its end after ten of them.
proof fn lemma_retry_progress<T>(outcomes: Seq<Result<T, PtyError>>)
    ensures
        ({
            let run = retry_run(outcomes);
            &&& run.result is None ==> run.tries == outcomes.len() && run.tries < ATTEMPTS
                && run.paused_millis == run.tries * (run.tries + 1)
            &&& run.result is Some ==> 1 <= run.tries <= ATTEMPTS && run.paused_millis
                == (run.tries - 1) * run.tries
            &&& run.paused_millis <= 90
        }),
    decreases outcomes.len(),
{
    if outcomes.len() > 0 {
        lemma_retry_progress(outcomes.drop_last());
        let n = outcomes.len() as int;
        let before = retry_run(outcomes.drop_last());
        if before.result is None {
            assert((n - 1) * n + 2 * n == n * (n + 1)) by (nonlinear_arith);
            assert(n <= 9 ==> n * (n + 1) <= 90) by (nonlinear_arith)
                requires
                    n >= 1,
            ;
        }
    }
}

/// The pseudo-terminal system of Unix.
#[derive(Debug, Clone, Copy, Default)]
pub struct UnixPtySystem;

/// The pseudo-terminal system of this platform family.
pub type NativePtySystem = UnixPtySystem;

/// A step of a spawn on a master that is allocated.
#[derive(Debug, PartialEq, Eq)]
pub enum SpawnStep {
    /// Start the background drain of the master (macOS).
    StartReadDrain {
        /// The path of the slave, for later.
        slave_path: String,
    },
    /// Open the slave, for the child.
    OpenSlave {
        /// Its path.
        slave_path: String,
    },
    /// Make the master non-blocking.
    SetNonblocking,
    /// Set the window size of the master.
    SetWindowSize(WindowSize),
    /// Spawn the child on the slave.
    SpawnChild,
}

/// A spawn under way.
#[derive(Debug, PartialEq, Eq)]
pub struct Spawning {
    /// The window size that the child is to start with.
    pub window_size: WindowSize,
    /// The step to take.
    pub step: SpawnStep,
}

/// How a spawn goes on.
#[derive(Debug, PartialEq, Eq)]
pub enum SpawnNext {
    /// With a step.
    Continue(Spawning),
    /// The child runs.
    Spawned,
    /// It failed, and nothing more is done.
    Failed(PtyError),
}

/// The steps of a spawn once the master is allocated, in order.
///
/// On macOS the drain starts before the child exists, so that none of the child's output
/// is missed. The slave is opened before the master is touched: until then macOS rejects
/// both changes to the master as no terminal's.
pub open spec fn spawn_plan(
    platform: Platform,
    slave_path: String,
    window_size: WindowSize,
) -> Seq<SpawnStep> {
    let rest = seq![
        SpawnStep::OpenSlave { slave_path },
        SpawnStep::SetNonblocking,
        SpawnStep::SetWindowSize(window_size),
        SpawnStep::SpawnChild,
    ];
    if platform is MacOs {
        seq![SpawnStep::StartReadDrain { slave_path }] + rest
    } else {
        rest
    }
}

/// How a spawn goes on after so many steps of its plan.
pub open spec fn spawn_at(
    platform: Platform,
    slave_path: String,
    window_size: WindowSize,
    steps: int,
) -> SpawnNext {
    let plan = spawn_plan(platform, slave_path, window_size);
    if steps < plan.len() {
        SpawnNext::Continue(Spawning { window_size, step: plan[steps] })
    } else {
        SpawnNext::Spawned
    }
}

impl UnixPtySystem {
    /// Begins a spawn with what the allocation of the master returned.
    pub fn spawn(
        platform: Platform,
        allocated: Result<String, PtyError>,
        window_size: (u16, u16),
    ) -> (next: SpawnNext)
        ensures
            next == (match allocated {
                Ok(slave_path) => spawn_at(
                    platform,
                    slave_path,
                    crate::config::cells(window_size.0, window_size.1),
                    0,
                ),
                Err(error) => SpawnNext::Failed(error),
            }),
    {
        match allocated {
            Ok(slave_path) => {
                let window_size = WindowSize::new(window_size.0, window_size.1);
                let step = match platform {
                    Platform::MacOs => SpawnStep::StartReadDrain { slave_path },
                    _ => SpawnStep::OpenSlave { slave_path },
                };
                SpawnNext::Continue(Spawning { window_size, step })
            },
            Err(error) => SpawnNext::Failed(error),
        }
    }
}

impl Spawning {
    /// How the spawn goes on after a step that ended so.
    pub open spec fn after(self, result: Result<(), PtyError>) -> SpawnNext {
        match result {
            Err(error) => SpawnNext::Failed(error),
            Ok(()) => match self.step {
                SpawnStep::StartReadDrain { slave_path } => self.on_with(
                    SpawnStep::OpenSlave { slave_path },
                ),
                SpawnStep::OpenSlave { .. } => self.on_with(SpawnStep::SetNonblocking),
                SpawnStep::SetNonblocking => self.on_with(SpawnStep::SetWindowSize(self.window_size)),
                SpawnStep::SetWindowSize(_) => self.on_with(SpawnStep::SpawnChild),
                SpawnStep::SpawnChild => SpawnNext::Spawned,
            },
        }
    }

    /// On with a given step.
    pub open spec fn on_with(self, step: SpawnStep) -> SpawnNext {
        SpawnNext::Continue(Spawning { window_size: self.window_size, step })
    }

    /// Goes on after the step: with the next one after a success, and not at all after an
    /// error, which is returned as it is.
    pub fn next(self, result: Result<(), PtyError>) -> (next: SpawnNext)
        ensures
            next == self.after(result),
    {
        if let Err(error) = result {
            return SpawnNext::Failed(error);
        }
        let window_size = self.window_size;
        let step = match self.step {
            SpawnStep::StartReadDrain { slave_path } => SpawnStep::OpenSlave { slave_path },
            SpawnStep::OpenSlave { slave_path: _ } => SpawnStep::SetNonblocking,
            SpawnStep::SetNonblocking => SpawnStep::SetWindowSize(window_size),
            SpawnStep::SetWindowSize(_) => SpawnStep::SpawnChild,
            SpawnStep::SpawnChild => {
                return SpawnNext::Spawned;
            },
        };
        SpawnNext::Continue(Spawning { window_size, step })
    }
}

/// How a spawn that began so goes on after steps that ended so. Results after its end are
/// not reached.
pub open spec fn spawn_run(first: SpawnNext, results: Seq<Result<(), PtyError>>) -> SpawnNext
    decreases results.len(),
{
    if results.len() == 0 {
        first
    } else {
        match spawn_run(first, results.drop_last()) {
            SpawnNext::Continue(spawning) => spawning.after(results.last()),
            end => end,
        }
    }
}

/// A spawn takes the steps of its plan one after the other, and has spawned the child
/// after the last.
pub proof fn law_spawn_follows_its_plan(
    platform: Platform,
    slave_path: String,
    window_size: WindowSize,
    results: Seq<Result<(), PtyError>>,
)
    requires
        forall|i: int|
            0 <= i < results.len() ==> (#[trigger] results[i]) == Ok::<(), PtyError>(()),
    ensures
        spawn_run(spawn_at(platform, slave_path, window_size, 0), results) == spawn_at(
            platform,
            slave_path,
            window_size,
            results.len() as int,
        ),
    decreases results.len(),
{
    if results.len() > 0 {
        law_spawn_follows_its_plan(platform, slave_path, window_size, results.drop_last());
        assert(results.last() == Ok::<(), PtyError>(()));
    }
}

/// The first error of a spawn ends it and is returned as it is, whatever is reported
/// afterwards.
pub proof fn law_first_error_ends_a_spawn(
    platform: Platform,
    slave_path: String,
    window_size: WindowSize,
    results: Seq<Result<(), PtyError>>,
    error: PtyError,
    later: Seq<Result<(), PtyError>>,
)
    requires
        results.len() < spawn_plan(platform, slave_path, window_size).len(),
        forall|i: int|
            0 <= i < results.len() ==> (#[trigger] results[i]) == Ok::<(), PtyError>(()),
    ensures
        spawn_run(
            spawn_at(platform, slave_path, window_size, 0),
            results.push(Err(error)) + later,
        ) == SpawnNext::Failed(error),
    decreases later.len(),
{
    let all = results.push(Err(error)) + later;
    if later.len() == 0 {
        law_spawn_follows_its_plan(platform, slave_path, window_size, results);
        assert(all.drop_last() =~= results);
        assert(all.last() == Err::<(), PtyError>(error));
    } else {
        law_first_error_ends_a_spawn(
            platform,
            slave_path,
            window_size,
            results,
            error,
            later.drop_last(),
        );
        assert(all.drop_last() =~= results.push(Err(error)) + later.drop_last());
    }
}

/// The slave is open before anything is set on the master, and the window has its size
/// before the child runs.
pub proof fn law_slave_opens_before_the_master_is_set(
    platform: Platform,
    slave_path: String,
    window_size: WindowSize,
    i: int,
    j: int,
)
    requires
        0 <= i < spawn_plan(platform, slave_path, window_size).len(),
        0 <= j < spawn_plan(platform, slave_path, window_size).len(),
    ensures
        ({
            let plan = spawn_plan(platform, slave_path, window_size);
            &&& plan[i] is OpenSlave && (plan[j] is SetNonblocking || plan[j] is SetWindowSize)
                ==> i < j
            &&& plan[i] is SetWindowSize && plan[j] is SpawnChild ==> i < j
            &&& plan[i] is OpenSlave ==> plan[i] == SpawnStep::OpenSlave { slave_path }
            &&& plan[i] is SetWindowSize ==> plan[i] == SpawnStep::SetWindowSize(window_size)
        }),
{
}

/// On macOS, and only there, the drain is started, before any other step and so before
/// the child runs.
pub proof fn law_drain_starts_before_the_child(
    platform: Platform,
    slave_path: String,
    window_size: WindowSize,
    i: int,
)
    requires
        0 <= i < spawn_plan(platform, slave_path, window_size).len(),
    ensures
        spawn_plan(platform, slave_path, window_size)[i] is StartReadDrain <==> platform is MacOs
            && i == 0,
{
}

} // verus!
