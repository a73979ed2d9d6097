//! What holds of a master over the whole of an allocation or of a poll.

use super::{OpenNext, OpenReply, OpenStep, Opening, PollStep, UnixPtyMaster};
use crate::config::WindowSize;
use crate::error::{Errno, IoError, PtyError};
use crate::platform::Platform;
use vstd::prelude::*;

verus! {

/// A step of an allocation without its arguments.
pub enum OpenKind {
    /// Open the master device.
    OpenDevice,
    /// Read the descriptor flags.
    GetFdFlags,
    /// Write the descriptor flags.
    SetFdFlags,
    /// Grant access to the slave.
    Grant,
    /// Unlock the slave.
    Unlock,
    /// Ask for the slave's path.
    SlaveName,
    /// Make the master non-blocking.
    SetNonblocking,
    /// Register the master for asynchronous I/O.
    Register,
}

/// The kind of a step.
pub open spec fn kind(step: OpenStep) -> OpenKind {
    match step {
        OpenStep::OpenDevice(_) => OpenKind::OpenDevice,
        OpenStep::GetFdFlags => OpenKind::GetFdFlags,
        OpenStep::SetFdFlags { .. } => OpenKind::SetFdFlags,
        OpenStep::Grant => OpenKind::Grant,
        OpenStep::Unlock => OpenKind::Unlock,
        OpenStep::SlaveName => OpenKind::SlaveName,
        OpenStep::SetNonblocking { .. } => OpenKind::SetNonblocking,
        OpenStep::Register { .. } => OpenKind::Register,
    }
}

/// The steps of an allocation, in order.
pub open spec fn open_plan(platform: Platform) -> Seq<OpenKind> {
    match platform {
        Platform::Linux => seq![
            OpenKind::OpenDevice,
            OpenKind::Grant,
            OpenKind::Unlock,
            OpenKind::SlaveName,
            OpenKind::SetNonblocking,
            OpenKind::Register,
        ],
        Platform::MacOs => seq![
            OpenKind::OpenDevice,
            OpenKind::GetFdFlags,
            OpenKind::SetFdFlags,
            OpenKind::Grant,
            OpenKind::Unlock,
            OpenKind::SlaveName,
            OpenKind::Register,
        ],
        Platform::OtherUnix => seq![
            OpenKind::OpenDevice,
            OpenKind::GetFdFlags,
            OpenKind::SetFdFlags,
            OpenKind::Grant,
            OpenKind::Unlock,
            OpenKind::SlaveName,
            OpenKind::SetNonblocking,
            OpenKind::Register,
        ],
    }
}

/// Whether step `i` succeeded with its reply and led to the step behind it.
pub open spec fn leads_on(openings: Seq<Opening>, replies: Seq<OpenReply>, i: int) -> bool {
    &&& openings[i].fits(replies[i])
    &&& openings[i].goes_on(Ok(replies[i]), OpenNext::Continue(openings[i + 1]))
}

/// Whether an allocation took these steps, all of which succeeded with these replies, and
/// then went on so.
pub open spec fn allocation(
    openings: Seq<Opening>,
    replies: Seq<OpenReply>,
    next: OpenNext,
) -> bool {
    &&& openings.len() > 0
    &&& replies.len() == openings.len()
    &&& openings[0].step == OpenStep::OpenDevice(super::device_flags(openings[0].platform))
    &&& forall|i: int| 0 <= i < openings.len() - 1 ==> #[trigger] leads_on(openings, replies, i)
    &&& openings.last().fits(replies.last())
    &&& openings.last().goes_on(Ok(replies.last()), next)
}

/// A step on the plan leads to the next one on it.
proof fn lemma_next_step_is_on_the_plan(opening: Opening, reply: OpenReply, next: Opening, i: int)
    requires
        0 <= i < open_plan(opening.platform).len(),
        kind(opening.step) == open_plan(opening.platform)[i],
        opening.fits(reply),
        opening.goes_on(Ok(reply), OpenNext::Continue(next)),
    ensures
        next.platform == opening.platform,
        next.fd_cloexec == opening.fd_cloexec,
        i + 1 < open_plan(opening.platform).len(),
        kind(next.step) == open_plan(opening.platform)[i + 1],
{
}

/// An allocation takes its steps in the order of its plan, and its platform stays.
proof fn lemma_allocation_is_on_its_plan(
    openings: Seq<Opening>,
    replies: Seq<OpenReply>,
    next: OpenNext,
    i: int,
)
    requires
        allocation(openings, replies, next),
        0 <= i < openings.len(),
    ensures
        openings[i].platform == openings[0].platform,
        openings[i].fd_cloexec == openings[0].fd_cloexec,
        i < open_plan(openings[0].platform).len(),
        kind(openings[i].step) == open_plan(openings[0].platform)[i],
    decreases i,
{
    if i > 0 {
        lemma_allocation_is_on_its_plan(openings, replies, next, i - 1);
        assert(leads_on(openings, replies, i - 1));
        lemma_next_step_is_on_the_plan(openings[i - 1], replies[i - 1], openings[i], i - 1);
    }
}

/// An allocation that succeeds took exactly the steps of its plan, in order.
pub proof fn law_allocation_follows_its_plan(
    openings: Seq<Opening>,
    replies: Seq<OpenReply>,
    master: UnixPtyMaster,
    slave_path: String,
)
    requires
        allocation(openings, replies, OpenNext::Opened(master, slave_path)),
    ensures
        openings.map_values(|opening: Opening| kind(opening.step)) == open_plan(
            openings[0].platform,
        ),
{
    let next = OpenNext::Opened(master, slave_path);
    let plan = open_plan(openings[0].platform);
    let last = openings.len() - 1;
    lemma_allocation_is_on_its_plan(openings, replies, next, last);
    assert(kind(openings[last].step) is Register);
    assert(last == plan.len() - 1);
    assert forall|i: int| 0 <= i < openings.len() implies kind(openings[i].step) == plan[i] by {
        lemma_allocation_is_on_its_plan(openings, replies, next, i);
    }
    assert(openings.map_values(|opening: Opening| kind(opening.step)) =~= plan);
}

/// A master that was allocated is open, is not drained, and comes with the path that the
/// system gave for its slave.
pub proof fn law_allocated_master_is_open(
    openings: Seq<Opening>,
    replies: Seq<OpenReply>,
    master: UnixPtyMaster,
    slave_path: String,
    i: int,
)
    requires
        allocation(openings, replies, OpenNext::Opened(master, slave_path)),
        0 <= i < openings.len(),
    ensures
        master.open@,
        !master.draining,
        openings[i].step is SlaveName ==> (replies[i] matches OpenReply::SlaveName(name)
            && slave_path@ == vstd::utf8::decode_utf8(name@)),
{
    let next = OpenNext::Opened(master, slave_path);
    let last = openings.len() - 1;
    law_allocation_follows_its_plan(openings, replies, master, slave_path);
    lemma_allocation_is_on_its_plan(openings, replies, next, last);
    lemma_allocation_is_on_its_plan(openings, replies, next, i);
    if openings[i].step is SlaveName {
        assert(leads_on(openings, replies, i));
        lemma_allocation_is_on_its_plan(openings, replies, next, i + 1);
        if i + 1 < last {
            assert(leads_on(openings, replies, i + 1));
            lemma_allocation_is_on_its_plan(openings, replies, next, i + 2);
        }
    }
}

/// A master that was allocated is closed in every child that executes another program.
/// Linux takes the flag with the opening; elsewhere it is set next, beside the flags that
/// the descriptor had.
pub proof fn law_allocated_master_is_close_on_exec(
    openings: Seq<Opening>,
    replies: Seq<OpenReply>,
    master: UnixPtyMaster,
    slave_path: String,
)
    requires
        allocation(openings, replies, OpenNext::Opened(master, slave_path)),
    ensures
        if openings[0].platform is Linux {
            openings[0].step matches OpenStep::OpenDevice(flags) && flags.close_on_exec
        } else {
            &&& openings.len() > 2
            &&& replies[1] matches OpenReply::FdFlags(had)
            &&& openings[2].step == OpenStep::SetFdFlags { flags: had | openings[0].fd_cloexec }
        },
{
    let next = OpenNext::Opened(master, slave_path);
    law_allocation_follows_its_plan(openings, replies, master, slave_path);
    if !(openings[0].platform is Linux) {
        assert(openings.map_values(|opening: Opening| kind(opening.step)).len()
            == openings.len());
        lemma_allocation_is_on_its_plan(openings, replies, next, 1);
        assert(leads_on(openings, replies, 1));
    }
}

/// On macOS no step of an allocation makes the master non-blocking, which the system
/// rejects until the slave is open; that is left to the spawn, behind its opening of the
/// slave.
pub proof fn law_macos_master_is_not_set_before_its_slave_opens(
    openings: Seq<Opening>,
    replies: Seq<OpenReply>,
    next: OpenNext,
    i: int,
)
    requires
        allocation(openings, replies, next),
        openings[0].platform is MacOs,
        0 <= i < openings.len(),
    ensures
        !(openings[i].step is SetNonblocking),
        forall|k: int|
            0 <= k < open_plan(Platform::MacOs).len() ==> !((#[trigger] open_plan(
                Platform::MacOs,
            )[k]) is SetNonblocking),
{
    lemma_allocation_is_on_its_plan(openings, replies, next, i);
}

/// Setting a descriptor flag keeps the others.
pub proof fn law_close_on_exec_keeps_other_flags(had: u32, flag: u32)
    ensures
        (had | flag) & flag == flag,
        (had | flag) & had == had,
        (had | flag) & !flag == had & !flag,
{
    assert((had | flag) & flag == flag) by (bit_vector);
    assert((had | flag) & had == had) by (bit_vector);
    assert((had | flag) & !flag == had & !flag) by (bit_vector);
}

/// What a poll returns whose transfers end so, one after the other, if it returns.
pub open spec fn settled<T>(outcomes: Seq<Result<T, Errno>>) -> Option<Result<T, IoError>>
    decreases outcomes.len(),
{
    if outcomes.len() == 0 {
        None
    } else {
        match super::transfer_step(outcomes[0]) {
            PollStep::Finished(result) => Some(result),
            _ => settled(outcomes.drop_first()),
        }
    }
}

/// A transfer that was not ready or was interrupted never shows: however many of them
/// come first, the poll returns what the first other transfer gives.
pub proof fn law_transient_failures_never_show<T>(
    transient: Seq<Result<T, Errno>>,
    outcome: Result<T, Errno>,
)
    requires
        forall|i: int|
            0 <= i < transient.len() ==> (#[trigger] transient[i]) == Err::<T, Errno>(Errno::Again)
                || transient[i] == Err::<T, Errno>(Errno::Interrupted),
    ensures
        settled(transient) is None,
        outcome matches Ok(value) ==> settled(transient.push(outcome)) == Some(
            Ok::<T, IoError>(value),
        ),
        outcome matches Err(Errno::Other(code)) ==> settled(transient.push(outcome)) == Some(
            Err::<T, IoError>(IoError::Os(code)),
        ),
    decreases transient.len(),
{
    let all = transient.push(outcome);
    if transient.len() == 0 {
        assert(all[0] == outcome);
    } else {
        assert(all[0] == transient[0]);
        assert(all.drop_first() =~= transient.drop_first().push(outcome));
        law_transient_failures_never_show(transient.drop_first(), outcome);
    }
}

/// A closed master is at the end of its input, takes no output, and neither sets nor
/// gives a window size.
pub proof fn law_closed_master_refuses(master: UnixPtyMaster, size: WindowSize, step: PollStep<usize>)
    requires
        !master.open@,
        master.write_starts(step),
    ensures
        master.read_start() == PollStep::Finished(Ok::<(), IoError>(())),
        step matches PollStep::Finished(Err(_)),
        master.resize_request(size) == Err::<crate::config::Winsize, PtyError>(PtyError::Closed),
        master.size_request() == Err::<(), PtyError>(PtyError::Closed),
{
}

/// The window size that the kernel is given is the one that it is asked for: the record
/// of a request reads back as the size requested.
pub proof fn law_window_size_reads_back(master: UnixPtyMaster, size: WindowSize)
    requires
        master.open@,
    ensures
        master.resize_request(size) matches Ok(winsize) && crate::config::window_size_of(winsize)
            == size,
{
}

} // verus!
