//! What holds of a master over any run of polls and background reads, or of resizes.

use super::{PendingReadState, ReadPhase, READ_CHUNK};
use crate::config::WindowSize;
use crate::error::IoError;
use vstd::prelude::*;

verus! {

/// Something that happens to the read side of a master.
pub enum ReadEvent {
    /// A poll with so much room in its buffer.
    Poll {
        /// The bytes that fit.
        room: nat,
    },
    /// The end of the background read.
    Complete(Result<Seq<u8>, IoError>),
}

/// The read side of a master, with what happened to it so far.
pub struct ReadHistory {
    /// How far the background read is.
    pub phase: ReadPhase,
    /// The reads started.
    pub started: nat,
    /// The reads that ended.
    pub completed: nat,
    /// The results taken by a poll.
    pub taken: nat,
    /// The bytes that the reads brought.
    pub output: Seq<u8>,
    /// The bytes that the polls handed over.
    pub received: Seq<u8>,
}

/// The bytes that wait for a poll.
pub open spec fn held_bytes(phase: ReadPhase) -> Seq<u8> {
    match phase {
        ReadPhase::Holding(Ok(data)) => data,
        _ => Seq::empty(),
    }
}

/// A history with one more event.
pub open spec fn history_step(history: ReadHistory, event: ReadEvent) -> ReadHistory {
    match event {
        ReadEvent::Poll { room } => ReadHistory {
            phase: super::phase_after_poll(history.phase),
            started: if history.phase is Idle {
                history.started + 1
            } else {
                history.started
            },
            taken: if history.phase is Holding {
                history.taken + 1
            } else {
                history.taken
            },
            received: history.received + super::polled_bytes(history.phase, room as int),
            ..history
        },
        ReadEvent::Complete(result) => ReadHistory {
            phase: ReadPhase::Holding(result),
            completed: history.completed + 1,
            output: history.output + held_bytes(ReadPhase::Holding(result)),
            ..history
        },
    }
}

/// The history of a new master after these events.
pub open spec fn history_after(events: Seq<ReadEvent>) -> ReadHistory
    decreases events.len(),
{
    if events.len() == 0 {
        ReadHistory {
            phase: ReadPhase::Idle,
            started: 0,
            completed: 0,
            taken: 0,
            output: Seq::empty(),
            received: Seq::empty(),
        }
    } else {
        history_step(history_after(events.drop_last()), events.last())
    }
}

/// Whether every read that ends was under way.
pub open spec fn possible(events: Seq<ReadEvent>) -> bool
    decreases events.len(),
{
    events.len() == 0 || {
        &&& possible(events.drop_last())
        &&& events.last() is Complete ==> history_after(events.drop_last()).phase is InFlight
    }
}

/// Whether every poll that takes a result has room for all of it.
pub open spec fn roomy(events: Seq<ReadEvent>) -> bool
    decreases events.len(),
{
    events.len() == 0 || {
        &&& roomy(events.drop_last())
        &&& events.last() matches ReadEvent::Poll { room } ==> held_bytes(
            history_after(events.drop_last()).phase,
        ).len() <= room
    }
}

/// Reads are serialized: at most one is under way at any time, and each result is
/// taken once before the next read starts.
pub proof fn law_reads_are_serialized(events: Seq<ReadEvent>)
    requires
        possible(events),
    ensures
        ({
            let history = history_after(events);
            &&& history.started == history.completed + (if history.phase is InFlight {
                1int
            } else {
                0int
            })
            &&& history.completed == history.taken + (if history.phase is Holding {
                1int
            } else {
                0int
            })
        }),
    decreases events.len(),
{
    if events.len() > 0 {
        law_reads_are_serialized(events.drop_last());
    }
}

/// No output is lost, doubled or reordered where every poll that takes a result has
/// room for it: what the polls received, and what waits for the next, is what the reads
/// brought.
pub proof fn law_output_is_received_in_order(events: Seq<ReadEvent>)
    requires
        possible(events),
        roomy(events),
    ensures
        ({
            let history = history_after(events);
            history.received + held_bytes(history.phase) == history.output
        }),
    decreases events.len(),
{
    let history = history_after(events);
    if events.len() > 0 {
        let before = history_after(events.drop_last());
        law_output_is_received_in_order(events.drop_last());
        match events.last() {
            ReadEvent::Poll { room } => {
                assert(super::polled_bytes(before.phase, room as int) =~= held_bytes(before.phase));
            },
            ReadEvent::Complete(_) => {},
        }
    }
    assert(history.received + held_bytes(history.phase) =~= history.output);
}

/// The end of a read wakes whoever polled last: the waker that a poll left is the one that
/// the end of the read hands out.
pub proof fn law_last_poll_is_woken<W: Clone>(pending: PendingReadState<W>, waker: W)
    requires
        super::wakes(pending, waker),
    ensures
        super::waiting(pending) matches Some(w) && cloned(waker, w),
{
}

/// A background read never brings more than the poll that started it had room for, so
/// a poll with as much room as that takes the whole result.
pub proof fn law_read_fits_the_starting_poll(room: nat, bytes_read: u32, buffer: Seq<u8>)
    requires
        buffer.len() == crate::read_buf::least(room as int, READ_CHUNK as int),
    ensures
        buffer.take(crate::read_buf::least(bytes_read as int, buffer.len() as int)).len() <= room,
{
}

/// The current window size of a master made with a size, after requests for others, each
/// with whether it succeeded.
pub open spec fn size_after_all(initial: WindowSize, requests: Seq<(WindowSize, bool)>) -> WindowSize
    decreases requests.len(),
{
    if requests.len() == 0 {
        initial
    } else {
        super::size_after(
            size_after_all(initial, requests.drop_last()),
            requests.last().0,
            requests.last().1,
        )
    }
}

/// The current window size is the one that the last successful request asked for, or,
/// where none succeeded, the one that the master was made with.
pub proof fn law_window_size_is_the_last_successful_one(
    initial: WindowSize,
    requests: Seq<(WindowSize, bool)>,
    last: int,
)
    requires
        -1 <= last < requests.len(),
        last >= 0 ==> requests[last].1,
        forall|i: int| last < i < requests.len() ==> !(#[trigger] requests[i]).1,
    ensures
        size_after_all(initial, requests) == (if last >= 0 {
            requests[last].0
        } else {
            initial
        }),
    decreases requests.len(),
{
    if requests.len() > 0 && last < requests.len() - 1 {
        assert(!requests[requests.len() - 1].1);
        law_window_size_is_the_last_successful_one(initial, requests.drop_last(), last);
    }
}

} // verus!
