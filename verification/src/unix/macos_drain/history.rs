//! What holds of a drain over any run of its thread and the polls.

use super::{
    DrainAction, DrainStart, DrainStartNext, DrainView, LoopEvent, SharedView, BUFFER_CAP, READ_CHUNK,
};
use crate::error::{ErrorKind, IoError};
use vstd::prelude::*;

verus! {

/// Something that happens to a drain.
pub enum DrainOp {
    /// Something happened to the thread.
    Thread(LoopEvent),
    /// A poll, with so much room in its buffer.
    Poll {
        /// The bytes that fit.
        room: nat,
    },
    /// The thread was told to stop.
    Stop,
}

/// A drain with what happened to it so far.
pub struct DrainRun {
    /// The drain.
    pub drain: DrainView,
    /// What its thread does now.
    pub action: DrainAction,
    /// The bytes that the thread read.
    pub read: Seq<u8>,
    /// The bytes that the polls handed over.
    pub received: Seq<u8>,
}

/// The bytes that an event brings.
pub open spec fn event_bytes(event: LoopEvent) -> Seq<u8> {
    match event {
        LoopEvent::Read(Ok(data)) => data,
        _ => Seq::empty(),
    }
}

/// A drain whose thread begins.
pub open spec fn fresh_run() -> DrainRun {
    let drain = DrainView {
        shared: SharedView { buf: Seq::empty(), eof: false, err: None },
        stop: false,
    };
    DrainRun {
        drain,
        action: drain.step(LoopEvent::Resumed).1,
        read: Seq::empty(),
        received: Seq::empty(),
    }
}

/// A run with one more thing happening.
pub open spec fn run_step(run: DrainRun, op: DrainOp) -> DrainRun {
    match op {
        DrainOp::Thread(event) => DrainRun {
            drain: run.drain.step(event).0,
            action: run.drain.step(event).1,
            read: run.read + event_bytes(event),
            ..run
        },
        DrainOp::Poll { room } => DrainRun {
            drain: DrainView {
                shared: run.drain.shared.after_poll(room as int),
                ..run.drain
            },
            received: run.received + super::served_bytes(run.drain.shared.served(room as int)),
            ..run
        },
        DrainOp::Stop => DrainRun { drain: DrainView { stop: true, ..run.drain }, ..run },
    }
}

/// The run in which all this happens.
pub open spec fn run_of(ops: Seq<DrainOp>) -> DrainRun
    decreases ops.len(),
{
    if ops.len() == 0 {
        fresh_run()
    } else {
        run_step(run_of(ops.drop_last()), ops.last())
    }
}

/// Whether an event is the answer to what the thread does.
pub open spec fn answers(event: LoopEvent, action: DrainAction) -> bool {
    match action {
        DrainAction::Sleep { .. } => event is Resumed,
        DrainAction::Poll { .. } => event is Polled,
        DrainAction::Read { .. } => event is Read,
        DrainAction::Exit => false,
    }
}

/// Whether every event is the answer to what the thread did.
pub open spec fn possible(ops: Seq<DrainOp>) -> bool
    decreases ops.len(),
{
    ops.len() == 0 || {
        &&& possible(ops.drop_last())
        &&& ops.last() matches DrainOp::Thread(event) ==> answers(
            event,
            run_of(ops.drop_last()).action,
        )
    }
}

/// No byte is lost, doubled or reordered: what the polls received, and what is buffered,
/// is what the thread read.
pub proof fn law_bytes_arrive_in_order(ops: Seq<DrainOp>)
    ensures
        run_of(ops).received + run_of(ops).drain.shared.buf == run_of(ops).read,
    decreases ops.len(),
{
    if ops.len() > 0 {
        let before = run_of(ops.drop_last());
        law_bytes_arrive_in_order(ops.drop_last());
        let buf = before.drain.shared.buf;
        match ops.last() {
            DrainOp::Poll { room } => {
                let n = crate::read_buf::least(buf.len() as int, room as int);
                assert(buf =~= buf.take(n) + buf.skip(n));
                assert(super::served_bytes(before.drain.shared.served(room as int)) =~= buf.take(n));
            },
            _ => {},
        }
    }
    assert(run_of(ops).received + run_of(ops).drain.shared.buf =~= run_of(ops).read);
}

/// The end and the error come last: a poll that finds one of them comes after every
/// byte that the thread read was handed over.
pub proof fn law_end_comes_after_every_byte(ops: Seq<DrainOp>, room: int)
    ensures
        ({
            let run = run_of(ops);
            let served = run.drain.shared.served(room);
            served is End || served is Failed ==> run.received == run.read
        }),
{
    law_bytes_arrive_in_order(ops);
    let run = run_of(ops);
    assert(run.received + Seq::empty() =~= run.received);
    if run.drain.shared.buf.len() == 0 {
        assert(run.drain.shared.buf =~= Seq::empty());
    }
}

/// The thread ends for a reason, and once: it has ended only if it was told to stop, the
/// master reported its end or a call failed. Where one of the last two happened it has
/// ended, and both never happen.
pub proof fn law_thread_ends_for_a_reason(ops: Seq<DrainOp>)
    requires
        possible(ops),
    ensures
        ({
            let run = run_of(ops);
            let shared = run.drain.shared;
            &&& run.action is Exit ==> run.drain.stop || shared.eof || shared.err is Some
            &&& shared.eof || shared.err is Some ==> run.action is Exit
            &&& !(shared.eof && shared.err is Some)
        }),
    decreases ops.len(),
{
    if ops.len() > 0 {
        law_thread_ends_for_a_reason(ops.drop_last());
    }
}

/// Once the thread has ended without being told to stop, no poll waits any more.
pub proof fn law_no_poll_waits_for_an_ended_thread(ops: Seq<DrainOp>, room: int)
    requires
        possible(ops),
        run_of(ops).action is Exit,
        !run_of(ops).drain.stop,
    ensures
        !(run_of(ops).drain.shared.served(room) is Nothing),
{
    law_thread_ends_for_a_reason(ops);
}

/// Whether no read brought more than one chunk.
pub open spec fn chunked(ops: Seq<DrainOp>) -> bool {
    forall|i: int|
        0 <= i < ops.len() ==> ((#[trigger] ops[i]) matches DrainOp::Thread(event) ==> event_bytes(
            event,
        ).len() <= READ_CHUNK)
}

/// Backpressure: while the buffer is full the thread neither reads nor waits for bytes, so
/// the kernel's buffer fills and the child blocks.
pub proof fn law_full_buffer_holds_the_thread_back(ops: Seq<DrainOp>)
    requires
        possible(ops),
    ensures
        run_of(ops).drain.shared.buf.len() >= BUFFER_CAP ==> !(run_of(ops).action is Poll
            || run_of(ops).action is Read),
    decreases ops.len(),
{
    if ops.len() > 0 {
        law_full_buffer_holds_the_thread_back(ops.drop_last());
    }
}

/// The buffer is bounded, whatever the child writes and however little is taken: it passes
/// its cap by less than one chunk.
pub proof fn law_buffer_is_bounded(ops: Seq<DrainOp>)
    requires
        possible(ops),
        chunked(ops),
    ensures
        run_of(ops).drain.shared.buf.len() < BUFFER_CAP + READ_CHUNK,
    decreases ops.len(),
{
    if ops.len() > 0 {
        assert(chunked(ops.drop_last())) by {
            assert forall|i: int| 0 <= i < ops.drop_last().len() implies ((
            #[trigger] ops.drop_last()[i]) matches DrainOp::Thread(event) ==> event_bytes(
                event,
            ).len() <= READ_CHUNK) by {
                assert(ops.drop_last()[i] == ops[i]);
            }
        }
        law_buffer_is_bounded(ops.drop_last());
        law_full_buffer_holds_the_thread_back(ops.drop_last());
        assert(ops.last() == ops[ops.len() - 1]);
    }
}

/// Whatever a poll waits for wakes it: an event after which a poll would find something,
/// and before which it would not, hands out the waker.
pub proof fn law_news_wake_the_poll_that_waits(drain: DrainView, event: LoopEvent, room: int)
    requires
        drain.shared.served(room) is Nothing,
        !(drain.step(event).0.shared.served(room) is Nothing),
    ensures
        drain.wakes(event),
{
}

/// Told to stop, the thread ends with its next decision, whatever happened to it, and so
/// within one wait.
pub proof fn law_stop_ends_the_thread(drain: DrainView, event: LoopEvent)
    requires
        drain.stop,
    ensures
        drain.step(event).1 is Exit,
{
}

/// Being told to stop is no end and no error: a thread that is to stop records one only
/// where a read that was under way reports it.
pub proof fn law_stop_records_no_ending(drain: DrainView, event: LoopEvent)
    requires
        drain.stop,
    ensures
        drain.step(event).0.shared.eof == drain.shared.eof || (event matches LoopEvent::Read(
            Ok(data),
        ) && data.len() == 0),
        drain.step(event).0.shared.err == drain.shared.err || (event matches LoopEvent::Read(
            Err(error),
        ) && error.errno is Other),
{
}

/// What a poll found at the end stays: nothing that happens later takes an end or an
/// error back, or changes the error.
pub proof fn law_ending_is_final(ops: Seq<DrainOp>, op: DrainOp)
    ensures
        ({
            let before = run_of(ops).drain.shared;
            let after = run_of(ops.push(op)).drain.shared;
            &&& before.eof ==> after.eof
            &&& before.err is Some ==> after.err == before.err
        }),
{
    assert(ops.push(op).drop_last() =~= ops);
}

/// A start that fails leaves no descriptor behind: it fails where there is no duplicate
/// yet, or after the duplicate was closed, and then with the reason for which there is no
/// thread.
pub proof fn law_failed_start_leaves_nothing_open(
    step: DrainStart,
    result: Result<(), IoError>,
    error: IoError,
)
    requires
        step.after(result) == DrainStartNext::Failed(error),
    ensures
        ({
            ||| step is Duplicate && result == Err::<(), IoError>(error)
            ||| step == DrainStart::CloseDuplicate { error }
        }),
{
}

/// Whether this is a read of no bytes.
pub open spec fn reads_the_end(op: DrainOp) -> bool {
    op matches DrainOp::Thread(LoopEvent::Read(Ok(data))) && data.len() == 0
}

/// Whether this carries an error of that category.
pub open spec fn carries(op: DrainOp, kind: ErrorKind) -> bool {
    match op {
        DrainOp::Thread(LoopEvent::Polled(Err(error))) => error.kind == kind,
        DrainOp::Thread(LoopEvent::Read(Err(error))) => error.kind == kind,
        _ => false,
    }
}

/// The end was recorded exactly where a read brought no bytes, and an error only where
/// something carried one of its category. So where nothing carried an error, and a read
/// brought no bytes, a poll that finds no bytes finds the end.
pub proof fn law_endings_have_their_events(ops: Seq<DrainOp>, room: int)
    ensures
        run_of(ops).drain.shared.eof <==> exists|i: int|
            0 <= i < ops.len() && reads_the_end(#[trigger] ops[i]),
        run_of(ops).drain.shared.err matches Some(kind) ==> exists|i: int|
            0 <= i < ops.len() && carries(#[trigger] ops[i], kind),
        ({
            let shared = run_of(ops).drain.shared;
            (forall|i: int, kind: ErrorKind|
                0 <= i < ops.len() ==> !(#[trigger] carries(ops[i], kind))) && (exists|i: int|
                0 <= i < ops.len() && reads_the_end(#[trigger] ops[i])) && shared.buf.len() == 0
                ==> shared.served(room) is End
        }),
    decreases ops.len(),
{
    if ops.len() > 0 {
        let before = ops.drop_last();
        let last = ops.len() - 1;
        law_endings_have_their_events(before, room);
        assert forall|i: int| 0 <= i < before.len() implies #[trigger] before[i] == ops[i] by {}
        if run_of(before).drain.shared.eof {
            let i = choose|i: int| 0 <= i < before.len() && reads_the_end(#[trigger] before[i]);
            assert(reads_the_end(ops[i]));
        }
        if reads_the_end(ops[last]) {
            assert(run_of(ops).drain.shared.eof);
        }
        if exists|i: int| 0 <= i < ops.len() && reads_the_end(#[trigger] ops[i]) {
            let i = choose|i: int| 0 <= i < ops.len() && reads_the_end(#[trigger] ops[i]);
            if i < last {
                assert(reads_the_end(before[i]));
            }
        }
        if run_of(before).drain.shared.err is Some {
            let kind = run_of(before).drain.shared.err->0;
            let i = choose|i: int| 0 <= i < before.len() && carries(#[trigger] before[i], kind);
            assert(carries(ops[i], kind));
        }
        if run_of(ops).drain.shared.err is Some && run_of(before).drain.shared.err is None {
            assert(carries(ops[last], run_of(ops).drain.shared.err->0));
        }
    }
}

} // verus!
