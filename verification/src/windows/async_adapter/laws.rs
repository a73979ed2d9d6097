//! What callers may rely on when they use a `ConPTY` master.

use super::{PendingReadState, ReadPoll, WindowsPtyMaster};
use crate::config::WindowSize;
use crate::error::{IoError, PtyError};
use crate::open_flag::OpenFlag;
use tokio::io::ReadBuf;
use vstd::prelude::*;

verus! {

/// A new master is open, has no read under way, and has the size and the callback that it
/// was made with, or the default size and no callback.
pub proof fn law_new_master_is_open_and_idle<F, W: Clone>(
    resize_fn: F,
    size: WindowSize,
    master: WindowsPtyMaster<F, W>,
    plain: WindowsPtyMaster<F, W>,
    open: bool,
    plain_open: bool,
)
    requires
        call_ensures(WindowsPtyMaster::<F, W>::new, (resize_fn, size), master),
        call_ensures(WindowsPtyMaster::<F, W>::without_resize, (), plain),
        call_ensures(WindowsPtyMaster::<F, W>::is_open, (&master,), open),
        call_ensures(WindowsPtyMaster::<F, W>::is_open, (&plain,), plain_open),
    ensures
        open,
        plain_open,
        master.pending_read is Idle,
        plain.pending_read is Idle,
        master.resize_fn == Some(resize_fn),
        plain.resize_fn is None,
        master.window_size == size,
        plain.window_size == (WindowSize { cols: 80, rows: 24, xpixel: 0, ypixel: 0 }),
{
}

/// Whether a master is open is what its flag says, and nothing else decides it.
pub proof fn law_master_is_open_by_its_flag<F, W: Clone>(
    master: WindowsPtyMaster<F, W>,
    open: bool,
    flag: bool,
)
    requires
        call_ensures(WindowsPtyMaster::<F, W>::is_open, (&master,), open),
        call_ensures(OpenFlag::is_set, (&master.open,), flag),
    ensures
        open == flag,
{
}

/// Clearing the flag of a master closes it, and nothing else changes; looking at the flag
/// changes nothing.
pub proof fn law_flag_is_the_masters<F, W: Clone>(
    master: &mut WindowsPtyMaster<F, W>,
    flag: &mut OpenFlag,
    before: bool,
    after: bool,
)
    requires
        call_ensures(WindowsPtyMaster::<F, W>::open_flag, (master,), flag),
        call_ensures(WindowsPtyMaster::<F, W>::is_open, (&*old(master),), before),
        call_ensures(WindowsPtyMaster::<F, W>::is_open, (&*final(master),), after),
    ensures
        old(flag)@ == before,
        final(flag)@ == after,
        final(master).resize_fn == old(master).resize_fn,
        final(master).window_size == old(master).window_size,
        final(master).pending_read == old(master).pending_read,
{
}

/// A poll without a read under way asks for one, of as much as fits and at most 4096 bytes.
/// While one is under way no other is asked for. Either way the waker of this poll is the
/// one that is kept, and its buffer stays.
pub proof fn law_one_read_at_a_time<F, W: Clone>(
    master: &mut WindowsPtyMaster<F, W>,
    waker: &W,
    buf: &mut ReadBuf<'_>,
    poll: ReadPoll,
)
    requires
        !(old(master).pending_read is Ready),
        call_ensures(WindowsPtyMaster::<F, W>::poll_read, (master, waker, buf), poll),
    ensures
        poll is Pending <==> old(master).pending_read is InProgress,
        poll is Start <==> old(master).pending_read is Idle,
        poll matches ReadPoll::Start { len } ==> {
            let fits = crate::read_buf::capacity_of(*old(buf)) - crate::read_buf::filled_bytes(
                *old(buf),
            ).len();
            &&& len <= fits
            &&& len <= 4096
            &&& len == fits || len == 4096
        },
        final(master).pending_read matches PendingReadState::InProgress(Some(kept)) && cloned(
            *waker,
            kept,
        ),
        *final(buf) == *old(buf),
{
}

/// A poll takes the result of a read that has ended, once: what fits of the bytes, from the
/// front, goes behind what is filled, and an error is returned as it is. No read is under
/// way then. A result without bytes, which is the end, and an error leave the buffer.
pub proof fn law_ended_read_is_taken_once<F, W: Clone>(
    master: &mut WindowsPtyMaster<F, W>,
    waker: &W,
    buf: &mut ReadBuf<'_>,
    poll: ReadPoll,
)
    requires
        old(master).pending_read is Ready,
        call_ensures(WindowsPtyMaster::<F, W>::poll_read, (master, waker, buf), poll),
    ensures
        final(master).pending_read is Idle,
        ({
            let had = crate::read_buf::filled_bytes(*old(buf));
            let has = crate::read_buf::filled_bytes(*final(buf));
            let capacity = crate::read_buf::capacity_of(*old(buf));
            match old(master).pending_read->Ready_0 {
                Ok(data) => {
                    let moved = has.len() - had.len();
                    &&& poll == ReadPoll::Ready(Ok(()))
                    &&& 0 <= moved <= data@.len()
                    &&& has.len() <= capacity
                    &&& moved < data@.len() ==> has.len() == capacity
                    &&& forall|i: int| 0 <= i < had.len() ==> #[trigger] has[i] == had[i]
                    &&& forall|i: int| 0 <= i < moved ==> has[had.len() + i] == #[trigger] data@[i]
                    &&& crate::read_buf::capacity_of(*final(buf)) == capacity
                    &&& data@.len() == 0 ==> *final(buf) == *old(buf)
                },
                Err(error) => poll == ReadPoll::Ready(Err(error)) && *final(buf) == *old(buf),
            }
        }),
{
}

/// A poll that takes bytes leaves the spare bytes that they do not reach, and all that still
/// fits is spare then.
pub proof fn law_taken_bytes_leave_the_other_spare_ones<F, W: Clone>(
    master: &mut WindowsPtyMaster<F, W>,
    waker: &W,
    buf: &mut ReadBuf<'_>,
    poll: ReadPoll,
    data: Vec<u8>,
)
    requires
        old(master).pending_read == PendingReadState::<W>::Ready(Ok(data)),
        data@.len() > 0,
        call_ensures(WindowsPtyMaster::<F, W>::poll_read, (master, waker, buf), poll),
    ensures
        ({
            let spare = crate::read_buf::spare_bytes(*old(buf));
            let left = crate::read_buf::spare_bytes(*final(buf));
            let has = crate::read_buf::filled_bytes(*final(buf));
            let moved = has.len() - crate::read_buf::filled_bytes(*old(buf)).len();
            &&& left.len() + has.len() == crate::read_buf::capacity_of(*final(buf))
            &&& forall|i: int|
                moved <= i < spare.len() ==> left[i - moved] == #[trigger] spare[i]
        }),
{
}

/// Whatever a poll finds, it changes neither the callback nor the flag nor the size: a child
/// that has exited is read to the end of its output.
pub proof fn law_poll_changes_the_read_alone<F, W: Clone>(
    master: &mut WindowsPtyMaster<F, W>,
    waker: &W,
    buf: &mut ReadBuf<'_>,
    poll: ReadPoll,
)
    requires
        call_ensures(WindowsPtyMaster::<F, W>::poll_read, (master, waker, buf), poll),
    ensures
        final(master).resize_fn == old(master).resize_fn,
        final(master).open == old(master).open,
        final(master).window_size == old(master).window_size,
{
}

/// The end of a read keeps its result for the next poll and hands out the waker of whoever
/// polled while it was under way; nothing else changes.
pub proof fn law_ended_read_wakes_who_waits<F, W: Clone>(
    master: &mut WindowsPtyMaster<F, W>,
    result: Result<Vec<u8>, IoError>,
    waker: Option<W>,
)
    requires
        call_ensures(WindowsPtyMaster::<F, W>::read_completed, (master, result), waker),
    ensures
        final(master).pending_read == PendingReadState::<W>::Ready(result),
        old(master).pending_read matches PendingReadState::InProgress(waiting) ==> waker == waiting,
        !(old(master).pending_read is InProgress) ==> waker is None,
        final(master).resize_fn == old(master).resize_fn,
        final(master).open == old(master).open,
        final(master).window_size == old(master).window_size,
{
}

/// The bytes that a read brought are what the next poll with room for them hands over, and
/// its error is what the next poll returns.
pub proof fn law_read_is_handed_to_the_next_poll<F, W: Clone>(
    completed: &mut WindowsPtyMaster<F, W>,
    result: Result<Vec<u8>, IoError>,
    woken: Option<W>,
    polled: &mut WindowsPtyMaster<F, W>,
    waker: &W,
    buf: &mut ReadBuf<'_>,
    poll: ReadPoll,
)
    requires
        call_ensures(WindowsPtyMaster::<F, W>::read_completed, (completed, result), woken),
        *old(polled) == *final(completed),
        call_ensures(WindowsPtyMaster::<F, W>::poll_read, (polled, waker, buf), poll),
    ensures
        result matches Err(error) ==> poll == ReadPoll::Ready(Err(error)),
        result matches Ok(data) ==> {
            let had = crate::read_buf::filled_bytes(*old(buf));
            &&& poll == ReadPoll::Ready(Ok(()))
            &&& had.len() + data@.len() <= crate::read_buf::capacity_of(*old(buf))
                ==> crate::read_buf::filled_bytes(*final(buf)) == had + data@
        },
{
    if let Ok(data) = result {
        assert(data@.take(data@.len() as int) =~= data@);
    }
}

/// The waker that a poll left is the one that the end of the read hands out.
pub proof fn law_end_of_a_read_wakes_the_last_poll<F, W: Clone>(
    polled: &mut WindowsPtyMaster<F, W>,
    waker: &W,
    buf: &mut ReadBuf<'_>,
    poll: ReadPoll,
    completed: &mut WindowsPtyMaster<F, W>,
    result: Result<Vec<u8>, IoError>,
    woken: Option<W>,
)
    requires
        call_ensures(WindowsPtyMaster::<F, W>::poll_read, (polled, waker, buf), poll),
        !(poll is Ready),
        *old(completed) == *final(polled),
        call_ensures(WindowsPtyMaster::<F, W>::read_completed, (completed, result), woken),
    ensures
        woken matches Some(kept) && cloned(*waker, kept),
{
}

/// A write is refused exactly where the master is closed, as a broken pipe; an open one
/// hands on the low 32 bits of the length.
pub proof fn law_only_a_closed_master_refuses_a_write<F, W: Clone>(
    master: WindowsPtyMaster<F, W>,
    data: &[u8],
    open: bool,
    request: Result<u32, IoError>,
)
    requires
        call_ensures(WindowsPtyMaster::<F, W>::is_open, (&master,), open),
        call_ensures(WindowsPtyMaster::<F, W>::poll_write, (&master, data), request),
    ensures
        request is Ok <==> open,
        request matches Ok(len) ==> len as int == data@.len() as int % 0x1_0000_0000,
        request matches Err(error) ==> (error matches IoError::Custom { kind, message } && kind
            is BrokenPipe && message@ == "PTY closed"@),
{
}

/// A master that was closed or shut down is closed, and the rest of it stays; neither can
/// fail, and a flush cannot either.
pub proof fn law_closed_master_stays_closed<F, W: Clone>(
    closed: &mut WindowsPtyMaster<F, W>,
    shut: &mut WindowsPtyMaster<F, W>,
    close: Result<(), PtyError>,
    shutdown: Result<(), IoError>,
    flush: Result<(), IoError>,
    closed_open: bool,
    shut_open: bool,
)
    requires
        call_ensures(WindowsPtyMaster::<F, W>::close, (closed,), close),
        call_ensures(WindowsPtyMaster::<F, W>::poll_shutdown, (shut,), shutdown),
        call_ensures(WindowsPtyMaster::<F, W>::poll_flush, (&*old(shut),), flush),
        call_ensures(WindowsPtyMaster::<F, W>::is_open, (&*final(closed),), closed_open),
        call_ensures(WindowsPtyMaster::<F, W>::is_open, (&*final(shut),), shut_open),
    ensures
        close is Ok,
        shutdown is Ok,
        flush is Ok,
        !closed_open,
        !shut_open,
        final(closed).resize_fn == old(closed).resize_fn,
        final(closed).window_size == old(closed).window_size,
        final(closed).pending_read == old(closed).pending_read,
        final(shut).resize_fn == old(shut).resize_fn,
        final(shut).window_size == old(shut).window_size,
        final(shut).pending_read == old(shut).pending_read,
{
}

/// The callback is asked for a resize where there is one; where there is none, a resize is
/// not supported.
pub proof fn law_resize_needs_a_callback<F, W: Clone>(
    master: WindowsPtyMaster<F, W>,
    resizer: Result<&F, PtyError>,
)
    requires
        call_ensures(WindowsPtyMaster::<F, W>::resizer, (&master,), resizer),
    ensures
        resizer is Ok <==> master.resize_fn is Some,
        resizer matches Ok(f) ==> master.resize_fn == Some(*f),
        resizer matches Err(error) ==> (error matches PtyError::Resize(
            IoError::Custom { kind, message },
        ) && kind is Unsupported && message@ == "resize not supported"@),
{
}

/// After an outcome of the callback the window size is the one asked for where that was a
/// success, and stays where it was not. The outcome is handed on, and the rest stays.
pub proof fn law_successful_resize_is_the_size<F, W: Clone, E>(
    master: &mut WindowsPtyMaster<F, W>,
    size: WindowSize,
    outcome: Result<(), E>,
    result: Result<(), E>,
    read: Result<WindowSize, PtyError>,
)
    requires
        call_ensures(WindowsPtyMaster::<F, W>::resized::<E>, (master, size, outcome), result),
        call_ensures(WindowsPtyMaster::<F, W>::window_size, (&*final(master),), read),
    ensures
        result == outcome,
        outcome is Ok ==> read == Ok::<WindowSize, PtyError>(size),
        outcome is Err ==> read == Ok::<WindowSize, PtyError>(old(master).window_size),
        final(master).resize_fn == old(master).resize_fn,
        final(master).open == old(master).open,
        final(master).pending_read == old(master).pending_read,
{
}

/// A resize can be asked for wherever there is no callback, or the callback takes the size.
pub proof fn law_every_size_can_be_asked_for<F: Fn(WindowSize) -> Result<(), PtyError>, W: Clone>(
    master: &mut WindowsPtyMaster<F, W>,
    size: WindowSize,
)
    requires
        old(master).resize_fn matches Some(f) ==> call_requires(f, (size,)),
    ensures
        call_requires(WindowsPtyMaster::<F, W>::resize, (old(master), size)),
{
}

/// A resize returns what the callback returns for that size, and the window has the size
/// exactly where that was a success; without a callback it fails, and the size stays.
pub proof fn law_resize_asks_the_callback<
    F: Fn(WindowSize) -> Result<(), PtyError>,
    W: Clone,
>(
    master: &mut WindowsPtyMaster<F, W>,
    size: WindowSize,
    result: Result<(), PtyError>,
    read: Result<WindowSize, PtyError>,
)
    requires
        call_ensures(WindowsPtyMaster::<F, W>::resize, (master, size), result),
        call_ensures(WindowsPtyMaster::<F, W>::window_size, (&*final(master),), read),
    ensures
        old(master).resize_fn matches Some(f) ==> call_ensures(f, (size,), result),
        old(master).resize_fn is None ==> (result matches Err(
            PtyError::Resize(IoError::Custom { kind, message }),
        ) && kind is Unsupported && message@ == "resize not supported"@),
        read == Ok::<WindowSize, PtyError>(
            if result is Ok {
                size
            } else {
                old(master).window_size
            },
        ),
        final(master).resize_fn == old(master).resize_fn,
        final(master).open == old(master).open,
        final(master).pending_read == old(master).pending_read,
{
}

/// A background read returns what `ReadFile` put at the front of the buffer. A broken pipe
/// is the end, and so no bytes; any other failure is its error code.
pub proof fn law_read_returns_what_the_pipe_gave(
    success: i32,
    buffer: Vec<u8>,
    bytes_read: u32,
    last_error: i32,
    result: Result<Vec<u8>, IoError>,
)
    requires
        call_ensures(super::read_file_result, (success, buffer, bytes_read, last_error), result),
    ensures
        result is Err <==> success == 0 && last_error != 109,
        result matches Err(error) ==> error == IoError::Os(last_error),
        result matches Ok(data) ==> (if success == 0 {
            data@.len() == 0
        } else {
            &&& data@.len() <= bytes_read
            &&& data@.len() <= buffer@.len()
            &&& data@.len() == bytes_read || data@.len() == buffer@.len()
            &&& forall|i: int| 0 <= i < data@.len() ==> #[trigger] data@[i] == buffer@[i]
        }),
{
}

/// The background task hands on what its read returned; where it did not run to its end, the
/// runtime's message is the error.
pub proof fn law_background_read_is_handed_on(
    joined: Result<Result<Vec<u8>, IoError>, String>,
    result: Result<Vec<u8>, IoError>,
)
    requires
        call_ensures(super::joined_read, (joined,), result),
    ensures
        joined matches Ok(read) ==> result == read,
        joined matches Err(text) ==> (result matches Err(IoError::Custom { kind, message }) && kind
            is Other && message@ == text@),
{
}

/// A write returns how many bytes `WriteFile` wrote, and fails exactly where that did, with
/// its error code.
pub proof fn law_write_returns_what_the_pipe_took(
    success: i32,
    bytes_written: u32,
    last_error: i32,
    result: Result<usize, IoError>,
)
    requires
        call_ensures(super::write_file_result, (success, bytes_written, last_error), result),
    ensures
        result is Err <==> success == 0,
        result matches Ok(n) ==> n == bytes_written,
        result matches Err(error) ==> error == IoError::Os(last_error),
{
}

} // verus!
