//! What callers may rely on when they drain a master.

use super::{
    Drain, DrainAction, DrainEvent, DrainPoll, DrainStart, DrainStartNext, Shared, SysError,
};
use crate::error::{ErrorKind, IoError};
use tokio::io::ReadBuf;
use vstd::prelude::*;

verus! {

/// A new drain has read nothing, has not ended, is not to stop, and nobody waits for it.
pub proof fn law_new_drain_is_empty<W: Clone>(drain: Drain<W>, shared: Shared<W>)
    requires
        call_ensures(Drain::<W>::new, (), drain),
        call_ensures(Shared::<W>::new, (), shared),
    ensures
        drain.shared.buf@.len() == 0,
        !drain.shared.eof,
        drain.shared.err is None,
        drain.shared.waker is None,
        !drain.stop,
        shared.buf@.len() == 0,
        !shared.eof,
        shared.err is None,
        shared.waker is None,
{
}

/// Bytes that are pushed stand behind those that are there; whoever waited is handed out to
/// be woken, and nothing else changes.
pub proof fn law_push_appends<W>(shared: &mut Shared<W>, data: &[u8], waker: Option<W>)
    requires
        call_ensures(super::push::<W>, (shared, data), waker),
    ensures
        final(shared).buf@.len() == old(shared).buf@.len() + data@.len(),
        forall|i: int|
            0 <= i < old(shared).buf@.len() ==> #[trigger] final(shared).buf@[i] == old(
                shared,
            ).buf@[i],
        forall|i: int|
            0 <= i < data@.len() ==> final(shared).buf@[old(shared).buf@.len() + i]
                == #[trigger] data@[i],
        final(shared).eof == old(shared).eof,
        final(shared).err == old(shared).err,
        waker == old(shared).waker,
        final(shared).waker is None,
{
}

/// The end and an error are kept apart: the one sets the end alone, the other the error
/// alone, and only where there is none yet. No byte is lost, and whoever waited is handed
/// out to be woken.
pub proof fn law_endings_are_kept_apart<W>(
    shared: &mut Shared<W>,
    err: Option<ErrorKind>,
    waker: Option<W>,
)
    requires
        call_ensures(super::finish::<W>, (shared, err), waker),
    ensures
        err is None ==> final(shared).eof && final(shared).err == old(shared).err,
        err is Some ==> final(shared).eof == old(shared).eof,
        err is Some && old(shared).err is None ==> final(shared).err == err,
        old(shared).err is Some ==> final(shared).err == old(shared).err,
        final(shared).buf@ == old(shared).buf@,
        waker == old(shared).waker,
        final(shared).waker is None,
{
}

/// A drain that is told to stop keeps all that it has.
pub proof fn law_stop_request_keeps_the_rest<W: Clone>(drain: &mut Drain<W>)
    requires
        call_ensures(Drain::<W>::request_stop, (drain,), ()),
    ensures
        final(drain).stop,
        final(drain).shared == old(drain).shared,
{
}

/// The thread can go on after anything that happens to it, as long as no read brings more
/// than there was space for.
pub proof fn law_thread_takes_every_event<W: Clone>(drain: &mut Drain<W>, event: DrainEvent<'_>)
    requires
        event matches DrainEvent::Read { space, result: Ok(n) } ==> n <= space@.len(),
    ensures
        call_requires(super::drain_loop::<W>, (old(drain), event)),
{
}

/// Whatever happens to the thread, it does not change whether it is to stop; and what is
/// buffered stays at the front of the buffer.
pub proof fn law_thread_takes_no_byte_back<W: Clone>(
    drain: &mut Drain<W>,
    event: DrainEvent<'_>,
    next: (DrainAction, Option<W>),
)
    requires
        event matches DrainEvent::Read { space, result: Ok(n) } ==> n <= space@.len(),
        call_ensures(super::drain_loop::<W>, (drain, event), next),
    ensures
        final(drain).stop == old(drain).stop,
        old(drain).shared.buf@.len() <= final(drain).shared.buf@.len(),
        forall|i: int|
            0 <= i < old(drain).shared.buf@.len() ==> #[trigger] final(drain).shared.buf@[i]
                == old(drain).shared.buf@[i],
        final(drain).shared.buf@.len() > old(drain).shared.buf@.len() ==> (
        event matches DrainEvent::Read { result: Ok(n), .. } && final(drain).shared.buf@.len()
            == old(drain).shared.buf@.len() + n),
{
}

/// A read of no bytes is the end and no error, whatever is buffered: the end is recorded,
/// the error stays as it was, whoever waits is woken, and the thread ends.
pub proof fn law_read_of_no_bytes_is_the_end<W: Clone>(
    drain: &mut Drain<W>,
    space: &[u8],
    next: (DrainAction, Option<W>),
)
    requires
        call_ensures(super::drain_loop::<W>, (drain, DrainEvent::Read { space, result: Ok(0) }), next),
    ensures
        final(drain).shared.eof,
        final(drain).shared.err == old(drain).shared.err,
        final(drain).shared.buf@ == old(drain).shared.buf@,
        next.0 is Exit,
        next.1 == old(drain).shared.waker,
        final(drain).shared.waker is None,
{
}

/// A read of bytes puts them, and no others, behind those that are buffered, records no
/// ending, and wakes whoever waits. The thread then ends if it is to stop, sleeps if a
/// mebibyte or more is buffered, and reads on otherwise.
pub proof fn law_read_bytes_are_buffered<W: Clone>(
    drain: &mut Drain<W>,
    space: &[u8],
    n: usize,
    next: (DrainAction, Option<W>),
)
    requires
        0 < n <= space@.len(),
        call_ensures(super::drain_loop::<W>, (drain, DrainEvent::Read { space, result: Ok(n) }), next),
    ensures
        final(drain).shared.buf@ == old(drain).shared.buf@ + space@.subrange(0, n as int),
        final(drain).shared.eof == old(drain).shared.eof,
        final(drain).shared.err == old(drain).shared.err,
        next.1 == old(drain).shared.waker,
        final(drain).shared.waker is None,
        next.0 is Exit <==> old(drain).stop,
        !old(drain).stop && old(drain).shared.buf@.len() + n >= 1048576 ==> next.0 == (
        DrainAction::Sleep { millis: 2 }),
        !old(drain).stop && old(drain).shared.buf@.len() + n < 1048576 ==> next.0 == (
        DrainAction::Read { len: 4096 }),
{
    assert(space@.take(n as int) =~= space@.subrange(0, n as int));
}

/// A read that found nothing yet, or was interrupted, changes nothing and wakes nobody. The
/// thread then ends if it is to stop, sleeps while a mebibyte or more is buffered, and
/// otherwise waits for bytes after the one and reads again after the other.
pub proof fn law_transient_read_changes_nothing<W: Clone>(
    drain: &mut Drain<W>,
    space: &[u8],
    error: SysError,
    next: (DrainAction, Option<W>),
)
    requires
        error.errno is Again || error.errno is Interrupted,
        call_ensures(
            super::drain_loop::<W>,
            (drain, DrainEvent::Read { space, result: Err(error) }),
            next,
        ),
    ensures
        final(drain).shared.buf@ == old(drain).shared.buf@,
        final(drain).shared.eof == old(drain).shared.eof,
        final(drain).shared.err == old(drain).shared.err,
        final(drain).shared.waker == old(drain).shared.waker,
        next.1 is None,
        next.0 is Exit <==> old(drain).stop,
        !old(drain).stop && old(drain).shared.buf@.len() >= 1048576 ==> next.0 == (
        DrainAction::Sleep { millis: 2 }),
        !old(drain).stop && old(drain).shared.buf@.len() < 1048576 ==> next.0 == (
        if error.errno is Again {
            DrainAction::Poll { timeout_millis: 50 }
        } else {
            DrainAction::Read { len: 4096 }
        }),
{
}

/// An error is recorded only where an event carries one that is not transient, and then
/// with the category of that error, unless there was one before. It ends the thread, wakes
/// whoever waits, and is not the end of the bytes.
pub proof fn law_only_a_failure_is_an_error<W: Clone>(
    drain: &mut Drain<W>,
    event: DrainEvent<'_>,
    next: (DrainAction, Option<W>),
)
    requires
        event matches DrainEvent::Read { space, result: Ok(n) } ==> n <= space@.len(),
        call_ensures(super::drain_loop::<W>, (drain, event), next),
    ensures
        ({
            let failed = match event {
                DrainEvent::Resumed => false,
                DrainEvent::Polled(result) => !old(drain).stop && result is Err && !(
                result->Err_0.errno is Interrupted),
                DrainEvent::Read { result, .. } => result is Err && result->Err_0.errno is Other,
            };
            let kind = match event {
                DrainEvent::Polled(Err(error)) => Some(error.kind),
                DrainEvent::Read { result: Err(error), .. } => Some(error.kind),
                _ => None,
            };
            &&& final(drain).shared.err == (if failed && old(drain).shared.err is None {
                kind
            } else {
                old(drain).shared.err
            })
            &&& failed ==> {
                &&& next.0 is Exit
                &&& next.1 == old(drain).shared.waker
                &&& final(drain).shared.waker is None
                &&& final(drain).shared.eof == old(drain).shared.eof
                &&& final(drain).shared.buf@ == old(drain).shared.buf@
            }
        }),
{
}

/// The end is recorded only by a read of no bytes, and what was recorded of it stays.
pub proof fn law_only_a_read_of_no_bytes_ends<W: Clone>(
    drain: &mut Drain<W>,
    event: DrainEvent<'_>,
    next: (DrainAction, Option<W>),
)
    requires
        event matches DrainEvent::Read { space, result: Ok(n) } ==> n <= space@.len(),
        call_ensures(super::drain_loop::<W>, (drain, event), next),
    ensures
        final(drain).shared.eof <==> old(drain).shared.eof || (event matches DrainEvent::Read {
            result: Ok(n),
            ..
        } && n == 0),
{
}

/// A thread that began, slept, or waited without a failure changes nothing and wakes nobody.
/// It ends if it is to stop. Otherwise it reads where the wait found the master readable,
/// and where not, it sleeps while a mebibyte or more is buffered and waits for bytes while
/// there is less.
pub proof fn law_waits_change_nothing<W: Clone>(
    drain: &mut Drain<W>,
    event: DrainEvent<'_>,
    next: (DrainAction, Option<W>),
)
    requires
        event is Resumed || (event matches DrainEvent::Polled(result) && (old(drain).stop
            || result is Ok || result->Err_0.errno is Interrupted)),
        call_ensures(super::drain_loop::<W>, (drain, event), next),
    ensures
        final(drain).shared.buf@ == old(drain).shared.buf@,
        final(drain).shared.eof == old(drain).shared.eof,
        final(drain).shared.err == old(drain).shared.err,
        final(drain).shared.waker == old(drain).shared.waker,
        next.1 is None,
        next.0 is Exit <==> old(drain).stop,
        !old(drain).stop ==> (if event matches DrainEvent::Polled(Ok(ready)) && ready > 0 {
            next.0 == (DrainAction::Read { len: 4096 })
        } else if old(drain).shared.buf@.len() >= 1048576 {
            next.0 == (DrainAction::Sleep { millis: 2 })
        } else {
            next.0 == (DrainAction::Poll { timeout_millis: 50 })
        }),
{
}

/// A thread that is to stop ends with whatever happens to it next.
pub proof fn law_thread_that_is_to_stop_ends<W: Clone>(
    drain: &mut Drain<W>,
    event: DrainEvent<'_>,
    next: (DrainAction, Option<W>),
)
    requires
        old(drain).stop,
        event matches DrainEvent::Read { space, result: Ok(n) } ==> n <= space@.len(),
        call_ensures(super::drain_loop::<W>, (drain, event), next),
    ensures
        next.0 is Exit,
{
}

/// A poll takes bytes from the front of the buffer, as many as there are or as fit, and
/// appends them to what is filled. It changes neither the endings nor the stop.
pub proof fn law_poll_moves_bytes_from_the_front<W: Clone>(
    drain: &mut Drain<W>,
    waker: &W,
    buf: &mut ReadBuf<'_>,
    poll: DrainPoll,
)
    requires
        call_ensures(Drain::<W>::poll_read, (drain, waker, buf), poll),
    ensures
        ({
            let had = crate::read_buf::filled_bytes(*old(buf));
            let has = crate::read_buf::filled_bytes(*final(buf));
            let capacity = crate::read_buf::capacity_of(*old(buf));
            let before = old(drain).shared.buf@;
            let after = final(drain).shared.buf@;
            let moved = has.len() - had.len();
            &&& 0 <= moved <= before.len()
            &&& after.len() == before.len() - moved
            &&& has.len() <= capacity
            &&& crate::read_buf::capacity_of(*final(buf)) == capacity
            &&& moved < before.len() ==> has.len() == capacity
            &&& forall|i: int| 0 <= i < had.len() ==> #[trigger] has[i] == had[i]
            &&& forall|i: int| 0 <= i < moved ==> has[had.len() + i] == #[trigger] before[i]
            &&& forall|i: int| 0 <= i < after.len() ==> #[trigger] after[i] == before[moved + i]
            &&& before.len() > 0 ==> poll == DrainPoll::Ready(Ok(())) && final(drain).shared.waker
                == old(drain).shared.waker
        }),
        final(drain).shared.eof == old(drain).shared.eof,
        final(drain).shared.err == old(drain).shared.err,
        final(drain).stop == old(drain).stop,
{
}

/// A poll that moves bytes touches only the spare bytes that they take the place of.
pub proof fn law_poll_leaves_the_other_spare_bytes<W: Clone>(
    drain: &mut Drain<W>,
    waker: &W,
    buf: &mut ReadBuf<'_>,
    poll: DrainPoll,
)
    requires
        call_ensures(Drain::<W>::poll_read, (drain, waker, buf), poll),
    ensures
        ({
            let spare = crate::read_buf::spare_bytes(*old(buf));
            let left = crate::read_buf::spare_bytes(*final(buf));
            let moved = crate::read_buf::filled_bytes(*final(buf)).len()
                - crate::read_buf::filled_bytes(*old(buf)).len();
            &&& left.len() == (if moved <= spare.len() {
                spare.len() - moved
            } else {
                0
            })
            &&& forall|i: int| 0 <= i < left.len() ==> #[trigger] left[i] == spare[moved + i]
        }),
{
}

/// A poll that finds no bytes finds the error where there is one, with its category; where
/// there is none, the end, as a read without bytes; and where there is no end either, it
/// waits, and its waker is kept. Its buffer stays as it was.
pub proof fn law_poll_without_bytes_finds_the_ending<W: Clone>(
    drain: &mut Drain<W>,
    waker: &W,
    buf: &mut ReadBuf<'_>,
    poll: DrainPoll,
)
    requires
        old(drain).shared.buf@.len() == 0,
        call_ensures(Drain::<W>::poll_read, (drain, waker, buf), poll),
    ensures
        old(drain).shared.err matches Some(kind) ==> poll == DrainPoll::Ready(
            Err(IoError::Simple(kind)),
        ),
        old(drain).shared.err is None && old(drain).shared.eof ==> poll == DrainPoll::Ready(Ok(())),
        poll is Pending <==> old(drain).shared.err is None && !old(drain).shared.eof,
        poll is Pending ==> (final(drain).shared.waker matches Some(kept) && cloned(*waker, kept)),
        poll is Ready ==> final(drain).shared.waker == old(drain).shared.waker,
        *final(buf) == *old(buf),
        final(drain).shared.buf@.len() == 0,
{
}

/// After a read of no bytes, and without an error before it, a poll that finds no bytes
/// finds the end and no error.
pub proof fn law_end_is_polled_as_the_end<W: Clone>(
    drain: &mut Drain<W>,
    space: &[u8],
    next: (DrainAction, Option<W>),
    polled: &mut Drain<W>,
    waker: &W,
    buf: &mut ReadBuf<'_>,
    poll: DrainPoll,
)
    requires
        old(drain).shared.err is None,
        call_ensures(super::drain_loop::<W>, (drain, DrainEvent::Read { space, result: Ok(0) }), next),
        old(polled).shared.buf@.len() == 0,
        old(polled).shared.eof == final(drain).shared.eof,
        old(polled).shared.err == final(drain).shared.err,
        call_ensures(Drain::<W>::poll_read, (polled, waker, buf), poll),
    ensures
        poll == DrainPoll::Ready(Ok(())),
        *final(buf) == *old(buf),
{
}

/// What the thread reads is what the next poll with room for it hands over, where nothing
/// was buffered before.
pub proof fn law_read_bytes_are_polled<W: Clone>(
    drain: &mut Drain<W>,
    space: &[u8],
    n: usize,
    next: (DrainAction, Option<W>),
    polled: &mut Drain<W>,
    waker: &W,
    buf: &mut ReadBuf<'_>,
    poll: DrainPoll,
)
    requires
        0 < n <= space@.len(),
        old(drain).shared.buf@.len() == 0,
        call_ensures(super::drain_loop::<W>, (drain, DrainEvent::Read { space, result: Ok(n) }), next),
        *old(polled) == *final(drain),
        n <= crate::read_buf::capacity_of(*old(buf)) - crate::read_buf::filled_bytes(
            *old(buf),
        ).len(),
        call_ensures(Drain::<W>::poll_read, (polled, waker, buf), poll),
    ensures
        poll == DrainPoll::Ready(Ok(())),
        crate::read_buf::filled_bytes(*final(buf)) == crate::read_buf::filled_bytes(*old(buf))
            + space@.subrange(0, n as int),
        final(polled).shared.buf@.len() == 0,
{
    assert(crate::read_buf::filled_bytes(*final(buf)) =~= crate::read_buf::filled_bytes(*old(buf))
        + space@.subrange(0, n as int));
}

/// A start begins with the duplicate and goes on to the thread, whether or not the duplicate
/// could be marked close-on-exec. It succeeds exactly where the thread could be spawned, and
/// fails where the duplicate could not be made, or after it was closed again because there is
/// no thread; then with the reason for that.
pub proof fn law_start_needs_a_duplicate_and_a_thread(
    first: DrainStart,
    step: DrainStart,
    result: Result<(), IoError>,
    next: DrainStartNext,
)
    requires
        call_ensures(DrainStart::start, (), first),
        call_ensures(DrainStart::next, (step, result), next),
    ensures
        first is Duplicate,
        next is Started <==> step is SpawnThread && result is Ok,
        next == DrainStartNext::Continue(DrainStart::SetCloseOnExec) <==> step is Duplicate
            && result is Ok,
        next == DrainStartNext::Continue(DrainStart::SpawnThread) <==> step is SetCloseOnExec,
        step is SpawnThread ==> (result matches Err(error) ==> next == DrainStartNext::Continue(
            DrainStart::CloseDuplicate { error },
        )),
        next is Failed <==> step is CloseDuplicate || (step is Duplicate && result is Err),
        step matches DrainStart::CloseDuplicate { error } ==> next == DrainStartNext::Failed(error),
        step is Duplicate ==> (result matches Err(error) ==> next == DrainStartNext::Failed(error)),
{
}

} // verus!
