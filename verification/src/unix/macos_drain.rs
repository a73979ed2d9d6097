//! The background drain of a master on macOS.
//!
//! When a fast child exits, macOS can discard what the master still buffers before the
//! first read sees it. So a thread of its own reads the master from before the child
//! is spawned, and keeps the bytes until a poll takes them. This module holds the
//! buffer between the two, and the decisions of the thread.

pub mod history;
pub mod laws;

use crate::error::{Errno, ErrorKind, IoError};
use std::collections::VecDeque;
use tokio::io::ReadBuf;
use vstd::prelude::*;

verus! {

/// The soft cap on the buffer: the thread does not read while the buffer holds this
/// much, so that the kernel's buffer fills and the child blocks. The read that reaches
/// the cap may pass it by less than one chunk.
pub const BUFFER_CAP: usize = 1048576;

/// The most bytes that one read takes.
pub const READ_CHUNK: usize = 4096;

/// How long the thread sleeps while the buffer is full.
pub const FULL_SLEEP_MILLIS: u64 = 2;

/// How long the thread waits for bytes before it looks at the stop flag again.
pub const POLL_TIMEOUT_MILLIS: i32 = 50;

/// What the thread and the polls share.
#[derive(Debug)]
pub struct Shared<W> {
    /// The bytes read and not taken yet.
    pub buf: VecDeque<u8>,
    /// Whether the master reported its end.
    pub eof: bool,
    /// The category of the error that ended the reads.
    pub err: Option<ErrorKind>,
    /// The waker of the poll that waits.
    pub waker: Option<W>,
}

/// The answer to a poll of the drain.
#[derive(Debug, PartialEq, Eq)]
pub enum DrainPoll {
    /// Nothing yet; the waker is kept.
    Pending,
    /// Bytes, an error or, without new bytes in the buffer, the end.
    Ready(Result<(), IoError>),
}

/// What the shared state holds, without the waker.
pub struct SharedView {
    /// The bytes read and not taken yet.
    pub buf: Seq<u8>,
    /// Whether the master reported its end.
    pub eof: bool,
    /// The category of the error that ended the reads.
    pub err: Option<ErrorKind>,
}

impl<W> View for Shared<W> {
    type V = SharedView;

    open spec fn view(&self) -> SharedView {
        SharedView { buf: self.buf@, eof: self.eof, err: self.err }
    }
}

/// What a poll finds.
pub enum Served {
    /// Bytes from the front of the buffer.
    Bytes(Seq<u8>),
    /// The error that ended the reads.
    Failed(ErrorKind),
    /// The end.
    End,
    /// Nothing yet.
    Nothing,
}

impl SharedView {
    /// What a poll with so much room in its buffer finds.
    pub open spec fn served(self, room: int) -> Served {
        if self.buf.len() > 0 {
            Served::Bytes(self.buf.take(crate::read_buf::least(self.buf.len() as int, room)))
        } else if self.err is Some {
            Served::Failed(self.err->0)
        } else if self.eof {
            Served::End
        } else {
            Served::Nothing
        }
    }

    /// What a poll with so much room leaves.
    pub open spec fn after_poll(self, room: int) -> SharedView {
        SharedView {
            buf: self.buf.skip(crate::read_buf::least(self.buf.len() as int, room)),
            ..self
        }
    }

    /// With more bytes at the back.
    pub open spec fn pushed(self, data: Seq<u8>) -> SharedView {
        SharedView { buf: self.buf + data, ..self }
    }

    /// With the reads ended, at the master's end or with an error; the first error stays.
    pub open spec fn finished(self, err: Option<ErrorKind>) -> SharedView {
        match err {
            Some(kind) => SharedView {
                err: if self.err is None {
                    Some(kind)
                } else {
                    self.err
                },
                ..self
            },
            None => SharedView { eof: true, ..self },
        }
    }
}

/// The bytes that a poll hands over.
pub open spec fn served_bytes(served: Served) -> Seq<u8> {
    match served {
        Served::Bytes(data) => data,
        _ => Seq::empty(),
    }
}

/// Whether a poll waits only where it would still find nothing: every change that it
/// waits for has taken its waker to wake it.
pub open spec fn no_lost_wakeup<W>(shared: Shared<W>) -> bool {
    shared.waker is Some ==> shared@.served(0) is Nothing
}

impl<W> Shared<W> {
    /// Nothing read yet.
    pub fn new() -> (shared: Self)
        ensures
            shared@ == (SharedView { buf: Seq::empty(), eof: false, err: None }),
            shared.waker is None,
            no_lost_wakeup(shared),
    {
        Shared { buf: VecDeque::new(), eof: false, err: None, waker: None }
    }

    /// Takes the first `n` bytes out of the buffer.
    fn take_front(&mut self, n: usize) -> (data: Vec<u8>)
        requires
            n <= old(self).buf@.len(),
        ensures
            data@ == old(self).buf@.take(n as int),
            final(self).buf@ == old(self).buf@.skip(n as int),
            final(self).eof == old(self).eof,
            final(self).err == old(self).err,
            final(self).waker == old(self).waker,
    {
        let mut data: Vec<u8> = Vec::new();
        let mut i: usize = 0;
        while i < n
            invariant
                i <= n,
                n <= old(self).buf@.len(),
                data@ == old(self).buf@.take(i as int),
                self.buf@ == old(self).buf@.skip(i as int),
                self.eof == old(self).eof,
                self.err == old(self).err,
                self.waker == old(self).waker,
            decreases n - i,
        {
            match self.buf.pop_front() {
                Some(byte) => data.push(byte),
                None => {},
            }
            i += 1;
            assert(data@ =~= old(self).buf@.take(i as int));
            assert(self.buf@ =~= old(self).buf@.skip(i as int));
        }
        data
    }
}

/// Appends bytes and hands out the waker of the poll that waits, to be woken once the
/// lock on the shared state is released.
pub fn push<W>(shared: &mut Shared<W>, data: &[u8]) -> (waker: Option<W>)
    ensures
        final(shared)@ == old(shared)@.pushed(data@),
        final(shared).waker is None,
        waker == old(shared).waker,
        no_lost_wakeup(*final(shared)),
{
    let mut i: usize = 0;
    while i < data.len()
        invariant
            i <= data@.len(),
            shared.buf@ == old(shared).buf@ + data@.take(i as int),
            shared.eof == old(shared).eof,
            shared.err == old(shared).err,
            shared.waker == old(shared).waker,
        decreases data@.len() - i,
    {
        shared.buf.push_back(data[i]);
        i += 1;
        assert(shared.buf@ =~= old(shared).buf@ + data@.take(i as int));
    }
    assert(data@.take(i as int) =~= data@);
    shared.waker.take()
}

/// Records how the reads ended, at the master's end (`None`) or with an error, and
/// hands out the waker of the poll that waits, to be woken once the lock on the shared
/// state is released. The first error stays.
pub fn finish<W>(shared: &mut Shared<W>, err: Option<ErrorKind>) -> (waker: Option<W>)
    ensures
        final(shared)@ == old(shared)@.finished(err),
        final(shared).waker is None,
        waker == old(shared).waker,
        no_lost_wakeup(*final(shared)),
{
    match err {
        Some(kind) => {
            if shared.err.is_none() {
                shared.err = Some(kind);
            }
        },
        None => {
            shared.eof = true;
        },
    }
    shared.waker.take()
}

/// A failed system call: its error code and the category of that code.
#[derive(Debug, Clone, Copy)]
pub struct SysError {
    /// The error code.
    pub errno: Errno,
    /// The category.
    pub kind: ErrorKind,
}

/// The background drain: the state it shares with the polls and the flag that stops
/// its thread.
#[derive(Debug)]
pub struct Drain<W> {
    /// What the thread and the polls share.
    pub shared: Shared<W>,
    /// Whether the thread is to stop.
    pub stop: bool,
}

/// What the thread does next.
#[derive(Debug, Clone, Copy, PartialEq, Eq, Structural)]
pub enum DrainAction {
    /// Sleep, then report [`DrainEvent::Resumed`].
    Sleep {
        /// For so long.
        millis: u64,
    },
    /// Wait until the master is readable, then report [`DrainEvent::Polled`].
    Poll {
        /// For at most so long.
        timeout_millis: i32,
    },
    /// Read from the master, then report [`DrainEvent::Read`].
    Read {
        /// At most so many bytes.
        len: usize,
    },
    /// Close the descriptor and end.
    Exit,
}

/// What happened to the thread.
#[derive(Debug)]
pub enum DrainEvent<'a> {
    /// It began, or it slept.
    Resumed,
    /// The wait for readability ended: with the number of ready descriptors, 0 after
    /// the timeout, or with an error.
    Polled(Result<u32, SysError>),
    /// A read ended.
    Read {
        /// The space that was read into.
        space: &'a [u8],
        /// How many bytes it holds, 0 at the master's end, or the error.
        result: Result<usize, SysError>,
    },
}

/// What happened to the thread, with the bytes as a sequence.
pub enum LoopEvent {
    /// It began, or it slept.
    Resumed,
    /// The wait for readability ended.
    Polled(Result<u32, SysError>),
    /// A read ended, without bytes at the master's end.
    Read(Result<Seq<u8>, SysError>),
}

impl<'a> View for DrainEvent<'a> {
    type V = LoopEvent;

    open spec fn view(&self) -> LoopEvent {
        match *self {
            DrainEvent::Resumed => LoopEvent::Resumed,
            DrainEvent::Polled(result) => LoopEvent::Polled(result),
            DrainEvent::Read { space, result } => LoopEvent::Read(
                match result {
                    Ok(n) => Ok(space@.take(n as int)),
                    Err(error) => Err(error),
                },
            ),
        }
    }
}

/// What a drain holds, without the waker.
pub struct DrainView {
    /// What the thread and the polls share.
    pub shared: SharedView,
    /// Whether the thread is to stop.
    pub stop: bool,
}

impl<W> View for Drain<W> {
    type V = DrainView;

    open spec fn view(&self) -> DrainView {
        DrainView { shared: self.shared@, stop: self.stop }
    }
}

impl DrainView {
    /// What the thread does at the top of its loop: it ends when told to, sleeps while
    /// the buffer is full and waits for bytes otherwise.
    pub open spec fn top(self) -> DrainAction {
        if self.stop {
            DrainAction::Exit
        } else if self.shared.buf.len() >= BUFFER_CAP {
            DrainAction::Sleep { millis: FULL_SLEEP_MILLIS }
        } else {
            DrainAction::Poll { timeout_millis: POLL_TIMEOUT_MILLIS }
        }
    }

    /// What the thread does while the master may hold more: it reads on, unless it is to
    /// stop or the buffer is full.
    pub open spec fn more(self) -> DrainAction {
        if self.stop || self.shared.buf.len() >= BUFFER_CAP {
            self.top()
        } else {
            DrainAction::Read { len: READ_CHUNK }
        }
    }

    /// With more bytes at the back.
    pub open spec fn pushed(self, data: Seq<u8>) -> DrainView {
        DrainView { shared: self.shared.pushed(data), ..self }
    }

    /// With the reads ended.
    pub open spec fn finished(self, err: Option<ErrorKind>) -> DrainView {
        DrainView { shared: self.shared.finished(err), ..self }
    }

    /// The drain after an event, and what the thread does next. A readable master is
    /// read until it has no more, the buffer is full, or the thread is to stop.
    pub open spec fn step(self, event: LoopEvent) -> (DrainView, DrainAction) {
        match event {
            LoopEvent::Resumed => (self, self.top()),
            LoopEvent::Polled(result) => if self.stop {
                (self, DrainAction::Exit)
            } else {
                match result {
                    Err(error) => if error.errno is Interrupted {
                        (self, self.top())
                    } else {
                        (self.finished(Some(error.kind)), DrainAction::Exit)
                    },
                    Ok(ready) => if ready == 0 {
                        (self, self.top())
                    } else {
                        (self, DrainAction::Read { len: READ_CHUNK })
                    },
                }
            },
            LoopEvent::Read(result) => match result {
                Ok(data) => if data.len() > 0 {
                    (self.pushed(data), self.pushed(data).more())
                } else {
                    (self.finished(None), DrainAction::Exit)
                },
                Err(error) => match error.errno {
                    Errno::Again => (self, self.top()),
                    Errno::Interrupted => (self, self.more()),
                    Errno::Other(_) => (self.finished(Some(error.kind)), DrainAction::Exit),
                },
            },
        }
    }

    /// Whether an event brings bytes or ends the reads, which a poll may wait for.
    pub open spec fn wakes(self, event: LoopEvent) -> bool {
        match event {
            LoopEvent::Resumed => false,
            LoopEvent::Polled(result) => !self.stop && result is Err && !(
            result->Err_0.errno is Interrupted),
            LoopEvent::Read(Ok(_)) => true,
            LoopEvent::Read(Err(error)) => error.errno is Other,
        }
    }
}

impl<W: Clone> Drain<W> {
    /// A drain that has read nothing yet.
    pub fn new() -> (drain: Self)
        ensures
            drain@ == (DrainView {
                shared: SharedView { buf: Seq::empty(), eof: false, err: None },
                stop: false,
            }),
            drain.shared.waker is None,
            no_lost_wakeup(drain.shared),
    {
        Drain { shared: Shared::new(), stop: false }
    }

    /// Serves a poll: bytes first, as many as fit; then, with none left, the error;
    /// then the end. With nothing to serve the waker is kept.
    pub fn poll_read(&mut self, waker: &W, buf: &mut ReadBuf<'_>) -> (poll: DrainPoll)
        ensures
            crate::read_buf::room(*old(buf)) >= 0,
            final(self)@ == (DrainView {
                shared: old(self)@.shared.after_poll(crate::read_buf::room(*old(buf))),
                ..old(self)@
            }),
            crate::read_buf::filled_bytes(*final(buf)) == crate::read_buf::filled_bytes(*old(buf))
                + served_bytes(old(self)@.shared.served(crate::read_buf::room(*old(buf)))),
            crate::read_buf::capacity_of(*final(buf)) == crate::read_buf::capacity_of(*old(buf)),
            match old(self)@.shared.served(crate::read_buf::room(*old(buf))) {
                Served::Bytes(data) => {
                    &&& poll == DrainPoll::Ready(Ok(()))
                    &&& crate::read_buf::spare_bytes(*final(buf)) == crate::read_buf::spare_bytes(
                        *old(buf),
                    ).skip(
                        crate::read_buf::least(
                            data.len() as int,
                            crate::read_buf::spare_bytes(*old(buf)).len() as int,
                        ),
                    )
                    &&& final(self).shared.waker == old(self).shared.waker
                },
                Served::Failed(kind) => {
                    &&& poll == DrainPoll::Ready(Err(IoError::Simple(kind)))
                    &&& *final(buf) == *old(buf)
                    &&& final(self).shared.waker == old(self).shared.waker
                },
                Served::End => {
                    &&& poll == DrainPoll::Ready(Ok(()))
                    &&& *final(buf) == *old(buf)
                    &&& final(self).shared.waker == old(self).shared.waker
                },
                Served::Nothing => {
                    &&& poll == DrainPoll::Pending
                    &&& *final(buf) == *old(buf)
                    &&& final(self).shared.waker matches Some(w) && cloned(*waker, w)
                },
            },
            no_lost_wakeup(old(self).shared) ==> no_lost_wakeup(final(self).shared),
    {
        let room: usize = crate::read_buf::remaining(buf);
        let held: usize = self.shared.buf.len();
        if held > 0 {
            let n: usize = if held <= room {
                held
            } else {
                room
            };
            let data = self.shared.take_front(n);
            crate::read_buf::put_slice(buf, data.as_slice());
            return DrainPoll::Ready(Ok(()));
        }
        assert(self.shared.buf@ =~= self.shared.buf@.skip(0));
        assert(crate::read_buf::filled_bytes(*buf) + Seq::empty()
            =~= crate::read_buf::filled_bytes(*buf));
        if let Some(kind) = self.shared.err {
            return DrainPoll::Ready(Err(IoError::Simple(kind)));
        }
        if self.shared.eof {
            return DrainPoll::Ready(Ok(()));
        }
        self.shared.waker = Some(waker.clone());
        DrainPoll::Pending
    }

    /// Tells the thread to stop, which it does with its next decision, and so within one
    /// wait.
    pub fn request_stop(&mut self)
        ensures
            final(self).stop,
            final(self).shared == old(self).shared,
    {
        self.stop = true;
    }

    /// What the thread does at the top of its loop.
    fn loop_top(&self) -> (action: DrainAction)
        ensures
            action == self@.top(),
    {
        if self.stop {
            DrainAction::Exit
        } else if self.shared.buf.len() >= BUFFER_CAP {
            DrainAction::Sleep { millis: FULL_SLEEP_MILLIS }
        } else {
            DrainAction::Poll { timeout_millis: POLL_TIMEOUT_MILLIS }
        }
    }

    /// What the thread does while the master may hold more.
    fn read_more(&self) -> (action: DrainAction)
        ensures
            action == self@.more(),
    {
        if self.stop || self.shared.buf.len() >= BUFFER_CAP {
            self.loop_top()
        } else {
            DrainAction::Read { len: READ_CHUNK }
        }
    }
}

/// One decision of the drain thread: takes in what happened, and says what to do next
/// and whom to wake once the lock on the drain is released.
pub fn drain_loop<W: Clone>(drain: &mut Drain<W>, event: DrainEvent<'_>) -> (next: (
    DrainAction,
    Option<W>,
))
    requires
        event matches DrainEvent::Read { space, result: Ok(n) } ==> n <= space@.len(),
    ensures
        (final(drain)@, next.0) == old(drain)@.step(event@),
        if old(drain)@.wakes(event@) {
            &&& next.1 == old(drain).shared.waker
            &&& final(drain).shared.waker is None
        } else {
            &&& next.1 is None
            &&& final(drain).shared.waker == old(drain).shared.waker
        },
        no_lost_wakeup(old(drain).shared) ==> no_lost_wakeup(final(drain).shared),
{
    match event {
        DrainEvent::Resumed => (drain.loop_top(), None),
        DrainEvent::Polled(result) => {
            if drain.stop {
                return (DrainAction::Exit, None);
            }
            match result {
                Err(error) => match error.errno {
                    Errno::Interrupted => (drain.loop_top(), None),
                    _ => {
                        let waker = finish(&mut drain.shared, Some(error.kind));
                        (DrainAction::Exit, waker)
                    },
                },
                Ok(ready) => {
                    if ready == 0 {
                        (drain.loop_top(), None)
                    } else {
                        (DrainAction::Read { len: READ_CHUNK }, None)
                    }
                },
            }
        },
        DrainEvent::Read { space, result } => match result {
            Ok(n) => {
                if n > 0 {
                    let waker = push(&mut drain.shared, vstd::slice::slice_subrange(space, 0, n));
                    (drain.read_more(), waker)
                } else {
                    let waker = finish(&mut drain.shared, None);
                    (DrainAction::Exit, waker)
                }
            },
            Err(error) => match error.errno {
                Errno::Again => (drain.loop_top(), None),
                Errno::Interrupted => (drain.read_more(), None),
                Errno::Other(_) => {
                    let waker = finish(&mut drain.shared, Some(error.kind));
                    (DrainAction::Exit, waker)
                },
            },
        },
    }
}

/// A step of starting a drain.
#[derive(Debug, PartialEq, Eq)]
pub enum DrainStart {
    /// Duplicate the master's descriptor, for the thread to read.
    Duplicate,
    /// Keep the duplicate from leaking into children that others spawn. Best effort.
    SetCloseOnExec,
    /// Spawn the thread.
    SpawnThread,
    /// Close the duplicate, which the thread did not take over.
    CloseDuplicate {
        /// Why there is no thread.
        error: IoError,
    },
}

/// How the start of a drain goes on.
#[derive(Debug, PartialEq, Eq)]
pub enum DrainStartNext {
    /// With this step.
    Continue(DrainStart),
    /// The drain runs.
    Started,
    /// There is no drain, and no descriptor is left behind.
    Failed(IoError),
}

impl DrainStart {
    /// The first step.
    pub fn start() -> (step: DrainStart)
        ensures
            step == DrainStart::Duplicate,
    {
        DrainStart::Duplicate
    }

    /// How the start goes on after this step ended so.
    pub open spec fn after(self, result: Result<(), IoError>) -> DrainStartNext {
        match self {
            DrainStart::Duplicate => match result {
                Ok(()) => DrainStartNext::Continue(DrainStart::SetCloseOnExec),
                Err(error) => DrainStartNext::Failed(error),
            },
            DrainStart::SetCloseOnExec => DrainStartNext::Continue(DrainStart::SpawnThread),
            DrainStart::SpawnThread => match result {
                Ok(()) => DrainStartNext::Started,
                Err(error) => DrainStartNext::Continue(DrainStart::CloseDuplicate { error }),
            },
            DrainStart::CloseDuplicate { error } => DrainStartNext::Failed(error),
        }
    }

    /// Goes on after this step. Only the duplicate and the thread are needed; without a
    /// thread the duplicate is closed before the error is returned.
    pub fn next(self, result: Result<(), IoError>) -> (next: DrainStartNext)
        ensures
            next == self.after(result),
    {
        match self {
            DrainStart::Duplicate => match result {
                Ok(()) => DrainStartNext::Continue(DrainStart::SetCloseOnExec),
                Err(error) => DrainStartNext::Failed(error),
            },
            DrainStart::SetCloseOnExec => DrainStartNext::Continue(DrainStart::SpawnThread),
            DrainStart::SpawnThread => match result {
                Ok(()) => DrainStartNext::Started,
                Err(error) => DrainStartNext::Continue(DrainStart::CloseDuplicate { error }),
            },
            DrainStart::CloseDuplicate { error } => DrainStartNext::Failed(error),
        }
    }
}

} // verus!
