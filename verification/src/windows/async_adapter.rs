//! The master of a `ConPTY`, whose pipes only offer blocking I/O.
//!
//! A read runs as a blocking task in the background. The master remembers whether
//! one is under way and holds its result until the next poll takes it. The child's
//! exit clears the open flag, which refuses writes from then on; reads go on until
//! the output pipe reports its end, so nothing that the child wrote last is lost.

pub mod history;
pub mod laws;

use crate::config::WindowSize;
use crate::error::{ErrorKind, IoError, PtyError};
use crate::open_flag::OpenFlag;
use tokio::io::ReadBuf;
use vstd::prelude::*;

verus! {

/// What `ReadFile` and `WriteFile` return on failure.
pub const FALSE: i32 = 0;

/// The error code of a read from a pipe whose other end is closed.
pub const ERROR_BROKEN_PIPE: i32 = 109;

/// The most bytes that one background read asks for.
pub const READ_CHUNK: usize = 4096;

/// How far the background read is.
#[derive(Debug)]
pub enum PendingReadState<W> {
    /// No read is under way.
    Idle,
    /// A read is under way; its end wakes the waker.
    InProgress(Option<W>),
    /// A read has ended and nobody took its result yet.
    Ready(Result<Vec<u8>, IoError>),
}

/// The answer to a poll for output.
#[derive(Debug, PartialEq, Eq)]
pub enum ReadPoll {
    /// Nothing yet: start a background read of up to `len` bytes. The waker is kept.
    Start {
        /// The length of the read.
        len: usize,
    },
    /// Nothing yet: a background read is under way. The waker is kept.
    Pending,
    /// The read has ended. Without an error, no new bytes in the buffer mean the end
    /// of the output.
    Ready(Result<(), IoError>),
}

/// The state of a `ConPTY` master: a callback `F` that resizes the console and a
/// waker `W` for whoever waits for output.
#[derive(Debug)]
pub struct WindowsPtyMaster<F, W> {
    /// The resize callback, where there is one.
    pub resize_fn: Option<F>,
    /// Whether the pseudo-terminal is open.
    pub open: OpenFlag,
    /// The current window size.
    pub window_size: WindowSize,
    /// How far the background read is.
    pub pending_read: PendingReadState<W>,
}

/// Whether a read is under way that wakes (a clone of) `waker` at its end.
pub open spec fn wakes<W: Clone>(pending: PendingReadState<W>, waker: W) -> bool {
    pending matches PendingReadState::InProgress(Some(w)) && cloned(waker, w)
}

/// The waker of whoever waits for the read under way.
pub open spec fn waiting<W>(pending: PendingReadState<W>) -> Option<W> {
    match pending {
        PendingReadState::InProgress(waker) => waker,
        _ => None,
    }
}

/// How far the background read is, without the waker.
pub enum ReadPhase {
    /// No read is under way.
    Idle,
    /// A read is under way.
    InFlight,
    /// A read has ended and nobody took its result yet.
    Holding(Result<Seq<u8>, IoError>),
}

/// A read result with its bytes as a sequence.
pub open spec fn result_view(result: Result<Vec<u8>, IoError>) -> Result<Seq<u8>, IoError> {
    match result {
        Ok(data) => Ok(data@),
        Err(error) => Err(error),
    }
}

/// The phase of a pending read.
pub open spec fn phase<W>(pending: PendingReadState<W>) -> ReadPhase {
    match pending {
        PendingReadState::Idle => ReadPhase::Idle,
        PendingReadState::InProgress(_) => ReadPhase::InFlight,
        PendingReadState::Ready(result) => ReadPhase::Holding(result_view(result)),
    }
}

/// The phase that a poll leaves: it starts a read where none is under way and takes
/// the result where one waits.
pub open spec fn phase_after_poll(phase: ReadPhase) -> ReadPhase {
    match phase {
        ReadPhase::Idle => ReadPhase::InFlight,
        ReadPhase::InFlight => ReadPhase::InFlight,
        ReadPhase::Holding(_) => ReadPhase::Idle,
    }
}

/// The bytes that a poll hands over into a buffer with so much room.
pub open spec fn polled_bytes(phase: ReadPhase, room: int) -> Seq<u8> {
    match phase {
        ReadPhase::Holding(Ok(data)) => data.take(
            crate::read_buf::least(data.len() as int, room),
        ),
        _ => Seq::empty(),
    }
}

/// The current window size after a request for another, which succeeded or not.
pub open spec fn size_after(current: WindowSize, size: WindowSize, succeeded: bool) -> WindowSize {
    if succeeded {
        size
    } else {
        current
    }
}

/// Whether all but the pending read is the same.
pub open spec fn same_but_read<F, W>(
    a: WindowsPtyMaster<F, W>,
    b: WindowsPtyMaster<F, W>,
) -> bool {
    &&& a.resize_fn == b.resize_fn
    &&& a.open == b.open
    &&& a.window_size == b.window_size
}

impl<F, W: Clone> WindowsPtyMaster<F, W> {
    /// An open master of the given size, which `resize_fn` resizes.
    pub fn new(resize_fn: F, initial_size: WindowSize) -> (master: Self)
        ensures
            master.resize_fn == Some(resize_fn),
            master.open@,
            master.window_size == initial_size,
            master.pending_read is Idle,
    {
        WindowsPtyMaster {
            resize_fn: Some(resize_fn),
            open: OpenFlag::new(),
            window_size: initial_size,
            pending_read: PendingReadState::Idle,
        }
    }

    /// An open master of the default size that cannot be resized.
    pub fn without_resize() -> (master: Self)
        ensures
            master.resize_fn is None,
            master.open@,
            master.window_size == crate::config::cells(80, 24),
            master.pending_read is Idle,
    {
        WindowsPtyMaster {
            resize_fn: None,
            open: OpenFlag::new(),
            window_size: WindowSize::default(),
            pending_read: PendingReadState::Idle,
        }
    }

    /// The open flag, for the watcher that clears it when the child exits. Writes
    /// fail from then on; reads still drain the output pipe to its end.
    pub fn open_flag(&mut self) -> (flag: &mut OpenFlag)
        ensures
            *flag == old(self).open,
            final(self).open == *final(flag),
            final(self).resize_fn == old(self).resize_fn,
            final(self).window_size == old(self).window_size,
            final(self).pending_read == old(self).pending_read,
    {
        &mut self.open
    }

    /// Polls for output. A result that waits is taken, and what fits of it goes into
    /// `buf`; an empty result is the end of the output. Otherwise the waker is kept,
    /// and a background read is asked for where none is under way.
    ///
    /// The open flag plays no part: after the child's exit the output pipe may still
    /// hold what it wrote last, and only the pipe itself knows its end.
    pub fn poll_read(&mut self, waker: &W, buf: &mut ReadBuf<'_>) -> (poll: ReadPoll)
        ensures
            crate::read_buf::room(*old(buf)) >= 0,
            same_but_read(*final(self), *old(self)),
            phase(final(self).pending_read) == phase_after_poll(phase(old(self).pending_read)),
            crate::read_buf::filled_bytes(*final(buf)) == crate::read_buf::filled_bytes(*old(buf))
                + polled_bytes(phase(old(self).pending_read), crate::read_buf::room(*old(buf))),
            crate::read_buf::capacity_of(*final(buf)) == crate::read_buf::capacity_of(*old(buf)),
            match old(self).pending_read {
                PendingReadState::Idle => {
                    &&& poll == (ReadPoll::Start {
                        len: crate::read_buf::least(
                            crate::read_buf::room(*old(buf)),
                            READ_CHUNK as int,
                        ) as usize,
                    })
                    &&& wakes(final(self).pending_read, *waker)
                    &&& *final(buf) == *old(buf)
                },
                PendingReadState::InProgress(_) => {
                    &&& poll == ReadPoll::Pending
                    &&& wakes(final(self).pending_read, *waker)
                    &&& *final(buf) == *old(buf)
                },
                PendingReadState::Ready(Ok(data)) => {
                    &&& poll == ReadPoll::Ready(Ok(()))
                    &&& final(self).pending_read is Idle
                    &&& data@.len() == 0 ==> *final(buf) == *old(buf)
                    &&& data@.len() > 0 ==> crate::read_buf::spare_kept(
                        *old(buf),
                        *final(buf),
                        crate::read_buf::least(
                            data@.len() as int,
                            crate::read_buf::room(*old(buf)),
                        ),
                    )
                },
                PendingReadState::Ready(Err(error)) => {
                    &&& poll == ReadPoll::Ready(Err(error))
                    &&& final(self).pending_read is Idle
                    &&& *final(buf) == *old(buf)
                },
            },
    {
        let room: usize = crate::read_buf::remaining(buf);
        assert(crate::read_buf::filled_bytes(*buf) + Seq::empty()
            =~= crate::read_buf::filled_bytes(*buf));
        let mut state: PendingReadState<W> = PendingReadState::Idle;
        core::mem::swap(&mut state, &mut self.pending_read);
        match state {
            PendingReadState::Idle => {
                let len: usize = if room <= READ_CHUNK {
                    room
                } else {
                    READ_CHUNK
                };
                self.pending_read = PendingReadState::InProgress(Some(waker.clone()));
                ReadPoll::Start { len }
            },
            PendingReadState::InProgress(_) => {
                self.pending_read = PendingReadState::InProgress(Some(waker.clone()));
                ReadPoll::Pending
            },
            PendingReadState::Ready(result) => match result {
                Ok(data) => {
                    if data.len() > 0 {
                        crate::read_buf::copy_into(buf, data.as_slice());
                    } else {
                        assert(data@.take(0) =~= Seq::empty());
                    }
                    ReadPoll::Ready(Ok(()))
                },
                Err(error) => ReadPoll::Ready(Err(error)),
            },
        }
    }

    /// Keeps the result of the background read for the next poll, and hands out the
    /// waker to wake, if somebody waits.
    pub fn read_completed(&mut self, result: Result<Vec<u8>, IoError>) -> (waker: Option<W>)
        ensures
            same_but_read(*final(self), *old(self)),
            final(self).pending_read == PendingReadState::<W>::Ready(result),
            phase(final(self).pending_read) == ReadPhase::Holding(result_view(result)),
            waker == waiting(old(self).pending_read),
    {
        let mut state: PendingReadState<W> = PendingReadState::Ready(result);
        core::mem::swap(&mut state, &mut self.pending_read);
        match state {
            PendingReadState::InProgress(waker) => waker,
            _ => None,
        }
    }

    /// Begins a write of `buf`: the length to hand to `WriteFile`, which takes 32 bits
    /// of it, or the error of a write into a closed pseudo-terminal.
    pub fn poll_write(&self, buf: &[u8]) -> (request: Result<u32, IoError>)
        ensures
            match request {
                Ok(len) => self.open@ && len as int == buf@.len() as int % 0x1_0000_0000,
                Err(error) => !self.open@ && error.is_custom(
                    ErrorKind::BrokenPipe,
                    "PTY closed"@,
                ),
            },
    {
        if !self.open.is_set() {
            return Err(IoError::custom(ErrorKind::BrokenPipe, "PTY closed"));
        }
        let len: u64 = buf.len() as u64;
        let low: u32 = #[verifier::truncate]
        (len as u32);
        assert(low == len % 0x1_0000_0000) by (bit_vector)
            requires
                low == len as u32,
        ;
        Ok(low)
    }

    /// A flush has nothing to do.
    pub fn poll_flush(&self) -> (result: Result<(), IoError>)
        ensures
            result == Ok::<(), IoError>(()),
    {
        Ok(())
    }

    /// Shuts the write side down: the pseudo-terminal is closed.
    pub fn poll_shutdown(&mut self) -> (result: Result<(), IoError>)
        ensures
            result == Ok::<(), IoError>(()),
            !final(self).open@,
            final(self).resize_fn == old(self).resize_fn,
            final(self).window_size == old(self).window_size,
            final(self).pending_read == old(self).pending_read,
    {
        self.open.clear();
        Ok(())
    }

    /// The callback that resizes the console, or the error of a resize where there is none.
    pub fn resizer(&self) -> (resizer: Result<&F, PtyError>)
        ensures
            match self.resize_fn {
                Some(f) => resizer == Ok::<&F, PtyError>(&f),
                None => resizer matches Err(PtyError::Resize(error)) && error.is_custom(
                    ErrorKind::Unsupported,
                    "resize not supported"@,
                ),
            },
    {
        match &self.resize_fn {
            Some(resize_fn) => Ok(resize_fn),
            None => Err(
                PtyError::Resize(IoError::custom(ErrorKind::Unsupported, "resize not supported")),
            ),
        }
    }

    /// Takes in what the callback returned for a size, and returns it. A success makes the
    /// size the current one.
    pub fn resized<E>(&mut self, size: WindowSize, outcome: Result<(), E>) -> (result: Result<
        (),
        E,
    >)
        ensures
            result == outcome,
            final(self).window_size == size_after(old(self).window_size, size, outcome is Ok),
            final(self).resize_fn == old(self).resize_fn,
            final(self).open == old(self).open,
            final(self).pending_read == old(self).pending_read,
    {
        if outcome.is_ok() {
            self.window_size = size;
        }
        outcome
    }

    /// The current window size.
    pub fn window_size(&self) -> (result: Result<WindowSize, PtyError>)
        ensures
            result == Ok::<WindowSize, PtyError>(self.window_size),
    {
        Ok(self.window_size)
    }

    /// Closes the pseudo-terminal.
    pub fn close(&mut self) -> (result: Result<(), PtyError>)
        ensures
            result == Ok::<(), PtyError>(()),
            !final(self).open@,
            final(self).resize_fn == old(self).resize_fn,
            final(self).window_size == old(self).window_size,
            final(self).pending_read == old(self).pending_read,
    {
        self.open.clear();
        Ok(())
    }

    /// Whether the pseudo-terminal is open.
    pub fn is_open(&self) -> (open: bool)
        ensures
            open == self.open@,
    {
        self.open.is_set()
    }
}

impl<F: Fn(WindowSize) -> Result<(), PtyError>, W: Clone> WindowsPtyMaster<F, W> {
    /// Resizes the console through the callback, or fails where there is none. A success
    /// makes the size the current one.
    pub fn resize(&mut self, size: WindowSize) -> (result: Result<(), PtyError>)
        requires
            old(self).resize_fn matches Some(f) ==> call_requires(f, (size,)),
        ensures
            match old(self).resize_fn {
                Some(f) => call_ensures(f, (size,), result),
                None => result matches Err(PtyError::Resize(error)) && error.is_custom(
                    ErrorKind::Unsupported,
                    "resize not supported"@,
                ),
            },
            final(self).window_size == size_after(old(self).window_size, size, result is Ok),
            final(self).resize_fn == old(self).resize_fn,
            final(self).open == old(self).open,
            final(self).pending_read == old(self).pending_read,
    {
        let outcome = match self.resizer() {
            Ok(resize_fn) => resize_fn(size),
            Err(error) => Err(error),
        };
        self.resized(size, outcome)
    }
}

/// What a background read returns: the bytes that `ReadFile` put at the front of the
/// buffer, nothing at the end of the output, which shows as a broken pipe, or the error
/// that it left.
pub fn read_file_result(
    success: i32,
    buffer: Vec<u8>,
    bytes_read: u32,
    last_error: i32,
) -> (result: Result<Vec<u8>, IoError>)
    ensures
        match result {
            Ok(data) => {
                &&& success == FALSE ==> last_error == ERROR_BROKEN_PIPE && data@.len() == 0
                &&& success != FALSE ==> data@ == buffer@.take(
                    crate::read_buf::least(bytes_read as int, buffer@.len() as int),
                )
            },
            Err(error) => {
                &&& success == FALSE
                &&& last_error != ERROR_BROKEN_PIPE
                &&& error == IoError::Os(last_error)
            },
        },
{
    if success == FALSE {
        if last_error == ERROR_BROKEN_PIPE {
            return Ok(Vec::new());
        }
        return Err(IoError::Os(last_error));
    }
    let mut data = buffer;
    data.truncate(bytes_read as usize);
    assert(data@ =~= buffer@.take(
        crate::read_buf::least(bytes_read as int, buffer@.len() as int),
    ));
    Ok(data)
}

/// The result of the background task: its read's result, or, where the task itself
/// did not run to its end, an error with the runtime's message.
pub fn joined_read(
    joined: Result<Result<Vec<u8>, IoError>, String>,
) -> (result: Result<Vec<u8>, IoError>)
    ensures
        match joined {
            Ok(read) => result == read,
            Err(message) => result matches Err(error) && error.is_custom(
                ErrorKind::Other,
                message@,
            ),
        },
{
    match joined {
        Ok(read) => read,
        Err(message) => Err(IoError::Custom { kind: ErrorKind::Other, message }),
    }
}

/// What a write returns: the number of bytes that `WriteFile` wrote, or the error that
/// it left.
pub fn write_file_result(
    success: i32,
    bytes_written: u32,
    last_error: i32,
) -> (result: Result<usize, IoError>)
    ensures
        success == FALSE ==> result == Err::<usize, IoError>(IoError::Os(last_error)),
        success != FALSE ==> result == Ok::<usize, IoError>(bytes_written as usize),
{
    if success == FALSE {
        Err(IoError::Os(last_error))
    } else {
        Ok(bytes_written as usize)
    }
}

} // verus!
