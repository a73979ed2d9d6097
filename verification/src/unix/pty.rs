//! The master of a pseudo-terminal: allocation, window size, and polled I/O.

pub mod history;
pub mod laws;

use crate::config::{WindowSize, Winsize};
use crate::error::{Errno, ErrorKind, IoError, PtyError};
use crate::open_flag::OpenFlag;
use crate::platform::Platform;
use crate::unix::macos_drain::DrainStart;
use tokio::io::ReadBuf;
use vstd::prelude::*;

verus! {

/// How a terminal device is opened.
#[derive(Debug, Clone, Copy, PartialEq, Eq, Structural)]
pub struct PtyFlags {
    /// For reading and writing (`O_RDWR`).
    pub read_write: bool,
    /// Without becoming the controlling terminal (`O_NOCTTY`).
    pub no_ctty: bool,
    /// Closed in a child that executes another program (`O_CLOEXEC`).
    pub close_on_exec: bool,
}

/// A step of allocating a master. Every step but the first acts on the master that the
/// first one opened.
#[derive(Debug, PartialEq, Eq)]
pub enum OpenStep {
    /// Open the master device (`posix_openpt`).
    OpenDevice(PtyFlags),
    /// Read the descriptor flags (`F_GETFD`).
    GetFdFlags,
    /// Write the descriptor flags (`F_SETFD`).
    SetFdFlags {
        /// The flags.
        flags: u32,
    },
    /// Grant access to the slave (`grantpt`).
    Grant,
    /// Unlock the slave (`unlockpt`).
    Unlock,
    /// Ask for the slave's path (`ptsname`).
    SlaveName,
    /// Make the master non-blocking (`F_SETFL`).
    SetNonblocking {
        /// The slave's path, for later.
        slave_path: String,
    },
    /// Register the master for asynchronous I/O.
    Register {
        /// The slave's path, for later.
        slave_path: String,
    },
}

/// What a step returned.
#[derive(Debug, PartialEq, Eq)]
pub enum OpenReply {
    /// Success, of a step that returns no more than that.
    Done,
    /// The descriptor flags.
    FdFlags(u32),
    /// The bytes of the slave's path.
    SlaveName(Vec<u8>),
}

/// An allocation under way.
#[derive(Debug, PartialEq, Eq)]
pub struct Opening {
    /// The platform.
    pub platform: Platform,
    /// The descriptor flag that means close-on-exec (`FD_CLOEXEC`).
    pub fd_cloexec: u32,
    /// The step to take.
    pub step: OpenStep,
}

/// How an allocation goes on.
#[derive(Debug, PartialEq, Eq)]
pub enum OpenNext {
    /// With a step.
    Continue(Opening),
    /// The master is open; this is its slave's path.
    Opened(UnixPtyMaster, String),
    /// It failed, and nothing more is done.
    Failed(PtyError),
}

/// The state of a master.
#[derive(Debug, PartialEq, Eq)]
pub struct UnixPtyMaster {
    /// Whether it is open.
    pub open: OpenFlag,
    /// Whether a background drain reads it (macOS).
    pub draining: bool,
}

/// The flags that the master device is opened with. Close-on-exec is asked for here where
/// the system takes it atomically.
pub open spec fn device_flags(platform: Platform) -> PtyFlags {
    PtyFlags { read_write: true, no_ctty: true, close_on_exec: platform is Linux }
}

impl Opening {
    /// Whether a reply is of the kind that the step returns.
    pub open spec fn fits(self, reply: OpenReply) -> bool {
        match self.step {
            OpenStep::GetFdFlags => reply is FdFlags,
            OpenStep::SlaveName => reply is SlaveName,
            _ => reply is Done,
        }
    }

    /// On with a given step.
    pub open spec fn on_with(self, step: OpenStep) -> OpenNext {
        OpenNext::Continue(Opening { step, ..self })
    }

    /// Whether the allocation goes on so after its step ended so.
    pub open spec fn goes_on(self, result: Result<OpenReply, IoError>, next: OpenNext) -> bool {
        match result {
            Err(error) => next == OpenNext::Failed(PtyError::Create(error)),
            Ok(reply) => match self.step {
                OpenStep::OpenDevice(_) => next == self.on_with(
                    if self.platform is Linux {
                        OpenStep::Grant
                    } else {
                        OpenStep::GetFdFlags
                    },
                ),
                OpenStep::GetFdFlags => reply matches OpenReply::FdFlags(flags) ==> next
                    == self.on_with(OpenStep::SetFdFlags { flags: flags | self.fd_cloexec }),
                OpenStep::SetFdFlags { .. } => next == self.on_with(OpenStep::Grant),
                OpenStep::Grant => next == self.on_with(OpenStep::Unlock),
                OpenStep::Unlock => next == self.on_with(OpenStep::SlaveName),
                OpenStep::SlaveName => reply matches OpenReply::SlaveName(name) ==> if
                    vstd::utf8::valid_utf8(name@) {
                    &&& next matches OpenNext::Continue(opening)
                    &&& opening.platform == self.platform
                    &&& opening.fd_cloexec == self.fd_cloexec
                    &&& match opening.step {
                        OpenStep::Register { slave_path } => self.platform is MacOs && slave_path@
                            == vstd::utf8::decode_utf8(name@),
                        OpenStep::SetNonblocking { slave_path } => !(self.platform is MacOs)
                            && slave_path@ == vstd::utf8::decode_utf8(name@),
                        _ => false,
                    }
                } else {
                    next matches OpenNext::Failed(PtyError::Create(error)) && error.is_custom(
                        ErrorKind::InvalidData,
                        "invalid slave path encoding"@,
                    )
                },
                OpenStep::SetNonblocking { slave_path } => next == self.on_with(
                    OpenStep::Register { slave_path },
                ),
                OpenStep::Register { slave_path } => {
                    &&& next matches OpenNext::Opened(master, path)
                    &&& path == slave_path
                    &&& master.open@
                    &&& !master.draining
                },
            },
        }
    }

    /// Goes on after the step: with the next one after a success, and not at all after an
    /// error, which is returned as the error of the allocation.
    ///
    /// A system without an atomic close-on-exec has the flag set right after the device is
    /// opened, beside the flags that it has. macOS refuses to make a master non-blocking
    /// whose slave was never opened, so there the step is left to
    /// [`UnixPtyMaster::set_nonblocking`].
    pub fn next(self, result: Result<OpenReply, IoError>) -> (next: OpenNext)
        requires
            result matches Ok(reply) ==> self.fits(reply),
        ensures
            self.goes_on(result, next),
    {
        let platform = self.platform;
        let fd_cloexec: u32 = self.fd_cloexec;
        let reply = match result {
            Ok(reply) => reply,
            Err(error) => {
                return OpenNext::Failed(PtyError::Create(error));
            },
        };
        let step = match self.step {
            OpenStep::OpenDevice(_) => match platform {
                Platform::Linux => OpenStep::Grant,
                _ => OpenStep::GetFdFlags,
            },
            OpenStep::GetFdFlags => {
                let flags: u32 = match reply {
                    OpenReply::FdFlags(flags) => flags,
                    _ => vstd::pervasive::unreached(),
                };
                OpenStep::SetFdFlags { flags: flags | fd_cloexec }
            },
            OpenStep::SetFdFlags { flags: _ } => OpenStep::Grant,
            OpenStep::Grant => OpenStep::Unlock,
            OpenStep::Unlock => OpenStep::SlaveName,
            OpenStep::SlaveName => {
                let name = match reply {
                    OpenReply::SlaveName(name) => name,
                    _ => vstd::pervasive::unreached(),
                };
                match crate::text::string_from_utf8(name) {
                    Some(slave_path) => match platform {
                        Platform::MacOs => OpenStep::Register { slave_path },
                        _ => OpenStep::SetNonblocking { slave_path },
                    },
                    None => {
                        return OpenNext::Failed(
                            PtyError::Create(
                                IoError::custom(
                                    ErrorKind::InvalidData,
                                    "invalid slave path encoding",
                                ),
                            ),
                        );
                    },
                }
            },
            OpenStep::SetNonblocking { slave_path } => OpenStep::Register { slave_path },
            OpenStep::Register { slave_path } => {
                let master = UnixPtyMaster { open: OpenFlag::new(), draining: false };
                return OpenNext::Opened(master, slave_path);
            },
        };
        OpenNext::Continue(Opening { platform, fd_cloexec, step })
    }
}

/// What a request to set the window size returned.
#[derive(Debug, Clone, Copy, PartialEq, Eq)]
pub enum ResizeReply {
    /// What `ioctl` returned, and the error code at that time (macOS).
    Ioctl {
        /// The value returned, -1 on failure.
        result: i32,
        /// The error code.
        last_error: i32,
    },
    /// What `tcsetwinsize` returned, an error code on failure (elsewhere).
    Termios(Result<(), i32>),
}

/// Whether the master is ready for a transfer.
#[derive(Debug, PartialEq, Eq)]
pub enum Readiness {
    /// It is.
    Ready,
    /// Not yet.
    Pending,
    /// It cannot be told.
    Failed(IoError),
}

/// How a poll for a transfer goes on.
#[derive(Debug, PartialEq, Eq)]
pub enum PollStep<T> {
    /// Ask whether the master is ready, and go on with [`transfer_ready`].
    AwaitReady {
        /// Whether to forget first that the master seemed ready.
        clear_ready: bool,
    },
    /// Let the background drain answer.
    FromDrain,
    /// Transfer, and go on with [`read_transferred`] or [`write_transferred`].
    Transfer,
    /// Nothing yet; the poll is repeated on readiness.
    Pending,
    /// It is over.
    Finished(Result<T, IoError>),
}

/// How a poll goes on after a transfer that ended so. A transfer that found the master
/// not ready, or that a signal interrupted before a byte moved, is tried again.
pub open spec fn transfer_step<T>(outcome: Result<T, Errno>) -> PollStep<T> {
    match outcome {
        Ok(value) => PollStep::Finished(Ok(value)),
        Err(Errno::Again) => PollStep::AwaitReady { clear_ready: true },
        Err(Errno::Interrupted) => PollStep::AwaitReady { clear_ready: false },
        Err(Errno::Other(code)) => PollStep::Finished(Err(IoError::Os(code))),
    }
}

/// The outcome of a read without the number of bytes.
pub open spec fn without_count(outcome: Result<usize, Errno>) -> Result<(), Errno> {
    match outcome {
        Ok(_) => Ok(()),
        Err(errno) => Err(errno),
    }
}

/// Goes on once it is known whether the master is ready.
pub fn transfer_ready<T>(readiness: Readiness) -> (step: PollStep<T>)
    ensures
        step == (match readiness {
            Readiness::Ready => PollStep::<T>::Transfer,
            Readiness::Pending => PollStep::Pending,
            Readiness::Failed(error) => PollStep::Finished(Err(error)),
        }),
{
    match readiness {
        Readiness::Ready => PollStep::Transfer,
        Readiness::Pending => PollStep::Pending,
        Readiness::Failed(error) => PollStep::Finished(Err(error)),
    }
}

/// Goes on after a read into the spare bytes of `buf`: the bytes read become filled ones,
/// and none at all mean the end.
pub fn read_transferred(buf: &mut ReadBuf<'_>, outcome: Result<usize, Errno>) -> (step: PollStep<
    (),
>)
    requires
        outcome matches Ok(n) ==> n <= crate::read_buf::spare_bytes(*old(buf)).len(),
    ensures
        step == transfer_step(without_count(outcome)),
        match outcome {
            Ok(n) => {
                &&& crate::read_buf::filled_bytes(*final(buf)) == crate::read_buf::filled_bytes(
                    *old(buf),
                ) + crate::read_buf::spare_bytes(*old(buf)).take(n as int)
                &&& crate::read_buf::spare_bytes(*final(buf)) == crate::read_buf::spare_bytes(
                    *old(buf),
                ).skip(n as int)
                &&& crate::read_buf::capacity_of(*final(buf)) == crate::read_buf::capacity_of(
                    *old(buf),
                )
                &&& n == 0 ==> *final(buf) == *old(buf)
            },
            Err(_) => *final(buf) == *old(buf),
        },
{
    match outcome {
        Ok(n) => {
            if n > 0 {
                crate::read_buf::advance(buf, n);
            } else {
                assert(crate::read_buf::filled_bytes(*buf) + crate::read_buf::spare_bytes(
                    *buf,
                ).take(0) =~= crate::read_buf::filled_bytes(*buf));
                assert(crate::read_buf::spare_bytes(*buf).skip(0) =~= crate::read_buf::spare_bytes(
                    *buf,
                ));
            }
            PollStep::Finished(Ok(()))
        },
        Err(Errno::Again) => PollStep::AwaitReady { clear_ready: true },
        Err(Errno::Interrupted) => PollStep::AwaitReady { clear_ready: false },
        Err(Errno::Other(code)) => PollStep::Finished(Err(IoError::Os(code))),
    }
}

/// Goes on after a write: with the number of bytes written, or another try, or the error.
pub fn write_transferred(outcome: Result<usize, Errno>) -> (step: PollStep<usize>)
    ensures
        step == transfer_step(outcome),
{
    match outcome {
        Ok(n) => PollStep::Finished(Ok(n)),
        Err(Errno::Again) => PollStep::AwaitReady { clear_ready: true },
        Err(Errno::Interrupted) => PollStep::AwaitReady { clear_ready: false },
        Err(Errno::Other(code)) => PollStep::Finished(Err(IoError::Os(code))),
    }
}

/// The slave's path in the reply to a request for it, or an error made from the error code
/// or for bytes that are no text.
pub open spec fn is_slave_name(
    reply: Result<Vec<u8>, i32>,
    result: Result<String, PtyError>,
) -> bool {
    match reply {
        Ok(name) => if vstd::utf8::valid_utf8(name@) {
            result matches Ok(path) && path@ == vstd::utf8::decode_utf8(name@)
        } else {
            result matches Err(PtyError::Io(error)) && error.is_custom(
                ErrorKind::InvalidData,
                "invalid slave path encoding"@,
            )
        },
        Err(code) => result == Err::<String, PtyError>(PtyError::Io(IoError::Os(code))),
    }
}

impl UnixPtyMaster {
    /// Begins the allocation of a master, given the descriptor flag that means
    /// close-on-exec.
    pub fn open(platform: Platform, fd_cloexec: u32) -> (opening: Opening)
        ensures
            opening == (Opening {
                platform,
                fd_cloexec,
                step: OpenStep::OpenDevice(device_flags(platform)),
            }),
    {
        let close_on_exec: bool = match platform {
            Platform::Linux => true,
            _ => false,
        };
        Opening {
            platform,
            fd_cloexec,
            step: OpenStep::OpenDevice(
                PtyFlags { read_write: true, no_ctty: true, close_on_exec },
            ),
        }
    }

    /// Begins to start the background drain, unless it runs already. It has to run before
    /// the child is spawned, or output is missed.
    pub fn start_read_drain(&self) -> (start: Option<DrainStart>)
        ensures
            start == (if self.draining {
                None
            } else {
                Some(DrainStart::Duplicate)
            }),
    {
        if self.draining {
            None
        } else {
            Some(DrainStart::start())
        }
    }

    /// Takes in how the start of the background drain ended. Reads are served by the drain
    /// from a success on.
    pub fn drain_started(&mut self, result: Result<(), IoError>) -> (outcome: Result<(), PtyError>)
        ensures
            final(self).open == old(self).open,
            final(self).draining == (old(self).draining || result is Ok),
            outcome == (match result {
                Ok(()) => Ok::<(), PtyError>(()),
                Err(error) => Err(PtyError::Io(error)),
            }),
    {
        match result {
            Ok(()) => {
                self.draining = true;
                Ok(())
            },
            Err(error) => Err(PtyError::Io(error)),
        }
    }

    /// The slave's path, from what the system returned for it.
    pub fn slave_name(&self, reply: Result<Vec<u8>, i32>) -> (result: Result<String, PtyError>)
        ensures
            is_slave_name(reply, result),
    {
        match reply {
            Ok(name) => match crate::text::string_from_utf8(name) {
                Some(path) => Ok(path),
                None => Err(
                    PtyError::Io(
                        IoError::custom(ErrorKind::InvalidData, "invalid slave path encoding"),
                    ),
                ),
            },
            Err(code) => Err(PtyError::Io(IoError::Os(code))),
        }
    }

    /// The result of making the master non-blocking.
    pub fn set_nonblocking(&self, reply: Result<(), i32>) -> (result: Result<(), PtyError>)
        ensures
            result == (match reply {
                Ok(()) => Ok::<(), PtyError>(()),
                Err(code) => Err(PtyError::Create(IoError::Os(code))),
            }),
    {
        match reply {
            Ok(()) => Ok(()),
            Err(code) => Err(PtyError::Create(IoError::Os(code))),
        }
    }

    /// Whether the master is open.
    pub fn is_open(&self) -> (open: bool)
        ensures
            open == self.open@,
    {
        self.open.is_set()
    }

    /// What a request of window size `size` hands to the kernel; a closed master refuses.
    pub open spec fn resize_request(self, size: WindowSize) -> Result<Winsize, PtyError> {
        if self.open@ {
            Ok(crate::config::winsize_of(size))
        } else {
            Err(PtyError::Closed)
        }
    }

    /// Begins to set the window size: the record to hand to the kernel.
    pub fn set_window_size(&self, size: WindowSize) -> (request: Result<Winsize, PtyError>)
        ensures
            request == self.resize_request(size),
    {
        if !self.is_open() {
            return Err(PtyError::Closed);
        }
        Ok(size.to_winsize())
    }

    /// The result of setting the window size.
    pub fn window_size_set(&self, reply: ResizeReply) -> (result: Result<(), PtyError>)
        ensures
            result == (match reply {
                ResizeReply::Ioctl { result, last_error } => if result == -1 {
                    Err(PtyError::Resize(IoError::Os(last_error)))
                } else {
                    Ok(())
                },
                ResizeReply::Termios(Ok(())) => Ok(()),
                ResizeReply::Termios(Err(code)) => Err(PtyError::Resize(IoError::Os(code))),
            }),
    {
        match reply {
            ResizeReply::Ioctl { result, last_error } => {
                if result == -1 {
                    Err(PtyError::Resize(IoError::Os(last_error)))
                } else {
                    Ok(())
                }
            },
            ResizeReply::Termios(result) => match result {
                Ok(()) => Ok(()),
                Err(code) => Err(PtyError::Resize(IoError::Os(code))),
            },
        }
    }

    /// Whether the window size may be asked for; a closed master refuses.
    pub open spec fn size_request(self) -> Result<(), PtyError> {
        if self.open@ {
            Ok(())
        } else {
            Err(PtyError::Closed)
        }
    }

    /// Begins to read the window size; a closed master refuses.
    pub fn get_window_size(&self) -> (request: Result<(), PtyError>)
        ensures
            request == self.size_request(),
    {
        if !self.is_open() {
            return Err(PtyError::Closed);
        }
        Ok(())
    }

    /// The result of reading the window size.
    pub fn window_size_got(&self, reply: Result<Winsize, i32>) -> (result: Result<
        WindowSize,
        PtyError,
    >)
        ensures
            result == (match reply {
                Ok(winsize) => Ok::<WindowSize, PtyError>(crate::config::window_size_of(winsize)),
                Err(code) => Err(PtyError::GetAttributes(IoError::Os(code))),
            }),
    {
        match reply {
            Ok(winsize) => Ok(WindowSize::from_winsize(winsize)),
            Err(code) => Err(PtyError::GetAttributes(IoError::Os(code))),
        }
    }

    /// Begins to set the window size.
    pub fn resize(&self, size: WindowSize) -> (request: Result<Winsize, PtyError>)
        ensures
            request == self.resize_request(size),
    {
        self.set_window_size(size)
    }

    /// Begins to read the window size.
    pub fn window_size(&self) -> (request: Result<(), PtyError>)
        ensures
            request == self.size_request(),
    {
        self.get_window_size()
    }

    /// Closes the master.
    pub fn close(&mut self) -> (result: Result<(), PtyError>)
        ensures
            result == Ok::<(), PtyError>(()),
            !final(self).open@,
            final(self).draining == old(self).draining,
    {
        self.open.clear();
        Ok(())
    }

    /// How a poll for input begins: a closed master is at its end, one with a drain lets
    /// the drain answer, and any other waits until it is ready.
    pub open spec fn read_start(self) -> PollStep<()> {
        if !self.open@ {
            PollStep::Finished(Ok(()))
        } else if self.draining {
            PollStep::FromDrain
        } else {
            PollStep::AwaitReady { clear_ready: false }
        }
    }

    /// Begins a poll for input.
    pub fn poll_read(&self) -> (step: PollStep<()>)
        ensures
            step == self.read_start(),
    {
        if !self.open.is_set() {
            return PollStep::Finished(Ok(()));
        }
        if self.draining {
            return PollStep::FromDrain;
        }
        PollStep::AwaitReady { clear_ready: false }
    }

    /// Whether a poll for output begins so: it waits until the master is ready, and fails
    /// where the master is closed.
    pub open spec fn write_starts(self, step: PollStep<usize>) -> bool {
        if self.open@ {
            step == PollStep::<usize>::AwaitReady { clear_ready: false }
        } else {
            step matches PollStep::Finished(Err(error)) && error.is_custom(
                ErrorKind::BrokenPipe,
                "PTY closed"@,
            )
        }
    }

    /// Begins a poll for output.
    pub fn poll_write(&self) -> (step: PollStep<usize>)
        ensures
            self.write_starts(step),
    {
        if !self.open.is_set() {
            return PollStep::Finished(
                Err(IoError::custom(ErrorKind::BrokenPipe, "PTY closed")),
            );
        }
        PollStep::AwaitReady { clear_ready: false }
    }

    /// A flush has nothing to do.
    pub fn poll_flush(&self) -> (result: Result<(), IoError>)
        ensures
            result == Ok::<(), IoError>(()),
    {
        Ok(())
    }

    /// Shuts the write side down: the master is closed.
    pub fn poll_shutdown(&mut self) -> (result: Result<(), IoError>)
        ensures
            result == Ok::<(), IoError>(()),
            !final(self).open@,
            final(self).draining == old(self).draining,
    {
        self.open.clear();
        Ok(())
    }
}

/// A request to open the slave.
#[derive(Debug, PartialEq, Eq)]
pub struct SlaveRequest {
    /// Its path.
    pub path: String,
    /// How to open it.
    pub flags: PtyFlags,
    /// The mode bits of a file that the request would create; it creates none.
    pub mode: u32,
}

/// The request that opens the slave at `path`. The child gets duplicates of the
/// descriptor, which are inherited; the descriptor itself is closed in the child.
pub fn open_slave(path: &str) -> (request: SlaveRequest)
    ensures
        request.path@ == path@,
        request.flags == (PtyFlags { read_write: true, no_ctty: true, close_on_exec: true }),
        request.mode == 0,
{
    SlaveRequest {
        path: path.to_owned(),
        flags: PtyFlags { read_write: true, no_ctty: true, close_on_exec: true },
        mode: 0,
    }
}

/// The result of opening the slave.
pub fn slave_opened<D>(reply: Result<D, i32>) -> (result: Result<D, PtyError>)
    ensures
        result == (match reply {
            Ok(descriptor) => Ok::<D, PtyError>(descriptor),
            Err(code) => Err(PtyError::Create(IoError::Os(code))),
        }),
{
    match reply {
        Ok(descriptor) => Ok(descriptor),
        Err(code) => Err(PtyError::Create(IoError::Os(code))),
    }
}

} // verus!
