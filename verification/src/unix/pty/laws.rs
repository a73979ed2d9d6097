//! What callers may rely on when they allocate and use a master.

use super::{
    OpenNext, OpenReply, OpenStep, Opening, PollStep, Readiness, ResizeReply, SlaveRequest,
    UnixPtyMaster,
};
use crate::config::{WindowSize, Winsize};
use crate::error::{Errno, IoError, PtyError};
use crate::open_flag::OpenFlag;
use crate::platform::Platform;
use crate::unix::macos_drain::DrainStart;
use tokio::io::ReadBuf;
use vstd::prelude::*;

verus! {

/// Whether a successful reply is one that its step can give.
pub open spec fn replies_to(reply: OpenReply, step: OpenStep) -> bool {
    &&& reply is FdFlags <==> step is GetFdFlags
    &&& reply is SlaveName <==> step is SlaveName
}

/// Whether a slave name came back that is no text.
pub open spec fn garbled(result: Result<OpenReply, IoError>) -> bool {
    result matches Ok(OpenReply::SlaveName(name)) && !vstd::utf8::valid_utf8(name@)
}

/// Whether an allocation went from its decision `i` on with the result of the step that
/// this named.
pub open spec fn open_went_on(
    results: Seq<Result<OpenReply, IoError>>,
    nexts: Seq<OpenNext>,
    i: int,
) -> bool {
    &&& nexts[i] matches OpenNext::Continue(opening)
    &&& results[i] matches Ok(reply) ==> replies_to(reply, opening.step)
    &&& call_ensures(Opening::next, (opening, results[i]), nexts[i + 1])
}

/// Whether an allocation took steps that ended so, with these decisions.
pub open spec fn opened_by(
    platform: Platform,
    fd_cloexec: u32,
    results: Seq<Result<OpenReply, IoError>>,
    nexts: Seq<OpenNext>,
) -> bool {
    &&& nexts.len() == results.len() + 1
    &&& nexts[0] matches OpenNext::Continue(first) && call_ensures(
        UnixPtyMaster::open,
        (platform, fd_cloexec),
        first,
    )
    &&& forall|i: int| 0 <= i < results.len() ==> #[trigger] open_went_on(results, nexts, i)
}

/// The number of steps that an allocation takes before it grants access to the slave:
/// one, or three where close-on-exec takes two of its own.
pub open spec fn steps_to_grant(platform: Platform) -> int {
    if platform is Linux {
        1
    } else {
        3
    }
}

/// The number of steps of a whole allocation.
pub open spec fn steps_to_open(platform: Platform) -> int {
    match platform {
        Platform::Linux => 6,
        Platform::MacOs => 7,
        Platform::OtherUnix => 8,
    }
}

/// Whether a path is the text that the allocation got for its slave.
pub open spec fn is_path_got(
    platform: Platform,
    results: Seq<Result<OpenReply, IoError>>,
    path: String,
) -> bool {
    results[steps_to_grant(platform) + 2] matches Ok(OpenReply::SlaveName(name)) && path@
        == vstd::utf8::decode_utf8(name@)
}

/// The step that an allocation on its way is at after so many.
pub open spec fn is_step(
    platform: Platform,
    fd_cloexec: u32,
    results: Seq<Result<OpenReply, IoError>>,
    step: OpenStep,
    i: int,
) -> bool {
    let grant = steps_to_grant(platform);
    if i == 0 {
        &&& step matches OpenStep::OpenDevice(flags)
        &&& flags.read_write
        &&& flags.no_ctty
        &&& flags.close_on_exec == (platform is Linux)
    } else if i < grant {
        if i == 1 {
            step is GetFdFlags
        } else {
            &&& results[1] matches Ok(OpenReply::FdFlags(had))
            &&& step == OpenStep::SetFdFlags { flags: had | fd_cloexec }
        }
    } else if i == grant {
        step is Grant
    } else if i == grant + 1 {
        step is Unlock
    } else if i == grant + 2 {
        step is SlaveName
    } else if i == grant + 3 && !(platform is MacOs) {
        step matches OpenStep::SetNonblocking { slave_path } && is_path_got(
            platform,
            results,
            slave_path,
        )
    } else {
        step matches OpenStep::Register { slave_path } && is_path_got(platform, results, slave_path)
    }
}

/// Where an allocation stands after so many steps.
proof fn lemma_opening_stands(
    platform: Platform,
    fd_cloexec: u32,
    results: Seq<Result<OpenReply, IoError>>,
    nexts: Seq<OpenNext>,
    i: int,
)
    requires
        opened_by(platform, fd_cloexec, results, nexts),
        0 <= i < nexts.len(),
    ensures
        i <= steps_to_open(platform),
        if i > 0 && results[i - 1] is Err {
            nexts[i] == OpenNext::Failed(PtyError::Create(results[i - 1]->Err_0))
        } else if i > 0 && garbled(results[i - 1]) {
            &&& nexts[i] matches OpenNext::Failed(PtyError::Create(error))
            &&& error matches IoError::Custom { kind, message }
            &&& kind is InvalidData
            &&& message@ == "invalid slave path encoding"@
        } else if i < steps_to_open(platform) {
            &&& nexts[i] matches OpenNext::Continue(opening)
            &&& opening.platform == platform
            &&& opening.fd_cloexec == fd_cloexec
            &&& is_step(platform, fd_cloexec, results, opening.step, i)
        } else {
            &&& nexts[i] matches OpenNext::Opened(master, path)
            &&& master.open@
            &&& !master.draining
            &&& is_path_got(platform, results, path)
        },
    decreases i,
{
    if i > 0 {
        lemma_opening_stands(platform, fd_cloexec, results, nexts, i - 1);
        assert(open_went_on(results, nexts, i - 1));
    }
}

/// An allocation whose steps all succeed, and whose slave has a name that is text, ends
/// after the steps of its platform with an open master that no drain reads, and with that
/// name; it goes on until then.
pub proof fn law_allocation_succeeds_with_its_steps(
    platform: Platform,
    fd_cloexec: u32,
    results: Seq<Result<OpenReply, IoError>>,
    nexts: Seq<OpenNext>,
)
    requires
        opened_by(platform, fd_cloexec, results, nexts),
        forall|i: int|
            0 <= i < results.len() ==> (#[trigger] results[i]) is Ok && (results[i] matches Ok(
                OpenReply::SlaveName(name),
            ) ==> vstd::utf8::valid_utf8(name@)),
    ensures
        ({
            let steps = match platform {
                Platform::Linux => 6int,
                Platform::MacOs => 7int,
                Platform::OtherUnix => 8int,
            };
            let named = if platform is Linux {
                3int
            } else {
                5int
            };
            &&& results.len() < steps ==> nexts.last() is Continue
            &&& results.len() >= steps ==> {
                &&& results.len() == steps
                &&& nexts.last() matches OpenNext::Opened(master, path)
                &&& master.open@
                &&& !master.draining
                &&& results[named] matches Ok(OpenReply::SlaveName(name))
                &&& path@ == vstd::utf8::decode_utf8(name@)
            }
        }),
{
    let last = results.len() as int;
    lemma_opening_stands(platform, fd_cloexec, results, nexts, last);
    if last > 0 {
        assert(results[last - 1] is Ok);
    }
}

/// An allocation fails only where a step of it reports an error, which it then returns, or
/// where the slave's name is no text; and there it does fail, at once.
pub proof fn law_allocation_fails_only_for_a_reason(
    opening: Opening,
    result: Result<OpenReply, IoError>,
    next: OpenNext,
)
    requires
        result matches Ok(reply) ==> replies_to(reply, opening.step),
        call_ensures(Opening::next, (opening, result), next),
    ensures
        next is Failed <==> result is Err || (result matches Ok(OpenReply::SlaveName(name))
            && !vstd::utf8::valid_utf8(name@)),
        result matches Err(error) ==> next == OpenNext::Failed(PtyError::Create(error)),
        result is Ok && next is Failed ==> {
            &&& next matches OpenNext::Failed(PtyError::Create(error))
            &&& error matches IoError::Custom { kind, message }
            &&& kind is InvalidData
            &&& message@ == "invalid slave path encoding"@
        },
{
}

/// An allocation can go on after any step, whether it failed or succeeded with a reply that
/// it can give.
pub proof fn law_allocation_takes_every_reply(opening: Opening, result: Result<OpenReply, IoError>)
    requires
        result matches Ok(reply) ==> {
            &&& reply is FdFlags <==> opening.step is GetFdFlags
            &&& reply is SlaveName <==> opening.step is SlaveName
        },
    ensures
        call_requires(Opening::next, (opening, result)),
{
}

/// An allocation takes its steps in one order: it opens the device for reading and writing
/// and not as the controlling terminal, sees to close-on-exec, grants and unlocks the slave
/// and asks for its name, makes the master non-blocking except on macOS, and registers it.
pub proof fn law_allocation_takes_its_steps_in_order(
    platform: Platform,
    fd_cloexec: u32,
    results: Seq<Result<OpenReply, IoError>>,
    nexts: Seq<OpenNext>,
    i: int,
)
    requires
        opened_by(platform, fd_cloexec, results, nexts),
        0 <= i < nexts.len(),
        nexts[i] is Continue,
    ensures
        ({
            let step = nexts[i]->Continue_0.step;
            let grant = if platform is Linux {
                1int
            } else {
                3int
            };
            let register = if platform is MacOs {
                grant + 3
            } else {
                grant + 4
            };
            &&& step is OpenDevice <==> i == 0
            &&& step matches OpenStep::OpenDevice(flags) ==> flags.read_write && flags.no_ctty
                && flags.close_on_exec == (platform is Linux)
            &&& step is GetFdFlags <==> i == 1 && !(platform is Linux)
            &&& step is SetFdFlags <==> i == 2 && !(platform is Linux)
            &&& step matches OpenStep::SetFdFlags { flags } ==> (results[1] matches Ok(
                OpenReply::FdFlags(had),
            ) && flags == had | fd_cloexec)
            &&& step is Grant <==> i == grant
            &&& step is Unlock <==> i == grant + 1
            &&& step is SlaveName <==> i == grant + 2
            &&& step is SetNonblocking <==> i == grant + 3 && !(platform is MacOs)
            &&& step is Register <==> i == register
            &&& i <= register
        }),
{
    lemma_opening_stands(platform, fd_cloexec, results, nexts, i);
}

/// Every step of an allocation has its place among the others, whoever put it there: what a
/// step that succeeded leads to, and that the platform and the flag go along unchanged.
pub proof fn law_open_steps_lead_to_each_other(
    opening: Opening,
    reply: OpenReply,
    next: OpenNext,
)
    requires
        replies_to(reply, opening.step),
        call_ensures(Opening::next, (opening, Ok(reply)), next),
    ensures
        next matches OpenNext::Continue(following) ==> {
            &&& following.platform == opening.platform
            &&& following.fd_cloexec == opening.fd_cloexec
            &&& opening.step is OpenDevice ==> (if opening.platform is Linux {
                following.step is Grant
            } else {
                following.step is GetFdFlags
            })
            &&& reply matches OpenReply::FdFlags(had) ==> following.step == OpenStep::SetFdFlags {
                flags: had | opening.fd_cloexec,
            }
            &&& opening.step is SetFdFlags ==> following.step is Grant
            &&& opening.step is Grant <==> following.step is Unlock
            &&& opening.step is Unlock <==> following.step is SlaveName
            &&& reply matches OpenReply::SlaveName(name) ==> (if opening.platform is MacOs {
                following.step matches OpenStep::Register { slave_path } && slave_path@
                    == vstd::utf8::decode_utf8(name@)
            } else {
                following.step matches OpenStep::SetNonblocking { slave_path } && slave_path@
                    == vstd::utf8::decode_utf8(name@)
            })
            &&& opening.step matches OpenStep::SetNonblocking { slave_path } ==> following.step
                == OpenStep::Register { slave_path }
        },
        next is Opened <==> opening.step is Register,
        opening.step matches OpenStep::Register { slave_path } ==> (next matches OpenNext::Opened(
            master,
            path,
        ) && path == slave_path && master.open@ && !master.draining),
{
}

/// Whether a master is open is what its flag says, and nothing else decides it.
pub proof fn law_master_is_open_by_its_flag(master: UnixPtyMaster, open: bool, flag: bool)
    requires
        call_ensures(UnixPtyMaster::is_open, (&master,), open),
        call_ensures(OpenFlag::is_set, (&master.open,), flag),
    ensures
        open == flag,
{
}

/// A write is refused exactly where the master is closed, as a broken pipe; an open master
/// begins every write by waiting for readiness, drained or not.
pub proof fn law_only_a_closed_master_refuses_a_write(
    master: UnixPtyMaster,
    open: bool,
    step: PollStep<usize>,
)
    requires
        call_ensures(UnixPtyMaster::is_open, (&master,), open),
        call_ensures(UnixPtyMaster::poll_write, (&master,), step),
    ensures
        open ==> step == (PollStep::<usize>::AwaitReady { clear_ready: false }),
        !open ==> (step matches PollStep::Finished(Err(IoError::Custom { kind, message })) && kind
            is BrokenPipe && message@ == "PTY closed"@),
        step is Finished <==> !open,
{
}

/// A read of a closed master is at its end; one of an open master is the drain's where
/// there is a drain, and waits for readiness where there is none.
pub proof fn law_reads_go_where_the_bytes_are(
    master: UnixPtyMaster,
    open: bool,
    step: PollStep<()>,
)
    requires
        call_ensures(UnixPtyMaster::is_open, (&master,), open),
        call_ensures(UnixPtyMaster::poll_read, (&master,), step),
    ensures
        !open ==> step == PollStep::Finished(Ok::<(), IoError>(())),
        open && master.draining ==> step is FromDrain,
        open && !master.draining ==> step == (PollStep::<()>::AwaitReady { clear_ready: false }),
{
}

/// The window size is refused, to set or to read, exactly where the master is closed; an
/// open master hands the kernel each field of the size in its place.
pub proof fn law_only_a_closed_master_refuses_a_size(
    master: UnixPtyMaster,
    size: WindowSize,
    open: bool,
    set: Result<Winsize, PtyError>,
    resized: Result<Winsize, PtyError>,
    get: Result<(), PtyError>,
    read: Result<(), PtyError>,
)
    requires
        call_ensures(UnixPtyMaster::is_open, (&master,), open),
        call_ensures(UnixPtyMaster::set_window_size, (&master, size), set),
        call_ensures(UnixPtyMaster::resize, (&master, size), resized),
        call_ensures(UnixPtyMaster::get_window_size, (&master,), get),
        call_ensures(UnixPtyMaster::window_size, (&master,), read),
    ensures
        open ==> set == Ok::<Winsize, PtyError>(
            Winsize {
                ws_row: size.rows,
                ws_col: size.cols,
                ws_xpixel: size.xpixel,
                ws_ypixel: size.ypixel,
            },
        ),
        open ==> get is Ok,
        !open ==> set == Err::<Winsize, PtyError>(PtyError::Closed) && get == Err::<(), PtyError>(
            PtyError::Closed,
        ),
        resized == set,
        read == get,
{
}

/// The window size that the kernel reported is returned field by field, and an error code
/// that it left as the error of reading the attributes.
pub proof fn law_reported_size_is_returned(
    master: UnixPtyMaster,
    reply: Result<Winsize, i32>,
    result: Result<WindowSize, PtyError>,
)
    requires
        call_ensures(UnixPtyMaster::window_size_got, (&master, reply), result),
    ensures
        reply matches Ok(winsize) ==> result == Ok::<WindowSize, PtyError>(
            WindowSize {
                cols: winsize.ws_col,
                rows: winsize.ws_row,
                xpixel: winsize.ws_xpixel,
                ypixel: winsize.ws_ypixel,
            },
        ),
        reply matches Err(code) ==> result == Err::<WindowSize, PtyError>(
            PtyError::GetAttributes(IoError::Os(code)),
        ),
{
}

/// What is set on a master is what a kernel that keeps it gives back.
pub proof fn law_set_size_is_read_back(
    master: UnixPtyMaster,
    size: WindowSize,
    winsize: Winsize,
    result: Result<WindowSize, PtyError>,
)
    requires
        call_ensures(UnixPtyMaster::set_window_size, (&master, size), Ok(winsize)),
        call_ensures(UnixPtyMaster::window_size_got, (&master, Ok(winsize)), result),
    ensures
        result == Ok::<WindowSize, PtyError>(size),
{
}

/// Setting the window size fails exactly where the system call did, with its error code.
pub proof fn law_set_size_fails_with_its_call(
    master: UnixPtyMaster,
    reply: ResizeReply,
    result: Result<(), PtyError>,
)
    requires
        call_ensures(UnixPtyMaster::window_size_set, (&master, reply), result),
    ensures
        result is Err <==> (match reply {
            ResizeReply::Ioctl { result: returned, .. } => returned == -1,
            ResizeReply::Termios(returned) => returned is Err,
        }),
        result matches Err(error) ==> (error matches PtyError::Resize(IoError::Os(code)) && (
        match reply {
            ResizeReply::Ioctl { last_error, .. } => code == last_error,
            ResizeReply::Termios(returned) => returned == Err::<(), i32>(code),
        })),
{
}

/// A master that was closed or shut down is closed, and still as drained as it was; neither
/// can fail.
pub proof fn law_closed_master_stays_closed(
    closed: &mut UnixPtyMaster,
    shut: &mut UnixPtyMaster,
    close: Result<(), PtyError>,
    shutdown: Result<(), IoError>,
    closed_open: bool,
    shut_open: bool,
)
    requires
        call_ensures(UnixPtyMaster::close, (closed,), close),
        call_ensures(UnixPtyMaster::poll_shutdown, (shut,), shutdown),
        call_ensures(UnixPtyMaster::is_open, (&*final(closed),), closed_open),
        call_ensures(UnixPtyMaster::is_open, (&*final(shut),), shut_open),
    ensures
        close is Ok,
        shutdown is Ok,
        !closed_open,
        !shut_open,
        final(closed).draining == old(closed).draining,
        final(shut).draining == old(shut).draining,
{
}

/// A flush succeeds, whatever the master is.
pub proof fn law_flush_succeeds(master: UnixPtyMaster, result: Result<(), IoError>)
    requires
        call_ensures(UnixPtyMaster::poll_flush, (&master,), result),
    ensures
        result is Ok,
{
}

/// A drain is started once: with its first step while there is none, and no more after a
/// start that succeeded. A start that fails leaves the master as it was, and its error is
/// returned.
pub proof fn law_drain_is_started_once(
    master: &mut UnixPtyMaster,
    before: Option<DrainStart>,
    result: Result<(), IoError>,
    outcome: Result<(), PtyError>,
    after: Option<DrainStart>,
)
    requires
        call_ensures(UnixPtyMaster::start_read_drain, (&*old(master),), before),
        call_ensures(UnixPtyMaster::drain_started, (master, result), outcome),
        call_ensures(UnixPtyMaster::start_read_drain, (&*final(master),), after),
    ensures
        before is None <==> old(master).draining,
        before matches Some(first) ==> first is Duplicate,
        result is Ok ==> after is None && final(master).draining && outcome is Ok,
        result matches Err(error) ==> after == before && final(master).draining == old(
            master,
        ).draining && outcome == Err::<(), PtyError>(PtyError::Io(error)),
        final(master).open == old(master).open,
{
}

/// The slave's name is what the system gave for it, where that is text; else the error says
/// why there is none.
pub proof fn law_slave_name_is_what_the_system_gave(
    master: UnixPtyMaster,
    reply: Result<Vec<u8>, i32>,
    result: Result<String, PtyError>,
)
    requires
        call_ensures(UnixPtyMaster::slave_name, (&master, reply), result),
    ensures
        result is Ok <==> (reply matches Ok(name) && vstd::utf8::valid_utf8(name@)),
        result matches Ok(path) ==> path@ == vstd::utf8::decode_utf8(reply->Ok_0@),
        reply matches Err(code) ==> result == Err::<String, PtyError>(
            PtyError::Io(IoError::Os(code)),
        ),
        reply is Ok && result is Err ==> (result matches Err(
            PtyError::Io(IoError::Custom { kind, message }),
        ) && kind is InvalidData && message@ == "invalid slave path encoding"@),
{
}

/// Making the master non-blocking fails exactly where the system call did, with its code.
pub proof fn law_nonblocking_fails_with_its_call(
    master: UnixPtyMaster,
    reply: Result<(), i32>,
    result: Result<(), PtyError>,
)
    requires
        call_ensures(UnixPtyMaster::set_nonblocking, (&master, reply), result),
    ensures
        result is Ok <==> reply is Ok,
        reply matches Err(code) ==> result == Err::<(), PtyError>(
            PtyError::Create(IoError::Os(code)),
        ),
{
}

/// The slave is asked for by its path, to read and write, not as the controlling terminal,
/// and closed in a child that executes another program; no file is created.
pub proof fn law_slave_is_asked_for_by_its_path(path: &str, request: SlaveRequest)
    requires
        call_ensures(super::open_slave, (path,), request),
    ensures
        request.path@ == path@,
        request.flags.read_write,
        request.flags.no_ctty,
        request.flags.close_on_exec,
        request.mode == 0,
{
}

/// The slave's descriptor is handed on, and an error code becomes the error of the
/// creation.
pub proof fn law_slave_is_handed_on<D>(reply: Result<D, i32>, result: Result<D, PtyError>)
    requires
        call_ensures(super::slave_opened::<D>, (reply,), result),
    ensures
        reply matches Ok(descriptor) ==> result == Ok::<D, PtyError>(descriptor),
        reply matches Err(code) ==> result == Err::<D, PtyError>(
            PtyError::Create(IoError::Os(code)),
        ),
{
}

/// A transfer is made exactly where the master is ready. Where it is not, the poll waits,
/// and where that cannot be told, it returns why.
pub proof fn law_transfer_waits_for_readiness<T>(readiness: Readiness, step: PollStep<T>)
    requires
        call_ensures(super::transfer_ready::<T>, (readiness,), step),
    ensures
        step is Transfer <==> readiness is Ready,
        step is Pending <==> readiness is Pending,
        readiness matches Readiness::Failed(error) ==> step == PollStep::Finished(
            Err::<T, IoError>(error),
        ),
{
}

/// A write that moved bytes returns how many, and one that failed for good its error code.
/// Any other is tried again, and readiness is forgotten exactly where there was none.
pub proof fn law_write_returns_what_it_moved(outcome: Result<usize, Errno>, step: PollStep<usize>)
    requires
        call_ensures(super::write_transferred, (outcome,), step),
    ensures
        outcome matches Ok(n) ==> step == PollStep::Finished(Ok::<usize, IoError>(n)),
        outcome matches Err(Errno::Other(code)) ==> step == PollStep::Finished(
            Err::<usize, IoError>(IoError::Os(code)),
        ),
        step is AwaitReady <==> outcome == Err::<usize, Errno>(Errno::Again) || outcome == Err::<
            usize,
            Errno,
        >(Errno::Interrupted),
        step == (PollStep::<usize>::AwaitReady { clear_ready: true }) <==> outcome == Err::<
            usize,
            Errno,
        >(Errno::Again),
{
}

/// A poll can go on after any read that brought no more than there was space for, and after
/// any that failed.
pub proof fn law_every_read_can_be_taken_in(buf: &mut ReadBuf<'_>, outcome: Result<usize, Errno>)
    requires
        outcome matches Ok(n) ==> n <= crate::read_buf::spare_bytes(*old(buf)).len(),
    ensures
        call_requires(super::read_transferred, (old(buf), outcome)),
{
}

/// A read fills as many bytes as it brought, with those that it wrote behind the filled
/// ones, and returns. One that brought none, or failed, leaves the buffer; it returns the
/// end or its error code, or is tried again, and readiness is forgotten exactly where there
/// was none.
pub proof fn law_read_fills_what_it_brought(
    buf: &mut ReadBuf<'_>,
    outcome: Result<usize, Errno>,
    step: PollStep<()>,
)
    requires
        outcome matches Ok(n) ==> n <= crate::read_buf::spare_bytes(*old(buf)).len(),
        call_ensures(super::read_transferred, (buf, outcome), step),
    ensures
        ({
            let had = crate::read_buf::filled_bytes(*old(buf));
            let has = crate::read_buf::filled_bytes(*final(buf));
            let written = crate::read_buf::spare_bytes(*old(buf));
            let left = crate::read_buf::spare_bytes(*final(buf));
            let brought: int = if outcome is Ok {
                outcome->Ok_0 as int
            } else {
                0
            };
            &&& has.len() == had.len() + brought
            &&& forall|i: int| 0 <= i < had.len() ==> #[trigger] has[i] == had[i]
            &&& forall|i: int| 0 <= i < brought ==> has[had.len() + i] == #[trigger] written[i]
            &&& left.len() == written.len() - brought
            &&& forall|i: int| 0 <= i < left.len() ==> #[trigger] left[i] == written[brought + i]
            &&& crate::read_buf::capacity_of(*final(buf)) == crate::read_buf::capacity_of(*old(buf))
            &&& brought == 0 ==> *final(buf) == *old(buf)
        }),
        outcome is Ok ==> step == PollStep::Finished(Ok::<(), IoError>(())),
        outcome matches Err(Errno::Other(code)) ==> step == PollStep::Finished(
            Err::<(), IoError>(IoError::Os(code)),
        ),
        outcome == Err::<usize, Errno>(Errno::Again) ==> step == (PollStep::<()>::AwaitReady {
            clear_ready: true,
        }),
        outcome == Err::<usize, Errno>(Errno::Interrupted) ==> step == (PollStep::<
            (),
        >::AwaitReady { clear_ready: false }),
{
}

} // verus!
