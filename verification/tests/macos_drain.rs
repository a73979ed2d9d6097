use rust_pty::error::{Errno, ErrorKind, IoError};
use rust_pty::unix::macos_drain::{
    drain_loop, finish, push, Drain, DrainAction, DrainEvent, DrainPoll, DrainStart,
    DrainStartNext, SysError, BUFFER_CAP, READ_CHUNK,
};
use tokio::io::ReadBuf;

const POLL: DrainAction = DrainAction::Poll { timeout_millis: 50 };
const READ: DrainAction = DrainAction::Read { len: 4096 };

fn failure(errno: Errno, kind: std::io::ErrorKind) -> SysError {
    SysError { errno, kind: ErrorKind::System(kind) }
}

fn again() -> SysError {
    failure(Errno::Again, std::io::ErrorKind::WouldBlock)
}

fn interrupted() -> SysError {
    failure(Errno::Interrupted, std::io::ErrorKind::Interrupted)
}

fn broken() -> SysError {
    failure(Errno::Other(9), std::io::ErrorKind::InvalidInput)
}

fn poll(drain: &mut Drain<u32>, waker: u32, room: usize) -> (DrainPoll, Vec<u8>) {
    let mut space = vec![0u8; room];
    let mut buf = ReadBuf::new(&mut space);
    let answer = drain.poll_read(&waker, &mut buf);
    (answer, buf.filled().to_vec())
}

#[test]
fn poll_waits_for_the_first_byte() {
    let mut drain: Drain<u32> = Drain::new();
    assert_eq!(poll(&mut drain, 7, 8), (DrainPoll::Pending, vec![]));
    assert_eq!(push(&mut drain.shared, b"hi"), Some(7));
    assert_eq!(push(&mut drain.shared, b"!"), None);
    assert_eq!(poll(&mut drain, 8, 8), (DrainPoll::Ready(Ok(())), b"hi!".to_vec()));
    assert_eq!(poll(&mut drain, 8, 8), (DrainPoll::Pending, vec![]));
    assert_eq!(drain.shared.waker, Some(8));
}

#[test]
fn poll_takes_what_fits_from_the_front() {
    let mut drain: Drain<u32> = Drain::new();
    push(&mut drain.shared, b"abcdef");
    assert_eq!(poll(&mut drain, 1, 4), (DrainPoll::Ready(Ok(())), b"abcd".to_vec()));
    push(&mut drain.shared, b"gh");
    assert_eq!(poll(&mut drain, 1, 0), (DrainPoll::Ready(Ok(())), vec![]));
    assert_eq!(poll(&mut drain, 1, 4), (DrainPoll::Ready(Ok(())), b"efgh".to_vec()));
}

#[test]
fn poll_appends_behind_filled_bytes() {
    let mut drain: Drain<u32> = Drain::new();
    push(&mut drain.shared, b"xyz");
    let mut space = [0u8; 4];
    let mut buf = ReadBuf::new(&mut space);
    buf.put_slice(b"ab");
    assert_eq!(drain.poll_read(&1, &mut buf), DrainPoll::Ready(Ok(())));
    assert_eq!(buf.filled(), b"abxy");
    assert_eq!(drain.shared.buf.len(), 1);
}

#[test]
fn poll_leaves_the_spare_bytes_behind() {
    let mut drain: Drain<u32> = Drain::new();
    push(&mut drain.shared, b"xy");
    let mut space = *b"abcdef";
    let mut buf = ReadBuf::new(&mut space);
    buf.advance(1);
    assert_eq!(drain.poll_read(&1, &mut buf), DrainPoll::Ready(Ok(())));
    assert_eq!(buf.filled(), b"axy");
    assert_eq!(buf.initialized(), b"axydef");
}

#[test]
fn poll_initializes_only_what_it_fills() {
    let mut drain: Drain<u32> = Drain::new();
    push(&mut drain.shared, b"xy");
    let mut space = [std::mem::MaybeUninit::new(7u8); 6];
    let mut buf = ReadBuf::uninit(&mut space);
    assert_eq!(drain.poll_read(&1, &mut buf), DrainPoll::Ready(Ok(())));
    assert_eq!(buf.initialized(), b"xy");
}

#[test]
fn end_is_reported_after_every_byte() {
    let mut drain: Drain<u32> = Drain::new();
    push(&mut drain.shared, b"bye");
    assert_eq!(finish(&mut drain.shared, None), None);
    assert_eq!(poll(&mut drain, 1, 2), (DrainPoll::Ready(Ok(())), b"by".to_vec()));
    assert_eq!(poll(&mut drain, 1, 2), (DrainPoll::Ready(Ok(())), b"e".to_vec()));
    assert_eq!(poll(&mut drain, 1, 2), (DrainPoll::Ready(Ok(())), vec![]));
    assert_eq!(drain.shared.waker, None);
}

#[test]
fn first_error_stays_and_comes_after_every_byte() {
    let mut drain: Drain<u32> = Drain::new();
    assert_eq!(poll(&mut drain, 5, 2).0, DrainPoll::Pending);
    let first = ErrorKind::System(std::io::ErrorKind::PermissionDenied);
    assert_eq!(finish(&mut drain.shared, Some(first)), Some(5));
    finish(&mut drain.shared, Some(ErrorKind::System(std::io::ErrorKind::NotFound)));
    push(&mut drain.shared, b"z");
    assert_eq!(poll(&mut drain, 1, 2), (DrainPoll::Ready(Ok(())), b"z".to_vec()));
    assert_eq!(poll(&mut drain, 1, 2).0, DrainPoll::Ready(Err(IoError::Simple(first))));
    assert_eq!(poll(&mut drain, 1, 2).0, DrainPoll::Ready(Err(IoError::Simple(first))));
}

#[test]
fn thread_reads_until_the_end() {
    let mut drain: Drain<u32> = Drain::new();
    assert_eq!(drain_loop(&mut drain, DrainEvent::Resumed), (POLL, None));
    assert_eq!(drain_loop(&mut drain, DrainEvent::Polled(Ok(0))), (POLL, None));
    assert_eq!(drain_loop(&mut drain, DrainEvent::Polled(Err(interrupted()))), (POLL, None));
    assert_eq!(poll(&mut drain, 3, 8).0, DrainPoll::Pending);
    assert_eq!(drain_loop(&mut drain, DrainEvent::Polled(Ok(1))), (READ, None));
    let space = *b"hello...";
    let read = DrainEvent::Read { space: &space, result: Ok(5) };
    assert_eq!(drain_loop(&mut drain, read), (READ, Some(3)));
    let read = DrainEvent::Read { space: &space, result: Err(interrupted()) };
    assert_eq!(drain_loop(&mut drain, read), (READ, None));
    let read = DrainEvent::Read { space: &space, result: Err(again()) };
    assert_eq!(drain_loop(&mut drain, read), (POLL, None));
    assert_eq!(drain_loop(&mut drain, DrainEvent::Polled(Ok(1))), (READ, None));
    let read = DrainEvent::Read { space: &space, result: Ok(0) };
    assert_eq!(drain_loop(&mut drain, read), (DrainAction::Exit, None));
    assert!(drain.shared.eof);
    assert_eq!(poll(&mut drain, 3, 8), (DrainPoll::Ready(Ok(())), b"hello".to_vec()));
}

#[test]
fn failures_end_the_thread() {
    let mut drain: Drain<u32> = Drain::new();
    poll(&mut drain, 4, 8);
    assert_eq!(
        drain_loop(&mut drain, DrainEvent::Polled(Err(broken()))),
        (DrainAction::Exit, Some(4))
    );
    assert_eq!(drain.shared.err, Some(ErrorKind::System(std::io::ErrorKind::InvalidInput)));

    let mut drain: Drain<u32> = Drain::new();
    let read = DrainEvent::Read { space: &[], result: Err(broken()) };
    assert_eq!(drain_loop(&mut drain, read), (DrainAction::Exit, None));
    assert!(!drain.shared.eof);
    assert_eq!(
        poll(&mut drain, 4, 8).0,
        DrainPoll::Ready(Err(IoError::Simple(ErrorKind::System(
            std::io::ErrorKind::InvalidInput
        ))))
    );
}

#[test]
fn again_from_a_wait_is_a_failure() {
    let mut drain: Drain<u32> = Drain::new();
    assert_eq!(
        drain_loop(&mut drain, DrainEvent::Polled(Err(again()))),
        (DrainAction::Exit, None)
    );
    assert_eq!(drain.shared.err, Some(ErrorKind::System(std::io::ErrorKind::WouldBlock)));
}

#[test]
fn full_buffer_makes_the_thread_sleep() {
    let mut drain: Drain<u32> = Drain::new();
    let chunk = vec![1u8; BUFFER_CAP - 1];
    push(&mut drain.shared, &chunk);
    assert_eq!(drain_loop(&mut drain, DrainEvent::Resumed), (POLL, None));
    assert_eq!(drain_loop(&mut drain, DrainEvent::Polled(Ok(1))), (READ, None));
    let read = DrainEvent::Read { space: &[2], result: Ok(1) };
    assert_eq!(drain_loop(&mut drain, read), (DrainAction::Sleep { millis: 2 }, None));
    let resumed = drain_loop(&mut drain, DrainEvent::Resumed);
    assert_eq!(resumed, (DrainAction::Sleep { millis: 2 }, None));
    assert_eq!(poll(&mut drain, 1, 1).1, vec![1]);
    assert_eq!(drain_loop(&mut drain, DrainEvent::Resumed), (POLL, None));
    assert_eq!(BUFFER_CAP, 1 << 20);
}

#[test]
fn stop_is_seen_before_and_after_a_wait() {
    let mut drain: Drain<u32> = Drain::new();
    drain.request_stop();
    assert_eq!(drain_loop(&mut drain, DrainEvent::Resumed), (DrainAction::Exit, None));
    assert_eq!(drain_loop(&mut drain, DrainEvent::Polled(Ok(1))), (DrainAction::Exit, None));
    assert_eq!(
        drain_loop(&mut drain, DrainEvent::Polled(Err(broken()))),
        (DrainAction::Exit, None)
    );
    assert_eq!(drain.shared.err, None);
}

#[test]
fn stop_is_seen_between_two_reads() {
    let mut drain: Drain<u32> = Drain::new();
    poll(&mut drain, 6, 8);
    drain_loop(&mut drain, DrainEvent::Resumed);
    assert_eq!(drain_loop(&mut drain, DrainEvent::Polled(Ok(1))), (READ, None));
    drain.request_stop();
    let read = DrainEvent::Read { space: &[9], result: Err(interrupted()) };
    assert_eq!(drain_loop(&mut drain, read), (DrainAction::Exit, None));
    let read = DrainEvent::Read { space: &[9], result: Ok(1) };
    assert_eq!(drain_loop(&mut drain, read), (DrainAction::Exit, Some(6)));
    let read = DrainEvent::Read { space: &[9], result: Err(again()) };
    assert_eq!(drain_loop(&mut drain, read), (DrainAction::Exit, None));
    assert!(!drain.shared.eof);
    assert_eq!(drain.shared.err, None);
    assert_eq!(poll(&mut drain, 6, 8), (DrainPoll::Ready(Ok(())), vec![9]));
}

#[test]
fn burst_passes_the_cap_by_less_than_a_chunk() {
    let mut drain: Drain<u32> = Drain::new();
    push(&mut drain.shared, b"x");
    let space = [7u8; READ_CHUNK];
    let mut action = drain_loop(&mut drain, DrainEvent::Polled(Ok(1))).0;
    let mut reads = 0;
    while action == READ {
        let read = DrainEvent::Read { space: &space, result: Ok(READ_CHUNK) };
        action = drain_loop(&mut drain, read).0;
        reads += 1;
    }
    assert_eq!(action, DrainAction::Sleep { millis: 2 });
    assert_eq!(reads, 256);
    assert_eq!(drain.shared.buf.len(), BUFFER_CAP + 1);
    assert!(drain.shared.buf.len() < BUFFER_CAP + READ_CHUNK);
}

#[test]
fn start_succeeds_step_by_step() {
    assert_eq!(DrainStart::start(), DrainStart::Duplicate);
    assert_eq!(
        DrainStart::Duplicate.next(Ok(())),
        DrainStartNext::Continue(DrainStart::SetCloseOnExec)
    );
    assert_eq!(
        DrainStart::SetCloseOnExec.next(Err(IoError::Os(9))),
        DrainStartNext::Continue(DrainStart::SpawnThread)
    );
    assert_eq!(DrainStart::SpawnThread.next(Ok(())), DrainStartNext::Started);
}

#[test]
fn failed_start_closes_what_it_opened() {
    assert_eq!(
        DrainStart::Duplicate.next(Err(IoError::Os(24))),
        DrainStartNext::Failed(IoError::Os(24))
    );
    let close = DrainStart::CloseDuplicate { error: IoError::Os(11) };
    assert_eq!(
        DrainStart::SpawnThread.next(Err(IoError::Os(11))),
        DrainStartNext::Continue(close)
    );
    assert_eq!(
        DrainStart::CloseDuplicate { error: IoError::Os(11) }.next(Ok(())),
        DrainStartNext::Failed(IoError::Os(11))
    );
}
