use rust_pty::config::WindowSize;
use rust_pty::error::{ErrorKind, IoError, PtyError};
use rust_pty::read_buf::copy_into;
use rust_pty::windows::async_adapter::{
    joined_read, read_file_result, write_file_result, PendingReadState, ReadPoll, WindowsPtyMaster,
    ERROR_BROKEN_PIPE,
};
use std::cell::Cell;
use tokio::io::ReadBuf;

type Resizer = fn(WindowSize) -> Result<(), PtyError>;
type Master = WindowsPtyMaster<Resizer, u32>;

fn accept(_size: WindowSize) -> Result<(), PtyError> {
    Ok(())
}

fn master() -> Master {
    WindowsPtyMaster::new(accept as Resizer, WindowSize::new(100, 30))
}

#[test]
fn new_master_is_open_and_idle() {
    let master = master();
    assert!(master.is_open());
    assert_eq!(master.window_size(), Ok(WindowSize::new(100, 30)));
    assert!(matches!(master.pending_read, PendingReadState::Idle));
}

#[test]
fn first_poll_starts_a_read_of_at_most_a_chunk() {
    let mut space = [0u8; 10000];
    let mut buf = ReadBuf::new(&mut space);
    assert_eq!(master().poll_read(&1, &mut buf), ReadPoll::Start { len: 4096 });

    let mut small = [0u8; 16];
    let mut buf = ReadBuf::new(&mut small);
    buf.put_slice(b"abc");
    let mut master = master();
    assert_eq!(master.poll_read(&1, &mut buf), ReadPoll::Start { len: 13 });
    assert_eq!(buf.filled(), b"abc");
    assert!(matches!(master.pending_read, PendingReadState::InProgress(Some(1))));
}

#[test]
fn poll_during_a_read_replaces_the_waker() {
    let mut space = [0u8; 8];
    let mut buf = ReadBuf::new(&mut space);
    let mut master = master();
    assert_eq!(master.poll_read(&1, &mut buf), ReadPoll::Start { len: 8 });
    assert_eq!(master.poll_read(&2, &mut buf), ReadPoll::Pending);
    assert_eq!(master.read_completed(Ok(vec![7])), Some(2));
    assert_eq!(master.read_completed(Ok(vec![8])), None);
}

#[test]
fn completed_read_is_handed_over_once() {
    let mut space = [0u8; 8];
    let mut buf = ReadBuf::new(&mut space);
    buf.put_slice(b">");
    let mut master = master();
    master.poll_read(&1, &mut buf);
    master.read_completed(Ok(b"hello".to_vec()));
    assert_eq!(master.poll_read(&1, &mut buf), ReadPoll::Ready(Ok(())));
    assert_eq!(buf.filled(), b">hello");
    assert!(matches!(master.pending_read, PendingReadState::Idle));
    assert_eq!(master.poll_read(&1, &mut buf), ReadPoll::Start { len: 2 });
}

#[test]
fn what_does_not_fit_is_cut_off() {
    let mut space = [0u8; 3];
    let mut buf = ReadBuf::new(&mut space);
    let mut master = master();
    master.read_completed(Ok(b"hello".to_vec()));
    assert_eq!(master.poll_read(&1, &mut buf), ReadPoll::Ready(Ok(())));
    assert_eq!(buf.filled(), b"hel");
    assert_eq!(buf.remaining(), 0);
}

#[test]
fn handed_over_bytes_leave_the_spare_ones_behind() {
    let mut space = *b"abcdef";
    let mut buf = ReadBuf::new(&mut space);
    buf.advance(1);
    let mut master = master();
    master.read_completed(Ok(b"xy".to_vec()));
    assert_eq!(master.poll_read(&1, &mut buf), ReadPoll::Ready(Ok(())));
    assert_eq!(buf.filled(), b"axy");
    assert_eq!(buf.initialized(), b"axydef");
}

#[test]
fn copied_bytes_leave_all_that_fits_spare() {
    let mut space = [std::mem::MaybeUninit::new(7u8); 6];
    let mut buf = ReadBuf::uninit(&mut space);
    buf.put_slice(b"abc");
    buf.set_filled(0);
    assert_eq!(copy_into(&mut buf, b"x"), 1);
    assert_eq!(buf.filled(), b"x");
    assert_eq!(buf.initialized().len(), 6);
    assert_eq!(buf.initialized()[..3], *b"xbc");
    assert_eq!(copy_into(&mut buf, b"123456789"), 5);
    assert_eq!(buf.filled(), b"x12345");
    assert_eq!(copy_into(&mut buf, b"!"), 0);
}

#[test]
fn empty_result_is_the_end() {
    let mut space = [0u8; 8];
    let mut buf = ReadBuf::new(&mut space);
    let mut master = master();
    master.read_completed(Ok(Vec::new()));
    assert_eq!(master.poll_read(&1, &mut buf), ReadPoll::Ready(Ok(())));
    assert_eq!(buf.filled(), b"");
}

#[test]
fn failed_read_is_reported() {
    let mut space = [0u8; 8];
    let mut buf = ReadBuf::new(&mut space);
    let mut master = master();
    master.read_completed(Err(IoError::Os(5)));
    assert_eq!(master.poll_read(&1, &mut buf), ReadPoll::Ready(Err(IoError::Os(5))));
    assert!(matches!(master.pending_read, PendingReadState::Idle));
}

#[test]
fn exit_refuses_writes_and_keeps_reads() {
    let mut master = master();
    assert_eq!(master.poll_write(b"ls\r"), Ok(3));
    master.read_completed(Ok(b"bye".to_vec()));
    master.open_flag().clear();
    assert!(!master.is_open());
    assert_eq!(
        master.poll_write(b"ls\r"),
        Err(IoError::Custom { kind: ErrorKind::BrokenPipe, message: "PTY closed".to_string() })
    );
    let mut space = [0u8; 8];
    let mut buf = ReadBuf::new(&mut space);
    assert_eq!(master.poll_read(&1, &mut buf), ReadPoll::Ready(Ok(())));
    assert_eq!(buf.filled(), b"bye");
    assert_eq!(master.poll_read(&1, &mut buf), ReadPoll::Start { len: 5 });
}

#[test]
fn close_and_shutdown_clear_the_flag() {
    let mut closed = master();
    assert_eq!(closed.close(), Ok(()));
    assert!(!closed.is_open());
    let mut shut = master();
    assert_eq!(shut.poll_flush(), Ok(()));
    assert!(shut.is_open());
    assert_eq!(shut.poll_shutdown(), Ok(()));
    assert!(!shut.is_open());
    assert!(shut.poll_write(b"").is_err());
}

#[test]
fn resize_goes_through_the_callback() {
    let seen: Cell<Option<WindowSize>> = Cell::new(None);
    let mut master: WindowsPtyMaster<_, u32> = WindowsPtyMaster::new(
        |size: WindowSize| {
            seen.set(Some(size));
            if size.cols == 0 {
                Err(PtyError::Resize(IoError::Os(87)))
            } else {
                Ok(())
            }
        },
        WindowSize::new(80, 25),
    );
    assert_eq!(master.resize(WindowSize::new(0, 50)), Err(PtyError::Resize(IoError::Os(87))));
    assert_eq!(master.window_size(), Ok(WindowSize::new(80, 25)));
    assert_eq!(master.resize(WindowSize::new(132, 50)), Ok(()));
    assert_eq!(seen.get(), Some(WindowSize::new(132, 50)));
    assert_eq!(master.window_size(), Ok(WindowSize::new(132, 50)));
    assert_eq!(master.resize(WindowSize::new(0, 50)), Err(PtyError::Resize(IoError::Os(87))));
    assert_eq!(seen.get(), Some(WindowSize::new(0, 50)));
    assert_eq!(master.window_size(), Ok(WindowSize::new(132, 50)));
    assert!(master.is_open());
    assert!(matches!(master.pending_read, PendingReadState::Idle));
}

#[test]
fn resize_without_a_callback_is_unsupported() {
    let mut master = Master::without_resize();
    assert_eq!(master.window_size(), Ok(WindowSize::default()));
    assert!(master.is_open());
    assert_eq!(
        master.resize(WindowSize::new(80, 24)),
        Err(PtyError::Resize(IoError::Custom {
            kind: ErrorKind::Unsupported,
            message: "resize not supported".to_string(),
        }))
    );
    assert_eq!(
        master.resizer(),
        Err(PtyError::Resize(IoError::Custom {
            kind: ErrorKind::Unsupported,
            message: "resize not supported".to_string(),
        }))
    );
    assert_eq!(master.window_size(), Ok(WindowSize::default()));
}

#[test]
fn outcome_of_a_resize_decides_the_size() {
    let mut master: WindowsPtyMaster<&str, u32> =
        WindowsPtyMaster::new("resizer", WindowSize::new(80, 25));
    assert_eq!(master.resizer(), Ok(&"resizer"));
    assert_eq!(master.resized(WindowSize::new(1, 1), Err("refused")), Err("refused"));
    assert_eq!(master.window_size(), Ok(WindowSize::new(80, 25)));
    assert_eq!(master.resized(WindowSize::new(90, 40), Ok::<(), &str>(())), Ok(()));
    assert_eq!(master.resized(WindowSize::new(2, 2), Err("refused")), Err("refused"));
    assert_eq!(master.window_size(), Ok(WindowSize::new(90, 40)));
}

#[test]
fn read_file_replies() {
    assert_eq!(read_file_result(1, vec![1, 2, 3, 4], 3, 0), Ok(vec![1, 2, 3]));
    assert_eq!(read_file_result(1, vec![1, 2], 9, 0), Ok(vec![1, 2]));
    assert_eq!(read_file_result(1, vec![1, 2], 0, 109), Ok(vec![]));
    assert_eq!(ERROR_BROKEN_PIPE, 109);
    assert_eq!(read_file_result(0, vec![1, 2], 2, 109), Ok(vec![]));
    assert_eq!(read_file_result(0, vec![1, 2], 2, 6), Err(IoError::Os(6)));
}

#[test]
fn background_task_replies() {
    assert_eq!(joined_read(Ok(Ok(vec![1]))), Ok(vec![1]));
    assert_eq!(joined_read(Ok(Err(IoError::Os(6)))), Err(IoError::Os(6)));
    assert_eq!(
        joined_read(Err("task was cancelled".to_string())),
        Err(IoError::Custom { kind: ErrorKind::Other, message: "task was cancelled".to_string() })
    );
}

#[test]
fn write_file_replies() {
    assert_eq!(write_file_result(1, 12, 5), Ok(12));
    assert_eq!(write_file_result(0, 12, 5), Err(IoError::Os(5)));
}

#[test]
fn output_arrives_in_order_over_several_reads() {
    let mut master = master();
    let mut received: Vec<u8> = Vec::new();
    for chunk in [&b"one "[..], &b"two "[..], &b"three"[..]] {
        let mut space = [0u8; 32];
        let mut buf = ReadBuf::new(&mut space);
        assert_eq!(master.poll_read(&1, &mut buf), ReadPoll::Start { len: 32 });
        assert_eq!(master.read_completed(Ok(chunk.to_vec())), Some(1));
        assert_eq!(master.poll_read(&1, &mut buf), ReadPoll::Ready(Ok(())));
        received.extend_from_slice(buf.filled());
    }
    assert_eq!(received, b"one two three");
}
