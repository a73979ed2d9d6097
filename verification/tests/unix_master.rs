use rust_pty::config::{WindowSize, Winsize};
use rust_pty::error::{Errno, ErrorKind, IoError, PtyError};
use rust_pty::platform::Platform;
use rust_pty::read_buf::read_space;
use rust_pty::unix::macos_drain::DrainStart;
use rust_pty::unix::pty::{
    open_slave, read_transferred, slave_opened, transfer_ready, write_transferred, OpenNext,
    OpenReply, OpenStep, Opening, PollStep, PtyFlags, Readiness, ResizeReply, UnixPtyMaster,
};
use tokio::io::ReadBuf;

const FD_CLOEXEC: u32 = 1;

/// Answers every step with success, and notes the steps.
fn allocate(platform: Platform, name: &[u8], had: u32) -> (Vec<String>, OpenNext) {
    let mut steps: Vec<String> = Vec::new();
    let mut opening: Opening = UnixPtyMaster::open(platform, FD_CLOEXEC);
    loop {
        steps.push(format!("{:?}", opening.step));
        let reply = match &opening.step {
            OpenStep::GetFdFlags => OpenReply::FdFlags(had),
            OpenStep::SlaveName => OpenReply::SlaveName(name.to_vec()),
            _ => OpenReply::Done,
        };
        match opening.next(Ok(reply)) {
            OpenNext::Continue(next) => opening = next,
            end => return (steps, end),
        }
    }
}

fn opened(platform: Platform) -> (UnixPtyMaster, String) {
    match allocate(platform, b"/dev/pts/5", 0).1 {
        OpenNext::Opened(master, path) => (master, path),
        other => panic!("{:?}", other),
    }
}

#[test]
fn open_pty() {
    let (master, slave_path) = opened(Platform::Linux);
    assert!(master.is_open());
    assert!(slave_path.starts_with("/dev/pts/"));
    assert_eq!(slave_path, "/dev/pts/5");
    for name in ["/dev/ttys003", "/dev/ttyp1", "/dev/pty4"] {
        match allocate(Platform::MacOs, name.as_bytes(), 0).1 {
            OpenNext::Opened(master, path) => {
                assert!(master.is_open());
                assert_eq!(path, name);
            }
            other => panic!("{:?}", other),
        }
    }
}

#[test]
fn master_is_close_on_exec() {
    let linux = UnixPtyMaster::open(Platform::Linux, FD_CLOEXEC);
    assert_eq!(
        linux.step,
        OpenStep::OpenDevice(PtyFlags { read_write: true, no_ctty: true, close_on_exec: true })
    );
    for platform in [Platform::MacOs, Platform::OtherUnix] {
        let opening = UnixPtyMaster::open(platform, FD_CLOEXEC);
        assert_eq!(
            opening.step,
            OpenStep::OpenDevice(PtyFlags {
                read_write: true,
                no_ctty: true,
                close_on_exec: false
            })
        );
        let steps = allocate(platform, b"/dev/ttys1", 6).0;
        assert_eq!(steps[1], "GetFdFlags");
        assert_eq!(steps[2], "SetFdFlags { flags: 7 }");
    }
}

#[test]
fn allocation_takes_the_steps_of_each_platform() {
    let linux = allocate(Platform::Linux, b"/p", 0).0;
    assert_eq!(
        linux[1..],
        [
            "Grant",
            "Unlock",
            "SlaveName",
            "SetNonblocking { slave_path: \"/p\" }",
            "Register { slave_path: \"/p\" }"
        ]
    );
    let macos = allocate(Platform::MacOs, b"/p", 0).0;
    assert_eq!(
        macos[3..],
        ["Grant", "Unlock", "SlaveName", "Register { slave_path: \"/p\" }"]
    );
    assert_eq!(allocate(Platform::OtherUnix, b"/p", 0).0.len(), 8);
}

#[test]
fn every_failed_step_fails_the_allocation() {
    for platform in [Platform::Linux, Platform::MacOs, Platform::OtherUnix] {
        let total = allocate(platform, b"/p", 0).0.len();
        for failing in 0..total {
            let mut opening = UnixPtyMaster::open(platform, FD_CLOEXEC);
            let mut done = 0;
            let end = loop {
                let result = if done == failing {
                    Err(IoError::Os(6))
                } else {
                    Ok(match &opening.step {
                        OpenStep::GetFdFlags => OpenReply::FdFlags(0),
                        OpenStep::SlaveName => OpenReply::SlaveName(b"/p".to_vec()),
                        _ => OpenReply::Done,
                    })
                };
                match opening.next(result) {
                    OpenNext::Continue(next) => opening = next,
                    end => break end,
                }
                done += 1;
            };
            assert_eq!(end, OpenNext::Failed(PtyError::Create(IoError::Os(6))));
            assert_eq!(done, failing);
        }
    }
}

#[test]
fn slave_path_must_be_text() {
    let error = IoError::Custom {
        kind: ErrorKind::InvalidData,
        message: "invalid slave path encoding".to_string(),
    };
    assert_eq!(
        allocate(Platform::Linux, &[47, 0xff], 0).1,
        OpenNext::Failed(PtyError::Create(error))
    );
}

#[test]
fn slave_name_replies() {
    let (master, _) = opened(Platform::Linux);
    assert_eq!(master.slave_name(Ok("/dev/\u{e9}".as_bytes().to_vec())), Ok("/dev/\u{e9}".into()));
    assert_eq!(master.slave_name(Err(25)), Err(PtyError::Io(IoError::Os(25))));
    assert_eq!(
        master.slave_name(Ok(vec![0xc3])),
        Err(PtyError::Io(IoError::Custom {
            kind: ErrorKind::InvalidData,
            message: "invalid slave path encoding".to_string(),
        }))
    );
}

#[test]
fn window_size_operations() {
    let (master, _slave_path) = opened(Platform::Linux);
    let size = WindowSize::new(120, 40);
    let winsize = master.set_window_size(size).unwrap();
    assert_eq!(winsize, Winsize { ws_row: 40, ws_col: 120, ws_xpixel: 0, ws_ypixel: 0 });
    assert!(master.window_size_set(ResizeReply::Termios(Ok(()))).is_ok());

    assert!(master.get_window_size().is_ok());
    let retrieved = master.window_size_got(Ok(winsize)).unwrap();
    assert_eq!(retrieved.cols, 120);
    assert_eq!(retrieved.rows, 40);
}

#[test]
fn window_size_errors() {
    let (master, _) = opened(Platform::MacOs);
    assert_eq!(
        master.window_size_set(ResizeReply::Ioctl { result: -1, last_error: 25 }),
        Err(PtyError::Resize(IoError::Os(25)))
    );
    assert_eq!(master.window_size_set(ResizeReply::Ioctl { result: 0, last_error: 25 }), Ok(()));
    assert_eq!(
        master.window_size_set(ResizeReply::Termios(Err(22))),
        Err(PtyError::Resize(IoError::Os(22)))
    );
    assert_eq!(
        master.window_size_got(Err(5)),
        Err(PtyError::GetAttributes(IoError::Os(5)))
    );
}

#[test]
fn close_pty() {
    let (mut master, _) = opened(Platform::Linux);
    assert!(master.is_open());
    master.close().unwrap();
    assert!(!master.is_open());
}

#[test]
fn closed_master_refuses() {
    let (mut master, _) = opened(Platform::Linux);
    assert_eq!(master.poll_read(), PollStep::AwaitReady { clear_ready: false });
    assert_eq!(master.poll_write(), PollStep::AwaitReady { clear_ready: false });
    assert_eq!(master.poll_flush(), Ok(()));
    assert_eq!(master.poll_shutdown(), Ok(()));
    assert_eq!(master.poll_read(), PollStep::Finished(Ok(())));
    assert_eq!(
        master.poll_write(),
        PollStep::Finished(Err(IoError::Custom {
            kind: ErrorKind::BrokenPipe,
            message: "PTY closed".to_string(),
        }))
    );
    assert_eq!(master.set_window_size(WindowSize::new(1, 1)), Err(PtyError::Closed));
    assert_eq!(master.resize(WindowSize::new(1, 1)), Err(PtyError::Closed));
    assert_eq!(master.get_window_size(), Err(PtyError::Closed));
    assert_eq!(master.window_size(), Err(PtyError::Closed));
}

#[test]
fn readiness_decides_the_transfer() {
    assert_eq!(transfer_ready::<()>(Readiness::Ready), PollStep::Transfer);
    assert_eq!(transfer_ready::<()>(Readiness::Pending), PollStep::Pending);
    assert_eq!(
        transfer_ready::<usize>(Readiness::Failed(IoError::Os(5))),
        PollStep::Finished(Err(IoError::Os(5)))
    );
}

#[test]
fn read_bytes_become_filled() {
    let mut space = [0u8; 8];
    let mut buf = ReadBuf::new(&mut space);
    buf.put_slice(b"a");
    let target = read_space(&mut buf);
    assert_eq!(target.len(), 7);
    target[..3].copy_from_slice(b"bcd");
    assert_eq!(buf.filled(), b"a");
    assert_eq!(read_transferred(&mut buf, Ok(3)), PollStep::Finished(Ok(())));
    assert_eq!(buf.filled(), b"abcd");
    assert_eq!(read_transferred(&mut buf, Ok(0)), PollStep::Finished(Ok(())));
    assert_eq!(buf.filled(), b"abcd");
}

#[test]
fn transient_failures_are_tried_again() {
    let mut space = [0u8; 8];
    let mut buf = ReadBuf::new(&mut space);
    assert_eq!(
        read_transferred(&mut buf, Err(Errno::Again)),
        PollStep::AwaitReady { clear_ready: true }
    );
    assert_eq!(
        read_transferred(&mut buf, Err(Errno::Interrupted)),
        PollStep::AwaitReady { clear_ready: false }
    );
    assert_eq!(
        read_transferred(&mut buf, Err(Errno::Other(5))),
        PollStep::Finished(Err(IoError::Os(5)))
    );
    assert_eq!(buf.filled(), b"");
    assert_eq!(write_transferred(Ok(9)), PollStep::Finished(Ok(9)));
    assert_eq!(write_transferred(Ok(0)), PollStep::Finished(Ok(0)));
    assert_eq!(
        write_transferred(Err(Errno::Again)),
        PollStep::AwaitReady { clear_ready: true }
    );
    assert_eq!(
        write_transferred(Err(Errno::Interrupted)),
        PollStep::AwaitReady { clear_ready: false }
    );
    assert_eq!(
        write_transferred(Err(Errno::Other(32))),
        PollStep::Finished(Err(IoError::Os(32)))
    );
}

#[test]
fn drain_starts_once() {
    let (mut master, _) = opened(Platform::MacOs);
    assert_eq!(master.start_read_drain(), Some(DrainStart::Duplicate));
    assert_eq!(
        master.drain_started(Err(IoError::Os(24))),
        Err(PtyError::Io(IoError::Os(24)))
    );
    assert_eq!(master.poll_read(), PollStep::AwaitReady { clear_ready: false });
    assert_eq!(master.start_read_drain(), Some(DrainStart::Duplicate));
    assert_eq!(master.drain_started(Ok(())), Ok(()));
    assert_eq!(master.start_read_drain(), None);
    assert_eq!(master.poll_read(), PollStep::FromDrain);
    master.close().unwrap();
    assert_eq!(master.poll_read(), PollStep::Finished(Ok(())));
}

#[test]
fn slave_is_opened_without_leaking() {
    let request = open_slave("/dev/pts/5");
    assert_eq!(request.path, "/dev/pts/5");
    assert_eq!(
        request.flags,
        PtyFlags { read_write: true, no_ctty: true, close_on_exec: true }
    );
    assert_eq!(request.mode, 0);
    assert_eq!(slave_opened(Ok(3)), Ok(3));
    assert_eq!(slave_opened::<i32>(Err(2)), Err(PtyError::Create(IoError::Os(2))));
    let (master, _) = opened(Platform::MacOs);
    assert_eq!(master.set_nonblocking(Ok(())), Ok(()));
    assert_eq!(master.set_nonblocking(Err(25)), Err(PtyError::Create(IoError::Os(25))));
}
