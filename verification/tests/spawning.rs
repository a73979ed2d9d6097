use rust_pty::config::{WindowSize, Winsize};
use rust_pty::error::{ErrorKind, IoError, PtyError};
use rust_pty::platform::Platform;
use rust_pty::unix::{
    open_master_with_retry, NativePtySystem, RetryNext, SpawnNext, SpawnStep, Spawning,
    UnixPtySystem,
};

fn failure(code: i32) -> PtyError {
    PtyError::Create(IoError::Os(code))
}

#[test]
fn allocation_retry_happy_path() {
    let next = open_master_with_retry(0, Ok("/dev/pts/1"));
    assert_eq!(next, RetryNext::Finished(Ok("/dev/pts/1")));
}

#[test]
fn pauses_grow_and_add_up() {
    let mut failures = 0;
    let mut pauses: Vec<u64> = Vec::new();
    let result: Result<(), PtyError> = loop {
        match open_master_with_retry(failures, Err(failure(failures as i32))) {
            RetryNext::Backoff { failures: so_far, millis } => {
                failures = so_far;
                pauses.push(millis);
            }
            RetryNext::Finished(result) => break result,
        }
    };
    assert_eq!(pauses, [2, 4, 6, 8, 10, 12, 14, 16, 18]);
    assert_eq!(pauses.iter().sum::<u64>(), 90);
    assert_eq!(result, Err(failure(9)));
}

#[test]
fn success_on_the_last_try_counts() {
    assert_eq!(
        open_master_with_retry::<u8>(8, Err(failure(6))),
        RetryNext::Backoff { failures: 9, millis: 18 }
    );
    assert_eq!(open_master_with_retry(9, Ok(1u8)), RetryNext::Finished(Ok(1)));
    assert_eq!(
        open_master_with_retry::<u8>(9, Err(failure(6))),
        RetryNext::Finished(Err(failure(6)))
    );
}

fn steps(platform: Platform) -> Vec<SpawnStep> {
    let mut steps: Vec<SpawnStep> = Vec::new();
    let mut next = UnixPtySystem::spawn(platform, Ok("/dev/pts/5".to_string()), (132, 50));
    loop {
        match next {
            SpawnNext::Continue(Spawning { window_size, step }) => {
                steps.push(copy(&step));
                next = Spawning { window_size, step }.next(Ok(()));
            }
            SpawnNext::Spawned => return steps,
            SpawnNext::Failed(error) => panic!("{:?}", error),
        }
    }
}

fn copy(step: &SpawnStep) -> SpawnStep {
    match step {
        SpawnStep::StartReadDrain { slave_path } => {
            SpawnStep::StartReadDrain { slave_path: slave_path.clone() }
        }
        SpawnStep::OpenSlave { slave_path } => {
            SpawnStep::OpenSlave { slave_path: slave_path.clone() }
        }
        SpawnStep::SetNonblocking => SpawnStep::SetNonblocking,
        SpawnStep::SetWindowSize(size) => SpawnStep::SetWindowSize(*size),
        SpawnStep::SpawnChild => SpawnStep::SpawnChild,
    }
}

fn common_steps() -> Vec<SpawnStep> {
    vec![
        SpawnStep::OpenSlave { slave_path: "/dev/pts/5".to_string() },
        SpawnStep::SetNonblocking,
        SpawnStep::SetWindowSize(WindowSize::new(132, 50)),
        SpawnStep::SpawnChild,
    ]
}

#[test]
fn spawn_takes_its_steps_in_order() {
    assert_eq!(steps(Platform::Linux), common_steps());
    assert_eq!(steps(Platform::OtherUnix), common_steps());
    let mut macos = vec![SpawnStep::StartReadDrain { slave_path: "/dev/pts/5".to_string() }];
    macos.extend(common_steps());
    assert_eq!(steps(Platform::MacOs), macos);
}

#[test]
fn any_error_ends_a_spawn() {
    let error = PtyError::Create(IoError::Simple(ErrorKind::Other));
    assert_eq!(
        NativePtySystem::spawn(Platform::Linux, Err(failure(6)), (80, 24)),
        SpawnNext::Failed(failure(6))
    );
    for step in steps(Platform::MacOs) {
        let spawning = Spawning { window_size: WindowSize::new(132, 50), step };
        let failed = PtyError::Create(IoError::Simple(ErrorKind::Other));
        match spawning.next(Err(failed)) {
            SpawnNext::Failed(returned) => assert_eq!(returned, error),
            other => panic!("{:?}", other),
        }
    }
}

#[test]
fn window_sizes() {
    assert_eq!(WindowSize::default(), WindowSize { cols: 80, rows: 24, xpixel: 0, ypixel: 0 });
    assert_eq!(WindowSize::from((3, 4)), WindowSize::new(3, 4));
    let size = WindowSize { cols: 1, rows: 2, xpixel: 3, ypixel: 4 };
    let winsize = Winsize { ws_row: 2, ws_col: 1, ws_xpixel: 3, ws_ypixel: 4 };
    assert_eq!(size.to_winsize(), winsize);
    assert_eq!(WindowSize::from_winsize(winsize), size);
}
