# rust_pty

The decisions of an asynchronous pseudo-terminal library, verified with Verus, and
the system calls around them.

- `src/` is the verified library. It makes no system call. An operation that takes
  several calls names one at a time and is told how each ended; it ends in a result.
  - `unix` retries the allocation of a master and orders the steps of a spawn;
    `unix::pty` holds the master, `unix::macos_drain` the background drain of macOS.
  - `windows::async_adapter` holds the `ConPTY` master and its background read.
  - `config`, `error`, `open_flag` and `platform` are the values they share.
  - `read_buf` and `text` hold what is trusted of `tokio` and of the standard
    library.
  - The proof functions named `law_...`, most of them in the modules named `history`,
    state what holds over whole runs.
- `app/` performs the calls with `rustix`, `tokio`, `libc` and `windows-sys`.
- `tests/` runs the library on given replies.
