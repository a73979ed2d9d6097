//! The operating systems whose pseudo-terminals behave differently.

use vstd::prelude::*;

verus! {

/// A Unix platform, as far as pseudo-terminal handling tells them apart.
#[derive(Debug, Clone, Copy, PartialEq, Eq, Structural)]
pub enum Platform {
    /// Linux, whose `posix_openpt` takes close-on-exec atomically.
    Linux,
    /// macOS, which loses a fast child's output unless the master is drained and
    /// which rejects changes to a master whose slave was never opened.
    MacOs,
    /// FreeBSD and the other Unix-like systems.
    OtherUnix,
}

} // verus!
