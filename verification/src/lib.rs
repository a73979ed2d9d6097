//! Verified logic of a cross-platform pseudo-terminal library.
//!
//! The library decides; its caller performs the system calls. An operation that
//! alternates calls and decisions is a small machine: it names the call to make,
//! takes the call's reply, and names the next one, until it ends in a result.
//!
//! - [`unix`] allocates and spawns on Unix: the retry on allocation, the order of
//!   the steps of a spawn, the Unix master and the background drain of macOS.
//! - [`windows`] holds the `ConPTY` master with its pending read.
//! - [`config`], [`error`], [`open_flag`] and [`platform`] hold the plain values they
//!   share.
//! - [`read_buf`] ties the contracts to the read buffer of `tokio`, [`text`] to the
//!   UTF-8 decoder of the standard library.

pub mod config;
pub mod error;
pub mod open_flag;
pub mod platform;
pub mod read_buf;
pub mod text;
pub mod unix;
pub mod windows;
