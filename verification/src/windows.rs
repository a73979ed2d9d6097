//! Pseudo-terminals on Windows.

pub mod async_adapter;
