//! Guest-to-host memory translation for the alt_bn128 syscalls, the syscall
//! adapters built on it, and the pure parts of the benchmark around them.

pub mod memory;
pub mod translate;
pub mod alt_bn128;
pub mod cli;
pub mod benchmark;
pub mod significant;
