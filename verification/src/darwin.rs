//! Darwin/XNU syscall compatibility layer.
//!
//! Translates Darwin BSD syscall numbers (as used by macOS binaries) into
//! Pamplemouche-OS kernel requests.
pub mod syscalls;

pub use syscalls::{darwin_syscall, DarwinSyscallResult, SyscallNumber};
