//! Pamplemouche-OS: the verified core of a small x86-64 micro-kernel and its
//! Darwin compatibility layer.
pub mod darwin;
pub mod macho;
pub mod ipc;
pub mod keyboard;
pub mod scheduler;
pub mod vga;
pub mod interrupts;
pub mod memory;
