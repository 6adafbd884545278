//! Verified core of the syscall program kind: the host-side handle that
//! loads and invokes a program, the kernel-side context, and the generator
//! of the kernel entry point.

pub mod context;
pub mod entry_point;
pub mod link;
pub mod program;
pub mod sample;
pub mod tokens;
