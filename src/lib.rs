//! File-system system calls for a guest program run by an interpreter.
//!
//! The guest names open files by small integer descriptors and passes pointers into
//! its own memory; the shims decode those arguments, keep the descriptor table, and
//! write metadata back in the exact layout of the target platform's structures. The
//! host file system itself is reached by the caller: a call decodes to either an
//! immediate result or one host operation, whose outcome a completion function turns
//! into the guest's return value and last error.
//!
//! - `fd_table`: descriptor allocation, lowest free descriptor first.
//! - `memory`: the guest memory region and packed writes of scalar fields.
//! - `platform`: per-platform constants and C type widths.
//! - `metadata`: host metadata normalised, and the `stat` / `statx` layouts.
//! - `shim`: one entry point per system call, with its completion.
//! - `laws`: properties that relate several calls.

pub mod fd_table;
pub mod laws;
pub mod memory;
pub mod metadata;
pub mod platform;
pub mod shim;
