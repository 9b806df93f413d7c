//! Constants of the resolver.

use vstd::prelude::*;

verus! {

/// The number of symbolic links that one resolution follows where the host
/// names no limit of its own.
pub const DEFAULT_SYMLOOP_MAX: usize = 40;

/// The number of the `openat2` system call on Linux.
pub const SYS_OPENAT2: i64 = 437;

/// The mode that `openat2` is given where the caller names none and the flags
/// create a file.
pub const DEFAULT_CREATE_MODE: u64 = 0o777;

} // verus!
