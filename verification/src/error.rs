//! The closed set of failures shared by both platform backends and the facade.

use vstd::prelude::*;

verus! {

/// The platform's own account of a failed kernel call, carried as the number
/// the platform reported.
#[derive(Clone, Copy, Debug, PartialEq, Eq, Structural)]
pub enum Cause {
    /// The thread's error number after a failed POSIX call.
    Errno(i32),
    /// The calling thread's last-error code after a failed Windows call.
    LastError(u32),
}

/// Everything that can go wrong with a named semaphore.
#[derive(Clone, Copy, Debug, PartialEq, Eq, Structural)]
pub enum Error {
    /// The name cannot be handed to the kernel: it holds a zero byte.
    InvalidName,
    /// A count does not fit the platform's count representation.
    InappropriateCount,
    /// The create-or-open kernel call failed.
    CreateFailed(Cause),
    /// A wait failed for a reason other than contention or timeout.
    WaitFailed(Cause),
    /// A non-blocking wait found the count at zero.
    WouldBlock,
    /// A bounded wait reached its deadline.
    WaitTimeout,
    /// The duration of a bounded wait cannot be handed to the kernel.
    InvalidWaitTimeout,
    /// The release kernel call failed.
    PostFailed(Cause),
    /// The platform has no kernel call for a bounded wait.
    Unsupported,
    /// A state that documented platform behaviour rules out.
    Unexpected,
}

} // verus!
