//! The Windows backend: `CreateSemaphoreW`, `WaitForSingleObject`,
//! `ReleaseSemaphore` and `CloseHandle`, as calls to make and answers to
//! judge.

use crate::backend::contains_nul;
use crate::backend::has_nul;
use crate::backend::Operation;
use crate::backend::RawBackend;
use crate::backend::Step;
use crate::error::Cause;
use crate::error::Error;
use crate::time::duration_secs;
use crate::time::duration_subsec_nanos;
use crate::time::millis_covering;
use crate::time::nanos_of;
use crate::time::NANOS_PER_MILLI;
use std::time::Duration;
use vstd::prelude::*;
use vstd::string::StringSliceAdditionalSpecFns;

verus! {

/// The wait ended because the semaphore was signalled.
pub const WAIT_OBJECT_0: u32 = 0x0000_0000;

/// The wait ended on an object whose owner had ended. A semaphore has no
/// owner, so this is a wait that succeeded.
pub const WAIT_ABANDONED: u32 = 0x0000_0080;

/// The wait ended because its time was up.
pub const WAIT_TIMEOUT: u32 = 0x0000_0102;

/// The wait failed.
pub const WAIT_FAILED: u32 = 0xFFFF_FFFF;

/// The timeout that stands for no timeout.
pub const INFINITE: u32 = 0xFFFF_FFFF;

/// A kernel call of the Windows backend.
#[derive(Debug, PartialEq, Eq)]
pub enum Call {
    /// `CreateSemaphoreW` without security attributes: opens the semaphore of
    /// this name, and creates it with these counts where there is none.
    CreateSemaphore { name: String, initial_count: i32, maximum_count: i32 },
    /// `WaitForSingleObject` on this handle, for at most `milliseconds`.
    WaitForSingleObject { handle: usize, milliseconds: u32 },
    /// `ReleaseSemaphore` on this handle by `release_count`, without asking
    /// for the previous count.
    ReleaseSemaphore { handle: usize, release_count: i32 },
    /// `CloseHandle` on this handle. What it returns is of no interest: the
    /// system closes every handle of a process that ends.
    CloseHandle { handle: usize },
}

/// What a kernel call of the Windows backend gave back. `last_error` is the
/// calling thread's last-error code, read right after the call.
#[derive(Clone, Copy, Debug, PartialEq, Eq, Structural)]
pub enum Reply {
    /// `CreateSemaphoreW` gave this handle.
    Created { handle: usize },
    /// `CreateSemaphoreW` gave no handle.
    CreateFailed { last_error: u32 },
    /// `WaitForSingleObject` gave `event`.
    Waited { event: u32, last_error: u32 },
    /// `ReleaseSemaphore` said whether it succeeded.
    Released { ok: bool, last_error: u32 },
}

/// What a failed wait is reported as: the last-error code is the cause, and
/// a failure without one is a state that should not be.
pub open spec fn wait_failure(last_error: u32) -> Error {
    if last_error != 0 {
        Error::WaitFailed(Cause::LastError(last_error))
    } else {
        Error::Unexpected
    }
}

/// What the event of a wait with a timeout means, `on_timeout` being what the
/// time running out is reported as.
pub open spec fn wait_event_means(event: u32, last_error: u32, on_timeout: Error) -> Result<
    (),
    Error,
> {
    if event == WAIT_OBJECT_0 || event == WAIT_ABANDONED {
        Ok(())
    } else if event == WAIT_FAILED {
        Err(wait_failure(last_error))
    } else if event == WAIT_TIMEOUT {
        Err(on_timeout)
    } else {
        Err(Error::Unexpected)
    }
}

/// The timeout of a bounded wait of so many seconds and nanoseconds: the
/// milliseconds that cover them, so that the wait is never cut short. There
/// is none where they reach `INFINITE`, which the kernel reads as no timeout:
/// a bounded wait is never handed on as a wait without end.
pub open spec fn timeout_of(secs: u64, nanos: u32) -> Result<u32, Error> {
    if millis_covering(secs, nanos) >= INFINITE {
        Err(Error::InvalidWaitTimeout)
    } else {
        Ok(millis_covering(secs, nanos) as u32)
    }
}

/// Computes the timeout of a bounded wait.
pub fn wait_timeout(secs: u64, nanos: u32) -> (r: Result<u32, Error>)
    ensures
        r == timeout_of(secs, nanos),
{
    let rest: u64 = (nanos as u64 + (NANOS_PER_MILLI as u64 - 1)) / (NANOS_PER_MILLI as u64);
    let millis: u128 = secs as u128 * 1000 + rest as u128;
    if millis >= INFINITE as u128 {
        return Err(Error::InvalidWaitTimeout);
    }
    Ok(millis as u32)
}

fn failed_wait(last_error: u32) -> (e: Error)
    ensures
        e == wait_failure(last_error),
{
    if last_error != 0 {
        Error::WaitFailed(Cause::LastError(last_error))
    } else {
        Error::Unexpected
    }
}

fn wait_event(event: u32, last_error: u32, on_timeout: Error) -> (r: Result<(), Error>)
    ensures
        r == wait_event_means(event, last_error, on_timeout),
{
    if event == WAIT_OBJECT_0 || event == WAIT_ABANDONED {
        Ok(())
    } else if event == WAIT_FAILED {
        Err(failed_wait(last_error))
    } else if event == WAIT_TIMEOUT {
        Err(on_timeout)
    } else {
        Err(Error::Unexpected)
    }
}

/// The Windows backend: one handle to a semaphore object.
#[derive(Debug)]
pub struct RawNamedSemaphore {
    handle: usize,
}

impl RawNamedSemaphore {
    /// What a wait without timeout having answered means: it succeeded
    /// unless the kernel said that it failed.
    pub open spec fn waited(&self, reply: Reply) -> Result<(), Error> {
        match reply {
            Reply::Waited { event, last_error } => if event == WAIT_FAILED {
                Err(wait_failure(last_error))
            } else {
                Ok(())
            },
            _ => Err(Error::Unexpected),
        }
    }

    /// What a bounded wait having answered means.
    pub open spec fn timed_waited(&self, reply: Reply) -> Result<(), Error> {
        match reply {
            Reply::Waited { event, last_error } => wait_event_means(
                event,
                last_error,
                Error::WaitTimeout,
            ),
            _ => Err(Error::Unexpected),
        }
    }

    /// What a wait with a timeout of zero having answered means.
    pub open spec fn try_waited(&self, reply: Reply) -> Result<(), Error> {
        match reply {
            Reply::Waited { event, last_error } => wait_event_means(
                event,
                last_error,
                Error::WouldBlock,
            ),
            _ => Err(Error::Unexpected),
        }
    }

    /// What `ReleaseSemaphore` having answered means.
    pub open spec fn posted(&self, reply: Reply) -> Result<(), Error> {
        match reply {
            Reply::Released { ok, last_error } => if ok {
                Ok(())
            } else {
                Err(Error::PostFailed(Cause::LastError(last_error)))
            },
            _ => Err(Error::Unexpected),
        }
    }

    /// What an answer means for an operation.
    pub open spec fn judged(&self, op: Operation, reply: Reply) -> Result<(), Error> {
        match op {
            Operation::Wait => self.waited(reply),
            Operation::TimedWait(_) => self.timed_waited(reply),
            Operation::TryWait => self.try_waited(reply),
            Operation::Post => self.posted(reply),
        }
    }

    /// Judges the answer of a wait without timeout.
    pub fn wait(&self, reply: Reply) -> (r: Result<(), Error>)
        ensures
            r == self.waited(reply),
    {
        match reply {
            Reply::Waited { event, last_error } => {
                if event == WAIT_FAILED {
                    Err(failed_wait(last_error))
                } else {
                    Ok(())
                }
            },
            _ => Err(Error::Unexpected),
        }
    }

    /// Judges the answer of a bounded wait: signalled and abandoned are
    /// success, the time running out is `WaitTimeout`.
    pub fn timedwait(&self, reply: Reply) -> (r: Result<(), Error>)
        ensures
            r == self.timed_waited(reply),
    {
        match reply {
            Reply::Waited { event, last_error } => wait_event(
                event,
                last_error,
                Error::WaitTimeout,
            ),
            _ => Err(Error::Unexpected),
        }
    }

    /// Judges the answer of a wait with a timeout of zero: signalled and
    /// abandoned are success, the time running out is `WouldBlock`.
    pub fn try_wait(&self, reply: Reply) -> (r: Result<(), Error>)
        ensures
            r == self.try_waited(reply),
    {
        match reply {
            Reply::Waited { event, last_error } => wait_event(event, last_error, Error::WouldBlock),
            _ => Err(Error::Unexpected),
        }
    }

    /// Judges the answer of `ReleaseSemaphore`.
    pub fn post(&self, reply: Reply) -> (r: Result<(), Error>)
        ensures
            r == self.posted(reply),
    {
        match reply {
            Reply::Released { ok, last_error } => {
                if ok {
                    Ok(())
                } else {
                    Err(Error::PostFailed(Cause::LastError(last_error)))
                }
            },
            _ => Err(Error::Unexpected),
        }
    }
}

impl RawBackend for RawNamedSemaphore {
    type Call = Call;

    type Reply = Reply;

    /// A name obeys the rule unless it holds a zero byte. Its length is the
    /// kernel's to judge, and so is the empty name.
    open spec fn is_valid_name(name: &str) -> bool {
        !contains_nul(name.spec_bytes())
    }

    /// A name that breaks the rule is refused, then an initial value or a
    /// maximum that does not fit a signed 32-bit count.
    open spec fn create_refusal(name: &str, initial_value: u32, max_value: u32) -> Option<Error> {
        if !Self::is_valid_name(name) {
            Some(Error::InvalidName)
        } else if initial_value > i32::MAX || max_value > i32::MAX {
            Some(Error::InappropriateCount)
        } else {
            None
        }
    }

    open spec fn is_create_call(
        call: Call,
        name: &str,
        initial_value: u32,
        max_value: u32,
    ) -> bool {
        &&& call matches Call::CreateSemaphore { name: call_name, initial_count, maximum_count }
        &&& call_name@ == name@
        &&& initial_count == initial_value
        &&& maximum_count == max_value
    }

    closed spec fn handle(&self) -> usize {
        self.handle
    }

    open spec fn opened(reply: Reply) -> Result<usize, Error> {
        match reply {
            Reply::Created { handle } => Ok(handle),
            Reply::CreateFailed { last_error } => Err(
                Error::CreateFailed(Cause::LastError(last_error)),
            ),
            _ => Err(Error::Unexpected),
        }
    }

    /// A wait without timeout waits for `INFINITE`, a non-blocking wait for
    /// zero milliseconds, and a release is by exactly one.
    open spec fn started(&self, op: Operation) -> Step<Call> {
        match op {
            Operation::Wait => Step::Call(
                Call::WaitForSingleObject { handle: self.handle(), milliseconds: INFINITE },
            ),
            Operation::TimedWait(dur) => match timeout_of(
                duration_secs(dur),
                duration_subsec_nanos(dur),
            ) {
                Ok(milliseconds) => Step::Call(
                    Call::WaitForSingleObject { handle: self.handle(), milliseconds },
                ),
                Err(e) => Step::Done(Err(e)),
            },
            Operation::TryWait => Step::Call(
                Call::WaitForSingleObject { handle: self.handle(), milliseconds: 0 },
            ),
            Operation::Post => Step::Call(
                Call::ReleaseSemaphore { handle: self.handle(), release_count: 1 },
            ),
        }
    }

    /// Every operation is over with the answer to its one call.
    open spec fn resumed(&self, op: Operation, reply: Reply, step: Step<Call>) -> bool {
        step == Step::<Call>::Done(self.judged(op, reply))
    }

    open spec fn closing(&self) -> Call {
        Call::CloseHandle { handle: self.handle() }
    }

    proof fn lemma_name_is_judged_first(name: &str, initial_value: u32, max_value: u32) {
    }

    proof fn lemma_valid_creation_is_accepted(name: &str, initial_value: u32, max_value: u32) {
    }

    proof fn lemma_starts_with_call(&self) {
    }

    fn create_with_max(name: &str, initial_value: u32, max_value: u32) -> (r: Result<Call, Error>) {
        if has_nul(name) {
            return Err(Error::InvalidName);
        }
        if initial_value > i32::MAX as u32 || max_value > i32::MAX as u32 {
            return Err(Error::InappropriateCount);
        }
        Ok(
            Call::CreateSemaphore {
                name: name.to_owned(),
                initial_count: initial_value as i32,
                maximum_count: max_value as i32,
            },
        )
    }

    fn create(name: &str, initial_value: u32) -> (r: Result<Call, Error>) {
        Self::create_with_max(name, initial_value, initial_value)
    }

    fn open(reply: Reply) -> (r: Result<Self, Error>) {
        match reply {
            Reply::Created { handle } => Ok(RawNamedSemaphore { handle }),
            Reply::CreateFailed { last_error } => Err(
                Error::CreateFailed(Cause::LastError(last_error)),
            ),
            _ => Err(Error::Unexpected),
        }
    }

    fn start(&self, op: Operation) -> (step: Step<Call>) {
        match op {
            Operation::Wait => Step::Call(
                Call::WaitForSingleObject { handle: self.handle, milliseconds: INFINITE },
            ),
            Operation::TimedWait(dur) => match wait_timeout(dur.as_secs(), dur.subsec_nanos()) {
                Ok(milliseconds) => Step::Call(
                    Call::WaitForSingleObject { handle: self.handle, milliseconds },
                ),
                Err(e) => Step::Done(Err(e)),
            },
            Operation::TryWait => Step::Call(
                Call::WaitForSingleObject { handle: self.handle, milliseconds: 0 },
            ),
            Operation::Post => Step::Call(
                Call::ReleaseSemaphore { handle: self.handle, release_count: 1 },
            ),
        }
    }

    fn resume(&self, op: Operation, reply: Reply) -> (step: Step<Call>) {
        match op {
            Operation::Wait => Step::Done(self.wait(reply)),
            Operation::TimedWait(_) => Step::Done(self.timedwait(reply)),
            Operation::TryWait => Step::Done(self.try_wait(reply)),
            Operation::Post => Step::Done(self.post(reply)),
        }
    }

    fn close(self) -> (call: Call) {
        Call::CloseHandle { handle: self.handle }
    }
}

/// A count beyond the signed 32-bit range is refused as `InappropriateCount`,
/// whether it is the initial value or the maximum, wherever the name obeys
/// the naming rule. The refusal comes before any kernel call.
pub proof fn lemma_count_out_of_range_is_refused(name: &str, initial_value: u32, max_value: u32)
    requires
        RawNamedSemaphore::is_valid_name(name),
        initial_value > i32::MAX || max_value > i32::MAX,
    ensures
        RawNamedSemaphore::create_refusal(name, initial_value, max_value) == Some(
            Error::InappropriateCount,
        ),
{
}

/// The timeout of a bounded wait is the least number of milliseconds that is
/// no shorter than the duration: the wait is never cut short, it is never a
/// whole millisecond too long, and its timeout is never the one that the
/// kernel reads as no timeout.
pub proof fn lemma_timeout_covers_the_duration(secs: u64, nanos: u32)
    ensures
        timeout_of(secs, nanos) matches Ok(ms) ==> ms * 1_000_000 >= nanos_of(secs, nanos),
        timeout_of(secs, nanos) matches Ok(ms) ==> ms * 1_000_000 < nanos_of(secs, nanos)
            + 1_000_000,
        timeout_of(secs, nanos) matches Ok(ms) ==> ms != INFINITE,
        timeout_of(secs, nanos) is Err ==> millis_covering(secs, nanos) >= INFINITE,
{
}

/// A bounded wait is never handed on as a wait without end: where it begins
/// with a call, the call waits for a timeout that is not `INFINITE` and that
/// is no shorter than the duration, and it is never the call with which a
/// wait without timeout begins.
pub proof fn lemma_bounded_wait_is_bounded(raw: RawNamedSemaphore, dur: Duration)
    ensures
        raw.started(Operation::TimedWait(dur)) matches Step::Call(call) ==> call
            is WaitForSingleObject && call->WaitForSingleObject_handle == raw.handle()
            && call->WaitForSingleObject_milliseconds != INFINITE
            && call->WaitForSingleObject_milliseconds * 1_000_000 >= nanos_of(
            duration_secs(dur),
            duration_subsec_nanos(dur),
        ),
        raw.started(Operation::TimedWait(dur)) != raw.started(Operation::Wait),
{
    lemma_timeout_covers_the_duration(duration_secs(dur), duration_subsec_nanos(dur));
}

/// A wait that the kernel says failed is never reported as a success,
/// whether or not a last-error code came with it, and a wait with a timeout
/// succeeds for a signalled or abandoned object and for nothing else.
pub proof fn lemma_failed_wait_is_a_failure(
    raw: RawNamedSemaphore,
    op: Operation,
    event: u32,
    last_error: u32,
)
    requires
        !(op is Post),
    ensures
        event == WAIT_FAILED ==> raw.judged(op, (Reply::Waited { event, last_error })) is Err,
        !(op is Wait) ==> (raw.judged(op, (Reply::Waited { event, last_error })) is Ok <==> event
            == WAIT_OBJECT_0 || event == WAIT_ABANDONED),
{
}

} // verus!
