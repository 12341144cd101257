//! The POSIX backend: `sem_open`, `sem_wait`, `sem_timedwait`, `sem_trywait`,
//! `sem_post` and `sem_close`, as calls to make and answers to judge.

use crate::backend::contains_nul;
use crate::backend::Operation;
use crate::backend::RawBackend;
use crate::backend::Step;
use crate::error::Cause;
use crate::error::Error;
use crate::time::duration_secs;
use crate::time::duration_subsec_nanos;
use crate::time::nanos_of;
use crate::time::NANOS_PER_SEC;
use std::time::Duration;
use vstd::prelude::*;
use vstd::string::StringSliceAdditionalSpecFns;

verus! {

/// The permission bits a semaphore is created with: read, write and execute
/// for owner, group and others.
pub const OPEN_MODE: u32 = 0o777;

/// The most bytes that a name may have, the zero byte at its end not counted.
pub const MAX_NAME_LEN: usize = 250;

/// The naming rule, on the bytes of a name: the name is not empty, has no
/// more than `MAX_NAME_LEN` bytes and holds no zero byte. The slash that a
/// name begins with by convention is the caller's to supply and is not
/// judged.
pub open spec fn obeys_name_rule(bytes: Seq<u8>) -> bool {
    0 < bytes.len() <= MAX_NAME_LEN && !contains_nul(bytes)
}

/// A point in time as the kernel counts it: seconds and nanoseconds.
#[derive(Clone, Copy, Debug, PartialEq, Eq, Structural)]
pub struct Timespec {
    pub sec: i64,
    pub nsec: i64,
}

impl Timespec {
    /// Whether the nanoseconds are below one second.
    pub open spec fn is_normalized(self) -> bool {
        0 <= self.nsec < NANOS_PER_SEC
    }

    /// The point in time in nanoseconds.
    pub open spec fn nanos(self) -> int {
        self.sec * NANOS_PER_SEC + self.nsec
    }
}

/// A kernel call of the POSIX backend.
#[derive(Debug, PartialEq, Eq)]
pub enum Call {
    /// `sem_open` with the create flag: opens the semaphore of this name, and
    /// creates it with `mode` and `value` where there is none. `name` ends in
    /// a zero byte and holds no other.
    SemOpen { name: Vec<u8>, mode: u32, value: u32 },
    /// `sem_wait` on the semaphore at this address.
    SemWait { sem: usize },
    /// `clock_gettime` on the realtime clock.
    ClockGettime,
    /// `sem_timedwait` on the semaphore at this address, until `deadline` on
    /// the realtime clock.
    SemTimedwait { sem: usize, deadline: Timespec },
    /// `sem_trywait` on the semaphore at this address.
    SemTrywait { sem: usize },
    /// `sem_post` on the semaphore at this address.
    SemPost { sem: usize },
    /// `sem_close` on the semaphore at this address. What it returns is of no
    /// interest: the kernel closes every semaphore of a process that ends.
    SemClose { sem: usize },
}

/// What a kernel call of the POSIX backend gave back.
#[derive(Clone, Copy, Debug, PartialEq, Eq, Structural)]
pub enum Reply {
    /// `sem_open` gave the semaphore at this address.
    Opened { sem: usize },
    /// `sem_open` gave its failure value, and the thread's error number was
    /// `errno`.
    OpenFailed { errno: i32 },
    /// A call that answers with a status gave `ret`, and the thread's error
    /// number after it was `errno`.
    Status { ret: i32, errno: i32 },
    /// `clock_gettime` gave `ret`, with `now` as the time read, and the
    /// thread's error number after it was `errno`.
    Time { ret: i32, errno: i32, now: Timespec },
    /// The platform has no such call, and none was made.
    Unsupported,
}

/// What an error number means, as far as this backend tells error numbers
/// apart.
#[derive(Clone, Copy, Debug, PartialEq, Eq, Structural)]
pub enum ErrnoClass {
    /// The call was interrupted before it did anything.
    Interrupted,
    /// The call would have had to block.
    WouldBlock,
    /// The deadline passed.
    TimedOut,
    /// Anything else.
    Other,
}

/// `std::io::Error`, as a value that is made and asked for its kind. Nothing
/// inside it is read.
#[verifier::external_type_specification]
#[verifier::external_body]
pub struct ExIoError(std::io::Error);

/// `std::io::Error::from_raw_os_error`: the error value that the standard
/// library makes of an error number. Nothing is claimed of it.
#[verifier::external_body]
fn os_error(errno: i32) -> std::io::Error {
    std::io::Error::from_raw_os_error(errno)
}

/// `std::io::Error::kind`, with every kind that this backend does not read
/// taken as `Other`. Which error number has which kind is the platform's
/// matter: nothing is claimed of it.
#[verifier::external_body]
fn error_class(error: &std::io::Error) -> ErrnoClass {
    match error.kind() {
        std::io::ErrorKind::Interrupted => ErrnoClass::Interrupted,
        std::io::ErrorKind::WouldBlock => ErrnoClass::WouldBlock,
        std::io::ErrorKind::TimedOut => ErrnoClass::TimedOut,
        _ => ErrnoClass::Other,
    }
}

/// The class that the standard library gives an error number.
fn errno_class(errno: i32) -> ErrnoClass {
    let error = os_error(errno);
    error_class(&error)
}

/// The name as the kernel takes it: its bytes, then a zero byte. A name that
/// breaks the naming rule has no such form: the empty name, a name of more
/// than `MAX_NAME_LEN` bytes, a name that holds a zero byte.
pub fn c_name(name: &str) -> (r: Result<Vec<u8>, Error>)
    ensures
        r matches Ok(bytes) ==> obeys_name_rule(name.spec_bytes()) && bytes@
            == name.spec_bytes().push(0),
        r matches Err(e) ==> !obeys_name_rule(name.spec_bytes()) && e == Error::InvalidName,
{
    let bytes = name.as_bytes();
    if bytes.len() == 0 || bytes.len() > MAX_NAME_LEN {
        return Err(Error::InvalidName);
    }
    let mut out: Vec<u8> = Vec::new();
    let mut i: usize = 0;
    while i < bytes.len()
        invariant
            i <= bytes.len(),
            bytes@ == name.spec_bytes(),
            out@ == bytes@.take(i as int),
            forall|j: int| 0 <= j < i ==> bytes@[j] != 0,
        decreases bytes.len() - i,
    {
        let b = bytes[i];
        if b == 0 {
            return Err(Error::InvalidName);
        }
        out.push(b);
        i += 1;
    }
    out.push(0);
    Ok(out)
}

/// The deadline of a wait that begins at `now` and lasts so many seconds and
/// nanoseconds: the normalized point in time that long after `now`. There is
/// none where the clock gave a time that is not normalized, and none where
/// the seconds would leave the kernel's range.
pub open spec fn deadline_of(now: Timespec, secs: u64, nanos: u32) -> Result<Timespec, Error> {
    let total = now.nanos() + nanos_of(secs, nanos);
    if !now.is_normalized() {
        Err(Error::Unexpected)
    } else if total / (NANOS_PER_SEC as int) > i64::MAX {
        Err(Error::InvalidWaitTimeout)
    } else {
        Ok(
            Timespec {
                sec: (total / (NANOS_PER_SEC as int)) as i64,
                nsec: (total % (NANOS_PER_SEC as int)) as i64,
            },
        )
    }
}

/// Computes the deadline of a bounded wait, carrying nanoseconds over into
/// the seconds.
pub fn deadline(now: Timespec, secs: u64, nanos: u32) -> (r: Result<Timespec, Error>)
    ensures
        r == deadline_of(now, secs, nanos),
{
    if now.nsec < 0 || now.nsec >= NANOS_PER_SEC {
        return Err(Error::Unexpected);
    }
    let sum: i64 = now.nsec + nanos as i64;
    let carry: i64 = sum / NANOS_PER_SEC;
    let nsec: i64 = sum % NANOS_PER_SEC;
    let sec: i128 = now.sec as i128 + secs as i128 + carry as i128;
    if sec > i64::MAX as i128 {
        return Err(Error::InvalidWaitTimeout);
    }
    Ok(Timespec { sec: sec as i64, nsec })
}

/// The POSIX backend: the address of one open semaphore.
#[derive(Debug)]
pub struct RawNamedSemaphore {
    sem: usize,
}

impl RawNamedSemaphore {
    /// What `sem_wait` having answered means. An interrupted call did nothing
    /// and is made again; no other failure is.
    pub open spec fn waited(&self, reply: Reply, class: ErrnoClass) -> Step<Call> {
        match reply {
            Reply::Status { ret, errno } => if ret != -1 {
                Step::Done(Ok(()))
            } else if class is Interrupted {
                Step::Call(Call::SemWait { sem: self.handle() })
            } else {
                Step::Done(Err(Error::WaitFailed(Cause::Errno(errno))))
            },
            _ => Step::Done(Err(Error::Unexpected)),
        }
    }

    /// What an answer means during a bounded wait of so many seconds and
    /// nanoseconds: the time read gives the deadline to wait until, and the
    /// status of that wait ends it. On a platform without `sem_timedwait` the
    /// wait fails as `Unsupported`: it is neither made without a deadline nor
    /// made up from other calls.
    pub open spec fn timed_waited(
        &self,
        secs: u64,
        nanos: u32,
        reply: Reply,
        class: ErrnoClass,
    ) -> Step<Call> {
        match reply {
            Reply::Time { ret, errno, now } => if ret != 0 {
                Step::Done(Err(Error::WaitFailed(Cause::Errno(errno))))
            } else {
                match deadline_of(now, secs, nanos) {
                    Ok(deadline) => Step::Call(
                        Call::SemTimedwait { sem: self.handle(), deadline },
                    ),
                    Err(e) => Step::Done(Err(e)),
                }
            },
            Reply::Status { ret, errno } => if ret != -1 {
                Step::Done(Ok(()))
            } else if class is TimedOut {
                Step::Done(Err(Error::WaitTimeout))
            } else {
                Step::Done(Err(Error::WaitFailed(Cause::Errno(errno))))
            },
            Reply::Unsupported => Step::Done(Err(Error::Unsupported)),
            _ => Step::Done(Err(Error::Unexpected)),
        }
    }

    /// What `sem_trywait` having answered means.
    pub open spec fn try_waited(&self, reply: Reply, class: ErrnoClass) -> Result<(), Error> {
        match reply {
            Reply::Status { ret, errno } => if ret != -1 {
                Ok(())
            } else if class is WouldBlock {
                Err(Error::WouldBlock)
            } else {
                Err(Error::WaitFailed(Cause::Errno(errno)))
            },
            _ => Err(Error::Unexpected),
        }
    }

    /// What `sem_post` having answered means.
    pub open spec fn posted(&self, reply: Reply) -> Result<(), Error> {
        match reply {
            Reply::Status { ret, errno } => if ret != -1 {
                Ok(())
            } else {
                Err(Error::PostFailed(Cause::Errno(errno)))
            },
            _ => Err(Error::Unexpected),
        }
    }

    /// What an answer means for an operation, given the class of the error
    /// number in it.
    pub open spec fn judged(&self, op: Operation, reply: Reply, class: ErrnoClass) -> Step<Call> {
        match op {
            Operation::Wait => self.waited(reply, class),
            Operation::TimedWait(dur) => self.timed_waited(
                duration_secs(dur),
                duration_subsec_nanos(dur),
                reply,
                class,
            ),
            Operation::TryWait => Step::Done(self.try_waited(reply, class)),
            Operation::Post => Step::Done(self.posted(reply)),
        }
    }

    /// Judges the answer of `sem_wait`, `class` being the class of the error
    /// number in it.
    pub fn wait(&self, reply: Reply, class: ErrnoClass) -> (step: Step<Call>)
        ensures
            step == self.waited(reply, class),
    {
        match reply {
            Reply::Status { ret, errno } => {
                if ret != -1 {
                    Step::Done(Ok(()))
                } else {
                    match class {
                        ErrnoClass::Interrupted => Step::Call(Call::SemWait { sem: self.sem }),
                        _ => Step::Done(Err(Error::WaitFailed(Cause::Errno(errno)))),
                    }
                }
            },
            _ => Step::Done(Err(Error::Unexpected)),
        }
    }

    /// Judges an answer during a bounded wait of `dur`, `class` being the
    /// class of the error number in it: from the time read it computes the
    /// deadline and asks for the wait, and from the status of that wait it
    /// tells success, timeout and failure apart. Where the platform has no
    /// such wait, it fails as `Unsupported`.
    pub fn timedwait(&self, dur: Duration, reply: Reply, class: ErrnoClass) -> (step: Step<Call>)
        ensures
            step == self.timed_waited(
                duration_secs(dur),
                duration_subsec_nanos(dur),
                reply,
                class,
            ),
    {
        match reply {
            Reply::Time { ret, errno, now } => {
                if ret != 0 {
                    return Step::Done(Err(Error::WaitFailed(Cause::Errno(errno))));
                }
                match deadline(now, dur.as_secs(), dur.subsec_nanos()) {
                    Ok(deadline) => Step::Call(Call::SemTimedwait { sem: self.sem, deadline }),
                    Err(e) => Step::Done(Err(e)),
                }
            },
            Reply::Status { ret, errno } => {
                if ret != -1 {
                    Step::Done(Ok(()))
                } else {
                    match class {
                        ErrnoClass::TimedOut => Step::Done(Err(Error::WaitTimeout)),
                        _ => Step::Done(Err(Error::WaitFailed(Cause::Errno(errno)))),
                    }
                }
            },
            Reply::Unsupported => Step::Done(Err(Error::Unsupported)),
            _ => Step::Done(Err(Error::Unexpected)),
        }
    }

    /// Judges the answer of `sem_trywait`, `class` being the class of the
    /// error number in it.
    pub fn try_wait(&self, reply: Reply, class: ErrnoClass) -> (r: Result<(), Error>)
        ensures
            r == self.try_waited(reply, class),
    {
        match reply {
            Reply::Status { ret, errno } => {
                if ret != -1 {
                    Ok(())
                } else {
                    match class {
                        ErrnoClass::WouldBlock => Err(Error::WouldBlock),
                        _ => Err(Error::WaitFailed(Cause::Errno(errno))),
                    }
                }
            },
            _ => Err(Error::Unexpected),
        }
    }

    /// Judges the answer of `sem_post`.
    pub fn post(&self, reply: Reply) -> (r: Result<(), Error>)
        ensures
            r == self.posted(reply),
    {
        match reply {
            Reply::Status { ret, errno } => {
                if ret != -1 {
                    Ok(())
                } else {
                    Err(Error::PostFailed(Cause::Errno(errno)))
                }
            },
            _ => Err(Error::Unexpected),
        }
    }
}

impl RawBackend for RawNamedSemaphore {
    type Call = Call;

    type Reply = Reply;

    /// A name obeys the rule where it is not empty, has no more than
    /// `MAX_NAME_LEN` bytes and holds no zero byte.
    open spec fn is_valid_name(name: &str) -> bool {
        obeys_name_rule(name.spec_bytes())
    }

    /// A name that breaks the naming rule is refused: the empty name, a name
    /// of more than `MAX_NAME_LEN` bytes, a name with a zero byte. Then a
    /// maximum that does not fit a signed 32-bit count is refused. The maximum
    /// is otherwise without effect, and the initial value is the kernel's to
    /// judge.
    open spec fn create_refusal(name: &str, initial_value: u32, max_value: u32) -> Option<Error> {
        if !Self::is_valid_name(name) {
            Some(Error::InvalidName)
        } else if max_value > i32::MAX {
            Some(Error::InappropriateCount)
        } else {
            None
        }
    }

    open spec fn is_create_call(
        call: Call,
        name: &str,
        initial_value: u32,
        max_value: u32,
    ) -> bool {
        &&& call matches Call::SemOpen { name: c_name, mode, value }
        &&& c_name@ == name.spec_bytes().push(0)
        &&& mode == OPEN_MODE
        &&& value == initial_value
    }

    closed spec fn handle(&self) -> usize {
        self.sem
    }

    open spec fn opened(reply: Reply) -> Result<usize, Error> {
        match reply {
            Reply::Opened { sem } => Ok(sem),
            Reply::OpenFailed { errno } => Err(Error::CreateFailed(Cause::Errno(errno))),
            _ => Err(Error::Unexpected),
        }
    }

    open spec fn started(&self, op: Operation) -> Step<Call> {
        match op {
            Operation::Wait => Step::Call(Call::SemWait { sem: self.handle() }),
            Operation::TimedWait(_) => Step::Call(Call::ClockGettime),
            Operation::TryWait => Step::Call(Call::SemTrywait { sem: self.handle() }),
            Operation::Post => Step::Call(Call::SemPost { sem: self.handle() }),
        }
    }

    /// The class of an error number is the platform's to say, so a step may
    /// follow where it follows for some class.
    open spec fn resumed(&self, op: Operation, reply: Reply, step: Step<Call>) -> bool {
        exists|class: ErrnoClass| step == #[trigger] self.judged(op, reply, class)
    }

    open spec fn closing(&self) -> Call {
        Call::SemClose { sem: self.handle() }
    }

    proof fn lemma_name_is_judged_first(name: &str, initial_value: u32, max_value: u32) {
    }

    proof fn lemma_valid_creation_is_accepted(name: &str, initial_value: u32, max_value: u32) {
    }

    proof fn lemma_starts_with_call(&self) {
    }

    fn create_with_max(name: &str, initial_value: u32, max_value: u32) -> (r: Result<Call, Error>) {
        let name = c_name(name)?;
        if max_value > i32::MAX as u32 {
            return Err(Error::InappropriateCount);
        }
        Ok(Call::SemOpen { name, mode: OPEN_MODE, value: initial_value })
    }

    fn create(name: &str, initial_value: u32) -> (r: Result<Call, Error>) {
        Self::create_with_max(name, initial_value, initial_value)
    }

    fn open(reply: Reply) -> (r: Result<Self, Error>) {
        match reply {
            Reply::Opened { sem } => Ok(RawNamedSemaphore { sem }),
            Reply::OpenFailed { errno } => Err(Error::CreateFailed(Cause::Errno(errno))),
            _ => Err(Error::Unexpected),
        }
    }

    fn start(&self, op: Operation) -> (step: Step<Call>) {
        match op {
            Operation::Wait => Step::Call(Call::SemWait { sem: self.sem }),
            Operation::TimedWait(_) => Step::Call(Call::ClockGettime),
            Operation::TryWait => Step::Call(Call::SemTrywait { sem: self.sem }),
            Operation::Post => Step::Call(Call::SemPost { sem: self.sem }),
        }
    }

    fn resume(&self, op: Operation, reply: Reply) -> (step: Step<Call>) {
        let class = match reply {
            Reply::Status { ret: _, errno } => errno_class(errno),
            _ => ErrnoClass::Other,
        };
        let step = match op {
            Operation::Wait => self.wait(reply, class),
            Operation::TimedWait(dur) => self.timedwait(dur, reply, class),
            Operation::TryWait => Step::Done(self.try_wait(reply, class)),
            Operation::Post => Step::Done(self.post(reply)),
        };
        assert(step == self.judged(op, reply, class));
        step
    }

    fn close(self) -> (call: Call) {
        Call::SemClose { sem: self.sem }
    }
}

/// A name that breaks the length rule is refused as `InvalidName`, before any
/// kernel call and whatever the counts: the empty name, and every name of
/// more than `MAX_NAME_LEN` bytes.
pub proof fn lemma_name_length_is_validated(name: &str, initial_value: u32, max_value: u32)
    requires
        name.spec_bytes().len() == 0 || name.spec_bytes().len() > MAX_NAME_LEN,
    ensures
        RawNamedSemaphore::create_refusal(name, initial_value, max_value) == Some(
            Error::InvalidName,
        ),
{
}

/// A maximum beyond the signed 32-bit range is refused as
/// `InappropriateCount` wherever the name obeys the naming rule. The refusal
/// comes before any kernel call.
pub proof fn lemma_maximum_out_of_range_is_refused(name: &str, initial_value: u32, max_value: u32)
    requires
        RawNamedSemaphore::is_valid_name(name),
        max_value > i32::MAX,
    ensures
        RawNamedSemaphore::create_refusal(name, initial_value, max_value) == Some(
            Error::InappropriateCount,
        ),
{
}

/// A deadline lies exactly the duration after the time it was computed from,
/// and is normalized.
pub proof fn lemma_deadline_is_exact(now: Timespec, secs: u64, nanos: u32)
    requires
        deadline_of(now, secs, nanos) is Ok,
    ensures
        deadline_of(now, secs, nanos)->Ok_0.is_normalized(),
        deadline_of(now, secs, nanos)->Ok_0.nanos() == now.nanos() + nanos_of(secs, nanos),
{
}

/// A bounded wait is handed to the kernel with a deadline that lies exactly
/// the duration after the time read, and is normalized: the wait is never cut
/// short.
pub proof fn lemma_bounded_wait_lasts_the_duration(
    raw: RawNamedSemaphore,
    dur: Duration,
    reply: Reply,
    class: ErrnoClass,
)
    requires
        reply is Time,
    ensures
        raw.judged(Operation::TimedWait(dur), reply, class) matches Step::Call(call) ==> call
            is SemTimedwait && call->SemTimedwait_sem == raw.handle()
            && call->SemTimedwait_deadline.is_normalized() && call->SemTimedwait_deadline.nanos()
            == reply->Time_now.nanos() + nanos_of(duration_secs(dur), duration_subsec_nanos(dur)),
{
    if deadline_of(reply->Time_now, duration_secs(dur), duration_subsec_nanos(dur)) is Ok {
        lemma_deadline_is_exact(reply->Time_now, duration_secs(dur), duration_subsec_nanos(dur));
    }
}

/// Every operation reports success exactly where the kernel call did: a call
/// that failed is never reported as a success, whatever its error number,
/// and a call that succeeded is never reported as a failure.
pub proof fn lemma_success_follows_the_kernel(
    raw: RawNamedSemaphore,
    op: Operation,
    ret: i32,
    errno: i32,
    class: ErrnoClass,
)
    ensures
        raw.judged(op, (Reply::Status { ret, errno }), class) == Step::<Call>::Done(Ok(()))
            <==> ret != -1,
{
}

} // verus!
