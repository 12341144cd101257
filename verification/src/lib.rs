//! Named semaphores as a verified decision core.
//!
//! A named semaphore lives in the kernel, and only code that owns a native
//! handle can call the kernel. This crate holds everything else: which call
//! is to be made, with which arguments, and what its answer means. The caller
//! makes each [`Action::Call`] on the native handle and hands what came back
//! to [`NamedSemaphore::resume`], until the operation is [`Action::Done`].

use vstd::prelude::*;
use vstd::string::StringSliceAdditionalSpecFns;

pub mod backend;
pub mod error;
pub mod run;
pub mod time;
pub mod unix;
pub mod windows;

pub use backend::Operation;
pub use backend::RawBackend;
pub use backend::Step;
pub use error::Cause;
pub use error::Error;

use backend::contains_nul;
use std::time::Duration;

verus! {

/// What the caller of a semaphore is to do next.
#[derive(Debug, PartialEq, Eq)]
pub enum Action<C> {
    /// Make this kernel call and hand back what it returned.
    Call(C),
    /// Run the guarded action, then say that it ran, however it ended.
    Run,
    /// The operation is over, with this result.
    Done(Result<(), Error>),
}

/// What the caller of a semaphore has done.
#[derive(Debug, PartialEq, Eq)]
pub enum Event<R> {
    /// The kernel call that was asked for returned this.
    Returned(R),
    /// The guarded action ran.
    Ran,
}

/// Where a semaphore stands between two operations or within one.
#[derive(Clone, Copy, Debug, PartialEq, Eq)]
pub enum Stage {
    /// No operation is under way.
    Idle,
    /// A call of this operation is outstanding.
    Plain(Operation),
    /// The wait of a `wait_then_post` is outstanding.
    Acquiring,
    /// The wait of a `wait_then_post` succeeded and its post is owed: the
    /// guarded action is running.
    Holding,
    /// The post of a `wait_then_post` is outstanding.
    Releasing,
}

/// What a `wait_then_post` gave once its wait had succeeded: what the guarded
/// action returned, and the result of the post after it. Neither hides the
/// other.
#[derive(Debug, PartialEq, Eq)]
pub struct Guarded<T> {
    /// What the guarded action returned.
    pub output: T,
    /// The result of the post that followed the action.
    pub posted: Result<(), Error>,
}

/// Puts the result of a `wait_then_post` together, from what the guarded
/// action returned, if it ran, and from the result that the operation was
/// done with. Where the action ran, the wait had succeeded and the result is
/// that of the post. Where it did not run, the wait failed and the result is
/// its failure; an operation that was done with success without the action
/// having run is a state that should not be.
pub fn guarded<T>(ran: Option<T>, done: Result<(), Error>) -> (r: Result<Guarded<T>, Error>)
    ensures
        ran matches Some(output) ==> r matches Ok(g) && g.output == output && g.posted == done,
        ran is None && done is Err ==> r == Err::<Guarded<T>, Error>(done->Err_0),
        ran is None && done is Ok ==> r == Err::<Guarded<T>, Error>(Error::Unexpected),
{
    match ran {
        Some(output) => Ok(Guarded { output, posted: done }),
        None => match done {
            Err(e) => Err(e),
            Ok(()) => Err(Error::Unexpected),
        },
    }
}

/// What a step of the backend means within an operation of its own.
pub open spec fn plain_outcome<C>(op: Operation, step: Step<C>) -> (Stage, Action<C>) {
    match step {
        Step::Call(call) => (Stage::Plain(op), Action::Call(call)),
        Step::Done(result) => (Stage::Idle, Action::Done(result)),
    }
}

/// What a step of the backend's wait means within a `wait_then_post`: a wait
/// that succeeded lets the guarded action run, and a wait that failed ends the
/// whole operation with its failure.
pub open spec fn acquiring_outcome<C>(step: Step<C>) -> (Stage, Action<C>) {
    match step {
        Step::Call(call) => (Stage::Acquiring, Action::Call(call)),
        Step::Done(Ok(())) => (Stage::Holding, Action::Run),
        Step::Done(Err(e)) => (Stage::Idle, Action::Done(Err(e))),
    }
}

/// What a step of the backend's post means within a `wait_then_post`: its
/// result is the result of the whole operation.
pub open spec fn releasing_outcome<C>(step: Step<C>) -> (Stage, Action<C>) {
    match step {
        Step::Call(call) => (Stage::Releasing, Action::Call(call)),
        Step::Done(result) => (Stage::Idle, Action::Done(result)),
    }
}

/// Whether an event may lead a semaphore that stands at `stage` to `next` and
/// `action`. An event that the stage does not await changes nothing and is
/// answered with `Unexpected`.
pub open spec fn leads_to<B: RawBackend>(
    raw: B,
    stage: Stage,
    event: Event<B::Reply>,
    next: Stage,
    action: Action<B::Call>,
) -> bool {
    match (stage, event) {
        (Stage::Plain(op), Event::Returned(reply)) => exists|step: Step<B::Call>|
            #[trigger] raw.resumed(op, reply, step) && (next, action) == plain_outcome(op, step),
        (Stage::Acquiring, Event::Returned(reply)) => exists|step: Step<B::Call>|
            #[trigger] raw.resumed(Operation::Wait, reply, step) && (next, action)
                == acquiring_outcome(step),
        (Stage::Holding, Event::Ran) => (next, action) == releasing_outcome(
            raw.started(Operation::Post),
        ),
        (Stage::Releasing, Event::Returned(reply)) => exists|step: Step<B::Call>|
            #[trigger] raw.resumed(Operation::Post, reply, step) && (next, action)
                == releasing_outcome(step),
        _ => next == stage && action == Action::<B::Call>::Done(Err(Error::Unexpected)),
    }
}

/// A named semaphore: one backend, and the stage of the operation under way.
#[derive(Debug)]
pub struct NamedSemaphore<B: RawBackend> {
    raw_named_semaphore: B,
    stage: Stage,
}

impl<B: RawBackend> NamedSemaphore<B> {
    /// The backend.
    pub closed spec fn raw(&self) -> B {
        self.raw_named_semaphore
    }

    /// The stage.
    pub closed spec fn stage(&self) -> Stage {
        self.stage
    }

    /// What beginning an operation leads to: its first step where the
    /// semaphore is idle, and `Unexpected` with nothing changed where it is
    /// not.
    pub open spec fn begins(&self, op: Operation) -> (Stage, Action<B::Call>) {
        if self.stage() is Idle {
            plain_outcome(op, self.raw().started(op))
        } else {
            (self.stage(), Action::Done(Err(Error::Unexpected)))
        }
    }

    /// What beginning a `wait_then_post` leads to: the first step of its wait
    /// where the semaphore is idle, and `Unexpected` with nothing changed
    /// where it is not.
    pub open spec fn begins_guarded(&self) -> (Stage, Action<B::Call>) {
        if self.stage() is Idle {
            acquiring_outcome(self.raw().started(Operation::Wait))
        } else {
            (self.stage(), Action::Done(Err(Error::Unexpected)))
        }
    }

    /// Whether an event may lead to `stage` and `action`.
    pub open spec fn resumes_to(
        &self,
        event: Event<B::Reply>,
        stage: Stage,
        action: Action<B::Call>,
    ) -> bool {
        leads_to(self.raw(), self.stage(), event, stage, action)
    }

    /// Validates the parameters of a creation with the initial value as the
    /// maximum and gives the create-or-open call to make. Any failure comes
    /// before a kernel call: a refusal carries no call.
    pub fn create(name: &str, initial_value: u32) -> (r: Result<B::Call, Error>)
        ensures
            r matches Ok(call) ==> B::create_refusal(name, initial_value, initial_value) is None
                && B::is_create_call(call, name, initial_value, initial_value),
            r matches Err(e) ==> B::create_refusal(name, initial_value, initial_value) == Some(e),
            !B::is_valid_name(name) ==> r == Err::<B::Call, Error>(Error::InvalidName),
            contains_nul(name.spec_bytes()) ==> r == Err::<B::Call, Error>(Error::InvalidName),
    {
        B::create(name, initial_value)
    }

    /// Validates the parameters of a creation and gives the create-or-open
    /// call to make. Any failure comes before a kernel call: a refusal
    /// carries no call.
    pub fn create_with_max(name: &str, initial_value: u32, max_value: u32) -> (r: Result<
        B::Call,
        Error,
    >)
        ensures
            r matches Ok(call) ==> B::create_refusal(name, initial_value, max_value) is None
                && B::is_create_call(call, name, initial_value, max_value),
            r matches Err(e) ==> B::create_refusal(name, initial_value, max_value) == Some(e),
            !B::is_valid_name(name) ==> r == Err::<B::Call, Error>(Error::InvalidName),
            contains_nul(name.spec_bytes()) ==> r == Err::<B::Call, Error>(Error::InvalidName),
    {
        B::create_with_max(name, initial_value, max_value)
    }

    /// Judges the answer to the create-or-open call. Where the call gave a
    /// handle, the semaphore owns it and is idle.
    pub fn open(reply: B::Reply) -> (r: Result<Self, Error>)
        ensures
            r matches Ok(sem) ==> B::opened(reply) == Ok::<usize, Error>(sem.raw().handle())
                && sem.stage() is Idle,
            r matches Err(e) ==> B::opened(reply) == Err::<usize, Error>(e),
    {
        match B::open(reply) {
            Ok(raw_named_semaphore) => Ok(NamedSemaphore { raw_named_semaphore, stage: Stage::Idle }),
            Err(e) => Err(e),
        }
    }

    fn begin(&mut self, op: Operation) -> (action: Action<B::Call>)
        ensures
            final(self).raw() == old(self).raw(),
            (final(self).stage(), action) == old(self).begins(op),
    {
        match self.stage {
            Stage::Idle => match self.raw_named_semaphore.start(op) {
                Step::Call(call) => {
                    self.stage = Stage::Plain(op);
                    Action::Call(call)
                },
                Step::Done(result) => Action::Done(result),
            },
            _ => Action::Done(Err(Error::Unexpected)),
        }
    }

    /// Begins a wait: a decrement that blocks while the count is zero.
    pub fn wait(&mut self) -> (action: Action<B::Call>)
        ensures
            final(self).raw() == old(self).raw(),
            (final(self).stage(), action) == old(self).begins(Operation::Wait),
    {
        self.begin(Operation::Wait)
    }

    /// Begins a bounded wait: a decrement that blocks for at most `dur` while
    /// the count is zero.
    pub fn timed_wait(&mut self, dur: Duration) -> (action: Action<B::Call>)
        ensures
            final(self).raw() == old(self).raw(),
            (final(self).stage(), action) == old(self).begins(Operation::TimedWait(dur)),
    {
        self.begin(Operation::TimedWait(dur))
    }

    /// Begins a non-blocking wait: a decrement that fails with `WouldBlock`
    /// where the count is zero.
    pub fn try_wait(&mut self) -> (action: Action<B::Call>)
        ensures
            final(self).raw() == old(self).raw(),
            (final(self).stage(), action) == old(self).begins(Operation::TryWait),
    {
        self.begin(Operation::TryWait)
    }

    /// Begins a post: an increment by one.
    pub fn post(&mut self) -> (action: Action<B::Call>)
        ensures
            final(self).raw() == old(self).raw(),
            (final(self).stage(), action) == old(self).begins(Operation::Post),
    {
        self.begin(Operation::Post)
    }

    /// Begins a wait, the guarded action and a post in one operation. The
    /// action is the caller's: it is asked for with `Action::Run` once the
    /// wait has succeeded, and the post follows it whatever it gave. What the
    /// action returned and what the operation is done with make the result,
    /// by [`guarded`].
    pub fn wait_then_post(&mut self) -> (action: Action<B::Call>)
        ensures
            final(self).raw() == old(self).raw(),
            (final(self).stage(), action) == old(self).begins_guarded(),
    {
        match self.stage {
            Stage::Idle => match self.raw_named_semaphore.start(Operation::Wait) {
                Step::Call(call) => {
                    self.stage = Stage::Acquiring;
                    Action::Call(call)
                },
                Step::Done(Ok(())) => {
                    self.stage = Stage::Holding;
                    Action::Run
                },
                Step::Done(Err(e)) => Action::Done(Err(e)),
            },
            _ => Action::Done(Err(Error::Unexpected)),
        }
    }

    /// Continues the operation under way with what the caller has done.
    pub fn resume(&mut self, event: Event<B::Reply>) -> (action: Action<B::Call>)
        ensures
            final(self).raw() == old(self).raw(),
            old(self).resumes_to(event, final(self).stage(), action),
    {
        match (self.stage, event) {
            (Stage::Plain(op), Event::Returned(reply)) => {
                let step = self.raw_named_semaphore.resume(op, reply);
                match step {
                    Step::Call(call) => Action::Call(call),
                    Step::Done(result) => {
                        self.stage = Stage::Idle;
                        Action::Done(result)
                    },
                }
            },
            (Stage::Acquiring, Event::Returned(reply)) => {
                let step = self.raw_named_semaphore.resume(Operation::Wait, reply);
                match step {
                    Step::Call(call) => Action::Call(call),
                    Step::Done(Ok(())) => {
                        self.stage = Stage::Holding;
                        Action::Run
                    },
                    Step::Done(Err(e)) => {
                        self.stage = Stage::Idle;
                        Action::Done(Err(e))
                    },
                }
            },
            (Stage::Holding, Event::Ran) => {
                match self.raw_named_semaphore.start(Operation::Post) {
                    Step::Call(call) => {
                        self.stage = Stage::Releasing;
                        Action::Call(call)
                    },
                    Step::Done(result) => {
                        self.stage = Stage::Idle;
                        Action::Done(result)
                    },
                }
            },
            (Stage::Releasing, Event::Returned(reply)) => {
                let step = self.raw_named_semaphore.resume(Operation::Post, reply);
                match step {
                    Step::Call(call) => Action::Call(call),
                    Step::Done(result) => {
                        self.stage = Stage::Idle;
                        Action::Done(result)
                    },
                }
            },
            _ => Action::Done(Err(Error::Unexpected)),
        }
    }

    /// Gives up the semaphore: the one call that releases its native handle.
    /// The semaphore is consumed, so the call is given once.
    pub fn close(self) -> (call: B::Call)
        ensures
            call == self.raw().closing(),
    {
        self.raw_named_semaphore.close()
    }
}

} // verus!
