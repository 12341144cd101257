//! The contract that the platform backends share.
//!
//! A backend never talks to the kernel. It says which kernel call is to be
//! made, with every argument fixed, and it judges what the call gave back.
//! Whoever owns the native handle makes the call and hands the answer in.

use crate::error::Error;
use std::time::Duration;
use vstd::prelude::*;
use vstd::string::StringSliceAdditionalSpecFns;

verus! {

/// Whether a name holds a zero byte.
pub open spec fn contains_nul(bytes: Seq<u8>) -> bool {
    exists|i: int| 0 <= i < bytes.len() && bytes[i] == 0
}

/// Looks for a zero byte in a name.
pub fn has_nul(name: &str) -> (found: bool)
    ensures
        found == contains_nul(name.spec_bytes()),
{
    let bytes = name.as_bytes();
    let mut i: usize = 0;
    while i < bytes.len()
        invariant
            i <= bytes.len(),
            bytes@ == name.spec_bytes(),
            forall|j: int| 0 <= j < i ==> bytes@[j] != 0,
        decreases bytes.len() - i,
    {
        if bytes[i] == 0 {
            return true;
        }
        i += 1;
    }
    false
}

/// An operation on an open semaphore.
#[derive(Clone, Copy, Debug, PartialEq, Eq)]
pub enum Operation {
    /// Decrement, blocking while the count is zero.
    Wait,
    /// Decrement, blocking for at most the given duration.
    TimedWait(Duration),
    /// Decrement if the count is not zero, without blocking.
    TryWait,
    /// Increment by one.
    Post,
}

/// What a backend asks for next while it carries out an operation.
#[derive(Debug, PartialEq, Eq)]
pub enum Step<C> {
    /// Make this kernel call and hand back what it returned.
    Call(C),
    /// The operation is over, with this result.
    Done(Result<(), Error>),
}

/// One platform's rules for a named semaphore.
pub trait RawBackend: Sized {
    /// A kernel call with all of its arguments.
    type Call;

    /// What a kernel call gave back.
    type Reply;

    /// Whether a name obeys the platform's naming rule, as far as the rule is
    /// this backend's to judge.
    spec fn is_valid_name(name: &str) -> bool;

    /// The failure with which creation is refused before any kernel call, if
    /// it is refused.
    spec fn create_refusal(name: &str, initial_value: u32, max_value: u32) -> Option<Error>;

    /// Whether `call` is the create-or-open call for these parameters.
    spec fn is_create_call(
        call: Self::Call,
        name: &str,
        initial_value: u32,
        max_value: u32,
    ) -> bool;

    /// The native handle that this backend holds.
    spec fn handle(&self) -> usize;

    /// The native handle, or the failure, that the answer to a create-or-open
    /// call stands for.
    spec fn opened(reply: Self::Reply) -> Result<usize, Error>;

    /// The first step of an operation.
    spec fn started(&self, op: Operation) -> Step<Self::Call>;

    /// Whether `step` may follow when `reply` answers the call that is
    /// outstanding for `op`.
    spec fn resumed(&self, op: Operation, reply: Self::Reply, step: Step<Self::Call>) -> bool;

    /// The call that releases the native handle.
    spec fn closing(&self) -> Self::Call;

    /// A name is judged before the counts and by the naming rule alone: a
    /// creation is refused as `InvalidName` exactly where the name breaks the
    /// rule, whatever the counts. No rule lets a zero byte through.
    proof fn lemma_name_is_judged_first(name: &str, initial_value: u32, max_value: u32)
        ensures
            Self::create_refusal(name, initial_value, max_value) == Some(Error::InvalidName)
                <==> !Self::is_valid_name(name),
            contains_nul(name.spec_bytes()) ==> !Self::is_valid_name(name),
    ;

    /// A creation is refused for its name or for a count and for nothing
    /// else: a name that obeys the naming rule, with counts that fit a signed
    /// 32-bit count, always gets its create-or-open call.
    proof fn lemma_valid_creation_is_accepted(name: &str, initial_value: u32, max_value: u32)
        requires
            Self::is_valid_name(name),
            initial_value <= i32::MAX,
            max_value <= i32::MAX,
        ensures
            Self::create_refusal(name, initial_value, max_value) is None,
    ;

    /// A wait, a non-blocking wait and a post begin with a kernel call: none
    /// of them is decided without the kernel.
    proof fn lemma_starts_with_call(&self)
        ensures
            self.started(Operation::Wait) is Call,
            self.started(Operation::TryWait) is Call,
            self.started(Operation::Post) is Call,
    ;

    /// Validates the parameters of a creation and, where they are valid,
    /// gives the create-or-open call to make. A name that breaks the naming
    /// rule is refused first, as `InvalidName`; a name with a zero byte
    /// always is.
    fn create_with_max(name: &str, initial_value: u32, max_value: u32) -> (r: Result<
        Self::Call,
        Error,
    >)
        ensures
            r matches Ok(call) ==> Self::create_refusal(name, initial_value, max_value) is None
                && Self::is_create_call(call, name, initial_value, max_value),
            r matches Err(e) ==> Self::create_refusal(name, initial_value, max_value) == Some(e),
            !Self::is_valid_name(name) ==> r == Err::<Self::Call, Error>(Error::InvalidName),
            contains_nul(name.spec_bytes()) ==> r == Err::<Self::Call, Error>(Error::InvalidName),
    ;

    /// `create_with_max` with the initial value as the maximum.
    fn create(name: &str, initial_value: u32) -> (r: Result<Self::Call, Error>)
        ensures
            r matches Ok(call) ==> Self::create_refusal(name, initial_value, initial_value) is None
                && Self::is_create_call(call, name, initial_value, initial_value),
            r matches Err(e) ==> Self::create_refusal(name, initial_value, initial_value) == Some(
                e,
            ),
            !Self::is_valid_name(name) ==> r == Err::<Self::Call, Error>(Error::InvalidName),
            contains_nul(name.spec_bytes()) ==> r == Err::<Self::Call, Error>(Error::InvalidName),
    ;

    /// Judges the answer to a create-or-open call, and takes the native
    /// handle where the call gave one.
    fn open(reply: Self::Reply) -> (r: Result<Self, Error>)
        ensures
            r matches Ok(raw) ==> Self::opened(reply) == Ok::<usize, Error>(raw.handle()),
            r matches Err(e) ==> Self::opened(reply) == Err::<usize, Error>(e),
    ;

    /// Begins an operation.
    fn start(&self, op: Operation) -> (step: Step<Self::Call>)
        ensures
            step == self.started(op),
    ;

    /// Continues an operation with the answer to its outstanding call.
    fn resume(&self, op: Operation, reply: Self::Reply) -> (step: Step<Self::Call>)
        ensures
            self.resumed(op, reply, step),
    ;

    /// Gives up the native handle: the one call that releases it.
    fn close(self) -> (call: Self::Call)
        ensures
            call == self.closing(),
    ;
}

} // verus!
