//! Runs of a semaphore: what holds of every sequence of events.

use crate::backend::Operation;
use crate::backend::RawBackend;
use crate::backend::Step;
use crate::error::Error;
use crate::acquiring_outcome;
use crate::leads_to;
use crate::Action;
use crate::Event;
use crate::Stage;
use vstd::prelude::*;

verus! {

/// The stage before turn `i` of a run that began at `start`. A turn is an
/// event with the stage and the action that it led to.
pub open spec fn stage_before<R, C>(
    start: Stage,
    turns: Seq<(Event<R>, Stage, Action<C>)>,
    i: int,
) -> Stage {
    if i == 0 {
        start
    } else {
        turns[i - 1].1
    }
}

/// Whether `turns` is a run of a semaphore that stood at `start`: every
/// event led to its stage and action from the stage before it.
pub open spec fn is_run<B: RawBackend>(
    raw: B,
    start: Stage,
    turns: Seq<(Event<B::Reply>, Stage, Action<B::Call>)>,
) -> bool {
    forall|i: int|
        0 <= i < turns.len() ==> leads_to(
            raw,
            stage_before(start, turns, i),
            (#[trigger] turns[i]).0,
            turns[i].1,
            turns[i].2,
        )
}

/// One turn of a `wait_then_post`. The guarded action is asked for only by
/// a wait that the backend judged to have succeeded. A wait that failed ends
/// the operation with that failure, and neither the action nor a post
/// follows. Once the action is asked for, nothing but its having run moves
/// the semaphore, and that brings the call with which a post begins,
/// whatever the action gave.
pub proof fn lemma_guarded_turn<B: RawBackend>(
    raw: B,
    stage: Stage,
    event: Event<B::Reply>,
    next: Stage,
    action: Action<B::Call>,
)
    requires
        leads_to(raw, stage, event, next, action),
    ensures
        action is Run ==> stage is Acquiring && next is Holding && event is Returned
            && raw.resumed(Operation::Wait, event->Returned_0, Step::Done(Ok(()))),
        stage is Acquiring && event is Returned && action is Done ==> next is Idle
            && action->Done_0 is Err && raw.resumed(
            Operation::Wait,
            event->Returned_0,
            Step::Done(action->Done_0),
        ),
        stage is Acquiring && event is Ran ==> next is Acquiring && action == Action::<
            B::Call,
        >::Done(Err(Error::Unexpected)),
        stage is Holding && event is Ran ==> next is Releasing && action is Call && Step::Call(
            action->Call_0,
        ) == raw.started(Operation::Post),
        stage is Holding && !(event is Ran) ==> next is Holding && action == Action::<
            B::Call,
        >::Done(Err(Error::Unexpected)),
        next is Holding ==> stage is Acquiring || stage is Holding,
        next is Releasing ==> stage is Holding || stage is Releasing,
{
    raw.lemma_starts_with_call();
    if stage is Acquiring && event is Returned && action is Run {
        let step = choose|step: Step<B::Call>|
            #[trigger] raw.resumed(Operation::Wait, event->Returned_0, step) && (next, action)
                == acquiring_outcome(step);
        let unit: () = step->Done_0->Ok_0;
        assert(step == Step::<B::Call>::Done(Ok(unit)));
    }
}

/// In a run of a `wait_then_post`, a post is owed or outstanding only after
/// the guarded action was asked for: the kernel is never asked to post for a
/// wait that did not succeed.
pub proof fn lemma_post_only_after_run<B: RawBackend>(
    raw: B,
    turns: Seq<(Event<B::Reply>, Stage, Action<B::Call>)>,
    i: int,
)
    requires
        is_run(raw, Stage::Acquiring, turns),
        0 <= i < turns.len(),
        turns[i].1 is Holding || turns[i].1 is Releasing,
    ensures
        exists|k: int| 0 <= k <= i && (#[trigger] turns[k]).2 is Run,
    decreases i,
{
    let before = stage_before(Stage::Acquiring, turns, i);
    lemma_guarded_turn(raw, before, turns[i].0, turns[i].1, turns[i].2);
    if !(before is Acquiring) {
        lemma_post_only_after_run(raw, turns, i - 1);
    }
}

/// In a run of a `wait_then_post`, the semaphore holds from the turn that
/// asked for the guarded action until the action is said to have run.
pub proof fn lemma_holding_until_ran<B: RawBackend>(
    raw: B,
    turns: Seq<(Event<B::Reply>, Stage, Action<B::Call>)>,
    k: int,
    i: int,
)
    requires
        is_run(raw, Stage::Acquiring, turns),
        0 <= k <= i < turns.len(),
        turns[k].2 is Run,
        forall|m: int| k < m <= i ==> !((#[trigger] turns[m]).0 is Ran),
    ensures
        turns[i].1 is Holding,
    decreases i - k,
{
    if i == k {
        lemma_guarded_turn(
            raw,
            stage_before(Stage::Acquiring, turns, k),
            turns[k].0,
            turns[k].1,
            turns[k].2,
        );
    } else {
        lemma_holding_until_ran(raw, turns, k, i - 1);
        lemma_guarded_turn(raw, Stage::Holding, turns[i].0, turns[i].1, turns[i].2);
    }
}

/// In a run of a `wait_then_post`, the post follows the guarded action: once
/// the action was asked for, the first turn that says it ran brings the call
/// with which a post begins, whatever the action gave and whatever else was
/// handed in before.
pub proof fn lemma_post_follows_run<B: RawBackend>(
    raw: B,
    turns: Seq<(Event<B::Reply>, Stage, Action<B::Call>)>,
    k: int,
    j: int,
)
    requires
        is_run(raw, Stage::Acquiring, turns),
        0 <= k < j < turns.len(),
        turns[k].2 is Run,
        turns[j].0 is Ran,
        forall|m: int| k < m < j ==> !((#[trigger] turns[m]).0 is Ran),
    ensures
        turns[j].1 is Releasing,
        turns[j].2 is Call,
        Step::Call(turns[j].2->Call_0) == raw.started(Operation::Post),
{
    lemma_holding_until_ran(raw, turns, k, j - 1);
    lemma_guarded_turn(raw, Stage::Holding, turns[j].0, turns[j].1, turns[j].2);
}

/// In a run of a `wait_then_post`, a wait that failed is the end: the
/// semaphore is idle from then on, and every later event is answered with
/// `Unexpected`, so that no call follows.
pub proof fn lemma_failed_wait_ends_run<B: RawBackend>(
    raw: B,
    turns: Seq<(Event<B::Reply>, Stage, Action<B::Call>)>,
    k: int,
    j: int,
)
    requires
        is_run(raw, Stage::Acquiring, turns),
        0 <= k <= j < turns.len(),
        stage_before(Stage::Acquiring, turns, k) is Acquiring,
        turns[k].0 is Returned,
        turns[k].2 is Done,
    ensures
        turns[k].2->Done_0 is Err,
        turns[j].1 is Idle,
        j > k ==> turns[j].2 == Action::<B::Call>::Done(Err(Error::Unexpected)),
    decreases j - k,
{
    lemma_guarded_turn(raw, Stage::Acquiring, turns[k].0, turns[k].1, turns[k].2);
    if j > k {
        lemma_failed_wait_ends_run(raw, turns, k, j - 1);
    }
}

} // verus!
