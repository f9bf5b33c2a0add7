//! Runs of a dispatch: what holds of every sequence of answers that a host
//! may give, and of many dispatches in flight at once.

use vstd::prelude::*;
use crate::dispatch::{
    after_decode, after_encode, after_invoke, begin, malformed, undecodable, InvocationModel,
    ReplyModel, StepModel,
};
use crate::error::ErrorKind;
use crate::method::{method_named, Method};

verus! {

/// An answer of the host to the step that is pending.
pub enum Event {
    /// What decoding the payload gave.
    Decoded(Result<InvocationModel, Seq<char>>),
    /// What the operation returned.
    Completed(Result<ReplyModel, Seq<char>>),
    /// What serializing the reply gave.
    Encoded(Result<Seq<u8>, Seq<char>>),
}

/// The step after `event`. An event that does not answer the pending step
/// changes nothing, and nothing follows a dispatch that is over.
pub open spec fn next(step: StepModel, event: Event) -> StepModel {
    match (step, event) {
        (StepModel::Decode { method, payload }, Event::Decoded(outcome)) => after_decode(
            method,
            outcome,
        ),
        (StepModel::Invoke { invocation }, Event::Completed(outcome)) => after_invoke(
            invocation.method(),
            outcome,
        ),
        (StepModel::Encode { reply }, Event::Encoded(outcome)) => after_encode(outcome),
        _ => step,
    }
}

/// The step after all of `events`, taken in order.
pub open spec fn run(step: StepModel, events: Seq<Event>) -> StepModel
    decreases events.len(),
{
    if events.len() == 0 {
        step
    } else {
        next(run(step, events.drop_last()), events.last())
    }
}

/// Whether `step` can stand in a dispatch of the method name `name`: what is
/// decoded, invoked and encoded belongs to the method of that name, and a
/// malformed-invocation failure comes for unknown names only and names them.
pub open spec fn serves(step: StepModel, name: Seq<char>) -> bool {
    match step {
        StepModel::Decode { method, payload } => method_named(name) == Some(method),
        StepModel::Invoke { invocation } => method_named(name) == Some(invocation.method()),
        StepModel::Encode { reply } => method_named(name) == Some(reply.method()),
        StepModel::Done { result } => match result {
            Ok(_) => method_named(name) is Some,
            Err(failure) => if method_named(name) is None {
                failure == malformed(name)
            } else {
                failure.kind != ErrorKind::Malformed
            },
        },
    }
}

/// A dispatch that is over stays as it is, whatever the host answers.
pub proof fn lemma_done_is_final(step: StepModel, events: Seq<Event>)
    requires
        step is Done,
    ensures
        run(step, events) == step,
    decreases events.len(),
{
    if events.len() > 0 {
        lemma_done_is_final(step, events.drop_last());
    }
}

/// A method name outside the table always gives a malformed-invocation
/// failure that names it, and no run of that dispatch ever reaches a step
/// that decodes, invokes or encodes.
pub proof fn lemma_unknown_method_never_invokes(
    name: Seq<char>,
    payload: Seq<u8>,
    events: Seq<Event>,
)
    requires
        method_named(name) is None,
    ensures
        begin(name, payload) == (StepModel::Done { result: Err(malformed(name)) }),
        run(begin(name, payload), events) == begin(name, payload),
        !(run(begin(name, payload), events) is Invoke),
{
    lemma_done_is_final(begin(name, payload), events);
}

/// A payload that fails to decode always gives a deserialization failure that
/// names the method, and no run of that dispatch from there on ever reaches a
/// step that invokes.
pub proof fn lemma_undecodable_payload_never_invokes(
    method: Method,
    payload: Seq<u8>,
    detail: Seq<char>,
    events: Seq<Event>,
)
    ensures
        ({
            let rejected = next(StepModel::Decode { method, payload }, Event::Decoded(Err(detail)));
            &&& rejected == (StepModel::Done { result: Err(undecodable(method, detail)) })
            &&& run(rejected, events) == rejected
            &&& !(run(rejected, events) is Invoke)
        }),
{
    let rejected = next(StepModel::Decode { method, payload }, Event::Decoded(Err(detail)));
    lemma_done_is_final(rejected, events);
}

/// One answer keeps a dispatch on its method.
pub proof fn lemma_next_serves(step: StepModel, name: Seq<char>, event: Event)
    requires
        serves(step, name),
    ensures
        serves(next(step, event), name),
{
}

/// Every run of a dispatch stays on the method it was started with: only the
/// request shape of that method is ever handed to an operation, only a reply
/// of that method is ever serialized, and the failure is a
/// malformed-invocation failure exactly when the name is not in the table.
pub proof fn lemma_run_serves(name: Seq<char>, payload: Seq<u8>, events: Seq<Event>)
    ensures
        serves(run(begin(name, payload), events), name),
    decreases events.len(),
{
    if events.len() > 0 {
        lemma_run_serves(name, payload, events.drop_last());
        lemma_next_serves(run(begin(name, payload), events.drop_last()), name, events.last());
    }
}

/// How many answers a dispatch still waits for, at most.
pub open spec fn steps_left(step: StepModel) -> nat {
    match step {
        StepModel::Decode { .. } => 3,
        StepModel::Invoke { .. } => 2,
        StepModel::Encode { .. } => 1,
        StepModel::Done { .. } => 0,
    }
}

/// Whether `event` answers the step that is pending.
pub open spec fn answers(step: StepModel, event: Event) -> bool {
    match (step, event) {
        (StepModel::Decode { .. }, Event::Decoded(_)) => true,
        (StepModel::Invoke { .. }, Event::Completed(_)) => true,
        (StepModel::Encode { .. }, Event::Encoded(_)) => true,
        _ => false,
    }
}

/// Every answer brings a dispatch nearer to its end, and a failure ends it at
/// once: after at most three answers a dispatch is over.
pub proof fn lemma_answer_makes_progress(step: StepModel, event: Event)
    requires
        answers(step, event),
    ensures
        steps_left(next(step, event)) < steps_left(step),
        (event matches Event::Decoded(Err(_))) ==> next(step, event) is Done,
        (event matches Event::Completed(Err(_))) ==> next(step, event) is Done,
        (event matches Event::Encoded(_)) ==> next(step, event) is Done,
{
}

/// Many dispatches in flight: the state of each, by position.
pub type Flight = Seq<StepModel>;

/// The flight after `event` was handed to the dispatch at position `to`.
/// Every other dispatch is left as it was.
pub open spec fn deliver(flight: Flight, to: int, event: Event) -> Flight {
    if 0 <= to < flight.len() {
        flight.update(to, next(flight[to], event))
    } else {
        flight
    }
}

/// The flight after the answers of `schedule`, each handed to the dispatch it
/// is addressed to, in the order of the schedule.
pub open spec fn run_all(flight: Flight, schedule: Seq<(int, Event)>) -> Flight
    decreases schedule.len(),
{
    if schedule.len() == 0 {
        flight
    } else {
        deliver(run_all(flight, schedule.drop_last()), schedule.last().0, schedule.last().1)
    }
}

/// The answers of `schedule` that are addressed to position `to`, in order.
pub open spec fn answers_to(schedule: Seq<(int, Event)>, to: int) -> Seq<Event>
    decreases schedule.len(),
{
    if schedule.len() == 0 {
        Seq::empty()
    } else if schedule.last().0 == to {
        answers_to(schedule.drop_last(), to).push(schedule.last().1)
    } else {
        answers_to(schedule.drop_last(), to)
    }
}

/// Dispatches in flight do not touch each other: however the answers to many
/// dispatches are interleaved, each dispatch ends up where it would have if
/// it had received its own answers alone.
pub proof fn lemma_no_cross_talk(flight: Flight, schedule: Seq<(int, Event)>, at: int)
    requires
        0 <= at < flight.len(),
    ensures
        run_all(flight, schedule).len() == flight.len(),
        run_all(flight, schedule)[at] == run(flight[at], answers_to(schedule, at)),
    decreases schedule.len(),
{
    if schedule.len() > 0 {
        let earlier = schedule.drop_last();
        lemma_no_cross_talk(flight, earlier, at);
        if schedule.last().0 == at {
            let mine = answers_to(earlier, at).push(schedule.last().1);
            assert(mine.drop_last() == answers_to(earlier, at));
            assert(mine.last() == schedule.last().1);
        }
    }
}

} // verus!
