//! The messaging service that the dispatch router drives.

use vstd::prelude::*;
use crate::message::{body_view, messages_view, BrokerMessage, MessageModel};

verus! {

/// What `request` returned, as contracts speak of it.
pub open spec fn message_outcome(outcome: Result<BrokerMessage, String>) -> Result<
    MessageModel,
    Seq<char>,
> {
    match outcome {
        Ok(message) => Ok(message@),
        Err(reason) => Err(reason@),
    }
}

/// What `request_multi` returned, as contracts speak of it.
pub open spec fn messages_outcome(outcome: Result<Vec<BrokerMessage>, String>) -> Result<
    Seq<MessageModel>,
    Seq<char>,
> {
    match outcome {
        Ok(messages) => Ok(messages_view(messages@)),
        Err(reason) => Err(reason@),
    }
}

/// What `publish` returned, as contracts speak of it.
pub open spec fn unit_outcome(outcome: Result<(), String>) -> Result<(), Seq<char>> {
    match outcome {
        Ok(()) => Ok(()),
        Err(reason) => Err(reason@),
    }
}

/// The three messaging operations. An implementation talks to the broker; the
/// router only hands it the decoded fields and takes back what it returns. A
/// business error is a plain string, so that it can cross the boundary.
///
/// Each operation comes with a relation that says which outcomes it may have
/// for given arguments. The router's contracts are stated through these
/// relations; they promise nothing by themselves.
pub trait Consumer {
    /// The caller-supplied context. It is passed on and never looked into.
    type Context;

    /// Whether `request` with these arguments may end in `outcome`. Where an
    /// implementation does not say, every outcome may come.
    open spec fn request_may_yield(
        &self,
        ctx: Self::Context,
        subject: Seq<char>,
        body: Option<Seq<u8>>,
        timeout_ms: u32,
        outcome: Result<MessageModel, Seq<char>>,
    ) -> bool {
        true
    }

    /// Whether `request_multi` with these arguments may end in `outcome`.
    /// Where an implementation does not say, every outcome may come.
    open spec fn request_multi_may_yield(
        &self,
        ctx: Self::Context,
        subject: Seq<char>,
        body: Option<Seq<u8>>,
        timeout_ms: u32,
        max_results: u32,
        outcome: Result<Seq<MessageModel>, Seq<char>>,
    ) -> bool {
        true
    }

    /// Whether `publish` with these arguments may end in `outcome`. Where an
    /// implementation does not say, every outcome may come.
    open spec fn publish_may_yield(
        &self,
        ctx: Self::Context,
        msg: MessageModel,
        outcome: Result<(), Seq<char>>,
    ) -> bool {
        true
    }

    /// Sends a message on `subject` and waits up to `timeout_ms` milliseconds
    /// for exactly one reply.
    fn request(
        &self,
        ctx: Self::Context,
        subject: String,
        body: Option<Vec<u8>>,
        timeout_ms: u32,
    ) -> (outcome: Result<BrokerMessage, String>)
        ensures
            self.request_may_yield(
                ctx,
                subject@,
                body_view(body),
                timeout_ms,
                message_outcome(outcome),
            ),
    ;

    /// Sends a message on `subject` and collects replies until `max_results`
    /// have arrived or `timeout_ms` milliseconds have passed.
    fn request_multi(
        &self,
        ctx: Self::Context,
        subject: String,
        body: Option<Vec<u8>>,
        timeout_ms: u32,
        max_results: u32,
    ) -> (outcome: Result<Vec<BrokerMessage>, String>)
        ensures
            self.request_multi_may_yield(
                ctx,
                subject@,
                body_view(body),
                timeout_ms,
                max_results,
                messages_outcome(outcome),
            ),
    ;

    /// Hands `msg` to the broker for delivery on its subject.
    fn publish(&self, ctx: Self::Context, msg: BrokerMessage) -> (outcome: Result<(), String>)
        ensures
            self.publish_may_yield(ctx, msg@, unit_outcome(outcome)),
    ;
}

} // verus!
