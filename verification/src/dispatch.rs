//! The dispatch router: from a method name and a payload to the bytes of a
//! reply, or to a failure of one of three kinds.
//!
//! The router decides; it does not decode, wait or encode. A dispatch is a
//! short run of steps. Each step names the one thing the host has to do next,
//! and the host hands back what came of it:
//!
//! 1. [`dispatch`] looks the method up. An unknown name ends the run at once.
//! 2. `Decode`: the host decodes the payload as the request shape of the
//!    method.
//! 3. `Invoke`: the host runs the operation with the decoded fields (or lets
//!    [`Invoking::perform`] run it on a [`Consumer`]).
//! 4. `Encode`: the host serializes the reply.
//! 5. `Done`: the bytes of the reply, or the failure.
//!
//! The run of a dispatch is stated once, over models, by [`begin`],
//! [`after_decode`], [`after_invoke`] and [`after_encode`]; every function
//! below returns what they say.

use vstd::prelude::*;
use vstd::string::StringExecFns;
use crate::consumer::{message_outcome, messages_outcome, unit_outcome, Consumer};
use crate::error::{bytes_result, DispatchError, ErrorKind, Failure};
use crate::message::{
    messages_view, BrokerMessage, MessageModel, PublishBody, PublishModel, RequestBody,
    RequestModel, RequestMultiBody, RequestMultiModel,
};
use crate::method::{method_named, Method};

verus! {

/// A decoded request as contracts speak of it.
pub enum InvocationModel {
    Request(RequestModel),
    RequestMulti(RequestMultiModel),
    Publish(PublishModel),
}

impl InvocationModel {
    /// The method whose request shape this is.
    pub open spec fn method(self) -> Method {
        match self {
            InvocationModel::Request(_) => Method::Request,
            InvocationModel::RequestMulti(_) => Method::RequestMulti,
            InvocationModel::Publish(_) => Method::Publish,
        }
    }
}

/// A decoded request: the request shape of one of the methods.
#[derive(Clone, Debug, PartialEq, Eq)]
pub enum Invocation {
    Request(RequestBody),
    RequestMulti(RequestMultiBody),
    Publish(PublishBody),
}

impl View for Invocation {
    type V = InvocationModel;

    open spec fn view(&self) -> InvocationModel {
        match self {
            Invocation::Request(body) => InvocationModel::Request(body@),
            Invocation::RequestMulti(body) => InvocationModel::RequestMulti(body@),
            Invocation::Publish(body) => InvocationModel::Publish(body@),
        }
    }
}

impl Invocation {
    /// The method whose request shape this is.
    pub fn method(&self) -> (method: Method)
        ensures
            method == self@.method(),
    {
        match self {
            Invocation::Request(_) => Method::Request,
            Invocation::RequestMulti(_) => Method::RequestMulti,
            Invocation::Publish(_) => Method::Publish,
        }
    }
}

/// What an operation returned on success, as contracts speak of it.
pub enum ReplyModel {
    Request(MessageModel),
    RequestMulti(Seq<MessageModel>),
    Publish,
}

impl ReplyModel {
    /// The method whose operation returns a reply of this kind.
    pub open spec fn method(self) -> Method {
        match self {
            ReplyModel::Request(_) => Method::Request,
            ReplyModel::RequestMulti(_) => Method::RequestMulti,
            ReplyModel::Publish => Method::Publish,
        }
    }
}

/// What an operation returned on success: one message, the messages
/// collected in arrival order, or nothing.
#[derive(Clone, Debug, PartialEq, Eq)]
pub enum Reply {
    Request(BrokerMessage),
    RequestMulti(Vec<BrokerMessage>),
    Publish,
}

impl View for Reply {
    type V = ReplyModel;

    open spec fn view(&self) -> ReplyModel {
        match self {
            Reply::Request(message) => ReplyModel::Request(message@),
            Reply::RequestMulti(messages) => ReplyModel::RequestMulti(messages_view(messages@)),
            Reply::Publish => ReplyModel::Publish,
        }
    }
}

impl Reply {
    /// The method whose operation returns a reply of this kind.
    pub fn method(&self) -> (method: Method)
        ensures
            method == self@.method(),
    {
        match self {
            Reply::Request(_) => Method::Request,
            Reply::RequestMulti(_) => Method::RequestMulti,
            Reply::Publish => Method::Publish,
        }
    }
}

/// Where a dispatch stands, as contracts speak of it.
pub enum StepModel {
    /// The payload waits to be decoded as the request shape of `method`.
    Decode { method: Method, payload: Seq<u8> },
    /// The operation waits to be run with the fields of `invocation`.
    Invoke { invocation: InvocationModel },
    /// The reply waits to be serialized.
    Encode { reply: ReplyModel },
    /// The dispatch is over.
    Done { result: Result<Seq<u8>, Failure> },
}

/// The failure for a method name that the table does not hold. Its message
/// names the method.
pub open spec fn malformed(name: Seq<char>) -> Failure {
    Failure { kind: ErrorKind::Malformed, message: "Invalid method name "@ + name }
}

/// The failure for a payload that did not give the request shape of `method`.
/// Its message names the method, then says what went wrong.
pub open spec fn undecodable(method: Method, detail: Seq<char>) -> Failure {
    Failure { kind: ErrorKind::Deserialization, message: method.wire_name() + ": "@ + detail }
}

/// The failure for an operation, or a layer below it, that gave `reason`.
pub open spec fn failed(reason: Seq<char>) -> Failure {
    Failure { kind: ErrorKind::Provider, message: reason }
}

/// What is said of a payload that decoded into another method's shape.
pub open spec fn wrong_request() -> Seq<char> {
    "unexpected request shape"@
}

/// What is said of a reply that another method's operation would give.
pub open spec fn wrong_reply(method: Method) -> Seq<char> {
    method.wire_name() + ": unexpected reply shape"@
}

/// The first step: decode, for a method of the table; for any other name the
/// dispatch is over before it began.
pub open spec fn begin(name: Seq<char>, payload: Seq<u8>) -> StepModel {
    match method_named(name) {
        Some(method) => StepModel::Decode { method, payload },
        None => StepModel::Done { result: Err(malformed(name)) },
    }
}

/// The step after decoding: invoke, for the request shape of `method`; in
/// every other case the dispatch is over with a deserialization failure.
pub open spec fn after_decode(
    method: Method,
    outcome: Result<InvocationModel, Seq<char>>,
) -> StepModel {
    match outcome {
        Ok(invocation) => if invocation.method() == method {
            StepModel::Invoke { invocation }
        } else {
            StepModel::Done { result: Err(undecodable(method, wrong_request())) }
        },
        Err(detail) => StepModel::Done { result: Err(undecodable(method, detail)) },
    }
}

/// The step after the operation of `method`: encode, for a reply of that
/// method; a business error ends the dispatch as a provider failure that
/// carries the error's string unchanged.
pub open spec fn after_invoke(method: Method, outcome: Result<ReplyModel, Seq<char>>) -> StepModel {
    match outcome {
        Ok(reply) => if reply.method() == method {
            StepModel::Encode { reply }
        } else {
            StepModel::Done { result: Err(failed(wrong_reply(method))) }
        },
        Err(reason) => StepModel::Done { result: Err(failed(reason)) },
    }
}

/// The last step: the bytes of the reply, or a provider failure where the
/// reply could not be serialized.
pub open spec fn after_encode(outcome: Result<Seq<u8>, Seq<char>>) -> StepModel {
    match outcome {
        Ok(bytes) => StepModel::Done { result: Ok(bytes) },
        Err(reason) => StepModel::Done { result: Err(failed(reason)) },
    }
}

/// What decoding gave, as contracts speak of it.
pub open spec fn decode_outcome(outcome: Result<Invocation, String>) -> Result<
    InvocationModel,
    Seq<char>,
> {
    match outcome {
        Ok(invocation) => Ok(invocation@),
        Err(detail) => Err(detail@),
    }
}

/// What the operation gave, as contracts speak of it.
pub open spec fn invoke_outcome(outcome: Result<Reply, String>) -> Result<ReplyModel, Seq<char>> {
    match outcome {
        Ok(reply) => Ok(reply@),
        Err(reason) => Err(reason@),
    }
}

/// What serializing gave, as contracts speak of it.
pub open spec fn encode_outcome(outcome: Result<Vec<u8>, String>) -> Result<Seq<u8>, Seq<char>> {
    match outcome {
        Ok(bytes) => Ok(bytes@),
        Err(reason) => Err(reason@),
    }
}

/// A dispatch whose payload waits to be decoded.
pub struct DecodingModel {
    pub method: Method,
    pub payload: Seq<u8>,
}

/// A dispatch whose payload waits to be decoded. Only [`dispatch`] makes one,
/// so the method is always one of the table.
#[derive(Debug)]
pub struct Decoding {
    method: Method,
    payload: Vec<u8>,
}

impl View for Decoding {
    type V = DecodingModel;

    closed spec fn view(&self) -> DecodingModel {
        DecodingModel { method: self.method, payload: self.payload@ }
    }
}

/// A dispatch whose operation waits to be run. Only a decoded request of the
/// dispatched method makes one.
#[derive(Debug)]
pub struct Invoking {
    invocation: Invocation,
}

impl View for Invoking {
    type V = InvocationModel;

    closed spec fn view(&self) -> InvocationModel {
        self.invocation@
    }
}

/// A dispatch whose reply waits to be serialized. Only an operation that
/// succeeded makes one.
#[derive(Debug)]
pub struct Encoding {
    reply: Reply,
}

impl View for Encoding {
    type V = ReplyModel;

    closed spec fn view(&self) -> ReplyModel {
        self.reply@
    }
}

/// Where a dispatch stands, and with it what the host has to do next.
#[derive(Debug)]
pub enum Step {
    /// Decode the payload as the request shape of the method, then `resume`.
    Decode(Decoding),
    /// Run the operation with the decoded fields, then `resume`.
    Invoke(Invoking),
    /// Serialize the reply, then `resume`.
    Encode(Encoding),
    /// Return this to the caller.
    Done(Result<Vec<u8>, DispatchError>),
}

impl View for Step {
    type V = StepModel;

    open spec fn view(&self) -> StepModel {
        match self {
            Step::Decode(decoding) => StepModel::Decode {
                method: decoding@.method,
                payload: decoding@.payload,
            },
            Step::Invoke(invoking) => StepModel::Invoke { invocation: invoking@ },
            Step::Encode(encoding) => StepModel::Encode { reply: encoding@ },
            Step::Done(result) => StepModel::Done { result: bytes_result(*result) },
        }
    }
}

/// Starts the dispatch of one invocation: `method` names the operation and
/// `payload` holds its serialized request.
///
/// For one of the three wire names the payload is to be decoded next. Any
/// other name ends the dispatch here with a malformed-invocation failure whose
/// message is `Invalid method name ` followed by the name.
pub fn dispatch(method: &str, payload: Vec<u8>) -> (step: Step)
    ensures
        step@ == begin(method@, payload@),
{
    match Method::from_name(method) {
        Some(found) => Step::Decode(Decoding { method: found, payload }),
        None => {
            let message = String::from_str("Invalid method name ").concat(method);
            Step::Done(Err(DispatchError::Malformed(message)))
        },
    }
}

impl Decoding {
    /// The method whose request shape the payload is to be decoded as.
    pub fn method(&self) -> (method: Method)
        ensures
            method == self@.method,
    {
        self.method
    }

    /// The payload as it arrived.
    pub fn payload(&self) -> (payload: &Vec<u8>)
        ensures
            payload@ == self@.payload,
    {
        &self.payload
    }

    /// Takes what decoding the payload gave.
    ///
    /// The request shape of the dispatched method is handed on unchanged as
    /// the next step's invocation. A decoding error, or the shape of another
    /// method, ends the dispatch with a deserialization failure that names the
    /// method; no operation is invoked.
    pub fn resume(self, outcome: Result<Invocation, String>) -> (step: Step)
        ensures
            step@ == after_decode(self@.method, decode_outcome(outcome)),
    {
        match outcome {
            Ok(invocation) => {
                if invocation.method() == self.method {
                    Step::Invoke(Invoking { invocation })
                } else {
                    Step::Done(Err(undecodable_error(self.method, "unexpected request shape")))
                }
            },
            Err(detail) => Step::Done(Err(undecodable_error(self.method, detail.as_str()))),
        }
    }
}

fn undecodable_error(method: Method, detail: &str) -> (error: DispatchError)
    ensures
        error@ == undecodable(method, detail@),
{
    let mut message = String::from_str(method.name());
    message.append(": ");
    message.append(detail);
    DispatchError::Deserialization(message)
}

impl Invoking {
    /// The decoded request whose fields the operation is to be run with.
    pub fn invocation(&self) -> (invocation: &Invocation)
        ensures
            invocation@ == self@,
    {
        &self.invocation
    }

    /// Takes what the operation returned.
    ///
    /// A reply is handed on unchanged to be serialized. A business error ends
    /// the dispatch with a provider failure whose message is that error's
    /// string, and so does a reply that belongs to another method.
    pub fn resume(self, outcome: Result<Reply, String>) -> (step: Step)
        ensures
            step@ == after_invoke(self@.method(), invoke_outcome(outcome)),
    {
        settle(self.invocation.method(), outcome)
    }

    /// Runs the operation on `consumer` and takes what it returned.
    ///
    /// The operation is the one of the decoded request's method. It gets
    /// `ctx` and the decoded fields, each unchanged, and nothing else is
    /// called. The next step is what [`Invoking::resume`] gives for the
    /// operation's outcome.
    pub fn perform<C: Consumer>(self, consumer: &C, ctx: C::Context) -> (step: Step)
        ensures
            exists|outcome: Result<ReplyModel, Seq<char>>|
                #[trigger] may_yield(consumer, ctx, self@, outcome) && step@ == after_invoke(
                    self@.method(),
                    outcome,
                ),
    {
        let method = self.invocation.method();
        let ghost asked = self@;
        let outcome = match self.invocation {
            Invocation::Request(body) => {
                let ghost fields = body@;
                let returned = consumer.request(ctx, body.subject, body.body, body.timeout_ms);
                proof {
                    assert(asked == InvocationModel::Request(fields));
                    assert(consumer.request_may_yield(
                        ctx,
                        fields.subject,
                        fields.body,
                        fields.timeout_ms,
                        message_outcome(returned),
                    ));
                }
                match returned {
                    Ok(message) => Ok(Reply::Request(message)),
                    Err(reason) => Err(reason),
                }
            },
            Invocation::RequestMulti(body) => {
                let ghost fields = body@;
                let returned = consumer.request_multi(
                    ctx,
                    body.subject,
                    body.body,
                    body.timeout_ms,
                    body.max_results,
                );
                proof {
                    assert(asked == InvocationModel::RequestMulti(fields));
                    assert(consumer.request_multi_may_yield(
                        ctx,
                        fields.subject,
                        fields.body,
                        fields.timeout_ms,
                        fields.max_results,
                        messages_outcome(returned),
                    ));
                }
                match returned {
                    Ok(messages) => Ok(Reply::RequestMulti(messages)),
                    Err(reason) => Err(reason),
                }
            },
            Invocation::Publish(body) => {
                let ghost fields = body@;
                let returned = consumer.publish(ctx, body.msg);
                proof {
                    assert(asked == InvocationModel::Publish(fields));
                    assert(consumer.publish_may_yield(ctx, fields.msg, unit_outcome(returned)));
                }
                match returned {
                    Ok(()) => Ok(Reply::Publish),
                    Err(reason) => Err(reason),
                }
            },
        };
        assert(may_yield(consumer, ctx, asked, invoke_outcome(outcome)));
        settle(method, outcome)
    }
}

fn settle(method: Method, outcome: Result<Reply, String>) -> (step: Step)
    ensures
        step@ == after_invoke(method, invoke_outcome(outcome)),
{
    match outcome {
        Ok(reply) => {
            if reply.method() == method {
                Step::Encode(Encoding { reply })
            } else {
                let mut message = String::from_str(method.name());
                message.append(": unexpected reply shape");
                Step::Done(Err(DispatchError::Provider(message)))
            }
        },
        Err(reason) => Step::Done(Err(DispatchError::Provider(reason))),
    }
}

/// The outcome of `request` as the outcome of an invocation.
pub open spec fn request_reply(outcome: Result<MessageModel, Seq<char>>) -> Result<
    ReplyModel,
    Seq<char>,
> {
    match outcome {
        Ok(message) => Ok(ReplyModel::Request(message)),
        Err(reason) => Err(reason),
    }
}

/// The outcome of `request_multi` as the outcome of an invocation.
pub open spec fn request_multi_reply(outcome: Result<Seq<MessageModel>, Seq<char>>) -> Result<
    ReplyModel,
    Seq<char>,
> {
    match outcome {
        Ok(messages) => Ok(ReplyModel::RequestMulti(messages)),
        Err(reason) => Err(reason),
    }
}

/// The outcome of `publish` as the outcome of an invocation.
pub open spec fn publish_reply(outcome: Result<(), Seq<char>>) -> Result<ReplyModel, Seq<char>> {
    match outcome {
        Ok(()) => Ok(ReplyModel::Publish),
        Err(reason) => Err(reason),
    }
}

/// Whether running `invocation` on `consumer` with `ctx` may end in
/// `outcome`: the operation of the invocation's method, called with the
/// decoded fields, may return it.
pub open spec fn may_yield<C: Consumer>(
    consumer: &C,
    ctx: C::Context,
    invocation: InvocationModel,
    outcome: Result<ReplyModel, Seq<char>>,
) -> bool {
    match invocation {
        InvocationModel::Request(body) => exists|returned: Result<MessageModel, Seq<char>>|
            #[trigger] consumer.request_may_yield(
                ctx,
                body.subject,
                body.body,
                body.timeout_ms,
                returned,
            ) && outcome == request_reply(returned),
        InvocationModel::RequestMulti(body) => exists|returned: Result<Seq<MessageModel>, Seq<char>>|
            #[trigger] consumer.request_multi_may_yield(
                ctx,
                body.subject,
                body.body,
                body.timeout_ms,
                body.max_results,
                returned,
            ) && outcome == request_multi_reply(returned),
        InvocationModel::Publish(body) => exists|returned: Result<(), Seq<char>>|
            #[trigger] consumer.publish_may_yield(ctx, body.msg, returned) && outcome
                == publish_reply(returned),
    }
}

impl Encoding {
    /// The reply that is to be serialized.
    pub fn reply(&self) -> (reply: &Reply)
        ensures
            reply@ == self@,
    {
        &self.reply
    }

    /// Takes what serializing the reply gave and ends the dispatch: with the
    /// bytes unchanged, or with a provider failure whose message is the
    /// serializer's error.
    pub fn resume(self, outcome: Result<Vec<u8>, String>) -> (step: Step)
        ensures
            step@ == after_encode(encode_outcome(outcome)),
    {
        match outcome {
            Ok(bytes) => Step::Done(Ok(bytes)),
            Err(reason) => Step::Done(Err(DispatchError::Provider(reason))),
        }
    }
}

} // verus!
