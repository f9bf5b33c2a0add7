//! The message that travels over the broker, and the request shape of each
//! method.

use vstd::prelude::*;

verus! {

/// An optional byte payload as contracts speak of it. An absent payload and an
/// empty one are different values.
pub open spec fn body_view(body: Option<Vec<u8>>) -> Option<Seq<u8>> {
    match body {
        Some(bytes) => Some(bytes@),
        None => None,
    }
}

/// A body that is absent is never the same as one that is present, however
/// few bytes the latter holds.
pub proof fn lemma_absent_body_is_not_empty(bytes: Vec<u8>)
    ensures
        body_view(None) != body_view(Some(bytes)),
        body_view(Some(bytes)) == Some(bytes@),
{
}

/// An optional string as contracts speak of it.
pub open spec fn text_view(text: Option<String>) -> Option<Seq<char>> {
    match text {
        Some(text) => Some(text@),
        None => None,
    }
}

/// A list of messages as contracts speak of it: the view of each, in order.
pub open spec fn messages_view(messages: Seq<BrokerMessage>) -> Seq<MessageModel> {
    messages.map_values(|message: BrokerMessage| message@)
}

/// A message as contracts speak of it.
pub struct MessageModel {
    pub subject: Seq<char>,
    pub body: Option<Seq<u8>>,
    pub reply_to: Option<Seq<char>>,
}

/// The unit of broker communication.
#[derive(Clone, Debug, PartialEq, Eq)]
pub struct BrokerMessage {
    /// The routing string on which the message travels.
    pub subject: String,
    /// The payload. `None` is not the same as `Some` of no bytes.
    pub body: Option<Vec<u8>>,
    /// The subject on which correlated replies are expected.
    pub reply_to: Option<String>,
}

impl View for BrokerMessage {
    type V = MessageModel;

    open spec fn view(&self) -> MessageModel {
        MessageModel {
            subject: self.subject@,
            body: body_view(self.body),
            reply_to: text_view(self.reply_to),
        }
    }
}

/// The request shape of `Message.Request` as contracts speak of it.
pub struct RequestModel {
    pub subject: Seq<char>,
    pub body: Option<Seq<u8>>,
    pub timeout_ms: u32,
}

/// The request shape of `Message.Request`.
#[derive(Clone, Debug, PartialEq, Eq)]
pub struct RequestBody {
    pub subject: String,
    pub body: Option<Vec<u8>>,
    pub timeout_ms: u32,
}

impl View for RequestBody {
    type V = RequestModel;

    open spec fn view(&self) -> RequestModel {
        RequestModel {
            subject: self.subject@,
            body: body_view(self.body),
            timeout_ms: self.timeout_ms,
        }
    }
}

/// The request shape of `Message.RequestMulti` as contracts speak of it.
pub struct RequestMultiModel {
    pub subject: Seq<char>,
    pub body: Option<Seq<u8>>,
    pub timeout_ms: u32,
    pub max_results: u32,
}

/// The request shape of `Message.RequestMulti`.
#[derive(Clone, Debug, PartialEq, Eq)]
pub struct RequestMultiBody {
    pub subject: String,
    pub body: Option<Vec<u8>>,
    pub timeout_ms: u32,
    pub max_results: u32,
}

impl View for RequestMultiBody {
    type V = RequestMultiModel;

    open spec fn view(&self) -> RequestMultiModel {
        RequestMultiModel {
            subject: self.subject@,
            body: body_view(self.body),
            timeout_ms: self.timeout_ms,
            max_results: self.max_results,
        }
    }
}

/// The request shape of `Message.Publish` as contracts speak of it.
pub struct PublishModel {
    pub msg: MessageModel,
}

/// The request shape of `Message.Publish`.
#[derive(Clone, Debug, PartialEq, Eq)]
pub struct PublishBody {
    pub msg: BrokerMessage,
}

impl View for PublishBody {
    type V = PublishModel;

    open spec fn view(&self) -> PublishModel {
        PublishModel { msg: self.msg@ }
    }
}

} // verus!
