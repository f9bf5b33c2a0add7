//! The inbound delivery path: a message that the broker delivered for a
//! subscription is handed to the linked actor by one outbound call.
//!
//! The handler decides what is called and what the answer means. The host
//! serializes the message and performs the call. A delivery is attempted
//! once; nothing is retried or queued here.

use vstd::prelude::*;
use vstd::string::StringExecFns;
use crate::dispatch::failed;
use crate::error::{unit_result, DispatchError, Failure};
use crate::message::{text_view, BrokerMessage, MessageModel};

verus! {

/// The contract under which the provider side of a link is addressed.
pub open spec fn messaging_contract() -> Seq<char> {
    "wasmcloud:messaging"@
}

/// The name of the outbound call that delivers a message.
pub open spec fn handle_method() -> Seq<char> {
    "Message.Handle"@
}

/// A link as contracts speak of it.
pub struct LinkModel {
    pub actor_id: Seq<char>,
    pub provider_id: Seq<char>,
    pub link_name: Seq<char>,
    pub contract_id: Seq<char>,
}

/// The link that binds an actor to a provider instance.
#[derive(Clone, Debug, PartialEq, Eq)]
pub struct LinkDefinition {
    /// The public key of the actor.
    pub actor_id: String,
    /// The public key of the provider.
    pub provider_id: String,
    /// The name of the link.
    pub link_name: String,
    /// The contract that the link was made under.
    pub contract_id: String,
}

impl View for LinkDefinition {
    type V = LinkModel;

    open spec fn view(&self) -> LinkModel {
        LinkModel {
            actor_id: self.actor_id@,
            provider_id: self.provider_id@,
            link_name: self.link_name@,
            contract_id: self.contract_id@,
        }
    }
}

/// One end of an outbound call as contracts speak of it.
pub struct EntityModel {
    pub public_key: Seq<char>,
    pub link_name: Seq<char>,
    pub contract_id: Seq<char>,
}

/// One end of an outbound call. A provider has all three fields; an actor has
/// its public key and nothing else.
#[derive(Clone, Debug, PartialEq, Eq)]
pub struct Entity {
    pub public_key: String,
    pub link_name: String,
    pub contract_id: String,
}

impl View for Entity {
    type V = EntityModel;

    open spec fn view(&self) -> EntityModel {
        EntityModel {
            public_key: self.public_key@,
            link_name: self.link_name@,
            contract_id: self.contract_id@,
        }
    }
}

/// The provider side of `link`, from which deliveries are sent: the
/// provider's key and link name under the messaging contract, whatever
/// contract the link itself names.
pub open spec fn source_of(link: LinkModel) -> EntityModel {
    EntityModel {
        public_key: link.provider_id,
        link_name: link.link_name,
        contract_id: messaging_contract(),
    }
}

/// The actor of `link`, to which deliveries go: its key and nothing else.
pub open spec fn target_of(link: LinkModel) -> EntityModel {
    EntityModel { public_key: link.actor_id, link_name: Seq::empty(), contract_id: Seq::empty() }
}

/// An outbound call as contracts speak of it.
pub struct CallModel {
    pub source: EntityModel,
    pub target: EntityModel,
    pub method: Seq<char>,
    pub payload: Seq<u8>,
}

/// Everything the host needs to perform the outbound call.
#[derive(Clone, Debug, PartialEq, Eq)]
pub struct OutboundCall {
    pub source: Entity,
    pub target: Entity,
    pub method: String,
    pub payload: Vec<u8>,
}

impl View for OutboundCall {
    type V = CallModel;

    open spec fn view(&self) -> CallModel {
        CallModel {
            source: self.source@,
            target: self.target@,
            method: self.method@,
            payload: self.payload@,
        }
    }
}

/// The call that delivers `payload` from `source` to `target`.
pub open spec fn delivery_call(
    source: EntityModel,
    target: EntityModel,
    payload: Seq<u8>,
) -> CallModel {
    CallModel { source, target, method: handle_method(), payload }
}

/// What the outbound call answered: the in-band error field of the response.
#[derive(Clone, Debug, PartialEq, Eq)]
pub struct InvocationResponse {
    pub error: Option<String>,
}

/// Where a delivery stands, as contracts speak of it.
pub enum DeliveryModel {
    /// The message waits to be serialized.
    Encode { source: EntityModel, target: EntityModel, message: MessageModel },
    /// The call waits to be performed.
    Send { call: CallModel },
    /// The delivery is over.
    Done { result: Result<(), Failure> },
}

/// The step after serializing: the call that carries the bytes, or a provider
/// failure with the serializer's error.
pub open spec fn after_pack(
    source: EntityModel,
    target: EntityModel,
    outcome: Result<Seq<u8>, Seq<char>>,
) -> DeliveryModel {
    match outcome {
        Ok(payload) => DeliveryModel::Send { call: delivery_call(source, target, payload) },
        Err(reason) => DeliveryModel::Done { result: Err(failed(reason)) },
    }
}

/// How a delivery ends: with a provider failure where the call itself failed
/// or its response carries an error, and with success otherwise. The failure
/// carries the error's string unchanged.
pub open spec fn after_send(outcome: Result<Option<Seq<char>>, Seq<char>>) -> Result<(), Failure> {
    match outcome {
        Ok(None) => Ok(()),
        Ok(Some(error)) => Err(failed(error)),
        Err(reason) => Err(failed(reason)),
    }
}

/// What serializing gave, as contracts speak of it.
pub open spec fn pack_outcome(outcome: Result<Vec<u8>, String>) -> Result<Seq<u8>, Seq<char>> {
    match outcome {
        Ok(bytes) => Ok(bytes@),
        Err(reason) => Err(reason@),
    }
}

/// What the outbound call gave, as contracts speak of it.
pub open spec fn send_outcome(outcome: Result<InvocationResponse, String>) -> Result<
    Option<Seq<char>>,
    Seq<char>,
> {
    match outcome {
        Ok(response) => Ok(text_view(response.error)),
        Err(reason) => Err(reason@),
    }
}

/// A delivery whose message waits to be serialized.
pub struct PackingModel {
    pub source: EntityModel,
    pub target: EntityModel,
    pub message: MessageModel,
}

/// A delivery whose message waits to be serialized.
#[derive(Debug)]
pub struct Packing {
    source: Entity,
    target: Entity,
    message: BrokerMessage,
}

impl View for Packing {
    type V = PackingModel;

    closed spec fn view(&self) -> PackingModel {
        PackingModel { source: self.source@, target: self.target@, message: self.message@ }
    }
}

/// A delivery whose call waits to be performed.
#[derive(Debug)]
pub struct Sending {
    call: OutboundCall,
}

impl View for Sending {
    type V = CallModel;

    closed spec fn view(&self) -> CallModel {
        self.call@
    }
}

/// Where a delivery stands, and with it what the host has to do next.
#[derive(Debug)]
pub enum Delivery {
    /// Serialize the message, then `resume`.
    Encode(Packing),
    /// Perform the call, then `resume`.
    Send(Sending),
    /// Return this to the caller.
    Done(Result<(), DispatchError>),
}

impl View for Delivery {
    type V = DeliveryModel;

    open spec fn view(&self) -> DeliveryModel {
        match self {
            Delivery::Encode(packing) => DeliveryModel::Encode {
                source: packing@.source,
                target: packing@.target,
                message: packing@.message,
            },
            Delivery::Send(sending) => DeliveryModel::Send { call: sending@ },
            Delivery::Done(result) => DeliveryModel::Done { result: unit_result(*result) },
        }
    }
}

/// Delivers inbound messages to the actor of one link.
#[derive(Debug)]
pub struct Handler<'a> {
    ld: &'a LinkDefinition,
}

impl<'a> View for Handler<'a> {
    type V = LinkModel;

    closed spec fn view(&self) -> LinkModel {
        self.ld@
    }
}

impl<'a> Handler<'a> {
    /// A handler for the link `ld`.
    pub fn new(ld: &'a LinkDefinition) -> (handler: Self)
        ensures
            handler@ == ld@,
    {
        Self { ld }
    }

    /// The end that deliveries are sent from.
    pub fn source(&self) -> (source: Entity)
        ensures
            source@ == source_of(self@),
    {
        Entity {
            public_key: self.ld.provider_id.clone(),
            link_name: self.ld.link_name.clone(),
            contract_id: String::from_str("wasmcloud:messaging"),
        }
    }

    /// The end that deliveries go to.
    pub fn target(&self) -> (target: Entity)
        ensures
            target@ == target_of(self@),
    {
        Entity {
            public_key: self.ld.actor_id.clone(),
            link_name: String::new(),
            contract_id: String::new(),
        }
    }

    /// Starts the delivery of `msg`: the message is to be serialized next,
    /// unchanged, for a call from the provider side of the link to its actor.
    pub fn handle(&self, msg: BrokerMessage) -> (delivery: Delivery)
        ensures
            delivery@ == (DeliveryModel::Encode {
                source: source_of(self@),
                target: target_of(self@),
                message: msg@,
            }),
    {
        Delivery::Encode(Packing { source: self.source(), target: self.target(), message: msg })
    }
}

impl Packing {
    /// The message that is to be serialized.
    pub fn message(&self) -> (message: &BrokerMessage)
        ensures
            message@ == self@.message,
    {
        &self.message
    }

    /// Takes what serializing the message gave.
    ///
    /// With the bytes, the next step is the one call named `Message.Handle`,
    /// between the two ends that the delivery started with, carrying the
    /// bytes unchanged. A serializer's error ends the delivery with a
    /// provider failure; nothing is sent.
    pub fn resume(self, outcome: Result<Vec<u8>, String>) -> (delivery: Delivery)
        ensures
            delivery@ == after_pack(self@.source, self@.target, pack_outcome(outcome)),
    {
        match outcome {
            Ok(payload) => Delivery::Send(
                Sending {
                    call: OutboundCall {
                        source: self.source,
                        target: self.target,
                        method: String::from_str("Message.Handle"),
                        payload,
                    },
                },
            ),
            Err(reason) => Delivery::Done(Err(DispatchError::Provider(reason))),
        }
    }
}

impl Sending {
    /// The call that is to be performed.
    pub fn call(&self) -> (call: &OutboundCall)
        ensures
            call@ == self@,
    {
        &self.call
    }

    /// Takes what the outbound call gave and ends the delivery.
    ///
    /// A response without an error field is success. A response with one is
    /// a provider failure whose message is exactly that error, and a call
    /// that failed below is a provider failure with that failure's string.
    pub fn resume(self, outcome: Result<InvocationResponse, String>) -> (result: Result<
        (),
        DispatchError,
    >)
        ensures
            unit_result(result) == after_send(send_outcome(outcome)),
    {
        match outcome {
            Ok(response) => match response.error {
                Some(error) => Err(DispatchError::Provider(error)),
                None => Ok(()),
            },
            Err(reason) => Err(DispatchError::Provider(reason)),
        }
    }
}

} // verus!
