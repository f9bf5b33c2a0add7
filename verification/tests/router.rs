use messaging_dispatch::consumer::Consumer;
use messaging_dispatch::dispatch::{dispatch, Decoding, Encoding, Invocation, Invoking, Reply, Step};
use messaging_dispatch::error::{DispatchError, ErrorKind};
use messaging_dispatch::message::{BrokerMessage, PublishBody, RequestBody, RequestMultiBody};
use messaging_dispatch::method::Method;

/// A broker that answers from a script and does not wait.
struct Scripted {
    replies: Vec<BrokerMessage>,
    failure: Option<String>,
}

impl Consumer for Scripted {
    type Context = String;

    fn request(
        &self,
        ctx: String,
        subject: String,
        body: Option<Vec<u8>>,
        timeout_ms: u32,
    ) -> Result<BrokerMessage, String> {
        if let Some(reason) = &self.failure {
            return Err(reason.clone());
        }
        if timeout_ms == 0 || self.replies.is_empty() {
            return Err("request timed out".to_string());
        }
        Ok(BrokerMessage { subject: format!("{ctx}/{subject}"), body, reply_to: None })
    }

    fn request_multi(
        &self,
        _ctx: String,
        _subject: String,
        _body: Option<Vec<u8>>,
        _timeout_ms: u32,
        max_results: u32,
    ) -> Result<Vec<BrokerMessage>, String> {
        if let Some(reason) = &self.failure {
            return Err(reason.clone());
        }
        Ok(self.replies.iter().take(max_results as usize).cloned().collect())
    }

    fn publish(&self, _ctx: String, msg: BrokerMessage) -> Result<(), String> {
        match &self.failure {
            Some(reason) => Err(format!("{reason}: {}", msg.subject)),
            None => Ok(()),
        }
    }
}

fn message(subject: &str, body: Option<Vec<u8>>) -> BrokerMessage {
    BrokerMessage { subject: subject.to_string(), body, reply_to: None }
}

fn decoding(step: Step) -> Decoding {
    match step {
        Step::Decode(decoding) => decoding,
        other => panic!("not a decode step: {:?}", other),
    }
}

fn invoking(step: Step) -> Invoking {
    match step {
        Step::Invoke(invoking) => invoking,
        other => panic!("not an invoke step: {:?}", other),
    }
}

fn encoding(step: Step) -> Encoding {
    match step {
        Step::Encode(encoding) => encoding,
        other => panic!("not an encode step: {:?}", other),
    }
}

fn done(step: Step) -> Result<Vec<u8>, DispatchError> {
    match step {
        Step::Done(result) => result,
        other => panic!("not over: {:?}", other),
    }
}

fn request_multi(max_results: u32, timeout_ms: u32) -> Invoking {
    let body = RequestMultiBody {
        subject: "jobs".to_string(),
        body: None,
        timeout_ms,
        max_results,
    };
    invoking(
        decoding(dispatch("Message.RequestMulti", vec![]))
            .resume(Ok(Invocation::RequestMulti(body))),
    )
}

#[test]
fn the_table_holds_three_methods_under_their_wire_names() {
    let table = Method::all();
    assert_eq!(table, vec![Method::Request, Method::RequestMulti, Method::Publish]);
    assert_eq!(Method::Request.name(), "Message.Request");
    assert_eq!(Method::RequestMulti.name(), "Message.RequestMulti");
    assert_eq!(Method::Publish.name(), "Message.Publish");
    for method in table {
        assert_eq!(Method::from_name(method.name()), Some(method));
    }
}

#[test]
fn names_outside_the_table_are_not_found() {
    for name in ["", "Message", "Message.Handle", "message.request", "Message.Request ", "Message.RequestMult"] {
        assert_eq!(Method::from_name(name), None, "{name:?}");
    }
}

#[test]
fn every_method_of_the_table_is_decoded_first() {
    for method in Method::all() {
        let step = decoding(dispatch(method.name(), vec![1, 2, 3]));
        assert_eq!(step.method(), method);
        assert_eq!(step.payload(), &vec![1, 2, 3]);
    }
}

#[test]
fn an_unknown_method_is_malformed_and_named() {
    let result = done(dispatch("Message.Subscribe", vec![1, 2, 3]));
    let error = result.unwrap_err();
    assert_eq!(error.kind(), ErrorKind::Malformed);
    assert_eq!(error.message(), "Invalid method name Message.Subscribe");
    assert_eq!(error.to_string(), "Invalid method name Message.Subscribe");
    assert_eq!(
        error,
        DispatchError::Malformed("Invalid method name Message.Subscribe".to_string())
    );
}

#[test]
fn an_empty_method_name_is_malformed() {
    let error = done(dispatch("", vec![])).unwrap_err();
    assert_eq!(error, DispatchError::Malformed("Invalid method name ".to_string()));
}

#[test]
fn a_payload_that_does_not_decode_is_a_deserialization_failure() {
    for method in Method::all() {
        let step = decoding(dispatch(method.name(), vec![0xc1]));
        let error = done(step.resume(Err("invalid marker".to_string()))).unwrap_err();
        assert_eq!(error.kind(), ErrorKind::Deserialization);
        assert_eq!(error.message(), &format!("{}: invalid marker", method.name()));
    }
}

#[test]
fn the_shape_of_another_method_is_a_deserialization_failure() {
    let step = decoding(dispatch("Message.Request", vec![]));
    let other = Invocation::Publish(PublishBody { msg: message("a", None) });
    let error = done(step.resume(Ok(other))).unwrap_err();
    assert_eq!(
        error,
        DispatchError::Deserialization("Message.Request: unexpected request shape".to_string())
    );
}

#[test]
fn decoded_fields_reach_the_operation_unchanged() {
    let body = RequestBody { subject: "a.b".to_string(), body: Some(vec![7, 8]), timeout_ms: 250 };
    let step = invoking(
        decoding(dispatch("Message.Request", vec![]))
            .resume(Ok(Invocation::Request(body.clone()))),
    );
    assert_eq!(step.invocation(), &Invocation::Request(body));
    assert_eq!(step.invocation().method(), Method::Request);
}

#[test]
fn an_absent_body_is_not_an_empty_body() {
    let absent = RequestBody { subject: "s".to_string(), body: None, timeout_ms: 1 };
    let empty = RequestBody { subject: "s".to_string(), body: Some(vec![]), timeout_ms: 1 };
    let with_absent = invoking(
        decoding(dispatch("Message.Request", vec![]))
            .resume(Ok(Invocation::Request(absent.clone()))),
    );
    let with_empty = invoking(
        decoding(dispatch("Message.Request", vec![]))
            .resume(Ok(Invocation::Request(empty.clone()))),
    );
    assert_eq!(with_absent.invocation(), &Invocation::Request(absent));
    assert_eq!(with_empty.invocation(), &Invocation::Request(empty));
    assert_ne!(with_absent.invocation(), with_empty.invocation());

    let broker = Scripted { replies: vec![message("r", None)], failure: None };
    let from_absent = encoding(with_absent.perform(&broker, "ctx".to_string()));
    let from_empty = encoding(with_empty.perform(&broker, "ctx".to_string()));
    assert_eq!(from_absent.reply(), &Reply::Request(message("ctx/s", None)));
    assert_eq!(from_empty.reply(), &Reply::Request(message("ctx/s", Some(vec![]))));
}

#[test]
fn a_reply_is_handed_on_to_be_serialized() {
    let body = RequestBody { subject: "a".to_string(), body: None, timeout_ms: 10 };
    let step = invoking(
        decoding(dispatch("Message.Request", vec![])).resume(Ok(Invocation::Request(body))),
    );
    let reply = Reply::Request(message("a", Some(vec![1])));
    let step = encoding(step.resume(Ok(reply.clone())));
    assert_eq!(step.reply(), &reply);
    assert_eq!(step.reply().method(), Method::Request);
    assert_eq!(done(step.resume(Ok(vec![0x83, 0x01]))), Ok(vec![0x83, 0x01]));
}

#[test]
fn a_business_error_is_a_provider_failure_with_the_same_string() {
    let body = PublishBody { msg: message("a", None) };
    let step = invoking(
        decoding(dispatch("Message.Publish", vec![])).resume(Ok(Invocation::Publish(body))),
    );
    let error = done(step.resume(Err("no responders".to_string()))).unwrap_err();
    assert_eq!(error, DispatchError::Provider("no responders".to_string()));
    assert_eq!(error.kind(), ErrorKind::Provider);
}

#[test]
fn a_reply_of_another_method_is_a_provider_failure() {
    let body = PublishBody { msg: message("a", None) };
    let step = invoking(
        decoding(dispatch("Message.Publish", vec![])).resume(Ok(Invocation::Publish(body))),
    );
    let error = done(step.resume(Ok(Reply::Request(message("a", None))))).unwrap_err();
    assert_eq!(
        error,
        DispatchError::Provider("Message.Publish: unexpected reply shape".to_string())
    );
}

#[test]
fn a_serializer_error_is_a_provider_failure() {
    let body = PublishBody { msg: message("a", None) };
    let step = invoking(
        decoding(dispatch("Message.Publish", vec![])).resume(Ok(Invocation::Publish(body))),
    );
    let step = encoding(step.resume(Ok(Reply::Publish)));
    assert_eq!(step.reply(), &Reply::Publish);
    let error = done(step.resume(Err("depth limit exceeded".to_string()))).unwrap_err();
    assert_eq!(error, DispatchError::Provider("depth limit exceeded".to_string()));
}

#[test]
fn request_with_no_time_and_no_reply_fails_as_a_timeout() {
    let broker = Scripted { replies: vec![], failure: None };
    let body = RequestBody { subject: "a".to_string(), body: None, timeout_ms: 0 };
    let step = invoking(
        decoding(dispatch("Message.Request", vec![])).resume(Ok(Invocation::Request(body))),
    );
    let error = done(step.perform(&broker, "ctx".to_string())).unwrap_err();
    assert_eq!(error, DispatchError::Provider("request timed out".to_string()));
}

#[test]
fn request_multi_returns_three_replies_in_arrival_order() {
    let arrived = vec![message("r.2", None), message("r.0", Some(vec![0])), message("r.1", None)];
    let broker = Scripted { replies: arrived.clone(), failure: None };
    let step = encoding(request_multi(3, 60_000).perform(&broker, "ctx".to_string()));
    assert_eq!(step.reply(), &Reply::RequestMulti(arrived));
    assert_eq!(step.reply().method(), Method::RequestMulti);
}

#[test]
fn request_multi_without_replies_is_an_empty_success() {
    let broker = Scripted { replies: vec![], failure: None };
    let step = encoding(request_multi(5, 20).perform(&broker, "ctx".to_string()));
    assert_eq!(step.reply(), &Reply::RequestMulti(vec![]));
    assert_eq!(done(step.resume(Ok(vec![0x90]))), Ok(vec![0x90]));
}

#[test]
fn a_broker_failure_is_a_provider_failure() {
    let broker = Scripted { replies: vec![], failure: Some("connection closed".to_string()) };
    let error =
        done(request_multi(5, 20).perform(&broker, "ctx".to_string())).unwrap_err();
    assert_eq!(error, DispatchError::Provider("connection closed".to_string()));
}

#[test]
fn publish_hands_the_message_to_the_broker() {
    let broker = Scripted { replies: vec![], failure: Some("rejected".to_string()) };
    let body = PublishBody { msg: message("news.today", Some(vec![1])) };
    let step = invoking(
        decoding(dispatch("Message.Publish", vec![])).resume(Ok(Invocation::Publish(body))),
    );
    let error = done(step.perform(&broker, "ctx".to_string())).unwrap_err();
    assert_eq!(error, DispatchError::Provider("rejected: news.today".to_string()));

    let broker = Scripted { replies: vec![], failure: None };
    let body = PublishBody { msg: message("news.today", Some(vec![1])) };
    let step = invoking(
        decoding(dispatch("Message.Publish", vec![])).resume(Ok(Invocation::Publish(body))),
    );
    assert_eq!(encoding(step.perform(&broker, "ctx".to_string())).reply(), &Reply::Publish);
}

#[test]
fn the_context_reaches_the_operation() {
    let broker = Scripted { replies: vec![message("r", None)], failure: None };
    let body = RequestBody { subject: "topic".to_string(), body: None, timeout_ms: 5 };
    let step = invoking(
        decoding(dispatch("Message.Request", vec![])).resume(Ok(Invocation::Request(body))),
    );
    let step = encoding(step.perform(&broker, "actor-7".to_string()));
    assert_eq!(step.reply(), &Reply::Request(message("actor-7/topic", None)));
}

#[test]
fn many_dispatches_in_flight_keep_to_themselves() {
    let broker = Scripted { replies: vec![message("r", None)], failure: None };
    let count: usize = 120;
    let mut started: Vec<Step> = Vec::new();
    for i in 0..count {
        let name = match i % 4 {
            0 => "Message.Request",
            1 => "Message.RequestMulti",
            2 => "Message.Publish",
            _ => "Message.Nothing",
        };
        started.push(dispatch(name, vec![i as u8]));
    }
    let mut decoded: Vec<Step> = Vec::new();
    for (i, step) in started.into_iter().enumerate().rev() {
        decoded.push(match step {
            Step::Decode(decoding) => {
                assert_eq!(decoding.payload(), &vec![i as u8]);
                let subject = format!("subject.{i}");
                let outcome = match decoding.method() {
                    Method::Request => Ok(Invocation::Request(RequestBody {
                        subject,
                        body: None,
                        timeout_ms: 9,
                    })),
                    Method::RequestMulti => Err(format!("bad payload {i}")),
                    Method::Publish => Ok(Invocation::Publish(PublishBody {
                        msg: message(&subject, None),
                    })),
                };
                decoding.resume(outcome)
            }
            other => other,
        });
    }
    decoded.reverse();
    for (i, step) in decoded.into_iter().enumerate() {
        match i % 4 {
            0 => {
                let step = encoding(invoking(step).perform(&broker, format!("ctx.{i}")));
                let expected = message(&format!("ctx.{i}/subject.{i}"), None);
                assert_eq!(step.reply(), &Reply::Request(expected));
                assert_eq!(done(step.resume(Ok(vec![i as u8]))), Ok(vec![i as u8]));
            }
            1 => assert_eq!(
                done(step),
                Err(DispatchError::Deserialization(format!(
                    "Message.RequestMulti: bad payload {i}"
                )))
            ),
            2 => {
                let step = encoding(invoking(step).perform(&broker, format!("ctx.{i}")));
                assert_eq!(step.reply(), &Reply::Publish);
            }
            _ => assert_eq!(
                done(step),
                Err(DispatchError::Malformed("Invalid method name Message.Nothing".to_string()))
            ),
        }
    }
}
