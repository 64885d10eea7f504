use ws_proxy_agent::codec::{read_ws_message, write_ws_message, Envelope, Member, ParseError};
use ws_proxy_agent::message::{
    Message, WSProxyCallRequest, WSProxyPing, WSProxyReadyRequest, WSProxyUnknownRequest,
    WSReadyMessage, WSRegisterMessageV1, WSRegisterMessageV2, WSResponseMessage,
};

fn decode(text: &str) -> Result<Message, ParseError> {
    read_ws_message(text.to_string())
}

fn every_kind() -> Vec<Message> {
    vec![
        Message::RegisterV1(WSRegisterMessageV1 { instance: "i-0abc".to_string() }),
        Message::RegisterV2(WSRegisterMessageV2 {
            instance: "i-0abc".to_string(),
            worker: "brave-otter".to_string(),
            version: 2,
        }),
        Message::RegisterV2(WSRegisterMessageV2 {
            instance: "".to_string(),
            worker: "".to_string(),
            version: 65535,
        }),
        Message::Ready(WSProxyReadyRequest { uid: "u-1".to_string() }),
        Message::ReadyAck(WSReadyMessage {
            uid: "u-1".to_string(),
            worker: "brave-otter".to_string(),
        }),
        Message::Request(WSProxyCallRequest {
            uid: "u-2".to_string(),
            resource: "node".to_string(),
        }),
        Message::Response(WSResponseMessage {
            uid: "u-2".to_string(),
            body: "# HELP up\nup{job=\"node\"} 1\n".to_string(),
            status: 200,
        }),
        Message::Response(WSResponseMessage {
            uid: "ключ \\ \u{1F980} \u{0007}".to_string(),
            body: "tab\there \"quoted\" / back\\slash \u{0000} end".to_string(),
            status: 0,
        }),
        Message::Ping(WSProxyPing {}),
        Message::Pong,
        Message::Unknown(WSProxyUnknownRequest {}),
    ]
}

#[test]
fn decodes_ping() {
    assert_eq!(decode("{\"type\":\"ping\"}"), Ok(Message::Ping(WSProxyPing {})));
}

#[test]
fn decodes_pong() {
    assert_eq!(decode("{\"type\":\"pong\"}"), Ok(Message::Pong));
}

#[test]
fn decodes_request() {
    assert_eq!(
        decode("{\"type\":\"request\",\"uid\":\"42\",\"resource\":\"node\"}"),
        Ok(Message::Request(WSProxyCallRequest {
            uid: "42".to_string(),
            resource: "node".to_string()
        }))
    );
}

#[test]
fn decodes_request_with_members_in_any_order_and_spaces() {
    assert_eq!(
        decode(" { \"resource\" : \"node\" ,\n \"extra\": [1, 2], \"uid\" : \"42\", \"type\" : \"request\" } "),
        Ok(Message::Request(WSProxyCallRequest {
            uid: "42".to_string(),
            resource: "node".to_string()
        }))
    );
}

#[test]
fn decodes_ready_call() {
    assert_eq!(
        decode("{\"type\":\"ready\",\"uid\":\"abc\"}"),
        Ok(Message::Ready(WSProxyReadyRequest { uid: "abc".to_string() }))
    );
}

#[test]
fn decodes_ready_answer() {
    assert_eq!(
        decode("{\"type\":\"ready\",\"uid\":\"abc\",\"worker\":\"calm-fox\"}"),
        Ok(Message::ReadyAck(WSReadyMessage {
            uid: "abc".to_string(),
            worker: "calm-fox".to_string()
        }))
    );
}

#[test]
fn ready_with_a_worker_that_is_no_string_is_a_ready_call() {
    assert_eq!(
        decode("{\"type\":\"ready\",\"uid\":\"abc\",\"worker\":7}"),
        Ok(Message::Ready(WSProxyReadyRequest { uid: "abc".to_string() }))
    );
}

#[test]
fn decodes_response() {
    assert_eq!(
        decode("{\"type\":\"response\",\"uid\":\"7\",\"body\":\"ok\",\"status\":200}"),
        Ok(Message::Response(WSResponseMessage {
            uid: "7".to_string(),
            body: "ok".to_string(),
            status: 200
        }))
    );
}

#[test]
fn decodes_register_of_both_versions() {
    assert_eq!(
        decode("{\"type\":\"register\",\"instance\":\"i-1\"}"),
        Ok(Message::RegisterV1(WSRegisterMessageV1 { instance: "i-1".to_string() }))
    );
    assert_eq!(
        decode("{\"type\":\"register\",\"instance\":\"i-1\",\"worker\":\"w\",\"version\":2}"),
        Ok(Message::RegisterV2(WSRegisterMessageV2 {
            instance: "i-1".to_string(),
            worker: "w".to_string(),
            version: 2
        }))
    );
}

#[test]
fn register_without_version_or_with_one_too_large_is_version_one() {
    assert_eq!(
        decode("{\"type\":\"register\",\"instance\":\"i-1\",\"worker\":\"w\"}"),
        Ok(Message::RegisterV1(WSRegisterMessageV1 { instance: "i-1".to_string() }))
    );
    assert_eq!(
        decode("{\"type\":\"register\",\"instance\":\"i-1\",\"worker\":\"w\",\"version\":65536}"),
        Ok(Message::RegisterV1(WSRegisterMessageV1 { instance: "i-1".to_string() }))
    );
}

#[test]
fn unrecognized_type_is_unknown() {
    assert_eq!(
        decode("{\"type\":\"subscribe\"}"),
        Ok(Message::Unknown(WSProxyUnknownRequest {}))
    );
    assert_eq!(
        decode("{\"type\":\"\",\"uid\":\"1\"}"),
        Ok(Message::Unknown(WSProxyUnknownRequest {}))
    );
    assert_eq!(decode("{\"type\":\"Ping\"}"), Ok(Message::Unknown(WSProxyUnknownRequest {})));
}

#[test]
fn invalid_json_is_rejected() {
    assert_eq!(decode(""), Err(ParseError::InvalidJson));
    assert_eq!(decode("not json"), Err(ParseError::InvalidJson));
    assert_eq!(decode("{\"type\":\"ping\""), Err(ParseError::InvalidJson));
    assert_eq!(decode("{\"type\":\"ping\"} trailing"), Err(ParseError::InvalidJson));
    assert_eq!(decode("{'type':'ping'}"), Err(ParseError::InvalidJson));
}

#[test]
fn text_without_type_is_rejected() {
    assert_eq!(decode("{}"), Err(ParseError::NoType));
    assert_eq!(decode("{\"uid\":\"1\",\"resource\":\"node\"}"), Err(ParseError::NoType));
    assert_eq!(decode("{\"type\":5}"), Err(ParseError::NoType));
    assert_eq!(decode("{\"type\":null}"), Err(ParseError::NoType));
    assert_eq!(decode("{\"Type\":\"ping\"}"), Err(ParseError::NoType));
}

#[test]
fn json_that_is_no_object_has_no_type() {
    assert_eq!(decode("[1,2,3]"), Err(ParseError::NoType));
    assert_eq!(decode("\"ping\""), Err(ParseError::NoType));
    assert_eq!(decode("17"), Err(ParseError::NoType));
    assert_eq!(decode("null"), Err(ParseError::NoType));
}

#[test]
fn request_without_its_members_is_rejected() {
    assert_eq!(
        decode("{\"type\":\"request\",\"resource\":\"node\"}"),
        Err(ParseError::Missing(Member::Uid))
    );
    assert_eq!(
        decode("{\"type\":\"request\",\"uid\":\"1\"}"),
        Err(ParseError::Missing(Member::Resource))
    );
    assert_eq!(decode("{\"type\":\"request\"}"), Err(ParseError::Missing(Member::Uid)));
    assert_eq!(
        decode("{\"type\":\"request\",\"uid\":1,\"resource\":\"node\"}"),
        Err(ParseError::Missing(Member::Uid))
    );
}

#[test]
fn ready_without_uid_is_rejected() {
    assert_eq!(decode("{\"type\":\"ready\"}"), Err(ParseError::Missing(Member::Uid)));
    assert_eq!(
        decode("{\"type\":\"ready\",\"worker\":\"w\"}"),
        Err(ParseError::Missing(Member::Uid))
    );
}

#[test]
fn response_without_its_members_is_rejected() {
    assert_eq!(
        decode("{\"type\":\"response\",\"body\":\"b\",\"status\":200}"),
        Err(ParseError::Missing(Member::Uid))
    );
    assert_eq!(
        decode("{\"type\":\"response\",\"uid\":\"u\",\"status\":200}"),
        Err(ParseError::Missing(Member::Body))
    );
    assert_eq!(
        decode("{\"type\":\"response\",\"uid\":\"u\",\"body\":\"b\"}"),
        Err(ParseError::Missing(Member::Status))
    );
}

#[test]
fn response_status_must_fit_sixteen_bits() {
    assert_eq!(
        decode("{\"type\":\"response\",\"uid\":\"u\",\"body\":\"b\",\"status\":65535}"),
        Ok(Message::Response(WSResponseMessage {
            uid: "u".to_string(),
            body: "b".to_string(),
            status: 65535
        }))
    );
    assert_eq!(
        decode("{\"type\":\"response\",\"uid\":\"u\",\"body\":\"b\",\"status\":65536}"),
        Err(ParseError::Missing(Member::Status))
    );
    assert_eq!(
        decode("{\"type\":\"response\",\"uid\":\"u\",\"body\":\"b\",\"status\":-1}"),
        Err(ParseError::Missing(Member::Status))
    );
    assert_eq!(
        decode("{\"type\":\"response\",\"uid\":\"u\",\"body\":\"b\",\"status\":200.5}"),
        Err(ParseError::Missing(Member::Status))
    );
    assert_eq!(
        decode("{\"type\":\"response\",\"uid\":\"u\",\"body\":\"b\",\"status\":\"200\"}"),
        Err(ParseError::Missing(Member::Status))
    );
}

#[test]
fn register_without_instance_is_rejected() {
    assert_eq!(
        decode("{\"type\":\"register\",\"worker\":\"w\",\"version\":2}"),
        Err(ParseError::Missing(Member::Instance))
    );
}

#[test]
fn encodes_pong() {
    assert_eq!(write_ws_message(&Message::Pong), "{\"type\":\"pong\"}");
}

#[test]
fn encodes_ping() {
    assert_eq!(write_ws_message(&Message::Ping(WSProxyPing {})), "{\"type\":\"ping\"}");
}

#[test]
fn encodes_register_v1() {
    let m = Message::RegisterV1(WSRegisterMessageV1 { instance: "i-0abc".to_string() });
    assert_eq!(write_ws_message(&m), "{\"type\":\"register\",\"instance\":\"i-0abc\"}");
}

#[test]
fn encodes_register_v2() {
    let m = Message::RegisterV2(WSRegisterMessageV2 {
        instance: "i-0abc".to_string(),
        worker: "brave-otter".to_string(),
        version: 2,
    });
    assert_eq!(
        write_ws_message(&m),
        "{\"type\":\"register\",\"instance\":\"i-0abc\",\"worker\":\"brave-otter\",\"version\":2}"
    );
}

#[test]
fn encodes_ready_answer() {
    let m = Message::ReadyAck(WSReadyMessage {
        uid: "u-1".to_string(),
        worker: "brave-otter".to_string(),
    });
    assert_eq!(
        write_ws_message(&m),
        "{\"type\":\"ready\",\"uid\":\"u-1\",\"worker\":\"brave-otter\"}"
    );
}

#[test]
fn encodes_ready_call_and_request() {
    let ready = Message::Ready(WSProxyReadyRequest { uid: "u-1".to_string() });
    assert_eq!(write_ws_message(&ready), "{\"type\":\"ready\",\"uid\":\"u-1\"}");
    let request = Message::Request(WSProxyCallRequest {
        uid: "u-2".to_string(),
        resource: "node".to_string(),
    });
    assert_eq!(
        write_ws_message(&request),
        "{\"type\":\"request\",\"uid\":\"u-2\",\"resource\":\"node\"}"
    );
}

#[test]
fn encodes_response() {
    let m = Message::Response(WSResponseMessage {
        uid: "u-2".to_string(),
        body: "No such resource".to_string(),
        status: 404,
    });
    assert_eq!(
        write_ws_message(&m),
        "{\"type\":\"response\",\"uid\":\"u-2\",\"body\":\"No such resource\",\"status\":404}"
    );
}

#[test]
fn encodes_unknown() {
    assert_eq!(
        write_ws_message(&Message::Unknown(WSProxyUnknownRequest {})),
        "{\"type\":\"unknown\"}"
    );
}

#[test]
fn strings_are_quoted_and_escaped() {
    let m = Message::Response(WSResponseMessage {
        uid: "a\"b".to_string(),
        body: "line one\nline \\ two\t\u{0001}".to_string(),
        status: 500,
    });
    assert_eq!(
        write_ws_message(&m),
        "{\"type\":\"response\",\"uid\":\"a\\\"b\",\"body\":\"line one\\nline \\\\ two\\t\\u0001\",\"status\":500}"
    );
}

#[test]
fn round_trip_of_every_kind() {
    for m in every_kind() {
        let text = write_ws_message(&m);
        assert_eq!(read_ws_message(text), Ok(m));
    }
}

#[test]
fn round_trip_through_the_envelope_of_every_kind() {
    for m in every_kind() {
        assert_eq!(Envelope::of_message(&m).to_message(), Ok(m));
    }
}

#[test]
fn encoded_text_is_json_with_the_members_of_the_envelope() {
    for m in every_kind() {
        let e = Envelope::of_message(&m);
        let text = e.to_text();
        let value: serde_json::Value = serde_json::from_str(&text).unwrap();
        assert_eq!(Envelope::of_value(&value), e);
        assert_eq!(Envelope::from_text(&text), Ok(e));
    }
}

#[test]
fn blank_envelope_has_no_type() {
    let e = Envelope::blank();
    assert_eq!(e.kind, None);
    assert_eq!(e.to_message(), Err(ParseError::NoType));
    assert_eq!(e.to_text(), "{\"type\":null}");
    assert_eq!(Envelope::from_text("{\"type\":null}"), Ok(Envelope::blank()));
}

#[test]
fn envelope_holds_every_member_that_is_present() {
    let text = "{\"type\":\"t\",\"instance\":\"i\",\"uid\":\"u\",\"resource\":\"r\",\"worker\":\"w\",\"body\":\"b\",\"status\":1,\"version\":18446744073709551615}";
    let e = Envelope::from_text(text).unwrap();
    assert_eq!(e.kind, Some("t".to_string()));
    assert_eq!(e.instance, Some("i".to_string()));
    assert_eq!(e.uid, Some("u".to_string()));
    assert_eq!(e.resource, Some("r".to_string()));
    assert_eq!(e.worker, Some("w".to_string()));
    assert_eq!(e.body, Some("b".to_string()));
    assert_eq!(e.status, Some(1));
    assert_eq!(e.version, Some(18446744073709551615));
    assert_eq!(e.to_text(), text);
}

#[test]
fn envelope_of_invalid_json_fails() {
    assert_eq!(Envelope::from_text("{"), Err(ParseError::InvalidJson));
}

#[test]
fn envelope_leaves_out_members_of_the_wrong_kind() {
    let e = Envelope::from_text("{\"type\":true,\"uid\":[\"u\"],\"status\":\"1\",\"version\":-2,\"body\":{}}")
        .unwrap();
    assert_eq!(e, Envelope::blank());
}

#[test]
fn envelope_to_message_of_given_envelopes() {
    let mut e = Envelope::blank();
    e.kind = Some("response".to_string());
    e.uid = Some("u".to_string());
    e.body = Some("".to_string());
    e.status = Some(404);
    assert_eq!(
        e.to_message(),
        Ok(Message::Response(WSResponseMessage {
            uid: "u".to_string(),
            body: "".to_string(),
            status: 404
        }))
    );
    e.status = Some(70000);
    assert_eq!(e.to_message(), Err(ParseError::Missing(Member::Status)));
    e.kind = Some("register".to_string());
    assert_eq!(e.to_message(), Err(ParseError::Missing(Member::Instance)));
    e.instance = Some("i".to_string());
    e.worker = Some("w".to_string());
    e.version = Some(3);
    assert_eq!(
        e.to_message(),
        Ok(Message::RegisterV2(WSRegisterMessageV2 {
            instance: "i".to_string(),
            worker: "w".to_string(),
            version: 3
        }))
    );
}
