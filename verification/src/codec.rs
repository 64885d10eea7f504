//! The message codec: JSON text to message and back.
//!
//! A message travels as a JSON object whose member `type` says what it is.
//! Between the text and the message stands the [`Envelope`]: the members that
//! the protocol reads, each present or absent. `serde_json` turns text into
//! members and quotes strings; everything else is decided here.

use vstd::prelude::*;
use vstd::string::*;
use crate::json::{
    as_number, as_text, json_member, json_number, json_parse, json_quote, json_text, member,
    parse, quote,
};
use crate::message::{
    Message, MessageView, WSProxyCallRequest, WSProxyPing, WSProxyReadyRequest,
    WSProxyUnknownRequest, WSReadyMessage, WSRegisterMessageV1, WSRegisterMessageV2,
    WSResponseMessage,
};
use crate::text::{decimal, decimal_digits, same_text};

verus! {

/// A member that the protocol reads besides `type`.
#[derive(Debug, Clone, Copy, PartialEq, Eq, Structural)]
pub enum Member {
    Instance,
    Uid,
    Resource,
    Body,
    Status,
}

/// Why a text is no message.
#[derive(Debug, Clone, Copy, PartialEq, Eq, Structural)]
pub enum ParseError {
    /// The text is not JSON.
    InvalidJson,
    /// There is no member `type` that holds a string.
    NoType,
    /// The type is known, but a member that it needs is absent or holds a
    /// value of the wrong kind.
    Missing(Member),
}

/// The members of a JSON object that the protocol reads. A text member is
/// present where the object has the key with a string under it, a number
/// member where it has the key with an unsigned integer under it.
#[derive(Debug, Clone, PartialEq, Eq)]
pub struct Envelope {
    pub kind: Option<String>,
    pub instance: Option<String>,
    pub uid: Option<String>,
    pub resource: Option<String>,
    pub worker: Option<String>,
    pub body: Option<String>,
    pub status: Option<u64>,
    pub version: Option<u64>,
}

/// An envelope with its texts as character sequences.
pub struct EnvelopeView {
    pub kind: Option<Seq<char>>,
    pub instance: Option<Seq<char>>,
    pub uid: Option<Seq<char>>,
    pub resource: Option<Seq<char>>,
    pub worker: Option<Seq<char>>,
    pub body: Option<Seq<char>>,
    pub status: Option<u64>,
    pub version: Option<u64>,
}

/// The characters of a text that may be absent.
pub open spec fn chars_of(text: Option<String>) -> Option<Seq<char>> {
    match text {
        Some(s) => Some(s@),
        None => None,
    }
}

impl View for Envelope {
    type V = EnvelopeView;

    open spec fn view(&self) -> EnvelopeView {
        EnvelopeView {
            kind: chars_of(self.kind),
            instance: chars_of(self.instance),
            uid: chars_of(self.uid),
            resource: chars_of(self.resource),
            worker: chars_of(self.worker),
            body: chars_of(self.body),
            status: self.status,
            version: self.version,
        }
    }
}

/// A decoding result with the message as its view.
pub open spec fn outcome_view(outcome: Result<Message, ParseError>) -> Result<
    MessageView,
    ParseError,
> {
    match outcome {
        Ok(message) => Ok(message@),
        Err(error) => Err(error),
    }
}

/// The string under a key of a JSON value: present where the value is an
/// object, has the key, and holds a string there.
pub open spec fn text_under(value: serde_json::Value, key: Seq<char>) -> Option<Seq<char>> {
    match json_member(value, key) {
        Some(inner) => json_text(inner),
        None => None,
    }
}

/// The unsigned integer under a key of a JSON value.
pub open spec fn number_under(value: serde_json::Value, key: Seq<char>) -> Option<u64> {
    match json_member(value, key) {
        Some(inner) => json_number(inner),
        None => None,
    }
}

/// The envelope that a JSON value holds.
pub open spec fn envelope_in(value: serde_json::Value) -> EnvelopeView {
    EnvelopeView {
        kind: text_under(value, "type"@),
        instance: text_under(value, "instance"@),
        uid: text_under(value, "uid"@),
        resource: text_under(value, "resource"@),
        worker: text_under(value, "worker"@),
        body: text_under(value, "body"@),
        status: number_under(value, "status"@),
        version: number_under(value, "version"@),
    }
}

/// The message that an envelope stands for.
///
/// Without a type there is none. `ping` and `pong` need nothing more. A
/// `request` needs `uid` and `resource`; a `ready` needs `uid`, and is the
/// worker's answer where it names a worker; a `response` needs `uid`, `body`
/// and a `status` that fits sixteen bits; a `register` needs `instance`, and
/// is of version 2 where it names a worker and a version that fits sixteen
/// bits. Any other type is a message that nobody knows, which is no error.
pub open spec fn decoded(e: EnvelopeView) -> Result<MessageView, ParseError> {
    match e.kind {
        None => Err(ParseError::NoType),
        Some(kind) => if kind == "ping"@ {
            Ok(MessageView::Ping)
        } else if kind == "pong"@ {
            Ok(MessageView::Pong)
        } else if kind == "request"@ {
            match (e.uid, e.resource) {
                (None, _) => Err(ParseError::Missing(Member::Uid)),
                (Some(_), None) => Err(ParseError::Missing(Member::Resource)),
                (Some(uid), Some(resource)) => Ok(MessageView::Request { uid, resource }),
            }
        } else if kind == "ready"@ {
            match (e.uid, e.worker) {
                (None, _) => Err(ParseError::Missing(Member::Uid)),
                (Some(uid), None) => Ok(MessageView::Ready { uid }),
                (Some(uid), Some(worker)) => Ok(MessageView::ReadyAck { uid, worker }),
            }
        } else if kind == "response"@ {
            match (e.uid, e.body, e.status) {
                (None, _, _) => Err(ParseError::Missing(Member::Uid)),
                (Some(_), None, _) => Err(ParseError::Missing(Member::Body)),
                (Some(uid), Some(body), Some(status)) if status <= u16::MAX => Ok(
                    MessageView::Response { uid, body, status: status as u16 },
                ),
                (Some(_), Some(_), _) => Err(ParseError::Missing(Member::Status)),
            }
        } else if kind == "register"@ {
            match (e.instance, e.worker, e.version) {
                (None, _, _) => Err(ParseError::Missing(Member::Instance)),
                (Some(instance), Some(worker), Some(version)) if version <= u16::MAX => Ok(
                    MessageView::RegisterV2 { instance, worker, version: version as u16 },
                ),
                (Some(instance), _, _) => Ok(MessageView::RegisterV1 { instance }),
            }
        } else {
            Ok(MessageView::Unknown)
        },
    }
}

/// The envelope that a message travels as.
pub open spec fn members_of(m: MessageView) -> EnvelopeView {
    let blank = EnvelopeView {
        kind: None,
        instance: None,
        uid: None,
        resource: None,
        worker: None,
        body: None,
        status: None,
        version: None,
    };
    match m {
        MessageView::RegisterV1 { instance } => EnvelopeView {
            kind: Some("register"@),
            instance: Some(instance),
            ..blank
        },
        MessageView::RegisterV2 { instance, worker, version } => EnvelopeView {
            kind: Some("register"@),
            instance: Some(instance),
            worker: Some(worker),
            version: Some(version as u64),
            ..blank
        },
        MessageView::Ready { uid } => EnvelopeView { kind: Some("ready"@), uid: Some(uid), ..blank },
        MessageView::ReadyAck { uid, worker } => EnvelopeView {
            kind: Some("ready"@),
            uid: Some(uid),
            worker: Some(worker),
            ..blank
        },
        MessageView::Request { uid, resource } => EnvelopeView {
            kind: Some("request"@),
            uid: Some(uid),
            resource: Some(resource),
            ..blank
        },
        MessageView::Response { uid, body, status } => EnvelopeView {
            kind: Some("response"@),
            uid: Some(uid),
            body: Some(body),
            status: Some(status as u64),
            ..blank
        },
        MessageView::Ping => EnvelopeView { kind: Some("ping"@), ..blank },
        MessageView::Pong => EnvelopeView { kind: Some("pong"@), ..blank },
        MessageView::Unknown => EnvelopeView { kind: Some("unknown"@), ..blank },
    }
}

/// A text member as it stands in the object: the label, then the quoted
/// text; nothing where the member is absent.
pub open spec fn text_entry(label: Seq<char>, member: Option<Seq<char>>) -> Seq<char> {
    match member {
        Some(text) => label + json_quote(text),
        None => Seq::empty(),
    }
}

/// A number member as it stands in the object: the label, then the number in
/// decimal; nothing where the member is absent.
pub open spec fn number_entry(label: Seq<char>, member: Option<u64>) -> Seq<char> {
    match member {
        Some(n) => label + decimal_digits(n as nat),
        None => Seq::empty(),
    }
}

/// The JSON text of an envelope: one object, `type` first (`null` where the
/// envelope has none), then the members that are present, in the order
/// instance, uid, resource, worker, body, status, version.
pub open spec fn rendered(e: EnvelopeView) -> Seq<char> {
    "{\"type\":"@ + (match e.kind {
        Some(kind) => json_quote(kind),
        None => "null"@,
    }) + text_entry(",\"instance\":"@, e.instance) + text_entry(",\"uid\":"@, e.uid) + text_entry(
        ",\"resource\":"@,
        e.resource,
    ) + text_entry(",\"worker\":"@, e.worker) + text_entry(",\"body\":"@, e.body) + number_entry(
        ",\"status\":"@,
        e.status,
    ) + number_entry(",\"version\":"@, e.version) + "}"@
}

/// What a text decodes to: the message of the envelope in its JSON value, or
/// the reason why there is none.
pub open spec fn decoded_text(text: Seq<char>) -> Result<MessageView, ParseError> {
    match json_parse(text) {
        None => Err(ParseError::InvalidJson),
        Some(value) => decoded(envelope_in(value)),
    }
}

fn text_member(value: &serde_json::Value, key: &str) -> (found: Option<String>)
    ensures
        chars_of(found) == text_under(*value, key@),
{
    match member(value, key) {
        Some(inner) => match as_text(inner) {
            Some(text) => Some(text.to_owned()),
            None => None,
        },
        None => None,
    }
}

fn number_member(value: &serde_json::Value, key: &str) -> (found: Option<u64>)
    ensures
        found == number_under(*value, key@),
{
    match member(value, key) {
        Some(inner) => as_number(inner),
        None => None,
    }
}

fn append_text(out: &mut String, label: &str, member: &Option<String>)
    ensures
        final(out)@ == old(out)@ + text_entry(label@, chars_of(*member)),
{
    match member {
        Some(text) => {
            let quoted = quote(text.as_str());
            out.append(label);
            out.append(quoted.as_str());
            assert(out@ =~= old(out)@ + (label@ + json_quote(text@)));
        },
        None => {
            assert(out@ =~= old(out)@ + Seq::<char>::empty());
        },
    }
}

fn append_number(out: &mut String, label: &str, member: Option<u64>)
    ensures
        final(out)@ == old(out)@ + number_entry(label@, member),
{
    match member {
        Some(n) => {
            let digits = decimal(n);
            out.append(label);
            out.append(digits.as_str());
            assert(out@ =~= old(out)@ + (label@ + decimal_digits(n as nat)));
        },
        None => {
            assert(out@ =~= old(out)@ + Seq::<char>::empty());
        },
    }
}

impl Envelope {
    /// An envelope with no member.
    pub fn blank() -> (e: Envelope)
        ensures
            e@ == (EnvelopeView {
                kind: None,
                instance: None,
                uid: None,
                resource: None,
                worker: None,
                body: None,
                status: None,
                version: None,
            }),
    {
        Envelope {
            kind: None,
            instance: None,
            uid: None,
            resource: None,
            worker: None,
            body: None,
            status: None,
            version: None,
        }
    }

    /// Reads the protocol's members out of a parsed JSON value.
    pub fn of_value(value: &serde_json::Value) -> (e: Envelope)
        ensures
            e@ == envelope_in(*value),
    {
        Envelope {
            kind: text_member(value, "type"),
            instance: text_member(value, "instance"),
            uid: text_member(value, "uid"),
            resource: text_member(value, "resource"),
            worker: text_member(value, "worker"),
            body: text_member(value, "body"),
            status: number_member(value, "status"),
            version: number_member(value, "version"),
        }
    }

    /// Parses a text and reads the protocol's members out of it. Fails on
    /// text that is not JSON, and on nothing else.
    pub fn from_text(text: &str) -> (read: Result<Envelope, ParseError>)
        ensures
            match read {
                Ok(e) => json_parse(text@) is Some && e@ == envelope_in(json_parse(text@).unwrap()),
                Err(error) => json_parse(text@) is None && error == ParseError::InvalidJson,
            },
    {
        match parse(text) {
            Ok(value) => Ok(Envelope::of_value(&value)),
            Err(_) => Err(ParseError::InvalidJson),
        }
    }

    /// The envelope that a message travels as.
    pub fn of_message(message: &Message) -> (e: Envelope)
        ensures
            e@ == members_of(message@),
    {
        let mut e = Envelope::blank();
        match message {
            Message::RegisterV1(m) => {
                e.kind = Some(String::from_str("register"));
                e.instance = Some(m.instance.clone());
            },
            Message::RegisterV2(m) => {
                e.kind = Some(String::from_str("register"));
                e.instance = Some(m.instance.clone());
                e.worker = Some(m.worker.clone());
                e.version = Some(m.version as u64);
            },
            Message::Ready(m) => {
                e.kind = Some(String::from_str("ready"));
                e.uid = Some(m.uid.clone());
            },
            Message::ReadyAck(m) => {
                e.kind = Some(String::from_str("ready"));
                e.uid = Some(m.uid.clone());
                e.worker = Some(m.worker.clone());
            },
            Message::Request(m) => {
                e.kind = Some(String::from_str("request"));
                e.uid = Some(m.uid.clone());
                e.resource = Some(m.resource.clone());
            },
            Message::Response(m) => {
                e.kind = Some(String::from_str("response"));
                e.uid = Some(m.uid.clone());
                e.body = Some(m.body.clone());
                e.status = Some(m.status as u64);
            },
            Message::Ping(_) => {
                e.kind = Some(String::from_str("ping"));
            },
            Message::Pong => {
                e.kind = Some(String::from_str("pong"));
            },
            Message::Unknown(_) => {
                e.kind = Some(String::from_str("unknown"));
            },
        }
        e
    }

    /// The message that the envelope stands for, or why it stands for none.
    pub fn to_message(&self) -> (outcome: Result<Message, ParseError>)
        ensures
            outcome_view(outcome) == decoded(self@),
    {
        let kind = match &self.kind {
            Some(kind) => kind.as_str(),
            None => {
                return Err(ParseError::NoType);
            },
        };
        if same_text(kind, "ping") {
            Ok(Message::Ping(WSProxyPing {  }))
        } else if same_text(kind, "pong") {
            Ok(Message::Pong)
        } else if same_text(kind, "request") {
            let uid = match &self.uid {
                Some(uid) => uid.clone(),
                None => {
                    return Err(ParseError::Missing(Member::Uid));
                },
            };
            let resource = match &self.resource {
                Some(resource) => resource.clone(),
                None => {
                    return Err(ParseError::Missing(Member::Resource));
                },
            };
            Ok(Message::Request(WSProxyCallRequest { uid, resource }))
        } else if same_text(kind, "ready") {
            let uid = match &self.uid {
                Some(uid) => uid.clone(),
                None => {
                    return Err(ParseError::Missing(Member::Uid));
                },
            };
            match &self.worker {
                Some(worker) => Ok(Message::ReadyAck(WSReadyMessage { uid, worker: worker.clone() })),
                None => Ok(Message::Ready(WSProxyReadyRequest { uid })),
            }
        } else if same_text(kind, "response") {
            let uid = match &self.uid {
                Some(uid) => uid.clone(),
                None => {
                    return Err(ParseError::Missing(Member::Uid));
                },
            };
            let body = match &self.body {
                Some(body) => body.clone(),
                None => {
                    return Err(ParseError::Missing(Member::Body));
                },
            };
            match self.status {
                Some(status) if status <= 0xffff => Ok(
                    Message::Response(WSResponseMessage { uid, body, status: status as u16 }),
                ),
                _ => Err(ParseError::Missing(Member::Status)),
            }
        } else if same_text(kind, "register") {
            let instance = match &self.instance {
                Some(instance) => instance.clone(),
                None => {
                    return Err(ParseError::Missing(Member::Instance));
                },
            };
            match (&self.worker, self.version) {
                (Some(worker), Some(version)) if version <= 0xffff => Ok(
                    Message::RegisterV2(
                        WSRegisterMessageV2 {
                            instance,
                            worker: worker.clone(),
                            version: version as u16,
                        },
                    ),
                ),
                _ => Ok(Message::RegisterV1(WSRegisterMessageV1 { instance })),
            }
        } else {
            Ok(Message::Unknown(WSProxyUnknownRequest {  }))
        }
    }

    /// Writes the envelope as one JSON object.
    pub fn to_text(&self) -> (text: String)
        ensures
            text@ == rendered(self@),
    {
        let mut out = String::from_str("{\"type\":");
        match &self.kind {
            Some(kind) => {
                let quoted = quote(kind.as_str());
                out.append(quoted.as_str());
            },
            None => {
                out.append("null");
            },
        }
        append_text(&mut out, ",\"instance\":", &self.instance);
        append_text(&mut out, ",\"uid\":", &self.uid);
        append_text(&mut out, ",\"resource\":", &self.resource);
        append_text(&mut out, ",\"worker\":", &self.worker);
        append_text(&mut out, ",\"body\":", &self.body);
        append_number(&mut out, ",\"status\":", self.status);
        append_number(&mut out, ",\"version\":", self.version);
        out.append("}");
        out
    }
}

/// Decodes one inbound text into a message.
///
/// Fails with `InvalidJson` where the text is not JSON, with `NoType` where
/// it has no string member `type`, and with `Missing` where the type is known
/// and a member that it needs is not there. A type that nobody knows gives
/// the unknown message.
pub fn read_ws_message(value: String) -> (outcome: Result<Message, ParseError>)
    ensures
        outcome_view(outcome) == decoded_text(value@),
{
    match Envelope::from_text(value.as_str()) {
        Ok(e) => e.to_message(),
        Err(error) => Err(error),
    }
}

/// Encodes a message as JSON text. Never fails.
pub fn write_ws_message(message: &Message) -> (text: String)
    ensures
        text@ == rendered(members_of(message@)),
{
    Envelope::of_message(message).to_text()
}

/// Reading back the members that a message is written with gives the message
/// again: of every message, registrations of both versions, responses and
/// ready answers among them.
pub proof fn lemma_members_round_trip(m: MessageView)
    ensures
        decoded(members_of(m)) == Ok::<MessageView, ParseError>(m),
{
    lemma_type_names_differ();
}

/// The type names that the protocol knows.
pub open spec fn known_type(kind: Seq<char>) -> bool {
    kind == "ping"@ || kind == "pong"@ || kind == "request"@ || kind == "ready"@ || kind
        == "response"@ || kind == "register"@
}

/// A text that is not JSON fails to decode, and so does one without a string
/// member `type`: the first as invalid JSON, the second for want of a type.
pub proof fn lemma_untyped_text_rejected(text: Seq<char>)
    ensures
        json_parse(text) is None ==> decoded_text(text) == Err::<MessageView, ParseError>(
            ParseError::InvalidJson,
        ),
        json_parse(text) matches Some(value) && text_under(value, "type"@) is None
            ==> decoded_text(text) == Err::<MessageView, ParseError>(ParseError::NoType),
{
}

/// An envelope of a type that the protocol does not know stands for the
/// unknown message, whatever else it holds. That is no error.
pub proof fn lemma_unrecognized_type_is_unknown(e: EnvelopeView)
    requires
        e.kind matches Some(kind) && !known_type(kind),
    ensures
        decoded(e) == Ok::<MessageView, ParseError>(MessageView::Unknown),
{
}

/// No two of the type names are the same text.
proof fn lemma_type_names_differ()
    ensures
        "ping"@ != "pong"@,
        "request"@ != "ping"@,
        "request"@ != "pong"@,
        "ready"@ != "ping"@,
        "ready"@ != "pong"@,
        "ready"@ != "request"@,
        "response"@ != "ping"@,
        "response"@ != "pong"@,
        "response"@ != "request"@,
        "response"@ != "ready"@,
        "register"@ != "ping"@,
        "register"@ != "pong"@,
        "register"@ != "request"@,
        "register"@ != "ready"@,
        "register"@ != "response"@,
        "unknown"@ != "ping"@,
        "unknown"@ != "pong"@,
        "unknown"@ != "request"@,
        "unknown"@ != "ready"@,
        "unknown"@ != "response"@,
        "unknown"@ != "register"@,
{
    reveal_strlit("ping");
    reveal_strlit("pong");
    reveal_strlit("request");
    reveal_strlit("ready");
    reveal_strlit("response");
    reveal_strlit("register");
    reveal_strlit("unknown");
    assert("ping"@.len() == 4 && "pong"@.len() == 4);
    assert("ready"@.len() == 5);
    assert("request"@.len() == 7 && "unknown"@.len() == 7);
    assert("response"@.len() == 8 && "register"@.len() == 8);
    assert("ping"@[1] != "pong"@[1]);
    assert("response"@[2] != "register"@[2]);
    assert("unknown"@[0] != "request"@[0]);
}

} // verus!
