//! The messages that a worker and its broker exchange, as values.

use vstd::prelude::*;

verus! {

/// Registration under protocol version 1: the instance alone.
#[derive(Debug, Clone, PartialEq, Eq)]
pub struct WSRegisterMessageV1 {
    pub instance: String,
}

/// Registration under protocol version 2: the instance, the worker's name and
/// the version number.
#[derive(Debug, Clone, PartialEq, Eq)]
pub struct WSRegisterMessageV2 {
    pub instance: String,
    pub worker: String,
    pub version: u16,
}

/// A worker's answer to a ready call: the call's uid and the worker's name.
#[derive(Debug, Clone, PartialEq, Eq)]
pub struct WSReadyMessage {
    pub uid: String,
    pub worker: String,
}

/// The result of a proxied call, under the uid of the request.
#[derive(Debug, Clone, PartialEq, Eq)]
pub struct WSResponseMessage {
    pub uid: String,
    pub body: String,
    pub status: u16,
}

/// The broker asks who is ready to serve a call.
#[derive(Debug, Clone, PartialEq, Eq)]
pub struct WSProxyReadyRequest {
    pub uid: String,
}

/// The broker asks for one named resource.
#[derive(Debug, Clone, PartialEq, Eq)]
pub struct WSProxyCallRequest {
    pub uid: String,
    pub resource: String,
}

/// The broker's ping at message level.
#[derive(Debug, Clone, PartialEq, Eq)]
pub struct WSProxyPing {}

/// A message of a type that this worker does not know.
#[derive(Debug, Clone, PartialEq, Eq)]
pub struct WSProxyUnknownRequest {}

/// Every message of the protocol.
#[derive(Debug, Clone, PartialEq, Eq)]
pub enum Message {
    RegisterV1(WSRegisterMessageV1),
    RegisterV2(WSRegisterMessageV2),
    Ready(WSProxyReadyRequest),
    ReadyAck(WSReadyMessage),
    Request(WSProxyCallRequest),
    Response(WSResponseMessage),
    Ping(WSProxyPing),
    Pong,
    Unknown(WSProxyUnknownRequest),
}

/// A message with its texts as character sequences.
pub enum MessageView {
    RegisterV1 { instance: Seq<char> },
    RegisterV2 { instance: Seq<char>, worker: Seq<char>, version: u16 },
    Ready { uid: Seq<char> },
    ReadyAck { uid: Seq<char>, worker: Seq<char> },
    Request { uid: Seq<char>, resource: Seq<char> },
    Response { uid: Seq<char>, body: Seq<char>, status: u16 },
    Ping,
    Pong,
    Unknown,
}

impl View for Message {
    type V = MessageView;

    open spec fn view(&self) -> MessageView {
        match self {
            Message::RegisterV1(m) => MessageView::RegisterV1 { instance: m.instance@ },
            Message::RegisterV2(m) => MessageView::RegisterV2 {
                instance: m.instance@,
                worker: m.worker@,
                version: m.version,
            },
            Message::Ready(m) => MessageView::Ready { uid: m.uid@ },
            Message::ReadyAck(m) => MessageView::ReadyAck { uid: m.uid@, worker: m.worker@ },
            Message::Request(m) => MessageView::Request { uid: m.uid@, resource: m.resource@ },
            Message::Response(m) => MessageView::Response {
                uid: m.uid@,
                body: m.body@,
                status: m.status,
            },
            Message::Ping(_) => MessageView::Ping,
            Message::Pong => MessageView::Pong,
            Message::Unknown(_) => MessageView::Unknown,
        }
    }
}

} // verus!
