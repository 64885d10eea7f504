//! The request dispatcher: what a worker does with one inbound message.
//!
//! The dispatcher touches neither the socket nor the network. It answers with
//! a [`Reaction`]: a message to put on the outbound queue, a URL to fetch off
//! the message lane, or nothing. When a fetch has ended, [`handle_request`]
//! turns its outcome into the response that goes on the queue.

use vstd::prelude::*;
use vstd::string::*;
use crate::config::Config;
use crate::message::{
    Message, MessageView, WSProxyCallRequest, WSProxyPing, WSProxyReadyRequest,
    WSProxyUnknownRequest, WSReadyMessage, WSResponseMessage,
};

verus! {

/// How an HTTP GET against a resource ended.
#[derive(Debug, Clone, PartialEq, Eq)]
pub enum FetchOutcome {
    /// The resource answered, with any status, and its body was read.
    Answered { status: u16, body: String },
    /// The resource answered, but its body could not be read.
    Unreadable { status: u16 },
    /// No answer came: the name did not resolve, the connection failed.
    Failed,
}

/// What a resource answered, as it is reported to the broker.
#[derive(Debug, Clone, PartialEq, Eq)]
pub struct ResourceResponse {
    pub status: u16,
    pub body: String,
}

/// The status that is reported for a fetch: the resource's own, or 500 where
/// no answer came.
pub open spec fn status_of(outcome: FetchOutcome) -> u16 {
    match outcome {
        FetchOutcome::Answered { status, .. } => status,
        FetchOutcome::Unreadable { status } => status,
        FetchOutcome::Failed => 500,
    }
}

/// The body that is reported for a fetch: the resource's own, or the empty
/// text where none was read.
pub open spec fn body_of(outcome: FetchOutcome) -> Seq<char> {
    match outcome {
        FetchOutcome::Answered { body, .. } => body@,
        FetchOutcome::Unreadable { .. } => Seq::empty(),
        FetchOutcome::Failed => Seq::empty(),
    }
}

/// The response that goes to the broker when the fetch for a request has
/// ended.
pub open spec fn response_to(uid: Seq<char>, outcome: FetchOutcome) -> MessageView {
    MessageView::Response { uid, body: body_of(outcome), status: status_of(outcome) }
}

impl ResourceResponse {
    /// What is reported for a fetch that ended in the given way.
    pub fn of_outcome(outcome: FetchOutcome) -> (response: ResourceResponse)
        ensures
            response.status == status_of(outcome),
            response.body@ == body_of(outcome),
    {
        match outcome {
            FetchOutcome::Answered { status, body } => ResourceResponse { status, body },
            FetchOutcome::Unreadable { status } => ResourceResponse { status, body: String::new() },
            FetchOutcome::Failed => ResourceResponse { status: 500, body: String::new() },
        }
    }
}

/// The response to the request of the given uid, once its fetch has ended.
/// It carries that uid, whatever the outcome.
pub fn handle_request(request_id: String, outcome: FetchOutcome) -> (response: WSResponseMessage)
    ensures
        Message::Response(response)@ == response_to(request_id@, outcome),
{
    let answer = ResourceResponse::of_outcome(outcome);
    WSResponseMessage { uid: request_id, body: answer.body, status: answer.status }
}

/// What the dispatcher asks for.
#[derive(Debug, Clone, PartialEq, Eq)]
pub enum Reaction {
    /// Put this message on the outbound queue now.
    Reply(Message),
    /// Fetch this URL without holding up the message lane; the outcome goes
    /// to [`handle_request`] under this uid.
    Fetch { uid: String, url: String },
    /// Do nothing.
    Ignore,
}

/// A reaction with its texts as character sequences.
pub enum ReactionView {
    Reply(MessageView),
    Fetch { uid: Seq<char>, url: Seq<char> },
    Ignore,
}

impl View for Reaction {
    type V = ReactionView;

    open spec fn view(&self) -> ReactionView {
        match self {
            Reaction::Reply(message) => ReactionView::Reply(message@),
            Reaction::Fetch { uid, url } => ReactionView::Fetch { uid: uid@, url: url@ },
            Reaction::Ignore => ReactionView::Ignore,
        }
    }
}

/// The answer to a request for a resource that the table does not have.
pub open spec fn no_such_resource(uid: Seq<char>) -> MessageView {
    MessageView::Response { uid, body: "No such resource"@, status: 404 }
}

/// The reaction to a request: a fetch of the URL that the table has for the
/// resource, or the 404 answer where it has none.
pub open spec fn reaction_to_request(
    uid: Seq<char>,
    resource: Seq<char>,
    resources: Map<Seq<char>, Seq<char>>,
) -> ReactionView {
    if resources.contains_key(resource) {
        ReactionView::Fetch { uid, url: resources[resource] }
    } else {
        ReactionView::Reply(no_such_resource(uid))
    }
}

/// The reaction of the worker of the given name to a message, with the given
/// table of resources.
///
/// A request is fetched or refused; a ready call is answered under the
/// worker's own name; a ping is answered with a pong; everything else is
/// ignored.
pub open spec fn reaction_to(
    message: MessageView,
    worker: Seq<char>,
    resources: Map<Seq<char>, Seq<char>>,
) -> ReactionView {
    match message {
        MessageView::Request { uid, resource } => reaction_to_request(uid, resource, resources),
        MessageView::Ready { uid } => ReactionView::Reply(MessageView::ReadyAck { uid, worker }),
        MessageView::ReadyAck { uid, .. } => ReactionView::Reply(
            MessageView::ReadyAck { uid, worker },
        ),
        MessageView::Ping => ReactionView::Reply(MessageView::Pong),
        _ => ReactionView::Ignore,
    }
}

impl WSProxyReadyRequest {
    /// Answers under the worker's own name.
    pub fn handle(&self, worker: &str, config: &Config) -> (reaction: Reaction)
        ensures
            reaction@ == ReactionView::Reply(
                MessageView::ReadyAck { uid: self.uid@, worker: worker@ },
            ),
    {
        Reaction::Reply(
            Message::ReadyAck(WSReadyMessage { uid: self.uid.clone(), worker: worker.to_owned() }),
        )
    }
}

impl WSProxyCallRequest {
    /// Looks the resource up: a fetch where the table has it, the 404 answer
    /// where it has not.
    pub fn handle(&self, worker: &str, config: &Config) -> (reaction: Reaction)
        ensures
            reaction@ == reaction_to_request(self.uid@, self.resource@, config.resources@),
    {
        match config.resources.get(self.resource.as_str()) {
            Some(url) => Reaction::Fetch { uid: self.uid.clone(), url: url.clone() },
            None => Reaction::Reply(
                Message::Response(
                    WSResponseMessage {
                        uid: self.uid.clone(),
                        body: String::from_str("No such resource"),
                        status: 404,
                    },
                ),
            ),
        }
    }
}

impl WSProxyPing {
    /// Answers with a pong.
    pub fn handle(&self, worker: &str, config: &Config) -> (reaction: Reaction)
        ensures
            reaction@ == ReactionView::Reply(MessageView::Pong),
    {
        Reaction::Reply(Message::Pong)
    }
}

impl WSProxyUnknownRequest {
    /// Does nothing.
    pub fn handle(&self, worker: &str, config: &Config) -> (reaction: Reaction)
        ensures
            reaction@ == ReactionView::Ignore,
    {
        Reaction::Ignore
    }
}

/// Decides what to do with one inbound message.
pub fn dispatch(message: &Message, worker: &str, config: &Config) -> (reaction: Reaction)
    ensures
        reaction@ == reaction_to(message@, worker@, config.resources@),
{
    match message {
        Message::Request(request) => request.handle(worker, config),
        Message::Ready(request) => request.handle(worker, config),
        Message::ReadyAck(ack) => (WSProxyReadyRequest { uid: ack.uid.clone() }).handle(
            worker,
            config,
        ),
        Message::Ping(ping) => ping.handle(worker, config),
        Message::Unknown(unknown) => unknown.handle(worker, config),
        Message::RegisterV1(_) => Reaction::Ignore,
        Message::RegisterV2(_) => Reaction::Ignore,
        Message::Response(_) => Reaction::Ignore,
        Message::Pong => Reaction::Ignore,
    }
}

/// A request for a resource that the table has is answered by a fetch under
/// the request's uid, and the response to that fetch carries the same uid,
/// however the fetch ends.
pub proof fn lemma_request_answered_under_its_uid(
    uid: Seq<char>,
    resource: Seq<char>,
    worker: Seq<char>,
    resources: Map<Seq<char>, Seq<char>>,
    outcome: FetchOutcome,
)
    requires
        resources.contains_key(resource),
    ensures
        reaction_to(MessageView::Request { uid, resource }, worker, resources)
            == (ReactionView::Fetch { uid, url: resources[resource] }),
        response_to(uid, outcome) matches MessageView::Response { uid: answered, .. }
            && answered == uid,
{
}

/// A request for a resource that the table does not have is answered at
/// once with status 404 and the body `No such resource`, under the request's
/// uid, and nothing is fetched.
pub proof fn lemma_unknown_resource_refused(
    uid: Seq<char>,
    resource: Seq<char>,
    worker: Seq<char>,
    resources: Map<Seq<char>, Seq<char>>,
)
    requires
        !resources.contains_key(resource),
    ensures
        reaction_to(MessageView::Request { uid, resource }, worker, resources)
            == ReactionView::Reply(
            MessageView::Response { uid, body: "No such resource"@, status: 404 },
        ),
        !(reaction_to(MessageView::Request { uid, resource }, worker, resources)
            is Fetch),
{
}

/// A ping is answered with one pong, whatever the table holds.
pub proof fn lemma_ping_answered_with_pong(
    worker: Seq<char>,
    resources: Map<Seq<char>, Seq<char>>,
)
    ensures
        reaction_to(MessageView::Ping, worker, resources) == ReactionView::Reply(
            MessageView::Pong,
        ),
{
}

/// A ready call is answered once, under its uid and the name of the worker
/// that dispatches it.
pub proof fn lemma_ready_answered_by_own_worker(
    uid: Seq<char>,
    worker: Seq<char>,
    resources: Map<Seq<char>, Seq<char>>,
)
    ensures
        reaction_to(MessageView::Ready { uid }, worker, resources) == ReactionView::Reply(
            MessageView::ReadyAck { uid, worker },
        ),
{
}

/// A message of an unknown type is ignored.
pub proof fn lemma_unknown_ignored(worker: Seq<char>, resources: Map<Seq<char>, Seq<char>>)
    ensures
        reaction_to(MessageView::Unknown, worker, resources) == ReactionView::Ignore,
{
}

} // verus!
