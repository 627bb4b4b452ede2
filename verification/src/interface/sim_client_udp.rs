//! Decisions of the simulator client.
//!
//! The client exchanges messages with the simulator over UDP. The application owns the socket and
//! reports every outcome, and the functions here decide how to go on.

use std::collections::HashSet;
use vstd::prelude::*;

use crate::handling::HandlingStatus;
use crate::minisim::{
    ComponentId, MonotonicTime, SimCtrlReply, SimCtrlRequest, SimReply, SimRequest,
    SimRequestWithTime,
};

verus! {

broadcast use vstd::std_specs::hash::group_hash_axioms;

/// Outcome of waiting for the reply to a ping.
#[derive(Debug, Clone, PartialEq, Eq)]
pub enum PingOutcome {
    /// A message arrived which is a reply.
    Reply(SimReply),
    /// A message arrived which is no reply.
    Undecodable,
    /// No message arrived in time.
    TimedOut,
    /// The operation would have to wait.
    WouldBlock,
    /// Any other error.
    OtherError,
}

/// Reason why there is no connection to the simulator.
#[derive(Debug, Clone, PartialEq, Eq)]
pub enum SimClientCreationError {
    /// Input/output error.
    Io,
    /// Timeout when trying to connect to the simulator.
    Timeout,
    /// The reply to the ping could not be decoded.
    InvalidReplyJsonError,
    /// The reply to the ping is another one than expected.
    ReplyIsNotPong(SimReply),
}

/// There is a connection if the simulator answers the ping.
pub open spec fn connection_of(outcome: PingOutcome) -> Result<(), SimClientCreationError> {
    match outcome {
        PingOutcome::Reply(SimReply::SimCtrl(SimCtrlReply::Pong)) => Ok(()),
        PingOutcome::Reply(reply) => Err(SimClientCreationError::ReplyIsNotPong(reply)),
        PingOutcome::Undecodable => Err(SimClientCreationError::InvalidReplyJsonError),
        PingOutcome::TimedOut | PingOutcome::WouldBlock => Err(SimClientCreationError::Timeout),
        PingOutcome::OtherError => Err(SimClientCreationError::Io),
    }
}

/// What happened since the last step of an operation.
#[derive(Debug, Clone, PartialEq, Eq)]
pub enum ClientEvent {
    /// A request was waiting and was sent to the simulator.
    RequestSent,
    /// A request was waiting, but could not be sent.
    SendFailed,
    /// No request is waiting.
    NoRequest,
    /// A reply arrived.
    ReplyReceived(SimReply),
    /// Something else than a reply arrived.
    UndecodableReceived,
    /// Nothing arrived, or receiving failed.
    NothingReceived,
}

/// What has to be done next in an operation.
#[derive(Debug, Clone, PartialEq, Eq)]
pub enum ClientAction {
    /// Send the next waiting request, if there is one.
    SendRequest,
    /// Receive the next message, if there is one.
    Receive,
    /// Pass the reply on to the component which expects it, then receive the next message.
    ForwardAndReceive(ComponentId, SimReply),
    /// The operation is complete.
    Finished(HandlingStatus),
}

/// Progress of an operation.
#[derive(Debug, Clone, Copy, PartialEq, Eq, Structural)]
pub enum ClientPhase {
    /// Requests are being sent.
    Sending,
    /// Replies are being received.
    Receiving,
    /// The operation is complete.
    Done,
}

/// Mathematical model of the [SimClientUdp].
pub struct ClientModel {
    /// Components which expect replies.
    pub recipients: Set<ComponentId>,
    /// Progress of the operation.
    pub phase: ClientPhase,
    /// Something was sent or received in this operation.
    pub active: bool,
}

impl ClientModel {
    /// Status of the operation.
    pub open spec fn status(self) -> HandlingStatus {
        if self.active {
            HandlingStatus::HandledOne
        } else {
            HandlingStatus::Empty
        }
    }

    /// An operation begins.
    pub open spec fn started(self) -> ClientModel {
        ClientModel { phase: ClientPhase::Sending, active: false, ..self }
    }

    /// Requests are sent until there is none left or one could not be sent. Then messages are
    /// received until there is none left. Other events do not occur in these phases and are
    /// ignored.
    pub open spec fn after(self, event: ClientEvent) -> ClientModel {
        match (self.phase, event) {
            (ClientPhase::Sending, ClientEvent::RequestSent) => ClientModel {
                active: true,
                ..self
            },
            (ClientPhase::Sending, ClientEvent::SendFailed)
            | (ClientPhase::Sending, ClientEvent::NoRequest) => ClientModel {
                phase: ClientPhase::Receiving,
                ..self
            },
            (ClientPhase::Receiving, ClientEvent::ReplyReceived(_))
            | (ClientPhase::Receiving, ClientEvent::UndecodableReceived) => ClientModel {
                active: true,
                ..self
            },
            (ClientPhase::Receiving, ClientEvent::NothingReceived) => ClientModel {
                phase: ClientPhase::Done,
                ..self
            },
            _ => self,
        }
    }

    /// What has to be done in the current phase.
    pub open spec fn next_action(self) -> ClientAction {
        match self.phase {
            ClientPhase::Sending => ClientAction::SendRequest,
            ClientPhase::Receiving => ClientAction::Receive,
            ClientPhase::Done => ClientAction::Finished(self.status()),
        }
    }

    /// What has to be done after an event. A reply is passed on if a component expects it.
    pub open spec fn action_after(self, event: ClientEvent) -> ClientAction {
        match event {
            ClientEvent::ReplyReceived(reply) => if self.phase == ClientPhase::Receiving
                && self.recipients.contains(reply.spec_component()) {
                ClientAction::ForwardAndReceive(reply.spec_component(), reply)
            } else {
                self.after(event).next_action()
            },
            _ => self.after(event).next_action(),
        }
    }
}

/// Position of the component.
pub open spec fn component_key(id: ComponentId) -> u32 {
    match id {
        ComponentId::SimCtrl => 0,
        ComponentId::Mgm0Lis3Mdl => 1,
        ComponentId::Mgm1Lis3Mdl => 2,
        ComponentId::Mgt => 3,
        ComponentId::Pcdu => 4,
    }
}

/// Position of the component.
fn key_of_component(id: ComponentId) -> (key: u32)
    ensures
        key == component_key(id),
{
    match id {
        ComponentId::SimCtrl => 0,
        ComponentId::Mgm0Lis3Mdl => 1,
        ComponentId::Mgm1Lis3Mdl => 2,
        ComponentId::Mgt => 3,
        ComponentId::Pcdu => 4,
    }
}

/// Simulator client. An operation sends all waiting requests and receives all waiting replies.
#[derive(Debug)]
pub struct SimClientUdp {
    recipients: HashSet<u32>,
    phase: ClientPhase,
    active: bool,
}

impl View for SimClientUdp {
    type V = ClientModel;

    closed spec fn view(&self) -> ClientModel {
        ClientModel {
            recipients: Set::new(|id: ComponentId| self.recipients@.contains(component_key(id))),
            phase: self.phase,
            active: self.active,
        }
    }
}

impl SimClientUdp {
    /// Client without recipients.
    pub fn new() -> (client: Self)
        ensures
            client@ == (ClientModel {
                recipients: Set::empty(),
                phase: ClientPhase::Done,
                active: false,
            }),
    {
        let client = SimClientUdp {
            recipients: HashSet::new(),
            phase: ClientPhase::Done,
            active: false,
        };
        assert(client@.recipients =~= Set::empty());
        client
    }

    /// The message which is sent to establish a connection.
    pub fn connection_request() -> (request: SimRequestWithTime)
        ensures
            request == (SimRequestWithTime {
                request: SimRequest::SimCtrl(SimCtrlRequest::Ping),
                timestamp: MonotonicTime { secs: 0, subsec_nanos: 0 },
            }),
    {
        SimRequestWithTime::new_with_epoch_time(SimRequest::from(SimCtrlRequest::Ping))
    }

    /// There is a connection if the simulator answers the ping.
    pub fn attempt_connection(outcome: PingOutcome) -> (connection: Result<
        (),
        SimClientCreationError,
    >)
        ensures
            connection == connection_of(outcome),
    {
        match outcome {
            PingOutcome::Reply(SimReply::SimCtrl(SimCtrlReply::Pong)) => Ok(()),
            PingOutcome::Reply(reply) => Err(SimClientCreationError::ReplyIsNotPong(reply)),
            PingOutcome::Undecodable => Err(SimClientCreationError::InvalidReplyJsonError),
            PingOutcome::TimedOut | PingOutcome::WouldBlock => Err(SimClientCreationError::Timeout),
            PingOutcome::OtherError => Err(SimClientCreationError::Io),
        }
    }

    /// Registers a component which expects replies.
    pub fn add_reply_recipient(&mut self, component: ComponentId)
        ensures
            final(self)@ == (ClientModel {
                recipients: old(self)@.recipients.insert(component),
                ..old(self)@
            }),
    {
        self.recipients.insert(key_of_component(component));
        assert(self@.recipients =~= old(self)@.recipients.insert(component));
    }

    /// Begins an operation.
    pub fn start_operation(&mut self) -> (action: ClientAction)
        ensures
            final(self)@ == old(self)@.started(),
            action == old(self)@.started().next_action(),
    {
        self.phase = ClientPhase::Sending;
        self.active = false;
        ClientAction::SendRequest
    }

    /// Goes on with an operation after the given event.
    pub fn handle_event(&mut self, event: ClientEvent) -> (action: ClientAction)
        ensures
            final(self)@ == old(self)@.after(event),
            action == old(self)@.action_after(event),
    {
        match (self.phase, event) {
            (ClientPhase::Sending, ClientEvent::RequestSent) => {
                self.active = true;
            },
            (ClientPhase::Sending, ClientEvent::SendFailed)
            | (ClientPhase::Sending, ClientEvent::NoRequest) => {
                self.phase = ClientPhase::Receiving;
            },
            (ClientPhase::Receiving, ClientEvent::ReplyReceived(reply)) => {
                self.active = true;
                let component = reply.component();
                if self.recipients.contains(&key_of_component(component)) {
                    return ClientAction::ForwardAndReceive(component, reply);
                }
            },
            (ClientPhase::Receiving, ClientEvent::UndecodableReceived) => {
                self.active = true;
            },
            (ClientPhase::Receiving, ClientEvent::NothingReceived) => {
                self.phase = ClientPhase::Done;
            },
            _ => {},
        }
        match self.phase {
            ClientPhase::Sending => ClientAction::SendRequest,
            ClientPhase::Receiving => ClientAction::Receive,
            ClientPhase::Done => ClientAction::Finished(
                if self.active {
                    HandlingStatus::HandledOne
                } else {
                    HandlingStatus::Empty
                },
            ),
        }
    }
}

/// Client after a number of events.
pub open spec fn after_events(client: ClientModel, events: Seq<ClientEvent>) -> ClientModel
    decreases events.len(),
{
    if events.len() == 0 {
        client
    } else {
        after_events(client, events.drop_last()).after(events.last())
    }
}

/// A complete operation: `sent` requests are sent, `messages` arrive.
pub open spec fn complete_operation(
    requests: nat,
    end_of_requests: ClientEvent,
    messages: Seq<ClientEvent>,
) -> Seq<ClientEvent> {
    Seq::new(requests, |i: int| ClientEvent::RequestSent).push(end_of_requests) + messages.push(
        ClientEvent::NothingReceived,
    )
}

/// The phases of an operation before its end.
proof fn lemma_operation_progress(
    client: ClientModel,
    requests: nat,
    end_of_requests: ClientEvent,
    messages: Seq<ClientEvent>,
)
    requires
        end_of_requests == ClientEvent::SendFailed || end_of_requests == ClientEvent::NoRequest,
        forall|i: int|
            0 <= i < messages.len() ==> (#[trigger] messages[i] is ReplyReceived || messages[i]
                == ClientEvent::UndecodableReceived),
    ensures
        after_events(client.started(), Seq::new(requests, |i: int| ClientEvent::RequestSent))
            == (ClientModel { active: requests > 0, ..client.started() }),
        after_events(
            client.started(),
            Seq::new(requests, |i: int| ClientEvent::RequestSent).push(end_of_requests) + messages,
        ) == (ClientModel {
            phase: ClientPhase::Receiving,
            active: requests > 0 || messages.len() > 0,
            ..client
        }),
    decreases requests + messages.len(),
{
    let sent = Seq::new(requests, |i: int| ClientEvent::RequestSent);
    if requests > 0 {
        lemma_operation_progress(client, (requests - 1) as nat, end_of_requests, Seq::empty());
        assert(sent.drop_last() =~= Seq::new(
            (requests - 1) as nat,
            |i: int| ClientEvent::RequestSent,
        ));
    }
    let ended = sent.push(end_of_requests);
    assert(ended.drop_last() =~= sent);
    if messages.len() == 0 {
        assert(ended + messages =~= ended);
    } else {
        lemma_operation_progress(client, requests, end_of_requests, messages.drop_last());
        assert((ended + messages).drop_last() =~= ended + messages.drop_last());
    }
}

/// A complete operation reports that there was nothing to do if, and only if, nothing was sent
/// and nothing arrived. What arrived does not have to be a reply.
pub proof fn law_operation_status(
    client: ClientModel,
    requests: nat,
    end_of_requests: ClientEvent,
    messages: Seq<ClientEvent>,
)
    requires
        end_of_requests == ClientEvent::SendFailed || end_of_requests == ClientEvent::NoRequest,
        forall|i: int|
            0 <= i < messages.len() ==> (#[trigger] messages[i] is ReplyReceived || messages[i]
                == ClientEvent::UndecodableReceived),
    ensures
        ({
            let done = after_events(
                client.started(),
                complete_operation(requests, end_of_requests, messages),
            );
            &&& done.phase == ClientPhase::Done
            &&& done.status() == HandlingStatus::Empty <==> requests == 0 && messages.len() == 0
            &&& done.recipients == client.recipients
        }),
{
    lemma_operation_progress(client, requests, end_of_requests, messages);
    let ended = Seq::new(requests, |i: int| ClientEvent::RequestSent).push(end_of_requests);
    let all = complete_operation(requests, end_of_requests, messages);
    assert(all.drop_last() =~= ended + messages);
}

/// A reply only ever reaches the component which sent it, and only if that component is
/// registered.
pub proof fn law_replies_reach_their_component(client: ClientModel, event: ClientEvent)
    ensures
        client.action_after(event) matches ClientAction::ForwardAndReceive(component, reply) ==> {
            &&& event == ClientEvent::ReplyReceived(reply)
            &&& component == reply.spec_component()
            &&& client.recipients.contains(component)
        },
{
}

/// There is a connection exactly if the reply is the expected one. Every other outcome has its own
/// error, and an unexpected reply is part of it.
pub proof fn law_connection(outcome: PingOutcome)
    ensures
        connection_of(outcome) is Ok <==> outcome == PingOutcome::Reply(
            SimReply::SimCtrl(SimCtrlReply::Pong),
        ),
        connection_of(outcome) matches Err(error) ==> match outcome {
            PingOutcome::Reply(reply) => error == SimClientCreationError::ReplyIsNotPong(reply),
            PingOutcome::Undecodable => error == SimClientCreationError::InvalidReplyJsonError,
            PingOutcome::TimedOut => error == SimClientCreationError::Timeout,
            PingOutcome::WouldBlock => error == SimClientCreationError::Timeout,
            PingOutcome::OtherError => error == SimClientCreationError::Io,
        },
{
}

/// An operation starts with sending, and goes on with it after every request which was sent. It
/// goes on with receiving once there is no request left or one could not be sent.
pub proof fn law_requests_are_sent_first(client: ClientModel)
    ensures
        ({
            let started = client.started();
            let sent = started.after(ClientEvent::RequestSent);
            let failed = sent.after(ClientEvent::SendFailed);
            let ended = started.after(ClientEvent::NoRequest);
            &&& started.phase == ClientPhase::Sending
            &&& !started.active
            &&& started.recipients == client.recipients
            &&& started.next_action() == ClientAction::SendRequest
            &&& sent.phase == ClientPhase::Sending
            &&& sent.active
            &&& started.action_after(ClientEvent::RequestSent) == ClientAction::SendRequest
            &&& failed.phase == ClientPhase::Receiving
            &&& failed.active
            &&& sent.action_after(ClientEvent::SendFailed) == ClientAction::Receive
            &&& ended.phase == ClientPhase::Receiving
            &&& !ended.active
            &&& started.action_after(ClientEvent::NoRequest) == ClientAction::Receive
        }),
{
}

/// While receiving, a reply is passed on exactly if its component is registered. The operation goes
/// on with receiving after any message and is complete once nothing arrives.
pub proof fn law_replies_are_received(client: ClientModel, reply: SimReply)
    requires
        client.phase == ClientPhase::Receiving,
    ensures
        ({
            let received = client.after(ClientEvent::ReplyReceived(reply));
            let garbled = client.after(ClientEvent::UndecodableReceived);
            let done = client.after(ClientEvent::NothingReceived);
            let component = match reply {
                SimReply::SimCtrl(_) => ComponentId::SimCtrl,
                SimReply::Mgm { id: crate::minisim::acs::mgm::Id::Mgm0, .. } =>
                    ComponentId::Mgm0Lis3Mdl,
                SimReply::Mgm { id: crate::minisim::acs::mgm::Id::Mgm1, .. } =>
                    ComponentId::Mgm1Lis3Mdl,
                SimReply::Mgt(_) => ComponentId::Mgt,
                SimReply::Pcdu(_) => ComponentId::Pcdu,
            };
            &&& received.phase == ClientPhase::Receiving
            &&& received.active
            &&& received.recipients == client.recipients
            &&& client.action_after(ClientEvent::ReplyReceived(reply)) == (
            if client.recipients.contains(component) {
                ClientAction::ForwardAndReceive(component, reply)
            } else {
                ClientAction::Receive
            })
            &&& garbled.phase == ClientPhase::Receiving
            &&& garbled.active
            &&& garbled.recipients == client.recipients
            &&& client.action_after(ClientEvent::UndecodableReceived) == ClientAction::Receive
            &&& done.phase == ClientPhase::Done
            &&& done.active == client.active
            &&& done.recipients == client.recipients
            &&& client.action_after(ClientEvent::NothingReceived) == ClientAction::Finished(
                if client.active {
                    HandlingStatus::HandledOne
                } else {
                    HandlingStatus::Empty
                },
            )
        }),
{
}

/// Events which do not belong to a phase are ignored, and no event changes the recipients.
pub proof fn law_other_events_are_ignored(client: ClientModel, event: ClientEvent)
    ensures
        client.after(event).recipients == client.recipients,
        client.phase == ClientPhase::Done ==> client.after(event) == client,
        client.phase == ClientPhase::Sending && !(event is RequestSent || event is SendFailed
            || event is NoRequest) ==> client.after(event) == client && client.action_after(event)
            == ClientAction::SendRequest,
        client.phase == ClientPhase::Receiving && (event is RequestSent || event is SendFailed
            || event is NoRequest) ==> client.after(event) == client && client.action_after(event)
            == ClientAction::Receive,
{
}

} // verus!
