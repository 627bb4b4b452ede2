use satrs_obsw::handling::HandlingStatus;
use satrs_obsw::interface::sim_client_udp::{
    ClientAction, ClientEvent, PingOutcome, SimClientUdp,
    SimClientCreationError,
};
use satrs_obsw::minisim::eps::{PcduReply, SwitchMapBinary};
use satrs_obsw::minisim::udp::SIM_CTRL_PORT;
use satrs_obsw::minisim::{
    ComponentId, MonotonicTime, SimCtrlReply, SimCtrlRequest, SimReply, SimRequest,
};
use satrs_obsw::types::pcdu::SwitchStateBinary;

fn pcdu_reply() -> SimReply {
    SimReply::from(PcduReply::SwitchInfo(SwitchMapBinary {
        mgm0: Some(SwitchStateBinary::Off),
        mgm1: Some(SwitchStateBinary::On),
        mgt: None,
    }))
}

#[test]
fn connection_needs_a_pong() {
    let request = SimClientUdp::connection_request();
    assert_eq!(request.request, SimRequest::SimCtrl(SimCtrlRequest::Ping));
    assert_eq!(request.timestamp, MonotonicTime { secs: 0, subsec_nanos: 0 });
    let pong = SimReply::from(SimCtrlReply::Pong);
    assert_eq!(SimClientUdp::attempt_connection(PingOutcome::Reply(pong)), Ok(()));
    assert_eq!(
        SimClientUdp::attempt_connection(PingOutcome::Reply(pcdu_reply())),
        Err(SimClientCreationError::ReplyIsNotPong(pcdu_reply()))
    );
    assert_eq!(
        SimClientUdp::attempt_connection(PingOutcome::Undecodable),
        Err(SimClientCreationError::InvalidReplyJsonError)
    );
    assert_eq!(
        SimClientUdp::attempt_connection(PingOutcome::TimedOut),
        Err(SimClientCreationError::Timeout)
    );
    assert_eq!(
        SimClientUdp::attempt_connection(PingOutcome::WouldBlock),
        Err(SimClientCreationError::Timeout)
    );
    assert_eq!(
        SimClientUdp::attempt_connection(PingOutcome::OtherError),
        Err(SimClientCreationError::Io)
    );
    assert_eq!(SIM_CTRL_PORT, 7303);
}

#[test]
fn idle_operation_is_empty() {
    let mut client = SimClientUdp::new();
    assert_eq!(client.start_operation(), ClientAction::SendRequest);
    assert_eq!(client.handle_event(ClientEvent::NoRequest), ClientAction::Receive);
    assert_eq!(
        client.handle_event(ClientEvent::NothingReceived),
        ClientAction::Finished(HandlingStatus::Empty)
    );
}

#[test]
fn requests_are_sent_and_replies_are_forwarded() {
    let mut client = SimClientUdp::new();
    client.add_reply_recipient(ComponentId::Pcdu);
    client.start_operation();
    assert_eq!(client.handle_event(ClientEvent::RequestSent), ClientAction::SendRequest);
    assert_eq!(client.handle_event(ClientEvent::NoRequest), ClientAction::Receive);
    assert_eq!(
        client.handle_event(ClientEvent::ReplyReceived(pcdu_reply())),
        ClientAction::ForwardAndReceive(ComponentId::Pcdu, pcdu_reply())
    );
    // There is no recipient for this one.
    assert_eq!(
        client.handle_event(ClientEvent::ReplyReceived(SimReply::Mgt(vec![]))),
        ClientAction::Receive
    );
    assert_eq!(
        client.handle_event(ClientEvent::NothingReceived),
        ClientAction::Finished(HandlingStatus::HandledOne)
    );
}

#[test]
fn failed_sending_goes_on_with_receiving() {
    let mut client = SimClientUdp::new();
    client.start_operation();
    assert_eq!(client.handle_event(ClientEvent::SendFailed), ClientAction::Receive);
    assert_eq!(
        client.handle_event(ClientEvent::UndecodableReceived),
        ClientAction::Receive
    );
    assert_eq!(
        client.handle_event(ClientEvent::NothingReceived),
        ClientAction::Finished(HandlingStatus::HandledOne)
    );
    // The next operation starts from scratch.
    client.start_operation();
    client.handle_event(ClientEvent::NoRequest);
    assert_eq!(
        client.handle_event(ClientEvent::NothingReceived),
        ClientAction::Finished(HandlingStatus::Empty)
    );
}
