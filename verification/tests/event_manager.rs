use satrs_obsw::acs::Telecommand;
use satrs_obsw::event_manager::{AnyEvent, EventManager, EventTm, Payload, SentEvent};
use satrs_obsw::types::acs::{mgm, mgt};
use satrs_obsw::types::ccsds::{CcsdsPacketIdAndPsc, SpacePacketHeader};
use satrs_obsw::types::event_manager::request::Request;
use satrs_obsw::types::event_manager::response::Response;
use satrs_obsw::types::{
    control, tmtc, ComponentId, DeviceMode, Event, EventId, Message, MessageType,
};

/// The events of the assembly and the PCDU are stood in for by other events here.
type Manager = EventManager<control::Event, tmtc::Event>;
type Tm = EventTm<control::Event, tmtc::Event>;

struct Testbench {
    event_manager: Manager,
    tms: Vec<Tm>,
}

impl Testbench {
    fn new() -> Self {
        Self { event_manager: EventManager::new(), tms: Vec::new() }
    }

    fn send_request(&mut self, request: Request) {
        self.event_manager.queue_telecommand(Telecommand {
            sp_header: SpacePacketHeader { version: 0, packet_id: 0x1001, psc: 5, data_len: 1 },
            request: Some(request),
        });
    }

    fn send_mgm_event(&mut self, sender_id: ComponentId, event: mgm::Event) {
        self.event_manager.queue_event(SentEvent::Mgm(sender_id, event));
    }

    fn try_recv(&mut self) -> Option<Tm> {
        self.tms.append(&mut self.event_manager.take_telemetry());
        if self.tms.is_empty() {
            None
        } else {
            Some(self.tms.remove(0))
        }
    }
}

#[test]
fn test_events_enabled_by_default() {
    let mut tb = Testbench::new();
    tb.send_mgm_event(ComponentId::AcsMgm0, mgm::Event::SpiFaultThresholdExceeded);
    tb.event_manager.periodic_operation();
    tb.try_recv().expect("expected event TM");
}

#[test]
fn test_disabled_component_silences_all_its_events() {
    let mut tb = Testbench::new();
    tb.event_manager.disable_component(ComponentId::AcsMgm0);
    tb.send_mgm_event(ComponentId::AcsMgm0, mgm::Event::SpiFaultThresholdExceeded);
    tb.send_mgm_event(ComponentId::AcsMgm0, mgm::Event::ModeChanged(DeviceMode::Normal));
    tb.event_manager.periodic_operation();
    assert!(tb.try_recv().is_none());
}

#[test]
fn test_disabled_component_does_not_affect_other_components() {
    let mut tb = Testbench::new();
    tb.event_manager.disable_component(ComponentId::AcsMgm1);
    tb.send_mgm_event(ComponentId::AcsMgm0, mgm::Event::SpiFaultThresholdExceeded);
    tb.event_manager.periodic_operation();
    tb.try_recv().expect("expected event TM");
}

#[test]
fn test_disabled_event_only_silences_that_specific_event() {
    let mut tb = Testbench::new();
    tb.event_manager.disable_event(
        ComponentId::AcsMgm0,
        mgm::Event::SpiFaultThresholdExceeded.event_id(),
    );
    tb.send_mgm_event(ComponentId::AcsMgm0, mgm::Event::SpiFaultThresholdExceeded);
    tb.send_mgm_event(ComponentId::AcsMgm0, mgm::Event::ModeChanged(DeviceMode::Normal));
    tb.event_manager.periodic_operation();
    let tm = tb.try_recv().expect("expected event TM");
    assert!(matches!(
        tm.payload,
        Payload::Event(AnyEvent::Mgm(mgm::Event::ModeChanged(_)))
    ));
    assert!(tb.try_recv().is_none());
}

#[test]
fn test_re_enabling_a_component_restores_its_events() {
    let mut tb = Testbench::new();
    tb.event_manager.disable_component(ComponentId::AcsMgm0);
    tb.event_manager.enable_component(ComponentId::AcsMgm0);
    tb.send_mgm_event(ComponentId::AcsMgm0, mgm::Event::SpiFaultThresholdExceeded);
    tb.event_manager.periodic_operation();
    tb.try_recv().expect("expected event TM");
}

#[test]
fn test_disable_component_request() {
    let mut tb = Testbench::new();
    tb.send_request(Request::DisableComponent(ComponentId::AcsMgm0));
    tb.send_mgm_event(ComponentId::AcsMgm0, mgm::Event::SpiFaultThresholdExceeded);
    tb.event_manager.periodic_operation();

    let tm = tb.try_recv().expect("expected request response TM");
    assert_eq!(tm.sender_id, ComponentId::EventManager);
    assert_eq!(tm.tc_id, Some(CcsdsPacketIdAndPsc { packet_id: 0x1001, psc: 5 }));
    assert_eq!(tm.payload, Payload::Response(Response::Success));
    assert!(tb.try_recv().is_none());
}

#[test]
fn test_disable_event_request() {
    let mut tb = Testbench::new();
    tb.send_request(Request::DisableEvent {
        sender_id: ComponentId::AcsMgm0,
        event_id: mgm::Event::SpiFaultThresholdExceeded.event_id(),
    });
    tb.event_manager.periodic_operation();
    tb.try_recv().expect("expected request response TM");

    tb.send_request(Request::EnableEvent {
        sender_id: ComponentId::AcsMgm0,
        event_id: mgm::Event::SpiFaultThresholdExceeded.event_id(),
    });
    tb.send_mgm_event(ComponentId::AcsMgm0, mgm::Event::SpiFaultThresholdExceeded);
    tb.event_manager.periodic_operation();
    tb.try_recv().expect("expected request response TM");
    tb.try_recv().expect("expected event TM");
}

#[test]
fn events_of_any_sender_are_sent() {
    let mut tb = Testbench::new();
    let event = AnyEvent::Mgt(mgt::Event::CommFaultThresholdExceeded);
    tb.event_manager.event_to_tm(ComponentId::AcsMgt, event);
    tb.event_manager.event_to_tm(ComponentId::AcsController, event);
    let tms = tb.event_manager.take_telemetry();
    assert_eq!(
        tms,
        [ComponentId::AcsMgt, ComponentId::AcsController].map(|sender_id| EventTm {
            sender_id,
            tc_id: None,
            payload: Payload::Event(event),
        })
    );
    tb.event_manager.disable_event(ComponentId::AcsMgt, event.event_id());
    tb.event_manager.event_to_tm(ComponentId::AcsMgt, event);
    assert!(tb.try_recv().is_none());
    tb.event_manager.event_to_tm(
        ComponentId::AcsMgt,
        AnyEvent::Mgt(mgt::Event::ModeChanged(DeviceMode::Off)),
    );
    tb.try_recv().expect("expected event TM");
}

#[test]
fn filters_are_independent() {
    let mut tb = Testbench::new();
    tb.event_manager.disable_event(ComponentId::AcsMgm0, 0);
    tb.event_manager.disable_component(ComponentId::AcsMgm0);
    tb.event_manager.enable_component(ComponentId::AcsMgm0);
    tb.send_mgm_event(ComponentId::AcsMgm0, mgm::Event::SpiFaultThresholdExceeded);
    tb.send_mgm_event(ComponentId::AcsMgm1, mgm::Event::SpiFaultThresholdExceeded);
    tb.event_manager.periodic_operation();
    assert_eq!(tb.try_recv().map(|tm| tm.sender_id), Some(ComponentId::AcsMgm1));
    assert!(tb.try_recv().is_none());
}

#[test]
fn events_are_sent_queue_by_queue() {
    let mut tb = Testbench::new();
    tb.event_manager.queue_event(SentEvent::TcSource(
        ComponentId::TcpServer,
        tmtc::Event::InvalidTcHeader,
    ));
    tb.event_manager.queue_event(SentEvent::Pcdu(tmtc::Event::InvalidTcPacket));
    tb.event_manager.queue_event(SentEvent::MgmAssembly(control::Event::TestEvent));
    tb.send_mgm_event(ComponentId::AcsMgm1, mgm::Event::SpiFaultThresholdExceeded);
    tb.event_manager.queue_event(SentEvent::Control(control::Event::TestEvent));
    tb.event_manager.queue_telecommand(Telecommand {
        sp_header: SpacePacketHeader { version: 0, packet_id: 0, psc: 0, data_len: 0 },
        request: None,
    });
    tb.event_manager.periodic_operation();
    let tms = tb.event_manager.take_telemetry();
    let senders: Vec<ComponentId> = tms.iter().map(|tm| tm.sender_id).collect();
    assert_eq!(
        senders,
        [
            ComponentId::Controller,
            ComponentId::AcsMgm1,
            ComponentId::AcsMgmAssembly,
            ComponentId::EpsPcdu,
            ComponentId::TcpServer,
        ]
    );
    assert_eq!(
        tms[0].payload,
        Payload::Event(AnyEvent::Control(Event::ControllerEvent(control::Event::TestEvent)))
    );
    assert!(tms.iter().all(|tm| tm.tc_id.is_none()));
    assert!(tms.iter().all(|tm| tm.payload.message_type() == MessageType::Event));
    tb.event_manager.periodic_operation();
    assert!(tb.try_recv().is_none());
}
