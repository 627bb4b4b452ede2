//! Conversion of events to telemetry.

use std::collections::{HashSet, VecDeque};
use vstd::prelude::*;

use crate::acs::Telecommand;
use crate::types::acs::{mgm, mgt};
use crate::types::ccsds::CcsdsPacketIdAndPsc;
use crate::types::event_manager::request::Request;
use crate::types::event_manager::response::Response;
use crate::types::{control, tmtc, ComponentId, Event, EventId, Message, MessageType};

verus! {

broadcast use vstd::std_specs::hash::group_hash_axioms;

/// Event of an on-board component. The events of the MGM assembly and the PCDU are defined by
/// these components.
#[derive(Debug, Clone, Copy, PartialEq, Eq)]
pub enum AnyEvent<AssemblyEvent, PcduEvent> {
    Control(Event),
    Mgm(mgm::Event),
    Mgt(mgt::Event),
    MgmAssembly(AssemblyEvent),
    Pcdu(PcduEvent),
    TcSource(tmtc::Event),
}

impl<A: Message, P: Message> Message for AnyEvent<A, P> {
    open spec fn spec_message_type(&self) -> MessageType {
        match self {
            AnyEvent::Control(event) => event.spec_message_type(),
            AnyEvent::Mgm(event) => event.spec_message_type(),
            AnyEvent::Mgt(event) => event.spec_message_type(),
            AnyEvent::MgmAssembly(event) => event.spec_message_type(),
            AnyEvent::Pcdu(event) => event.spec_message_type(),
            AnyEvent::TcSource(event) => event.spec_message_type(),
        }
    }

    fn message_type(&self) -> (message_type: MessageType) {
        match self {
            AnyEvent::Control(event) => event.message_type(),
            AnyEvent::Mgm(event) => event.message_type(),
            AnyEvent::Mgt(event) => event.message_type(),
            AnyEvent::MgmAssembly(event) => event.message_type(),
            AnyEvent::Pcdu(event) => event.message_type(),
            AnyEvent::TcSource(event) => event.message_type(),
        }
    }
}

impl<A: EventId, P: EventId> EventId for AnyEvent<A, P> {
    open spec fn spec_event_id(&self) -> u16 {
        match self {
            AnyEvent::Control(event) => event.spec_event_id(),
            AnyEvent::Mgm(event) => event.spec_event_id(),
            AnyEvent::Mgt(event) => event.spec_event_id(),
            AnyEvent::MgmAssembly(event) => event.spec_event_id(),
            AnyEvent::Pcdu(event) => event.spec_event_id(),
            AnyEvent::TcSource(event) => event.spec_event_id(),
        }
    }

    fn event_id(&self) -> (id: u16) {
        match self {
            AnyEvent::Control(event) => event.event_id(),
            AnyEvent::Mgm(event) => event.event_id(),
            AnyEvent::Mgt(event) => event.event_id(),
            AnyEvent::MgmAssembly(event) => event.event_id(),
            AnyEvent::Pcdu(event) => event.event_id(),
            AnyEvent::TcSource(event) => event.event_id(),
        }
    }
}

/// Payload of the telemetry which the event manager sends.
#[derive(Debug, Clone, Copy, PartialEq, Eq)]
pub enum Payload<AssemblyEvent, PcduEvent> {
    Response(Response),
    Event(AnyEvent<AssemblyEvent, PcduEvent>),
}

impl<A: Message, P: Message> Message for Payload<A, P> {
    open spec fn spec_message_type(&self) -> MessageType {
        match self {
            Payload::Response(response) => response.spec_message_type(),
            Payload::Event(event) => event.spec_message_type(),
        }
    }

    fn message_type(&self) -> (message_type: MessageType) {
        match self {
            Payload::Response(response) => response.message_type(),
            Payload::Event(event) => event.message_type(),
        }
    }
}

/// Event which is queued for the event manager, together with its sender.
#[derive(Debug, Clone, Copy, PartialEq, Eq)]
pub enum SentEvent<AssemblyEvent, PcduEvent> {
    Control(control::Event),
    /// Shared by all MGM instances, which is why the sender ID is part of the message.
    Mgm(ComponentId, mgm::Event),
    MgmAssembly(AssemblyEvent),
    Pcdu(PcduEvent),
    /// Shared by all TC sources, which is why the sender ID is part of the message.
    TcSource(ComponentId, tmtc::Event),
}

impl<A: EventId + Copy, P: EventId + Copy> SentEvent<A, P> {
    /// Sender of the event.
    pub open spec fn spec_sender_id(self) -> ComponentId {
        match self {
            SentEvent::Control(_) => ComponentId::Controller,
            SentEvent::Mgm(sender_id, _) => sender_id,
            SentEvent::MgmAssembly(_) => ComponentId::AcsMgmAssembly,
            SentEvent::Pcdu(_) => ComponentId::EpsPcdu,
            SentEvent::TcSource(sender_id, _) => sender_id,
        }
    }

    /// Sender of the event.
    pub fn sender_id(&self) -> (id: ComponentId)
        ensures
            id == self.spec_sender_id(),
    {
        match self {
            SentEvent::Control(_) => ComponentId::Controller,
            SentEvent::Mgm(sender_id, _) => *sender_id,
            SentEvent::MgmAssembly(_) => ComponentId::AcsMgmAssembly,
            SentEvent::Pcdu(_) => ComponentId::EpsPcdu,
            SentEvent::TcSource(sender_id, _) => *sender_id,
        }
    }

    /// The event without its sender.
    pub open spec fn spec_event(self) -> AnyEvent<A, P> {
        match self {
            SentEvent::Control(event) => AnyEvent::Control(Event::ControllerEvent(event)),
            SentEvent::Mgm(_, event) => AnyEvent::Mgm(event),
            SentEvent::MgmAssembly(event) => AnyEvent::MgmAssembly(event),
            SentEvent::Pcdu(event) => AnyEvent::Pcdu(event),
            SentEvent::TcSource(_, event) => AnyEvent::TcSource(event),
        }
    }

    /// The event without its sender.
    pub fn event(&self) -> (event: AnyEvent<A, P>)
        ensures
            event == self.spec_event(),
    {
        match self {
            SentEvent::Control(event) => AnyEvent::Control(Event::ControllerEvent(*event)),
            SentEvent::Mgm(_, event) => AnyEvent::Mgm(*event),
            SentEvent::MgmAssembly(event) => AnyEvent::MgmAssembly(*event),
            SentEvent::Pcdu(event) => AnyEvent::Pcdu(*event),
            SentEvent::TcSource(_, event) => AnyEvent::TcSource(*event),
        }
    }
}

/// Telemetry which the event manager sends.
#[derive(Debug, Clone, Copy, PartialEq, Eq)]
pub struct EventTm<AssemblyEvent, PcduEvent> {
    pub sender_id: ComponentId,
    /// Telecommand which is answered.
    pub tc_id: Option<CcsdsPacketIdAndPsc>,
    pub payload: Payload<AssemblyEvent, PcduEvent>,
}

/// Mathematical model of the event filters.
pub struct FilterModel {
    /// Senders with all their event TM generation disabled.
    pub components: Set<ComponentId>,
    /// Individual (sender, event ID) pairs with their TM generation disabled.
    pub events: Set<(ComponentId, u16)>,
}

impl FilterModel {
    /// Nothing is disabled.
    pub open spec fn open() -> FilterModel {
        FilterModel { components: Set::empty(), events: Set::empty() }
    }

    /// TM is generated for an event.
    pub open spec fn passes(self, sender_id: ComponentId, event_id: u16) -> bool {
        !self.components.contains(sender_id) && !self.events.contains((sender_id, event_id))
    }

    /// A request changes the filters.
    pub open spec fn changed(self, request: Request) -> FilterModel {
        match request {
            Request::EnableComponent(sender_id) => FilterModel {
                components: self.components.remove(sender_id),
                ..self
            },
            Request::DisableComponent(sender_id) => FilterModel {
                components: self.components.insert(sender_id),
                ..self
            },
            Request::EnableEvent { sender_id, event_id } => FilterModel {
                events: self.events.remove((sender_id, event_id)),
                ..self
            },
            Request::DisableEvent { sender_id, event_id } => FilterModel {
                events: self.events.insert((sender_id, event_id)),
                ..self
            },
        }
    }
}

/// Number which identifies an event of a sender.
pub open spec fn event_key(sender_id: ComponentId, event_id: u16) -> u64 {
    (sender_id.spec_raw() * 0x1_0000 + event_id) as u64
}

/// Number which identifies an event of a sender.
fn key_of_event(sender_id: ComponentId, event_id: u16) -> (key: u64)
    ensures
        key == event_key(sender_id, event_id),
{
    sender_id.raw() as u64 * 0x1_0000 + event_id as u64
}

/// Event filters. Components and events are represented by numbers.
#[derive(Debug)]
pub struct EventFilter {
    disabled_components: HashSet<u32>,
    disabled_events: HashSet<u64>,
}

impl View for EventFilter {
    type V = FilterModel;

    closed spec fn view(&self) -> FilterModel {
        FilterModel {
            components: Set::new(
                |id: ComponentId| self.disabled_components@.contains(id.spec_raw()),
            ),
            events: Set::new(
                |event: (ComponentId, u16)|
                    self.disabled_events@.contains(event_key(event.0, event.1)),
            ),
        }
    }
}

impl EventFilter {
    /// Filter which disables nothing.
    pub fn new() -> (filter: Self)
        ensures
            filter@ == FilterModel::open(),
    {
        let filter = EventFilter {
            disabled_components: HashSet::new(),
            disabled_events: HashSet::new(),
        };
        assert(filter@.components =~= Set::empty());
        assert(filter@.events =~= Set::empty());
        filter
    }

    /// Silences all event TM generation for `sender_id`, regardless of the specific event.
    pub fn disable_component(&mut self, sender_id: ComponentId)
        ensures
            final(self)@ == old(self)@.changed(Request::DisableComponent(sender_id)),
    {
        self.disabled_components.insert(sender_id.raw());
        assert(self@.components =~= old(self)@.components.insert(sender_id));
    }

    /// Removes the filter for the component `sender_id`.
    pub fn enable_component(&mut self, sender_id: ComponentId)
        ensures
            final(self)@ == old(self)@.changed(Request::EnableComponent(sender_id)),
    {
        self.disabled_components.remove(&sender_id.raw());
        assert(self@.components =~= old(self)@.components.remove(sender_id));
    }

    /// Silences TM generation for one specific event of `sender_id`, leaving its other events
    /// unaffected.
    pub fn disable_event(&mut self, sender_id: ComponentId, event_id: u16)
        ensures
            final(self)@ == old(self)@.changed(Request::DisableEvent { sender_id, event_id }),
    {
        self.disabled_events.insert(key_of_event(sender_id, event_id));
        assert(self@.events =~= old(self)@.events.insert((sender_id, event_id)));
    }

    /// Removes the filter for one specific event of `sender_id`.
    pub fn enable_event(&mut self, sender_id: ComponentId, event_id: u16)
        ensures
            final(self)@ == old(self)@.changed(Request::EnableEvent { sender_id, event_id }),
    {
        self.disabled_events.remove(&key_of_event(sender_id, event_id));
        assert(self@.events =~= old(self)@.events.remove((sender_id, event_id)));
    }

    /// TM is generated for an event.
    pub fn tm_generation_enabled(&self, sender_id: ComponentId, event_id: u16) -> (enabled: bool)
        ensures
            enabled == self@.passes(sender_id, event_id),
    {
        !self.disabled_components.contains(&sender_id.raw())
            && !self.disabled_events.contains(&key_of_event(sender_id, event_id))
    }
}

/// Mathematical model of the [EventManager].
pub struct EventManagerModel<A, P> {
    /// Telecommands which were not handled yet.
    pub tcs: Seq<Telecommand<Request>>,
    /// Events which were not handled yet, in the order in which they will be.
    pub ctrl: Seq<SentEvent<A, P>>,
    pub mgm: Seq<SentEvent<A, P>>,
    pub mgm_assembly: Seq<SentEvent<A, P>>,
    pub pcdu: Seq<SentEvent<A, P>>,
    pub tc_source: Seq<SentEvent<A, P>>,
    /// Telemetry which was not collected yet.
    pub tms: Seq<EventTm<A, P>>,
    /// Event filters.
    pub filter: FilterModel,
}

impl<A: EventId + Copy, P: EventId + Copy> EventManagerModel<A, P> {
    /// Event manager without events and filters.
    pub open spec fn fresh() -> EventManagerModel<A, P> {
        EventManagerModel {
            tcs: Seq::empty(),
            ctrl: Seq::empty(),
            mgm: Seq::empty(),
            mgm_assembly: Seq::empty(),
            pcdu: Seq::empty(),
            tc_source: Seq::empty(),
            tms: Seq::empty(),
            filter: FilterModel::open(),
        }
    }

    /// Telemetry is sent.
    pub open spec fn with_tm(
        self,
        sender_id: ComponentId,
        tc_id: Option<CcsdsPacketIdAndPsc>,
        payload: Payload<A, P>,
    ) -> EventManagerModel<A, P> {
        EventManagerModel {
            tms: self.tms.push(EventTm { sender_id, tc_id, payload }),
            ..self
        }
    }

    /// A telecommand is executed and confirmed. One which could not be decoded is ignored.
    pub open spec fn tc_handled(self, tc: Telecommand<Request>) -> EventManagerModel<A, P> {
        match tc.request {
            None => self,
            Some(request) => EventManagerModel {
                filter: self.filter.changed(request),
                ..self
            }.with_tm(
                ComponentId::EventManager,
                Some(tc.spec_tc_id()),
                Payload::Response(Response::Success),
            ),
        }
    }

    /// Telecommands are executed one after the other.
    pub open spec fn after_tcs(self, tcs: Seq<Telecommand<Request>>) -> EventManagerModel<A, P>
        decreases tcs.len(),
    {
        if tcs.len() == 0 {
            self
        } else {
            self.tc_handled(tcs[0]).after_tcs(tcs.drop_first())
        }
    }

    /// All queued telecommands are executed.
    pub open spec fn tcs_handled(self) -> EventManagerModel<A, P> {
        EventManagerModel { tcs: Seq::empty(), ..self }.after_tcs(self.tcs)
    }

    /// An event is sent if it passes the filters.
    pub open spec fn event_sent(
        self,
        sender_id: ComponentId,
        event: AnyEvent<A, P>,
    ) -> EventManagerModel<A, P> {
        if self.filter.passes(sender_id, event.spec_event_id()) {
            self.with_tm(sender_id, None, Payload::Event(event))
        } else {
            self
        }
    }

    /// A queued event is sent if it passes the filters.
    pub open spec fn event_handled(self, event: SentEvent<A, P>) -> EventManagerModel<A, P> {
        self.event_sent(event.spec_sender_id(), event.spec_event())
    }

    /// Events are handled one after the other.
    pub open spec fn after_events(self, events: Seq<SentEvent<A, P>>) -> EventManagerModel<A, P>
        decreases events.len(),
    {
        if events.len() == 0 {
            self
        } else {
            self.event_handled(events[0]).after_events(events.drop_first())
        }
    }

    /// All events in the order in which they are handled.
    pub open spec fn events(self) -> Seq<SentEvent<A, P>> {
        self.ctrl + self.mgm + self.mgm_assembly + self.pcdu + self.tc_source
    }

    /// No events are left.
    pub open spec fn without_events(self) -> EventManagerModel<A, P> {
        EventManagerModel {
            ctrl: Seq::empty(),
            mgm: Seq::empty(),
            mgm_assembly: Seq::empty(),
            pcdu: Seq::empty(),
            tc_source: Seq::empty(),
            ..self
        }
    }

    /// One cycle. Telecommands come first, so filter changes already apply to the events of this
    /// cycle.
    pub open spec fn cycled(self) -> EventManagerModel<A, P> {
        self.tcs_handled().without_events().after_events(self.events())
    }

    /// Handling one queue after the other is the same as handling all events.
    proof fn lemma_events_in_parts(
        self,
        first: Seq<SentEvent<A, P>>,
        second: Seq<SentEvent<A, P>>,
    )
        ensures
            self.after_events(first + second) == self.after_events(first).after_events(second),
        decreases first.len(),
    {
        if first.len() == 0 {
            assert(first + second =~= second);
        } else {
            assert((first + second).drop_first() =~= first.drop_first() + second);
            self.event_handled(first[0]).lemma_events_in_parts(first.drop_first(), second);
        }
    }

    /// Telecommands do not touch the queued events.
    proof fn lemma_tcs_keep_events(self, tcs: Seq<Telecommand<Request>>)
        ensures
            self.after_tcs(tcs).events() == self.events(),
            self.after_tcs(tcs).ctrl == self.ctrl,
            self.after_tcs(tcs).mgm == self.mgm,
            self.after_tcs(tcs).mgm_assembly == self.mgm_assembly,
            self.after_tcs(tcs).pcdu == self.pcdu,
            self.after_tcs(tcs).tc_source == self.tc_source,
        decreases tcs.len(),
    {
        if tcs.len() > 0 {
            self.tc_handled(tcs[0]).lemma_tcs_keep_events(tcs.drop_first());
        }
    }
}

/// Converts events to telemetry, unless that is disabled for an event or all events of a
/// component.
///
/// Telecommands and events are queued until the next cycle, and telemetry until it is collected.
#[derive(Debug)]
pub struct EventManager<AssemblyEvent, PcduEvent> {
    tc_queue: VecDeque<Telecommand<Request>>,
    ctrl_queue: VecDeque<SentEvent<AssemblyEvent, PcduEvent>>,
    mgm_queue: VecDeque<SentEvent<AssemblyEvent, PcduEvent>>,
    mgm_assembly_queue: VecDeque<SentEvent<AssemblyEvent, PcduEvent>>,
    pcdu_queue: VecDeque<SentEvent<AssemblyEvent, PcduEvent>>,
    tc_source_queue: VecDeque<SentEvent<AssemblyEvent, PcduEvent>>,
    tm_queue: Vec<EventTm<AssemblyEvent, PcduEvent>>,
    filter: EventFilter,
}

impl<A, P> View for EventManager<A, P> {
    type V = EventManagerModel<A, P>;

    closed spec fn view(&self) -> EventManagerModel<A, P> {
        EventManagerModel {
            tcs: self.tc_queue@,
            ctrl: self.ctrl_queue@,
            mgm: self.mgm_queue@,
            mgm_assembly: self.mgm_assembly_queue@,
            pcdu: self.pcdu_queue@,
            tc_source: self.tc_source_queue@,
            tms: self.tm_queue@,
            filter: self.filter@,
        }
    }
}

impl<A: EventId + Copy, P: EventId + Copy> EventManager<A, P> {
    /// Event manager without events and filters.
    pub fn new() -> (manager: Self)
        ensures
            manager@ == EventManagerModel::<A, P>::fresh(),
    {
        EventManager {
            tc_queue: VecDeque::new(),
            ctrl_queue: VecDeque::new(),
            mgm_queue: VecDeque::new(),
            mgm_assembly_queue: VecDeque::new(),
            pcdu_queue: VecDeque::new(),
            tc_source_queue: VecDeque::new(),
            tm_queue: Vec::new(),
            filter: EventFilter::new(),
        }
    }

    /// Queues a telecommand.
    pub fn queue_telecommand(&mut self, tc: Telecommand<Request>)
        ensures
            final(self)@ == (EventManagerModel { tcs: old(self)@.tcs.push(tc), ..old(self)@ }),
    {
        self.tc_queue.push_back(tc);
    }

    /// Queues an event.
    pub fn queue_event(&mut self, event: SentEvent<A, P>)
        ensures
            final(self)@ == (match event {
                SentEvent::Control(_) => EventManagerModel {
                    ctrl: old(self)@.ctrl.push(event),
                    ..old(self)@
                },
                SentEvent::Mgm(_, _) => EventManagerModel {
                    mgm: old(self)@.mgm.push(event),
                    ..old(self)@
                },
                SentEvent::MgmAssembly(_) => EventManagerModel {
                    mgm_assembly: old(self)@.mgm_assembly.push(event),
                    ..old(self)@
                },
                SentEvent::Pcdu(_) => EventManagerModel {
                    pcdu: old(self)@.pcdu.push(event),
                    ..old(self)@
                },
                SentEvent::TcSource(_, _) => EventManagerModel {
                    tc_source: old(self)@.tc_source.push(event),
                    ..old(self)@
                },
            }),
    {
        match event {
            SentEvent::Control(_) => self.ctrl_queue.push_back(event),
            SentEvent::Mgm(_, _) => self.mgm_queue.push_back(event),
            SentEvent::MgmAssembly(_) => self.mgm_assembly_queue.push_back(event),
            SentEvent::Pcdu(_) => self.pcdu_queue.push_back(event),
            SentEvent::TcSource(_, _) => self.tc_source_queue.push_back(event),
        }
    }

    /// Collects all telemetry.
    pub fn take_telemetry(&mut self) -> (tms: Vec<EventTm<A, P>>)
        ensures
            tms@ == old(self)@.tms,
            final(self)@ == (EventManagerModel { tms: Seq::empty(), ..old(self)@ }),
    {
        let mut tms: Vec<EventTm<A, P>> = Vec::new();
        std::mem::swap(&mut tms, &mut self.tm_queue);
        tms
    }

    /// Silences all event TM generation for `sender_id`, regardless of the specific event.
    pub fn disable_component(&mut self, sender_id: ComponentId)
        ensures
            final(self)@ == (EventManagerModel {
                filter: old(self)@.filter.changed(Request::DisableComponent(sender_id)),
                ..old(self)@
            }),
    {
        self.filter.disable_component(sender_id);
    }

    /// Removes the filter for the component `sender_id`.
    pub fn enable_component(&mut self, sender_id: ComponentId)
        ensures
            final(self)@ == (EventManagerModel {
                filter: old(self)@.filter.changed(Request::EnableComponent(sender_id)),
                ..old(self)@
            }),
    {
        self.filter.enable_component(sender_id);
    }

    /// Silences TM generation for one specific event of `sender_id`, leaving its other events
    /// unaffected.
    pub fn disable_event(&mut self, sender_id: ComponentId, event_id: u16)
        ensures
            final(self)@ == (EventManagerModel {
                filter: old(self)@.filter.changed(Request::DisableEvent { sender_id, event_id }),
                ..old(self)@
            }),
    {
        self.filter.disable_event(sender_id, event_id);
    }

    /// Removes the filter for one specific event of `sender_id`.
    pub fn enable_event(&mut self, sender_id: ComponentId, event_id: u16)
        ensures
            final(self)@ == (EventManagerModel {
                filter: old(self)@.filter.changed(Request::EnableEvent { sender_id, event_id }),
                ..old(self)@
            }),
    {
        self.filter.enable_event(sender_id, event_id);
    }

    /// Handles all queued telecommands and events.
    pub fn periodic_operation(&mut self)
        ensures
            final(self)@ == old(self)@.cycled(),
    {
        // Telecommands first, so filter changes already apply to the events of this cycle.
        self.handle_telecommands();
        proof {
            (EventManagerModel { tcs: Seq::empty(), ..old(self)@ }).lemma_tcs_keep_events(
                old(self)@.tcs,
            );
        }
        let mut ctrl: VecDeque<SentEvent<A, P>> = VecDeque::new();
        let mut mgm: VecDeque<SentEvent<A, P>> = VecDeque::new();
        let mut mgm_assembly: VecDeque<SentEvent<A, P>> = VecDeque::new();
        let mut pcdu: VecDeque<SentEvent<A, P>> = VecDeque::new();
        let mut tc_source: VecDeque<SentEvent<A, P>> = VecDeque::new();
        std::mem::swap(&mut ctrl, &mut self.ctrl_queue);
        std::mem::swap(&mut mgm, &mut self.mgm_queue);
        std::mem::swap(&mut mgm_assembly, &mut self.mgm_assembly_queue);
        std::mem::swap(&mut pcdu, &mut self.pcdu_queue);
        std::mem::swap(&mut tc_source, &mut self.tc_source_queue);
        let ghost start = self@;
        proof {
            assert(start == old(self)@.tcs_handled().without_events());
            start.lemma_events_in_parts(ctrl@, mgm@);
            start.lemma_events_in_parts(ctrl@ + mgm@, mgm_assembly@);
            start.lemma_events_in_parts(ctrl@ + mgm@ + mgm_assembly@, pcdu@);
            start.lemma_events_in_parts(ctrl@ + mgm@ + mgm_assembly@ + pcdu@, tc_source@);
        }
        self.handle_events(ctrl);
        self.handle_events(mgm);
        self.handle_events(mgm_assembly);
        self.handle_events(pcdu);
        self.handle_events(tc_source);
    }

    fn handle_events(&mut self, queue: VecDeque<SentEvent<A, P>>)
        ensures
            final(self)@ == old(self)@.after_events(queue@),
    {
        let mut queue: VecDeque<SentEvent<A, P>> = queue;
        let ghost all = queue@;
        while queue.len() > 0
            invariant
                self@.after_events(queue@) == old(self)@.after_events(all),
            decreases queue@.len(),
        {
            let ghost waiting = queue@;
            if let Some(event) = queue.pop_front() {
                self.event_to_tm(event.sender_id(), event.event());
                assert(queue@ =~= waiting.drop_first());
            }
        }
    }

    fn handle_telecommands(&mut self)
        ensures
            final(self)@ == old(self)@.tcs_handled(),
    {
        let mut queue: VecDeque<Telecommand<Request>> = VecDeque::new();
        std::mem::swap(&mut queue, &mut self.tc_queue);
        while queue.len() > 0
            invariant
                self@.after_tcs(queue@) == old(self)@.tcs_handled(),
            decreases queue@.len(),
        {
            let ghost waiting = queue@;
            if let Some(tc) = queue.pop_front() {
                self.handle_telecommand(tc);
                assert(queue@ =~= waiting.drop_first());
            }
        }
    }

    fn handle_telecommand(&mut self, tc: Telecommand<Request>)
        ensures
            final(self)@ == old(self)@.tc_handled(tc),
    {
        let tc_id = tc.tc_id();
        match tc.request {
            Some(Request::EnableComponent(sender_id)) => self.enable_component(sender_id),
            Some(Request::DisableComponent(sender_id)) => self.disable_component(sender_id),
            Some(Request::EnableEvent { sender_id, event_id }) => {
                self.enable_event(sender_id, event_id);
            },
            Some(Request::DisableEvent { sender_id, event_id }) => {
                self.disable_event(sender_id, event_id);
            },
            None => {
                return;
            },
        }
        self.send_tm(
            ComponentId::EventManager,
            Some(tc_id),
            Payload::Response(Response::Success),
        );
    }

    /// Sends an event of any component if it passes the filters.
    pub fn event_to_tm(&mut self, sender_id: ComponentId, event: AnyEvent<A, P>)
        ensures
            final(self)@ == old(self)@.event_sent(sender_id, event),
    {
        if !self.filter.tm_generation_enabled(sender_id, event.event_id()) {
            return;
        }
        self.send_tm(sender_id, None, Payload::Event(event));
    }

    fn send_tm(
        &mut self,
        sender_id: ComponentId,
        tc_id: Option<CcsdsPacketIdAndPsc>,
        payload: Payload<A, P>,
    )
        ensures
            final(self)@ == old(self)@.with_tm(sender_id, tc_id, payload),
    {
        self.tm_queue.push(EventTm { sender_id, tc_id, payload });
    }
}

/// The filters for components and for events are independent: a component which is enabled again
/// keeps its individually disabled events, and a disabled component stays silent whatever is done
/// to its events.
pub proof fn law_filters_are_independent(
    filter: FilterModel,
    sender_id: ComponentId,
    event_id: u16,
    other_id: u16,
)
    ensures
        filter.events.contains((sender_id, event_id)) ==> !filter.changed(
            Request::EnableComponent(sender_id),
        ).passes(sender_id, event_id),
        filter.components.contains(sender_id) ==> !filter.changed(
            Request::EnableEvent { sender_id, event_id },
        ).passes(sender_id, other_id),
{
}

/// A disabled component is silent and a disabled event is not sent. Other components, and other
/// events of the same component, are not affected.
pub proof fn law_disabling_is_specific(
    filter: FilterModel,
    sender_id: ComponentId,
    event_id: u16,
    other_sender: ComponentId,
    other_id: u16,
)
    ensures
        !filter.changed(Request::DisableComponent(sender_id)).passes(sender_id, other_id),
        other_sender != sender_id ==> filter.changed(Request::DisableComponent(sender_id)).passes(
            other_sender,
            other_id,
        ) == filter.passes(other_sender, other_id),
        !filter.changed(Request::DisableEvent { sender_id, event_id }).passes(sender_id, event_id),
        (other_sender, other_id) != (sender_id, event_id) ==> filter.changed(
            Request::DisableEvent { sender_id, event_id },
        ).passes(other_sender, other_id) == filter.passes(other_sender, other_id),
{
}

/// Enabling undoes disabling.
pub proof fn law_enabling_undoes_disabling(
    filter: FilterModel,
    sender_id: ComponentId,
    event_id: u16,
)
    ensures
        !filter.components.contains(sender_id) ==> filter.changed(
            Request::DisableComponent(sender_id),
        ).changed(Request::EnableComponent(sender_id)) == filter,
        !filter.events.contains((sender_id, event_id)) ==> filter.changed(
            Request::DisableEvent { sender_id, event_id },
        ).changed(Request::EnableEvent { sender_id, event_id }) == filter,
{
    if !filter.components.contains(sender_id) {
        assert(filter.components.insert(sender_id).remove(sender_id) =~= filter.components);
    }
    if !filter.events.contains((sender_id, event_id)) {
        assert(filter.events.insert((sender_id, event_id)).remove((sender_id, event_id))
            =~= filter.events);
    }
}

/// By default, every event is sent.
pub proof fn law_events_are_enabled_by_default(sender_id: ComponentId, event_id: u16)
    ensures
        FilterModel::open().passes(sender_id, event_id),
{
}

/// The telemetry of events: those which pass the filters, in their order, and nothing else.
pub open spec fn passed_events<A: EventId + Copy, P: EventId + Copy>(
    filter: FilterModel,
    events: Seq<SentEvent<A, P>>,
) -> Seq<EventTm<A, P>>
    decreases events.len(),
{
    if events.len() == 0 {
        Seq::empty()
    } else {
        let last = events.last();
        let before = passed_events(filter, events.drop_last());
        if filter.passes(last.spec_sender_id(), last.spec_event().spec_event_id()) {
            before.push(
                EventTm {
                    sender_id: last.spec_sender_id(),
                    tc_id: None,
                    payload: Payload::Event(last.spec_event()),
                },
            )
        } else {
            before
        }
    }
}

/// The events of a cycle are filtered by the filters which its telecommands leave behind, and are
/// sent after the confirmations of the telecommands. They change no filters.
pub proof fn law_events_are_filtered<A: EventId + Copy, P: EventId + Copy>(
    manager: EventManagerModel<A, P>,
    events: Seq<SentEvent<A, P>>,
)
    ensures
        manager.after_events(events).filter == manager.filter,
        manager.after_events(events).tms == manager.tms + passed_events(manager.filter, events),
    decreases events.len(),
{
    if events.len() == 0 {
        assert(manager.tms + passed_events(manager.filter, events) =~= manager.tms);
    } else {
        let last = seq![events.last()];
        law_events_are_filtered(manager, events.drop_last());
        assert(events =~= events.drop_last() + last);
        manager.lemma_events_in_parts(events.drop_last(), last);
        let before = manager.after_events(events.drop_last());
        assert(last.drop_first() =~= Seq::empty());
        assert(before.event_handled(events.last()).after_events(last.drop_first())
            == before.event_handled(events.last()));
        assert(before.after_events(last) == before.event_handled(events.last()));
        assert(manager.after_events(events).tms =~= manager.tms + passed_events(
            manager.filter,
            events,
        ));
    }
}

/// Every telecommand which can be decoded is confirmed exactly once, and nothing else is sent for
/// telecommands.
pub proof fn law_requests_are_confirmed<A: EventId + Copy, P: EventId + Copy>(
    manager: EventManagerModel<A, P>,
    tc: Telecommand<Request>,
)
    ensures
        tc.request is Some ==> manager.tc_handled(tc).tms == manager.tms.push(
            (EventTm {
                sender_id: ComponentId::EventManager,
                tc_id: Some(tc.spec_tc_id()),
                payload: Payload::Response(Response::Success),
            }),
        ),
        tc.request is None ==> manager.tc_handled(tc) == manager,
{
}

/// An event which is enabled becomes exactly one telemetry message with its sender and without a
/// telecommand, behind all earlier ones. An event which is disabled, or whose sender is, has no
/// effect.
pub proof fn law_event_becomes_telemetry<A: EventId + Copy, P: EventId + Copy>(
    manager: EventManagerModel<A, P>,
    sender_id: ComponentId,
    event: AnyEvent<A, P>,
)
    ensures
        ({
            let after = manager.event_sent(sender_id, event);
            let disabled = manager.filter.components.contains(sender_id)
                || manager.filter.events.contains((sender_id, event.spec_event_id()));
            &&& disabled ==> after == manager
            &&& !disabled ==> {
                &&& after.tms.len() == manager.tms.len() + 1
                &&& after.tms.drop_last() == manager.tms
                &&& after.tms.last().sender_id == sender_id
                &&& after.tms.last().tc_id is None
                &&& after.tms.last().payload == Payload::Event(event)
                &&& (EventManagerModel { tms: manager.tms, ..after }) == manager
            }
        }),
{
    if manager.filter.passes(sender_id, event.spec_event_id()) {
        assert(manager.event_sent(sender_id, event).tms.drop_last() =~= manager.tms);
    }
}

/// Telemetry shows the event which was queued. Events of components which exist once have that
/// component as their sender, and other events the sender they were queued with.
pub proof fn law_queued_events_keep_their_sender<A: EventId + Copy, P: EventId + Copy>(
    manager: EventManagerModel<A, P>,
    sender_id: ComponentId,
    control_event: control::Event,
    mgm_event: mgm::Event,
    assembly_event: A,
    pcdu_event: P,
    tc_source_event: tmtc::Event,
)
    ensures
        manager.event_handled(SentEvent::Control(control_event)) == manager.event_sent(
            ComponentId::Controller,
            AnyEvent::Control(Event::ControllerEvent(control_event)),
        ),
        manager.event_handled(SentEvent::Mgm(sender_id, mgm_event)) == manager.event_sent(
            sender_id,
            AnyEvent::Mgm(mgm_event),
        ),
        manager.event_handled(SentEvent::MgmAssembly(assembly_event)) == manager.event_sent(
            ComponentId::AcsMgmAssembly,
            AnyEvent::MgmAssembly(assembly_event),
        ),
        manager.event_handled(SentEvent::Pcdu(pcdu_event)) == manager.event_sent(
            ComponentId::EpsPcdu,
            AnyEvent::Pcdu(pcdu_event),
        ),
        manager.event_handled(SentEvent::TcSource(sender_id, tc_source_event))
            == manager.event_sent(sender_id, AnyEvent::TcSource(tc_source_event)),
{
}

/// Each request changes one entry of one filter.
pub proof fn law_filter_requests(filter: FilterModel, sender_id: ComponentId, event_id: u16)
    ensures
        filter.changed(Request::EnableComponent(sender_id)).components == filter.components.remove(
            sender_id,
        ),
        filter.changed(Request::EnableComponent(sender_id)).events == filter.events,
        filter.changed(Request::DisableComponent(sender_id)).components
            == filter.components.insert(sender_id),
        filter.changed(Request::DisableComponent(sender_id)).events == filter.events,
        filter.changed(Request::EnableEvent { sender_id, event_id }).events == filter.events.remove(
            (sender_id, event_id),
        ),
        filter.changed(Request::EnableEvent { sender_id, event_id }).components
            == filter.components,
        filter.changed(Request::DisableEvent { sender_id, event_id }).events
            == filter.events.insert((sender_id, event_id)),
        filter.changed(Request::DisableEvent { sender_id, event_id }).components
            == filter.components,
        filter.passes(sender_id, event_id) == (!filter.components.contains(sender_id)
            && !filter.events.contains((sender_id, event_id))),
{
}

/// A telecommand is answered by the event manager with the identification of the telecommand, and
/// only changes the filters otherwise.
pub proof fn law_request_is_answered<A: EventId + Copy, P: EventId + Copy>(
    manager: EventManagerModel<A, P>,
    tc: Telecommand<Request>,
    request: Request,
)
    requires
        tc.request == Some(request),
    ensures
        ({
            let after = manager.tc_handled(tc);
            let tm = after.tms.last();
            &&& after.tms.len() == manager.tms.len() + 1
            &&& after.tms.drop_last() == manager.tms
            &&& tm.sender_id == ComponentId::EventManager
            &&& tm.tc_id == Some(
                CcsdsPacketIdAndPsc {
                    packet_id: tc.sp_header.packet_id,
                    psc: tc.sp_header.psc,
                },
            )
            &&& tm.payload == Payload::<A, P>::Response(Response::Success)
            &&& after.filter == manager.filter.changed(request)
            &&& (EventManagerModel { tms: manager.tms, filter: manager.filter, ..after }) == manager
        }),
{
    assert(manager.tc_handled(tc).tms.drop_last() =~= manager.tms);
}

/// Telecommands are executed in their order, the first one first, and none stays in the queue.
pub proof fn law_requests_are_executed_in_order<A: EventId + Copy, P: EventId + Copy>(
    manager: EventManagerModel<A, P>,
    tc: Telecommand<Request>,
    tcs: Seq<Telecommand<Request>>,
)
    ensures
        manager.after_tcs(seq![tc] + tcs) == manager.tc_handled(tc).after_tcs(tcs),
        manager.after_tcs(Seq::empty()) == manager,
        manager.tcs_handled().tcs.len() == 0,
{
    assert((seq![tc] + tcs).drop_first() =~= tcs);
    lemma_no_requests_queued(EventManagerModel { tcs: Seq::empty(), ..manager }, manager.tcs);
}

/// Executing telecommands queues none.
proof fn lemma_no_requests_queued<A: EventId + Copy, P: EventId + Copy>(
    manager: EventManagerModel<A, P>,
    tcs: Seq<Telecommand<Request>>,
)
    ensures
        manager.after_tcs(tcs).tcs == manager.tcs,
    decreases tcs.len(),
{
    if tcs.len() > 0 {
        lemma_no_requests_queued(manager.tc_handled(tcs[0]), tcs.drop_first());
    }
}

/// A cycle empties all queues. Its telemetry are the confirmations of the telecommands, and then
/// the events which the filters still let pass: those of the controller, the magnetometers, their
/// assembly, the PCDU and the telecommand sources, in this order.
pub proof fn law_cycle_order<A: EventId + Copy, P: EventId + Copy>(
    manager: EventManagerModel<A, P>,
)
    ensures
        ({
            let confirmed = manager.tcs_handled();
            let after = manager.cycled();
            &&& after.filter == confirmed.filter
            &&& after.tms == confirmed.tms + passed_events(
                confirmed.filter,
                manager.ctrl + manager.mgm + manager.mgm_assembly + manager.pcdu
                    + manager.tc_source,
            )
            &&& after.tcs.len() == 0
            &&& after.ctrl.len() == 0
            &&& after.mgm.len() == 0
            &&& after.mgm_assembly.len() == 0
            &&& after.pcdu.len() == 0
            &&& after.tc_source.len() == 0
        }),
{
    let start = manager.tcs_handled().without_events();
    law_events_are_filtered(start, manager.events());
    lemma_no_events_queued(start, manager.events());
    lemma_no_requests_queued(EventManagerModel { tcs: Seq::empty(), ..manager }, manager.tcs);
}

/// Handling events queues none, and no telecommands either.
proof fn lemma_no_events_queued<A: EventId + Copy, P: EventId + Copy>(
    manager: EventManagerModel<A, P>,
    events: Seq<SentEvent<A, P>>,
)
    ensures
        manager.after_events(events).tcs == manager.tcs,
        manager.after_events(events).ctrl == manager.ctrl,
        manager.after_events(events).mgm == manager.mgm,
        manager.after_events(events).mgm_assembly == manager.mgm_assembly,
        manager.after_events(events).pcdu == manager.pcdu,
        manager.after_events(events).tc_source == manager.tc_source,
    decreases events.len(),
{
    if events.len() > 0 {
        lemma_no_events_queued(manager.event_handled(events[0]), events.drop_first());
    }
}

/// An event keeps its ID and its message type, whichever component it comes from.
pub proof fn law_wrapped_events_keep_their_id<
    A: EventId + Copy + Message,
    P: EventId + Copy + Message,
>(
    control_event: control::Event,
    mgm_event: mgm::Event,
    mgt_event: mgt::Event,
    assembly_event: A,
    pcdu_event: P,
    tc_source_event: tmtc::Event,
)
    ensures
        AnyEvent::<A, P>::Control(Event::ControllerEvent(control_event)).spec_event_id()
            == control_event.spec_event_id(),
        AnyEvent::<A, P>::Mgm(mgm_event).spec_event_id() == mgm_event.spec_event_id(),
        AnyEvent::<A, P>::Mgt(mgt_event).spec_event_id() == mgt_event.spec_event_id(),
        AnyEvent::<A, P>::MgmAssembly(assembly_event).spec_event_id()
            == assembly_event.spec_event_id(),
        AnyEvent::<A, P>::Pcdu(pcdu_event).spec_event_id() == pcdu_event.spec_event_id(),
        AnyEvent::<A, P>::TcSource(tc_source_event).spec_event_id()
            == tc_source_event.spec_event_id(),
        AnyEvent::<A, P>::Mgm(mgm_event).spec_message_type() == MessageType::Event,
        AnyEvent::<A, P>::Mgt(mgt_event).spec_message_type() == MessageType::Event,
        AnyEvent::<A, P>::TcSource(tc_source_event).spec_message_type() == MessageType::Event,
        AnyEvent::<A, P>::Control(Event::ControllerEvent(control_event)).spec_message_type()
            == MessageType::Event,
        AnyEvent::<A, P>::MgmAssembly(assembly_event).spec_message_type()
            == assembly_event.spec_message_type(),
        AnyEvent::<A, P>::Pcdu(pcdu_event).spec_message_type() == pcdu_event.spec_message_type(),
        Payload::<A, P>::Response(Response::Success).spec_message_type()
            == MessageType::Verification,
        Payload::<A, P>::Event(AnyEvent::Mgm(mgm_event)).spec_message_type() == MessageType::Event,
{
}

/// A new event manager has nothing to do and sends every event.
pub proof fn law_new_event_manager<A: EventId + Copy, P: EventId + Copy>()
    ensures
        ({
            let manager = EventManagerModel::<A, P>::fresh();
            &&& manager.tcs.len() == 0
            &&& manager.ctrl.len() == 0
            &&& manager.mgm.len() == 0
            &&& manager.mgm_assembly.len() == 0
            &&& manager.pcdu.len() == 0
            &&& manager.tc_source.len() == 0
            &&& manager.tms.len() == 0
            &&& manager.filter.components == Set::<ComponentId>::empty()
            &&& manager.filter.events == Set::<(ComponentId, u16)>::empty()
        }),
{
}

} // verus!
