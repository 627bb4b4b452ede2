//! Telecommand source which checks raw packets and routes them to their targets.

use std::collections::{HashSet, VecDeque};
use vstd::prelude::*;
use vstd::slice::slice_subrange;

use crate::handling::HandlingStatus;
use crate::health::RawComponentId;
use crate::types::ccsds::{
    crc16_ccitt_false, header_of, is_complete, number_value, packet_of, read_ccsds_packet,
    take_two_numbers, two_numbers, CcsdsTcPacketOwned, SpacePacketHeader, TcPacketModel,
};
use crate::types::tmtc::Event;
use crate::types::{component_with_raw, ComponentId, MessageType, TcHeader};

verus! {

broadcast use vstd::std_specs::hash::group_hash_axioms;

/// Received packet with the raw ID of the component which received it.
#[derive(Debug, Clone)]
pub struct PacketAsVec {
    pub sender_id: RawComponentId,
    pub packet: Vec<u8>,
}

impl View for PacketAsVec {
    type V = (RawComponentId, Seq<u8>);

    open spec fn view(&self) -> (RawComponentId, Seq<u8>) {
        (self.sender_id, self.packet@)
    }
}

/// Contents of a number of packets.
pub open spec fn packet_views(packets: Seq<PacketAsVec>) -> Seq<(RawComponentId, Seq<u8>)> {
    packets.map_values(|packet: PacketAsVec| packet@)
}

/// Contents of a number of routed packets.
pub open spec fn routed_views(packets: Seq<CcsdsTcPacketOwned>) -> Seq<TcPacketModel> {
    packets.map_values(|packet: CcsdsTcPacketOwned| packet@)
}

/// Components which handle telecommands.
#[derive(Debug)]
pub struct CcsdsDistributor {
    targets: HashSet<RawComponentId>,
}

impl View for CcsdsDistributor {
    type V = Set<ComponentId>;

    closed spec fn view(&self) -> Set<ComponentId> {
        Set::new(|id: ComponentId| self.targets@.contains(id.spec_raw()))
    }
}

impl CcsdsDistributor {
    /// Distributor without targets.
    pub fn new() -> (distributor: Self)
        ensures
            distributor@ == Set::<ComponentId>::empty(),
    {
        let distributor = CcsdsDistributor { targets: HashSet::new() };
        assert(distributor@ =~= Set::empty());
        distributor
    }

    /// Registers a target.
    pub fn insert(&mut self, target_id: ComponentId)
        ensures
            final(self)@ == old(self)@.insert(target_id),
    {
        self.targets.insert(target_id.raw());
        assert(self@ =~= old(self)@.insert(target_id));
    }

    /// The target is registered.
    pub fn contains(&self, target_id: ComponentId) -> (registered: bool)
        ensures
            registered == self@.contains(target_id),
    {
        self.targets.contains(&target_id.raw())
    }
}

/// What happens to a packet: it is routed to the target in its header, or an event tells what is
/// wrong with it.
pub enum TcOutcome {
    Routed(TcPacketModel),
    Rejected(Event),
}

/// Outcome for a packet with the given numbers at the start of its user data.
pub open spec fn numbers_outcome(
    sp_header: SpacePacketHeader,
    numbers: Option<(u32, u32, Seq<u8>)>,
    targets: Set<ComponentId>,
) -> TcOutcome {
    match numbers {
        None => TcOutcome::Rejected(Event::InvalidTcHeader),
        Some((target_id, request_type, payload)) => match TcHeader::with_raw(
            target_id,
            request_type,
        ) {
            None => TcOutcome::Rejected(Event::InvalidTcHeader),
            Some(tc_header) => if targets.contains(tc_header.target_id) {
                TcOutcome::Routed(TcPacketModel { sp_header, tc_header, payload })
            } else {
                TcOutcome::Rejected(Event::UnknownTargetId(tc_header.target_id))
            },
        },
    }
}

/// Outcome for a packet with the given packet data field. A packet which does not have room for
/// its checksum is invalid.
pub open spec fn data_outcome(
    sp_header: SpacePacketHeader,
    data: Seq<u8>,
    targets: Set<ComponentId>,
) -> TcOutcome {
    if data.len() < 2 {
        TcOutcome::Rejected(Event::InvalidTcPacket)
    } else {
        numbers_outcome(sp_header, two_numbers(data.take(data.len() - 2)), targets)
    }
}

/// Outcome for a raw packet.
pub open spec fn packet_outcome(raw: Seq<u8>, targets: Set<ComponentId>) -> TcOutcome {
    if is_complete(raw) && crc16_ccitt_false(packet_of(raw)) == 0 {
        data_outcome(header_of(raw), packet_of(raw).skip(6), targets)
    } else {
        TcOutcome::Rejected(Event::InvalidTcPacket)
    }
}

/// Sender of an event about a packet. The raw ID tagged on a packet is not necessarily a known
/// component, in which case ground is the sender.
pub open spec fn event_sender(sender_id: RawComponentId) -> ComponentId {
    match component_with_raw(sender_id) {
        Some(id) => id,
        None => ComponentId::Ground,
    }
}

/// Mathematical model of the [TcSourceTask].
pub struct TcSourceModel {
    /// Packets which were not handled yet.
    pub packets: Seq<(RawComponentId, Seq<u8>)>,
    /// Components which handle telecommands.
    pub targets: Set<ComponentId>,
    /// Routed packets which were not collected yet.
    pub routed: Seq<TcPacketModel>,
    /// Events which were not collected yet.
    pub events: Seq<(ComponentId, Event)>,
}

impl TcSourceModel {
    /// A packet had the given outcome.
    pub open spec fn with_outcome(
        self,
        sender_id: RawComponentId,
        outcome: TcOutcome,
    ) -> TcSourceModel {
        match outcome {
            TcOutcome::Routed(packet) => TcSourceModel {
                routed: self.routed.push(packet),
                ..self
            },
            TcOutcome::Rejected(event) => TcSourceModel {
                events: self.events.push((event_sender(sender_id), event)),
                ..self
            },
        }
    }

    /// The next packet is handled.
    pub open spec fn polled(self) -> TcSourceModel {
        if self.packets.len() == 0 {
            self
        } else {
            TcSourceModel { packets: self.packets.drop_first(), ..self }.with_outcome(
                self.packets[0].0,
                packet_outcome(self.packets[0].1, self.targets),
            )
        }
    }

    /// All packets are handled.
    pub open spec fn cycled(self) -> TcSourceModel
        decreases self.packets.len(),
    {
        if self.packets.len() == 0 {
            self
        } else {
            self.polled().cycled()
        }
    }
}

/// TC source component where the heap is the backing memory of the received telecommands.
///
/// Packets are queued until they are handled. Routed packets and events are queued until they are
/// collected; the target of a routed packet is part of its header.
#[derive(Debug)]
pub struct TcSourceTask {
    tc_queue: VecDeque<PacketAsVec>,
    ccsds_distributor: CcsdsDistributor,
    routed: Vec<CcsdsTcPacketOwned>,
    event_queue: Vec<(ComponentId, Event)>,
}

impl View for TcSourceTask {
    type V = TcSourceModel;

    closed spec fn view(&self) -> TcSourceModel {
        TcSourceModel {
            packets: packet_views(self.tc_queue@),
            targets: self.ccsds_distributor@,
            routed: routed_views(self.routed@),
            events: self.event_queue@,
        }
    }
}

impl TcSourceTask {
    /// TC source with empty queues.
    pub fn new(ccsds_distributor: CcsdsDistributor) -> (source: Self)
        ensures
            source@ == (TcSourceModel {
                packets: Seq::empty(),
                targets: ccsds_distributor@,
                routed: Seq::empty(),
                events: Seq::empty(),
            }),
    {
        let source = TcSourceTask {
            tc_queue: VecDeque::new(),
            ccsds_distributor,
            routed: Vec::new(),
            event_queue: Vec::new(),
        };
        assert(source@.packets =~= Seq::empty());
        assert(source@.routed =~= Seq::empty());
        source
    }

    /// Registers a component which handles telecommands.
    pub fn add_target(&mut self, target_id: ComponentId)
        ensures
            final(self)@ == (TcSourceModel {
                targets: old(self)@.targets.insert(target_id),
                ..old(self)@
            }),
    {
        self.ccsds_distributor.insert(target_id);
    }

    /// Queues a received packet.
    pub fn queue_packet(&mut self, packet: PacketAsVec)
        ensures
            final(self)@ == (TcSourceModel {
                packets: old(self)@.packets.push(packet@),
                ..old(self)@
            }),
    {
        self.tc_queue.push_back(packet);
        assert(self@.packets =~= old(self)@.packets.push(packet@));
    }

    /// Collects all routed packets.
    pub fn take_routed(&mut self) -> (routed: Vec<CcsdsTcPacketOwned>)
        ensures
            routed_views(routed@) == old(self)@.routed,
            final(self)@ == (TcSourceModel { routed: Seq::empty(), ..old(self)@ }),
    {
        let mut routed: Vec<CcsdsTcPacketOwned> = Vec::new();
        std::mem::swap(&mut routed, &mut self.routed);
        assert(self@.routed =~= Seq::empty());
        routed
    }

    /// Collects all events.
    pub fn take_events(&mut self) -> (events: Vec<(ComponentId, Event)>)
        ensures
            events@ == old(self)@.events,
            final(self)@ == (TcSourceModel { events: Seq::empty(), ..old(self)@ }),
    {
        let mut events: Vec<(ComponentId, Event)> = Vec::new();
        std::mem::swap(&mut events, &mut self.event_queue);
        events
    }

    /// Handles all queued packets.
    pub fn periodic_operation(&mut self)
        ensures
            final(self)@ == old(self)@.cycled(),
    {
        loop
            invariant
                self@.cycled() == old(self)@.cycled(),
            ensures
                self@ == old(self)@.cycled(),
            decreases self@.packets.len(),
        {
            if self.poll_tc() == HandlingStatus::Empty {
                break ;
            }
        }
    }

    /// Handles the next packet, if there is one.
    pub fn poll_tc(&mut self) -> (status: HandlingStatus)
        ensures
            final(self)@ == old(self)@.polled(),
            status == (if old(self)@.packets.len() == 0 {
                HandlingStatus::Empty
            } else {
                HandlingStatus::HandledOne
            }),
    {
        let packet = match self.tc_queue.pop_front() {
            Some(packet) => packet,
            None => {
                return HandlingStatus::Empty;
            },
        };
        assert(self@.packets =~= old(self)@.packets.drop_first());
        match read_ccsds_packet(packet.packet.as_slice()) {
            Ok((sp_header, data)) => self.handle_packet_data(packet.sender_id, sp_header, data),
            Err(_) => self.send_event(packet.sender_id, Event::InvalidTcPacket),
        }
        HandlingStatus::HandledOne
    }

    /// Handles a packet with the given packet data field, which ends with the checksum.
    pub fn handle_packet_data(
        &mut self,
        sender_id: RawComponentId,
        sp_header: SpacePacketHeader,
        data: &[u8],
    )
        ensures
            final(self)@ == old(self)@.with_outcome(
                sender_id,
                data_outcome(sp_header, data@, old(self)@.targets),
            ),
    {
        if data.len() < 2 {
            self.send_event(sender_id, Event::InvalidTcPacket);
            return;
        }
        let user_data = slice_subrange(data, 0, data.len() - 2);
        assert(user_data@ =~= data@.take(data@.len() - 2));
        match take_two_numbers(user_data) {
            Ok((target_id, request_type, payload)) => self.route(
                sender_id,
                sp_header,
                target_id,
                request_type,
                payload,
            ),
            Err(_) => self.send_event(sender_id, Event::InvalidTcHeader),
        }
    }

    /// Handles a packet with the given header fields.
    pub fn route(
        &mut self,
        sender_id: RawComponentId,
        sp_header: SpacePacketHeader,
        target_id: u32,
        request_type: u32,
        payload: &[u8],
    )
        ensures
            final(self)@ == old(self)@.with_outcome(
                sender_id,
                numbers_outcome(
                    sp_header,
                    Some((target_id, request_type, payload@)),
                    old(self)@.targets,
                ),
            ),
    {
        let tc_header = match TcHeader::from_raw(target_id, request_type) {
            Some(tc_header) => tc_header,
            None => {
                self.send_event(sender_id, Event::InvalidTcHeader);
                return;
            },
        };
        if self.ccsds_distributor.contains(tc_header.target_id) {
            let packet = CcsdsTcPacketOwned {
                sp_header,
                tc_header,
                payload: copy_bytes(payload),
            };
            self.routed.push(packet);
            assert(self@.routed =~= old(self)@.routed.push(packet@));
        } else {
            self.send_event(sender_id, Event::UnknownTargetId(tc_header.target_id));
        }
    }

    /// `sender_id` is the raw ID tagged on the received packet, which is not necessarily a
    /// known [ComponentId] (e.g. a spoofed or garbled packet). Falls back to [ComponentId::Ground]
    /// as the event sender in that case.
    fn send_event(&mut self, sender_id: RawComponentId, event: Event)
        ensures
            final(self)@ == old(self)@.with_outcome(sender_id, TcOutcome::Rejected(event)),
    {
        let sender_id = match ComponentId::try_from_raw(sender_id) {
            Some(sender_id) => sender_id,
            None => ComponentId::Ground,
        };
        self.event_queue.push((sender_id, event));
    }
}

/// Copies bytes into a vector.
fn copy_bytes(bytes: &[u8]) -> (copy: Vec<u8>)
    ensures
        copy@ == bytes@,
{
    let mut copy: Vec<u8> = Vec::new();
    let mut copied: usize = 0;
    while copied < bytes.len()
        invariant
            copied <= bytes@.len(),
            copy@ == bytes@.take(copied as int),
        decreases bytes.len() - copied,
    {
        copy.push(bytes[copied]);
        copied = copied + 1;
        assert(copy@ =~= bytes@.take(copied as int));
    }
    assert(bytes@.take(copied as int) =~= bytes@);
    copy
}

/// A telecommand to a registered component reaches that component with its payload: an intact
/// packet whose user data is the encoded header, followed by the payload, is routed, without an
/// event.
pub proof fn law_valid_telecommand_is_routed(
    raw: Seq<u8>,
    target_id: ComponentId,
    request_type: MessageType,
    payload: Seq<u8>,
    checksum: Seq<u8>,
    targets: Set<ComponentId>,
)
    requires
        is_complete(raw),
        crc16_ccitt_false(packet_of(raw)) == 0,
        checksum.len() == 2,
        packet_of(raw).skip(6) == seq![
            target_id.spec_raw() as u8,
            request_type.spec_raw() as u8,
        ] + payload + checksum,
    ensures
        packet_outcome(raw, targets) == (if targets.contains(target_id) {
            TcOutcome::Routed(
                TcPacketModel {
                    sp_header: header_of(raw),
                    tc_header: TcHeader { target_id, request_type },
                    payload,
                },
            )
        } else {
            TcOutcome::Rejected(Event::UnknownTargetId(target_id))
        }),
{
    let header = seq![target_id.spec_raw() as u8, request_type.spec_raw() as u8];
    let data = header + payload + checksum;
    let user_data = data.take(data.len() - 2);
    assert(user_data =~= header + payload);
    assert(user_data.skip(1).skip(1) =~= payload);
    reveal_with_fuel(number_value, 2);
    crate::types::law_component_id_roundtrip(target_id, target_id);
    crate::types::law_message_type_roundtrip(request_type, request_type);
}

/// Every packet has exactly one effect: it is routed, or it is an event. The outcome of one packet
/// does not depend on the other ones.
pub proof fn law_every_packet_has_one_effect(source: TcSourceModel)
    ensures
        source.cycled().packets.len() == 0,
        source.cycled().targets == source.targets,
        source.cycled().routed.len() + source.cycled().events.len() == source.routed.len()
            + source.events.len() + source.packets.len(),
    decreases source.packets.len(),
{
    if source.packets.len() > 0 {
        law_every_packet_has_one_effect(source.polled());
    }
}

/// Routed packets are only for registered components.
pub proof fn law_only_registered_targets(raw: Seq<u8>, targets: Set<ComponentId>)
    ensures
        packet_outcome(raw, targets) matches TcOutcome::Routed(packet) ==> targets.contains(
            packet.tc_header.target_id,
        ),
{
}

/// Whether a space packet header has the fields in the first six bytes of a raw packet: three bits
/// of the version and thirteen bits of the packet ID, then the sequence control and the length, all
/// with the most significant byte first.
pub open spec fn has_header_bytes(header: SpacePacketHeader, raw: Seq<u8>) -> bool {
    &&& header.version * 0x2000 + header.packet_id == raw[0] * 0x100 + raw[1]
    &&& header.packet_id < 0x2000
    &&& header.psc == raw[2] * 0x100 + raw[3]
    &&& header.data_len == raw[4] * 0x100 + raw[5]
}

/// A packet which is routed comes last in the queue of routed packets, with the header of the raw
/// packet. The packets before it stay as they are, and there is no event. The next packet leaves
/// the queue of received packets, and the targets stay the same.
pub proof fn law_routed_packet_keeps_its_header(
    source: TcSourceModel,
    sender_id: RawComponentId,
    raw: Seq<u8>,
)
    requires
        source.packets.len() > 0,
        source.packets[0] == (sender_id, raw),
    ensures
        ({
            let after = source.polled();
            let routed = after.routed.len() > source.routed.len();
            &&& routed ==> {
                &&& after.routed.len() == source.routed.len() + 1
                &&& after.routed.drop_last() == source.routed
                &&& has_header_bytes(after.routed.last().sp_header, raw)
                &&& source.targets.contains(after.routed.last().tc_header.target_id)
                &&& after.events == source.events
            }
            &&& !routed ==> {
                &&& after.routed == source.routed
                &&& after.events.len() == source.events.len() + 1
                &&& after.events.drop_last() == source.events
            }
            &&& after.packets == source.packets.skip(1)
            &&& after.targets == source.targets
        }),
{
    let after = source.polled();
    assert(source.packets.drop_first() =~= source.packets.skip(1));
    if after.routed.len() > source.routed.len() {
        assert(after.routed.drop_last() =~= source.routed);
        assert(raw[0] / 0x20 * 0x2000 + raw[0] % 0x20 * 0x100 == raw[0] * 0x100);
    } else {
        assert(after.events.drop_last() =~= source.events);
    }
}

/// An intact packet which names a component, a message type and a payload is routed with all of
/// them and its header if the component is registered. Otherwise, the event names the component.
pub proof fn law_intact_packet_is_routed(
    source: TcSourceModel,
    sender: ComponentId,
    raw: Seq<u8>,
    target_id: ComponentId,
    request_type: MessageType,
    payload: Seq<u8>,
)
    requires
        source.packets.len() > 0,
        source.packets[0] == (sender.spec_raw(), raw),
        raw.len() >= 6,
        raw.len() >= raw[4] * 0x100 + raw[5] + 7,
        raw[4] * 0x100 + raw[5] + 7 >= 10,
        crc16_ccitt_false(raw.take(raw[4] * 0x100 + raw[5] + 7)) == 0,
        raw.subrange(6, raw[4] * 0x100 + raw[5] + 5) == seq![
            target_id.spec_raw() as u8,
            request_type.spec_raw() as u8,
        ] + payload,
    ensures
        ({
            let after = source.polled();
            let packet = after.routed.last();
            &&& source.targets.contains(target_id) ==> {
                &&& after.routed.len() == source.routed.len() + 1
                &&& after.routed.drop_last() == source.routed
                &&& has_header_bytes(packet.sp_header, raw)
                &&& packet.tc_header.target_id == target_id
                &&& packet.tc_header.request_type == request_type
                &&& packet.payload == payload
                &&& after.events == source.events
            }
            &&& !source.targets.contains(target_id) ==> {
                &&& after.routed == source.routed
                &&& after.events == source.events.push((sender, Event::UnknownTargetId(target_id)))
            }
        }),
{
    let len = raw[4] * 0x100 + raw[5] + 7;
    let checksum = raw.subrange(len - 2, len);
    assert(packet_of(raw) =~= raw.take(len));
    assert(packet_of(raw).skip(6) =~= raw.subrange(6, len - 2) + checksum);
    law_valid_telecommand_is_routed(
        raw,
        target_id,
        request_type,
        payload,
        checksum,
        source.targets,
    );
    law_routed_packet_keeps_its_header(source, sender.spec_raw(), raw);
    crate::types::law_component_id_roundtrip(sender, sender);
}

/// A packet which is too short or whose checksum is wrong is rejected as an invalid packet. One
/// whose first two numbers are missing or not in use is rejected as one with an invalid header. The
/// event has the sender of the packet, or ground if there is no such component.
pub proof fn law_invalid_packets_are_rejected(
    source: TcSourceModel,
    sender_id: RawComponentId,
    raw: Seq<u8>,
)
    requires
        source.packets.len() > 0,
        source.packets[0] == (sender_id, raw),
    ensures
        ({
            let after = source.polled();
            let len = raw[4] * 0x100 + raw[5] + 7;
            let intact = raw.len() >= 6 && raw.len() >= len && crc16_ccitt_false(raw.take(len)) == 0
                && len >= 8;
            let numbers = two_numbers(raw.subrange(6, len - 2));
            let unused = match numbers {
                Some((target_id, request_type, _)) => target_id > 12 || request_type > 6,
                None => false,
            };
            let rejected_with = |event: Event|
                {
                    &&& after.routed == source.routed
                    &&& after.events.len() == source.events.len() + 1
                    &&& after.events.drop_last() == source.events
                    &&& after.events.last().1 == event
                    &&& forall|id: ComponentId| #[trigger]
                        id.spec_raw() == sender_id ==> after.events.last().0 == id
                    &&& (forall|id: ComponentId| #[trigger] id.spec_raw() != sender_id)
                        ==> after.events.last().0 == ComponentId::Ground
                };
            &&& !intact ==> rejected_with(Event::InvalidTcPacket)
            &&& intact && numbers is None ==> rejected_with(Event::InvalidTcHeader)
            &&& intact && unused ==> rejected_with(Event::InvalidTcHeader)
        }),
{
    let after = source.polled();
    let len = raw[4] * 0x100 + raw[5] + 7;
    if raw.len() >= 6 && raw.len() >= len {
        assert(packet_of(raw) =~= raw.take(len));
        let data = packet_of(raw).skip(6);
        if data.len() >= 2 {
            assert(data.take(data.len() - 2) =~= raw.subrange(6, len - 2));
        }
    }
    if after.events.len() > source.events.len() {
        assert(after.events.drop_last() =~= source.events);
    }
    assert forall|id: ComponentId| #[trigger] id.spec_raw() == sender_id implies event_sender(
        sender_id,
    ) == id by {
        crate::types::law_component_id_roundtrip(id, id);
    }
}

/// Packets are handled in the order in which they were received: what the first one adds to the
/// queues comes before what the other ones add.
pub proof fn law_packets_are_handled_in_order(source: TcSourceModel)
    ensures
        ({
            let first = source.polled();
            let after = source.cycled();
            &&& after.routed.len() >= first.routed.len()
            &&& after.routed.take(first.routed.len() as int) == first.routed
            &&& after.events.len() >= first.events.len()
            &&& after.events.take(first.events.len() as int) == first.events
        }),
    decreases source.packets.len(),
{
    let first = source.polled();
    let after = source.cycled();
    if source.packets.len() == 0 {
        assert(after.routed.take(first.routed.len() as int) =~= first.routed);
        assert(after.events.take(first.events.len() as int) =~= first.events);
    } else {
        law_packets_are_handled_in_order(first);
        let second = first.polled();
        assert(second.routed.take(first.routed.len() as int) =~= first.routed);
        assert(second.events.take(first.events.len() as int) =~= first.events);
        assert(after.routed.take(first.routed.len() as int) =~= after.routed.take(
            second.routed.len() as int,
        ).take(first.routed.len() as int));
        assert(after.events.take(first.events.len() as int) =~= after.events.take(
            second.events.len() as int,
        ).take(first.events.len() as int));
    }
}

/// The contents of queues and packets are what is stored in them, field by field.
pub proof fn law_contents(packets: Seq<CcsdsTcPacketOwned>, received: Seq<PacketAsVec>, i: int)
    ensures
        routed_views(packets).len() == packets.len(),
        0 <= i < packets.len() ==> {
            let packet = routed_views(packets)[i];
            &&& packet.sp_header.version == packets[i].sp_header.version
            &&& packet.sp_header.packet_id == packets[i].sp_header.packet_id
            &&& packet.sp_header.psc == packets[i].sp_header.psc
            &&& packet.sp_header.data_len == packets[i].sp_header.data_len
            &&& packet.tc_header == packets[i].tc_header
            &&& packet.payload == packets[i].payload@
        },
        packet_views(received).len() == received.len(),
        0 <= i < received.len() ==> packet_views(received)[i] == (
            received[i].sender_id,
            received[i].packet@,
        ),
{
}

} // verus!
