use satrs_obsw::handling::HandlingStatus;
use satrs_obsw::tmtc::tc_source::{CcsdsDistributor, PacketAsVec, TcSourceTask};
use satrs_obsw::types::ccsds::{CcsdsTcPacketOwned, SpacePacketHeader};
use satrs_obsw::types::tmtc::Event;
use satrs_obsw::types::{Apid, ComponentId, MessageType, TcHeader};
use spacepackets::{CcsdsPacketCreatorOwned, ChecksumType, PacketId, PacketType};

struct Testbench {
    tc_source: TcSourceTask,
}

impl Testbench {
    fn new() -> Self {
        let mut tc_source = TcSourceTask::new(CcsdsDistributor::new());
        tc_source.add_target(ComponentId::EpsPcdu);
        Self { tc_source }
    }

    fn send(&mut self, sender_id: u32, packet: Vec<u8>) {
        self.tc_source.queue_packet(PacketAsVec { sender_id, packet });
    }
}

/// A structurally valid CCSDS packet (correct length and CRC), but with arbitrary user data.
fn raw_ccsds_tc_with_user_data(user_data: &[u8]) -> Vec<u8> {
    CcsdsPacketCreatorOwned::new(
        spacepackets::SpacePacketHeader::new_from_apid(
            PacketId::from(Apid::Acs.raw_value()).apid,
        ),
        PacketType::Tc,
        user_data,
        Some(ChecksumType::WithCrc16),
    )
    .unwrap()
    .to_vec()
}

fn tc_raw_with_payload(target_id: ComponentId, payload: &[u8]) -> Vec<u8> {
    let mut user_data = postcard::to_allocvec(&(target_id.raw(), 0u32)).unwrap();
    user_data.extend_from_slice(payload);
    raw_ccsds_tc_with_user_data(&user_data)
}

fn valid_tc_raw(target_id: ComponentId) -> Vec<u8> {
    tc_raw_with_payload(target_id, &[])
}

#[test]
fn test_valid_tc_is_routed_without_event() {
    let mut tb = Testbench::new();
    tb.send(ComponentId::UdpServer.raw(), valid_tc_raw(ComponentId::EpsPcdu));
    tb.tc_source.periodic_operation();
    assert_eq!(tb.tc_source.take_routed().len(), 1, "TC was not routed");
    assert!(tb.tc_source.take_events().is_empty());
}

#[test]
fn test_invalid_ccsds_packet_sends_event() {
    let mut tb = Testbench::new();
    tb.send(ComponentId::UdpServer.raw(), vec![1, 2, 3]);
    tb.tc_source.periodic_operation();
    let (sender_id, event) = tb.tc_source.take_events()[0];
    assert_eq!(sender_id, ComponentId::UdpServer);
    assert!(matches!(event, Event::InvalidTcPacket));
}

#[test]
fn test_invalid_tc_header_sends_event() {
    let mut tb = Testbench::new();
    tb.send(
        ComponentId::UdpServer.raw(),
        // A single byte is enough to decode the `ComponentId` discriminant, but not
        // enough for the trailing `MessageType`, so `TcHeader` deserialization fails
        // while the CCSDS packet itself stays valid.
        raw_ccsds_tc_with_user_data(&[0]),
    );
    tb.tc_source.periodic_operation();
    let (sender_id, event) = tb.tc_source.take_events()[0];
    assert_eq!(sender_id, ComponentId::UdpServer);
    assert!(matches!(event, Event::InvalidTcHeader));
}

#[test]
fn test_unknown_target_id_sends_event() {
    let mut tb = Testbench::new();
    tb.send(ComponentId::UdpServer.raw(), valid_tc_raw(ComponentId::Ground));
    tb.tc_source.periodic_operation();
    let (sender_id, event) = tb.tc_source.take_events()[0];
    assert_eq!(sender_id, ComponentId::UdpServer);
    assert!(matches!(event, Event::UnknownTargetId(ComponentId::Ground)));
}

#[test]
fn routed_packet_is_complete() {
    let mut tb = Testbench::new();
    let mut raw = tc_raw_with_payload(ComponentId::EpsPcdu, &[7, 8, 9]);
    // What follows the packet is ignored.
    raw.push(0xaa);
    tb.send(0, raw);
    assert_eq!(tb.tc_source.poll_tc(), HandlingStatus::HandledOne);
    assert_eq!(
        tb.tc_source.take_routed(),
        [CcsdsTcPacketOwned {
            sp_header: SpacePacketHeader {
                version: 0,
                packet_id: 0x1003,
                psc: 0xc000,
                data_len: 6
            },
            tc_header: TcHeader::new(ComponentId::EpsPcdu, MessageType::Ping),
            payload: vec![7, 8, 9],
        }]
    );
    assert_eq!(tb.tc_source.poll_tc(), HandlingStatus::Empty);
}

#[test]
fn header_numbers_have_a_variable_length() {
    let mut tb = Testbench::new();
    // Both numbers take more bytes than they need.
    tb.send(0, raw_ccsds_tc_with_user_data(&[0x88, 0x00, 0x83, 0x80, 0x80, 0x80, 0x00, 5]));
    tb.tc_source.periodic_operation();
    let routed = tb.tc_source.take_routed();
    assert_eq!(
        routed[0].tc_header,
        TcHeader::new(ComponentId::EpsPcdu, MessageType::Action)
    );
    assert_eq!(routed[0].payload, [5]);
    // 136 is no component. The other numbers are too large or incomplete.
    tb.send(9, raw_ccsds_tc_with_user_data(&[0x88, 0x01, 0x00]));
    tb.send(9, raw_ccsds_tc_with_user_data(&[0x88, 0x80, 0x80, 0x80, 0x10, 0x00]));
    tb.send(9, raw_ccsds_tc_with_user_data(&[0x88, 0x80, 0x80, 0x80, 0x80, 0x00, 0x00]));
    tb.send(9, raw_ccsds_tc_with_user_data(&[0x08, 0x80]));
    tb.tc_source.periodic_operation();
    assert!(tb.tc_source.take_routed().is_empty());
    assert_eq!(
        tb.tc_source.take_events(),
        [(ComponentId::UdpServer, Event::InvalidTcHeader); 4]
    );
}

#[test]
fn corrupted_and_truncated_packets_are_rejected() {
    let mut tb = Testbench::new();
    let mut corrupted = valid_tc_raw(ComponentId::EpsPcdu);
    corrupted[6] ^= 1;
    let mut truncated = valid_tc_raw(ComponentId::EpsPcdu);
    truncated.pop();
    tb.send(1, corrupted);
    tb.send(1, truncated);
    tb.send(1, Vec::new());
    tb.tc_source.periodic_operation();
    assert!(tb.tc_source.take_routed().is_empty());
    assert_eq!(
        tb.tc_source.take_events(),
        [(ComponentId::AcsSubsystem, Event::InvalidTcPacket); 3]
    );
}

#[test]
fn packet_without_room_for_its_checksum_is_rejected() {
    let mut tb = Testbench::new();
    // The packet data field is a single byte, and the CRC over the packet is zero.
    let mut intact = None;
    for psc in 0..=u16::MAX {
        let [psc_high, psc_low] = psc.to_be_bytes();
        let raw = vec![0x10, 3, psc_high, psc_low, 0, 0, 0];
        if spacepackets::crc::CRC_CCITT_FALSE.checksum(&raw) == 0 {
            intact = Some(raw);
            break;
        }
    }
    tb.send(12, intact.expect("no packet found"));
    tb.tc_source.periodic_operation();
    assert_eq!(tb.tc_source.take_events(), [(ComponentId::Ground, Event::InvalidTcPacket)]);
}

#[test]
fn unknown_senders_count_as_ground() {
    let mut tb = Testbench::new();
    tb.send(13, vec![]);
    tb.tc_source.periodic_operation();
    assert_eq!(tb.tc_source.take_events(), [(ComponentId::Ground, Event::InvalidTcPacket)]);
}

#[test]
fn headers_with_unknown_values_are_rejected() {
    let mut tb = Testbench::new();
    tb.send(9, raw_ccsds_tc_with_user_data(&[13, 0]));
    tb.send(9, raw_ccsds_tc_with_user_data(&[8, 7]));
    // A number with more than 32 bits.
    tb.send(9, raw_ccsds_tc_with_user_data(&[0xff, 0xff, 0xff, 0xff, 0x7f, 0]));
    tb.tc_source.periodic_operation();
    assert_eq!(
        tb.tc_source.take_events(),
        [(ComponentId::UdpServer, Event::InvalidTcHeader); 3]
    );
}

#[test]
fn longer_encodings_of_numbers_are_accepted() {
    let mut tb = Testbench::new();
    tb.send(9, raw_ccsds_tc_with_user_data(&[0x88, 0x00, 0x06, 0x55]));
    tb.tc_source.periodic_operation();
    let routed = tb.tc_source.take_routed();
    assert_eq!(routed[0].tc_header, TcHeader::new(ComponentId::EpsPcdu, MessageType::Health));
    assert_eq!(routed[0].payload, [0x55]);
}

#[test]
fn decoded_parts_are_routed() {
    let mut tb = Testbench::new();
    let sp_header = SpacePacketHeader { version: 0, packet_id: 1, psc: 2, data_len: 4 };
    tb.tc_source.handle_packet_data(9, sp_header, &[8, 1, 0x77, 0, 0]);
    tb.tc_source.route(9, sp_header, 8, 2, &[]);
    tb.tc_source.route(9, sp_header, 11, 2, &[]);
    let routed = tb.tc_source.take_routed();
    assert_eq!(routed[0].tc_header.request_type, MessageType::Mode);
    assert_eq!(routed[0].payload, [0x77]);
    assert_eq!(routed[1].tc_header.request_type, MessageType::Hk);
    assert_eq!(
        tb.tc_source.take_events(),
        [(ComponentId::UdpServer, Event::UnknownTargetId(ComponentId::EventManager))]
    );
}
