use core::str::FromStr;

use satrs_obsw::fdir::RecoveryEvent;
use satrs_obsw::minisim::acs::mgm::RawValues;
use satrs_obsw::time::Duration;
use satrs_obsw::types::acs::mgm::SensorData;
use satrs_obsw::types::acs::{mgm, mgt};
use satrs_obsw::types::ccsds::{CcsdsPacketIdAndPsc, CdsTime, SpacePacketHeader};
use satrs_obsw::types::control;
use satrs_obsw::types::control::Event;
use satrs_obsw::types::{
    recovery_event_id, Apid, ComponentId, DeviceMode, EventId, HeaderError, HkRequestType,
    Message, MessageType, TcHeader, TmHeader, FDIR_EVENT_ID_BASE,
};

#[test]
fn test_event_id() {
    assert_eq!(Event::TestEvent.event_id(), 0);
}

#[test]
fn recovery_events_have_common_ids() {
    assert_eq!(FDIR_EVENT_ID_BASE, 0x100);
    assert_eq!(recovery_event_id(RecoveryEvent::Started), 0x100);
    assert_eq!(recovery_event_id(RecoveryEvent::Done), 0x101);
    assert_eq!(recovery_event_id(RecoveryEvent::Failed), 0x102);
    assert_eq!(recovery_event_id(RecoveryEvent::ThresholdExceeded), 0x103);
    assert_eq!(mgm::Event::Recovery(RecoveryEvent::Failed).event_id(), 0x102);
    assert_eq!(mgt::Event::Recovery(RecoveryEvent::Failed).event_id(), 0x102);
    assert_eq!(mgt::Event::ModeChanged(DeviceMode::On).event_id(), 1);
}

#[test]
fn component_ids_are_numbered() {
    assert_eq!(ComponentId::Controller.raw(), 0);
    assert_eq!(ComponentId::Ground.raw(), 12);
    for raw in 0..13 {
        assert_eq!(ComponentId::try_from_raw(raw).map(|id| id.raw()), Some(raw));
    }
    assert_eq!(ComponentId::try_from_raw(13), None);
    assert_eq!(DeviceMode::try_from_raw(2), Some(DeviceMode::Normal));
    assert_eq!(DeviceMode::try_from_raw(3), None);
    assert_eq!(DeviceMode::Normal.raw(), 2);
}

#[test]
fn apids_have_gaps() {
    assert_eq!(Apid::Eps.raw_value(), 6);
    assert_eq!(Apid::new_with_raw_value(3), Ok(Apid::Acs));
    assert_eq!(Apid::new_with_raw_value(4), Err(4));
}

#[test]
fn device_modes_are_parsed_in_any_case() {
    assert_eq!(DeviceMode::from_str("off"), Ok(DeviceMode::Off));
    assert_eq!(DeviceMode::from_str("ON"), Ok(DeviceMode::On));
    assert_eq!(DeviceMode::from_str("NorMal"), Ok(DeviceMode::Normal));
    assert_eq!(DeviceMode::from_str("offline"), Err(()));
    assert_eq!(DeviceMode::parse(""), None);
    assert_eq!(DeviceMode::from_lowercase(&String::from("ON")), None);
}

#[test]
fn message_types_fit_the_requests() {
    let torque = mgt::request::Request::ApplyTorque {
        dipole: mgt::Dipole::default(),
        duration: Duration::zero(),
    };
    assert_eq!(torque.message_type(), MessageType::Action);
    assert_eq!(
        mgt::request::Request::Hk(HkRequestType::OneShot).message_type(),
        MessageType::Hk
    );
    assert_eq!(mgt::request::Request::Ping.message_type(), MessageType::Verification);
    assert_eq!(
        mgt::response::Response::NotInNormalMode.message_type(),
        MessageType::Verification
    );
    assert_eq!(control::response::Response::Success.message_type(), MessageType::Verification);
    assert_eq!(
        control::response::Response::Event(Event::TestEvent).message_type(),
        MessageType::Event
    );
}

#[test]
fn defaults_are_invalid() {
    assert_eq!(SensorData::default(), SensorData { valid: false, raw: RawValues::splat(0) });
    assert!(!mgt::HkSet::default().valid);
}

#[test]
fn tc_ids_have_a_raw_value() {
    let header = SpacePacketHeader { version: 0, packet_id: 0x1803, psc: 0xc005, data_len: 0 };
    assert_eq!(CcsdsPacketIdAndPsc::new_from_ccsds_packet(&header).raw(), 0x1803_c005);
}

#[test]
fn tm_headers_have_a_cds_short_timestamp() {
    let time = CdsTime { ccsds_days: 0x1234, ms_of_day: 0x0102_0304 };
    let header = TmHeader::new_for_unsolicited_tm(
        ComponentId::AcsMgm0,
        ComponentId::Ground,
        MessageType::Hk,
        &time,
    );
    assert_eq!(header.timestamp, Some([0x40, 0x12, 0x34, 0x01, 0x02, 0x03, 0x04]));
    assert_eq!(header.tc_id, None);
    let tc_id = CcsdsPacketIdAndPsc { packet_id: 1, psc: 2 };
    let header = TmHeader::new_for_tc_response(
        ComponentId::AcsMgm0,
        ComponentId::Ground,
        MessageType::Hk,
        tc_id,
        &time,
    );
    assert_eq!(header.tc_id, Some(tc_id));
}

#[test]
fn tm_headers_are_decoded() {
    let sent_id = spacepackets::CcsdsPacketIdAndPsc {
        packet_id: spacepackets::PacketId::from(0x1803u16),
        psc: spacepackets::PacketSequenceControl::from(0xc005u16),
    };
    let stamp = Some([1u8, 2, 3, 4, 5, 6, 7]);
    let mut data = postcard::to_allocvec(&(4u32, 12u32, 2u32, Some(sent_id), stamp)).unwrap();
    data.extend_from_slice(&[0xaa, 0xbb]);
    let (header, rest) = TmHeader::from_bytes_postcard(&data).unwrap();
    assert_eq!(header.sender_id, ComponentId::AcsMgm0);
    assert_eq!(header.target_id, ComponentId::Ground);
    assert_eq!(header.message_type, MessageType::Hk);
    assert_eq!(header.tc_id, Some(CcsdsPacketIdAndPsc { packet_id: 0x1803, psc: 0xc005 }));
    assert_eq!(header.timestamp, stamp);
    assert_eq!(rest, [0xaa, 0xbb]);
}

#[test]
fn invalid_tm_headers_are_rejected() {
    let sent_id: Option<spacepackets::CcsdsPacketIdAndPsc> = None;
    let stamp: Option<[u8; 7]> = None;
    let encode = |sender: u32, target: u32, message_type: u32| {
        postcard::to_allocvec(&(sender, target, message_type, sent_id, stamp)).unwrap()
    };
    assert!(TmHeader::from_bytes_postcard(&encode(0, 0, 0)).is_ok());
    assert_eq!(
        TmHeader::from_bytes_postcard(&encode(13, 0, 0)),
        Err(HeaderError::UnknownComponent(13))
    );
    assert_eq!(
        TmHeader::from_bytes_postcard(&encode(0, 14, 0)),
        Err(HeaderError::UnknownComponent(14))
    );
    assert_eq!(
        TmHeader::from_bytes_postcard(&encode(0, 0, 7)),
        Err(HeaderError::UnknownMessageType(7))
    );
    assert_eq!(TmHeader::from_bytes_postcard(&[1, 2]), Err(HeaderError::Undecodable));
}

#[test]
fn tc_headers_are_found_by_their_numbers() {
    assert_eq!(
        TcHeader::from_raw(11, 4),
        Some(TcHeader::new(ComponentId::EventManager, MessageType::Event))
    );
    assert_eq!(TcHeader::from_raw(13, 4), None);
    assert_eq!(TcHeader::from_raw(11, 7), None);
}

#[test]
fn durations_are_converted() {
    assert_eq!(Duration::from_secs(2), Duration::from_millis(2000));
    assert_eq!(Duration { nanos: 1_999_999 }.as_millis(), 1);
}
