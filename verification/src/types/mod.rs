//! Types which are shared between the on-board components and the ground.

use vstd::prelude::*;

use crate::fdir::RecoveryEvent;
use crate::time::Duration;
use crate::types::ccsds::{CcsdsPacketIdAndPsc, CdsTime};

pub mod acs;
pub mod ccsds;
pub mod control;
pub mod event_manager;
pub mod pcdu;
pub mod tmtc;

verus! {

/// Identifier of an on-board component.
#[derive(Debug, Clone, Copy, PartialEq, Eq, Structural, Hash)]
pub enum ComponentId {
    Controller,
    AcsSubsystem,
    AcsMgmAssembly,
    AcsController,
    AcsMgm0,
    AcsMgm1,
    AcsMgt,
    EpsSubsystem,
    EpsPcdu,
    UdpServer,
    TcpServer,
    EventManager,
    Ground,
}

impl ComponentId {
    /// Numeric value of the identifier: the position of the variant.
    pub open spec fn spec_raw(self) -> u32 {
        match self {
            ComponentId::Controller => 0,
            ComponentId::AcsSubsystem => 1,
            ComponentId::AcsMgmAssembly => 2,
            ComponentId::AcsController => 3,
            ComponentId::AcsMgm0 => 4,
            ComponentId::AcsMgm1 => 5,
            ComponentId::AcsMgt => 6,
            ComponentId::EpsSubsystem => 7,
            ComponentId::EpsPcdu => 8,
            ComponentId::UdpServer => 9,
            ComponentId::TcpServer => 10,
            ComponentId::EventManager => 11,
            ComponentId::Ground => 12,
        }
    }

    /// Numeric value of the identifier.
    pub fn raw(&self) -> (raw: u32)
        ensures
            raw == self.spec_raw(),
    {
        match self {
            ComponentId::Controller => 0,
            ComponentId::AcsSubsystem => 1,
            ComponentId::AcsMgmAssembly => 2,
            ComponentId::AcsController => 3,
            ComponentId::AcsMgm0 => 4,
            ComponentId::AcsMgm1 => 5,
            ComponentId::AcsMgt => 6,
            ComponentId::EpsSubsystem => 7,
            ComponentId::EpsPcdu => 8,
            ComponentId::UdpServer => 9,
            ComponentId::TcpServer => 10,
            ComponentId::EventManager => 11,
            ComponentId::Ground => 12,
        }
    }

    /// Identifier with the given numeric value, if there is one.
    pub fn try_from_raw(raw: u32) -> (id: Option<ComponentId>)
        ensures
            id == component_with_raw(raw),
            id matches Some(id) ==> id.spec_raw() == raw,
            id is None ==> forall|any: ComponentId| #[trigger] any.spec_raw() != raw,
    {
        let id = Self::lookup(raw);
        proof {
            if let Some(id) = id {
                law_component_id_roundtrip(id, id);
            }
        }
        id
    }

    fn lookup(raw: u32) -> (id: Option<ComponentId>)
        ensures
            id matches Some(id) ==> id.spec_raw() == raw,
            id is None ==> forall|any: ComponentId| #[trigger] any.spec_raw() != raw,
    {
        match raw {
            0 => Some(ComponentId::Controller),
            1 => Some(ComponentId::AcsSubsystem),
            2 => Some(ComponentId::AcsMgmAssembly),
            3 => Some(ComponentId::AcsController),
            4 => Some(ComponentId::AcsMgm0),
            5 => Some(ComponentId::AcsMgm1),
            6 => Some(ComponentId::AcsMgt),
            7 => Some(ComponentId::EpsSubsystem),
            8 => Some(ComponentId::EpsPcdu),
            9 => Some(ComponentId::UdpServer),
            10 => Some(ComponentId::TcpServer),
            11 => Some(ComponentId::EventManager),
            12 => Some(ComponentId::Ground),
            _ => None,
        }
    }
}

/// Component with the numeric value `raw`, if there is one.
pub open spec fn component_with_raw(raw: u32) -> Option<ComponentId> {
    if exists|id: ComponentId| #[trigger] id.spec_raw() == raw {
        Some(choose|id: ComponentId| #[trigger] id.spec_raw() == raw)
    } else {
        None
    }
}

/// The numeric values of components are unique, so a component is found again by its value.
pub proof fn law_component_id_roundtrip(id: ComponentId, other: ComponentId)
    ensures
        component_with_raw(id.spec_raw()) == Some(id),
        id.spec_raw() == other.spec_raw() ==> id == other,
{
}

/// CCSDS application process identifiers in use.
#[derive(Debug, Clone, Copy, PartialEq, Eq, Structural)]
pub enum Apid {
    Tmtc,
    Cfdp,
    Acs,
    Eps,
}

impl Apid {
    /// Value of the 11 bit APID field.
    pub open spec fn spec_raw_value(self) -> u16 {
        match self {
            Apid::Tmtc => 1,
            Apid::Cfdp => 2,
            Apid::Acs => 3,
            Apid::Eps => 6,
        }
    }

    /// Value of the 11 bit APID field.
    pub fn raw_value(&self) -> (raw: u16)
        ensures
            raw == self.spec_raw_value(),
    {
        match self {
            Apid::Tmtc => 1,
            Apid::Cfdp => 2,
            Apid::Acs => 3,
            Apid::Eps => 6,
        }
    }

    /// APID with the given field value. Values which are not in use are handed back.
    pub fn new_with_raw_value(raw: u16) -> (apid: Result<Apid, u16>)
        ensures
            apid matches Ok(apid) ==> apid.spec_raw_value() == raw,
            apid matches Err(unused) ==> unused == raw && forall|any: Apid|
                #[trigger] any.spec_raw_value() != raw,
    {
        match raw {
            1 => Ok(Apid::Tmtc),
            2 => Ok(Apid::Cfdp),
            3 => Ok(Apid::Acs),
            6 => Ok(Apid::Eps),
            _ => Err(raw),
        }
    }
}

/// Category of a telecommand or telemetry message.
#[derive(Debug, Clone, Copy, PartialEq, Eq, Structural)]
pub enum MessageType {
    Ping,
    Mode,
    Hk,
    Action,
    Event,
    Verification,
    Health,
}

impl MessageType {
    /// Position of the variant, which identifies it on the wire.
    pub open spec fn spec_raw(self) -> u32 {
        match self {
            MessageType::Ping => 0,
            MessageType::Mode => 1,
            MessageType::Hk => 2,
            MessageType::Action => 3,
            MessageType::Event => 4,
            MessageType::Verification => 5,
            MessageType::Health => 6,
        }
    }

    /// Message type at the given position, if there is one.
    pub fn try_from_raw(raw: u32) -> (message_type: Option<MessageType>)
        ensures
            message_type == message_type_with_raw(raw),
            message_type matches Some(message_type) ==> message_type.spec_raw() == raw,
            message_type is None ==> forall|any: MessageType| #[trigger] any.spec_raw() != raw,
    {
        let message_type = Self::lookup(raw);
        proof {
            if let Some(message_type) = message_type {
                law_message_type_roundtrip(message_type, message_type);
            }
        }
        message_type
    }

    fn lookup(raw: u32) -> (message_type: Option<MessageType>)
        ensures
            message_type matches Some(message_type) ==> message_type.spec_raw() == raw,
            message_type is None ==> forall|any: MessageType| #[trigger] any.spec_raw() != raw,
    {
        match raw {
            0 => Some(MessageType::Ping),
            1 => Some(MessageType::Mode),
            2 => Some(MessageType::Hk),
            3 => Some(MessageType::Action),
            4 => Some(MessageType::Event),
            5 => Some(MessageType::Verification),
            6 => Some(MessageType::Health),
            _ => None,
        }
    }
}

/// Message type at position `raw`, if there is one.
pub open spec fn message_type_with_raw(raw: u32) -> Option<MessageType> {
    if exists|message_type: MessageType| #[trigger] message_type.spec_raw() == raw {
        Some(choose|message_type: MessageType| #[trigger] message_type.spec_raw() == raw)
    } else {
        None
    }
}

/// The positions of message types are unique, so a message type is found again by its position.
pub proof fn law_message_type_roundtrip(message_type: MessageType, other: MessageType)
    ensures
        message_type_with_raw(message_type.spec_raw()) == Some(message_type),
        message_type.spec_raw() == other.spec_raw() ==> message_type == other,
{
}

/// Message with a category.
pub trait Message {
    /// Category of the message.
    spec fn spec_message_type(&self) -> MessageType;

    /// Category of the message.
    fn message_type(&self) -> (message_type: MessageType)
        ensures
            message_type == self.spec_message_type(),
    ;
}

/// Stable, per-variant numeric identifier for an event, meant to be referenced from ground
/// (e.g. to enable/disable TM generation for one specific event) and to stay the same across
/// releases. It can be constructed from a raw number received in a telecommand.
pub trait EventId {
    /// Identifier of the event.
    spec fn spec_event_id(&self) -> u16;

    /// Identifier of the event.
    fn event_id(&self) -> (id: u16)
        ensures
            id == self.spec_event_id(),
    ;
}

/// Start of the event ID range for generic FDIR events, which are embedded into the event types
/// of the components. These events have the same ID for all components.
pub const FDIR_EVENT_ID_BASE: u16 = 0x100;

/// Event ID of a recovery event.
pub open spec fn spec_recovery_event_id(event: RecoveryEvent) -> u16 {
    match event {
        RecoveryEvent::Started => 0x100,
        RecoveryEvent::Done => 0x101,
        RecoveryEvent::Failed => 0x102,
        RecoveryEvent::ThresholdExceeded => 0x103,
    }
}

/// Event ID of a recovery event.
pub fn recovery_event_id(event: RecoveryEvent) -> (id: u16)
    ensures
        id == spec_recovery_event_id(event),
        FDIR_EVENT_ID_BASE <= id,
{
    let position: u16 = match event {
        RecoveryEvent::Started => 0,
        RecoveryEvent::Done => 1,
        RecoveryEvent::Failed => 2,
        RecoveryEvent::ThresholdExceeded => 3,
    };
    FDIR_EVENT_ID_BASE + position
}

/// Events which are not specific to a device.
#[derive(Debug, Clone, Copy, PartialEq, Eq, Structural)]
pub enum Event {
    ControllerEvent(control::Event),
}

impl Message for Event {
    open spec fn spec_message_type(&self) -> MessageType {
        MessageType::Event
    }

    fn message_type(&self) -> (message_type: MessageType) {
        MessageType::Event
    }
}

impl EventId for Event {
    open spec fn spec_event_id(&self) -> u16 {
        match self {
            Event::ControllerEvent(event) => event.spec_event_id(),
        }
    }

    fn event_id(&self) -> (id: u16) {
        match self {
            Event::ControllerEvent(event) => event.event_id(),
        }
    }
}

/// Reason why a header is invalid.
#[derive(Debug, Clone, Copy, PartialEq, Eq, Structural)]
pub enum HeaderError {
    /// The bytes are no header.
    Undecodable,
    /// There is no component with this numeric value.
    UnknownComponent(u32),
    /// There is no message type at this position.
    UnknownMessageType(u32),
}

/// Header in front of every telemetry message.
#[derive(Debug, Clone, Copy, PartialEq, Eq)]
#[non_exhaustive]
pub struct TmHeader {
    pub sender_id: ComponentId,
    pub target_id: ComponentId,
    pub message_type: MessageType,
    /// Telemetry can either be sent unsolicited, or as a response to telecommands.
    pub tc_id: Option<CcsdsPacketIdAndPsc>,
    /// Raw CDS short timestamp.
    pub timestamp: Option<[u8; 7]>,
}

impl TmHeader {
    /// Header with the given fields and timestamp.
    pub fn new(
        sender_id: ComponentId,
        target_id: ComponentId,
        message_type: MessageType,
        tc_id: Option<CcsdsPacketIdAndPsc>,
        cds_timestamp: &CdsTime,
    ) -> (header: Self)
        ensures
            header.sender_id == sender_id,
            header.target_id == target_id,
            header.message_type == message_type,
            header.tc_id == tc_id,
            header.timestamp matches Some(stamp) && stamp@ == cds_timestamp.short_stamp(),
    {
        TmHeader {
            sender_id,
            target_id,
            message_type,
            tc_id,
            timestamp: Some(ccsds::write_cds_short(*cds_timestamp)),
        }
    }

    /// Header with the given field values, which are the numeric values of the components and the
    /// position of the message type.
    pub fn from_raw(raw: RawTmHeader) -> (header: Result<Self, HeaderError>)
        ensures
            match header {
                Ok(header) => {
                    &&& component_with_raw(raw.sender_id) == Some(header.sender_id)
                    &&& component_with_raw(raw.target_id) == Some(header.target_id)
                    &&& message_type_with_raw(raw.message_type) == Some(header.message_type)
                    &&& header.tc_id == raw.tc_id
                    &&& header.timestamp == raw.timestamp
                },
                Err(error) => raw.error() == Some(error),
            },
            header is Ok <==> raw.error() is None,
    {
        let sender_id = match ComponentId::try_from_raw(raw.sender_id) {
            Some(sender_id) => sender_id,
            None => {
                return Err(HeaderError::UnknownComponent(raw.sender_id));
            },
        };
        let target_id = match ComponentId::try_from_raw(raw.target_id) {
            Some(target_id) => target_id,
            None => {
                return Err(HeaderError::UnknownComponent(raw.target_id));
            },
        };
        let message_type = match MessageType::try_from_raw(raw.message_type) {
            Some(message_type) => message_type,
            None => {
                return Err(HeaderError::UnknownMessageType(raw.message_type));
            },
        };
        Ok(
            TmHeader {
                sender_id,
                target_id,
                message_type,
                tc_id: raw.tc_id,
                timestamp: raw.timestamp,
            },
        )
    }

    /// Decodes the header at the start of `data`, and returns the remaining bytes as well.
    pub fn from_bytes_postcard(data: &[u8]) -> (header: Result<(Self, &[u8]), HeaderError>)
        ensures
            match postcard_tm_header(data@) {
                None => header == Err::<(TmHeader, &[u8]), _>(HeaderError::Undecodable),
                Some((fields, rest)) => match header {
                    Ok((header, remaining)) => {
                        &&& component_with_raw(fields.0) == Some(header.sender_id)
                        &&& component_with_raw(fields.1) == Some(header.target_id)
                        &&& message_type_with_raw(fields.2) == Some(header.message_type)
                        &&& tc_id_fields(header.tc_id) == fields.3
                        &&& timestamp_bytes(header.timestamp) == fields.4
                        &&& remaining@ == rest
                    },
                    Err(error) => header_error(fields.0, fields.1, fields.2) == Some(error),
                },
            },
            header is Ok <==> (postcard_tm_header(data@) matches Some((fields, _))
                && header_error(fields.0, fields.1, fields.2) is None),
    {
        let (raw, rest) = match postcard_take_tm_header(data) {
            Ok(decoded) => decoded,
            Err(_) => {
                return Err(HeaderError::Undecodable);
            },
        };
        match Self::from_raw(raw) {
            Ok(header) => Ok((header, rest)),
            Err(error) => Err(error),
        }
    }

    /// Header of a message which no telecommand asked for.
    pub fn new_for_unsolicited_tm(
        sender_id: ComponentId,
        target_id: ComponentId,
        message_type: MessageType,
        cds_timestamp: &CdsTime,
    ) -> (header: Self)
        ensures
            header.sender_id == sender_id,
            header.target_id == target_id,
            header.message_type == message_type,
            header.tc_id is None,
            header.timestamp matches Some(stamp) && stamp@ == cds_timestamp.short_stamp(),
    {
        Self::new(sender_id, target_id, message_type, None, cds_timestamp)
    }

    /// Header of the response to a telecommand.
    pub fn new_for_tc_response(
        sender_id: ComponentId,
        target_id: ComponentId,
        message_type: MessageType,
        tc_id: CcsdsPacketIdAndPsc,
        cds_timestamp: &CdsTime,
    ) -> (header: Self)
        ensures
            header.sender_id == sender_id,
            header.target_id == target_id,
            header.message_type == message_type,
            header.tc_id == Some(tc_id),
            header.timestamp matches Some(stamp) && stamp@ == cds_timestamp.short_stamp(),
    {
        Self::new(sender_id, target_id, message_type, Some(tc_id), cds_timestamp)
    }
}

/// Fields of a telemetry header as they are sent.
#[derive(Debug, Clone, Copy, PartialEq, Eq)]
pub struct RawTmHeader {
    pub sender_id: u32,
    pub target_id: u32,
    pub message_type: u32,
    pub tc_id: Option<CcsdsPacketIdAndPsc>,
    pub timestamp: Option<[u8; 7]>,
}

/// The first of the field values which is not in use, if there is one.
pub open spec fn header_error(sender_id: u32, target_id: u32, message_type: u32) -> Option<
    HeaderError,
> {
    if component_with_raw(sender_id) is None {
        Some(HeaderError::UnknownComponent(sender_id))
    } else if component_with_raw(target_id) is None {
        Some(HeaderError::UnknownComponent(target_id))
    } else if message_type_with_raw(message_type) is None {
        Some(HeaderError::UnknownMessageType(message_type))
    } else {
        None
    }
}

impl RawTmHeader {
    /// What is wrong with the fields, if anything.
    pub open spec fn error(self) -> Option<HeaderError> {
        header_error(self.sender_id, self.target_id, self.message_type)
    }
}

/// Packet ID and sequence control of a telecommand.
pub open spec fn tc_id_fields(tc_id: Option<CcsdsPacketIdAndPsc>) -> Option<(u16, u16)> {
    match tc_id {
        Some(tc_id) => Some((tc_id.packet_id, tc_id.psc)),
        None => None,
    }
}

/// Bytes of a timestamp.
pub open spec fn timestamp_bytes(timestamp: Option<[u8; 7]>) -> Option<Seq<u8>> {
    match timestamp {
        Some(stamp) => Some(stamp@),
        None => None,
    }
}

/// [postcard::Error], which is only told apart from success.
#[verifier::external_type_specification]
#[verifier::external_body]
pub struct ExPostcardError(postcard::Error);

/// The fields at the start of the bytes of a telemetry header and the remaining bytes, as
/// `postcard::take_from_bytes` returns them. `None` if it returns an error.
pub uninterp spec fn postcard_tm_header(data: Seq<u8>) -> Option<
    ((u32, u32, u32, Option<(u16, u16)>, Option<Seq<u8>>), Seq<u8>),
>;

/// Calls `postcard::take_from_bytes` for the fields of a telemetry header. An enumeration is sent
/// as the position of its variant, so it is read as a number here. The result only depends on the
/// bytes and goes by the name [postcard_tm_header].
#[verifier::external_body]
fn postcard_take_tm_header(data: &[u8]) -> (decoded: Result<(RawTmHeader, &[u8]), postcard::Error>)
    ensures
        match decoded {
            Ok((raw, rest)) => postcard_tm_header(data@) == Some(
                (
                    (
                        raw.sender_id,
                        raw.target_id,
                        raw.message_type,
                        tc_id_fields(raw.tc_id),
                        timestamp_bytes(raw.timestamp),
                    ),
                    rest@,
                ),
            ),
            Err(_) => postcard_tm_header(data@) is None,
        },
{
    let ((sender_id, target_id, message_type, id, timestamp), rest) = postcard::take_from_bytes::<
        (u32, u32, u32, Option<spacepackets::CcsdsPacketIdAndPsc>, Option<[u8; 7]>),
    >(data)?;
    let tc_id = id.map(
        |id| CcsdsPacketIdAndPsc { packet_id: id.packet_id.raw(), psc: id.psc.raw() },
    );
    Ok((RawTmHeader { sender_id, target_id, message_type, tc_id, timestamp }, rest))
}

/// Header in front of every telecommand message.
#[derive(Debug, Clone, Copy, PartialEq, Eq, Structural)]
#[non_exhaustive]
pub struct TcHeader {
    pub target_id: ComponentId,
    pub request_type: MessageType,
}

impl TcHeader {
    /// Header for a request to `target_id`.
    pub fn new(target_id: ComponentId, request_type: MessageType) -> (header: Self)
        ensures
            header == (TcHeader { target_id, request_type }),
    {
        TcHeader { target_id, request_type }
    }

    /// Header with the given numeric value of the component and position of the message type.
    pub open spec fn with_raw(target_id: u32, request_type: u32) -> Option<TcHeader> {
        match (component_with_raw(target_id), message_type_with_raw(request_type)) {
            (Some(target_id), Some(request_type)) => Some(TcHeader { target_id, request_type }),
            _ => None,
        }
    }

    /// Header with the given numeric value of the component and position of the message type.
    /// There is none if one of them is not in use.
    pub fn from_raw(target_id: u32, request_type: u32) -> (header: Option<Self>)
        ensures
            header == Self::with_raw(target_id, request_type),
    {
        match (ComponentId::try_from_raw(target_id), MessageType::try_from_raw(request_type)) {
            (Some(target_id), Some(request_type)) => Some(TcHeader { target_id, request_type }),
            _ => None,
        }
    }
}

/// Generic device mode which covers the requirements of most devices.
///
/// The states are related both to the physical and the logical state of the device. Some
/// device handlers control the power supply of their own device and an off state might also
/// mean that the device is physically off.
#[derive(Debug, Clone, Copy, PartialEq, Eq, Structural)]
pub enum DeviceMode {
    Off,
    On,
    /// Normal operation mode where periodic polling might be done as well.
    Normal,
}

impl DeviceMode {
    /// Numeric value of the mode.
    pub open spec fn spec_raw(self) -> u32 {
        match self {
            DeviceMode::Off => 0,
            DeviceMode::On => 1,
            DeviceMode::Normal => 2,
        }
    }

    /// Numeric value of the mode.
    pub fn raw(&self) -> (raw: u32)
        ensures
            raw == self.spec_raw(),
    {
        match self {
            DeviceMode::Off => 0,
            DeviceMode::On => 1,
            DeviceMode::Normal => 2,
        }
    }

    /// Mode with the given numeric value, if there is one.
    pub fn try_from_raw(raw: u32) -> (mode: Option<DeviceMode>)
        ensures
            mode matches Some(mode) ==> mode.spec_raw() == raw,
            mode is None ==> forall|any: DeviceMode| #[trigger] any.spec_raw() != raw,
    {
        match raw {
            0 => Some(DeviceMode::Off),
            1 => Some(DeviceMode::On),
            2 => Some(DeviceMode::Normal),
            _ => None,
        }
    }

    /// Mode with the given lower case name.
    pub open spec fn with_name(name: Seq<char>) -> Option<DeviceMode> {
        if name == "off"@ {
            Some(DeviceMode::Off)
        } else if name == "on"@ {
            Some(DeviceMode::On)
        } else if name == "normal"@ {
            Some(DeviceMode::Normal)
        } else {
            None
        }
    }

    /// Mode with the given lower case name, if there is one.
    pub fn from_lowercase(name: &String) -> (mode: Option<DeviceMode>)
        ensures
            mode == Self::with_name(name@),
    {
        if *name == "off".to_owned() {
            Some(DeviceMode::Off)
        } else if *name == "on".to_owned() {
            Some(DeviceMode::On)
        } else if *name == "normal".to_owned() {
            Some(DeviceMode::Normal)
        } else {
            None
        }
    }

    /// Mode with the given name in any case, if there is one.
    pub fn parse(name: &str) -> (mode: Option<DeviceMode>)
        ensures
            mode == Self::with_name(str_lowercase(name@)),
    {
        Self::from_lowercase(&std_to_lowercase(name))
    }
}

impl core::str::FromStr for DeviceMode {
    type Err = ();

    fn from_str(s: &str) -> (mode: Result<Self, Self::Err>)
        ensures
            mode == (match DeviceMode::with_name(str_lowercase(s@)) {
                Some(mode) => Ok::<DeviceMode, ()>(mode),
                None => Err::<DeviceMode, ()>(()),
            }),
    {
        match DeviceMode::parse(s) {
            Some(mode) => Ok(mode),
            None => Err(()),
        }
    }
}

/// The lower case equivalent of a string, as `str::to_lowercase` returns it.
pub uninterp spec fn str_lowercase(text: Seq<char>) -> Seq<char>;

/// Calls `str::to_lowercase`, which maps every character according to the Unicode tables. The
/// result only depends on the text and goes by the name [str_lowercase].
#[verifier::external_body]
fn std_to_lowercase(text: &str) -> (lowercase: String)
    ensures
        lowercase@ == str_lowercase(text@),
{
    text.to_lowercase()
}

/// Request related to the generation of housekeeping data.
#[derive(Debug, Clone, Copy, PartialEq, Eq, Structural)]
#[non_exhaustive]
pub enum HkRequestType {
    OneShot,
    /// Enable periodic HK generation. Without an interval, the current interval is kept.
    EnablePeriodic(Option<Duration>),
    DisablePeriodic,
    /// Modify periodic HK generation interval.
    ModifyInterval(Duration),
}

/// The components are numbered without gaps, and no other number is a component.
pub proof fn law_component_numbers(raw: u32)
    ensures
        component_with_raw(raw) == (match raw {
            0 => Some(ComponentId::Controller),
            1 => Some(ComponentId::AcsSubsystem),
            2 => Some(ComponentId::AcsMgmAssembly),
            3 => Some(ComponentId::AcsController),
            4 => Some(ComponentId::AcsMgm0),
            5 => Some(ComponentId::AcsMgm1),
            6 => Some(ComponentId::AcsMgt),
            7 => Some(ComponentId::EpsSubsystem),
            8 => Some(ComponentId::EpsPcdu),
            9 => Some(ComponentId::UdpServer),
            10 => Some(ComponentId::TcpServer),
            11 => Some(ComponentId::EventManager),
            12 => Some(ComponentId::Ground),
            _ => None,
        }),
{
    law_component_id_roundtrip(ComponentId::Controller, ComponentId::Controller);
    law_component_id_roundtrip(ComponentId::AcsSubsystem, ComponentId::AcsSubsystem);
    law_component_id_roundtrip(ComponentId::AcsMgmAssembly, ComponentId::AcsMgmAssembly);
    law_component_id_roundtrip(ComponentId::AcsController, ComponentId::AcsController);
    law_component_id_roundtrip(ComponentId::AcsMgm0, ComponentId::AcsMgm0);
    law_component_id_roundtrip(ComponentId::AcsMgm1, ComponentId::AcsMgm1);
    law_component_id_roundtrip(ComponentId::AcsMgt, ComponentId::AcsMgt);
    law_component_id_roundtrip(ComponentId::EpsSubsystem, ComponentId::EpsSubsystem);
    law_component_id_roundtrip(ComponentId::EpsPcdu, ComponentId::EpsPcdu);
    law_component_id_roundtrip(ComponentId::UdpServer, ComponentId::UdpServer);
    law_component_id_roundtrip(ComponentId::TcpServer, ComponentId::TcpServer);
    law_component_id_roundtrip(ComponentId::EventManager, ComponentId::EventManager);
    law_component_id_roundtrip(ComponentId::Ground, ComponentId::Ground);
}

/// The message types are numbered without gaps, and no other number is a message type.
pub proof fn law_message_type_numbers(raw: u32)
    ensures
        message_type_with_raw(raw) == (match raw {
            0 => Some(MessageType::Ping),
            1 => Some(MessageType::Mode),
            2 => Some(MessageType::Hk),
            3 => Some(MessageType::Action),
            4 => Some(MessageType::Event),
            5 => Some(MessageType::Verification),
            6 => Some(MessageType::Health),
            _ => None,
        }),
{
    law_message_type_roundtrip(MessageType::Ping, MessageType::Ping);
    law_message_type_roundtrip(MessageType::Mode, MessageType::Mode);
    law_message_type_roundtrip(MessageType::Hk, MessageType::Hk);
    law_message_type_roundtrip(MessageType::Action, MessageType::Action);
    law_message_type_roundtrip(MessageType::Event, MessageType::Event);
    law_message_type_roundtrip(MessageType::Verification, MessageType::Verification);
    law_message_type_roundtrip(MessageType::Health, MessageType::Health);
}

/// Device modes are ordered by how much of the device works, and APIDs have fixed values.
pub proof fn law_fixed_numbers()
    ensures
        DeviceMode::Off.spec_raw() == 0,
        DeviceMode::On.spec_raw() == 1,
        DeviceMode::Normal.spec_raw() == 2,
        Apid::Tmtc.spec_raw_value() == 1,
        Apid::Cfdp.spec_raw_value() == 2,
        Apid::Acs.spec_raw_value() == 3,
        Apid::Eps.spec_raw_value() == 6,
{
}

/// Each device mode has one name.
pub proof fn law_mode_names(name: Seq<char>)
    ensures
        DeviceMode::with_name("off"@) == Some(DeviceMode::Off),
        DeviceMode::with_name("on"@) == Some(DeviceMode::On),
        DeviceMode::with_name("normal"@) == Some(DeviceMode::Normal),
        name != "off"@ && name != "on"@ && name != "normal"@ ==> DeviceMode::with_name(
            name,
        ) is None,
{
    reveal_strlit("off");
    reveal_strlit("on");
    reveal_strlit("normal");
    assert("off"@.len() != "on"@.len());
    assert("off"@.len() != "normal"@.len());
    assert("on"@.len() != "normal"@.len());
}

/// Recovery events are numbered in the order of their variants from 0x100 on, which is above the
/// IDs of all other events of a device. The IDs of the events of a component are unique.
pub proof fn law_event_numbers(
    recovery_event: RecoveryEvent,
    mgm_event: acs::mgm::Event,
    mgt_event: acs::mgt::Event,
    tmtc_event: tmtc::Event,
)
    ensures
        spec_recovery_event_id(recovery_event) == 0x100 + (match recovery_event {
            RecoveryEvent::Started => 0int,
            RecoveryEvent::Done => 1,
            RecoveryEvent::Failed => 2,
            RecoveryEvent::ThresholdExceeded => 3,
        }),
        mgm_event.spec_event_id() == (match mgm_event {
            acs::mgm::Event::SpiFaultThresholdExceeded => 0u16,
            acs::mgm::Event::ModeChanged(_) => 1u16,
            acs::mgm::Event::Recovery(event) => spec_recovery_event_id(event),
        }),
        mgt_event.spec_event_id() == (match mgt_event {
            acs::mgt::Event::CommFaultThresholdExceeded => 0u16,
            acs::mgt::Event::ModeChanged(_) => 1u16,
            acs::mgt::Event::Recovery(event) => spec_recovery_event_id(event),
        }),
        tmtc_event.spec_event_id() == (match tmtc_event {
            tmtc::Event::InvalidTcPacket => 0u16,
            tmtc::Event::InvalidTcHeader => 1u16,
            tmtc::Event::UnknownTargetId(_) => 2u16,
        }),
        mgm_event.spec_message_type() == MessageType::Event,
        mgt_event.spec_message_type() == MessageType::Event,
        tmtc_event.spec_message_type() == MessageType::Event,
{
}

/// A telecommand header needs both numbers to be in use, and an invalid telemetry header is
/// rejected for the first number which is not.
pub proof fn law_headers_are_checked(sender_id: u32, target_id: u32, message_type: u32)
    ensures
        TcHeader::with_raw(target_id, message_type) is Some <==> target_id <= 12 && message_type
            <= 6,
        TcHeader::with_raw(target_id, message_type) matches Some(header) ==> {
            &&& header.target_id.spec_raw() == target_id
            &&& header.request_type.spec_raw() == message_type
        },
        header_error(sender_id, target_id, message_type) == (if sender_id > 12 {
            Some(HeaderError::UnknownComponent(sender_id))
        } else if target_id > 12 {
            Some(HeaderError::UnknownComponent(target_id))
        } else if message_type > 6 {
            Some(HeaderError::UnknownMessageType(message_type))
        } else {
            None
        }),
{
    law_component_numbers(sender_id);
    law_component_numbers(target_id);
    law_message_type_numbers(message_type);
}

/// Responses of the devices are verifications, housekeeping data or mode messages.
pub proof fn law_response_types(
    mgm_response: acs::mgm::response::Response,
    mgt_response: acs::mgt::response::Response,
    mgt_request: acs::mgt::request::Request,
)
    ensures
        mgm_response.spec_message_type() == (match mgm_response {
            acs::mgm::response::Response::Success => MessageType::Verification,
            acs::mgm::response::Response::Hk(_) => MessageType::Hk,
            acs::mgm::response::Response::Mode(_) => MessageType::Mode,
        }),
        mgt_response.spec_message_type() == (match mgt_response {
            acs::mgt::response::Response::Success => MessageType::Verification,
            acs::mgt::response::Response::Hk(_) => MessageType::Hk,
            acs::mgt::response::Response::Mode(_) => MessageType::Mode,
            acs::mgt::response::Response::NotInNormalMode => MessageType::Verification,
        }),
        mgt_request.spec_message_type() == (match mgt_request {
            acs::mgt::request::Request::Ping => MessageType::Verification,
            acs::mgt::request::Request::Hk(_) => MessageType::Hk,
            acs::mgt::request::Request::Mode(_) => MessageType::Mode,
            acs::mgt::request::Request::Health(_) => MessageType::Health,
            acs::mgt::request::Request::ApplyTorque { .. } => MessageType::Action,
        }),
{
}

} // verus!
