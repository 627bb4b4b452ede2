//! CCSDS space packet types.

use vstd::prelude::*;

use crate::types::TcHeader;

verus! {

/// Space packet primary header, with the fields in their raw form.
#[derive(Debug, Clone, Copy, PartialEq, Eq, Structural)]
pub struct SpacePacketHeader {
    /// Packet version number, three bits.
    pub version: u8,
    /// Packet ID: packet type, secondary header flag and APID, thirteen bits.
    pub packet_id: u16,
    /// Packet sequence control: sequence flags and sequence count.
    pub psc: u16,
    /// Length of the packet data field, minus one.
    pub data_len: u16,
}

/// Packet ID and sequence control of a packet, which identify a telecommand.
#[derive(Debug, Clone, Copy, PartialEq, Eq, Structural, Hash)]
pub struct CcsdsPacketIdAndPsc {
    pub packet_id: u16,
    pub psc: u16,
}

impl CcsdsPacketIdAndPsc {
    /// Identification of the packet with the given header.
    pub fn new_from_ccsds_packet(sp_header: &SpacePacketHeader) -> (id: Self)
        ensures
            id == (CcsdsPacketIdAndPsc { packet_id: sp_header.packet_id, psc: sp_header.psc }),
    {
        CcsdsPacketIdAndPsc { packet_id: sp_header.packet_id, psc: sp_header.psc }
    }

    /// Both fields as one number, with the packet ID in the upper half.
    pub fn raw(&self) -> (raw: u32)
        ensures
            raw == self.packet_id * 0x1_0000 + self.psc,
    {
        self.packet_id as u32 * 0x1_0000 + self.psc as u32
    }
}

/// Telecommand packet which passed all checks.
#[derive(Debug, Clone, PartialEq, Eq)]
pub struct CcsdsTcPacketOwned {
    pub sp_header: SpacePacketHeader,
    pub tc_header: TcHeader,
    pub payload: Vec<u8>,
}

/// Mathematical model of the [CcsdsTcPacketOwned].
pub struct TcPacketModel {
    pub sp_header: SpacePacketHeader,
    pub tc_header: TcHeader,
    pub payload: Seq<u8>,
}

impl View for CcsdsTcPacketOwned {
    type V = TcPacketModel;

    open spec fn view(&self) -> TcPacketModel {
        TcPacketModel {
            sp_header: self.sp_header,
            tc_header: self.tc_header,
            payload: self.payload@,
        }
    }
}

/// Primary header at the start of a raw packet.
pub open spec fn header_of(raw: Seq<u8>) -> SpacePacketHeader {
    SpacePacketHeader {
        version: (raw[0] / 0x20) as u8,
        packet_id: (raw[0] % 0x20 * 0x100 + raw[1]) as u16,
        psc: (raw[2] * 0x100 + raw[3]) as u16,
        data_len: (raw[4] * 0x100 + raw[5]) as u16,
    }
}

/// Length of a raw packet according to its primary header.
pub open spec fn packet_len(raw: Seq<u8>) -> nat {
    (header_of(raw).data_len + 7) as nat
}

/// The bytes hold a whole packet.
pub open spec fn is_complete(raw: Seq<u8>) -> bool {
    raw.len() >= 6 && raw.len() >= packet_len(raw)
}

/// The packet without what follows it.
pub open spec fn packet_of(raw: Seq<u8>) -> Seq<u8> {
    raw.take(packet_len(raw) as int)
}

/// CRC16 of the packet `raw`, as `spacepackets::crc::CRC_CCITT_FALSE` calculates it. It is zero if
/// the packet ends with the right checksum.
pub uninterp spec fn crc16_ccitt_false(raw: Seq<u8>) -> u16;

/// [spacepackets::CcsdsPacketReadError], which is only told apart from success.
#[verifier::external_type_specification]
#[verifier::external_body]
pub struct ExCcsdsPacketReadError(spacepackets::CcsdsPacketReadError);

/// Calls `spacepackets::CcsdsPacketReader::new` with CRC16 verification, and returns the primary
/// header and the packet data field, which includes the checksum. It succeeds if, and only if,
/// the bytes start with a whole packet whose CRC is zero; that CRC goes by the name
/// [crc16_ccitt_false].
#[verifier::external_body]
pub(crate) fn read_ccsds_packet(raw: &[u8]) -> (packet: Result<
    (SpacePacketHeader, &[u8]),
    spacepackets::CcsdsPacketReadError,
>)
    ensures
        match packet {
            Ok((header, data)) => {
                &&& is_complete(raw@)
                &&& crc16_ccitt_false(packet_of(raw@)) == 0
                &&& header == header_of(raw@)
                &&& data@ == packet_of(raw@).skip(6)
            },
            Err(_) => !is_complete(raw@) || crc16_ccitt_false(packet_of(raw@)) != 0,
        },
{
    let crc16 = Some(spacepackets::ChecksumType::WithCrc16);
    let reader = spacepackets::CcsdsPacketReader::new(raw, crc16)?;
    let header = SpacePacketHeader {
        version: reader.sp_header().version.value(),
        packet_id: reader.sp_header().packet_id.raw(),
        psc: reader.sp_header().psc.raw(),
        data_len: reader.data_len(),
    };
    Ok((header, reader.packet_data()))
}

/// Length of the variable length number at the start of the bytes. Every byte but the last one has
/// its high bit set. A 32 bit number has at most five bytes, of which the last one only has room
/// for four bits.
pub open spec fn number_len(data: Seq<u8>) -> Option<nat> {
    if data.len() >= 1 && data[0] < 0x80 {
        Some(1)
    } else if data.len() >= 2 && data[1] < 0x80 {
        Some(2)
    } else if data.len() >= 3 && data[2] < 0x80 {
        Some(3)
    } else if data.len() >= 4 && data[3] < 0x80 {
        Some(4)
    } else if data.len() >= 5 && data[4] < 0x10 {
        Some(5)
    } else {
        None
    }
}

/// Value of the variable length number in the first `len` bytes: seven bits per byte, the lowest
/// ones first.
pub open spec fn number_value(data: Seq<u8>, len: nat) -> nat
    decreases len,
{
    if len == 0 {
        0
    } else {
        (data[0] % 0x80) as nat + 0x80 * number_value(data.skip(1), (len - 1) as nat)
    }
}

/// The variable length number at the start of the bytes and the remaining bytes.
pub open spec fn number(data: Seq<u8>) -> Option<(u32, Seq<u8>)> {
    match number_len(data) {
        Some(len) => Some((number_value(data, len) as u32, data.skip(len as int))),
        None => None,
    }
}

/// The two numbers at the start of the bytes and the remaining bytes.
pub open spec fn two_numbers(data: Seq<u8>) -> Option<(u32, u32, Seq<u8>)> {
    match number(data) {
        Some((first, after_first)) => match number(after_first) {
            Some((second, rest)) => Some((first, second, rest)),
            None => None,
        },
        None => None,
    }
}

/// Calls `postcard::take_from_bytes` for two 32 bit numbers, which have a variable length. It
/// returns the numbers and the remaining bytes of [two_numbers], and an error if one of the
/// numbers is incomplete or does not fit into 32 bits.
#[verifier::external_body]
pub(crate) fn take_two_numbers(data: &[u8]) -> (numbers: Result<
    (u32, u32, &[u8]),
    postcard::Error,
>)
    ensures
        match numbers {
            Ok((first, second, rest)) => two_numbers(data@) == Some((first, second, rest@)),
            Err(_) => two_numbers(data@) is None,
        },
{
    let ((first, second), rest) = postcard::take_from_bytes::<(u32, u32)>(data)?;
    Ok((first, second, rest))
}

/// CDS short time: days since the CCSDS epoch and milliseconds of the day.
#[derive(Debug, Clone, Copy, PartialEq, Eq, Structural)]
pub struct CdsTime {
    pub ccsds_days: u16,
    pub ms_of_day: u32,
}

impl CdsTime {
    /// The raw timestamp: the preamble for 16 bit days without submilliseconds, then the days
    /// and the milliseconds of the day in big endian order.
    pub open spec fn short_stamp(self) -> Seq<u8> {
        seq![
            0x40u8,
            (self.ccsds_days / 0x100) as u8,
            (self.ccsds_days % 0x100) as u8,
            (self.ms_of_day / 0x100_0000) as u8,
            (self.ms_of_day / 0x1_0000 % 0x100) as u8,
            (self.ms_of_day / 0x100 % 0x100) as u8,
            (self.ms_of_day % 0x100) as u8,
        ]
    }
}

/// Calls `spacepackets::time::cds::CdsTime::write_to_slice` on a time with 16 bit days and without
/// submilliseconds. Such a timestamp always takes seven bytes, so the call does not fail on the
/// buffer. The bytes are those of [CdsTime::short_stamp].
#[verifier::external_body]
pub(crate) fn write_cds_short(time: CdsTime) -> (stamp: [u8; 7])
    ensures
        stamp@ == time.short_stamp(),
{
    let mut stamp: [u8; 7] = [0; 7];
    spacepackets::time::cds::CdsTime::new_with_u16_days(time.ccsds_days, time.ms_of_day)
        .write_to_slice(&mut stamp)
        .unwrap();
    stamp
}

/// A small number takes one byte. A number with two bytes has its lower seven bits in the first
/// one. Bytes which end within a number hold none.
pub proof fn law_variable_length_numbers(data: Seq<u8>)
    ensures
        data.len() == 0 ==> number(data) is None,
        data.len() >= 1 && data[0] < 0x80 ==> number(data) == Some((data[0] as u32, data.skip(1))),
        data.len() == 1 && data[0] >= 0x80 ==> number(data) is None,
        data.len() >= 2 && data[0] >= 0x80 && data[1] < 0x80 ==> number(data) == Some(
            ((data[0] - 0x80 + 0x80 * data[1]) as u32, data.skip(2)),
        ),
{
    reveal_with_fuel(number_value, 3);
}

/// The days and the milliseconds of the day are read back from a timestamp.
pub proof fn law_timestamp_layout(time: CdsTime)
    ensures
        ({
            let stamp = time.short_stamp();
            &&& stamp.len() == 7
            &&& stamp[0] == 0x40
            &&& stamp[1] * 0x100 + stamp[2] == time.ccsds_days
            &&& stamp[3] * 0x100_0000 + stamp[4] * 0x1_0000 + stamp[5] * 0x100 + stamp[6]
                == time.ms_of_day
        }),
{
    let ms = time.ms_of_day;
    assert((ms / 0x100_0000) * 0x100_0000 + (ms / 0x1_0000 % 0x100) * 0x1_0000 + (ms / 0x100
        % 0x100) * 0x100 + (ms % 0x100) == ms) by (bit_vector);
    assert(ms / 0x100_0000 < 0x100) by (bit_vector);
}

} // verus!
