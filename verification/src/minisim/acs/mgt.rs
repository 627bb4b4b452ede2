//! Simple serial protocol of the magnetorquer.
//!
//! The first byte of each frame is the packet ID. The high bit of the ID is set for replies.
//! All fields are big endian. Every command is answered with exactly one reply, but only if the
//! device is powered. The device drops invalid frames.
//!
//! A data link layer is deliberately skipped for simplicity. A real serial link would need
//! framing and error detection, for example COBS encoding and a CRC. Here, the transport
//! always delivers complete and intact frames.

use vstd::prelude::*;
use vstd::slice::slice_subrange;

use crate::bytes;
use crate::time::Duration;

verus! {

/// Asks for housekeeping data.
pub const REQUEST_HK: u8 = 0x01;

/// Payload: dipole (3 x i16), duration in milliseconds (u32).
pub const APPLY_TORQUE: u8 = 0x02;

/// Payload: dipole (3 x i16), torquing flag (u8).
pub const HK: u8 = 0x81;

/// Reply to [APPLY_TORQUE].
pub const ACK: u8 = 0x82;

/// Reason why a frame is invalid.
#[derive(Debug, Clone, Copy, PartialEq, Eq, Structural)]
pub enum FrameError {
    /// Empty frame.
    Empty,
    /// Unknown packet ID.
    UnknownPacketId(u8),
    /// The frame does not have the length required by its packet ID.
    InvalidLength { id: u8, len: usize },
}

/// Dipole of the magnetorquer. Simple model using i16 values.
#[derive(Debug, Clone, Copy, PartialEq, Eq, Structural)]
pub struct Dipole {
    pub x: i16,
    pub y: i16,
    pub z: i16,
}

impl Default for Dipole {
    fn default() -> (dipole: Self)
        ensures
            dipole == Dipole::none(),
    {
        Dipole { x: 0, y: 0, z: 0 }
    }
}

/// Length of a dipole in a frame.
pub const DIPOLE_LEN: usize = 6;

impl Dipole {
    /// No dipole.
    pub open spec fn none() -> Dipole {
        Dipole { x: 0, y: 0, z: 0 }
    }

    /// The dipole as it is sent.
    pub open spec fn bytes(self) -> Seq<u8> {
        bytes::be_i16(self.x) + bytes::be_i16(self.y) + bytes::be_i16(self.z)
    }

    /// The dipole at the start of a buffer.
    pub open spec fn at_start_of(buf: Seq<u8>) -> Dipole {
        Dipole {
            x: bytes::join_i16(buf[0], buf[1]),
            y: bytes::join_i16(buf[2], buf[3]),
            z: bytes::join_i16(buf[4], buf[5]),
        }
    }

    fn write_to(&self, frame: &mut Vec<u8>)
        ensures
            final(frame)@ == old(frame)@ + self.bytes(),
    {
        bytes::push_be_i16(frame, self.x);
        bytes::push_be_i16(frame, self.y);
        bytes::push_be_i16(frame, self.z);
        assert(frame@ =~= old(frame)@ + self.bytes());
    }

    fn read_from(buf: &[u8]) -> (dipole: Self)
        requires
            buf@.len() >= DIPOLE_LEN,
        ensures
            dipole == Self::at_start_of(buf@),
    {
        Dipole {
            x: bytes::i16_from_bytes(buf[0], buf[1]),
            y: bytes::i16_from_bytes(buf[2], buf[3]),
            z: bytes::i16_from_bytes(buf[4], buf[5]),
        }
    }
}

/// Requests and replies are parsed differently.
#[derive(Debug, Clone, Copy, PartialEq, Eq, Structural)]
pub enum FrameKind {
    Request,
    Reply,
}

impl FrameKind {
    /// Payload length of the packet ID, if the ID is known.
    pub open spec fn spec_payload_len(self, id: u8) -> Option<usize> {
        match self {
            FrameKind::Request => if id == 0x01 {
                Some(0)
            } else if id == 0x02 {
                Some(10)
            } else {
                None
            },
            FrameKind::Reply => if id == 0x81 {
                Some(7)
            } else if id == 0x82 {
                Some(0)
            } else {
                None
            },
        }
    }

    fn payload_len(self, id: u8) -> (len: Option<usize>)
        ensures
            len == self.spec_payload_len(id),
    {
        match (self, id) {
            (FrameKind::Request, REQUEST_HK) => Some(0),
            (FrameKind::Request, APPLY_TORQUE) => Some(DIPOLE_LEN + 4),
            (FrameKind::Reply, HK) => Some(DIPOLE_LEN + 1),
            (FrameKind::Reply, ACK) => Some(0),
            _ => None,
        }
    }

    /// What is wrong with a frame, if anything.
    pub open spec fn frame_error(self, frame: Seq<u8>) -> Option<FrameError> {
        if frame.len() == 0 {
            Some(FrameError::Empty)
        } else {
            match self.spec_payload_len(frame[0]) {
                None => Some(FrameError::UnknownPacketId(frame[0])),
                Some(len) => if frame.len() != 1 + len {
                    Some(FrameError::InvalidLength { id: frame[0], len: frame.len() as usize })
                } else {
                    None
                },
            }
        }
    }
}

/// Checks the frame length and returns the packet ID and the payload.
fn split_frame(frame: &[u8], kind: FrameKind) -> (result: Result<(u8, &[u8]), FrameError>)
    ensures
        match result {
            Ok((id, payload)) => {
                &&& kind.frame_error(frame@) is None
                &&& id == frame@[0]
                &&& payload@ == frame@.subrange(1, frame@.len() as int)
            },
            Err(error) => kind.frame_error(frame@) == Some(error),
        },
{
    if frame.len() == 0 {
        return Err(FrameError::Empty);
    }
    let id: u8 = frame[0];
    let expected_len: usize = match kind.payload_len(id) {
        Some(expected_len) => expected_len,
        None => {
            return Err(FrameError::UnknownPacketId(id));
        },
    };
    if frame.len() - 1 != expected_len {
        return Err(FrameError::InvalidLength { id, len: frame.len() });
    }
    Ok((id, slice_subrange(frame, 1, frame.len())))
}

#[derive(Debug, Clone, Copy, PartialEq, Eq, Structural)]
pub enum Request {
    /// The duration has millisecond resolution on the wire.
    ApplyTorque { duration: Duration, dipole: Dipole },
    RequestHk,
}

/// Milliseconds of a duration as they are sent: the fraction is cut off, and longer durations
/// are sent as the longest one which can be represented.
pub open spec fn wire_millis(duration: Duration) -> u32 {
    if duration.nanos / 1_000_000 <= u32::MAX {
        (duration.nanos / 1_000_000) as u32
    } else {
        u32::MAX
    }
}

impl Request {
    /// The request as it is sent.
    pub open spec fn frame(self) -> Seq<u8> {
        match self {
            Request::RequestHk => seq![0x01u8],
            Request::ApplyTorque { duration, dipole } => seq![0x02u8] + dipole.bytes()
                + bytes::be_u32(wire_millis(duration)),
        }
    }

    /// The request in a frame, or what is wrong with the frame.
    pub open spec fn of_frame(frame: Seq<u8>) -> Result<Request, FrameError> {
        match FrameKind::Request.frame_error(frame) {
            Some(error) => Err(error),
            None => if frame[0] == 0x01 {
                Ok(Request::RequestHk)
            } else {
                Ok(
                    Request::ApplyTorque {
                        dipole: Dipole::at_start_of(frame.skip(1)),
                        duration: Duration {
                            nanos: (bytes::join_u32(frame[7], frame[8], frame[9], frame[10])
                                * 1_000_000) as u128,
                        },
                    },
                )
            },
        }
    }

    /// The request as it is sent.
    pub fn to_frame(&self) -> (frame: Vec<u8>)
        ensures
            frame@ == self.frame(),
    {
        match self {
            Request::RequestHk => vec![REQUEST_HK],
            Request::ApplyTorque { duration, dipole } => {
                let mut frame: Vec<u8> = vec![APPLY_TORQUE];
                dipole.write_to(&mut frame);
                let millis: u128 = duration.as_millis();
                let duration_ms: u32 = if millis <= u32::MAX as u128 {
                    millis as u32
                } else {
                    u32::MAX
                };
                bytes::push_be_u32(&mut frame, duration_ms);
                frame
            },
        }
    }

    /// Parses a request.
    pub fn from_frame(frame: &[u8]) -> (request: Result<Self, FrameError>)
        ensures
            request == Self::of_frame(frame@),
    {
        let (id, payload) = match split_frame(frame, FrameKind::Request) {
            Ok(split) => split,
            Err(error) => {
                return Err(error);
            },
        };
        proof {
            assert(frame@.skip(1) =~= payload@);
        }
        if id == REQUEST_HK {
            return Ok(Request::RequestHk);
        }
        let duration_ms: u32 = bytes::u32_from_bytes(
            payload[DIPOLE_LEN],
            payload[DIPOLE_LEN + 1],
            payload[DIPOLE_LEN + 2],
            payload[DIPOLE_LEN + 3],
        );
        Ok(
            Request::ApplyTorque {
                duration: Duration::from_millis(duration_ms as u64),
                dipole: Dipole::read_from(payload),
            },
        )
    }
}

/// Housekeeping data of the magnetorquer.
#[derive(Debug, Clone, Copy, PartialEq, Eq, Structural)]
pub struct HkSet {
    pub dipole: Dipole,
    pub torquing: bool,
}

#[derive(Debug, Clone, Copy, PartialEq, Eq, Structural)]
pub enum Reply {
    Hk(HkSet),
    Ack,
}

impl Reply {
    /// The reply as it is sent.
    pub open spec fn frame(self) -> Seq<u8> {
        match self {
            Reply::Ack => seq![0x82u8],
            Reply::Hk(hk) => seq![0x81u8] + hk.dipole.bytes() + seq![
                if hk.torquing {
                    1u8
                } else {
                    0u8
                },
            ],
        }
    }

    /// The reply in a frame, or what is wrong with the frame.
    pub open spec fn of_frame(frame: Seq<u8>) -> Result<Reply, FrameError> {
        match FrameKind::Reply.frame_error(frame) {
            Some(error) => Err(error),
            None => if frame[0] == 0x82 {
                Ok(Reply::Ack)
            } else {
                Ok(
                    Reply::Hk(
                        HkSet {
                            dipole: Dipole::at_start_of(frame.skip(1)),
                            torquing: frame[7] != 0,
                        },
                    ),
                )
            },
        }
    }

    /// The reply as it is sent.
    pub fn to_frame(&self) -> (frame: Vec<u8>)
        ensures
            frame@ == self.frame(),
    {
        match self {
            Reply::Hk(hk) => {
                let mut frame: Vec<u8> = vec![HK];
                hk.dipole.write_to(&mut frame);
                frame.push(
                    if hk.torquing {
                        1
                    } else {
                        0
                    },
                );
                assert(frame@ =~= self.frame());
                frame
            },
            Reply::Ack => vec![ACK],
        }
    }

    /// Parses a reply.
    pub fn from_frame(frame: &[u8]) -> (reply: Result<Self, FrameError>)
        ensures
            reply == Self::of_frame(frame@),
    {
        let (id, payload) = match split_frame(frame, FrameKind::Reply) {
            Ok(split) => split,
            Err(error) => {
                return Err(error);
            },
        };
        proof {
            assert(frame@.skip(1) =~= payload@);
        }
        if id == ACK {
            return Ok(Reply::Ack);
        }
        Ok(
            Reply::Hk(
                HkSet { dipole: Dipole::read_from(payload), torquing: payload[DIPOLE_LEN] != 0 },
            ),
        )
    }
}

} // verus!
