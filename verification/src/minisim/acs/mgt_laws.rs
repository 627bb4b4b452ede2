//! Laws of the magnetorquer protocol.

use vstd::prelude::*;

use crate::bytes;
use crate::minisim::acs::mgt::{
    wire_millis, Dipole, FrameError, FrameKind, HkSet, Reply, Request,
};
use crate::time::Duration;

verus! {

/// The request which arrives at the device: the duration in milliseconds.
pub open spec fn received(request: Request) -> Request {
    match request {
        Request::ApplyTorque { duration, dipole } => Request::ApplyTorque {
            duration: Duration { nanos: (wire_millis(duration) * 1_000_000) as u128 },
            dipole,
        },
        Request::RequestHk => Request::RequestHk,
    }
}

/// The sent dipole is read back at the start of a buffer.
proof fn lemma_dipole_roundtrip(dipole: Dipole, buf: Seq<u8>)
    requires
        buf.len() >= 6,
        buf.take(6) == dipole.bytes(),
    ensures
        Dipole::at_start_of(buf) == dipole,
{
    let sent = dipole.bytes();
    assert forall|i: int| 0 <= i < 6 implies buf[i] == sent[i] by {
        assert(buf.take(6)[i] == buf[i]);
    }
    bytes::law_i16_bytes_roundtrip(dipole.x, 0, 0);
    bytes::law_i16_bytes_roundtrip(dipole.y, 0, 0);
    bytes::law_i16_bytes_roundtrip(dipole.z, 0, 0);
}

/// A dipole which was read is sent as the bytes it was read from.
proof fn lemma_dipole_bytes(buf: Seq<u8>)
    requires
        buf.len() >= 6,
    ensures
        Dipole::at_start_of(buf).bytes() == buf.take(6),
{
    bytes::law_i16_bytes_roundtrip(0, buf[0], buf[1]);
    bytes::law_i16_bytes_roundtrip(0, buf[2], buf[3]);
    bytes::law_i16_bytes_roundtrip(0, buf[4], buf[5]);
    assert(Dipole::at_start_of(buf).bytes() =~= buf.take(6));
}

/// Every request is read back from its frame, with the duration in milliseconds.
pub proof fn law_request_roundtrip(request: Request)
    ensures
        Request::of_frame(request.frame()) == Ok::<_, crate::minisim::acs::mgt::FrameError>(
            received(request),
        ),
{
    if let Request::ApplyTorque { duration, dipole } = request {
        let frame = request.frame();
        let millis = wire_millis(duration);
        assert(frame.skip(1).take(6) =~= dipole.bytes());
        lemma_dipole_roundtrip(dipole, frame.skip(1));
        bytes::law_u32_bytes_roundtrip(millis, 0, 0, 0, 0);
        assert(frame[7] == bytes::be_u32(millis)[0]);
        assert(frame[8] == bytes::be_u32(millis)[1]);
        assert(frame[9] == bytes::be_u32(millis)[2]);
        assert(frame[10] == bytes::be_u32(millis)[3]);
    }
}

/// A request arrives unchanged if its duration is a number of milliseconds which can be
/// represented.
pub proof fn law_whole_milliseconds_arrive(duration: Duration, dipole: Dipole)
    requires
        duration.nanos % 1_000_000 == 0,
        duration.nanos / 1_000_000 <= u32::MAX,
    ensures
        received(Request::ApplyTorque { duration, dipole }) == (Request::ApplyTorque {
            duration,
            dipole,
        }),
{
}

/// Every accepted request frame is the frame of the request which was read from it.
pub proof fn law_request_frames_are_unique(frame: Seq<u8>)
    requires
        Request::of_frame(frame) is Ok,
    ensures
        (Request::of_frame(frame)->Ok_0).frame() == frame,
{
    if frame[0] == 0x02 {
        lemma_dipole_bytes(frame.skip(1));
        bytes::law_u32_bytes_roundtrip(0, frame[7], frame[8], frame[9], frame[10]);
        assert((Request::of_frame(frame)->Ok_0).frame() =~= frame);
    } else {
        assert((Request::of_frame(frame)->Ok_0).frame() =~= frame);
    }
}

/// Every reply is read back from its frame.
pub proof fn law_reply_roundtrip(reply: Reply)
    ensures
        Reply::of_frame(reply.frame()) == Ok::<_, crate::minisim::acs::mgt::FrameError>(reply),
{
    if let Reply::Hk(hk) = reply {
        let frame = reply.frame();
        assert(frame.skip(1).take(6) =~= hk.dipole.bytes());
        lemma_dipole_roundtrip(hk.dipole, frame.skip(1));
    }
}

/// The high bit of the packet ID tells replies from requests, so neither is mistaken for the
/// other.
pub proof fn law_replies_are_no_requests(request: Request, reply: Reply)
    ensures
        request.frame()[0] < 0x80,
        reply.frame()[0] >= 0x80,
        FrameKind::Reply.frame_error(request.frame()) is Some,
        FrameKind::Request.frame_error(reply.frame()) is Some,
{
}

/// Whether a dipole is at a position of a frame: two bytes for each of X, Y and Z, with the most
/// significant one first.
pub open spec fn holds_dipole(frame: Seq<u8>, pos: int, dipole: Dipole) -> bool {
    &&& frame[pos] * 0x100 + frame[pos + 1] == bytes::twos_complement(dipole.x)
    &&& frame[pos + 2] * 0x100 + frame[pos + 3] == bytes::twos_complement(dipole.y)
    &&& frame[pos + 4] * 0x100 + frame[pos + 5] == bytes::twos_complement(dipole.z)
}

/// Layout of the request frames: the packet ID 1 alone asks for housekeeping data. The packet ID 2,
/// the dipole and the milliseconds with the most significant byte first command a torque.
pub proof fn law_request_layout(duration: Duration, dipole: Dipole)
    ensures
        Request::RequestHk.frame() == seq![0x01u8],
        ({
            let frame = Request::ApplyTorque { duration, dipole }.frame();
            let millis = frame[7] * 0x100_0000 + frame[8] * 0x1_0000 + frame[9] * 0x100
                + frame[10];
            &&& frame.len() == 11
            &&& frame[0] == 0x02
            &&& holds_dipole(frame, 1, dipole)
            &&& duration.nanos < 0x1_0000_0000 * 1_000_000 ==> millis * 1_000_000 <= duration.nanos
                < (millis + 1) * 1_000_000
            &&& duration.nanos >= 0x1_0000_0000 * 1_000_000 ==> millis == 0xffff_ffff
        }),
{
    let frame = Request::ApplyTorque { duration, dipole }.frame();
    let millis = wire_millis(duration);
    bytes::law_signed_bytes(dipole.x, 0, 0);
    bytes::law_signed_bytes(dipole.y, 0, 0);
    bytes::law_signed_bytes(dipole.z, 0, 0);
    bytes::law_unsigned_bytes(millis, 0, 0, 0, 0);
    assert(dipole.bytes().len() == 6);
    assert(frame[7] == bytes::be_u32(millis)[0]);
    assert(frame[8] == bytes::be_u32(millis)[1]);
    assert(frame[9] == bytes::be_u32(millis)[2]);
    assert(frame[10] == bytes::be_u32(millis)[3]);
}

/// Layout of the reply frames: the packet ID 0x82 alone acknowledges. The packet ID 0x81, the
/// dipole and a byte which is one while the device torques are housekeeping data.
pub proof fn law_reply_layout(hk: HkSet)
    ensures
        Reply::Ack.frame() == seq![0x82u8],
        ({
            let frame = Reply::Hk(hk).frame();
            &&& frame.len() == 8
            &&& frame[0] == 0x81
            &&& holds_dipole(frame, 1, hk.dipole)
            &&& frame[7] == (if hk.torquing {
                1u8
            } else {
                0u8
            })
        }),
{
    bytes::law_signed_bytes(hk.dipole.x, 0, 0);
    bytes::law_signed_bytes(hk.dipole.y, 0, 0);
    bytes::law_signed_bytes(hk.dipole.z, 0, 0);
    assert(hk.dipole.bytes().len() == 6);
}

/// Any request frame with the right ID and length is accepted, and any other one is rejected with
/// the reason: it is empty, its ID is not known, or its length is wrong.
pub proof fn law_request_frames_are_checked(frame: Seq<u8>)
    requires
        frame.len() <= usize::MAX,
    ensures
        ({
            let parsed = Request::of_frame(frame);
            let id = frame[0];
            &&& frame.len() == 0 ==> parsed == Err::<Request, FrameError>(FrameError::Empty)
            &&& frame.len() > 0 && id != 0x01 && id != 0x02 ==> parsed == Err::<
                Request,
                FrameError,
            >(FrameError::UnknownPacketId(id))
            &&& frame.len() > 0 && id == 0x01 ==> parsed == (if frame.len() == 1 {
                Ok::<Request, FrameError>(Request::RequestHk)
            } else {
                Err(FrameError::InvalidLength { id, len: frame.len() as usize })
            })
            &&& frame.len() > 0 && id == 0x02 && frame.len() != 11 ==> parsed == Err::<
                Request,
                FrameError,
            >(FrameError::InvalidLength { id, len: frame.len() as usize })
            &&& frame.len() == 11 && id == 0x02 ==> match parsed {
                Ok(Request::ApplyTorque { duration, dipole }) => {
                    &&& holds_dipole(frame, 1, dipole)
                    &&& duration.nanos == (frame[7] * 0x100_0000 + frame[8] * 0x1_0000 + frame[9]
                        * 0x100 + frame[10]) * 1_000_000
                },
                _ => false,
            }
        }),
{
    if frame.len() == 11 {
        bytes::law_signed_bytes(0, frame[1], frame[2]);
        bytes::law_signed_bytes(0, frame[3], frame[4]);
        bytes::law_signed_bytes(0, frame[5], frame[6]);
        bytes::law_unsigned_bytes(0, frame[7], frame[8], frame[9], frame[10]);
    }
}

/// Any reply frame with the right ID and length is accepted, and any other one is rejected with the
/// reason. Every torquing byte but zero means that the device torques.
pub proof fn law_reply_frames_are_checked(frame: Seq<u8>)
    requires
        frame.len() <= usize::MAX,
    ensures
        ({
            let parsed = Reply::of_frame(frame);
            let id = frame[0];
            &&& frame.len() == 0 ==> parsed == Err::<Reply, FrameError>(FrameError::Empty)
            &&& frame.len() > 0 && id != 0x81 && id != 0x82 ==> parsed == Err::<
                Reply,
                FrameError,
            >(FrameError::UnknownPacketId(id))
            &&& frame.len() > 0 && id == 0x82 ==> parsed == (if frame.len() == 1 {
                Ok::<Reply, FrameError>(Reply::Ack)
            } else {
                Err(FrameError::InvalidLength { id, len: frame.len() as usize })
            })
            &&& frame.len() > 0 && id == 0x81 && frame.len() != 8 ==> parsed == Err::<
                Reply,
                FrameError,
            >(FrameError::InvalidLength { id, len: frame.len() as usize })
            &&& frame.len() == 8 && id == 0x81 ==> match parsed {
                Ok(Reply::Hk(hk)) => {
                    &&& holds_dipole(frame, 1, hk.dipole)
                    &&& hk.torquing == (frame[7] != 0)
                },
                _ => false,
            }
        }),
{
    if frame.len() == 8 {
        bytes::law_signed_bytes(0, frame[1], frame[2]);
        bytes::law_signed_bytes(0, frame[3], frame[4]);
        bytes::law_signed_bytes(0, frame[5], frame[6]);
    }
}

} // verus!
