use satrs_obsw::bytes::{i16_from_bytes, i16_to_bytes, u32_from_bytes};
use satrs_obsw::minisim::acs::mgt::{Dipole, FrameError, HkSet, Reply, Request};
use satrs_obsw::time::Duration;

#[test]
fn test_apply_torque_frame() {
    let request = Request::ApplyTorque {
        duration: Duration::from_millis(0x0102_0304),
        dipole: Dipole { x: -2, y: 0x0506, z: 0x0708 },
    };
    let frame = request.to_frame();
    assert_eq!(frame, [0x02, 0xff, 0xfe, 0x05, 0x06, 0x07, 0x08, 0x01, 0x02, 0x03, 0x04]);
    assert_eq!(Request::from_frame(&frame), Ok(request));
}

#[test]
fn test_request_hk_frame() {
    assert_eq!(Request::RequestHk.to_frame(), [0x01]);
    assert_eq!(Request::from_frame(&[0x01]), Ok(Request::RequestHk));
}

#[test]
fn test_reply_frames() {
    let hk = Reply::Hk(HkSet { dipole: Dipole { x: 1, y: 2, z: 3 }, torquing: true });
    let frame = hk.to_frame();
    assert_eq!(frame, [0x81, 0, 1, 0, 2, 0, 3, 1]);
    assert_eq!(Reply::from_frame(&frame), Ok(hk));
    assert_eq!(Reply::Ack.to_frame(), [0x82]);
    assert_eq!(Reply::from_frame(&[0x82]), Ok(Reply::Ack));
}

#[test]
fn test_invalid_frames() {
    assert_eq!(Request::from_frame(&[]), Err(FrameError::Empty));
    assert_eq!(Request::from_frame(&[0x81]), Err(FrameError::UnknownPacketId(0x81)));
    assert_eq!(
        Request::from_frame(&[0x01, 0x00]),
        Err(FrameError::InvalidLength { id: 0x01, len: 2 })
    );
    assert_eq!(
        Reply::from_frame(&[0x81, 0, 1]),
        Err(FrameError::InvalidLength { id: 0x81, len: 3 })
    );
}

#[test]
fn requests_and_replies_are_told_apart() {
    assert_eq!(Reply::from_frame(&[]), Err(FrameError::Empty));
    assert_eq!(Reply::from_frame(&[0x01]), Err(FrameError::UnknownPacketId(0x01)));
    assert_eq!(Request::from_frame(&[0x82]), Err(FrameError::UnknownPacketId(0x82)));
    assert_eq!(
        Request::from_frame(&[0x02; 10]),
        Err(FrameError::InvalidLength { id: 0x02, len: 10 })
    );
}

#[test]
fn durations_have_millisecond_resolution() {
    let dipole = Dipole::default();
    let request = Request::ApplyTorque { duration: Duration { nanos: 1_999_999 }, dipole };
    assert_eq!(
        Request::from_frame(&request.to_frame()),
        Ok(Request::ApplyTorque { duration: Duration::from_millis(1), dipole })
    );
    let request = Request::ApplyTorque { duration: Duration::from_secs(u64::MAX), dipole };
    assert_eq!(
        Request::from_frame(&request.to_frame()),
        Ok(Request::ApplyTorque { duration: Duration::from_millis(u32::MAX as u64), dipole })
    );
}

#[test]
fn any_torquing_flag_but_zero_is_set() {
    let frame = [0x81, 0x80, 0x00, 0x7f, 0xff, 0xff, 0xff, 0xff];
    assert_eq!(
        Reply::from_frame(&frame),
        Ok(Reply::Hk(HkSet {
            dipole: Dipole { x: i16::MIN, y: i16::MAX, z: -1 },
            torquing: true
        }))
    );
}

#[test]
fn integers_match_the_standard_library() {
    for value in [0, 1, -1, 255, 256, -256, i16::MIN, i16::MAX] {
        let (high, low) = i16_to_bytes(value);
        assert_eq!([high, low], value.to_be_bytes());
        assert_eq!(i16_from_bytes(high, low), value);
    }
    assert_eq!(u32_from_bytes(0x89, 0xab, 0xcd, 0xef), 0x89ab_cdef);
}
