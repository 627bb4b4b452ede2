//! Laws of the magnetorquer handler.

use vstd::prelude::*;

use crate::acs::mgt::{
    received_hk, torque_frame, DummyModel, LinkModel, MgtHandlerModel,
};
use crate::acs::Telecommand;
use crate::minisim::acs::mgt as sim_mgt;
use crate::minisim::acs::mgt_laws::{
    law_reply_roundtrip, law_request_roundtrip, law_whole_milliseconds_arrive,
};
use crate::time::Duration;
use crate::types::acs::mgt::request::{ModeRequest, Request};
use crate::types::acs::mgt::response::Response;
use crate::types::acs::mgt::{Dipole, HkSet};
use crate::types::DeviceMode;

verus! {

/// The device replies to every valid frame with exactly one valid reply, and drops any other
/// frame.
pub proof fn law_ideal_device_replies_once(device: DummyModel, frame: Seq<u8>, now: nat)
    ensures
        sim_mgt::Request::of_frame(frame) is Ok ==> {
            let after = device.sent(frame, now);
            &&& after.replies.len() == device.replies.len() + 1
            &&& after.replies.drop_last() == device.replies
            &&& sim_mgt::Reply::of_frame(after.replies.last()) is Ok
        },
        sim_mgt::Request::of_frame(frame) is Err ==> device.sent(frame, now) == device,
{
    if sim_mgt::Request::of_frame(frame) is Ok {
        let after = device.sent(frame, now);
        law_reply_roundtrip(sim_mgt::Reply::Ack);
        law_reply_roundtrip(sim_mgt::Reply::Hk(device.hk(now)));
        assert(after.replies.drop_last() =~= device.replies);
    }
}

/// An ideal device torques with the commanded dipole for the commanded time, and does not torque
/// anymore afterwards.
pub proof fn law_ideal_device_torques(
    device: DummyModel,
    dipole: Dipole,
    duration: Duration,
    start: nat,
    now: nat,
)
    requires
        duration.nanos % 1_000_000 == 0,
        duration.nanos / 1_000_000 <= u32::MAX,
        start <= now,
    ensures
        ({
            let hk = received_hk(device.sent(torque_frame(dipole, duration), start).hk(now));
            if now - start < duration.nanos {
                hk == (HkSet { valid: true, dipole, torquing: true })
            } else {
                hk == (HkSet {
                    valid: true,
                    dipole: Dipole { x: 0, y: 0, z: 0 },
                    torquing: false,
                })
            }
        }),
{
    let sim_dipole = sim_mgt::Dipole { x: dipole.x, y: dipole.y, z: dipole.z };
    law_request_roundtrip((sim_mgt::Request::ApplyTorque { duration, dipole: sim_dipole }));
    law_whole_milliseconds_arrive(duration, sim_dipole);
}

/// A torque command is passed on to the device in normal mode, and rejected in any other mode and
/// during transitions. Either way, it is answered once.
pub proof fn law_torque_needs_normal_mode(
    handler: MgtHandlerModel,
    tc: Telecommand<Request>,
    dipole: Dipole,
    duration: Duration,
    now: nat,
)
    requires
        tc.request == Some((Request::ApplyTorque { dipole, duration })),
    ensures
        ({
            let accepted = handler.device.modes.current == DeviceMode::Normal
                && handler.device.modes.target is None;
            let after = handler.tc_handled(tc, now);
            &&& accepted ==> after.link == handler.link.sent(torque_frame(dipole, duration), now)
            &&& !accepted ==> after.link == handler.link
            &&& after.tms == handler.tms.push(
                (
                    Some(tc.spec_tc_id()),
                    if accepted {
                        Response::Success
                    } else {
                        Response::NotInNormalMode
                    },
                ),
            )
            &&& after.device == handler.device
        }),
{
}

/// Housekeeping data which the device sends becomes the housekeeping data of the handler, and is
/// no fault.
pub proof fn law_housekeeping_arrives(handler: MgtHandlerModel, hk: sim_mgt::HkSet, now: nat)
    ensures
        ({
            let after = handler.reply_handled(sim_mgt::Reply::Hk(hk).frame(), now);
            &&& after.set == received_hk(hk)
            &&& !after.awaiting_reply
            &&& after.device.modes == handler.device.modes
            &&& after.device.fdir.counter.fault_count
                <= handler.device.fdir.counter.fault_count
        }),
{
    law_reply_roundtrip(sim_mgt::Reply::Hk(hk));
}

/// A fault up to the threshold is only counted, and makes the housekeeping data invalid. Both an
/// invalid reply and a missing one are faults.
pub proof fn law_comm_faults_are_counted(handler: MgtHandlerModel, frame: Seq<u8>, now: nat)
    requires
        handler.device.fdir.counter.fault_count < handler.device.fdir.counter.failure_threshold,
        handler.device.fdir.events.len() == 0,
        handler.awaiting_reply,
        sim_mgt::Reply::of_frame(frame) is Err,
    ensures
        ({
            let counted = handler.device.fdir.counter.fault_count + 1;
            let garbled = handler.reply_handled(frame, now);
            let unanswered = handler.polled(now);
            &&& garbled.device.fdir.counter.fault_count == counted
            &&& !garbled.set.valid
            &&& !garbled.awaiting_reply
            &&& garbled.events == handler.events
            &&& unanswered.device.fdir.counter.fault_count == counted
            &&& !unanswered.set.valid
            &&& unanswered.events == handler.events
        }),
{
    let faulted = handler.device.after_fault(now);
    assert(faulted.fdir.events =~= Seq::empty());
    assert(handler.comm_failed(now).events =~= handler.events);
    let garbled = MgtHandlerModel { awaiting_reply: false, ..handler };
    assert(garbled.comm_failed(now).events =~= handler.events);
}

/// A device which does not accept commands is not polled, and no reply is expected from it
/// afterwards.
pub proof fn law_no_fault_while_off(handler: MgtHandlerModel, now: nat)
    requires
        !handler.ready_for_commanding(),
    ensures
        handler.poll_checked(now) == (MgtHandlerModel { awaiting_reply: false, ..handler }),
{
}

/// A device which accepts commands is polled in every cycle, after its replies were handled.
pub proof fn law_polled_every_cycle(handler: MgtHandlerModel, now: nat)
    requires
        handler.ready_for_commanding(),
    ensures
        handler.poll_checked(now).link == handler.link.sent(
            sim_mgt::Request::RequestHk.frame(),
            now,
        ),
        handler.poll_checked(now).awaiting_reply,
        handler.hk_checked(now).link == handler.link,
{
}

/// Every frame in the queue is a valid reply.
pub open spec fn all_valid(replies: Seq<Seq<u8>>) -> bool {
    forall|i: int|
        0 <= i < replies.len() ==> sim_mgt::Reply::of_frame(#[trigger] replies[i]) is Ok
}

/// The handler of an ideal device: all its replies are valid, and a poll is never without one.
pub open spec fn is_undisturbed(handler: MgtHandlerModel) -> bool {
    &&& handler.link matches LinkModel::Dummy(device) && {
        &&& all_valid(device.replies)
        &&& handler.awaiting_reply ==> device.replies.len() > 0
    }
    &&& handler.device.fdir.events.len() == 0
}

/// A frame which is sent to an ideal device keeps its handler undisturbed.
proof fn lemma_frame_sent(handler: MgtHandlerModel, frame: Seq<u8>, now: nat)
    requires
        is_undisturbed(handler),
    ensures
        is_undisturbed(handler.frame_sent(frame, now)),
        sim_mgt::Request::of_frame(frame) is Ok ==> handler.frame_sent(frame, now).link.pending()
            > 0,
{
    if let LinkModel::Dummy(device) = handler.link {
        law_ideal_device_replies_once(device, frame, now);
        if sim_mgt::Request::of_frame(frame) is Ok {
            let after = device.sent(frame, now);
            assert forall|i: int| 0 <= i < after.replies.len() implies sim_mgt::Reply::of_frame(
                #[trigger] after.replies[i],
            ) is Ok by {
                if i < device.replies.len() {
                    assert(after.replies[i] == after.replies.drop_last()[i]);
                    assert(sim_mgt::Reply::of_frame(device.replies[i]) is Ok);
                } else {
                    assert(after.replies[i] == after.replies.last());
                }
            }
        }
    }
}

/// A telecommand keeps the handler of an ideal device undisturbed and counts no fault.
proof fn lemma_tcs(handler: MgtHandlerModel, tcs: Seq<Telecommand<Request>>, now: nat)
    requires
        is_undisturbed(handler),
    ensures
        is_undisturbed(handler.after_tcs(tcs, now)),
        handler.after_tcs(tcs, now).device.fdir.counter == handler.device.fdir.counter,
    decreases tcs.len(),
{
    if tcs.len() > 0 {
        if let Some(Request::ApplyTorque { dipole, duration }) = tcs[0].request {
            lemma_frame_sent(handler, torque_frame(dipole, duration), now);
        }
        lemma_tcs(handler.tc_handled(tcs[0], now), tcs.drop_first(), now);
    }
}

/// Mode requests keep the handler of an ideal device undisturbed and count no fault.
proof fn lemma_mode_requests(handler: MgtHandlerModel, requests: Seq<ModeRequest>, now: nat)
    requires
        is_undisturbed(handler),
    ensures
        is_undisturbed(handler.after_mode_requests(requests, now)),
        handler.after_mode_requests(requests, now).device.fdir.counter
            == handler.device.fdir.counter,
    decreases requests.len(),
{
    if requests.len() > 0 {
        lemma_mode_requests(
            handler.mode_request_handled(requests[0], now),
            requests.drop_first(),
            now,
        );
    }
}

/// The replies of an ideal device count no fault and answer the last poll.
proof fn lemma_replies(handler: MgtHandlerModel, now: nat)
    requires
        is_undisturbed(handler),
    ensures
        is_undisturbed(handler.replies_handled(now)),
        !handler.replies_handled(now).awaiting_reply,
        handler.replies_handled(now).device.modes == handler.device.modes,
        handler.replies_handled(now).device.fdir.counter.fault_count
            <= handler.device.fdir.counter.fault_count,
    decreases handler.link.pending(),
{
    if let LinkModel::Dummy(device) = handler.link {
        if device.replies.len() > 0 {
            assert(sim_mgt::Reply::of_frame(device.replies[0]) is Ok);
            let received = MgtHandlerModel { link: handler.link.received(), ..handler };
            let rest = device.replies.drop_first();
            assert forall|i: int| 0 <= i < rest.len() implies sim_mgt::Reply::of_frame(
                #[trigger] rest[i],
            ) is Ok by {
                assert(rest[i] == device.replies[i + 1]);
            }
            lemma_replies(received.reply_handled(device.replies[0], now), now);
        }
    }
}

/// An ideal device never causes a fault: whatever is commanded, a cycle counts none.
pub proof fn law_ideal_device_causes_no_fault(handler: MgtHandlerModel, now: nat)
    requires
        is_undisturbed(handler),
    ensures
        is_undisturbed(handler.cycled(now)),
        handler.cycled(now).device.fdir.counter.fault_count
            <= handler.device.fdir.counter.fault_count,
{
    lemma_tcs((MgtHandlerModel { tcs: Seq::empty(), ..handler }), handler.tcs, now);
    let commanded = handler.tcs_handled(now);
    lemma_mode_requests(
        (MgtHandlerModel { mode_requests: Seq::empty(), ..commanded }),
        commanded.mode_requests,
        now,
    );
    let supervised = commanded.mode_requests_handled(now).fdir_cycled(now);
    let driven = supervised.mode_handled(now);
    assert(is_undisturbed(driven));
    assert(driven.device.fdir.counter.fault_count <= supervised.device.fdir.counter.fault_count);
    lemma_replies(driven, now);
    let answered = driven.replies_handled(now);
    law_request_roundtrip(sim_mgt::Request::RequestHk);
    let waiting = MgtHandlerModel { awaiting_reply: true, ..answered };
    let quiet = MgtHandlerModel { awaiting_reply: false, ..answered };
    lemma_frame_sent(quiet, sim_mgt::Request::RequestHk.frame(), now);
    assert(waiting.frame_sent(sim_mgt::Request::RequestHk.frame(), now).link == quiet.frame_sent(
        sim_mgt::Request::RequestHk.frame(),
        now,
    ).link);
}

/// Telecommands keep the invariants of mode transitions, and send no FDIR events.
proof fn lemma_tcs_keep_modes(handler: MgtHandlerModel, tcs: Seq<Telecommand<Request>>, now: nat)
    requires
        handler.device.modes.inv(),
    ensures
        handler.after_tcs(tcs, now).device.modes.inv(),
        handler.after_tcs(tcs, now).device.fdir.events == handler.device.fdir.events,
    decreases tcs.len(),
{
    if tcs.len() > 0 {
        lemma_tcs_keep_modes(handler.tc_handled(tcs[0], now), tcs.drop_first(), now);
    }
}

/// Mode requests keep the invariants of mode transitions, and send no FDIR events.
proof fn lemma_mode_requests_keep_modes(
    handler: MgtHandlerModel,
    requests: Seq<ModeRequest>,
    now: nat,
)
    requires
        handler.device.modes.inv(),
    ensures
        handler.after_mode_requests(requests, now).device.modes.inv(),
        handler.after_mode_requests(requests, now).device.fdir.events
            == handler.device.fdir.events,
    decreases requests.len(),
{
    if requests.len() > 0 {
        lemma_mode_requests_keep_modes(
            handler.mode_request_handled(requests[0], now),
            requests.drop_first(),
            now,
        );
    }
}

/// The turn of the FDIR keeps the invariants of mode transitions, and leaves no FDIR event.
proof fn lemma_fdir_cycled(handler: MgtHandlerModel, now: nat)
    requires
        handler.device.modes.inv(),
    ensures
        handler.fdir_cycled(now).device.modes.inv(),
        handler.fdir_cycled(now).device.fdir.events.len() == 0,
{
}

/// Driving the mode transition keeps its invariants, and leaves no FDIR event.
proof fn lemma_mode_handled(handler: MgtHandlerModel, now: nat)
    requires
        handler.device.modes.inv(),
        handler.device.fdir.events.len() == 0,
    ensures
        handler.mode_handled(now).device.modes.inv(),
        handler.mode_handled(now).device.fdir.events.len() == 0,
{
    assert(handler.device.modes.handled(now).inv());
}

/// A communication fault keeps the invariants of mode transitions, and leaves no FDIR event.
proof fn lemma_comm_failed(handler: MgtHandlerModel, now: nat)
    requires
        handler.device.modes.inv(),
    ensures
        handler.comm_failed(now).device.modes.inv(),
        handler.comm_failed(now).device.fdir.events.len() == 0,
{
    assert(handler.device.after_fault(now).modes.inv());
}

/// Replies keep the invariants of mode transitions, and leave no FDIR event.
proof fn lemma_replies_keep_modes(handler: MgtHandlerModel, now: nat)
    requires
        handler.device.modes.inv(),
        handler.device.fdir.events.len() == 0,
    ensures
        handler.replies_handled(now).device.modes.inv(),
        handler.replies_handled(now).device.fdir.events.len() == 0,
    decreases handler.link.pending(),
{
    let received = MgtHandlerModel { link: handler.link.received(), ..handler };
    if let Some(frame) = handler.link.next_frame() {
        lemma_comm_failed((MgtHandlerModel { awaiting_reply: false, ..received }), now);
        lemma_replies_keep_modes(received.reply_handled(frame, now), now);
    }
}

/// A cycle keeps the invariants of mode transitions, and leaves no FDIR event behind.
pub proof fn law_cycle_invariants(handler: MgtHandlerModel, now: nat)
    requires
        handler.device.modes.inv(),
    ensures
        handler.cycled(now).device.modes.inv(),
        handler.cycled(now).device.fdir.events.len() == 0,
{
    lemma_tcs_keep_modes((MgtHandlerModel { tcs: Seq::empty(), ..handler }), handler.tcs, now);
    let commanded = handler.tcs_handled(now);
    lemma_mode_requests_keep_modes(
        (MgtHandlerModel { mode_requests: Seq::empty(), ..commanded }),
        commanded.mode_requests,
        now,
    );
    let requested = commanded.mode_requests_handled(now);
    lemma_fdir_cycled(requested, now);
    let supervised = requested.fdir_cycled(now);
    lemma_mode_handled(supervised, now);
    let driven = supervised.mode_handled(now);
    lemma_replies_keep_modes(driven, now);
    lemma_comm_failed(driven.replies_handled(now), now);
}

} // verus!
