//! Laws on the commands, the telemetry and the events of the magnetorquer handler.

use vstd::prelude::*;

use crate::acs::mgt::{torque_frame, DummyModel, LinkModel, MgtHandlerModel};
use crate::acs::mgt_laws::law_ideal_device_replies_once;
use crate::acs::Telecommand;
use crate::device_fdir::{FdirEvent, SupervisedModel};
use crate::device_fdir_laws::law_power_cycle_is_retried;
use crate::device_mode::{lemma_device_mode_off, ModeModel, ModeTransitionEvent};
use crate::eps::PowerModel;
use crate::fdir::RecoveryEvent;
use crate::health::HealthState;
use crate::hk::HkModel;
use crate::minisim::acs::mgt as sim_mgt;
use crate::minisim::acs::mgt_laws::{
    holds_dipole, law_reply_layout, law_reply_roundtrip, law_request_layout,
    law_request_roundtrip,
};
use crate::minisim::SimReply;
use crate::time::{Clock, Duration};
use crate::types::acs::mgt::request::{HealthRequest, ModeRequest, Request};
use crate::types::acs::mgt::response::{ModeResponse, Response};
use crate::types::acs::mgt::{Dipole, Event};
use crate::types::ccsds::CcsdsPacketIdAndPsc;
use crate::types::pcdu::{SwitchId, SwitchRequest, SwitchStateBinary};
use crate::types::{ComponentId, DeviceMode, HkRequestType};

verus! {

/// Telemetry with housekeeping data, value by value.
pub open spec fn shows_hk(
    tm: (Option<CcsdsPacketIdAndPsc>, Response),
    valid: bool,
    x: i16,
    y: i16,
    z: i16,
    torquing: bool,
) -> bool {
    match tm.1 {
        Response::Hk(set) => {
            &&& set.valid == valid
            &&& set.dipole.x == x
            &&& set.dipole.y == y
            &&& set.dipole.z == z
            &&& set.torquing == torquing
        },
        _ => false,
    }
}

/// A response to a telecommand with the given header.
pub open spec fn answers(
    tm: (Option<CcsdsPacketIdAndPsc>, Response),
    tc: Telecommand<Request>,
) -> bool {
    match tm.0 {
        Some(id) => id.packet_id == tc.sp_header.packet_id && id.psc == tc.sp_header.psc,
        None => false,
    }
}

/// A one shot HK request is answered with exactly one telemetry entry, which shows the HK data of
/// the handler value by value. Nothing else changes.
pub proof fn law_one_shot_shows_hk(handler: MgtHandlerModel, tc: Telecommand<Request>, now: nat)
    requires
        tc.request == Some(Request::Hk(HkRequestType::OneShot)),
    ensures
        ({
            let after = handler.tc_handled(tc, now);
            let set = handler.set;
            &&& after.tms.len() == handler.tms.len() + 1
            &&& after.tms.drop_last() == handler.tms
            &&& answers(after.tms.last(), tc)
            &&& shows_hk(
                after.tms.last(),
                set.valid,
                set.dipole.x,
                set.dipole.y,
                set.dipole.z,
                set.torquing,
            )
            &&& (MgtHandlerModel { tms: handler.tms, ..after }) == handler
        }),
{
    assert(handler.tc_handled(tc, now).tms.drop_last() =~= handler.tms);
}

/// The handler with other HK settings.
pub open spec fn with_hk(handler: MgtHandlerModel, hk: HkModel) -> MgtHandlerModel {
    MgtHandlerModel { hk, ..handler }
}

/// Mode requests do not depend on the HK settings.
proof fn lemma_mode_requests_ignore_hk(
    handler: MgtHandlerModel,
    requests: Seq<ModeRequest>,
    hk: HkModel,
    now: nat,
)
    ensures
        with_hk(handler, hk).after_mode_requests(requests, now) == with_hk(
            handler.after_mode_requests(requests, now),
            hk,
        ),
        handler.after_mode_requests(requests, now).hk == handler.hk,
    decreases requests.len(),
{
    if requests.len() > 0 {
        let next = handler.mode_request_handled(requests[0], now);
        assert(with_hk(handler, hk).mode_request_handled(requests[0], now) == with_hk(next, hk));
        lemma_mode_requests_ignore_hk(next, requests.drop_first(), hk, now);
    }
}

/// The FDIR does not depend on the HK settings.
proof fn lemma_fdir_ignores_hk(handler: MgtHandlerModel, hk: HkModel, now: nat)
    ensures
        with_hk(handler, hk).fdir_cycled(now) == with_hk(handler.fdir_cycled(now), hk),
        handler.fdir_cycled(now).hk == handler.hk,
        with_hk(handler, hk).comm_failed(now) == with_hk(handler.comm_failed(now), hk),
        handler.comm_failed(now).hk == handler.hk,
{
}

/// Mode transitions do not depend on the HK settings.
proof fn lemma_modes_ignore_hk(handler: MgtHandlerModel, hk: HkModel, now: nat)
    ensures
        with_hk(handler, hk).mode_handled(now) == with_hk(handler.mode_handled(now), hk),
        handler.mode_handled(now).hk == handler.hk,
{
}

/// Replies do not depend on the HK settings.
proof fn lemma_replies_ignore_hk(handler: MgtHandlerModel, hk: HkModel, now: nat)
    ensures
        with_hk(handler, hk).replies_handled(now) == with_hk(handler.replies_handled(now), hk),
        handler.replies_handled(now).hk == handler.hk,
    decreases handler.link.pending(),
{
    if let Some(frame) = handler.link.next_frame() {
        let received = MgtHandlerModel { link: handler.link.received(), ..handler };
        lemma_fdir_ignores_hk((MgtHandlerModel { awaiting_reply: false, ..received }), hk, now);
        let next = received.reply_handled(frame, now);
        assert(with_hk(received, hk).reply_handled(frame, now) == with_hk(next, hk));
        assert(next.link == received.link);
        lemma_replies_ignore_hk(next, hk, now);
    }
}

/// A poll does not depend on the HK settings.
proof fn lemma_poll_ignores_hk(handler: MgtHandlerModel, hk: HkModel, now: nat)
    ensures
        with_hk(handler, hk).poll_checked(now) == with_hk(handler.poll_checked(now), hk),
        handler.poll_checked(now).hk == handler.hk,
{
    lemma_fdir_ignores_hk(handler, hk, now);
}

/// The mode requests of the parent do not depend on the HK settings.
proof fn lemma_parent_ignores_hk(handler: MgtHandlerModel, hk: HkModel, now: nat)
    ensures
        with_hk(handler, hk).mode_requests_handled(now) == with_hk(
            handler.mode_requests_handled(now),
            hk,
        ),
        handler.mode_requests_handled(now).hk == handler.hk,
{
    let emptied = MgtHandlerModel { mode_requests: Seq::empty(), ..handler };
    lemma_mode_requests_ignore_hk(emptied, handler.mode_requests, hk, now);
}

/// The handler in a cycle without telecommands, before periodic HK data is checked.
#[verifier::opaque]
spec fn before_hk(handler: MgtHandlerModel, now: nat) -> MgtHandlerModel {
    handler.mode_requests_handled(now).fdir_cycled(now).mode_handled(now).replies_handled(
        now,
    ).poll_checked(now)
}

/// Nothing before the check for periodic HK data depends on the HK settings.
proof fn lemma_cycle_ignores_hk(handler: MgtHandlerModel, hk: HkModel, now: nat)
    ensures
        before_hk(with_hk(handler, hk), now) == with_hk(before_hk(handler, now), hk),
        before_hk(handler, now).hk == handler.hk,
{
    reveal(before_hk);
    lemma_parent_ignores_hk(handler, hk, now);
    let requested = handler.mode_requests_handled(now);
    lemma_fdir_ignores_hk(requested, hk, now);
    let turned = requested.fdir_cycled(now);
    lemma_modes_ignore_hk(turned, hk, now);
    let driven = turned.mode_handled(now);
    lemma_replies_ignore_hk(driven, hk, now);
    lemma_poll_ignores_hk(driven.replies_handled(now), hk, now);
}

/// A cycle ends with the check for periodic HK data.
proof fn lemma_hk_ends_cycle(handler: MgtHandlerModel, now: nat)
    requires
        handler.tcs.len() == 0,
    ensures
        handler.cycled(now) == before_hk(handler, now).hk_checked(now),
{
    reveal(before_hk);
    assert(handler.tcs =~= Seq::empty());
    assert(handler.tcs_handled(now) == handler);
}

/// Periodic HK data is one entry which shows the HK data, and none if it is disabled.
proof fn lemma_hk_is_one_entry(handler: MgtHandlerModel, hk: HkModel, now: nat)
    requires
        !hk.enabled,
    ensures
        ({
            let silent = with_hk(handler, hk).hk_checked(now);
            let after = handler.hk_checked(now);
            let set = handler.set;
            &&& silent.tms == handler.tms
            &&& silent.set == set
            &&& after.set == set
            &&& handler.hk.due(now) ==> {
                &&& after.tms.len() == handler.tms.len() + 1
                &&& after.tms.drop_last() == handler.tms
                &&& after.tms.last().0 is None
                &&& shows_hk(
                    after.tms.last(),
                    set.valid,
                    set.dipole.x,
                    set.dipole.y,
                    set.dipole.z,
                    set.torquing,
                )
                &&& after.hk.last == Some(now)
            }
            &&& !handler.hk.due(now) ==> after == handler
        }),
{
    if handler.hk.due(now) {
        assert(handler.hk_checked(now).tms.drop_last() =~= handler.tms);
    }
}

/// If periodic HK data is due in a cycle, the cycle appends exactly one telemetry entry to what it
/// sends otherwise. The entry belongs to no telecommand and shows the HK data which the handler
/// holds then, value by value.
pub proof fn law_periodic_hk_shows_held_data(handler: MgtHandlerModel, now: nat)
    requires
        handler.tcs.len() == 0,
    ensures
        ({
            let silent = with_hk(handler, HkModel { enabled: false, ..handler.hk }).cycled(now);
            let after = handler.cycled(now);
            let set = after.set;
            &&& after.set == silent.set
            &&& handler.hk.due(now) ==> {
                &&& after.tms.len() == silent.tms.len() + 1
                &&& after.tms.drop_last() == silent.tms
                &&& after.tms.last().0 is None
                &&& shows_hk(
                    after.tms.last(),
                    set.valid,
                    set.dipole.x,
                    set.dipole.y,
                    set.dipole.z,
                    set.torquing,
                )
                &&& after.hk.last == Some(now)
            }
            &&& !handler.hk.due(now) ==> after.tms == silent.tms && after.hk == handler.hk
        }),
{
    let hk = HkModel { enabled: false, ..handler.hk };
    let held = before_hk(handler, now);
    lemma_cycle_ignores_hk(handler, hk, now);
    lemma_hk_ends_cycle(handler, now);
    lemma_hk_ends_cycle(with_hk(handler, hk), now);
    lemma_hk_is_one_entry(held, hk, now);
}

/// The only message on its way to the handler is a certain frame of the device.
pub open spec fn only_reply(link: LinkModel, frame: Seq<u8>) -> bool {
    match link {
        LinkModel::Dummy(device) => device.replies == seq![frame],
        LinkModel::Test { replies, .. } => replies == seq![frame],
        LinkModel::Sim { replies, .. } => {
            &&& replies.len() == 1
            &&& replies[0] matches SimReply::Mgt(bytes) && bytes@ == frame
        },
    }
}

/// What the device replies is what ground gets: HK data which is due in the cycle of a reply, and
/// HK data which is requested later, shows the values of the reply and is marked as valid. The
/// reply is no fault, and the device is polled again.
pub proof fn law_reply_reaches_ground(
    handler: MgtHandlerModel,
    hk: sim_mgt::HkSet,
    tc: Telecommand<Request>,
    now: nat,
    later: nat,
)
    requires
        handler.tcs.len() == 0,
        handler.mode_requests.len() == 0,
        handler.device.fdir.events.len() == 0,
        handler.device.fdir.recovery.health() != Some(HealthState::NeedsRecovery),
        handler.device.modes.current == DeviceMode::Normal,
        handler.device.modes.target is None,
        handler.device.modes.cycle is Idle,
        only_reply(handler.link, sim_mgt::Reply::Hk(hk).frame()),
        tc.request == Some(Request::Hk(HkRequestType::OneShot)),
    ensures
        ({
            let after = handler.cycled(now);
            let requested = after.tc_handled(tc, later);
            &&& handler.hk.due(now) ==> {
                &&& after.tms.len() == handler.tms.len() + 1
                &&& after.tms.last().0 is None
                &&& shows_hk(
                    after.tms.last(),
                    true,
                    hk.dipole.x,
                    hk.dipole.y,
                    hk.dipole.z,
                    hk.torquing,
                )
            }
            &&& !handler.hk.due(now) ==> after.tms == handler.tms
            &&& shows_hk(
                requested.tms.last(),
                true,
                hk.dipole.x,
                hk.dipole.y,
                hk.dipole.z,
                hk.torquing,
            )
            &&& after.device.fdir.counter.fault_count <= handler.device.fdir.counter.fault_count
            &&& after.events == handler.events
            &&& after.awaiting_reply
        }),
{
    let frame = sim_mgt::Reply::Hk(hk).frame();
    law_reply_roundtrip(sim_mgt::Reply::Hk(hk));
    assert(handler.tcs =~= Seq::empty());
    assert(handler.mode_requests =~= Seq::empty());
    assert(handler.tcs_handled(now) == handler);
    assert(handler.mode_requests_handled(now) == handler);
    let turned = handler.fdir_cycled(now);
    assert(turned.set == handler.set) by {
        assert(handler.device.cycled(now).fdir.events =~= Seq::empty());
    }
    assert(turned.events =~= handler.events);
    assert(turned.device.modes == handler.device.modes);
    let driven = turned.mode_handled(now);
    assert(driven == turned);
    assert(driven.link.next_frame() == Some(frame));
    let received = MgtHandlerModel { link: driven.link.received(), ..driven };
    assert(received.link.pending() == 0);
    let handled = received.reply_handled(frame, now);
    reveal_with_fuel(MgtHandlerModel::replies_handled, 2);
    assert(driven.replies_handled(now) == handled);
    let polled = handled.poll_checked(now);
    assert(polled.set == handled.set);
    law_one_shot_shows_hk(handler.cycled(now), tc, later);
}

/// An acknowledge only shows that the device is there: the HK data stays the same.
pub proof fn law_acknowledge_is_no_data(handler: MgtHandlerModel, now: nat)
    ensures
        ({
            let after = handler.reply_handled(seq![0x82u8], now);
            &&& after.set == handler.set
            &&& !after.awaiting_reply
            &&& after.tms == handler.tms
            &&& after.events == handler.events
            &&& after.link == handler.link
            &&& after.device == handler.comm_succeeded(now).device
            &&& after.device.modes == handler.device.modes
            &&& after.device.fdir.counter.fault_count <= handler.device.fdir.counter.fault_count
        }),
{
}

/// A valid reply forgets a fault once the decrement interval passed, and none before.
pub proof fn law_valid_reply_forgets_faults(
    handler: MgtHandlerModel,
    frame: Seq<u8>,
    last: nat,
    now: nat,
)
    requires
        sim_mgt::Reply::of_frame(frame) is Ok,
        handler.device.fdir.counter.last_decrement == Some(last),
        handler.device.fdir.counter.decrement_after > 0,
    ensures
        ({
            let before = handler.device.fdir.counter;
            let after = handler.reply_handled(frame, now);
            &&& after.device.fdir.counter.fault_count == (if before.fault_count > 0 && last
                + before.decrement_after <= now {
                before.fault_count - 1
            } else {
                before.fault_count as int
            })
            &&& after.device.fdir.recovery == handler.device.fdir.recovery
            &&& after.events == handler.events
            &&& !after.awaiting_reply
        }),
{
}

/// HK data of the device replaces all values of the HK data, and is valid.
pub proof fn law_reply_is_stored(handler: MgtHandlerModel, hk: sim_mgt::HkSet, now: nat)
    ensures
        ({
            let after = handler.reply_handled(sim_mgt::Reply::Hk(hk).frame(), now);
            &&& after.set.valid
            &&& after.set.dipole.x == hk.dipole.x
            &&& after.set.dipole.y == hk.dipole.y
            &&& after.set.dipole.z == hk.dipole.z
            &&& after.set.torquing == hk.torquing
            &&& after.tms == handler.tms
            &&& after.link == handler.link
        }),
{
    law_reply_roundtrip(sim_mgt::Reply::Hk(hk));
}

/// A poll which was not answered is a fault, an answered one is not. Either way, the device is
/// polled again, and telemetry is not sent.
pub proof fn law_unanswered_poll_is_a_fault(handler: MgtHandlerModel, now: nat)
    ensures
        ({
            let after = handler.polled(now);
            &&& !handler.awaiting_reply ==> after.set == handler.set && after.device
                == handler.device && after.events == handler.events
            &&& handler.awaiting_reply ==> {
                &&& !after.set.valid
                &&& after.set.dipole == handler.set.dipole
                &&& after.set.torquing == handler.set.torquing
                &&& after.device.fdir.counter.fault_count == handler.device.fdir.counter.fault_count
                    + 1 || after.device.fdir.counter.fault_count == 0
            }
            &&& after.awaiting_reply
            &&& after.tms == handler.tms
            &&& after.hk == handler.hk
        }),
{
}

/// One fault more than the threshold tolerates power cycles a healthy device: two events are sent,
/// the component needs a recovery and the HK data is invalid. To other components, the device stays
/// in its mode.
pub proof fn law_silent_device_is_power_cycled(handler: MgtHandlerModel, now: nat)
    requires
        handler.awaiting_reply,
        handler.device.fdir.counter.fault_count >= handler.device.fdir.counter.failure_threshold,
        handler.device.fdir.recovery.counter.fault_count
            < handler.device.fdir.recovery.counter.failure_threshold,
        handler.device.fdir.recovery.health() is None || handler.device.fdir.recovery.health()
            == Some(HealthState::Healthy),
        handler.device.fdir.events.len() == 0,
        handler.device.modes.current == DeviceMode::Normal,
        handler.device.modes.target is None,
        handler.device.modes.cycle is Idle,
    ensures
        ({
            let after = handler.polled(now);
            &&& after.events == handler.events.push(Event::CommFaultThresholdExceeded).push(
                Event::Recovery(RecoveryEvent::Started),
            )
            &&& after.device.fdir.recovery.health() == Some(HealthState::NeedsRecovery)
            &&& after.device.modes.target == Some(DeviceMode::Off)
            &&& after.device.modes.reported_mode() == DeviceMode::Normal
            &&& after.device.modes.off_duration == handler.device.fdir.off_duration
            &&& !after.set.valid
        }),
{
    lemma_device_mode_off();
    let faulted = handler.device.after_fault(now);
    let queued = faulted.fdir.events;
    assert(queued =~= seq![
        FdirEvent::FaultThresholdExceeded,
        FdirEvent::Recovery(RecoveryEvent::Started),
    ]);
    assert(handler.comm_failed(now).events =~= handler.events.push(
        Event::CommFaultThresholdExceeded,
    ).push(Event::Recovery(RecoveryEvent::Started)));
}

/// A ping is answered once, and a telecommand which could not be decoded has no effect.
pub proof fn law_ping_is_answered(handler: MgtHandlerModel, tc: Telecommand<Request>, now: nat)
    ensures
        tc.request == Some(Request::Ping) ==> handler.tc_handled(tc, now) == (MgtHandlerModel {
            tms: handler.tms.push(
                (
                    Some(
                        CcsdsPacketIdAndPsc {
                            packet_id: tc.sp_header.packet_id,
                            psc: tc.sp_header.psc,
                        },
                    ),
                    Response::Success,
                ),
            ),
            ..handler
        }),
        tc.request is None ==> handler.tc_handled(tc, now) == handler,
{
}

/// Any HK request but a one shot one only changes the HK settings: there is no telemetry.
pub proof fn law_hk_settings_are_commanded(
    handler: MgtHandlerModel,
    tc: Telecommand<Request>,
    request: HkRequestType,
    now: nat,
)
    requires
        tc.request == Some(Request::Hk(request)),
        request != HkRequestType::OneShot,
    ensures
        ({
            let after = handler.tc_handled(tc, now);
            &&& (MgtHandlerModel { hk: handler.hk, ..after }) == handler
            &&& after.hk.last == handler.hk.last
            &&& after.hk.enabled == match request {
                HkRequestType::EnablePeriodic(_) => true,
                HkRequestType::DisablePeriodic => false,
                _ => handler.hk.enabled,
            }
            &&& after.hk.frequency == match request {
                HkRequestType::EnablePeriodic(Some(interval)) => interval.nanos as nat,
                HkRequestType::ModifyInterval(interval) => interval.nanos as nat,
                _ => handler.hk.frequency,
            }
        }),
{
}

/// A commanded health is stored for the component of the device alone, and confirmed once. Nothing
/// else changes.
pub proof fn law_health_is_commanded(
    handler: MgtHandlerModel,
    tc: Telecommand<Request>,
    health: HealthState,
    now: nat,
)
    requires
        tc.request == Some(Request::Health(HealthRequest::SetHealth(health))),
    ensures
        ({
            let after = handler.tc_handled(tc, now);
            let recovery = handler.device.fdir.recovery;
            &&& after.tms.drop_last() == handler.tms
            &&& after.tms.len() == handler.tms.len() + 1
            &&& answers(after.tms.last(), tc)
            &&& after.tms.last().1 == Response::Success
            &&& after.device.fdir.recovery.entries == recovery.entries.insert(recovery.id, health)
            &&& after.device.fdir.recovery.counter == recovery.counter
            &&& after.device.fdir.counter == handler.device.fdir.counter
            &&& after.device.fdir.events == handler.device.fdir.events
            &&& after.device.modes == handler.device.modes
            &&& (MgtHandlerModel { tms: handler.tms, device: handler.device, ..after }) == handler
        }),
{
    assert(handler.tc_handled(tc, now).tms.drop_last() =~= handler.tms);
}

/// A commanded mode becomes the target of a transition which starts now, on behalf of the
/// telecommand. It is not answered before the transition ends. Switching off resets the HK data.
pub proof fn law_mode_is_commanded(
    handler: MgtHandlerModel,
    tc: Telecommand<Request>,
    mode: DeviceMode,
    now: nat,
)
    requires
        tc.request == Some(Request::Mode(ModeRequest::SetMode(mode))),
    ensures
        ({
            let after = handler.tc_handled(tc, now);
            let modes = after.device.modes;
            &&& modes.target == Some(mode)
            &&& modes.commander == Some(
                CcsdsPacketIdAndPsc {
                    packet_id: tc.sp_header.packet_id,
                    psc: tc.sp_header.psc,
                },
            )
            &&& modes.started == Some(now)
            &&& modes.cycle is Idle
            &&& modes.current == handler.device.modes.current
            &&& modes.power == handler.device.modes.power
            &&& mode != DeviceMode::Off ==> after.set == handler.set
            &&& mode == DeviceMode::Off ==> {
                &&& !after.set.valid
                &&& after.set.dipole == (Dipole { x: 0, y: 0, z: 0 })
                &&& !after.set.torquing
            }
            &&& handler.device.modes.cycle is Idle ==> after.device.fdir == handler.device.fdir
            &&& (MgtHandlerModel { set: handler.set, device: handler.device, ..after }) == handler
        }),
{
}

/// A request to read the mode is answered with it, once. Nothing else changes. A power cycle is
/// hidden: the mode which is restored counts.
pub proof fn law_mode_is_read(handler: MgtHandlerModel, tc: Telecommand<Request>, now: nat)
    requires
        tc.request == Some(Request::Mode(ModeRequest::ReadMode)),
    ensures
        ({
            let after = handler.tc_handled(tc, now);
            &&& after.tms.drop_last() == handler.tms
            &&& after.tms.len() == handler.tms.len() + 1
            &&& answers(after.tms.last(), tc)
            &&& handler.device.modes.cycle is Idle ==> after.tms.last().1 == Response::Mode(
                ModeResponse::Mode(handler.device.modes.current),
            )
            &&& (MgtHandlerModel { tms: handler.tms, ..after }) == handler
        }),
        ({
            let cycling = |restore_mode: DeviceMode, off_duration: nat, start: nat|
                MgtHandlerModel {
                    device: SupervisedModel {
                        modes: handler.device.modes.power_cycle_started(
                            restore_mode,
                            off_duration,
                            start,
                        ),
                        ..handler.device
                    },
                    ..handler
                };
            forall|restore_mode: DeviceMode, off_duration: nat, start: nat|
                (#[trigger] cycling(restore_mode, off_duration, start)).tc_handled(
                    tc,
                    now,
                ).tms.last().1 == Response::Mode(ModeResponse::Mode(restore_mode))
        }),
{
    assert(handler.tc_handled(tc, now).tms.drop_last() =~= handler.tms);
}

/// The parent commands and reads modes like ground does, but gets reports and no telemetry.
pub proof fn law_parent_commands_modes(handler: MgtHandlerModel, mode: DeviceMode, now: nat)
    ensures
        ({
            let after = handler.mode_request_handled(ModeRequest::SetMode(mode), now);
            let modes = after.device.modes;
            &&& modes.target == Some(mode)
            &&& modes.commander is None
            &&& modes.started == Some(now)
            &&& modes.cycle is Idle
            &&& modes.current == handler.device.modes.current
            &&& modes.power == handler.device.modes.power
            &&& mode != DeviceMode::Off ==> after.set == handler.set
            &&& mode == DeviceMode::Off ==> !after.set.valid
            &&& (MgtHandlerModel { set: handler.set, device: handler.device, ..after }) == handler
        }),
        handler.device.modes.cycle is Idle ==> handler.mode_request_handled(
            ModeRequest::ReadMode,
            now,
        ) == (MgtHandlerModel {
            mode_reports: handler.mode_reports.push(
                ModeResponse::Mode(handler.device.modes.current),
            ),
            ..handler
        }),
{
}

/// A torque command which is accepted is sent to the device as one frame with the commanded dipole
/// and duration, and confirmed once. Any other one is not sent.
pub proof fn law_torque_command_is_passed_on(
    handler: MgtHandlerModel,
    tc: Telecommand<Request>,
    dipole: Dipole,
    duration: Duration,
    now: nat,
)
    requires
        tc.request == Some((Request::ApplyTorque { dipole, duration })),
    ensures
        ({
            let after = handler.tc_handled(tc, now);
            let accepted = handler.device.modes.current == DeviceMode::Normal
                && handler.device.modes.target is None;
            let frame = torque_frame(dipole, duration);
            let millis = frame[7] * 0x100_0000 + frame[8] * 0x1_0000 + frame[9] * 0x100
                + frame[10];
            &&& frame.len() == 11
            &&& frame[0] == 0x02
            &&& holds_dipole(
                frame,
                1,
                sim_mgt::Dipole { x: dipole.x, y: dipole.y, z: dipole.z },
            )
            &&& duration.nanos < 0x1_0000_0000 * 1_000_000 ==> millis * 1_000_000 <= duration.nanos
                < (millis + 1) * 1_000_000
            &&& duration.nanos >= 0x1_0000_0000 * 1_000_000 ==> millis == 0xffff_ffff
            &&& !accepted ==> after.link == handler.link
            &&& accepted ==> match handler.link {
                LinkModel::Test { sent, replies } => after.link == (LinkModel::Test {
                    sent: sent.push(frame),
                    replies,
                }),
                LinkModel::Sim { requests, replies } => after.link == (LinkModel::Sim {
                    requests: requests.push(Some(frame)),
                    replies,
                }),
                LinkModel::Dummy(device) => after.link == LinkModel::Dummy(
                    device.sent(frame, now),
                ),
            }
            &&& after.tms.drop_last() == handler.tms
            &&& after.tms.len() == handler.tms.len() + 1
            &&& answers(after.tms.last(), tc)
            &&& after.tms.last().1 == (if accepted {
                Response::Success
            } else {
                Response::NotInNormalMode
            })
            &&& (MgtHandlerModel { tms: handler.tms, link: handler.link, ..after }) == handler
        }),
{
    law_request_layout(duration, sim_mgt::Dipole { x: dipole.x, y: dipole.y, z: dipole.z });
    assert(handler.tc_handled(tc, now).tms.drop_last() =~= handler.tms);
}

/// The device is polled with one frame which asks for HK data.
pub proof fn law_poll_asks_for_hk(handler: MgtHandlerModel, now: nat)
    ensures
        match handler.link {
            LinkModel::Test { sent, replies } => handler.polled(now).link == (LinkModel::Test {
                sent: sent.push(seq![0x01u8]),
                replies,
            }),
            LinkModel::Sim { requests, replies } => handler.polled(now).link == (LinkModel::Sim {
                requests: requests.push(Some(seq![0x01u8])),
                replies,
            }),
            LinkModel::Dummy(device) => handler.polled(now).link == LinkModel::Dummy(
                device.sent(seq![0x01u8], now),
            ),
        },
{
}

/// Replies are received in the order in which they arrived. Messages of other devices are dropped.
pub proof fn law_replies_are_received_in_order(
    frame: Seq<u8>,
    rest: Seq<Seq<u8>>,
    sent: Seq<Seq<u8>>,
    device: DummyModel,
    message: SimReply,
    messages: Seq<SimReply>,
    requests: Seq<Option<Seq<u8>>>,
)
    ensures
        ({
            let test = LinkModel::Test { sent, replies: seq![frame] + rest };
            let dummy = LinkModel::Dummy(DummyModel { replies: seq![frame] + rest, ..device });
            let sim = LinkModel::Sim { requests, replies: seq![message] + messages };
            &&& test.next_frame() == Some(frame)
            &&& test.received() == (LinkModel::Test { sent, replies: rest })
            &&& dummy.next_frame() == Some(frame)
            &&& dummy.received() == LinkModel::Dummy(DummyModel { replies: rest, ..device })
            &&& sim.received() == (LinkModel::Sim { requests, replies: messages })
            &&& match message {
                SimReply::Mgt(bytes) => sim.next_frame() == Some(bytes@),
                _ => sim.next_frame() is None,
            }
        }),
{
    assert((seq![frame] + rest).drop_first() =~= rest);
    assert((seq![message] + messages).drop_first() =~= messages);
}

/// An ideal device acknowledges a torque command and stores it. It answers a request for HK data
/// with what it does: the dipole of the command while it torques, none otherwise.
pub proof fn law_ideal_device_answers(
    device: DummyModel,
    dipole: Dipole,
    duration: Duration,
    now: nat,
)
    ensures
        ({
            let torqued = device.sent(torque_frame(dipole, duration), now);
            &&& torqued.replies == device.replies.push(seq![0x82u8])
            &&& torqued.dipole.x == dipole.x
            &&& torqued.dipole.y == dipole.y
            &&& torqued.dipole.z == dipole.z
            &&& torqued.torque matches Some((start, _)) && start == now
        }),
        ({
            let asked = device.sent(seq![0x01u8], now);
            let frame = asked.replies.last();
            let torquing = device.torque matches Some((start, length)) && now < start + length
                && length > 0;
            &&& asked.replies.drop_last() == device.replies
            &&& asked.replies.len() == device.replies.len() + 1
            &&& frame.len() == 8
            &&& frame[0] == 0x81
            &&& holds_dipole(
                frame,
                1,
                if torquing {
                    device.dipole
                } else {
                    sim_mgt::Dipole { x: 0, y: 0, z: 0 }
                },
            )
            &&& frame[7] == (if torquing {
                1u8
            } else {
                0u8
            })
            &&& asked.dipole == device.dipole
            &&& asked.torque == device.torque
        }),
{
    let sim_dipole = sim_mgt::Dipole { x: dipole.x, y: dipole.y, z: dipole.z };
    law_request_roundtrip((sim_mgt::Request::ApplyTorque { duration, dipole: sim_dipole }));
    law_request_roundtrip(sim_mgt::Request::RequestHk);
    assert(sim_mgt::Request::RequestHk.frame() == seq![0x01u8]);
    law_reply_layout(device.hk(now));
    law_ideal_device_replies_once(device, seq![0x01u8], now);
}

/// Telecommands are executed in their order, the first one first.
pub proof fn law_telecommands_are_executed_in_order(
    handler: MgtHandlerModel,
    tc: Telecommand<Request>,
    tcs: Seq<Telecommand<Request>>,
    now: nat,
)
    ensures
        handler.after_tcs(seq![tc] + tcs, now) == handler.tc_handled(tc, now).after_tcs(tcs, now),
        handler.after_tcs(Seq::empty(), now) == handler,
{
    assert((seq![tc] + tcs).drop_first() =~= tcs);
}

/// Mode requests of the parent are executed in their order, the first one first.
pub proof fn law_mode_requests_are_executed_in_order(
    handler: MgtHandlerModel,
    request: ModeRequest,
    requests: Seq<ModeRequest>,
    now: nat,
)
    ensures
        handler.after_mode_requests(seq![request] + requests, now) == handler.mode_request_handled(
            request,
            now,
        ).after_mode_requests(requests, now),
        handler.after_mode_requests(Seq::empty(), now) == handler,
{
    assert((seq![request] + requests).drop_first() =~= requests);
}

/// No telecommand and no mode request stays in its queue.
pub proof fn law_commands_leave_their_queues(handler: MgtHandlerModel, now: nat)
    ensures
        handler.tcs_handled(now).tcs.len() == 0,
        handler.mode_requests_handled(now).mode_requests.len() == 0,
{
    lemma_tcs_frame(MgtHandlerModel { tcs: Seq::empty(), ..handler }, handler.tcs, now);
    lemma_mode_requests_frame(
        MgtHandlerModel { mode_requests: Seq::empty(), ..handler },
        handler.mode_requests,
        now,
    );
}

/// What telecommands leave alone.
proof fn lemma_tcs_frame(handler: MgtHandlerModel, tcs: Seq<Telecommand<Request>>, now: nat)
    ensures
        handler.after_tcs(tcs, now).tcs == handler.tcs,
    decreases tcs.len(),
{
    if tcs.len() > 0 {
        lemma_tcs_frame(handler.tc_handled(tcs[0], now), tcs.drop_first(), now);
    }
}

/// What mode requests leave alone.
proof fn lemma_mode_requests_frame(handler: MgtHandlerModel, requests: Seq<ModeRequest>, now: nat)
    ensures
        handler.after_mode_requests(requests, now).mode_requests == handler.mode_requests,
    decreases requests.len(),
{
    if requests.len() > 0 {
        lemma_mode_requests_frame(
            handler.mode_request_handled(requests[0], now),
            requests.drop_first(),
            now,
        );
    }
}

/// FDIR events are sent in their order, and leave the queue. The HK data loses its validity exactly
/// if a recovery started or if there were too many.
pub proof fn law_fdir_events_are_sent(handler: MgtHandlerModel, i: int)
    requires
        0 <= i < handler.device.fdir.events.len(),
    ensures
        ({
            let after = handler.fdir_events_sent();
            let queued = handler.device.fdir.events;
            let sent = after.events[handler.events.len() + i];
            &&& after.events.len() == handler.events.len() + queued.len()
            &&& after.events.take(handler.events.len() as int) == handler.events
            &&& queued[i] == FdirEvent::FaultThresholdExceeded ==> sent
                == Event::CommFaultThresholdExceeded
            &&& queued[i] matches FdirEvent::Recovery(event) ==> sent == Event::Recovery(event)
            &&& after.device.fdir.events.len() == 0
            &&& after.device.fdir.recovery == handler.device.fdir.recovery
            &&& after.device.fdir.counter == handler.device.fdir.counter
            &&& after.device.modes == handler.device.modes
            &&& after.set.dipole == handler.set.dipole
            &&& after.set.torquing == handler.set.torquing
            &&& after.set.valid == (handler.set.valid && !queued.contains(
                FdirEvent::Recovery(RecoveryEvent::Started),
            ) && !queued.contains(FdirEvent::Recovery(RecoveryEvent::ThresholdExceeded)))
            &&& after.tms == handler.tms
            &&& after.mode_reports == handler.mode_reports
        }),
{
    let after = handler.fdir_events_sent();
    assert(after.events.take(handler.events.len() as int) =~= handler.events);
}

/// A commanded mode which the switch allows is reached, announced as an event, confirmed to the
/// commander and reported to the parent.
pub proof fn law_commanded_mode_is_confirmed(
    handler: MgtHandlerModel,
    tc: Telecommand<Request>,
    mode: DeviceMode,
    start: nat,
    now: nat,
)
    requires
        tc.request == Some(Request::Mode(ModeRequest::SetMode(mode))),
        handler.device.modes.power.is_switch_on(handler.device.modes.switch_id) == (mode
            != DeviceMode::Off),
    ensures
        ({
            let after = handler.tc_handled(tc, start).mode_handled(now);
            &&& after.device.modes.current == mode
            &&& after.device.modes.target is None
            &&& after.tms.drop_last() == handler.tms
            &&& after.tms.len() == handler.tms.len() + 1
            &&& answers(after.tms.last(), tc)
            &&& after.tms.last().1 == Response::Success
            &&& after.mode_reports == handler.mode_reports.push(ModeResponse::Mode(mode))
            &&& after.events == handler.events.push(Event::ModeChanged(mode))
        }),
{
    let after = handler.tc_handled(tc, start).mode_handled(now);
    assert(after.tms.drop_last() =~= handler.tms);
}

/// A commanded mode which the switch does not reach in time is answered with a timeout, to the
/// commander and to the parent. The mode stays as it was.
pub proof fn law_mode_timeout_is_reported(
    handler: MgtHandlerModel,
    tc: Telecommand<Request>,
    mode: DeviceMode,
    start: nat,
    now: nat,
)
    requires
        tc.request == Some(Request::Mode(ModeRequest::SetMode(mode))),
        handler.device.modes.power.is_switch_on(handler.device.modes.switch_id) != (mode
            != DeviceMode::Off),
        start + handler.device.modes.timeout <= now,
    ensures
        ({
            let after = handler.tc_handled(tc, start).mode_handled(now);
            &&& after.device.modes.current == handler.device.modes.current
            &&& after.device.modes.target is None
            &&& after.tms.drop_last() == handler.tms
            &&& after.tms.len() == handler.tms.len() + 1
            &&& answers(after.tms.last(), tc)
            &&& after.tms.last().1 == Response::Mode(ModeResponse::SetModeTimeout)
            &&& after.mode_reports == handler.mode_reports.push(ModeResponse::SetModeTimeout)
            &&& after.events == handler.events
        }),
{
    let after = handler.tc_handled(tc, start).mode_handled(now);
    assert(after.tms.drop_last() =~= handler.tms);
}

/// A finished transition without a commander is announced and reported, but sends no telemetry.
pub proof fn law_parent_gets_reports_only(handler: MgtHandlerModel, now: nat)
    requires
        handler.device.modes.commander is None,
    ensures
        ({
            let after = handler.mode_handled(now);
            &&& after.tms == handler.tms
            &&& handler.device.modes.handled_event(now) matches Some(
                ModeTransitionEvent::Reached(_),
            ) ==> {
                &&& after.events == handler.events.push(
                    Event::ModeChanged(after.device.modes.current),
                )
                &&& after.device.modes.cycle is Idle ==> after.mode_reports
                    == handler.mode_reports.push(ModeResponse::Mode(after.device.modes.current))
                &&& after.device.fdir == handler.device.fdir
            }
            &&& handler.device.modes.handled_event(now) matches Some(
                ModeTransitionEvent::Failed(_),
            ) ==> {
                &&& after.events == handler.events
                &&& after.mode_reports == handler.mode_reports.push(ModeResponse::SetModeTimeout)
                &&& after.device.fdir == handler.device.fdir
            }
            &&& handler.device.modes.handled_event(now) is None ==> {
                &&& after.events == handler.events
                &&& after.mode_reports == handler.mode_reports
                &&& after.device.fdir == handler.device.fdir
            }
        }),
{
}

/// A completed power cycle makes the device healthy and its fault counter empty. It is announced as
/// an event, but neither ground nor the parent is told a mode.
pub proof fn law_power_cycle_done_is_announced(handler: MgtHandlerModel, now: nat)
    requires
        handler.device.modes.handled_event(now) == Some(
            ModeTransitionEvent::<DeviceMode>::PowerCycleDone,
        ),
        handler.device.fdir.recovery.health() == Some(HealthState::NeedsRecovery),
        handler.device.fdir.events.len() == 0,
    ensures
        ({
            let after = handler.mode_handled(now);
            let recovery = after.device.fdir.recovery;
            &&& recovery.entries == handler.device.fdir.recovery.entries.insert(
                handler.device.fdir.recovery.id,
                HealthState::Healthy,
            )
            &&& after.device.fdir.counter.fault_count == 0
            &&& after.device.fdir.counter.last_decrement is None
            &&& after.events == handler.events.push(Event::Recovery(RecoveryEvent::Done))
            &&& after.tms == handler.tms
            &&& after.mode_reports == handler.mode_reports
            &&& after.set == handler.set
        }),
{
    let done = handler.device.fdir.after_power_cycle_done();
    assert(done.events =~= seq![FdirEvent::Recovery(RecoveryEvent::Done)]);
    assert(handler.mode_handled(now).events =~= handler.events.push(
        Event::Recovery(RecoveryEvent::Done),
    ));
}

/// A recovery which is needed starts in the turn of the FDIR.
proof fn lemma_fdir_starts_recovery(handler: MgtHandlerModel, now: nat)
    requires
        handler.device.fdir.events.len() == 0,
        handler.device.fdir.recovery.health() == Some(HealthState::NeedsRecovery),
        handler.device.modes.target is None,
        handler.device.modes.cycle is Idle,
        handler.device.modes.current != DeviceMode::Off,
    ensures
        ({
            let after = handler.fdir_cycled(now);
            &&& after.device.modes == handler.device.modes.power_cycle_started(
                handler.device.modes.current,
                handler.device.fdir.off_duration,
                now,
            )
            &&& after.device.fdir.off_duration == handler.device.fdir.off_duration
            &&& after.events == handler.events.push(Event::Recovery(RecoveryEvent::Started))
            &&& !after.set.valid
            &&& after.link == handler.link
        }),
{
    let cycled = handler.device.cycled(now);
    assert(cycled.fdir.events =~= seq![FdirEvent::Recovery(RecoveryEvent::Started)]);
    assert(cycled.fdir.events[0] == FdirEvent::Recovery(RecoveryEvent::Started));
    assert(handler.fdir_cycled(now).events =~= handler.events.push(
        Event::Recovery(RecoveryEvent::Started),
    ));
}

/// A power cycle commands the switch off as soon as it is driven.
proof fn lemma_power_cycle_commands_switch(
    handler: MgtHandlerModel,
    modes: ModeModel<DeviceMode>,
    now: nat,
)
    requires
        handler.device.modes == modes.power_cycle_started(
            modes.current,
            handler.device.fdir.off_duration,
            now,
        ),
        modes.timeout > 0,
        modes.power.is_switch_on(modes.switch_id),
    ensures
        ({
            let after = handler.mode_handled(now);
            &&& after.device.modes.power.requests == modes.power.requests.push(
                SwitchRequest {
                    switch_id: modes.switch_id,
                    target_state: SwitchStateBinary::Off,
                },
            )
            &&& after.device.modes.target == Some(DeviceMode::Off)
            &&& after.device.modes.reported_mode() == modes.current
            &&& after.device.modes.off_duration == handler.device.fdir.off_duration
            &&& after.events == handler.events
            &&& after.set == handler.set
            &&& after.link == handler.link
        }),
{
    lemma_device_mode_off();
}

/// Without a message, there is nothing to handle.
proof fn lemma_nothing_to_receive(handler: MgtHandlerModel, now: nat)
    requires
        handler.link.pending() == 0,
    ensures
        handler.replies_handled(now) == handler,
{
}

/// A recovery which is needed starts in the turn of the FDIR, and commands the switch of the device
/// off in the same cycle, before replies and polls.
pub proof fn law_recovery_starts_at_once(handler: MgtHandlerModel, now: nat)
    requires
        handler.tcs.len() == 0,
        handler.mode_requests.len() == 0,
        handler.link.pending() == 0,
        handler.device.fdir.events.len() == 0,
        handler.device.fdir.recovery.health() == Some(HealthState::NeedsRecovery),
        handler.device.modes.target is None,
        handler.device.modes.cycle is Idle,
        handler.device.modes.current != DeviceMode::Off,
        handler.device.modes.timeout > 0,
        handler.device.modes.power.is_switch_on(handler.device.modes.switch_id),
    ensures
        ({
            let after = handler.cycled(now);
            let modes = handler.device.modes;
            &&& after.device.modes.power.requests == modes.power.requests.push(
                SwitchRequest {
                    switch_id: modes.switch_id,
                    target_state: SwitchStateBinary::Off,
                },
            )
            &&& after.device.modes.target == Some(DeviceMode::Off)
            &&& after.device.modes.reported_mode() == modes.current
            &&& after.device.modes.off_duration == handler.device.fdir.off_duration
            &&& after.events == handler.events.push(Event::Recovery(RecoveryEvent::Started))
            &&& !after.set.valid
            &&& !after.awaiting_reply
            &&& after.link == handler.link
        }),
{
    assert(handler.tcs =~= Seq::empty());
    assert(handler.mode_requests =~= Seq::empty());
    assert(handler.tcs_handled(now) == handler);
    assert(handler.mode_requests_handled(now) == handler);
    lemma_fdir_starts_recovery(handler, now);
    let turned = handler.fdir_cycled(now);
    lemma_power_cycle_commands_switch(turned, handler.device.modes, now);
    let driven = turned.mode_handled(now);
    lemma_nothing_to_receive(driven, now);
    assert(handler.cycled(now) == driven.poll_checked(now).hk_checked(now));
}

/// A new handler starts with a switched off and supervised device and empty queues. HK data is
/// disabled, with an interval of 200 milliseconds, and not valid.
pub proof fn law_new_handler(
    power: PowerModel,
    link: LinkModel,
    mode_timeout: nat,
    entries: Map<u32, HealthState>,
    clock: Clock,
)
    ensures
        ({
            let handler = MgtHandlerModel::fresh(power, link, mode_timeout, entries, clock);
            &&& handler.inv()
            &&& handler.link == link
            &&& handler.clock == clock
            &&& handler.tcs.len() == 0
            &&& handler.tms.len() == 0
            &&& handler.mode_requests.len() == 0
            &&& handler.mode_reports.len() == 0
            &&& handler.events.len() == 0
            &&& !handler.awaiting_reply
            &&& !handler.set.valid
            &&& handler.set.dipole == (Dipole { x: 0, y: 0, z: 0 })
            &&& !handler.set.torquing
            &&& !handler.hk.enabled
            &&& handler.hk.frequency == 200 * 1_000_000
            &&& handler.hk.last is None
            &&& handler.device.modes.current == DeviceMode::Off
            &&& handler.device.modes.target is None
            &&& handler.device.modes.cycle is Idle
            &&& handler.device.modes.timeout == mode_timeout
            &&& handler.device.modes.power == power
            &&& handler.device.modes.switch_id == SwitchId::Mgt
            &&& handler.device.fdir.counter.failure_threshold == 2
            &&& handler.device.fdir.counter.decrement_after == 30 * 1_000_000_000
            &&& handler.device.fdir.counter.fault_count == 0
            &&& handler.device.fdir.recovery.entries == entries
            &&& handler.device.fdir.recovery.id == ComponentId::AcsMgt.spec_raw()
            &&& handler.device.fdir.name == "MGT"@
        }),
{
}

/// A failed power cycle is announced and retried with the same mode to restore, as long as there
/// are attempts left. Otherwise, the component is faulty and its device is switched off. Either
/// way, the data is not valid, and neither ground nor the parent is told a mode.
pub proof fn law_failed_power_cycle_is_retried(
    handler: MgtHandlerModel,
    restore_mode: DeviceMode,
    now: nat,
)
    requires
        handler.device.modes.handled_event(now) == Some(
            ModeTransitionEvent::<DeviceMode>::PowerCycleFailed { restore_mode },
        ),
        handler.device.fdir.recovery.health() == Some(HealthState::NeedsRecovery),
        handler.device.fdir.events.len() == 0,
    ensures
        ({
            let after = handler.mode_handled(now);
            let recovery = handler.device.fdir.recovery;
            let retried = recovery.counter.fault_count < recovery.counter.failure_threshold;
            &&& after.events == handler.events.push(Event::Recovery(RecoveryEvent::Failed)).push(
                if retried {
                    Event::Recovery(RecoveryEvent::Started)
                } else {
                    Event::Recovery(RecoveryEvent::ThresholdExceeded)
                },
            )
            &&& after.device.modes.target == Some(DeviceMode::Off)
            &&& retried ==> {
                &&& after.device.modes.reported_mode() == restore_mode
                &&& after.device.modes.off_duration == handler.device.fdir.off_duration
                &&& after.device.fdir.recovery.health() == Some(HealthState::NeedsRecovery)
            }
            &&& !retried ==> after.device.fdir.recovery.health() == Some(HealthState::Faulty)
            &&& !after.set.valid
            &&& after.tms == handler.tms
            &&& after.mode_reports == handler.mode_reports
        }),
{
    let driven = SupervisedModel { modes: handler.device.modes.handled(now), ..handler.device };
    law_power_cycle_is_retried(driven, restore_mode, now);
    let failed = driven.after_power_cycle_failed(restore_mode, now);
    let retried = driven.fdir.recovery.counter.fault_count
        < driven.fdir.recovery.counter.failure_threshold;
    let second = if retried {
        RecoveryEvent::Started
    } else {
        RecoveryEvent::ThresholdExceeded
    };
    assert(failed.fdir.events =~= seq![
        FdirEvent::Recovery(RecoveryEvent::Failed),
        FdirEvent::Recovery(second),
    ]);
    assert(failed.fdir.events[1] == FdirEvent::Recovery(second));
}

} // verus!
