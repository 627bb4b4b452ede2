//! Request handling of the simulator, and the connections between the simulated devices.

use vstd::prelude::*;

use crate::minisim::acs::{mgm, mgt};
use crate::minisim::eps::{PcduRequest, SwitchMapBinary};
use crate::minisim::models::mgm::MagnetometerModel;
use crate::minisim::models::mgt::MgtModel;
use crate::minisim::{SimCtrlReply, SimCtrlRequest, SimReply, SimRequest, SimRequestWithTime};
use crate::time::Duration;
use crate::types::pcdu::{SwitchId, SwitchStateBinary};

verus! {

/// Sampling interval of the magnetometers, in milliseconds.
pub const MGM_PERIODICITY: u64 = 50;

/// Number of threads which run the simulation.
#[derive(Debug, Clone, Copy, PartialEq, Eq, Structural)]
pub enum ThreadingModel {
    Default,
    Single,
}

impl ThreadingModel {
    /// Number of threads, unless the simulation engine chooses it.
    pub fn num_threads(&self) -> (threads: Option<usize>)
        ensures
            *self == ThreadingModel::Single ==> threads == Some(1usize),
            *self == ThreadingModel::Default ==> threads is None,
    {
        match self {
            ThreadingModel::Single => Some(1),
            ThreadingModel::Default => None,
        }
    }
}

/// What has to be done for a request, besides what it changes in the simulated devices.
#[derive(Debug, Clone, Copy, PartialEq, Eq, Structural)]
pub enum SimAction {
    /// The simulation controller replies itself.
    Reply(SimCtrlReply),
    /// The magnetometer sends its sensor values.
    SendSensorValues(MagnetometerModel),
    /// The PCDU sends the switch states.
    SendSwitchInfo(SwitchMapBinary),
    /// The magnetorquer sends this reply, if there is one, and the torque ends after this time.
    ClearTorqueAfter(Duration, Option<mgt::Reply>),
    /// The magnetorquer sends its housekeeping data after this time.
    SendHkAfter(Duration),
    /// The magnetorquer drops an invalid frame.
    DropFrame(mgt::FrameError),
    /// Nothing else has to be done.
    NoAction,
}

/// The simulation controller processes requests for the simulated devices.
///
/// The PCDU switches the devices. The field of the magnetorquer reaches both magnetometers, until
/// the torque ends or the magnetorquer is switched off.
#[derive(Debug, Clone, Copy, PartialEq, Eq, Structural)]
pub struct SimController {
    pub mgm_0: MagnetometerModel,
    pub mgm_1: MagnetometerModel,
    pub mgt: MgtModel,
}

impl SimController {
    /// The magnetometer with the given ID.
    pub open spec fn spec_mgm(self, id: mgm::Id) -> MagnetometerModel {
        match id {
            mgm::Id::Mgm0 => self.mgm_0,
            mgm::Id::Mgm1 => self.mgm_1,
        }
    }

    /// A magnetometer changes.
    pub open spec fn with_mgm(self, id: mgm::Id, model: MagnetometerModel) -> SimController {
        match id {
            mgm::Id::Mgm0 => SimController { mgm_0: model, ..self },
            mgm::Id::Mgm1 => SimController { mgm_1: model, ..self },
        }
    }

    /// The magnetorquer changes. If it generates a field then, that field reaches both
    /// magnetometers.
    pub open spec fn with_mgt(self, model: MgtModel) -> SimController {
        match model.generated_field() {
            Some(field) => SimController {
                mgm_0: self.mgm_0.exposed(field),
                mgm_1: self.mgm_1.exposed(field),
                mgt: model,
            },
            None => SimController { mgt: model, ..self },
        }
    }

    /// The magnetorquer does not torque any more, and its field is gone.
    pub open spec fn torque_ended(self) -> SimController {
        SimController {
            mgm_0: self.mgm_0.unexposed(),
            mgm_1: self.mgm_1.unexposed(),
            mgt: self.mgt.torque_cleared(),
        }
    }

    /// States of all switches.
    pub open spec fn switch_info(self) -> SwitchMapBinary {
        SwitchMapBinary {
            mgm0: Some(self.mgm_0.switch_state),
            mgm1: Some(self.mgm_1.switch_state),
            mgt: Some(self.mgt.switch_state),
        }
    }

    /// A device is switched. The torque ends when the magnetorquer is switched off.
    pub open spec fn switched(self, switch: SwitchId, state: SwitchStateBinary) -> SimController {
        match switch {
            SwitchId::Mgm0 => self.with_mgm(mgm::Id::Mgm0, self.mgm_0.switched(state)),
            SwitchId::Mgm1 => self.with_mgm(mgm::Id::Mgm1, self.mgm_1.switched(state)),
            SwitchId::Mgt => if state == SwitchStateBinary::On {
                self.with_mgt(MgtModel { switch_state: state, ..self.mgt })
            } else {
                SimController {
                    mgt: MgtModel { switch_state: state, ..self.mgt },
                    ..self
                }.torque_ended()
            },
        }
    }

    /// The simulated devices after a request.
    pub open spec fn after(self, request: SimRequest) -> SimController {
        match request {
            SimRequest::SimCtrl(_) => self,
            SimRequest::Mgm { id, request: mgm::Request::RequestSensorData } => self,
            SimRequest::Mgm { id, request: mgm::Request::SetSpiFault(fault) } => self.with_mgm(
                id,
                MagnetometerModel { spi_fault: fault, ..self.spec_mgm(id) },
            ),
            SimRequest::Pcdu(PcduRequest::RequestSwitchInfo) => self,
            SimRequest::Pcdu(PcduRequest::SwitchDevice { switch, state }) => self.switched(
                switch,
                state,
            ),
            SimRequest::Mgt(frame) => match mgt::Request::of_frame(frame@) {
                Ok(mgt::Request::ApplyTorque { duration, dipole }) => self.with_mgt(
                    self.mgt.torqued(dipole),
                ),
                Ok(mgt::Request::RequestHk) => self,
                Err(_) => self,
            },
        }
    }

    /// What has to be done for a request.
    pub open spec fn action_for(self, request: SimRequest) -> SimAction {
        match request {
            SimRequest::SimCtrl(SimCtrlRequest::Ping) => SimAction::Reply(SimCtrlReply::Pong),
            SimRequest::Mgm { id, request: mgm::Request::RequestSensorData } =>
                SimAction::SendSensorValues(self.spec_mgm(id)),
            SimRequest::Mgm { id, request: mgm::Request::SetSpiFault(_) } => SimAction::NoAction,
            SimRequest::Pcdu(PcduRequest::RequestSwitchInfo) => SimAction::SendSwitchInfo(
                self.switch_info(),
            ),
            SimRequest::Pcdu(PcduRequest::SwitchDevice { .. }) => SimAction::NoAction,
            SimRequest::Mgt(frame) => match mgt::Request::of_frame(frame@) {
                Ok(mgt::Request::ApplyTorque { duration, dipole }) => SimAction::ClearTorqueAfter(
                    duration,
                    if self.mgt.switch_state == SwitchStateBinary::On {
                        Some(mgt::Reply::Ack)
                    } else {
                        None
                    },
                ),
                Ok(mgt::Request::RequestHk) => if self.mgt.switch_state == SwitchStateBinary::On {
                    SimAction::SendHkAfter(Duration { nanos: 15_000_000 })
                } else {
                    SimAction::NoAction
                },
                Err(error) => SimAction::DropFrame(error),
            },
        }
    }

    /// All devices are switched off.
    pub fn new() -> (controller: Self)
        ensures
            controller.mgm_0 == MagnetometerModel::fresh(
                mgm::Id::Mgm0,
                Duration { nanos: 50_000_000 },
            ),
            controller.mgm_1 == MagnetometerModel::fresh(
                mgm::Id::Mgm1,
                Duration { nanos: 50_000_000 },
            ),
            controller.mgt == MgtModel::fresh(),
    {
        SimController {
            mgm_0: MagnetometerModel::new(mgm::Id::Mgm0, Duration::from_millis(MGM_PERIODICITY)),
            mgm_1: MagnetometerModel::new(mgm::Id::Mgm1, Duration::from_millis(MGM_PERIODICITY)),
            mgt: MgtModel::new(),
        }
    }

    /// The field of the magnetorquer reaches both magnetometers.
    fn forward_magnetic_field(&mut self, field: Option<mgm::SensorValuesMicroTesla>)
        ensures
            *final(self) == (match field {
                Some(field) => SimController {
                    mgm_0: old(self).mgm_0.exposed(field),
                    mgm_1: old(self).mgm_1.exposed(field),
                    ..*old(self)
                },
                None => *old(self),
            }),
    {
        if let Some(field) = field {
            self.mgm_0.apply_external_magnetic_field(field);
            self.mgm_1.apply_external_magnetic_field(field);
        }
    }

    fn handle_ctrl_request(&self, request: SimCtrlRequest) -> (action: SimAction)
        ensures
            action == self.action_for(SimRequest::SimCtrl(request)),
    {
        match request {
            SimCtrlRequest::Ping => SimAction::Reply(SimCtrlReply::Pong),
        }
    }

    fn handle_mgm_request(&mut self, id: mgm::Id, request: mgm::Request) -> (action: SimAction)
        ensures
            *final(self) == old(self).after(SimRequest::Mgm { id, request }),
            action == old(self).action_for(SimRequest::Mgm { id, request }),
    {
        match (id, request) {
            (mgm::Id::Mgm0, mgm::Request::RequestSensorData) => SimAction::SendSensorValues(
                self.mgm_0,
            ),
            (mgm::Id::Mgm1, mgm::Request::RequestSensorData) => SimAction::SendSensorValues(
                self.mgm_1,
            ),
            (mgm::Id::Mgm0, mgm::Request::SetSpiFault(fault)) => {
                self.mgm_0.set_spi_fault(fault);
                SimAction::NoAction
            },
            (mgm::Id::Mgm1, mgm::Request::SetSpiFault(fault)) => {
                self.mgm_1.set_spi_fault(fault);
                SimAction::NoAction
            },
        }
    }

    fn handle_pcdu_request(&mut self, request: PcduRequest) -> (action: SimAction)
        ensures
            *final(self) == old(self).after(SimRequest::Pcdu(request)),
            action == old(self).action_for(SimRequest::Pcdu(request)),
    {
        match request {
            PcduRequest::RequestSwitchInfo => SimAction::SendSwitchInfo(
                SwitchMapBinary {
                    mgm0: Some(self.mgm_0.switch_state),
                    mgm1: Some(self.mgm_1.switch_state),
                    mgt: Some(self.mgt.switch_state),
                },
            ),
            PcduRequest::SwitchDevice { switch, state } => {
                match switch {
                    SwitchId::Mgm0 => self.mgm_0.switch_device(state),
                    SwitchId::Mgm1 => self.mgm_1.switch_device(state),
                    SwitchId::Mgt => {
                        let field = self.mgt.switch_device(state);
                        self.forward_magnetic_field(field);
                        if state == SwitchStateBinary::Off {
                            self.clear_torque();
                        }
                    },
                }
                SimAction::NoAction
            },
        }
    }

    fn handle_mgt_request(&mut self, frame: &Vec<u8>) -> (action: SimAction)
        ensures
            *final(self) == old(self).after(SimRequest::Mgt(*frame)),
            action == old(self).action_for(SimRequest::Mgt(*frame)),
    {
        match mgt::Request::from_frame(frame.as_slice()) {
            Ok(mgt::Request::ApplyTorque { duration, dipole }) => {
                let effect = self.mgt.apply_torque(duration, dipole);
                self.forward_magnetic_field(effect.field);
                SimAction::ClearTorqueAfter(effect.clear_after, effect.reply)
            },
            Ok(mgt::Request::RequestHk) => match self.mgt.request_housekeeping_data() {
                Some(delay) => SimAction::SendHkAfter(delay),
                None => SimAction::NoAction,
            },
            Err(error) => SimAction::DropFrame(error),
        }
    }

    /// Handles a request.
    pub fn handle_sim_request(&mut self, request: &SimRequest) -> (action: SimAction)
        ensures
            *final(self) == old(self).after(*request),
            action == old(self).action_for(*request),
    {
        match request {
            SimRequest::SimCtrl(request) => self.handle_ctrl_request(*request),
            SimRequest::Mgm { id, request } => self.handle_mgm_request(*id, *request),
            SimRequest::Mgt(frame) => self.handle_mgt_request(frame),
            SimRequest::Pcdu(request) => self.handle_pcdu_request(*request),
        }
    }

    /// The simulated devices after the first requests of a queue.
    pub open spec fn after_requests(self, requests: Seq<SimRequestWithTime>) -> SimController
        decreases requests.len(),
    {
        if requests.len() == 0 {
            self
        } else {
            self.after_requests(requests.drop_last()).after(requests.last().request)
        }
    }

    /// What has to be done for a queue of requests. Each request sees what the requests before it
    /// changed.
    pub open spec fn actions_for(self, requests: Seq<SimRequestWithTime>) -> Seq<SimAction> {
        Seq::new(
            requests.len(),
            |i: int| self.after_requests(requests.take(i)).action_for(requests[i].request),
        )
    }

    /// Handles a queue of requests, and returns what has to be done in the same order.
    pub fn handle_sim_requests(&mut self, requests: &Vec<SimRequestWithTime>) -> (actions: Vec<
        SimAction,
    >)
        ensures
            *final(self) == old(self).after_requests(requests@),
            actions@ == old(self).actions_for(requests@),
    {
        let mut actions: Vec<SimAction> = Vec::new();
        let mut handled: usize = 0;
        while handled < requests.len()
            invariant
                handled <= requests@.len(),
                *self == old(self).after_requests(requests@.take(handled as int)),
                actions@ == old(self).actions_for(requests@).take(handled as int),
            decreases requests.len() - handled,
        {
            let action = self.handle_sim_request(&requests[handled].request);
            actions.push(action);
            proof {
                let next = requests@.take(handled + 1);
                assert(next.drop_last() =~= requests@.take(handled as int));
                assert(actions@ =~= old(self).actions_for(requests@).take(handled + 1));
            }
            handled = handled + 1;
        }
        proof {
            assert(requests@.take(requests@.len() as int) =~= requests@);
            assert(actions@ =~= old(self).actions_for(requests@));
        }
        actions
    }

    /// The torque ends, and both magnetometers lose the field.
    pub fn clear_torque(&mut self)
        ensures
            *final(self) == old(self).torque_ended(),
    {
        self.mgt.clear_torque();
        self.mgm_0.clear_external_magnetic_field();
        self.mgm_1.clear_external_magnetic_field();
    }

    /// Reply with the housekeeping data of the magnetorquer.
    pub fn send_housekeeping_data(&self) -> (reply: SimReply)
        ensures
            reply matches SimReply::Mgt(frame) && frame@ == mgt::Reply::Hk(self.mgt.hk()).frame(),
    {
        self.mgt.send_housekeeping_data()
    }
}

/// The IDs of the magnetometers never change.
pub proof fn law_devices_keep_their_ids(
    controller: SimController,
    requests: Seq<SimRequestWithTime>,
)
    ensures
        controller.after_requests(requests).mgm_0.id == controller.mgm_0.id,
        controller.after_requests(requests).mgm_1.id == controller.mgm_1.id,
    decreases requests.len(),
{
    if requests.len() > 0 {
        law_devices_keep_their_ids(controller, requests.drop_last());
    }
}

/// Only the PCDU switches devices, and it only switches the one which the request names.
pub proof fn law_only_named_device_is_switched(controller: SimController, request: SimRequest)
    ensures
        ({
            let info = controller.switch_info();
            let info_after = controller.after(request).switch_info();
            match request {
                SimRequest::Pcdu(PcduRequest::SwitchDevice { switch, state }) => match switch {
                    SwitchId::Mgm0 => info_after == (SwitchMapBinary { mgm0: Some(state), ..info }),
                    SwitchId::Mgm1 => info_after == (SwitchMapBinary { mgm1: Some(state), ..info }),
                    SwitchId::Mgt => info_after == (SwitchMapBinary { mgt: Some(state), ..info }),
                },
                _ => info_after == info,
            }
        }),
{
}

/// Once a powered magnetorquer torques, every powered magnetometer measures its field and not the
/// modelled one.
pub proof fn law_torque_overrides_measurement(
    controller: SimController,
    frame: Vec<u8>,
    id: mgm::Id,
    modelled: mgm::SensorValuesMicroTesla,
)
    requires
        controller.mgt.switch_state == SwitchStateBinary::On,
        controller.spec_mgm(id).switch_state == SwitchStateBinary::On,
        mgt::Request::of_frame(frame@) matches Ok(mgt::Request::ApplyTorque { .. }),
    ensures
        controller.after(SimRequest::Mgt(frame)).spec_mgm(id).measured_field(modelled)
            == mgm::SensorValuesMicroTesla::spec_mgt_gen_magnetic_field(),
{
}

/// Once the torque ends, and once the magnetorquer is switched off, it does not torque any more
/// and every powered magnetometer measures the modelled field again.
pub proof fn law_field_ends_with_torque(
    controller: SimController,
    id: mgm::Id,
    modelled: mgm::SensorValuesMicroTesla,
)
    requires
        controller.spec_mgm(id).switch_state == SwitchStateBinary::On,
    ensures
        ({
            let ended = controller.torque_ended();
            let off = controller.switched(SwitchId::Mgt, SwitchStateBinary::Off);
            &&& !ended.mgt.torquing
            &&& ended.spec_mgm(id).measured_field(modelled) == modelled
            &&& !off.mgt.torquing
            &&& off.spec_mgm(id).measured_field(modelled) == modelled
        }),
{
}

/// Number of replies of the magnetorquer which an action leads to.
pub open spec fn mgt_replies(action: SimAction) -> nat {
    match action {
        SimAction::ClearTorqueAfter(_, Some(_)) => 1,
        SimAction::SendHkAfter(_) => 1,
        _ => 0,
    }
}

/// A powered magnetorquer answers every valid frame with exactly one reply: an acknowledgement of
/// a torque command, or the housekeeping data. It does not answer any other frame, and it does not
/// answer at all without power.
pub proof fn law_powered_device_replies_once(controller: SimController, frame: Vec<u8>)
    ensures
        ({
            let action = controller.action_for(SimRequest::Mgt(frame));
            let powered = controller.mgt.switch_state == SwitchStateBinary::On;
            let request = mgt::Request::of_frame(frame@);
            &&& mgt_replies(action) == (if powered && request is Ok {
                1nat
            } else {
                0nat
            })
            &&& powered && request is Ok ==> match request->Ok_0 {
                mgt::Request::ApplyTorque { duration, .. } => action
                    == SimAction::ClearTorqueAfter(duration, Some(mgt::Reply::Ack)),
                mgt::Request::RequestHk => action is SendHkAfter,
            }
        }),
{
}

/// An invalid frame changes nothing.
pub proof fn law_invalid_frames_are_dropped(controller: SimController, frame: Vec<u8>)
    requires
        mgt::Request::of_frame(frame@) is Err,
    ensures
        controller.after(SimRequest::Mgt(frame)) == controller,
        controller.action_for(SimRequest::Mgt(frame)) is DropFrame,
{
}

/// A fault is injected into the magnetometer which the request names, and changes nothing else of
/// it. The other magnetometer and the magnetorquer stay the same, and there is nothing else to do.
pub proof fn law_fault_reaches_named_magnetometer(
    controller: SimController,
    id: mgm::Id,
    fault: mgm::SpiFault,
)
    ensures
        ({
            let request = SimRequest::Mgm { id, request: mgm::Request::SetSpiFault(fault) };
            let after = controller.after(request);
            &&& id == mgm::Id::Mgm0 ==> {
                &&& after.mgm_0.spi_fault == fault
                &&& (MagnetometerModel {
                    spi_fault: controller.mgm_0.spi_fault,
                    ..after.mgm_0
                }) == controller.mgm_0
                &&& after.mgm_1 == controller.mgm_1
            }
            &&& id == mgm::Id::Mgm1 ==> {
                &&& after.mgm_1.spi_fault == fault
                &&& (MagnetometerModel {
                    spi_fault: controller.mgm_1.spi_fault,
                    ..after.mgm_1
                }) == controller.mgm_1
                &&& after.mgm_0 == controller.mgm_0
            }
            &&& after.mgt == controller.mgt
            &&& controller.action_for(request) is NoAction
        }),
{
}

/// The magnetometer which a request names sends its sensor values, and asking for them changes no
/// device.
pub proof fn law_named_magnetometer_sends_values(controller: SimController, id: mgm::Id)
    ensures
        ({
            let request = SimRequest::Mgm { id, request: mgm::Request::RequestSensorData };
            &&& controller.after(request) == controller
            &&& controller.action_for(request) == SimAction::SendSensorValues(
                match id {
                    mgm::Id::Mgm0 => controller.mgm_0,
                    mgm::Id::Mgm1 => controller.mgm_1,
                },
            )
        }),
{
}

/// A ping is answered by the controller, and the PCDU tells the states of all switches. Neither
/// changes a device.
pub proof fn law_questions_are_answered(controller: SimController)
    ensures
        ({
            let ping = SimRequest::SimCtrl(SimCtrlRequest::Ping);
            let info = SimRequest::Pcdu(PcduRequest::RequestSwitchInfo);
            &&& controller.after(ping) == controller
            &&& controller.action_for(ping) == SimAction::Reply(SimCtrlReply::Pong)
            &&& controller.after(info) == controller
            &&& controller.action_for(info) == SimAction::SendSwitchInfo(
                SwitchMapBinary {
                    mgm0: Some(controller.mgm_0.switch_state),
                    mgm1: Some(controller.mgm_1.switch_state),
                    mgt: Some(controller.mgt.switch_state),
                },
            )
        }),
{
}

/// Switching a magnetometer leaves the other devices alone. Switching the magnetorquer only changes
/// the field which the magnetometers see: it is there while a switched on device torques, and gone
/// once the device is off.
pub proof fn law_switching_is_isolated(controller: SimController, state: SwitchStateBinary)
    ensures
        ({
            let mgm_0 = controller.after(
                SimRequest::Pcdu(PcduRequest::SwitchDevice { switch: SwitchId::Mgm0, state }),
            );
            let mgm_1 = controller.after(
                SimRequest::Pcdu(PcduRequest::SwitchDevice { switch: SwitchId::Mgm1, state }),
            );
            let mgt = controller.after(
                SimRequest::Pcdu(PcduRequest::SwitchDevice { switch: SwitchId::Mgt, state }),
            );
            &&& mgm_0.mgm_0.switch_state == state
            &&& mgm_0.mgm_1 == controller.mgm_1
            &&& mgm_0.mgt == controller.mgt
            &&& mgm_0.mgm_0.external_mag_field == controller.mgm_0.external_mag_field
            &&& mgm_1.mgm_1.switch_state == state
            &&& mgm_1.mgm_0 == controller.mgm_0
            &&& mgm_1.mgt == controller.mgt
            &&& mgm_1.mgm_1.external_mag_field == controller.mgm_1.external_mag_field
            &&& same_but_field(mgt.mgm_0, controller.mgm_0)
            &&& same_but_field(mgt.mgm_1, controller.mgm_1)
            &&& mgt.mgt.switch_state == state
            &&& state == SwitchStateBinary::Off ==> {
                &&& mgt.mgm_0.external_mag_field is None
                &&& mgt.mgm_1.external_mag_field is None
                &&& !mgt.mgt.torquing
                &&& mgt.mgt.torque_dipole == (mgt::Dipole { x: 0, y: 0, z: 0 })
            }
            &&& state == SwitchStateBinary::On ==> {
                &&& mgt.mgt.torquing == controller.mgt.torquing
                &&& mgt.mgt.torque_dipole == controller.mgt.torque_dipole
                &&& controller.mgt.torquing ==> {
                    &&& mgt.mgm_0.external_mag_field == Some(
                        mgm::SensorValuesMicroTesla::spec_mgt_gen_magnetic_field(),
                    )
                    &&& mgt.mgm_1.external_mag_field == mgt.mgm_0.external_mag_field
                }
                &&& !controller.mgt.torquing ==> mgt.mgm_0 == controller.mgm_0 && mgt.mgm_1
                    == controller.mgm_1
            }
        }),
        controller.action_for(
            SimRequest::Pcdu(PcduRequest::SwitchDevice { switch: SwitchId::Mgm0, state }),
        ) is NoAction,
        controller.action_for(
            SimRequest::Pcdu(PcduRequest::SwitchDevice { switch: SwitchId::Mgm1, state }),
        ) is NoAction,
        controller.action_for(
            SimRequest::Pcdu(PcduRequest::SwitchDevice { switch: SwitchId::Mgt, state }),
        ) is NoAction,
{
}

/// The magnetometers only differ in the external field.
pub open spec fn same_but_field(a: MagnetometerModel, b: MagnetometerModel) -> bool {
    &&& a.id == b.id
    &&& a.switch_state == b.switch_state
    &&& a.periodicity == b.periodicity
    &&& a.spi_fault == b.spi_fault
}

/// A torque command makes the magnetorquer torque with its dipole, until its duration is over. The
/// magnetometers see the field if the magnetorquer has power, and nothing else of them changes.
pub proof fn law_torque_command(
    controller: SimController,
    frame: Vec<u8>,
    duration: Duration,
    dipole: mgt::Dipole,
)
    requires
        mgt::Request::of_frame(frame@) == Ok::<mgt::Request, mgt::FrameError>(
            mgt::Request::ApplyTorque { duration, dipole },
        ),
    ensures
        ({
            let after = controller.after(SimRequest::Mgt(frame));
            let powered = controller.mgt.switch_state == SwitchStateBinary::On;
            &&& after.mgt.torquing
            &&& after.mgt.torque_dipole == dipole
            &&& after.mgt.switch_state == controller.mgt.switch_state
            &&& same_but_field(after.mgm_0, controller.mgm_0)
            &&& same_but_field(after.mgm_1, controller.mgm_1)
            &&& powered ==> {
                &&& after.mgm_0.external_mag_field == Some(
                    mgm::SensorValuesMicroTesla::spec_mgt_gen_magnetic_field(),
                )
                &&& after.mgm_1.external_mag_field == after.mgm_0.external_mag_field
            }
            &&& !powered ==> after.mgm_0 == controller.mgm_0 && after.mgm_1 == controller.mgm_1
            &&& controller.action_for(SimRequest::Mgt(frame)) == SimAction::ClearTorqueAfter(
                duration,
                if powered {
                    Some(mgt::Reply::Ack)
                } else {
                    None
                },
            )
        }),
{
}

/// A magnetorquer with power sends its housekeeping data 15 milliseconds after it was asked. Asking
/// changes no device.
pub proof fn law_housekeeping_request(controller: SimController, frame: Vec<u8>)
    requires
        frame@ == seq![0x01u8],
    ensures
        controller.after(SimRequest::Mgt(frame)) == controller,
        controller.action_for(SimRequest::Mgt(frame)) == (if controller.mgt.switch_state
            == SwitchStateBinary::On {
            SimAction::SendHkAfter(Duration { nanos: 15_000_000 })
        } else {
            SimAction::NoAction
        }),
{
}

/// The end of a torque clears the dipole and the field. It switches no device and keeps the faults.
pub proof fn law_torque_end(controller: SimController)
    ensures
        ({
            let after = controller.torque_ended();
            &&& !after.mgt.torquing
            &&& after.mgt.torque_dipole == (mgt::Dipole { x: 0, y: 0, z: 0 })
            &&& after.mgt.switch_state == controller.mgt.switch_state
            &&& same_but_field(after.mgm_0, controller.mgm_0)
            &&& same_but_field(after.mgm_1, controller.mgm_1)
            &&& after.mgm_0.external_mag_field is None
            &&& after.mgm_1.external_mag_field is None
        }),
{
}

/// Requests are handled in their order: a queue can be split anywhere, and what has to be done for
/// the requests of the second part depends on the devices after the first part.
pub proof fn law_requests_are_handled_in_order(
    controller: SimController,
    first: Seq<SimRequestWithTime>,
    second: Seq<SimRequestWithTime>,
)
    ensures
        controller.after_requests(first + second) == controller.after_requests(
            first,
        ).after_requests(second),
        controller.actions_for(first + second) == controller.actions_for(first)
            + controller.after_requests(first).actions_for(second),
    decreases second.len(),
{
    let all = first + second;
    if second.len() == 0 {
        assert(all =~= first);
    } else {
        law_requests_are_handled_in_order(controller, first, second.drop_last());
        assert(all.drop_last() =~= first + second.drop_last());
    }
    let middle = controller.after_requests(first);
    assert forall|i: int| 0 <= i < all.len() implies controller.actions_for(all)[i] == (
    controller.actions_for(first) + middle.actions_for(second))[i] by {
        if i < first.len() {
            assert(all.take(i) =~= first.take(i));
        } else {
            assert(all.take(i) =~= first + second.take(i - first.len()));
            if i - first.len() < second.len() {
                law_requests_are_handled_in_order(controller, first, second.take(i - first.len()));
            }
        }
    }
    assert(controller.actions_for(all) =~= controller.actions_for(first) + middle.actions_for(
        second,
    ));
}

} // verus!
