//! Simulated magnetorquer.

use vstd::prelude::*;

use crate::minisim::acs::mgm::SensorValuesMicroTesla;
use crate::minisim::acs::mgt::{Dipole, HkSet, Reply};
use crate::minisim::SimReply;
use crate::time::Duration;
use crate::types::pcdu::SwitchStateBinary;

verus! {

/// Time between a housekeeping request and its reply, in milliseconds.
pub const HK_REPLY_DELAY: u64 = 15;

/// Simple magnetorquer simulation model.
#[derive(Debug, Clone, Copy, PartialEq, Eq, Structural)]
pub struct MgtModel {
    pub switch_state: SwitchStateBinary,
    pub torquing: bool,
    pub torque_dipole: Dipole,
}

/// What follows from a torque command.
#[derive(Debug, Clone, Copy, PartialEq, Eq, Structural)]
pub struct TorqueEffect {
    /// Time after which the torque has to be cleared.
    pub clear_after: Duration,
    /// Magnetic field which is applied to the magnetometers.
    pub field: Option<SensorValuesMicroTesla>,
    /// Reply to the command. A switched off device does not reply.
    pub reply: Option<Reply>,
}

impl MgtModel {
    /// Switched off magnetorquer.
    pub open spec fn fresh() -> MgtModel {
        MgtModel {
            switch_state: SwitchStateBinary::Off,
            torquing: false,
            torque_dipole: Dipole::none(),
        }
    }

    /// Switched off magnetorquer.
    pub fn new() -> (model: Self)
        ensures
            model == Self::fresh(),
    {
        MgtModel {
            switch_state: SwitchStateBinary::Off,
            torquing: false,
            torque_dipole: Dipole::default(),
        }
    }

    /// Field which the magnetorquer generates. It only does so if it is switched on and torquing.
    pub open spec fn generated_field(self) -> Option<SensorValuesMicroTesla> {
        if self.switch_state == SwitchStateBinary::On && self.torquing {
            Some(SensorValuesMicroTesla::spec_mgt_gen_magnetic_field())
        } else {
            None
        }
    }

    /// Housekeeping data of the device.
    pub open spec fn hk(self) -> HkSet {
        HkSet { dipole: self.torque_dipole, torquing: self.torquing }
    }

    /// The magnetorquer torques.
    pub open spec fn torqued(self, dipole: Dipole) -> MgtModel {
        MgtModel { torquing: true, torque_dipole: dipole, ..self }
    }

    /// The magnetorquer does not torque any more.
    pub open spec fn torque_cleared(self) -> MgtModel {
        MgtModel { torquing: false, torque_dipole: Dipole::none(), ..self }
    }

    /// Starts to torque, which a switched on device acknowledges.
    pub fn apply_torque(&mut self, duration: Duration, dipole: Dipole) -> (effect: TorqueEffect)
        ensures
            *final(self) == old(self).torqued(dipole),
            effect == (TorqueEffect {
                clear_after: duration,
                field: final(self).generated_field(),
                reply: if old(self).switch_state == SwitchStateBinary::On {
                    Some(Reply::Ack)
                } else {
                    None
                },
            }),
    {
        self.torque_dipole = dipole;
        self.torquing = true;
        let reply = if self.switch_state == SwitchStateBinary::On {
            Some(Reply::Ack)
        } else {
            None
        };
        TorqueEffect { clear_after: duration, field: self.generate_magnetic_field(), reply }
    }

    /// Stops to torque. Returns the field to apply.
    pub fn clear_torque(&mut self) -> (field: Option<SensorValuesMicroTesla>)
        ensures
            *final(self) == old(self).torque_cleared(),
            field is None,
    {
        self.torque_dipole = Dipole::default();
        self.torquing = false;
        self.generate_magnetic_field()
    }

    /// The switch of the device changed. Returns the field to apply.
    pub fn switch_device(&mut self, switch_state: SwitchStateBinary) -> (field: Option<
        SensorValuesMicroTesla,
    >)
        ensures
            *final(self) == (MgtModel { switch_state, ..*old(self) }),
            field == final(self).generated_field(),
    {
        self.switch_state = switch_state;
        self.generate_magnetic_field()
    }

    /// Time after which the housekeeping data has to be sent. A switched off device does not send
    /// any.
    pub fn request_housekeeping_data(&self) -> (delay: Option<Duration>)
        ensures
            self.switch_state == SwitchStateBinary::On ==> delay == Some(
                (Duration { nanos: 15_000_000 }),
            ),
            self.switch_state != SwitchStateBinary::On ==> delay is None,
    {
        if self.switch_state != SwitchStateBinary::On {
            return None;
        }
        Some(Duration::from_millis(HK_REPLY_DELAY))
    }

    /// Reply with the housekeeping data.
    pub fn send_housekeeping_data(&self) -> (reply: SimReply)
        ensures
            reply matches SimReply::Mgt(frame) && frame@ == Reply::Hk(self.hk()).frame(),
    {
        SimReply::from(
            Reply::Hk(HkSet { dipole: self.torque_dipole, torquing: self.torquing }),
        )
    }

    fn calc_magnetic_field(&self) -> (field: SensorValuesMicroTesla)
        ensures
            field == SensorValuesMicroTesla::spec_mgt_gen_magnetic_field(),
    {
        // Simplified model: Just returns some fixed magnetic field for now.
        // Later, we could make this more fancy by incorporating the commanded dipole.
        SensorValuesMicroTesla::mgt_gen_magnetic_field()
    }

    /// A torquing magnetorquer generates a magnetic field.
    fn generate_magnetic_field(&self) -> (field: Option<SensorValuesMicroTesla>)
        ensures
            field == self.generated_field(),
    {
        if self.switch_state != SwitchStateBinary::On || !self.torquing {
            return None;
        }
        Some(self.calc_magnetic_field())
    }
}

/// A torque command starts to torque with its dipole, and clearing it ends both. Neither switches
/// the device. The housekeeping data shows the dipole and whether the device torques.
pub proof fn law_torque(model: MgtModel, dipole: Dipole)
    ensures
        ({
            let torqued = model.torqued(dipole);
            let cleared = model.torque_cleared();
            &&& torqued.torquing
            &&& torqued.torque_dipole == dipole
            &&& torqued.switch_state == model.switch_state
            &&& torqued.hk().dipole == dipole
            &&& torqued.hk().torquing
            &&& !cleared.torquing
            &&& cleared.torque_dipole == (Dipole { x: 0, y: 0, z: 0 })
            &&& cleared.switch_state == model.switch_state
            &&& cleared.hk().dipole == (Dipole { x: 0, y: 0, z: 0 })
            &&& !cleared.hk().torquing
            &&& model.hk().dipole == model.torque_dipole
            &&& model.hk().torquing == model.torquing
        }),
{
}

/// Only a device which is on and torques generates a field.
pub proof fn law_field_needs_power_and_torque(model: MgtModel)
    ensures
        model.generated_field() is Some <==> model.switch_state == SwitchStateBinary::On
            && model.torquing,
        model.generated_field() matches Some(field) ==> field
            == SensorValuesMicroTesla::spec_mgt_gen_magnetic_field(),
{
}

/// A new device is off and does not torque.
pub proof fn law_new_device()
    ensures
        MgtModel::fresh().switch_state == SwitchStateBinary::Off,
        !MgtModel::fresh().torquing,
        MgtModel::fresh().torque_dipole == (Dipole { x: 0, y: 0, z: 0 }),
{
}

} // verus!
