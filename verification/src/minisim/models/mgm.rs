//! Simulated magnetometer.

use vstd::prelude::*;

use crate::minisim::acs::mgm::{
    bus_values, Id, RawValues, Reply, SensorValuesMicroTesla, SpiFault, SpiFaultMode,
};
use crate::minisim::SimReply;
use crate::time::Duration;
use crate::types::pcdu::SwitchStateBinary;

verus! {

/// Simple model for a magnetometer.
///
/// An ideal sensor would sample the magnetic field at a high fixed rate. This might not be
/// possible for a general purpose OS, but self-sampling at a relatively high rate (20-40 ms)
/// might still be possible and is probably sufficient for many OBSW needs.
#[derive(Debug, Clone, Copy, PartialEq, Eq, Structural)]
pub struct MagnetometerModel {
    pub id: Id,
    pub switch_state: SwitchStateBinary,
    pub periodicity: Duration,
    pub external_mag_field: Option<SensorValuesMicroTesla>,
    pub spi_fault: SpiFault,
}

impl MagnetometerModel {
    /// Switched off magnetometer without a fault.
    pub open spec fn fresh(id: Id, periodicity: Duration) -> MagnetometerModel {
        MagnetometerModel {
            id,
            switch_state: SwitchStateBinary::Off,
            periodicity,
            external_mag_field: None,
            spi_fault: SpiFault::spec_default(),
        }
    }

    /// Switched off magnetometer without a fault.
    pub fn new(mgm_id: Id, periodicity: Duration) -> (model: Self)
        ensures
            model == Self::fresh(mgm_id, periodicity),
    {
        MagnetometerModel {
            id: mgm_id,
            switch_state: SwitchStateBinary::Off,
            periodicity,
            external_mag_field: None,
            spi_fault: SpiFault::default(),
        }
    }

    /// The magnetometer after its switch changed. Switching off clears some faults.
    pub open spec fn switched(self, switch_state: SwitchStateBinary) -> MagnetometerModel {
        MagnetometerModel {
            switch_state,
            spi_fault: if switch_state == SwitchStateBinary::Off
                && self.spi_fault.cleared_by_power_cycle {
                SpiFault::spec_default()
            } else {
                self.spi_fault
            },
            ..self
        }
    }

    /// The switch of the device changed.
    pub fn switch_device(&mut self, switch_state: SwitchStateBinary)
        ensures
            *final(self) == old(self).switched(switch_state),
    {
        self.switch_state = switch_state;
        if switch_state == SwitchStateBinary::Off && self.spi_fault.cleared_by_power_cycle {
            self.spi_fault = SpiFault::default();
        }
    }

    /// Force (or clear) a stuck-bus SPI fault, for FDIR testing purposes.
    pub fn set_spi_fault(&mut self, fault: SpiFault)
        ensures
            *final(self) == (MagnetometerModel { spi_fault: fault, ..*old(self) }),
    {
        self.spi_fault = fault;
    }

    /// The magnetometer in an external field.
    pub open spec fn exposed(self, field: SensorValuesMicroTesla) -> MagnetometerModel {
        MagnetometerModel { external_mag_field: Some(field), ..self }
    }

    /// Devices like magnetorquers generate a strong magnetic field which overrides the default
    /// model for the measured magnetic field.
    pub fn apply_external_magnetic_field(&mut self, field: SensorValuesMicroTesla)
        ensures
            *final(self) == old(self).exposed(field),
    {
        self.external_mag_field = Some(field);
    }

    /// The magnetometer without an external field.
    pub open spec fn unexposed(self) -> MagnetometerModel {
        MagnetometerModel { external_mag_field: None, ..self }
    }

    /// The external field is gone, so the default model applies again.
    pub fn clear_external_magnetic_field(&mut self)
        ensures
            *final(self) == old(self).unexposed(),
    {
        self.external_mag_field = None;
    }

    /// The measured field. `modelled` is the field according to the default model.
    pub open spec fn measured_field(
        self,
        modelled: SensorValuesMicroTesla,
    ) -> SensorValuesMicroTesla {
        if self.switch_state == SwitchStateBinary::On {
            match self.external_mag_field {
                Some(field) => field,
                None => modelled,
            }
        } else {
            SensorValuesMicroTesla::zero_field()
        }
    }

    /// The measured field. `modelled` is the field according to the default model.
    pub fn calculate_current_mgm_tuple(&self, modelled: SensorValuesMicroTesla) -> (field:
        SensorValuesMicroTesla)
        ensures
            field == self.measured_field(modelled),
    {
        if self.switch_state == SwitchStateBinary::On {
            if let Some(field) = self.external_mag_field {
                return field;
            }
            return modelled;
        }
        SensorValuesMicroTesla { x: 0, y: 0, z: 0 }
    }

    /// Reply with the measured field, and with the field in counts.
    pub fn send_sensor_values(&self, field: SensorValuesMicroTesla, measured: RawValues) -> (reply:
        SimReply)
        ensures
            reply == (SimReply::Mgm {
                id: self.id,
                reply: Reply {
                    switch_state: self.switch_state,
                    sensor_values: field,
                    raw: bus_values(self.switch_state, measured, self.spi_fault.mode),
                },
            }),
    {
        SimReply::Mgm {
            id: self.id,
            reply: Reply::new(self.switch_state, field, measured, self.spi_fault.mode),
        }
    }
}

/// A power cycle ends with a working bus if, and only if, there was no fault or one which a power
/// cycle clears. Nothing else of the device changes.
pub proof fn law_power_cycle_clears_fault(model: MagnetometerModel, measured: RawValues)
    requires
        model.switch_state == SwitchStateBinary::On,
    ensures
        ({
            let cycled = model.switched(SwitchStateBinary::Off).switched(SwitchStateBinary::On);
            &&& cycled == (MagnetometerModel { spi_fault: cycled.spi_fault, ..model })
            &&& cycled.spi_fault.mode == SpiFaultMode::NoFault <==> (model.spi_fault.mode
                == SpiFaultMode::NoFault || model.spi_fault.cleared_by_power_cycle)
            &&& cycled.spi_fault.mode == SpiFaultMode::NoFault ==> bus_values(
                cycled.switch_state,
                measured,
                cycled.spi_fault.mode,
            ) == measured
        }),
{
}

/// Switching changes the switch state, and clears a fault exactly if the device is switched off and
/// the fault is one which a power cycle clears. Nothing else of the device changes.
pub proof fn law_switching(model: MagnetometerModel, state: SwitchStateBinary)
    ensures
        ({
            let after = model.switched(state);
            &&& after.switch_state == state
            &&& after.id == model.id
            &&& after.periodicity == model.periodicity
            &&& after.external_mag_field == model.external_mag_field
            &&& if state == SwitchStateBinary::Off && model.spi_fault.cleared_by_power_cycle {
                after.spi_fault.mode == SpiFaultMode::NoFault
                    && !after.spi_fault.cleared_by_power_cycle
            } else {
                after.spi_fault == model.spi_fault
            }
        }),
{
}

/// A device which is on measures the external field if there is one, and the modelled field
/// otherwise. A device which is off measures no field.
pub proof fn law_measurement(
    model: MagnetometerModel,
    modelled: SensorValuesMicroTesla,
    external: SensorValuesMicroTesla,
)
    ensures
        model.switch_state == SwitchStateBinary::Off ==> {
            &&& model.measured_field(modelled).x == 0
            &&& model.measured_field(modelled).y == 0
            &&& model.measured_field(modelled).z == 0
        },
        model.switch_state == SwitchStateBinary::On ==> {
            &&& model.exposed(external).measured_field(modelled) == external
            &&& model.unexposed().measured_field(modelled) == modelled
        },
        (MagnetometerModel {
            external_mag_field: model.external_mag_field,
            ..model.exposed(external)
        }) == model,
        (MagnetometerModel { external_mag_field: model.external_mag_field, ..model.unexposed() })
            == model,
{
}

/// A new device is off, without a field or a fault.
pub proof fn law_new_device(id: Id, periodicity: Duration)
    ensures
        ({
            let model = MagnetometerModel::fresh(id, periodicity);
            &&& model.id == id
            &&& model.switch_state == SwitchStateBinary::Off
            &&& model.periodicity == periodicity
            &&& model.external_mag_field is None
            &&& model.spi_fault.mode == SpiFaultMode::NoFault
            &&& !model.spi_fault.cleared_by_power_cycle
        }),
{
}

} // verus!
