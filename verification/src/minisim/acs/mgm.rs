//! Messages of the simulated magnetometer, which is strongly based on the LIS3MDL device.

use vstd::prelude::*;

use crate::minisim::ComponentId;
use crate::types::pcdu::SwitchStateBinary;

verus! {

/// Fault mode injected on the simulated SPI bus, independent of the switch state.
///
/// Models the classic symptom of a stuck SPI bus: an undriven MISO line commonly reads
/// back as all-1s, a shorted/grounded one as all-0s.
#[derive(Debug, Clone, Copy, PartialEq, Eq, Structural)]
pub enum SpiFaultMode {
    NoFault,
    AllZeros,
    AllOnes,
}

#[derive(Debug, Clone, Copy, PartialEq, Eq, Structural)]
pub struct SpiFault {
    pub mode: SpiFaultMode,
    /// The fault is cleared when the device is switched off, so a power cycle recovers
    /// from it.
    pub cleared_by_power_cycle: bool,
}

impl SpiFault {
    /// No fault.
    pub open spec fn spec_default() -> SpiFault {
        SpiFault { mode: SpiFaultMode::NoFault, cleared_by_power_cycle: false }
    }
}

impl Default for SpiFault {
    fn default() -> (fault: Self)
        ensures
            fault == SpiFault::spec_default(),
    {
        SpiFault { mode: SpiFaultMode::NoFault, cleared_by_power_cycle: false }
    }
}

/// Magnetic field in micro tesla. The values are the bits of single precision numbers, because
/// they are only passed on here.
#[derive(Debug, Clone, Copy, PartialEq, Eq, Structural)]
pub struct SensorValuesMicroTesla {
    pub x: u32,
    pub y: u32,
    pub z: u32,
}

impl SensorValuesMicroTesla {
    /// No field: zero on all axes.
    pub open spec fn zero_field() -> SensorValuesMicroTesla {
        SensorValuesMicroTesla { x: 0, y: 0, z: 0 }
    }

    /// Field of a torquing magnetorquer: 30, -30 and 30 micro tesla.
    pub open spec fn spec_mgt_gen_magnetic_field() -> SensorValuesMicroTesla {
        SensorValuesMicroTesla { x: 0x41f0_0000, y: 0xc1f0_0000, z: 0x41f0_0000 }
    }

    /// Field of a torquing magnetorquer: 30, -30 and 30 micro tesla.
    pub fn mgt_gen_magnetic_field() -> (field: SensorValuesMicroTesla)
        ensures
            field == Self::spec_mgt_gen_magnetic_field(),
    {
        SensorValuesMicroTesla { x: 0x41f0_0000, y: 0xc1f0_0000, z: 0x41f0_0000 }
    }
}

/// Raw value of an axis on a bus which reads back as all-1s.
pub const ALL_ONES_SENSOR_VAL: i16 = -1;

/// Raw value of an axis on a bus which reads back as all-0s.
pub const ALL_ZEROS_SENSOR_VAL: i16 = 0;

/// Conversion from gauss to micro tesla.
pub const GAUSS_TO_MICROTESLA_FACTOR: u32 = 100;

/// Raw sensor values in counts. Small magnetometers generate their output in such a format,
/// which then needs to be converted to physical units.
#[derive(Debug, Clone, Copy, PartialEq, Eq, Structural)]
pub struct RawValues {
    pub x: i16,
    pub y: i16,
    pub z: i16,
}

impl Default for RawValues {
    fn default() -> (raw: Self)
        ensures
            raw == RawValues::spec_splat(0),
    {
        RawValues::splat(0)
    }
}

impl RawValues {
    /// The same value on all axes.
    pub open spec fn spec_splat(value: i16) -> RawValues {
        RawValues { x: value, y: value, z: value }
    }

    /// The same value on all axes.
    pub fn splat(value: i16) -> (raw: Self)
        ensures
            raw == Self::spec_splat(value),
    {
        RawValues { x: value, y: value, z: value }
    }
}

#[derive(Debug, Clone, Copy, PartialEq, Eq, Structural)]
pub enum Request {
    RequestSensorData,
    /// Force the raw register reply into a stuck-bus pattern, regardless of switch state.
    /// Used to test FDIR handling of SPI bus faults.
    SetSpiFault(SpiFault),
}

#[derive(Debug, Clone, Copy, PartialEq, Eq, Structural)]
pub struct Reply {
    pub switch_state: SwitchStateBinary,
    pub sensor_values: SensorValuesMicroTesla,
    /// Raw sensor values which are transmitted by the LIS3 device in little-endian order.
    pub raw: RawValues,
}

#[derive(Debug, Clone, Copy, PartialEq, Eq, Structural)]
pub enum Id {
    Mgm0,
    Mgm1,
}

impl Id {
    /// Simulator component of the magnetometer.
    pub fn sim_component(&self) -> (id: ComponentId)
        ensures
            id == (match self {
                Id::Mgm0 => ComponentId::Mgm0Lis3Mdl,
                Id::Mgm1 => ComponentId::Mgm1Lis3Mdl,
            }),
    {
        match self {
            Id::Mgm0 => ComponentId::Mgm0Lis3Mdl,
            Id::Mgm1 => ComponentId::Mgm1Lis3Mdl,
        }
    }
}

/// Raw values which the bus shows for a measurement. An injected fault always wins. A switched
/// off device reads back like an undriven bus.
pub open spec fn bus_values(
    switch_state: SwitchStateBinary,
    measured: RawValues,
    fault_mode: SpiFaultMode,
) -> RawValues {
    match fault_mode {
        SpiFaultMode::AllZeros => RawValues::spec_splat(ALL_ZEROS_SENSOR_VAL),
        SpiFaultMode::AllOnes => RawValues::spec_splat(ALL_ONES_SENSOR_VAL),
        SpiFaultMode::NoFault => if switch_state == SwitchStateBinary::On {
            measured
        } else {
            RawValues::spec_splat(ALL_ONES_SENSOR_VAL)
        },
    }
}

impl Reply {
    /// Reply with the given measurement. `measured` are the sensor values in counts.
    pub fn new(
        switch_state: SwitchStateBinary,
        sensor_values: SensorValuesMicroTesla,
        measured: RawValues,
        fault_mode: SpiFaultMode,
    ) -> (reply: Self)
        ensures
            reply == (Reply {
                switch_state,
                sensor_values,
                raw: bus_values(switch_state, measured, fault_mode),
            }),
    {
        let raw = match (fault_mode, switch_state) {
            (SpiFaultMode::AllZeros, _) => RawValues::splat(ALL_ZEROS_SENSOR_VAL),
            (SpiFaultMode::AllOnes, _) | (SpiFaultMode::NoFault, SwitchStateBinary::Off) => {
                RawValues::splat(ALL_ONES_SENSOR_VAL)
            },
            (SpiFaultMode::NoFault, SwitchStateBinary::On) => measured,
        };
        Reply { switch_state, sensor_values, raw }
    }
}

/// An injected fault pins the bus to its pattern. Without one, a device which is on shows what it
/// measured, axis by axis, and a device which is off shows ones.
pub proof fn law_bus_values(
    switch_state: SwitchStateBinary,
    measured: RawValues,
    fault_mode: SpiFaultMode,
)
    ensures
        ({
            let shown = bus_values(switch_state, measured, fault_mode);
            let ones = shown.x == -1 && shown.y == -1 && shown.z == -1;
            &&& fault_mode == SpiFaultMode::AllZeros ==> shown.x == 0 && shown.y == 0
                && shown.z == 0
            &&& fault_mode == SpiFaultMode::AllOnes ==> ones
            &&& fault_mode == SpiFaultMode::NoFault && switch_state == SwitchStateBinary::Off
                ==> ones
            &&& fault_mode == SpiFaultMode::NoFault && switch_state == SwitchStateBinary::On ==> {
                &&& shown.x == measured.x
                &&& shown.y == measured.y
                &&& shown.z == measured.z
            }
        }),
{
}

/// The field of a torquing magnetorquer is 30, -30 and 30 micro tesla: the bits of the two values
/// only differ in the sign.
pub proof fn law_generated_field()
    ensures
        ({
            let field = SensorValuesMicroTesla::spec_mgt_gen_magnetic_field();
            &&& field.x == 0x41f0_0000
            &&& field.y == field.x + 0x8000_0000
            &&& field.z == field.x
            &&& SensorValuesMicroTesla::zero_field().x == 0
            &&& SensorValuesMicroTesla::zero_field().y == 0
            &&& SensorValuesMicroTesla::zero_field().z == 0
        }),
{
}

} // verus!
