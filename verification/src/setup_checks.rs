//! Tests of whether a hardware setup can be turned into code: the conditions the code
//! generators ask of their input.
use vstd::prelude::*;
use crate::codegen::{
    buses_well_formed, drivers_are_type_paths, i2c_bus_well_formed, sensor_setup_complete,
    sensors_complete, spi_bus_well_formed,
};
use crate::hwsetup::HwSetup;
use crate::hwsetup_buses::{I2cBus, SpiBus};
use crate::hwsetup_peripherals::inputs_of;
use crate::text::keys_are_distinct;
use crate::hwsetup_sensors::{is_type_path_string, Sensor, SensorBus, StringOrTypePath};

verus! {

/// Returns whether a setup string is written as a type path.
pub fn is_type_path(value: &str) -> (r: bool)
    ensures
        r == is_type_path_string(value@),
{
    match StringOrTypePath::from(value) {
        StringOrTypePath::TypePath(_) => true,
        StringOrTypePath::String(_) => false,
    }
}

/// Returns whether an I2C bus lists no peripheral twice, and every peripheral has a data and
/// a clock pin.
pub fn i2c_bus_is_complete(bus: &I2cBus) -> (r: bool)
    ensures
        r == i2c_bus_well_formed(*bus),
{
    if !keys_are_distinct(&bus.peripheral) {
        return false;
    }
    let mut i: usize = 0;
    while i < bus.peripheral.len()
        invariant
            i <= bus.peripheral@.len(),
            forall|k: int|
                0 <= k < i ==> (#[trigger] bus.peripheral@[k]).1.sda@.len() > 0
                    && bus.peripheral@[k].1.scl@.len() > 0,
        decreases bus.peripheral@.len() - i,
    {
        let p = &bus.peripheral[i].1;
        if p.sda.len() == 0 || p.scl.len() == 0 {
            return false;
        }
        i = i + 1;
    }
    true
}

/// Returns whether an SPI bus lists no peripheral twice, and every peripheral has a clock, a
/// main-in and a main-out pin.
pub fn spi_bus_is_complete(bus: &SpiBus) -> (r: bool)
    ensures
        r == spi_bus_well_formed(*bus),
{
    if !keys_are_distinct(&bus.peripheral) {
        return false;
    }
    let mut i: usize = 0;
    while i < bus.peripheral.len()
        invariant
            i <= bus.peripheral@.len(),
            forall|k: int|
                0 <= k < i ==> (#[trigger] bus.peripheral@[k]).1.sck@.len() > 0
                    && bus.peripheral@[k].1.miso@.len() > 0 && bus.peripheral@[k].1.mosi@.len() > 0,
        decreases bus.peripheral@.len() - i,
    {
        let p = &bus.peripheral[i].1;
        if p.sck.len() == 0 || p.miso.len() == 0 || p.mosi.len() == 0 {
            return false;
        }
        i = i + 1;
    }
    true
}

/// Returns whether the buses of a setup have the pins they need.
pub fn buses_are_complete(setup: &HwSetup) -> (r: bool)
    ensures
        r == buses_well_formed(*setup),
{
    let i2c = &setup.buses.i2c;
    let mut i: usize = 0;
    while i < i2c.len()
        invariant
            i <= i2c@.len(),
            i2c == setup.buses.i2c,
            forall|k: int| 0 <= k < i ==> i2c_bus_well_formed(#[trigger] i2c@[k]),
        decreases i2c@.len() - i,
    {
        if !i2c_bus_is_complete(&i2c[i]) {
            return false;
        }
        i = i + 1;
    }
    let spi = &setup.buses.spi;
    let mut j: usize = 0;
    while j < spi.len()
        invariant
            j <= spi@.len(),
            spi == setup.buses.spi,
            forall|k: int| 0 <= k < j ==> spi_bus_well_formed(#[trigger] spi@[k]),
        decreases spi@.len() - j,
    {
        if !spi_bus_is_complete(&spi[j]) {
            return false;
        }
        j = j + 1;
    }
    true
}

/// Returns whether the setup of a sensor can be turned into code: its driver is a type path,
/// its bus (if any) is named, its peripherals (if any) include an input, and no configuration
/// field or bus name is listed twice.
pub fn sensor_setup_is_complete(sensor: &Sensor) -> (r: bool)
    ensures
        r == sensor_setup_complete(*sensor),
{
    if !is_type_path(sensor.driver.as_str()) {
        return false;
    }
    let bus_named = match &sensor.bus {
        Some(SensorBus::I2c(v)) => v.len() > 0,
        Some(SensorBus::Spi(v)) => v.len() > 0,
        None => true,
    };
    if !bus_named {
        return false;
    }
    let has_input = match &sensor.peripherals {
        Some(p) => {
            let inputs = p.inputs();
            inputs.len() > 0
        },
        None => true,
    };
    if !has_input {
        return false;
    }
    let config_fields_distinct = match &sensor.with {
        Some(c) => keys_are_distinct(&c.0),
        None => true,
    };
    if !config_fields_distinct {
        return false;
    }
    match &sensor.bus {
        Some(SensorBus::I2c(v)) => keys_are_distinct(v),
        Some(SensorBus::Spi(v)) => keys_are_distinct(v),
        None => true,
    }
}

/// Returns whether every sensor of a list can be turned into code.
pub fn sensors_are_complete(sensors: &[Sensor]) -> (r: bool)
    ensures
        r == sensors_complete(sensors@),
{
    let mut i: usize = 0;
    while i < sensors.len()
        invariant
            i <= sensors@.len(),
            forall|k: int| 0 <= k < i ==> sensor_setup_complete(#[trigger] sensors@[k]),
        decreases sensors@.len() - i,
    {
        if !sensor_setup_is_complete(&sensors[i]) {
            return false;
        }
        i = i + 1;
    }
    true
}

/// Returns whether every sensor of a list names its driver by a type path.
pub fn drivers_are_all_type_paths(sensors: &[Sensor]) -> (r: bool)
    ensures
        r == drivers_are_type_paths(sensors@),
{
    let mut i: usize = 0;
    while i < sensors.len()
        invariant
            i <= sensors@.len(),
            forall|k: int| 0 <= k < i ==> is_type_path_string((#[trigger] sensors@[k]).driver@),
        decreases sensors@.len() - i,
    {
        if !is_type_path(sensors[i].driver.as_str()) {
            return false;
        }
        i = i + 1;
    }
    true
}

} // verus!
