//! The internal temperature sensor of nRF52 MCUs, as a simple sensor: one value per reading,
//! in hundredths of a degree Celsius.
use vstd::prelude::*;
use crate::internal_temp::i30f2_times_int_floor;
use crate::saga_sensor::{PhysicalUnit, PhysicalValue};

verus! {

/// Returns the value read for a raw measurement, given in quarters of a degree Celsius: the
/// temperature in hundredths of a degree, rounded down to an integer.
pub fn value_from_raw(quarter_degrees: i32) -> (r: PhysicalValue)
    requires
        i32::MIN <= quarter_degrees * 100 <= i32::MAX,
    ensures
        r.value == quarter_degrees * 100 / 4,
        r.value == quarter_degrees * 25,
{
    let temp = i30f2_times_int_floor(quarter_degrees, 100);
    assert(quarter_degrees * 100 == (quarter_degrees * 25) * 4);
    PhysicalValue { value: temp }
}

/// Returns the scale of the values: `10^-2`, hundredths.
pub fn value_scale() -> (r: i8)
    ensures
        r == -2,
{
    -2
}

/// Returns the unit of the values.
pub fn unit() -> (r: PhysicalUnit)
    ensures
        r == PhysicalUnit::Celsius,
{
    PhysicalUnit::Celsius
}

/// Returns the name of the sensor, as displayed.
pub fn display_name() -> (r: Option<&'static str>)
    ensures
        r matches Some(n) && n@ == "Internal temperature sensor"@,
{
    proof { reveal_strlit("Internal temperature sensor"); }
    Some("Internal temperature sensor")
}

/// Returns the part number of the sensor.
pub fn part_number() -> (r: &'static str)
    ensures
        r@ == "nrf52 internal temperature sensor"@,
{
    proof { reveal_strlit("nrf52 internal temperature sensor"); }
    "nrf52 internal temperature sensor"
}

/// Returns the version of the driver.
pub fn version() -> (r: u8)
    ensures
        r == 0,
{
    0
}

} // verus!
