//! Readings of simple sensors: one value per reading, in a single unit.
use vstd::prelude::*;

verus! {

/// A value obtained from a sensor.
#[derive(Debug, Copy, Clone, PartialEq, Eq, Structural)]
pub struct PhysicalValue {
    pub value: i32,
}

/// A unit of measurement.
#[derive(Debug, Copy, Clone, PartialEq, Eq, Structural)]
#[non_exhaustive]
pub enum PhysicalUnit {
    Celsius,
}

/// A reading of a sensor: a single value.
pub trait Reading {
    /// The value of the reading.
    spec fn spec_value(&self) -> PhysicalValue;

    /// Returns the value of the reading.
    fn value(&self) -> (r: PhysicalValue)
        ensures
            r == self.spec_value(),
    ;

    /// Returns the values of the reading: its single value.
    fn values(&self) -> (r: Vec<PhysicalValue>)
        ensures
            r@ == seq![self.spec_value()],
    {
        let v = self.value();
        let mut r: Vec<PhysicalValue> = Vec::new();
        r.push(v);
        r
    }
}

} // verus!
