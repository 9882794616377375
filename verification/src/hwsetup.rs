//! The hardware setup of a board: buses, their peripherals and pins, and the sensors connected
//! to them, as described by the setup file.
use vstd::prelude::*;
use crate::sealed::Sealed;
use crate::hwsetup_buses::Buses;
use crate::hwsetup_sensors::Sensor;

verus! {

/// The view of an optional string slice.
pub open spec fn opt_str_view(o: Option<&str>) -> Option<Seq<char>> {
    match o {
        Some(s) => Some(s@),
        None => None,
    }
}

/// The view of an optional owned string.
pub open spec fn opt_string_view(o: Option<String>) -> Option<Seq<char>> {
    match o {
        Some(s) => Some(s@),
        None => None,
    }
}

/// Borrows the string inside an optional owned string.
pub fn opt_as_str(o: &Option<String>) -> (r: Option<&str>)
    ensures
        opt_str_view(r) == opt_string_view(*o),
{
    match o {
        Some(s) => Some(s.as_str()),
        None => None,
    }
}

/// Setup items whose presence depends on the build: `on` lists the contexts (boards, chips) and
/// `when` the features under which the item exists.
pub trait Conditioned: Sealed {
    /// The comma-separated contexts the item is restricted to.
    spec fn spec_on(&self) -> Option<Seq<char>>;

    /// The comma-separated features the item is restricted to.
    spec fn spec_when(&self) -> Option<Seq<char>>;

    /// Returns the contexts the item is restricted to.
    fn on(&self) -> (r: Option<&str>)
        ensures
            opt_str_view(r) == self.spec_on(),
    ;

    /// Returns the features the item is restricted to.
    fn when(&self) -> (r: Option<&str>)
        ensures
            opt_str_view(r) == self.spec_when(),
    ;
}

/// The hardware setup of a board: its buses and the sensors connected to them.
pub struct HwSetup {
    pub buses: Buses,
    pub sensors: Sensors,
}

impl HwSetup {
    /// Returns the buses.
    pub fn buses(&self) -> (r: &Buses)
        ensures
            r == &self.buses,
    {
        &self.buses
    }

    /// Returns the sensors.
    pub fn sensors(&self) -> (r: &Sensors)
        ensures
            r == &self.sensors,
    {
        &self.sensors
    }
}

impl Default for HwSetup {
    /// A board without buses or sensors.
    fn default() -> (r: Self)
        ensures
            r.buses.i2c@.len() == 0,
            r.buses.spi@.len() == 0,
            r.sensors.connected@.len() == 0,
            r.sensors.max_reading_value_count is None,
    {
        HwSetup {
            buses: Buses { i2c: Vec::new(), spi: Vec::new() },
            sensors: Sensors { max_reading_value_count: None, connected: Vec::new() },
        }
    }
}

/// The sensors of a board.
pub struct Sensors {
    /// The largest number of values in a reading, when the setup file sets it.
    pub max_reading_value_count: Option<MaxReadingValueCount>,
    /// The connected sensors.
    pub connected: Vec<Sensor>,
}

impl Sensors {
    /// Returns the largest number of values in a reading: the one the setup file sets, three
    /// by default.
    pub fn max_reading_value_count(&self) -> (r: u8)
        ensures
            r > 0,
            r == match self.max_reading_value_count {
                Some(m) => m.spec_get(),
                None => 3,
            },
    {
        match &self.max_reading_value_count {
            Some(m) => m.get(),
            None => MaxReadingValueCount::default().get(),
        }
    }

    /// Returns the connected sensors.
    pub fn connected(&self) -> (r: &[Sensor])
        ensures
            r@ == self.connected@,
    {
        self.connected.as_slice()
    }
}

/// A positive number of values in a reading.
#[derive(Debug, Copy, Clone)]
pub struct MaxReadingValueCount(u8);

impl MaxReadingValueCount {
    #[verifier::type_invariant]
    spec fn positive(self) -> bool {
        self.0 > 0
    }

    /// The count.
    pub closed spec fn spec_get(self) -> u8 {
        self.0
    }

    /// Returns the count, or `None` for zero.
    pub fn new(count: u8) -> (r: Option<Self>)
        ensures
            count == 0 <==> r is None,
            r matches Some(m) ==> m.spec_get() == count,
    {
        if count == 0 {
            None
        } else {
            Some(MaxReadingValueCount(count))
        }
    }

    /// Returns the count.
    pub fn get(&self) -> (r: u8)
        ensures
            r == self.spec_get(),
            r > 0,
    {
        proof { use_type_invariant(self); }
        self.0
    }
}

impl Default for MaxReadingValueCount {
    /// Three values.
    fn default() -> (r: Self)
        ensures
            r.spec_get() == 3,
    {
        MaxReadingValueCount(3)
    }
}

} // verus!
