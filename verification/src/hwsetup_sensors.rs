//! The sensors connected to the board, their configuration and the bus they sit on.
use vstd::prelude::*;
use crate::hwsetup::{opt_as_str, opt_str_view, opt_string_view, Conditioned};
use crate::hwsetup_buses::SpiPin;
use crate::hwsetup_peripherals::Peripherals;
use crate::sealed::Sealed;

verus! {

/// A sensor connected to the board.
pub struct Sensor {
    /// Name of the sensor driver instance.
    pub name: String,
    /// Type path of the sensor driver, written `@path::to::Driver`.
    pub driver: String,
    /// Label of the sensor driver instance.
    pub label: String,
    pub on: Option<String>,
    pub when: Option<String>,
    /// Configuration of the driver.
    pub with: Option<SensorConfig>,
    /// The bus the sensor sits on.
    pub bus: Option<SensorBus>,
    /// Other peripherals the sensor uses.
    pub peripherals: Option<Peripherals>,
}

impl Sensor {
    /// Returns the name of the sensor driver instance.
    pub fn name(&self) -> (r: &str)
        ensures
            r@ == self.name@,
    {
        self.name.as_str()
    }

    /// Returns the driver type path as written (with its `@` marker).
    pub fn driver(&self) -> (r: &str)
        ensures
            r@ == self.driver@,
    {
        self.driver.as_str()
    }

    /// Returns the label of the sensor driver instance.
    pub fn label(&self) -> (r: &str)
        ensures
            r@ == self.label@,
    {
        self.label.as_str()
    }

    /// Returns the driver configuration.
    pub fn with(&self) -> (r: Option<&SensorConfig>)
        ensures
            r == match &self.with {
                Some(c) => Some(c),
                None => None::<&SensorConfig>,
            },
    {
        match &self.with {
            Some(c) => Some(c),
            None => None,
        }
    }

    /// Returns the bus the sensor sits on.
    pub fn bus(&self) -> (r: Option<&SensorBus>)
        ensures
            r == match &self.bus {
                Some(b) => Some(b),
                None => None::<&SensorBus>,
            },
    {
        match &self.bus {
            Some(b) => Some(b),
            None => None,
        }
    }

    /// Returns the peripherals the sensor uses besides its bus.
    pub fn peripherals(&self) -> (r: Option<&Peripherals>)
        ensures
            r == match &self.peripherals {
                Some(p) => Some(p),
                None => None::<&Peripherals>,
            },
    {
        match &self.peripherals {
            Some(p) => Some(p),
            None => None,
        }
    }
}

impl Sealed for Sensor {}

impl Conditioned for Sensor {
    open spec fn spec_on(&self) -> Option<Seq<char>> {
        opt_string_view(self.on)
    }

    open spec fn spec_when(&self) -> Option<Seq<char>> {
        opt_string_view(self.when)
    }

    fn on(&self) -> (r: Option<&str>) {
        opt_as_str(&self.on)
    }

    fn when(&self) -> (r: Option<&str>) {
        opt_as_str(&self.when)
    }
}

/// Configuration of a sensor driver: values by field name, in the order of the setup file.
pub struct SensorConfig(pub Vec<(String, SensorConfigValue)>);

impl SensorConfig {
    /// Returns the configuration entries.
    pub fn iter(&self) -> (r: &Vec<(String, SensorConfigValue)>)
        ensures
            r == &self.0,
    {
        &self.0
    }
}

/// A value of a sensor driver configuration.
pub enum SensorConfigValue {
    String(String),
    Number(ConfigNumber),
    Bool(bool),
}

/// A number of the setup file, by how it can be represented.
pub enum ConfigNumber {
    /// A number that fits in a `u64`.
    Unsigned(u64),
    /// A negative number that fits in an `i64`.
    Signed(i64),
    /// A number with a fractional part or an exponent, in its decimal writing.
    Float(String),
}

/// A setup string, read either as a plain string or as a type path.
///
/// A type path is written with a leading `@`; a plain string that itself starts with `@` is
/// written with a doubled `@@`.
#[derive(Debug)]
pub enum StringOrTypePath<'a> {
    String(&'a str),
    TypePath(&'a str),
}

/// `s` is written as a type path: an `@` followed by something other than `@`.
pub open spec fn is_type_path_string(s: Seq<char>) -> bool {
    s.len() >= 2 && s[0] == '@' && s[1] != '@'
}

/// `s` starts with `@`.
pub open spec fn starts_with_at(s: Seq<char>) -> bool {
    s.len() >= 1 && s[0] == '@'
}

impl<'a> StringOrTypePath<'a> {
    /// The kind and text of the value: `true` for a type path.
    pub open spec fn view(self) -> (bool, Seq<char>) {
        match self {
            StringOrTypePath::String(s) => (false, s@),
            StringOrTypePath::TypePath(s) => (true, s@),
        }
    }

    /// Reads a setup string: `@path` is a type path, `@@text` the plain string `@text`, and
    /// anything else a plain string.
    pub fn from(value: &'a str) -> (r: Self)
        ensures
            r.view() == if is_type_path_string(value@) {
                (true, value@.skip(1))
            } else if starts_with_at(value@) {
                (false, value@.skip(1))
            } else {
                (false, value@)
            },
    {
        let n = value.unicode_len();
        if n >= 2 && value.get_char(0) == '@' && value.get_char(1) != '@' {
            let t = value.substring_char(1, n);
            assert(t@ =~= value@.skip(1));
            StringOrTypePath::TypePath(t)
        } else if n >= 1 && value.get_char(0) == '@' {
            let t = value.substring_char(1, n);
            assert(t@ =~= value@.skip(1));
            StringOrTypePath::String(t)
        } else {
            StringOrTypePath::String(value)
        }
    }
}

/// The `@` marker of a type path.
pub open spec fn at_marker() -> Seq<char> {
    seq!['@']
}

/// A type path written with its `@` marker reads back as that type path.
pub proof fn law_marked_type_path_reads_back(path: Seq<char>)
    requires
        path.len() >= 1,
        path[0] != '@',
    ensures
        is_type_path_string(at_marker() + path),
        (at_marker() + path).skip(1) == path,
{
    assert((at_marker() + path).skip(1) =~= path);
}

/// A plain string starting with `@`, written with a doubled `@@`, reads back as that string.
pub proof fn law_escaped_string_reads_back(text: Seq<char>)
    requires
        starts_with_at(text),
    ensures
        !is_type_path_string(at_marker() + text),
        starts_with_at(at_marker() + text),
        (at_marker() + text).skip(1) == text,
{
    assert((at_marker() + text).skip(1) =~= text);
}

/// A string that does not start with `@` reads as itself.
pub proof fn law_unmarked_string_reads_as_itself(text: Seq<char>)
    requires
        !starts_with_at(text),
    ensures
        !is_type_path_string(text),
{
}

/// The bus a sensor sits on, with the bus name and the per-bus settings.
pub enum SensorBus {
    I2c(Vec<(String, SensorBusI2c)>),
    Spi(Vec<(String, SensorBusSpi)>),
}

/// Settings of a sensor on an I2C bus.
pub struct SensorBusI2c {
    pub on: Option<String>,
    pub when: Option<String>,
}

impl Sealed for SensorBusI2c {}

impl Conditioned for SensorBusI2c {
    open spec fn spec_on(&self) -> Option<Seq<char>> {
        opt_string_view(self.on)
    }

    open spec fn spec_when(&self) -> Option<Seq<char>> {
        opt_string_view(self.when)
    }

    fn on(&self) -> (r: Option<&str>) {
        opt_as_str(&self.on)
    }

    fn when(&self) -> (r: Option<&str>) {
        opt_as_str(&self.when)
    }
}

/// Settings of a sensor on an SPI bus: its chip-select pins.
pub struct SensorBusSpi {
    pub cs: Vec<SpiPin>,
    pub on: Option<String>,
    pub when: Option<String>,
}

impl SensorBusSpi {
    /// Returns the chip-select pins.
    pub fn cs(&self) -> (r: &[SpiPin])
        ensures
            r@ == self.cs@,
    {
        self.cs.as_slice()
    }
}

impl Sealed for SensorBusSpi {}

impl Conditioned for SensorBusSpi {
    open spec fn spec_on(&self) -> Option<Seq<char>> {
        opt_string_view(self.on)
    }

    open spec fn spec_when(&self) -> Option<Seq<char>> {
        opt_string_view(self.when)
    }

    fn on(&self) -> (r: Option<&str>) {
        opt_as_str(&self.on)
    }

    fn when(&self) -> (r: Option<&str>) {
        opt_as_str(&self.when)
    }
}

} // verus!
