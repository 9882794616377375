//! Values measured by sensors and the metadata that tells how to read them.
use vstd::prelude::*;

verus! {

/// Specifies the accuracy error of a measurement, assumed symmetrical around a possibly
/// non-zero bias.
///
/// With `Symmetrical`, the error lies between `(bias - deviation)·10^scaling` and
/// `(bias + deviation)·10^scaling`, in the unit of the value it belongs to.
#[derive(Debug, Copy, Clone, PartialEq, Eq, Structural)]
pub enum AccuracyError {
    /// Unknown measurement error.
    Unknown,
    /// No measurement error (e.g., boolean values).
    NoError,
    /// Measurement error symmetrical around the bias.
    Symmetrical {
        /// Deviation around the bias value.
        deviation: i16,
        /// Bias (mean accuracy error).
        bias: i16,
        /// Scaling of deviation and bias.
        scaling: i8,
    },
}

/// A value obtained from a sensor: an integer to be scaled by `10^scaling` (the scaling comes
/// with the reading axis), with its accuracy error.
#[derive(Debug, Copy, Clone, PartialEq, Eq, Structural)]
pub struct PhysicalValue {
    pub value: i32,
    pub error: AccuracyError,
}

impl PhysicalValue {
    /// Creates a new value.
    pub fn new(value: i32, error: AccuracyError) -> (r: Self)
        ensures
            r.value == value,
            r.error == error,
    {
        Self { value, error }
    }

    /// Returns the value.
    pub fn value(&self) -> (r: i32)
        ensures
            r == self.value,
    {
        self.value
    }

    /// Returns the measurement error.
    pub fn error(&self) -> (r: AccuracyError)
        ensures
            r == self.error,
    {
        self.error
    }
}

/// A unit of measurement.
#[derive(Debug, Copy, Clone, PartialEq, Eq, Structural)]
pub enum PhysicalUnit {
    /// Acceleration *g*.
    AccelG,
    /// Logic boolean.
    Bool,
    /// Degree Celsius.
    Celsius,
}

impl PhysicalUnit {
    /// The symbol of the unit.
    pub open spec fn spec_symbol(self) -> Seq<char> {
        match self {
            PhysicalUnit::AccelG => "g"@,
            PhysicalUnit::Bool => ""@,
            PhysicalUnit::Celsius => "°C"@,
        }
    }

    /// Returns the symbol of the unit, as displayed (empty for booleans).
    pub fn symbol(&self) -> (r: &'static str)
        ensures
            r@ == self.spec_symbol(),
    {
        match self {
            Self::AccelG => "g",
            Self::Bool => "",
            Self::Celsius => "°C",
        }
    }
}

/// Label of a value in a reading.
///
/// `Main` is used by sensors returning a single value, so that it can be left out when
/// displayed; the other labels tell apart the values of sensors measuring several.
#[derive(Debug, Copy, Clone, PartialEq, Eq, Structural)]
pub enum Label {
    /// Used for sensors measuring a single physical value.
    Main,
    Humidity,
    Temperature,
    X,
    Y,
    Z,
}

impl Label {
    /// The name of the label, as displayed.
    pub open spec fn spec_name(self) -> Seq<char> {
        match self {
            Label::Main => ""@,
            Label::Humidity => "Humidity"@,
            Label::Temperature => "Temperature"@,
            Label::X => "X"@,
            Label::Y => "Y"@,
            Label::Z => "Z"@,
        }
    }

    /// Returns the name of the label, as displayed (empty for `Main`).
    pub fn name(&self) -> (r: &'static str)
        ensures
            r@ == self.spec_name(),
    {
        match self {
            Self::Main => "",
            Self::Humidity => "Humidity",
            Self::Temperature => "Temperature",
            Self::X => "X",
            Self::Y => "Y",
            Self::Z => "Z",
        }
    }
}

/// Categories a sensor can be part of; a sensor can be part of several.
#[derive(Debug, Copy, Clone, PartialEq, Eq, Structural)]
pub enum Category {
    Accelerometer,
    Humidity,
    HumidityTemperature,
    PushButton,
    Temperature,
}

/// Metadata of one value of a reading: its label, its scaling and its unit.
#[derive(Debug, Copy, Clone, PartialEq, Eq, Structural)]
pub struct ReadingAxis {
    pub label: Label,
    pub scaling: i8,
    pub unit: PhysicalUnit,
}

impl ReadingAxis {
    /// Creates a new reading axis.
    pub fn new(label: Label, scaling: i8, unit: PhysicalUnit) -> (r: Self)
        ensures
            r.label == label,
            r.scaling == scaling,
            r.unit == unit,
    {
        Self { label, scaling, unit }
    }

    /// Returns the label of the axis.
    pub fn label(&self) -> (r: Label)
        ensures
            r == self.label,
    {
        self.label
    }

    /// Returns the scaling of the axis.
    pub fn scaling(&self) -> (r: i8)
        ensures
            r == self.scaling,
    {
        self.scaling
    }

    /// Returns the unit of the axis.
    pub fn unit(&self) -> (r: PhysicalUnit)
        ensures
            r == self.unit,
    {
        self.unit
    }
}

/// A reading: one or more values, of which the first is the main one.
pub trait Reading {
    /// The values of the reading, in their fixed order.
    spec fn spec_values(&self) -> Seq<PhysicalValue>;

    /// Returns the first value of the reading.
    fn value(&self) -> (r: PhysicalValue)
        requires
            self.spec_values().len() > 0,
        ensures
            r == self.spec_values()[0],
    ;

    /// Returns the values of the reading, in their fixed order.
    fn values(&self) -> (r: Vec<PhysicalValue>)
        ensures
            r@ == self.spec_values(),
    ;
}

/// The values returned by a sensor driver; there is a variant for each number of values a
/// reading may hold.
#[derive(Debug, Copy, Clone)]
pub enum PhysicalValues {
    V1([PhysicalValue; 1]),
    V2([PhysicalValue; 2]),
    V3([PhysicalValue; 3]),
}

impl PhysicalValues {
    /// The values held, in order.
    pub open spec fn spec_seq(&self) -> Seq<PhysicalValue> {
        match self {
            PhysicalValues::V1(a) => a@,
            PhysicalValues::V2(a) => a@,
            PhysicalValues::V3(a) => a@,
        }
    }
}

impl Reading for PhysicalValues {
    open spec fn spec_values(&self) -> Seq<PhysicalValue> {
        self.spec_seq()
    }

    fn value(&self) -> (r: PhysicalValue) {
        match self {
            Self::V1(values) => values[0],
            Self::V2(values) => values[0],
            Self::V3(values) => values[0],
        }
    }

    fn values(&self) -> (r: Vec<PhysicalValue>) {
        let mut r: Vec<PhysicalValue> = Vec::new();
        match self {
            Self::V1(values) => {
                r.push(values[0]);
            },
            Self::V2(values) => {
                r.push(values[0]);
                r.push(values[1]);
            },
            Self::V3(values) => {
                r.push(values[0]);
                r.push(values[1]);
                r.push(values[2]);
            },
        }
        assert(r@ =~= self.spec_seq());
        r
    }
}

/// A reading always holds a value: one to three of them, so that its first value, which
/// `value` returns, always exists.
pub proof fn law_reading_never_empty(reading: PhysicalValues)
    ensures
        1 <= reading.spec_values().len() <= 3,
{
}

/// Metadata of the values returned by a sensor driver: one axis for each value, in the same
/// number and order.
#[derive(Debug, Copy, Clone)]
pub enum ReadingAxes {
    V1([ReadingAxis; 1]),
    V2([ReadingAxis; 2]),
    V3([ReadingAxis; 3]),
}

impl ReadingAxes {
    /// The axes held, in order.
    pub open spec fn spec_seq(&self) -> Seq<ReadingAxis> {
        match self {
            ReadingAxes::V1(a) => a@,
            ReadingAxes::V2(a) => a@,
            ReadingAxes::V3(a) => a@,
        }
    }

    /// Returns the axes, in order.
    pub fn iter(&self) -> (r: Vec<ReadingAxis>)
        ensures
            r@ == self.spec_seq(),
    {
        let mut r: Vec<ReadingAxis> = Vec::new();
        match self {
            Self::V1(axes) => {
                r.push(axes[0]);
            },
            Self::V2(axes) => {
                r.push(axes[0]);
                r.push(axes[1]);
            },
            Self::V3(axes) => {
                r.push(axes[0]);
                r.push(axes[1]);
                r.push(axes[2]);
            },
        }
        assert(r@ =~= self.spec_seq());
        r
    }

    /// Returns the first axis.
    pub fn first(&self) -> (r: ReadingAxis)
        ensures
            r == self.spec_seq()[0],
    {
        let axes = self.iter();
        axes[0]
    }
}

/// Axes and values match one to one: a reading and its axes of the same variant have as many
/// entries.
pub proof fn law_axes_match_values(axes: ReadingAxes, values: PhysicalValues)
    requires
        (axes is V1 && values is V1) || (axes is V2 && values is V2) || (axes is V3 && values is V3),
    ensures
        axes.spec_seq().len() == values.spec_values().len(),
{
}

} // verus!
