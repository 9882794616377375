//! Interrupts of sensor devices and the events they report.
use vstd::prelude::*;
use embassy_time::Duration;
use crate::codegen::concat;

verus! {

/// `embassy_time::Duration`, a span of time.
#[verifier::external_type_specification]
#[verifier::external_body]
pub struct ExDuration(Duration);

/// An interrupt line of a sensor device.
#[derive(Debug, Copy, Clone, PartialEq, Eq, Structural)]
pub enum DeviceInterrupt {
    Int0,
    Int1,
    Int2,
    Int3,
}

impl DeviceInterrupt {
    /// The name of the interrupt line.
    pub open spec fn spec_name(self) -> Seq<char> {
        match self {
            DeviceInterrupt::Int0 => "INT0"@,
            DeviceInterrupt::Int1 => "INT1"@,
            DeviceInterrupt::Int2 => "INT2"@,
            DeviceInterrupt::Int3 => "INT3"@,
        }
    }

    /// Returns the name of the interrupt line, as displayed.
    pub fn name(&self) -> (r: &'static str)
        ensures
            r@ == self.spec_name(),
    {
        match self {
            Self::Int0 => "INT0",
            Self::Int1 => "INT1",
            Self::Int2 => "INT2",
            Self::Int3 => "INT3",
        }
    }
}

/// Whether the device interrupt is directly connected to the MCU input or combined with
/// another interrupt.
#[derive(Debug, Copy, Clone, PartialEq, Eq, Structural)]
pub enum InterruptPin {
    Direct,
    Combined,
}

/// An event an interrupt reports.
#[derive(Debug, Copy, Clone, PartialEq, Eq, Structural)]
pub enum InterruptEventKind {
    Accelerometer(AccelerometerInterruptEvent),
}

impl InterruptEventKind {
    /// The description of the event.
    pub open spec fn spec_description(self) -> Seq<char> {
        match self {
            InterruptEventKind::Accelerometer(event) => event.spec_description(),
        }
    }

    /// Returns the description of the event, as displayed.
    pub fn description(&self) -> (r: &'static str)
        ensures
            r@ == self.spec_description(),
    {
        match self {
            Self::Accelerometer(event) => event.description(),
        }
    }
}

/// An event of an accelerometer.
#[derive(Debug, Copy, Clone, PartialEq, Eq, Structural)]
pub enum AccelerometerInterruptEvent {
    /// Acceleration values are below a given threshold on all axes.
    LowG,
    /// Same as `LowG`, but with thresholds provided by the sensor driver; only on 3-axis
    /// accelerometers.
    FreeFall,
    Movement,
    Tap,
    DoubleTap,
}

impl AccelerometerInterruptEvent {
    /// The description of the event.
    pub open spec fn spec_description(self) -> Seq<char> {
        match self {
            AccelerometerInterruptEvent::LowG => "low g"@,
            AccelerometerInterruptEvent::FreeFall => "free fall"@,
            AccelerometerInterruptEvent::Movement => "movement"@,
            AccelerometerInterruptEvent::Tap => "tap"@,
            AccelerometerInterruptEvent::DoubleTap => "double tap"@,
        }
    }

    /// Returns the description of the event, as displayed.
    pub fn description(&self) -> (r: &'static str)
        ensures
            r@ == self.spec_description(),
    {
        match self {
            Self::LowG => "low g",
            Self::FreeFall => "free fall",
            Self::Movement => "movement",
            Self::Tap => "tap",
            Self::DoubleTap => "double tap",
        }
    }
}

/// An event reported by an interrupt, with how long it lasted when known.
pub struct InterruptEvent {
    pub kind: InterruptEventKind,
    pub duration: Option<Duration>,
}

/// Errors when configuring the interrupts of a sensor.
#[derive(Debug, Copy, Clone, PartialEq, Eq, Structural)]
pub enum InterruptError {
    UnsupportedDeviceInterrupt { interrupt: DeviceInterrupt },
    UnsupportedInterruptEventKind { event_kind: InterruptEventKind },
}

impl InterruptError {
    /// The description of the error.
    pub open spec fn spec_message(self) -> Seq<char> {
        match self {
            InterruptError::UnsupportedDeviceInterrupt { interrupt } => "device interrupt `"@
                + interrupt.spec_name() + "` is not supported for sensor"@,
            InterruptError::UnsupportedInterruptEventKind { event_kind } => "interrupt event `"@
                + event_kind.spec_description() + "` is not supported for sensor"@,
        }
    }

    /// Returns the description of the error.
    pub fn message(&self) -> (r: String)
        ensures
            r@ == self.spec_message(),
    {
        match self {
            Self::UnsupportedDeviceInterrupt { interrupt } => {
                let mut r = concat("device interrupt `", interrupt.name());
                r.append("` is not supported for sensor");
                r
            },
            Self::UnsupportedInterruptEventKind { event_kind } => {
                let mut r = concat("interrupt event `", event_kind.description());
                r.append("` is not supported for sensor");
                r
            },
        }
    }
}

} // verus!
