//! SPI bus parameters of the RP2040: frequencies, clock modes and the bus configuration.
use vstd::prelude::*;
use vstd::std_specs::convert::FromSpecImpl;
use crate::spi_shared;
use crate::spi_shared::{Phase, Polarity};

verus! {

/// SPI bus frequency on the RP2040, each variant carrying its value in Hz.
#[derive(Debug, Copy, Clone, PartialEq, Eq, Structural)]
pub enum Frequency {
    K125,
    K250,
    /// Carries 50 000 Hz, a tenth of what its name reads.
    K500,
    M1,
    M2,
    M4,
    M8,
    M16,
    M32,
}

impl Frequency {
    /// The value of the variant, in Hz.
    pub open spec fn spec_hz(self) -> int {
        match self {
            Frequency::K125 => 125_000,
            Frequency::K250 => 250_000,
            Frequency::K500 => 50_000,
            Frequency::M1 => 1_000_000,
            Frequency::M2 => 2_000_000,
            Frequency::M4 => 4_000_000,
            Frequency::M8 => 8_000_000,
            Frequency::M16 => 16_000_000,
            Frequency::M32 => 32_000_000,
        }
    }

    /// Returns the value of the variant in Hz, as handed to the SPI peripheral.
    pub fn hz(self) -> (r: u32)
        ensures
            r == self.spec_hz(),
    {
        match self {
            Self::K125 => 125_000,
            Self::K250 => 250_000,
            Self::K500 => 50_000,
            Self::M1 => 1_000_000,
            Self::M2 => 2_000_000,
            Self::M4 => 4_000_000,
            Self::M8 => 8_000_000,
            Self::M16 => 16_000_000,
            Self::M32 => 32_000_000,
        }
    }
}

/// SPI mode on the RP2040, numbered as usual.
#[derive(Debug, Copy, Clone, PartialEq, Eq, Structural)]
pub enum Mode {
    Mode0,
    Mode1,
    Mode2,
    Mode3,
}

impl Mode {
    /// The mode number.
    pub open spec fn number(self) -> int {
        match self {
            Mode::Mode0 => 0,
            Mode::Mode1 => 1,
            Mode::Mode2 => 2,
            Mode::Mode3 => 3,
        }
    }
}

impl From<Mode> for (Polarity, Phase) {
    fn from(mode: Mode) -> (r: Self) {
        match mode {
            Mode::Mode0 => (Polarity::IdleLow, Phase::CaptureOnFirstTransition),
            Mode::Mode1 => (Polarity::IdleLow, Phase::CaptureOnSecondTransition),
            Mode::Mode2 => (Polarity::IdleHigh, Phase::CaptureOnFirstTransition),
            Mode::Mode3 => (Polarity::IdleHigh, Phase::CaptureOnSecondTransition),
        }
    }
}

impl FromSpecImpl<Mode> for (Polarity, Phase) {
    open spec fn obeys_from_spec() -> bool {
        true
    }

    open spec fn from_spec(v: Mode) -> (Polarity, Phase) {
        spi_shared::spec_clock_of_mode(v.number())
    }
}

/// Configuration of the SPI bus on the RP2040.
#[derive(Debug, Copy, Clone, PartialEq, Eq, Structural)]
pub struct Config {
    pub frequency: Frequency,
    pub mode: Mode,
}

impl Default for Config {
    /// 1 MHz, mode 0.
    fn default() -> (r: Self)
        ensures
            r == (Config { frequency: Frequency::M1, mode: Mode::Mode0 }),
    {
        Config { frequency: Frequency::M1, mode: Mode::Mode0 }
    }
}

/// Settings handed to the SPI peripheral for a bus configuration.
#[derive(Debug, Copy, Clone, PartialEq, Eq, Structural)]
pub struct PeripheralSettings {
    pub frequency_hz: u32,
    pub polarity: Polarity,
    pub phase: Phase,
}

/// Returns the settings of the SPI peripheral for a bus configuration: the frequency in Hz
/// and the clock polarity and phase of the mode.
pub fn peripheral_settings(config: Config) -> (r: PeripheralSettings)
    ensures
        r.frequency_hz == config.frequency.spec_hz(),
        (r.polarity, r.phase) == spi_shared::spec_clock_of_mode(config.mode.number()),
{
    let (polarity, phase): (Polarity, Phase) = config.mode.into();
    PeripheralSettings { frequency_hz: config.frequency.hz(), polarity, phase }
}

} // verus!
