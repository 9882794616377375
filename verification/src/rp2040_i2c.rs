//! I2C bus parameters of the RP2040.
use vstd::prelude::*;

verus! {

/// I2C bus frequency on the RP2040, each variant carrying its value in Hz.
#[derive(Debug, Copy, Clone, PartialEq, Eq, Structural)]
pub enum Frequency {
    K100,
    K250,
    K400,
}

impl Frequency {
    /// The value of the variant, in Hz.
    pub open spec fn spec_hz(self) -> int {
        match self {
            Frequency::K100 => 100_000,
            Frequency::K250 => 250_000,
            Frequency::K400 => 400_000,
        }
    }

    /// Returns the value of the variant in Hz, as handed to the I2C peripheral.
    pub fn hz(self) -> (r: u32)
        ensures
            r == self.spec_hz(),
            r == 1000 * self.named_khz(),
    {
        match self {
            Self::K100 => 100_000,
            Self::K250 => 250_000,
            Self::K400 => 400_000,
        }
    }
}

/// Configuration of an I2C bus on the RP2040. Internal pull-ups are not offered: the GPIOs
/// used are expected to have them enabled.
#[derive(Debug, Copy, Clone, PartialEq, Eq, Structural)]
pub struct Config {
    pub frequency: Frequency,
}

impl Default for Config {
    /// 100 kHz.
    fn default() -> (r: Self)
        ensures
            r == (Config { frequency: Frequency::K100 }),
    {
        Config { frequency: Frequency::K100 }
    }
}

impl Frequency {
    /// The frequency the variant's name reads, in kHz: `K100` reads 100 kHz.
    pub open spec fn named_khz(self) -> int {
        match self {
            Frequency::K100 => 100,
            Frequency::K250 => 250,
            Frequency::K400 => 400,
        }
    }
}

/// Each I2C frequency is the one its name reads, in whole kilohertz; the frequencies rise in
/// the order of the variants and stay within the standard (100 kHz) to fast (400 kHz) modes of
/// the bus, and the default configuration runs the bus in standard mode.
pub proof fn law_frequency_is_its_name(f: Frequency)
    ensures
        f.spec_hz() == 1000 * f.named_khz(),
        100_000 <= f.spec_hz() <= 400_000,
        Frequency::K100.spec_hz() < Frequency::K250.spec_hz() < Frequency::K400.spec_hz(),
        Frequency::K100.spec_hz() == 100_000,
{
}

} // verus!
