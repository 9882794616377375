//! SPI bus parameters shared by all MCU families: frequencies, clock modes and bit orders.
use vstd::prelude::*;

verus! {

/// SPI bus frequency, as offered on every MCU family.
#[derive(Debug, Copy, Clone, PartialEq, Eq, Structural)]
pub enum Frequency {
    /// 125 kHz.
    _125k,
    /// 250 kHz.
    _250k,
    /// 500 kHz.
    _500k,
    /// 1 MHz.
    _1M,
    /// 2 MHz.
    _2M,
    /// 4 MHz.
    _4M,
    /// 8 MHz.
    _8M,
}

impl Frequency {
    /// Position of the frequency on the ladder that starts at 125 kHz and doubles at each step.
    pub open spec fn rank(self) -> int {
        match self {
            Frequency::_125k => 0,
            Frequency::_250k => 1,
            Frequency::_500k => 2,
            Frequency::_1M => 3,
            Frequency::_2M => 4,
            Frequency::_4M => 5,
            Frequency::_8M => 6,
        }
    }
}

/// Clock polarity: the level of the clock line when idle (CPOL).
#[derive(Debug, Copy, Clone, PartialEq, Eq, Structural)]
pub enum Polarity {
    /// The clock is low when idle (CPOL = 0).
    IdleLow,
    /// The clock is high when idle (CPOL = 1).
    IdleHigh,
}

/// Clock phase: the clock edge on which data is captured (CPHA).
#[derive(Debug, Copy, Clone, PartialEq, Eq, Structural)]
pub enum Phase {
    /// Data is captured on the first clock transition (CPHA = 0).
    CaptureOnFirstTransition,
    /// Data is captured on the second clock transition (CPHA = 1).
    CaptureOnSecondTransition,
}

impl Polarity {
    /// CPOL, as a bit.
    pub open spec fn bit(self) -> int {
        match self {
            Polarity::IdleLow => 0,
            Polarity::IdleHigh => 1,
        }
    }
}

impl Phase {
    /// CPHA, as a bit.
    pub open spec fn bit(self) -> int {
        match self {
            Phase::CaptureOnFirstTransition => 0,
            Phase::CaptureOnSecondTransition => 1,
        }
    }
}

/// SPI mode, numbered as usual: the mode number is `2·CPOL + CPHA`.
#[derive(Debug, Copy, Clone, PartialEq, Eq, Structural)]
pub enum Mode {
    /// CPOL = 0, CPHA = 0.
    Mode0,
    /// CPOL = 0, CPHA = 1.
    Mode1,
    /// CPOL = 1, CPHA = 0.
    Mode2,
    /// CPOL = 1, CPHA = 1.
    Mode3,
}

impl Mode {
    /// The mode number.
    pub open spec fn number(self) -> int {
        match self {
            Mode::Mode0 => 0,
            Mode::Mode1 => 1,
            Mode::Mode2 => 2,
            Mode::Mode3 => 3,
        }
    }
}

/// The clock polarity and phase of the mode numbered `number`.
pub open spec fn spec_clock_of_mode(number: int) -> (Polarity, Phase) {
    (
        if number / 2 == 0 { Polarity::IdleLow } else { Polarity::IdleHigh },
        if number % 2 == 0 { Phase::CaptureOnFirstTransition } else { Phase::CaptureOnSecondTransition },
    )
}

/// Returns the clock polarity and phase of an SPI mode.
pub fn clock_of_mode(mode: Mode) -> (r: (Polarity, Phase))
    ensures
        r == spec_clock_of_mode(mode.number()),
        2 * r.0.bit() + r.1.bit() == mode.number(),
{
    match mode {
        Mode::Mode0 => (Polarity::IdleLow, Phase::CaptureOnFirstTransition),
        Mode::Mode1 => (Polarity::IdleLow, Phase::CaptureOnSecondTransition),
        Mode::Mode2 => (Polarity::IdleHigh, Phase::CaptureOnFirstTransition),
        Mode::Mode3 => (Polarity::IdleHigh, Phase::CaptureOnSecondTransition),
    }
}

/// Every polarity and phase belong to exactly one mode: the one numbered `2·CPOL + CPHA`.
pub proof fn law_clock_modes_are_distinct(a: Mode, b: Mode)
    ensures
        spec_clock_of_mode(a.number()) == spec_clock_of_mode(b.number()) <==> a == b,
        forall|p: Polarity, h: Phase| #![auto] spec_clock_of_mode(2 * p.bit() + h.bit()) == (p, h),
{
}

/// Order in which the bits of a word are sent on the bus.
#[derive(Debug, Copy, Clone, PartialEq, Eq, Structural)]
pub enum BitOrder {
    /// Most significant bit first.
    MsbFirst,
    /// Least significant bit first.
    LsbFirst,
}

impl Default for BitOrder {
    /// Most significant bit first.
    fn default() -> (r: Self)
        ensures
            r == BitOrder::MsbFirst,
    {
        BitOrder::MsbFirst
    }
}

} // verus!
