//! SPI clock modes and bit orders of the nRF family.
use vstd::prelude::*;
use vstd::std_specs::convert::FromSpecImpl;
use crate::spi_shared;
use crate::spi_shared::{Phase, Polarity};

verus! {

/// SPI mode on nRF MCUs, numbered as usual.
#[derive(Debug, Copy, Clone, PartialEq, Eq, Structural)]
pub enum Mode {
    Mode0,
    Mode1,
    Mode2,
    Mode3,
}

impl Mode {
    /// The mode number.
    pub open spec fn number(self) -> int {
        match self {
            Mode::Mode0 => 0,
            Mode::Mode1 => 1,
            Mode::Mode2 => 2,
            Mode::Mode3 => 3,
        }
    }
}

impl From<Mode> for (Polarity, Phase) {
    fn from(mode: Mode) -> (r: Self) {
        match mode {
            Mode::Mode0 => (Polarity::IdleLow, Phase::CaptureOnFirstTransition),
            Mode::Mode1 => (Polarity::IdleLow, Phase::CaptureOnSecondTransition),
            Mode::Mode2 => (Polarity::IdleHigh, Phase::CaptureOnFirstTransition),
            Mode::Mode3 => (Polarity::IdleHigh, Phase::CaptureOnSecondTransition),
        }
    }
}

impl FromSpecImpl<Mode> for (Polarity, Phase) {
    open spec fn obeys_from_spec() -> bool {
        true
    }

    open spec fn from_spec(v: Mode) -> (Polarity, Phase) {
        spi_shared::spec_clock_of_mode(v.number())
    }
}

/// Order in which the bits of a word are sent on the bus.
#[derive(Debug, Copy, Clone, PartialEq, Eq, Structural)]
pub enum BitOrder {
    MsbFirst,
    LsbFirst,
}

impl From<BitOrder> for spi_shared::BitOrder {
    fn from(bit_order: BitOrder) -> (r: Self) {
        match bit_order {
            BitOrder::MsbFirst => spi_shared::BitOrder::MsbFirst,
            BitOrder::LsbFirst => spi_shared::BitOrder::LsbFirst,
        }
    }
}

impl FromSpecImpl<BitOrder> for spi_shared::BitOrder {
    open spec fn obeys_from_spec() -> bool {
        true
    }

    open spec fn from_spec(v: BitOrder) -> spi_shared::BitOrder {
        match v {
            BitOrder::MsbFirst => spi_shared::BitOrder::MsbFirst,
            BitOrder::LsbFirst => spi_shared::BitOrder::LsbFirst,
        }
    }
}

} // verus!
