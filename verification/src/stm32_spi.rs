//! SPI bus parameters of the STM32 family: a frequency ladder from 125 kHz to 32 MHz.
use vstd::prelude::*;
use vstd::std_specs::convert::FromSpecImpl;
use crate::spi::doubling;
use crate::spi_shared;
use crate::spi_shared::{BitOrder, Mode, Phase, Polarity};

verus! {

/// SPI bus frequency on STM32 MCUs.
#[derive(Debug, Copy, Clone, PartialEq, Eq, Structural)]
pub enum Frequency {
    /// 125 kHz.
    _125k,
    /// 250 kHz.
    _250k,
    /// 500 kHz.
    _500k,
    /// 1 MHz.
    _1M,
    /// 2 MHz.
    _2M,
    /// 4 MHz.
    _4M,
    /// 8 MHz.
    _8M,
    /// 16 MHz.
    _16M,
    /// 32 MHz.
    _32M,
}

impl Frequency {
    /// Position of the frequency on the ladder, counted from 125 kHz.
    pub open spec fn rank(self) -> int {
        match self {
            Frequency::_125k => 0,
            Frequency::_250k => 1,
            Frequency::_500k => 2,
            Frequency::_1M => 3,
            Frequency::_2M => 4,
            Frequency::_4M => 5,
            Frequency::_8M => 6,
            Frequency::_16M => 7,
            Frequency::_32M => 8,
        }
    }

    /// Number of steps on the ladder.
    pub open spec fn steps() -> int {
        9
    }

    /// The frequency at the given position of the ladder, if there is one.
    pub open spec fn at_rank(i: int) -> Option<Frequency> {
        if 0 <= i < Self::steps() {
            Some(choose|f: Frequency| f.rank() == i)
        } else {
            None
        }
    }

    /// The frequency in kHz: 125 kHz doubled once per step.
    pub open spec fn spec_khz(self) -> int {
        (125 * doubling(self.rank() as nat)) as int
    }

    /// Returns the lowest frequency.
    pub fn first() -> (r: Self)
        ensures
            r.rank() == 0,
    {
        Self::_125k
    }

    /// Returns the highest frequency.
    pub fn last() -> (r: Self)
        ensures
            r.rank() == Self::steps() - 1,
    {
        Self::_32M
    }

    /// Returns the next higher frequency, or `None` for the highest one.
    pub fn next(self) -> (r: Option<Self>)
        ensures
            r == Self::at_rank(self.rank() + 1),
    {
        proof { Self::lemma_ranks(); }
        match self {
            Self::_125k => Some(Self::_250k),
            Self::_250k => Some(Self::_500k),
            Self::_500k => Some(Self::_1M),
            Self::_1M => Some(Self::_2M),
            Self::_2M => Some(Self::_4M),
            Self::_4M => Some(Self::_8M),
            Self::_8M => Some(Self::_16M),
            Self::_16M => Some(Self::_32M),
            Self::_32M => None,
        }
    }

    /// Returns the next lower frequency, or `None` for the lowest one.
    pub fn prev(self) -> (r: Option<Self>)
        ensures
            r == Self::at_rank(self.rank() - 1),
    {
        proof { Self::lemma_ranks(); }
        match self {
            Self::_125k => None,
            Self::_250k => Some(Self::_125k),
            Self::_500k => Some(Self::_250k),
            Self::_1M => Some(Self::_500k),
            Self::_2M => Some(Self::_1M),
            Self::_4M => Some(Self::_2M),
            Self::_8M => Some(Self::_4M),
            Self::_16M => Some(Self::_8M),
            Self::_32M => Some(Self::_16M),
        }
    }

    /// Returns the frequency in kHz.
    pub fn khz(self) -> (r: u32)
        ensures
            r == self.spec_khz(),
    {
        proof { reveal_with_fuel(doubling, 9); }
        match self {
            Self::_125k => 125,
            Self::_250k => 250,
            Self::_500k => 500,
            Self::_1M => 1000,
            Self::_2M => 2000,
            Self::_4M => 4000,
            Self::_8M => 8000,
            Self::_16M => 16_000,
            Self::_32M => 32_000,
        }
    }

    /// Each position of the ladder holds exactly one frequency.
    pub proof fn lemma_ranks()
        ensures
            forall|f: Frequency| 0 <= #[trigger] f.rank() < Self::steps(),
            forall|f: Frequency| #[trigger] Self::at_rank(f.rank()) == Some(f),
            forall|i: int| 0 <= i < Self::steps() ==> ((#[trigger] Self::at_rank(i)) matches Some(g)
                && g.rank() == i),
    {
        assert(Frequency::_125k.rank() == 0);
        assert(Frequency::_250k.rank() == 1);
        assert(Frequency::_500k.rank() == 2);
        assert(Frequency::_1M.rank() == 3);
        assert(Frequency::_2M.rank() == 4);
        assert(Frequency::_4M.rank() == 5);
        assert(Frequency::_8M.rank() == 6);
        assert(Frequency::_16M.rank() == 7);
        assert(Frequency::_32M.rank() == 8);
        assert forall|f: Frequency| #[trigger] Self::at_rank(f.rank()) == Some(f) by {
            let g = choose|g: Frequency| g.rank() == f.rank();
            assert(g.rank() == f.rank());
        }
    }
}

impl From<spi_shared::Frequency> for Frequency {
    fn from(freq: spi_shared::Frequency) -> (r: Self) {
        match freq {
            spi_shared::Frequency::_125k => Frequency::_125k,
            spi_shared::Frequency::_250k => Frequency::_250k,
            spi_shared::Frequency::_500k => Frequency::_500k,
            spi_shared::Frequency::_1M => Frequency::_1M,
            spi_shared::Frequency::_2M => Frequency::_2M,
            spi_shared::Frequency::_4M => Frequency::_4M,
            spi_shared::Frequency::_8M => Frequency::_8M,
        }
    }
}

impl FromSpecImpl<spi_shared::Frequency> for Frequency {
    open spec fn obeys_from_spec() -> bool {
        true
    }

    open spec fn from_spec(v: spi_shared::Frequency) -> Frequency {
        Frequency::of_shared(v)
    }
}

impl Frequency {
    /// The frequency of the same value as a shared one.
    pub open spec fn of_shared(v: spi_shared::Frequency) -> Frequency {
        match v {
            spi_shared::Frequency::_125k => Frequency::_125k,
            spi_shared::Frequency::_250k => Frequency::_250k,
            spi_shared::Frequency::_500k => Frequency::_500k,
            spi_shared::Frequency::_1M => Frequency::_1M,
            spi_shared::Frequency::_2M => Frequency::_2M,
            spi_shared::Frequency::_4M => Frequency::_4M,
            spi_shared::Frequency::_8M => Frequency::_8M,
        }
    }
}

/// A frequency in hertz, as the SPI peripheral of STM32 MCUs is set to.
#[derive(Debug, Copy, Clone, PartialEq, Eq, Structural)]
pub struct Hertz(pub u32);

impl Hertz {
    /// The frequency of `kilohertz` kHz.
    pub fn khz(kilohertz: u32) -> (r: Self)
        requires
            kilohertz * 1000 <= u32::MAX,
        ensures
            r.0 == kilohertz * 1000,
    {
        Hertz(kilohertz * 1000)
    }

    /// The frequency of `megahertz` MHz.
    pub fn mhz(megahertz: u32) -> (r: Self)
        requires
            megahertz * 1_000_000 <= u32::MAX,
        ensures
            r.0 == megahertz * 1_000_000,
    {
        Hertz(megahertz * 1_000_000)
    }
}

impl From<Frequency> for Hertz {
    fn from(freq: Frequency) -> (r: Self) {
        proof { reveal_with_fuel(doubling, 9); }
        match freq {
            Frequency::_125k => Hertz::khz(125),
            Frequency::_250k => Hertz::khz(250),
            Frequency::_500k => Hertz::khz(500),
            Frequency::_1M => Hertz::mhz(1),
            Frequency::_2M => Hertz::mhz(2),
            Frequency::_4M => Hertz::mhz(4),
            Frequency::_8M => Hertz::mhz(8),
            Frequency::_16M => Hertz::mhz(16),
            Frequency::_32M => Hertz::mhz(32),
        }
    }
}

impl FromSpecImpl<Frequency> for Hertz {
    open spec fn obeys_from_spec() -> bool {
        true
    }

    /// A thousand hertz per kilohertz.
    open spec fn from_spec(v: Frequency) -> Hertz {
        Hertz((1000 * v.spec_khz()) as u32)
    }
}

/// Every frequency of the ladder, in hertz, fits the peripheral's 32-bit setting, so the hertz
/// value of a frequency is exactly a thousand times its kilohertz value.
pub proof fn law_hertz_fits(f: Frequency)
    ensures
        125_000 <= 1000 * f.spec_khz() <= 32_000_000,
{
    reveal_with_fuel(doubling, 9);
}

/// Going one step up and one step down the ladder are inverse: `f.next()` is `g` exactly when
/// `g.prev()` is `f`; and each step up doubles the frequency.
pub proof fn law_ladder_steps(f: Frequency, g: Frequency)
    ensures
        (Frequency::at_rank(f.rank() + 1) == Some(g)) <==> (Frequency::at_rank(g.rank() - 1) == Some(f)),
        Frequency::at_rank(f.rank() + 1) == Some(g) ==> g.spec_khz() == 2 * f.spec_khz(),
{
    Frequency::lemma_ranks();
    if Frequency::at_rank(f.rank() + 1) == Some(g) {
        assert(g.rank() == f.rank() + 1);
    }
    if Frequency::at_rank(g.rank() - 1) == Some(f) {
        assert(f.rank() == g.rank() - 1);
    }
}

/// A shared frequency converts to the STM32 frequency of the same value.
pub proof fn law_shared_frequency_keeps_value(freq: spi_shared::Frequency)
    ensures
        Frequency::of_shared(freq).rank() == freq.rank(),
        Frequency::of_shared(freq).spec_khz() == 125 * doubling(freq.rank() as nat),
{
}

/// Configuration of an SPI bus on STM32 MCUs.
#[derive(Debug, Copy, Clone, PartialEq, Eq, Structural)]
pub struct Config {
    pub frequency: Frequency,
    pub mode: Mode,
    pub bit_order: BitOrder,
}

impl Default for Config {
    /// 1 MHz, mode 0, most significant bit first.
    fn default() -> (r: Self)
        ensures
            r == (Config { frequency: Frequency::_1M, mode: Mode::Mode0, bit_order: BitOrder::MsbFirst }),
    {
        Config { frequency: Frequency::_1M, mode: Mode::Mode0, bit_order: BitOrder::default() }
    }
}

/// Returns the clock polarity and phase that the SPI peripheral is set to for a mode.
pub fn from_mode(mode: Mode) -> (r: (Polarity, Phase))
    ensures
        r == spi_shared::spec_clock_of_mode(mode.number()),
{
    spi_shared::clock_of_mode(mode)
}

} // verus!
