//! SPI bus parameters in main mode: bus frequencies, clock modes and bit orders.
use vstd::prelude::*;

verus! {

/// Clock frequency of an SPI bus, as supported by the generic MCU driver.
///
/// The supported frequencies form a ladder from 125 kHz to 8 MHz, each step doubling the
/// previous one.
#[derive(Debug, Copy, Clone, PartialEq, Eq, Structural)]
pub enum Frequency {
    /// 125 kHz.
    _125k,
    /// 250 kHz.
    _250k,
    /// 500 kHz.
    _500k,
    /// 1 MHz.
    _1M,
    /// 2 MHz.
    _2M,
    /// 4 MHz.
    _4M,
    /// 8 MHz.
    _8M,
    /// Placeholder of the generic driver; no MCU offers it as a bus frequency.
    Hidden,
}

/// `2^n`, for a step count on a frequency ladder.
pub open spec fn doubling(n: nat) -> nat
    decreases n,
{
    if n == 0 { 1 } else { 2 * doubling((n - 1) as nat) }
}

impl Frequency {
    /// Position of the frequency on the ladder, counted from 125 kHz.
    pub open spec fn rank(self) -> int {
        match self {
            Frequency::_125k => 0,
            Frequency::_250k => 1,
            Frequency::_500k => 2,
            Frequency::_1M => 3,
            Frequency::_2M => 4,
            Frequency::_4M => 5,
            Frequency::_8M => 6,
            Frequency::Hidden => -1,
        }
    }

    /// Number of steps on the ladder.
    pub open spec fn steps() -> int {
        7
    }

    /// A real (non-hidden) frequency.
    pub open spec fn is_real(self) -> bool {
        !(self is Hidden)
    }

    /// The frequency at the given position of the ladder, if there is one.
    pub open spec fn at_rank(i: int) -> Option<Frequency> {
        if 0 <= i < Self::steps() {
            Some(choose|f: Frequency| f.is_real() && f.rank() == i)
        } else {
            None
        }
    }

    /// The frequency in kHz, as a ladder starting at 125 kHz where each step doubles.
    pub open spec fn spec_khz(self) -> int {
        (125 * doubling(self.rank() as nat)) as int
    }

    /// Returns the lowest frequency.
    pub fn first() -> (r: Self)
        ensures
            r.is_real(),
            r.rank() == 0,
    {
        Self::_125k
    }

    /// Returns the highest frequency.
    pub fn last() -> (r: Self)
        ensures
            r.is_real(),
            r.rank() == Self::steps() - 1,
    {
        Self::_8M
    }

    /// Returns the next higher frequency, or `None` for the highest one.
    pub fn next(self) -> (r: Option<Self>)
        requires
            self.is_real(),
        ensures
            r == Self::at_rank(self.rank() + 1),
    {
        proof { Self::lemma_ranks(); }
        match self {
            Self::_125k => Some(Self::_250k),
            Self::_250k => Some(Self::_500k),
            Self::_500k => Some(Self::_1M),
            Self::_1M => Some(Self::_2M),
            Self::_2M => Some(Self::_4M),
            Self::_4M => Some(Self::_8M),
            Self::_8M => None,
            Self::Hidden => None,
        }
    }

    /// Returns the next lower frequency, or `None` for the lowest one.
    pub fn prev(self) -> (r: Option<Self>)
        requires
            self.is_real(),
        ensures
            r == Self::at_rank(self.rank() - 1),
    {
        proof { Self::lemma_ranks(); }
        match self {
            Self::_125k => None,
            Self::_250k => Some(Self::_125k),
            Self::_500k => Some(Self::_250k),
            Self::_1M => Some(Self::_500k),
            Self::_2M => Some(Self::_1M),
            Self::_4M => Some(Self::_2M),
            Self::_8M => Some(Self::_4M),
            Self::Hidden => None,
        }
    }

    /// Returns the frequency in kHz.
    pub fn khz(self) -> (r: u32)
        requires
            self.is_real(),
        ensures
            r == self.spec_khz(),
    {
        proof { reveal_with_fuel(doubling, 7); }
        match self {
            Self::_125k => 125,
            Self::_250k => 250,
            Self::_500k => 500,
            Self::_1M => 1000,
            Self::_2M => 2000,
            Self::_4M => 4000,
            Self::_8M => 8000,
            Self::Hidden => 0,
        }
    }

    /// Each position of the ladder holds exactly one real frequency.
    pub proof fn lemma_ranks()
        ensures
            forall|f: Frequency| f.is_real() ==> 0 <= #[trigger] f.rank() < Self::steps(),
            forall|f: Frequency| #[trigger] f.is_real() ==> Self::at_rank(f.rank()) == Some(f),
            forall|i: int| 0 <= i < Self::steps() ==> ((#[trigger] Self::at_rank(i)) matches Some(g)
                && g.is_real() && g.rank() == i),
    {
        assert(Frequency::_125k.rank() == 0);
        assert(Frequency::_250k.rank() == 1);
        assert(Frequency::_500k.rank() == 2);
        assert(Frequency::_1M.rank() == 3);
        assert(Frequency::_2M.rank() == 4);
        assert(Frequency::_4M.rank() == 5);
        assert(Frequency::_8M.rank() == 6);
        assert forall|f: Frequency| #[trigger] f.is_real() implies Self::at_rank(f.rank()) == Some(f) by {
            let g = choose|g: Frequency| g.is_real() && g.rank() == f.rank();
            assert(g.is_real() && g.rank() == f.rank());
        }
    }
}

/// Going one step up and one step down the ladder are inverse: `f.next()` is `g` exactly when
/// `g.prev()` is `f`.
pub proof fn law_next_prev_inverse(f: Frequency, g: Frequency)
    requires
        f.is_real(),
        g.is_real(),
    ensures
        (Frequency::at_rank(f.rank() + 1) == Some(g)) <==> (Frequency::at_rank(g.rank() - 1) == Some(f)),
{
    Frequency::lemma_ranks();
    if Frequency::at_rank(f.rank() + 1) == Some(g) {
        assert(g.rank() == f.rank() + 1);
    }
    if Frequency::at_rank(g.rank() - 1) == Some(f) {
        assert(f.rank() == g.rank() - 1);
    }
}

/// Each step up the ladder doubles the frequency.
pub proof fn law_next_doubles(f: Frequency, g: Frequency)
    requires
        f.is_real(),
        Frequency::at_rank(f.rank() + 1) == Some(g),
    ensures
        g.spec_khz() == 2 * f.spec_khz(),
{
    Frequency::lemma_ranks();
    assert(g.rank() == f.rank() + 1);
}

/// The lowest frequency has nothing below it and the highest nothing above it.
pub proof fn law_ladder_ends()
    ensures
        Frequency::at_rank(Frequency::_125k.rank() - 1) is None,
        Frequency::at_rank(Frequency::_8M.rank() + 1) is None,
{
}

} // verus!
