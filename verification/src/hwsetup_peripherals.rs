//! The MCU peripherals (GPIOs) a sensor uses besides its bus.
use vstd::prelude::*;
use crate::hwsetup::{opt_as_str, opt_str_view, opt_string_view, Conditioned};
use crate::sealed::Sealed;

verus! {

/// The peripherals used by a sensor, in the order of the setup file.
pub struct Peripherals(pub Vec<Peripheral>);

/// The inputs among `ps`, in order.
pub open spec fn inputs_of(ps: Seq<Peripheral>) -> Seq<Input>
    decreases ps.len(),
{
    if ps.len() == 0 {
        Seq::empty()
    } else {
        let rest = inputs_of(ps.drop_last());
        match ps.last() {
            Peripheral::Input(input) => rest.push(input),
            Peripheral::Output(_) => rest,
        }
    }
}

impl Peripherals {
    /// Returns all the peripherals.
    pub fn get(&self) -> (r: &[Peripheral])
        ensures
            r@ == self.0@,
    {
        self.0.as_slice()
    }

    /// Returns the input peripherals, in order.
    pub fn inputs(&self) -> (r: Vec<&Input>)
        ensures
            r@.len() == inputs_of(self.0@).len(),
            forall|i: int| 0 <= i < r@.len() ==> *r@[i] == inputs_of(self.0@)[i],
    {
        let mut r: Vec<&Input> = Vec::new();
        let mut k: usize = 0;
        while k < self.0.len()
            invariant
                k <= self.0@.len(),
                r@.len() == inputs_of(self.0@.take(k as int)).len(),
                forall|i: int| 0 <= i < r@.len() ==> *r@[i] == inputs_of(self.0@.take(k as int))[i],
            decreases self.0@.len() - k,
        {
            assert(self.0@.take(k + 1).drop_last() =~= self.0@.take(k as int));
            match &self.0[k] {
                Peripheral::Input(input) => {
                    r.push(input);
                },
                Peripheral::Output(_) => {},
            }
            k = k + 1;
        }
        assert(self.0@.take(self.0@.len() as int) =~= self.0@);
        r
    }
}

/// A peripheral used by a sensor.
pub enum Peripheral {
    Input(Input),
    Output(Output),
}

/// A GPIO input.
pub struct Input {
    pub pin: String,
    pub on: Option<String>,
    pub when: Option<String>,
    pub pull: PullResistor,
}

impl Input {
    /// Returns the name of the pin.
    pub fn pin(&self) -> (r: &str)
        ensures
            r@ == self.pin@,
    {
        self.pin.as_str()
    }

    /// Returns the pull resistor setting.
    pub fn pull(&self) -> (r: PullResistor)
        ensures
            r == self.pull,
    {
        self.pull
    }
}

impl Sealed for Input {}

impl Conditioned for Input {
    open spec fn spec_on(&self) -> Option<Seq<char>> {
        opt_string_view(self.on)
    }

    open spec fn spec_when(&self) -> Option<Seq<char>> {
        opt_string_view(self.when)
    }

    fn on(&self) -> (r: Option<&str>) {
        opt_as_str(&self.on)
    }

    fn when(&self) -> (r: Option<&str>) {
        opt_as_str(&self.when)
    }
}

/// A GPIO output.
pub struct Output {
    pub pin: String,
    pub on: Option<String>,
}

/// Setting of the pull resistor of an input.
#[derive(Debug, Copy, Clone, PartialEq, Eq, Structural)]
pub enum PullResistor {
    Up,
    Down,
    /// No pull resistor (`none` in the setup file).
    NoPull,
}

} // verus!
