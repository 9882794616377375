//! GPIO types of the placeholder MCU, for builds without a real MCU.
use vstd::prelude::*;
use core::marker::PhantomData;

verus! {

/// A pin usable both as input and as output.
pub struct Flex<'d> {
    pin: PhantomData<&'d ()>,
}

/// A pin used as input.
pub struct Input<'d> {
    pin: Flex<'d>,
}

/// A pin used as output.
pub struct Output<'d> {
    pin: Flex<'d>,
}

} // verus!
