//! The buses of the board, their MCU peripherals and their pins.
use vstd::prelude::*;
use crate::hwsetup::{opt_as_str, opt_str_view, opt_string_view, Conditioned};
use crate::sealed::Sealed;

verus! {

/// The buses of the board.
pub struct Buses {
    pub i2c: Vec<I2cBus>,
    pub spi: Vec<SpiBus>,
}

impl Buses {
    /// Returns the I2C buses.
    pub fn i2c(&self) -> (r: &[I2cBus])
        ensures
            r@ == self.i2c@,
    {
        self.i2c.as_slice()
    }

    /// Returns the SPI buses.
    pub fn spi(&self) -> (r: &[SpiBus])
        ensures
            r@ == self.spi@,
    {
        self.spi.as_slice()
    }
}

/// An I2C bus: a name, and the MCU peripheral that drives it on each context, by peripheral
/// name.
pub struct I2cBus {
    pub name: String,
    pub peripheral: Vec<(String, I2cBusPeripheral)>,
}

impl I2cBus {
    /// Returns the name of the bus.
    pub fn name(&self) -> (r: &str)
        ensures
            r@ == self.name@,
    {
        self.name.as_str()
    }

    /// Returns the peripherals that may drive the bus, with their names.
    pub fn peripheral(&self) -> (r: &Vec<(String, I2cBusPeripheral)>)
        ensures
            r == &self.peripheral,
    {
        &self.peripheral
    }
}

/// An MCU peripheral driving an I2C bus, with its pins and frequency.
pub struct I2cBusPeripheral {
    pub on: Option<String>,
    pub when: Option<String>,
    pub sda: Vec<I2cPin>,
    pub scl: Vec<I2cPin>,
    pub frequency: I2cFrequency,
}

impl I2cBusPeripheral {
    /// Returns the data pins.
    pub fn sda(&self) -> (r: &[I2cPin])
        ensures
            r@ == self.sda@,
    {
        self.sda.as_slice()
    }

    /// Returns the clock pins.
    pub fn scl(&self) -> (r: &[I2cPin])
        ensures
            r@ == self.scl@,
    {
        self.scl.as_slice()
    }

    /// Returns the bus frequency.
    pub fn frequency(&self) -> (r: I2cFrequency)
        ensures
            r == self.frequency,
    {
        self.frequency
    }
}

impl Sealed for I2cBusPeripheral {}

impl Conditioned for I2cBusPeripheral {
    open spec fn spec_on(&self) -> Option<Seq<char>> {
        opt_string_view(self.on)
    }

    open spec fn spec_when(&self) -> Option<Seq<char>> {
        opt_string_view(self.when)
    }

    fn on(&self) -> (r: Option<&str>) {
        opt_as_str(&self.on)
    }

    fn when(&self) -> (r: Option<&str>) {
        opt_as_str(&self.when)
    }
}

/// A pin of an I2C bus.
#[derive(Clone)]
pub struct I2cPin {
    pub pin: String,
    pub pull_up: bool,
    pub on: Option<String>,
    pub when: Option<String>,
}

impl I2cPin {
    /// Returns the name of the pin.
    pub fn pin(&self) -> (r: &str)
        ensures
            r@ == self.pin@,
    {
        self.pin.as_str()
    }

    /// Returns whether the internal pull-up is enabled.
    pub fn pull_up(&self) -> (r: bool)
        ensures
            r == self.pull_up,
    {
        self.pull_up
    }
}

impl Sealed for I2cPin {}

impl Conditioned for I2cPin {
    open spec fn spec_on(&self) -> Option<Seq<char>> {
        opt_string_view(self.on)
    }

    open spec fn spec_when(&self) -> Option<Seq<char>> {
        opt_string_view(self.when)
    }

    fn on(&self) -> (r: Option<&str>) {
        opt_as_str(&self.on)
    }

    fn when(&self) -> (r: Option<&str>) {
        opt_as_str(&self.when)
    }
}

/// Frequency of an I2C bus.
#[derive(Debug, Copy, Clone, PartialEq, Eq, Structural)]
pub enum I2cFrequency {
    /// 100 kHz.
    K100,
    /// 250 kHz.
    K250,
    /// 400 kHz.
    K400,
}

/// An SPI bus: a name, and the MCU peripheral that drives it on each context, by peripheral
/// name.
pub struct SpiBus {
    pub name: String,
    pub peripheral: Vec<(String, SpiBusPeripheral)>,
}

impl SpiBus {
    /// Returns the name of the bus.
    pub fn name(&self) -> (r: &str)
        ensures
            r@ == self.name@,
    {
        self.name.as_str()
    }

    /// Returns the peripherals that may drive the bus, with their names.
    pub fn peripheral(&self) -> (r: &Vec<(String, SpiBusPeripheral)>)
        ensures
            r == &self.peripheral,
    {
        &self.peripheral
    }
}

/// An MCU peripheral driving an SPI bus, with its pins and settings.
pub struct SpiBusPeripheral {
    pub on: Option<String>,
    pub when: Option<String>,
    pub sck: Vec<SpiPin>,
    pub miso: Vec<SpiPin>,
    pub mosi: Vec<SpiPin>,
    pub frequency: SpiFrequency,
    pub mode: SpiMode,
    pub bit_order: SpiBitOrder,
}

impl SpiBusPeripheral {
    /// Returns the clock pins.
    pub fn sck(&self) -> (r: &[SpiPin])
        ensures
            r@ == self.sck@,
    {
        self.sck.as_slice()
    }

    /// Returns the main-in pins.
    pub fn miso(&self) -> (r: &[SpiPin])
        ensures
            r@ == self.miso@,
    {
        self.miso.as_slice()
    }

    /// Returns the main-out pins.
    pub fn mosi(&self) -> (r: &[SpiPin])
        ensures
            r@ == self.mosi@,
    {
        self.mosi.as_slice()
    }

    /// Returns the bus frequency.
    pub fn frequency(&self) -> (r: SpiFrequency)
        ensures
            r == self.frequency,
    {
        self.frequency
    }

    /// Returns the clock mode.
    pub fn mode(&self) -> (r: SpiMode)
        ensures
            r == self.mode,
    {
        self.mode
    }

    /// Returns the bit order.
    pub fn bit_order(&self) -> (r: SpiBitOrder)
        ensures
            r == self.bit_order,
    {
        self.bit_order
    }
}

impl Sealed for SpiBusPeripheral {}

impl Conditioned for SpiBusPeripheral {
    open spec fn spec_on(&self) -> Option<Seq<char>> {
        opt_string_view(self.on)
    }

    open spec fn spec_when(&self) -> Option<Seq<char>> {
        opt_string_view(self.when)
    }

    fn on(&self) -> (r: Option<&str>) {
        opt_as_str(&self.on)
    }

    fn when(&self) -> (r: Option<&str>) {
        opt_as_str(&self.when)
    }
}

/// A pin of an SPI bus, also used for chip selects.
#[derive(Clone)]
pub struct SpiPin {
    pub pin: String,
    pub on: Option<String>,
    pub when: Option<String>,
}

impl SpiPin {
    /// Returns the name of the pin.
    pub fn pin(&self) -> (r: &str)
        ensures
            r@ == self.pin@,
    {
        self.pin.as_str()
    }
}

impl Sealed for SpiPin {}

impl Conditioned for SpiPin {
    open spec fn spec_on(&self) -> Option<Seq<char>> {
        opt_string_view(self.on)
    }

    open spec fn spec_when(&self) -> Option<Seq<char>> {
        opt_string_view(self.when)
    }

    fn on(&self) -> (r: Option<&str>) {
        opt_as_str(&self.on)
    }

    fn when(&self) -> (r: Option<&str>) {
        opt_as_str(&self.when)
    }
}

/// Frequency of an SPI bus as written in the setup file.
#[derive(Debug, Copy, Clone, PartialEq, Eq, Structural)]
pub enum SpiFrequency {
    K125,
    K250,
    K500,
    M1,
    M2,
    M4,
    M8,
    M16,
    M32,
}

/// Clock mode of an SPI bus as written in the setup file.
#[derive(Debug, Copy, Clone, PartialEq, Eq, Structural)]
pub enum SpiMode {
    Mode0,
    Mode1,
    Mode2,
    Mode3,
}

/// Bit order of an SPI bus as written in the setup file.
#[derive(Debug, Copy, Clone, PartialEq, Eq, Structural)]
pub enum SpiBitOrder {
    MsbFirst,
    LsbFirst,
}

} // verus!
