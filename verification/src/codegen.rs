//! Decisions of the code generators that set up the board: the build conditions of setup
//! items, the names of the generated statics and functions, and what each bus and sensor
//! needs at initialization.
use vstd::prelude::*;
use crate::hwsetup::{opt_string_view, Conditioned, HwSetup};
use crate::hwsetup_buses::{I2cBus, I2cBusPeripheral, I2cFrequency, SpiBitOrder, SpiBus, SpiBusPeripheral, SpiFrequency, SpiMode, SpiPin};
use crate::hwsetup_peripherals::{inputs_of, PullResistor};
use crate::hwsetup_sensors::{
    is_type_path_string, starts_with_at, ConfigNumber, Sensor, SensorBus, SensorConfig,
    SensorConfigValue, StringOrTypePath,
};
use crate::paths::{
    parse_parent_module_path, parse_type_name_from_type_path, spec_parent_module_path,
    spec_type_name,
};
use crate::text::{keys_distinct, spec_split, spec_trim, split, trim};

verus! {

/// A build condition `attr = "value"`, as in `#[cfg(attr = "value")]`.
pub struct CfgCondition {
    pub attr: String,
    pub value: String,
}

impl CfgCondition {
    pub open spec fn view(&self) -> (Seq<char>, Seq<char>) {
        (self.attr@, self.value@)
    }
}

/// The views of a list of build conditions.
pub open spec fn cfg_views(v: Seq<CfgCondition>) -> Seq<(Seq<char>, Seq<char>)> {
    v.map_values(|c: CfgCondition| c@)
}

/// The conditions `attr = "item"` for each item of a comma-separated list, each item trimmed
/// of surrounding white space; none when there is no list.
pub open spec fn spec_conditional_list(attr: Seq<char>, list: Option<Seq<char>>) -> Seq<
    (Seq<char>, Seq<char>),
> {
    match list {
        Some(l) => spec_split(l, ',').map_values(|p: Seq<char>| (attr, spec_trim(p))),
        None => Seq::empty(),
    }
}

/// Returns the conditions `cfg_attr = "item"` for the items of a comma-separated list.
pub fn parse_conditional_list(cfg_attr: &str, conditionals: Option<&str>) -> (r: Vec<CfgCondition>)
    ensures
        cfg_views(r@) == spec_conditional_list(
            cfg_attr@,
            match conditionals {
                Some(c) => Some(c@),
                None => None,
            },
        ),
{
    let mut r: Vec<CfgCondition> = Vec::new();
    match conditionals {
        Some(list) => {
            let pieces = split(list, ',');
            let ghost target = spec_split(list@, ',').map_values(
                |p: Seq<char>| (cfg_attr@, spec_trim(p)),
            );
            let mut i: usize = 0;
            while i < pieces.len()
                invariant
                    i <= pieces@.len(),
                    pieces@.len() == spec_split(list@, ',').len(),
                    forall|k: int|
                        0 <= k < pieces@.len() ==> (#[trigger] pieces@[k])@ == spec_split(
                            list@,
                            ',',
                        )[k],
                    target == spec_split(list@, ',').map_values(
                        |p: Seq<char>| (cfg_attr@, spec_trim(p)),
                    ),
                    cfg_views(r@) =~= target.take(i as int),
                decreases pieces@.len() - i,
            {
                let value = trim(pieces[i]);
                let c = CfgCondition { attr: String::from_str(cfg_attr), value: String::from_str(value) };
                assert(pieces@[i as int]@ == spec_split(list@, ',')[i as int]);
                assert(c@ == target[i as int]);
                let ghost before = r@;
                r.push(c);
                assert(cfg_views(r@) =~= cfg_views(before).push(c@));
                assert(target.take(i + 1) =~= target.take(i as int).push(target[i as int]));
                assert(cfg_views(r@) =~= target.take(i + 1));
                i = i + 1;
            }
            assert(target.take(pieces@.len() as int) =~= target);
        },
        None => {
            assert(cfg_views(r@) =~= Seq::empty());
        },
    }
    r
}

/// The build conditions of a setup item: its contexts (`context = "..."`) followed by its
/// features (`feature = "..."`).
pub open spec fn spec_cfg_conditionals(
    on: Option<Seq<char>>,
    when: Option<Seq<char>>,
) -> Seq<(Seq<char>, Seq<char>)> {
    spec_conditional_list("context"@, on) + spec_conditional_list("feature"@, when)
}

/// Returns the build conditions of a setup item.
pub fn parse_cfg_conditionals<C: Conditioned>(conditioned_setup: &C) -> (r: Vec<CfgCondition>)
    ensures
        cfg_views(r@) == spec_cfg_conditionals(
            conditioned_setup.spec_on(),
            conditioned_setup.spec_when(),
        ),
{
    let mut on_conds = parse_conditional_list("context", conditioned_setup.on());
    let mut when_conds = parse_conditional_list("feature", conditioned_setup.when());
    let ghost a = on_conds@;
    let ghost b = when_conds@;
    on_conds.append(&mut when_conds);
    assert(cfg_views(on_conds@) =~= cfg_views(a) + cfg_views(b));
    on_conds
}

/// The name of the static holding the I2C bus named `name`.
pub open spec fn spec_i2c_bus_static(name: Seq<char>) -> Seq<char> {
    "I2C_BUS_"@ + name
}

/// The name of the static holding the SPI bus named `name`.
pub open spec fn spec_spi_bus_static(name: Seq<char>) -> Seq<char> {
    "SPI_BUS_"@ + name
}

/// Returns the name of the static holding the I2C bus labelled `bus_label`.
pub fn i2c_bus_static(bus_label: &str) -> (r: String)
    ensures
        r@ == spec_i2c_bus_static(bus_label@),
{
    let mut r = String::from_str("I2C_BUS_");
    r.append(bus_label);
    r
}

/// Returns the name of the static holding the SPI bus labelled `bus_label`.
pub fn spi_bus_static(bus_label: &str) -> (r: String)
    ensures
        r@ == spec_spi_bus_static(bus_label@),
{
    let mut r = String::from_str("SPI_BUS_");
    r.append(bus_label);
    r
}

/// The build conditions of a setup item, from its `on` and `when` fields.
pub open spec fn cfg_of(on: Option<String>, when: Option<String>) -> Seq<(Seq<char>, Seq<char>)> {
    spec_cfg_conditionals(opt_string_view(on), opt_string_view(when))
}

// ---------------------------------------------------------------------------------------------
// Buses
// ---------------------------------------------------------------------------------------------

/// Returns the path of the driver-level value of an I2C frequency.
pub fn i2c_frequency(frequency: I2cFrequency) -> (r: &'static str)
    ensures
        r@ == match frequency {
            I2cFrequency::K100 => "arch::i2c::Frequency::K100"@,
            I2cFrequency::K250 => "arch::i2c::Frequency::K250"@,
            I2cFrequency::K400 => "arch::i2c::Frequency::K400"@,
        },
{
    match frequency {
        I2cFrequency::K100 => "arch::i2c::Frequency::K100",
        I2cFrequency::K250 => "arch::i2c::Frequency::K250",
        I2cFrequency::K400 => "arch::i2c::Frequency::K400",
    }
}

/// Returns the path of the driver-level value of an SPI frequency.
pub fn spi_frequency(frequency: SpiFrequency) -> (r: &'static str)
    ensures
        r@ == match frequency {
            SpiFrequency::K125 => "arch::spi::Frequency::K125"@,
            SpiFrequency::K250 => "arch::spi::Frequency::K250"@,
            SpiFrequency::K500 => "arch::spi::Frequency::K500"@,
            SpiFrequency::M1 => "arch::spi::Frequency::M1"@,
            SpiFrequency::M2 => "arch::spi::Frequency::M2"@,
            SpiFrequency::M4 => "arch::spi::Frequency::M4"@,
            SpiFrequency::M8 => "arch::spi::Frequency::M8"@,
            SpiFrequency::M16 => "arch::spi::Frequency::M16"@,
            SpiFrequency::M32 => "arch::spi::Frequency::M32"@,
        },
{
    match frequency {
        SpiFrequency::K125 => "arch::spi::Frequency::K125",
        SpiFrequency::K250 => "arch::spi::Frequency::K250",
        SpiFrequency::K500 => "arch::spi::Frequency::K500",
        SpiFrequency::M1 => "arch::spi::Frequency::M1",
        SpiFrequency::M2 => "arch::spi::Frequency::M2",
        SpiFrequency::M4 => "arch::spi::Frequency::M4",
        SpiFrequency::M8 => "arch::spi::Frequency::M8",
        SpiFrequency::M16 => "arch::spi::Frequency::M16",
        SpiFrequency::M32 => "arch::spi::Frequency::M32",
    }
}

/// Returns the path of the driver-level value of an SPI mode.
pub fn spi_mode(mode: SpiMode) -> (r: &'static str)
    ensures
        r@ == match mode {
            SpiMode::Mode0 => "arch::spi::MODE_0"@,
            SpiMode::Mode1 => "arch::spi::MODE_1"@,
            SpiMode::Mode2 => "arch::spi::MODE_2"@,
            SpiMode::Mode3 => "arch::spi::MODE_3"@,
        },
{
    match mode {
        SpiMode::Mode0 => "arch::spi::MODE_0",
        SpiMode::Mode1 => "arch::spi::MODE_1",
        SpiMode::Mode2 => "arch::spi::MODE_2",
        SpiMode::Mode3 => "arch::spi::MODE_3",
    }
}

/// Returns the path of the driver-level value of an SPI bit order.
pub fn spi_bit_order(bit_order: SpiBitOrder) -> (r: &'static str)
    ensures
        r@ == match bit_order {
            SpiBitOrder::MsbFirst => "arch::spi::BitOrder::MSB_FIRST"@,
            SpiBitOrder::LsbFirst => "arch::spi::BitOrder::LSB_FIRST"@,
        },
{
    match bit_order {
        SpiBitOrder::MsbFirst => "arch::spi::BitOrder::MSB_FIRST",
        SpiBitOrder::LsbFirst => "arch::spi::BitOrder::LSB_FIRST",
    }
}

/// How one MCU peripheral is set up to drive an I2C bus.
pub struct I2cBusInit {
    /// Build conditions of the peripheral.
    pub cfg_conditions: Vec<CfgCondition>,
    /// The MCU peripheral.
    pub peripheral: String,
    pub frequency: I2cFrequency,
    pub sda_pullup: bool,
    pub scl_pullup: bool,
    pub sda_pin: String,
    pub scl_pin: String,
}

/// View of an `I2cBusInit`.
pub ghost struct I2cBusInitView {
    pub cfg_conditions: Seq<(Seq<char>, Seq<char>)>,
    pub peripheral: Seq<char>,
    pub frequency: I2cFrequency,
    pub sda_pullup: bool,
    pub scl_pullup: bool,
    pub sda_pin: Seq<char>,
    pub scl_pin: Seq<char>,
}

impl I2cBusInit {
    pub open spec fn view(&self) -> I2cBusInitView {
        I2cBusInitView {
            cfg_conditions: cfg_views(self.cfg_conditions@),
            peripheral: self.peripheral@,
            frequency: self.frequency,
            sda_pullup: self.sda_pullup,
            scl_pullup: self.scl_pullup,
            sda_pin: self.sda_pin@,
            scl_pin: self.scl_pin@,
        }
    }
}

/// The set-up of an MCU peripheral driving an I2C bus: its first data and clock pins, its
/// frequency and its build conditions.
pub open spec fn spec_i2c_bus_init(name: Seq<char>, p: I2cBusPeripheral) -> I2cBusInitView {
    I2cBusInitView {
        cfg_conditions: cfg_of(p.on, p.when),
        peripheral: name,
        frequency: p.frequency,
        sda_pullup: p.sda@[0].pull_up,
        scl_pullup: p.scl@[0].pull_up,
        sda_pin: p.sda@[0].pin@,
        scl_pin: p.scl@[0].pin@,
    }
}

/// An I2C bus can be set up: no peripheral is listed twice, and each has a data and a clock
/// pin.
pub open spec fn i2c_bus_well_formed(bus: I2cBus) -> bool {
    &&& keys_distinct(bus.peripheral@)
    &&& forall|i: int|
        0 <= i < bus.peripheral@.len() ==> (#[trigger] bus.peripheral@[i]).1.sda@.len() > 0
            && bus.peripheral@[i].1.scl@.len() > 0
}

/// The static holding an I2C bus, and the set-up of each peripheral that may drive it.
pub struct I2cBusPlan {
    pub bus_static: String,
    pub initializations: Vec<I2cBusInit>,
}

/// Returns the static and the peripheral set-ups of an I2C bus.
pub fn i2c_bus_plan(bus: &I2cBus) -> (r: I2cBusPlan)
    requires
        i2c_bus_well_formed(*bus),
    ensures
        r.bus_static@ == spec_i2c_bus_static(bus.name@),
        r.initializations@.len() == bus.peripheral@.len(),
        forall|i: int|
            0 <= i < r.initializations@.len() ==> (#[trigger] r.initializations@[i])@
                == spec_i2c_bus_init(bus.peripheral@[i].0@, bus.peripheral@[i].1),
{
    let bus_static = i2c_bus_static(bus.name());
    let mut initializations: Vec<I2cBusInit> = Vec::new();
    let mut i: usize = 0;
    while i < bus.peripheral.len()
        invariant
            i <= bus.peripheral@.len(),
            i2c_bus_well_formed(*bus),
            initializations@.len() == i,
            forall|k: int|
                0 <= k < i ==> (#[trigger] initializations@[k])@ == spec_i2c_bus_init(
                    bus.peripheral@[k].0@,
                    bus.peripheral@[k].1,
                ),
        decreases bus.peripheral@.len() - i,
    {
        let (name, peripheral) = &bus.peripheral[i];
        assert(bus.peripheral@[i as int].1.sda@.len() > 0);
        let sda = &peripheral.sda()[0];
        let scl = &peripheral.scl()[0];
        let init = I2cBusInit {
            cfg_conditions: parse_cfg_conditionals(peripheral),
            peripheral: name.clone(),
            frequency: peripheral.frequency(),
            sda_pullup: sda.pull_up(),
            scl_pullup: scl.pull_up(),
            sda_pin: String::from_str(sda.pin()),
            scl_pin: String::from_str(scl.pin()),
        };
        initializations.push(init);
        i = i + 1;
    }
    I2cBusPlan { bus_static, initializations }
}

/// Returns the statics and peripheral set-ups of all the I2C buses, in order.
pub fn generate_i2c_bus(i2c_setup: &[I2cBus]) -> (r: Vec<I2cBusPlan>)
    requires
        forall|i: int| 0 <= i < i2c_setup@.len() ==> i2c_bus_well_formed(#[trigger] i2c_setup@[i]),
    ensures
        r@.len() == i2c_setup@.len(),
        forall|i: int|
            0 <= i < r@.len() ==> (#[trigger] r@[i]).bus_static@ == spec_i2c_bus_static(i2c_setup@[i].name@) && r@[i].initializations@.len()
                == i2c_setup@[i].peripheral@.len() && forall|k: int|
                0 <= k < r@[i].initializations@.len() ==> (#[trigger] r@[i].initializations@[k])@
                    == spec_i2c_bus_init(
                    i2c_setup@[i].peripheral@[k].0@,
                    i2c_setup@[i].peripheral@[k].1,
                ),
{
    let mut r: Vec<I2cBusPlan> = Vec::new();
    let mut i: usize = 0;
    while i < i2c_setup.len()
        invariant
            i <= i2c_setup@.len(),
            forall|i: int| 0 <= i < i2c_setup@.len() ==> i2c_bus_well_formed(#[trigger] i2c_setup@[i]),
            r@.len() == i,
            forall|j: int|
                0 <= j < r@.len() ==> (#[trigger] r@[j]).bus_static@ == spec_i2c_bus_static(i2c_setup@[j].name@) && r@[j].initializations@.len()
                    == i2c_setup@[j].peripheral@.len() && forall|k: int|
                    0 <= k < r@[j].initializations@.len() ==> (
                    #[trigger] r@[j].initializations@[k])@ == spec_i2c_bus_init(
                        i2c_setup@[j].peripheral@[k].0@,
                        i2c_setup@[j].peripheral@[k].1,
                    ),
        decreases i2c_setup@.len() - i,
    {
        let plan = i2c_bus_plan(&i2c_setup[i]);
        r.push(plan);
        i = i + 1;
    }
    r
}

/// How one MCU peripheral is set up to drive an SPI bus.
pub struct SpiBusInit {
    /// Build conditions of the peripheral.
    pub cfg_conditions: Vec<CfgCondition>,
    /// The MCU peripheral.
    pub peripheral: String,
    pub frequency: SpiFrequency,
    pub mode: SpiMode,
    pub bit_order: SpiBitOrder,
    pub sck_pin: String,
    pub miso_pin: String,
    pub mosi_pin: String,
}

/// View of an `SpiBusInit`.
pub ghost struct SpiBusInitView {
    pub cfg_conditions: Seq<(Seq<char>, Seq<char>)>,
    pub peripheral: Seq<char>,
    pub frequency: SpiFrequency,
    pub mode: SpiMode,
    pub bit_order: SpiBitOrder,
    pub sck_pin: Seq<char>,
    pub miso_pin: Seq<char>,
    pub mosi_pin: Seq<char>,
}

impl SpiBusInit {
    pub open spec fn view(&self) -> SpiBusInitView {
        SpiBusInitView {
            cfg_conditions: cfg_views(self.cfg_conditions@),
            peripheral: self.peripheral@,
            frequency: self.frequency,
            mode: self.mode,
            bit_order: self.bit_order,
            sck_pin: self.sck_pin@,
            miso_pin: self.miso_pin@,
            mosi_pin: self.mosi_pin@,
        }
    }
}

/// The set-up of an MCU peripheral driving an SPI bus: its first clock, main-in and main-out
/// pins, its settings and its build conditions.
pub open spec fn spec_spi_bus_init(name: Seq<char>, p: SpiBusPeripheral) -> SpiBusInitView {
    SpiBusInitView {
        cfg_conditions: cfg_of(p.on, p.when),
        peripheral: name,
        frequency: p.frequency,
        mode: p.mode,
        bit_order: p.bit_order,
        sck_pin: p.sck@[0].pin@,
        miso_pin: p.miso@[0].pin@,
        mosi_pin: p.mosi@[0].pin@,
    }
}

/// An SPI bus can be set up: no peripheral is listed twice, and each has a clock, a main-in
/// and a main-out pin.
pub open spec fn spi_bus_well_formed(bus: SpiBus) -> bool {
    &&& keys_distinct(bus.peripheral@)
    &&& forall|i: int|
        0 <= i < bus.peripheral@.len() ==> (#[trigger] bus.peripheral@[i]).1.sck@.len() > 0
            && bus.peripheral@[i].1.miso@.len() > 0 && bus.peripheral@[i].1.mosi@.len() > 0
}

/// The static holding an SPI bus, and the set-up of each peripheral that may drive it.
pub struct SpiBusPlan {
    pub bus_static: String,
    pub initializations: Vec<SpiBusInit>,
}

/// Returns the static and the peripheral set-ups of an SPI bus.
pub fn spi_bus_plan(bus: &SpiBus) -> (r: SpiBusPlan)
    requires
        spi_bus_well_formed(*bus),
    ensures
        r.bus_static@ == spec_spi_bus_static(bus.name@),
        r.initializations@.len() == bus.peripheral@.len(),
        forall|i: int|
            0 <= i < r.initializations@.len() ==> (#[trigger] r.initializations@[i])@
                == spec_spi_bus_init(bus.peripheral@[i].0@, bus.peripheral@[i].1),
{
    let bus_static = spi_bus_static(bus.name());
    let mut initializations: Vec<SpiBusInit> = Vec::new();
    let mut i: usize = 0;
    while i < bus.peripheral.len()
        invariant
            i <= bus.peripheral@.len(),
            spi_bus_well_formed(*bus),
            initializations@.len() == i,
            forall|k: int|
                0 <= k < i ==> (#[trigger] initializations@[k])@ == spec_spi_bus_init(
                    bus.peripheral@[k].0@,
                    bus.peripheral@[k].1,
                ),
        decreases bus.peripheral@.len() - i,
    {
        let (name, peripheral) = &bus.peripheral[i];
        assert(bus.peripheral@[i as int].1.sck@.len() > 0);
        let init = SpiBusInit {
            cfg_conditions: parse_cfg_conditionals(peripheral),
            peripheral: name.clone(),
            frequency: peripheral.frequency(),
            mode: peripheral.mode(),
            bit_order: peripheral.bit_order(),
            sck_pin: String::from_str(peripheral.sck()[0].pin()),
            miso_pin: String::from_str(peripheral.miso()[0].pin()),
            mosi_pin: String::from_str(peripheral.mosi()[0].pin()),
        };
        initializations.push(init);
        i = i + 1;
    }
    SpiBusPlan { bus_static, initializations }
}

/// Returns the statics and peripheral set-ups of all the SPI buses, in order.
pub fn generate_spi_bus(spi_setup: &[SpiBus]) -> (r: Vec<SpiBusPlan>)
    requires
        forall|i: int| 0 <= i < spi_setup@.len() ==> spi_bus_well_formed(#[trigger] spi_setup@[i]),
    ensures
        r@.len() == spi_setup@.len(),
        forall|i: int|
            0 <= i < r@.len() ==> (#[trigger] r@[i]).bus_static@ == spec_spi_bus_static(spi_setup@[i].name@) && r@[i].initializations@.len()
                == spi_setup@[i].peripheral@.len() && forall|k: int|
                0 <= k < r@[i].initializations@.len() ==> (#[trigger] r@[i].initializations@[k])@
                    == spec_spi_bus_init(
                    spi_setup@[i].peripheral@[k].0@,
                    spi_setup@[i].peripheral@[k].1,
                ),
{
    let mut r: Vec<SpiBusPlan> = Vec::new();
    let mut i: usize = 0;
    while i < spi_setup.len()
        invariant
            i <= spi_setup@.len(),
            forall|i: int| 0 <= i < spi_setup@.len() ==> spi_bus_well_formed(#[trigger] spi_setup@[i]),
            r@.len() == i,
            forall|j: int|
                0 <= j < r@.len() ==> (#[trigger] r@[j]).bus_static@ == spec_spi_bus_static(spi_setup@[j].name@) && r@[j].initializations@.len()
                    == spi_setup@[j].peripheral@.len() && forall|k: int|
                    0 <= k < r@[j].initializations@.len() ==> (
                    #[trigger] r@[j].initializations@[k])@ == spec_spi_bus_init(
                        spi_setup@[j].peripheral@[k].0@,
                        spi_setup@[j].peripheral@[k].1,
                    ),
        decreases spi_setup@.len() - i,
    {
        let plan = spi_bus_plan(&spi_setup[i]);
        r.push(plan);
        i = i + 1;
    }
    r
}

// ---------------------------------------------------------------------------------------------
// Sensors
// ---------------------------------------------------------------------------------------------

/// How a sensor driver instance is initialized at startup.
pub enum SensorInit {
    /// On the I2C bus held by the given static.
    I2c { bus_static: String },
    /// On the SPI bus held by the given static, with its chip-select pin.
    Spi { bus_static: String },
    /// With a GPIO input, using the given pull resistor.
    Gpio { pull: PullResistor },
    /// With its peripherals alone.
    Only,
}

/// View of a `SensorInit`.
pub ghost enum SensorInitView {
    I2c(Seq<char>),
    Spi(Seq<char>),
    Gpio(PullResistor),
    Only,
}

impl SensorInit {
    pub open spec fn view(&self) -> SensorInitView {
        match self {
            SensorInit::I2c { bus_static } => SensorInitView::I2c(bus_static@),
            SensorInit::Spi { bus_static } => SensorInitView::Spi(bus_static@),
            SensorInit::Gpio { pull } => SensorInitView::Gpio(*pull),
            SensorInit::Only => SensorInitView::Only,
        }
    }
}

/// A peripheral that the sensor initialization takes: a pin, with its build conditions.
pub struct PeripheralDef {
    pub cfg_conditions: Vec<CfgCondition>,
    pub pin: String,
}

impl PeripheralDef {
    pub open spec fn view(&self) -> (Seq<(Seq<char>, Seq<char>)>, Seq<char>) {
        (cfg_views(self.cfg_conditions@), self.pin@)
    }
}

/// The value assigned to a field of a sensor driver configuration.
pub enum ConfigValuePlan {
    /// A path to an item, written `@path` in the setup file.
    TypePath(String),
    /// A string literal.
    Str(String),
    Bool(bool),
    Number(ConfigNumber),
}

/// View of a `ConfigValuePlan`.
pub ghost enum ConfigValueView {
    TypePath(Seq<char>),
    Str(Seq<char>),
    Bool(bool),
    Number(ConfigNumber),
}

impl ConfigValuePlan {
    pub open spec fn view(&self) -> ConfigValueView {
        match self {
            ConfigValuePlan::TypePath(s) => ConfigValueView::TypePath(s@),
            ConfigValuePlan::Str(s) => ConfigValueView::Str(s@),
            ConfigValuePlan::Bool(b) => ConfigValueView::Bool(*b),
            ConfigValuePlan::Number(n) => ConfigValueView::Number(*n),
        }
    }
}

/// An assignment `config.field = value;` of the sensor initialization.
pub struct ConfigStatement {
    pub field: String,
    pub value: ConfigValuePlan,
}

impl ConfigStatement {
    pub open spec fn view(&self) -> (Seq<char>, ConfigValueView) {
        (self.field@, self.value@)
    }
}

/// The value assigned for a setup configuration value: a setup string reads as a path or as
/// a string literal, other values stay as they are.
pub open spec fn spec_config_value(v: SensorConfigValue) -> ConfigValueView {
    match v {
        SensorConfigValue::String(s) => if is_type_path_string(s@) {
            ConfigValueView::TypePath(s@.skip(1))
        } else if starts_with_at(s@) {
            ConfigValueView::Str(s@.skip(1))
        } else {
            ConfigValueView::Str(s@)
        },
        SensorConfigValue::Number(n) => ConfigValueView::Number(n),
        SensorConfigValue::Bool(b) => ConfigValueView::Bool(b),
    }
}

/// The configuration assignments of a sensor, in the order of the setup file.
pub open spec fn spec_sensor_config(with: Option<SensorConfig>) -> Seq<(Seq<char>, ConfigValueView)> {
    match with {
        Some(c) => c.0@.map_values(
            |e: (String, SensorConfigValue)| (e.0@, spec_config_value(e.1)),
        ),
        None => Seq::empty(),
    }
}

/// Returns a copy of a setup number.
pub fn copy_number(n: &ConfigNumber) -> (r: ConfigNumber)
    ensures
        r == *n,
{
    match n {
        ConfigNumber::Unsigned(u) => ConfigNumber::Unsigned(*u),
        ConfigNumber::Signed(i) => ConfigNumber::Signed(*i),
        ConfigNumber::Float(text) => ConfigNumber::Float(text.clone()),
    }
}

/// Returns the configuration assignments of a sensor.
pub fn generate_sensor_config(with: Option<&SensorConfig>) -> (r: Vec<ConfigStatement>)
    ensures
        r@.map_values(|c: ConfigStatement| c@) == spec_sensor_config(
            match with {
                Some(c) => Some(*c),
                None => None,
            },
        ),
{
    let mut r: Vec<ConfigStatement> = Vec::new();
    match with {
        Some(config) => {
            let entries = config.iter();
            let ghost target = spec_sensor_config(Some(*config));
            let mut i: usize = 0;
            while i < entries.len()
                invariant
                    entries == &config.0,
                    target == spec_sensor_config(Some(*config)),
                    i <= entries@.len(),
                    r@.map_values(|c: ConfigStatement| c@) =~= target.take(i as int),
                decreases entries@.len() - i,
            {
                let (field, value) = &entries[i];
                let v = match value {
                    SensorConfigValue::String(s) => match StringOrTypePath::from(s.as_str()) {
                        StringOrTypePath::TypePath(path) => ConfigValuePlan::TypePath(
                            String::from_str(path),
                        ),
                        StringOrTypePath::String(text) => ConfigValuePlan::Str(String::from_str(text)),
                    },
                    SensorConfigValue::Bool(b) => ConfigValuePlan::Bool(*b),
                    SensorConfigValue::Number(n) => ConfigValuePlan::Number(copy_number(n)),
                };
                let statement = ConfigStatement { field: field.clone(), value: v };
                assert(statement@ == target[i as int]);
                let ghost before = r@;
                r.push(statement);
                assert(r@.map_values(|c: ConfigStatement| c@) =~= before.map_values(
                    |c: ConfigStatement| c@,
                ).push(statement@));
                assert(target.take(i + 1) =~= target.take(i as int).push(target[i as int]));
                i = i + 1;
            }
            assert(target.take(entries@.len() as int) =~= target);
        },
        None => {
            assert(r@.map_values(|c: ConfigStatement| c@) =~= Seq::empty());
        },
    }
    r
}

/// The code to generate for a sensor driver instance: its static and registration, its type,
/// its initialization function with the peripherals it takes, and its configuration.
pub struct SensorPlan {
    /// The static holding the driver instance.
    pub sensor_static: String,
    /// The static registering the instance.
    pub sensor_ref: String,
    /// The label of the instance.
    pub label: String,
    /// The type path of the driver.
    pub driver_type_path: String,
    /// The type alias of the instance.
    pub type_alias: String,
    /// The module of the driver.
    pub driver_module: String,
    /// The initialization function.
    pub init_fn: String,
    /// Build conditions of the instance.
    pub cfg_conditions: Vec<CfgCondition>,
    /// The peripherals the initialization takes.
    pub peripheral_defs: Vec<PeripheralDef>,
    /// The initialization steps.
    pub inits: Vec<SensorInit>,
    /// The struct of the peripherals, when the initialization takes some.
    pub peripheral_struct: Option<String>,
    /// The configuration assignments.
    pub config: Vec<ConfigStatement>,
}

/// View of a `SensorPlan`.
pub ghost struct SensorPlanView {
    pub sensor_static: Seq<char>,
    pub sensor_ref: Seq<char>,
    pub label: Seq<char>,
    pub driver_type_path: Seq<char>,
    pub type_alias: Seq<char>,
    pub driver_module: Seq<char>,
    pub init_fn: Seq<char>,
    pub cfg_conditions: Seq<(Seq<char>, Seq<char>)>,
    pub peripheral_defs: Seq<(Seq<(Seq<char>, Seq<char>)>, Seq<char>)>,
    pub inits: Seq<SensorInitView>,
    pub peripheral_struct: Option<Seq<char>>,
    pub config: Seq<(Seq<char>, ConfigValueView)>,
}

impl SensorPlan {
    pub open spec fn view(&self) -> SensorPlanView {
        SensorPlanView {
            sensor_static: self.sensor_static@,
            sensor_ref: self.sensor_ref@,
            label: self.label@,
            driver_type_path: self.driver_type_path@,
            type_alias: self.type_alias@,
            driver_module: self.driver_module@,
            init_fn: self.init_fn@,
            cfg_conditions: cfg_views(self.cfg_conditions@),
            peripheral_defs: self.peripheral_defs@.map_values(|d: PeripheralDef| d@),
            inits: self.inits@.map_values(|i: SensorInit| i@),
            peripheral_struct: opt_string_view(self.peripheral_struct),
            config: self.config@.map_values(|c: ConfigStatement| c@),
        }
    }
}

/// The setup of a sensor can be turned into code: its driver is a type path, its bus (if
/// any) is named, its peripherals (if any) include an input, and no configuration field or
/// bus name is listed twice.
pub open spec fn sensor_setup_complete(s: Sensor) -> bool {
    &&& is_type_path_string(s.driver@)
    &&& (s.bus matches Some(SensorBus::I2c(v)) ==> v@.len() > 0)
    &&& (s.bus matches Some(SensorBus::Spi(v)) ==> v@.len() > 0)
    &&& (s.peripherals matches Some(p) ==> inputs_of(p.0@).len() > 0)
    &&& (s.with matches Some(c) ==> keys_distinct(c.0@))
    &&& (s.bus matches Some(SensorBus::I2c(v)) ==> keys_distinct(v@))
    &&& (s.bus matches Some(SensorBus::Spi(v)) ==> keys_distinct(v@))
}

/// The peripherals the initialization takes: the chip selects of an SPI bus, then the first
/// input.
pub open spec fn spec_peripheral_defs(s: Sensor) -> Seq<(Seq<(Seq<char>, Seq<char>)>, Seq<char>)> {
    let spi_part = match s.bus {
        Some(SensorBus::Spi(v)) => v@[0].1.cs@.map_values(
            |cs: SpiPin| (cfg_of(cs.on, cs.when), cs.pin@),
        ),
        _ => Seq::empty(),
    };
    let gpio_part = match s.peripherals {
        Some(p) => seq![(Seq::<(Seq<char>, Seq<char>)>::empty(), inputs_of(p.0@)[0].pin@)],
        None => Seq::empty(),
    };
    spi_part + gpio_part
}

/// The initialization steps: on the bus, then with the first input; with the peripherals
/// alone when there is neither.
pub open spec fn spec_sensor_inits(s: Sensor) -> Seq<SensorInitView> {
    let bus_part = match s.bus {
        Some(SensorBus::I2c(v)) => seq![SensorInitView::I2c(spec_i2c_bus_static(v@[0].0@))],
        Some(SensorBus::Spi(v)) => seq![SensorInitView::Spi(spec_spi_bus_static(v@[0].0@))],
        None => Seq::empty(),
    };
    let gpio_part = match s.peripherals {
        Some(p) => seq![SensorInitView::Gpio(inputs_of(p.0@)[0].pull)],
        None => Seq::empty(),
    };
    if bus_part.len() + gpio_part.len() == 0 {
        seq![SensorInitView::Only]
    } else {
        bus_part + gpio_part
    }
}

/// The code to generate for a sensor, from its setup.
pub open spec fn spec_sensor_plan(s: Sensor) -> SensorPlanView {
    let driver = s.driver@.skip(1);
    SensorPlanView {
        sensor_static: s.name@,
        sensor_ref: s.name@ + "_REF"@,
        label: s.label@,
        driver_type_path: driver,
        type_alias: spec_type_name(driver) + "_"@ + s.name@,
        driver_module: spec_parent_module_path(driver),
        init_fn: s.name@ + "_init"@,
        cfg_conditions: cfg_of(s.on, s.when),
        peripheral_defs: spec_peripheral_defs(s),
        inits: spec_sensor_inits(s),
        peripheral_struct: if spec_peripheral_defs(s).len() > 0 {
            Some(s.name@ + "Peripherals"@)
        } else {
            None
        },
        config: spec_sensor_config(s.with),
    }
}

/// A sensor instance is built under the same conditions as its setup item: the contexts it is
/// restricted to (`context = ...`), followed by the features it is restricted to
/// (`feature = ...`); with neither, it is built unconditionally.
pub proof fn law_sensor_built_under_its_conditions(s: Sensor)
    ensures
        spec_sensor_plan(s).cfg_conditions == spec_conditional_list("context"@, s.spec_on())
            + spec_conditional_list("feature"@, s.spec_when()),
        s.on is None && s.when is None ==> spec_sensor_plan(s).cfg_conditions.len() == 0,
        s.when matches Some(w) ==> spec_sensor_plan(s).cfg_conditions.len() == spec_conditional_list(
            "context"@,
            s.spec_on(),
        ).len() + spec_split(w@, ',').len(),
        forall|k: int|
            0 <= k < spec_conditional_list("feature"@, s.spec_when()).len() ==> spec_sensor_plan(
                s,
            ).cfg_conditions[spec_conditional_list("context"@, s.spec_on()).len() + k] == (
                "feature"@,
                spec_trim(spec_split(s.spec_when()->0, ',')[k]),
            ),
{
}

/// A sensor and its bus agree on the static that holds the bus: a sensor on the bus named
/// `name` initializes from the static that the set-up of the bus named `name` defines; buses
/// of different names, or of different kinds, are held by different statics.
pub proof fn law_sensor_and_bus_agree_on_static(s: Sensor, name: Seq<char>, other: Seq<char>)
    requires
        sensor_setup_complete(s),
    ensures
        (s.bus matches Some(SensorBus::I2c(v)) && v@[0].0@ == name) ==> spec_sensor_plan(s).inits[0]
            == SensorInitView::I2c(spec_i2c_bus_static(name)),
        (s.bus matches Some(SensorBus::Spi(v)) && v@[0].0@ == name) ==> spec_sensor_plan(s).inits[0]
            == SensorInitView::Spi(spec_spi_bus_static(name)),
        spec_i2c_bus_static(name) == spec_i2c_bus_static(other) ==> name == other,
        spec_spi_bus_static(name) == spec_spi_bus_static(other) ==> name == other,
        spec_i2c_bus_static(name) != spec_spi_bus_static(other),
{
    reveal_strlit("I2C_BUS_");
    reveal_strlit("SPI_BUS_");
    if spec_i2c_bus_static(name) == spec_i2c_bus_static(other) {
        assert(name =~= spec_i2c_bus_static(name).skip(8));
        assert(other =~= spec_i2c_bus_static(other).skip(8));
    }
    if spec_spi_bus_static(name) == spec_spi_bus_static(other) {
        assert(name =~= spec_spi_bus_static(name).skip(8));
        assert(other =~= spec_spi_bus_static(other).skip(8));
    }
    assert(spec_i2c_bus_static(name)[0] != spec_spi_bus_static(other)[0]);
}

/// Returns `a` followed by `b`.
pub fn concat(a: &str, b: &str) -> (r: String)
    ensures
        r@ == a@ + b@,
{
    let mut r = String::from_str(a);
    r.append(b);
    r
}

/// Returns the name of the type alias of a sensor driver instance: the driver type name and
/// the instance name, joined by `_`.
pub fn sensor_type_alias_name(sensor_name: &str, driver: &str) -> (r: String)
    ensures
        r@ == spec_type_name(driver@) + "_"@ + sensor_name@,
{
    let driver_type_name = parse_type_name_from_type_path(driver);
    let mut r = String::from_str(driver_type_name);
    r.append("_");
    r.append(sensor_name);
    r
}

/// Returns the code to generate for a sensor driver instance.
pub fn generate_sensor(sensor_setup: &Sensor) -> (r: SensorPlan)
    requires
        sensor_setup_complete(*sensor_setup),
    ensures
        r@ == spec_sensor_plan(*sensor_setup),
        cfg_views(r.cfg_conditions@) == spec_conditional_list("context"@, sensor_setup.spec_on())
            + spec_conditional_list("feature"@, sensor_setup.spec_when()),
{
    let sensor_name = sensor_setup.name();
    let driver = match StringOrTypePath::from(sensor_setup.driver()) {
        StringOrTypePath::TypePath(type_path) => type_path,
        StringOrTypePath::String(s) => s,
    };
    let type_alias = sensor_type_alias_name(sensor_name, driver);
    let driver_module = parse_parent_module_path(driver);
    let mut peripheral_defs: Vec<PeripheralDef> = Vec::new();
    let mut inits: Vec<SensorInit> = Vec::new();
    let ghost spi_part: Seq<(Seq<(Seq<char>, Seq<char>)>, Seq<char>)> = Seq::empty();
    match sensor_setup.bus() {
        Some(SensorBus::I2c(i2cs)) => {
            let bus_static = i2c_bus_static(i2cs[0].0.as_str());
            inits.push(SensorInit::I2c { bus_static });
        },
        Some(SensorBus::Spi(spis)) => {
            let bus_static = spi_bus_static(spis[0].0.as_str());
            let chip_selects = spis[0].1.cs();
            proof {
                spi_part = chip_selects@.map_values(
                    |cs: SpiPin| (cfg_of(cs.on, cs.when), cs.pin@),
                );
            }
            let mut k: usize = 0;
            while k < chip_selects.len()
                invariant
                    k <= chip_selects@.len(),
                    spi_part == chip_selects@.map_values(
                        |cs: SpiPin| (cfg_of(cs.on, cs.when), cs.pin@),
                    ),
                    peripheral_defs@.map_values(|d: PeripheralDef| d@) =~= spi_part.take(k as int),
                decreases chip_selects@.len() - k,
            {
                let cs = &chip_selects[k];
                let def = PeripheralDef {
                    cfg_conditions: parse_cfg_conditionals(cs),
                    pin: String::from_str(cs.pin()),
                };
                assert(def@ == spi_part[k as int]);
                let ghost before = peripheral_defs@;
                peripheral_defs.push(def);
                assert(peripheral_defs@.map_values(|d: PeripheralDef| d@) =~= before.map_values(
                    |d: PeripheralDef| d@,
                ).push(def@));
                assert(spi_part.take(k + 1) =~= spi_part.take(k as int).push(spi_part[k as int]));
                k = k + 1;
            }
            assert(spi_part.take(chip_selects@.len() as int) =~= spi_part);
            inits.push(SensorInit::Spi { bus_static });
        },
        None => {},
    }
    let ghost bus_inits = inits@.map_values(|i: SensorInit| i@);
    match sensor_setup.peripherals() {
        Some(peripherals) => {
            let inputs = peripherals.inputs();
            let input = inputs[0];
            let ghost before_defs = peripheral_defs@;
            let def = PeripheralDef { cfg_conditions: Vec::new(), pin: String::from_str(input.pin()) };
            assert(cfg_views(def.cfg_conditions@) =~= Seq::empty());
            peripheral_defs.push(def);
            assert(peripheral_defs@.map_values(|d: PeripheralDef| d@) =~= before_defs.map_values(
                |d: PeripheralDef| d@,
            ).push(def@));
            let ghost before_inits = inits@;
            let init = SensorInit::Gpio { pull: input.pull() };
            inits.push(init);
            assert(inits@.map_values(|i: SensorInit| i@) =~= before_inits.map_values(
                |i: SensorInit| i@,
            ).push(init@));
        },
        None => {},
    }
    if inits.len() == 0 {
        inits.push(SensorInit::Only);
        assert(inits@.map_values(|i: SensorInit| i@) =~= seq![SensorInitView::Only]);
    }
    let peripheral_struct = if peripheral_defs.len() > 0 {
        Some(concat(sensor_name, "Peripherals"))
    } else {
        None
    };
    let plan = SensorPlan {
        sensor_static: String::from_str(sensor_name),
        sensor_ref: concat(sensor_name, "_REF"),
        label: String::from_str(sensor_setup.label()),
        driver_type_path: String::from_str(driver),
        type_alias,
        driver_module,
        init_fn: concat(sensor_name, "_init"),
        cfg_conditions: parse_cfg_conditionals(sensor_setup),
        peripheral_defs,
        inits,
        peripheral_struct,
        config: generate_sensor_config(sensor_setup.with()),
    };
    assert(plan@.peripheral_defs =~= spec_peripheral_defs(*sensor_setup));
    assert(plan@.inits =~= spec_sensor_inits(*sensor_setup));
    plan
}

/// The buses of a setup can be set up.
pub open spec fn buses_well_formed(setup: HwSetup) -> bool {
    &&& forall|i: int| 0 <= i < setup.buses.i2c@.len() ==> i2c_bus_well_formed(#[trigger] setup.buses.i2c@[i])
    &&& forall|i: int| 0 <= i < setup.buses.spi@.len() ==> spi_bus_well_formed(#[trigger] setup.buses.spi@[i])
}

/// Returns the statics and peripheral set-ups of all the buses of a setup: the I2C buses, then
/// the SPI buses.
pub fn bus_plans(setup: &HwSetup) -> (r: (Vec<I2cBusPlan>, Vec<SpiBusPlan>))
    requires
        buses_well_formed(*setup),
    ensures
        r.0@.len() == setup.buses.i2c@.len(),
        r.1@.len() == setup.buses.spi@.len(),
        forall|i: int|
            0 <= i < r.0@.len() ==> (#[trigger] r.0@[i]).bus_static@ == spec_i2c_bus_static(setup.buses.i2c@[i].name@),
        forall|i: int|
            0 <= i < r.1@.len() ==> (#[trigger] r.1@[i]).bus_static@ == spec_spi_bus_static(setup.buses.spi@[i].name@),
        forall|i: int, k: int|
            0 <= i < r.0@.len() && 0 <= k < r.0@[i].initializations@.len() ==> (
            #[trigger] r.0@[i].initializations@[k])@ == spec_i2c_bus_init(
                setup.buses.i2c@[i].peripheral@[k].0@,
                setup.buses.i2c@[i].peripheral@[k].1,
            ),
        forall|i: int|
            0 <= i < r.0@.len() ==> (#[trigger] r.0@[i]).initializations@.len()
                == setup.buses.i2c@[i].peripheral@.len(),
        forall|i: int, k: int|
            0 <= i < r.1@.len() && 0 <= k < r.1@[i].initializations@.len() ==> (
            #[trigger] r.1@[i].initializations@[k])@ == spec_spi_bus_init(
                setup.buses.spi@[i].peripheral@[k].0@,
                setup.buses.spi@[i].peripheral@[k].1,
            ),
        forall|i: int|
            0 <= i < r.1@.len() ==> (#[trigger] r.1@[i]).initializations@.len()
                == setup.buses.spi@[i].peripheral@.len(),
{
    let buses = setup.buses();
    let i2c = generate_i2c_bus(buses.i2c());
    let spi = generate_spi_bus(buses.spi());
    (i2c, spi)
}

/// Every connected sensor can be turned into code.
pub open spec fn sensors_complete(sensors: Seq<Sensor>) -> bool {
    forall|i: int| 0 <= i < sensors.len() ==> sensor_setup_complete(#[trigger] sensors[i])
}

/// Returns the code to generate for each connected sensor, in order.
pub fn sensor_plans(sensors: &[Sensor]) -> (r: Vec<SensorPlan>)
    requires
        sensors_complete(sensors@),
    ensures
        r@.len() == sensors@.len(),
        forall|i: int| 0 <= i < r@.len() ==> (#[trigger] r@[i])@ == spec_sensor_plan(sensors@[i]),
{
    let mut r: Vec<SensorPlan> = Vec::new();
    let mut i: usize = 0;
    while i < sensors.len()
        invariant
            i <= sensors@.len(),
            sensors_complete(sensors@),
            r@.len() == i,
            forall|k: int| 0 <= k < i ==> (#[trigger] r@[k])@ == spec_sensor_plan(sensors@[k]),
        decreases sensors@.len() - i,
    {
        r.push(generate_sensor(&sensors[i]));
        i = i + 1;
    }
    r
}

/// A sensor driver type, with the build conditions of the sensor that uses it.
pub struct DriverEntry {
    pub cfg_conditions: Vec<CfgCondition>,
    pub type_path: String,
}

impl DriverEntry {
    pub open spec fn view(&self) -> (Seq<(Seq<char>, Seq<char>)>, Seq<char>) {
        (cfg_views(self.cfg_conditions@), self.type_path@)
    }
}

/// Every connected sensor names its driver by a type path.
pub open spec fn drivers_are_type_paths(sensors: Seq<Sensor>) -> bool {
    forall|i: int| 0 <= i < sensors.len() ==> is_type_path_string((#[trigger] sensors[i]).driver@)
}

/// Returns the driver types of the connected sensors, in order, with their build conditions:
/// the list among which a sensor is looked up to be measured.
pub fn sensor_driver_list(sensors: &[Sensor]) -> (r: Vec<DriverEntry>)
    requires
        drivers_are_type_paths(sensors@),
    ensures
        r@.len() == sensors@.len(),
        forall|i: int|
            0 <= i < r@.len() ==> (#[trigger] r@[i])@ == (
                cfg_of(sensors@[i].on, sensors@[i].when),
                sensors@[i].driver@.skip(1),
            ),
{
    let mut r: Vec<DriverEntry> = Vec::new();
    let mut i: usize = 0;
    while i < sensors.len()
        invariant
            i <= sensors@.len(),
            drivers_are_type_paths(sensors@),
            r@.len() == i,
            forall|k: int|
                0 <= k < i ==> (#[trigger] r@[k])@ == (
                    cfg_of(sensors@[k].on, sensors@[k].when),
                    sensors@[k].driver@.skip(1),
                ),
        decreases sensors@.len() - i,
    {
        let sensor = &sensors[i];
        let path = match StringOrTypePath::from(sensor.driver()) {
            StringOrTypePath::TypePath(p) => p,
            StringOrTypePath::String(s) => s,
        };
        r.push(DriverEntry { cfg_conditions: parse_cfg_conditionals(sensor), type_path: String::from_str(path) });
        i = i + 1;
    }
    r
}

/// Returns the path of the sensor module under the crate that provides the system, which must
/// be a dependency of the crate being built.
pub fn sensors_module_path(riot_rs_crate: &str) -> (r: String)
    ensures
        r@ == riot_rs_crate@ + "::sensors"@,
{
    concat(riot_rs_crate, "::sensors")
}

/// The decimal digit `d`.
pub open spec fn digit_char(d: int) -> char {
    if d == 0 { '0' } else if d == 1 { '1' } else if d == 2 { '2' } else if d == 3 { '3' }
    else if d == 4 { '4' } else if d == 5 { '5' } else if d == 6 { '6' } else if d == 7 { '7' }
    else if d == 8 { '8' } else { '9' }
}

/// The decimal writing of `n`.
pub open spec fn spec_decimal(n: nat) -> Seq<char>
    decreases n,
{
    if n < 10 {
        seq![digit_char(n as int)]
    } else {
        spec_decimal(n / 10).push(digit_char((n % 10) as int))
    }
}

/// Returns the decimal digit `d` as a string.
fn digit_str(d: usize) -> (r: &'static str)
    requires
        d < 10,
    ensures
        r@ == seq![digit_char(d as int)],
{
    proof {
        reveal_strlit("0");
        reveal_strlit("1");
        reveal_strlit("2");
        reveal_strlit("3");
        reveal_strlit("4");
        reveal_strlit("5");
        reveal_strlit("6");
        reveal_strlit("7");
        reveal_strlit("8");
        reveal_strlit("9");
    }
    let r = match d {
        0 => "0",
        1 => "1",
        2 => "2",
        3 => "3",
        4 => "4",
        5 => "5",
        6 => "6",
        7 => "7",
        8 => "8",
        _ => "9",
    };
    assert(r@ =~= seq![digit_char(d as int)]);
    r
}

/// Returns the decimal writing of `n`.
pub fn decimal(n: usize) -> (r: String)
    ensures
        r@ == spec_decimal(n as nat),
    decreases n,
{
    if n < 10 {
        String::from_str(digit_str(n))
    } else {
        let mut r = decimal(n / 10);
        r.append(digit_str(n % 10));
        r
    }
}

/// The number of values the reading types hold at most, from the features that ask for at
/// least 2, 3, 6, 9 or 12 values: the largest count asked for, 1 when none is.
pub open spec fn spec_reading_value_count(min_2: bool, min_3: bool, min_6: bool, min_9: bool, min_12: bool) -> usize {
    if min_12 {
        12
    } else if min_9 {
        9
    } else if min_6 {
        6
    } else if min_3 {
        3
    } else if min_2 {
        2
    } else {
        1
    }
}

/// Returns the number of values the reading types hold at most, from the features enabled:
/// the largest count asked for, 1 when none is.
pub fn reading_value_count(min_2: bool, min_3: bool, min_6: bool, min_9: bool, min_12: bool) -> (r: usize)
    ensures
        r == spec_reading_value_count(min_2, min_3, min_6, min_9, min_12),
        r >= 1,
        min_2 ==> r >= 2,
        min_3 ==> r >= 3,
        min_6 ==> r >= 6,
        min_9 ==> r >= 9,
        min_12 ==> r >= 12,
{
    let mut count: usize = 1;
    if min_2 {
        count = 2;
    }
    if min_3 {
        count = 3;
    }
    if min_6 {
        count = 6;
    }
    if min_9 {
        count = 9;
    }
    if min_12 {
        count = 12;
    }
    count
}

/// Returns the name of the variant holding `index` values in a reading: `V` and the count.
pub fn variant_name(index: usize) -> (r: String)
    ensures
        r@ == "V"@ + spec_decimal(index as nat),
{
    let mut r = String::from_str("V");
    let digits = decimal(index);
    r.append(digits.as_str());
    r
}

/// Returns the names of the variants of the reading types, for readings of one to `count`
/// values.
pub fn variant_names(count: usize) -> (r: Vec<String>)
    ensures
        r@.len() == count,
        forall|i: int| 0 <= i < count ==> (#[trigger] r@[i])@ == "V"@ + spec_decimal((i + 1) as nat),
{
    let mut r: Vec<String> = Vec::new();
    let mut i: usize = 0;
    while i < count
        invariant
            i <= count,
            r@.len() == i,
            forall|k: int| 0 <= k < i ==> (#[trigger] r@[k])@ == "V"@ + spec_decimal((k + 1) as nat),
        decreases count - i,
    {
        r.push(variant_name(i + 1));
        i = i + 1;
    }
    r
}

} // verus!
