use riot_rs::codegen::reading_value_count;
use riot_rs::codegen::{
    bus_plans, decimal, generate_i2c_bus, generate_sensor, generate_sensor_config, generate_spi_bus, i2c_bus_static,
    i2c_frequency, parse_cfg_conditionals, parse_conditional_list, sensor_driver_list, sensor_plans,
    sensor_type_alias_name, sensors_module_path, spi_bit_order, spi_bus_static, spi_frequency, spi_mode,
    variant_name, variant_names, CfgCondition, ConfigValuePlan, SensorInit,
};
use riot_rs::hwsetup::{HwSetup, MaxReadingValueCount, Sensors};
use riot_rs::hwsetup_buses::{
    Buses, I2cBus, I2cBusPeripheral, I2cFrequency, I2cPin, SpiBitOrder, SpiBus, SpiBusPeripheral, SpiFrequency,
    SpiMode, SpiPin,
};
use riot_rs::hwsetup_peripherals::{Input, Output, Peripheral, Peripherals, PullResistor};
use riot_rs::hwsetup_sensors::{
    ConfigNumber, Sensor, SensorBus, SensorBusI2c, SensorBusSpi, SensorConfig, SensorConfigValue, StringOrTypePath,
};
use riot_rs::setup_checks::{
    buses_are_complete, drivers_are_all_type_paths, is_type_path, sensor_setup_is_complete, sensors_are_complete,
};

fn s(x: &str) -> String {
    x.to_string()
}

fn conds(v: &[CfgCondition]) -> Vec<(String, String)> {
    v.iter().map(|c| (c.attr.clone(), c.value.clone())).collect()
}

fn sensor(name: &str, driver: &str) -> Sensor {
    Sensor {
        name: s(name),
        driver: s(driver),
        label: s("label"),
        on: None,
        when: None,
        with: None,
        bus: None,
        peripherals: None,
    }
}

fn i2c_peripheral(sda: &str, scl: &str) -> I2cBusPeripheral {
    I2cBusPeripheral {
        on: Some(s("nrf52840")),
        when: None,
        sda: vec![I2cPin { pin: s(sda), pull_up: true, on: None, when: None }],
        scl: vec![I2cPin { pin: s(scl), pull_up: false, on: None, when: None }],
        frequency: I2cFrequency::K400,
    }
}

fn spi_peripheral() -> SpiBusPeripheral {
    SpiBusPeripheral {
        on: None,
        when: Some(s("spi")),
        sck: vec![SpiPin { pin: s("P0_01"), on: None, when: None }],
        miso: vec![SpiPin { pin: s("P0_02"), on: None, when: None }],
        mosi: vec![SpiPin { pin: s("P0_03"), on: None, when: None }],
        frequency: SpiFrequency::M8,
        mode: SpiMode::Mode3,
        bit_order: SpiBitOrder::LsbFirst,
    }
}

#[test]
fn conditional_lists_are_split_and_trimmed() {
    let v = parse_conditional_list("context", Some("nrf52840, rp2040 ,esp32"));
    assert_eq!(
        conds(&v),
        vec![(s("context"), s("nrf52840")), (s("context"), s("rp2040")), (s("context"), s("esp32"))]
    );
    assert!(parse_conditional_list("feature", None).is_empty());
    assert_eq!(conds(&parse_conditional_list("feature", Some(""))), vec![(s("feature"), s(""))]);
}

#[test]
fn contexts_come_before_features() {
    let mut x = sensor("T", "@a::B");
    x.on = Some(s("nrf52840"));
    x.when = Some(s("a,b"));
    assert_eq!(
        conds(&parse_cfg_conditionals(&x)),
        vec![(s("context"), s("nrf52840")), (s("feature"), s("a")), (s("feature"), s("b"))]
    );
}

#[test]
fn names_of_statics_and_paths() {
    assert_eq!(i2c_bus_static("main"), "I2C_BUS_main");
    assert_eq!(spi_bus_static("x"), "SPI_BUS_x");
    assert_eq!(i2c_frequency(I2cFrequency::K250), "arch::i2c::Frequency::K250");
    assert_eq!(spi_frequency(SpiFrequency::M16), "arch::spi::Frequency::M16");
    assert_eq!(spi_mode(SpiMode::Mode2), "arch::spi::MODE_2");
    assert_eq!(spi_bit_order(SpiBitOrder::MsbFirst), "arch::spi::BitOrder::MSB_FIRST");
    assert_eq!(sensor_type_alias_name("TEMP", "a::b::Lis3dh"), "Lis3dh_TEMP");
    assert_eq!(sensors_module_path("riot_rs"), "riot_rs::sensors");
    assert_eq!(sensors_module_path("ariel"), "ariel::sensors");
}

#[test]
fn i2c_bus_plans() {
    let bus = I2cBus { name: s("main"), peripheral: vec![(s("TWISPI0"), i2c_peripheral("P0_26", "P0_27"))] };
    let plans = generate_i2c_bus(&[bus]);
    assert_eq!(plans.len(), 1);
    assert_eq!(plans[0].bus_static, "I2C_BUS_main");
    let init = &plans[0].initializations[0];
    assert_eq!(init.peripheral, "TWISPI0");
    assert_eq!(init.frequency, I2cFrequency::K400);
    assert_eq!((init.sda_pin.as_str(), init.scl_pin.as_str()), ("P0_26", "P0_27"));
    assert_eq!((init.sda_pullup, init.scl_pullup), (true, false));
    assert_eq!(conds(&init.cfg_conditions), vec![(s("context"), s("nrf52840"))]);
}

#[test]
fn spi_bus_plans() {
    let bus = SpiBus { name: s("spi0"), peripheral: vec![(s("SPI2"), spi_peripheral())] };
    let plans = generate_spi_bus(&[bus]);
    assert_eq!(plans[0].bus_static, "SPI_BUS_spi0");
    let init = &plans[0].initializations[0];
    assert_eq!(init.peripheral, "SPI2");
    assert_eq!((init.frequency, init.mode, init.bit_order), (SpiFrequency::M8, SpiMode::Mode3, SpiBitOrder::LsbFirst));
    assert_eq!(
        (init.sck_pin.as_str(), init.miso_pin.as_str(), init.mosi_pin.as_str()),
        ("P0_01", "P0_02", "P0_03")
    );
    assert_eq!(conds(&init.cfg_conditions), vec![(s("feature"), s("spi"))]);
}

#[test]
fn setup_bus_plans_and_checks() {
    let mut setup = HwSetup::default();
    assert!(buses_are_complete(&setup));
    setup.buses = Buses {
        i2c: vec![I2cBus { name: s("a"), peripheral: vec![(s("TWISPI0"), i2c_peripheral("x", "y"))] }],
        spi: vec![SpiBus { name: s("b"), peripheral: vec![(s("SPI3"), spi_peripheral())] }],
    };
    assert!(buses_are_complete(&setup));
    let (i2c, spi) = bus_plans(&setup);
    assert_eq!(i2c[0].bus_static, "I2C_BUS_a");
    assert_eq!(spi[0].bus_static, "SPI_BUS_b");
    setup.buses.i2c[0].peripheral[0].1.scl.clear();
    assert!(!buses_are_complete(&setup));
}

#[test]
fn sensor_on_i2c_bus() {
    let mut x = sensor("ACCEL", "@riot_rs::builtin_sensors::lis3dh::Lis3dh");
    x.bus = Some(SensorBus::I2c(vec![(s("main"), SensorBusI2c { on: None, when: None })]));
    x.with = Some(SensorConfig(vec![
        (s("rate"), SensorConfigValue::Number(ConfigNumber::Unsigned(100))),
        (s("mode"), SensorConfigValue::String(s("@lis3dh::Mode::Fast"))),
        (s("name"), SensorConfigValue::String(s("@@not a path"))),
        (s("plain"), SensorConfigValue::String(s("text"))),
        (s("enabled"), SensorConfigValue::Bool(true)),
    ]));
    assert!(sensor_setup_is_complete(&x));
    let plan = generate_sensor(&x);
    assert_eq!(plan.sensor_static, "ACCEL");
    assert_eq!(plan.sensor_ref, "ACCEL_REF");
    assert_eq!(plan.label, "label");
    assert_eq!(plan.driver_type_path, "riot_rs::builtin_sensors::lis3dh::Lis3dh");
    assert_eq!(plan.type_alias, "Lis3dh_ACCEL");
    assert_eq!(plan.driver_module, "riot_rs::builtin_sensors::lis3dh");
    assert_eq!(plan.init_fn, "ACCEL_init");
    assert!(plan.peripheral_defs.is_empty());
    assert_eq!(plan.peripheral_struct, None);
    assert!(matches!(&plan.inits[..], [SensorInit::I2c { bus_static }] if bus_static == "I2C_BUS_main"));
    assert_eq!(plan.config.len(), 5);
    assert!(matches!(&plan.config[0].value, ConfigValuePlan::Number(ConfigNumber::Unsigned(100))));
    assert!(matches!(&plan.config[1].value, ConfigValuePlan::TypePath(p) if p == "lis3dh::Mode::Fast"));
    assert!(matches!(&plan.config[2].value, ConfigValuePlan::Str(t) if t == "@not a path"));
    assert!(matches!(&plan.config[3].value, ConfigValuePlan::Str(t) if t == "text"));
    assert!(matches!(&plan.config[4].value, ConfigValuePlan::Bool(true)));
    assert_eq!(plan.config[1].field, "mode");
}

#[test]
fn sensor_on_spi_bus_with_gpio() {
    let mut x = sensor("IMU", "@drivers::Imu");
    x.bus = Some(SensorBus::Spi(vec![(
        s("spi0"),
        SensorBusSpi { cs: vec![SpiPin { pin: s("P0_10"), on: Some(s("nrf52840")), when: None }], on: None, when: None },
    )]));
    x.peripherals = Some(Peripherals(vec![
        Peripheral::Output(Output { pin: s("P0_05"), on: None }),
        Peripheral::Input(Input { pin: s("P0_11"), on: None, when: None, pull: PullResistor::Up }),
    ]));
    assert!(sensor_setup_is_complete(&x));
    let plan = generate_sensor(&x);
    assert_eq!(plan.peripheral_defs.len(), 2);
    assert_eq!(plan.peripheral_defs[0].pin, "P0_10");
    assert_eq!(conds(&plan.peripheral_defs[0].cfg_conditions), vec![(s("context"), s("nrf52840"))]);
    assert_eq!(plan.peripheral_defs[1].pin, "P0_11");
    assert!(plan.peripheral_defs[1].cfg_conditions.is_empty());
    assert_eq!(plan.peripheral_struct.as_deref(), Some("IMUPeripherals"));
    assert!(matches!(&plan.inits[0], SensorInit::Spi { bus_static } if bus_static == "SPI_BUS_spi0"));
    assert!(matches!(&plan.inits[1], SensorInit::Gpio { pull: PullResistor::Up }));
    assert_eq!(plan.driver_module, "drivers");
    assert_eq!(plan.type_alias, "Imu_IMU");
}

#[test]
fn sensor_without_bus_or_peripherals() {
    let x = sensor("BTN", "@Button");
    let plan = generate_sensor(&x);
    assert!(matches!(&plan.inits[..], [SensorInit::Only]));
    assert_eq!(plan.driver_module, "");
    assert_eq!(plan.type_alias, "Button_BTN");
}

#[test]
fn incomplete_sensor_setups_are_detected() {
    assert!(!sensor_setup_is_complete(&sensor("X", "Driver")));
    assert!(!sensor_setup_is_complete(&sensor("X", "@@Driver")));
    let mut x = sensor("X", "@Driver");
    x.bus = Some(SensorBus::I2c(vec![]));
    assert!(!sensor_setup_is_complete(&x));
    let mut y = sensor("Y", "@Driver");
    y.peripherals = Some(Peripherals(vec![Peripheral::Output(Output { pin: s("P"), on: None })]));
    assert!(!sensor_setup_is_complete(&y));
    let list = [sensor("A", "@a::A"), sensor("B", "b::B")];
    assert!(!sensors_are_complete(&list));
    assert!(!drivers_are_all_type_paths(&list));
    assert!(drivers_are_all_type_paths(&list[..1]));
    assert!(is_type_path("@x"));
    assert!(!is_type_path("@"));
}

#[test]
fn sensor_plans_and_driver_list_keep_order() {
    let mut a = sensor("A", "@m::A");
    a.when = Some(s("f"));
    let list = [a, sensor("B", "@n::B")];
    assert!(sensors_are_complete(&list));
    let plans = sensor_plans(&list);
    assert_eq!(plans.len(), 2);
    assert_eq!(plans[1].sensor_static, "B");
    let drivers = sensor_driver_list(&list);
    assert_eq!(drivers[0].type_path, "m::A");
    assert_eq!(conds(&drivers[0].cfg_conditions), vec![(s("feature"), s("f"))]);
    assert_eq!(drivers[1].type_path, "n::B");
}

#[test]
fn sensor_config_absent_gives_no_statement() {
    assert!(generate_sensor_config(None).is_empty());
}

#[test]
fn setup_strings_read_as_type_paths_or_strings() {
    assert!(matches!(StringOrTypePath::from("@a::B"), StringOrTypePath::TypePath("a::B")));
    assert!(matches!(StringOrTypePath::from("@@a"), StringOrTypePath::String("@a")));
    assert!(matches!(StringOrTypePath::from("a"), StringOrTypePath::String("a")));
    assert!(matches!(StringOrTypePath::from("@"), StringOrTypePath::String("")));
    assert!(matches!(StringOrTypePath::from(""), StringOrTypePath::String("")));
}

#[test]
fn reading_variant_names() {
    assert_eq!(decimal(0), "0");
    assert_eq!(decimal(1204), "1204");
    assert_eq!(variant_name(3), "V3");
    assert_eq!(variant_names(3), vec!["V1", "V2", "V3"]);
    assert!(variant_names(0).is_empty());
    assert_eq!(variant_names(12)[11], "V12");
}

#[test]
fn reading_value_counts() {
    let mut sensors = Sensors { max_reading_value_count: None, connected: vec![] };
    assert_eq!(sensors.max_reading_value_count(), 3);
    sensors.max_reading_value_count = MaxReadingValueCount::new(6);
    assert_eq!(sensors.max_reading_value_count(), 6);
    assert!(MaxReadingValueCount::new(0).is_none());
    assert_eq!(MaxReadingValueCount::default().get(), 3);
}

#[test]
fn sensor_and_bus_agree_on_static() {
    let mut x = sensor("ACC", "@d::Acc");
    x.bus = Some(SensorBus::I2c(vec![(s("main"), SensorBusI2c { on: None, when: None })]));
    let bus = I2cBus { name: s("main"), peripheral: vec![(s("TWISPI0"), i2c_peripheral("a", "b"))] };
    let plan = generate_sensor(&x);
    let buses = generate_i2c_bus(&[bus]);
    assert!(matches!(&plan.inits[0], SensorInit::I2c { bus_static } if *bus_static == buses[0].bus_static));
    assert_ne!(i2c_bus_static("x"), spi_bus_static("x"));
    assert_ne!(i2c_bus_static("x"), i2c_bus_static("y"));
}

#[test]
fn reading_value_count_from_features() {
    assert_eq!(reading_value_count(false, false, false, false, false), 1);
    assert_eq!(reading_value_count(true, false, false, false, false), 2);
    assert_eq!(reading_value_count(true, true, false, false, false), 3);
    assert_eq!(reading_value_count(false, true, true, false, false), 6);
    assert_eq!(reading_value_count(true, false, false, true, false), 9);
    assert_eq!(reading_value_count(true, true, true, true, true), 12);
}

#[test]
fn repeated_keys_make_a_setup_incomplete() {
    let mut bus = I2cBus { name: s("main"), peripheral: vec![(s("TWISPI0"), i2c_peripheral("a", "b"))] };
    let mut setup = HwSetup::default();
    setup.buses.i2c = vec![bus];
    assert!(buses_are_complete(&setup));
    bus = I2cBus {
        name: s("main"),
        peripheral: vec![(s("TWISPI0"), i2c_peripheral("a", "b")), (s("TWISPI0"), i2c_peripheral("c", "d"))],
    };
    setup.buses.i2c = vec![bus];
    assert!(!buses_are_complete(&setup));
    let mut x = sensor("X", "@D");
    x.with = Some(SensorConfig(vec![
        (s("rate"), SensorConfigValue::Bool(true)),
        (s("rate"), SensorConfigValue::Bool(false)),
    ]));
    assert!(!sensor_setup_is_complete(&x));
}
