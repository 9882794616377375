use riot_rs::internal_temp::{
    check_enabled, reading_from_raw, set_mode_decision, threshold_to_store, watcher_notification, InternalTemp,
};
use riot_rs::lsm6dsv16x::{
    device_id, is_busy, part_number_str, set_mode_result, step, target_i2c_addr, temperature_from_bytes,
    trigger_decision, wait_decision, who_am_i_reg_addr, Action, Lsm6dsv16xI2c, SetModeError, TriggerMeasurementError,
};
use riot_rs::lsm6dsv16x::{Event, Phase};
use riot_rs::nrf52_temp;
use riot_rs::physical::{
    AccuracyError, Category, Label, PhysicalUnit, PhysicalValue, PhysicalValues, Reading, ReadingAxes, ReadingAxis,
};
use riot_rs::saga;
use riot_rs::saga_sensor;
use riot_rs::sensor::{
    initialization_due, previous_state, set_mode_outcome, state_update, Mode, ModeSettingError, Notification, PushButtonReading, ReadingError, State,
    StateAtomic, TemperatureReading, ThresholdKind,
};

fn pv(value: i32) -> PhysicalValue {
    PhysicalValue::new(value, AccuracyError::Unknown)
}

#[test]
fn state_bytes_round_trip() {
    for s in [State::Uninitialized, State::Disabled, State::Enabled, State::Sleeping] {
        assert_eq!(State::try_from(s.to_u8()).ok(), Some(s));
        assert_eq!(State::from_stored(s.to_u8()), s);
    }
    assert_eq!(State::Enabled.to_u8(), 2);
    assert!(State::try_from(4u8).is_err());
    assert_eq!(State::from_stored(200), State::Uninitialized);
    assert_eq!(State::default(), State::Uninitialized);
}

#[test]
fn modes_give_their_states() {
    assert_eq!(State::from(Mode::Disabled), State::Disabled);
    assert_eq!(State::from(Mode::Enabled), State::Enabled);
    assert_eq!(State::from(Mode::Sleeping), State::Sleeping);
}

#[test]
fn mode_change_refused_when_uninitialized() {
    assert_eq!(state_update(0, 2), None);
    assert_eq!(state_update(1, 3), Some(3));
    assert_eq!(state_update(7, 3), None);
    assert!(initialization_due(State::Uninitialized));
    assert!(!initialization_due(State::Sleeping));
    assert_eq!(set_mode_outcome(Err(0), Mode::Enabled), State::Uninitialized);
    assert_eq!(set_mode_outcome(Ok(1), Mode::Sleeping), State::Sleeping);
    assert_eq!(set_mode_decision(State::Uninitialized), Err(ModeSettingError::Uninitialized));
    assert_eq!(set_mode_decision(State::Disabled), Ok(State::Disabled));
    assert_eq!(set_mode_result(None), Err(SetModeError::Uninitialized));
    assert_eq!(set_mode_result(Some(State::Sleeping)), Ok(State::Sleeping));
    assert_eq!(previous_state(Err(0)), None);
    assert_eq!(previous_state(Ok(2)), Some(State::Enabled));
}

#[test]
fn atomic_state_keeps_uninitialized_drivers_uninitialized() {
    let s = StateAtomic::new(State::Uninitialized);
    assert_eq!(s.get(), State::Uninitialized);
    assert_eq!(s.set_mode(Mode::Enabled), State::Uninitialized);
    assert_eq!(s.get(), State::Uninitialized);
    s.set(State::Disabled);
    assert_eq!(s.set_mode(Mode::Enabled), State::Enabled);
    assert_eq!(s.get(), State::Enabled);
    assert_eq!(s.replace_mode(Mode::Sleeping), Some(State::Enabled));
    assert_eq!(s.get(), State::Sleeping);
    let u = StateAtomic::new(State::Uninitialized);
    assert_eq!(u.replace_mode(Mode::Enabled), None);
    assert_eq!(u.get(), State::Uninitialized);
}

#[test]
fn reading_error_messages() {
    assert_eq!(ReadingError::NonEnabled.message(), "sensor driver is not enabled");
    assert_eq!(ReadingError::SensorAccess.message(), "sensor device could not be accessed");
}

#[test]
fn category_readings() {
    assert!(PushButtonReading::new(pv(1)).is_pressed());
    assert!(!PushButtonReading::new(pv(0)).is_pressed());
    assert!(PushButtonReading::new(pv(-3)).is_pressed());
    assert_eq!(TemperatureReading::new(pv(2150)).temperature(), pv(2150));
}

#[test]
fn values_and_axes() {
    let v = PhysicalValue::new(7, AccuracyError::Symmetrical { deviation: 2, bias: 1, scaling: -1 });
    assert_eq!(v.value(), 7);
    assert_eq!(v.error(), AccuracyError::Symmetrical { deviation: 2, bias: 1, scaling: -1 });
    let r = PhysicalValues::V3([pv(1), pv(2), pv(3)]);
    assert_eq!(r.value(), pv(1));
    assert_eq!(r.values(), vec![pv(1), pv(2), pv(3)]);
    assert_eq!(r.values()[0], r.value());
    let x = ReadingAxis::new(Label::X, -3, PhysicalUnit::AccelG);
    let y = ReadingAxis::new(Label::Y, -3, PhysicalUnit::AccelG);
    let z = ReadingAxis::new(Label::Z, -3, PhysicalUnit::AccelG);
    let axes = ReadingAxes::V3([x, y, z]);
    assert_eq!(axes.iter().len(), r.values().len());
    assert_eq!(axes.first().label(), Label::X);
    assert_eq!(x.scaling(), -3);
    assert_eq!(x.unit(), PhysicalUnit::AccelG);
    assert_eq!(PhysicalUnit::Celsius.symbol(), "°C");
    assert_eq!(PhysicalUnit::Bool.symbol(), "");
    assert_eq!(Label::Main.name(), "");
    assert_eq!(Label::Temperature.name(), "Temperature");
}

#[test]
fn internal_temp_readings_are_hundredths_of_a_degree() {
    // 21.25 °C is 85 quarters of a degree.
    let r = reading_from_raw(85);
    assert_eq!(r.value().value(), 2125);
    assert_eq!(r.value().error(), AccuracyError::Symmetrical { deviation: 5, bias: 0, scaling: 0 });
    assert_eq!(reading_from_raw(-1).value().value(), -25);
    assert_eq!(reading_from_raw(0).value().value(), 0);
    assert_eq!(nrf52_temp::value_from_raw(85).value, 2125);
    assert_eq!(nrf52_temp::value_from_raw(-7).value, -175);
    assert_eq!(nrf52_temp::value_scale(), -2);
    assert!(matches!(nrf52_temp::unit(), saga_sensor::PhysicalUnit::Celsius));
    assert_eq!(nrf52_temp::display_name(), Some("Internal temperature sensor"));
    assert_eq!(nrf52_temp::part_number(), "nrf52 internal temperature sensor");
    assert_eq!(nrf52_temp::version(), 0);
}

#[test]
fn internal_temp_decisions() {
    assert_eq!(check_enabled(State::Enabled), Ok(()));
    assert_eq!(check_enabled(State::Sleeping), Err(ReadingError::NonEnabled));
    assert_eq!(threshold_to_store(ThresholdKind::Lower, pv(30)), Some(30));
    assert_eq!(threshold_to_store(ThresholdKind::Higher, pv(30)), None);
    assert_eq!(watcher_notification(true, Some(31), 30), Some(Notification::Threshold(ThresholdKind::Lower)));
    assert_eq!(watcher_notification(true, Some(30), 30), None);
    assert_eq!(watcher_notification(false, Some(31), 30), None);
    assert_eq!(watcher_notification(true, None, 30), None);
}

#[test]
fn internal_temp_driver() {
    let t = InternalTemp::new(Some("cpu"));
    assert_eq!(t.label(), Some("cpu"));
    assert_eq!(t.state(), State::Uninitialized);
    assert_eq!(t.measurement_allowed(), Err(ReadingError::NonEnabled));
    assert_eq!(t.set_mode(Mode::Enabled), Err(ModeSettingError::Uninitialized));
    t.mark_initialized();
    assert_eq!(t.state(), State::Enabled);
    assert_eq!(t.measurement_allowed(), Ok(()));
    t.set_threshold(ThresholdKind::Lower, pv(2000));
    assert_eq!(t.watch(Some(2500)), None);
    t.set_threshold_enabled(ThresholdKind::Lower, true);
    assert_eq!(t.watch(Some(2500)), Some(Notification::Threshold(ThresholdKind::Lower)));
    assert_eq!(t.watch(Some(1500)), None);
    t.set_threshold(ThresholdKind::Higher, pv(0));
    assert_eq!(t.watch(Some(1500)), None);
    assert_eq!(t.set_mode(Mode::Sleeping), Ok(State::Enabled));
    assert_eq!(t.state(), State::Sleeping);
    assert_eq!(t.measurement_allowed(), Err(ReadingError::NonEnabled));
    assert_eq!(t.categories(), vec![Category::Temperature]);
    assert_eq!(t.reading_axes().first(), ReadingAxis::new(Label::Main, -2, PhysicalUnit::Celsius));
    assert_eq!(t.display_name(), Some("Internal temperature sensor"));
    assert_eq!(t.part_number(), "nrf52 internal temperature sensor");
    assert_eq!(t.version(), 0);
}

#[test]
fn lsm6dsv16x_constants() {
    assert_eq!(part_number_str(), "LSM6DSV16X");
    assert_eq!(target_i2c_addr(), 0x35);
    assert_eq!(who_am_i_reg_addr(), 0x0f);
    assert_eq!(device_id(), 0x70);
}

#[test]
fn lsm6dsv16x_bytes_and_status() {
    assert_eq!(temperature_from_bytes(0x34, 0x12), 0x1234);
    assert_eq!(temperature_from_bytes(0xff, 0xff), 65535);
    assert!(is_busy(0b0000_0100, 2));
    assert!(!is_busy(0b1111_1011, 2));
    assert_eq!(trigger_decision(State::Enabled), Ok(()));
    assert_eq!(trigger_decision(State::Disabled), Err(TriggerMeasurementError::NonEnabled));
    assert_eq!(wait_decision(State::Uninitialized), Err(ReadingError::NonEnabled));
}

#[test]
fn lsm6dsv16x_measurement_cycle() {
    let (p, a) = step(Phase::Idle, Event::Triggered, 2);
    assert_eq!((p, a), (Phase::Starting, Action::StartMeasurement));
    let (p, a) = step(p, Event::StartWritten(true), 2);
    assert_eq!((p, a), (Phase::Polling, Action::ReadStatus));
    let (p, a) = step(p, Event::StatusRead(Some(0b100)), 2);
    assert_eq!((p, a), (Phase::Polling, Action::WaitThenReadStatus));
    let (p, a) = step(p, Event::StatusRead(Some(0)), 2);
    assert_eq!((p, a), (Phase::Reading, Action::ReadTemperature));
    let (p, a) = step(p, Event::TemperatureRead(Some((0x10, 0x01))), 2);
    assert_eq!((p, a), (Phase::Idle, Action::SignalReading(0x110)));
    assert_eq!(step(Phase::Starting, Event::StartWritten(false), 2), (Phase::Idle, Action::SignalError(ReadingError::SensorAccess)));
    assert_eq!(step(Phase::Reading, Event::TemperatureRead(None), 2), (Phase::Idle, Action::SignalError(ReadingError::SensorAccess)));
    assert_eq!(step(Phase::Polling, Event::StatusRead(None), 2), (Phase::Reading, Action::ReadTemperature));
}

#[test]
fn lsm6dsv16x_driver() {
    let d = Lsm6dsv16xI2c::new(None);
    assert_eq!(d.label(), None);
    assert_eq!(d.trigger_measurement(), Err(TriggerMeasurementError::NonEnabled));
    assert_eq!(d.set_mode(Mode::Enabled), Err(SetModeError::Uninitialized));
    d.mark_initialized();
    assert_eq!(d.state(), State::Enabled);
    assert_eq!(d.trigger_measurement(), Ok(()));
    assert_eq!(d.wait_for_reading(), Ok(()));
    assert_eq!(d.set_mode(Mode::Disabled), Ok(State::Enabled));
    assert_eq!(d.state(), State::Disabled);
    assert_eq!(d.wait_for_reading(), Err(ReadingError::NonEnabled));
    assert_eq!(d.display_name(), Some("6-axis IMU"));
    assert_eq!(d.part_number(), Some("LSM6DSV16X"));
    assert_eq!(d.version(), 0);
}

struct OneValue(saga::PhysicalValue);

impl saga::Reading for OneValue {
    fn spec_value(&self) -> saga::PhysicalValue {
        self.0
    }

    fn value(&self) -> saga::PhysicalValue {
        self.0
    }
}

#[test]
fn saga_reading_has_a_single_value() {
    let r = OneValue(saga::PhysicalValue { value: 42 });
    assert_eq!(saga::Reading::values(&r), vec![saga::PhysicalValue { value: 42 }]);
}

#[test]
fn initializing_twice_does_nothing() {
    let t = InternalTemp::new(None);
    assert!(t.needs_initialization());
    t.mark_initialized();
    assert!(!t.needs_initialization());
    assert_eq!(t.set_mode(Mode::Sleeping), Ok(State::Enabled));
    t.mark_initialized();
    assert_eq!(t.state(), State::Sleeping);
    let d = Lsm6dsv16xI2c::new(None);
    assert!(d.needs_initialization());
    d.mark_initialized();
    assert_eq!(d.set_mode(Mode::Disabled), Ok(State::Enabled));
    d.mark_initialized();
    assert_eq!(d.state(), State::Disabled);
}

#[test]
fn one_result_per_trigger() {
    // Three triggers: a bus failure at start, a busy wait then a reading, a failed read.
    let events = [
        Event::Triggered,
        Event::StartWritten(false),
        Event::Triggered,
        Event::StartWritten(true),
        Event::StatusRead(Some(0b100)),
        Event::StatusRead(Some(0)),
        Event::TemperatureRead(Some((1, 2))),
        Event::Triggered,
        Event::StartWritten(true),
        Event::StatusRead(None),
        Event::TemperatureRead(None),
    ];
    let mut phase = Phase::Idle;
    let mut signals = 0;
    for e in events {
        let (p, a) = step(phase, e, 2);
        if matches!(a, Action::SignalReading(_) | Action::SignalError(_)) {
            signals += 1;
        }
        phase = p;
    }
    assert_eq!(phase, Phase::Idle);
    assert_eq!(signals, 3);
}
