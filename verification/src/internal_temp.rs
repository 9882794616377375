//! The internal temperature sensor of nRF52 MCUs, driven through the sensor abstraction: its
//! state, its readings, its metadata and the watching of its lower threshold.
use vstd::prelude::*;
use fixed::traits::LossyInto;
use fixed::types::I30F2;
use portable_atomic::{AtomicBool, AtomicI32};
use crate::atomics::{atomic_bool_load, atomic_bool_new, atomic_bool_store, atomic_i32_load, atomic_i32_new, atomic_i32_store};
use crate::physical::{AccuracyError, Category, Label, PhysicalUnit, PhysicalValue, PhysicalValues, ReadingAxes, ReadingAxis};
use crate::sensor::{initialization_due, Mode, ModeSettingError, Notification, ReadingError, State, StateAtomic, ThresholdKind};

verus! {

/// Calls `fixed`: multiplies the `I30F2` number with bits `bits` (a quarter of a unit per
/// bit) by `factor` and converts the product to an integer with `LossyInto`, which discards
/// the fractional bits and so rounds towards minus infinity. The product is computed on the
/// bits, so it must not overflow an `i32`.
#[verifier::external_body]
pub(crate) fn i30f2_times_int_floor(bits: i32, factor: i32) -> (r: i32)
    requires
        i32::MIN <= bits * factor <= i32::MAX,
    ensures
        r == (bits * factor) / 4,
{
    let product = factor * I30F2::from_bits(bits);
    product.lossy_into()
}

/// Accuracy of the internal temperature sensor: a deviation of 5 without bias.
pub open spec fn spec_internal_temp_accuracy() -> AccuracyError {
    AccuracyError::Symmetrical { deviation: 5, bias: 0, scaling: 0 }
}

/// Scaling of the readings: hundredths of a degree.
pub open spec fn spec_internal_temp_axis() -> ReadingAxis {
    ReadingAxis { label: Label::Main, scaling: -2i8, unit: PhysicalUnit::Celsius }
}

/// Returns the reading for a raw measurement, given in quarters of a degree Celsius: the
/// temperature in hundredths of a degree (the quarters times a hundred, rounded down to an
/// integer), with the accuracy of the sensor.
pub fn reading_from_raw(quarter_degrees: i32) -> (r: PhysicalValues)
    requires
        i32::MIN <= quarter_degrees * 100 <= i32::MAX,
    ensures
        r == PhysicalValues::V1(
            [PhysicalValue { value: (quarter_degrees * 100 / 4) as i32, error: spec_internal_temp_accuracy() }],
        ),
        quarter_degrees * 100 / 4 == quarter_degrees * 25,
{
    let temp = i30f2_times_int_floor(quarter_degrees, 100);
    assert(quarter_degrees * 100 == (quarter_degrees * 25) * 4);
    PhysicalValues::V1([PhysicalValue::new(temp, AccuracyError::Symmetrical { deviation: 5, bias: 0, scaling: 0 })])
}

/// Whether a measurement may be taken in `state`: only when the driver is enabled.
pub fn check_enabled(state: State) -> (r: Result<(), ReadingError>)
    ensures
        r is Ok <==> state == State::Enabled,
        r matches Err(e) ==> e == ReadingError::NonEnabled,
{
    if state != State::Enabled {
        Err(ReadingError::NonEnabled)
    } else {
        Ok(())
    }
}

/// The outcome of a mode change in `current`: refused when the driver is uninitialized, the
/// state it replaces otherwise.
pub fn set_mode_decision(current: State) -> (r: Result<State, ModeSettingError>)
    ensures
        current == State::Uninitialized ==> r == Err::<State, ModeSettingError>(
            ModeSettingError::Uninitialized,
        ),
        current != State::Uninitialized ==> r == Ok::<State, ModeSettingError>(current),
{
    if current == State::Uninitialized {
        return Err(ModeSettingError::Uninitialized);
    }
    Ok(current)
}

/// The value a threshold setting stores: only the lower threshold is supported.
pub fn threshold_to_store(kind: ThresholdKind, value: PhysicalValue) -> (r: Option<i32>)
    ensures
        r == if kind == ThresholdKind::Lower { Some(value.value) } else { None::<i32> },
{
    match kind {
        ThresholdKind::Lower => Some(value.value()),
        ThresholdKind::Higher => None,
    }
}

/// What the watcher of a sensor notifies after a round: crossing above the lower threshold,
/// when that watching is enabled and a reading could be obtained.
pub fn watcher_notification(enabled: bool, reading: Option<i32>, lower_threshold: i32) -> (r: Option<Notification>)
    ensures
        r == if enabled && reading is Some && reading->0 > lower_threshold {
            Some(Notification::Threshold(ThresholdKind::Lower))
        } else {
            None::<Notification>
        },
{
    if enabled {
        if let Some(value) = reading {
            if value > lower_threshold {
                return Some(Notification::Threshold(ThresholdKind::Lower));
            }
        }
    }
    None
}

/// Configuration of the internal temperature sensor (nothing to configure).
#[derive(Debug)]
pub struct Config {}

impl Default for Config {
    fn default() -> (r: Self) {
        Self {}
    }
}

/// The internal temperature sensor: its state and label, and the lower threshold its watcher
/// checks.
pub struct InternalTemp {
    state: StateAtomic,
    label: Option<&'static str>,
    lower_threshold: AtomicI32,
    lower_threshold_enabled: AtomicBool,
}

impl InternalTemp {
    /// Creates an uninitialized sensor with the given label.
    pub fn new(label: Option<&'static str>) -> (r: Self)
        ensures
            r.spec_label() == label,
    {
        Self {
            state: StateAtomic::new(State::Uninitialized),
            label,
            lower_threshold: atomic_i32_new(0),
            lower_threshold_enabled: atomic_bool_new(false),
        }
    }

    pub closed spec fn spec_label(&self) -> Option<&'static str> {
        self.label
    }

    /// Whether the driver still has to be initialized: only when it is uninitialized, so
    /// that initializing it again does nothing.
    pub fn needs_initialization(&self) -> bool {
        initialization_due(self.state.get())
    }

    /// Marks the driver initialized and enabled, once its hardware has been set up; does
    /// nothing when it was initialized already.
    pub fn mark_initialized(&self) {
        if initialization_due(self.state.get()) {
            self.state.set(State::Enabled)
        }
    }

    /// Returns the state of the sensor.
    pub fn state(&self) -> State {
        self.state.get()
    }

    /// Whether a measurement may be taken now.
    pub fn measurement_allowed(&self) -> (r: Result<(), ReadingError>)
        ensures
            r matches Err(e) ==> e == ReadingError::NonEnabled,
    {
        check_enabled(self.state.get())
    }

    /// Sets the mode of the sensor, unless it is uninitialized, and returns the previous
    /// state.
    pub fn set_mode(&self, mode: Mode) -> (r: Result<State, ModeSettingError>)
        ensures
            r matches Ok(s) ==> s != State::Uninitialized,
            r matches Err(e) ==> e == ModeSettingError::Uninitialized,
    {
        let res = set_mode_decision(self.state.get());
        if res.is_ok() {
            self.state.set(State::from(mode));
        }
        res
    }

    /// Sets a threshold; only the lower threshold is supported, others are ignored.
    pub fn set_threshold(&self, kind: ThresholdKind, value: PhysicalValue) {
        if let Some(v) = threshold_to_store(kind, value) {
            atomic_i32_store(&self.lower_threshold, v);
        }
    }

    /// Enables or disables a threshold; only the lower threshold is supported.
    pub fn set_threshold_enabled(&self, kind: ThresholdKind, enabled: bool) {
        match kind {
            ThresholdKind::Lower => atomic_bool_store(&self.lower_threshold_enabled, enabled),
            ThresholdKind::Higher => {},
        }
    }

    /// What the watcher notifies after reading `reading` (`None` when it could not read).
    pub fn watch(&self, reading: Option<i32>) -> (r: Option<Notification>)
        ensures
            r is Some ==> r == Some(Notification::Threshold(ThresholdKind::Lower)),
            reading is None ==> r is None,
    {
        let enabled = atomic_bool_load(&self.lower_threshold_enabled);
        let threshold = atomic_i32_load(&self.lower_threshold);
        watcher_notification(enabled, reading, threshold)
    }

    /// Returns the categories of the sensor.
    pub fn categories(&self) -> (r: Vec<Category>)
        ensures
            r@ == seq![Category::Temperature],
    {
        let r = vec![Category::Temperature];
        assert(r@ =~= seq![Category::Temperature]);
        r
    }

    /// Returns the metadata of the readings: hundredths of a degree Celsius.
    pub fn reading_axes(&self) -> (r: ReadingAxes)
        ensures
            r == ReadingAxes::V1([spec_internal_temp_axis()]),
    {
        ReadingAxes::V1([ReadingAxis::new(Label::Main, -2, PhysicalUnit::Celsius)])
    }

    /// Returns the label of the sensor instance.
    pub fn label(&self) -> (r: Option<&'static str>)
        ensures
            r == self.spec_label(),
    {
        self.label
    }

    /// Returns the name of the sensor.
    pub fn display_name(&self) -> (r: Option<&'static str>)
        ensures
            r matches Some(n) && n@ == "Internal temperature sensor"@,
    {
        Some("Internal temperature sensor")
    }

    /// Returns the part number of the sensor.
    pub fn part_number(&self) -> (r: &'static str)
        ensures
            r@ == "nrf52 internal temperature sensor"@,
    {
        "nrf52 internal temperature sensor"
    }

    /// Returns the version of the driver.
    pub fn version(&self) -> (r: u8)
        ensures
            r == 0,
    {
        0
    }
}

} // verus!
