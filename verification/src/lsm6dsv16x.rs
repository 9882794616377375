//! The LSM6DSV16X inertial measurement unit on I2C: its identity on the bus, its state, and the
//! measurement cycle that its driver task runs.
use vstd::prelude::*;
use crate::sensor::{initialization_due, Mode, ReadingError, State, StateAtomic};

verus! {

/// The part number of the device.
pub open spec fn spec_part_number() -> Seq<char> {
    "LSM6DSV16X"@
}

/// Returns the part number of the device.
pub fn part_number_str() -> (r: &'static str)
    ensures
        r@ == spec_part_number(),
{
    "LSM6DSV16X"
}

/// Returns the I2C address of the device.
pub fn target_i2c_addr() -> (r: u8)
    ensures
        r == 0x35,
{
    let r = 0b1101011u8 >> 1u8;
    assert(0b1101011u8 >> 1u8 == 0x35u8) by (bit_vector);
    r
}

/// Returns the address of the identification register.
pub fn who_am_i_reg_addr() -> (r: u8)
    ensures
        r == 0x0f,
{
    0x0f
}

/// Returns the identifier the device answers with.
pub fn device_id() -> (r: u8)
    ensures
        r == 0x70,
{
    0x70
}

/// Error when triggering a measurement.
#[derive(Debug, Copy, Clone, PartialEq, Eq, Structural)]
pub enum TriggerMeasurementError {
    /// The sensor driver is not enabled.
    NonEnabled,
}

/// Error when setting the mode of the sensor driver.
#[derive(Debug, Copy, Clone, PartialEq, Eq, Structural)]
pub enum SetModeError {
    /// The sensor driver is not initialized.
    Uninitialized,
}

/// Whether a measurement may be triggered in `state`: only when enabled.
pub fn trigger_decision(state: State) -> (r: Result<(), TriggerMeasurementError>)
    ensures
        r is Ok <==> state == State::Enabled,
        r matches Err(e) ==> e == TriggerMeasurementError::NonEnabled,
{
    if state != State::Enabled {
        return Err(TriggerMeasurementError::NonEnabled);
    }
    Ok(())
}

/// Whether a reading may be waited for in `state`: only when enabled.
pub fn wait_decision(state: State) -> (r: Result<(), ReadingError>)
    ensures
        r is Ok <==> state == State::Enabled,
        r matches Err(e) ==> e == ReadingError::NonEnabled,
{
    if state != State::Enabled {
        return Err(ReadingError::NonEnabled);
    }
    Ok(())
}

/// The result of a mode change, from the state it replaced: refused when the driver was
/// uninitialized (`None`), the previous state otherwise.
pub fn set_mode_result(previous: Option<State>) -> (r: Result<State, SetModeError>)
    ensures
        previous is None ==> r == Err::<State, SetModeError>(SetModeError::Uninitialized),
        previous matches Some(s) ==> r == Ok::<State, SetModeError>(s),
{
    match previous {
        Some(s) => Ok(s),
        None => Err(SetModeError::Uninitialized),
    }
}

/// Returns the temperature in the two bytes read from the output registers, low byte first.
pub fn temperature_from_bytes(low: u8, high: u8) -> (r: i32)
    ensures
        r == high * 256 + low,
{
    let r = (high as i32) << 8 | (low as i32);
    assert(r == high * 256 + low) by (bit_vector)
        requires
            r == (high as i32) << 8 | (low as i32),
    ;
    r
}

/// Whether the status byte reports the device busy, given the position of its busy bit.
pub fn is_busy(status: u8, busy_bit: u8) -> (r: bool)
    requires
        busy_bit < 8,
    ensures
        r == ((status >> busy_bit) & 1u8 == 1u8),
{
    let r = status & (1u8 << busy_bit) != 0;
    assert(((status & (1u8 << busy_bit)) != 0) == ((status >> busy_bit) & 1u8 == 1u8)) by (bit_vector)
        requires
            busy_bit < 8,
    ;
    r
}

/// Where the driver task stands in a measurement cycle.
#[derive(Debug, Copy, Clone, PartialEq, Eq, Structural)]
pub enum Phase {
    /// Waiting for a measurement to be triggered.
    Idle,
    /// Writing the command that starts a one-shot measurement.
    Starting,
    /// Reading the status until the device is no longer busy.
    Polling,
    /// Reading the temperature bytes.
    Reading,
}

/// What happened since the last step.
#[derive(Debug, Copy, Clone)]
pub enum Event {
    /// A measurement was triggered.
    Triggered,
    /// The start command was written, or the bus failed.
    StartWritten(bool),
    /// The status byte was read, or the bus failed (`None`).
    StatusRead(Option<u8>),
    /// The two temperature bytes were read (low, high), or the bus failed (`None`).
    TemperatureRead(Option<(u8, u8)>),
}

/// What the driver task does next.
#[derive(Debug, Copy, Clone, PartialEq, Eq, Structural)]
pub enum Action {
    /// Write the start command.
    StartMeasurement,
    /// Read the status byte.
    ReadStatus,
    /// Wait a little, then read the status byte again.
    WaitThenReadStatus,
    /// Read the temperature bytes.
    ReadTemperature,
    /// Hand out the reading with this temperature, then wait for the next trigger.
    SignalReading(i32),
    /// Hand out this error, then wait for the next trigger.
    SignalError(ReadingError),
}

/// The events that can happen in a phase.
pub open spec fn event_expected(phase: Phase, event: Event) -> bool {
    match phase {
        Phase::Idle => event is Triggered,
        Phase::Starting => event is StartWritten,
        Phase::Polling => event is StatusRead,
        Phase::Reading => event is TemperatureRead,
    }
}

/// The next phase and action of a measurement cycle. A bus failure while starting or reading
/// ends the cycle with a sensor access error; a failed status read leaves the status byte at
/// zero, which reads as not busy.
pub open spec fn spec_step(phase: Phase, event: Event, busy_bit: u8) -> (Phase, Action) {
    match event {
        Event::Triggered => (Phase::Starting, Action::StartMeasurement),
        Event::StartWritten(ok) => if ok {
            (Phase::Polling, Action::ReadStatus)
        } else {
            (Phase::Idle, Action::SignalError(ReadingError::SensorAccess))
        },
        Event::StatusRead(status) => {
            let byte = match status {
                Some(b) => b,
                None => 0u8,
            };
            if (byte >> busy_bit) & 1u8 == 1u8 {
                (Phase::Polling, Action::WaitThenReadStatus)
            } else {
                (Phase::Reading, Action::ReadTemperature)
            }
        },
        Event::TemperatureRead(bytes) => match bytes {
            Some((low, high)) => (Phase::Idle, Action::SignalReading((high * 256 + low) as i32)),
            None => (Phase::Idle, Action::SignalError(ReadingError::SensorAccess)),
        },
    }
}

/// Returns the next phase and action of a measurement cycle.
pub fn step(phase: Phase, event: Event, busy_bit: u8) -> (r: (Phase, Action))
    requires
        busy_bit < 8,
        event_expected(phase, event),
    ensures
        r == spec_step(phase, event, busy_bit),
        event matches Event::StatusRead(Some(status)) ==> (r.1 == Action::WaitThenReadStatus
            <==> status & (1u8 << busy_bit) != 0),
{
    match event {
        Event::Triggered => (Phase::Starting, Action::StartMeasurement),
        Event::StartWritten(ok) => {
            if ok {
                (Phase::Polling, Action::ReadStatus)
            } else {
                (Phase::Idle, Action::SignalError(ReadingError::SensorAccess))
            }
        },
        Event::StatusRead(status) => {
            let byte = match status {
                Some(b) => b,
                None => 0u8,
            };
            proof { law_busy_bit_alone_decides(byte, byte, busy_bit); }
            if is_busy(byte, busy_bit) {
                (Phase::Polling, Action::WaitThenReadStatus)
            } else {
                (Phase::Reading, Action::ReadTemperature)
            }
        },
        Event::TemperatureRead(bytes) => match bytes {
            Some((low, high)) => (Phase::Idle, Action::SignalReading(temperature_from_bytes(low, high))),
            None => (Phase::Idle, Action::SignalError(ReadingError::SensorAccess)),
        },
    }
}

/// Every measurement cycle ends where it started: a reading or an error is handed out exactly
/// when the task goes back to waiting for a trigger.
pub proof fn law_cycle_ends_with_a_signal(phase: Phase, event: Event, busy_bit: u8)
    requires
        busy_bit < 8,
        event_expected(phase, event),
    ensures
        (spec_step(phase, event, busy_bit).0 == Phase::Idle) <==> (spec_step(
            phase,
            event,
            busy_bit,
        ).1 is SignalReading || spec_step(phase, event, busy_bit).1 is SignalError),
{
}

/// The temperatures handed out lie in the range of two bytes.
pub proof fn law_reading_range(phase: Phase, event: Event, busy_bit: u8)
    requires
        busy_bit < 8,
        event_expected(phase, event),
    ensures
        spec_step(phase, event, busy_bit).1 matches Action::SignalReading(t) ==> 0 <= t < 65536,
{
}

/// On a status read, only the busy bit decides: the task polls again exactly when bit
/// `busy_bit` of the status byte is set, and reads the temperature otherwise, whatever the
/// other bits hold; two status bytes that agree on the busy bit lead to the same step.
pub proof fn law_busy_bit_alone_decides(status: u8, other: u8, busy_bit: u8)
    requires
        busy_bit < 8,
    ensures
        status & (1u8 << busy_bit) != 0 ==> spec_step(Phase::Polling, Event::StatusRead(Some(status)), busy_bit)
            == (Phase::Polling, Action::WaitThenReadStatus),
        status & (1u8 << busy_bit) == 0 ==> spec_step(Phase::Polling, Event::StatusRead(Some(status)), busy_bit)
            == (Phase::Reading, Action::ReadTemperature),
        (status & (1u8 << busy_bit) == other & (1u8 << busy_bit)) ==> spec_step(
            Phase::Polling,
            Event::StatusRead(Some(status)),
            busy_bit,
        ) == spec_step(Phase::Polling, Event::StatusRead(Some(other)), busy_bit),
{
    assert(((status & (1u8 << busy_bit)) != 0) == ((status >> busy_bit) & 1u8 == 1u8)) by (bit_vector)
        requires
            busy_bit < 8,
    ;
    assert(((other & (1u8 << busy_bit)) != 0) == ((other >> busy_bit) & 1u8 == 1u8)) by (bit_vector)
        requires
            busy_bit < 8,
    ;
}

/// Whether an action hands out a result: a reading or an error.
pub open spec fn is_signal(action: Action) -> bool {
    action is SignalReading || action is SignalError
}

/// Runs the measurement cycle from `phase` through `events`: the phase reached and the actions
/// taken, in order.
pub open spec fn spec_run(phase: Phase, events: Seq<Event>, busy_bit: u8) -> (Phase, Seq<Action>)
    decreases events.len(),
{
    if events.len() == 0 {
        (phase, Seq::empty())
    } else {
        let first = spec_step(phase, events[0], busy_bit);
        let rest = spec_run(first.0, events.drop_first(), busy_bit);
        (rest.0, seq![first.1] + rest.1)
    }
}

/// Each event of `events` can happen in the phase the cycle has reached when it comes.
pub open spec fn events_expected(phase: Phase, events: Seq<Event>, busy_bit: u8) -> bool
    decreases events.len(),
{
    events.len() == 0 || (event_expected(phase, events[0]) && events_expected(
        spec_step(phase, events[0], busy_bit).0,
        events.drop_first(),
        busy_bit,
    ))
}

/// The number of results handed out among `actions`.
pub open spec fn count_signals(actions: Seq<Action>) -> nat
    decreases actions.len(),
{
    if actions.len() == 0 {
        0
    } else {
        (if is_signal(actions[0]) { 1nat } else { 0nat }) + count_signals(actions.drop_first())
    }
}

/// The number of triggers among `events`.
pub open spec fn count_triggers(events: Seq<Event>) -> nat
    decreases events.len(),
{
    if events.len() == 0 {
        0
    } else {
        (if events[0] is Triggered { 1nat } else { 0nat }) + count_triggers(events.drop_first())
    }
}

/// A cycle is under way in every phase but `Idle`.
pub open spec fn pending(phase: Phase) -> nat {
    if phase == Phase::Idle { 0 } else { 1 }
}

/// Exactly one result is handed out for each trigger: over any run of the task, the results
/// handed out and the cycle still under way add up to the triggers received and the cycle
/// under way at the start. A task that starts and ends waiting for a trigger has handed out as
/// many results as it received triggers.
pub proof fn law_one_result_per_trigger(phase: Phase, events: Seq<Event>, busy_bit: u8)
    requires
        busy_bit < 8,
        events_expected(phase, events, busy_bit),
    ensures
        count_signals(spec_run(phase, events, busy_bit).1) + pending(spec_run(phase, events, busy_bit).0)
            == count_triggers(events) + pending(phase),
    decreases events.len(),
{
    if events.len() > 0 {
        let first = spec_step(phase, events[0], busy_bit);
        law_one_result_per_trigger(first.0, events.drop_first(), busy_bit);
        let rest = spec_run(first.0, events.drop_first(), busy_bit);
        let acts = seq![first.1] + rest.1;
        assert(acts[0] == first.1);
        assert(acts.drop_first() =~= rest.1);
    }
}

/// Configuration of the sensor (nothing to configure).
#[derive(Debug)]
pub struct Config {}

impl Default for Config {
    fn default() -> (r: Self) {
        Self {}
    }
}

/// The LSM6DSV16X on I2C: its state and label.
pub struct Lsm6dsv16xI2c {
    state: StateAtomic,
    label: Option<&'static str>,
}

impl Lsm6dsv16xI2c {
    /// Creates an uninitialized driver with the given label.
    pub fn new(label: Option<&'static str>) -> (r: Self)
        ensures
            r.spec_label() == label,
    {
        Self { state: StateAtomic::new(State::Uninitialized), label }
    }

    pub closed spec fn spec_label(&self) -> Option<&'static str> {
        self.label
    }

    /// Whether the driver still has to be initialized: only when it is uninitialized, so
    /// that initializing it again does nothing.
    pub fn needs_initialization(&self) -> bool {
        initialization_due(self.state.get())
    }

    /// Marks the driver initialized and enabled, once its hardware has been set up; does
    /// nothing when it was initialized already.
    pub fn mark_initialized(&self) {
        if initialization_due(self.state.get()) {
            self.state.set(State::Enabled)
        }
    }

    /// Whether a measurement may be triggered now.
    pub fn trigger_measurement(&self) -> (r: Result<(), TriggerMeasurementError>)
        ensures
            r matches Err(e) ==> e == TriggerMeasurementError::NonEnabled,
    {
        trigger_decision(self.state.get())
    }

    /// Whether a reading may be waited for now.
    pub fn wait_for_reading(&self) -> (r: Result<(), ReadingError>)
        ensures
            r matches Err(e) ==> e == ReadingError::NonEnabled,
    {
        wait_decision(self.state.get())
    }

    /// Sets the mode of the driver, unless it is uninitialized, and returns the previous
    /// state.
    pub fn set_mode(&self, mode: Mode) -> (r: Result<State, SetModeError>)
        ensures
            r matches Ok(s) ==> s != State::Uninitialized,
            r matches Err(e) ==> e == SetModeError::Uninitialized,
    {
        set_mode_result(self.state.replace_mode(mode))
    }

    /// Returns the state of the driver.
    pub fn state(&self) -> State {
        self.state.get()
    }

    /// Returns the label of the driver instance.
    pub fn label(&self) -> (r: Option<&'static str>)
        ensures
            r == self.spec_label(),
    {
        self.label
    }

    /// Returns the name of the sensor.
    pub fn display_name(&self) -> (r: Option<&'static str>)
        ensures
            r matches Some(n) && n@ == "6-axis IMU"@,
    {
        Some("6-axis IMU")
    }

    /// Returns the part number of the sensor.
    pub fn part_number(&self) -> (r: Option<&'static str>)
        ensures
            r matches Some(n) && n@ == spec_part_number(),
    {
        Some(part_number_str())
    }

    /// Returns the version of the driver.
    pub fn version(&self) -> (r: u8)
        ensures
            r == 0,
    {
        0
    }
}

} // verus!
