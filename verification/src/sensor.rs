//! Sensor driver modes and states, reading errors, and the readings of sensor categories.
use vstd::prelude::*;
use portable_atomic::AtomicU8;
use crate::atomics::{atomic_u8_load, atomic_u8_new, atomic_u8_store, atomic_u8_update_state};
use crate::physical::PhysicalValue;
use vstd::std_specs::convert::{FromSpecImpl, TryFromSpecImpl};

verus! {

/// Mode of a sensor driver, as requested.
#[derive(Debug, Copy, Clone, PartialEq, Eq, Structural)]
pub enum Mode {
    /// The sensor driver is disabled.
    Disabled,
    /// The sensor driver is enabled.
    Enabled,
    /// The sensor driver is sleeping; the sensor device may be in a low-power mode.
    Sleeping,
}

/// Error when setting the mode of a sensor driver.
#[derive(Debug, Copy, Clone, PartialEq, Eq, Structural)]
pub enum ModeSettingError {
    /// The sensor driver is not initialized.
    Uninitialized,
}

/// State of a sensor driver.
#[derive(Debug, Copy, Clone, PartialEq, Eq, Structural)]
pub enum State {
    /// Not initialized yet, or initialization could not succeed.
    Uninitialized,
    /// Disabled.
    Disabled,
    /// Enabled.
    Enabled,
    /// Sleeping.
    Sleeping,
}

impl State {
    /// The byte that encodes the state.
    pub open spec fn spec_to_u8(self) -> u8 {
        match self {
            State::Uninitialized => 0,
            State::Disabled => 1,
            State::Enabled => 2,
            State::Sleeping => 3,
        }
    }

    /// The state a byte encodes, if any.
    pub open spec fn spec_from_u8(byte: u8) -> Option<State> {
        if byte == 0 {
            Some(State::Uninitialized)
        } else if byte == 1 {
            Some(State::Disabled)
        } else if byte == 2 {
            Some(State::Enabled)
        } else if byte == 3 {
            Some(State::Sleeping)
        } else {
            None
        }
    }

    /// The state a byte read back from storage holds: a byte that encodes no state reads as
    /// uninitialized.
    pub open spec fn spec_from_stored(byte: u8) -> State {
        match State::spec_from_u8(byte) {
            Some(s) => s,
            None => State::Uninitialized,
        }
    }

    /// The state that a mode puts the driver in.
    pub open spec fn spec_from_mode(mode: Mode) -> State {
        match mode {
            Mode::Disabled => State::Disabled,
            Mode::Enabled => State::Enabled,
            Mode::Sleeping => State::Sleeping,
        }
    }

    /// Returns the byte that encodes the state.
    pub fn to_u8(self) -> (r: u8)
        ensures
            r == self.spec_to_u8(),
    {
        match self {
            Self::Uninitialized => 0,
            Self::Disabled => 1,
            Self::Enabled => 2,
            Self::Sleeping => 3,
        }
    }

    /// Returns the state a byte read back from storage holds; a byte that encodes no state
    /// reads as uninitialized.
    pub fn from_stored(byte: u8) -> (r: State)
        ensures
            r == State::spec_from_stored(byte),
    {
        match State::try_from(byte) {
            Ok(s) => s,
            Err(_) => State::Uninitialized,
        }
    }
}

impl Default for State {
    /// Uninitialized.
    fn default() -> (r: Self)
        ensures
            r == State::Uninitialized,
    {
        State::Uninitialized
    }
}

impl From<Mode> for State {
    fn from(mode: Mode) -> (r: Self) {
        match mode {
            Mode::Disabled => Self::Disabled,
            Mode::Enabled => Self::Enabled,
            Mode::Sleeping => Self::Sleeping,
        }
    }
}

impl FromSpecImpl<Mode> for State {
    open spec fn obeys_from_spec() -> bool {
        true
    }

    open spec fn from_spec(v: Mode) -> State {
        State::spec_from_mode(v)
    }
}

/// Error of a conversion from an integer that encodes no state.
#[derive(Debug, Copy, Clone, PartialEq, Eq, Structural)]
pub struct TryFromIntError;

impl TryFrom<u8> for State {
    type Error = TryFromIntError;

    fn try_from(byte: u8) -> (r: Result<Self, Self::Error>) {
        if byte == 0 {
            Ok(State::Uninitialized)
        } else if byte == 1 {
            Ok(State::Disabled)
        } else if byte == 2 {
            Ok(State::Enabled)
        } else if byte == 3 {
            Ok(State::Sleeping)
        } else {
            Err(TryFromIntError)
        }
    }
}

impl TryFromSpecImpl<u8> for State {
    open spec fn obeys_try_from_spec() -> bool {
        true
    }

    open spec fn try_from_spec(v: u8) -> Result<State, TryFromIntError> {
        match State::spec_from_u8(v) {
            Some(s) => Ok(s),
            None => Err(TryFromIntError),
        }
    }
}

/// Reading a state back from its byte gives the state.
pub proof fn law_state_byte_round_trip(s: State)
    ensures
        State::spec_from_u8(s.spec_to_u8()) == Some(s),
{
}

/// Exactly the bytes below four encode a state, and each encodes the state whose byte it is.
pub proof fn law_state_bytes(byte: u8)
    ensures
        State::spec_from_u8(byte) is Some <==> byte < 4,
        State::spec_from_u8(byte) matches Some(s) ==> s.spec_to_u8() == byte,
{
}

/// No mode puts a driver back into the uninitialized state.
pub proof fn law_mode_never_uninitialized(mode: Mode)
    ensures
        State::spec_from_mode(mode) != State::Uninitialized,
{
}

/// What a mode change does to the stored byte: a driver whose byte reads as uninitialized
/// (see `spec_from_stored`) stays so, any other state is replaced by the new one.
pub open spec fn spec_state_update(current: u8, new_state: u8) -> Option<u8> {
    if State::spec_from_stored(current) == State::Uninitialized {
        None
    } else {
        Some(new_state)
    }
}

/// A mode change is refused only while the driver is uninitialized: from a driver that is
/// disabled, enabled or sleeping, the new state is stored, whatever it is.
pub proof fn law_mode_change_refused_only_when_uninitialized(current: State, new_state: u8)
    ensures
        current == State::Uninitialized ==> spec_state_update(current.spec_to_u8(), new_state) is None,
        current != State::Uninitialized ==> spec_state_update(current.spec_to_u8(), new_state) == Some(
            new_state,
        ),
        spec_state_update(State::Disabled.spec_to_u8(), new_state) == Some(new_state),
        spec_state_update(State::Enabled.spec_to_u8(), new_state) == Some(new_state),
        spec_state_update(State::Sleeping.spec_to_u8(), new_state) == Some(new_state),
{
}

/// Returns the byte a mode change stores, or `None` when the driver is uninitialized.
pub fn state_update(current: u8, new_state: u8) -> (r: Option<u8>)
    ensures
        r == spec_state_update(current, new_state),
        (State::spec_from_u8(current) matches Some(s) && s != State::Uninitialized) ==> r == Some(
            new_state,
        ),
        current == 0 ==> r is None,
{
    if State::from_stored(current) == State::Uninitialized {
        None
    } else {
        Some(new_state)
    }
}

/// Returns the state after a mode change, from the outcome of the update of the stored byte:
/// uninitialized when the update was refused, the state of the mode otherwise.
pub fn set_mode_outcome(update: Result<u8, u8>, mode: Mode) -> (r: State)
    ensures
        r == if update is Err {
            State::Uninitialized
        } else {
            State::spec_from_mode(mode)
        },
{
    if update.is_err() {
        State::Uninitialized
    } else {
        State::from(mode)
    }
}

/// Whether a driver in `current` still has to be initialized: only an uninitialized one does;
/// initializing an initialized driver does nothing.
pub fn initialization_due(current: State) -> (r: bool)
    ensures
        r == (current == State::Uninitialized),
{
    current == State::Uninitialized
}

/// Returns the state before a mode change, from the outcome of the update of the stored byte:
/// `None` when the update was refused, the state the byte held otherwise.
pub fn previous_state(update: Result<u8, u8>) -> (r: Option<State>)
    ensures
        r == match update {
            Ok(prev) => Some(State::spec_from_stored(prev)),
            Err(_) => None::<State>,
        },
{
    match update {
        Ok(prev) => Some(State::from_stored(prev)),
        Err(_) => None,
    }
}

/// The state of a sensor driver, stored as an atomic byte so that tasks can share it.
pub struct StateAtomic {
    state: AtomicU8,
}

impl StateAtomic {
    /// Creates a new atomic state holding `state`.
    pub fn new(state: State) -> (r: Self) {
        Self { state: atomic_u8_new(state.to_u8()) }
    }

    /// Returns the current state. The stored byte always comes from a state; were it ever not
    /// to, it would read as uninitialized.
    pub fn get(&self) -> (r: State) {
        State::from_stored(atomic_u8_load(&self.state))
    }

    /// Sets the current state.
    pub fn set(&self, state: State) {
        atomic_u8_store(&self.state, state.to_u8())
    }

    /// Sets the current mode, unless the driver is uninitialized, and returns the resulting
    /// state: the state of the mode, or uninitialized when the driver was.
    pub fn set_mode(&self, mode: Mode) -> (r: State)
        ensures
            r == State::Uninitialized || r == State::spec_from_mode(mode),
    {
        let new_state = State::from(mode);
        let res = atomic_u8_update_state(&self.state, new_state.to_u8());
        set_mode_outcome(res, mode)
    }

    /// Sets the current mode, unless the driver is uninitialized, and returns the state it
    /// replaced (`None` when the driver was uninitialized and nothing changed).
    pub fn replace_mode(&self, mode: Mode) -> (r: Option<State>)
        ensures
            r matches Some(s) ==> s != State::Uninitialized,
    {
        let new_state = State::from(mode);
        let res = atomic_u8_update_state(&self.state, new_state.to_u8());
        previous_state(res)
    }
}

/// Errors when accessing a sensor reading.
#[derive(Debug, Copy, Clone, PartialEq, Eq, Structural)]
pub enum ReadingError {
    /// The sensor driver is not enabled (e.g., it may be disabled or sleeping).
    NonEnabled,
    /// Cannot access the sensor device (e.g., because of a bus error).
    SensorAccess,
}

impl ReadingError {
    /// The description of the error.
    pub open spec fn spec_message(self) -> Seq<char> {
        match self {
            ReadingError::NonEnabled => "sensor driver is not enabled"@,
            ReadingError::SensorAccess => "sensor device could not be accessed"@,
        }
    }

    /// Returns the description of the error.
    pub fn message(&self) -> (r: &'static str)
        ensures
            r@ == self.spec_message(),
    {
        match self {
            Self::NonEnabled => "sensor driver is not enabled",
            Self::SensorAccess => "sensor device could not be accessed",
        }
    }
}

/// Reading of a push button: pressed when its value is non-zero.
#[derive(Debug, Copy, Clone, PartialEq, Eq, Structural)]
pub struct PushButtonReading {
    pub value: PhysicalValue,
}

impl PushButtonReading {
    /// Creates a reading from the value of the button.
    pub fn new(value: PhysicalValue) -> (r: Self)
        ensures
            r.value == value,
    {
        Self { value }
    }

    /// Returns whether the button is pressed.
    pub fn is_pressed(&self) -> (r: bool)
        ensures
            r == (self.value.value != 0),
    {
        self.value.value() != 0
    }
}

/// Reading of a temperature sensor.
#[derive(Debug, Copy, Clone, PartialEq, Eq, Structural)]
pub struct TemperatureReading {
    pub value: PhysicalValue,
}

impl TemperatureReading {
    /// Creates a reading from the measured temperature.
    pub fn new(value: PhysicalValue) -> (r: Self)
        ensures
            r.value == value,
    {
        Self { value }
    }

    /// Returns the temperature.
    pub fn temperature(&self) -> (r: PhysicalValue)
        ensures
            r == self.value,
    {
        self.value
    }
}

/// A notification provided by a sensor driver.
#[derive(Debug, Copy, Clone, PartialEq, Eq, Structural)]
pub enum Notification {
    ReadingAvailable,
    Threshold(ThresholdKind),
}

/// Kind of threshold a value is watched against.
#[derive(Debug, Copy, Clone, PartialEq, Eq, Structural)]
pub enum ThresholdKind {
    Lower,
    Higher,
}

/// The registry of sensor driver instances.
pub struct Registry {}

impl Registry {
    /// Creates the registry.
    pub fn new() -> (r: Self) {
        Self {}
    }
}

} // verus!
