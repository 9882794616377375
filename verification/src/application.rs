//! Errors of application initialization.
use vstd::prelude::*;
use vstd::std_specs::convert::FromSpecImpl;

verus! {

/// Error of the extraction of peripherals for an application.
#[derive(Debug, Copy, Clone, PartialEq, Eq, Structural)]
pub enum DefinePeripheralsError {
    /// A peripheral could not be taken.
    TakingPeripheral,
}

/// Represents errors that can happen during application initialization.
#[derive(Debug, Copy, Clone, PartialEq, Eq, Structural)]
pub enum ApplicationError {
    /// The application could not obtain a peripheral, most likely because it was already used by
    /// another application or by the system itself.
    CannotTakePeripheral,
}

impl From<DefinePeripheralsError> for ApplicationError {
    fn from(err: DefinePeripheralsError) -> (r: Self) {
        match err {
            DefinePeripheralsError::TakingPeripheral => Self::CannotTakePeripheral,
        }
    }
}

impl FromSpecImpl<DefinePeripheralsError> for ApplicationError {
    open spec fn obeys_from_spec() -> bool {
        true
    }

    /// A peripheral that cannot be taken makes the application unable to take it.
    open spec fn from_spec(v: DefinePeripheralsError) -> ApplicationError {
        match v {
            DefinePeripheralsError::TakingPeripheral => ApplicationError::CannotTakePeripheral,
        }
    }
}

} // verus!
