//! The typed failures of the host.

use vstd::prelude::*;

verus! {

/// Why the runtime artifact, or one of its entry points, could not be had.
#[derive(Clone, Copy, Debug, PartialEq, Eq, Structural)]
pub enum LoadError {
    /// The location does not resolve to a loadable artifact.
    LibraryNotFound,
    /// The artifact loads, but it does not have the runtime's ABI.
    LoadIncompatible,
    /// The artifact has no entry point of the requested name.
    SymbolNotFound,
}

/// A failure of a host operation. Native status codes are carried as they
/// came: the host gives them no meaning beyond "not zero".
#[derive(Clone, Copy, Debug, PartialEq, Eq, Structural)]
pub enum HostError {
    LibraryNotFound,
    SymbolNotFound,
    InterfaceUnavailable,
    InitializationFailed(i32),
    ExecutionFailed(i32),
    DelegateCreationFailed(i32),
    ShutdownFailed(i32),
    AlreadyInitialized,
    InvalidStringEncoding,
}

impl HostError {
    /// The host error that stands for a loader error. An artifact of the
    /// wrong ABI does not offer the interface the host needs.
    pub open spec fn of_load_error(error: LoadError) -> HostError {
        match error {
            LoadError::LibraryNotFound => HostError::LibraryNotFound,
            LoadError::LoadIncompatible => HostError::InterfaceUnavailable,
            LoadError::SymbolNotFound => HostError::SymbolNotFound,
        }
    }

    /// The native status code that the error carries, if it carries one.
    pub open spec fn spec_status_code(self) -> Option<i32> {
        match self {
            HostError::InitializationFailed(code) => Some(code),
            HostError::ExecutionFailed(code) => Some(code),
            HostError::DelegateCreationFailed(code) => Some(code),
            HostError::ShutdownFailed(code) => Some(code),
            _ => None,
        }
    }

    pub fn from_load_error(error: LoadError) -> (r: HostError)
        ensures
            r == Self::of_load_error(error),
    {
        match error {
            LoadError::LibraryNotFound => HostError::LibraryNotFound,
            LoadError::LoadIncompatible => HostError::InterfaceUnavailable,
            LoadError::SymbolNotFound => HostError::SymbolNotFound,
        }
    }

    #[verifier::when_used_as_spec(spec_status_code)]
    pub fn status_code(self) -> (r: Option<i32>)
        ensures
            r == self.spec_status_code(),
    {
        match self {
            HostError::InitializationFailed(code) => Some(code),
            HostError::ExecutionFailed(code) => Some(code),
            HostError::DelegateCreationFailed(code) => Some(code),
            HostError::ShutdownFailed(code) => Some(code),
            _ => None,
        }
    }
}

} // verus!
