//! Errors of the core library.
use vstd::prelude::*;

verus! {

/// Errors reported by the core library.
#[derive(Debug, Clone)]
pub enum DomainError {
    /// Reading or writing stored data failed.
    Repository(String),
    /// A value did not pass validation.
    Validation(String),
    /// The configuration is missing something or is inconsistent.
    Configuration(String),
    /// A call to an outside service failed.
    ExternalService(String),
}

} // verus!
