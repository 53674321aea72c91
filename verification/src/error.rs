//! The errors that the library reports.

use vstd::prelude::*;

verus! {

/// The error that the sample request handler reports.
#[derive(Debug)]
pub struct SomeError;

impl SomeError {
    /// The text that describes the error.
    pub open spec fn message_spec() -> Seq<char> {
        "oh no! An error"@
    }

    pub fn message(&self) -> (r: String)
        ensures
            r@ == Self::message_spec(),
    {
        String::from_str("oh no! An error")
    }
}

/// Why a configuration was turned down. The pipeline never becomes active
/// on any of these.
#[derive(Clone, Copy, Debug, PartialEq, Eq, Structural)]
pub enum ConfigError {
    /// The collector's address is not a well-formed address.
    MalformedEndpoint,
    /// The severity filter names no threshold.
    InvalidSeverityFilter,
    /// A batch must be allowed to hold at least one span.
    InvalidBatchSize,
    /// The buffer must be allowed to hold at least one batch.
    InvalidCapacity,
}

/// Why the pipeline could not be initialized.
#[derive(Clone, Copy, Debug, PartialEq, Eq, Structural)]
pub enum InitError {
    /// `init` had been called before.
    AlreadyInitialized,
    /// The configuration was turned down.
    Config(ConfigError),
}

} // verus!
