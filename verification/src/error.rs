//! Error taxonomy of the engine: file I/O failures and watch-setup failures.

use vstd::prelude::*;

verus! {

/// The two failure categories the engine distinguishes. Each wraps the
/// description of the underlying operating-system error.
pub enum EngineError {
    IoError(String),
    WatchInitError(String),
}

impl EngineError {
    /// The description carried by the error, as a sequence of characters.
    pub open spec fn spec_message(self) -> Seq<char> {
        match self {
            EngineError::IoError(m) => m@,
            EngineError::WatchInitError(m) => m@,
        }
    }

    /// Hands the wrapped description out for display by the caller.
    pub fn message(self) -> (m: String)
        ensures
            m@ == self.spec_message(),
    {
        match self {
            EngineError::IoError(m) => m,
            EngineError::WatchInitError(m) => m,
        }
    }
}

} // verus!
