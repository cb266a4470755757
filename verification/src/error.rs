//! The one place where a native status becomes a `Result`.

use vstd::prelude::*;

verus! {

/// Why an operation on a dataset did not succeed.
#[derive(Debug, PartialEq, Eq)]
pub enum Error {
    /// The native layer did not deliver; `message` is its own last-error text.
    Native { message: String },
    /// A field came back with another element type than its descriptor is bound to.
    TypeMismatch,
    /// A size or count does not fit the native layer's integer width.
    Range,
    /// A text holds a NUL byte at `position` and so has no native form.
    Encoding { position: usize },
}

impl Error {
    /// The text that `message` returns.
    pub open spec fn message_text(&self) -> Seq<char> {
        match self {
            Error::Native { message } => message@,
            Error::TypeMismatch => "element type mismatch"@,
            Error::Range => "out of range integral type conversion attempted"@,
            Error::Encoding { .. } => "nul byte found in provided data"@,
        }
    }

    /// A human-readable account of the failure: the native layer's text for a
    /// native failure, a fixed text for each local check.
    pub fn message(&self) -> (text: String)
        ensures
            text@ == self.message_text(),
    {
        match self {
            Error::Native { message } => message.clone(),
            Error::TypeMismatch => "element type mismatch".to_owned(),
            Error::Range => "out of range integral type conversion attempted".to_owned(),
            Error::Encoding { .. } => "nul byte found in provided data".to_owned(),
        }
    }
}

/// Success is status zero; every other status is a failure.
pub open spec fn succeeded(status: i32) -> bool {
    status == 0
}

/// What `to_result` returns.
pub open spec fn status_result(status: i32, message: String) -> Result<(), Error> {
    if succeeded(status) {
        Ok(())
    } else {
        Err(Error::Native { message })
    }
}

/// Judges the status of a native call. `message` is the native layer's
/// last-error text, read after the call; it is used only when the call failed.
pub fn to_result(status: i32, message: String) -> (outcome: Result<(), Error>)
    ensures
        outcome == status_result(status, message),
{
    if status == 0 {
        Ok(())
    } else {
        Err(Error::Native { message })
    }
}

} // verus!
