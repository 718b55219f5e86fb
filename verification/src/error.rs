//! What can go wrong between the key press and the open connection.

use vstd::prelude::*;

verus! {

/// The failures that the program reports on its console.
///
/// Each variant names the service that failed. The value that the service
/// handed out with the failure stays with the caller: nothing here reads it,
/// and the console line does not show it.
#[derive(Clone, Copy, Debug, PartialEq, Eq, Structural)]
pub enum AppError {
    /// A failure of no known origin.
    Unknown,
    /// A call into the system library failed.
    Ctru,
    /// The software keyboard failed to hand back a text.
    Swkbd,
    /// The network stack refused an operation.
    Io,
}

impl AppError {
    /// The console line of this failure, as a sequence of characters.
    pub open spec fn text(self) -> Seq<char> {
        match self {
            AppError::Unknown => "Unknown error"@,
            AppError::Ctru => "libctru error"@,
            AppError::Swkbd => "Software keyboard error"@,
            AppError::Io => "I/O error"@,
        }
    }

    /// The line that the console shows for this failure.
    pub fn message(&self) -> (line: &'static str)
        ensures
            line@ == self.text(),
    {
        match self {
            AppError::Unknown => "Unknown error",
            AppError::Ctru => "libctru error",
            AppError::Swkbd => "Software keyboard error",
            AppError::Io => "I/O error",
        }
    }
}

} // verus!
