//! The address prompt: what the software keyboard is asked for, and what its
//! reply means for the connection attempt.

use vstd::prelude::*;
use crate::error::AppError;
use crate::menu::ConnectOutcome;

verus! {

/// The example address that the empty keyboard shows.
pub const ADDRESS_HINT: &'static str = "192.168.1.1:5000";

/// The longest address that the keyboard accepts, which is also the size of
/// the buffer that its text is read into.
pub const ADDRESS_MAX_LEN: u16 = 64;

/// The button that closed the software keyboard.
#[derive(Clone, Copy, Debug, PartialEq, Eq, Structural)]
pub enum Button {
    /// The cancelling button.
    Left,
    /// The button in the middle, which the address prompt does not show.
    Middle,
    /// The confirming button.
    Right,
}

/// What came back from the software keyboard.
#[derive(Debug, PartialEq, Eq)]
pub enum KeyboardReply {
    /// The user closed the keyboard with `button`; `text` is what stood in
    /// its input field.
    Closed { text: String, button: Button },
    /// The keyboard could not run or could not hand its text back.
    Failed,
}

/// The next step of a connection attempt once the address prompt is over.
#[derive(Debug, PartialEq, Eq)]
pub enum Dial {
    /// Announce the address and open a connection to it.
    Connect(String),
    /// There is nothing to connect to: the attempt is over with this outcome.
    Finished(ConnectOutcome),
}

/// The address that a reply of the keyboard stands for.
pub open spec fn entered(reply: KeyboardReply) -> Result<Option<String>, AppError> {
    match reply {
        KeyboardReply::Closed { text, button: Button::Right } => Ok(Some(text)),
        KeyboardReply::Closed { .. } => Ok(None),
        KeyboardReply::Failed => Err(AppError::Swkbd),
    }
}

/// What follows from the address prompt's result.
pub open spec fn planned(entry: Result<Option<String>, AppError>) -> Dial {
    match entry {
        Ok(Some(text)) => Dial::Connect(text),
        Ok(None) => Dial::Finished(ConnectOutcome::Cancelled),
        Err(e) => Dial::Finished(ConnectOutcome::Failed(e)),
    }
}

/// Reads the keyboard's reply: the text counts only when the confirming
/// button closed the keyboard; any other button means that the user gave up;
/// a keyboard that failed is a keyboard error.
pub fn keyboard_text(reply: KeyboardReply) -> (entry: Result<Option<String>, AppError>)
    ensures
        entry == entered(reply),
{
    match reply {
        KeyboardReply::Closed { text, button } => match button {
            Button::Right => Ok(Some(text)),
            Button::Left => Ok(None),
            Button::Middle => Ok(None),
        },
        KeyboardReply::Failed => Err(AppError::Swkbd),
    }
}

/// Decides how a connection attempt goes on after the address prompt: with
/// an address it connects, without one it ends as cancelled, and a failure
/// of the prompt ends it as failed, with that failure.
pub fn plan_connect(entry: Result<Option<String>, AppError>) -> (dial: Dial)
    ensures
        dial == planned(entry),
{
    match entry {
        Ok(Some(text)) => Dial::Connect(text),
        Ok(None) => Dial::Finished(ConnectOutcome::Cancelled),
        Err(e) => Dial::Finished(ConnectOutcome::Failed(e)),
    }
}

} // verus!
