//! The errors of the runtime.

use vstd::prelude::*;
use vstd::string::StringExecFns;

verus! {

/// What can go wrong on a deck.
#[derive(Debug)]
pub enum DeckError {
    /// A free-form complaint, such as a flaw found in a configuration.
    Message(String),
    /// An id or a name that resolves to nothing in the arena it was used on.
    InvalidRef,
    /// A physical key that the device does not have.
    InvalidKey(String),
    NoDirectory,
    /// Discovery found no matching hardware.
    NoDevice,
    NoHidApi,
    /// The device went away. This ends a connection; it is no failure.
    Disconnected,
}

impl DeckError {
    /// The text of the error.
    pub open spec fn text(self) -> Seq<char> {
        match self {
            DeckError::Message(m) => "message `"@ + m@ + "`"@,
            DeckError::InvalidRef => "button ref error"@,
            DeckError::InvalidKey(k) => "button key error "@ + k@,
            DeckError::NoDirectory => "no directory"@,
            DeckError::NoDevice => "no device"@,
            DeckError::NoHidApi => "no hid api"@,
            DeckError::Disconnected => "disconnected"@,
        }
    }

    /// Renders the error as text.
    pub fn message(&self) -> (s: String)
        ensures
            s@ == self.text(),
    {
        match self {
            DeckError::Message(m) => {
                let mut s = String::from_str("message `");
                s.append(m.as_str());
                s.append("`");
                s
            },
            DeckError::InvalidRef => String::from_str("button ref error"),
            DeckError::InvalidKey(k) => {
                let mut s = String::from_str("button key error ");
                s.append(k.as_str());
                s
            },
            DeckError::NoDirectory => String::from_str("no directory"),
            DeckError::NoDevice => String::from_str("no device"),
            DeckError::NoHidApi => String::from_str("no hid api"),
            DeckError::Disconnected => String::from_str("disconnected"),
        }
    }

    /// Whether the error is the signal that the device went away.
    pub fn is_disconnected(&self) -> (b: bool)
        ensures
            b == (*self is Disconnected),
    {
        match self {
            DeckError::Disconnected => true,
            _ => false,
        }
    }
}

} // verus!
