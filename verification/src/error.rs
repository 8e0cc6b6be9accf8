//! The failures a keypad operation can end in.
use vstd::prelude::*;

verus! {

/// Why a keypad operation failed. Every failure ends the call that met it;
/// nothing is retried on the caller's behalf.
#[derive(Clone, Copy, Debug, PartialEq, Eq, Structural)]
pub enum KeypadError {
    /// The serial port could not be opened or listed.
    SerialError,
    /// Bytes could not be written to or read from an open port; a reply that
    /// did not arrive in time counts as such.
    SerialCommunicationError,
    /// A code on the wire matched no key of the vocabulary.
    InvalidDataError,
    /// The device answered with something other than the acknowledge byte.
    NoAcknowledge,
    /// No port answered the handshake.
    NoDeviceFound,
    /// The device reported a number of combos other than six.
    WrongKeyCountFromDevice,
}

impl KeypadError {
    /// A one-line description of the failure.
    pub fn message(&self) -> (text: &'static str)
        ensures
            text@ == self.spec_message(),
    {
        match self {
            KeypadError::SerialError => "Serial opening error",
            KeypadError::SerialCommunicationError => "Serial communication error",
            KeypadError::InvalidDataError => "Invalid data error",
            KeypadError::NoAcknowledge => "No ACK was recieved",
            KeypadError::NoDeviceFound => "No device found",
            KeypadError::WrongKeyCountFromDevice => "Device returned unexpected key count",
        }
    }

    /// The text that describes each failure.
    pub open spec fn spec_message(&self) -> Seq<char> {
        match self {
            KeypadError::SerialError => "Serial opening error"@,
            KeypadError::SerialCommunicationError => "Serial communication error"@,
            KeypadError::InvalidDataError => "Invalid data error"@,
            KeypadError::NoAcknowledge => "No ACK was recieved"@,
            KeypadError::NoDeviceFound => "No device found"@,
            KeypadError::WrongKeyCountFromDevice => "Device returned unexpected key count"@,
        }
    }
}

} // verus!
