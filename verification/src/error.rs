//! What a sequence can fail with.
use vstd::prelude::*;
use vstd::string::*;

use crate::text::append_hex_word;

verus! {

/// A failure that the device itself reported.
#[derive(Debug, Clone, Copy)]
pub enum ArmDebugSequenceError {
    /// The boot ROM did not answer a mailbox command in time.
    NoAnswer { what: &'static str },
    /// The boot ROM answered a mailbox command with something other than success.
    Rejected { what: &'static str, response: u32, echoed: u32 },
}

impl ArmDebugSequenceError {
    /// The text of the error.
    pub open spec fn text(self) -> Seq<char> {
        match self {
            ArmDebugSequenceError::NoAnswer { what } => "MSPM0: the boot ROM did not answer the "@
                + what@ + " command"@,
            ArmDebugSequenceError::Rejected { what, response, echoed } => "MSPM0: "@ + what@
                + " rejected, RXDATA "@ + crate::text::hex_word(response) + " RXCTL "@
                + crate::text::hex_word(echoed),
        }
    }

    /// The error as a message for the user.
    pub fn message(&self) -> (message: String)
        ensures
            message@ == self.text(),
    {
        match self {
            ArmDebugSequenceError::NoAnswer { what } => {
                let mut message = String::from_str("MSPM0: the boot ROM did not answer the ");
                message.append(what);
                message.append(" command");
                message
            },
            ArmDebugSequenceError::Rejected { what, response, echoed } => {
                let mut message = String::from_str("MSPM0: ");
                message.append(what);
                message.append(" rejected, RXDATA ");
                append_hex_word(&mut message, *response);
                message.append(" RXCTL ");
                append_hex_word(&mut message, *echoed);
                message
            },
        }
    }
}

/// Why a sequence did not succeed. `E` is the error of the probe.
#[derive(Debug)]
pub enum ArmError<E> {
    /// An operation on the probe failed.
    Interface(E),
    /// The device did not do what the sequence asked of it.
    DebugSequence(ArmDebugSequenceError),
    /// The sequence would have needed this permission.
    MissingPermissions(String),
    /// The sequence did its work, and the device has to be attached to anew.
    ReAttachRequired,
}

} // verus!
