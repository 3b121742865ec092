//! Errors for the humanity tokens library.

use vstd::prelude::*;

verus! {

/// Wrapper for humanity tokens protocol errors, carrying a human-readable
/// message that names the condition that failed.
#[derive(Debug)]
pub struct ProtocolError {
    details: String,
}

impl View for ProtocolError {
    type V = Seq<char>;

    closed spec fn view(&self) -> Seq<char> {
        self.details@
    }
}

impl ProtocolError {
    /// Builds an error that carries exactly the given message.
    pub fn new(msg: &str) -> (r: Self)
        ensures
            r@ == msg@,
    {
        ProtocolError { details: msg.to_owned() }
    }

    /// The message this error was created with.
    pub fn message(&self) -> (r: &String)
        ensures
            r@ == self@,
    {
        &self.details
    }
}

} // verus!
