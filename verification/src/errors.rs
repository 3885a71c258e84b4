//! What goes wrong: errors of this library, and the one that is reported to the application.
use vstd::prelude::*;

verus! {

/// An error that ends the interpretation of a message.
#[derive(Debug)]
pub enum IBKRApiLibError {
    /// The field, which is carried along, had to be an integer and is none.
    ParseInt(String),
}

/// An error that is reported to the application by number and text.
#[derive(Clone, Copy, Debug, PartialEq, Eq, Structural)]
pub enum TwsError {
    NotConnected,
}

impl TwsError {
    /// The number of the error.
    pub open spec fn spec_code(self) -> i32 {
        504
    }

    /// The text of the error.
    pub open spec fn spec_message(self) -> Seq<char> {
        "Not connected"@
    }

    /// The number of the error.
    pub fn code(&self) -> (r: i32)
        ensures
            r == self.spec_code(),
    {
        504
    }

    /// The text of the error.
    pub fn message(&self) -> (r: &'static str)
        ensures
            r@ == self.spec_message(),
    {
        "Not connected"
    }
}

} // verus!
