//! The library's one general-purpose error.
use vstd::prelude::*;

verus! {

/// A very generic error that carries only a message.
#[derive(Debug, Clone)]
pub struct SimpleError {
    pub message: String,
}

impl SimpleError {
    /// Builds the error from its message.
    pub fn from_str(message: &str) -> (r: Self)
        ensures
            r.message@ == message@,
    {
        SimpleError { message: String::from_str(message) }
    }

    /// The message as shown to a user: `SimpleError: <message>`.
    pub fn to_string(&self) -> (r: String)
        ensures
            r@ == "SimpleError: "@ + self.message@,
    {
        let mut r = String::from_str("SimpleError: ");
        r.append(self.message.as_str());
        r
    }
}

} // verus!
