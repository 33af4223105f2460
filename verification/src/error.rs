use vstd::prelude::*;
use vstd::string::*;

verus! {

/// The unified error type of the library: every failing operation
/// surfaces exactly one of these kinds to its caller.
#[derive(Debug)]
pub enum Error {
    /// A filesystem failure other than "file absent", with a diagnostic
    /// message.
    Io(String),
    /// Malformed user input, e.g. a bad command-line value.
    Input(String),
    /// File content present but not interpretable as a valid secret key
    /// in either supported encoding.
    Decode(String),
}

impl Error {
    /// A human-readable rendering of the error, naming its kind and cause.
    pub fn message(&self) -> (r: String)
        ensures
            match self {
                Error::Io(m) => r@ == "I/O error: "@ + m@,
                Error::Input(m) => r@ == "Invalid input: "@ + m@,
                Error::Decode(m) => r@ == "Decode error: "@ + m@,
            },
    {
        match self {
            Error::Io(m) => String::from_str("I/O error: ").concat(m.as_str()),
            Error::Input(m) => String::from_str("Invalid input: ").concat(m.as_str()),
            Error::Decode(m) => String::from_str("Decode error: ").concat(m.as_str()),
        }
    }
}

} // verus!
