use vstd::prelude::*;

verus! {

/// The error every fallible operation of this library reports: a message
/// meant for a human reader.
#[derive(Debug)]
pub struct BcosError {
    pub message: String,
}

impl BcosError {
    /// Builds an error that carries `message`.
    pub fn error(message: String) -> (e: BcosError)
        ensures
            e.message@ == message@,
    {
        BcosError { message }
    }

    /// Builds an error from a message given as a string slice.
    pub fn from_text(message: &str) -> (e: BcosError)
        ensures
            e.message@ == message@,
    {
        BcosError { message: message.to_owned() }
    }
}

} // verus!
