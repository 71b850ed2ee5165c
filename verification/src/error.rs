use vstd::prelude::*;

verus! {

/// A failure reported by the storage engine.
///
/// The engine signals failure through an error message; an `Error` carries
/// that message verbatim. No further structure is imposed, because the
/// engine's protocol exposes no error codes.
#[derive(Debug)]
pub struct Error {
    message: String,
}

impl View for Error {
    type V = Seq<char>;

    closed spec fn view(&self) -> Seq<char> {
        self.message@
    }
}

impl Error {
    /// Wraps a message reported through the engine's error protocol.
    pub fn engine_failure(message: String) -> (r: Error)
        ensures
            r@ == message@,
    {
        Error { message }
    }

    /// The engine's message, unchanged.
    pub fn message(&self) -> (r: &String)
        ensures
            r@ == self@,
    {
        &self.message
    }
}

} // verus!
