//! The one error kind of the library: a message for a human reader.
use vstd::prelude::*;
use vstd::string::*;

verus! {

/// Why a call on the portal did not give a result.
#[derive(Debug)]
pub struct Error {
    pub message: String,
}

impl View for Error {
    type V = Seq<char>;

    open spec fn view(&self) -> Seq<char> {
        self.message@
    }
}

impl Error {
    pub fn new(message: String) -> (r: Error)
        ensures
            r@ == message@,
    {
        Error { message }
    }

    /// The message, as a caller would print it.
    pub fn to_text(&self) -> (r: String)
        ensures
            r@ == self@,
    {
        self.message.clone()
    }
}

/// Whether a result is the expected one: the same value, or an error with
/// the expected message.
pub open spec fn agrees<T>(r: Result<T, Error>, expected: Result<T, Seq<char>>) -> bool {
    match r {
        Ok(value) => expected == Ok::<T, Seq<char>>(value),
        Err(e) => expected == Err::<T, Seq<char>>(e@),
    }
}

} // verus!
