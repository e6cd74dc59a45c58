use vstd::prelude::*;

verus! {

/// The one error type of the boundary layer.
#[derive(Debug, PartialEq, Eq)]
pub enum Error {
    /// The engine raised an exception. Its text is kept where the thrown
    /// value could be rendered as UTF-8 text, and is `None` otherwise.
    Exception { message: Option<std::string::String> },
    /// Bytes handed over by the engine were not valid UTF-8. The bytes
    /// before `valid_up_to` form the longest valid prefix.
    Utf8 { valid_up_to: usize },
    /// The engine failed without giving any detail.
    Unknown,
}

} // verus!
