use vstd::prelude::*;

verus! {

/// Failures surfaced by resource deserialization and request construction.
///
/// Every failure is propagated to the caller as a typed result; the library
/// performs no retries, no logging and returns no partial values.
#[derive(Debug, Clone, Copy, PartialEq, Eq, Structural)]
pub enum Error {
    /// The response text is not a well-formed document in the accepted grammar.
    Syntax,
    /// A required field is absent from the document.
    MissingField,
    /// A field is present but its value has the wrong shape.
    UnexpectedType,
    /// A numeric field transmitted as a string is not a base-10 unsigned
    /// 64-bit integer.
    InvalidNumericString,
    /// The host string cannot begin a well-formed absolute URL.
    InvalidHost,
    /// A path or query parameter holds characters that cannot be safely
    /// embedded in a URL.
    InvalidPathParameter,
}

} // verus!
