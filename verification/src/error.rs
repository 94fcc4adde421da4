//! The failure taxonomy of the tool.

use vstd::prelude::*;

verus! {

/// Every way an invocation can fail. The first three variants are produced
/// by the library itself; the last two are produced by the surrounding
/// binary when the file open or the OS timestamp call fails.
#[derive(Debug)]
pub enum Error {
    /// The input string does not match the expected format or names a
    /// calendar date or time that does not exist. Carries the offending
    /// input and a short human-readable cause.
    ParseError { input: String, cause: String },
    /// The numeric epoch value lies outside the range representable as a
    /// native timestamp.
    InvalidTimestamp,
    /// Neither an epoch integer nor a datetime string was supplied.
    MissingArgument,
    /// The target file could not be opened; carries the OS error text.
    FileAccessError { cause: String },
    /// The native timestamp-setting call failed; carries the OS error text.
    OsPrimitiveError { cause: String },
}

} // verus!
