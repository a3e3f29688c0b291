use vstd::prelude::*;

verus! {

/// Failures of the read paths: decoding a record and recovering a program binary.
#[derive(Clone, Copy, Debug, PartialEq, Eq, Structural)]
pub enum ReadError {
    /// A program-data account too short to hold its header and any binary.
    TruncatedAccount,
    /// Record bytes whose length is not the record's encoded length.
    MalformedRecord,
}

} // verus!
