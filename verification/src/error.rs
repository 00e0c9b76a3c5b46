//! Errors raised while decoding an interface file or walking its contents.
//!
//! Structural errors (bad signature, a range outside the file, a row index
//! out of range) are fatal to a run; the caller decides how far to unwind.

use vstd::prelude::*;

verus! {

/// Error type shared by the container decoder and the closure engine.
#[derive(Debug)]
pub enum Error {
    /// A structural problem, described by a message.
    Bad(String),
    /// A structural problem with no further description.
    BadString,
    /// A partition or entry that must be present was not found.
    MissingExpected,
    /// A recursive walk went deeper than the configured bound.
    MaxDepthExceeded,
}

impl Error {
    /// A structural error with a fixed description.
    pub fn bad(s: &str) -> (r: Self)
        ensures
            r matches Error::Bad(m) && m@ == s@,
    {
        Error::Bad(s.to_owned())
    }

    /// A structural error with a computed description.
    pub fn bad_string(s: String) -> (r: Self)
        ensures
            r == Error::Bad(s),
    {
        Error::Bad(s)
    }
}

} // verus!
