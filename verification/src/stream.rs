//! The destination selector: which of the two terminal streams the spinner
//! draws on. The writes themselves happen outside the library; this type
//! only names the destination.

use vstd::prelude::*;

verus! {

/// The output destination for every spinner write.
#[derive(Debug, Clone, Copy, PartialEq, Eq, Structural)]
pub enum Stream {
    /// The primary terminal stream (standard output).
    Stdout,
    /// The alternate terminal stream (standard error).
    Stderr,
}

impl Default for Stream {
    /// The primary stream is the default destination.
    fn default() -> (r: Self)
        ensures
            r == Stream::Stdout,
    {
        Stream::Stdout
    }
}

} // verus!
