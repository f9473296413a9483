//! The library's error type.
//!
//! Local read and listing failures, remote protocol failures and
//! configuration mistakes are all fatal to a run; the two recoverable
//! remote outcomes (object absent, access denied) are plain values and
//! never appear here.

use vstd::prelude::*;

verus! {

/// A fatal failure, by origin: a local I/O failure, a remote protocol
/// failure, an invalid configuration, or another failure described by
/// its message alone.
#[derive(Debug, Clone)]
pub enum PrefixloadError {
    Io(String),
    Remote(String),
    Config(String),
    Custom(String),
}

impl PrefixloadError {
    /// The failure message carried by any of the variants.
    pub fn message(&self) -> (r: &String)
        ensures
            r@ == self.spec_message(),
    {
        match self {
            PrefixloadError::Io(m) => m,
            PrefixloadError::Remote(m) => m,
            PrefixloadError::Config(m) => m,
            PrefixloadError::Custom(m) => m,
        }
    }

    /// The message carried by any of the variants.
    pub open spec fn spec_message(&self) -> Seq<char> {
        match self {
            PrefixloadError::Io(m) => m@,
            PrefixloadError::Remote(m) => m@,
            PrefixloadError::Config(m) => m@,
            PrefixloadError::Custom(m) => m@,
        }
    }
}

} // verus!
