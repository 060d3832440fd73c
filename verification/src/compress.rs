//! Compression algorithms.
use vstd::prelude::*;

verus! {

/// How data is compressed.
#[derive(Clone, Copy, Debug, PartialEq, Eq, Structural)]
pub enum Algorithm {
    NoCompression,
    Lz4Block,
    GZip,
    Zstd,
}

impl Default for Algorithm {
    fn default() -> (algorithm: Self)
        ensures
            algorithm == Algorithm::NoCompression,
    {
        Algorithm::NoCompression
    }
}

} // verus!
