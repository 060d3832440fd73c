//! Digest algorithms.
use vstd::prelude::*;

verus! {

/// How the digests of inodes and chunks are computed.
#[derive(Clone, Copy, Debug, PartialEq, Eq, Structural)]
pub enum Algorithm {
    Blake3,
    Sha256,
}

impl Default for Algorithm {
    fn default() -> (algorithm: Self)
        ensures
            algorithm == Algorithm::Blake3,
    {
        Algorithm::Blake3
    }
}

} // verus!
