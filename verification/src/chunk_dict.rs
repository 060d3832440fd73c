//! Chunk dictionaries.
use std::collections::HashMap;
use std::sync::Arc;
use vstd::prelude::*;
use crate::blob_meta::BlobInfo;

verus! {

broadcast use vstd::std_specs::hash::group_hash_axioms;

/// The blobs of a chunk dictionary, and where each of them stands in the blob table of the build.
pub struct HashChunkDict {
    blobs: Vec<Arc<BlobInfo>>,
    real_blob_idx: HashMap<u32, u32>,
}

impl HashChunkDict {
    /// The blobs of the dictionary, in order.
    pub closed spec fn spec_blobs(&self) -> Seq<Arc<BlobInfo>> {
        self.blobs@
    }

    /// Index in the blob table of the build by index in the dictionary.
    pub closed spec fn real_indices(&self) -> Map<u32, u32> {
        self.real_blob_idx@
    }

    /// A dictionary of the given blobs, none of which stands in a blob table yet.
    pub fn new(blobs: Vec<Arc<BlobInfo>>) -> (dict: Self)
        ensures
            dict.spec_blobs() == blobs@,
            dict.real_indices() == Map::<u32, u32>::empty(),
    {
        HashChunkDict { blobs, real_blob_idx: HashMap::new() }
    }

    /// The blobs of the dictionary, in order.
    pub fn get_blobs(&self) -> (blobs: &Vec<Arc<BlobInfo>>)
        ensures
            blobs@ == self.spec_blobs(),
    {
        &self.blobs
    }

    /// Records that the blob with index `inner_idx` in the dictionary has index `out_idx` in the
    /// blob table of the build.
    pub fn set_real_blob_idx(&mut self, inner_idx: u32, out_idx: u32)
        ensures
            final(self).spec_blobs() == old(self).spec_blobs(),
            final(self).real_indices() == old(self).real_indices().insert(inner_idx, out_idx),
    {
        self.real_blob_idx.insert(inner_idx, out_idx);
    }

    /// The index in the blob table of the build of the blob with index `inner_idx` in the
    /// dictionary, if it has been recorded.
    pub fn get_real_blob_idx(&self, inner_idx: u32) -> (out_idx: Option<u32>)
        ensures
            match out_idx {
                Some(idx) => self.real_indices().contains_key(inner_idx)
                    && self.real_indices()[inner_idx] == idx,
                None => !self.real_indices().contains_key(inner_idx),
            },
    {
        match self.real_blob_idx.get(&inner_idx) {
            Some(idx) => Some(*idx),
            None => None,
        }
    }
}

impl Default for HashChunkDict {
    fn default() -> (dict: Self)
        ensures
            dict.spec_blobs() == Seq::<Arc<BlobInfo>>::empty(),
            dict.real_indices() == Map::<u32, u32>::empty(),
    {
        HashChunkDict::new(Vec::new())
    }
}

} // verus!
