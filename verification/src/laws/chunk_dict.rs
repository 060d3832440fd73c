//! Laws on chunk dictionaries.
use std::sync::Arc;
use vstd::prelude::*;
use crate::blob_meta::BlobInfo;
use crate::chunk_dict::HashChunkDict;

verus! {

/// A new dictionary has the blobs that it is given, and no index has been recorded in it.
pub proof fn law_new_dictionary(
    blobs: Vec<Arc<BlobInfo>>,
    dict: HashChunkDict,
    listed: &Vec<Arc<BlobInfo>>,
    inner_idx: u32,
    recorded: Option<u32>,
)
    requires
        call_ensures(HashChunkDict::new, (blobs,), dict),
        call_ensures(HashChunkDict::get_blobs, (&dict,), listed),
        call_ensures(HashChunkDict::get_real_blob_idx, (&dict, inner_idx), recorded),
    ensures
        listed@ == blobs@,
        recorded is None,
{
}

/// A default dictionary has no blobs and no recorded indices.
pub proof fn law_default_dictionary(
    dict: HashChunkDict,
    listed: &Vec<Arc<BlobInfo>>,
    inner_idx: u32,
    recorded: Option<u32>,
)
    requires
        call_ensures(<HashChunkDict as Default>::default, (), dict),
        call_ensures(HashChunkDict::get_blobs, (&dict,), listed),
        call_ensures(HashChunkDict::get_real_blob_idx, (&dict, inner_idx), recorded),
    ensures
        listed@.len() == 0,
        recorded is None,
{
}

/// The index that was recorded last for a blob is the one that is found for it. What is found for
/// other blobs stays, and so do the blobs.
pub proof fn law_recorded_index_is_found(
    dict: &mut HashChunkDict,
    inner_idx: u32,
    out_idx: u32,
    asked: u32,
    before: Option<u32>,
    after: Option<u32>,
    blobs: &Vec<Arc<BlobInfo>>,
    blobs_after: &Vec<Arc<BlobInfo>>,
)
    requires
        call_ensures(HashChunkDict::set_real_blob_idx, (dict, inner_idx, out_idx), ()),
        call_ensures(HashChunkDict::get_real_blob_idx, (&*old(dict), asked), before),
        call_ensures(HashChunkDict::get_real_blob_idx, (&*final(dict), asked), after),
        call_ensures(HashChunkDict::get_blobs, (&*old(dict),), blobs),
        call_ensures(HashChunkDict::get_blobs, (&*final(dict),), blobs_after),
    ensures
        asked == inner_idx ==> after == Some(out_idx),
        asked != inner_idx ==> after == before,
        blobs_after@ == blobs@,
{
}

} // verus!
