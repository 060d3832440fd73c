//! Laws on the blobs of a build.
use std::sync::Arc;
use vstd::prelude::*;
use crate::blob::{hashed_bytes, BlobContext, ChunkSource};
use crate::blob_manager::BlobManager;
use crate::blob_meta::{
    BlobInfo, BlobMetaChunkArray, BLOB_META_FEATURE_4K_ALIGNED, BLOB_META_FEATURE_CHUNK_INFO_V2,
    BLOB_META_FEATURE_SEPARATE, BLOB_META_FEATURE_ZRAN,
};
use crate::build_context::{BuildContext, RafsVersion};
use crate::chunk_dict::HashChunkDict;
use crate::compress;
use crate::dedup::blob_ids;
use crate::error::BuildError;

verus! {

/// A new manager has no blobs, no current blob, and dictionaries without blobs.
pub proof fn law_new_manager_is_empty<'a>(
    manager: BlobManager,
    count: usize,
    dict: &HashChunkDict,
    listed: &Vec<Arc<BlobInfo>>,
    inner_idx: u32,
    recorded: Option<u32>,
    layered: HashChunkDict,
    listed_layered: &Vec<Arc<BlobInfo>>,
    asked: &'a mut BlobManager,
    current: Option<(u32, &'a mut BlobContext)>,
)
    requires
        call_ensures(BlobManager::new, (), manager),
        call_ensures(BlobManager::len, (&manager,), count),
        call_ensures(BlobManager::get_chunk_dict, (&manager,), dict),
        call_ensures(HashChunkDict::get_blobs, (dict,), listed),
        call_ensures(HashChunkDict::get_real_blob_idx, (dict, inner_idx), recorded),
        layered == manager.layered_dict(),
        call_ensures(HashChunkDict::get_blobs, (&layered,), listed_layered),
        *old(asked) == manager,
        call_ensures(BlobManager::get_current_blob, (asked,), current),
    ensures
        count == 0,
        listed@.len() == 0,
        recorded is None,
        listed_layered@.len() == 0,
        current is None,
{
}

/// There is a blob at every index below the number of blobs, and at no other. The blob with the
/// highest of these indices is the last one.
pub proof fn law_blobs_are_indexed_from_zero(
    manager: &BlobManager,
    count: usize,
    i: usize,
    blob: Option<&BlobContext>,
    last: Option<&BlobContext>,
)
    requires
        call_ensures(BlobManager::len, (manager,), count),
        call_ensures(BlobManager::get_blob, (manager, i), blob),
        call_ensures(BlobManager::get_last_blob, (manager,), last),
    ensures
        blob is Some <==> i < count,
        last is Some <==> count > 0,
        i + 1 == count ==> last == blob,
{
}

/// All blobs are listed, each at its index, and so are their ids.
pub proof fn law_all_blobs_are_listed(
    manager: &BlobManager,
    count: usize,
    blobs: Vec<&BlobContext>,
    ids: Vec<String>,
    i: usize,
    blob: &BlobContext,
)
    requires
        call_ensures(BlobManager::len, (manager,), count),
        call_ensures(BlobManager::get_blobs, (manager,), blobs),
        call_ensures(BlobManager::get_blob_ids, (manager,), ids),
        call_ensures(BlobManager::get_blob, (manager, i), Some(blob)),
    ensures
        blobs@.len() == count,
        ids@.len() == count,
        *blobs@[i as int] == *blob,
        ids@[i as int]@ == blob.blob_id@,
{
    assert(*blobs@[i as int] == manager.spec_blobs()[i as int]);
    assert(ids@[i as int]@ == blob_ids(manager.spec_blobs())[i as int]);
}

/// A blob that is added comes last. The others, the current blob and the dictionaries stay.
pub proof fn law_added_blob_comes_last(
    manager: &mut BlobManager,
    blob_ctx: BlobContext,
    count: usize,
    count_after: usize,
    i: usize,
    before: Option<&BlobContext>,
    after: Option<&BlobContext>,
    last: Option<&BlobContext>,
)
    requires
        call_ensures(BlobManager::add, (manager, blob_ctx), ()),
        call_ensures(BlobManager::len, (&*old(manager),), count),
        call_ensures(BlobManager::len, (&*final(manager),), count_after),
        call_ensures(BlobManager::get_blob, (&*old(manager), i), before),
        call_ensures(BlobManager::get_blob, (&*final(manager), i), after),
        call_ensures(BlobManager::get_last_blob, (&*final(manager),), last),
    ensures
        count_after == count + 1,
        i < count ==> after == before,
        i == count ==> after == Some(&blob_ctx),
        last == Some(&blob_ctx),
        final(manager).current() == old(manager).current(),
        final(manager).global_dict() == old(manager).global_dict(),
        final(manager).layered_dict() == old(manager).layered_dict(),
{
}

/// There are 256 indices, given out in order: the one that is allocated is the one at which a blob
/// that is added is found.
pub proof fn law_allocated_index_finds_the_added_blob(
    manager: &mut BlobManager,
    count: usize,
    index: Result<u32, BuildError>,
    blob_ctx: BlobContext,
    found: Option<&BlobContext>,
)
    requires
        call_ensures(BlobManager::len, (&*old(manager),), count),
        call_ensures(BlobManager::alloc_index, (&*old(manager),), index),
        call_ensures(BlobManager::add, (manager, blob_ctx), ()),
        index is Ok ==> call_ensures(
            BlobManager::get_blob,
            (&*final(manager), index->Ok_0 as usize),
            found,
        ),
    ensures
        index is Ok <==> count < 256,
        index is Err ==> index->Err_0 == BuildError::TooManyBlobs,
        index is Ok ==> index->Ok_0 == count && found == Some(&blob_ctx),
{
}

/// A blob that is taken out is the one that was at the index. The blobs before it stay, those
/// behind it move up by one, and the current index and the dictionaries stay.
pub proof fn law_taken_blob_closes_the_gap(
    manager: &mut BlobManager,
    idx: usize,
    taken: BlobContext,
    at_idx: Option<&BlobContext>,
    count: usize,
    count_after: usize,
    i: usize,
    before: Option<&BlobContext>,
    next: Option<&BlobContext>,
    after: Option<&BlobContext>,
)
    requires
        call_ensures(BlobManager::len, (&*old(manager),), count),
        idx < count,
        i < usize::MAX,
        call_ensures(BlobManager::take_blob, (manager, idx), taken),
        call_ensures(BlobManager::get_blob, (&*old(manager), idx), at_idx),
        call_ensures(BlobManager::get_blob, (&*old(manager), i), before),
        call_ensures(BlobManager::get_blob, (&*old(manager), (i + 1) as usize), next),
        call_ensures(BlobManager::len, (&*final(manager),), count_after),
        call_ensures(BlobManager::get_blob, (&*final(manager), i), after),
    ensures
        at_idx == Some(&taken),
        count_after == count - 1,
        i < idx ==> after == before,
        i >= idx ==> after == next,
        final(manager).current() == old(manager).current(),
        final(manager).global_dict() == old(manager).global_dict(),
        final(manager).layered_dict() == old(manager).layered_dict(),
{
}

/// A blob is found by its id: at the index that is returned there is a blob with that id and at no
/// lower one; if none is returned, no blob has it.
pub proof fn law_first_blob_with_id_is_found(
    manager: &BlobManager,
    count: usize,
    id: &str,
    idx: Option<u32>,
    found: Option<&BlobContext>,
    i: usize,
    other: &BlobContext,
)
    requires
        call_ensures(BlobManager::len, (manager,), count),
        count <= u32::MAX,
        call_ensures(BlobManager::get_blob_idx_by_id, (manager, id), idx),
        idx is Some ==> call_ensures(
            BlobManager::get_blob,
            (manager, idx->Some_0 as usize),
            found,
        ),
        call_ensures(BlobManager::get_blob, (manager, i), Some(other)),
    ensures
        idx is Some ==> found is Some && found->Some_0.blob_id@ == id@,
        idx is Some && i < idx->Some_0 ==> other.blob_id@ != id@,
        idx is None ==> other.blob_id@ != id@,
{
    let ids = blob_ids(manager.spec_blobs());
    ids.index_of_first_ensures(id@);
    assert(ids[i as int] == other.blob_id@);
}

/// The dictionary that is set is the one that is found. The blobs, the current one and the
/// dictionary of the layers stay.
pub proof fn law_dictionary_is_kept(
    manager: &mut BlobManager,
    dict: HashChunkDict,
    found: &HashChunkDict,
    i: usize,
    before: Option<&BlobContext>,
    after: Option<&BlobContext>,
)
    requires
        call_ensures(BlobManager::set_chunk_dict, (manager, dict), ()),
        call_ensures(BlobManager::get_chunk_dict, (&*final(manager),), found),
        call_ensures(BlobManager::get_blob, (&*old(manager), i), before),
        call_ensures(BlobManager::get_blob, (&*final(manager), i), after),
    ensures
        *found == dict,
        after == before,
        final(manager).current() == old(manager).current(),
        final(manager).layered_dict() == old(manager).layered_dict(),
{
}

/// The blobs of a parent image take the place of all blobs. Each keeps its index, its id, its
/// sizes, its chunks and what is told of its chunk information, and is known to come from the
/// parent. The current index and the dictionaries stay.
pub proof fn law_imported_blobs<Z>(
    manager: &mut BlobManager,
    ctx: &BuildContext<Z>,
    parent: Vec<Arc<BlobInfo>>,
    count: usize,
    i: usize,
    blob: &BlobContext,
)
    requires
        call_ensures(BlobManager::from_blob_table::<Z>, (manager, ctx, parent), ()),
        call_ensures(BlobManager::len, (&*final(manager),), count),
        call_ensures(BlobManager::get_blob, (&*final(manager), i), Some(blob)),
    ensures
        count == parent@.len(),
        i < count,
        blob.blob_id@ == parent@[i as int].blob_id@,
        blob.blob_prefetch_size == parent@[i as int].prefetch_size,
        blob.chunk_count == parent@[i as int].chunk_count,
        blob.chunk_size == parent@[i as int].chunk_size,
        blob.uncompressed_blob_size == parent@[i as int].uncompressed_size,
        blob.compressed_blob_size == parent@[i as int].compressed_size,
        blob.chunk_source == ChunkSource::Parent,
        blob.blob_meta_info_enabled == parent@[i as int].meta_ci_is_valid,
        parent@[i as int].meta_ci_is_valid ==> {
            &&& blob.blob_meta_header.ci_compressor == parent@[i as int].meta_ci_compressor
            &&& blob.blob_meta_header.ci_entries == parent@[i as int].chunk_count
            &&& blob.blob_meta_header.ci_compressed_offset == parent@[i as int].meta_ci_offset
            &&& blob.blob_meta_header.ci_compressed_size
                == parent@[i as int].meta_ci_compressed_size
            &&& blob.blob_meta_header.ci_uncompressed_size
                == parent@[i as int].meta_ci_uncompressed_size
        },
        final(manager).current() == old(manager).current(),
        final(manager).global_dict() == old(manager).global_dict(),
        final(manager).layered_dict() == old(manager).layered_dict(),
{
    assert(final(manager).spec_blobs()[i as int].taken_over(
        *ctx,
        *parent@[i as int],
        ChunkSource::Parent,
    ));
}

/// Importing a parent image gives the blobs that taking each of its blobs over by itself gives.
pub proof fn law_imported_blob_is_taken_over<Z>(
    manager: &mut BlobManager,
    ctx: &BuildContext<Z>,
    parent: Vec<Arc<BlobInfo>>,
    i: usize,
    blob: &BlobContext,
    alone: BlobContext,
)
    requires
        call_ensures(BlobManager::from_blob_table::<Z>, (manager, ctx, parent), ()),
        call_ensures(BlobManager::get_blob, (&*final(manager), i), Some(blob)),
        call_ensures(BlobContext::from::<Z>, (ctx, &*parent@[i as int], ChunkSource::Parent), alone),
    ensures
        blob.blob_id@ == alone.blob_id@,
        blob.blob_prefetch_size == alone.blob_prefetch_size,
        blob.blob_meta_info_enabled == alone.blob_meta_info_enabled,
        blob.blob_meta_header == alone.blob_meta_header,
        blob.blob_meta_info is V1 <==> alone.blob_meta_info is V1,
        blob.compressed_blob_size == alone.compressed_blob_size,
        blob.uncompressed_blob_size == alone.uncompressed_blob_size,
        blob.compressed_offset == alone.compressed_offset,
        blob.uncompressed_offset == alone.uncompressed_offset,
        blob.chunk_count == alone.chunk_count,
        blob.chunk_size == alone.chunk_size,
        blob.chunk_source == alone.chunk_source,
{
    assert(final(manager).spec_blobs()[i as int].taken_over(
        *ctx,
        *parent@[i as int],
        ChunkSource::Parent,
    ));
}

/// If there is no current blob, the one that is created comes last and has the options of the
/// build: its id, its start, its chunk size, its features and, in version 6, chunk information.
/// Nothing has been written to it.
pub proof fn law_created_blob_has_the_options_of_the_build<'a, Z>(
    manager: &'a mut BlobManager,
    ctx: &BuildContext<Z>,
    count: usize,
    idx: u32,
    blob: &'a mut BlobContext,
)
    requires
        old(manager).current() is None,
        call_ensures(BlobManager::len, (&*old(manager),), count),
        call_ensures(
            BlobManager::get_or_create_current_blob::<Z>,
            (manager, ctx),
            Ok((idx, blob)),
        ),
    ensures
        idx == count,
        count < 256,
        old(blob).blob_id@ == ctx.blob_id@,
        old(blob).compressed_offset == ctx.blob_offset,
        old(blob).uncompressed_offset == 0,
        old(blob).chunk_size == ctx.chunk_size,
        old(blob).blob_meta_info_enabled <==> ctx.fs_version == RafsVersion::V6,
        old(blob).chunk_source == ChunkSource::Build,
        hashed_bytes(old(blob).blob_hash).len() == 0,
        old(blob).compressed_blob_size == 0,
        old(blob).uncompressed_blob_size == 0,
        old(blob).blob_prefetch_size == 0,
        old(blob).chunk_count == 0,
        old(blob).blob_meta_header.aligned_4k <==> ctx.blob_meta_features
            & BLOB_META_FEATURE_4K_ALIGNED != 0,
        old(blob).blob_meta_header.ci_separate <==> ctx.blob_meta_features
            & BLOB_META_FEATURE_SEPARATE != 0,
        old(blob).blob_meta_header.chunk_info_v2 <==> ctx.blob_meta_features
            & BLOB_META_FEATURE_CHUNK_INFO_V2 != 0,
        old(blob).blob_meta_header.ci_zran <==> ctx.blob_meta_features & BLOB_META_FEATURE_ZRAN
            != 0,
        old(blob).blob_meta_header.ci_compressor == compress::Algorithm::Lz4Block,
        old(blob).blob_meta_header.ci_entries == 0,
        old(blob).blob_meta_header.ci_compressed_offset == 0,
        old(blob).blob_meta_header.ci_compressed_size == 0,
        old(blob).blob_meta_header.ci_uncompressed_size == 0,
        match old(blob).blob_meta_info {
            BlobMetaChunkArray::V1(entries) => ctx.blob_meta_features
                & BLOB_META_FEATURE_CHUNK_INFO_V2 == 0 && entries@.len() == 0,
            BlobMetaChunkArray::V2(entries) => ctx.blob_meta_features
                & BLOB_META_FEATURE_CHUNK_INFO_V2 != 0 && entries@.len() == 0,
        },
{
}

/// A blob is created only if there is no current one. Either way the blob that is handed out is the
/// one at the index, what is done to it is found there, and the other blobs and the dictionaries
/// stay.
pub proof fn law_current_blob_is_handed_out<'a, Z>(
    manager: &'a mut BlobManager,
    ctx: &BuildContext<Z>,
    count: usize,
    count_after: usize,
    idx: u32,
    blob: &'a mut BlobContext,
    i: usize,
    before: Option<&BlobContext>,
    after: Option<&BlobContext>,
)
    requires
        old(manager).current_valid(),
        call_ensures(BlobManager::len, (&*old(manager),), count),
        call_ensures(
            BlobManager::get_or_create_current_blob::<Z>,
            (manager, ctx),
            Ok((idx, blob)),
        ),
        call_ensures(BlobManager::len, (&*final(manager),), count_after),
        call_ensures(BlobManager::get_blob, (&*old(manager), i), before),
        call_ensures(BlobManager::get_blob, (&*final(manager), i), after),
    ensures
        final(manager).current() == Some(idx),
        old(manager).current() is Some ==> old(manager).current() == Some(idx) && count_after
            == count,
        old(manager).current() is None ==> count_after == count + 1,
        i == idx ==> after == Some(&*final(blob)),
        i == idx && old(manager).current() is Some ==> before == Some(&*old(blob)),
        i != idx ==> after == before,
        final(manager).global_dict() == old(manager).global_dict(),
        final(manager).layered_dict() == old(manager).layered_dict(),
{
}

/// Once there is a current blob it stays the current one: asking for it with or without creating
/// gives the same index, and the blob as it was left.
pub proof fn law_current_blob_stays<'a, 'b, 'c, Z>(
    manager: &'a mut BlobManager,
    ctx: &BuildContext<Z>,
    idx: u32,
    blob: &'a mut BlobContext,
    later: &'b mut BlobManager,
    current: Option<(u32, &'b mut BlobContext)>,
    again: &'c mut BlobManager,
    result: Result<(u32, &'c mut BlobContext), BuildError>,
)
    requires
        old(manager).current_valid(),
        call_ensures(
            BlobManager::get_or_create_current_blob::<Z>,
            (manager, ctx),
            Ok((idx, blob)),
        ),
        *old(later) == *final(manager),
        call_ensures(BlobManager::get_current_blob, (later,), current),
        *old(again) == *final(manager),
        call_ensures(BlobManager::get_or_create_current_blob::<Z>, (again, ctx), result),
    ensures
        current is Some && current->Some_0.0 == idx && *current->Some_0.1 == *final(blob),
        result is Ok && result->Ok_0.0 == idx && *result->Ok_0.1 == *final(blob),
{
}

/// There is a current blob to hand out unless none was created and no index is left; in that case
/// the manager stays as it is.
pub proof fn law_no_blob_without_index<'a, Z>(
    manager: &'a mut BlobManager,
    ctx: &BuildContext<Z>,
    count: usize,
    result: Result<(u32, &'a mut BlobContext), BuildError>,
)
    requires
        call_ensures(BlobManager::len, (&*old(manager),), count),
        call_ensures(BlobManager::get_or_create_current_blob::<Z>, (manager, ctx), result),
    ensures
        result is Err <==> old(manager).current() is None && count >= 256,
        result is Err ==> result->Err_0 == BuildError::TooManyBlobs && *final(manager) == *old(
            manager,
        ),
{
}

/// The current blob is the one at the current index, and what is done to it is found there. The
/// other blobs, the index and the dictionaries stay.
pub proof fn law_current_blob_is_at_its_index<'a>(
    manager: &'a mut BlobManager,
    current: Option<(u32, &'a mut BlobContext)>,
    count: usize,
    count_after: usize,
    i: usize,
    before: Option<&BlobContext>,
    after: Option<&BlobContext>,
)
    requires
        old(manager).current_valid(),
        call_ensures(BlobManager::get_current_blob, (manager,), current),
        call_ensures(BlobManager::len, (&*old(manager),), count),
        call_ensures(BlobManager::len, (&*final(manager),), count_after),
        call_ensures(BlobManager::get_blob, (&*old(manager), i), before),
        call_ensures(BlobManager::get_blob, (&*final(manager), i), after),
    ensures
        current is Some <==> old(manager).current() is Some,
        current is Some ==> old(manager).current() == Some(current->Some_0.0),
        count_after == count,
        current is Some && i == current->Some_0.0 ==> before == Some(&*current->Some_0.1) && after
            == Some(&*final(current->Some_0.1)),
        current is Some && i != current->Some_0.0 ==> after == before,
        current is None ==> after == before,
        final(manager).current() == old(manager).current(),
        final(manager).global_dict() == old(manager).global_dict(),
        final(manager).layered_dict() == old(manager).layered_dict(),
{
}

} // verus!
