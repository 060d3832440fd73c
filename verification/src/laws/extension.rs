//! Laws on adding the blobs of a chunk dictionary to the blobs of a build.
use std::sync::Arc;
use vstd::prelude::*;
use crate::blob::{hashed_bytes, BlobContext, ChunkSource};
use crate::blob_manager::BlobManager;
use crate::blob_meta::{
    BlobInfo, BLOB_META_FEATURE_CHUNK_INFO_V2, BLOB_META_FEATURE_SEPARATE, BLOB_META_FEATURE_ZRAN,
};
use crate::blob_table::RafsBlobTable;
use crate::build_context::BuildContext;
use crate::chunk_dict::HashChunkDict;
use crate::dedup::{
    assigned_indices, blob_ids, dict_ids, extended_ids, extension_stops_at, lemma_extended_ids,
    lemma_index_kept,
};
use crate::error::BuildError;
use crate::laws::table::{entries_of, headers_of};

verus! {

/// Whether the blob at position `j` of a dictionary is the first one there with the given id.
pub open spec fn first_with_id(dict: Seq<Arc<BlobInfo>>, id: Seq<char>, j: int) -> bool {
    &&& 0 <= j < dict.len()
    &&& dict[j].blob_id@ == id
    &&& forall|k: int| 0 <= k < j ==> (#[trigger] dict[k]).blob_id@ != id
}

/// Whether some blob has the given id.
pub open spec fn has_id(blobs: Seq<&BlobContext>, id: Seq<char>) -> bool {
    exists|i: int| 0 <= i < blobs.len() && (#[trigger] blobs[i]).blob_id@ == id
}

/// Where the ids that an extension adds stand in what it adds.
proof fn lemma_added_ids(ids: Seq<Seq<char>>, more: Seq<Seq<char>>)
    ensures
        forall|i: int|
            ids.len() <= i < extended_ids(ids, more).len() ==> {
                &&& !ids.contains(#[trigger] extended_ids(ids, more)[i])
                &&& more.index_of_first(extended_ids(ids, more)[i]) is Some
            },
        forall|i: int, k: int|
            ids.len() <= i < k < extended_ids(ids, more).len() ==> more.index_of_first(
                #[trigger] extended_ids(ids, more)[i],
            ).unwrap() < more.index_of_first(#[trigger] extended_ids(ids, more)[k]).unwrap(),
    decreases more.len(),
{
    if more.len() > 0 {
        let rest = more.drop_last();
        let last = more.last();
        let before = extended_ids(ids, rest);
        let after = extended_ids(ids, more);
        lemma_added_ids(ids, rest);
        lemma_extended_ids(ids, rest);
        assert(more =~= rest.push(last));
        assert forall|i: int| ids.len() <= i < before.len() implies {
            &&& more.index_of_first(#[trigger] before[i]) == rest.index_of_first(before[i])
            &&& 0 <= rest.index_of_first(before[i]).unwrap() < rest.len()
        } by {
            rest.index_of_first_ensures(before[i]);
            assert(rest.contains(before[i]));
            lemma_index_kept(rest, last, before[i]);
        }
        if !before.contains(last) {
            assert(after == before.push(last));
            if ids.contains(last) {
                let k = choose|k: int| 0 <= k < ids.len() && ids[k] == last;
                assert(before[k] == last);
            }
            more.index_of_first_ensures(last);
            assert(more[more.len() - 1] == last);
            let j = more.index_of_first(last).unwrap();
            if j < rest.len() {
                assert(before.contains(rest[j]));
            }
            assert forall|i: int, k: int|
                ids.len() <= i < k < after.len() implies more.index_of_first(
                #[trigger] after[i],
            ).unwrap() < more.index_of_first(#[trigger] after[k]).unwrap() by {
                assert(after[i] == before[i]);
                if k < before.len() {
                    assert(after[k] == before[k]);
                }
            }
        }
    }
}

/// The index that is assigned to a blob of a dictionary, and the indices that are not touched.
proof fn lemma_assigned(
    indices: Map<u32, u32>,
    ids: Seq<Seq<char>>,
    dict: Seq<Arc<BlobInfo>>,
    inner_idx: u32,
)
    ensures
        (forall|k: int| 0 <= k < dict.len() ==> (#[trigger] dict[k]).blob_index != inner_idx) ==> {
            &&& assigned_indices(indices, ids, dict).contains_key(inner_idx)
                == indices.contains_key(inner_idx)
            &&& assigned_indices(indices, ids, dict)[inner_idx] == indices[inner_idx]
        },
        forall|j: int|
            0 <= j < dict.len() && (#[trigger] dict[j]).blob_index == inner_idx && (forall|k: int|
                j < k < dict.len() ==> (#[trigger] dict[k]).blob_index != inner_idx) ==> {
                &&& assigned_indices(indices, ids, dict).contains_key(inner_idx)
                &&& assigned_indices(indices, ids, dict)[inner_idx] == ids.index_of_first(
                    dict[j].blob_id@,
                ).unwrap() as u32
            },
    decreases dict.len(),
{
    if dict.len() > 0 {
        let rest = dict.drop_last();
        let n = dict.len() - 1;
        lemma_assigned(indices, ids, rest, inner_idx);
        assert(forall|k: int| 0 <= k < n ==> rest[k] == dict[k]);
        if dict[n].blob_index != inner_idx {
            assert forall|j: int|
                0 <= j < dict.len() && (#[trigger] dict[j]).blob_index == inner_idx && (forall|
                    k: int,
                |
                    j < k < dict.len() ==> (#[trigger] dict[k]).blob_index != inner_idx) implies {
                &&& assigned_indices(indices, ids, dict).contains_key(inner_idx)
                &&& assigned_indices(indices, ids, dict)[inner_idx] == ids.index_of_first(
                    dict[j].blob_id@,
                ).unwrap() as u32
            } by {
                assert(rest[j] == dict[j]);
                assert forall|k: int| j < k < rest.len() implies (#[trigger] rest[k]).blob_index
                    != inner_idx by {
                    assert(rest[k] == dict[k]);
                }
            }
            if forall|k: int| 0 <= k < dict.len() ==> (#[trigger] dict[k]).blob_index != inner_idx {
                assert forall|k: int| 0 <= k < rest.len() implies (#[trigger] rest[k]).blob_index
                    != inner_idx by {
                    assert(rest[k] == dict[k]);
                }
            }
        }
    }
}

/// A blob that has been added stands for the first blob of the dictionary with its id, which is
/// behind those that the blobs added before it stand for.
proof fn lemma_added_blob<Z>(
    before: BlobManager,
    after: BlobManager,
    ctx: BuildContext<Z>,
    n: int,
    i: int,
)
    requires
        after.extended_from_dict(&before, ctx, n),
        0 <= n <= before.global_dict().spec_blobs().len(),
        before.spec_blobs().len() <= i < after.spec_blobs().len(),
    ensures
        ({
            let dict = before.global_dict().spec_blobs();
            let id = after.spec_blobs()[i].blob_id@;
            let j = dict_ids(dict.take(n)).index_of_first(id).unwrap();
            &&& j < n
            &&& first_with_id(dict, id, j)
            &&& after.spec_blobs()[i].taken_over(ctx, *dict[j], ChunkSource::Dict)
            &&& !blob_ids(before.spec_blobs()).contains(id)
            &&& forall|k: int|
                before.spec_blobs().len() <= k < i ==> dict_ids(dict.take(n)).index_of_first(
                    (#[trigger] after.spec_blobs()[k]).blob_id@,
                ).unwrap() < j
        }),
{
    let dict = before.global_dict().spec_blobs();
    let ids = blob_ids(before.spec_blobs());
    let more = dict_ids(dict.take(n));
    let all = blob_ids(after.spec_blobs());
    let id = after.spec_blobs()[i].blob_id@;
    lemma_added_ids(ids, more);
    assert(all[i] == id);
    more.index_of_first_ensures(id);
    let j = more.index_of_first(id).unwrap();
    assert forall|k: int| 0 <= k < j implies (#[trigger] dict[k]).blob_id@ != id by {
        assert(more[k] == dict[k].blob_id@);
    }
    assert(more[j] == dict[j].blob_id@);
    assert forall|k: int| before.spec_blobs().len() <= k < i implies more.index_of_first(
        (#[trigger] after.spec_blobs()[k]).blob_id@,
    ).unwrap() < j by {
        assert(all[k] == after.spec_blobs()[k].blob_id@);
    }
}

/// The number of dictionary blobs that a call has dealt with.
proof fn lemma_dealt_with<Z>(
    manager: &mut BlobManager,
    extended: BlobManager,
    ctx: &BuildContext<Z>,
    result: Result<(), BuildError>,
) -> (n: int)
    requires
        extended == *final(manager),
        call_ensures(BlobManager::extend_blob_table_from_chunk_dict::<Z>, (manager, ctx), result),
    ensures
        0 <= n <= old(manager).global_dict().spec_blobs().len(),
        extended.extended_from_dict(&*old(manager), *ctx, n),
        result is Ok ==> n == old(manager).global_dict().spec_blobs().len(),
        result is Err ==> {
            &&& n < old(manager).global_dict().spec_blobs().len()
            &&& !blob_ids(extended.spec_blobs()).contains(
                old(manager).global_dict().spec_blobs()[n].blob_id@,
            )
        },
{
    let dict = old(manager).global_dict().spec_blobs();
    if result is Ok {
        dict.len() as int
    } else {
        choose|n: int|
            {
                &&& #[trigger] extended.extended_from_dict(&*old(manager), *ctx, n)
                &&& extension_stops_at(blob_ids(old(manager).spec_blobs()), dict, n)
            }
    }
}

/// Adding the blobs of a dictionary, also if it fails, keeps the blobs that are there with their
/// indices, the current index, the blobs of the dictionary and the dictionary of the layers.
pub proof fn law_extension_keeps_the_blobs<Z>(
    manager: &mut BlobManager,
    extended: BlobManager,
    ctx: &BuildContext<Z>,
    result: Result<(), BuildError>,
    before: Vec<&BlobContext>,
    after: Vec<&BlobContext>,
    dict: &HashChunkDict,
    dict_after: &HashChunkDict,
    listed: &Vec<Arc<BlobInfo>>,
    listed_after: &Vec<Arc<BlobInfo>>,
)
    requires
        extended == *final(manager),
        call_ensures(BlobManager::extend_blob_table_from_chunk_dict::<Z>, (manager, ctx), result),
        call_ensures(BlobManager::get_blobs, (&*old(manager),), before),
        call_ensures(BlobManager::get_blobs, (&extended,), after),
        call_ensures(BlobManager::get_chunk_dict, (&*old(manager),), dict),
        call_ensures(BlobManager::get_chunk_dict, (&extended,), dict_after),
        call_ensures(HashChunkDict::get_blobs, (dict,), listed),
        call_ensures(HashChunkDict::get_blobs, (dict_after,), listed_after),
    ensures
        before@.len() <= after@.len(),
        forall|i: int| 0 <= i < before@.len() ==> *#[trigger] after@[i] == *before@[i],
        listed_after@ == listed@,
        extended.current() == old(manager).current(),
        extended.layered_dict() == old(manager).layered_dict(),
{
    let n = lemma_dealt_with(manager, extended, ctx, result);
    assert forall|i: int| 0 <= i < before@.len() implies *#[trigger] after@[i] == *before@[i] by {
        assert(*after@[i] == extended.spec_blobs()[i]);
        assert(*before@[i] == old(manager).spec_blobs()[i]);
    }
}

/// A blob that is added has an id that no blob had. It stands for the first blob of the dictionary
/// with that id, and has the sizes, the chunks and the features that are told of it, and what is
/// told of its chunk information. The added blobs are in the order of the dictionary, so none is
/// added twice.
pub proof fn law_added_blobs_are_those_of_the_dictionary<Z>(
    manager: &mut BlobManager,
    extended: BlobManager,
    ctx: &BuildContext<Z>,
    result: Result<(), BuildError>,
    before: Vec<&BlobContext>,
    after: Vec<&BlobContext>,
    dict: &HashChunkDict,
    listed: &Vec<Arc<BlobInfo>>,
    i: int,
    j: int,
)
    requires
        extended == *final(manager),
        call_ensures(BlobManager::extend_blob_table_from_chunk_dict::<Z>, (manager, ctx), result),
        call_ensures(BlobManager::get_blobs, (&*old(manager),), before),
        call_ensures(BlobManager::get_blobs, (&extended,), after),
        call_ensures(BlobManager::get_chunk_dict, (&*old(manager),), dict),
        call_ensures(HashChunkDict::get_blobs, (dict,), listed),
        before@.len() <= i < after@.len(),
        first_with_id(listed@, after@[i].blob_id@, j),
    ensures
        !has_id(before@, after@[i].blob_id@),
        after@[i].blob_prefetch_size == listed@[j].prefetch_size,
        after@[i].chunk_count == listed@[j].chunk_count,
        after@[i].chunk_size == listed@[j].chunk_size,
        after@[i].uncompressed_blob_size == listed@[j].uncompressed_size,
        after@[i].compressed_blob_size == listed@[j].compressed_size,
        after@[i].chunk_source == ChunkSource::Dict,
        after@[i].compressed_offset == 0,
        after@[i].uncompressed_offset == 0,
        hashed_bytes(after@[i].blob_hash).len() == 0,
        after@[i].blob_meta_info_enabled == listed@[j].meta_ci_is_valid,
        after@[i].blob_meta_header.aligned_4k == (listed@[j].meta_ci_is_valid
            || ctx.aligned_chunk),
        after@[i].blob_meta_header.ci_separate == (listed@[j].meta_flags
            & BLOB_META_FEATURE_SEPARATE != 0),
        after@[i].blob_meta_header.chunk_info_v2 == (listed@[j].meta_flags
            & BLOB_META_FEATURE_CHUNK_INFO_V2 != 0),
        after@[i].blob_meta_header.ci_zran == (listed@[j].meta_flags & BLOB_META_FEATURE_ZRAN != 0),
        after@[i].blob_meta_info is V2 <==> listed@[j].meta_flags & BLOB_META_FEATURE_CHUNK_INFO_V2
            != 0,
        listed@[j].meta_ci_is_valid ==> {
            &&& after@[i].blob_meta_header.ci_compressor == listed@[j].meta_ci_compressor
            &&& after@[i].blob_meta_header.ci_entries == listed@[j].chunk_count
            &&& after@[i].blob_meta_header.ci_compressed_offset == listed@[j].meta_ci_offset
            &&& after@[i].blob_meta_header.ci_compressed_size == listed@[j].meta_ci_compressed_size
            &&& after@[i].blob_meta_header.ci_uncompressed_size
                == listed@[j].meta_ci_uncompressed_size
        },
        forall|k: int, l: int|
            before@.len() <= k < i && #[trigger] first_with_id(listed@, after@[k].blob_id@, l)
                ==> l < j,
{
    let n = lemma_dealt_with(manager, extended, ctx, result);
    lemma_added_blob(*old(manager), extended, *ctx, n, i);
    assert(*after@[i] == extended.spec_blobs()[i]);
    let id = after@[i].blob_id@;
    let found = dict_ids(listed@.take(n)).index_of_first(id).unwrap();
    assert(first_with_id(listed@, id, found));
    if found < j {
        assert(listed@[found].blob_id@ != id);
    } else if j < found {
        assert(listed@[j].blob_id@ != id);
    }
    if has_id(before@, id) {
        let k = choose|k: int| 0 <= k < before@.len() && (#[trigger] before@[k]).blob_id@ == id;
        assert(*before@[k] == old(manager).spec_blobs()[k]);
        assert(blob_ids(old(manager).spec_blobs())[k] == id);
    }
    assert forall|k: int, l: int|
        before@.len() <= k < i && #[trigger] first_with_id(
            listed@,
            after@[k].blob_id@,
            l,
        ) implies l < j by {
        assert(*after@[k] == extended.spec_blobs()[k]);
        lemma_added_blob(*old(manager), extended, *ctx, n, k);
        let other = dict_ids(listed@.take(n)).index_of_first(after@[k].blob_id@).unwrap();
        if other < l {
            assert(listed@[other].blob_id@ != after@[k].blob_id@);
        } else if l < other {
            assert(listed@[l].blob_id@ != after@[k].blob_id@);
        }
    }
}

/// Every blob that is added is in the dictionary.
pub proof fn law_only_dictionary_blobs_are_added<Z>(
    manager: &mut BlobManager,
    extended: BlobManager,
    ctx: &BuildContext<Z>,
    result: Result<(), BuildError>,
    before: Vec<&BlobContext>,
    after: Vec<&BlobContext>,
    dict: &HashChunkDict,
    listed: &Vec<Arc<BlobInfo>>,
    i: int,
)
    requires
        extended == *final(manager),
        call_ensures(BlobManager::extend_blob_table_from_chunk_dict::<Z>, (manager, ctx), result),
        call_ensures(BlobManager::get_blobs, (&*old(manager),), before),
        call_ensures(BlobManager::get_blobs, (&extended,), after),
        call_ensures(BlobManager::get_chunk_dict, (&*old(manager),), dict),
        call_ensures(HashChunkDict::get_blobs, (dict,), listed),
        before@.len() <= i < after@.len(),
    ensures
        exists|j: int| first_with_id(listed@, after@[i].blob_id@, j),
{
    let n = lemma_dealt_with(manager, extended, ctx, result);
    lemma_added_blob(*old(manager), extended, *ctx, n, i);
    assert(*after@[i] == extended.spec_blobs()[i]);
    let j = dict_ids(listed@.take(n)).index_of_first(after@[i].blob_id@).unwrap();
    assert(first_with_id(listed@, after@[i].blob_id@, j));
}

/// After a success every blob of the dictionary is in the list, and there are no more than 256
/// blobs unless none had to be added.
pub proof fn law_success_lists_the_whole_dictionary<Z>(
    manager: &mut BlobManager,
    extended: BlobManager,
    ctx: &BuildContext<Z>,
    before: Vec<&BlobContext>,
    after: Vec<&BlobContext>,
    dict: &HashChunkDict,
    listed: &Vec<Arc<BlobInfo>>,
    j: int,
)
    requires
        extended == *final(manager),
        call_ensures(BlobManager::extend_blob_table_from_chunk_dict::<Z>, (manager, ctx), Ok(())),
        call_ensures(BlobManager::get_blobs, (&*old(manager),), before),
        call_ensures(BlobManager::get_blobs, (&extended,), after),
        call_ensures(BlobManager::get_chunk_dict, (&*old(manager),), dict),
        call_ensures(HashChunkDict::get_blobs, (dict,), listed),
        0 <= j < listed@.len(),
    ensures
        has_id(after@, listed@[j].blob_id@),
        after@.len() == before@.len() || after@.len() <= 256,
{
    let ids = blob_ids(old(manager).spec_blobs());
    let n = listed@.len() as int;
    assert(listed@.take(n) =~= listed@);
    lemma_extended_ids(ids, dict_ids(listed@));
    assert(dict_ids(listed@)[j] == listed@[j].blob_id@);
    let all = blob_ids(extended.spec_blobs());
    let i = choose|i: int| 0 <= i < all.len() && all[i] == listed@[j].blob_id@;
    assert(*after@[i] == extended.spec_blobs()[i]);
    assert(after@[i].blob_id@ == listed@[j].blob_id@);
}

/// After a success the index that is recorded for a blob of the dictionary is the lowest one of a
/// blob with its id, unless a blob that follows in the dictionary has the same index there. What
/// was recorded for other indices stays.
pub proof fn law_success_records_where_the_blobs_stand<Z>(
    manager: &mut BlobManager,
    extended: BlobManager,
    ctx: &BuildContext<Z>,
    after: Vec<&BlobContext>,
    dict: &HashChunkDict,
    dict_after: &HashChunkDict,
    listed: &Vec<Arc<BlobInfo>>,
    inner_idx: u32,
    recorded: Option<u32>,
    recorded_after: Option<u32>,
    j: int,
)
    requires
        extended == *final(manager),
        call_ensures(BlobManager::extend_blob_table_from_chunk_dict::<Z>, (manager, ctx), Ok(())),
        call_ensures(BlobManager::get_blobs, (&extended,), after),
        after@.len() <= u32::MAX,
        call_ensures(BlobManager::get_chunk_dict, (&*old(manager),), dict),
        call_ensures(BlobManager::get_chunk_dict, (&extended,), dict_after),
        call_ensures(HashChunkDict::get_blobs, (dict,), listed),
        call_ensures(HashChunkDict::get_real_blob_idx, (dict, inner_idx), recorded),
        call_ensures(HashChunkDict::get_real_blob_idx, (dict_after, inner_idx), recorded_after),
    ensures
        (forall|k: int| 0 <= k < listed@.len() ==> (#[trigger] listed@[k]).blob_index != inner_idx)
            ==> recorded_after == recorded,
        0 <= j < listed@.len() && listed@[j].blob_index == inner_idx && (forall|k: int|
            j < k < listed@.len() ==> (#[trigger] listed@[k]).blob_index != inner_idx) ==> {
            &&& recorded_after is Some
            &&& recorded_after->Some_0 < after@.len()
            &&& after@[recorded_after->Some_0 as int].blob_id@ == listed@[j].blob_id@
            &&& forall|i: int|
                0 <= i < recorded_after->Some_0 ==> (#[trigger] after@[i]).blob_id@
                    != listed@[j].blob_id@
        },
{
    let n = lemma_dealt_with(manager, extended, ctx, Ok(()));
    lemma_recorded(
        *old(manager),
        extended,
        ctx,
        n,
        after,
        dict,
        dict_after,
        listed,
        inner_idx,
        recorded,
        recorded_after,
        j,
    );
}

/// What is recorded once `n` blobs of a dictionary have been dealt with.
proof fn lemma_recorded<Z>(
    original: BlobManager,
    extended: BlobManager,
    ctx: &BuildContext<Z>,
    n: int,
    after: Vec<&BlobContext>,
    dict: &HashChunkDict,
    dict_after: &HashChunkDict,
    listed: &Vec<Arc<BlobInfo>>,
    inner_idx: u32,
    recorded: Option<u32>,
    recorded_after: Option<u32>,
    j: int,
)
    requires
        0 <= n <= original.global_dict().spec_blobs().len(),
        extended.extended_from_dict(&original, *ctx, n),
        call_ensures(BlobManager::get_blobs, (&extended,), after),
        after@.len() <= u32::MAX,
        call_ensures(BlobManager::get_chunk_dict, (&original,), dict),
        call_ensures(BlobManager::get_chunk_dict, (&extended,), dict_after),
        call_ensures(HashChunkDict::get_blobs, (dict,), listed),
        call_ensures(HashChunkDict::get_real_blob_idx, (dict, inner_idx), recorded),
        call_ensures(HashChunkDict::get_real_blob_idx, (dict_after, inner_idx), recorded_after),
    ensures
        (forall|k: int| 0 <= k < n ==> (#[trigger] listed@[k]).blob_index != inner_idx)
            ==> recorded_after == recorded,
        0 <= j < n && listed@[j].blob_index == inner_idx && (forall|k: int|
            j < k < n ==> (#[trigger] listed@[k]).blob_index != inner_idx) ==> {
            &&& recorded_after is Some
            &&& recorded_after->Some_0 < after@.len()
            &&& after@[recorded_after->Some_0 as int].blob_id@ == listed@[j].blob_id@
            &&& forall|i: int|
                0 <= i < recorded_after->Some_0 ==> (#[trigger] after@[i]).blob_id@
                    != listed@[j].blob_id@
        },
{
    let indices = original.global_dict().real_indices();
    let all = blob_ids(extended.spec_blobs());
    let done = listed@.take(n);
    lemma_assigned(indices, all, done, inner_idx);
    assert(forall|k: int| 0 <= k < n ==> done[k] == listed@[k]);
    if forall|k: int| 0 <= k < n ==> (#[trigger] listed@[k]).blob_index != inner_idx {
        assert forall|k: int| 0 <= k < done.len() implies (#[trigger] done[k]).blob_index
            != inner_idx by {
            assert(done[k] == listed@[k]);
        }
    }
    if 0 <= j < n && listed@[j].blob_index == inner_idx && (forall|k: int|
        j < k < n ==> (#[trigger] listed@[k]).blob_index != inner_idx) {
        let id = listed@[j].blob_id@;
        assert forall|k: int| j < k < done.len() implies (#[trigger] done[k]).blob_index
            != inner_idx by {
            assert(done[k] == listed@[k]);
        }
        assert(done[j].blob_index == inner_idx);
        lemma_extended_ids(blob_ids(original.spec_blobs()), dict_ids(done));
        assert(dict_ids(done)[j] == id);
        all.index_of_first_ensures(id);
        let first = all.index_of_first(id).unwrap();
        assert(*after@[first] == extended.spec_blobs()[first]);
        assert(all[first] == id);
        assert forall|i: int| 0 <= i < first implies (#[trigger] after@[i]).blob_id@ != id by {
            assert(*after@[i] == extended.spec_blobs()[i]);
            assert(all[i] == after@[i].blob_id@);
        }
    }
}

/// A failure means that no index is left: there are 256 blobs, or as many as there were if that is
/// more. It comes at a blob of the dictionary that is not in the list. The blobs of the dictionary
/// before that one are listed and the index of each is recorded as after a success; that one and
/// those behind it are not dealt with, and what was recorded for other indices stays.
pub proof fn law_failure_comes_when_no_index_is_left<Z>(
    manager: &mut BlobManager,
    extended: BlobManager,
    ctx: &BuildContext<Z>,
    error: BuildError,
    before: Vec<&BlobContext>,
    after: Vec<&BlobContext>,
    dict: &HashChunkDict,
    dict_after: &HashChunkDict,
    listed: &Vec<Arc<BlobInfo>>,
    inner_idx: u32,
    recorded: Option<u32>,
    recorded_after: Option<u32>,
    j: int,
) -> (n: int)
    requires
        extended == *final(manager),
        call_ensures(
            BlobManager::extend_blob_table_from_chunk_dict::<Z>,
            (manager, ctx),
            Err(error),
        ),
        call_ensures(BlobManager::get_blobs, (&*old(manager),), before),
        call_ensures(BlobManager::get_blobs, (&extended,), after),
        after@.len() <= u32::MAX,
        call_ensures(BlobManager::get_chunk_dict, (&*old(manager),), dict),
        call_ensures(BlobManager::get_chunk_dict, (&extended,), dict_after),
        call_ensures(HashChunkDict::get_blobs, (dict,), listed),
        call_ensures(HashChunkDict::get_real_blob_idx, (dict, inner_idx), recorded),
        call_ensures(HashChunkDict::get_real_blob_idx, (dict_after, inner_idx), recorded_after),
    ensures
        error == BuildError::TooManyBlobs,
        before@.len() <= 256 ==> after@.len() == 256,
        before@.len() > 256 ==> after@.len() == before@.len(),
        0 <= n < listed@.len(),
        !has_id(after@, listed@[n].blob_id@),
        forall|k: int| 0 <= k < n ==> has_id(after@, (#[trigger] listed@[k]).blob_id@),
        (forall|k: int| 0 <= k < n ==> (#[trigger] listed@[k]).blob_index != inner_idx)
            ==> recorded_after == recorded,
        0 <= j < n && listed@[j].blob_index == inner_idx && (forall|k: int|
            j < k < n ==> (#[trigger] listed@[k]).blob_index != inner_idx) ==> {
            &&& recorded_after is Some
            &&& recorded_after->Some_0 < after@.len()
            &&& after@[recorded_after->Some_0 as int].blob_id@ == listed@[j].blob_id@
            &&& forall|i: int|
                0 <= i < recorded_after->Some_0 ==> (#[trigger] after@[i]).blob_id@
                    != listed@[j].blob_id@
        },
{
    let n = lemma_dealt_with(manager, extended, ctx, Err(error));
    let all = blob_ids(extended.spec_blobs());
    let done = listed@.take(n);
    lemma_recorded(
        *old(manager),
        extended,
        ctx,
        n,
        after,
        dict,
        dict_after,
        listed,
        inner_idx,
        recorded,
        recorded_after,
        j,
    );
    lemma_extended_ids(blob_ids(old(manager).spec_blobs()), dict_ids(done));
    if has_id(after@, listed@[n].blob_id@) {
        let i = choose|i: int|
            0 <= i < after@.len() && (#[trigger] after@[i]).blob_id@ == listed@[n].blob_id@;
        assert(*after@[i] == extended.spec_blobs()[i]);
        assert(all[i] == listed@[n].blob_id@);
    }
    assert forall|k: int| 0 <= k < n implies has_id(after@, (#[trigger] listed@[k]).blob_id@) by {
        assert(dict_ids(done)[k] == listed@[k].blob_id@);
        let i = choose|i: int| 0 <= i < all.len() && all[i] == listed@[k].blob_id@;
        assert(*after@[i] == extended.spec_blobs()[i]);
        assert(after@[i].blob_id@ == listed@[k].blob_id@);
    }
    n
}

/// A blob that was added from the dictionary is listed in the blob table of the build with the
/// sizes and the chunks of the first blob of the dictionary with its id, and in version 6 with
/// where its chunk information is stored.
pub proof fn law_dictionary_blob_is_carried_over<Z>(
    manager: &mut BlobManager,
    extended: BlobManager,
    ctx: &BuildContext<Z>,
    result: Result<(), BuildError>,
    count: usize,
    dict: &HashChunkDict,
    listed: &Vec<Arc<BlobInfo>>,
    table: RafsBlobTable,
    i: int,
    j: int,
)
    requires
        extended == *final(manager),
        call_ensures(BlobManager::len, (&*old(manager),), count),
        call_ensures(BlobManager::get_chunk_dict, (&*old(manager),), dict),
        call_ensures(HashChunkDict::get_blobs, (dict,), listed),
        call_ensures(BlobManager::extend_blob_table_from_chunk_dict::<Z>, (manager, ctx), result),
        call_ensures(BlobManager::to_blob_table::<Z>, (&extended, ctx), Ok(table)),
        count <= i < entries_of(table).len(),
        first_with_id(listed@, entries_of(table)[i].blob_id@, j),
    ensures
        entries_of(table)[i].prefetch_size == listed@[j].prefetch_size,
        entries_of(table)[i].chunk_size == listed@[j].chunk_size,
        entries_of(table)[i].chunk_count == listed@[j].chunk_count,
        entries_of(table)[i].uncompressed_size == listed@[j].uncompressed_size,
        entries_of(table)[i].compressed_size == listed@[j].compressed_size,
        table is V6 && listed@[j].meta_ci_is_valid ==> {
            &&& headers_of(table)[i].aligned_4k
            &&& headers_of(table)[i].ci_compressor == listed@[j].meta_ci_compressor
            &&& headers_of(table)[i].ci_entries == listed@[j].chunk_count
            &&& headers_of(table)[i].ci_compressed_offset == listed@[j].meta_ci_offset
            &&& headers_of(table)[i].ci_compressed_size == listed@[j].meta_ci_compressed_size
            &&& headers_of(table)[i].ci_uncompressed_size == listed@[j].meta_ci_uncompressed_size
        },
{
    let n = lemma_dealt_with(manager, extended, ctx, result);
    assert(entries_of(table)[i] == table.entry(i));
    lemma_added_blob(*old(manager), extended, *ctx, n, i);
    let blob = extended.spec_blobs()[i];
    let found = dict_ids(listed@.take(n)).index_of_first(blob.blob_id@).unwrap();
    assert(table.entry(i).is_entry_of(blob, *ctx));
    if found < j {
        assert(listed@[found].blob_id@ != blob.blob_id@);
    } else if j < found {
        assert(listed@[j].blob_id@ != blob.blob_id@);
    }
    if table is V6 {
        assert(table->V6_0.entries@[i].1 == blob.blob_meta_header);
    }
}

} // verus!
