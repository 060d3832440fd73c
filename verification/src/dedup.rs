//! The model of adding the blobs of a chunk dictionary to a list of blobs, and its laws.
use std::sync::Arc;
use vstd::prelude::*;
use crate::blob::{BlobContext, ChunkSource};
use crate::blob_meta::BlobInfo;
use crate::build_context::BuildContext;

verus! {

/// Number of blobs that an image can hold: Rafs v6 only supports 256 blobs.
pub const MAX_BLOB_COUNT: usize = 256;

/// The ids of `blobs`.
pub open spec fn blob_ids(blobs: Seq<BlobContext>) -> Seq<Seq<char>> {
    Seq::new(blobs.len(), |i: int| blobs[i].blob_id@)
}

/// The ids of the blobs of a dictionary.
pub open spec fn dict_ids(dict: Seq<Arc<BlobInfo>>) -> Seq<Seq<char>> {
    Seq::new(dict.len(), |i: int| dict[i].blob_id@)
}

/// `ids` with each id of `more` that is not there yet appended, in order.
pub open spec fn extended_ids(ids: Seq<Seq<char>>, more: Seq<Seq<char>>) -> Seq<Seq<char>>
    decreases more.len(),
{
    if more.len() == 0 {
        ids
    } else {
        let before = extended_ids(ids, more.drop_last());
        if before.contains(more.last()) {
            before
        } else {
            before.push(more.last())
        }
    }
}

/// Whether there is an index for every blob that has to be added.
pub open spec fn extension_possible(ids: Seq<Seq<char>>, more: Seq<Seq<char>>) -> bool {
    extended_ids(ids, more) == ids || extended_ids(ids, more).len() <= MAX_BLOB_COUNT
}

/// Number of blobs once no index is left, if there were `before` blobs at first.
pub open spec fn full_len(before: nat) -> nat {
    if before > MAX_BLOB_COUNT {
        before
    } else {
        MAX_BLOB_COUNT as nat
    }
}

/// Whether the blob at position `n` of `dict` is the one at which adding the blobs of `dict` stops:
/// it is not there yet, and no index is left for it once those before it have been added.
pub open spec fn extension_stops_at(
    ids: Seq<Seq<char>>,
    dict: Seq<Arc<BlobInfo>>,
    n: int,
) -> bool {
    let reached = extended_ids(ids, dict_ids(dict.take(n)));
    &&& 0 <= n < dict.len()
    &&& reached.len() == full_len(ids.len())
    &&& !reached.contains(dict[n].blob_id@)
}

/// Whether `after` is `before` with the blobs of `dict` added that were not there yet. What was
/// there keeps its place, and an added blob is taken over from the first blob of the dictionary
/// that has its id.
pub open spec fn is_extension<Z>(
    after: Seq<BlobContext>,
    before: Seq<BlobContext>,
    ctx: BuildContext<Z>,
    dict: Seq<Arc<BlobInfo>>,
) -> bool {
    &&& blob_ids(after) == extended_ids(blob_ids(before), dict_ids(dict))
    &&& before.len() <= after.len()
    &&& forall|i: int| 0 <= i < before.len() ==> #[trigger] after[i] == before[i]
    &&& forall|i: int|
        before.len() <= i < after.len() ==> {
            let j = dict_ids(dict).index_of_first((#[trigger] after[i]).blob_id@);
            j is Some && after[i].taken_over(ctx, *dict[j.unwrap()], ChunkSource::Dict)
        }
}

/// `indices` after each blob of `dict`, in order, has been assigned the index of its id in `ids`.
pub open spec fn assigned_indices(
    indices: Map<u32, u32>,
    ids: Seq<Seq<char>>,
    dict: Seq<Arc<BlobInfo>>,
) -> Map<u32, u32>
    decreases dict.len(),
{
    if dict.len() == 0 {
        indices
    } else {
        assigned_indices(indices, ids, dict.drop_last()).insert(
            dict.last().blob_index,
            ids.index_of_first(dict.last().blob_id@).unwrap() as u32,
        )
    }
}

/// What an extension contains, and that it starts with what was there.
pub proof fn lemma_extended_ids(ids: Seq<Seq<char>>, more: Seq<Seq<char>>)
    ensures
        ids.len() <= extended_ids(ids, more).len(),
        extended_ids(ids, more).take(ids.len() as int) == ids,
        forall|i: int|
            0 <= i < ids.len() ==> #[trigger] extended_ids(ids, more)[i] == ids[i],
        forall|j: int| 0 <= j < more.len() ==> extended_ids(ids, more).contains(#[trigger] more[j]),
        forall|i: int|
            ids.len() <= i < extended_ids(ids, more).len() ==> more.contains(
                #[trigger] extended_ids(ids, more)[i],
            ),
    decreases more.len(),
{
    let after = extended_ids(ids, more);
    if more.len() > 0 {
        let rest = more.drop_last();
        let before = extended_ids(ids, rest);
        lemma_extended_ids(ids, rest);
        if !before.contains(more.last()) {
            assert(after[after.len() - 1] == more.last());
        }
        assert forall|j: int| 0 <= j < more.len() implies after.contains(#[trigger] more[j]) by {
            if j < rest.len() {
                assert(before.contains(rest[j]));
                let k = choose|k: int| 0 <= k < before.len() && before[k] == rest[j];
                assert(after[k] == more[j]);
            }
        }
        assert forall|i: int| ids.len() <= i < after.len() implies more.contains(
            #[trigger] after[i],
        ) by {
            if i < before.len() {
                assert(rest.contains(before[i]));
                let k = choose|k: int| 0 <= k < rest.len() && rest[k] == before[i];
                assert(more[k] == after[i]);
            } else {
                assert(more[more.len() - 1] == after[i]);
            }
        }
    }
    assert(after.take(ids.len() as int) =~= ids);
}

/// An extension grows with what is added.
pub proof fn lemma_extended_ids_grow(ids: Seq<Seq<char>>, more: Seq<Seq<char>>, n: int)
    requires
        0 <= n <= more.len(),
    ensures
        extended_ids(ids, more.take(n)).len() <= extended_ids(ids, more).len(),
    decreases more.len(),
{
    if n < more.len() {
        assert(more.drop_last().take(n) =~= more.take(n));
        lemma_extended_ids_grow(ids, more.drop_last(), n);
    } else {
        assert(more.take(n) =~= more);
    }
}

/// An id that is there is found at the same place after an extension.
pub proof fn lemma_index_kept(ids: Seq<Seq<char>>, added: Seq<char>, id: Seq<char>)
    requires
        ids.contains(id),
    ensures
        ids.push(added).index_of_first(id) == ids.index_of_first(id),
{
    ids.index_of_first_ensures(id);
    ids.push(added).index_of_first_ensures(id);
    let i = ids.index_of_first(id).unwrap();
    assert(ids.push(added)[i] == id);
    let j = ids.push(added).index_of_first(id).unwrap();
    if j < i {
        assert(ids.push(added)[j] == ids[j]);
    }
}

/// Adding a blob does not change the indices that have been assigned.
pub proof fn lemma_assigned_indices_kept(
    indices: Map<u32, u32>,
    ids: Seq<Seq<char>>,
    added: Seq<char>,
    dict: Seq<Arc<BlobInfo>>,
)
    requires
        forall|j: int| 0 <= j < dict.len() ==> ids.contains((#[trigger] dict[j]).blob_id@),
    ensures
        assigned_indices(indices, ids.push(added), dict) == assigned_indices(indices, ids, dict),
    decreases dict.len(),
{
    if dict.len() > 0 {
        assert forall|j: int| 0 <= j < dict.drop_last().len() implies ids.contains(
            (#[trigger] dict.drop_last()[j]).blob_id@,
        ) by {
            assert(dict.drop_last()[j] == dict[j]);
        }
        lemma_assigned_indices_kept(indices, ids, added, dict.drop_last());
        assert(ids.contains(dict[dict.len() - 1].blob_id@));
        lemma_index_kept(ids, added, dict.last().blob_id@);
    }
}

/// What was in the list keeps its place: an extension starts with the ids that were there.
pub proof fn law_extension_keeps_order(ids: Seq<Seq<char>>, more: Seq<Seq<char>>)
    ensures
        ids.len() <= extended_ids(ids, more).len(),
        extended_ids(ids, more).take(ids.len() as int) == ids,
{
    lemma_extended_ids(ids, more);
}

/// No blob is listed twice: an extension of distinct ids has distinct ids.
pub proof fn law_extension_keeps_ids_distinct(ids: Seq<Seq<char>>, more: Seq<Seq<char>>)
    requires
        ids.no_duplicates(),
    ensures
        extended_ids(ids, more).no_duplicates(),
    decreases more.len(),
{
    if more.len() > 0 {
        law_extension_keeps_ids_distinct(ids, more.drop_last());
        let before = extended_ids(ids, more.drop_last());
        if !before.contains(more.last()) {
            let after = before.push(more.last());
            assert forall|i: int, j: int|
                0 <= i < after.len() && 0 <= j < after.len() && i != j implies after[i]
                != after[j] by {
                if i < before.len() {
                    assert(before.contains(before[i]));
                }
                if j < before.len() {
                    assert(before.contains(before[j]));
                }
            }
        }
    }
}

/// Adding the same blobs again changes nothing.
pub proof fn law_extension_is_idempotent(ids: Seq<Seq<char>>, more: Seq<Seq<char>>)
    ensures
        extended_ids(extended_ids(ids, more), more) == extended_ids(ids, more),
{
    lemma_extended_ids(ids, more);
    lemma_nothing_to_add(extended_ids(ids, more), more);
}

proof fn lemma_nothing_to_add(ids: Seq<Seq<char>>, more: Seq<Seq<char>>)
    requires
        forall|j: int| 0 <= j < more.len() ==> ids.contains(#[trigger] more[j]),
    ensures
        extended_ids(ids, more) == ids,
    decreases more.len(),
{
    if more.len() > 0 {
        assert forall|j: int| 0 <= j < more.drop_last().len() implies ids.contains(
            #[trigger] more.drop_last()[j],
        ) by {
            assert(more.drop_last()[j] == more[j]);
        }
        lemma_nothing_to_add(ids, more.drop_last());
        assert(ids.contains(more[more.len() - 1]));
    }
}

/// Every id that is not there yet takes one index, however often it occurs, and an extension is
/// possible if there are indices for all of them or none is needed.
pub proof fn law_one_index_per_new_id(ids: Seq<Seq<char>>, more: Seq<Seq<char>>)
    ensures
        ({
            let added = more.to_set().difference(ids.to_set()).len();
            &&& extended_ids(ids, more).len() == ids.len() + added
            &&& extension_possible(ids, more) <==> added == 0 || ids.len() + added
                <= MAX_BLOB_COUNT
        }),
    decreases more.len(),
{
    lemma_extended_ids(ids, more);
    let added = more.to_set().difference(ids.to_set());
    if more.len() == 0 {
        assert(added =~= Set::empty());
    } else {
        let rest = more.drop_last();
        let last = more.last();
        let before = extended_ids(ids, rest);
        let added_before = rest.to_set().difference(ids.to_set());
        law_one_index_per_new_id(ids, rest);
        lemma_extended_ids(ids, rest);
        assert(more =~= rest.push(last));
        assert forall|id: Seq<char>| more.contains(id) <==> rest.contains(id) || id == last by {
            if rest.contains(id) {
                let k = choose|k: int| 0 <= k < rest.len() && rest[k] == id;
                assert(more[k] == id);
            }
            assert(more[more.len() - 1] == last);
        }
        if before.contains(last) {
            let k = choose|k: int| 0 <= k < before.len() && before[k] == last;
            if k < ids.len() {
                assert(ids[k] == last);
            } else {
                assert(rest.contains(before[k]));
            }
            assert(added =~= added_before);
        } else {
            if ids.contains(last) {
                let k = choose|k: int| 0 <= k < ids.len() && ids[k] == last;
                assert(before[k] == last);
            }
            if rest.contains(last) {
                let k = choose|k: int| 0 <= k < rest.len() && rest[k] == last;
                assert(before.contains(rest[k]));
            }
            assert(added =~= added_before.insert(last));
        }
    }
    if extended_ids(ids, more).len() == ids.len() {
        assert(extended_ids(ids, more) =~= ids);
    }
}

/// An extension that is not possible stops at some blob of the dictionary.
pub proof fn law_impossible_extension_stops(ids: Seq<Seq<char>>, dict: Seq<Arc<BlobInfo>>)
    requires
        !extension_possible(ids, dict_ids(dict)),
    ensures
        exists|n: int| #[trigger] extension_stops_at(ids, dict, n),
    decreases dict.len(),
{
    if dict.len() == 0 {
        assert(dict_ids(dict) =~= Seq::<Seq<char>>::empty());
    } else {
        let rest = dict.drop_last();
        assert(dict_ids(dict).drop_last() =~= dict_ids(rest));
        if extension_possible(ids, dict_ids(rest)) {
            lemma_extended_ids(ids, dict_ids(rest));
            assert(dict.take(dict.len() - 1) =~= rest);
            assert(extension_stops_at(ids, dict, dict.len() - 1));
        } else {
            law_impossible_extension_stops(ids, rest);
            let n = choose|n: int| #[trigger] extension_stops_at(ids, rest, n);
            assert(dict.take(n) =~= rest.take(n));
            assert(extension_stops_at(ids, dict, n));
        }
    }
}

/// An extension stops at no more than one blob of the dictionary, and at none if it is possible.
pub proof fn law_extension_stops_at_one_blob(
    ids: Seq<Seq<char>>,
    dict: Seq<Arc<BlobInfo>>,
    n: int,
    m: int,
)
    requires
        extension_stops_at(ids, dict, n),
        extension_stops_at(ids, dict, m),
    ensures
        n == m,
        !extension_possible(ids, dict_ids(dict)),
{
    lemma_longer_behind_stop(ids, dict, n, dict.len() as int);
    assert(dict.take(dict.len() as int) =~= dict);
    if n < m {
        lemma_longer_behind_stop(ids, dict, n, m);
    } else if m < n {
        lemma_longer_behind_stop(ids, dict, m, n);
    }
}

proof fn lemma_longer_behind_stop(
    ids: Seq<Seq<char>>,
    dict: Seq<Arc<BlobInfo>>,
    n: int,
    m: int,
)
    requires
        extension_stops_at(ids, dict, n),
        n < m <= dict.len(),
    ensures
        extended_ids(ids, dict_ids(dict.take(m))).len() > full_len(ids.len()),
{
    let next = dict_ids(dict.take(n + 1));
    assert(next.drop_last() =~= dict_ids(dict.take(n)));
    assert(next.last() == dict[n].blob_id@);
    assert(dict_ids(dict.take(m)).take(n + 1) =~= next);
    lemma_extended_ids_grow(ids, dict_ids(dict.take(m)), n + 1);
}

/// A blob of the dictionary stands where it has been assigned to, unless a later blob of the
/// dictionary has the same index there: the index assigned to it is that of a blob with its id in
/// the list.
pub proof fn law_assigned_index_leads_to_blob(
    indices: Map<u32, u32>,
    ids: Seq<Seq<char>>,
    dict: Seq<Arc<BlobInfo>>,
    j: int,
)
    requires
        0 <= j < dict.len(),
        ids.contains(dict[j].blob_id@),
        ids.len() <= u32::MAX,
        forall|k: int|
            j < k < dict.len() ==> (#[trigger] dict[k]).blob_index != dict[j].blob_index,
    ensures
        assigned_indices(indices, ids, dict).contains_key(dict[j].blob_index),
        ({
            let idx = assigned_indices(indices, ids, dict)[dict[j].blob_index];
            idx < ids.len() && ids[idx as int] == dict[j].blob_id@
        }),
    decreases dict.len(),
{
    let n = dict.len() - 1;
    let rest = dict.drop_last();
    if j < n {
        assert(dict[n].blob_index != dict[j].blob_index);
        assert forall|k: int| j < k < rest.len() implies (#[trigger] rest[k]).blob_index
            != rest[j].blob_index by {
            assert(rest[k] == dict[k]);
        }
        law_assigned_index_leads_to_blob(indices, ids, rest, j);
    } else {
        ids.index_of_first_ensures(dict[n].blob_id@);
    }
}

} // verus!
