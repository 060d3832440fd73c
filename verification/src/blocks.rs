//! The model of the partly used metadata blocks, and the laws of allocating from them.
//!
//! A metadata block holds `EROFS_BLOCK_SIZE` bytes and is filled from its start. What is left of
//! a partly used block is its tail, counted in whole inode slots. The blocks are kept in one
//! first-in first-out list per tail length: the block at offset `base` in list `idx` has its last
//! `idx` slots free.
use vstd::prelude::*;
use crate::align::ceil_div;

verus! {

/// Size of a metadata block.
pub const EROFS_BLOCK_SIZE: u64 = 4096;

/// Size of an inode slot.
pub const EROFS_INODE_SLOT_SIZE: usize = 32;

/// Number of lists: one per number of free slots, from none to all but one.
pub const SLOTS_PER_BLOCK: usize = 128;

/// There is one list per tail length, and every listed offset is the start of a block.
pub open spec fn lists_valid(lists: Seq<Seq<u64>>) -> bool {
    &&& lists.len() == SLOTS_PER_BLOCK
    &&& forall|i: int, k: int|
        0 <= i < lists.len() && 0 <= k < lists[i].len() ==> #[trigger] lists[i][k]
            % EROFS_BLOCK_SIZE == 0
}

/// Number of slots that `size` bytes take up.
pub open spec fn slots_for(size: int) -> int {
    ceil_div(size, EROFS_INODE_SLOT_SIZE as int)
}

/// Number of whole slots between `offset` and the end of its block.
pub open spec fn tail_slots(offset: int) -> int {
    (EROFS_BLOCK_SIZE - offset % EROFS_BLOCK_SIZE as int) / EROFS_INODE_SLOT_SIZE as int
}

/// Where the free tail of the block at `base` starts if it has `idx` slots.
pub open spec fn tail_start(base: int, idx: int) -> int {
    base + EROFS_BLOCK_SIZE - idx * EROFS_INODE_SLOT_SIZE
}

/// The lists after the block that `offset` lies in has been added, with everything from `offset`
/// on free. A block boundary leaves nothing to add.
pub open spec fn with_block(lists: Seq<Seq<u64>>, offset: int) -> Seq<Seq<u64>> {
    if offset % EROFS_BLOCK_SIZE as int == 0 {
        lists
    } else {
        let idx = tail_slots(offset);
        lists.update(idx, lists[idx].push((offset - offset % EROFS_BLOCK_SIZE as int) as u64))
    }
}

/// Whether `size` bytes are allocated from list `idx`: the request is smaller than a block, and
/// this is the list with the shortest tails that are long enough, of those that are not empty.
pub open spec fn is_best_fit(lists: Seq<Seq<u64>>, size: int, idx: int) -> bool {
    &&& size < EROFS_BLOCK_SIZE
    &&& slots_for(size) <= idx < lists.len()
    &&& lists[idx].len() > 0
    &&& forall|j: int| slots_for(size) <= j < idx ==> #[trigger] lists[j].len() == 0
}

/// The list from which `size` bytes are allocated, if there is one.
pub open spec fn best_fit(lists: Seq<Seq<u64>>, size: int) -> Option<int> {
    if exists|idx: int| is_best_fit(lists, size, idx) {
        Some(choose|idx: int| is_best_fit(lists, size, idx))
    } else {
        None
    }
}

/// The offset that a request for `size` bytes is given, or 0 if no block has room for it.
pub open spec fn allocated_offset(lists: Seq<Seq<u64>>, size: int) -> int {
    match best_fit(lists, size) {
        Some(idx) => tail_start(lists[idx][0] as int, idx),
        None => 0,
    }
}

/// The lists after a request for `size` bytes: the block that served it, the oldest of its list,
/// moves to the list of the tail that is left of it.
pub open spec fn allocated_lists(lists: Seq<Seq<u64>>, size: int) -> Seq<Seq<u64>> {
    match best_fit(lists, size) {
        Some(idx) => with_block(
            lists.update(idx, lists[idx].skip(1)),
            allocated_offset(lists, size) + slots_for(size) * EROFS_INODE_SLOT_SIZE,
        ),
        None => lists,
    }
}

/// Whether the end of the slots given to a request for `size` bytes is a 64-bit offset.
pub open spec fn allocation_in_range(lists: Seq<Seq<u64>>, size: int) -> bool {
    forall|idx: int| #[trigger]
        is_best_fit(lists, size, idx) ==> tail_start(lists[idx][0] as int, idx) + slots_for(size)
            * EROFS_INODE_SLOT_SIZE <= u64::MAX
}

/// Total number of free slots in the first `n` lists.
pub open spec fn slots_below(lists: Seq<Seq<u64>>, n: int) -> int
    decreases n,
{
    if n <= 0 {
        0
    } else {
        slots_below(lists, n - 1) + (n - 1) * lists[n - 1].len()
    }
}

/// Total number of free slots.
pub open spec fn free_slots(lists: Seq<Seq<u64>>) -> int {
    slots_below(lists, lists.len() as int)
}

/// No block is listed twice.
pub open spec fn blocks_distinct(lists: Seq<Seq<u64>>) -> bool {
    forall|i: int, k: int, j: int, l: int|
        0 <= i < lists.len() && 0 <= k < lists[i].len() && 0 <= j < lists.len() && 0 <= l
            < lists[j].len() && #[trigger] lists[i][k] == #[trigger] lists[j][l] ==> i == j && k
            == l
}

/// No listed tail overlaps the bytes from `start` to `end`.
pub open spec fn no_tail_overlaps(lists: Seq<Seq<u64>>, start: int, end: int) -> bool {
    forall|i: int, k: int|
        0 <= i < lists.len() && 0 <= k < lists[i].len() ==> {
            let base = #[trigger] lists[i][k];
            base + EROFS_BLOCK_SIZE <= start || end <= tail_start(base as int, i)
        }
}

/// No block is listed at `base`.
pub open spec fn block_unlisted(lists: Seq<Seq<u64>>, base: int) -> bool {
    forall|i: int, k: int|
        0 <= i < lists.len() && 0 <= k < lists[i].len() ==> #[trigger] lists[i][k] != base
}

/// There is at most one list from which a request is served.
pub proof fn lemma_best_fit(lists: Seq<Seq<u64>>, size: int, idx: int)
    requires
        is_best_fit(lists, size, idx),
    ensures
        best_fit(lists, size) == Some(idx),
{
    let other = best_fit(lists, size).unwrap();
    assert(is_best_fit(lists, size, other));
    if other < idx {
        assert(lists[other].len() == 0);
    } else if idx < other {
        assert(lists[idx].len() == 0);
    }
}

/// A request that no list is found for is as large as a block or finds all lists of long enough
/// tails empty.
pub proof fn lemma_no_best_fit(lists: Seq<Seq<u64>>, size: int, from: int)
    requires
        best_fit(lists, size) is None,
        slots_for(size) <= from,
        forall|j: int| slots_for(size) <= j < from ==> #[trigger] lists[j].len() == 0,
    ensures
        size >= EROFS_BLOCK_SIZE || forall|j: int|
            slots_for(size) <= j < lists.len() ==> #[trigger] lists[j].len() == 0,
    decreases lists.len() - from,
{
    if size < EROFS_BLOCK_SIZE && from < lists.len() {
        assert(!is_best_fit(lists, size, from));
        lemma_no_best_fit(lists, size, from + 1);
    }
}

proof fn lemma_slots_below_update(lists: Seq<Seq<u64>>, idx: int, list: Seq<u64>, n: int)
    requires
        0 <= idx < lists.len(),
        0 <= n <= lists.len(),
    ensures
        slots_below(lists.update(idx, list), n) == slots_below(lists, n) + if idx < n {
            idx * (list.len() - lists[idx].len())
        } else {
            0
        },
    decreases n,
{
    if n > 0 {
        lemma_slots_below_update(lists, idx, list, n - 1);
        if idx == n - 1 {
            assert(idx * (list.len() - lists[idx].len()) == idx * list.len() - idx
                * lists[idx].len()) by (nonlinear_arith);
        }
    }
}

/// Adding a block adds the whole slots of its tail, which lies between `offset` and the end of
/// the block and starts less than a slot after `offset`, and leaves every other block alone.
pub proof fn law_added_tail_is_free(lists: Seq<Seq<u64>>, offset: u64)
    requires
        lists_valid(lists),
    ensures
        lists_valid(with_block(lists, offset as int)),
        offset % EROFS_BLOCK_SIZE == 0 ==> with_block(lists, offset as int) == lists,
        offset % EROFS_BLOCK_SIZE != 0 ==> {
            let base = offset - offset % EROFS_BLOCK_SIZE;
            let idx = tail_slots(offset as int);
            &&& 0 <= idx < SLOTS_PER_BLOCK
            &&& with_block(lists, offset as int)[idx].last() == base
            &&& offset <= tail_start(base, idx) < offset + EROFS_INODE_SLOT_SIZE
            &&& tail_start(base, idx) + idx * EROFS_INODE_SLOT_SIZE == base + EROFS_BLOCK_SIZE
            &&& free_slots(with_block(lists, offset as int)) == free_slots(lists) + idx
        },
{
    if offset % EROFS_BLOCK_SIZE != 0 {
        let idx = tail_slots(offset as int);
        let list = lists[idx].push((offset - offset % EROFS_BLOCK_SIZE) as u64);
        lemma_slots_below_update(lists, idx, list, lists.len() as int);
        assert(idx * 1 == idx);
    }
}

/// A request is given the start of a listed tail, and that tail is long enough for it: what is
/// returned and the bytes after it lie in one block.
pub proof fn law_allocation_lies_in_a_free_tail(lists: Seq<Seq<u64>>, size: u64)
    requires
        lists_valid(lists),
        best_fit(lists, size as int) is Some,
    ensures
        ({
            let idx = best_fit(lists, size as int).unwrap();
            let base = lists[idx][0];
            let r = allocated_offset(lists, size as int);
            &&& 0 <= idx < SLOTS_PER_BLOCK
            &&& lists[idx].len() > 0
            &&& r == tail_start(base as int, idx)
            &&& base < r
            &&& r + size <= r + slots_for(size as int) * EROFS_INODE_SLOT_SIZE <= base
                + EROFS_BLOCK_SIZE
        }),
{
    assert(is_best_fit(lists, size as int, best_fit(lists, size as int).unwrap()));
}

/// A request is refused, with offset 0, exactly if it is as large as a block or every listed tail
/// is too short for it; then nothing changes.
pub proof fn law_refused_only_without_room(lists: Seq<Seq<u64>>, size: u64)
    requires
        lists_valid(lists),
    ensures
        allocated_offset(lists, size as int) == 0 <==> {
            ||| size >= EROFS_BLOCK_SIZE
            ||| forall|i: int|
                0 <= i < lists.len() && #[trigger] lists[i].len() > 0 ==> i
                    * EROFS_INODE_SLOT_SIZE < size
        },
        allocated_offset(lists, size as int) == 0 ==> allocated_lists(lists, size as int) == lists,
{
    if best_fit(lists, size as int) is None {
        lemma_no_best_fit(lists, size as int, slots_for(size as int));
    } else {
        law_allocation_lies_in_a_free_tail(lists, size);
        let idx = best_fit(lists, size as int).unwrap();
        assert(lists[idx].len() > 0 && idx * EROFS_INODE_SLOT_SIZE >= size);
    }
}

/// The block that serves a request is the oldest one of those with the shortest tail that is long
/// enough.
pub proof fn law_shortest_tail_oldest_block_first(lists: Seq<Seq<u64>>, size: u64)
    requires
        lists_valid(lists),
        best_fit(lists, size as int) is Some,
    ensures
        ({
            let idx = best_fit(lists, size as int).unwrap();
            &&& allocated_offset(lists, size as int) == tail_start(lists[idx][0] as int, idx)
            &&& forall|i: int|
                0 <= i < lists.len() && #[trigger] lists[i].len() > 0 && size <= i
                    * EROFS_INODE_SLOT_SIZE ==> idx <= i
        }),
{
    assert(is_best_fit(lists, size as int, best_fit(lists, size as int).unwrap()));
}

/// Taking the oldest block out of a list keeps the lists valid.
pub proof fn lemma_popped_lists_valid(lists: Seq<Seq<u64>>, idx: int)
    requires
        lists_valid(lists),
        0 <= idx < lists.len(),
        lists[idx].len() > 0,
    ensures
        lists_valid(lists.update(idx, lists[idx].skip(1))),
{
    let popped = lists.update(idx, lists[idx].skip(1));
    assert forall|i: int, k: int| 0 <= i < popped.len() && 0 <= k < popped[i].len() implies (
    #[trigger] popped[i][k]) % EROFS_BLOCK_SIZE == 0 by {
        if i == idx {
            assert(popped[i][k] == lists[i][k + 1]);
        } else {
            assert(popped[i][k] == lists[i][k]);
        }
    }
}

/// What is left of a tail of `idx` slots in the block at `base` once `taken` slots are gone.
proof fn lemma_rest_of_tail(base: u64, idx: int, taken: int)
    requires
        base % EROFS_BLOCK_SIZE == 0,
        0 <= taken <= idx < SLOTS_PER_BLOCK,
    ensures
        ({
            let end = tail_start(base as int, idx) + taken * EROFS_INODE_SLOT_SIZE;
            if taken == idx {
                end == base + EROFS_BLOCK_SIZE && end % EROFS_BLOCK_SIZE as int == 0
            } else {
                &&& end % EROFS_BLOCK_SIZE as int != 0
                &&& end - end % EROFS_BLOCK_SIZE as int == base
                &&& tail_slots(end) == idx - taken
            }
        }),
{
}

/// Serving a request keeps the lists valid and takes exactly the slots that the request needs out
/// of the free ones.
#[verifier::rlimit(40)]
pub proof fn law_allocation_takes_its_slots(lists: Seq<Seq<u64>>, size: u64)
    requires
        lists_valid(lists),
        allocation_in_range(lists, size as int),
    ensures
        lists_valid(allocated_lists(lists, size as int)),
        free_slots(allocated_lists(lists, size as int)) == free_slots(lists) - if best_fit(
            lists,
            size as int,
        ) is Some {
            slots_for(size as int)
        } else {
            0
        },
{
    if best_fit(lists, size as int) is Some {
        let idx = best_fit(lists, size as int).unwrap();
        assert(is_best_fit(lists, size as int, idx));
        let taken = slots_for(size as int);
        let base = lists[idx][0];
        let rest = lists[idx].skip(1);
        let popped = lists.update(idx, rest);
        let end = tail_start(base as int, idx) + taken * EROFS_INODE_SLOT_SIZE;
        assert(end <= u64::MAX);
        assert(allocated_lists(lists, size as int) == with_block(popped, end));
        lemma_popped_lists_valid(lists, idx);
        lemma_rest_of_tail(base, idx, taken);
        assert(free_slots(popped) == free_slots(lists) - idx) by {
            lemma_slots_below_update(lists, idx, rest, lists.len() as int);
            assert(idx * (rest.len() - lists[idx].len()) == -idx) by (nonlinear_arith)
                requires
                    rest.len() == lists[idx].len() - 1,
            ;
        }
        law_added_tail_is_free(popped, end as u64);
    }
}

/// Space that was added can be allocated: a request that fits the added tail is not refused.
pub proof fn law_added_space_can_be_allocated(lists: Seq<Seq<u64>>, offset: u64, size: u64)
    requires
        lists_valid(lists),
        offset % EROFS_BLOCK_SIZE != 0,
        size <= tail_slots(offset as int) * EROFS_INODE_SLOT_SIZE,
    ensures
        allocated_offset(with_block(lists, offset as int), size as int) != 0,
{
    law_added_tail_is_free(lists, offset);
    let idx = tail_slots(offset as int);
    let after = with_block(lists, offset as int);
    assert(after[idx].len() > 0);
    law_refused_only_without_room(after, size);
}

/// Adding a block that is not listed keeps the listed blocks distinct.
pub proof fn law_adding_keeps_blocks_distinct(lists: Seq<Seq<u64>>, offset: u64)
    requires
        lists_valid(lists),
        blocks_distinct(lists),
        block_unlisted(lists, offset - offset % EROFS_BLOCK_SIZE),
    ensures
        blocks_distinct(with_block(lists, offset as int)),
{
    if offset % EROFS_BLOCK_SIZE != 0 {
        let idx = tail_slots(offset as int);
        let after = with_block(lists, offset as int);
        assert forall|i: int, k: int, j: int, l: int|
            0 <= i < after.len() && 0 <= k < after[i].len() && 0 <= j < after.len() && 0 <= l
                < after[j].len() && #[trigger] after[i][k] == #[trigger] after[j][l] implies i == j
            && k == l by {
            let new_ik = i == idx && k == lists[idx].len();
            let new_jl = j == idx && l == lists[idx].len();
            if !new_ik {
                assert(after[i][k] == lists[i][k]);
            }
            if !new_jl {
                assert(after[j][l] == lists[j][l]);
            }
        }
    }
}

/// Nothing is handed out twice: if the listed blocks are distinct, they still are after a request
/// has been served, and no tail that is still listed overlaps the slots that were handed out.
#[verifier::rlimit(40)]
pub proof fn law_nothing_is_allocated_twice(lists: Seq<Seq<u64>>, size: u64)
    requires
        lists_valid(lists),
        blocks_distinct(lists),
        best_fit(lists, size as int) is Some,
        allocation_in_range(lists, size as int),
    ensures
        blocks_distinct(allocated_lists(lists, size as int)),
        no_tail_overlaps(
            allocated_lists(lists, size as int),
            allocated_offset(lists, size as int),
            allocated_offset(lists, size as int) + slots_for(size as int) * EROFS_INODE_SLOT_SIZE,
        ),
{
    law_allocation_lies_in_a_free_tail(lists, size);
    let idx = best_fit(lists, size as int).unwrap();
    assert(is_best_fit(lists, size as int, idx));
    let served = lists[idx][0];
    let popped = lists.update(idx, lists[idx].skip(1));
    let r = allocated_offset(lists, size as int);
    let end = r + slots_for(size as int) * EROFS_INODE_SLOT_SIZE;
    let after = allocated_lists(lists, size as int);

    assert forall|i: int, k: int| 0 <= i < popped.len() && 0 <= k < popped[i].len() implies {
        &&& #[trigger] popped[i][k] == lists[i][if i == idx { k + 1 } else { k }]
        &&& popped[i][k] != served
        &&& popped[i][k] % EROFS_BLOCK_SIZE == 0
    } by {
        let m = if i == idx { k + 1 } else { k };
        assert(popped[i][k] == lists[i][m]);
        if lists[i][m] == lists[idx][0] {
            assert(false);
        }
    }
    lemma_popped_lists_valid(lists, idx);
    assert(blocks_distinct(popped)) by {
        assert forall|i: int, k: int, j: int, l: int|
            0 <= i < popped.len() && 0 <= k < popped[i].len() && 0 <= j < popped.len() && 0 <= l
                < popped[j].len() && #[trigger] popped[i][k] == #[trigger] popped[j][l] implies i
            == j && k == l by {
            assert(lists[i][if i == idx { k + 1 } else { k }] == lists[j][if j == idx {
                l + 1
            } else {
                l
            }]);
        }
    }
    lemma_rest_of_tail(served, idx, slots_for(size as int));
    if end % EROFS_BLOCK_SIZE as int != 0 {
        assert(block_unlisted(popped, served as int));
        law_adding_keeps_blocks_distinct(popped, end as u64);
    }
    assert forall|i: int, k: int| 0 <= i < after.len() && 0 <= k < after[i].len() implies {
        let base = #[trigger] after[i][k];
        base + EROFS_BLOCK_SIZE <= r || end <= tail_start(base as int, i)
    } by {
        let left = tail_slots(end);
        if end % EROFS_BLOCK_SIZE as int != 0 && i == left && k == popped[left].len() {
            assert(after[i][k] == served);
        } else {
            assert(after[i][k] == popped[i][k]);
        }
    }
}

/// What has been handed out stays handed out: bytes that no listed tail overlaps are not given to
/// a request, and no tail that is listed after the request overlaps them.
#[verifier::rlimit(40)]
pub proof fn law_allocated_space_stays_allocated(
    lists: Seq<Seq<u64>>,
    size: u64,
    start: int,
    end: int,
)
    requires
        lists_valid(lists),
        allocation_in_range(lists, size as int),
        no_tail_overlaps(lists, start, end),
    ensures
        no_tail_overlaps(allocated_lists(lists, size as int), start, end),
        best_fit(lists, size as int) is Some ==> {
            let r = allocated_offset(lists, size as int);
            r + slots_for(size as int) * EROFS_INODE_SLOT_SIZE <= start || end <= r
        },
{
    if best_fit(lists, size as int) is Some {
        law_allocation_lies_in_a_free_tail(lists, size);
        let idx = best_fit(lists, size as int).unwrap();
        assert(is_best_fit(lists, size as int, idx));
        let taken = slots_for(size as int);
        let served = lists[idx][0];
        let popped = lists.update(idx, lists[idx].skip(1));
        let used = tail_start(served as int, idx) + taken * EROFS_INODE_SLOT_SIZE;
        let after = allocated_lists(lists, size as int);
        lemma_rest_of_tail(served, idx, taken);
        assert(after == with_block(popped, used));
        assert forall|i: int, k: int| 0 <= i < after.len() && 0 <= k < after[i].len() implies {
            let base = #[trigger] after[i][k];
            base + EROFS_BLOCK_SIZE <= start || end <= tail_start(base as int, i)
        } by {
            if taken < idx && i == idx - taken && k == popped[i].len() {
                assert(after[i][k] == served);
            } else {
                assert(after[i][k] == popped[i][k]);
                if i == idx {
                    assert(popped[i][k] == lists[i][k + 1]);
                } else {
                    assert(popped[i][k] == lists[i][k]);
                }
            }
        }
    }
}

/// Adding a block whose tail lies apart from some bytes keeps the tails apart from them.
pub proof fn law_adding_keeps_tails_apart(
    lists: Seq<Seq<u64>>,
    offset: u64,
    start: int,
    end: int,
)
    requires
        lists_valid(lists),
        no_tail_overlaps(lists, start, end),
        end <= offset || offset - offset % EROFS_BLOCK_SIZE + EROFS_BLOCK_SIZE <= start,
    ensures
        no_tail_overlaps(with_block(lists, offset as int), start, end),
{
    if offset % EROFS_BLOCK_SIZE != 0 {
        law_added_tail_is_free(lists, offset);
        let idx = tail_slots(offset as int);
        let after = with_block(lists, offset as int);
        assert forall|i: int, k: int| 0 <= i < after.len() && 0 <= k < after[i].len() implies {
            let base = #[trigger] after[i][k];
            base + EROFS_BLOCK_SIZE <= start || end <= tail_start(base as int, i)
        } by {
            if !(i == idx && k == lists[idx].len()) {
                assert(after[i][k] == lists[i][k]);
            }
        }
    }
}

/// Only the last block that a 64-bit offset reaches can take an allocation out of range: as long as
/// that block is not listed, every request can be made.
pub proof fn law_only_the_last_block_is_out_of_range(lists: Seq<Seq<u64>>, size: u64)
    requires
        lists_valid(lists),
        block_unlisted(lists, u64::MAX - (EROFS_BLOCK_SIZE - 1)),
    ensures
        allocation_in_range(lists, size as int),
{
    assert forall|idx: int| #[trigger] is_best_fit(lists, size as int, idx) implies tail_start(
        lists[idx][0] as int,
        idx,
    ) + slots_for(size as int) * EROFS_INODE_SLOT_SIZE <= u64::MAX by {
        let base = lists[idx][0];
        assert(base % EROFS_BLOCK_SIZE == 0);
        assert(base != u64::MAX - (EROFS_BLOCK_SIZE - 1));
        lemma_rest_of_tail(base, idx, slots_for(size as int));
        assert(base + EROFS_BLOCK_SIZE <= u64::MAX);
    }
}

} // verus!
