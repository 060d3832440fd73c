//! Laws on the bootstrap of a build.
use vstd::prelude::*;
use crate::blocks::{
    allocated_lists, allocated_offset, is_best_fit, lemma_best_fit, slots_for, tail_slots, with_block,
};
use crate::bootstrap::{BootstrapContext, BootstrapManager, BootstrapWriter};
use crate::error::BuildError;
use crate::storage::ArtifactStorage;
use crate::writer::{ArtifactWriter, OpenAction};

verus! {

/// A new bootstrap is empty, starts behind the first block and has no partly used blocks.
pub proof fn law_new_bootstrap_is_empty<N>(
    storage: Option<ArtifactStorage>,
    layered: bool,
    fifo: bool,
    ctx: BootstrapContext<N>,
    writer: BootstrapWriter,
)
    requires
        call_ensures(BootstrapContext::<N>::new, (storage, layered, fifo), (ctx, writer)),
    ensures
        ctx.layered == layered,
        ctx.inode_map@.len() == 0,
        ctx.nodes@.len() == 0,
        ctx.offset == 4096,
        ctx.v6_available_blocks@.len() == 128,
        forall|i: int|
            0 <= i < 128 ==> (#[trigger] ctx.v6_available_blocks@[i])@ == Seq::<u64>::empty(),
{
    assert forall|i: int| 0 <= i < 128 implies (#[trigger] ctx.v6_available_blocks@[i])@ == Seq::<
        u64,
    >::empty() by {
        assert(ctx.lists()[i] == ctx.v6_available_blocks@[i]@);
    }
}

/// Without a storage a bootstrap is written to memory. With one it is written there, by a writer
/// that is opened in the way in which a writer for that storage is.
pub proof fn law_bootstrap_goes_to_its_storage<N>(
    storage: Option<ArtifactStorage>,
    layered: bool,
    fifo: bool,
    ctx: BootstrapContext<N>,
    writer: BootstrapWriter,
)
    requires
        call_ensures(BootstrapContext::<N>::new, (storage, layered, fifo), (ctx, writer)),
    ensures
        storage is None <==> writer is Memory,
        writer matches BootstrapWriter::Memory(memory) ==> memory.data().len() == 0
            && memory.position() == 0,
        writer matches BootstrapWriter::File { writer: file, open } ==> {
            &&& forall|found: &ArtifactStorage| #[trigger]
                call_ensures(ArtifactWriter::storage, (&file,), found) ==> storage == Some(*found)
            &&& forall|pos: Result<u64, BuildError>| #[trigger]
                call_ensures(ArtifactWriter::pos, (&file,), pos) ==> pos is Ok && pos->Ok_0 == 0
            &&& storage->Some_0 is SingleFile ==> open == (OpenAction::OpenFile {
                truncate: !fifo,
            })
            &&& storage->Some_0 is FileDir ==> open == OpenAction::CreateTemporary
        },
{
}

/// A manager holds what it is given.
pub proof fn law_manager_holds_storage_and_parent<R>(
    bootstrap_storage: Option<ArtifactStorage>,
    f_parent_bootstrap: Option<R>,
    manager: BootstrapManager<R>,
)
    requires
        call_ensures(
            BootstrapManager::<R>::new,
            (bootstrap_storage, f_parent_bootstrap),
            manager,
        ),
    ensures
        manager.bootstrap_storage == bootstrap_storage,
        manager.f_parent_bootstrap == f_parent_bootstrap,
{
}

/// A manager creates an empty bootstrap for its storage, which is layered exactly if there is a
/// parent.
pub proof fn law_created_bootstrap<R, N>(
    manager: &BootstrapManager<R>,
    fifo: bool,
    ctx: BootstrapContext<N>,
    writer: BootstrapWriter,
)
    requires
        call_ensures(BootstrapManager::<R>::create_ctx::<N>, (manager, fifo), (ctx, writer)),
    ensures
        ctx.layered <==> manager.f_parent_bootstrap is Some,
        ctx.inode_map@.len() == 0,
        ctx.nodes@.len() == 0,
        ctx.offset == 4096,
        ctx.v6_available_blocks@.len() == 128,
        forall|i: int|
            0 <= i < 128 ==> (#[trigger] ctx.v6_available_blocks@[i])@ == Seq::<u64>::empty(),
        manager.bootstrap_storage is None <==> writer is Memory,
        writer matches BootstrapWriter::Memory(memory) ==> memory.data().len() == 0
            && memory.position() == 0,
        writer matches BootstrapWriter::File { writer: file, open } ==> {
            &&& forall|found: &ArtifactStorage| #[trigger]
                call_ensures(ArtifactWriter::storage, (&file,), found) ==> manager.bootstrap_storage
                    == Some(*found)
            &&& forall|pos: Result<u64, BuildError>| #[trigger]
                call_ensures(ArtifactWriter::pos, (&file,), pos) ==> pos is Ok && pos->Ok_0 == 0
            &&& manager.bootstrap_storage->Some_0 is SingleFile ==> open == (OpenAction::OpenFile {
                truncate: !fifo,
            })
            &&& manager.bootstrap_storage->Some_0 is FileDir ==> open
                == OpenAction::CreateTemporary
        },
{
    assert forall|i: int| 0 <= i < 128 implies (#[trigger] ctx.v6_available_blocks@[i])@ == Seq::<
        u64,
    >::empty() by {
        assert(ctx.lists()[i] == ctx.v6_available_blocks@[i]@);
    }
}

/// Aligning moves the position to the first multiple that is not before it, and changes nothing
/// else.
pub proof fn law_aligned_offset<N>(ctx: &mut BootstrapContext<N>, align_size: u64)
    requires
        align_size != 0,
        call_ensures(BootstrapContext::<N>::align_offset, (ctx, align_size), ()),
    ensures
        final(ctx).offset % align_size == 0,
        old(ctx).offset <= final(ctx).offset,
        final(ctx).offset - old(ctx).offset < align_size,
        *final(ctx) == (BootstrapContext { offset: final(ctx).offset, ..*old(ctx) }),
{
}

/// A block that is used up to `offset` is listed with the most slots of 32 bytes that fit between
/// `offset` and its end, behind the blocks with as many. Nothing else changes.
pub proof fn law_partly_used_block_is_listed<N>(
    ctx: &mut BootstrapContext<N>,
    offset: u64,
    base: u64,
    slots: int,
)
    requires
        old(ctx).v6_available_blocks@.len() == 128,
        call_ensures(BootstrapContext::<N>::append_available_block, (ctx, offset), ()),
        base % 4096 == 0,
        base < offset < base + 4096,
        32 * slots <= base + 4096 - offset < 32 * (slots + 1),
    ensures
        0 <= slots < 128,
        final(ctx).v6_available_blocks@.len() == 128,
        final(ctx).v6_available_blocks@[slots]@ == old(ctx).v6_available_blocks@[slots]@.push(base),
        forall|k: int|
            0 <= k < 128 && k != slots ==> (#[trigger] final(ctx).v6_available_blocks@[k])@ == old(
                ctx,
            ).v6_available_blocks@[k]@,
        final(ctx).layered == old(ctx).layered,
        final(ctx).inode_map == old(ctx).inode_map,
        final(ctx).nodes == old(ctx).nodes,
        final(ctx).offset == old(ctx).offset,
{
    assert(offset % 4096 == offset - base);
    assert(tail_slots(offset as int) == slots);
    assert(final(ctx).lists().len() == 128);
    assert forall|k: int| 0 <= k < 128 implies #[trigger] final(ctx).v6_available_blocks@[k]@
        == final(ctx).lists()[k] by {}
    assert(old(ctx).lists()[slots] == old(ctx).v6_available_blocks@[slots]@);
    assert forall|k: int| 0 <= k < 128 && k != slots implies (
    #[trigger] final(ctx).v6_available_blocks@[k])@ == old(ctx).v6_available_blocks@[k]@ by {
        assert(final(ctx).lists()[k] == old(ctx).lists()[k]);
    }
}

/// A block that is used up to its end, or not at all, is not listed.
pub proof fn law_full_block_is_not_listed<N>(ctx: &mut BootstrapContext<N>, offset: u64)
    requires
        offset % 4096 == 0,
        call_ensures(BootstrapContext::<N>::append_available_block, (ctx, offset), ()),
    ensures
        final(ctx).v6_available_blocks@.len() == old(ctx).v6_available_blocks@.len(),
        forall|k: int|
            0 <= k < old(ctx).v6_available_blocks@.len() ==> (
            #[trigger] final(ctx).v6_available_blocks@[k])@ == old(ctx).v6_available_blocks@[k]@,
        final(ctx).layered == old(ctx).layered,
        final(ctx).inode_map == old(ctx).inode_map,
        final(ctx).nodes == old(ctx).nodes,
        final(ctx).offset == old(ctx).offset,
{
    assert(final(ctx).lists().len() == old(ctx).lists().len());
    assert forall|k: int| 0 <= k < old(ctx).v6_available_blocks@.len() implies (
    #[trigger] final(ctx).v6_available_blocks@[k])@ == old(ctx).v6_available_blocks@[k]@ by {
        assert(final(ctx).lists()[k] == old(ctx).lists()[k]);
    }
}

/// The lists after a request that is served from a block with `slots` free slots.
proof fn lemma_served_lists(lists: Seq<Seq<u64>>, size: u64, slots: int, taken: int)
    requires
        lists.len() == 128,
        size < 4096,
        0 <= slots < 128,
        size <= 32 * slots,
        lists[slots].len() > 0,
        lists[slots][0] % 4096 == 0,
        forall|k: int| 0 <= k < slots && size <= 32 * k ==> #[trigger] lists[k].len() == 0,
        0 <= taken,
        32 * (taken - 1) < size <= 32 * taken || taken == size == 0,
    ensures
        taken <= slots,
        allocated_offset(lists, size as int) == lists[slots][0] + 4096 - 32 * slots,
        allocated_lists(lists, size as int).len() == 128,
        ({
            let after = allocated_lists(lists, size as int);
            let base = lists[slots][0];
            let rest = lists[slots].skip(1);
            let left = slots - taken;
            &&& after[slots] == if taken == 0 && slots > 0 {
                rest.push(base)
            } else {
                rest
            }
            &&& 0 < left < slots ==> after[left] == lists[left].push(base)
            &&& forall|k: int|
                0 <= k < 128 && k != slots && (k != left || left == 0) ==> #[trigger] after[k]
                    == lists[k]
        }),
{
    let base = lists[slots][0];
    let left = slots - taken;
    let popped = lists.update(slots, lists[slots].skip(1));
    let end = base + 4096 - 32 * left;
    assert(slots_for(size as int) == taken);
    assert(is_best_fit(lists, size as int, slots));
    lemma_best_fit(lists, size as int, slots);
    assert(allocated_lists(lists, size as int) == with_block(popped, end));
    if left == 0 {
        assert(end % 4096 == 0);
    } else {
        assert(end % 4096 == 4096 - 32 * left);
        assert(tail_slots(end) == left);
        assert(with_block(popped, end) == popped.update(left, popped[left].push(base)));
    }
}

/// A request is served from a block with the fewest free slots that hold it, and among these from
/// the one that was listed first: it gets the start of the free slots. The block is then listed
/// with the slots that the request leaves, if there are any. Nothing else changes.
pub proof fn law_request_is_served_from_the_best_block<N>(
    ctx: &mut BootstrapContext<N>,
    size: u64,
    offset: u64,
    slots: int,
    taken: int,
)
    requires
        old(ctx).v6_available_blocks@.len() == 128,
        call_ensures(BootstrapContext::<N>::allocate_available_block, (ctx, size), offset),
        size < 4096,
        0 <= slots < 128,
        size <= 32 * slots,
        old(ctx).v6_available_blocks@[slots]@.len() > 0,
        old(ctx).v6_available_blocks@[slots]@[0] % 4096 == 0,
        forall|k: int|
            0 <= k < slots && size <= 32 * k ==> (#[trigger] old(ctx).v6_available_blocks@[k])@.len()
                == 0,
        0 <= taken,
        32 * (taken - 1) < size <= 32 * taken || taken == size == 0,
    ensures
        taken <= slots,
        ({
            let base = old(ctx).v6_available_blocks@[slots]@[0];
            let rest = old(ctx).v6_available_blocks@[slots]@.skip(1);
            let left = slots - taken;
            &&& offset == base + 4096 - 32 * slots
            &&& final(ctx).v6_available_blocks@.len() == 128
            &&& final(ctx).v6_available_blocks@[slots]@ == if taken == 0 && slots > 0 {
                rest.push(base)
            } else {
                rest
            }
            &&& 0 < left < slots ==> final(ctx).v6_available_blocks@[left]@ == old(
                ctx,
            ).v6_available_blocks@[left]@.push(base)
            &&& forall|k: int|
                0 <= k < 128 && k != slots && (k != left || left == 0) ==> (
                #[trigger] final(ctx).v6_available_blocks@[k])@ == old(
                    ctx,
                ).v6_available_blocks@[k]@
        }),
        final(ctx).layered == old(ctx).layered,
        final(ctx).inode_map == old(ctx).inode_map,
        final(ctx).nodes == old(ctx).nodes,
        final(ctx).offset == old(ctx).offset,
{
    let lists = old(ctx).lists();
    assert(lists[slots] == old(ctx).v6_available_blocks@[slots]@);
    assert forall|k: int| 0 <= k < slots && size <= 32 * k implies #[trigger] lists[k].len()
        == 0 by {
        assert(lists[k] == old(ctx).v6_available_blocks@[k]@);
    }
    lemma_served_lists(lists, size, slots, taken);
    assert(final(ctx).lists().len() == 128);
    assert forall|k: int| 0 <= k < 128 implies #[trigger] final(ctx).v6_available_blocks@[k]@
        == final(ctx).lists()[k] && old(ctx).v6_available_blocks@[k]@ == lists[k] by {}
}

/// A request is refused, with offset 0 and without any change, if it is as large as a block or no
/// listed block has enough free slots for it.
pub proof fn law_request_without_room_is_refused<N>(
    ctx: &mut BootstrapContext<N>,
    size: u64,
    offset: u64,
)
    requires
        old(ctx).v6_available_blocks@.len() == 128,
        call_ensures(BootstrapContext::<N>::allocate_available_block, (ctx, size), offset),
        size >= 4096 || forall|k: int|
            0 <= k < 128 && size <= 32 * k ==> (#[trigger] old(ctx).v6_available_blocks@[k])@.len()
                == 0,
    ensures
        offset == 0,
        final(ctx).v6_available_blocks@.len() == 128,
        forall|k: int|
            0 <= k < 128 ==> (#[trigger] final(ctx).v6_available_blocks@[k])@ == old(
                ctx,
            ).v6_available_blocks@[k]@,
        final(ctx).layered == old(ctx).layered,
        final(ctx).inode_map == old(ctx).inode_map,
        final(ctx).nodes == old(ctx).nodes,
        final(ctx).offset == old(ctx).offset,
{
    let lists = old(ctx).lists();
    assert forall|idx: int| !#[trigger] is_best_fit(lists, size as int, idx) by {
        if is_best_fit(lists, size as int, idx) {
            assert(lists[idx] == old(ctx).v6_available_blocks@[idx]@);
        }
    }
    assert(final(ctx).lists().len() == 128);
    assert forall|k: int| 0 <= k < 128 implies (#[trigger] final(ctx).v6_available_blocks@[k])@
        == old(ctx).v6_available_blocks@[k]@ by {
        assert(final(ctx).lists()[k] == lists[k]);
    }
}

} // verus!
