//! The bootstrap of a build.
use std::collections::{HashMap, VecDeque};
use vstd::prelude::*;
use crate::align::{div_round_up, lemma_round_up_to, round_down_4k, round_up_to};
use crate::blocks::{
    allocated_lists, allocated_offset, allocation_in_range, best_fit, is_best_fit,
    law_allocation_takes_its_slots, lemma_best_fit, lemma_popped_lists_valid, lists_valid,
    slots_for, tail_slots, with_block, EROFS_BLOCK_SIZE, EROFS_INODE_SLOT_SIZE, SLOTS_PER_BLOCK,
};
use crate::memory_writer::ArtifactMemoryWriter;
use crate::storage::ArtifactStorage;
use crate::writer::{ArtifactWriter, OpenAction};

verus! {

/// Inode number.
pub type Inode = u64;

/// What a bootstrap is written to.
pub enum BootstrapWriter {
    /// A file, and how it is opened.
    File { writer: ArtifactWriter, open: OpenAction },
    /// Memory.
    Memory(ArtifactMemoryWriter),
}

impl BootstrapWriter {
    /// Whether this is a writer that has written nothing yet, to the given storage or, without
    /// one, to memory. A file is opened as `ArtifactWriter::new` has it.
    pub open spec fn is_new(self, storage: Option<ArtifactStorage>, fifo: bool) -> bool {
        match storage {
            Some(storage) => {
                &&& self matches BootstrapWriter::File { writer, open }
                &&& writer.written() == 0
                &&& writer.spec_storage() == storage
                &&& storage is SingleFile ==> open == (OpenAction::OpenFile { truncate: !fifo })
                &&& storage is FileDir ==> open == OpenAction::CreateTemporary
            },
            None => {
                &&& self matches BootstrapWriter::Memory(writer)
                &&& writer.data() == Seq::<u8>::empty()
                &&& writer.position() == 0
            },
        }
    }
}

/// BootstrapContext is used to hold inmemory data of bootstrap during build.
///
/// `N` is the type of its nodes.
pub struct BootstrapContext<N> {
    /// This build has a parent bootstrap.
    pub layered: bool,
    /// Cache node index for hardlinks, HashMap<(layer_index, real_inode, dev), Vec<index>>.
    pub inode_map: HashMap<(u16, Inode, u64), Vec<u64>>,
    /// Store all nodes in ascendant ordor, indexed by (node.index - 1).
    pub nodes: Vec<N>,
    /// Current position to write in f_bootstrap
    pub offset: u64,
    /// Not fully used blocks
    pub v6_available_blocks: Vec<VecDeque<u64>>,
}

impl<N> BootstrapContext<N> {
    /// The not fully used blocks, in one list per number of free slots.
    pub open spec fn lists(&self) -> Seq<Seq<u64>> {
        Seq::new(self.v6_available_blocks@.len(), |i: int| self.v6_available_blocks@[i]@)
    }

    /// Whether the lists of blocks are as they should be.
    pub open spec fn valid(&self) -> bool {
        lists_valid(self.lists())
    }

    /// Whether nothing but the lists of blocks may differ.
    pub open spec fn same_but_lists(&self, other: &Self) -> bool {
        &&& self.layered == other.layered
        &&& self.inode_map == other.inode_map
        &&& self.nodes == other.nodes
        &&& self.offset == other.offset
    }

    /// An empty bootstrap, whose metadata starts behind the first block, and what it is written
    /// to: the given storage or, without one, memory.
    pub fn new(storage: Option<ArtifactStorage>, layered: bool, fifo: bool) -> (result: (
        Self,
        BootstrapWriter,
    ))
        ensures
            result.0.valid(),
            result.0.layered == layered,
            result.0.inode_map@ == Map::<(u16, Inode, u64), Vec<u64>>::empty(),
            result.0.nodes@ == Seq::<N>::empty(),
            result.0.offset == EROFS_BLOCK_SIZE,
            result.0.lists() == Seq::new(SLOTS_PER_BLOCK as nat, |i: int| Seq::<u64>::empty()),
            result.1.is_new(storage, fifo),
    {
        let writer: BootstrapWriter = match storage {
            Some(storage) => {
                let (writer, open) = ArtifactWriter::new(storage, fifo);
                BootstrapWriter::File { writer, open }
            },
            None => BootstrapWriter::Memory(ArtifactMemoryWriter::new()),
        };
        let mut blocks: Vec<VecDeque<u64>> = Vec::new();
        let mut i: usize = 0;
        while i < SLOTS_PER_BLOCK
            invariant
                i <= SLOTS_PER_BLOCK,
                blocks@.len() == i,
                forall|j: int| 0 <= j < i ==> (#[trigger] blocks@[j])@ == Seq::<u64>::empty(),
            decreases SLOTS_PER_BLOCK - i,
        {
            blocks.push(VecDeque::new());
            i += 1;
        }
        let ctx = BootstrapContext {
            layered,
            inode_map: HashMap::new(),
            nodes: Vec::new(),
            offset: EROFS_BLOCK_SIZE,
            v6_available_blocks: blocks,
        };
        assert(ctx.lists() =~= Seq::new(SLOTS_PER_BLOCK as nat, |i: int| Seq::<u64>::empty()));
        (ctx, writer)
    }

    /// Moves the current position up to a multiple of `align_size`, if it is not at one.
    pub fn align_offset(&mut self, align_size: u64)
        requires
            align_size != 0,
            round_up_to(old(self).offset as int, align_size as int) <= u64::MAX,
        ensures
            final(self).offset == round_up_to(old(self).offset as int, align_size as int),
            final(self).offset % align_size == 0,
            old(self).offset <= final(self).offset < old(self).offset + align_size,
            *final(self) == (BootstrapContext { offset: final(self).offset, ..*old(self) }),
    {
        proof {
            lemma_round_up_to(self.offset as int, align_size as int);
        }
        if self.offset % align_size > 0 {
            self.offset = div_round_up(self.offset, align_size) * align_size;
        }
    }

    /// Only used to allocate space for metadata(inode / inode + inline data).
    /// Try to find an used block with no less than `size` space left.
    /// If found it, return the offset where we can store data.
    /// If not, return 0.
    #[verifier::rlimit(40)]
    pub fn allocate_available_block(&mut self, size: u64) -> (offset: u64)
        requires
            old(self).valid(),
            allocation_in_range(old(self).lists(), size as int),
        ensures
            offset == allocated_offset(old(self).lists(), size as int),
            final(self).lists() == allocated_lists(old(self).lists(), size as int),
            final(self).valid(),
            final(self).same_but_lists(old(self)),
    {
        proof {
            law_allocation_takes_its_slots(self.lists(), size);
        }
        if size >= EROFS_BLOCK_SIZE {
            return 0;
        }
        let min_idx: usize = div_round_up(size, EROFS_INODE_SLOT_SIZE as u64) as usize;
        let max_idx: usize = div_round_up(EROFS_BLOCK_SIZE, EROFS_INODE_SLOT_SIZE as u64) as usize;
        let ghost lists = self.lists();
        let mut idx: usize = min_idx;
        while idx < max_idx
            invariant
                size < EROFS_BLOCK_SIZE,
                min_idx == slots_for(size as int),
                max_idx == SLOTS_PER_BLOCK,
                min_idx <= idx,
                *self == *old(self),
                lists == self.lists(),
                lists_valid(lists),
                allocation_in_range(lists, size as int),
                lists_valid(allocated_lists(lists, size as int)),
                forall|j: int| min_idx <= j < idx ==> #[trigger] lists[j].len() == 0,
            decreases max_idx - idx,
        {
            if self.v6_available_blocks[idx].len() > 0 {
                proof {
                    assert(lists[idx as int].len() > 0);
                    assert(is_best_fit(lists, size as int, idx as int));
                    lemma_best_fit(lists, size as int, idx as int);
                }
                let ghost base = lists[idx as int][0];
                let front: Option<u64> = self.v6_available_blocks[idx].pop_front();
                assert(front == Some(base));
                assert(self.lists() =~= lists.update(idx as int, lists[idx as int].skip(1)));
                let offset: u64 = front.unwrap() + (EROFS_BLOCK_SIZE - (idx
                    * EROFS_INODE_SLOT_SIZE) as u64);
                proof {
                    lemma_popped_lists_valid(lists, idx as int);
                }
                self.append_available_block(offset + (min_idx * EROFS_INODE_SLOT_SIZE) as u64);
                return offset;
            }
            assert(lists[idx as int].len() == 0);
            idx += 1;
        }
        proof {
            if best_fit(lists, size as int) is Some {
                let found = best_fit(lists, size as int).unwrap();
                assert(is_best_fit(lists, size as int, found));
                assert(lists[found].len() == 0);
            }
        }
        0
    }

    /// Append the block that `offset` belongs to corresponding deque.
    pub fn append_available_block(&mut self, offset: u64)
        requires
            old(self).valid(),
        ensures
            final(self).lists() == with_block(old(self).lists(), offset as int),
            final(self).valid(),
            final(self).same_but_lists(old(self)),
    {
        if offset % EROFS_BLOCK_SIZE != 0 {
            let avail: u64 = EROFS_BLOCK_SIZE - offset % EROFS_BLOCK_SIZE;
            let idx: usize = avail as usize / EROFS_INODE_SLOT_SIZE;
            self.v6_available_blocks[idx].push_back(round_down_4k(offset));
            assert(idx == tail_slots(offset as int));
            assert(self.lists() =~= with_block(old(self).lists(), offset as int));
        }
    }
}

/// BootstrapManager is used to hold the parent bootstrap reader and create
/// new bootstrap context.
///
/// `R` is the type of the reader.
pub struct BootstrapManager<R> {
    /// Parent bootstrap file reader.
    pub f_parent_bootstrap: Option<R>,
    pub bootstrap_storage: Option<ArtifactStorage>,
}

impl<R> BootstrapManager<R> {
    /// A manager for the given storage and parent.
    pub fn new(
        bootstrap_storage: Option<ArtifactStorage>,
        f_parent_bootstrap: Option<R>,
    ) -> (manager: Self)
        ensures
            manager == (BootstrapManager { f_parent_bootstrap, bootstrap_storage }),
    {
        BootstrapManager { f_parent_bootstrap, bootstrap_storage }
    }

    /// An empty bootstrap, layered if there is a parent, and what it is written to.
    pub fn create_ctx<N>(&self, fifo: bool) -> (result: (BootstrapContext<N>, BootstrapWriter))
        ensures
            result.0.valid(),
            result.0.layered == (self.f_parent_bootstrap is Some),
            result.0.inode_map@ == Map::<(u16, Inode, u64), Vec<u64>>::empty(),
            result.0.nodes@ == Seq::<N>::empty(),
            result.0.offset == EROFS_BLOCK_SIZE,
            result.0.lists() == Seq::new(SLOTS_PER_BLOCK as nat, |i: int| Seq::<u64>::empty()),
            result.1.is_new(self.bootstrap_storage, fifo),
    {
        let storage: Option<ArtifactStorage> = match &self.bootstrap_storage {
            Some(storage) => Some(storage.clone()),
            None => None,
        };
        BootstrapContext::new(storage, self.f_parent_bootstrap.is_some(), fifo)
    }
}

} // verus!
