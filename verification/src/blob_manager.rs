//! The blobs of a build.
use std::sync::Arc;
use vstd::prelude::*;
use crate::blob::{BlobContext, ChunkSource};
use crate::blob_meta::BlobInfo;
use crate::blob_table::{BlobTableEntry, RafsBlobTable};
use crate::build_context::{BuildContext, RafsVersion};
use crate::chunk_dict::HashChunkDict;
use crate::dedup::{
    assigned_indices, blob_ids, dict_ids, extended_ids, extension_possible, extension_stops_at, full_len,
    is_extension, lemma_assigned_indices_kept, lemma_extended_ids, lemma_extended_ids_grow,
    MAX_BLOB_COUNT,
};
use crate::error::BuildError;
use crate::text::str_eq;

verus! {

/// BlobManager stores all blob related information during build.
pub struct BlobManager {
    /// The blobs in the order of their indices.
    blobs: Vec<BlobContext>,
    current_blob_index: Option<u32>,
    /// Chunk dictionary to hold chunks from an extra chunk dict file.
    /// Used for chunk data de-duplication within the whole image.
    pub global_chunk_dict: HashChunkDict,
    /// Chunk dictionary to hold chunks from all layers.
    /// Used for chunk data de-duplication between layers (with `--parent-bootstrap`)
    /// or within layer (with `--inline-bootstrap`).
    pub layered_chunk_dict: HashChunkDict,
}

impl BlobManager {
    /// The blobs in the order of their indices.
    pub closed spec fn spec_blobs(&self) -> Seq<BlobContext> {
        self.blobs@
    }

    /// The index of the blob that chunks are written to.
    pub closed spec fn current(&self) -> Option<u32> {
        self.current_blob_index
    }

    /// The chunk dictionary of the whole image.
    pub closed spec fn global_dict(&self) -> HashChunkDict {
        self.global_chunk_dict
    }

    /// The chunk dictionary of all layers.
    pub closed spec fn layered_dict(&self) -> HashChunkDict {
        self.layered_chunk_dict
    }

    /// Whether there is a blob at the index of the current blob, if there is such an index.
    pub open spec fn current_valid(&self) -> bool {
        self.current() matches Some(idx) ==> idx < self.spec_blobs().len()
    }

    /// Whether the current blob of this manager is the one with index `idx`, and is the current
    /// one of `before` or, if that had none, was added to it.
    pub open spec fn current_opened(&self, before: &Self, idx: u32) -> bool {
        &&& self.current() == Some(idx)
        &&& match before.current() {
            Some(current) => idx == current && self.spec_blobs().len() == before.spec_blobs().len(),
            None => idx == before.spec_blobs().len() && self.spec_blobs().len()
                == before.spec_blobs().len() + 1,
        }
    }

    /// Whether nothing but the blobs may differ.
    pub open spec fn same_but_blobs(&self, other: &Self) -> bool {
        &&& self.current() == other.current()
        &&& self.global_dict() == other.global_dict()
        &&& self.layered_dict() == other.layered_dict()
    }

    /// A manager without blobs.
    pub fn new() -> (manager: Self)
        ensures
            manager.spec_blobs() == Seq::<BlobContext>::empty(),
            manager.current() is None,
            manager.global_dict().spec_blobs() == Seq::<Arc<BlobInfo>>::empty(),
            manager.global_dict().real_indices() == Map::<u32, u32>::empty(),
            manager.layered_dict().spec_blobs() == Seq::<Arc<BlobInfo>>::empty(),
            manager.layered_dict().real_indices() == Map::<u32, u32>::empty(),
    {
        BlobManager {
            blobs: Vec::new(),
            current_blob_index: None,
            global_chunk_dict: HashChunkDict::default(),
            layered_chunk_dict: HashChunkDict::default(),
        }
    }

    /// The blob that `ctx` asks for.
    fn new_blob_ctx<Z>(ctx: &BuildContext<Z>) -> (blob_ctx: BlobContext)
        ensures
            blob_ctx.is_new_for(*ctx),
    {
        let mut blob_ctx = BlobContext::new(
            ctx.blob_id.clone(),
            ctx.blob_offset,
            ctx.blob_meta_features,
        );
        blob_ctx.set_chunk_size(ctx.chunk_size);
        blob_ctx.set_meta_info_enabled(ctx.fs_version == RafsVersion::V6);
        blob_ctx
    }

    /// The index and the context of the current blob. If there is none, a new blob is added and
    /// becomes the current one; this fails if there is no index left for it.
    pub fn get_or_create_current_blob<Z>(
        &mut self,
        ctx: &BuildContext<Z>,
    ) -> (result: Result<(u32, &mut BlobContext), BuildError>)
        requires
            old(self).current_valid(),
        ensures
            match result {
                Ok((idx, blob)) => {
                    &&& final(self).current_opened(old(self), idx)
                    &&& final(self).current_valid()
                    &&& final(self).global_dict() == old(self).global_dict()
                    &&& final(self).layered_dict() == old(self).layered_dict()
                    &&& match old(self).current() {
                        Some(current) => {
                            &&& idx == current
                            &&& *blob == old(self).spec_blobs()[idx as int]
                            &&& final(self).spec_blobs() == old(self).spec_blobs().update(
                                idx as int,
                                *final(blob),
                            )
                        },
                        None => {
                            &&& old(self).spec_blobs().len() < MAX_BLOB_COUNT
                            &&& idx == old(self).spec_blobs().len()
                            &&& blob.is_new_for(*ctx)
                            &&& final(self).spec_blobs() == old(self).spec_blobs().push(
                                *final(blob),
                            )
                        },
                    }
                },
                Err(e) => {
                    &&& old(self).current() is None
                    &&& old(self).spec_blobs().len() >= MAX_BLOB_COUNT
                    &&& e == BuildError::TooManyBlobs
                    &&& *final(self) == *old(self)
                },
            },
    {
        if self.current_blob_index.is_none() {
            let blob_ctx = Self::new_blob_ctx(ctx);
            let idx: u32 = match self.alloc_index() {
                Ok(idx) => idx,
                Err(e) => {
                    return Err(e);
                },
            };
            self.current_blob_index = Some(idx);
            self.add(blob_ctx);
        }
        let idx: u32 = self.current_blob_index.unwrap();
        Ok((idx, &mut self.blobs[idx as usize]))
    }

    /// The index and the context of the current blob, if there is one.
    pub fn get_current_blob(&mut self) -> (current: Option<(u32, &mut BlobContext)>)
        requires
            old(self).current_valid(),
        ensures
            final(self).same_but_blobs(old(self)),
            final(self).current_valid(),
            match current {
                Some((idx, blob)) => {
                    &&& old(self).current() == Some(idx)
                    &&& *blob == old(self).spec_blobs()[idx as int]
                    &&& final(self).spec_blobs() == old(self).spec_blobs().update(
                        idx as int,
                        *final(blob),
                    )
                },
                None => old(self).current() is None && *final(self) == *old(self),
            },
    {
        match self.current_blob_index {
            Some(idx) => Some((idx, &mut self.blobs[idx as usize])),
            None => None,
        }
    }

    /// Sets the chunk dictionary.
    pub fn set_chunk_dict(&mut self, dict: HashChunkDict)
        ensures
            final(self).global_dict() == dict,
            final(self).layered_dict() == old(self).layered_dict(),
            final(self).spec_blobs() == old(self).spec_blobs(),
            final(self).current() == old(self).current(),
    {
        self.global_chunk_dict = dict;
    }

    /// The chunk dictionary.
    pub fn get_chunk_dict(&self) -> (dict: &HashChunkDict)
        ensures
            *dict == self.global_dict(),
    {
        &self.global_chunk_dict
    }

    /// Allocate a blob index sequentially.
    ///
    /// This should be paired with Self::add() and keep in consistence.
    pub fn alloc_index(&self) -> (result: Result<u32, BuildError>)
        ensures
            match result {
                Ok(idx) => {
                    &&& self.spec_blobs().len() < MAX_BLOB_COUNT
                    &&& idx == self.spec_blobs().len()
                },
                Err(e) => {
                    &&& self.spec_blobs().len() >= MAX_BLOB_COUNT
                    &&& e == BuildError::TooManyBlobs
                },
            },
    {
        let len: usize = self.blobs.len();
        if len < MAX_BLOB_COUNT {
            Ok(len as u32)
        } else {
            Err(BuildError::TooManyBlobs)
        }
    }

    /// Add a blob context to manager
    ///
    /// This should be paired with Self::alloc_index() and keep in consistence.
    pub fn add(&mut self, blob_ctx: BlobContext)
        ensures
            final(self).spec_blobs() == old(self).spec_blobs().push(blob_ctx),
            final(self).same_but_blobs(old(self)),
            old(self).current_valid() ==> final(self).current_valid(),
    {
        self.blobs.push(blob_ctx);
    }

    /// Number of blobs.
    pub fn len(&self) -> (len: usize)
        ensures
            len == self.spec_blobs().len(),
    {
        self.blobs.len()
    }

    /// Get all blob contexts (include the blob context that does not have a blob).
    pub fn get_blobs(&self) -> (blobs: Vec<&BlobContext>)
        ensures
            blobs@.len() == self.spec_blobs().len(),
            forall|i: int| 0 <= i < blobs@.len() ==> *#[trigger] blobs@[i] == self.spec_blobs()[i],
    {
        let mut blobs: Vec<&BlobContext> = Vec::new();
        let mut i: usize = 0;
        while i < self.blobs.len()
            invariant
                i <= self.blobs@.len(),
                blobs@.len() == i,
                forall|j: int| 0 <= j < i ==> *#[trigger] blobs@[j] == self.blobs@[j],
            decreases self.blobs@.len() - i,
        {
            blobs.push(&self.blobs[i]);
            i += 1;
        }
        blobs
    }

    /// The blob with index `idx`, if there is one.
    pub fn get_blob(&self, idx: usize) -> (blob: Option<&BlobContext>)
        ensures
            match blob {
                Some(blob) => idx < self.spec_blobs().len() && *blob
                    == self.spec_blobs()[idx as int],
                None => idx >= self.spec_blobs().len(),
            },
    {
        if idx < self.blobs.len() {
            Some(&self.blobs[idx])
        } else {
            None
        }
    }

    /// Takes out the blob with index `idx`. The blobs behind it move up by one.
    pub fn take_blob(&mut self, idx: usize) -> (blob: BlobContext)
        requires
            idx < old(self).spec_blobs().len(),
        ensures
            blob == old(self).spec_blobs()[idx as int],
            final(self).spec_blobs() == old(self).spec_blobs().remove(idx as int),
            final(self).same_but_blobs(old(self)),
    {
        self.blobs.remove(idx)
    }

    /// The blob with the highest index, if there is one.
    pub fn get_last_blob(&self) -> (blob: Option<&BlobContext>)
        ensures
            match blob {
                Some(blob) => self.spec_blobs().len() > 0 && *blob == self.spec_blobs().last(),
                None => self.spec_blobs().len() == 0,
            },
    {
        let len: usize = self.blobs.len();
        if len > 0 {
            Some(&self.blobs[len - 1])
        } else {
            None
        }
    }

    /// Replaces the blobs by those of the blob table of a parent image, in the same order.
    pub fn from_blob_table<Z>(&mut self, ctx: &BuildContext<Z>, blob_table: Vec<Arc<BlobInfo>>)
        ensures
            final(self).same_but_blobs(old(self)),
            final(self).spec_blobs().len() == blob_table@.len(),
            forall|i: int|
                0 <= i < blob_table@.len() ==> (#[trigger] final(self).spec_blobs()[i]).taken_over(
                    *ctx,
                    *blob_table@[i],
                    ChunkSource::Parent,
                ),
    {
        let mut blobs: Vec<BlobContext> = Vec::new();
        let mut i: usize = 0;
        while i < blob_table.len()
            invariant
                i <= blob_table@.len(),
                blobs@.len() == i,
                forall|j: int|
                    0 <= j < i ==> (#[trigger] blobs@[j]).taken_over(
                        *ctx,
                        *blob_table@[j],
                        ChunkSource::Parent,
                    ),
            decreases blob_table@.len() - i,
        {
            blobs.push(BlobContext::from(ctx, &blob_table[i], ChunkSource::Parent));
            i += 1;
        }
        self.blobs = blobs;
    }

    /// The index of the first blob with the given id, if there is one.
    pub fn get_blob_idx_by_id(&self, id: &str) -> (idx: Option<u32>)
        ensures
            match blob_ids(self.spec_blobs()).index_of_first(id@) {
                Some(i) => idx == Some(i as u32),
                None => idx is None,
            },
            idx is Some <==> blob_ids(self.spec_blobs()).contains(id@),
    {
        let ghost ids = blob_ids(self.blobs@);
        proof {
            ids.index_of_first_ensures(id@);
        }
        let mut i: usize = 0;
        while i < self.blobs.len()
            invariant
                i <= self.blobs@.len(),
                ids == blob_ids(self.blobs@),
                forall|j: int| 0 <= j < i ==> #[trigger] ids[j] != id@,
                match ids.index_of_first(id@) {
                    Some(k) => ids.contains(id@) && 0 <= k < ids.len() && ids[k] == id@ && forall|
                        j: int,
                    |
                        0 <= j < k ==> #[trigger] ids[j] != id@,
                    None => !ids.contains(id@),
                },
            decreases self.blobs@.len() - i,
        {
            if str_eq(self.blobs[i].blob_id.as_str(), id) {
                assert(ids[i as int] == id@);
                return Some(#[verifier::truncate] (i as u32));
            }
            i += 1;
        }
        None
    }

    /// The ids of the blobs, in the order of their indices.
    pub fn get_blob_ids(&self) -> (ids: Vec<String>)
        ensures
            ids@.len() == self.spec_blobs().len(),
            forall|i: int|
                0 <= i < ids@.len() ==> (#[trigger] ids@[i])@ == blob_ids(self.spec_blobs())[i],
    {
        let mut ids: Vec<String> = Vec::new();
        let mut i: usize = 0;
        while i < self.blobs.len()
            invariant
                i <= self.blobs@.len(),
                ids@.len() == i,
                forall|j: int|
                    0 <= j < i ==> (#[trigger] ids@[j])@ == blob_ids(self.blobs@)[j],
            decreases self.blobs@.len() - i,
        {
            ids.push(self.blobs[i].blob_id.clone());
            i += 1;
        }
        ids
    }

    /// Whether this is what `before` becomes once the first `n` blobs of its chunk dictionary have
    /// been added to its blobs and assigned their indices there.
    pub open spec fn extended_from_dict<Z>(
        &self,
        before: &Self,
        ctx: BuildContext<Z>,
        n: int,
    ) -> bool {
        let dict = before.global_dict().spec_blobs();
        &&& self.current() == before.current()
        &&& self.layered_dict() == before.layered_dict()
        &&& self.global_dict().spec_blobs() == dict
        &&& is_extension(self.spec_blobs(), before.spec_blobs(), ctx, dict.take(n))
        &&& self.global_dict().real_indices() == assigned_indices(
            before.global_dict().real_indices(),
            blob_ids(self.spec_blobs()),
            dict.take(n),
        )
    }

    /// Extend blobs which belong to ChunkDict and setup real_blob_idx map
    /// should call this function after import parent bootstrap
    /// otherwise will break blobs order
    ///
    /// If there is no index left for a blob of the dictionary, that blob and those behind it in
    /// the dictionary are not added and not assigned an index.
    #[verifier::rlimit(40)]
    pub fn extend_blob_table_from_chunk_dict<Z>(
        &mut self,
        ctx: &BuildContext<Z>,
    ) -> (result: Result<(), BuildError>)
        ensures
            old(self).current_valid() ==> final(self).current_valid(),
            result is Ok <==> extension_possible(
                blob_ids(old(self).spec_blobs()),
                dict_ids(old(self).global_dict().spec_blobs()),
            ),
            match result {
                Ok(()) => final(self).extended_from_dict(
                    old(self),
                    *ctx,
                    old(self).global_dict().spec_blobs().len() as int,
                ),
                Err(e) => {
                    &&& e == BuildError::TooManyBlobs
                    &&& final(self).spec_blobs().len() == full_len(old(self).spec_blobs().len())
                    &&& exists|n: int|
                        {
                            &&& #[trigger] final(self).extended_from_dict(old(self), *ctx, n)
                            &&& extension_stops_at(
                                blob_ids(old(self).spec_blobs()),
                                old(self).global_dict().spec_blobs(),
                                n,
                            )
                        }
                },
            },
    {
        let ghost before = *self;
        let ghost dict = self.global_chunk_dict.spec_blobs();
        let ghost ids = blob_ids(self.blobs@);
        let len: usize = self.global_chunk_dict.get_blobs().len();
        assert(dict.take(0) =~= Seq::<Arc<BlobInfo>>::empty());
        assert(dict_ids(dict.take(0)) =~= Seq::<Seq<char>>::empty());
        let mut i: usize = 0;
        while i < len
            invariant
                i <= len == dict.len(),
                before == *old(self),
                dict == before.global_dict().spec_blobs(),
                ids == blob_ids(before.spec_blobs()),
                self.extended_from_dict(&before, *ctx, i as int),
                self.blobs@.len() == ids.len() || self.blobs@.len() <= MAX_BLOB_COUNT,
            decreases len - i,
        {
            let ghost blobs = self.blobs@;
            let ghost done = dict.take(i as int);
            let ghost next = dict.take(i + 1);
            let ghost id = dict[i as int].blob_id@;
            proof {
                assert(next.drop_last() =~= done);
                assert(dict_ids(next).drop_last() =~= dict_ids(done));
                assert(dict_ids(next).last() == id);
                lemma_extended_ids(ids, dict_ids(done));
                blob_ids(blobs).index_of_first_ensures(id);
            }
            let blob_index: u32 = self.global_chunk_dict.get_blobs()[i].blob_index;
            match self.get_blob_idx_by_id(self.global_chunk_dict.get_blobs()[i].blob_id.as_str()) {
                Some(real_idx) => {
                    self.global_chunk_dict.set_real_blob_idx(blob_index, real_idx);
                    proof {
                        Self::lemma_extension_step(blobs, before.spec_blobs(), *ctx, done, next);
                    }
                },
                None => {
                    let idx: u32 = match self.alloc_index() {
                        Ok(idx) => idx,
                        Err(e) => {
                            proof {
                                assert(dict_ids(dict).take(i + 1) =~= dict_ids(next));
                                lemma_extended_ids_grow(ids, dict_ids(dict), i + 1);
                            }
                            return Err(e);
                        },
                    };
                    let blob_ctx = BlobContext::from(
                        ctx,
                        &self.global_chunk_dict.get_blobs()[i],
                        ChunkSource::Dict,
                    );
                    let ghost added = blob_ctx;
                    self.add(blob_ctx);
                    self.global_chunk_dict.set_real_blob_idx(blob_index, idx);
                    proof {
                        Self::lemma_extension_push(
                            blobs,
                            before.spec_blobs(),
                            *ctx,
                            done,
                            next,
                            added,
                        );
                        assert forall|j: int| 0 <= j < done.len() implies blob_ids(blobs).contains(
                            (#[trigger] done[j]).blob_id@,
                        ) by {
                            assert(dict_ids(done)[j] == done[j].blob_id@);
                        }
                        lemma_assigned_indices_kept(
                            before.global_dict().real_indices(),
                            blob_ids(blobs),
                            id,
                            done,
                        );
                        assert(blob_ids(self.blobs@) =~= blob_ids(blobs).push(id));
                        blob_ids(self.blobs@).index_of_first_ensures(id);
                        assert(blob_ids(self.blobs@)[blobs.len() as int] == id);
                        let k = blob_ids(self.blobs@).index_of_first(id).unwrap();
                        if k < blobs.len() {
                            assert(blob_ids(blobs)[k] == id);
                        }
                    }
                },
            }
            i += 1;
        }
        assert(dict.take(len as int) =~= dict);
        assert(dict_ids(dict.take(len as int)) =~= dict_ids(dict));
        proof {
            lemma_extended_ids(ids, dict_ids(dict));
            if self.blobs@.len() == ids.len() {
                assert(extended_ids(ids, dict_ids(dict)) =~= ids);
            }
        }
        Ok(())
    }

    proof fn lemma_first_index_in_longer_dict(
        done: Seq<Arc<BlobInfo>>,
        next: Seq<Arc<BlobInfo>>,
        id: Seq<char>,
    )
        requires
            next.len() == done.len() + 1,
            next.drop_last() == done,
            dict_ids(done).index_of_first(id) is Some,
        ensures
            dict_ids(next).index_of_first(id) == dict_ids(done).index_of_first(id),
            ({
                let j = dict_ids(done).index_of_first(id).unwrap();
                0 <= j < done.len() && next[j] == done[j]
            }),
    {
        dict_ids(done).index_of_first_ensures(id);
        assert(dict_ids(next) =~= dict_ids(done).push(next.last().blob_id@));
        crate::dedup::lemma_index_kept(dict_ids(done), next.last().blob_id@, id);
        let j = dict_ids(done).index_of_first(id).unwrap();
        assert(next.drop_last()[j] == next[j]);
    }

    proof fn lemma_extension_step<Z>(
        blobs: Seq<BlobContext>,
        before: Seq<BlobContext>,
        ctx: BuildContext<Z>,
        done: Seq<Arc<BlobInfo>>,
        next: Seq<Arc<BlobInfo>>,
    )
        requires
            is_extension(blobs, before, ctx, done),
            next.len() == done.len() + 1,
            next.drop_last() == done,
            blob_ids(blobs).contains(next.last().blob_id@),
        ensures
            is_extension(blobs, before, ctx, next),
    {
        assert(dict_ids(next).drop_last() =~= dict_ids(done));
        assert forall|i: int| before.len() <= i < blobs.len() implies {
            let j = dict_ids(next).index_of_first((#[trigger] blobs[i]).blob_id@);
            j is Some && blobs[i].taken_over(ctx, *next[j.unwrap()], ChunkSource::Dict)
        } by {
            Self::lemma_first_index_in_longer_dict(done, next, blobs[i].blob_id@);
        }
    }

    proof fn lemma_extension_push<Z>(
        blobs: Seq<BlobContext>,
        before: Seq<BlobContext>,
        ctx: BuildContext<Z>,
        done: Seq<Arc<BlobInfo>>,
        next: Seq<Arc<BlobInfo>>,
        added: BlobContext,
    )
        requires
            is_extension(blobs, before, ctx, done),
            next.len() == done.len() + 1,
            next.drop_last() == done,
            !blob_ids(blobs).contains(next.last().blob_id@),
            added.taken_over(ctx, *next.last(), ChunkSource::Dict),
        ensures
            is_extension(blobs.push(added), before, ctx, next),
    {
        let after = blobs.push(added);
        let id = next.last().blob_id@;
        assert(dict_ids(next).drop_last() =~= dict_ids(done));
        assert(blob_ids(after) =~= blob_ids(blobs).push(id));
        assert forall|i: int| before.len() <= i < after.len() implies {
            let j = dict_ids(next).index_of_first((#[trigger] after[i]).blob_id@);
            j is Some && after[i].taken_over(ctx, *next[j.unwrap()], ChunkSource::Dict)
        } by {
            if i < blobs.len() {
                assert(after[i] == blobs[i]);
                Self::lemma_first_index_in_longer_dict(done, next, blobs[i].blob_id@);
            } else {
                dict_ids(next).index_of_first_ensures(id);
                lemma_extended_ids(blob_ids(before), dict_ids(done));
                assert(dict_ids(next)[done.len() as int] == id);
                let j = dict_ids(next).index_of_first(id).unwrap();
                if j < done.len() {
                    assert(dict_ids(done)[j] == next.drop_last()[j].blob_id@);
                    assert(dict_ids(next)[j] == dict_ids(done)[j]);
                }
            }
        }
    }

    /// The blob table of the build. This fails if the prefetch size of a blob does not fit it.
    pub fn to_blob_table<Z>(
        &self,
        build_ctx: &BuildContext<Z>,
    ) -> (result: Result<RafsBlobTable, BuildError>)
        ensures
            match result {
                Ok(table) => {
                    &&& forall|i: int|
                        0 <= i < self.spec_blobs().len() ==> (
                        #[trigger] self.spec_blobs()[i]).blob_prefetch_size <= u32::MAX
                    &&& table.is_table_of(self.spec_blobs(), *build_ctx)
                },
                Err(e) => {
                    &&& exists|i: int|
                        0 <= i < self.spec_blobs().len() && (
                        #[trigger] self.spec_blobs()[i]).blob_prefetch_size > u32::MAX
                    &&& e == BuildError::PrefetchSizeOutOfRange
                },
            },
    {
        let mut table: RafsBlobTable = RafsBlobTable::new(build_ctx.fs_version);
        let mut i: usize = 0;
        while i < self.blobs.len()
            invariant
                i <= self.blobs@.len(),
                forall|j: int|
                    0 <= j < i ==> (#[trigger] self.blobs@[j]).blob_prefetch_size <= u32::MAX,
                table.is_table_of(self.blobs@.take(i as int), *build_ctx),
            decreases self.blobs@.len() - i,
        {
            let blob: &BlobContext = &self.blobs[i];
            if blob.blob_prefetch_size > u32::MAX as u64 {
                assert(self.spec_blobs()[i as int].blob_prefetch_size > u32::MAX);
                return Err(BuildError::PrefetchSizeOutOfRange);
            }
            let entry = BlobTableEntry {
                blob_id: blob.blob_id.clone(),
                prefetch_offset: 0,
                prefetch_size: blob.blob_prefetch_size as u32,
                chunk_size: blob.chunk_size,
                chunk_count: blob.chunk_count,
                uncompressed_size: blob.uncompressed_blob_size,
                compressed_size: blob.compressed_blob_size,
                blob_features: 0,
                compressor: build_ctx.compressor,
                digester: build_ctx.digester,
            };
            let ghost before = table;
            table.add(entry, blob.blob_meta_header);
            proof {
                let blobs = self.blobs@.take(i + 1);
                assert(blobs.drop_last() =~= self.blobs@.take(i as int));
                assert forall|j: int| 0 <= j < blobs.len() implies (
                #[trigger] table.entry(j)).is_entry_of(blobs[j], *build_ctx) by {
                    if j < i {
                        assert(table.entry(j) == before.entry(j));
                    }
                }
            }
            i += 1;
        }
        assert(self.blobs@.take(i as int) =~= self.blobs@);
        Ok(table)
    }
}

/// `BlobManager::alloc_index` and `BlobManager::add` are in consistence: the index that is
/// allocated is that of the blob that is added next, and no other index changes its blob.
pub proof fn law_allocated_index_is_that_of_added_blob(
    before: BlobManager,
    idx: u32,
    blob_ctx: BlobContext,
    after: BlobManager,
)
    requires
        idx == before.spec_blobs().len(),
        after.spec_blobs() == before.spec_blobs().push(blob_ctx),
    ensures
        after.spec_blobs().len() == idx + 1,
        after.spec_blobs()[idx as int] == blob_ctx,
        forall|i: int|
            0 <= i < idx ==> #[trigger] after.spec_blobs()[i] == before.spec_blobs()[i],
{
}

/// What contracts say of a manager is said of what it holds.
proof fn law_contracts_speak_of_the_fields(manager: BlobManager)
    ensures
        manager.spec_blobs() == manager.blobs@,
        manager.current() == manager.current_blob_index,
        manager.global_dict() == manager.global_chunk_dict,
        manager.layered_dict() == manager.layered_chunk_dict,
{
}

/// The current blob is created once: asking for it again gives the same index and adds no blob.
pub proof fn law_current_blob_is_created_once(
    before: BlobManager,
    first: u32,
    between: BlobManager,
    second: u32,
    after: BlobManager,
)
    requires
        between.current_opened(&before, first),
        after.current_opened(&between, second),
    ensures
        second == first,
        after.current() == between.current(),
        after.spec_blobs().len() == between.spec_blobs().len(),
{
}

} // verus!
