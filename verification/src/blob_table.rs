//! The table of blobs that goes into a bootstrap.
use std::sync::Arc;
use vstd::prelude::*;
use crate::blob::{BlobContext, ChunkSource};
use crate::blob_meta::{BlobInfo, BlobMetaHeader};
use crate::build_context::{BuildContext, RafsVersion};
use crate::compress;
use crate::digest;

verus! {

/// Entry of a blob table.
#[derive(Debug)]
pub struct BlobTableEntry {
    pub blob_id: String,
    pub prefetch_offset: u32,
    pub prefetch_size: u32,
    pub chunk_size: u32,
    pub chunk_count: u32,
    pub uncompressed_size: u64,
    pub compressed_size: u64,
    /// Feature bits of the blob; none are set.
    pub blob_features: u32,
    pub compressor: compress::Algorithm,
    pub digester: digest::Algorithm,
}

impl BlobTableEntry {
    /// Whether this is the entry of `blob` in the build of `ctx`.
    pub open spec fn is_entry_of<Z>(self, blob: BlobContext, ctx: BuildContext<Z>) -> bool {
        &&& self.blob_id@ == blob.blob_id@
        &&& self.prefetch_offset == 0
        &&& self.prefetch_size == blob.blob_prefetch_size
        &&& self.chunk_size == blob.chunk_size
        &&& self.chunk_count == blob.chunk_count
        &&& self.uncompressed_size == blob.uncompressed_blob_size
        &&& self.compressed_size == blob.compressed_blob_size
        &&& self.blob_features == 0
        &&& self.compressor == ctx.compressor
        &&& self.digester == ctx.digester
    }
}

/// A blob table of format version 5.
#[derive(Debug)]
pub struct RafsV5BlobTable {
    pub entries: Vec<BlobTableEntry>,
}

/// A blob table of format version 6, in which each entry has the metadata header of its blob.
#[derive(Debug)]
pub struct RafsV6BlobTable {
    pub entries: Vec<(BlobTableEntry, BlobMetaHeader)>,
}

/// The table of blobs that goes into a bootstrap.
#[derive(Debug)]
pub enum RafsBlobTable {
    V5(RafsV5BlobTable),
    V6(RafsV6BlobTable),
}

impl RafsBlobTable {
    /// Number of entries.
    pub open spec fn spec_len(self) -> nat {
        match self {
            RafsBlobTable::V5(table) => table.entries@.len(),
            RafsBlobTable::V6(table) => table.entries@.len(),
        }
    }

    /// The entry at index `i`.
    pub open spec fn entry(self, i: int) -> BlobTableEntry {
        match self {
            RafsBlobTable::V5(table) => table.entries@[i],
            RafsBlobTable::V6(table) => table.entries@[i].0,
        }
    }

    /// Whether this is the table of `blobs` in the build of `ctx`: it has the format version of
    /// the build and one entry per blob, in the same order.
    pub open spec fn is_table_of<Z>(self, blobs: Seq<BlobContext>, ctx: BuildContext<Z>) -> bool {
        &&& self is V5 <==> ctx.fs_version == RafsVersion::V5
        &&& self.spec_len() == blobs.len()
        &&& forall|i: int|
            0 <= i < blobs.len() ==> (#[trigger] self.entry(i)).is_entry_of(blobs[i], ctx)
        &&& self matches RafsBlobTable::V6(table) ==> forall|i: int|
            0 <= i < blobs.len() ==> (#[trigger] table.entries@[i]).1 == blobs[i].blob_meta_header
    }

    /// Whether this is `before` with an entry appended, together with the header if the table
    /// holds headers.
    pub open spec fn appended(
        self,
        before: Self,
        entry: BlobTableEntry,
        header: BlobMetaHeader,
    ) -> bool {
        match (before, self) {
            (RafsBlobTable::V5(old_table), RafsBlobTable::V5(table)) => table.entries@
                == old_table.entries@.push(entry),
            (RafsBlobTable::V6(old_table), RafsBlobTable::V6(table)) => table.entries@
                == old_table.entries@.push((entry, header)),
            _ => false,
        }
    }

    /// An empty table of the given format version.
    pub fn new(version: RafsVersion) -> (table: Self)
        ensures
            table is V5 <==> version == RafsVersion::V5,
            table.spec_len() == 0,
    {
        match version {
            RafsVersion::V5 => RafsBlobTable::V5(RafsV5BlobTable { entries: Vec::new() }),
            RafsVersion::V6 => RafsBlobTable::V6(RafsV6BlobTable { entries: Vec::new() }),
        }
    }

    /// Appends an entry. The header is only kept by a table of version 6.
    pub fn add(&mut self, entry: BlobTableEntry, header: BlobMetaHeader)
        ensures
            final(self).appended(*old(self), entry, header),
    {
        match self {
            RafsBlobTable::V5(table) => {
                table.entries.push(entry);
            },
            RafsBlobTable::V6(table) => {
                table.entries.push((entry, header));
            },
        }
    }
}

/// A blob of a parent image is carried over: its entry in the blob table of the build has the id,
/// the sizes and the number of chunks that the table of the parent has, and the same place.
pub proof fn law_parent_blob_is_carried_over<Z>(
    parent: Seq<Arc<BlobInfo>>,
    blobs: Seq<BlobContext>,
    ctx: BuildContext<Z>,
    table: RafsBlobTable,
    i: int,
)
    requires
        blobs.len() == parent.len(),
        forall|j: int|
            0 <= j < parent.len() ==> (#[trigger] blobs[j]).taken_over(
                ctx,
                *parent[j],
                ChunkSource::Parent,
            ),
        table.is_table_of(blobs, ctx),
        0 <= i < parent.len(),
    ensures
        table.spec_len() == parent.len(),
        table.entry(i).blob_id@ == parent[i].blob_id@,
        table.entry(i).prefetch_size == parent[i].prefetch_size,
        table.entry(i).chunk_size == parent[i].chunk_size,
        table.entry(i).chunk_count == parent[i].chunk_count,
        table.entry(i).uncompressed_size == parent[i].uncompressed_size,
        table.entry(i).compressed_size == parent[i].compressed_size,
{
    assert(blobs[i].taken_over(ctx, *parent[i], ChunkSource::Parent));
    assert(table.entry(i).is_entry_of(blobs[i], ctx));
}

} // verus!
