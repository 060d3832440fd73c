//! Laws on the blob table that goes into a bootstrap.
use std::sync::Arc;
use vstd::prelude::*;
use crate::blob::{BlobContext, ChunkSource};
use crate::blob_manager::BlobManager;
use crate::blob_meta::{BlobInfo, BlobMetaHeader};
use crate::blob_table::{BlobTableEntry, RafsBlobTable};
use crate::build_context::{BuildContext, RafsVersion};
use crate::compress;
use crate::error::BuildError;

verus! {

/// The entries that a table holds, in order.
pub open spec fn entries_of(table: RafsBlobTable) -> Seq<BlobTableEntry> {
    match table {
        RafsBlobTable::V5(v5) => v5.entries@,
        RafsBlobTable::V6(v6) => v6.entries@.map_values(
            |pair: (BlobTableEntry, BlobMetaHeader)| pair.0,
        ),
    }
}

/// The headers that a table of version 6 holds, in order.
pub open spec fn headers_of(table: RafsBlobTable) -> Seq<BlobMetaHeader> {
    match table {
        RafsBlobTable::V5(v5) => Seq::empty(),
        RafsBlobTable::V6(v6) => v6.entries@.map_values(
            |pair: (BlobTableEntry, BlobMetaHeader)| pair.1,
        ),
    }
}

/// A new table has the format version that is asked for and no entries.
pub proof fn law_new_table(version: RafsVersion, table: RafsBlobTable)
    requires
        call_ensures(RafsBlobTable::new, (version,), table),
    ensures
        version == RafsVersion::V5 <==> table is V5,
        version == RafsVersion::V6 <==> table is V6,
        entries_of(table).len() == 0,
{
}

/// An entry is added behind those that are there, as it is given. A table of version 6 holds its
/// header with it.
pub proof fn law_added_entry(
    table: &mut RafsBlobTable,
    entry: BlobTableEntry,
    header: BlobMetaHeader,
)
    requires
        call_ensures(RafsBlobTable::add, (table, entry, header), ()),
    ensures
        *old(table) is V5 <==> *final(table) is V5,
        entries_of(*final(table)) == entries_of(*old(table)).push(entry),
        *old(table) is V6 ==> headers_of(*final(table)) == headers_of(*old(table)).push(header),
{
    assert(entries_of(*final(table)) =~= entries_of(*old(table)).push(entry));
    if *old(table) is V6 {
        assert(headers_of(*final(table)) =~= headers_of(*old(table)).push(header));
    }
}

/// The blob table of a build has the format version of the build and one entry per blob, at the
/// index of the blob, with its id, its sizes and the number and size of its chunks. What is
/// prefetched starts at offset 0, and no feature bits are set.
pub proof fn law_blob_table_tells_about_the_blobs<Z>(
    manager: &BlobManager,
    ctx: &BuildContext<Z>,
    table: RafsBlobTable,
    count: usize,
    i: usize,
    blob: &BlobContext,
)
    requires
        call_ensures(BlobManager::to_blob_table::<Z>, (manager, ctx), Ok(table)),
        call_ensures(BlobManager::len, (manager,), count),
        call_ensures(BlobManager::get_blob, (manager, i), Some(blob)),
    ensures
        ctx.fs_version == RafsVersion::V5 <==> table is V5,
        ctx.fs_version == RafsVersion::V6 <==> table is V6,
        entries_of(table).len() == count,
        i < count,
        entries_of(table)[i as int].blob_id@ == blob.blob_id@,
        entries_of(table)[i as int].prefetch_offset == 0,
        entries_of(table)[i as int].prefetch_size == blob.blob_prefetch_size,
        entries_of(table)[i as int].chunk_size == blob.chunk_size,
        entries_of(table)[i as int].chunk_count == blob.chunk_count,
        entries_of(table)[i as int].uncompressed_size == blob.uncompressed_blob_size,
        entries_of(table)[i as int].compressed_size == blob.compressed_blob_size,
        entries_of(table)[i as int].blob_features == 0,
        table is V6 ==> headers_of(table).len() == count && headers_of(table)[i as int]
            == blob.blob_meta_header,
{
    assert(entries_of(table)[i as int] == table.entry(i as int));
    if table is V6 {
        assert(table->V6_0.entries@[i as int].1 == blob.blob_meta_header);
    }
}

/// Every entry of the blob table has the compressor and the digester of the build.
pub proof fn law_blob_table_has_the_algorithms_of_the_build<Z>(
    manager: &BlobManager,
    ctx: &BuildContext<Z>,
    table: RafsBlobTable,
    i: int,
)
    requires
        call_ensures(BlobManager::to_blob_table::<Z>, (manager, ctx), Ok(table)),
        0 <= i < entries_of(table).len(),
    ensures
        entries_of(table)[i].compressor == ctx.compressor,
        entries_of(table)[i].digester == ctx.digester,
{
    assert(entries_of(table)[i] == table.entry(i));
}

/// There is no blob table exactly if the prefetch size of some blob does not have 32 bits.
pub proof fn law_blob_table_needs_small_prefetch_sizes<Z>(
    manager: &BlobManager,
    ctx: &BuildContext<Z>,
    result: Result<RafsBlobTable, BuildError>,
    blobs: Vec<&BlobContext>,
)
    requires
        call_ensures(BlobManager::to_blob_table::<Z>, (manager, ctx), result),
        call_ensures(BlobManager::get_blobs, (manager,), blobs),
    ensures
        result is Err <==> exists|i: int|
            0 <= i < blobs@.len() && (#[trigger] blobs@[i]).blob_prefetch_size >= 0x1_0000_0000,
        result is Err ==> result->Err_0 == BuildError::PrefetchSizeOutOfRange,
{
    if result is Err {
        let i = choose|i: int|
            0 <= i < manager.spec_blobs().len() && (
            #[trigger] manager.spec_blobs()[i]).blob_prefetch_size > u32::MAX;
        assert(blobs@[i].blob_prefetch_size >= 0x1_0000_0000);
    } else {
        assert forall|i: int| 0 <= i < blobs@.len() implies (
        #[trigger] blobs@[i]).blob_prefetch_size < 0x1_0000_0000 by {
            assert(*blobs@[i] == manager.spec_blobs()[i]);
        }
    }
}

/// Importing the blobs of a parent image and listing them again keeps what the table of the parent
/// tells about them: place, id, sizes and chunks, and in version 6 where the chunk information of
/// each is stored.
pub proof fn law_parent_table_is_kept<Z>(
    manager: &mut BlobManager,
    ctx: &BuildContext<Z>,
    parent: Vec<Arc<BlobInfo>>,
    table: RafsBlobTable,
    i: int,
)
    requires
        call_ensures(BlobManager::from_blob_table::<Z>, (manager, ctx, parent), ()),
        call_ensures(BlobManager::to_blob_table::<Z>, (&*final(manager), ctx), Ok(table)),
        0 <= i < parent@.len(),
    ensures
        entries_of(table).len() == parent@.len(),
        entries_of(table)[i].blob_id@ == parent@[i].blob_id@,
        entries_of(table)[i].prefetch_size == parent@[i].prefetch_size,
        entries_of(table)[i].chunk_size == parent@[i].chunk_size,
        entries_of(table)[i].chunk_count == parent@[i].chunk_count,
        entries_of(table)[i].uncompressed_size == parent@[i].uncompressed_size,
        entries_of(table)[i].compressed_size == parent@[i].compressed_size,
        table is V6 && parent@[i].meta_ci_is_valid ==> {
            &&& headers_of(table)[i].aligned_4k
            &&& headers_of(table)[i].ci_compressor == parent@[i].meta_ci_compressor
            &&& headers_of(table)[i].ci_entries == parent@[i].chunk_count
            &&& headers_of(table)[i].ci_compressed_offset == parent@[i].meta_ci_offset
            &&& headers_of(table)[i].ci_compressed_size == parent@[i].meta_ci_compressed_size
            &&& headers_of(table)[i].ci_uncompressed_size == parent@[i].meta_ci_uncompressed_size
        },
        table is V6 && !parent@[i].meta_ci_is_valid ==> {
            &&& headers_of(table)[i].aligned_4k == ctx.aligned_chunk
            &&& headers_of(table)[i].ci_compressor == compress::Algorithm::Lz4Block
            &&& headers_of(table)[i].ci_entries == 0
        },
{
    assert(entries_of(table)[i] == table.entry(i));
    assert(final(manager).spec_blobs()[i].taken_over(
        *ctx,
        *parent@[i],
        ChunkSource::Parent,
    ));
    if table is V6 {
        assert(table->V6_0.entries@[i].1 == final(manager).spec_blobs()[i].blob_meta_header);
    }
}

} // verus!
