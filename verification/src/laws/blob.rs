//! Laws on the blob of a layer and its metadata.
use vstd::prelude::*;
use crate::blob::{hashed_bytes, BlobContext, ChunkSource};
use crate::blob_meta::{
    BlobChunkInfoV2, BlobInfo, BlobMetaChunkArray, BlobMetaHeader, ChunkWrapper,
    BLOB_META_FEATURE_4K_ALIGNED, BLOB_META_FEATURE_CHUNK_INFO_V2, BLOB_META_FEATURE_SEPARATE,
    BLOB_META_FEATURE_ZRAN,
};
use crate::build_context::{BuildContext, PrefetchPolicy};
use crate::compress;
use crate::conversion::ConversionType;
use crate::error::BuildError;

verus! {

/// Every feature has a bit of its own, from the lowest one up, so any set of features can be told
/// from its bits.
pub proof fn law_features_are_independent(
    aligned_4k: bool,
    separate: bool,
    chunk_info_v2: bool,
    zran: bool,
    features: u32,
)
    requires
        features == (if aligned_4k {
            BLOB_META_FEATURE_4K_ALIGNED
        } else {
            0
        }) | (if separate {
            BLOB_META_FEATURE_SEPARATE
        } else {
            0
        }) | (if chunk_info_v2 {
            BLOB_META_FEATURE_CHUNK_INFO_V2
        } else {
            0
        }) | (if zran {
            BLOB_META_FEATURE_ZRAN
        } else {
            0
        }),
    ensures
        features & BLOB_META_FEATURE_4K_ALIGNED != 0 <==> aligned_4k,
        features & BLOB_META_FEATURE_SEPARATE != 0 <==> separate,
        features & BLOB_META_FEATURE_CHUNK_INFO_V2 != 0 <==> chunk_info_v2,
        features & BLOB_META_FEATURE_ZRAN != 0 <==> zran,
        features == (if aligned_4k {
            1int
        } else {
            0
        }) + (if separate {
            2int
        } else {
            0
        }) + (if chunk_info_v2 {
            4int
        } else {
            0
        }) + (if zran {
            8int
        } else {
            0
        }),
{
    let a: u32 = if aligned_4k { 1 } else { 0 };
    let b: u32 = if separate { 2 } else { 0 };
    let c: u32 = if chunk_info_v2 { 4 } else { 0 };
    let d: u32 = if zran { 8 } else { 0 };
    assert(features == a | b | c | d);
    assert((a | b | c | d) & 1 == a && (a | b | c | d) & 2 == b && (a | b | c | d) & 4 == c && (a
        | b | c | d) & 8 == d && (a | b | c | d) == a + b + c + d) by (bit_vector)
        requires
            a == 0 || a == 1,
            b == 0 || b == 2,
            c == 0 || c == 4,
            d == 0 || d == 8,
    ;
}

/// A blank header has no features and describes no chunk information.
pub proof fn law_blank_header(header: BlobMetaHeader)
    requires
        call_ensures(<BlobMetaHeader as Default>::default, (), header),
    ensures
        !header.aligned_4k,
        !header.ci_separate,
        !header.chunk_info_v2,
        !header.ci_zran,
        header.ci_compressor == compress::Algorithm::Lz4Block,
        header.ci_entries == 0,
        header.ci_compressed_offset == 0,
        header.ci_compressed_size == 0,
        header.ci_uncompressed_size == 0,
{
}

/// A new blob is empty and starts at the given offset. Its header has exactly the given features,
/// and its chunk information has format v2 exactly if that is one of them.
pub proof fn law_new_blob(blob_id: String, blob_offset: u64, features: u32, blob: BlobContext)
    requires
        call_ensures(BlobContext::new, (blob_id, blob_offset, features), blob),
    ensures
        blob.blob_id@ == blob_id@,
        blob.compressed_offset == blob_offset,
        blob.uncompressed_offset == 0,
        hashed_bytes(blob.blob_hash).len() == 0,
        blob.compressed_blob_size == 0,
        blob.uncompressed_blob_size == 0,
        blob.blob_prefetch_size == 0,
        blob.chunk_count == 0,
        blob.chunk_size == 1024 * 1024,
        blob.chunk_source == ChunkSource::Build,
        !blob.blob_meta_info_enabled,
        blob.blob_meta_header.aligned_4k <==> features & BLOB_META_FEATURE_4K_ALIGNED != 0,
        blob.blob_meta_header.ci_separate <==> features & BLOB_META_FEATURE_SEPARATE != 0,
        blob.blob_meta_header.chunk_info_v2 <==> features & BLOB_META_FEATURE_CHUNK_INFO_V2 != 0,
        blob.blob_meta_header.ci_zran <==> features & BLOB_META_FEATURE_ZRAN != 0,
        blob.blob_meta_header.ci_compressor == compress::Algorithm::Lz4Block,
        blob.blob_meta_header.ci_entries == 0,
        blob.blob_meta_header.ci_compressed_offset == 0,
        blob.blob_meta_header.ci_compressed_size == 0,
        blob.blob_meta_header.ci_uncompressed_size == 0,
        match blob.blob_meta_info {
            BlobMetaChunkArray::V1(entries) => features & BLOB_META_FEATURE_CHUNK_INFO_V2 == 0
                && entries@.len() == 0,
            BlobMetaChunkArray::V2(entries) => features & BLOB_META_FEATURE_CHUNK_INFO_V2 != 0
                && entries@.len() == 0,
        },
{
}

/// A blob that is taken over has the id, the sizes and the chunks that are told of it, and the
/// features; whether its chunks are aligned is for the build to say unless it has chunk
/// information.
pub proof fn law_taken_over_blob<Z>(
    ctx: &BuildContext<Z>,
    info: &BlobInfo,
    chunk_source: ChunkSource,
    blob: BlobContext,
)
    requires
        call_ensures(BlobContext::from::<Z>, (ctx, info, chunk_source), blob),
    ensures
        blob.blob_id@ == info.blob_id@,
        blob.blob_prefetch_size == info.prefetch_size,
        blob.chunk_count == info.chunk_count,
        blob.chunk_size == info.chunk_size,
        blob.uncompressed_blob_size == info.uncompressed_size,
        blob.compressed_blob_size == info.compressed_size,
        blob.chunk_source == chunk_source,
        blob.compressed_offset == 0,
        blob.uncompressed_offset == 0,
        hashed_bytes(blob.blob_hash).len() == 0,
        blob.blob_meta_info_enabled <==> info.meta_ci_is_valid,
        blob.blob_meta_header.aligned_4k <==> info.meta_ci_is_valid || ctx.aligned_chunk,
        blob.blob_meta_header.ci_separate <==> info.meta_flags & BLOB_META_FEATURE_SEPARATE != 0,
        blob.blob_meta_header.chunk_info_v2 <==> info.meta_flags & BLOB_META_FEATURE_CHUNK_INFO_V2
            != 0,
        blob.blob_meta_header.ci_zran <==> info.meta_flags & BLOB_META_FEATURE_ZRAN != 0,
        match blob.blob_meta_info {
            BlobMetaChunkArray::V1(entries) => info.meta_flags & BLOB_META_FEATURE_CHUNK_INFO_V2
                == 0 && entries@.len() == 0,
            BlobMetaChunkArray::V2(entries) => info.meta_flags & BLOB_META_FEATURE_CHUNK_INFO_V2
                != 0 && entries@.len() == 0,
        },
{
}

/// The header of a blob that is taken over says where its chunk information is stored, how it is
/// compressed and how many entries it has, whatever the features of the blob. If the blob has no
/// chunk information, the header describes none.
pub proof fn law_chunk_info_of_taken_over_blob<Z>(
    ctx: &BuildContext<Z>,
    info: &BlobInfo,
    chunk_source: ChunkSource,
    blob: BlobContext,
)
    requires
        call_ensures(BlobContext::from::<Z>, (ctx, info, chunk_source), blob),
    ensures
        info.meta_ci_is_valid ==> {
            &&& blob.blob_meta_header.ci_compressor == info.meta_ci_compressor
            &&& blob.blob_meta_header.ci_entries == info.chunk_count
            &&& blob.blob_meta_header.ci_compressed_offset == info.meta_ci_offset
            &&& blob.blob_meta_header.ci_compressed_size == info.meta_ci_compressed_size
            &&& blob.blob_meta_header.ci_uncompressed_size == info.meta_ci_uncompressed_size
        },
        !info.meta_ci_is_valid ==> {
            &&& blob.blob_meta_header.ci_compressor == compress::Algorithm::Lz4Block
            &&& blob.blob_meta_header.ci_entries == 0
            &&& blob.blob_meta_header.ci_compressed_offset == 0
            &&& blob.blob_meta_header.ci_compressed_size == 0
            &&& blob.blob_meta_header.ci_uncompressed_size == 0
        },
{
}

/// Where a blob comes from changes nothing else about it: taken over from the parent image and from
/// a chunk dictionary, the same blob looks the same.
pub proof fn law_source_is_only_recorded<Z>(
    ctx: &BuildContext<Z>,
    info: &BlobInfo,
    source: ChunkSource,
    other_source: ChunkSource,
    blob: BlobContext,
    other: BlobContext,
)
    requires
        call_ensures(BlobContext::from::<Z>, (ctx, info, source), blob),
        call_ensures(BlobContext::from::<Z>, (ctx, info, other_source), other),
    ensures
        blob.chunk_source == source,
        other.chunk_source == other_source,
        blob.blob_id@ == other.blob_id@,
        blob.blob_prefetch_size == other.blob_prefetch_size,
        blob.blob_meta_info_enabled == other.blob_meta_info_enabled,
        blob.blob_meta_header == other.blob_meta_header,
        blob.compressed_blob_size == other.compressed_blob_size,
        blob.uncompressed_blob_size == other.uncompressed_blob_size,
        blob.compressed_offset == other.compressed_offset,
        blob.uncompressed_offset == other.uncompressed_offset,
        blob.chunk_count == other.chunk_count,
        blob.chunk_size == other.chunk_size,
{
}

/// Setting the chunk size changes that and nothing else.
pub proof fn law_set_chunk_size(blob: &mut BlobContext, chunk_size: u32)
    requires
        call_ensures(BlobContext::set_chunk_size, (blob, chunk_size), ()),
    ensures
        final(blob).chunk_size == chunk_size,
        *final(blob) == (BlobContext { chunk_size: final(blob).chunk_size, ..*old(blob) }),
{
}

/// Enabling chunk information changes that and nothing else.
pub proof fn law_set_meta_info_enabled(blob: &mut BlobContext, enable: bool)
    requires
        call_ensures(BlobContext::set_meta_info_enabled, (blob, enable), ()),
    ensures
        final(blob).blob_meta_info_enabled == enable,
        *final(blob) == (BlobContext {
            blob_meta_info_enabled: final(blob).blob_meta_info_enabled,
            ..*old(blob)
        }),
{
}

/// A blob loses its prefetch size unless blobs are what is prefetched, if it has data or is one
/// that a stargz index refers to by its id. Else it keeps it, and nothing else ever changes.
pub proof fn law_reset_prefetch_size<Z>(blob: &mut BlobContext, ctx: &BuildContext<Z>)
    requires
        call_ensures(BlobContext::set_blob_prefetch_size::<Z>, (blob, ctx), ()),
    ensures
        *final(blob) == (BlobContext {
            blob_prefetch_size: final(blob).blob_prefetch_size,
            ..*old(blob)
        }),
        ctx.prefetch.policy == PrefetchPolicy::Blob ==> final(blob).blob_prefetch_size == old(
            blob,
        ).blob_prefetch_size,
        ctx.prefetch.policy != PrefetchPolicy::Blob && old(blob).compressed_blob_size > 0
            ==> final(blob).blob_prefetch_size == 0,
        ctx.prefetch.policy != PrefetchPolicy::Blob && ctx.conversion_type
            == ConversionType::EStargzIndexToRef && old(blob).blob_id@.len() > 0
            ==> final(blob).blob_prefetch_size == 0,
        old(blob).compressed_blob_size == 0 && ctx.conversion_type
            != ConversionType::EStargzIndexToRef ==> final(blob).blob_prefetch_size == old(
            blob,
        ).blob_prefetch_size,
        old(blob).compressed_blob_size == 0 && old(blob).blob_id@.len() == 0
            ==> final(blob).blob_prefetch_size == old(blob).blob_prefetch_size,
{
}

/// A chunk array starts empty, in the format that is asked for, and counts its entries.
pub proof fn law_new_chunk_arrays(
    v1: BlobMetaChunkArray,
    v2: BlobMetaChunkArray,
    array: BlobMetaChunkArray,
    len: usize,
)
    requires
        call_ensures(BlobMetaChunkArray::new_v1, (), v1),
        call_ensures(BlobMetaChunkArray::new_v2, (), v2),
        call_ensures(BlobMetaChunkArray::len, (&array,), len),
    ensures
        v1 matches BlobMetaChunkArray::V1(entries) && entries@.len() == 0,
        v2 matches BlobMetaChunkArray::V2(entries) && entries@.len() == 0,
        array matches BlobMetaChunkArray::V1(entries) ==> len == entries@.len(),
        array matches BlobMetaChunkArray::V2(entries) ==> len == entries@.len(),
{
}

/// An array in format v1 stays in that format and gets one more entry, with the offsets and sizes
/// of the chunk, even if an entry in format v2 was prepared. The entries before it stay.
pub proof fn law_appended_v1_entry(
    array: &mut BlobMetaChunkArray,
    chunk: &ChunkWrapper,
    prepared: Option<BlobChunkInfoV2>,
)
    requires
        call_ensures(BlobMetaChunkArray::append, (array, chunk, prepared), ()),
        *old(array) is V1,
    ensures
        *final(array) is V1,
        ({
            let before = old(array)->V1_0@;
            let after = final(array)->V1_0@;
            &&& after.len() == before.len() + 1
            &&& forall|i: int| 0 <= i < before.len() ==> after[i] == before[i]
            &&& after.last().compressed_offset == chunk.compressed_offset
            &&& after.last().compressed_size == chunk.compressed_size
            &&& after.last().uncompressed_offset == chunk.uncompressed_offset
            &&& after.last().uncompressed_size == chunk.uncompressed_size
        }),
{
}

/// An array in format v2 stays in that format and gets one more entry: the one that was prepared,
/// or else one with the offsets and sizes of the chunk that says whether the chunk is compressed
/// and has no further data. The entries before it stay.
pub proof fn law_appended_v2_entry(
    array: &mut BlobMetaChunkArray,
    chunk: &ChunkWrapper,
    prepared: Option<BlobChunkInfoV2>,
)
    requires
        call_ensures(BlobMetaChunkArray::append, (array, chunk, prepared), ()),
        *old(array) is V2,
    ensures
        *final(array) is V2,
        ({
            let before = old(array)->V2_0@;
            let after = final(array)->V2_0@;
            &&& after.len() == before.len() + 1
            &&& forall|i: int| 0 <= i < before.len() ==> after[i] == before[i]
            &&& prepared is Some ==> after.last() == prepared->Some_0
            &&& prepared is None ==> {
                &&& after.last().compressed_offset == chunk.compressed_offset
                &&& after.last().compressed_size == chunk.compressed_size
                &&& after.last().uncompressed_offset == chunk.uncompressed_offset
                &&& after.last().uncompressed_size == chunk.uncompressed_size
                &&& after.last().compressed == chunk.is_compressed
                &&& after.last().data == 0
            }
        }),
{
}

/// Adding chunk information never fails and changes nothing but the chunk information, and that
/// only if it is kept.
pub proof fn law_chunk_info_is_optional(
    blob: &mut BlobContext,
    chunk: &ChunkWrapper,
    prepared: Option<BlobChunkInfoV2>,
    result: Result<(), BuildError>,
)
    requires
        call_ensures(BlobContext::add_chunk_meta_info, (blob, chunk, prepared), result),
    ensures
        result is Ok,
        *final(blob) == (BlobContext { blob_meta_info: final(blob).blob_meta_info, ..*old(blob) }),
        !old(blob).blob_meta_info_enabled ==> final(blob).blob_meta_info == old(
            blob,
        ).blob_meta_info,
{
}

/// A blob that keeps chunk information in format v1 gets an entry with the offsets and sizes of
/// the chunk, and keeps the others.
pub proof fn law_added_v1_chunk_info(
    blob: &mut BlobContext,
    chunk: &ChunkWrapper,
    prepared: Option<BlobChunkInfoV2>,
    result: Result<(), BuildError>,
)
    requires
        call_ensures(BlobContext::add_chunk_meta_info, (blob, chunk, prepared), result),
        old(blob).blob_meta_info_enabled,
        old(blob).blob_meta_info is V1,
    ensures
        final(blob).blob_meta_info is V1,
        ({
            let before = old(blob).blob_meta_info->V1_0@;
            let after = final(blob).blob_meta_info->V1_0@;
            &&& after.len() == before.len() + 1
            &&& forall|i: int| 0 <= i < before.len() ==> after[i] == before[i]
            &&& after.last().compressed_offset == chunk.compressed_offset
            &&& after.last().compressed_size == chunk.compressed_size
            &&& after.last().uncompressed_offset == chunk.uncompressed_offset
            &&& after.last().uncompressed_size == chunk.uncompressed_size
        }),
{
}

/// A blob that keeps chunk information in format v2 gets the prepared entry or, without one, an
/// entry with the offsets and sizes of the chunk that is marked as compressed exactly if the chunk
/// is. It keeps the others.
pub proof fn law_added_v2_chunk_info(
    blob: &mut BlobContext,
    chunk: &ChunkWrapper,
    prepared: Option<BlobChunkInfoV2>,
    result: Result<(), BuildError>,
)
    requires
        call_ensures(BlobContext::add_chunk_meta_info, (blob, chunk, prepared), result),
        old(blob).blob_meta_info_enabled,
        old(blob).blob_meta_info is V2,
    ensures
        final(blob).blob_meta_info is V2,
        ({
            let before = old(blob).blob_meta_info->V2_0@;
            let after = final(blob).blob_meta_info->V2_0@;
            &&& after.len() == before.len() + 1
            &&& forall|i: int| 0 <= i < before.len() ==> after[i] == before[i]
            &&& prepared is Some ==> after.last() == prepared->Some_0
            &&& prepared is None ==> {
                &&& after.last().compressed_offset == chunk.compressed_offset
                &&& after.last().compressed_size == chunk.compressed_size
                &&& after.last().uncompressed_offset == chunk.uncompressed_offset
                &&& after.last().uncompressed_size == chunk.uncompressed_size
                &&& after.last().compressed == chunk.is_compressed
                &&& after.last().data == 0
            }
        }),
{
}

/// Chunk indices are given out one after the other, as long as they have 24 bits and are not the
/// last of these. Nothing but the number of chunks changes.
pub proof fn law_chunk_indices(
    blob: &mut BlobContext,
    index: Result<u32, BuildError>,
    again: &mut BlobContext,
    next: Result<u32, BuildError>,
)
    requires
        call_ensures(BlobContext::alloc_chunk_index, (blob,), index),
        *old(again) == *final(blob),
        call_ensures(BlobContext::alloc_chunk_index, (again,), next),
    ensures
        index is Ok <==> old(blob).chunk_count < 0xff_ffff,
        index is Ok ==> index->Ok_0 == old(blob).chunk_count && final(blob).chunk_count
            == index->Ok_0 + 1,
        index is Err ==> index->Err_0 == BuildError::TooManyChunks && final(blob).chunk_count
            == old(blob).chunk_count,
        *final(blob) == (BlobContext { chunk_count: final(blob).chunk_count, ..*old(blob) }),
        index is Ok && next is Ok ==> next->Ok_0 == index->Ok_0 + 1,
        index is Err ==> next is Err,
{
}

/// A blob has an id to refer to it by exactly if it has data, and asking for it changes nothing.
pub proof fn law_id_of_blob_with_data(blob: &mut BlobContext, id: Option<String>)
    requires
        call_ensures(BlobContext::blob_id, (blob,), id),
    ensures
        *final(blob) == *old(blob),
        id is Some <==> old(blob).compressed_blob_size > 0,
        id is Some ==> id->Some_0@ == old(blob).blob_id@,
{
}

} // verus!
