//! The blob of a layer.
use sha2::{Digest, Sha256};
use vstd::prelude::*;
use crate::blob_meta::{
    header_with_features, BlobChunkInfoV2, BlobInfo, BlobMetaChunkArray,
    BlobMetaHeader, ChunkWrapper, BLOB_META_FEATURE_4K_ALIGNED, BLOB_META_FEATURE_CHUNK_INFO_V2,
    BLOB_META_FEATURE_SEPARATE, BLOB_META_FEATURE_ZRAN,
};
use crate::build_context::{BuildContext, PrefetchPolicy, RafsVersion, RAFS_DEFAULT_CHUNK_SIZE};
use crate::conversion::ConversionType;
use crate::error::BuildError;

verus! {

/// Number of chunks that a blob can hold: a chunk index has 24 bits, and the last one is not used.
pub const MAX_CHUNK_COUNT: u32 = 0xff_ffff;

/// `sha2::Sha256`, a hasher that is carried through.
#[verifier::external_type_specification]
#[verifier::external_body]
pub struct ExSha256(Sha256);

/// The bytes that a hasher has taken in.
pub uninterp spec fn hashed_bytes(hasher: Sha256) -> Seq<u8>;

/// `<sha2::Sha256 as sha2::Digest>::new`: a hasher that has taken in nothing.
#[verifier::external_body]
fn new_hasher() -> (hasher: Sha256)
    ensures
        hashed_bytes(hasher) == Seq::<u8>::empty(),
{
    Sha256::new()
}

/// Where the chunks of a blob come from.
#[derive(Clone, Copy, Debug, PartialEq, Eq, Structural)]
pub enum ChunkSource {
    /// From this build.
    Build,
    /// From a chunk dictionary.
    Dict,
    /// From the parent image.
    Parent,
}

/// BlobContext is used to hold the blob information of a layer during build.
pub struct BlobContext {
    /// Blob id (user specified or sha256(blob)).
    pub blob_id: String,
    pub blob_hash: Sha256,
    pub blob_prefetch_size: u64,
    /// Whether to generate blob metadata information.
    pub blob_meta_info_enabled: bool,
    /// Data chunks stored in the data blob, for v6.
    pub blob_meta_info: BlobMetaChunkArray,
    /// Blob metadata header stored in the data blob, for v6
    pub blob_meta_header: BlobMetaHeader,
    /// Final compressed blob file size.
    pub compressed_blob_size: u64,
    /// Final expected blob cache file size.
    pub uncompressed_blob_size: u64,
    /// Current blob offset cursor for writing to disk file.
    pub compressed_offset: u64,
    pub uncompressed_offset: u64,
    /// The number of counts in a blob by the index of blob table.
    pub chunk_count: u32,
    /// Chunk slice size.
    pub chunk_size: u32,
    /// Whether the blob is from chunk dict.
    pub chunk_source: ChunkSource,
}

impl BlobContext {
    /// Whether this is a blob that nothing has been written to, with the given id, start and
    /// feature bits.
    pub open spec fn is_new(self, blob_id: Seq<char>, blob_offset: u64, features: u32) -> bool {
        &&& self.blob_id@ == blob_id
        &&& hashed_bytes(self.blob_hash) == Seq::<u8>::empty()
        &&& self.blob_prefetch_size == 0
        &&& !self.blob_meta_info_enabled
        &&& self.blob_meta_info.is_empty_array(features & BLOB_META_FEATURE_CHUNK_INFO_V2 != 0)
        &&& self.blob_meta_header == header_with_features(features)
        &&& self.compressed_blob_size == 0
        &&& self.uncompressed_blob_size == 0
        &&& self.compressed_offset == blob_offset
        &&& self.uncompressed_offset == 0
        &&& self.chunk_count == 0
        &&& self.chunk_size == RAFS_DEFAULT_CHUNK_SIZE
        &&& self.chunk_source == ChunkSource::Build
    }

    /// Whether this is the blob that `ctx` asks for: new, with the options of the build.
    pub open spec fn is_new_for<Z>(self, ctx: BuildContext<Z>) -> bool {
        (BlobContext {
            chunk_size: RAFS_DEFAULT_CHUNK_SIZE,
            blob_meta_info_enabled: false,
            ..self
        }).is_new(ctx.blob_id@, ctx.blob_offset, ctx.blob_meta_features) && self.chunk_size
            == ctx.chunk_size && self.blob_meta_info_enabled == (ctx.fs_version == RafsVersion::V6)
    }

    /// The header of a blob that is taken over: if it has chunk information, that is described
    /// and the chunks are aligned; if not, the chunks are aligned as the build asks for.
    pub open spec fn header_taken_over(aligned_chunk: bool, blob: BlobInfo) -> BlobMetaHeader {
        let header = header_with_features(blob.meta_flags);
        if blob.meta_ci_is_valid {
            BlobMetaHeader {
                aligned_4k: true,
                ci_compressor: blob.meta_ci_compressor,
                ci_entries: blob.chunk_count,
                ci_compressed_offset: blob.meta_ci_offset,
                ci_compressed_size: blob.meta_ci_compressed_size,
                ci_uncompressed_size: blob.meta_ci_uncompressed_size,
                ..header
            }
        } else {
            BlobMetaHeader { aligned_4k: aligned_chunk, ..header }
        }
    }

    /// Whether this is the blob that `blob` tells about, taken over into the build of `ctx`.
    pub open spec fn taken_over<Z>(
        self,
        ctx: BuildContext<Z>,
        blob: BlobInfo,
        chunk_source: ChunkSource,
    ) -> bool {
        &&& self.blob_id@ == blob.blob_id@
        &&& hashed_bytes(self.blob_hash) == Seq::<u8>::empty()
        &&& self.blob_prefetch_size == blob.prefetch_size
        &&& self.blob_meta_info_enabled == blob.meta_ci_is_valid
        &&& self.blob_meta_info.is_empty_array(
            blob.meta_flags & BLOB_META_FEATURE_CHUNK_INFO_V2 != 0,
        )
        &&& self.blob_meta_header == Self::header_taken_over(ctx.aligned_chunk, blob)
        &&& self.compressed_blob_size == blob.compressed_size
        &&& self.uncompressed_blob_size == blob.uncompressed_size
        &&& self.compressed_offset == 0
        &&& self.uncompressed_offset == 0
        &&& self.chunk_count == blob.chunk_count
        &&& self.chunk_size == blob.chunk_size
        &&& self.chunk_source == chunk_source
    }

    /// A blob that nothing has been written to.
    pub fn new(blob_id: String, blob_offset: u64, features: u32) -> (blob_ctx: Self)
        ensures
            blob_ctx.is_new(blob_id@, blob_offset, features),
    {
        let blob_meta_info: BlobMetaChunkArray = if features & BLOB_META_FEATURE_CHUNK_INFO_V2
            != 0 {
            BlobMetaChunkArray::new_v2()
        } else {
            BlobMetaChunkArray::new_v1()
        };
        let mut blob_ctx = BlobContext {
            blob_id,
            blob_hash: new_hasher(),
            blob_prefetch_size: 0,
            blob_meta_info_enabled: false,
            blob_meta_info,
            blob_meta_header: BlobMetaHeader::default(),
            compressed_blob_size: 0,
            uncompressed_blob_size: 0,
            compressed_offset: blob_offset,
            uncompressed_offset: 0,
            chunk_count: 0,
            chunk_size: RAFS_DEFAULT_CHUNK_SIZE,
            chunk_source: ChunkSource::Build,
        };

        if features & BLOB_META_FEATURE_4K_ALIGNED != 0 {
            blob_ctx.blob_meta_header.aligned_4k = true;
        }
        if features & BLOB_META_FEATURE_SEPARATE != 0 {
            blob_ctx.blob_meta_header.ci_separate = true;
        }
        if features & BLOB_META_FEATURE_CHUNK_INFO_V2 != 0 {
            blob_ctx.blob_meta_header.chunk_info_v2 = true;
        }
        if features & BLOB_META_FEATURE_ZRAN != 0 {
            blob_ctx.blob_meta_header.ci_zran = true;
        }
        blob_ctx
    }

    /// The blob that `blob` tells about, taken over from a parent image or a chunk dictionary.
    pub fn from<Z>(
        ctx: &BuildContext<Z>,
        blob: &BlobInfo,
        chunk_source: ChunkSource,
    ) -> (blob_ctx: Self)
        ensures
            blob_ctx.taken_over(*ctx, *blob, chunk_source),
    {
        let mut blob_ctx = Self::new(blob.blob_id.clone(), 0, blob.meta_flags);

        blob_ctx.blob_prefetch_size = blob.prefetch_size;
        blob_ctx.chunk_count = blob.chunk_count;
        blob_ctx.uncompressed_blob_size = blob.uncompressed_size;
        blob_ctx.compressed_blob_size = blob.compressed_size;
        blob_ctx.chunk_size = blob.chunk_size;
        blob_ctx.chunk_source = chunk_source;
        blob_ctx.blob_meta_header.aligned_4k = ctx.aligned_chunk;

        if blob.meta_ci_is_valid {
            blob_ctx.blob_meta_header.ci_compressor = blob.meta_ci_compressor;
            blob_ctx.blob_meta_header.ci_entries = blob.chunk_count;
            blob_ctx.blob_meta_header.ci_compressed_offset = blob.meta_ci_offset;
            blob_ctx.blob_meta_header.ci_compressed_size = blob.meta_ci_compressed_size;
            blob_ctx.blob_meta_header.ci_uncompressed_size = blob.meta_ci_uncompressed_size;
            blob_ctx.blob_meta_header.aligned_4k = true;
            blob_ctx.blob_meta_header.chunk_info_v2 = blob.meta_flags
                & BLOB_META_FEATURE_CHUNK_INFO_V2 != 0;
            blob_ctx.blob_meta_info_enabled = true;
        }
        blob_ctx
    }

    /// Sets the chunk size.
    pub fn set_chunk_size(&mut self, chunk_size: u32)
        ensures
            *final(self) == (BlobContext { chunk_size, ..*old(self) }),
    {
        self.chunk_size = chunk_size;
    }

    /// Whether a blob keeps its prefetch size in the build of `ctx`. It loses it if it has data,
    /// or is referred to by a stargz index under an id, unless blobs are what is prefetched.
    pub open spec fn keeps_prefetch_size<Z>(self, ctx: BuildContext<Z>) -> bool {
        ||| ctx.prefetch.policy == PrefetchPolicy::Blob
        ||| self.compressed_blob_size == 0 && (ctx.conversion_type
            != ConversionType::EStargzIndexToRef || self.blob_id@.len() == 0)
    }

    /// Resets the prefetch size if it is of no use.
    pub fn set_blob_prefetch_size<Z>(&mut self, ctx: &BuildContext<Z>)
        ensures
            *final(self) == if old(self).keeps_prefetch_size(*ctx) {
                *old(self)
            } else {
                BlobContext { blob_prefetch_size: 0, ..*old(self) }
            },
    {
        if (self.compressed_blob_size > 0 || (ctx.conversion_type
            == ConversionType::EStargzIndexToRef && !self.blob_id.as_str().is_empty()))
            && ctx.prefetch.policy != PrefetchPolicy::Blob {
            self.blob_prefetch_size = 0;
        }
    }

    /// Sets whether to generate blob metadata information.
    pub fn set_meta_info_enabled(&mut self, enable: bool)
        ensures
            *final(self) == (BlobContext { blob_meta_info_enabled: enable, ..*old(self) }),
    {
        self.blob_meta_info_enabled = enable;
    }

    /// Whether this is `before` with the information of `chunk` added to it, if chunk information
    /// is kept at all.
    pub open spec fn chunk_info_added(
        self,
        before: Self,
        chunk: ChunkWrapper,
        chunk_info: Option<BlobChunkInfoV2>,
    ) -> bool {
        if before.blob_meta_info_enabled {
            &&& self.blob_meta_info.appended(before.blob_meta_info, chunk, chunk_info)
            &&& self == (BlobContext { blob_meta_info: self.blob_meta_info, ..before })
        } else {
            self == before
        }
    }

    /// Adds the information of `chunk`, if chunk information is kept. Chunks are added in the
    /// order of their indices.
    pub fn add_chunk_meta_info(
        &mut self,
        chunk: &ChunkWrapper,
        chunk_info: Option<BlobChunkInfoV2>,
    ) -> (result: Result<(), BuildError>)
        requires
            old(self).blob_meta_info_enabled ==> chunk.index as nat == old(
                self,
            ).blob_meta_info.spec_len(),
        ensures
            result is Ok,
            final(self).chunk_info_added(*old(self), *chunk, chunk_info),
    {
        if self.blob_meta_info_enabled {
            self.blob_meta_info.append(chunk, chunk_info);
        }
        Ok(())
    }

    /// Allocate a count index sequentially in a blob.
    pub fn alloc_chunk_index(&mut self) -> (result: Result<u32, BuildError>)
        ensures
            match result {
                Ok(index) => {
                    &&& index == old(self).chunk_count
                    &&& index < MAX_CHUNK_COUNT
                    &&& *final(self) == (BlobContext {
                        chunk_count: (index + 1) as u32,
                        ..*old(self)
                    })
                },
                Err(e) => {
                    &&& old(self).chunk_count >= MAX_CHUNK_COUNT
                    &&& e == BuildError::TooManyChunks
                    &&& *final(self) == *old(self)
                },
            },
    {
        let index: u32 = self.chunk_count;

        // Rafs v6 only supports 24 bit chunk id.
        if index >= MAX_CHUNK_COUNT {
            Err(BuildError::TooManyChunks)
        } else {
            self.chunk_count = index + 1;
            Ok(index)
        }
    }

    /// The id of the blob, if it has data.
    pub fn blob_id(&mut self) -> (id: Option<String>)
        ensures
            *final(self) == *old(self),
            match id {
                Some(text) => old(self).compressed_blob_size > 0 && text@ == old(self).blob_id@,
                None => old(self).compressed_blob_size == 0,
            },
    {
        if self.compressed_blob_size > 0 {
            Some(self.blob_id.clone())
        } else {
            None
        }
    }
}

/// The chunk information is in step with the chunk indices: if a blob that keeps chunk information
/// has one entry per allocated index, as a new one has, then the next index is the one under which
/// the next chunk can be added, and with that chunk the blob is in step again.
pub proof fn law_chunk_info_in_step(
    before: BlobContext,
    index: u32,
    allocated: BlobContext,
    chunk: ChunkWrapper,
    chunk_info: Option<BlobChunkInfoV2>,
    after: BlobContext,
)
    requires
        before.blob_meta_info_enabled,
        before.blob_meta_info.spec_len() == before.chunk_count,
        index == before.chunk_count,
        index < MAX_CHUNK_COUNT,
        allocated == (BlobContext { chunk_count: (index + 1) as u32, ..before }),
        chunk.index == index,
        after.chunk_info_added(allocated, chunk, chunk_info),
    ensures
        chunk.index as nat == allocated.blob_meta_info.spec_len(),
        after.blob_meta_info_enabled,
        after.blob_meta_info.spec_len() == after.chunk_count,
{
}

/// A new blob keeps no chunk information yet and has allocated no index, so it is in step.
pub proof fn law_new_blob_is_in_step(
    blob_ctx: BlobContext,
    blob_id: Seq<char>,
    blob_offset: u64,
    features: u32,
)
    requires
        blob_ctx.is_new(blob_id, blob_offset, features),
    ensures
        blob_ctx.blob_meta_info.spec_len() == blob_ctx.chunk_count,
{
}

} // verus!
