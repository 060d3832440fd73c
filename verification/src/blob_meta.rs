//! Metadata of a data blob.
use vstd::prelude::*;
use crate::compress;

verus! {

/// Feature bit: uncompressed chunks are aligned to 4k.
pub const BLOB_META_FEATURE_4K_ALIGNED: u32 = 1;

/// Feature bit: the chunk information is stored apart from the data.
pub const BLOB_META_FEATURE_SEPARATE: u32 = 2;

/// Feature bit: the chunk information has format v2.
pub const BLOB_META_FEATURE_CHUNK_INFO_V2: u32 = 4;

/// Feature bit: the blob has context to start decompression in the middle of a gzip stream.
pub const BLOB_META_FEATURE_ZRAN: u32 = 8;

/// Blob metadata header: the features of the blob, and where its chunk information is stored.
#[derive(Clone, Copy, Debug, PartialEq, Eq, Structural)]
pub struct BlobMetaHeader {
    /// Uncompressed chunks are aligned to 4k.
    pub aligned_4k: bool,
    /// The chunk information is stored apart from the data.
    pub ci_separate: bool,
    /// The chunk information has format v2.
    pub chunk_info_v2: bool,
    /// The blob has context to start decompression in the middle of a gzip stream.
    pub ci_zran: bool,
    /// How the chunk information is compressed.
    pub ci_compressor: compress::Algorithm,
    /// Number of entries of the chunk information.
    pub ci_entries: u32,
    /// Offset of the compressed chunk information.
    pub ci_compressed_offset: u64,
    /// Size of the compressed chunk information.
    pub ci_compressed_size: u64,
    /// Size of the uncompressed chunk information.
    pub ci_uncompressed_size: u64,
}

impl Default for BlobMetaHeader {
    fn default() -> (header: Self)
        ensures
            header == blank_header(),
    {
        BlobMetaHeader {
            aligned_4k: false,
            ci_separate: false,
            chunk_info_v2: false,
            ci_zran: false,
            ci_compressor: compress::Algorithm::Lz4Block,
            ci_entries: 0,
            ci_compressed_offset: 0,
            ci_compressed_size: 0,
            ci_uncompressed_size: 0,
        }
    }
}

/// The header of a blob without features and chunk information.
pub open spec fn blank_header() -> BlobMetaHeader {
    BlobMetaHeader {
        aligned_4k: false,
        ci_separate: false,
        chunk_info_v2: false,
        ci_zran: false,
        ci_compressor: compress::Algorithm::Lz4Block,
        ci_entries: 0,
        ci_compressed_offset: 0,
        ci_compressed_size: 0,
        ci_uncompressed_size: 0,
    }
}

/// The header of a blob with the given feature bits and no chunk information.
pub open spec fn header_with_features(features: u32) -> BlobMetaHeader {
    BlobMetaHeader {
        aligned_4k: features & BLOB_META_FEATURE_4K_ALIGNED != 0,
        ci_separate: features & BLOB_META_FEATURE_SEPARATE != 0,
        chunk_info_v2: features & BLOB_META_FEATURE_CHUNK_INFO_V2 != 0,
        ci_zran: features & BLOB_META_FEATURE_ZRAN != 0,
        ..blank_header()
    }
}

/// A chunk of a file, as it is stored in a blob.
#[derive(Clone, Copy, Debug, PartialEq, Eq, Structural)]
pub struct ChunkWrapper {
    /// Index of the chunk in the blob.
    pub index: u32,
    pub compressed_offset: u64,
    pub compressed_size: u32,
    pub uncompressed_offset: u64,
    pub uncompressed_size: u32,
    pub is_compressed: bool,
}

/// Entry of the chunk information, format v1.
#[derive(Clone, Copy, Debug, PartialEq, Eq, Structural)]
pub struct BlobChunkInfoV1 {
    pub compressed_offset: u64,
    pub compressed_size: u32,
    pub uncompressed_offset: u64,
    pub uncompressed_size: u32,
}

/// Entry of the chunk information, format v2.
#[derive(Clone, Copy, Debug, PartialEq, Eq, Structural)]
pub struct BlobChunkInfoV2 {
    pub compressed_offset: u64,
    pub compressed_size: u32,
    pub uncompressed_offset: u64,
    pub uncompressed_size: u32,
    pub compressed: bool,
    /// Data that depends on the features of the blob.
    pub data: u64,
}

impl ChunkWrapper {
    /// The v1 entry of the chunk.
    pub open spec fn v1_entry(self) -> BlobChunkInfoV1 {
        BlobChunkInfoV1 {
            compressed_offset: self.compressed_offset,
            compressed_size: self.compressed_size,
            uncompressed_offset: self.uncompressed_offset,
            uncompressed_size: self.uncompressed_size,
        }
    }

    /// The v2 entry of the chunk if none was prepared for it.
    pub open spec fn v2_entry(self) -> BlobChunkInfoV2 {
        BlobChunkInfoV2 {
            compressed_offset: self.compressed_offset,
            compressed_size: self.compressed_size,
            uncompressed_offset: self.uncompressed_offset,
            uncompressed_size: self.uncompressed_size,
            compressed: self.is_compressed,
            data: 0,
        }
    }
}

/// The chunk information of a blob, in one of the two formats.
pub enum BlobMetaChunkArray {
    V1(Vec<BlobChunkInfoV1>),
    V2(Vec<BlobChunkInfoV2>),
}

impl BlobMetaChunkArray {
    /// Number of entries.
    pub open spec fn spec_len(self) -> nat {
        match self {
            BlobMetaChunkArray::V1(entries) => entries@.len(),
            BlobMetaChunkArray::V2(entries) => entries@.len(),
        }
    }

    /// Whether this is an empty array, in format v2 if `v2` is set and else in format v1.
    pub open spec fn is_empty_array(self, v2: bool) -> bool {
        match self {
            BlobMetaChunkArray::V1(entries) => !v2 && entries@.len() == 0,
            BlobMetaChunkArray::V2(entries) => v2 && entries@.len() == 0,
        }
    }

    /// Whether this is `before`, in its format, with the entry of `chunk` appended. An entry that
    /// was prepared for the chunk is taken as it is, but only by format v2.
    pub open spec fn appended(
        self,
        before: Self,
        chunk: ChunkWrapper,
        prepared: Option<BlobChunkInfoV2>,
    ) -> bool {
        match (before, self) {
            (BlobMetaChunkArray::V1(old_entries), BlobMetaChunkArray::V1(entries)) => entries@
                == old_entries@.push(chunk.v1_entry()),
            (BlobMetaChunkArray::V2(old_entries), BlobMetaChunkArray::V2(entries)) => entries@
                == old_entries@.push(
                match prepared {
                    Some(entry) => entry,
                    None => chunk.v2_entry(),
                },
            ),
            _ => false,
        }
    }

    /// An empty array in format v1.
    pub fn new_v1() -> (array: Self)
        ensures
            array.is_empty_array(false),
    {
        BlobMetaChunkArray::V1(Vec::new())
    }

    /// An empty array in format v2.
    pub fn new_v2() -> (array: Self)
        ensures
            array.is_empty_array(true),
    {
        BlobMetaChunkArray::V2(Vec::new())
    }

    /// Number of entries.
    pub fn len(&self) -> (len: usize)
        ensures
            len == self.spec_len(),
    {
        match self {
            BlobMetaChunkArray::V1(entries) => entries.len(),
            BlobMetaChunkArray::V2(entries) => entries.len(),
        }
    }

    /// Appends the entry of `chunk`.
    pub fn append(&mut self, chunk: &ChunkWrapper, prepared: Option<BlobChunkInfoV2>)
        ensures
            final(self).appended(*old(self), *chunk, prepared),
    {
        match self {
            BlobMetaChunkArray::V1(entries) => {
                entries.push(
                    BlobChunkInfoV1 {
                        compressed_offset: chunk.compressed_offset,
                        compressed_size: chunk.compressed_size,
                        uncompressed_offset: chunk.uncompressed_offset,
                        uncompressed_size: chunk.uncompressed_size,
                    },
                );
            },
            BlobMetaChunkArray::V2(entries) => {
                match prepared {
                    Some(entry) => {
                        entries.push(entry);
                    },
                    None => {
                        entries.push(
                            BlobChunkInfoV2 {
                                compressed_offset: chunk.compressed_offset,
                                compressed_size: chunk.compressed_size,
                                uncompressed_offset: chunk.uncompressed_offset,
                                uncompressed_size: chunk.uncompressed_size,
                                compressed: chunk.is_compressed,
                                data: 0,
                            },
                        );
                    },
                }
            },
        }
    }
}

/// What a blob table tells about a blob.
#[derive(Debug)]
pub struct BlobInfo {
    /// Index of the blob in its table.
    pub blob_index: u32,
    pub blob_id: String,
    pub prefetch_size: u64,
    pub chunk_count: u32,
    pub chunk_size: u32,
    pub uncompressed_size: u64,
    pub compressed_size: u64,
    /// Feature bits of the blob metadata, `BLOB_META_FEATURE_*`.
    pub meta_flags: u32,
    /// Whether the blob has chunk information.
    pub meta_ci_is_valid: bool,
    /// How the chunk information is compressed.
    pub meta_ci_compressor: compress::Algorithm,
    /// Offset of the chunk information in the compressed blob.
    pub meta_ci_offset: u64,
    /// Size of the compressed chunk information.
    pub meta_ci_compressed_size: u64,
    /// Size of the uncompressed chunk information.
    pub meta_ci_uncompressed_size: u64,
}

} // verus!
