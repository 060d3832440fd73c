//! Options and state of a build.
use std::path::PathBuf;
use vstd::prelude::*;
use crate::compress;
use crate::conversion::ConversionType;
use crate::digest;
use crate::storage::{path_text, ArtifactStorage};

verus! {

/// Default size of a chunk.
pub const RAFS_DEFAULT_CHUNK_SIZE: u32 = 0x10_0000;

/// Version of the metadata and data format.
#[derive(Clone, Copy, Debug, PartialEq, Eq, Structural)]
pub enum RafsVersion {
    V5,
    V6,
}

impl Default for RafsVersion {
    fn default() -> (version: Self)
        ensures
            version == RafsVersion::V5,
    {
        RafsVersion::V5
    }
}

/// How a layer marks files of lower layers as removed.
#[derive(Clone, Copy, Debug, PartialEq, Eq, Structural)]
pub enum WhiteoutSpec {
    /// As the OCI image format does.
    Oci,
    /// As the overlay file system does.
    Overlayfs,
    /// Not at all.
    NoWhiteout,
}

impl Default for WhiteoutSpec {
    fn default() -> (whiteout: Self)
        ensures
            whiteout == WhiteoutSpec::Oci,
    {
        WhiteoutSpec::Oci
    }
}

/// What is prefetched when an image is mounted.
#[derive(Clone, Copy, Debug, PartialEq, Eq, Structural)]
pub enum PrefetchPolicy {
    /// Nothing.
    NoPrefetch,
    /// Files.
    Fs,
    /// The part of a data blob that is set apart for it.
    Blob,
}

/// Track file/chunk prefetch state.
#[derive(Clone, Copy, Debug, PartialEq, Eq, Structural)]
pub struct Prefetch {
    pub policy: PrefetchPolicy,
}

impl Default for Prefetch {
    fn default() -> (prefetch: Self)
        ensures
            prefetch.policy == PrefetchPolicy::NoPrefetch,
    {
        Prefetch { policy: PrefetchPolicy::NoPrefetch }
    }
}

/// Options and state of a build, in which `Z` generates the context that is needed to start
/// decompression in the middle of a gzip stream.
pub struct BuildContext<Z> {
    /// Blob id (user specified or sha256(blob)).
    pub blob_id: String,
    /// When filling local blobcache file, chunks are arranged as per the
    /// `decompress_offset` within chunk info. Therefore, provide a new flag
    /// to image tool thus to align chunks in blob with 4k size.
    pub aligned_chunk: bool,
    /// Add a offset for compressed blob.
    pub blob_offset: u64,
    /// Blob chunk compress flag.
    pub compressor: compress::Algorithm,
    /// Inode and chunk digest algorithm flag.
    pub digester: digest::Algorithm,
    /// Save host uid gid in each inode.
    pub explicit_uidgid: bool,
    /// whiteout spec: overlayfs or oci
    pub whiteout_spec: WhiteoutSpec,
    /// Chunk slice size.
    pub chunk_size: u32,
    /// Version number of output metadata and data blob.
    pub fs_version: RafsVersion,
    /// Format conversion type.
    pub conversion_type: ConversionType,
    /// Path of source to build the image from:
    /// - Directory: `source_path` should be a directory path
    /// - StargzIndex: `source_path` should be a stargz index json file path
    pub source_path: PathBuf,
    /// Track file/chunk prefetch state.
    pub prefetch: Prefetch,
    /// Storage writing blob to single file or a directory.
    pub blob_storage: Option<ArtifactStorage>,
    pub blob_meta_storage: Option<ArtifactStorage>,
    pub blob_zran_generator: Option<Z>,
    /// Feature bits of the blob metadata, `BLOB_META_FEATURE_*`.
    pub blob_meta_features: u32,
    pub inline_bootstrap: bool,
    pub has_xattr: bool,
}

impl<Z> BuildContext<Z> {
    /// A context with the given options, the default format version and chunk size, and no generator.
    pub fn new(
        blob_id: String,
        aligned_chunk: bool,
        blob_offset: u64,
        compressor: compress::Algorithm,
        digester: digest::Algorithm,
        explicit_uidgid: bool,
        whiteout_spec: WhiteoutSpec,
        source_type: ConversionType,
        source_path: PathBuf,
        prefetch: Prefetch,
        blob_storage: Option<ArtifactStorage>,
        blob_meta_storage: Option<ArtifactStorage>,
        inline_bootstrap: bool,
    ) -> (ctx: Self)
        ensures
            ctx == (BuildContext::<Z> {
                blob_id,
                aligned_chunk,
                blob_offset,
                compressor,
                digester,
                explicit_uidgid,
                whiteout_spec,
                chunk_size: RAFS_DEFAULT_CHUNK_SIZE,
                fs_version: RafsVersion::V5,
                conversion_type: source_type,
                source_path,
                prefetch,
                blob_storage,
                blob_meta_storage,
                blob_zran_generator: None,
                blob_meta_features: 0,
                inline_bootstrap,
                has_xattr: false,
            }),
    {
        BuildContext {
            blob_id,
            aligned_chunk,
            blob_offset,
            compressor,
            digester,
            explicit_uidgid,
            whiteout_spec,
            chunk_size: RAFS_DEFAULT_CHUNK_SIZE,
            fs_version: RafsVersion::default(),
            conversion_type: source_type,
            source_path,
            prefetch,
            blob_storage,
            blob_meta_storage,
            blob_zran_generator: None,
            blob_meta_features: 0,
            inline_bootstrap,
            has_xattr: false,
        }
    }

    /// Sets the format version.
    pub fn set_fs_version(&mut self, fs_version: RafsVersion)
        ensures
            *final(self) == (BuildContext { fs_version, ..*old(self) }),
    {
        self.fs_version = fs_version;
    }

    /// Sets the chunk size.
    pub fn set_chunk_size(&mut self, chunk_size: u32)
        ensures
            *final(self) == (BuildContext { chunk_size, ..*old(self) }),
    {
        self.chunk_size = chunk_size;
    }
}

impl<Z> Default for BuildContext<Z> {
    fn default() -> (ctx: Self)
        ensures
            ctx.blob_id@ == Seq::<char>::empty(),
            !ctx.aligned_chunk,
            ctx.blob_offset == 0,
            ctx.compressor == compress::Algorithm::NoCompression,
            ctx.digester == digest::Algorithm::Blake3,
            ctx.explicit_uidgid,
            ctx.whiteout_spec == WhiteoutSpec::Oci,
            ctx.chunk_size == RAFS_DEFAULT_CHUNK_SIZE,
            ctx.fs_version == RafsVersion::V5,
            ctx.conversion_type == ConversionType::DirectoryToRafs,
            path_text(ctx.source_path) == Seq::<char>::empty(),
            ctx.prefetch.policy == PrefetchPolicy::NoPrefetch,
            ctx.blob_storage is None,
            ctx.blob_meta_storage is None,
            ctx.blob_zran_generator is None,
            ctx.blob_meta_features == 0,
            !ctx.inline_bootstrap,
            ctx.has_xattr,
    {
        BuildContext {
            blob_id: String::new(),
            aligned_chunk: false,
            blob_offset: 0,
            compressor: compress::Algorithm::default(),
            digester: digest::Algorithm::default(),
            explicit_uidgid: true,
            whiteout_spec: WhiteoutSpec::default(),
            chunk_size: RAFS_DEFAULT_CHUNK_SIZE,
            fs_version: RafsVersion::default(),
            conversion_type: ConversionType::default(),
            source_path: PathBuf::new(),
            prefetch: Prefetch::default(),
            blob_storage: None,
            blob_meta_storage: None,
            blob_zran_generator: None,
            blob_meta_features: 0,
            inline_bootstrap: false,
            has_xattr: true,
        }
    }
}

} // verus!
