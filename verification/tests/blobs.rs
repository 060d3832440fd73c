use std::path::PathBuf;
use std::sync::Arc;

use nydus_image::blob::{BlobContext, ChunkSource, MAX_CHUNK_COUNT};
use nydus_image::blob_manager::BlobManager;
use nydus_image::blob_meta::{
    BlobChunkInfoV1, BlobChunkInfoV2, BlobInfo, BlobMetaChunkArray, BlobMetaHeader, ChunkWrapper,
    BLOB_META_FEATURE_4K_ALIGNED, BLOB_META_FEATURE_CHUNK_INFO_V2, BLOB_META_FEATURE_SEPARATE,
    BLOB_META_FEATURE_ZRAN,
};
use nydus_image::blob_table::RafsBlobTable;
use nydus_image::build_context::{
    BuildContext, Prefetch, PrefetchPolicy, RafsVersion, WhiteoutSpec,
};
use nydus_image::chunk_dict::HashChunkDict;
use nydus_image::compress;
use nydus_image::conversion::ConversionType;
use nydus_image::digest;
use nydus_image::error::BuildError;
use nydus_image::output::BuildOutput;
use nydus_image::storage::ArtifactStorage;
use sha2::{Digest, Sha256};

/// A build without a generator for gzip streams.
type Context = BuildContext<()>;

fn info(blob_index: u32, blob_id: &str) -> BlobInfo {
    BlobInfo {
        blob_index,
        blob_id: blob_id.to_string(),
        prefetch_size: 11,
        chunk_count: 12,
        chunk_size: 13,
        uncompressed_size: 14,
        compressed_size: 15,
        meta_flags: BLOB_META_FEATURE_CHUNK_INFO_V2 | BLOB_META_FEATURE_ZRAN,
        meta_ci_is_valid: true,
        meta_ci_compressor: compress::Algorithm::Zstd,
        meta_ci_offset: 16,
        meta_ci_compressed_size: 17,
        meta_ci_uncompressed_size: 18,
    }
}

fn chunk(index: u32) -> ChunkWrapper {
    ChunkWrapper {
        index,
        compressed_offset: 100 + index as u64,
        compressed_size: 10,
        uncompressed_offset: 200 + index as u64,
        uncompressed_size: 20,
        is_compressed: true,
    }
}

fn ids(manager: &BlobManager) -> Vec<String> {
    manager.get_blob_ids()
}

#[test]
fn new_blob() {
    let blob = BlobContext::new("id".to_string(), 512, 0);
    assert_eq!(blob.blob_id, "id");
    assert_eq!(blob.blob_hash.finalize(), Sha256::digest(b""));
    assert_eq!(blob.compressed_offset, 512);
    assert_eq!(blob.uncompressed_offset, 0);
    assert_eq!(blob.chunk_size, 1024 * 1024);
    assert_eq!(blob.chunk_count, 0);
    assert_eq!(blob.chunk_source, ChunkSource::Build);
    assert!(!blob.blob_meta_info_enabled);
    assert!(matches!(blob.blob_meta_info, BlobMetaChunkArray::V1(_)));
    assert_eq!(blob.blob_meta_header, BlobMetaHeader::default());
}

#[test]
fn features_of_a_new_blob() {
    for features in 0..32u32 {
        let blob = BlobContext::new(String::new(), 0, features);
        let header = blob.blob_meta_header;
        assert_eq!(header.aligned_4k, features & BLOB_META_FEATURE_4K_ALIGNED != 0);
        assert_eq!(header.ci_separate, features & BLOB_META_FEATURE_SEPARATE != 0);
        assert_eq!(header.chunk_info_v2, features & BLOB_META_FEATURE_CHUNK_INFO_V2 != 0);
        assert_eq!(header.ci_zran, features & BLOB_META_FEATURE_ZRAN != 0);
        assert_eq!(
            matches!(blob.blob_meta_info, BlobMetaChunkArray::V2(_)),
            header.chunk_info_v2
        );
        assert_eq!(blob.blob_meta_info.len(), 0);
    }
}

#[test]
fn blob_taken_over_with_chunk_info() {
    let ctx = Context::default();
    let blob = BlobContext::from(&ctx, &info(3, "parent"), ChunkSource::Parent);
    assert_eq!(blob.blob_id, "parent");
    assert_eq!(blob.blob_prefetch_size, 11);
    assert_eq!(blob.chunk_count, 12);
    assert_eq!(blob.chunk_size, 13);
    assert_eq!(blob.uncompressed_blob_size, 14);
    assert_eq!(blob.compressed_blob_size, 15);
    assert_eq!(blob.compressed_offset, 0);
    assert_eq!(blob.chunk_source, ChunkSource::Parent);
    assert!(blob.blob_meta_info_enabled);
    assert_eq!(
        blob.blob_meta_header,
        BlobMetaHeader {
            aligned_4k: true,
            ci_separate: false,
            chunk_info_v2: true,
            ci_zran: true,
            ci_compressor: compress::Algorithm::Zstd,
            ci_entries: 12,
            ci_compressed_offset: 16,
            ci_compressed_size: 17,
            ci_uncompressed_size: 18,
        }
    );
}

#[test]
fn blob_taken_over_without_chunk_info() {
    let mut blob_info = info(0, "dict");
    blob_info.meta_ci_is_valid = false;
    blob_info.meta_flags = BLOB_META_FEATURE_4K_ALIGNED;
    let mut ctx = Context::default();
    let blob = BlobContext::from(&ctx, &blob_info, ChunkSource::Dict);
    assert!(!blob.blob_meta_info_enabled);
    assert_eq!(blob.blob_meta_header, BlobMetaHeader::default());
    ctx.aligned_chunk = true;
    let blob = BlobContext::from(&ctx, &blob_info, ChunkSource::Dict);
    assert!(blob.blob_meta_header.aligned_4k);
    assert_eq!(blob.blob_meta_header.ci_entries, 0);
}

#[test]
fn prefetch_size_is_reset() {
    let reset = |size: u64, id: &str, conversion: ConversionType, policy: PrefetchPolicy| {
        let mut ctx = Context::default();
        ctx.conversion_type = conversion;
        ctx.prefetch = Prefetch { policy };
        let mut blob = BlobContext::new(id.to_string(), 0, 0);
        blob.compressed_blob_size = size;
        blob.blob_prefetch_size = 7;
        blob.set_blob_prefetch_size(&ctx);
        blob.blob_prefetch_size == 0
    };
    let dir = ConversionType::DirectoryToRafs;
    let index = ConversionType::EStargzIndexToRef;
    assert!(reset(1, "", dir, PrefetchPolicy::NoPrefetch));
    assert!(reset(1, "", dir, PrefetchPolicy::Fs));
    assert!(!reset(1, "", dir, PrefetchPolicy::Blob));
    assert!(!reset(0, "id", dir, PrefetchPolicy::Fs));
    assert!(reset(0, "id", index, PrefetchPolicy::Fs));
    assert!(!reset(0, "", index, PrefetchPolicy::Fs));
    assert!(!reset(0, "id", index, PrefetchPolicy::Blob));
}

#[test]
fn chunk_info_v1() {
    let mut blob = BlobContext::new(String::new(), 0, 0);
    blob.set_meta_info_enabled(true);
    let prepared = BlobChunkInfoV2 {
        compressed_offset: 1,
        compressed_size: 2,
        uncompressed_offset: 3,
        uncompressed_size: 4,
        compressed: false,
        data: 5,
    };
    assert_eq!(blob.add_chunk_meta_info(&chunk(0), Some(prepared)), Ok(()));
    assert_eq!(blob.add_chunk_meta_info(&chunk(1), None), Ok(()));
    match &blob.blob_meta_info {
        BlobMetaChunkArray::V1(entries) => assert_eq!(
            entries,
            &vec![
                BlobChunkInfoV1 {
                    compressed_offset: 100,
                    compressed_size: 10,
                    uncompressed_offset: 200,
                    uncompressed_size: 20,
                },
                BlobChunkInfoV1 {
                    compressed_offset: 101,
                    compressed_size: 10,
                    uncompressed_offset: 201,
                    uncompressed_size: 20,
                },
            ]
        ),
        BlobMetaChunkArray::V2(_) => panic!("format v1 was asked for"),
    }
}

#[test]
fn chunk_info_v2() {
    let mut blob = BlobContext::new(String::new(), 0, BLOB_META_FEATURE_CHUNK_INFO_V2);
    let prepared = BlobChunkInfoV2 {
        compressed_offset: 1,
        compressed_size: 2,
        uncompressed_offset: 3,
        uncompressed_size: 4,
        compressed: false,
        data: 5,
    };
    // Nothing is kept before it is asked for.
    assert_eq!(blob.add_chunk_meta_info(&chunk(9), None), Ok(()));
    assert_eq!(blob.blob_meta_info.len(), 0);
    blob.set_meta_info_enabled(true);
    assert_eq!(blob.add_chunk_meta_info(&chunk(0), Some(prepared)), Ok(()));
    assert_eq!(blob.add_chunk_meta_info(&chunk(1), None), Ok(()));
    match &blob.blob_meta_info {
        BlobMetaChunkArray::V2(entries) => {
            assert_eq!(entries.len(), 2);
            assert_eq!(entries[0], prepared);
            assert_eq!(
                entries[1],
                BlobChunkInfoV2 {
                    compressed_offset: 101,
                    compressed_size: 10,
                    uncompressed_offset: 201,
                    uncompressed_size: 20,
                    compressed: true,
                    data: 0,
                }
            );
        }
        BlobMetaChunkArray::V1(_) => panic!("format v2 was asked for"),
    }
}

#[test]
fn chunk_indices_are_sequential() {
    let mut blob = BlobContext::new(String::new(), 0, 0);
    blob.set_meta_info_enabled(true);
    for expected in 0..3 {
        let index = blob.alloc_chunk_index().unwrap();
        assert_eq!(index, expected);
        blob.add_chunk_meta_info(&chunk(index), None).unwrap();
        assert_eq!(blob.blob_meta_info.len(), blob.chunk_count as usize);
    }
    assert_eq!(MAX_CHUNK_COUNT, 0xff_ffff);
    blob.chunk_count = 0xff_fffe;
    assert_eq!(blob.alloc_chunk_index(), Ok(0xff_fffe));
    let error = blob.alloc_chunk_index().unwrap_err();
    assert_eq!(error, BuildError::TooManyChunks);
    assert_eq!(error.message(), "the number of chunks in blob exceeds the u32 limit");
    assert_eq!(blob.chunk_count, 0xff_ffff);
}

#[test]
fn only_a_blob_with_data_has_an_id() {
    let mut blob = BlobContext::new("id".to_string(), 0, 0);
    assert_eq!(blob.blob_id(), None);
    blob.compressed_blob_size = 1;
    assert_eq!(blob.blob_id(), Some("id".to_string()));
}

#[test]
fn build_context_options() {
    let mut ctx = Context::new(
        "id".to_string(),
        true,
        512,
        compress::Algorithm::GZip,
        digest::Algorithm::Sha256,
        false,
        WhiteoutSpec::Overlayfs,
        ConversionType::TarToRafs,
        PathBuf::from("/src"),
        Prefetch { policy: PrefetchPolicy::Fs },
        Some(ArtifactStorage::FileDir(PathBuf::from("/blobs"))),
        None,
        true,
    );
    assert_eq!(ctx.blob_id, "id");
    assert_eq!(ctx.chunk_size, 0x10_0000);
    assert_eq!(ctx.fs_version, RafsVersion::V5);
    assert_eq!(ctx.source_path, PathBuf::from("/src"));
    assert_eq!(ctx.blob_meta_features, 0);
    assert!(ctx.inline_bootstrap && !ctx.has_xattr && ctx.blob_zran_generator.is_none());
    ctx.set_fs_version(RafsVersion::V6);
    ctx.set_chunk_size(4096);
    assert_eq!((ctx.fs_version, ctx.chunk_size), (RafsVersion::V6, 4096));
}

#[test]
fn default_build_context() {
    let ctx = Context::default();
    assert!(ctx.blob_id.is_empty() && !ctx.aligned_chunk && ctx.explicit_uidgid);
    assert!(ctx.has_xattr && !ctx.inline_bootstrap);
    assert_eq!(ctx.compressor, compress::Algorithm::NoCompression);
    assert_eq!(ctx.digester, digest::Algorithm::Blake3);
    assert_eq!(ctx.whiteout_spec, WhiteoutSpec::Oci);
    assert_eq!(ctx.conversion_type, ConversionType::DirectoryToRafs);
    assert_eq!(ctx.source_path, PathBuf::new());
    assert_eq!(ctx.prefetch.policy, PrefetchPolicy::NoPrefetch);
    assert!(ctx.blob_storage.is_none() && ctx.blob_meta_storage.is_none());
    assert!(ctx.blob_zran_generator.is_none());
}

#[test]
fn current_blob_is_created_once() {
    let mut ctx = Context::default();
    ctx.blob_id = "current".to_string();
    ctx.blob_offset = 512;
    ctx.chunk_size = 4096;
    ctx.set_fs_version(RafsVersion::V6);
    let mut manager = BlobManager::new();
    assert!(manager.get_current_blob().is_none());
    manager.add(BlobContext::new("first".to_string(), 0, 0));
    {
        let (idx, blob) = manager.get_or_create_current_blob(&ctx).unwrap();
        assert_eq!(idx, 1);
        assert_eq!(blob.blob_id, "current");
        assert_eq!((blob.compressed_offset, blob.chunk_size), (512, 4096));
        assert!(blob.blob_meta_info_enabled);
        blob.compressed_blob_size = 42;
    }
    let (idx, blob) = manager.get_or_create_current_blob(&ctx).unwrap();
    assert_eq!((idx, blob.compressed_blob_size), (1, 42));
    let (idx, blob) = manager.get_current_blob().unwrap();
    assert_eq!((idx, blob.compressed_blob_size), (1, 42));
    assert_eq!(manager.len(), 2);
}

#[test]
fn chunk_info_is_kept_for_version_6_only() {
    let ctx = Context::default();
    let mut manager = BlobManager::new();
    let (_, blob) = manager.get_or_create_current_blob(&ctx).unwrap();
    assert!(!blob.blob_meta_info_enabled);
}

#[test]
fn blob_indices_end_at_256() {
    let ctx = Context::default();
    let mut manager = BlobManager::new();
    for expected in 0..256 {
        assert_eq!(manager.alloc_index(), Ok(expected));
        manager.add(BlobContext::new(format!("{}", expected), 0, 0));
        assert_eq!(manager.get_last_blob().unwrap().blob_id, format!("{}", expected));
    }
    assert_eq!(manager.alloc_index(), Err(BuildError::TooManyBlobs));
    assert_eq!(BuildError::TooManyBlobs.message(), "too many blobs");
    let error = manager.get_or_create_current_blob(&ctx).err();
    assert_eq!(error, Some(BuildError::TooManyBlobs));
    assert_eq!(manager.len(), 256);
    assert!(manager.get_current_blob().is_none());
}

#[test]
fn blobs_are_found() {
    let mut manager = BlobManager::new();
    assert!(manager.get_last_blob().is_none());
    for id in ["a", "b", "a", "c"] {
        manager.add(BlobContext::new(id.to_string(), 0, 0));
    }
    assert_eq!(manager.get_blob_idx_by_id("a"), Some(0));
    assert_eq!(manager.get_blob_idx_by_id("c"), Some(3));
    assert_eq!(manager.get_blob_idx_by_id("d"), None);
    assert_eq!(manager.get_blob(1).unwrap().blob_id, "b");
    assert!(manager.get_blob(4).is_none());
    assert_eq!(manager.get_blobs().len(), 4);
    assert_eq!(manager.get_blobs()[2].blob_id, "a");
    assert_eq!(manager.take_blob(0).blob_id, "a");
    assert_eq!(ids(&manager), ["b", "a", "c"]);
    assert_eq!(manager.get_blob_idx_by_id("a"), Some(1));
}

#[test]
fn dictionary_blobs_are_added_once() {
    let ctx = Context::default();
    let mut manager = BlobManager::new();
    manager.from_blob_table(&ctx, vec![Arc::new(info(0, "p0")), Arc::new(info(1, "p1"))]);
    manager.set_chunk_dict(HashChunkDict::new(vec![
        Arc::new(info(0, "d0")),
        Arc::new(info(1, "p1")),
        Arc::new(info(2, "d1")),
        Arc::new(info(3, "d0")),
    ]));
    assert_eq!(manager.extend_blob_table_from_chunk_dict(&ctx), Ok(()));
    assert_eq!(ids(&manager), ["p0", "p1", "d0", "d1"]);
    assert_eq!(manager.get_blob(1).unwrap().chunk_source, ChunkSource::Parent);
    assert_eq!(manager.get_blob(2).unwrap().chunk_source, ChunkSource::Dict);
    let real: Vec<Option<u32>> =
        (0..5).map(|i| manager.get_chunk_dict().get_real_blob_idx(i)).collect();
    assert_eq!(real, [Some(2), Some(1), Some(3), Some(2), None]);

    assert_eq!(manager.extend_blob_table_from_chunk_dict(&ctx), Ok(()));
    assert_eq!(ids(&manager), ["p0", "p1", "d0", "d1"]);
}

#[test]
fn dictionary_without_room() {
    let ctx = Context::default();
    let mut manager = BlobManager::new();
    for i in 0..255 {
        manager.add(BlobContext::new(format!("{}", i), 0, 0));
    }
    manager.set_chunk_dict(HashChunkDict::new(vec![
        Arc::new(info(0, "last")),
        Arc::new(info(1, "7")),
        Arc::new(info(2, "too many")),
        Arc::new(info(3, "8")),
    ]));
    assert_eq!(
        manager.extend_blob_table_from_chunk_dict(&ctx),
        Err(BuildError::TooManyBlobs)
    );
    assert_eq!(manager.len(), 256);
    assert_eq!(manager.get_last_blob().unwrap().blob_id, "last");
    let real: Vec<Option<u32>> =
        (0..4).map(|i| manager.global_chunk_dict.get_real_blob_idx(i)).collect();
    assert_eq!(real, [Some(255), Some(7), None, None]);
}

#[test]
fn dictionary_without_room_from_the_start() {
    let ctx = Context::default();
    for len in [256, 300] {
        let mut manager = BlobManager::new();
        for i in 0..len {
            manager.add(BlobContext::new(format!("{}", i), 0, 0));
        }
        manager.set_chunk_dict(HashChunkDict::new(vec![
            Arc::new(info(0, "9")),
            Arc::new(info(1, "too many")),
            Arc::new(info(2, "8")),
        ]));
        assert_eq!(
            manager.extend_blob_table_from_chunk_dict(&ctx),
            Err(BuildError::TooManyBlobs)
        );
        assert_eq!(manager.len(), len);
        let real: Vec<Option<u32>> =
            (0..3).map(|i| manager.get_chunk_dict().get_real_blob_idx(i)).collect();
        assert_eq!(real, [Some(9), None, None]);
    }
}

#[test]
fn repeated_dictionary_blob_takes_one_index() {
    let ctx = Context::default();
    let mut manager = BlobManager::new();
    for i in 0..255 {
        manager.add(BlobContext::new(format!("{}", i), 0, 0));
    }
    manager.set_chunk_dict(HashChunkDict::new(vec![
        Arc::new(info(0, "last")),
        Arc::new(info(1, "last")),
    ]));
    assert_eq!(manager.extend_blob_table_from_chunk_dict(&ctx), Ok(()));
    assert_eq!(manager.len(), 256);
    assert_eq!(manager.get_chunk_dict().get_real_blob_idx(1), Some(255));
}

#[test]
fn dictionary_of_known_blobs_needs_no_room() {
    let ctx = Context::default();
    let mut manager = BlobManager::new();
    for i in 0..300 {
        manager.add(BlobContext::new(format!("{}", i), 0, 0));
    }
    manager.set_chunk_dict(HashChunkDict::new(vec![Arc::new(info(5, "299"))]));
    assert_eq!(manager.extend_blob_table_from_chunk_dict(&ctx), Ok(()));
    assert_eq!(manager.get_chunk_dict().get_real_blob_idx(5), Some(299));
    assert_eq!(manager.get_chunk_dict().get_blobs().len(), 1);
}

#[test]
fn blob_table_v5() {
    let mut ctx = Context::default();
    ctx.compressor = compress::Algorithm::Lz4Block;
    let mut manager = BlobManager::new();
    manager.from_blob_table(&ctx, vec![Arc::new(info(0, "a")), Arc::new(info(1, "b"))]);
    match manager.to_blob_table(&ctx).unwrap() {
        RafsBlobTable::V5(table) => {
            assert_eq!(table.entries.len(), 2);
            let entry = &table.entries[1];
            assert_eq!(entry.blob_id, "b");
            assert_eq!((entry.prefetch_offset, entry.prefetch_size), (0, 11));
            assert_eq!((entry.chunk_count, entry.chunk_size), (12, 13));
            assert_eq!((entry.uncompressed_size, entry.compressed_size), (14, 15));
            assert_eq!(entry.blob_features, 0);
            assert_eq!(entry.compressor, compress::Algorithm::Lz4Block);
            assert_eq!(entry.digester, digest::Algorithm::Blake3);
        }
        RafsBlobTable::V6(_) => panic!("version 5 was asked for"),
    }
}

#[test]
fn blob_table_v6() {
    let mut ctx = Context::default();
    ctx.set_fs_version(RafsVersion::V6);
    let mut manager = BlobManager::new();
    manager.from_blob_table(&ctx, vec![Arc::new(info(0, "a"))]);
    manager.add(BlobContext::new("b".to_string(), 0, BLOB_META_FEATURE_SEPARATE));
    match manager.to_blob_table(&ctx).unwrap() {
        RafsBlobTable::V6(table) => {
            assert_eq!(table.entries.len(), 2);
            assert_eq!(table.entries[0].0.blob_id, "a");
            assert_eq!(table.entries[0].1.ci_entries, 12);
            assert_eq!(table.entries[1].0.blob_id, "b");
            assert!(table.entries[1].1.ci_separate);
        }
        RafsBlobTable::V5(_) => panic!("version 6 was asked for"),
    }
}

#[test]
fn blob_table_limits_the_prefetch_size() {
    let ctx = Context::default();
    let mut manager = BlobManager::new();
    let mut blob = BlobContext::new("b".to_string(), 0, 0);
    blob.blob_prefetch_size = u32::MAX as u64;
    manager.add(blob);
    assert!(manager.to_blob_table(&ctx).is_ok());
    let mut blob = BlobContext::new("b".to_string(), 0, 0);
    blob.blob_prefetch_size = u32::MAX as u64 + 1;
    manager.add(blob);
    let error = manager.to_blob_table(&ctx).unwrap_err();
    assert_eq!(error, BuildError::PrefetchSizeOutOfRange);
    assert_eq!(error.message(), "out of range integral type conversion attempted");
}

#[test]
fn build_output() {
    let mut manager = BlobManager::new();
    let file = Some(ArtifactStorage::SingleFile(PathBuf::from("/image.boot")));
    let output = BuildOutput::new(&manager, &file).unwrap();
    assert!(output.blobs.is_empty());
    assert_eq!(output.blob_size, None);
    assert_eq!(output.bootstrap_path, Some("/image.boot".to_string()));

    for (id, size) in [("a", 1), ("b", 2)] {
        let mut blob = BlobContext::new(id.to_string(), 0, 0);
        blob.compressed_blob_size = size;
        manager.add(blob);
    }
    let dir = Some(ArtifactStorage::FileDir(PathBuf::from("/boots")));
    let output = BuildOutput::new(&manager, &dir).unwrap();
    let output = output.clone();
    assert_eq!(output.blobs, ["a", "b"]);
    assert_eq!(output.blob_size, Some(2));
    assert_eq!(output.bootstrap_path, None);
    assert_eq!(BuildOutput::new(&manager, &None).unwrap().bootstrap_path, None);
}

#[test]
fn default_build_output() {
    let output = BuildOutput::default();
    assert!(output.blobs.is_empty());
    assert!(output.blob_size.is_none() && output.bootstrap_path.is_none());
}
