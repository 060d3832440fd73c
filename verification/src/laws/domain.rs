//! Laws on what the operations accept: everything, but for the few conditions that are named here.
//!
//! `call_requires(f, args)` says that `f` can be called with `args`.
use std::path::PathBuf;
use std::sync::Arc;
use vstd::prelude::*;
use crate::align::{div_round_up, round_down_4k};
use crate::blob::{BlobContext, ChunkSource};
use crate::blob_manager::BlobManager;
use crate::blob_meta::{BlobChunkInfoV2, BlobInfo, BlobMetaChunkArray, BlobMetaHeader, ChunkWrapper};
use crate::blob_table::{BlobTableEntry, RafsBlobTable};
use crate::bootstrap::{BootstrapContext, BootstrapManager};
use crate::build_context::{BuildContext, Prefetch, RafsVersion, WhiteoutSpec};
use crate::chunk_dict::HashChunkDict;
use crate::compress;
use crate::conversion::ConversionType;
use crate::digest;
use crate::memory_writer::{ArtifactMemoryWriter, SeekTarget};
use crate::output::BuildOutput;
use crate::storage::ArtifactStorage;
use crate::tar_header::regular_file_header;
use crate::text::str_eq;
use crate::writer::ArtifactWriter;

verus! {

/// Any text can be read as a conversion, and any conversion can be shown.
pub proof fn law_any_conversion(name: &str, other: &str, conversion: ConversionType)
    ensures
        call_requires(ConversionType::from_str, (name,)),
        call_requires(ConversionType::to_string, (&conversion,)),
        call_requires(str_eq, (name, other)),
{
}

/// Any offset can be rounded, up to a multiple of anything but zero.
pub proof fn law_any_rounding(n: u64, d: u64)
    ensures
        d != 0 ==> call_requires(div_round_up, (n, d)),
        call_requires(round_down_4k, (n,)),
{
}

/// A build can have any options.
pub proof fn law_any_options<Z>(
    blob_id: String,
    flag: bool,
    blob_offset: u64,
    compressor: compress::Algorithm,
    digester: digest::Algorithm,
    explicit_uidgid: bool,
    whiteout_spec: WhiteoutSpec,
    source_type: ConversionType,
    source_path: PathBuf,
    prefetch: Prefetch,
    blob_storage: Option<ArtifactStorage>,
    blob_meta_storage: Option<ArtifactStorage>,
    inline_bootstrap: bool,
    ctx: &mut BuildContext<Z>,
    fs_version: RafsVersion,
    chunk_size: u32,
)
    ensures
        call_requires(
            BuildContext::<Z>::new,
            (
                blob_id,
                flag,
                blob_offset,
                compressor,
                digester,
                explicit_uidgid,
                whiteout_spec,
                source_type,
                source_path,
                prefetch,
                blob_storage,
                blob_meta_storage,
                inline_bootstrap,
            ),
        ),
        call_requires(BuildContext::<Z>::set_fs_version, (ctx, fs_version)),
        call_requires(BuildContext::<Z>::set_chunk_size, (ctx, chunk_size)),
{
}

/// A blob can be made of anything and changed in any way, except that chunk information that is
/// kept is added in the order of the chunk indices.
pub proof fn law_any_blob<Z>(
    blob_id: String,
    blob_offset: u64,
    features: u32,
    ctx: &BuildContext<Z>,
    info: &BlobInfo,
    chunk_source: ChunkSource,
    blob: &mut BlobContext,
    chunk_size: u32,
    enable: bool,
    chunk: &ChunkWrapper,
    prepared: Option<BlobChunkInfoV2>,
)
    ensures
        call_requires(BlobContext::new, (blob_id, blob_offset, features)),
        call_requires(BlobContext::from::<Z>, (ctx, info, chunk_source)),
        call_requires(BlobContext::set_chunk_size, (blob, chunk_size)),
        call_requires(BlobContext::set_blob_prefetch_size::<Z>, (blob, ctx)),
        call_requires(BlobContext::set_meta_info_enabled, (blob, enable)),
        call_requires(BlobContext::alloc_chunk_index, (blob,)),
        call_requires(BlobContext::blob_id, (blob,)),
        !old(blob).blob_meta_info_enabled ==> call_requires(
            BlobContext::add_chunk_meta_info,
            (blob, chunk, prepared),
        ),
        old(blob).blob_meta_info matches BlobMetaChunkArray::V1(entries) && entries@.len()
            == chunk.index ==> call_requires(
            BlobContext::add_chunk_meta_info,
            (blob, chunk, prepared),
        ),
        old(blob).blob_meta_info matches BlobMetaChunkArray::V2(entries) && entries@.len()
            == chunk.index ==> call_requires(
            BlobContext::add_chunk_meta_info,
            (blob, chunk, prepared),
        ),
{
}

/// Chunk arrays, dictionaries and blob tables accept anything.
pub proof fn law_any_parts(
    array: &mut BlobMetaChunkArray,
    chunk: &ChunkWrapper,
    prepared: Option<BlobChunkInfoV2>,
    blobs: Vec<Arc<BlobInfo>>,
    dict: &mut HashChunkDict,
    inner_idx: u32,
    out_idx: u32,
    version: RafsVersion,
    table: &mut RafsBlobTable,
    entry: BlobTableEntry,
    header: BlobMetaHeader,
)
    ensures
        call_requires(BlobMetaChunkArray::new_v1, ()),
        call_requires(BlobMetaChunkArray::new_v2, ()),
        call_requires(BlobMetaChunkArray::len, (&*old(array),)),
        call_requires(BlobMetaChunkArray::append, (array, chunk, prepared)),
        call_requires(HashChunkDict::new, (blobs,)),
        call_requires(HashChunkDict::get_blobs, (&*old(dict),)),
        call_requires(HashChunkDict::set_real_blob_idx, (dict, inner_idx, out_idx)),
        call_requires(HashChunkDict::get_real_blob_idx, (&*old(dict), inner_idx)),
        call_requires(RafsBlobTable::new, (version,)),
        call_requires(RafsBlobTable::add, (table, entry, header)),
{
}

/// A manager accepts anything, except that only a blob that is there can be taken out, and that
/// there has to be a blob at the current index, if there is one.
pub proof fn law_any_manager<Z>(
    manager: &mut BlobManager,
    ctx: &BuildContext<Z>,
    dict: HashChunkDict,
    blob_ctx: BlobContext,
    idx: usize,
    parent: Vec<Arc<BlobInfo>>,
    id: &str,
    count: usize,
    storage: &Option<ArtifactStorage>,
)
    requires
        call_ensures(BlobManager::len, (&*old(manager),), count),
    ensures
        call_requires(BlobManager::new, ()),
        call_requires(BlobManager::set_chunk_dict, (manager, dict)),
        call_requires(BlobManager::get_chunk_dict, (&*old(manager),)),
        call_requires(BlobManager::alloc_index, (&*old(manager),)),
        call_requires(BlobManager::add, (manager, blob_ctx)),
        call_requires(BlobManager::len, (&*old(manager),)),
        call_requires(BlobManager::get_blobs, (&*old(manager),)),
        call_requires(BlobManager::get_blob, (&*old(manager), idx)),
        idx < count ==> call_requires(BlobManager::take_blob, (manager, idx)),
        call_requires(BlobManager::get_last_blob, (&*old(manager),)),
        call_requires(BlobManager::from_blob_table::<Z>, (manager, ctx, parent)),
        call_requires(BlobManager::get_blob_idx_by_id, (&*old(manager), id)),
        call_requires(BlobManager::get_blob_ids, (&*old(manager),)),
        call_requires(BlobManager::extend_blob_table_from_chunk_dict::<Z>, (manager, ctx)),
        call_requires(BlobManager::to_blob_table::<Z>, (&*old(manager), ctx)),
        old(manager).current() is None || old(manager).current()->Some_0 < count ==> {
            &&& call_requires(BlobManager::get_or_create_current_blob::<Z>, (manager, ctx))
            &&& call_requires(BlobManager::get_current_blob, (manager,))
        },
        call_requires(BuildOutput::new, (&*old(manager), storage)),
{
}

/// Artifacts can be stored anywhere, under any name. A write only has to end at a position that
/// can be counted.
pub proof fn law_any_artifact(
    storage: ArtifactStorage,
    fifo: bool,
    writer: &mut ArtifactWriter,
    pos: u64,
    n: usize,
    text: &str,
    probed: Option<&str>,
    size: u64,
    name: Option<String>,
    found: bool,
    memory: &mut ArtifactMemoryWriter,
    bytes: &[u8],
    target: SeekTarget,
)
    requires
        call_ensures(ArtifactWriter::pos, (&*old(writer),), Ok(pos)),
    ensures
        call_requires(ArtifactStorage::display, (&storage,)),
        call_requires(ArtifactWriter::new, (storage, fifo)),
        call_requires(ArtifactWriter::storage, (&*old(writer),)),
        pos + n <= usize::MAX ==> call_requires(ArtifactWriter::write, (writer, n)),
        call_requires(ArtifactWriter::pos, (&*old(writer),)),
        call_requires(ArtifactWriter::write_tar_header, (&*old(writer), text, size)),
        call_requires(ArtifactWriter::finalize_probe, (&*old(writer), probed)),
        call_requires(ArtifactWriter::finalize, (&*old(writer), name, found)),
        call_requires(regular_file_header, (text, size)),
        call_requires(ArtifactMemoryWriter::new, ()),
        old(memory).position() + bytes@.len() <= usize::MAX ==> call_requires(
            ArtifactMemoryWriter::write,
            (memory, bytes),
        ),
        call_requires(ArtifactMemoryWriter::seek, (memory, target)),
        call_requires(ArtifactMemoryWriter::flush, (memory,)),
        call_requires(ArtifactMemoryWriter::as_reader, (memory,)),
        call_requires(ArtifactMemoryWriter::read, (memory, n)),
{
}

/// A bootstrap can be created for anything. Its position can be aligned to anything but zero if
/// there is a multiple that has 64 bits.
pub proof fn law_any_bootstrap<N, R>(
    storage: Option<ArtifactStorage>,
    layered: bool,
    fifo: bool,
    parent: Option<R>,
    manager: &BootstrapManager<R>,
    ctx: &mut BootstrapContext<N>,
    align_size: u64,
    multiple: u64,
)
    ensures
        call_requires(BootstrapContext::<N>::new, (storage, layered, fifo)),
        call_requires(BootstrapManager::<R>::new, (storage, parent)),
        call_requires(BootstrapManager::<R>::create_ctx::<N>, (manager, fifo)),
        align_size != 0 && multiple % align_size == 0 && multiple >= old(ctx).offset
            ==> call_requires(BootstrapContext::<N>::align_offset, (ctx, align_size)),
{
    if align_size != 0 && multiple % align_size == 0 && multiple >= old(ctx).offset {
        lemma_no_multiple_between(old(ctx).offset as int, align_size as int, multiple as int);
    }
}

proof fn lemma_no_multiple_between(n: int, d: int, multiple: int)
    requires
        d > 0,
        multiple % d == 0,
        multiple >= n,
    ensures
        crate::align::round_up_to(n, d) <= multiple,
{
    let up = crate::align::round_up_to(n, d);
    crate::align::lemma_round_up_to(n, d);
    vstd::arithmetic::div_mod::lemma_fundamental_div_mod(up, d);
    vstd::arithmetic::div_mod::lemma_fundamental_div_mod(multiple, d);
    let a = up / d;
    let b = multiple / d;
    if multiple < up {
        assert(d * b < d * a);
        assert(b < a) by (nonlinear_arith)
            requires
                d > 0,
                d * b < d * a,
        ;
        assert(d * (b + 1) <= d * a) by (nonlinear_arith)
            requires
                d > 0,
                b + 1 <= a,
        ;
        assert(d * (b + 1) == d * b + d) by (nonlinear_arith);
    }
}

/// Space can be given back and asked for as long as the lists of blocks are as they are at first,
/// one per number of slots with starts of blocks in them, and the last block of all is not listed.
pub proof fn law_any_space<N>(ctx: &mut BootstrapContext<N>, offset: u64, size: u64)
    requires
        old(ctx).v6_available_blocks@.len() == 128,
        forall|i: int, k: int|
            0 <= i < 128 && 0 <= k < old(ctx).v6_available_blocks@[i]@.len() ==> {
                let base = #[trigger] old(ctx).v6_available_blocks@[i]@[k];
                base % 4096 == 0 && base + 4096 <= u64::MAX
            },
    ensures
        call_requires(BootstrapContext::<N>::append_available_block, (ctx, offset)),
        call_requires(BootstrapContext::<N>::allocate_available_block, (ctx, size)),
{
    let lists = old(ctx).lists();
    assert forall|i: int, k: int| 0 <= i < lists.len() && 0 <= k < lists[i].len() implies {
        let base = #[trigger] lists[i][k];
        base % 4096 == 0 && base + 4096 <= u64::MAX
    } by {
        assert(lists[i][k] == old(ctx).v6_available_blocks@[i]@[k]);
    }
    assert(crate::blocks::block_unlisted(lists, u64::MAX - 4095));
    crate::blocks::law_only_the_last_block_is_out_of_range(lists, size);
}

} // verus!
