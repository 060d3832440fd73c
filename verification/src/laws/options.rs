//! Laws on the options of a build.
use std::path::PathBuf;
use vstd::prelude::*;
use crate::align::{div_round_up, round_down_4k};
use crate::build_context::{
    BuildContext, Prefetch, PrefetchPolicy, RafsVersion, WhiteoutSpec,
};
use crate::compress;
use crate::conversion::ConversionType;
use crate::digest;
use crate::error::BuildError;
use crate::storage::{path_text, ArtifactStorage};
use crate::text::str_eq;

verus! {

/// The lengths of the names of conversions, and characters that tell those of one length apart.
proof fn lemma_names_differ()
    ensures
        "dir-rafs"@.len() == 8 && "dir-rafs"@[0] == 'd',
        "tar-rafs"@.len() == 8 && "tar-rafs"@[0] == 't',
        "dir-targz"@.len() == 9 && "dir-targz"@[0] == 'd' && "dir-targz"@[3] == '-',
        "targz-ref"@.len() == 9 && "targz-ref"@[0] == 't',
        "directory"@.len() == 9 && "directory"@[0] == 'd' && "directory"@[3] == 'e',
        "dir-stargz"@.len() == 10 && "dir-stargz"@[0] == 'd',
        "targz-rafs"@.len() == 10 && "targz-rafs"@[0] == 't' && "targz-rafs"@[3] == 'g',
        "tar-stargz"@.len() == 10 && "tar-stargz"@[0] == 't' && "tar-stargz"@[3] == '-',
        "estargz-ref"@.len() == 11,
        "estargz-rafs"@.len() == 12 && "estargz-rafs"@[0] == 'e',
        "targz-stargz"@.len() == 12 && "targz-stargz"@[0] == 't',
        "stargz_index"@.len() == 12 && "stargz_index"@[0] == 's',
        "estargztoc-ref"@.len() == 14,
{
    reveal_strlit("dir-rafs");
    reveal_strlit("tar-rafs");
    reveal_strlit("dir-targz");
    reveal_strlit("targz-ref");
    reveal_strlit("directory");
    reveal_strlit("dir-stargz");
    reveal_strlit("targz-rafs");
    reveal_strlit("tar-stargz");
    reveal_strlit("estargz-ref");
    reveal_strlit("estargz-rafs");
    reveal_strlit("targz-stargz");
    reveal_strlit("stargz_index");
    reveal_strlit("estargztoc-ref");
}

/// Two conversions have two names, the others have one, and no other text names a conversion.
pub proof fn law_names_of_a_conversion(name: &str, result: Result<ConversionType, BuildError>)
    requires
        call_ensures(ConversionType::from_str, (name,), result),
    ensures
        result is Err ==> result->Err_0 == BuildError::InvalidConversionType,
        (result is Ok && result->Ok_0 == ConversionType::DirectoryToRafs) <==> (name@
            == "dir-rafs"@ || name@ == "directory"@),
        (result is Ok && result->Ok_0 == ConversionType::DirectoryToStargz) <==> name@
            == "dir-stargz"@,
        (result is Ok && result->Ok_0 == ConversionType::DirectoryToTargz) <==> name@
            == "dir-targz"@,
        (result is Ok && result->Ok_0 == ConversionType::EStargzToRafs) <==> name@
            == "estargz-rafs"@,
        (result is Ok && result->Ok_0 == ConversionType::EStargzToRef) <==> name@ == "estargz-ref"@,
        (result is Ok && result->Ok_0 == ConversionType::EStargzIndexToRef) <==> (name@
            == "estargztoc-ref"@ || name@ == "stargz_index"@),
        (result is Ok && result->Ok_0 == ConversionType::TargzToRafs) <==> name@ == "targz-rafs"@,
        (result is Ok && result->Ok_0 == ConversionType::TargzToStargz) <==> name@
            == "targz-stargz"@,
        (result is Ok && result->Ok_0 == ConversionType::TargzToRef) <==> name@ == "targz-ref"@,
        (result is Ok && result->Ok_0 == ConversionType::TarToRafs) <==> name@ == "tar-rafs"@,
        (result is Ok && result->Ok_0 == ConversionType::TarToStargz) <==> name@ == "tar-stargz"@,
{
    lemma_names_differ();
}

/// What shows a conversion names it again, under the name that is not kept for compatibility only.
/// `TargzToStargz` is shown as `TargzToRef`.
pub proof fn law_shown_conversion_is_parsed_back(
    conversion: ConversionType,
    text: String,
    name: &str,
    result: Result<ConversionType, BuildError>,
)
    requires
        call_ensures(ConversionType::to_string, (&conversion,), text),
        name@ == text@,
        call_ensures(ConversionType::from_str, (name,), result),
    ensures
        result is Ok,
        conversion != ConversionType::TargzToStargz ==> result->Ok_0 == conversion,
        conversion == ConversionType::TargzToStargz ==> result->Ok_0 == ConversionType::TargzToRef,
        text@ != "directory"@,
        text@ != "stargz_index"@,
{
    lemma_names_differ();
}

/// Two strings are equal exactly if they have the same characters.
pub proof fn law_equal_strings(a: &str, b: &str, equal: bool)
    requires
        call_ensures(str_eq, (a, b), equal),
    ensures
        equal ==> a@.len() == b@.len() && forall|i: int| 0 <= i < a@.len() ==> a@[i] == b@[i],
        !equal ==> a@.len() != b@.len() || exists|i: int| 0 <= i < a@.len() && a@[i] != b@[i],
{
    if !equal && a@.len() == b@.len() && forall|i: int| 0 <= i < a@.len() ==> a@[i] == b@[i] {
        assert(a@ =~= b@);
    }
}

/// A quotient that is rounded up is the least number of parts that hold all of `n`.
pub proof fn law_rounded_up_quotient(n: u64, d: u64, q: u64)
    requires
        d != 0,
        call_ensures(div_round_up, (n, d), q),
    ensures
        n <= q * d,
        q > 0 ==> (q - 1) * d < n,
{
    vstd::arithmetic::div_mod::lemma_fundamental_div_mod(n as int, d as int);
    let k = n as int / d as int;
    assert(k * d == d * k) by (nonlinear_arith);
    assert((k + 1) * d == k * d + d) by (nonlinear_arith);
    assert((k - 1) * d == k * d - d) by (nonlinear_arith);
}

/// An offset that is rounded down to 4k is the last multiple of 4096 that is not behind it.
pub proof fn law_rounded_down_offset(x: u64, r: u64)
    requires
        call_ensures(round_down_4k, (x,), r),
    ensures
        r % 4096 == 0,
        r <= x < r + 4096,
{
}

/// A build has the options that it is given; what it is not given is the first format version,
/// chunks of 1 MiB, no feature bits, no generator and no extended attributes.
pub proof fn law_new_build_context<Z>(
    blob_id: String,
    aligned_chunk: bool,
    blob_offset: u64,
    compressor: compress::Algorithm,
    digester: digest::Algorithm,
    explicit_uidgid: bool,
    whiteout_spec: WhiteoutSpec,
    source_type: ConversionType,
    source_path: PathBuf,
    prefetch: Prefetch,
    blob_storage: Option<ArtifactStorage>,
    blob_meta_storage: Option<ArtifactStorage>,
    inline_bootstrap: bool,
    ctx: BuildContext<Z>,
)
    requires
        call_ensures(
            BuildContext::<Z>::new,
            (
                blob_id,
                aligned_chunk,
                blob_offset,
                compressor,
                digester,
                explicit_uidgid,
                whiteout_spec,
                source_type,
                source_path,
                prefetch,
                blob_storage,
                blob_meta_storage,
                inline_bootstrap,
            ),
            ctx,
        ),
    ensures
        ctx.blob_id@ == blob_id@,
        ctx.aligned_chunk == aligned_chunk,
        ctx.blob_offset == blob_offset,
        ctx.compressor == compressor,
        ctx.digester == digester,
        ctx.explicit_uidgid == explicit_uidgid,
        ctx.whiteout_spec == whiteout_spec,
        ctx.conversion_type == source_type,
        ctx.source_path == source_path,
        ctx.prefetch == prefetch,
        ctx.blob_storage == blob_storage,
        ctx.blob_meta_storage == blob_meta_storage,
        ctx.inline_bootstrap == inline_bootstrap,
        ctx.chunk_size == 1024 * 1024,
        ctx.fs_version == RafsVersion::V5,
        ctx.blob_zran_generator is None,
        ctx.blob_meta_features == 0,
        !ctx.has_xattr,
{
}

/// The options of a build that is given none.
pub proof fn law_default_build_context<Z>(ctx: BuildContext<Z>)
    requires
        call_ensures(<BuildContext<Z> as Default>::default, (), ctx),
    ensures
        ctx.blob_id@.len() == 0,
        !ctx.aligned_chunk,
        ctx.blob_offset == 0,
        ctx.compressor == compress::Algorithm::NoCompression,
        ctx.digester == digest::Algorithm::Blake3,
        ctx.explicit_uidgid,
        ctx.whiteout_spec == WhiteoutSpec::Oci,
        ctx.chunk_size == 1024 * 1024,
        ctx.fs_version == RafsVersion::V5,
        ctx.conversion_type == ConversionType::DirectoryToRafs,
        path_text(ctx.source_path).len() == 0,
        ctx.prefetch.policy == PrefetchPolicy::NoPrefetch,
        ctx.blob_storage is None,
        ctx.blob_meta_storage is None,
        ctx.blob_zran_generator is None,
        ctx.blob_meta_features == 0,
        !ctx.inline_bootstrap,
        ctx.has_xattr,
{
}

/// Setting the format version changes that and nothing else.
pub proof fn law_set_fs_version<Z>(ctx: &mut BuildContext<Z>, fs_version: RafsVersion)
    requires
        call_ensures(BuildContext::<Z>::set_fs_version, (ctx, fs_version), ()),
    ensures
        final(ctx).fs_version == fs_version,
        *final(ctx) == (BuildContext { fs_version: final(ctx).fs_version, ..*old(ctx) }),
{
}

/// Setting the chunk size changes that and nothing else.
pub proof fn law_set_chunk_size<Z>(ctx: &mut BuildContext<Z>, chunk_size: u32)
    requires
        call_ensures(BuildContext::<Z>::set_chunk_size, (ctx, chunk_size), ()),
    ensures
        final(ctx).chunk_size == chunk_size,
        *final(ctx) == (BuildContext { chunk_size: final(ctx).chunk_size, ..*old(ctx) }),
{
}

} // verus!
