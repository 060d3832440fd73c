//! Laws on where and how the artifacts of a build are written.
use std::path::PathBuf;
use vstd::prelude::*;
use crate::blob::BlobContext;
use crate::blob_manager::BlobManager;
use crate::error::BuildError;
use crate::memory_writer::{ArtifactMemoryWriter, SeekTarget};
use crate::output::BuildOutput;
use crate::storage::{path_text, ArtifactStorage};
use crate::tar_header::{
    archive_path, byte_sum, fits_name_field, is_single_name, law_checksum_agrees,
    law_size_reads_back, lemma_tar_image_fields, octal_value, read_size, regular_file_header,
};
use crate::writer::{ArtifactWriter, FinalizeAction, FinalizeProbe, OpenAction};

verus! {

/// A file and a directory are shown by their path alone.
pub proof fn law_storage_is_shown_by_its_path(path: PathBuf, file: String, dir: String)
    requires
        call_ensures(ArtifactStorage::display, (&ArtifactStorage::SingleFile(path),), file),
        call_ensures(ArtifactStorage::display, (&ArtifactStorage::FileDir(path),), dir),
    ensures
        file@ == path_text(path),
        dir@ == path_text(path),
{
}

/// A copy of a storage is the same storage, and the default one is a file without a name.
pub proof fn law_copied_and_default_storage(
    storage: ArtifactStorage,
    copy: ArtifactStorage,
    default: ArtifactStorage,
)
    requires
        call_ensures(<ArtifactStorage as Clone>::clone, (&storage,), copy),
        call_ensures(<ArtifactStorage as Default>::default, (), default),
    ensures
        copy == storage,
        default is SingleFile,
        path_text(default->SingleFile_0).len() == 0,
{
}

/// A new writer keeps its storage and has written nothing. A named file is opened, and cut off
/// unless it is a FIFO; in a directory a temporary file is created.
pub proof fn law_new_writer(
    storage: ArtifactStorage,
    fifo: bool,
    writer: ArtifactWriter,
    open: OpenAction,
    pos: Result<u64, BuildError>,
    found: &ArtifactStorage,
)
    requires
        call_ensures(ArtifactWriter::new, (storage, fifo), (writer, open)),
        call_ensures(ArtifactWriter::pos, (&writer,), pos),
        call_ensures(ArtifactWriter::storage, (&writer,), found),
    ensures
        pos is Ok && pos->Ok_0 == 0,
        *found == storage,
        storage is FileDir <==> open is CreateTemporary,
        open matches OpenAction::OpenFile { truncate } ==> truncate == !fifo,
{
}

/// The position of a writer is the number of bytes that have been written, and writing leaves the
/// storage as it is.
pub proof fn law_position_counts_bytes(
    writer: &mut ArtifactWriter,
    n: usize,
    before: Result<u64, BuildError>,
    after: Result<u64, BuildError>,
    storage: &ArtifactStorage,
    storage_after: &ArtifactStorage,
)
    requires
        call_ensures(ArtifactWriter::pos, (&*old(writer),), before),
        call_ensures(ArtifactWriter::storage, (&*old(writer),), storage),
        call_ensures(ArtifactWriter::write, (writer, n), ()),
        call_ensures(ArtifactWriter::pos, (&*final(writer),), after),
        call_ensures(ArtifactWriter::storage, (&*final(writer),), storage_after),
    ensures
        before is Ok,
        after is Ok,
        after->Ok_0 == before->Ok_0 + n,
        *storage_after == *storage,
{
}

/// What has to be looked at to finalize a writer: for an artifact that gets its name in a directory
/// whether that name is taken, for a named file without artifact whether it is a regular file.
pub proof fn law_what_is_looked_at<'a>(
    writer: &'a ArtifactWriter,
    storage: &ArtifactStorage,
    name: Option<&'a str>,
    probe: FinalizeProbe<'a>,
)
    requires
        call_ensures(ArtifactWriter::storage, (writer,), storage),
        call_ensures(ArtifactWriter::finalize_probe, (writer, name), probe),
    ensures
        probe is TargetExists <==> storage is FileDir && name is Some,
        probe is IsRegularFile <==> storage is SingleFile && name is None,
        probe matches FinalizeProbe::TargetExists { dir, name: target } ==> *dir
            == storage->FileDir_0 && target@ == name->Some_0@,
        probe matches FinalizeProbe::IsRegularFile(path) ==> *path == storage->SingleFile_0,
{
}

/// Finalizing acts on what was looked at and on nothing else. A temporary file gets the name that
/// was looked for unless it is taken, and a regular file that was looked for is removed.
pub proof fn law_finalize_follows_the_probe<'a>(
    writer: &'a ArtifactWriter,
    text: &'a str,
    name: Option<String>,
    found: bool,
    probe: FinalizeProbe<'a>,
    action: FinalizeAction<'a>,
)
    requires
        name is Some ==> text@ == name->Some_0@,
        call_ensures(
            ArtifactWriter::finalize_probe,
            (
                writer,
                if name is Some {
                    Some(text)
                } else {
                    None
                },
            ),
            probe,
        ),
        call_ensures(ArtifactWriter::finalize, (writer, name, found), action),
    ensures
        probe is Nothing ==> action is Keep,
        probe is TargetExists ==> (action is Keep <==> found) && (action is Rename <==> !found),
        probe is IsRegularFile ==> (action is Keep <==> !found) && (action is Remove <==> found),
        action matches FinalizeAction::Rename { dir, name: target } ==> {
            &&& *dir == *probe->TargetExists_dir
            &&& target@ == probe->TargetExists_name@
        },
        action matches FinalizeAction::Remove(path) ==> *path == *probe->IsRegularFile_0,
{
}

/// A memory writer starts empty.
pub proof fn law_new_memory_writer(writer: ArtifactMemoryWriter, other: ArtifactMemoryWriter)
    requires
        call_ensures(ArtifactMemoryWriter::new, (), writer),
        call_ensures(<ArtifactMemoryWriter as Default>::default, (), other),
    ensures
        writer.data().len() == 0,
        writer.position() == 0,
        other.data().len() == 0,
        other.position() == 0,
{
}

/// A write goes to the current position and moves past what it wrote. What stood there is gone,
/// everything else stays, and a gap between the end of the data and the position is zeros.
pub proof fn law_write_goes_to_the_position(
    writer: &mut ArtifactMemoryWriter,
    bytes: &[u8],
    result: Result<usize, BuildError>,
    i: int,
)
    requires
        old(writer).position() + bytes@.len() <= usize::MAX,
        call_ensures(ArtifactMemoryWriter::write, (writer, bytes), result),
    ensures
        result is Ok && result->Ok_0 == bytes@.len(),
        final(writer).position() == old(writer).position() + bytes@.len(),
        final(writer).data().len() >= old(writer).data().len(),
        final(writer).data().len() >= old(writer).position() + bytes@.len(),
        final(writer).data().len() == old(writer).data().len() || final(writer).data().len()
            == old(writer).position() + bytes@.len(),
        0 <= i < bytes@.len() ==> final(writer).data()[old(writer).position() + i] == bytes@[i],
        0 <= i < old(writer).data().len() && !(old(writer).position() <= i < old(writer).position()
            + bytes@.len()) ==> final(writer).data()[i] == old(writer).data()[i],
        old(writer).data().len() <= i < old(writer).position() ==> final(writer).data()[i] == 0,
{
}

/// What was written is read back from where it was written.
pub proof fn law_written_bytes_are_read_back(
    writer: &mut ArtifactMemoryWriter,
    bytes: &[u8],
    result: Result<usize, BuildError>,
    back: &mut ArtifactMemoryWriter,
    sought: Result<u64, BuildError>,
    reader: &mut ArtifactMemoryWriter,
    got: Vec<u8>,
)
    requires
        old(writer).position() + bytes@.len() <= usize::MAX,
        call_ensures(ArtifactMemoryWriter::write, (writer, bytes), result),
        *old(back) == *final(writer),
        call_ensures(
            ArtifactMemoryWriter::seek,
            (back, SeekTarget::Start(old(writer).position())),
            sought,
        ),
        *old(reader) == *final(back),
        call_ensures(ArtifactMemoryWriter::read, (reader, bytes@.len() as usize), got),
    ensures
        sought is Ok && sought->Ok_0 == old(writer).position(),
        got@ == bytes@,
{
    assert(got@ =~= bytes@);
}

/// A read gives the bytes from the current position on, no more than were asked for and fewer only
/// at the end of the data, and moves past them. It changes no data.
pub proof fn law_read_gives_what_follows(
    reader: &mut ArtifactMemoryWriter,
    len: usize,
    got: Vec<u8>,
    i: int,
)
    requires
        call_ensures(ArtifactMemoryWriter::read, (reader, len), got),
    ensures
        got@.len() <= len,
        got@.len() < len ==> old(reader).position() + got@.len() >= old(reader).data().len(),
        got@.len() > 0 ==> old(reader).position() + got@.len() <= old(reader).data().len(),
        0 <= i < got@.len() ==> got@[i] == old(reader).data()[old(reader).position() + i],
        final(reader).data() == old(reader).data(),
        final(reader).position() == old(reader).position() + got@.len(),
{
}

/// Two reads in a row give what one read of both lengths gives.
pub proof fn law_reads_join(
    first: &mut ArtifactMemoryWriter,
    a: usize,
    got_a: Vec<u8>,
    second: &mut ArtifactMemoryWriter,
    b: usize,
    got_b: Vec<u8>,
    whole: &mut ArtifactMemoryWriter,
    got: Vec<u8>,
)
    requires
        a + b <= usize::MAX,
        call_ensures(ArtifactMemoryWriter::read, (first, a), got_a),
        *old(second) == *final(first),
        call_ensures(ArtifactMemoryWriter::read, (second, b), got_b),
        *old(whole) == *old(first),
        call_ensures(ArtifactMemoryWriter::read, (whole, (a + b) as usize), got),
    ensures
        got@ == got_a@ + got_b@,
        final(whole).position() == final(second).position(),
{
    assert(got@ =~= got_a@ + got_b@);
}

/// A reader of all that was written starts at the first byte, and what it does to the position is
/// done to the writer.
pub proof fn law_reader_starts_at_the_first_byte<'a>(
    writer: &'a mut ArtifactMemoryWriter,
    reader: &'a mut ArtifactMemoryWriter,
)
    requires
        call_ensures(ArtifactMemoryWriter::as_reader, (writer,), reader),
    ensures
        old(reader).position() == 0,
        old(reader).data() == old(writer).data(),
        *final(writer) == *final(reader),
{
}

/// Flushing a memory writer succeeds and changes nothing.
pub proof fn law_flush_changes_nothing(
    writer: &mut ArtifactMemoryWriter,
    result: Result<(), BuildError>,
)
    requires
        call_ensures(ArtifactMemoryWriter::flush, (writer,), result),
    ensures
        result is Ok,
        *final(writer) == *old(writer),
{
}

/// A seek counts from the start, from the end of the data or from the current position. It is
/// refused exactly if it leads to a position that is negative or does not have 64 bits, and then
/// the position stays. It changes no data.
pub proof fn law_seek_moves_the_position(
    writer: &mut ArtifactMemoryWriter,
    target: SeekTarget,
    result: Result<u64, BuildError>,
    from: int,
    delta: int,
)
    requires
        call_ensures(ArtifactMemoryWriter::seek, (writer, target), result),
        target matches SeekTarget::Start(n) ==> from == 0 && delta == n,
        target matches SeekTarget::End(n) ==> from == old(writer).data().len() && delta == n,
        target matches SeekTarget::Current(n) ==> from == old(writer).position() && delta == n,
    ensures
        result is Ok <==> 0 <= from + delta < 0x1_0000_0000_0000_0000,
        result is Ok ==> result->Ok_0 == from + delta && final(writer).position() == from + delta,
        result is Err ==> result->Err_0 == BuildError::InvalidSeek && final(writer).position()
            == old(writer).position(),
        final(writer).data() == old(writer).data(),
{
}

/// The header of a regular file is one block. It holds the name as it is stored, closed by a null
/// byte if there is room, the type of a regular file, the magic of the GNU format, the size, and a
/// checksum that is the sum of its bytes with blanks in place of the checksum. All other fields are
/// left blank, the modification time being zero.
pub proof fn law_header_of_a_regular_file(name: &str, size: u64, bytes: Vec<u8>, i: int)
    requires
        call_ensures(regular_file_header, (name, size), Ok(bytes)),
    ensures
        archive_path(name@) is Ok,
        0 < archive_path(name@)->Ok_0.len() <= 100,
        bytes@.len() == 512,
        bytes@.take(archive_path(name@)->Ok_0.len() as int) == archive_path(name@)->Ok_0,
        archive_path(name@)->Ok_0.len() <= i < 124 ==> bytes@[i] == 0,
        read_size(bytes@) == size,
        136 <= i < 147 ==> bytes@[i] == 0x30,
        bytes@[147] == 0,
        bytes@[155] == 0,
        octal_value(bytes@.subrange(148, 155)) == byte_sum(
            bytes@.take(148) + Seq::new(8, |k: int| 0x20u8) + bytes@.skip(156),
        ),
        bytes@[156] == 0x30,
        157 <= i < 257 ==> bytes@[i] == 0,
        bytes@.subrange(257, 265) == seq![0x75u8, 0x73, 0x74, 0x61, 0x72, 0x20, 0x20, 0],
        265 <= i < 512 ==> bytes@[i] == 0,
{
    let path = archive_path(name@)->Ok_0;
    law_size_reads_back(path, size);
    law_checksum_agrees(path, size);
    lemma_tar_image_fields(path, size);
    assert(bytes@.take(path.len() as int) =~= path);
}

/// A name without separator is stored as it is if it has 1 to 100 bytes and no null byte, and is
/// refused if not. A refusal gives the reason of the tar format.
pub proof fn law_names_of_regular_files(
    name: &str,
    size: u64,
    result: Result<Vec<u8>, BuildError>,
)
    requires
        call_ensures(regular_file_header, (name, size), result),
    ensures
        result is Ok <==> archive_path(name@) is Ok,
        result is Err ==> {
            &&& result->Err_0 is InvalidTarName
            &&& result->Err_0->InvalidTarName_0@ == archive_path(name@)->Err_0
        },
        name@.len() == 0 ==> result is Err,
        name@.len() > 0 && !name@.contains('/') && name@ != seq!['.', '.'] ==> {
            let stored = vstd::utf8::encode_utf8(name@);
            &&& result is Ok <==> 0 < stored.len() <= 100 && !stored.contains(0u8)
            &&& result is Ok ==> result->Ok_0@.take(stored.len() as int) == stored
            &&& result is Ok && stored.len() < 100 ==> result->Ok_0@[stored.len() as int] == 0
        },
{
    let stored = vstd::utf8::encode_utf8(name@);
    if is_single_name(name@) && fits_name_field(stored) {
        lemma_tar_image_fields(stored, size);
    }
}

/// The header that closes a part of a file does not depend on the writer: it is that of a regular
/// file with the name and size of the part, refused for the same reason.
pub proof fn law_closing_header_is_that_of_a_regular_file(
    writer: &ArtifactWriter,
    name: &str,
    size: u64,
    result: Result<Vec<u8>, BuildError>,
    header: Result<Vec<u8>, BuildError>,
)
    requires
        call_ensures(ArtifactWriter::write_tar_header, (writer, name, size), result),
        call_ensures(regular_file_header, (name, size), header),
    ensures
        result is Ok <==> header is Ok,
        result is Ok ==> result->Ok_0@ == header->Ok_0@,
        result is Err ==> result->Err_0 is InvalidTarName
            && result->Err_0->InvalidTarName_0@ == header->Err_0->InvalidTarName_0@,
{
}

/// The output of a build lists the ids of all blobs in order, has the size of the last blob, and
/// has the path of the bootstrap if the user named it.
pub proof fn law_output_of_a_build(
    manager: &BlobManager,
    storage: &Option<ArtifactStorage>,
    result: Result<BuildOutput, BuildError>,
    ids: Vec<String>,
    last: Option<&BlobContext>,
    i: int,
)
    requires
        call_ensures(BuildOutput::new, (manager, storage), result),
        call_ensures(BlobManager::get_blob_ids, (manager,), ids),
        call_ensures(BlobManager::get_last_blob, (manager,), last),
    ensures
        result is Ok,
        result->Ok_0.blobs@.len() == ids@.len(),
        0 <= i < ids@.len() ==> result->Ok_0.blobs@[i]@ == ids@[i]@,
        result->Ok_0.blob_size is Some <==> last is Some,
        last is Some ==> result->Ok_0.blob_size == Some(last->Some_0.compressed_blob_size),
        result->Ok_0.bootstrap_path is Some <==> (*storage is Some && storage->Some_0 is SingleFile),
        result->Ok_0.bootstrap_path is Some ==> result->Ok_0.bootstrap_path->Some_0@ == path_text(
            storage->Some_0->SingleFile_0,
        ),
{
}

/// A copy of an output holds the same, and a default output holds nothing.
pub proof fn law_copied_and_default_output(
    output: BuildOutput,
    copy: BuildOutput,
    default: BuildOutput,
    i: int,
)
    requires
        call_ensures(<BuildOutput as Clone>::clone, (&output,), copy),
        call_ensures(<BuildOutput as Default>::default, (), default),
    ensures
        copy.blobs@.len() == output.blobs@.len(),
        0 <= i < output.blobs@.len() ==> copy.blobs@[i]@ == output.blobs@[i]@,
        copy.blob_size == output.blob_size,
        copy.bootstrap_path is Some <==> output.bootstrap_path is Some,
        output.bootstrap_path is Some ==> copy.bootstrap_path->Some_0@
            == output.bootstrap_path->Some_0@,
        default.blobs@.len() == 0,
        default.blob_size is None,
        default.bootstrap_path is None,
{
}

} // verus!
