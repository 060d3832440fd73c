use std::io::{Cursor, Read, Seek, SeekFrom, Write};
use std::path::PathBuf;

use nydus_image::error::BuildError;
use nydus_image::memory_writer::{ArtifactMemoryWriter, SeekTarget};
use nydus_image::storage::ArtifactStorage;
use nydus_image::tar_header::TAR_HEADER_SIZE;
use nydus_image::writer::{
    ArtifactWriter, FinalizeAction, FinalizeProbe, OpenAction, BUF_WRITER_CAPACITY,
};
use tar::{EntryType, Header};

fn file(path: &str) -> ArtifactStorage {
    ArtifactStorage::SingleFile(PathBuf::from(path))
}

fn dir(path: &str) -> ArtifactStorage {
    ArtifactStorage::FileDir(PathBuf::from(path))
}

#[test]
fn storage_shows_its_path() {
    assert_eq!(file("/tmp/image.boot").display(), "/tmp/image.boot");
    assert_eq!(dir("/tmp/blobs").display(), "/tmp/blobs");
    assert_eq!(ArtifactStorage::default().display(), "");
    assert!(matches!(ArtifactStorage::default(), ArtifactStorage::SingleFile(_)));
}

#[test]
fn cloned_storage_is_the_same() {
    match dir("/a").clone() {
        ArtifactStorage::FileDir(path) => assert_eq!(path, PathBuf::from("/a")),
        ArtifactStorage::SingleFile(_) => panic!("not a file"),
    }
    match file("/a/b").clone() {
        ArtifactStorage::SingleFile(path) => assert_eq!(path, PathBuf::from("/a/b")),
        ArtifactStorage::FileDir(_) => panic!("not a directory"),
    }
}

#[test]
fn buffer_capacity() {
    assert_eq!(BUF_WRITER_CAPACITY, 2 << 17);
}

#[test]
fn how_files_are_opened() {
    let (writer, open) = ArtifactWriter::new(file("/f"), false);
    assert_eq!(open, OpenAction::OpenFile { truncate: true });
    assert_eq!(writer.pos(), Ok(0));
    assert_eq!(writer.storage().display(), "/f");
    assert_eq!(ArtifactWriter::new(file("/f"), true).1, OpenAction::OpenFile { truncate: false });
    assert_eq!(ArtifactWriter::new(dir("/d"), false).1, OpenAction::CreateTemporary);
    assert_eq!(ArtifactWriter::new(dir("/d"), true).1, OpenAction::CreateTemporary);
}

#[test]
fn position_counts_what_is_written() {
    let (mut writer, _) = ArtifactWriter::new(file("/f"), false);
    writer.write(10);
    writer.write(0);
    writer.write(512);
    assert_eq!(writer.pos(), Ok(522));
}

#[test]
fn finalize_in_a_directory() {
    let (writer, _) = ArtifactWriter::new(dir("/blobs"), false);
    match writer.finalize_probe(Some("id")) {
        FinalizeProbe::TargetExists { dir, name } => {
            assert_eq!(dir, &PathBuf::from("/blobs"));
            assert_eq!(name, "id");
        }
        _ => panic!("the target has to be looked for"),
    }
    match writer.finalize(Some("id".to_string()), false) {
        FinalizeAction::Rename { dir, name } => {
            assert_eq!(dir, &PathBuf::from("/blobs"));
            assert_eq!(name, "id");
        }
        _ => panic!("the temporary file gets its name"),
    }
    assert!(matches!(writer.finalize(Some("id".to_string()), true), FinalizeAction::Keep));
    assert!(matches!(writer.finalize_probe(None), FinalizeProbe::Nothing));
    assert!(matches!(writer.finalize(None, true), FinalizeAction::Keep));
}

#[test]
fn finalize_a_named_file() {
    let (writer, _) = ArtifactWriter::new(file("/blob"), false);
    assert!(matches!(writer.finalize_probe(Some("id")), FinalizeProbe::Nothing));
    assert!(matches!(writer.finalize(Some("id".to_string()), false), FinalizeAction::Keep));
    match writer.finalize_probe(None) {
        FinalizeProbe::IsRegularFile(path) => assert_eq!(path, &PathBuf::from("/blob")),
        _ => panic!("the file has to be looked at"),
    }
    match writer.finalize(None, true) {
        FinalizeAction::Remove(path) => assert_eq!(path, &PathBuf::from("/blob")),
        _ => panic!("an empty blob is removed"),
    }
    assert!(matches!(writer.finalize(None, false), FinalizeAction::Keep));
}

fn header(name: &str, size: u64) -> Result<Vec<u8>, BuildError> {
    ArtifactWriter::new(file("/f"), false).0.write_tar_header(name, size)
}

#[test]
fn tar_header_reads_back() {
    for size in [0, 1, 511, 4096, 0x1_ffff_ffff, 0x2_0000_0000, u64::MAX] {
        let bytes = header("image.blob", size).unwrap();
        assert_eq!(bytes.len(), TAR_HEADER_SIZE);
        let read = Header::from_byte_slice(&bytes);
        assert_eq!(read.size().unwrap(), size);
        assert_eq!(&*read.path_bytes(), b"image.blob");
        assert_eq!(read.entry_type(), EntryType::Regular);
        assert!(read.as_gnu().is_some());
        let sum: u32 = bytes[..148].iter().chain(&bytes[156..]).map(|b| *b as u32).sum();
        assert_eq!(read.cksum().unwrap(), sum + 8 * 32);
    }
}

#[test]
fn tar_header_fields() {
    let bytes = header("image.boot", 0o1234567).unwrap();
    assert_eq!(&bytes[..11], b"image.boot\0");
    assert_eq!(&bytes[11..124], &[0u8; 113]);
    assert_eq!(&bytes[124..136], b"00001234567\0");
    assert_eq!(&bytes[136..148], b"00000000000\0");
    assert_eq!(bytes[155], 0);
    assert_eq!(bytes[156], b'0');
    assert_eq!(&bytes[257..265], b"ustar  \0");
    assert_eq!(&bytes[265..], &[0u8; 247]);
    let large = header("image.boot", 0x2_0000_0000).unwrap();
    assert_eq!(&large[124..136], &[0x80, 0, 0, 0, 0, 0, 0, 2, 0, 0, 0, 0]);
}

#[test]
fn tar_header_names() {
    let longest = "n".repeat(100);
    assert_eq!(&header(&longest, 1).unwrap()[..100], longest.as_bytes());
    assert_eq!(&header("a/./b", 1).unwrap()[..4], b"a/b\0");
    assert_eq!(&header(".", 1).unwrap()[..2], b".\0");
}

#[test]
fn tar_header_says_why_a_name_is_refused() {
    let refused = |name: &str| match header(name, 1).unwrap_err() {
        BuildError::InvalidTarName(reason) => {
            let error = Header::new_gnu().set_path(name).unwrap_err();
            assert_eq!(reason, error.to_string());
            assert_eq!(BuildError::InvalidTarName(reason.clone()).message(), reason);
            reason
        }
        error => panic!("{:?}", error),
    };
    assert_eq!(
        refused(&"n".repeat(101)),
        "provided value is too long when setting path for "
    );
    assert_eq!(
        refused(""),
        "paths in archives must have at least one component when setting path for "
    );
    assert_eq!(refused(".."), "paths in archives must not have `..` when setting path for ");
    assert_eq!(refused("a/.."), "paths in archives must not have `..` when setting path for a");
    assert_eq!(
        refused("/etc/passwd"),
        "paths in archives must be relative when setting path for "
    );
    assert_eq!(
        refused("nul\0byte"),
        "provided value contains a nul byte when setting path for "
    );
}

#[test]
fn trailing_header_locates_data() {
    let mut image = b"blob data".to_vec();
    image.extend(header("image.blob", 9).unwrap());
    image.extend(b"bootstrap data");
    image.extend(header("image.boot", 14).unwrap());

    let end = image.len() - TAR_HEADER_SIZE;
    let size = Header::from_byte_slice(&image[end..]).size().unwrap() as usize;
    assert_eq!(&image[end - size..end], b"bootstrap data");

    let blob_end = end - size - TAR_HEADER_SIZE;
    let blob_size = Header::from_byte_slice(&image[blob_end..end - size]).size().unwrap() as usize;
    assert_eq!(&image[blob_end - blob_size..blob_end], b"blob data");
}

#[test]
fn memory_writer_reads_back_what_was_written() {
    let mut writer = ArtifactMemoryWriter::new();
    assert_eq!(writer.write(b"boot"), Ok(4));
    assert_eq!(writer.write(b"strap"), Ok(5));
    assert_eq!(writer.flush(), Ok(()));
    assert_eq!(writer.as_reader().read(100), b"bootstrap");
    assert_eq!(writer.read(100), b"");
    assert_eq!(writer.as_reader().read(4), b"boot");
    assert_eq!(writer.read(4), b"stra");
    assert_eq!(writer.read(4), b"p");
}

#[test]
fn memory_writer_refuses_invalid_positions() {
    let mut writer = ArtifactMemoryWriter::default();
    writer.write(b"abc").unwrap();
    let error = writer.seek(SeekTarget::Current(-4)).unwrap_err();
    assert_eq!(error, BuildError::InvalidSeek);
    assert_eq!(error.message(), "invalid seek to a negative or overflowing position");
    assert_eq!(writer.seek(SeekTarget::End(-4)), Err(BuildError::InvalidSeek));
    assert_eq!(writer.seek(SeekTarget::Current(0)), Ok(3));
    assert_eq!(writer.seek(SeekTarget::Start(u64::MAX)), Ok(u64::MAX));
    assert_eq!(writer.seek(SeekTarget::Current(1)), Err(BuildError::InvalidSeek));
    assert_eq!(writer.seek(SeekTarget::Current(-1)), Ok(u64::MAX - 1));
    assert_eq!(writer.seek(SeekTarget::End(2)), Ok(5));
}

#[test]
fn memory_writer_agrees_with_cursor() {
    let mut writer = ArtifactMemoryWriter::new();
    let mut cursor = Cursor::new(Vec::new());
    let steps: [(SeekTarget, SeekFrom, &[u8]); 6] = [
        (SeekTarget::Start(0), SeekFrom::Start(0), b"0123456789"),
        (SeekTarget::Start(3), SeekFrom::Start(3), b"abc"),
        (SeekTarget::End(4), SeekFrom::End(4), b"behind a gap"),
        (SeekTarget::Current(-30), SeekFrom::Current(-30), b"refused, so appended"),
        (SeekTarget::End(-2), SeekFrom::End(-2), b"across the end"),
        (SeekTarget::Start(100), SeekFrom::Start(100), b""),
    ];
    for (target, from, bytes) in steps {
        assert_eq!(writer.seek(target).ok(), cursor.seek(from).ok());
        assert_eq!(writer.write(bytes).ok(), cursor.write(bytes).ok());
        assert_eq!(writer.seek(SeekTarget::Current(0)).ok(), cursor.stream_position().ok());
    }
    cursor.set_position(0);
    let mut expected = Vec::new();
    cursor.read_to_end(&mut expected).unwrap();
    assert_eq!(writer.as_reader().read(1000), expected);
}
