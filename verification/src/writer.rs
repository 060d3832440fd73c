//! The state of a writer that stores an artifact in a file, and the steps it takes.
//!
//! The writer itself performs no I/O. It says how the file is to be opened, keeps track of how much
//! has been written, builds the tar header that closes a part of the file, and says what is to be
//! done with the file in the end.
use std::path::PathBuf;
use vstd::prelude::*;
use crate::error::BuildError;
use crate::storage::ArtifactStorage;
use crate::tar_header::{
    archive_path, fits_name_field, is_single_name, regular_file_header, tar_image,
};

verus! {

/// Capacity of the buffer in front of a file.
pub const BUF_WRITER_CAPACITY: usize = 262144;

/// How the file of a writer is opened.
#[derive(Clone, Copy, Debug, PartialEq, Eq, Structural)]
pub enum OpenAction {
    /// Open the named file for writing, create it if it is missing, and drop its contents if
    /// `truncate` is set.
    OpenFile { truncate: bool },
    /// Create a temporary file in the directory.
    CreateTemporary,
}

/// What has to be known about the file system before a writer can be finalized.
pub enum FinalizeProbe<'a> {
    /// Nothing.
    Nothing,
    /// Whether there is something at `name` in `dir`.
    TargetExists { dir: &'a PathBuf, name: &'a str },
    /// Whether there is a regular file at the path.
    IsRegularFile(&'a PathBuf),
}

/// What finalizing a writer does to its file.
pub enum FinalizeAction<'a> {
    /// Leave it as it is.
    Keep,
    /// Rename the temporary file to `name` in `dir`.
    Rename { dir: &'a PathBuf, name: String },
    /// Remove the file.
    Remove(&'a PathBuf),
}

/// ArtifactWriter provides a writer to allow writing bootstrap
/// or blob data to a single file or in a directory.
pub struct ArtifactWriter {
    pos: usize,
    storage: ArtifactStorage,
}

impl ArtifactWriter {
    /// Number of bytes written so far.
    pub closed spec fn written(&self) -> usize {
        self.pos
    }

    /// Where the artifact is stored.
    pub closed spec fn spec_storage(&self) -> ArtifactStorage {
        self.storage
    }

    /// A writer that has written nothing, and how its file is opened. The writing end of a FIFO
    /// is not truncated, because the reading end has created it.
    pub fn new(storage: ArtifactStorage, fifo: bool) -> (result: (Self, OpenAction))
        ensures
            result.0.written() == 0,
            result.0.spec_storage() == storage,
            storage is SingleFile ==> result.1 == (OpenAction::OpenFile { truncate: !fifo }),
            storage is FileDir ==> result.1 == OpenAction::CreateTemporary,
    {
        let action: OpenAction = match &storage {
            ArtifactStorage::SingleFile(_) => OpenAction::OpenFile { truncate: !fifo },
            ArtifactStorage::FileDir(_) => OpenAction::CreateTemporary,
        };
        (ArtifactWriter { pos: 0, storage }, action)
    }

    /// Where the artifact is stored.
    pub fn storage(&self) -> (storage: &ArtifactStorage)
        ensures
            *storage == self.spec_storage(),
    {
        &self.storage
    }

    /// Records that `n` bytes have been written to the file.
    pub fn write(&mut self, n: usize)
        requires
            old(self).written() + n <= usize::MAX,
        ensures
            final(self).written() == old(self).written() + n,
            final(self).spec_storage() == old(self).spec_storage(),
    {
        self.pos = self.pos + n;
    }

    /// Number of bytes written so far.
    pub fn pos(&self) -> (result: Result<u64, BuildError>)
        ensures
            result == Ok::<u64, BuildError>(self.written() as u64),
    {
        Ok(self.pos as u64)
    }

    /// The tar header that closes a part of the file.
    ///
    /// The `inline-bootstrap` option merges the blob and bootstrap into one
    /// file. We need some header to index the location of the blob and bootstrap,
    /// write_tar_header uses tar header that arranges the data as follows:
    ///      blob_data | blob_tar_header | bootstrap_data | bootstrap_tar_header
    /// This is a tar-like structure, except that we put the tar header after the
    /// data. The advantage is that we do not need to determine the size of the data
    /// first, so that we can write the blob data by stream without seek to improve
    /// the performance of the blob dump by using fifo, if we need to read the bootstrap
    /// data quickly, first need to read the 512 bytes tar header from the end of blob
    /// file first, and then seek offset to read bootstrap data.
    ///
    /// The bytes are to be written to the file.
    pub fn write_tar_header(&self, name: &str, size: u64) -> (result: Result<Vec<u8>, BuildError>)
        ensures
            match result {
                Ok(bytes) => {
                    &&& archive_path(name@) matches Ok(path)
                    &&& fits_name_field(path)
                    &&& bytes@ == tar_image(path, size)
                },
                Err(e) => {
                    &&& archive_path(name@) matches Err(text)
                    &&& e matches BuildError::InvalidTarName(reason)
                    &&& reason@ == text
                },
            },
            is_single_name(name@) && fits_name_field(vstd::utf8::encode_utf8(name@)) ==> {
                &&& result matches Ok(bytes)
                &&& bytes@ == tar_image(vstd::utf8::encode_utf8(name@), size)
            },
            is_single_name(name@) && !fits_name_field(vstd::utf8::encode_utf8(name@)) ==> result
                is Err,
            name@.len() == 0 ==> result is Err,
    {
        regular_file_header(name, size)
    }

    /// What has to be known to finalize the artifact under `name`.
    pub fn finalize_probe<'a>(&'a self, name: Option<&'a str>) -> (probe: FinalizeProbe<'a>)
        ensures
            match (self.spec_storage(), name) {
                (ArtifactStorage::FileDir(path), Some(text)) => {
                    &&& probe matches FinalizeProbe::TargetExists { dir, name }
                    &&& *dir == path
                    &&& name@ == text@
                },
                (ArtifactStorage::SingleFile(path), None) => {
                    &&& probe matches FinalizeProbe::IsRegularFile(file)
                    &&& *file == path
                },
                _ => probe is Nothing,
            },
    {
        match (&self.storage, name) {
            (ArtifactStorage::FileDir(dir), Some(name)) => FinalizeProbe::TargetExists { dir, name },
            (ArtifactStorage::SingleFile(path), None) => FinalizeProbe::IsRegularFile(path),
            _ => FinalizeProbe::Nothing,
        }
    }

    /// Finalize the metadata/data blob, where `found` is the answer to `finalize_probe`.
    ///
    /// When `name` is None, it means that the blob is empty and should be removed. A file that
    /// the user named is never renamed, and nothing that has a name is removed.
    pub fn finalize(&self, name: Option<String>, found: bool) -> (action: FinalizeAction<'_>)
        ensures
            match (self.spec_storage(), name) {
                (ArtifactStorage::FileDir(path), Some(text)) => if found {
                    action is Keep
                } else {
                    &&& action matches FinalizeAction::Rename { dir, name }
                    &&& *dir == path
                    &&& name == text
                },
                (ArtifactStorage::SingleFile(path), None) => if found {
                    &&& action matches FinalizeAction::Remove(file)
                    &&& *file == path
                } else {
                    action is Keep
                },
                _ => action is Keep,
            },
            self.spec_storage() is SingleFile ==> action !is Rename,
            name is Some ==> action !is Remove,
    {
        match (&self.storage, name) {
            (ArtifactStorage::FileDir(dir), Some(name)) => if found {
                FinalizeAction::Keep
            } else {
                FinalizeAction::Rename { dir, name }
            },
            (ArtifactStorage::SingleFile(path), None) => if found {
                FinalizeAction::Remove(path)
            } else {
                FinalizeAction::Keep
            },
            _ => FinalizeAction::Keep,
        }
    }
}

} // verus!
