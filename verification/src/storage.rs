//! Where an artifact of a build is stored.
use std::path::PathBuf;
use vstd::prelude::*;

verus! {

/// `std::path::PathBuf`, which is carried through and only read by way of `path_text`.
#[verifier::external_type_specification]
#[verifier::external_body]
pub struct ExPathBuf(PathBuf);

/// The text that `std::path::Path::display` shows for a path.
pub uninterp spec fn path_text(path: PathBuf) -> Seq<char>;

/// `std::path::PathBuf::new`: the empty path, which shows as the empty text.
pub assume_specification[ PathBuf::new ]() -> (path: PathBuf)
    ensures
        path_text(path) == Seq::<char>::empty(),
;

/// `<std::path::PathBuf as Clone>::clone`: the same path.
pub assume_specification[ <PathBuf as Clone>::clone ](path: &PathBuf) -> (copy: PathBuf)
    ensures
        copy == *path,
;

/// `std::path::Path::display`, turned into a string.
#[verifier::external_body]
fn show_path(path: &PathBuf) -> (text: String)
    ensures
        text@ == path_text(*path),
{
    path.display().to_string()
}

/// Where an artifact of a build is stored.
#[derive(Debug)]
pub enum ArtifactStorage {
    /// A file that the user named; it is never renamed.
    SingleFile(PathBuf),
    /// A directory; the artifact is written to a temporary file there, which is renamed once the
    /// name of the artifact is known.
    FileDir(PathBuf),
}

impl ArtifactStorage {
    /// The path of the file or directory.
    pub open spec fn path(self) -> PathBuf {
        match self {
            ArtifactStorage::SingleFile(path) => path,
            ArtifactStorage::FileDir(path) => path,
        }
    }

    /// The path, in a form to be shown.
    pub fn display(&self) -> (text: String)
        ensures
            text@ == path_text(self.path()),
    {
        match self {
            ArtifactStorage::SingleFile(path) => show_path(path),
            ArtifactStorage::FileDir(path) => show_path(path),
        }
    }
}

impl Clone for ArtifactStorage {
    fn clone(&self) -> (copy: Self)
        ensures
            copy == *self,
    {
        match self {
            ArtifactStorage::SingleFile(path) => ArtifactStorage::SingleFile(path.clone()),
            ArtifactStorage::FileDir(path) => ArtifactStorage::FileDir(path.clone()),
        }
    }
}

impl Default for ArtifactStorage {
    fn default() -> (storage: Self)
        ensures
            storage matches ArtifactStorage::SingleFile(path) && path_text(path) == Seq::<
                char,
            >::empty(),
    {
        ArtifactStorage::SingleFile(PathBuf::new())
    }
}

} // verus!
