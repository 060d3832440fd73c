//! The output of a build.
use vstd::prelude::*;
use crate::blob_manager::BlobManager;
use crate::dedup::blob_ids;
use crate::error::BuildError;
use crate::storage::{path_text, ArtifactStorage};

verus! {

/// BuildOutput represents the output in this build.
#[derive(Debug)]
pub struct BuildOutput {
    /// Blob ids in the blob table of bootstrap.
    pub blobs: Vec<String>,
    /// The size of output blob in this build.
    pub blob_size: Option<u64>,
    /// File path for the metadata blob.
    pub bootstrap_path: Option<String>,
}

impl BuildOutput {
    /// The output of a build with the given blobs and bootstrap: the size is that of the last
    /// blob, and the path of the bootstrap is known only if it was named.
    pub fn new(
        blob_mgr: &BlobManager,
        bootstrap_storage: &Option<ArtifactStorage>,
    ) -> (result: Result<BuildOutput, BuildError>)
        ensures
            result matches Ok(output) && {
                &&& output.blobs@.len() == blob_mgr.spec_blobs().len()
                &&& forall|i: int|
                    0 <= i < output.blobs@.len() ==> (#[trigger] output.blobs@[i])@ == blob_ids(
                        blob_mgr.spec_blobs(),
                    )[i]
                &&& output.blob_size == if blob_mgr.spec_blobs().len() > 0 {
                    Some(blob_mgr.spec_blobs().last().compressed_blob_size)
                } else {
                    None
                }
                &&& match bootstrap_storage {
                    Some(ArtifactStorage::SingleFile(path)) => output.bootstrap_path matches Some(
                        text,
                    ) && text@ == path_text(*path),
                    _ => output.bootstrap_path is None,
                }
            },
    {
        let blobs: Vec<String> = blob_mgr.get_blob_ids();
        let blob_size: Option<u64> = match blob_mgr.get_last_blob() {
            Some(blob) => Some(blob.compressed_blob_size),
            None => None,
        };
        let bootstrap_path: Option<String> = match bootstrap_storage {
            Some(storage) => match storage {
                ArtifactStorage::SingleFile(_) => Some(storage.display()),
                ArtifactStorage::FileDir(_) => None,
            },
            None => None,
        };
        Ok(BuildOutput { blobs, blob_size, bootstrap_path })
    }
}

impl Clone for BuildOutput {
    fn clone(&self) -> (copy: Self)
        ensures
            copy.blobs@.len() == self.blobs@.len(),
            forall|i: int|
                0 <= i < self.blobs@.len() ==> (#[trigger] copy.blobs@[i])@ == self.blobs@[i]@,
            copy.blob_size == self.blob_size,
            match self.bootstrap_path {
                Some(path) => copy.bootstrap_path matches Some(text) && text@ == path@,
                None => copy.bootstrap_path is None,
            },
    {
        let blobs: Vec<String> = self.blobs.clone();
        assert forall|i: int| 0 <= i < self.blobs@.len() implies (#[trigger] blobs@[i])@
            == self.blobs@[i]@ by {
            assert(cloned(self.blobs@[i], blobs@[i]));
        }
        let bootstrap_path: Option<String> = match &self.bootstrap_path {
            Some(path) => Some(path.clone()),
            None => None,
        };
        BuildOutput { blobs, blob_size: self.blob_size, bootstrap_path }
    }
}

impl Default for BuildOutput {
    fn default() -> (output: Self)
        ensures
            output.blobs@ == Seq::<String>::empty(),
            output.blob_size is None,
            output.bootstrap_path is None,
    {
        BuildOutput { blobs: Vec::new(), blob_size: None, bootstrap_path: None }
    }
}

} // verus!
