# nydus_image

The build context of an image builder for container images in RAFS format, as a verified library.

- `src/` is the library. Every function has a contract that Verus proves.
  - `conversion`, `build_context`, `compress`, `digest`: the options of a build.
  - `blob`, `blob_meta`: the blob of a layer and its metadata.
  - `blob_manager`, `blob_table`, `chunk_dict`, `dedup`: the blobs of a build, the table that goes
    into the bootstrap, and the blobs that are shared by way of a chunk dictionary.
  - `bootstrap`, `blocks`, `align`: the bootstrap and the allocation of space in partly used
    metadata blocks.
  - `storage`, `writer`, `tar_header`, `memory_writer`, `output`: where artifacts are written to.
- `app/` performs the file I/O that the library decides on.
- `tests/` runs the library.

What is taken on trust is what the crates `tar` and `sha2` and `std::path` do. It is stated at the
items marked `external_body` or `assume_specification` in `tar_header`, `blob` and `storage`.
