pub mod align;
pub mod blob;
pub mod blob_manager;
pub mod blob_meta;
pub mod blob_table;
pub mod blocks;
pub mod bootstrap;
pub mod build_context;
pub mod chunk_dict;
pub mod compress;
pub mod conversion;
pub mod dedup;
pub mod digest;
pub mod error;
pub mod laws;
pub mod memory_writer;
pub mod output;
pub mod storage;
pub mod tar_header;
pub mod text;
pub mod writer;
