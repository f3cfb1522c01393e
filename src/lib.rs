//! Transcoding core: moves batches of fetched rows into typed columns of a
//! Parquet file, with a governor that bounds the memory of each batch.

pub mod batch_size_limit;
pub mod enum_args;
pub mod identical;
pub mod parquet_types;
pub mod text;
