//! Decoder for SRR containers: block-structured release-information files.
//!
//! A container is a run of blocks. Each block opens with a seven-byte header
//! and goes on with a body whose layout the header's type tag selects. The
//! first block is the file header and names the application that wrote the
//! container; stored-file and archive-volume blocks follow it.

pub mod error;
pub mod head_type;
pub mod fields;
pub mod header;
pub mod block;
pub mod file;
pub mod laws;
