//! The ways in which reading a container fails.

use vstd::prelude::*;

verus! {

/// Why a container could not be read.
#[derive(Clone, Copy, Debug, PartialEq, Eq, Structural)]
pub enum SrrError {
    /// The path names no file.
    FileNotFound,
    /// The file's metadata could not be had.
    MetadataUnavailable,
    /// The file's contents could not be read.
    ReadFailure,
    /// The buffer is too short to hold even one block header.
    IncoherentFileSize,
    /// No whole block header is to be had where one is due.
    TruncatedHeader,
    /// The header's checksum field is not the constant of the block's kind.
    InvalidChecksum { expected: u16, actual: u16 },
    /// The header's flags are not those that the block's kind demands.
    InvalidFlags { expected: u16, actual: u16 },
    /// A text field is not UTF-8.
    InvalidUtf8,
    /// A declared length reaches past the end of the buffer.
    TruncatedBody,
}

} // verus!
