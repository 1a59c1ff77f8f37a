//! The seven-byte header that every block opens with.

use vstd::prelude::*;
use crate::error::SrrError;
use crate::fields::le16;
use crate::fields::read_u16;
use crate::head_type::HeadType;

verus! {

/// The number of bytes in a block header.
pub const HEADER_LEN: usize = 7;

/// A block header: checksum field, kind, flags, and the size of the block,
/// header included.
#[derive(Clone, Copy, Debug, PartialEq, Eq, Structural)]
pub struct SrrBlockHeader {
    pub head_crc: u16,
    pub head_type: HeadType,
    pub head_flags: u16,
    pub head_size: u16,
}

impl SrrBlockHeader {
    /// The header that the first seven bytes of `bytes` spell:
    /// checksum, tag, flags, size.
    pub open spec fn decode(bytes: Seq<u8>) -> SrrBlockHeader {
        SrrBlockHeader {
            head_crc: le16(bytes, 0) as u16,
            head_type: HeadType::of_tag(bytes[2]),
            head_flags: le16(bytes, 3) as u16,
            head_size: le16(bytes, 5) as u16,
        }
    }

    /// What reading a header from `bytes` gives: the header, or
    /// `TruncatedHeader` where fewer than seven bytes are there.
    pub open spec fn parse(bytes: Seq<u8>) -> Result<SrrBlockHeader, SrrError> {
        if bytes.len() < 7 {
            Err(SrrError::TruncatedHeader)
        } else {
            Ok(SrrBlockHeader::decode(bytes))
        }
    }

    /// Whether the declared size covers at least the header itself.
    pub open spec fn covers_itself(self) -> bool {
        self.head_size >= 7
    }

    /// Reads a header from the front of `buffer`. Only the length is
    /// checked; what the fields must hold depends on the block's kind and is
    /// left to the body decoders.
    pub fn read_block_header(buffer: &[u8]) -> (r: Result<SrrBlockHeader, SrrError>)
        ensures
            r == SrrBlockHeader::parse(buffer@),
    {
        if buffer.len() < HEADER_LEN {
            return Err(SrrError::TruncatedHeader);
        }
        Ok(
            SrrBlockHeader {
                head_crc: read_u16(buffer, 0),
                head_type: HeadType::from_u8(buffer[2]),
                head_flags: read_u16(buffer, 3),
                head_size: read_u16(buffer, 5),
            },
        )
    }
}

} // verus!
