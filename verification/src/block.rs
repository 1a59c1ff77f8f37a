//! Block bodies: the decoder of each kind of block, and the decoding of the
//! block that stands at a given place in a buffer.

use vstd::prelude::*;
use vstd::slice::slice_subrange;
use crate::error::SrrError;
use crate::fields::le16;
use crate::fields::le32;
use crate::fields::read_text;
use crate::fields::read_u16;
use crate::fields::read_u32;
use crate::fields::text_at;
use crate::head_type::HeadType;
use crate::header::SrrBlockHeader;
use crate::header::HEADER_LEN;

verus! {

/// The checksum field of a file-header block.
pub const FILE_HEADER_CRC: u16 = 0x6969;

/// The checksum field of a stored-file block.
pub const STORED_FILE_CRC: u16 = 0x6A6A;

/// The checksum field of a rar-file block.
pub const RAR_FILE_CRC: u16 = 0x7171;

/// The flags of a stored-file block: the file's bytes follow inline.
pub const STORED_FILE_FLAGS: u16 = 0x8000;

/// The body of the file header: the name of the application that wrote the
/// container.
#[derive(Debug, PartialEq, Eq)]
pub struct SrrFileHeader {
    pub application_name: String,
}

/// The body of a block that follows the file header. A stored-file block
/// gives the file's name and the size of its inline bytes; a rar-file block
/// gives the name of an archive volume and no size.
#[derive(Debug, PartialEq, Eq)]
pub struct SrrBody {
    pub name: String,
    pub file_size: Option<u32>,
}

/// What an `SrrBody` holds.
pub struct BodyView {
    pub name: Seq<char>,
    pub file_size: Option<u32>,
}

impl View for SrrBody {
    type V = BodyView;

    open spec fn view(&self) -> BodyView {
        BodyView { name: self.name@, file_size: self.file_size }
    }
}

/// A decoded block: its header and its body.
#[derive(Debug, PartialEq, Eq)]
pub struct SrrBlock {
    pub header: SrrBlockHeader,
    pub body: SrrBody,
}

/// What an `SrrBlock` holds.
pub struct BlockView {
    pub header: SrrBlockHeader,
    pub body: BodyView,
}

impl BlockView {
    /// Whether this is a block as `block_at` gives one: of a kind that is
    /// decoded, under a header that covers itself, with a file size if and
    /// only if it is a stored file.
    pub open spec fn well_formed(self) -> bool {
        &&& self.header.covers_itself()
        &&& self.header.head_type.is_decoded()
        &&& (self.body.file_size is Some <==> self.header.head_type == HeadType::StoredFileBlock)
    }

    /// The number of bytes from the start of this block to the start of the
    /// next: the size that the header declares and, behind it, the inline
    /// bytes of a stored file, which that size does not count.
    pub open spec fn span(self) -> int {
        match self.body.file_size {
            Some(file_size) => self.header.head_size + file_size,
            None => self.header.head_size as int,
        }
    }
}

impl View for SrrBlock {
    type V = BlockView;

    open spec fn view(&self) -> BlockView {
        BlockView { header: self.header, body: self.body@ }
    }
}

/// What decoding a file-header body gives. `body` is what follows the
/// header in the buffer.
pub open spec fn file_header_body(header: SrrBlockHeader, body: Seq<u8>) -> Result<
    Seq<char>,
    SrrError,
> {
    if header.head_crc != FILE_HEADER_CRC {
        Err(SrrError::InvalidChecksum { expected: FILE_HEADER_CRC, actual: header.head_crc })
    } else {
        text_at(body, 0)
    }
}

/// What decoding a stored-file body gives. The body is a 32-bit file size,
/// the file's name as a text field, and then the file's bytes, all of which
/// must lie within `body`.
pub open spec fn stored_file_body(header: SrrBlockHeader, body: Seq<u8>) -> Result<
    BodyView,
    SrrError,
> {
    if header.head_crc != STORED_FILE_CRC {
        Err(SrrError::InvalidChecksum { expected: STORED_FILE_CRC, actual: header.head_crc })
    } else if header.head_flags != STORED_FILE_FLAGS {
        Err(SrrError::InvalidFlags { expected: STORED_FILE_FLAGS, actual: header.head_flags })
    } else if body.len() < 4 {
        Err(SrrError::TruncatedBody)
    } else {
        match text_at(body, 4) {
            Err(e) => Err(e),
            Ok(name) => if body.len() < 6 + le16(body, 4) + le32(body, 0) {
                Err(SrrError::TruncatedBody)
            } else {
                Ok(BodyView { name, file_size: Some(le32(body, 0) as u32) })
            },
        }
    }
}

/// What decoding a rar-file body gives: the volume's name.
pub open spec fn rar_file_body(header: SrrBlockHeader, body: Seq<u8>) -> Result<
    BodyView,
    SrrError,
> {
    if header.head_crc != RAR_FILE_CRC {
        Err(SrrError::InvalidChecksum { expected: RAR_FILE_CRC, actual: header.head_crc })
    } else {
        match text_at(body, 0) {
            Err(e) => Err(e),
            Ok(name) => Ok(BodyView { name, file_size: None }),
        }
    }
}

/// A decoded body under its header, once the header's declared size is
/// seen to cover the header itself.
pub open spec fn framed(header: SrrBlockHeader, body: BodyView) -> Result<
    Option<BlockView>,
    SrrError,
> {
    if header.covers_itself() {
        Ok(Some(BlockView { header, body }))
    } else {
        Err(SrrError::TruncatedHeader)
    }
}

/// What decoding the block at `cursor` gives: the block; `None` where the
/// block is of a kind whose body this library does not decode; or the
/// error of the header, of the body, or of a declared size under seven.
pub open spec fn block_at(bytes: Seq<u8>, cursor: int) -> Result<Option<BlockView>, SrrError> {
    if bytes.len() - cursor < 7 {
        Err(SrrError::TruncatedHeader)
    } else {
        let header = SrrBlockHeader::decode(bytes.subrange(cursor, bytes.len() as int));
        let body = bytes.subrange(cursor + 7, bytes.len() as int);
        match header.head_type {
            HeadType::StoredFileBlock => match stored_file_body(header, body) {
                Err(e) => Err(e),
                Ok(decoded) => framed(header, decoded),
            },
            HeadType::RarFileBlock => match rar_file_body(header, body) {
                Err(e) => Err(e),
                Ok(decoded) => framed(header, decoded),
            },
            _ => Ok(None),
        }
    }
}

impl SrrBlock {
    /// Decodes the body of the file header. The checksum field is checked
    /// first, so that a wrong one is reported whatever the body holds.
    pub fn read_header_block(block_header: &SrrBlockHeader, buffer: &[u8]) -> (r: Result<
        SrrFileHeader,
        SrrError,
    >)
        ensures
            match r {
                Ok(file_header) => file_header_body(*block_header, buffer@) == Ok::<
                    Seq<char>,
                    SrrError,
                >(file_header.application_name@),
                Err(e) => file_header_body(*block_header, buffer@) == Err::<Seq<char>, SrrError>(
                    e,
                ),
            },
            block_header.head_crc != FILE_HEADER_CRC ==> r == Err::<SrrFileHeader, SrrError>(
                SrrError::InvalidChecksum {
                    expected: FILE_HEADER_CRC,
                    actual: block_header.head_crc,
                },
            ),
    {
        if block_header.head_crc != FILE_HEADER_CRC {
            return Err(
                SrrError::InvalidChecksum {
                    expected: FILE_HEADER_CRC,
                    actual: block_header.head_crc,
                },
            );
        }
        match read_text(buffer, 0) {
            Ok(application_name) => Ok(SrrFileHeader { application_name }),
            Err(e) => Err(e),
        }
    }

    /// Decodes the body of a stored-file block. Checksum and flags are
    /// checked first, in that order. The file's bytes are not kept, but
    /// they must be there.
    pub fn read_stored_file_block(block_header: &SrrBlockHeader, buffer: &[u8]) -> (r: Result<
        SrrBody,
        SrrError,
    >)
        ensures
            match r {
                Ok(body) => stored_file_body(*block_header, buffer@) == Ok::<BodyView, SrrError>(
                    body@,
                ),
                Err(e) => stored_file_body(*block_header, buffer@) == Err::<BodyView, SrrError>(e),
            },
            block_header.head_crc == STORED_FILE_CRC && block_header.head_flags
                != STORED_FILE_FLAGS ==> r is Err && r->Err_0 == (SrrError::InvalidFlags {
                expected: STORED_FILE_FLAGS,
                actual: block_header.head_flags,
            }),
    {
        if block_header.head_crc != STORED_FILE_CRC {
            return Err(
                SrrError::InvalidChecksum {
                    expected: STORED_FILE_CRC,
                    actual: block_header.head_crc,
                },
            );
        }
        if block_header.head_flags != STORED_FILE_FLAGS {
            return Err(
                SrrError::InvalidFlags {
                    expected: STORED_FILE_FLAGS,
                    actual: block_header.head_flags,
                },
            );
        }
        let len: usize = buffer.len();
        if len < 4 {
            return Err(SrrError::TruncatedBody);
        }
        let file_size: u32 = read_u32(buffer, 0);
        let name = match read_text(buffer, 4) {
            Ok(name) => name,
            Err(e) => {
                return Err(e);
            },
        };
        let name_len: usize = read_u16(buffer, 4) as usize;
        if len - 6 - name_len < file_size as usize {
            return Err(SrrError::TruncatedBody);
        }
        Ok(SrrBody { name, file_size: Some(file_size) })
    }

    /// Decodes the body of a rar-file block.
    pub fn read_rar_file_block(block_header: &SrrBlockHeader, buffer: &[u8]) -> (r: Result<
        SrrBody,
        SrrError,
    >)
        ensures
            match r {
                Ok(body) => rar_file_body(*block_header, buffer@) == Ok::<BodyView, SrrError>(
                    body@,
                ),
                Err(e) => rar_file_body(*block_header, buffer@) == Err::<BodyView, SrrError>(e),
            },
    {
        if block_header.head_crc != RAR_FILE_CRC {
            return Err(
                SrrError::InvalidChecksum { expected: RAR_FILE_CRC, actual: block_header.head_crc },
            );
        }
        match read_text(buffer, 0) {
            Ok(name) => Ok(SrrBody { name, file_size: None }),
            Err(e) => Err(e),
        }
    }

    /// The number of bytes from the start of this block to the start of the
    /// next.
    pub fn span(&self) -> (n: u64)
        ensures
            n == self@.span(),
    {
        let head_size: u64 = self.header.head_size as u64;
        match self.body.file_size {
            Some(file_size) => head_size + file_size as u64,
            None => head_size,
        }
    }

    /// Decodes the block that starts at `cursor`: its header, then its body
    /// by the decoder of the header's kind. Gives `None`, and decodes
    /// nothing more, where the kind is neither stored file nor rar file.
    /// The next block starts `span()` bytes behind `cursor`.
    pub fn read_block(buffer: &[u8], cursor: usize) -> (r: Result<Option<SrrBlock>, SrrError>)
        ensures
            match r {
                Ok(Some(block)) => block_at(buffer@, cursor as int) == Ok::<
                    Option<BlockView>,
                    SrrError,
                >(Some(block@)),
                Ok(None) => block_at(buffer@, cursor as int) == Ok::<Option<BlockView>, SrrError>(
                    None,
                ),
                Err(e) => block_at(buffer@, cursor as int) == Err::<Option<BlockView>, SrrError>(
                    e,
                ),
            },
            r matches Ok(Some(block)) ==> block@.well_formed(),
    {
        let len: usize = buffer.len();
        if len < HEADER_LEN || len - HEADER_LEN < cursor {
            return Err(SrrError::TruncatedHeader);
        }
        let header = match SrrBlockHeader::read_block_header(slice_subrange(buffer, cursor, len)) {
            Ok(header) => header,
            Err(e) => {
                return Err(e);
            },
        };
        let rest = slice_subrange(buffer, cursor + HEADER_LEN, len);
        let decoded = match header.head_type {
            HeadType::StoredFileBlock => SrrBlock::read_stored_file_block(&header, rest),
            HeadType::RarFileBlock => SrrBlock::read_rar_file_block(&header, rest),
            _ => {
                return Ok(None);
            },
        };
        match decoded {
            Err(e) => Err(e),
            Ok(body) => if header.head_size < 7 {
                Err(SrrError::TruncatedHeader)
            } else {
                Ok(Some(SrrBlock { header, body }))
            },
        }
    }
}

} // verus!
