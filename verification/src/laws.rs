//! What holds of the decoder on every buffer, stated over the models that
//! the decoders' contracts use, and proved.

use vstd::prelude::*;
use vstd::utf8::encode_utf8;
use vstd::utf8::encode_utf8_decode_utf8;
use vstd::utf8::encode_utf8_valid_utf8;
use crate::block::block_at;
use crate::block::file_header_body;
use crate::block::rar_file_body;
use crate::block::stored_file_body;
use crate::block::BlockView;
use crate::block::BodyView;
use crate::block::FILE_HEADER_CRC;
use crate::block::STORED_FILE_CRC;
use crate::block::STORED_FILE_FLAGS;
use crate::error::SrrError;
use crate::fields::le16;
use crate::fields::le32;
use crate::fields::text_at;
use crate::file::and_then_rest;
use crate::file::blocks_from;
use crate::file::file_start;
use crate::file::parse;
use crate::file::walk_goes_on;
use crate::file::walk_passes_block;
use crate::file::SrrFileView;
use crate::head_type::HeadType;
use crate::header::SrrBlockHeader;

verus! {

/// The header that stands at `cursor` in `bytes`.
pub open spec fn header_at(bytes: Seq<u8>, cursor: int) -> SrrBlockHeader {
    SrrBlockHeader::decode(bytes.subrange(cursor, bytes.len() as int))
}

/// The bytes behind the header that stands at `cursor`.
pub open spec fn body_at(bytes: Seq<u8>, cursor: int) -> Seq<u8> {
    bytes.subrange(cursor + 7, bytes.len() as int)
}

/// The low byte of a 16-bit number.
pub open spec fn low_byte(value: int) -> u8 {
    (value % 256) as u8
}

/// The high byte of a 16-bit number.
pub open spec fn high_byte(value: int) -> u8 {
    (value / 256) as u8
}

/// A file-header block that names `name`, with the given flags: the header
/// with the file header's checksum and tag and the block's true size, then
/// the name as a text field.
pub open spec fn file_header_block(name: Seq<char>, flags: u16) -> Seq<u8> {
    let text = encode_utf8(name);
    let size = 9 + text.len() as int;
    seq![
        0x69u8,
        0x69u8,
        0x69u8,
        low_byte(flags as int),
        high_byte(flags as int),
        low_byte(size),
        high_byte(size),
        low_byte(text.len() as int),
        high_byte(text.len() as int),
    ] + text
}

/// A block that the walk accepts declares a size that covers its own
/// header, and a container that decodes opens with such a block; so every
/// step of the walk moves on by seven bytes at least.
pub proof fn accepted_headers_cover_themselves(bytes: Seq<u8>, cursor: int)
    ensures
        block_at(bytes, cursor) matches Ok(Some(block)) ==> block.header == header_at(bytes, cursor)
            && block.well_formed() && block.header.head_size >= 7 && block.span() >= 7,
        parse(bytes) is Ok ==> bytes.len() >= 7 && SrrBlockHeader::decode(bytes).head_size >= 7,
{
}

/// A header that declares a size under seven is never accepted. A buffer
/// of fewer than seven bytes has an incoherent size. A file header of such
/// a size, over a body that decodes, is a truncated header, and so is the
/// header of a stored-file or rar-file block over a body that decodes.
pub proof fn undersized_headers_are_rejected(bytes: Seq<u8>, cursor: int)
    ensures
        bytes.len() < 7 ==> parse(bytes) == Err::<SrrFileView, SrrError>(
            SrrError::IncoherentFileSize,
        ),
        bytes.len() >= 7 && SrrBlockHeader::decode(bytes).head_size < 7 ==> parse(bytes) is Err,
        bytes.len() >= 7 && SrrBlockHeader::decode(bytes).head_size < 7 && file_header_body(
            SrrBlockHeader::decode(bytes),
            body_at(bytes, 0),
        ) is Ok ==> parse(bytes) == Err::<SrrFileView, SrrError>(SrrError::TruncatedHeader),
        bytes.len() - cursor < 7 ==> block_at(bytes, cursor) == Err::<Option<BlockView>, SrrError>(
            SrrError::TruncatedHeader,
        ),
        bytes.len() - cursor >= 7 && header_at(bytes, cursor).head_type.is_decoded() && header_at(
            bytes,
            cursor,
        ).head_size < 7 ==> block_at(bytes, cursor) is Err,
        bytes.len() - cursor >= 7 && header_at(bytes, cursor).head_size < 7 && (header_at(
            bytes,
            cursor,
        ).head_type == HeadType::StoredFileBlock && stored_file_body(
            header_at(bytes, cursor),
            body_at(bytes, cursor),
        ) is Ok || header_at(bytes, cursor).head_type == HeadType::RarFileBlock && rar_file_body(
            header_at(bytes, cursor),
            body_at(bytes, cursor),
        ) is Ok) ==> block_at(bytes, cursor) == Err::<Option<BlockView>, SrrError>(
            SrrError::TruncatedHeader,
        ),
{
    if bytes.len() >= 7 {
        assert(bytes.subrange(7, bytes.len() as int) == body_at(bytes, 0));
    }
}

/// A file-header block made for a name decodes to that name, the empty
/// name too: as a body under its header, and as a container of one block.
pub proof fn file_header_round_trip(name: Seq<char>, flags: u16)
    requires
        9 + encode_utf8(name).len() <= 0xFFFF,
    ensures
        file_header_body(
            header_at(file_header_block(name, flags), 0),
            body_at(file_header_block(name, flags), 0),
        ) == Ok::<Seq<char>, SrrError>(name),
        file_start(file_header_block(name, flags)) == Ok::<(Seq<char>, int), SrrError>(
            (name, 9 + encode_utf8(name).len() as int),
        ),
        parse(file_header_block(name, flags)) == Ok::<SrrFileView, SrrError>(
            SrrFileView { application_name: name, body: Seq::empty() },
        ),
{
    let block = file_header_block(name, flags);
    let text = encode_utf8(name);
    let body = body_at(block, 0);
    encode_utf8_valid_utf8(name);
    encode_utf8_decode_utf8(name);
    assert(block.len() == 9 + text.len());
    assert(block.subrange(0, block.len() as int) =~= block);
    assert(le16(block, 0) == 0x6969);
    assert(le16(block, 5) == 9 + text.len());
    assert(le16(body, 0) == text.len());
    assert(body.subrange(2, 2 + text.len() as int) =~= text);
    assert(text_at(body, 0) == Ok::<Seq<char>, SrrError>(name));
    assert(!walk_goes_on(block, 9 + text.len() as int));
}

/// The checksum gate: a container whose first header does not hold the
/// file header's checksum is refused for that, whatever else it holds.
pub proof fn checksum_gate(bytes: Seq<u8>)
    requires
        bytes.len() >= 7,
        le16(bytes, 0) != FILE_HEADER_CRC,
    ensures
        parse(bytes) == Err::<SrrFileView, SrrError>(
            SrrError::InvalidChecksum {
                expected: FILE_HEADER_CRC,
                actual: SrrBlockHeader::decode(bytes).head_crc,
            },
        ),
        SrrBlockHeader::decode(bytes).head_crc == le16(bytes, 0),
{
}

/// The flags gate: a stored-file block with the right checksum and other
/// flags than those of a stored file is refused for its flags, whatever
/// its body holds, and the walk that comes to it fails so.
pub proof fn flags_gate(bytes: Seq<u8>, cursor: int)
    requires
        0 <= cursor,
        bytes.len() - cursor >= 7,
        header_at(bytes, cursor).head_type == HeadType::StoredFileBlock,
        header_at(bytes, cursor).head_crc == STORED_FILE_CRC,
        header_at(bytes, cursor).head_flags != STORED_FILE_FLAGS,
    ensures
        block_at(bytes, cursor) == Err::<Option<BlockView>, SrrError>(
            SrrError::InvalidFlags {
                expected: STORED_FILE_FLAGS,
                actual: header_at(bytes, cursor).head_flags,
            },
        ),
        walk_goes_on(bytes, cursor) ==> blocks_from(bytes, cursor) == Err::<
            Seq<BodyView>,
            SrrError,
        >(
            SrrError::InvalidFlags {
                expected: STORED_FILE_FLAGS,
                actual: header_at(bytes, cursor).head_flags,
            },
        ),
{
}

/// The cursor's advance over a stored file: behind a stored-file block
/// that declares the size `S` and the file size `F`, the walk goes on
/// `S + F` bytes behind the block's start.
pub proof fn stored_file_advance(bytes: Seq<u8>, cursor: int, block: BlockView)
    requires
        0 <= cursor,
        walk_goes_on(bytes, cursor),
        header_at(bytes, cursor).head_type == HeadType::StoredFileBlock,
        block_at(bytes, cursor) == Ok::<Option<BlockView>, SrrError>(Some(block)),
    ensures
        block.header.head_size == le16(bytes, cursor + 5),
        block.body.file_size == Some(le32(bytes, cursor + 7) as u32),
        block.span() == le16(bytes, cursor + 5) + le32(bytes, cursor + 7),
        blocks_from(bytes, cursor) == and_then_rest(
            seq![block.body],
            blocks_from(bytes, cursor + le16(bytes, cursor + 5) + le32(bytes, cursor + 7)),
        ),
{
    walk_passes_block(bytes, cursor, block, Seq::empty());
}

/// The walk halts at a block of a kind that is not decoded: a container
/// whose file header decodes, and whose next block is neither a stored
/// file nor a rar file (an OSO hash, say, with the tag `0x6B`), decodes
/// without error to the application's name and no bodies.
pub proof fn walk_halts_at_undecoded_kind(bytes: Seq<u8>, name: Seq<char>, cursor: int)
    requires
        file_start(bytes) == Ok::<(Seq<char>, int), SrrError>((name, cursor)),
        !HeadType::of_tag(bytes[cursor + 2]).is_decoded(),
    ensures
        parse(bytes) == Ok::<SrrFileView, SrrError>(
            SrrFileView { application_name: name, body: Seq::empty() },
        ),
        !HeadType::of_tag(0x6B).is_decoded(),
{
}

} // verus!
