//! The container as a whole, and the walk over its blocks.

use vstd::prelude::*;
use vstd::slice::slice_subrange;
use crate::block::block_at;
use crate::block::file_header_body;
use crate::block::BlockView;
use crate::block::BodyView;
use crate::block::SrrBlock;
use crate::block::SrrBody;
use crate::block::SrrFileHeader;
use crate::error::SrrError;
use crate::header::SrrBlockHeader;
use crate::header::HEADER_LEN;

verus! {

/// A decoded container: the name of the application that wrote it, and the
/// bodies of the blocks behind the file header, in the order of the file.
#[derive(Debug, PartialEq, Eq)]
pub struct SrrFile {
    pub application_name: String,
    pub body: Vec<SrrBody>,
}

/// What an `SrrFile` holds.
pub struct SrrFileView {
    pub application_name: Seq<char>,
    pub body: Seq<BodyView>,
}

/// What a run of bodies holds.
pub open spec fn body_views(body: Seq<SrrBody>) -> Seq<BodyView> {
    Seq::new(body.len(), |i: int| body[i]@)
}

impl View for SrrFile {
    type V = SrrFileView;

    open spec fn view(&self) -> SrrFileView {
        SrrFileView { application_name: self.application_name@, body: body_views(self.body@) }
    }
}

/// `first` in front of what follows it, where what follows was decoded.
pub open spec fn and_then_rest(
    first: Seq<BodyView>,
    rest: Result<Seq<BodyView>, SrrError>,
) -> Result<Seq<BodyView>, SrrError> {
    match rest {
        Ok(bodies) => Ok(first + bodies),
        Err(e) => Err(e),
    }
}

/// Whether the walk goes on at `cursor`: more than a header's length must
/// lie between it and the end of the buffer.
pub open spec fn walk_goes_on(bytes: Seq<u8>, cursor: int) -> bool {
    cursor < bytes.len() - 7
}

/// The bodies that the walk gathers from `cursor` on. It ends where
/// `walk_goes_on` fails or a block of a kind that is not decoded stands, and
/// fails where a block does. Behind a decoded block it goes on `span()`
/// bytes further.
pub open spec fn blocks_from(bytes: Seq<u8>, cursor: int) -> Result<Seq<BodyView>, SrrError>
    decreases
        (if walk_goes_on(bytes, cursor) {
            bytes.len() - cursor
        } else {
            0
        }),
{
    if !walk_goes_on(bytes, cursor) {
        Ok(Seq::empty())
    } else {
        match block_at(bytes, cursor) {
            Err(e) => Err(e),
            Ok(None) => Ok(Seq::empty()),
            Ok(Some(block)) => and_then_rest(
                seq![block.body],
                blocks_from(bytes, cursor + block.span()),
            ),
        }
    }
}

/// What the first block of a container gives: the application's name and
/// the place of the second block.
pub open spec fn file_start(bytes: Seq<u8>) -> Result<(Seq<char>, int), SrrError> {
    if bytes.len() < 7 {
        Err(SrrError::IncoherentFileSize)
    } else {
        let header = SrrBlockHeader::decode(bytes);
        match file_header_body(header, bytes.subrange(7, bytes.len() as int)) {
            Err(e) => Err(e),
            Ok(name) => if header.covers_itself() {
                Ok((name, header.head_size as int))
            } else {
                Err(SrrError::TruncatedHeader)
            },
        }
    }
}

/// What decoding a container gives.
pub open spec fn parse(bytes: Seq<u8>) -> Result<SrrFileView, SrrError> {
    match file_start(bytes) {
        Err(e) => Err(e),
        Ok((application_name, cursor)) => match blocks_from(bytes, cursor) {
            Err(e) => Err(e),
            Ok(body) => Ok(SrrFileView { application_name, body }),
        },
    }
}

/// The walk passes a decoded block whole: where the block at `cursor` is
/// decoded, its body is the next one gathered, and the walk goes on at
/// `cursor + span()`, that is behind the size that the header declares and
/// behind the bytes of a stored file. `gathered` is what was gathered
/// before `cursor`.
pub proof fn walk_passes_block(
    bytes: Seq<u8>,
    cursor: int,
    block: BlockView,
    gathered: Seq<BodyView>,
)
    requires
        walk_goes_on(bytes, cursor),
        block_at(bytes, cursor) == Ok::<Option<BlockView>, SrrError>(Some(block)),
    ensures
        block.span() >= 7,
        blocks_from(bytes, cursor) == and_then_rest(
            seq![block.body],
            blocks_from(bytes, cursor + block.span()),
        ),
        and_then_rest(gathered, blocks_from(bytes, cursor)) == and_then_rest(
            gathered + seq![block.body],
            blocks_from(bytes, cursor + block.span()),
        ),
{
    if let Ok(bodies) = blocks_from(bytes, cursor + block.span()) {
        assert((gathered + seq![block.body]) + bodies =~= gathered + (seq![block.body] + bodies));
    }
}

impl SrrFile {
    /// Decodes the file header, which is whatever block stands first, and
    /// gives it with the place where the second block starts.
    pub fn read_file_header(buffer: &[u8]) -> (r: Result<(SrrFileHeader, usize), SrrError>)
        ensures
            match r {
                Ok((file_header, cursor)) => file_start(buffer@) == Ok::<(Seq<char>, int), SrrError>(
                    (file_header.application_name@, cursor as int),
                ),
                Err(e) => file_start(buffer@) == Err::<(Seq<char>, int), SrrError>(e),
            },
            r is Ok ==> 7 <= r->Ok_0.1 <= 0xFFFF,
    {
        let header = match SrrBlockHeader::read_block_header(buffer) {
            Ok(header) => header,
            Err(_) => {
                return Err(SrrError::IncoherentFileSize);
            },
        };
        let file_header = match SrrBlock::read_header_block(
            &header,
            slice_subrange(buffer, HEADER_LEN, buffer.len()),
        ) {
            Ok(file_header) => file_header,
            Err(e) => {
                return Err(e);
            },
        };
        if header.head_size < 7 {
            return Err(SrrError::TruncatedHeader);
        }
        Ok((file_header, header.head_size as usize))
    }

    /// Decodes a container held in memory: the file header, then block
    /// after block until the buffer is used up or a block of a kind that is
    /// not decoded is met. Any error ends the decoding, and nothing of what
    /// was decoded until then is given.
    pub fn from_bytes(buffer: &[u8]) -> (r: Result<SrrFile, SrrError>)
        ensures
            match r {
                Ok(file) => parse(buffer@) == Ok::<SrrFileView, SrrError>(file@),
                Err(e) => parse(buffer@) == Err::<SrrFileView, SrrError>(e),
            },
    {
        let (file_header, start) = match SrrFile::read_file_header(buffer) {
            Ok(started) => started,
            Err(e) => {
                return Err(e);
            },
        };
        let len: usize = buffer.len();
        let mut cursor: usize = start;
        let mut body: Vec<SrrBody> = Vec::new();
        proof {
            assert(body_views(body@) =~= Seq::empty());
            if let Ok(bodies) = blocks_from(buffer@, start as int) {
                assert(Seq::<BodyView>::empty() + bodies =~= bodies);
            }
        }
        loop
            invariant_except_break
                blocks_from(buffer@, start as int) == and_then_rest(
                    body_views(body@),
                    blocks_from(buffer@, cursor as int),
                ),
            invariant
                len == buffer@.len(),
                len >= 7,
                file_start(buffer@) == Ok::<(Seq<char>, int), SrrError>(
                    (file_header.application_name@, start as int),
                ),
            ensures
                blocks_from(buffer@, start as int) == Ok::<Seq<BodyView>, SrrError>(
                    body_views(body@),
                ),
            decreases len - cursor,
        {
            if cursor >= len - HEADER_LEN {
                break ;
            }
            let block = match SrrBlock::read_block(buffer, cursor) {
                Ok(Some(block)) => block,
                Ok(None) => {
                    break ;
                },
                Err(e) => {
                    return Err(e);
                },
            };
            let span: u64 = block.span();
            proof {
                walk_passes_block(buffer@, cursor as int, block@, body_views(body@));
                assert(body_views(body@.push(block.body)) =~= body_views(body@) + seq![
                    block@.body,
                ]);
            }
            body.push(block.body);
            if span >= (len - cursor) as u64 {
                break ;
            }
            cursor = cursor + span as usize;
        }
        Ok(SrrFile { application_name: file_header.application_name, body })
    }
}

} // verus!
