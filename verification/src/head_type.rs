//! The type tag of a block.

use vstd::prelude::*;

verus! {

/// The kind of a block, as told by the third byte of its header.
#[derive(Clone, Copy, Debug, PartialEq, Eq, Structural)]
pub enum HeadType {
    /// The file header, tag `0x69`.
    HeaderBlock,
    /// A file stored inline, tag `0x6A`.
    StoredFileBlock,
    /// An OSO hash, tag `0x6B`.
    OsoHashBlock,
    /// Archive padding, tag `0x6C`.
    RarPadding,
    /// A reference to an archive volume, tag `0x71`.
    RarFileBlock,
    /// Any other tag, kept as read.
    UnknownHeader(u8),
}

impl HeadType {
    /// The kind that a tag byte stands for.
    pub open spec fn of_tag(tag: u8) -> HeadType {
        if tag == 0x69 {
            HeadType::HeaderBlock
        } else if tag == 0x6A {
            HeadType::StoredFileBlock
        } else if tag == 0x6B {
            HeadType::OsoHashBlock
        } else if tag == 0x6C {
            HeadType::RarPadding
        } else if tag == 0x71 {
            HeadType::RarFileBlock
        } else {
            HeadType::UnknownHeader(tag)
        }
    }

    /// The tag byte that a kind is written as.
    pub open spec fn tag(self) -> u8 {
        match self {
            HeadType::HeaderBlock => 0x69,
            HeadType::StoredFileBlock => 0x6A,
            HeadType::OsoHashBlock => 0x6B,
            HeadType::RarPadding => 0x6C,
            HeadType::RarFileBlock => 0x71,
            HeadType::UnknownHeader(tag) => tag,
        }
    }

    /// Whether this library decodes the body of a block of this kind.
    pub open spec fn is_decoded(self) -> bool {
        self == HeadType::StoredFileBlock || self == HeadType::RarFileBlock
    }

    /// Reads a kind from its tag byte.
    pub fn from_u8(head_type: u8) -> (kind: HeadType)
        ensures
            kind == HeadType::of_tag(head_type),
            kind.tag() == head_type,
    {
        match head_type {
            0x69 => HeadType::HeaderBlock,
            0x6A => HeadType::StoredFileBlock,
            0x6B => HeadType::OsoHashBlock,
            0x6C => HeadType::RarPadding,
            0x71 => HeadType::RarFileBlock,
            _ => HeadType::UnknownHeader(head_type),
        }
    }
}

} // verus!
