//! Request and response records of the Limine boot protocol.
//!
//! A kernel places request records in a dedicated region of its image. Before it
//! hands control over, the bootloader recognises each record by its four magic
//! words and stores the address of a response record in it. Everything the
//! bootloader leaves behind lives in memory that the kernel does not own; this
//! crate decodes that memory, byte for byte, into plain values.
use vstd::prelude::*;

pub mod memory;
pub mod requests;
pub mod util;

verus! {

/// First word of the pair that opens every request record.
pub const COMMON_MAGIC_0: u64 = 0xc7b1dd30df4c8b88;

/// Second word of the pair that opens every request record.
pub const COMMON_MAGIC_1: u64 = 0x0a82e883a194f07b;

/// The four words that the build places in front of the request records.
pub const REQUEST_START_MARKER: [u64; 4] = [
    0xf6b8f4b39de7d1ae,
    0xfab91a6940fcb9cf,
    0x785c6ed015d3e316,
    0x181e920a7852b9d9,
];

/// The two words that the build places behind the request records.
pub const REQUEST_END_MARKER: [u64; 2] = [0xadc0e0531bb10d03, 0x9572709f31764c62];

/// The words of the base-revision tag that asks for `revision`.
pub open spec fn base_revision_words(revision: u64) -> Seq<u64> {
    seq![0xf9562b2d5c95a6c8u64, 0x6a7b384944536bdcu64, revision, 0u64]
}

/// Builds the base-revision tag: two magic words, the revision asked for, and a
/// zero the bootloader may overwrite.
pub fn use_base_revision(revision: u64) -> (tag: [u64; 4])
    ensures
        tag@ == base_revision_words(revision),
{
    let tag: [u64; 4] = [0xf9562b2d5c95a6c8, 0x6a7b384944536bdc, revision, 0];
    assert(tag@ =~= base_revision_words(revision));
    tag
}

/// The identity of a request record: the protocol-wide magic pair followed by
/// the pair of the feature asked for.
#[derive(Clone, Copy, Debug, PartialEq, Eq)]
pub struct LimineReqId {
    pub common_magic: [u64; 2],
    pub other: [u64; 2],
}

impl LimineReqId {
    /// The four identity words in the order in which they lie in memory.
    pub open spec fn words(self) -> Seq<u64> {
        self.common_magic@ + self.other@
    }

    /// True when the bootloader recognises the record as a request for the
    /// feature with the magic pair `(first, second)`.
    pub open spec fn identifies(self, first: u64, second: u64) -> bool {
        self.words() == seq![COMMON_MAGIC_0, COMMON_MAGIC_1, first, second]
    }

    /// The identity of the feature whose magic pair is `other`.
    pub fn new(other: [u64; 2]) -> (id: Self)
        ensures
            id.other == other,
            id.identifies(other[0], other[1]),
    {
        let id = LimineReqId { common_magic: [COMMON_MAGIC_0, COMMON_MAGIC_1], other };
        assert(id.words() =~= seq![COMMON_MAGIC_0, COMMON_MAGIC_1, other[0], other[1]]);
        id
    }
}

} // verus!
