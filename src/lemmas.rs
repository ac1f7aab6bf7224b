use vstd::prelude::*;

use crate::container::{le_u32, within};
use crate::dat::{
    block_payload, blocks_from, content_type_of, extracted, frame_at, header_at, reassembled,
    BlockTableEntry, DataInfo, BLOCK_MAGIC,
};
use crate::error::FFXIVError;

verus! {

/// The sum of the lengths that the blocks of `t` contribute, each block
/// counted once, in table order.
pub open spec fn block_lengths_sum(b: Seq<u8>, base: int, t: Seq<BlockTableEntry>) -> int
    decreases t.len(),
{
    if t.len() == 0 {
        0
    } else {
        block_lengths_sum(b, base, t.drop_last()) + match block_payload(b, base, t.last()) {
            Ok(q) => q.len() as int,
            Err(_) => 0,
        }
    }
}

/// The concatenated blocks are as long as the block lengths together.
proof fn lemma_blocks_length(b: Seq<u8>, base: int, t: Seq<BlockTableEntry>)
    requires
        blocks_from(b, base, t) is Ok,
    ensures
        blocks_from(b, base, t)->Ok_0.len() == block_lengths_sum(b, base, t),
    decreases t.len(),
{
    if t.len() > 0 {
        lemma_blocks_length(b, base, t.drop_last());
    }
}

/// A successful reassembly yields a payload whose length is the header's
/// declared uncompressed size, and that size is the sum of the lengths of
/// the decompressed blocks.
pub proof fn lemma_payload_has_declared_size(
    b: Seq<u8>,
    off: int,
    info: DataInfo,
    t: Seq<BlockTableEntry>,
)
    requires
        reassembled(b, off, info, t) is Ok,
    ensures
        reassembled(b, off, info, t)->Ok_0.len() == info.uncompressed_size,
        block_lengths_sum(b, off + info.header_length, t) == info.uncompressed_size,
{
    lemma_blocks_length(b, off + info.header_length, t);
}

/// A block whose frame does not start with the block magic is rejected with
/// `MagicMissing`, and so is the frame read on its own.
pub proof fn lemma_bad_magic_rejected(b: Seq<u8>, base: int, e: BlockTableEntry)
    requires
        within(b, base + e.offset, 4),
        le_u32(b, base + e.offset) != BLOCK_MAGIC,
    ensures
        frame_at(b, base + e.offset, e.block_size) == Err::<(Seq<u8>, bool), FFXIVError>(
            FFXIVError::MagicMissing,
        ),
        block_payload(b, base, e) == Err::<Seq<u8>, FFXIVError>(FFXIVError::MagicMissing),
{
}

/// A header that names a reserved content kind ends the extraction with
/// `UnsupportedContentKind`, and what follows the header fields plays no part
/// in it: any container with the same header bytes gives the same result.
pub proof fn lemma_unsupported_kind_stops_at_header(b: Seq<u8>, other: Seq<u8>, off: int)
    requires
        within(b, off, 24),
        within(other, off, 24),
        forall|i: int| off <= i < off + 24 ==> #[trigger] other[i] == b[i],
        le_u32(b, off + 4) == 1 || le_u32(b, off + 4) == 3 || le_u32(b, off + 4) == 4,
    ensures
        header_at(b, off) == Err::<DataInfo, FFXIVError>(
            FFXIVError::UnsupportedContentKind(le_u32(b, off + 4)),
        ),
        extracted(b, off) == Err::<Seq<u8>, FFXIVError>(
            FFXIVError::UnsupportedContentKind(le_u32(b, off + 4)),
        ),
        extracted(other, off) == extracted(b, off),
{
    assert(other[off + 4] == b[off + 4]);
    assert(other[off + 5] == b[off + 5]);
    assert(other[off + 6] == b[off + 6]);
    assert(other[off + 7] == b[off + 7]);
    assert(le_u32(other, off + 4) == le_u32(b, off + 4));
    assert(content_type_of(le_u32(b, off + 4)) is Err);
}

} // verus!
