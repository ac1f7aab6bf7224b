use vstd::prelude::*;

use crate::container::{bytes_of, le_u16, le_u32, within, DatFile};
use crate::error::FFXIVError;
use crate::inflate::{decompress, inflated};


verus! {

/// The magic number that opens every block frame.
pub const BLOCK_MAGIC: u32 = 0x10;

/// Compressed frames are padded to a multiple of this many bytes.
pub const BLOCK_PADDING: u32 = 0x80;

/// A block whose compressed length is below this bound holds DEFLATE data;
/// at or above it the block is stored verbatim.
pub const COMPRESSED_LIMIT: u32 = 32000;

/// Size of the fixed header fields at the start of a file's region.
pub const HEADER_FIELDS_SIZE: u64 = 24;

/// Size of one block table entry.
pub const TABLE_ENTRY_SIZE: u64 = 8;

/// Size of the sub-header at the start of a block frame.
pub const FRAME_HEADER_SIZE: u64 = 16;

/// Where one logical file's region starts in the container, as resolved by
/// an index lookup.
#[derive(Debug, Clone, Copy, PartialEq, Eq, Structural)]
pub struct OffsetDescriptor {
    pub data_offset: u32,
}

/// The kind of content a file's region holds.
#[derive(Debug, Clone, Copy, PartialEq, Eq, Structural)]
pub enum ContentType {
    Binary,
}

/// What the header's content-kind code decodes to.
pub open spec fn content_type_of(code: u32) -> Result<ContentType, FFXIVError> {
    if code == 2 {
        Ok(ContentType::Binary)
    } else if code == 1 || code == 3 || code == 4 {
        Err(FFXIVError::UnsupportedContentKind(code))
    } else {
        Err(FFXIVError::InvalidContentKind(code))
    }
}

impl ContentType {
    /// Decodes a content-kind code: 2 is a binary blob, 1, 3 and 4 are
    /// reserved kinds not decoded here, anything else is invalid.
    pub fn from(t: u32) -> (r: Result<ContentType, FFXIVError>)
        ensures
            r == content_type_of(t),
    {
        match t {
            2 => Ok(ContentType::Binary),
            1 | 3 | 4 => Err(FFXIVError::UnsupportedContentKind(t)),
            _ => Err(FFXIVError::InvalidContentKind(t)),
        }
    }
}

/// The fixed header at the start of a file's region.
#[derive(Debug, Clone, Copy, PartialEq, Eq, Structural)]
pub struct DataInfo {
    pub header_length: u32,
    pub content_type: ContentType,
    pub uncompressed_size: u32,
    pub block_buffer_size: u32,
    pub num_blocks: u32,
}

/// The header of the region that starts at `off`: six little-endian `u32`
/// fields, the fourth of them reserved.
pub open spec fn header_at(b: Seq<u8>, off: int) -> Result<DataInfo, FFXIVError> {
    if !within(b, off, 24) {
        Err(FFXIVError::ReadingDat)
    } else {
        match content_type_of(le_u32(b, off + 4)) {
            Err(e) => Err(e),
            Ok(kind) => Ok(
                DataInfo {
                    header_length: le_u32(b, off),
                    content_type: kind,
                    uncompressed_size: le_u32(b, off + 8),
                    block_buffer_size: le_u32(b, off + 16),
                    num_blocks: le_u32(b, off + 20),
                },
            ),
        }
    }
}

/// Reads the header fields at the cursor, which stands at the region's start.
fn read_header_fields(file: &mut DatFile) -> (r: Result<DataInfo, FFXIVError>)
    ensures
        final(file).data() == old(file).data(),
        r == header_at(old(file).data(), old(file).cursor()),
{
    if !file.can_read(HEADER_FIELDS_SIZE) {
        return Err(FFXIVError::ReadingDat);
    }
    let hlen = file.read_u32_le()?;
    let code = file.read_u32_le()?;
    let un_size = file.read_u32_le()?;
    let _reserved = file.read_u32_le()?;
    let block_buf_size = file.read_u32_le()?;
    let block_count = file.read_u32_le()?;
    let content_type = ContentType::from(code)?;
    Ok(
        DataInfo {
            header_length: hlen,
            content_type,
            uncompressed_size: un_size,
            block_buffer_size: block_buf_size,
            num_blocks: block_count,
        },
    )
}

/// Reads the header of the region that `index` points at. The cursor is
/// back where it was when this returns, whatever the outcome.
pub fn read_data_header(file: &mut DatFile, index: &OffsetDescriptor) -> (r: Result<
    DataInfo,
    FFXIVError,
>)
    ensures
        final(file).data() == old(file).data(),
        final(file).cursor() == old(file).cursor(),
        r == header_at(old(file).data(), index.data_offset as int),
{
    let current_pos = file.position();
    file.seek(index.data_offset as u64);
    let r = read_header_fields(file);
    file.seek(current_pos);
    r
}

/// One entry of the block table: where a block's frame lies, relative to
/// the end of the file's header, and its sizes.
#[derive(Debug, Clone, Copy, PartialEq, Eq, Structural)]
pub struct BlockTableEntry {
    pub offset: u32,
    pub block_size: u16,
    pub decompressed_size: u16,
}

/// The table entry stored at `p`.
pub open spec fn entry_at(b: Seq<u8>, p: int) -> BlockTableEntry {
    BlockTableEntry {
        offset: le_u32(b, p),
        block_size: le_u16(b, p + 4),
        decompressed_size: le_u16(b, p + 6),
    }
}

/// The block table of the region at `off`: `n` entries of eight bytes each,
/// starting right after the fixed header fields, whatever the header length.
pub open spec fn table_at(b: Seq<u8>, off: int, n: nat) -> Result<Seq<BlockTableEntry>, FFXIVError> {
    if within(b, off + 24, 8 * n as int) {
        Ok(Seq::new(n, |i: int| entry_at(b, off + 24 + 8 * i)))
    } else {
        Err(FFXIVError::ReadingDat)
    }
}

/// The contents of a table result, as a sequence.
pub open spec fn entries_of(r: Result<Vec<BlockTableEntry>, FFXIVError>) -> Result<
    Seq<BlockTableEntry>,
    FFXIVError,
> {
    match r {
        Ok(v) => Ok(v@),
        Err(e) => Err(e),
    }
}

/// Reads `n` table entries at the cursor.
fn read_table_entries(file: &mut DatFile, n: u32) -> (r: Result<Vec<BlockTableEntry>, FFXIVError>)
    ensures
        final(file).data() == old(file).data(),
        entries_of(r) == table_at(old(file).data(), old(file).cursor() - 24, n as nat),
{
    let ghost b = file.data();
    let ghost start = file.cursor();
    // The whole table must lie inside the container before anything is
    // allocated for it.
    if !file.can_read(n as u64 * TABLE_ENTRY_SIZE) {
        return Err(FFXIVError::ReadingDat);
    }
    let mut table: Vec<BlockTableEntry> = Vec::with_capacity(n as usize);
    let mut i: u32 = 0;
    while i < n
        invariant
            file.data() == b,
            within(b, start, 8 * n),
            0 <= i <= n,
            file.cursor() == start + 8 * i,
            table@ =~= Seq::new(i as nat, |k: int| entry_at(b, start + 8 * k)),
        decreases n - i,
    {
        let offset = file.read_u32_le()?;
        let block_size = file.read_u16_le()?;
        let decompressed_size = file.read_u16_le()?;
        table.push(BlockTableEntry { offset, block_size, decompressed_size });
        i = i + 1;
    }
    Ok(table)
}

/// Reads the block table of the region that `index` points at, with as many
/// entries as `info` declares. The cursor is back where it was when this
/// returns, whatever the outcome.
pub fn read_block_table(file: &mut DatFile, index_file: &OffsetDescriptor, info: &DataInfo) -> (r:
    Result<Vec<BlockTableEntry>, FFXIVError>)
    ensures
        final(file).data() == old(file).data(),
        final(file).cursor() == old(file).cursor(),
        entries_of(r) == table_at(old(file).data(), index_file.data_offset as int, info.num_blocks as nat),
{
    let current_pos = file.position();
    file.seek(index_file.data_offset as u64 + HEADER_FIELDS_SIZE);
    let r = read_table_entries(file, info.num_blocks);
    file.seek(current_pos);
    r
}

/// How many payload bytes follow a frame's sub-header, and whether they are
/// DEFLATE-compressed. Compressed payloads are padded up to the next multiple
/// of the padding unit unless the block size plus the sub-header size already
/// is one; stored payloads are exactly `decompressed_length` long.
pub open spec fn frame_layout_of(block_size: u16, compressed_length: u32, decompressed_length: u32) -> (
    int,
    bool,
) {
    if compressed_length < 32000 {
        if (block_size + 16) % 128 != 0 {
            (compressed_length + 128 - (block_size - 16) % 128, true)
        } else {
            (compressed_length as int, true)
        }
    } else {
        (decompressed_length as int, false)
    }
}

/// Computes the payload length of a frame and whether it is compressed.
pub fn frame_layout(block_size: u16, compressed_length: u32, decompressed_length: u32) -> (r: (
    u32,
    bool,
))
    ensures
        (r.0 as int, r.1) == frame_layout_of(block_size, compressed_length, decompressed_length),
{
    let is_compressed = compressed_length < COMPRESSED_LIMIT;
    if is_compressed {
        let bs = block_size as u32;
        if (bs + FRAME_HEADER_SIZE as u32) % BLOCK_PADDING != 0 {
            // `bs + 112` is congruent to `bs - 16` and cannot go below zero.
            let rem = (bs + 112) % BLOCK_PADDING;
            assert((bs as int + 112) % 128 == (bs as int - 16) % 128);
            (compressed_length + BLOCK_PADDING - rem, true)
        } else {
            (compressed_length, true)
        }
    } else {
        (decompressed_length, false)
    }
}

/// The frame at `off` for a block of `block_size`: its payload and whether
/// it is compressed.
pub open spec fn frame_at(b: Seq<u8>, off: int, block_size: u16) -> Result<(Seq<u8>, bool), FFXIVError> {
    if !within(b, off, 4) {
        Err(FFXIVError::ReadingDat)
    } else if le_u32(b, off) != 0x10 {
        Err(FFXIVError::MagicMissing)
    } else if !within(b, off, 16) {
        Err(FFXIVError::ReadingDat)
    } else {
        let (len, compressed) = frame_layout_of(block_size, le_u32(b, off + 8), le_u32(b, off + 12));
        if within(b, off + 16, len) {
            Ok((b.subrange(off + 16, off + 16 + len), compressed))
        } else {
            Err(FFXIVError::ReadingDat)
        }
    }
}

/// The contents of a frame result, as a sequence.
pub open spec fn frame_of(r: Result<(Vec<u8>, bool), FFXIVError>) -> Result<(Seq<u8>, bool), FFXIVError> {
    match r {
        Ok((v, c)) => Ok((v@, c)),
        Err(e) => Err(e),
    }
}

/// Reads the frame at the cursor.
fn read_frame(file: &mut DatFile, block_size: u16) -> (r: Result<(Vec<u8>, bool), FFXIVError>)
    ensures
        final(file).data() == old(file).data(),
        frame_of(r) == frame_at(old(file).data(), old(file).cursor(), block_size),
{
    let magic = file.read_u32_le()?;
    if magic != BLOCK_MAGIC {
        return Err(FFXIVError::MagicMissing);
    }
    let _reserved = file.read_u32_le()?;
    let compressed_length = file.read_u32_le()?;
    let decompressed_length = file.read_u32_le()?;
    let (final_length, is_compressed) = frame_layout(block_size, compressed_length, decompressed_length);
    let data = file.read_exact(final_length as u64)?;
    Ok((data, is_compressed))
}

/// Reads the frame of a block at the absolute position `offset`: its payload
/// bytes, and whether they are DEFLATE-compressed. The cursor is back where
/// it was when this returns, whatever the outcome.
pub fn read_compressed_block(file: &mut DatFile, offset: u64, block_size: u16) -> (r: Result<
    (Vec<u8>, bool),
    FFXIVError,
>)
    ensures
        final(file).data() == old(file).data(),
        final(file).cursor() == old(file).cursor(),
        frame_of(r) == frame_at(old(file).data(), offset as int, block_size),
{
    let current_pos = file.position();
    file.seek(offset);
    let r = read_frame(file, block_size);
    file.seek(current_pos);
    r
}

/// What one block contributes to the payload: its frame's payload, decoded
/// where it is compressed. Frames are placed relative to `base`, the end of
/// the file's header.
pub open spec fn block_payload(b: Seq<u8>, base: int, e: BlockTableEntry) -> Result<Seq<u8>, FFXIVError> {
    match frame_at(b, base + e.offset, e.block_size) {
        Err(err) => Err(err),
        Ok((data, compressed)) => if compressed {
            inflated(data)
        } else {
            Ok(data)
        },
    }
}

/// The blocks of table `t`, concatenated in table order; the first block
/// that fails decides the error.
pub open spec fn blocks_from(b: Seq<u8>, base: int, t: Seq<BlockTableEntry>) -> Result<Seq<u8>, FFXIVError>
    decreases t.len(),
{
    if t.len() == 0 {
        Ok(Seq::empty())
    } else {
        match blocks_from(b, base, t.drop_last()) {
            Err(e) => Err(e),
            Ok(p) => match block_payload(b, base, t.last()) {
                Err(e) => Err(e),
                Ok(q) => Ok(p + q),
            },
        }
    }
}

/// The payload of the region at `off` with header `info` and table `t`: the
/// concatenated blocks, provided their total length is the declared size.
pub open spec fn reassembled(b: Seq<u8>, off: int, info: DataInfo, t: Seq<BlockTableEntry>) -> Result<
    Seq<u8>,
    FFXIVError,
> {
    match blocks_from(b, off + info.header_length, t) {
        Err(e) => Err(e),
        Ok(p) => if p.len() == info.uncompressed_size {
            Ok(p)
        } else {
            Err(FFXIVError::SizeMismatch)
        },
    }
}

/// The payload of the region at `off`: header, then block table, then blocks.
pub open spec fn extracted(b: Seq<u8>, off: int) -> Result<Seq<u8>, FFXIVError> {
    match header_at(b, off) {
        Err(e) => Err(e),
        Ok(info) => match table_at(b, off, info.num_blocks as nat) {
            Err(e) => Err(e),
            Ok(t) => reassembled(b, off, info, t),
        },
    }
}

/// Once a prefix of the table fails, the whole table fails the same way.
proof fn lemma_blocks_error_extends(
    b: Seq<u8>,
    base: int,
    t: Seq<BlockTableEntry>,
    k: int,
    e: FFXIVError,
)
    requires
        0 <= k <= t.len(),
        blocks_from(b, base, t.take(k)) == Err::<Seq<u8>, FFXIVError>(e),
    ensures
        blocks_from(b, base, t) == Err::<Seq<u8>, FFXIVError>(e),
    decreases t.len() - k,
{
    if k == t.len() {
        assert(t.take(k) =~= t);
    } else {
        assert(t.take(k + 1).drop_last() =~= t.take(k));
        lemma_blocks_error_extends(b, base, t, k + 1, e);
    }
}

/// Decompresses (or passes through) every block of `block_table` in table
/// order and concatenates the results; fails where a frame cannot be read or
/// decoded, or where the total differs from the header's declared size. The
/// cursor is back where it was when this returns, whatever the outcome.
pub fn read_and_decompress(
    file: &mut DatFile,
    info: &DataInfo,
    index_file: &OffsetDescriptor,
    block_table: &Vec<BlockTableEntry>,
) -> (r: Result<Vec<u8>, FFXIVError>)
    ensures
        final(file).data() == old(file).data(),
        final(file).cursor() == old(file).cursor(),
        bytes_of(r) == reassembled(old(file).data(), index_file.data_offset as int, *info, block_table@),
{
    let ghost b = file.data();
    let ghost c = file.cursor();
    let base: u64 = index_file.data_offset as u64 + info.header_length as u64;
    let mut file_data: Vec<u8> = Vec::new();
    let mut i: usize = 0;
    proof {
        assert(block_table@.take(0) =~= Seq::<BlockTableEntry>::empty());
    }
    while i < block_table.len()
        invariant
            b == old(file).data(),
            c == old(file).cursor(),
            file.data() == b,
            file.cursor() == c,
            0 <= i <= block_table@.len(),
            base == index_file.data_offset + info.header_length,
            blocks_from(b, base as int, block_table@.take(i as int)) == Ok::<Seq<u8>, FFXIVError>(
                file_data@,
            ),
        decreases block_table@.len() - i,
    {
        let entry = block_table[i];
        let ghost t = block_table@;
        proof {
            assert(t.take(i + 1).drop_last() =~= t.take(i as int));
            assert(t.take(i + 1).last() == entry);
        }
        let block_offset = base + entry.offset as u64;
        match read_compressed_block(file, block_offset, entry.block_size) {
            Err(e) => {
                proof {
                    lemma_blocks_error_extends(b, base as int, t, i + 1, e);
                }
                return Err(e);
            },
            Ok((mut data, is_compressed)) => {
                if is_compressed {
                    match decompress(&data, entry.decompressed_size as u32) {
                        Err(e) => {
                            proof {
                                lemma_blocks_error_extends(b, base as int, t, i + 1, e);
                            }
                            return Err(e);
                        },
                        Ok(mut decoded) => {
                            file_data.append(&mut decoded);
                        },
                    }
                } else {
                    file_data.append(&mut data);
                }
            },
        }
        i = i + 1;
    }
    proof {
        assert(block_table@.take(i as int) =~= block_table@);
    }
    if file_data.len() as u64 != info.uncompressed_size as u64 {
        return Err(FFXIVError::SizeMismatch);
    }
    Ok(file_data)
}

/// Extracts the payload of the region that `index` points at: reads the
/// header, then the block table, then reassembles the blocks. The first step
/// that fails ends the extraction with its error. The cursor is back where it
/// was when this returns, whatever the outcome.
pub fn read_data_file(file: &mut DatFile, index: &OffsetDescriptor) -> (r: Result<Vec<u8>, FFXIVError>)
    ensures
        final(file).data() == old(file).data(),
        final(file).cursor() == old(file).cursor(),
        bytes_of(r) == extracted(old(file).data(), index.data_offset as int),
{
    let info = read_data_header(file, index)?;
    let table = read_block_table(file, index, &info)?;
    read_and_decompress(file, &info, index, &table)
}

} // verus!
