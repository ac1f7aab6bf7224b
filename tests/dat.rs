use std::io::Write;

use ffxiv_dat::{
    decompress, frame_layout, read_and_decompress, read_block_table, read_compressed_block,
    read_data_file, read_data_header, BlockTableEntry, ContentType, DatFile, DataInfo, ExPath,
    FFXIVError, GameExpansion, OffsetDescriptor, FFXIV,
};

fn put_u32(v: &mut Vec<u8>, x: u32) {
    v.extend_from_slice(&x.to_le_bytes());
}

fn put_u16(v: &mut Vec<u8>, x: u16) {
    v.extend_from_slice(&x.to_le_bytes());
}

fn deflate(data: &[u8]) -> Vec<u8> {
    let mut e = flate2::write::DeflateEncoder::new(Vec::new(), flate2::Compression::default());
    e.write_all(data).unwrap();
    e.finish().unwrap()
}

fn header(v: &mut Vec<u8>, hlen: u32, code: u32, size: u32, blocks: u32) {
    put_u32(v, hlen);
    put_u32(v, code);
    put_u32(v, size);
    put_u32(v, 0xdead_beef);
    put_u32(v, 0x80);
    put_u32(v, blocks);
}

fn frame_header(v: &mut Vec<u8>, magic: u32, compressed: u32, decompressed: u32) {
    put_u32(v, magic);
    put_u32(v, 0);
    put_u32(v, compressed);
    put_u32(v, decompressed);
}

fn block1_bytes() -> Vec<u8> {
    (0..100u32).map(|i| (i * 7 % 13) as u8).collect()
}

fn block2_bytes() -> Vec<u8> {
    (0..50u32).map(|i| (200 + i) as u8).collect()
}

/// A container with five leading bytes, then one file of two blocks: the
/// first in the table is compressed and lies after the second, which is
/// stored verbatim.
fn two_block_container(declared: u32) -> Vec<u8> {
    let compressed = deflate(&block1_bytes());
    assert!(compressed.len() + 60 <= 256);
    let mut v = vec![9u8; 5];
    header(&mut v, 128, 2, declared, 2);
    put_u32(&mut v, 256);
    put_u16(&mut v, 100);
    put_u16(&mut v, 100);
    put_u32(&mut v, 0);
    put_u16(&mut v, 80);
    put_u16(&mut v, 50);
    v.resize(5 + 128, 0);
    frame_header(&mut v, 0x10, 32000, 50);
    v.extend_from_slice(&block2_bytes());
    v.resize(5 + 128 + 256, 0xaa);
    frame_header(&mut v, 0x10, compressed.len() as u32, 100);
    v.extend_from_slice(&compressed);
    // Padding: block size 100 gives 128 - (84 mod 128) = 44 extra bytes.
    v.extend_from_slice(&[0u8; 44]);
    v
}

#[test]
fn content_type_binary_code() {
    assert_eq!(ContentType::from(2), Ok(ContentType::Binary));
}

#[test]
fn content_type_reserved_codes() {
    assert_eq!(ContentType::from(1), Err(FFXIVError::UnsupportedContentKind(1)));
    assert_eq!(ContentType::from(3), Err(FFXIVError::UnsupportedContentKind(3)));
    assert_eq!(ContentType::from(4), Err(FFXIVError::UnsupportedContentKind(4)));
}

#[test]
fn content_type_unknown_codes() {
    assert_eq!(ContentType::from(0), Err(FFXIVError::InvalidContentKind(0)));
    assert_eq!(ContentType::from(5), Err(FFXIVError::InvalidContentKind(5)));
    assert_eq!(ContentType::from(u32::MAX), Err(FFXIVError::InvalidContentKind(u32::MAX)));
}

#[test]
fn padding_added_when_not_aligned() {
    assert_eq!(frame_layout(100, 50, 0), (50 + 128 - (100 - 16) % 128, true));
    assert_eq!(frame_layout(100, 50, 0), (94, true));
}

#[test]
fn no_padding_when_aligned() {
    assert_eq!(frame_layout(112, 50, 0), (50, true));
}

#[test]
fn padding_for_small_block_size() {
    // (8 - 16) mod 128 is 120, so 8 bytes of padding.
    assert_eq!(frame_layout(8, 10, 0), (18, true));
}

#[test]
fn compressed_threshold_boundary() {
    assert_eq!(frame_layout(112, 31999, 77), (31999, true));
    assert_eq!(frame_layout(112, 32000, 77), (77, false));
}

#[test]
fn header_is_parsed_and_cursor_restored() {
    let mut v = vec![0u8; 10];
    header(&mut v, 0x80, 2, 1234, 3);
    let mut f = DatFile::new(v);
    f.seek(3);
    let info = read_data_header(&mut f, &OffsetDescriptor { data_offset: 10 }).unwrap();
    assert_eq!(
        info,
        DataInfo {
            header_length: 0x80,
            content_type: ContentType::Binary,
            uncompressed_size: 1234,
            block_buffer_size: 0x80,
            num_blocks: 3,
        }
    );
    assert_eq!(f.position(), 3);
}

#[test]
fn header_short_read_fails() {
    let mut v = Vec::new();
    header(&mut v, 0x80, 2, 1234, 3);
    v.truncate(23);
    let mut f = DatFile::new(v);
    f.seek(7);
    assert_eq!(
        read_data_header(&mut f, &OffsetDescriptor { data_offset: 0 }),
        Err(FFXIVError::ReadingDat)
    );
    assert_eq!(f.position(), 7);
}

#[test]
fn header_invalid_kind() {
    let mut v = Vec::new();
    header(&mut v, 0x80, 9, 1234, 3);
    let mut f = DatFile::new(v);
    assert_eq!(
        read_data_header(&mut f, &OffsetDescriptor { data_offset: 0 }),
        Err(FFXIVError::InvalidContentKind(9))
    );
}

#[test]
fn block_table_is_read_in_order() {
    let mut v = vec![1u8; 4];
    header(&mut v, 0x400, 2, 0, 2);
    put_u32(&mut v, 0x300);
    put_u16(&mut v, 0x1234);
    put_u16(&mut v, 0x4000);
    put_u32(&mut v, 0x10);
    put_u16(&mut v, 0x80);
    put_u16(&mut v, 0x20);
    let mut f = DatFile::new(v);
    f.seek(2);
    let index = OffsetDescriptor { data_offset: 4 };
    let info = read_data_header(&mut f, &index).unwrap();
    let table = read_block_table(&mut f, &index, &info).unwrap();
    assert_eq!(
        table,
        vec![
            BlockTableEntry { offset: 0x300, block_size: 0x1234, decompressed_size: 0x4000 },
            BlockTableEntry { offset: 0x10, block_size: 0x80, decompressed_size: 0x20 },
        ]
    );
    assert_eq!(f.position(), 2);
}

#[test]
fn block_table_larger_than_file_fails() {
    let mut v = Vec::new();
    header(&mut v, 0x80, 2, 0, u32::MAX);
    put_u32(&mut v, 0);
    let mut f = DatFile::new(v);
    let index = OffsetDescriptor { data_offset: 0 };
    let info = read_data_header(&mut f, &index).unwrap();
    assert_eq!(read_block_table(&mut f, &index, &info), Err(FFXIVError::ReadingDat));
    assert_eq!(f.position(), 0);
}

#[test]
fn frame_with_bad_magic_is_rejected() {
    let mut v = vec![0u8; 3];
    frame_header(&mut v, 0x11, 4, 4);
    v.extend_from_slice(&[1, 2, 3, 4]);
    let mut f = DatFile::new(v);
    f.seek(1);
    assert_eq!(read_compressed_block(&mut f, 3, 112), Err(FFXIVError::MagicMissing));
    assert_eq!(f.position(), 1);
}

#[test]
fn bad_magic_wins_over_short_frame() {
    let mut v = Vec::new();
    put_u32(&mut v, 0);
    let mut f = DatFile::new(v);
    assert_eq!(read_compressed_block(&mut f, 0, 112), Err(FFXIVError::MagicMissing));
}

#[test]
fn stored_frame_is_read_verbatim() {
    let mut v = Vec::new();
    frame_header(&mut v, 0x10, 40000, 5);
    v.extend_from_slice(&[5, 6, 7, 8, 9, 10]);
    let mut f = DatFile::new(v);
    assert_eq!(read_compressed_block(&mut f, 0, 112), Ok((vec![5, 6, 7, 8, 9], false)));
}

#[test]
fn compressed_frame_includes_padding() {
    let mut v = Vec::new();
    frame_header(&mut v, 0x10, 3, 100);
    let payload: Vec<u8> = (0..47u8).collect();
    v.extend_from_slice(&payload);
    v.push(0xff);
    let mut f = DatFile::new(v);
    assert_eq!(read_compressed_block(&mut f, 0, 100), Ok((payload, true)));
}

#[test]
fn short_frame_fails() {
    let mut v = Vec::new();
    frame_header(&mut v, 0x10, 40000, 10);
    v.extend_from_slice(&[1, 2, 3]);
    let mut f = DatFile::new(v);
    f.seek(2);
    assert_eq!(read_compressed_block(&mut f, 0, 112), Err(FFXIVError::ReadingDat));
    assert_eq!(f.position(), 2);
}

#[test]
fn frame_beyond_end_fails() {
    let mut f = DatFile::new(vec![0x10, 0, 0, 0]);
    assert_eq!(read_compressed_block(&mut f, u64::MAX, 112), Err(FFXIVError::ReadingDat));
}

#[test]
fn decompress_decodes_raw_deflate() {
    let data = block1_bytes();
    let compressed = deflate(&data);
    assert_ne!(compressed, data);
    assert_eq!(decompress(&compressed, 100), Ok(data));
}

#[test]
fn decompress_rejects_corrupt_stream() {
    assert_eq!(decompress(&vec![0xff, 0xff, 0xff, 0xff], 10), Err(FFXIVError::CorruptStream));
}

#[test]
fn two_blocks_reassemble_in_table_order() {
    let mut f = DatFile::new(two_block_container(150));
    f.seek(11);
    let index = OffsetDescriptor { data_offset: 5 };
    let info = read_data_header(&mut f, &index).unwrap();
    let table = read_block_table(&mut f, &index, &info).unwrap();
    let payload = read_and_decompress(&mut f, &info, &index, &table).unwrap();
    let mut expected = block1_bytes();
    expected.extend_from_slice(&block2_bytes());
    assert_eq!(payload.len(), 150);
    assert_eq!(payload, expected);
    assert_eq!(f.position(), 11);
}

#[test]
fn declared_size_mismatch_is_fatal() {
    let mut f = DatFile::new(two_block_container(140));
    f.seek(11);
    let index = OffsetDescriptor { data_offset: 5 };
    assert_eq!(read_data_file(&mut f, &index), Err(FFXIVError::SizeMismatch));
    assert_eq!(f.position(), 11);
}

#[test]
fn read_data_file_end_to_end() {
    let mut f = DatFile::new(two_block_container(150));
    let index = OffsetDescriptor { data_offset: 5 };
    let mut expected = block1_bytes();
    expected.extend_from_slice(&block2_bytes());
    assert_eq!(read_data_file(&mut f, &index), Ok(expected));
    assert_eq!(f.position(), 0);
}

#[test]
fn corrupt_block_stream_is_distinct_from_size_mismatch() {
    let mut v = two_block_container(150);
    let at = 5 + 128 + 256 + 16;
    v[at] = 0xff;
    v[at + 1] = 0xff;
    let mut f = DatFile::new(v);
    let index = OffsetDescriptor { data_offset: 5 };
    assert_eq!(read_data_file(&mut f, &index), Err(FFXIVError::CorruptStream));
}

#[test]
fn bad_magic_in_second_block_stops_reassembly() {
    let mut v = two_block_container(150);
    v[5 + 128] = 0x11;
    let mut f = DatFile::new(v);
    let index = OffsetDescriptor { data_offset: 5 };
    assert_eq!(read_data_file(&mut f, &index), Err(FFXIVError::MagicMissing));
}

#[test]
fn unsupported_kind_stops_before_table() {
    let mut v = vec![0u8; 2];
    header(&mut v, 0x80, 1, 150, 1000);
    let mut f = DatFile::new(v);
    f.seek(1);
    let index = OffsetDescriptor { data_offset: 2 };
    assert_eq!(read_data_file(&mut f, &index), Err(FFXIVError::UnsupportedContentKind(1)));
    assert_eq!(f.position(), 1);
}

#[test]
fn game_needs_existing_path() {
    assert!(FFXIV::new("/game", false).is_none());
    let g = FFXIV::new("/game", true).unwrap();
    assert_eq!(g.path, "/game");
}

#[test]
fn raw_data_is_not_found_without_index() {
    let g = FFXIV::new("/game", true).unwrap();
    let p = ExPath { file_type: 0x0a, expansion: GameExpansion::FFXIV };
    assert_eq!(g.get_raw_data(&p), Err(FFXIVError::FileNotFound));
}

#[test]
fn error_messages_are_not_empty() {
    assert!(!FFXIVError::MagicMissing.message().is_empty());
    assert_eq!(FFXIVError::FileNotFound.message(), "File not found in index.");
}

#[test]
fn decompress_rejects_truncated_stream() {
    let compressed = deflate(&block1_bytes());
    let cut = compressed[..compressed.len() / 2].to_vec();
    assert_eq!(decompress(&cut, 100), Err(FFXIVError::CorruptStream));
}

#[test]
fn decompress_ignores_trailing_padding() {
    let mut compressed = deflate(&block1_bytes());
    compressed.extend_from_slice(&[0u8; 44]);
    assert_eq!(decompress(&compressed, 100), Ok(block1_bytes()));
}

#[test]
fn decompress_large_block() {
    let data: Vec<u8> = (0..70000u32).map(|i| (i % 251) as u8).collect();
    assert_eq!(decompress(&deflate(&data), 0), Ok(data));
}
