//! Extraction of single files from the game's packed "dat" containers: the
//! fixed header, the block table, the block frames and their reassembly into
//! one payload.
pub mod container;
pub mod dat;
pub mod error;
pub mod game;
pub mod inflate;
pub mod lemmas;

pub use container::DatFile;
pub use dat::{
    frame_layout, read_and_decompress, read_block_table, read_compressed_block, read_data_file,
    read_data_header, BlockTableEntry, ContentType, DataInfo, OffsetDescriptor,
};
pub use error::FFXIVError;
pub use game::{ExPath, GameExpansion, FFXIV};
pub use inflate::decompress;
