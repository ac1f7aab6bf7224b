use vstd::prelude::*;

verus! {

/// Everything that can go wrong while locating and extracting a file.
#[derive(Debug, Clone, Copy, PartialEq, Eq, Structural)]
pub enum FFXIVError {
    /// The requested file is not known to the index.
    FileNotFound,
    /// The index file could not be parsed.
    ReadingIndex,
    /// A read in the container ran past its end, or started beyond it.
    ReadingDat,
    /// A block frame does not start with the block magic.
    MagicMissing,
    /// The header names a content kind that is reserved but not decoded here.
    UnsupportedContentKind(u32),
    /// The header names a content kind outside the known codes.
    InvalidContentKind(u32),
    /// The blocks decompressed to a total other than the header's declared size.
    SizeMismatch,
    /// A compressed block is not a valid raw DEFLATE stream.
    CorruptStream,
    /// A data sheet could not be decoded.
    DecodingEXD,
    /// A sound container could not be decoded.
    DecodingSCD,
}

impl FFXIVError {
    /// A human-readable message for the error.
    pub fn message(&self) -> (r: &'static str)
        ensures
            r@.len() > 0,
    {
        let r = match self {
            FFXIVError::FileNotFound => "File not found in index.",
            FFXIVError::ReadingIndex => "An error occurred while parsing the index file.",
            FFXIVError::ReadingDat => "An error occurred while parsing the dat file.",
            FFXIVError::MagicMissing => "A block in the dat file is missing its magic number.",
            FFXIVError::UnsupportedContentKind(_) => "The dat file holds a content kind that is not supported yet.",
            FFXIVError::InvalidContentKind(_) => "The dat file names an unknown content kind.",
            FFXIVError::SizeMismatch => "The decompressed blocks do not add up to the declared size.",
            FFXIVError::CorruptStream => "A compressed block is not a valid DEFLATE stream.",
            FFXIVError::DecodingEXD => "An error occurred while parsing the EXD file.",
            FFXIVError::DecodingSCD => "An error occurred while parsing the SCD file.",
        };
        proof {
            reveal_strlit("File not found in index.");
            reveal_strlit("An error occurred while parsing the index file.");
            reveal_strlit("An error occurred while parsing the dat file.");
            reveal_strlit("A block in the dat file is missing its magic number.");
            reveal_strlit("The dat file holds a content kind that is not supported yet.");
            reveal_strlit("The dat file names an unknown content kind.");
            reveal_strlit("The decompressed blocks do not add up to the declared size.");
            reveal_strlit("A compressed block is not a valid DEFLATE stream.");
            reveal_strlit("An error occurred while parsing the EXD file.");
            reveal_strlit("An error occurred while parsing the SCD file.");
        }
        r
    }
}

} // verus!
