use vstd::prelude::*;

use crate::error::FFXIVError;

verus! {

/// Which release of the game a file belongs to.
#[derive(Debug, Clone, Copy, PartialEq, Eq, Structural)]
pub enum GameExpansion {
    FFXIV,
    EX1,
    EX2,
}

/// A path to a file inside the game's archives.
#[derive(Debug, Clone, Copy, PartialEq, Eq, Structural)]
pub struct ExPath {
    pub file_type: u8,
    pub expansion: GameExpansion,
}

/// An installation of the game, found at a directory path.
pub struct FFXIV {
    pub path: String,
}

impl FFXIV {
    /// An installation at `path`, where that path exists; `exists` says
    /// whether it does.
    pub fn new(path: &str, exists: bool) -> (r: Option<FFXIV>)
        ensures
            r is Some <==> exists,
            r matches Some(g) ==> g.path@ == path@,
    {
        if exists {
            Some(FFXIV { path: path.to_owned() })
        } else {
            None
        }
    }

    /// The raw bytes of the file at `path`. No index is consulted yet, so no
    /// file is ever found.
    pub fn get_raw_data(&self, path: &ExPath) -> (r: Result<Vec<u8>, FFXIVError>)
        ensures
            r matches Err(e) && e == FFXIVError::FileNotFound,
    {
        Err(FFXIVError::FileNotFound)
    }
}

} // verus!
