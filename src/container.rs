use vstd::prelude::*;

use crate::error::FFXIVError;

verus! {

/// Whether `n` bytes starting at `start` all lie inside `b`.
pub open spec fn within(b: Seq<u8>, start: int, n: int) -> bool {
    0 <= start && 0 <= n && start + n <= b.len()
}

/// The little-endian `u32` stored at `b[i..i + 4]`.
pub open spec fn le_u32(b: Seq<u8>, i: int) -> u32 {
    (b[i] as int + b[i + 1] as int * 0x100 + b[i + 2] as int * 0x1_0000 + b[i + 3] as int
        * 0x100_0000) as u32
}

/// The little-endian `u16` stored at `b[i..i + 2]`.
pub open spec fn le_u16(b: Seq<u8>, i: int) -> u16 {
    (b[i] as int + b[i + 1] as int * 0x100) as u16
}

/// The contents of a byte-vector result, as a sequence.
pub open spec fn bytes_of(r: Result<Vec<u8>, FFXIVError>) -> Result<Seq<u8>, FFXIVError> {
    match r {
        Ok(v) => Ok(v@),
        Err(e) => Err(e),
    }
}

/// A container image held in memory, with a read cursor.
///
/// The cursor may stand anywhere, also past the end; reads that would run
/// past the end fail and leave the cursor where it was.
pub struct DatFile {
    bytes: Vec<u8>,
    pos: u64,
}

impl DatFile {
    /// The bytes of the container.
    pub closed spec fn data(&self) -> Seq<u8> {
        self.bytes@
    }

    /// The position of the cursor.
    pub closed spec fn cursor(&self) -> int {
        self.pos as int
    }

    pub fn new(bytes: Vec<u8>) -> (r: DatFile)
        ensures
            r.data() == bytes@,
            r.cursor() == 0,
    {
        DatFile { bytes, pos: 0 }
    }

    pub fn len(&self) -> (r: usize)
        ensures
            r == self.data().len(),
    {
        self.bytes.len()
    }

    pub fn position(&self) -> (r: u64)
        ensures
            r == self.cursor(),
    {
        self.pos
    }

    pub fn seek(&mut self, pos: u64)
        ensures
            final(self).data() == old(self).data(),
            final(self).cursor() == pos,
    {
        self.pos = pos;
    }

    /// Whether `n` bytes can be read at the cursor.
    pub fn can_read(&self, n: u64) -> (r: bool)
        ensures
            r == within(self.data(), self.cursor(), n as int),
    {
        let len = self.bytes.len() as u64;
        self.pos <= len && len - self.pos >= n
    }

    /// Reads a little-endian `u32` at the cursor and moves past it.
    pub fn read_u32_le(&mut self) -> (r: Result<u32, FFXIVError>)
        ensures
            final(self).data() == old(self).data(),
            within(old(self).data(), old(self).cursor(), 4) ==> r == Ok::<u32, FFXIVError>(
                le_u32(old(self).data(), old(self).cursor()),
            ) && final(self).cursor() == old(self).cursor() + 4,
            !within(old(self).data(), old(self).cursor(), 4) ==> r == Err::<u32, FFXIVError>(
                FFXIVError::ReadingDat,
            ) && final(self).cursor() == old(self).cursor(),
    {
        if !self.can_read(4) {
            return Err(FFXIVError::ReadingDat);
        }
        let len = self.bytes.len();
        let p = self.pos as usize;
        let v = self.bytes[p] as u32 + self.bytes[p + 1] as u32 * 0x100 + self.bytes[p + 2] as u32
            * 0x1_0000 + self.bytes[p + 3] as u32 * 0x100_0000;
        self.pos = self.pos + 4;
        Ok(v)
    }

    /// Reads a little-endian `u16` at the cursor and moves past it.
    pub fn read_u16_le(&mut self) -> (r: Result<u16, FFXIVError>)
        ensures
            final(self).data() == old(self).data(),
            within(old(self).data(), old(self).cursor(), 2) ==> r == Ok::<u16, FFXIVError>(
                le_u16(old(self).data(), old(self).cursor()),
            ) && final(self).cursor() == old(self).cursor() + 2,
            !within(old(self).data(), old(self).cursor(), 2) ==> r == Err::<u16, FFXIVError>(
                FFXIVError::ReadingDat,
            ) && final(self).cursor() == old(self).cursor(),
    {
        if !self.can_read(2) {
            return Err(FFXIVError::ReadingDat);
        }
        let len = self.bytes.len();
        let p = self.pos as usize;
        let v = self.bytes[p] as u16 + self.bytes[p + 1] as u16 * 0x100;
        self.pos = self.pos + 2;
        Ok(v)
    }

    /// Reads exactly `n` bytes at the cursor and moves past them; a short
    /// read is an error.
    pub fn read_exact(&mut self, n: u64) -> (r: Result<Vec<u8>, FFXIVError>)
        ensures
            final(self).data() == old(self).data(),
            bytes_of(r) == (if within(old(self).data(), old(self).cursor(), n as int) {
                Ok(old(self).data().subrange(old(self).cursor(), old(self).cursor() + n))
            } else {
                Err(FFXIVError::ReadingDat)
            }),
            final(self).cursor() == old(self).cursor() + (if r is Ok {
                n as int
            } else {
                0
            }),
    {
        if !self.can_read(n) {
            return Err(FFXIVError::ReadingDat);
        }
        let len = self.bytes.len();
        let start = self.pos as usize;
        let end = start + n as usize;
        let mut v: Vec<u8> = Vec::with_capacity(n as usize);
        let mut i: usize = start;
        while i < end
            invariant
                start <= i <= end,
                end <= self.bytes@.len(),
                v@ == self.bytes@.subrange(start as int, i as int),
            decreases end - i,
        {
            v.push(self.bytes[i]);
            proof {
                assert(self.bytes@.subrange(start as int, i + 1) =~= self.bytes@.subrange(
                    start as int,
                    i as int,
                ).push(self.bytes@[i as int]));
            }
            i = i + 1;
        }
        self.pos = self.pos + n;
        Ok(v)
    }
}

} // verus!
