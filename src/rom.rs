//! A program image, as handed to the machine at construction.
use vstd::prelude::*;

verus! {

/// The largest program image: memory above the lowest supported load offset.
pub const MAX_PROGRAM_SIZE: usize = 3584;

/// Why a program image cannot be loaded.
#[derive(Clone, Copy, Debug, PartialEq, Eq, Structural)]
pub enum LoadError {
    /// The image holds no bytes.
    EmptyRom,
    /// The load offset lies below the lowest supported one.
    OffsetBelowProgramArea,
    /// The image does not fit in memory above the load offset.
    RomTooLarge,
}

/// A program image: its first `length` bytes are the program.
pub struct Rom {
    pub program: [u8; 3584],
    pub length: usize,
}

impl Rom {
    /// The program bytes of the image.
    pub open spec fn bytes(&self) -> Seq<u8> {
        self.program@.subrange(0, self.length as int)
    }

    /// An image holding `bytes`; fails with `RomTooLarge` where they exceed
    /// `MAX_PROGRAM_SIZE`.
    pub fn from_bytes(bytes: &[u8]) -> (r: Result<Rom, LoadError>)
        ensures
            bytes@.len() > MAX_PROGRAM_SIZE <==> r == Err::<Rom, LoadError>(LoadError::RomTooLarge),
            bytes@.len() <= MAX_PROGRAM_SIZE ==> (r matches Ok(rom) && rom.length == bytes@.len()
                && rom.bytes() == bytes@),
    {
        if bytes.len() > MAX_PROGRAM_SIZE {
            return Err(LoadError::RomTooLarge);
        }
        let mut program = [0u8; 3584];
        let mut i: usize = 0;
        while i < bytes.len()
            invariant
                i <= bytes@.len() <= MAX_PROGRAM_SIZE,
                forall|j: int| 0 <= j < i ==> program@[j] == bytes@[j],
            decreases bytes@.len() - i,
        {
            program[i] = bytes[i];
            i = i + 1;
        }
        let rom = Rom { program, length: bytes.len() };
        assert(rom.bytes() =~= bytes@);
        Ok(rom)
    }
}

} // verus!
