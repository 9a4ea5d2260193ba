//! The one way in which a run fails.

use vstd::prelude::*;

verus! {

/// An instruction byte whose operation code is unassigned, with the address
/// at which it was fetched.
#[derive(Clone, Copy, Debug, PartialEq, Eq, Structural)]
pub struct EmulatorErr {
    /// The instruction byte.
    pub byte: u8,
    /// The program counter at the fetch.
    pub pc: u8,
}

impl EmulatorErr {
    /// The error for `byte`, fetched at `pc`.
    pub fn new(byte: u8, pc: u8) -> (res: EmulatorErr)
        ensures
            res == (EmulatorErr { byte, pc }),
    {
        EmulatorErr { byte, pc }
    }

    /// The unassigned operation code: the high four bits of the byte.
    pub fn code(&self) -> (res: u8)
        ensures
            res as int == (self.byte as int) / 16,
    {
        let byte: u8 = self.byte;
        assert(byte >> 4 == byte / 16) by (bit_vector);
        byte >> 4
    }
}

} // verus!
