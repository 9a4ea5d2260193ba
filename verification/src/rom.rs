//! Program memory: at most sixteen instruction bytes, read-only.

use vstd::prelude::*;

verus! {

/// The number of addresses that the 4-bit program counter can reach.
pub const ROM_CAPACITY: usize = 16;

/// Program memory.
#[derive(Debug)]
pub struct Rom {
    bytes: Vec<u8>,
}

impl View for Rom {
    type V = Seq<u8>;

    closed spec fn view(&self) -> Seq<u8> {
        self.bytes@
    }
}

impl Rom {
    /// The invariant of the type: the program fits the address space.
    #[verifier::type_invariant]
    pub open spec fn wf(&self) -> bool {
        self@.len() <= ROM_CAPACITY
    }

    /// Program memory that holds `bytes`, one instruction per byte.
    pub fn new(bytes: Vec<u8>) -> (res: Rom)
        requires
            bytes@.len() <= ROM_CAPACITY,
        ensures
            res@ == bytes@,
            res.wf(),
    {
        Rom { bytes }
    }

    /// Program memory that holds `bytes` if they fit, and nothing otherwise.
    pub fn try_new(bytes: Vec<u8>) -> (res: Option<Rom>)
        ensures
            bytes@.len() <= ROM_CAPACITY ==> (res matches Some(rom) && rom@ == bytes@ && rom.wf()),
            bytes@.len() > ROM_CAPACITY ==> res is None,
    {
        if bytes.len() <= ROM_CAPACITY {
            Some(Rom { bytes })
        } else {
            None
        }
    }

    /// The number of bytes loaded.
    pub fn size(&self) -> (res: u8)
        ensures
            res as int == self@.len(),
            res <= 16,
    {
        proof {
            use_type_invariant(self);
        }
        self.bytes.len() as u8
    }

    /// The byte at `address`.
    pub fn read(&self, address: u8) -> (res: u8)
        requires
            (address as int) < self@.len(),
        ensures
            res == self@[address as int],
    {
        self.bytes[address as usize]
    }
}

} // verus!
