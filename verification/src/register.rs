//! The register file: two 4-bit registers, the carry flag and the program
//! counter.

use vstd::prelude::*;

verus! {

/// What a register file holds, as numbers.
pub ghost struct Registers {
    pub a: int,
    pub b: int,
    pub carry: int,
    pub pc: int,
}

/// The address after `pc`: one more, up to 16, the first number beyond the
/// address space, where the program counter stays.
pub open spec fn next_address(pc: int) -> int {
    if pc < 16 {
        pc + 1
    } else {
        16
    }
}

impl Registers {
    /// Each register fits in four bits and the carry flag in one. The
    /// program counter is an address, 0 to 15, or 16: the end of a program
    /// that fills the memory.
    pub open spec fn wf(self) -> bool {
        &&& 0 <= self.a < 16
        &&& 0 <= self.b < 16
        &&& 0 <= self.carry <= 1
        &&& 0 <= self.pc <= 16
    }

    /// The register file after reset.
    pub open spec fn zero() -> Registers {
        Registers { a: 0, b: 0, carry: 0, pc: 0 }
    }
}

/// The register file. Each cell is eight bits wide and holds a 4-bit value
/// (the carry flag: one bit); every setter masks what it stores. The program
/// counter can also stand at 16, just beyond the last address, where only
/// the advance from 15 takes it.
#[derive(Debug)]
pub struct Register {
    register_a: u8,
    register_b: u8,
    carry_flag: u8,
    pc: u8,
}

/// The low four bits of a byte are its remainder modulo 16, the low bit its
/// remainder modulo 2, and the high four bits its quotient by 16.
pub proof fn nibble_arithmetic(v: u8)
    ensures
        (v & 0x0f) as int == (v as int) % 16,
        (v & 0x01) as int == (v as int) % 2,
        (v >> 4) as int == (v as int) / 16,
{
    assert(v & 0x0f == v % 16) by (bit_vector);
    assert(v & 0x01 == v % 2) by (bit_vector);
    assert(v >> 4 == v / 16) by (bit_vector);
}

impl View for Register {
    type V = Registers;

    closed spec fn view(&self) -> Registers {
        Registers {
            a: self.register_a as int,
            b: self.register_b as int,
            carry: self.carry_flag as int,
            pc: self.pc as int,
        }
    }
}

impl Clone for Register {
    fn clone(&self) -> (res: Register)
        ensures
            res@ == self@,
    {
        proof {
            use_type_invariant(self);
        }
        Register {
            register_a: self.register_a,
            register_b: self.register_b,
            carry_flag: self.carry_flag,
            pc: self.pc,
        }
    }
}

impl Default for Register {
    fn default() -> (res: Register)
        ensures
            res@ == Registers::zero(),
            res.wf(),
    {
        Register { register_a: 0, register_b: 0, carry_flag: 0, pc: 0 }
    }
}

impl Register {
    /// The invariant of the type: each register holds a 4-bit value, the
    /// carry flag one bit, the program counter at most 16.
    #[verifier::type_invariant]
    pub open spec fn wf(&self) -> bool {
        self@.wf()
    }

    /// A register file with every cell zero.
    pub fn new() -> (res: Register)
        ensures
            res@ == Registers::zero(),
            res.wf(),
    {
        Register { register_a: 0, register_b: 0, carry_flag: 0, pc: 0 }
    }

    /// The program counter.
    pub fn pc(&self) -> (res: u8)
        ensures
            res as int == self@.pc,
            self.wf(),
    {
        proof {
            use_type_invariant(self);
        }
        self.pc
    }

    /// Stores the low four bits of `new_value` in the program counter, so
    /// that a jump target is always an address.
    pub fn set_pc(&mut self, new_value: u8)
        ensures
            final(self)@ == (Registers { pc: (new_value as int) % 16, ..old(self)@ }),
            final(self).wf(),
    {
        proof {
            use_type_invariant(&*self);
            nibble_arithmetic(new_value);
        }
        self.pc = new_value & 0x0f;
    }

    /// Advances the program counter by one. From 15 it goes to 16, and at
    /// 16 it stays.
    pub fn incr_pc(&mut self)
        ensures
            final(self)@ == (Registers { pc: next_address(old(self)@.pc), ..old(self)@ }),
            final(self).wf(),
    {
        proof {
            use_type_invariant(&*self);
        }
        if self.pc < 16 {
            self.pc = self.pc + 1;
        }
    }

    /// The carry flag, 0 or 1.
    pub fn carry_flag(&self) -> (res: u8)
        ensures
            res as int == self@.carry,
            self.wf(),
    {
        proof {
            use_type_invariant(self);
        }
        self.carry_flag
    }

    /// Stores the low bit of `new_value` in the carry flag.
    pub fn sef_carry_flag(&mut self, new_value: u8)
        ensures
            final(self)@ == (Registers { carry: (new_value as int) % 2, ..old(self)@ }),
            final(self).wf(),
    {
        proof {
            use_type_invariant(&*self);
            nibble_arithmetic(new_value);
        }
        self.carry_flag = new_value & 0x01;
    }

    /// Register A.
    pub fn register_a(&self) -> (res: u8)
        ensures
            res as int == self@.a,
            self.wf(),
    {
        proof {
            use_type_invariant(self);
        }
        self.register_a
    }

    /// Stores the low four bits of `new_value` in register A.
    pub fn set_register_a(&mut self, new_value: u8)
        ensures
            final(self)@ == (Registers { a: (new_value as int) % 16, ..old(self)@ }),
            final(self).wf(),
    {
        proof {
            use_type_invariant(&*self);
            nibble_arithmetic(new_value);
        }
        self.register_a = new_value & 0x0f;
    }

    /// Register B.
    pub fn register_b(&self) -> (res: u8)
        ensures
            res as int == self@.b,
            self.wf(),
    {
        proof {
            use_type_invariant(self);
        }
        self.register_b
    }

    /// Stores the low four bits of `new_value` in register B.
    pub fn set_register_b(&mut self, new_value: u8)
        ensures
            final(self)@ == (Registers { b: (new_value as int) % 16, ..old(self)@ }),
            final(self).wf(),
    {
        proof {
            use_type_invariant(&*self);
            nibble_arithmetic(new_value);
        }
        self.register_b = new_value & 0x0f;
    }
}

} // verus!
