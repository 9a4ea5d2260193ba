//! The operation table: the twelve instructions and their 4-bit codes.

use vstd::prelude::*;

verus! {

/// One instruction of the machine.
#[derive(Clone, Copy, Debug, PartialEq, Eq, Structural)]
pub enum Opcode {
    /// `a := immediate`
    MovA,
    /// `b := immediate`
    MovB,
    /// `a := a + immediate`, carry on overflow
    AddA,
    /// `b := b + immediate`, carry on overflow
    AddB,
    /// `b := a`
    MovA2B,
    /// `a := b`
    MovB2A,
    /// `pc := immediate`
    Jmp,
    /// `pc := immediate` if the carry flag is clear
    Jnc,
    /// `output := immediate`
    OutIm,
    /// `a := input`
    InA,
    /// `b := input`
    InB,
    /// `output := b`
    OutB,
}

/// The instruction that a 4-bit operation code selects, if any.
///
/// Codes 8, 10, 12 and 13 are unassigned, as is everything above 15.
pub open spec fn opcode_of(code: int) -> Option<Opcode> {
    if code == 0 {
        Some(Opcode::AddA)
    } else if code == 1 {
        Some(Opcode::MovB2A)
    } else if code == 2 {
        Some(Opcode::InA)
    } else if code == 3 {
        Some(Opcode::MovA)
    } else if code == 4 {
        Some(Opcode::MovA2B)
    } else if code == 5 {
        Some(Opcode::AddB)
    } else if code == 6 {
        Some(Opcode::InB)
    } else if code == 7 {
        Some(Opcode::MovB)
    } else if code == 9 {
        Some(Opcode::OutB)
    } else if code == 11 {
        Some(Opcode::OutIm)
    } else if code == 14 {
        Some(Opcode::Jnc)
    } else if code == 15 {
        Some(Opcode::Jmp)
    } else {
        None
    }
}

/// Whether a code is one of the twelve assigned ones.
pub open spec fn is_assigned(code: int) -> bool {
    0 <= code < 16 && code != 8 && code != 10 && code != 12 && code != 13
}

impl Opcode {
    /// The 4-bit code of this instruction.
    pub open spec fn spec_code(self) -> int {
        match self {
            Opcode::AddA => 0,
            Opcode::MovB2A => 1,
            Opcode::InA => 2,
            Opcode::MovA => 3,
            Opcode::MovA2B => 4,
            Opcode::AddB => 5,
            Opcode::InB => 6,
            Opcode::MovB => 7,
            Opcode::OutB => 9,
            Opcode::OutIm => 11,
            Opcode::Jnc => 14,
            Opcode::Jmp => 15,
        }
    }

    /// Whether the low four bits of the instruction byte are an operand.
    pub open spec fn spec_has_immediate(self) -> bool {
        !(self is MovA2B || self is MovB2A || self is InA || self is InB || self is OutB)
    }

    /// Whether the instruction sets the program counter itself.
    pub open spec fn spec_is_jump(self) -> bool {
        self is Jmp || self is Jnc
    }

    /// Looks a code up in the operation table.
    fn lookup(code: u64) -> (res: Option<Opcode>)
        ensures
            res == opcode_of(code as int),
            res is Some <==> is_assigned(code as int),
    {
        match code {
            0 => Some(Opcode::AddA),
            1 => Some(Opcode::MovB2A),
            2 => Some(Opcode::InA),
            3 => Some(Opcode::MovA),
            4 => Some(Opcode::MovA2B),
            5 => Some(Opcode::AddB),
            6 => Some(Opcode::InB),
            7 => Some(Opcode::MovB),
            9 => Some(Opcode::OutB),
            11 => Some(Opcode::OutIm),
            14 => Some(Opcode::Jnc),
            15 => Some(Opcode::Jmp),
            _ => None,
        }
    }

    /// The 4-bit code of this instruction.
    pub fn code(self) -> (res: u8)
        ensures
            res as int == self.spec_code(),
            res < 16,
    {
        match self {
            Opcode::AddA => 0,
            Opcode::MovB2A => 1,
            Opcode::InA => 2,
            Opcode::MovA => 3,
            Opcode::MovA2B => 4,
            Opcode::AddB => 5,
            Opcode::InB => 6,
            Opcode::MovB => 7,
            Opcode::OutB => 9,
            Opcode::OutIm => 11,
            Opcode::Jnc => 14,
            Opcode::Jmp => 15,
        }
    }

    /// Whether the low four bits of the instruction byte are an operand.
    pub fn has_immediate(self) -> (res: bool)
        ensures
            res == self.spec_has_immediate(),
    {
        match self {
            Opcode::MovA2B | Opcode::MovB2A | Opcode::InA | Opcode::InB | Opcode::OutB => false,
            _ => true,
        }
    }

    /// Whether the instruction sets the program counter itself.
    pub fn is_jump(self) -> (res: bool)
        ensures
            res == self.spec_is_jump(),
    {
        match self {
            Opcode::Jmp | Opcode::Jnc => true,
            _ => false,
        }
    }

    /// Packs this instruction and an operand into one instruction byte.
    pub fn encode(self, im: u8) -> (res: u8)
        ensures
            res as int == self.spec_code() * 16 + (im as int) % 16,
    {
        let c: u8 = self.code();
        let low: u8 = im & 0x0f;
        assert(low == im % 16) by (bit_vector)
            requires
                low == im & 0x0f,
        ;
        c * 16 + low
    }
}

/// Conversion from the primitive integers: a number is an instruction exactly
/// when it is an assigned code of the operation table.
impl num_traits::FromPrimitive for Opcode {
    fn from_i64(n: i64) -> (res: Option<Opcode>)
        ensures
            res == opcode_of(n as int),
    {
        if n < 0 {
            None
        } else {
            Opcode::lookup(n as u64)
        }
    }

    fn from_u64(n: u64) -> (res: Option<Opcode>)
        ensures
            res == opcode_of(n as int),
    {
        Opcode::lookup(n)
    }

    fn from_u8(n: u8) -> (res: Option<Opcode>)
        ensures
            res == opcode_of(n as int),
            res is Some <==> is_assigned(n as int),
    {
        Opcode::lookup(n as u64)
    }
}

/// Every instruction is found again under its own code.
pub proof fn code_round_trip(op: Opcode)
    ensures
        is_assigned(op.spec_code()),
        opcode_of(op.spec_code()) == Some(op),
{
}

/// A code is assigned exactly when the table has an instruction for it, and
/// that instruction carries the code.
pub proof fn assigned_codes(code: int)
    ensures
        opcode_of(code) is Some <==> is_assigned(code),
        opcode_of(code) matches Some(op) ==> op.spec_code() == code,
{
}

} // verus!
