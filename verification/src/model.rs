//! The machine as mathematics: its state, one instruction cycle, and a run of
//! a bounded number of cycles.

use vstd::prelude::*;
use crate::error::EmulatorErr;
use crate::opcode::{opcode_of, Opcode};
use crate::port::PortState;
use crate::register::{next_address, Registers};

verus! {

/// The whole mutable state of the machine.
pub ghost struct Machine {
    pub regs: Registers,
    pub port: PortState,
}

/// Whether the machine goes on fetching.
#[derive(Clone, Copy, Debug, PartialEq, Eq, Structural)]
pub enum Status {
    /// The program counter is inside the program.
    Running,
    /// The program counter has reached or passed the end of the program.
    Halted,
}

/// Where a run has come to.
pub ghost struct Outcome {
    /// The state of the machine.
    pub state: Machine,
    /// `Ok` with the status after the last cycle, or the decode error that
    /// stopped the run.
    pub result: Result<Status, EmulatorErr>,
}

/// The byte that a fetch at `pc` yields: the program's byte there, and 0
/// beyond the end of the program.
pub open spec fn fetch_byte(rom: Seq<u8>, pc: int) -> u8 {
    if 0 <= pc < rom.len() {
        rom[pc]
    } else {
        0
    }
}

/// The instruction and operand that a byte stands for. The high four bits
/// select the instruction; the low four bits are the operand of an
/// instruction that carries one, and the operand is 0 otherwise.
pub open spec fn decode_byte(byte: int) -> Option<(Opcode, int)> {
    match opcode_of(byte / 16) {
        Some(op) => Some((op, if op.spec_has_immediate() { byte % 16 } else { 0 })),
        None => None,
    }
}

/// The carry that an addition leaves: 1 exactly when the sum does not fit in
/// four bits.
pub open spec fn carry_of(sum: int) -> int {
    if sum > 15 {
        1
    } else {
        0
    }
}

/// The port after a write of `value`.
pub open spec fn written(p: PortState, value: int) -> PortState {
    PortState { output: value, writes: p.writes.push(value), ..p }
}

/// What an instruction does to the machine, the advance of the program
/// counter left aside. Every instruction but the two additions clears the
/// carry flag; an addition sets it on overflow and clears it otherwise.
pub open spec fn apply(op: Opcode, im: int, m: Machine) -> Machine {
    let r = m.regs;
    let p = m.port;
    match op {
        Opcode::MovA => Machine { regs: Registers { a: im, carry: 0, ..r }, port: p },
        Opcode::MovB => Machine { regs: Registers { b: im, carry: 0, ..r }, port: p },
        Opcode::MovA2B => Machine { regs: Registers { b: r.a, carry: 0, ..r }, port: p },
        Opcode::MovB2A => Machine { regs: Registers { a: r.b, carry: 0, ..r }, port: p },
        Opcode::AddA => Machine {
            regs: Registers {
                a: (r.a + im) % 16,
                carry: carry_of(r.a + im),
                ..r
            },
            port: p,
        },
        Opcode::AddB => Machine {
            regs: Registers {
                b: (r.b + im) % 16,
                carry: carry_of(r.b + im),
                ..r
            },
            port: p,
        },
        Opcode::Jmp => Machine { regs: Registers { pc: im, carry: 0, ..r }, port: p },
        Opcode::Jnc => Machine {
            regs: Registers { pc: if r.carry == 0 { im } else { r.pc }, carry: 0, ..r },
            port: p,
        },
        Opcode::InA => Machine { regs: Registers { a: p.input % 16, carry: 0, ..r }, port: p },
        Opcode::InB => Machine { regs: Registers { b: p.input % 16, carry: 0, ..r }, port: p },
        Opcode::OutB => Machine { regs: Registers { carry: 0, ..r }, port: written(p, r.b) },
        Opcode::OutIm => Machine { regs: Registers { carry: 0, ..r }, port: written(p, im) },
    }
}

/// The advance that follows an instruction: none after a jump, which has set
/// the program counter itself, and one address further after any other. The
/// advance from address 15 gives 16, which is at or beyond the end of every
/// program.
pub open spec fn advance(op: Opcode, m: Machine) -> Machine {
    if op.spec_is_jump() {
        m
    } else {
        Machine { regs: Registers { pc: next_address(m.regs.pc), ..m.regs }, port: m.port }
    }
}

/// An instruction and the advance that follows it.
pub open spec fn execute(op: Opcode, im: int, m: Machine) -> Machine {
    advance(op, apply(op, im, m))
}

/// The halt condition: the program counter is at or beyond the end of the
/// program.
pub open spec fn halted(rom: Seq<u8>, m: Machine) -> bool {
    m.regs.pc >= rom.len()
}

/// The status that the halt check gives.
pub open spec fn status_of(rom: Seq<u8>, m: Machine) -> Status {
    if halted(rom, m) {
        Status::Halted
    } else {
        Status::Running
    }
}

/// The error for the byte at the program counter of `m`.
pub open spec fn fault_at(rom: Seq<u8>, m: Machine) -> EmulatorErr {
    EmulatorErr { byte: fetch_byte(rom, m.regs.pc), pc: m.regs.pc as u8 }
}

/// One cycle: fetch, decode, execute, advance, halt check. A byte that does
/// not decode leaves the state as it was.
pub open spec fn cycle(rom: Seq<u8>, m: Machine) -> Outcome {
    match decode_byte(fetch_byte(rom, m.regs.pc) as int) {
        Some((op, im)) => {
            let next = execute(op, im, m);
            Outcome { state: next, result: Ok(status_of(rom, next)) }
        },
        None => Outcome { state: m, result: Err(fault_at(rom, m)) },
    }
}

/// A run of at most `fuel` cycles. It stops early when a cycle ends in
/// `Halted` or in a decode error. The halt check follows each cycle, so a
/// run with fuel left executes one cycle whatever the program counter is.
pub open spec fn run(rom: Seq<u8>, m: Machine, fuel: nat) -> Outcome
    decreases fuel,
{
    if fuel == 0 {
        Outcome { state: m, result: Ok(Status::Running) }
    } else {
        let o = cycle(rom, m);
        if o.result == Ok::<Status, EmulatorErr>(Status::Running) {
            run(rom, o.state, (fuel - 1) as nat)
        } else {
            o
        }
    }
}

} // verus!
