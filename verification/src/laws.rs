//! Laws of the machine, proved over the model of [`crate::model`].

use vstd::prelude::*;
use crate::error::EmulatorErr;
use crate::model::{
    apply, cycle, decode_byte, execute, fetch_byte, halted, run, Machine, Status,
};
use crate::opcode::{is_assigned, Opcode};
use crate::register::next_address;

verus! {

/// A run is a function of the program, the state and the number of cycles:
/// two runs that start alike end alike, in registers, port, record of writes
/// and result.
pub proof fn run_is_deterministic(
    rom1: Seq<u8>,
    rom2: Seq<u8>,
    m1: Machine,
    m2: Machine,
    fuel: nat,
)
    requires
        rom1 =~= rom2,
        m1.regs == m2.regs,
        m1.port.input == m2.port.input,
        m1.port.output == m2.port.output,
        m1.port.writes =~= m2.port.writes,
    ensures
        run(rom1, m1, fuel) == run(rom2, m2, fuel),
{
}

/// The values written on the way from one state of a run to a later one.
pub open spec fn emitted(before: Machine, after: Machine) -> Seq<int> {
    after.port.writes.skip(before.port.writes.len() as int)
}

/// A cycle makes exactly one value observable when the instruction is `OutB`
/// (register B) or `OutIm` (the operand), and none otherwise. The input
/// value is never touched.
pub proof fn cycle_writes_once(rom: Seq<u8>, m: Machine)
    ensures
        cycle(rom, m).state.port.input == m.port.input,
        m.port.writes.is_prefix_of(cycle(rom, m).state.port.writes),
        emitted(m, cycle(rom, m).state) =~= (match decode_byte(
            fetch_byte(rom, m.regs.pc) as int,
        ) {
            Some((op, im)) => if op is OutB {
                seq![m.regs.b]
            } else if op is OutIm {
                seq![im]
            } else {
                Seq::<int>::empty()
            },
            None => Seq::<int>::empty(),
        }),
        emitted(m, cycle(rom, m).state).len() > 0 ==> cycle(rom, m).state.port.output
            == emitted(m, cycle(rom, m).state).last(),
        emitted(m, cycle(rom, m).state).len() == 0 ==> cycle(rom, m).state.port.output
            == m.port.output,
{
}

/// A run only appends to the record of writes, and leaves the input value
/// alone.
pub proof fn run_only_appends(rom: Seq<u8>, m: Machine, fuel: nat)
    ensures
        run(rom, m, fuel).state.port.input == m.port.input,
        m.port.writes.is_prefix_of(run(rom, m, fuel).state.port.writes),
    decreases fuel,
{
    if fuel > 0 {
        let o = cycle(rom, m);
        cycle_writes_once(rom, m);
        run_only_appends(rom, o.state, (fuel - 1) as nat);
    }
}

/// What was written earlier has no influence on a cycle: two machines that
/// agree in registers and input value take the same step and write the same
/// values.
pub proof fn cycle_ignores_history(rom: Seq<u8>, m1: Machine, m2: Machine)
    requires
        m1.regs == m2.regs,
        m1.port.input == m2.port.input,
    ensures
        cycle(rom, m1).result == cycle(rom, m2).result,
        cycle(rom, m1).state.regs == cycle(rom, m2).state.regs,
        emitted(m1, cycle(rom, m1).state) =~= emitted(m2, cycle(rom, m2).state),
{
}

/// The same holds of a whole run: from equal registers and input value, two
/// runs of one program end with the same result and registers, and write the
/// same sequence of values, whatever either port held before.
pub proof fn run_ignores_history(rom: Seq<u8>, m1: Machine, m2: Machine, fuel: nat)
    requires
        m1.regs == m2.regs,
        m1.port.input == m2.port.input,
    ensures
        run(rom, m1, fuel).result == run(rom, m2, fuel).result,
        run(rom, m1, fuel).state.regs == run(rom, m2, fuel).state.regs,
        emitted(m1, run(rom, m1, fuel).state) =~= emitted(m2, run(rom, m2, fuel).state),
    decreases fuel,
{
    if fuel > 0 {
        let o1 = cycle(rom, m1);
        let o2 = cycle(rom, m2);
        cycle_ignores_history(rom, m1, m2);
        if o1.result == Ok::<Status, EmulatorErr>(Status::Running) {
            let rest = (fuel - 1) as nat;
            cycle_writes_once(rom, m1);
            cycle_writes_once(rom, m2);
            run_only_appends(rom, o1.state, rest);
            run_only_appends(rom, o2.state, rest);
            run_ignores_history(rom, o1.state, o2.state, rest);
            emitted_chains(m1, o1.state, run(rom, o1.state, rest).state);
            emitted_chains(m2, o2.state, run(rom, o2.state, rest).state);
        }
    }
}

/// What is written over two stretches of a run is what is written over the
/// first, followed by what is written over the second.
pub proof fn emitted_chains(a: Machine, b: Machine, c: Machine)
    requires
        a.port.writes.is_prefix_of(b.port.writes),
        b.port.writes.is_prefix_of(c.port.writes),
    ensures
        emitted(a, c) =~= emitted(a, b) + emitted(b, c),
        a.port.writes.is_prefix_of(c.port.writes),
{
}

/// A cycle keeps both registers within four bits, the carry flag within one
/// and the program counter at most 16. The program counter is 16 only after
/// the advance from 15, or where it was 16 before; a machine that is still
/// running has it inside the program, hence within four bits.
pub proof fn cycle_keeps_ranges(rom: Seq<u8>, m: Machine)
    requires
        m.regs.wf(),
    ensures
        cycle(rom, m).state.regs.wf(),
        cycle(rom, m).state.regs.pc == 16 ==> m.regs.pc >= 15,
        rom.len() <= 16 && cycle(rom, m).result == Ok::<Status, EmulatorErr>(Status::Running)
            ==> cycle(rom, m).state.regs.pc < 16,
{
}

/// Every state that a run reaches keeps both registers within four bits,
/// the carry flag within one and the program counter at most 16; after at
/// least one cycle, a machine that is still running has the program counter
/// within four bits.
pub proof fn run_keeps_ranges(rom: Seq<u8>, m: Machine, fuel: nat)
    requires
        m.regs.wf(),
    ensures
        run(rom, m, fuel).state.regs.wf(),
        rom.len() <= 16 && fuel > 0 && run(rom, m, fuel).result == Ok::<Status, EmulatorErr>(
            Status::Running,
        ) ==> run(rom, m, fuel).state.regs.pc < 16,
    decreases fuel,
{
    if fuel > 0 {
        cycle_keeps_ranges(rom, m);
        run_keeps_ranges(rom, cycle(rom, m).state, (fuel - 1) as nat);
    }
}

/// In a program that leaves at least one address free, a run that starts
/// inside the program never takes the program counter beyond four bits.
pub proof fn short_program_keeps_pc_in_four_bits(rom: Seq<u8>, m: Machine, fuel: nat)
    requires
        m.regs.wf(),
        rom.len() < 16,
        m.regs.pc < rom.len(),
    ensures
        run(rom, m, fuel).state.regs.pc < 16,
    decreases fuel,
{
    if fuel > 0 {
        let o = cycle(rom, m);
        if o.result == Ok::<Status, EmulatorErr>(Status::Running) {
            cycle_keeps_ranges(rom, m);
            short_program_keeps_pc_in_four_bits(rom, o.state, (fuel - 1) as nat);
        }
    }
}

/// An addition sets the carry flag to 1 exactly when the unmasked sum exceeds
/// 15, and to 0 otherwise; the register receives the sum modulo 16.
pub proof fn add_carries_on_overflow(im: int, m: Machine)
    requires
        m.regs.wf(),
        0 <= im < 16,
    ensures
        apply(Opcode::AddA, im, m).regs.carry == 1 <==> m.regs.a + im > 15,
        apply(Opcode::AddA, im, m).regs.carry == 0 <==> m.regs.a + im <= 15,
        apply(Opcode::AddA, im, m).regs.a == (m.regs.a + im) % 16,
        apply(Opcode::AddB, im, m).regs.carry == 1 <==> m.regs.b + im > 15,
        apply(Opcode::AddB, im, m).regs.carry == 0 <==> m.regs.b + im <= 15,
        apply(Opcode::AddB, im, m).regs.b == (m.regs.b + im) % 16,
{
}

/// After a jump the program counter is what the instruction made it: the
/// target after `Jmp` and after `Jnc` with the carry flag clear, the address
/// of the `Jnc` itself with the carry flag set. No advance is added.
pub proof fn jump_does_not_advance(op: Opcode, im: int, m: Machine)
    requires
        op.spec_is_jump(),
    ensures
        execute(op, im, m).regs.pc == apply(op, im, m).regs.pc,
        op is Jmp ==> execute(op, im, m).regs.pc == im,
        op is Jnc && m.regs.carry == 0 ==> execute(op, im, m).regs.pc == im,
        op is Jnc && m.regs.carry != 0 ==> execute(op, im, m).regs.pc == m.regs.pc,
{
}

/// Every instruction but a jump moves the program counter on by one
/// address; from 15 it goes to 16.
pub proof fn other_instructions_advance(op: Opcode, im: int, m: Machine)
    requires
        !op.spec_is_jump(),
    ensures
        execute(op, im, m).regs.pc == next_address(m.regs.pc),
        m.regs.pc < 16 ==> execute(op, im, m).regs.pc == m.regs.pc + 1,
{
}

/// A byte decodes exactly when its high four bits are an assigned code,
/// whatever its low four bits are. The instruction is the one with that
/// code, and the operand is a 4-bit value.
pub proof fn decode_succeeds_exactly_on_assigned(byte: int)
    ensures
        decode_byte(byte) is Some <==> is_assigned(byte / 16),
        decode_byte(byte) matches Some(d) ==> d.0.spec_code() == byte / 16 && 0 <= d.1 < 16,
{
}

/// Decoding undoes encoding: the byte made of an instruction's code and a
/// 4-bit operand decodes to that instruction, with the operand if the
/// instruction carries one and with 0 if not.
pub proof fn decode_inverts_encode(op: Opcode, im: int)
    requires
        0 <= im < 16,
    ensures
        decode_byte(op.spec_code() * 16 + im) == Some(
            (op, if op.spec_has_immediate() { im } else { 0 }),
        ),
{
}

/// A cycle fails exactly when the fetched byte has an unassigned code, and
/// then the state is untouched.
pub proof fn cycle_fails_exactly_on_unassigned(rom: Seq<u8>, m: Machine)
    ensures
        cycle(rom, m).result is Err <==> !is_assigned(
            (fetch_byte(rom, m.regs.pc) as int) / 16,
        ),
        cycle(rom, m).result is Err ==> cycle(rom, m).state == m,
{
}

/// Every byte of the program decodes, and every jump in it has a target
/// beyond its own address.
pub open spec fn only_forward_jumps(rom: Seq<u8>) -> bool {
    forall|i: int|
        0 <= i < rom.len() ==> match decode_byte(#[trigger] rom[i] as int) {
            Some((op, im)) => op.spec_is_jump() ==> im > i,
            None => false,
        }
}

/// A program of 1 to 16 bytes whose jumps all lead forward halts: a run
/// from any address inside it ends in `Halted`, with the program counter at
/// or beyond the end, within two cycles for each byte still ahead (a `Jnc`
/// met with the carry flag set takes two cycles), plus one.
pub proof fn forward_program_halts(rom: Seq<u8>, m: Machine, fuel: nat)
    requires
        1 <= rom.len() <= 16,
        only_forward_jumps(rom),
        m.regs.wf(),
        m.regs.pc < rom.len(),
        fuel >= 2 * (rom.len() - m.regs.pc) + m.regs.carry,
    ensures
        run(rom, m, fuel).result == Ok::<Status, EmulatorErr>(Status::Halted),
        run(rom, m, fuel).state.regs.pc >= rom.len(),
    decreases fuel,
{
    let byte = rom[m.regs.pc];
    assert(decode_byte(byte as int) is Some);
    let o = cycle(rom, m);
    cycle_keeps_ranges(rom, m);
    if !halted(rom, o.state) {
        forward_program_halts(rom, o.state, (fuel - 1) as nat);
    }
}

/// Every byte of the program decodes, and none is a jump.
pub open spec fn no_jumps(rom: Seq<u8>) -> bool {
    forall|i: int|
        0 <= i < rom.len() ==> match decode_byte(#[trigger] rom[i] as int) {
            Some((op, im)) => !op.spec_is_jump(),
            None => false,
        }
}

/// A program of 1 to 16 bytes without jumps runs straight through: from an
/// address inside it, each cycle moves the program counter on by one, and
/// the run halts after exactly as many cycles as bytes lay ahead, with the
/// program counter equal to the length of the program. For a program that
/// fills the memory that is 16.
pub proof fn straight_program_runs_through(rom: Seq<u8>, m: Machine, fuel: nat)
    requires
        1 <= rom.len() <= 16,
        no_jumps(rom),
        m.regs.wf(),
        m.regs.pc < rom.len(),
    ensures
        fuel >= rom.len() - m.regs.pc ==> run(rom, m, fuel).result == Ok::<Status, EmulatorErr>(
            Status::Halted,
        ) && run(rom, m, fuel).state.regs.pc == rom.len(),
        fuel < rom.len() - m.regs.pc ==> run(rom, m, fuel).result == Ok::<Status, EmulatorErr>(
            Status::Running,
        ) && run(rom, m, fuel).state.regs.pc == m.regs.pc + fuel,
    decreases fuel,
{
    if fuel > 0 {
        let byte = rom[m.regs.pc];
        assert(decode_byte(byte as int) is Some);
        let o = cycle(rom, m);
        cycle_keeps_ranges(rom, m);
        if !halted(rom, o.state) {
            straight_program_runs_through(rom, o.state, (fuel - 1) as nat);
        }
    }
}

/// A run that used up its budget while running can be taken up again: a run
/// of `n + k` cycles is a run of `n` cycles followed, if the machine is still
/// running, by a run of `k` cycles.
pub proof fn run_resumes(rom: Seq<u8>, m: Machine, n: nat, k: nat)
    ensures
        run(rom, m, n + k) == (if run(rom, m, n).result == Ok::<Status, EmulatorErr>(
            Status::Running,
        ) {
            run(rom, run(rom, m, n).state, k)
        } else {
            run(rom, m, n)
        }),
    decreases n,
{
    if n > 0 {
        let o = cycle(rom, m);
        if o.result == Ok::<Status, EmulatorErr>(Status::Running) {
            run_resumes(rom, o.state, (n - 1) as nat, k);
            assert((n - 1) as nat + k == (n + k - 1) as nat);
        }
    }
}

} // verus!
