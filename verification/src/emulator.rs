//! The processor: register file, port and program memory, and the
//! instruction cycle that drives them.

use vstd::prelude::*;
use crate::error::EmulatorErr;
use crate::model::{
    apply, cycle, decode_byte, execute, fault_at, fetch_byte, halted, run, Machine, Outcome,
    Status,
};
use crate::opcode::{is_assigned, Opcode};
use crate::port::{as_ints, Port, PortState};
use crate::register::{nibble_arithmetic, Register};
use crate::rom::Rom;

verus! {

/// The processor.
pub struct CpuEmulator {
    register: Register,
    port: Port,
    rom: Rom,
}

impl View for CpuEmulator {
    type V = Machine;

    closed spec fn view(&self) -> Machine {
        Machine { regs: self.register@, port: self.port@ }
    }
}

impl CpuEmulator {
    /// The loaded program.
    pub closed spec fn program(&self) -> Seq<u8> {
        self.rom@
    }

    /// The registers are in range (the program counter at most 16) and the
    /// program fits the address space. This holds of every processor.
    pub open spec fn wf(&self) -> bool {
        &&& self@.regs.wf()
        &&& self.program().len() <= 16
    }

    /// A processor made of the given parts. That the program fits the
    /// sixteen addresses is the invariant of [`Rom`], so every program memory
    /// is accepted.
    pub fn with(register: Register, port: Port, rom: Rom) -> (res: CpuEmulator)
        ensures
            res@ == (Machine { regs: register@, port: port@ }),
            res.program() == rom@,
            res.wf(),
    {
        proof {
            use_type_invariant(&register);
            use_type_invariant(&rom);
        }
        CpuEmulator { register, port, rom }
    }

    /// The register file.
    pub fn register(&self) -> (res: &Register)
        ensures
            res@ == self@.regs,
            self.wf(),
    {
        proof {
            use_type_invariant(&self.rom);
            use_type_invariant(&self.register);
        }
        &self.register
    }

    /// The port.
    pub fn port(&self) -> (res: &Port)
        ensures
            res@ == self@.port,
    {
        &self.port
    }

    /// Program memory.
    pub fn rom(&self) -> (res: &Rom)
        ensures
            res@ == self.program(),
    {
        &self.rom
    }

    /// Presents a new input value at the port. Nothing else changes.
    pub fn set_input(&mut self, value: u8)
        ensures
            final(self)@ == (Machine {
                port: PortState { input: value as int, ..old(self)@.port },
                ..old(self)@
            }),
            final(self).program() == old(self).program(),
    {
        self.port.set_input(value);
    }

    /// Hands out the values written to the port since the last call, oldest
    /// first, and empties the record. Nothing else changes.
    pub fn take_writes(&mut self) -> (res: Vec<u8>)
        ensures
            as_ints(res@) == old(self)@.port.writes,
            final(self)@ == (Machine {
                port: PortState { writes: Seq::<int>::empty(), ..old(self)@.port },
                ..old(self)@
            }),
            final(self).program() == old(self).program(),
    {
        self.port.take_writes()
    }

    /// Fetches the byte at the program counter, 0 beyond the program.
    pub fn fetch(&self) -> (res: u8)
        ensures
            res == fetch_byte(self.program(), self@.regs.pc),
    {
        let pc: u8 = self.register.pc();
        if self.rom.size() <= pc {
            return 0;
        }
        self.rom.read(pc)
    }

    /// Decodes an instruction byte. It succeeds exactly when the high four
    /// bits are an assigned code; the error carries the byte and the program
    /// counter.
    pub fn decode(&self, data: u8) -> (res: Result<(Opcode, u8), EmulatorErr>)
        ensures
            res is Ok <==> is_assigned((data as int) / 16),
            match decode_byte(data as int) {
                Some((op, im)) => res == Ok::<(Opcode, u8), EmulatorErr>((op, im as u8)),
                None => res == Err::<(Opcode, u8), EmulatorErr>(
                    EmulatorErr { byte: data, pc: self@.regs.pc as u8 },
                ),
            },
            res matches Ok(d) ==> d.1 < 16,
    {
        proof {
            nibble_arithmetic(data);
        }
        let op: u8 = data >> 4;
        let im: u8 = data & 0x0f;
        match <Opcode as num_traits::FromPrimitive>::from_u8(op) {
            Some(opcode) => {
                if opcode.has_immediate() {
                    Ok((opcode, im))
                } else {
                    Ok((opcode, 0))
                }
            },
            None => Err(EmulatorErr::new(data, self.register.pc())),
        }
    }

    /// The halt condition.
    pub fn does_halt(&self) -> (res: bool)
        ensures
            res == halted(self.program(), self@),
    {
        self.register.pc() >= self.rom.size()
    }

    /// `a := im`, carry cleared.
    pub fn mov_a(&mut self, im: u8)
        requires
            im < 16,
        ensures
            final(self)@ == apply(Opcode::MovA, im as int, old(self)@),
            final(self).program() == old(self).program(),
            final(self).wf(),
    {
        proof {
            use_type_invariant(&self.rom);
        }
        self.register.set_register_a(im);
        self.register.sef_carry_flag(0);
    }

    /// `b := im`, carry cleared.
    pub fn mov_b(&mut self, im: u8)
        requires
            im < 16,
        ensures
            final(self)@ == apply(Opcode::MovB, im as int, old(self)@),
            final(self).program() == old(self).program(),
            final(self).wf(),
    {
        proof {
            use_type_invariant(&self.rom);
        }
        self.register.set_register_b(im);
        self.register.sef_carry_flag(0);
    }

    /// `b := a`, carry cleared.
    pub fn mov_a2b(&mut self)
        ensures
            final(self)@ == apply(Opcode::MovA2B, 0, old(self)@),
            final(self).program() == old(self).program(),
            final(self).wf(),
    {
        proof {
            use_type_invariant(&self.rom);
        }
        let register_a: u8 = self.register.register_a();
        self.register.set_register_b(register_a);
        self.register.sef_carry_flag(0);
    }

    /// `a := b`, carry cleared.
    pub fn mov_b2a(&mut self)
        ensures
            final(self)@ == apply(Opcode::MovB2A, 0, old(self)@),
            final(self).program() == old(self).program(),
            final(self).wf(),
    {
        proof {
            use_type_invariant(&self.rom);
        }
        let register_b: u8 = self.register.register_b();
        self.register.set_register_a(register_b);
        self.register.sef_carry_flag(0);
    }

    /// `a := (a + im) mod 16`; the carry flag becomes 1 exactly when
    /// `a + im` exceeds 15, and 0 otherwise.
    pub fn add_a(&mut self, im: u8)
        requires
            im < 16,
        ensures
            final(self)@ == apply(Opcode::AddA, im as int, old(self)@),
            final(self)@.regs.carry == 1 <==> old(self)@.regs.a + im > 15,
            final(self)@.regs.a == (old(self)@.regs.a + im) % 16,
            final(self).program() == old(self).program(),
            final(self).wf(),
    {
        proof {
            use_type_invariant(&self.rom);
        }
        let existence: u8 = self.register.register_a();
        let new_value: u8 = existence + im;
        if new_value > 0x0f {
            self.register.sef_carry_flag(1);
        } else {
            self.register.sef_carry_flag(0);
        }
        self.register.set_register_a(new_value);
    }

    /// `b := (b + im) mod 16`; the carry flag becomes 1 exactly when
    /// `b + im` exceeds 15, and 0 otherwise.
    pub fn add_b(&mut self, im: u8)
        requires
            im < 16,
        ensures
            final(self)@ == apply(Opcode::AddB, im as int, old(self)@),
            final(self)@.regs.carry == 1 <==> old(self)@.regs.b + im > 15,
            final(self)@.regs.b == (old(self)@.regs.b + im) % 16,
            final(self).program() == old(self).program(),
            final(self).wf(),
    {
        proof {
            use_type_invariant(&self.rom);
        }
        let existence: u8 = self.register.register_b();
        let new_value: u8 = existence + im;
        if new_value > 0x0f {
            self.register.sef_carry_flag(1);
        } else {
            self.register.sef_carry_flag(0);
        }
        self.register.set_register_b(new_value);
    }

    /// `pc := im`, carry cleared.
    pub fn jmp(&mut self, im: u8)
        requires
            im < 16,
        ensures
            final(self)@ == apply(Opcode::Jmp, im as int, old(self)@),
            final(self)@.regs.pc == im,
            final(self).program() == old(self).program(),
            final(self).wf(),
    {
        proof {
            use_type_invariant(&self.rom);
        }
        self.register.set_pc(im);
        self.register.sef_carry_flag(0);
    }

    /// `pc := im` if the carry flag is clear; carry cleared either way.
    pub fn jnc(&mut self, im: u8)
        requires
            im < 16,
        ensures
            final(self)@ == apply(Opcode::Jnc, im as int, old(self)@),
            final(self)@.regs.pc == (if old(self)@.regs.carry == 0 {
                im as int
            } else {
                old(self)@.regs.pc
            }),
            final(self).program() == old(self).program(),
            final(self).wf(),
    {
        proof {
            use_type_invariant(&self.rom);
        }
        if self.register.carry_flag() == 0 {
            self.register.set_pc(im);
        }
        self.register.sef_carry_flag(0);
    }

    /// `a := input mod 16`, carry cleared.
    pub fn in_a(&mut self)
        ensures
            final(self)@ == apply(Opcode::InA, 0, old(self)@),
            final(self).program() == old(self).program(),
            final(self).wf(),
    {
        proof {
            use_type_invariant(&self.rom);
        }
        let input_port: u8 = self.port.input();
        self.register.set_register_a(input_port);
        self.register.sef_carry_flag(0);
    }

    /// `b := input mod 16`, carry cleared.
    pub fn in_b(&mut self)
        ensures
            final(self)@ == apply(Opcode::InB, 0, old(self)@),
            final(self).program() == old(self).program(),
            final(self).wf(),
    {
        proof {
            use_type_invariant(&self.rom);
        }
        let input_port: u8 = self.port.input();
        self.register.set_register_b(input_port);
        self.register.sef_carry_flag(0);
    }

    /// Writes register B to the port; carry cleared.
    pub fn out_b(&mut self)
        ensures
            final(self)@ == apply(Opcode::OutB, 0, old(self)@),
            final(self).program() == old(self).program(),
            final(self).wf(),
    {
        proof {
            use_type_invariant(&self.rom);
        }
        let register_b: u8 = self.register.register_b();
        self.port.set_output(register_b);
        self.register.sef_carry_flag(0);
    }

    /// Writes `im` to the port; carry cleared.
    pub fn out_im(&mut self, im: u8)
        requires
            im < 16,
        ensures
            final(self)@ == apply(Opcode::OutIm, im as int, old(self)@),
            final(self).program() == old(self).program(),
            final(self).wf(),
    {
        proof {
            use_type_invariant(&self.rom);
        }
        self.port.set_output(im);
        self.register.sef_carry_flag(0);
    }

    /// Executes a decoded instruction and advances the program counter
    /// unless the instruction is a jump.
    pub fn dispatch(&mut self, opecode: Opcode, im: u8)
        requires
            im < 16,
        ensures
            final(self)@ == execute(opecode, im as int, old(self)@),
            final(self).program() == old(self).program(),
            final(self).wf(),
    {
        proof {
            use_type_invariant(&self.rom);
        }
        match opecode {
            Opcode::MovA => self.mov_a(im),
            Opcode::MovB => self.mov_b(im),
            Opcode::AddA => self.add_a(im),
            Opcode::AddB => self.add_b(im),
            Opcode::MovA2B => self.mov_a2b(),
            Opcode::MovB2A => self.mov_b2a(),
            Opcode::Jmp => self.jmp(im),
            Opcode::Jnc => self.jnc(im),
            Opcode::OutIm => self.out_im(im),
            Opcode::InA => self.in_a(),
            Opcode::InB => self.in_b(),
            Opcode::OutB => self.out_b(),
        };
        if !opecode.is_jump() {
            self.register.incr_pc();
        }
    }

    /// Runs one cycle: fetch, decode, execute, advance, halt check. On a
    /// decode error the machine is left as it was before the fetch.
    pub fn step(&mut self) -> (res: Result<Status, EmulatorErr>)
        ensures
            (Outcome { state: final(self)@, result: res }) == cycle(
                old(self).program(),
                old(self)@,
            ),
            final(self).program() == old(self).program(),
            final(self).wf(),
    {
        proof {
            use_type_invariant(&self.rom);
            use_type_invariant(&self.register);
        }
        let data: u8 = self.fetch();
        match self.decode(data) {
            Ok((opecode, im)) => {
                self.dispatch(opecode, im);
                if self.does_halt() {
                    Ok(Status::Halted)
                } else {
                    Ok(Status::Running)
                }
            },
            Err(e) => {
                assert(e == fault_at(self.program(), self@));
                Err(e)
            },
        }
    }

    /// Runs cycles until the machine halts, a byte fails to decode, or
    /// `max_cycles` cycles are done, whichever comes first. `Ok(Running)`
    /// says that the budget ran out with the machine still running; a further
    /// call goes on from there.
    pub fn exec(&mut self, max_cycles: u64) -> (res: Result<Status, EmulatorErr>)
        ensures
            (Outcome { state: final(self)@, result: res }) == run(
                old(self).program(),
                old(self)@,
                max_cycles as nat,
            ),
            final(self).program() == old(self).program(),
            final(self).wf(),
    {
        proof {
            use_type_invariant(&self.rom);
            use_type_invariant(&self.register);
        }
        let mut left: u64 = max_cycles;
        while left > 0
            invariant
                self.wf(),
                self.program() == old(self).program(),
                run(old(self).program(), old(self)@, max_cycles as nat) == run(
                    self.program(),
                    self@,
                    left as nat,
                ),
            decreases left,
        {
            match self.step() {
                Ok(Status::Running) => {},
                Ok(Status::Halted) => {
                    return Ok(Status::Halted);
                },
                Err(e) => {
                    return Err(e);
                },
            }
            left = left - 1;
        }
        Ok(Status::Running)
    }
}

} // verus!
