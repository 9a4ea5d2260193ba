use cpu_emulator::{CpuEmulator, EmulatorErr, Opcode, Port, Register, Rom};
use num_traits::FromPrimitive;

const ALL: [(Opcode, u8, bool); 12] = [
    (Opcode::AddA, 0b0000, true),
    (Opcode::MovB2A, 0b0001, false),
    (Opcode::InA, 0b0010, false),
    (Opcode::MovA, 0b0011, true),
    (Opcode::MovA2B, 0b0100, false),
    (Opcode::AddB, 0b0101, true),
    (Opcode::InB, 0b0110, false),
    (Opcode::MovB, 0b0111, true),
    (Opcode::OutB, 0b1001, false),
    (Opcode::OutIm, 0b1011, true),
    (Opcode::Jnc, 0b1110, true),
    (Opcode::Jmp, 0b1111, true),
];

fn idle_cpu() -> CpuEmulator {
    CpuEmulator::with(Register::new(), Port::new(0), Rom::new(Vec::new()))
}

#[test]
fn codes_of_the_table() {
    for (op, code, has_im) in ALL {
        assert_eq!(op.code(), code);
        assert_eq!(op.has_immediate(), has_im);
        assert_eq!(op.is_jump(), matches!(op, Opcode::Jmp | Opcode::Jnc));
    }
}

#[test]
fn from_u8_finds_each_instruction_under_its_code() {
    for (op, code, _) in ALL {
        assert_eq!(Opcode::from_u8(code), Some(op));
        assert_eq!(Opcode::from_u8(op.code()), Some(op));
    }
}

#[test]
fn from_u8_rejects_unassigned_codes() {
    for code in [8u8, 10, 12, 13] {
        assert_eq!(Opcode::from_u8(code), None);
    }
    for code in 16u8..=255 {
        assert_eq!(Opcode::from_u8(code), None);
    }
}

#[test]
fn from_wider_integers() {
    assert_eq!(Opcode::from_u64(3), Some(Opcode::MovA));
    assert_eq!(Opcode::from_u64(16), None);
    assert_eq!(Opcode::from_u64(u64::MAX), None);
    assert_eq!(Opcode::from_i64(15), Some(Opcode::Jmp));
    assert_eq!(Opcode::from_i64(-1), None);
    assert_eq!(Opcode::from_i64(i64::MIN), None);
    assert_eq!(Opcode::from_i32(11), Some(Opcode::OutIm));
    assert_eq!(Opcode::from_usize(8), None);
}

#[test]
fn encode_packs_code_and_operand() {
    assert_eq!(Opcode::OutIm.encode(5), 0xB5);
    assert_eq!(Opcode::MovA.encode(15), 0x3F);
    assert_eq!(Opcode::AddA.encode(0), 0x00);
    assert_eq!(Opcode::Jmp.encode(0x1F), 0xFF);
    assert_eq!(Opcode::Jnc.encode(16), 0xE0);
}

#[test]
fn decode_succeeds_on_every_assigned_byte() {
    let cpu = idle_cpu();
    for (op, code, has_im) in ALL {
        for low in 0u8..16 {
            let byte = (code << 4) | low;
            let expected = if has_im { low } else { 0 };
            assert_eq!(cpu.decode(byte), Ok((op, expected)));
        }
    }
}

#[test]
fn decode_fails_on_every_unassigned_byte() {
    let cpu = idle_cpu();
    for code in [8u8, 10, 12, 13] {
        for low in 0u8..16 {
            let byte = (code << 4) | low;
            assert_eq!(cpu.decode(byte), Err(EmulatorErr { byte, pc: 0 }));
        }
    }
}

#[test]
fn decode_covers_all_bytes() {
    let cpu = idle_cpu();
    let mut ok = 0;
    let mut failed = 0;
    for byte in 0u8..=255 {
        match cpu.decode(byte) {
            Ok((op, im)) => {
                assert_eq!(op.code(), byte >> 4);
                assert!(im < 16);
                ok += 1;
            }
            Err(e) => {
                assert_eq!(e.byte, byte);
                assert_eq!(e.code(), byte >> 4);
                failed += 1;
            }
        }
    }
    assert_eq!(ok, 12 * 16);
    assert_eq!(failed, 4 * 16);
}

#[test]
fn decode_of_operation_field_zero_is_add_a() {
    let cpu = idle_cpu();
    assert_eq!(cpu.decode(0x00), Ok((Opcode::AddA, 0)));
    assert_eq!(cpu.decode(0x0F), Ok((Opcode::AddA, 15)));
}

#[test]
fn decode_error_names_the_program_counter() {
    let mut register = Register::new();
    register.set_pc(7);
    let cpu = CpuEmulator::with(register, Port::new(0), Rom::new(Vec::new()));
    let err = cpu.decode(0xC3).unwrap_err();
    assert_eq!(err, EmulatorErr::new(0xC3, 7));
    assert_eq!(err.code(), 12);
}
