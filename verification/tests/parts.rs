use cpu_emulator::{Port, Register, Rom};

#[test]
fn new_register_file_is_zero() {
    let r = Register::new();
    assert_eq!((r.register_a(), r.register_b(), r.carry_flag(), r.pc()), (0, 0, 0, 0));
    let d = Register::default();
    assert_eq!((d.register_a(), d.register_b(), d.carry_flag(), d.pc()), (0, 0, 0, 0));
}

#[test]
fn setters_store_four_bit_values() {
    let mut r = Register::new();
    r.set_register_a(9);
    r.set_register_b(15);
    r.set_pc(12);
    r.sef_carry_flag(1);
    assert_eq!((r.register_a(), r.register_b(), r.carry_flag(), r.pc()), (9, 15, 1, 12));
}

#[test]
fn setters_mask_wide_values() {
    let mut r = Register::new();
    r.set_register_a(0x1F);
    r.set_register_b(0xF3);
    r.set_pc(16);
    r.sef_carry_flag(2);
    assert_eq!((r.register_a(), r.register_b(), r.carry_flag(), r.pc()), (15, 3, 0, 0));
    r.sef_carry_flag(255);
    assert_eq!(r.carry_flag(), 1);
}

#[test]
fn setters_leave_other_cells_alone() {
    let mut r = Register::new();
    r.set_register_a(1);
    r.set_register_b(2);
    r.set_pc(3);
    r.sef_carry_flag(1);
    r.set_register_a(7);
    assert_eq!((r.register_a(), r.register_b(), r.carry_flag(), r.pc()), (7, 2, 1, 3));
    r.incr_pc();
    assert_eq!((r.register_a(), r.register_b(), r.carry_flag(), r.pc()), (7, 2, 1, 4));
}

#[test]
fn incr_pc_goes_from_fifteen_to_sixteen_and_stays() {
    let mut r = Register::new();
    r.set_pc(14);
    r.incr_pc();
    assert_eq!(r.pc(), 15);
    r.incr_pc();
    assert_eq!(r.pc(), 16);
    r.incr_pc();
    assert_eq!(r.pc(), 16);
    assert_eq!((r.register_a(), r.register_b(), r.carry_flag()), (0, 0, 0));
}

#[test]
fn set_pc_keeps_jump_targets_within_four_bits() {
    let mut r = Register::new();
    for value in 0u8..=255 {
        r.set_pc(value);
        assert_eq!(r.pc(), value % 16);
    }
}

#[test]
fn clone_keeps_the_cells() {
    let mut r = Register::new();
    r.set_register_a(4);
    r.set_pc(2);
    let c = r.clone();
    assert_eq!((c.register_a(), c.register_b(), c.carry_flag(), c.pc()), (4, 0, 0, 2));
}

#[test]
fn rom_reads_what_was_loaded() {
    let rom = Rom::new(vec![0x3F, 0x00, 0xB5]);
    assert_eq!(rom.size(), 3);
    assert_eq!(rom.read(0), 0x3F);
    assert_eq!(rom.read(2), 0xB5);
    assert_eq!(Rom::new(Vec::new()).size(), 0);
}

#[test]
fn rom_takes_sixteen_bytes_and_no_more() {
    let full = Rom::try_new(vec![0u8; 16]);
    assert_eq!(full.map(|r| r.size()), Some(16));
    assert!(Rom::try_new(vec![0u8; 17]).is_none());
    assert!(Rom::try_new(vec![0u8; 300]).is_none());
}

#[test]
fn port_input_is_not_consumed() {
    let mut p = Port::new(9);
    assert_eq!(p.input(), 9);
    assert_eq!(p.input(), 9);
    p.set_input(0xAB);
    assert_eq!(p.input(), 0xAB);
    assert_eq!(p.output(), 0);
}

#[test]
fn port_write_replaces_and_records() {
    let mut p = Port::new(0);
    assert_eq!(p.write_count(), 0);
    p.set_output(5);
    p.set_output(7);
    assert_eq!(p.output(), 7);
    assert_eq!(p.write_count(), 2);
    assert_eq!(p.take_writes(), vec![5, 7]);
    assert_eq!(p.write_count(), 0);
    assert_eq!(p.output(), 7);
    p.set_output(1);
    assert_eq!(p.take_writes(), vec![1]);
}
