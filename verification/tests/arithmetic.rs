use rhip8::Cpu;

fn machine_with_registers(values: &[(usize, u8)]) -> Cpu {
    let mut cpu = Cpu::new();
    for &(index, value) in values {
        cpu.set_register(index, value).unwrap();
    }
    cpu
}

#[test]
fn load_immediate_sets_the_register() {
    let mut cpu = Cpu::new();
    cpu.latch(0x6A42);
    cpu.setVxToNN(0x6A42);
    assert_eq!(cpu.register(0xA), Ok(0x42));
    assert_eq!(cpu.register(0xF), Ok(0));
}

#[test]
fn add_immediate_wraps_without_flag() {
    let mut cpu = machine_with_registers(&[(2, 0xFF)]);
    cpu.latch(0x7202);
    cpu.addNNToVx(0x7202);
    assert_eq!(cpu.register(2), Ok(0x01));
    assert_eq!(cpu.register(0xF), Ok(0));
}

#[test]
fn add_immediate_without_wrap() {
    let mut cpu = machine_with_registers(&[(2, 0x10)]);
    cpu.latch(0x7205);
    cpu.addNNToVx(0x7205);
    assert_eq!(cpu.register(2), Ok(0x15));
}

#[test]
fn copy_or_and_xor() {
    let mut cpu = machine_with_registers(&[(1, 0b1100_1010), (2, 0b1010_0110)]);
    cpu.latch(0x8121);
    cpu.setVxToVxOrVy();
    assert_eq!(cpu.register(1), Ok(0b1110_1110));
    cpu.set_register(1, 0b1100_1010).unwrap();
    cpu.setVxToVxAndVy();
    assert_eq!(cpu.register(1), Ok(0b1000_0010));
    cpu.set_register(1, 0b1100_1010).unwrap();
    cpu.setVxToVxXorVy();
    assert_eq!(cpu.register(1), Ok(0b0110_1100));
    cpu.setVxToVy();
    assert_eq!(cpu.register(1), Ok(0b1010_0110));
    assert_eq!(cpu.register(2), Ok(0b1010_0110));
    assert_eq!(cpu.register(0xF), Ok(0));
}

#[test]
fn add_with_carry_sets_the_flag() {
    let mut cpu = machine_with_registers(&[(0, 0xFF), (1, 0x01)]);
    cpu.latch(0x8014);
    cpu.addVyToVx();
    assert_eq!(cpu.register(0), Ok(0x00));
    assert_eq!(cpu.register(0xF), Ok(1));
}

#[test]
fn add_without_carry_clears_the_flag() {
    let mut cpu = machine_with_registers(&[(0, 0x01), (1, 0x01), (0xF, 1)]);
    cpu.latch(0x8014);
    cpu.addVyToVx();
    assert_eq!(cpu.register(0), Ok(0x02));
    assert_eq!(cpu.register(0xF), Ok(0));
}

#[test]
fn add_at_the_edge_of_carry() {
    let mut cpu = machine_with_registers(&[(3, 0xFE), (4, 0x01)]);
    cpu.latch(0x8344);
    cpu.addVyToVx();
    assert_eq!(cpu.register(3), Ok(0xFF));
    assert_eq!(cpu.register(0xF), Ok(0));
    cpu.addVyToVx();
    assert_eq!(cpu.register(3), Ok(0x00));
    assert_eq!(cpu.register(0xF), Ok(1));
}

#[test]
fn add_with_the_flag_register_as_source() {
    let mut cpu = machine_with_registers(&[(0, 0xF0), (0xF, 0x20)]);
    cpu.latch(0x80F4);
    cpu.addVyToVx();
    assert_eq!(cpu.register(0), Ok(0x10));
    assert_eq!(cpu.register(0xF), Ok(1));
}

#[test]
fn add_with_the_flag_register_as_destination() {
    let mut cpu = machine_with_registers(&[(0xF, 0x05), (1, 0x03)]);
    cpu.latch(0x8F14);
    cpu.addVyToVx();
    assert_eq!(cpu.register(0xF), Ok(0));
    let mut cpu = machine_with_registers(&[(0xF, 0xFF), (1, 0x03)]);
    cpu.latch(0x8F14);
    cpu.addVyToVx();
    assert_eq!(cpu.register(0xF), Ok(1));
}

#[test]
fn subtract_without_borrow_sets_the_flag() {
    let mut cpu = machine_with_registers(&[(0, 0x05), (1, 0x03)]);
    cpu.latch(0x8015);
    cpu.subVyFromVx();
    assert_eq!(cpu.register(0), Ok(0x02));
    assert_eq!(cpu.register(0xF), Ok(1));
}

#[test]
fn subtract_with_borrow_clears_the_flag() {
    let mut cpu = machine_with_registers(&[(0, 0x03), (1, 0x05), (0xF, 1)]);
    cpu.latch(0x8015);
    cpu.subVyFromVx();
    assert_eq!(cpu.register(0), Ok(0xFE));
    assert_eq!(cpu.register(0xF), Ok(0));
}

#[test]
fn subtract_equal_values_has_no_borrow() {
    let mut cpu = machine_with_registers(&[(0, 0x2A), (1, 0x2A)]);
    cpu.latch(0x8015);
    cpu.subVyFromVx();
    assert_eq!(cpu.register(0), Ok(0x00));
    assert_eq!(cpu.register(0xF), Ok(1));
}

#[test]
fn reverse_subtract_takes_vx_from_vy() {
    let mut cpu = machine_with_registers(&[(0, 0x03), (1, 0x05)]);
    cpu.latch(0x8017);
    cpu.setVxToVyMinusVx();
    assert_eq!(cpu.register(0), Ok(0x02));
    assert_eq!(cpu.register(1), Ok(0x05));
    assert_eq!(cpu.register(0xF), Ok(1));
    let mut cpu = machine_with_registers(&[(0, 0x05), (1, 0x03)]);
    cpu.latch(0x8017);
    cpu.setVxToVyMinusVx();
    assert_eq!(cpu.register(0), Ok(0xFE));
    assert_eq!(cpu.register(0xF), Ok(0));
}

#[test]
fn shift_right_moves_the_low_bit_into_the_flag() {
    let mut cpu = machine_with_registers(&[(4, 0b0000_0101)]);
    cpu.latch(0x8406);
    cpu.shiftVxRight();
    assert_eq!(cpu.register(4), Ok(0b0000_0010));
    assert_eq!(cpu.register(0xF), Ok(1));
    cpu.shiftVxRight();
    assert_eq!(cpu.register(4), Ok(0b0000_0001));
    assert_eq!(cpu.register(0xF), Ok(0));
}

#[test]
fn shift_left_moves_the_high_bit_into_the_flag() {
    let mut cpu = machine_with_registers(&[(4, 0b1100_0001)]);
    cpu.latch(0x840E);
    cpu.shiftVxLeft();
    assert_eq!(cpu.register(4), Ok(0b1000_0010));
    assert_eq!(cpu.register(0xF), Ok(1));
    cpu.set_register(4, 0b0100_0001).unwrap();
    cpu.shiftVxLeft();
    assert_eq!(cpu.register(4), Ok(0b1000_0010));
    assert_eq!(cpu.register(0xF), Ok(0));
}

#[test]
fn shift_of_the_flag_register_keeps_the_flag() {
    let mut cpu = machine_with_registers(&[(0xF, 0b1000_0001)]);
    cpu.latch(0x8F0E);
    cpu.shiftVxLeft();
    assert_eq!(cpu.register(0xF), Ok(1));
    cpu.set_register(0xF, 0b0000_0110).unwrap();
    cpu.latch(0x8F06);
    cpu.shiftVxRight();
    assert_eq!(cpu.register(0xF), Ok(0));
}

#[test]
fn random_byte_is_masked_by_the_immediate() {
    let mut cpu = Cpu::new();
    cpu.latch(0xC50F);
    cpu.setVxToRandAndNN(0xC50F, 0xAB);
    assert_eq!(cpu.register(5), Ok(0x0B));
    cpu.setVxToRandAndNN(0xC5F0, 0xAB);
    assert_eq!(cpu.register(5), Ok(0xA0));
    cpu.setVxToRandAndNN(0xC500, 0xFF);
    assert_eq!(cpu.register(5), Ok(0x00));
}

#[test]
fn random_instruction_respects_the_mask() {
    for _ in 0..64 {
        let mut cpu = Cpu::new();
        assert_eq!(cpu.cycle(0xC30F), Ok(()));
        assert_eq!(cpu.register(3).unwrap() & 0xF0, 0);
        assert_eq!(cpu.cycle(0xC400), Ok(()));
        assert_eq!(cpu.register(4), Ok(0));
        assert_eq!(cpu.pc(), 0x204);
    }
}

#[test]
fn register_index_out_of_range_is_refused() {
    let mut cpu = Cpu::new();
    assert_eq!(cpu.register(16), Err(rhip8::Fault::InvalidIndex { index: 16 }));
    assert_eq!(cpu.set_register(16, 1), Err(rhip8::Fault::InvalidIndex { index: 16 }));
    for index in 0..16 {
        assert_eq!(cpu.register(index), Ok(0));
    }
}
