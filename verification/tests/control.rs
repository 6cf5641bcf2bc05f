use rhip8::{Cpu, Fault, Mode};

#[test]
fn machine_starts_at_the_program_area() {
    let cpu = Cpu::new();
    assert_eq!(cpu.pc(), 0x200);
    assert_eq!(cpu.sp(), 0);
    assert_eq!(cpu.index(), 0);
    assert_eq!(cpu.mode(), Mode::Running);
}

#[test]
fn jump_sets_the_program_counter() {
    let mut cpu = Cpu::new();
    assert_eq!(cpu.cycle(0x1ABC), Ok(()));
    assert_eq!(cpu.pc(), 0xABC);
    assert_eq!(cpu.sp(), 0);
}

#[test]
fn jump_offset_adds_register_zero() {
    let mut cpu = Cpu::new();
    cpu.set_register(0, 0x10).unwrap();
    assert_eq!(cpu.cycle(0xB300), Ok(()));
    assert_eq!(cpu.pc(), 0x310);
    assert_eq!(cpu.index(), 0);
}

#[test]
fn call_then_return_comes_back_after_the_call() {
    let mut cpu = Cpu::new();
    assert_eq!(cpu.cycle(0x2400), Ok(()));
    assert_eq!(cpu.pc(), 0x400);
    assert_eq!(cpu.sp(), 1);
    assert_eq!(cpu.return_address(0), Some(0x202));
    assert_eq!(cpu.cycle(0x00EE), Ok(()));
    assert_eq!(cpu.pc(), 0x202);
    assert_eq!(cpu.sp(), 0);
    assert_eq!(cpu.return_address(0), None);
}

#[test]
fn nested_calls_unwind_in_reverse_order() {
    let mut cpu = Cpu::new();
    let mut expected: Vec<usize> = Vec::new();
    for depth in 0..16usize {
        expected.push(cpu.pc() + 2);
        let target = 0x300 + 0x10 * depth as u16;
        assert_eq!(cpu.cycle(0x2000 | target), Ok(()));
        assert_eq!(cpu.pc(), target as usize);
        assert_eq!(cpu.sp(), depth + 1);
    }
    for depth in (0..16usize).rev() {
        assert_eq!(cpu.cycle(0x00EE), Ok(()));
        assert_eq!(cpu.pc(), expected[depth]);
        assert_eq!(cpu.sp(), depth);
    }
    assert_eq!(cpu.mode(), Mode::Running);
}

#[test]
fn call_beyond_capacity_overflows_and_keeps_the_stack() {
    let mut cpu = Cpu::new();
    for depth in 0..16u16 {
        assert_eq!(cpu.cycle(0x2300 + 2 * depth), Ok(()));
    }
    let stack: Vec<Option<u16>> = (0..17).map(|slot| cpu.return_address(slot)).collect();
    let at = cpu.pc();
    assert_eq!(cpu.cycle(0x2500), Err(Fault::StackOverflow));
    assert_eq!(cpu.mode(), Mode::Halted { fault: Fault::StackOverflow, at });
    assert_eq!(cpu.sp(), 16);
    let after: Vec<Option<u16>> = (0..17).map(|slot| cpu.return_address(slot)).collect();
    assert_eq!(after, stack);
    assert_eq!(stack[0], Some(0x202));
    assert_eq!(stack[15], Some(0x300 + 2 * 14 + 2));
    assert_eq!(stack[16], None);
}

#[test]
fn call_handler_refuses_without_change() {
    let mut cpu = Cpu::new();
    for _ in 0..16 {
        assert_eq!(cpu.callNNN(0x2300), Ok(()));
    }
    assert_eq!(cpu.callNNN(0x2400), Err(Fault::StackOverflow));
    assert_eq!(cpu.pc(), 0x300);
    assert_eq!(cpu.sp(), 16);
    assert_eq!(cpu.mode(), Mode::Running);
}

#[test]
fn return_on_an_empty_stack_underflows() {
    let mut cpu = Cpu::new();
    assert_eq!(cpu.cycle(0x00EE), Err(Fault::StackUnderflow));
    assert_eq!(cpu.mode(), Mode::Halted { fault: Fault::StackUnderflow, at: 0x200 });
    assert_eq!(cpu.sp(), 0);
}

#[test]
fn return_handler_refuses_without_change() {
    let mut cpu = Cpu::new();
    assert_eq!(cpu.pcReturn(), Err(Fault::StackUnderflow));
    assert_eq!(cpu.pc(), 0x200);
    assert_eq!(cpu.sp(), 0);
    assert_eq!(cpu.mode(), Mode::Running);
}

#[test]
fn halted_machine_stays_halted() {
    let mut cpu = Cpu::new();
    assert_eq!(cpu.cycle(0x00EE), Err(Fault::StackUnderflow));
    let pc = cpu.pc();
    assert_eq!(cpu.cycle(0x6005), Err(Fault::StackUnderflow));
    assert_eq!(cpu.step(), Err(Fault::StackUnderflow));
    assert_eq!(cpu.pc(), pc);
    assert_eq!(cpu.register(0), Ok(0));
    assert_eq!(cpu.mode(), Mode::Halted { fault: Fault::StackUnderflow, at: 0x200 });
}

#[test]
fn skip_if_equal_immediate() {
    let mut cpu = Cpu::new();
    cpu.set_register(2, 0x33).unwrap();
    assert_eq!(cpu.cycle(0x3233), Ok(()));
    assert_eq!(cpu.pc(), 0x204);
    assert_eq!(cpu.cycle(0x3234), Ok(()));
    assert_eq!(cpu.pc(), 0x206);
}

#[test]
fn skip_if_not_equal_immediate() {
    let mut cpu = Cpu::new();
    cpu.set_register(2, 0x33).unwrap();
    assert_eq!(cpu.cycle(0x4233), Ok(()));
    assert_eq!(cpu.pc(), 0x202);
    assert_eq!(cpu.cycle(0x4234), Ok(()));
    assert_eq!(cpu.pc(), 0x206);
}

#[test]
fn skip_if_registers_equal() {
    let mut cpu = Cpu::new();
    cpu.set_register(1, 7).unwrap();
    cpu.set_register(2, 7).unwrap();
    cpu.set_register(3, 8).unwrap();
    assert_eq!(cpu.cycle(0x5120), Ok(()));
    assert_eq!(cpu.pc(), 0x204);
    assert_eq!(cpu.cycle(0x5130), Ok(()));
    assert_eq!(cpu.pc(), 0x206);
}

#[test]
fn skip_if_registers_differ() {
    let mut cpu = Cpu::new();
    cpu.set_register(1, 7).unwrap();
    cpu.set_register(2, 7).unwrap();
    cpu.set_register(3, 8).unwrap();
    assert_eq!(cpu.cycle(0x9120), Ok(()));
    assert_eq!(cpu.pc(), 0x202);
    assert_eq!(cpu.cycle(0x9130), Ok(()));
    assert_eq!(cpu.pc(), 0x206);
}

#[test]
fn skip_if_key_down_and_up() {
    let mut cpu = Cpu::new();
    cpu.set_register(4, 0xA).unwrap();
    assert_eq!(cpu.cycle(0xE49E), Ok(()));
    assert_eq!(cpu.pc(), 0x202);
    assert_eq!(cpu.cycle(0xE4A1), Ok(()));
    assert_eq!(cpu.pc(), 0x206);
    cpu.key_down(0xA).unwrap();
    assert_eq!(cpu.cycle(0xE49E), Ok(()));
    assert_eq!(cpu.pc(), 0x20A);
    assert_eq!(cpu.cycle(0xE4A1), Ok(()));
    assert_eq!(cpu.pc(), 0x20C);
    cpu.key_up(0xA).unwrap();
    assert_eq!(cpu.cycle(0xE49E), Ok(()));
    assert_eq!(cpu.pc(), 0x20E);
}

#[test]
fn key_skips_use_the_low_nibble_of_the_register() {
    let mut cpu = Cpu::new();
    cpu.set_register(4, 0xF3).unwrap();
    cpu.key_down(3).unwrap();
    assert_eq!(cpu.cycle(0xE49E), Ok(()));
    assert_eq!(cpu.pc(), 0x204);
}

#[test]
fn skip_handlers_move_by_two_or_not_at_all() {
    let mut cpu = Cpu::new();
    cpu.set_register(1, 9).unwrap();
    cpu.latch(0x3109);
    cpu.skipPCIfVxIsNN(0x3109);
    assert_eq!(cpu.pc(), 0x202);
    cpu.skipPCIfVxIsNN(0x3108);
    assert_eq!(cpu.pc(), 0x202);
    cpu.skipPCIfVxIsNotNN(0x4108);
    assert_eq!(cpu.pc(), 0x204);
    cpu.latch(0x5110);
    cpu.skipPCIfVxIsVy(0x5110);
    assert_eq!(cpu.pc(), 0x206);
    cpu.skipPCIfVxIsNotVy();
    assert_eq!(cpu.pc(), 0x206);
    cpu.skipPCIfKeyVxIsUp();
    assert_eq!(cpu.pc(), 0x208);
    cpu.skipPCIfKeyVxIsDown();
    assert_eq!(cpu.pc(), 0x208);
}

#[test]
fn unknown_opcode_is_reported_and_skipped() {
    let mut cpu = Cpu::new();
    for (k, opcode) in [0x0000u16, 0x0123, 0x8008, 0xE000, 0xF0FF, 0x812F].iter().enumerate() {
        assert_eq!(cpu.cycle(*opcode), Err(Fault::UnknownOpcode));
        assert_eq!(cpu.mode(), Mode::Running);
        assert_eq!(cpu.pc(), 0x202 + 2 * k);
    }
    for index in 0..16 {
        assert_eq!(cpu.register(index), Ok(0));
    }
}

#[test]
fn bad_opcode_handler_reports_the_diagnostic() {
    let cpu = Cpu::new();
    assert_eq!(cpu.badOpcode(), Err(Fault::UnknownOpcode));
    assert_eq!(cpu.pc(), 0x200);
}

#[test]
fn cycle_with_the_program_counter_at_the_last_byte_halts() {
    let mut cpu = Cpu::new();
    assert_eq!(cpu.cycle(0x1FFF), Ok(()));
    assert_eq!(cpu.cycle(0x6001), Err(Fault::MemoryFault { address: 4096 }));
    assert_eq!(cpu.mode(), Mode::Halted { fault: Fault::MemoryFault { address: 4096 }, at: 0xFFF });
    assert_eq!(cpu.pc(), 0xFFF);
    assert_eq!(cpu.register(0), Ok(0));
}

#[test]
fn cycle_at_the_last_instruction_slot_runs() {
    let mut cpu = Cpu::new();
    assert_eq!(cpu.cycle(0x1FFE), Ok(()));
    assert_eq!(cpu.cycle(0x6001), Ok(()));
    assert_eq!(cpu.pc(), 0x1000);
    assert_eq!(cpu.register(0), Ok(1));
    assert_eq!(cpu.step(), Err(Fault::MemoryFault { address: 0x1000 }));
    assert_eq!(cpu.mode(), Mode::Halted { fault: Fault::MemoryFault { address: 0x1000 }, at: 0x1000 });
}

#[test]
fn jump_offset_past_memory_faults_at_the_next_fetch() {
    let mut cpu = Cpu::new();
    cpu.set_register(0, 0xFF).unwrap();
    assert_eq!(cpu.cycle(0xBFFF), Ok(()));
    assert_eq!(cpu.pc(), 0x10FE);
    assert_eq!(cpu.fetch(), Err(Fault::MemoryFault { address: 0x10FE }));
    assert_eq!(cpu.step(), Err(Fault::MemoryFault { address: 0x10FE }));
    assert_eq!(cpu.mode(), Mode::Halted { fault: Fault::MemoryFault { address: 0x10FE }, at: 0x10FE });
}
