use rhip8::{Instruction, Operation};

#[test]
fn fields_are_the_nibbles_of_the_word() {
    let ins = Instruction::decode(0xD12F);
    assert_eq!(ins.class, 0xD);
    assert_eq!(ins.x, 0x1);
    assert_eq!(ins.y, 0x2);
    assert_eq!(ins.n, 0xF);
    assert_eq!(ins.nn, 0x2F);
    assert_eq!(ins.nnn, 0x12F);
}

#[test]
fn fields_of_the_extreme_words() {
    let zero = Instruction::decode(0x0000);
    assert_eq!(zero, Instruction { class: 0, x: 0, y: 0, n: 0, nn: 0, nnn: 0 });
    let ones = Instruction::decode(0xFFFF);
    assert_eq!(ones, Instruction { class: 0xF, x: 0xF, y: 0xF, n: 0xF, nn: 0xFF, nnn: 0xFFF });
}

#[test]
fn decoding_twice_gives_the_same_fields() {
    let mut word: u32 = 0;
    while word <= 0xFFFF {
        let first = Instruction::decode(word as u16);
        let second = Instruction::decode(word as u16);
        assert_eq!(first, second);
        word += 0x101;
    }
}

#[test]
fn every_word_recomposes_from_its_fields() {
    let mut word: u32 = 0;
    while word <= 0xFFFF {
        let ins = Instruction::decode(word as u16);
        assert_eq!(ins.class as u32, word >> 12);
        assert_eq!((ins.class as u32) * 4096 + ins.nnn as u32, word);
        assert_eq!(ins.nnn, ins.x * 256 + ins.nn as usize);
        assert_eq!(ins.nn as usize, ins.y * 16 + ins.n as usize);
        word += 1;
    }
}

#[test]
fn classes_without_second_level() {
    assert_eq!(Instruction::decode(0x1ABC).classify(), Operation::Jump);
    assert_eq!(Instruction::decode(0x2ABC).classify(), Operation::Call);
    assert_eq!(Instruction::decode(0x3A12).classify(), Operation::SkipIfEqualImmediate);
    assert_eq!(Instruction::decode(0x4A12).classify(), Operation::SkipIfNotEqualImmediate);
    assert_eq!(Instruction::decode(0x5AB0).classify(), Operation::SkipIfEqualRegister);
    assert_eq!(Instruction::decode(0x6A12).classify(), Operation::LoadImmediate);
    assert_eq!(Instruction::decode(0x7A12).classify(), Operation::AddImmediate);
    assert_eq!(Instruction::decode(0x9AB0).classify(), Operation::SkipIfNotEqualRegister);
    assert_eq!(Instruction::decode(0xA123).classify(), Operation::LoadIndex);
    assert_eq!(Instruction::decode(0xB123).classify(), Operation::JumpOffset);
    assert_eq!(Instruction::decode(0xC1FF).classify(), Operation::Random);
    assert_eq!(Instruction::decode(0xD125).classify(), Operation::Draw);
}

#[test]
fn register_skips_ignore_the_low_nibble() {
    assert_eq!(Instruction::decode(0x5AB7).classify(), Operation::SkipIfEqualRegister);
    assert_eq!(Instruction::decode(0x9ABF).classify(), Operation::SkipIfNotEqualRegister);
}

#[test]
fn class_zero_looks_at_the_whole_word() {
    assert_eq!(Instruction::decode(0x00E0).classify(), Operation::ClearScreen);
    assert_eq!(Instruction::decode(0x00EE).classify(), Operation::Return);
    assert_eq!(Instruction::decode(0x0000).classify(), Operation::Unknown);
    assert_eq!(Instruction::decode(0x01E0).classify(), Operation::Unknown);
    assert_eq!(Instruction::decode(0x0123).classify(), Operation::Unknown);
    assert_eq!(Instruction::decode(0x00E1).classify(), Operation::Unknown);
}

#[test]
fn class_eight_looks_at_the_low_nibble() {
    assert_eq!(Instruction::decode(0x8120).classify(), Operation::Copy);
    assert_eq!(Instruction::decode(0x8121).classify(), Operation::Or);
    assert_eq!(Instruction::decode(0x8122).classify(), Operation::And);
    assert_eq!(Instruction::decode(0x8123).classify(), Operation::Xor);
    assert_eq!(Instruction::decode(0x8124).classify(), Operation::AddRegister);
    assert_eq!(Instruction::decode(0x8125).classify(), Operation::SubtractRegister);
    assert_eq!(Instruction::decode(0x8126).classify(), Operation::ShiftRight);
    assert_eq!(Instruction::decode(0x8127).classify(), Operation::SubtractFromRegister);
    assert_eq!(Instruction::decode(0x812E).classify(), Operation::ShiftLeft);
    for n in [0x8u16, 0x9, 0xA, 0xB, 0xC, 0xD, 0xF] {
        assert_eq!(Instruction::decode(0x8120 | n).classify(), Operation::Unknown);
    }
}

#[test]
fn classes_e_and_f_look_at_the_low_byte() {
    assert_eq!(Instruction::decode(0xE39E).classify(), Operation::SkipIfKeyDown);
    assert_eq!(Instruction::decode(0xE3A1).classify(), Operation::SkipIfKeyUp);
    assert_eq!(Instruction::decode(0xE300).classify(), Operation::Unknown);
    assert_eq!(Instruction::decode(0xF307).classify(), Operation::ReadDelayTimer);
    assert_eq!(Instruction::decode(0xF30A).classify(), Operation::WaitForKey);
    assert_eq!(Instruction::decode(0xF315).classify(), Operation::SetDelayTimer);
    assert_eq!(Instruction::decode(0xF318).classify(), Operation::SetSoundTimer);
    assert_eq!(Instruction::decode(0xF31E).classify(), Operation::AddToIndex);
    assert_eq!(Instruction::decode(0xF329).classify(), Operation::FontGlyph);
    assert_eq!(Instruction::decode(0xF333).classify(), Operation::StoreDecimal);
    assert_eq!(Instruction::decode(0xF355).classify(), Operation::StoreRegisters);
    assert_eq!(Instruction::decode(0xF365).classify(), Operation::LoadRegisters);
    assert_eq!(Instruction::decode(0xF3FF).classify(), Operation::Unknown);
    assert_eq!(Instruction::decode(0xF300).classify(), Operation::Unknown);
}

#[test]
fn thirty_four_operations_are_reachable() {
    let mut seen: Vec<Operation> = Vec::new();
    let mut word: u32 = 0;
    while word <= 0xFFFF {
        let op = Instruction::decode(word as u16).classify();
        if !seen.contains(&op) {
            seen.push(op);
        }
        word += 1;
    }
    assert_eq!(seen.len(), 35);
    assert!(seen.contains(&Operation::Unknown));
}
