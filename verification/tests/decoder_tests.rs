use chip8::instructions::{Instruction, InvalidInstructionError};

fn decode(word: u16) -> Result<Instruction, InvalidInstructionError> {
    Instruction::try_from(word)
}

#[test]
fn decodes_display_and_flow_words() {
    assert_eq!(decode(0x00E0), Ok(Instruction::ClearDisplay));
    assert_eq!(decode(0x00EE), Ok(Instruction::Return));
    assert_eq!(decode(0x1234), Ok(Instruction::Jump(0x234)));
    assert_eq!(decode(0x1FFF), Ok(Instruction::Jump(0xFFF)));
    assert_eq!(decode(0x2ABC), Ok(Instruction::Call(0xABC)));
    assert_eq!(decode(0xB123), Ok(Instruction::JumpPlusV0(0x123)));
}

#[test]
fn decodes_skip_words() {
    assert_eq!(decode(0x3A42), Ok(Instruction::SkipIfEqual(0xA, 0x42)));
    assert_eq!(decode(0x4B00), Ok(Instruction::SkipIfNotEqual(0xB, 0x00)));
    assert_eq!(decode(0x5120), Ok(Instruction::SkipIfRegistersEqual(1, 2)));
    assert_eq!(decode(0x9EF0), Ok(Instruction::SkipIfRegistersNotEqual(0xE, 0xF)));
    assert_eq!(decode(0xE19E), Ok(Instruction::SkipIfKeyPressed(1)));
    assert_eq!(decode(0xECA1), Ok(Instruction::SkipIfKeyNotPressed(0xC)));
}

#[test]
fn decodes_immediate_words() {
    assert_eq!(decode(0x6AFF), Ok(Instruction::SetRegister(0xA, 0xFF)));
    assert_eq!(decode(0x7001), Ok(Instruction::Add(0, 1)));
    assert_eq!(decode(0xA2F0), Ok(Instruction::SetI(0x2F0)));
    assert_eq!(decode(0xC70F), Ok(Instruction::RandomByte(7, 0x0F)));
    assert_eq!(decode(0xD125), Ok(Instruction::Draw(1, 2, 5)));
    assert_eq!(decode(0xDFF0), Ok(Instruction::Draw(0xF, 0xF, 0)));
}

#[test]
fn decodes_register_arithmetic_by_the_last_nibble() {
    assert_eq!(decode(0x8120), Ok(Instruction::CopyRegister(1, 2)));
    assert_eq!(decode(0x8121), Ok(Instruction::Or(1, 2)));
    assert_eq!(decode(0x8122), Ok(Instruction::And(1, 2)));
    assert_eq!(decode(0x8123), Ok(Instruction::Xor(1, 2)));
    assert_eq!(decode(0x8124), Ok(Instruction::AddRegisters(1, 2)));
    assert_eq!(decode(0x8125), Ok(Instruction::Subtract(1, 2)));
    assert_eq!(decode(0x8126), Ok(Instruction::ShiftRight(1)));
    assert_eq!(decode(0x8127), Ok(Instruction::ReverseSubtract(1, 2)));
    assert_eq!(decode(0x812E), Ok(Instruction::ShiftLeft(1)));
}

#[test]
fn shifts_ignore_the_second_register() {
    for y in 0u16..16 {
        assert_eq!(decode(0x8A06 | (y << 4)), Ok(Instruction::ShiftRight(0xA)));
        assert_eq!(decode(0x8A0E | (y << 4)), Ok(Instruction::ShiftLeft(0xA)));
    }
}

#[test]
fn decodes_timer_memory_and_input_words() {
    assert_eq!(decode(0xF307), Ok(Instruction::SetRegisterToDelayTimer(3)));
    assert_eq!(decode(0xF30A), Ok(Instruction::StoreInput(3)));
    assert_eq!(decode(0xF315), Ok(Instruction::SetDelayTimer(3)));
    assert_eq!(decode(0xF318), Ok(Instruction::SetSoundTimer(3)));
    assert_eq!(decode(0xF31E), Ok(Instruction::AddToI(3)));
    assert_eq!(decode(0xF329), Ok(Instruction::SetIToSpriteLocation(3)));
    assert_eq!(decode(0xF333), Ok(Instruction::StoreBinaryCodedDecimal(3)));
    assert_eq!(decode(0xF355), Ok(Instruction::StoreRegisters(3)));
    assert_eq!(decode(0xF365), Ok(Instruction::LoadRegisters(3)));
}

#[test]
fn refuses_words_without_an_operation() {
    for word in [
        0x0000u16, 0x00E1, 0x00EF, 0x0123, 0x0FFF, 0x5121, 0x512F, 0x8128, 0x812D, 0x812F,
        0x9121, 0xE19F, 0xE1A0, 0xE000, 0xF300, 0xF308, 0xF3FF, 0xF356, 0xFFFF,
    ] {
        assert_eq!(decode(word), Err(InvalidInstructionError(word)));
    }
}

#[test]
fn error_carries_the_word() {
    match decode(0x5AB7) {
        Err(InvalidInstructionError(word)) => assert_eq!(word, 0x5AB7),
        Ok(instruction) => panic!("decoded {:?}", instruction),
    }
}

#[test]
fn decoding_is_total_and_repeatable() {
    for word in 0u16..=0xFFFF {
        let first = decode(word);
        let second = decode(word);
        assert_eq!(first, second);
        if let Err(InvalidInstructionError(carried)) = first {
            assert_eq!(carried, word);
        }
    }
}

#[test]
fn families_with_one_operation_accept_every_word() {
    for low in 0u16..=0x0FFF {
        assert_eq!(decode(0x1000 | low), Ok(Instruction::Jump(low)));
        assert_eq!(decode(0x2000 | low), Ok(Instruction::Call(low)));
        assert_eq!(decode(0xA000 | low), Ok(Instruction::SetI(low)));
        assert_eq!(decode(0xB000 | low), Ok(Instruction::JumpPlusV0(low)));
        let x = (low >> 8) as u8;
        let kk = (low & 0xFF) as u8;
        assert_eq!(decode(0x3000 | low), Ok(Instruction::SkipIfEqual(x, kk)));
        assert_eq!(decode(0x4000 | low), Ok(Instruction::SkipIfNotEqual(x, kk)));
        assert_eq!(decode(0x6000 | low), Ok(Instruction::SetRegister(x, kk)));
        assert_eq!(decode(0x7000 | low), Ok(Instruction::Add(x, kk)));
        assert_eq!(decode(0xC000 | low), Ok(Instruction::RandomByte(x, kk)));
        let y = ((low >> 4) & 0xF) as u8;
        let n = (low & 0xF) as u8;
        assert_eq!(decode(0xD000 | low), Ok(Instruction::Draw(x, y, n)));
    }
}

#[test]
fn counts_of_valid_words_per_family() {
    let mut valid = [0u32; 16];
    for word in 0u16..=0xFFFF {
        if decode(word).is_ok() {
            valid[(word >> 12) as usize] += 1;
        }
    }
    assert_eq!(valid[0x0], 2);
    assert_eq!(valid[0x5], 256);
    assert_eq!(valid[0x8], 9 * 256);
    assert_eq!(valid[0x9], 256);
    assert_eq!(valid[0xE], 2 * 16);
    assert_eq!(valid[0xF], 9 * 16);
    for family in [0x1, 0x2, 0x3, 0x4, 0x6, 0x7, 0xA, 0xB, 0xC, 0xD] {
        assert_eq!(valid[family], 4096);
    }
}
