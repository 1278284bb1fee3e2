use ember_emulator::alu::ALUSettings;
use ember_emulator::errors::InvalidOpcode;
use ember_emulator::instructions::{
    decode, Condition, Instruction, LoadAddressingMode, MoreSpecificInstructionOpcode, OffsetConfig,
    OperationSourceMode, OperationType, StoreAddressingMode,
};

fn no_settings() -> ALUSettings {
    ALUSettings { invert_a: false, invert_b: false, flood_carry: false, carry_in: false, or_mode: false }
}

#[test]
fn decode_zero_word_is_plain_operation() {
    assert_eq!(
        decode(0x0000),
        Ok(Instruction::Operation {
            a_register: 0,
            destination_register: 0,
            operation_type: OperationType::ALU(no_settings()),
            source_mode: OperationSourceMode::Immediate,
            is_8bit: false,
        })
    );
}

#[test]
fn decode_reserved_family_five() {
    let e = decode(0x5000).unwrap_err();
    assert_eq!(e.opcode(), 0b0101);
    assert_eq!(e, InvalidOpcode { opcode: 5 });
}

#[test]
fn every_word_classifies_by_family() {
    for w in 0..=u16::MAX {
        let family = w >> 12;
        let reserved = family == 5 || (8..=14).contains(&family);
        match decode(w) {
            Ok(instr) => {
                assert!(!reserved, "word {:#06x}", w);
                let ok = match instr {
                    Instruction::Operation { destination_register, .. } => {
                        family == 0 || (family == 1 && destination_register == 0)
                    }
                    Instruction::Load { .. } => family == 2,
                    Instruction::Store { .. } => family == 3,
                    Instruction::Jump { .. } => family == 4,
                    Instruction::StackRead { .. } => family == 6,
                    Instruction::StackWrite { .. } => family == 7,
                    Instruction::MoreSpecific(_) => family == 15,
                };
                assert!(ok, "word {:#06x}", w);
            }
            Err(e) => {
                assert!(reserved, "word {:#06x}", w);
                assert_eq!(e.opcode(), family);
            }
        }
    }
}

#[test]
fn exactly_seven_families_are_reserved() {
    let mut reserved = Vec::new();
    for family in 0u16..16 {
        if decode(family << 12).is_err() {
            reserved.push(family);
        }
    }
    assert_eq!(reserved, vec![0b0101u16, 0b1000, 0b1001, 0b1010, 0b1011, 0b1100, 0b1101, 0b1110]);
}

#[test]
fn decode_operation_fields() {
    // family 0, register 2, memory big-endian, settings 10110, ALU, 8-bit
    let w: u16 = (0b10 << 10) | (0b11 << 8) | (0b10110 << 3) | (1 << 2);
    assert_eq!(
        decode(w),
        Ok(Instruction::Operation {
            a_register: 2,
            destination_register: 2,
            operation_type: OperationType::ALU(ALUSettings {
                invert_a: true,
                invert_b: false,
                flood_carry: true,
                carry_in: true,
                or_mode: false,
            }),
            source_mode: OperationSourceMode::Memory { is_big_endian: true },
            is_8bit: true,
        })
    );
}

#[test]
fn decode_comparison_discards_result() {
    let w: u16 = 0x1000 | (0b11 << 10) | (0b01 << 8) | (0b00001 << 3);
    assert_eq!(
        decode(w),
        Ok(Instruction::Operation {
            a_register: 3,
            destination_register: 0,
            operation_type: OperationType::ALU(ALUSettings { or_mode: true, ..no_settings() }),
            source_mode: OperationSourceMode::Register,
            is_8bit: false,
        })
    );
}

#[test]
fn decode_operation_of_another_unit() {
    let w: u16 = 0x0002 | (0b10 << 8);
    match decode(w) {
        Ok(Instruction::Operation { operation_type, source_mode, .. }) => {
            assert_eq!(operation_type, OperationType::UnspecifiedUnit);
            assert_eq!(source_mode, OperationSourceMode::Memory { is_big_endian: false });
        }
        other => panic!("unexpected {:?}", other),
    }
}

#[test]
fn decode_load_fields() {
    let w: u16 = 0x2000 | (0b01 << 10) | (0b10 << 8) | (0b11 << 6) | (1 << 5) | (0b101 << 1);
    assert_eq!(
        decode(w),
        Ok(Instruction::Load {
            destination_register: 1,
            offset_config: OffsetConfig { register: 2, shift_amount: 5 },
            addressing_mode: LoadAddressingMode::AddressRegister,
            is_big_endian: true,
            is_8bit: false,
        })
    );
    let w2: u16 = 0x2000 | (0b01 << 6) | (1 << 4);
    match decode(w2) {
        Ok(Instruction::Load { addressing_mode, is_8bit, is_big_endian, .. }) => {
            assert_eq!(addressing_mode, LoadAddressingMode::DirectAddress);
            assert!(is_8bit);
            assert!(!is_big_endian);
        }
        other => panic!("unexpected {:?}", other),
    }
}

#[test]
fn decode_store_fields() {
    let w: u16 = 0x3000 | (0b11 << 10) | (0b01 << 8) | (1 << 7) | (1 << 4) | (0b011 << 1);
    assert_eq!(
        decode(w),
        Ok(Instruction::Store {
            source_register: 3,
            offset_config: OffsetConfig { register: 1, shift_amount: 3 },
            addressing_mode: StoreAddressingMode::AddressRegister,
            is_big_endian: false,
            is_8bit: true,
        })
    );
}

#[test]
fn decode_jump_fields() {
    let w: u16 = 0x4000 | (0b10 << 10) | (0b110 << 5) | (1 << 4) | (0b11 << 2) | (1 << 1);
    assert_eq!(
        decode(w),
        Ok(Instruction::Jump {
            offset_config: OffsetConfig { register: 2, shift_amount: 6 },
            condition: Condition { flag: 3, inverted: true },
            is_subroutine_call: true,
        })
    );
}

#[test]
fn decode_stack_read_multiplies_shift_field() {
    // the shift field of a stack read is the word shifted right by five, times seven
    let w: u16 = 0x6000 | (0b01 << 10) | (0b11 << 8) | (0b010 << 5) | (0b011 << 2) | 0b10;
    assert_eq!(
        decode(w),
        Ok(Instruction::StackRead {
            destination_register: 1,
            offset_config: OffsetConfig { register: 3, shift_amount: (w >> 5) * 7 },
            stack_pointer_change: 0b10 << 3,
        })
    );
    assert_eq!((w >> 5) * 7, 0x33a * 7);
}

#[test]
fn decode_stack_write_fields() {
    let w: u16 = 0x7000 | (0b10 << 8) | (0b111 << 5) | (0b111 << 2) | 0b11;
    assert_eq!(
        decode(w),
        Ok(Instruction::StackWrite {
            source_register: 0,
            offset_config: OffsetConfig { register: 2, shift_amount: 7 },
            stack_pointer_change: 0b11 << 7,
        })
    );
}

#[test]
fn decode_more_specific_keeps_low_bits() {
    assert_eq!(decode(0xFABC), Ok(Instruction::MoreSpecific(MoreSpecificInstructionOpcode(0xABC))));
    assert_eq!(MoreSpecificInstructionOpcode::from(0xF123).opcode(), 0x123);
}

#[test]
fn try_from_agrees_with_decode() {
    for w in [0x0000u16, 0x1234, 0x5000, 0x6fff, 0x9abc, 0xffff] {
        assert_eq!(Instruction::try_from(w), decode(w));
    }
}

#[test]
fn invalid_opcode_from_word_keeps_family() {
    assert_eq!(InvalidOpcode::from(0xE123).opcode(), 0xE);
    assert_eq!(InvalidOpcode::from(0x8000).opcode(), 0x8);
}

#[test]
fn settings_from_byte_ignores_high_bits() {
    assert_eq!(
        ALUSettings::from(0b1110_1001u8),
        ALUSettings { invert_a: false, invert_b: true, flood_carry: false, carry_in: false, or_mode: true }
    );
    assert_eq!(
        ALUSettings::from(0b0001_0110u8),
        ALUSettings { invert_a: true, invert_b: false, flood_carry: true, carry_in: true, or_mode: false }
    );
}
