use crate::alu::{settings_of, ALUSettings};
use crate::errors::{family_of, InvalidOpcode};
use vstd::prelude::*;

verus! {

/// A decoded instruction, one variant per instruction family.
#[derive(Debug, Clone, Copy, PartialEq, Eq, Structural)]
pub enum Instruction {
    Operation {
        a_register: usize,
        destination_register: usize,
        operation_type: OperationType,
        source_mode: OperationSourceMode,
        is_8bit: bool,
    },
    Load {
        destination_register: usize,
        offset_config: OffsetConfig,
        addressing_mode: LoadAddressingMode,
        is_big_endian: bool,
        is_8bit: bool,
    },
    Store {
        source_register: usize,
        offset_config: OffsetConfig,
        addressing_mode: StoreAddressingMode,
        is_big_endian: bool,
        is_8bit: bool,
    },
    Jump { offset_config: OffsetConfig, condition: Condition, is_subroutine_call: bool },
    StackRead { destination_register: usize, offset_config: OffsetConfig, stack_pointer_change: u16 },
    StackWrite { source_register: usize, offset_config: OffsetConfig, stack_pointer_change: u16 },
    MoreSpecific(MoreSpecificInstructionOpcode),
}

/// Where the second operand of an operation comes from.
#[derive(Debug, Clone, Copy, PartialEq, Eq, Structural)]
pub enum OperationSourceMode {
    Immediate,
    Register,
    Memory { is_big_endian: bool },
}

/// The unit that carries out an operation. Only the ALU is defined; a word
/// that selects another unit decodes to `UnspecifiedUnit`.
#[derive(Debug, Clone, Copy, PartialEq, Eq, Structural)]
pub enum OperationType {
    ALU(ALUSettings),
    UnspecifiedUnit,
}

/// A base register and a shift amount for address computation.
#[derive(Debug, Clone, Copy, PartialEq, Eq, Structural)]
pub struct OffsetConfig {
    pub register: usize,
    pub shift_amount: u16,
}

#[derive(Debug, Clone, Copy, PartialEq, Eq, Structural)]
pub enum LoadAddressingMode {
    Immediate,
    DirectAddress,
    Register,
    AddressRegister,
}

#[derive(Debug, Clone, Copy, PartialEq, Eq, Structural)]
pub enum StoreAddressingMode {
    DirectAddress,
    AddressRegister,
}

/// A jump condition: a flag index and whether it is tested inverted.
#[derive(Debug, Clone, Copy, PartialEq, Eq, Structural)]
pub struct Condition {
    pub flag: usize,
    pub inverted: bool,
}

/// The low twelve bits of a word of the extended family, not yet decoded further.
#[derive(Debug, Clone, Copy, PartialEq, Eq, Structural)]
pub struct MoreSpecificInstructionOpcode(pub u16);

impl MoreSpecificInstructionOpcode {
    pub fn opcode(&self) -> (r: u16)
        ensures
            r == self.0,
    {
        self.0
    }
}

impl From<u16> for MoreSpecificInstructionOpcode {
    /// Keeps the low twelve bits.
    fn from(value: u16) -> (r: Self) {
        MoreSpecificInstructionOpcode(value & 0x0FFFu16)
    }
}

impl vstd::std_specs::convert::FromSpecImpl<u16> for MoreSpecificInstructionOpcode {
    open spec fn obeys_from_spec() -> bool {
        true
    }

    open spec fn from_spec(v: u16) -> Self {
        MoreSpecificInstructionOpcode(v & 0x0FFFu16)
    }
}

/// The bits of `word` that `mask` selects after a shift right by `shift`.
pub open spec fn bits_at(word: u16, shift: u16, mask: u16) -> u16 {
    (word >> shift) & mask
}

/// Whether bit `shift` of `word` is set.
pub open spec fn flag_at(word: u16, shift: u16) -> bool {
    bits_at(word, shift, 1) != 0
}

pub open spec fn source_mode_of(code: u16) -> OperationSourceMode {
    if code == 0 {
        OperationSourceMode::Immediate
    } else if code == 1 {
        OperationSourceMode::Register
    } else if code == 2 {
        OperationSourceMode::Memory { is_big_endian: false }
    } else {
        OperationSourceMode::Memory { is_big_endian: true }
    }
}

pub open spec fn load_mode_of(code: u16) -> LoadAddressingMode {
    if code == 0 {
        LoadAddressingMode::Immediate
    } else if code == 1 {
        LoadAddressingMode::DirectAddress
    } else if code == 2 {
        LoadAddressingMode::Register
    } else {
        LoadAddressingMode::AddressRegister
    }
}

/// The unit that bit 1 selects, with the ALU settings from bits 7..3.
pub open spec fn operation_type_of(word: u16) -> OperationType {
    if !flag_at(word, 1) {
        OperationType::ALU(settings_of(bits_at(word, 3, 0x1F) as u8))
    } else {
        OperationType::UnspecifiedUnit
    }
}

/// The families that no instruction uses: 0101 and 1000 to 1110.
pub open spec fn is_reserved_family(family: u16) -> bool {
    family == 5 || (8 <= family && family <= 14)
}

/// Whether `instr` is of a variant that the given family decodes to.
pub open spec fn variant_matches_family(instr: Instruction, family: u16) -> bool {
    match instr {
        Instruction::Operation { destination_register, .. } => family == 0 || (family == 1
            && destination_register == 0),
        Instruction::Load { .. } => family == 2,
        Instruction::Store { .. } => family == 3,
        Instruction::Jump { .. } => family == 4,
        Instruction::StackRead { .. } => family == 6,
        Instruction::StackWrite { .. } => family == 7,
        Instruction::MoreSpecific(_) => family == 15,
    }
}

/// What an instruction word means.
pub open spec fn decoded(word: u16) -> Result<Instruction, InvalidOpcode> {
    let family = family_of(word);
    if family == 0 || family == 1 {
        Ok(
            Instruction::Operation {
                a_register: bits_at(word, 10, 3) as usize,
                destination_register: if family == 0 {
                    bits_at(word, 10, 3) as usize
                } else {
                    0
                },
                operation_type: operation_type_of(word),
                source_mode: source_mode_of(bits_at(word, 8, 3)),
                is_8bit: flag_at(word, 2),
            },
        )
    } else if family == 2 {
        Ok(
            Instruction::Load {
                destination_register: bits_at(word, 10, 3) as usize,
                offset_config: OffsetConfig {
                    register: bits_at(word, 8, 3) as usize,
                    shift_amount: bits_at(word, 1, 7),
                },
                addressing_mode: load_mode_of(bits_at(word, 6, 3)),
                is_big_endian: flag_at(word, 5),
                is_8bit: flag_at(word, 4),
            },
        )
    } else if family == 3 {
        Ok(
            Instruction::Store {
                source_register: bits_at(word, 10, 3) as usize,
                offset_config: OffsetConfig {
                    register: bits_at(word, 8, 3) as usize,
                    shift_amount: bits_at(word, 1, 7),
                },
                addressing_mode: if flag_at(word, 7) {
                    StoreAddressingMode::AddressRegister
                } else {
                    StoreAddressingMode::DirectAddress
                },
                is_big_endian: flag_at(word, 5),
                is_8bit: flag_at(word, 4),
            },
        )
    } else if family == 4 {
        Ok(
            Instruction::Jump {
                offset_config: OffsetConfig {
                    register: bits_at(word, 10, 3) as usize,
                    shift_amount: bits_at(word, 5, 7),
                },
                condition: Condition { flag: bits_at(word, 2, 3) as usize, inverted: flag_at(word, 4) },
                is_subroutine_call: flag_at(word, 1),
            },
        )
    } else if family == 6 {
        Ok(
            Instruction::StackRead {
                destination_register: bits_at(word, 10, 3) as usize,
                offset_config: OffsetConfig {
                    register: bits_at(word, 8, 3) as usize,
                    shift_amount: ((word >> 5u16) * 7) as u16,
                },
                stack_pointer_change: (word & 3) << bits_at(word, 2, 7),
            },
        )
    } else if family == 7 {
        Ok(
            Instruction::StackWrite {
                source_register: bits_at(word, 10, 3) as usize,
                offset_config: OffsetConfig {
                    register: bits_at(word, 8, 3) as usize,
                    shift_amount: bits_at(word, 5, 7),
                },
                stack_pointer_change: (word & 3) << bits_at(word, 2, 7),
            },
        )
    } else if family == 15 {
        Ok(Instruction::MoreSpecific(MoreSpecificInstructionOpcode(word & 0x0FFF)))
    } else {
        Err(InvalidOpcode { opcode: family })
    }
}

fn operation_type(value: u16) -> (r: OperationType)
    ensures
        r == operation_type_of(value),
{
    if (value >> 1u16) & 1u16 == 0 {
        OperationType::ALU(ALUSettings::from(((value >> 3u16) & 0b11111u16) as u8))
    } else {
        OperationType::UnspecifiedUnit
    }
}

fn source_mode(code: u16) -> (r: OperationSourceMode)
    ensures
        r == source_mode_of(code),
{
    if code == 0 {
        OperationSourceMode::Immediate
    } else if code == 1 {
        OperationSourceMode::Register
    } else if code == 2 {
        OperationSourceMode::Memory { is_big_endian: false }
    } else {
        OperationSourceMode::Memory { is_big_endian: true }
    }
}

fn load_mode(code: u16) -> (r: LoadAddressingMode)
    ensures
        r == load_mode_of(code),
{
    if code == 0 {
        LoadAddressingMode::Immediate
    } else if code == 1 {
        LoadAddressingMode::DirectAddress
    } else if code == 2 {
        LoadAddressingMode::Register
    } else {
        LoadAddressingMode::AddressRegister
    }
}

/// Decodes an instruction word; every word is either an instruction or an
/// `InvalidOpcode` that carries its family.
pub fn decode(value: u16) -> (r: Result<Instruction, InvalidOpcode>)
    ensures
        r == decoded(value),
{
    let family = (value >> 12u16) & 0b1111u16;
    if family == 0 || family == 1 {
        let a_register = ((value >> 10u16) & 0b11u16) as usize;
        Ok(
            Instruction::Operation {
                a_register,
                // a comparison sends its result to the zero register
                destination_register: if family == 0 {
                    a_register
                } else {
                    0
                },
                operation_type: operation_type(value),
                source_mode: source_mode((value >> 8u16) & 0b11u16),
                is_8bit: ((value >> 2u16) & 1u16) != 0,
            },
        )
    } else if family == 2 {
        Ok(
            Instruction::Load {
                destination_register: ((value >> 10u16) & 0b11u16) as usize,
                offset_config: OffsetConfig {
                    register: ((value >> 8u16) & 0b11u16) as usize,
                    shift_amount: (value >> 1u16) & 0b111u16,
                },
                addressing_mode: load_mode((value >> 6u16) & 0b11u16),
                is_big_endian: ((value >> 5u16) & 1u16) != 0,
                is_8bit: ((value >> 4u16) & 1u16) != 0,
            },
        )
    } else if family == 3 {
        Ok(
            Instruction::Store {
                source_register: ((value >> 10u16) & 0b11u16) as usize,
                offset_config: OffsetConfig {
                    register: ((value >> 8u16) & 0b11u16) as usize,
                    shift_amount: (value >> 1u16) & 0b111u16,
                },
                addressing_mode: if ((value >> 7u16) & 1u16) != 0 {
                    StoreAddressingMode::AddressRegister
                } else {
                    StoreAddressingMode::DirectAddress
                },
                is_big_endian: ((value >> 5u16) & 1u16) != 0,
                is_8bit: ((value >> 4u16) & 1u16) != 0,
            },
        )
    } else if family == 4 {
        Ok(
            Instruction::Jump {
                offset_config: OffsetConfig {
                    register: ((value >> 10u16) & 0b11u16) as usize,
                    shift_amount: (value >> 5u16) & 0b111u16,
                },
                condition: Condition {
                    flag: ((value >> 2u16) & 0b11u16) as usize,
                    inverted: ((value >> 4u16) & 1u16) != 0,
                },
                is_subroutine_call: ((value >> 1u16) & 1u16) != 0,
            },
        )
    } else if family == 6 {
        assert((value >> 5u16) <= 2047u16) by (bit_vector);
        assert((value >> 2u16) & 0b111u16 <= 7u16) by (bit_vector);
        Ok(
            Instruction::StackRead {
                destination_register: ((value >> 10u16) & 0b11u16) as usize,
                offset_config: OffsetConfig {
                    register: ((value >> 8u16) & 0b11u16) as usize,
                    shift_amount: (value >> 5u16) * 0b111u16,
                },
                stack_pointer_change: (value & 0b11u16) << ((value >> 2u16) & 0b111u16),
            },
        )
    } else if family == 7 {
        assert((value >> 2u16) & 0b111u16 <= 7u16) by (bit_vector);
        Ok(
            Instruction::StackWrite {
                source_register: ((value >> 10u16) & 0b11u16) as usize,
                offset_config: OffsetConfig {
                    register: ((value >> 8u16) & 0b11u16) as usize,
                    shift_amount: (value >> 5u16) & 0b111u16,
                },
                stack_pointer_change: (value & 0b11u16) << ((value >> 2u16) & 0b111u16),
            },
        )
    } else if family == 15 {
        Ok(Instruction::MoreSpecific(MoreSpecificInstructionOpcode::from(value)))
    } else {
        Err(InvalidOpcode::from(value))
    }
}

impl TryFrom<u16> for Instruction {
    type Error = InvalidOpcode;

    fn try_from(value: u16) -> (r: Result<Self, Self::Error>) {
        decode(value)
    }
}

impl vstd::std_specs::convert::TryFromSpecImpl<u16> for Instruction {
    open spec fn obeys_try_from_spec() -> bool {
        true
    }

    open spec fn try_from_spec(v: u16) -> Result<Self, Self::Error> {
        decoded(v)
    }
}

/// Every word decodes: to an instruction of a variant that its family
/// (bits 15..12) stands for, or to an `InvalidOpcode` that carries that family.
pub proof fn lemma_decode_classifies(word: u16)
    ensures
        family_of(word) < 16,
        match decoded(word) {
            Ok(instr) => variant_matches_family(instr, family_of(word)),
            Err(e) => e.opcode == family_of(word),
        },
{
    assert((word >> 12u16) & 0xFu16 < 16) by (bit_vector);
}

/// A word is refused exactly when its family is one of the seven reserved ones.
pub proof fn lemma_reserved_families(word: u16)
    ensures
        decoded(word) is Err <==> is_reserved_family(family_of(word)),
{
    assert((word >> 12u16) & 0xFu16 < 16) by (bit_vector);
}

} // verus!
