use vstd::prelude::*;

verus! {

/// A register index outside `0..4`.
#[derive(Debug, Clone, Copy, PartialEq, Eq, Structural)]
pub struct InvalidRegister {
    pub index: usize,
}

/// A flag index outside `0..4`.
#[derive(Debug, Clone, Copy, PartialEq, Eq, Structural)]
pub struct InvalidFlag {
    pub index: usize,
}

/// Why the machine stopped executing.
#[derive(Debug, Clone, Copy, PartialEq, Eq, Structural)]
pub enum EmberExecutionError {
    InvalidOpcode(InvalidOpcode),
}

/// An instruction word whose family (bits 15..12) is reserved.
#[derive(Debug, Clone, Copy, PartialEq, Eq, Structural)]
pub struct InvalidOpcode {
    pub opcode: u16,
}

/// The family of an instruction word: its top four bits.
pub open spec fn family_of(word: u16) -> u16 {
    (word >> 12u16) & 0xFu16
}

impl InvalidOpcode {
    pub fn opcode(&self) -> (r: u16)
        ensures
            r == self.opcode,
    {
        self.opcode
    }
}

impl From<u16> for InvalidOpcode {
    /// Keeps the family of the word (bits 15..12), shifted down into bits 3..0.
    fn from(value: u16) -> (r: Self) {
        InvalidOpcode { opcode: (value >> 12u16) & 0xFu16 }
    }
}

impl vstd::std_specs::convert::FromSpecImpl<u16> for InvalidOpcode {
    open spec fn obeys_from_spec() -> bool {
        true
    }

    open spec fn from_spec(v: u16) -> Self {
        InvalidOpcode { opcode: family_of(v) }
    }
}

impl From<InvalidOpcode> for EmberExecutionError {
    fn from(value: InvalidOpcode) -> (r: Self) {
        EmberExecutionError::InvalidOpcode(value)
    }
}

impl vstd::std_specs::convert::FromSpecImpl<InvalidOpcode> for EmberExecutionError {
    open spec fn obeys_from_spec() -> bool {
        true
    }

    open spec fn from_spec(v: InvalidOpcode) -> Self {
        EmberExecutionError::InvalidOpcode(v)
    }
}

} // verus!
