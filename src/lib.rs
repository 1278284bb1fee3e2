use vstd::prelude::*;

pub mod alu;
pub mod errors;
pub mod instructions;
pub mod width;

use crate::errors::{EmberExecutionError, InvalidFlag, InvalidRegister};

verus! {

/// The number of bytes of memory; addresses wrap around modulo this.
pub const RAM_SIZE: usize = 65536;

/// The number of registers; register 0 is the zero register.
pub const REGISTER_COUNT: usize = 4;

/// The address after `address`, wrapping from the top of memory to 0.
pub open spec fn next_address(address: u16) -> int {
    (address as int + 1) % 65536
}

/// The 16-bit little-endian value at `address` of `mem`.
pub open spec fn little_endian_at(mem: Seq<u8>, address: u16) -> u16 {
    (mem[address as int] as int + 256 * mem[next_address(address)] as int) as u16
}

/// `mem` with `value` written little-endian at `address`.
pub open spec fn with_little_endian(mem: Seq<u8>, address: u16, value: u16) -> Seq<u8> {
    mem.update(address as int, (value % 256) as u8).update(next_address(address), (value / 256) as u8)
}

/// The register values after a write of `value` to register `id`: a write
/// to the zero register is discarded.
pub open spec fn registers_after_write(regs: Seq<u16>, id: int, value: u16) -> Seq<u16> {
    if 1 <= id < regs.len() {
        regs.update(id, value)
    } else {
        regs
    }
}

/// Writing a 16-bit value little-endian and reading it back at the same
/// address gives the value, at every address, the last one included.
pub proof fn lemma_little_endian_round_trip(mem: Seq<u8>, address: u16, value: u16)
    requires
        mem.len() == RAM_SIZE,
    ensures
        little_endian_at(with_little_endian(mem, address, value), address) == value,
{
    let m2 = with_little_endian(mem, address, value);
    assert(next_address(address) != address as int);
    assert(m2[address as int] == (value % 256) as u8);
    assert(m2[next_address(address)] == (value / 256) as u8);
}

/// After any write, register 0 still holds zero.
pub proof fn lemma_zero_register_after_write(regs: Seq<u16>, id: int, value: u16)
    requires
        regs.len() == REGISTER_COUNT,
        regs[0] == 0,
    ensures
        registers_after_write(regs, id, value)[0] == 0,
{
}

/// Main CPU state: memory, registers, flags and the program counter.
#[derive(Debug)]
pub struct Ember {
    ram: Vec<u8>,
    regs: Vec<Register>,
    flags: Flags,
    exec_state: ExecutionState,
    pub pc: u16,
}

impl Ember {
    /// Memory has 65536 bytes, register 0 is the zero register and the
    /// others hold values.
    pub closed spec fn wf(&self) -> bool {
        &&& self.ram@.len() == RAM_SIZE
        &&& self.regs@.len() == REGISTER_COUNT
        &&& self.regs@[0] == Register::ZeroReg
        &&& forall|i: int| 1 <= i < REGISTER_COUNT ==> self.regs@[i] is ValueReg
    }

    pub closed spec fn memory(&self) -> Seq<u8> {
        self.ram@
    }

    pub closed spec fn registers(&self) -> Seq<u16> {
        self.regs@.map_values(|r: Register| r.value())
    }

    pub closed spec fn flags_state(&self) -> Flags {
        self.flags
    }

    pub closed spec fn program_counter(&self) -> u16 {
        self.pc
    }

    pub closed spec fn state(&self) -> ExecutionState {
        self.exec_state
    }

    pub proof fn lemma_zero_register(&self)
        requires
            self.wf(),
        ensures
            self.registers().len() == REGISTER_COUNT,
            self.registers()[0] == 0,
            self.memory().len() == RAM_SIZE,
    {
    }

    pub fn new() -> (r: Ember)
        ensures
            r.wf(),
            forall|i: int| 0 <= i < RAM_SIZE ==> r.memory()[i] == 0,
            r.registers() == seq![0u16, 0u16, 0u16, 0u16],
            r.flags_state() == (Flags {
                flag_carry: false,
                flag_zero: false,
                flag_sign: false,
                flag8_carry: false,
                flag8_zero: false,
                flag8_sign: false,
            }),
            r.state() == ExecutionState::Running,
            r.program_counter() == 0,
    {
        let mut ram: Vec<u8> = Vec::new();
        let mut i: usize = 0;
        while i < RAM_SIZE
            invariant
                i <= RAM_SIZE,
                ram@.len() == i,
                forall|j: int| 0 <= j < i ==> ram@[j] == 0,
            decreases RAM_SIZE - i,
        {
            ram.push(0);
            i = i + 1;
        }
        let regs = vec![Register::ZeroReg, Register::ValueReg(0), Register::ValueReg(0), Register::ValueReg(0)];
        let r = Ember { ram, regs, flags: Flags::default(), exec_state: ExecutionState::Running, pc: 0 };
        assert(r.registers() =~= seq![0u16, 0u16, 0u16, 0u16]);
        r
    }

    pub fn read_reg(&self, id: usize) -> (r: Option<u16>)
        requires
            self.wf(),
        ensures
            id < REGISTER_COUNT ==> r == Some(self.registers()[id as int]),
            id >= REGISTER_COUNT ==> r.is_none(),
    {
        if id < self.regs.len() {
            Some(self.regs[id].get())
        } else {
            None
        }
    }

    pub fn write_reg(&mut self, id: usize, value: u16) -> (r: Result<(), InvalidRegister>)
        requires
            old(self).wf(),
        ensures
            final(self).wf(),
            id < REGISTER_COUNT ==> r.is_ok() && final(self).registers() == registers_after_write(
                old(self).registers(),
                id as int,
                value,
            ),
            id >= REGISTER_COUNT ==> r == Err::<(), InvalidRegister>(InvalidRegister { index: id })
                && final(self).registers() == old(self).registers(),
            final(self).memory() == old(self).memory(),
            final(self).flags_state() == old(self).flags_state(),
            final(self).state() == old(self).state(),
            final(self).program_counter() == old(self).program_counter(),
    {
        if id < self.regs.len() {
            let mut reg = self.regs[id];
            reg.set(value);
            self.regs.set(id, reg);
            assert(self.registers() =~= registers_after_write(old(self).registers(), id as int, value));
            Ok(())
        } else {
            Err(InvalidRegister { index: id })
        }
    }

    pub fn read_ram(&self, address: u16) -> (r: u8)
        requires
            self.wf(),
        ensures
            r == self.memory()[address as int],
    {
        self.ram[address as usize]
    }

    pub fn write_ram(&mut self, address: u16, value: u8)
        requires
            old(self).wf(),
        ensures
            final(self).wf(),
            final(self).memory() == old(self).memory().update(address as int, value),
            final(self).registers() == old(self).registers(),
            final(self).flags_state() == old(self).flags_state(),
            final(self).state() == old(self).state(),
            final(self).program_counter() == old(self).program_counter(),
    {
        self.ram.set(address as usize, value);
    }

    pub fn read_ram_little_endian(&self, address: u16) -> (r: u16)
        requires
            self.wf(),
        ensures
            r == little_endian_at(self.memory(), address),
    {
        let next = address.wrapping_add(1);
        self.ram[address as usize] as u16 + (self.ram[next as usize] as u16) * 256
    }

    pub fn write_ram_little_endian(&mut self, address: u16, value: u16)
        requires
            old(self).wf(),
        ensures
            final(self).wf(),
            final(self).memory() == with_little_endian(old(self).memory(), address, value),
            final(self).registers() == old(self).registers(),
            final(self).flags_state() == old(self).flags_state(),
            final(self).state() == old(self).state(),
            final(self).program_counter() == old(self).program_counter(),
    {
        let next = address.wrapping_add(1);
        self.ram.set(address as usize, (value % 256) as u8);
        self.ram.set(next as usize, (value / 256) as u8);
    }

    pub fn exec_state(&self) -> (r: ExecutionState)
        ensures
            r == self.state(),
    {
        self.exec_state
    }

    pub fn get_flags(&self) -> (r: Flags)
        ensures
            r == self.flags_state(),
    {
        self.flags
    }

    pub fn get_flags_mut(&mut self) -> (r: &mut Flags)
        requires
            old(self).wf(),
        ensures
            *r == old(self).flags_state(),
            final(self).wf(),
            final(self).flags_state() == *final(r),
            final(self).memory() == old(self).memory(),
            final(self).registers() == old(self).registers(),
            final(self).state() == old(self).state(),
            final(self).program_counter() == old(self).program_counter(),
    {
        &mut self.flags
    }
}

/// One register: the zero register, or one that holds a value.
#[derive(Debug, Clone, Copy, PartialEq, Eq, Structural)]
pub enum Register {
    ZeroReg,
    ValueReg(u16),
}

impl Register {
    pub open spec fn value(self) -> u16 {
        match self {
            Register::ZeroReg => 0,
            Register::ValueReg(x) => x,
        }
    }

    pub fn get(&self) -> (r: u16)
        ensures
            r == self.value(),
    {
        match self {
            Register::ZeroReg => 0,
            Register::ValueReg(x) => *x,
        }
    }

    /// Stores `value`; the zero register discards it.
    pub fn set(&mut self, value: u16)
        ensures
            *final(self) == match *old(self) {
                Register::ZeroReg => Register::ZeroReg,
                Register::ValueReg(_) => Register::ValueReg(value),
            },
    {
        if let Register::ValueReg(x) = self {
            *x = value;
        }
    }
}

/// Whether the machine runs, or why it stopped.
#[derive(Debug, Clone, Copy, PartialEq, Eq, Structural)]
pub enum ExecutionState {
    Running,
    Halted { error: Option<EmberExecutionError> },
}

/// The six condition flags: carry, zero and sign, once for 16-bit and once
/// for 8-bit results.
#[derive(Debug, Clone, Copy, PartialEq, Eq, Structural)]
pub struct Flags {
    pub flag_carry: bool,
    pub flag_zero: bool,
    pub flag_sign: bool,
    pub flag8_carry: bool,
    pub flag8_zero: bool,
    pub flag8_sign: bool,
}

impl Default for Flags {
    fn default() -> (r: Self)
        ensures
            r == (Flags {
                flag_carry: false,
                flag_zero: false,
                flag_sign: false,
                flag8_carry: false,
                flag8_zero: false,
                flag8_sign: false,
            }),
    {
        Flags {
            flag_carry: false,
            flag_zero: false,
            flag_sign: false,
            flag8_carry: false,
            flag8_zero: false,
            flag8_sign: false,
        }
    }
}

impl Flags {
    /// Flag `index` of the given width: 0 is always set, 1 is carry, 2 is
    /// zero, 3 is sign.
    pub open spec fn flag(self, index: nat, is_8bit: bool) -> bool
        recommends
            index < 4,
    {
        if index == 0 {
            true
        } else if index == 1 {
            if is_8bit { self.flag8_carry } else { self.flag_carry }
        } else if index == 2 {
            if is_8bit { self.flag8_zero } else { self.flag_zero }
        } else {
            if is_8bit { self.flag8_sign } else { self.flag_sign }
        }
    }

    /// These flags with flag `index` (1 to 3) of the given width set to `value`.
    pub open spec fn with_flag(self, index: nat, value: bool, is_8bit: bool) -> Flags {
        if index == 1 {
            if is_8bit { Flags { flag8_carry: value, ..self } } else { Flags { flag_carry: value, ..self } }
        } else if index == 2 {
            if is_8bit { Flags { flag8_zero: value, ..self } } else { Flags { flag_zero: value, ..self } }
        } else if index == 3 {
            if is_8bit { Flags { flag8_sign: value, ..self } } else { Flags { flag_sign: value, ..self } }
        } else {
            self
        }
    }

    /// These flags with carry, zero and sign of the given width replaced.
    pub open spec fn with_results(self, is_8bit: bool, carry: bool, zero: bool, sign: bool) -> Flags {
        self.with_flag(1, carry, is_8bit).with_flag(2, zero, is_8bit).with_flag(3, sign, is_8bit)
    }

    pub fn get(&self, index: usize, is_8bit: bool) -> (r: Option<bool>)
        ensures
            index < 4 ==> r == Some(self.flag(index as nat, is_8bit)),
            index >= 4 ==> r.is_none(),
    {
        match index {
            0 => Some(true),
            1 => Some(if is_8bit { self.flag8_carry } else { self.flag_carry }),
            2 => Some(if is_8bit { self.flag8_zero } else { self.flag_zero }),
            3 => Some(if is_8bit { self.flag8_sign } else { self.flag_sign }),
            _ => None,
        }
    }

    pub fn set(&mut self, index: usize, value: bool, is_8bit: bool) -> (r: Result<(), InvalidFlag>)
        ensures
            index < 4 ==> r.is_ok() && *final(self) == old(self).with_flag(index as nat, value, is_8bit),
            index >= 4 ==> r == Err::<(), InvalidFlag>(InvalidFlag { index }) && *final(self) == *old(self),
    {
        match index {
            0 => Ok(()),
            1 => {
                if is_8bit {
                    self.flag8_carry = value;
                } else {
                    self.flag_carry = value;
                }
                Ok(())
            },
            2 => {
                if is_8bit {
                    self.flag8_zero = value;
                } else {
                    self.flag_zero = value;
                }
                Ok(())
            },
            3 => {
                if is_8bit {
                    self.flag8_sign = value;
                } else {
                    self.flag_sign = value;
                }
                Ok(())
            },
            _ => Err(InvalidFlag { index }),
        }
    }

    /// Overwrites carry, zero and sign of the given width.
    pub fn record(&mut self, is_8bit: bool, carry: bool, zero: bool, sign: bool)
        ensures
            *final(self) == old(self).with_results(is_8bit, carry, zero, sign),
    {
        if is_8bit {
            self.flag8_carry = carry;
            self.flag8_zero = zero;
            self.flag8_sign = sign;
        } else {
            self.flag_carry = carry;
            self.flag_zero = zero;
            self.flag_sign = sign;
        }
    }
}

} // verus!
