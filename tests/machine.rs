use ember_emulator::errors::{InvalidFlag, InvalidRegister};
use ember_emulator::{Ember, ExecutionState, Flags, Register};

#[test]
fn new_machine_is_clear() {
    let e = Ember::new();
    for id in 0..4 {
        assert_eq!(e.read_reg(id), Some(0));
    }
    assert_eq!(e.read_ram(0), 0);
    assert_eq!(e.read_ram(0xffff), 0);
    assert_eq!(e.exec_state(), ExecutionState::Running);
    assert_eq!(e.get_flags(), Flags::default());
    assert_eq!(e.pc, 0);
}

#[test]
fn register_zero_discards_writes() {
    let mut e = Ember::new();
    for v in [0u16, 1, 0x7fff, 0xffff] {
        assert_eq!(e.write_reg(0, v), Ok(()));
        assert_eq!(e.read_reg(0), Some(0));
    }
}

#[test]
fn registers_hold_values() {
    let mut e = Ember::new();
    assert_eq!(e.write_reg(1, 0x1111), Ok(()));
    assert_eq!(e.write_reg(2, 0x2222), Ok(()));
    assert_eq!(e.write_reg(3, 0xffff), Ok(()));
    assert_eq!(e.read_reg(1), Some(0x1111));
    assert_eq!(e.read_reg(2), Some(0x2222));
    assert_eq!(e.read_reg(3), Some(0xffff));
}

#[test]
fn register_index_out_of_range() {
    let mut e = Ember::new();
    assert_eq!(e.read_reg(4), None);
    assert_eq!(e.read_reg(usize::MAX), None);
    assert_eq!(e.write_reg(4, 1), Err(InvalidRegister { index: 4 }));
    assert_eq!(e.write_reg(100, 1), Err(InvalidRegister { index: 100 }));
}

#[test]
fn register_cell_behaviour() {
    let mut z = Register::ZeroReg;
    z.set(9);
    assert_eq!(z.get(), 0);
    let mut v = Register::ValueReg(3);
    assert_eq!(v.get(), 3);
    v.set(9);
    assert_eq!(v.get(), 9);
}

#[test]
fn flags_get_and_set() {
    let mut f = Flags::default();
    for width in [false, true] {
        assert_eq!(f.get(0, width), Some(true));
        for i in 1..4 {
            assert_eq!(f.get(i, width), Some(false));
        }
        assert_eq!(f.get(4, width), None);
    }
    assert_eq!(f.set(1, true, false), Ok(()));
    assert_eq!(f.set(3, true, true), Ok(()));
    assert_eq!(f.get(1, false), Some(true));
    assert_eq!(f.get(1, true), Some(false));
    assert_eq!(f.get(3, true), Some(true));
    assert!(f.flag_carry && f.flag8_sign);
    assert_eq!(f.set(0, false, false), Ok(()));
    assert_eq!(f.get(0, false), Some(true));
    let before = f;
    assert_eq!(f.set(4, true, false), Err(InvalidFlag { index: 4 }));
    assert_eq!(f.set(7, true, true), Err(InvalidFlag { index: 7 }));
    assert_eq!(f, before);
}

#[test]
fn flags_through_machine() {
    let mut e = Ember::new();
    e.get_flags_mut().flag_zero = true;
    assert_eq!(e.get_flags().get(2, false), Some(true));
    assert_eq!(e.get_flags_mut().set(2, true, true), Ok(()));
    assert!(e.get_flags().flag8_zero);
}

#[test]
fn ram_bytes() {
    let mut e = Ember::new();
    e.write_ram(0x1234, 0xab);
    assert_eq!(e.read_ram(0x1234), 0xab);
    assert_eq!(e.read_ram(0x1235), 0);
}

#[test]
fn little_endian_round_trip() {
    let mut e = Ember::new();
    for addr in [0u16, 1, 0x7fff, 0xfffe, 0xffff] {
        for v in [0u16, 0x00ff, 0xff00, 0x1234, 0xffff] {
            e.write_ram_little_endian(addr, v);
            assert_eq!(e.read_ram_little_endian(addr), v);
        }
    }
}

#[test]
fn little_endian_layout_wraps() {
    let mut e = Ember::new();
    e.write_ram_little_endian(0xffff, 0xbeef);
    assert_eq!(e.read_ram(0xffff), 0xef);
    assert_eq!(e.read_ram(0x0000), 0xbe);
    e.write_ram(0x0010, 0x34);
    e.write_ram(0x0011, 0x12);
    assert_eq!(e.read_ram_little_endian(0x0010), 0x1234);
}
