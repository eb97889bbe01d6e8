//! Flag, register and register-arithmetic tests.

use z80::{
    Cpu, CpuBuilder, Register, Register16, RegisterDemote, RegisterOperations, RegisterPromote,
    C_MASK, H_MASK, N_MASK, PV_MASK, S_MASK, Z_MASK,
};

#[test]
fn reg16_msb() {
    assert_eq!(0x8000u16.msb(), true);
    assert_eq!(0x0001u16.msb(), false);
    assert_eq!(0x0000u16.msb(), false);
}

#[test]
fn reg16_lsb() {
    assert_eq!(0x8000u16.lsb(), false);
    assert_eq!(0x0001u16.lsb(), true);
    assert_eq!(0x0000u16.lsb(), false);
}

#[test]
fn reg16_incr() {
    assert_eq!(0u16.incr(), (1u16, false));
    assert_eq!(254u16.incr(), (255u16, false));
    assert_eq!(65534u16.incr(), (65535u16, false));
    assert_eq!(65535u16.incr(), (0u16, true));
}

#[test]
fn reg16_decr() {
    assert_eq!(65535u16.decr(), (65534u16, false));
    assert_eq!(255u16.decr(), (254u16, false));
    assert_eq!(1u16.decr(), (0u16, false));
    assert_eq!(0u16.decr(), (65535u16, true));
}

#[test]
fn reg16_add_10_to_u16_binding() {
    let mut data = 9u16;

    let (result, overflow) = data.reg_add(10);

    assert_eq!(result, 19);
    assert_eq!(data, 19);
    assert_eq!(overflow, false);
}

#[test]
fn reg16_add_10_to_u6_part_of_a_struct() {
    struct Container {
        data: u16,
    }

    let mut container = Container { data: 9u16 };

    let (result, overflow) = container.data.reg_add(10);

    assert_eq!(result, 19);
    assert_eq!(container.data, 19);
    assert_eq!(overflow, false);
}

#[test]
fn reg16_overflow_u16() {
    let mut data = 1u16;

    let (result, overflow) = data.reg_add(u16::max_value());

    assert_eq!(result, 0);
    assert_eq!(data, 0);
    assert_eq!(overflow, true);
}

#[test]
fn reg16_sub() {
    assert_eq!(65535u16.reg_sub(10), (65525u16, false));
    assert_eq!(65535u16.reg_sub(65535), (0u16, false));
    assert_eq!(100u16.reg_sub(255), (65381u16, true));
}

#[test]
fn reg16_zero() {
    assert_eq!(1u16.is_zero(), false);
    assert_eq!(0u16.is_zero(), true);
}

#[test]
fn reg16_set() {
    assert_eq!(0u16.set(14), 14);
    assert_eq!(1u16.set(2), 3);
    assert_eq!(1u16.set(7), 7);
}

#[test]
fn reg16_reset() {
    assert_eq!(14u16.reset(0), 0);
    assert_eq!(0xcafeu16.reset(0x0003u16), 2);
    assert_eq!(0xca01u16.reset(0x00ffu16), 1);
}

#[test]
fn reg16_high() {
    assert_eq!(0xcafeu16.high(), 0xcau8);
}

#[test]
fn reg16_low() {
    assert_eq!(0xcafeu16.low(), 0xfeu8);
}

#[test]
fn reg8_msb() {
    assert_eq!(0x80u8.msb(), true);
    assert_eq!(0x00u8.msb(), false);
}

#[test]
fn reg8_lsb() {
    assert_eq!(0x01u8.lsb(), true);
    assert_eq!(0x00u8.lsb(), false);
}

#[test]
fn reg8_incr() {
    assert_eq!(0u8.incr(), (1u8, false));
    assert_eq!(254u8.incr(), (255u8, false));
    assert_eq!(255u8.incr(), (0u8, true));
}

#[test]
fn reg8_decr() {
    assert_eq!(255u8.decr(), (254u8, false));
    assert_eq!(1u8.decr(), (0u8, false));
    assert_eq!(0u8.decr(), (255u8, true));
}

#[test]
fn add_10_to_u8_binding() {
    let mut data = 9u8;

    let (result, carry) = data.reg_add(10);

    assert_eq!(result, 19);
    assert_eq!(data, 19);
    assert_eq!(carry, false);
}

#[test]
fn add_10_to_u8_part_of_a_struct() {
    struct Container {
        data: u8,
    }

    let mut container = Container { data: 9u8 };

    let (result, carry) = container.data.reg_add(10);

    assert_eq!(result, 19);
    assert_eq!(container.data, 19);
    assert_eq!(carry, false);
}

#[test]
fn overflow_u8() {
    let mut data = 1u8;

    let (result, carry) = data.reg_add(u8::max_value());

    assert_eq!(result, 0);
    assert_eq!(data, 0);
    assert_eq!(carry, true);
}

#[test]
fn reg8_sub() {
    assert_eq!(255u8.reg_sub(10), (245u8, false));
    assert_eq!(255u8.reg_sub(255), (0u8, false));
    assert_eq!(100u8.reg_sub(255), (101u8, true));
}

#[test]
fn reg8_zero() {
    assert_eq!(1u8.is_zero(), false);
    assert_eq!(0u8.is_zero(), true);
}

#[test]
fn reg8_set() {
    assert_eq!(0u8.set(14), 14);
    assert_eq!(1u8.set(2), 3);
    assert_eq!(1u8.set(7), 7);
}

#[test]
fn reg8_reset() {
    assert_eq!(14u8.reset(0), 0);
    assert_eq!(0b0000_0001u8.reset(0b0000_0011u8), 1);
    assert_eq!(0b0000_0001u8.reset(0b0000_1111u8), 1);
}

#[test]
fn reg88_msb() {
    assert_eq!((0x80u8, 0x00u8).msb(), true);
    assert_eq!((0x00, 0x01u8).msb(), false);
    assert_eq!((0x00, 0x00u8).msb(), false);
}

#[test]
fn reg88_lsb() {
    assert_eq!((0x80, 0x00u8).lsb(), false);
    assert_eq!((0x00, 01u8).lsb(), true);
    assert_eq!((0x00, 0x00u8).lsb(), false);
}

#[test]
fn reg88_incr() {
    assert_eq!((0x00u8, 0x00u8).incr(), (0x0001u16, false));
    assert_eq!((0x00u8, 0xfeu8).incr(), (0x00ffu16, false));
    assert_eq!((0x00u8, 0xffu8).incr(), (0x0100u16, false));
    assert_eq!((0xffu8, 0xfeu8).incr(), (0xffffu16, false));
    assert_eq!((0xffu8, 0xffu8).incr(), (0x0000u16, true));
}

#[test]
fn reg88_decr() {
    assert_eq!(0xffffu16.decr(), (0xfffeu16, false));
    assert_eq!(0x0100u16.decr(), (0x00ffu16, false));
    assert_eq!(0x00ffu16.decr(), (0x00feu16, false));
    assert_eq!(1u16.decr(), (0u16, false));
    assert_eq!(0u16.decr(), (0xffffu16, true));
}

#[test]
fn reg88_add_10_to_u16_binding() {
    let mut data = 9u16;

    let (result, overflow) = data.reg_add(10);

    assert_eq!(result, 19);
    assert_eq!(data, 19);
    assert_eq!(overflow, false);
}

#[test]
fn reg88_add_10_to_u6_part_of_a_struct() {
    struct Container {
        data: u16,
    }

    let mut container = Container { data: 9u16 };

    let (result, overflow) = container.data.reg_add(10);

    assert_eq!(result, 19);
    assert_eq!(container.data, 19);
    assert_eq!(overflow, false);
}

#[test]
fn reg88_overflow_u16() {
    let mut data = 1u16;

    let (result, overflow) = data.reg_add(u16::max_value());

    assert_eq!(result, 0);
    assert_eq!(data, 0);
    assert_eq!(overflow, true);
}

#[test]
fn reg88_sub() {
    assert_eq!(0xffffu16.reg_sub(10), (0xfff5u16, false));
    assert_eq!(65535u16.reg_sub(65535), (0u16, false));
    assert_eq!(100u16.reg_sub(255), (65381u16, true));
}

#[test]
fn reg88_zero() {
    assert_eq!(1u16.is_zero(), false);
    assert_eq!(0u16.is_zero(), true);
}

#[test]
fn reg88_set() {
    assert_eq!(0u16.set(14), 14);
    assert_eq!(1u16.set(2), 3);
    assert_eq!(1u16.set(7), 7);
}

#[test]
fn reg88_reset() {
    assert_eq!(14u16.reset(0), 0);
    assert_eq!(0xcafeu16.reset(0x0003u16), 2);
    assert_eq!(0xca01u16.reset(0x00ffu16), 1);
}

#[test]
fn reg88_high() {
    assert_eq!((0xcau8, 0xfeu8).high(), 0xcau8);
}

#[test]
fn reg88_low() {
    assert_eq!((0xcau8, 0xfeu8).low(), 0xfeu8);
}

#[test]
fn promote() {
    assert_eq!((0xcau8, 0xfeu8).promote(), 0xcafe);
}

#[test]
fn registers_get_s() {
    let mut cpu = CpuBuilder::new().with_memory_size(16).build();

    // Initial value is 0
    assert_eq!(cpu.get_s(), false);
    assert!(cpu.sign_is_positive());

    // Value is true
    cpu.set_s(true);
    assert_eq!(cpu.get_s(), true);
    assert!(cpu.sign_is_negative());

    // All other flags are still false
    assert_eq!(cpu.f, S_MASK);

    // Set all flags and clear s
    cpu.f = 0xff;
    cpu.set_s(false);
    // Value is not true
    assert_eq!(cpu.get_s(), false);
    // All other flags are unchanged
    assert_eq!(cpu.f, !S_MASK);
}

#[test]
fn registers_status_flag_z() {
    let mut cpu = CpuBuilder::new().with_memory_size(16).build();

    assert_eq!(cpu.get_z(), false);

    cpu.set_z(true);
    assert_eq!(cpu.get_z(), true);
    assert_eq!(cpu.f, Z_MASK);

    cpu.f = 0xff;
    cpu.set_z(false);
    assert_eq!(cpu.get_z(), false);
    assert_eq!(cpu.f, !Z_MASK);
}

#[test]
fn registers_status_flag_h() {
    let mut cpu = CpuBuilder::new().with_memory_size(16).build();

    assert_eq!(cpu.get_h(), false);

    cpu.set_h(true);
    assert_eq!(cpu.get_h(), true);
    assert_eq!(cpu.f, H_MASK);

    cpu.f = 0xff;
    cpu.set_h(false);
    assert_eq!(cpu.get_h(), false);
    assert_eq!(cpu.f, !H_MASK);
}

#[test]
fn registers_status_flag_pv() {
    let mut cpu = CpuBuilder::new().with_memory_size(16).build();

    assert_eq!(cpu.get_pv(), false);

    cpu.set_pv(true);
    assert_eq!(cpu.get_pv(), true);
    assert_eq!(cpu.f, PV_MASK);

    cpu.f = 0xff;
    cpu.set_pv(false);
    assert_eq!(cpu.get_pv(), false);
    assert_eq!(cpu.f, !PV_MASK);
}

#[test]
fn registers_status_flag_n() {
    let mut cpu = CpuBuilder::new().with_memory_size(16).build();

    assert_eq!(cpu.get_n(), false);

    cpu.set_n(true);
    assert_eq!(cpu.get_n(), true);
    assert_eq!(cpu.f, N_MASK);

    cpu.f = 0xff;
    cpu.set_n(false);
    assert_eq!(cpu.get_n(), false);
    assert_eq!(cpu.f, !N_MASK);
}

#[test]
fn registers_status_flag_c() {
    let mut cpu = CpuBuilder::new().with_memory_size(16).build();

    assert_eq!(cpu.get_c(), false);

    cpu.set_c(true);
    assert_eq!(cpu.get_c(), true);
    assert_eq!(cpu.f, C_MASK);

    cpu.f = 0xff;
    cpu.set_c(false);
    assert_eq!(cpu.get_c(), false);
    assert_eq!(cpu.f, !C_MASK);
}

#[test]
fn registers_select_src() {
    assert_eq!(Cpu::select_src(0b00_000_111), Ok(Register::a));
    assert_eq!(Cpu::select_src(0b00_000_000), Ok(Register::b));
    assert_eq!(Cpu::select_src(0b00_000_001), Ok(Register::c));
    assert_eq!(Cpu::select_src(0b00_000_010), Ok(Register::d));
    assert_eq!(Cpu::select_src(0b00_000_011), Ok(Register::e));
    assert_eq!(Cpu::select_src(0b00_000_100), Ok(Register::h));
    assert_eq!(Cpu::select_src(0b00_000_101), Ok(Register::l));
}

#[test]
fn registers_select_dest() {
    assert_eq!(Cpu::select_dest(0b00_111_000), Ok(Register::a));
    assert_eq!(Cpu::select_dest(0b00_000_000), Ok(Register::b));
    assert_eq!(Cpu::select_dest(0b00_001_000), Ok(Register::c));
    assert_eq!(Cpu::select_dest(0b00_010_000), Ok(Register::d));
    assert_eq!(Cpu::select_dest(0b00_011_000), Ok(Register::e));
    assert_eq!(Cpu::select_dest(0b00_100_000), Ok(Register::h));
    assert_eq!(Cpu::select_dest(0b00_101_000), Ok(Register::l));
}

#[test]
fn registers_read() {
    let mut cpu = CpuBuilder::new().with_memory_size(16).build();

    cpu.a = 1;
    cpu.b = 2;
    cpu.c = 3;
    cpu.d = 4;
    cpu.e = 5;
    cpu.h = 6;
    cpu.l = 7;

    assert_eq!(cpu.read(Register::a), 1);
    assert_eq!(cpu.read(Register::b), 2);
    assert_eq!(cpu.read(Register::c), 3);
    assert_eq!(cpu.read(Register::d), 4);
    assert_eq!(cpu.read(Register::e), 5);
    assert_eq!(cpu.read(Register::h), 6);
    assert_eq!(cpu.read(Register::l), 7);
}

#[test]
fn registers_write() {
    let mut cpu = CpuBuilder::new().with_memory_size(16).build();

    cpu.write(Register::a, 1);

    assert_eq!(cpu.a, 1);
    assert_eq!(cpu.b, 0);
    assert_eq!(cpu.c, 0);
    assert_eq!(cpu.d, 0);
    assert_eq!(cpu.e, 0);
    assert_eq!(cpu.h, 0);
    assert_eq!(cpu.l, 0);

    cpu.write(Register::b, 2);
    cpu.write(Register::c, 3);
    cpu.write(Register::d, 4);
    cpu.write(Register::e, 5);
    cpu.write(Register::h, 6);
    cpu.write(Register::l, 7);

    assert_eq!(cpu.b, 2);
    assert_eq!(cpu.c, 3);
    assert_eq!(cpu.d, 4);
    assert_eq!(cpu.e, 5);
    assert_eq!(cpu.h, 6);
    assert_eq!(cpu.l, 7);
}

#[test]
fn registers_read_hl() {
    let mut cpu = CpuBuilder::new().with_memory_size(16).build();

    cpu.h = 0xab;
    cpu.l = 0xcd;

    assert_eq!(cpu.read16(Register16::hl), 0xabcd as u16);
}

#[test]
fn registers_write_hl() {
    let mut cpu = CpuBuilder::new().with_memory_size(16).build();

    cpu.write_hl(0xabcd);

    assert_eq!(cpu.h, 0xab);
    assert_eq!(cpu.l, 0xcd);
}

#[test]
fn registers_read_bc() {
    let mut cpu = CpuBuilder::new().with_memory_size(16).build();

    cpu.b = 0xab;
    cpu.c = 0xcd;

    assert_eq!(cpu.read16(Register16::bc), 0xabcd as u16);
}

#[test]
fn registers_write_bc() {
    let mut cpu = CpuBuilder::new().with_memory_size(16).build();

    cpu.write_bc(0xabcd);

    assert_eq!(cpu.b, 0xab);
    assert_eq!(cpu.c, 0xcd);
}

#[test]
fn registers_read_de() {
    let mut cpu = CpuBuilder::new().with_memory_size(16).build();

    cpu.d = 0xab;
    cpu.e = 0xcd;

    assert_eq!(cpu.read16(Register16::de), 0xabcd as u16);
}

#[test]
fn registers_write_de() {
    let mut cpu = CpuBuilder::new().with_memory_size(16).build();

    cpu.write16(Register16::de, 0xabcd);

    assert_eq!(cpu.d, 0xab);
    assert_eq!(cpu.e, 0xcd);
}
