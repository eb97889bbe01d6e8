//! Instruction tests, one per instruction form.

use z80::{compl2, Cpu, CpuBuilder};

/// Checks the state of a CPU after an instruction, one register or flag at a time.
struct Assertor {
    cpu: Cpu,
}

#[allow(dead_code)]
impl Assertor {
    fn new(cpu: Cpu) -> Assertor {
        Assertor { cpu }
    }

    fn sign_flag_is_reset(&self) -> &Assertor {
        assert_eq!(self.cpu.get_s(), false, "Flag S unexpected value");
        self
    }

    fn sign_flag_is_positive(&self) -> &Assertor {
        self.sign_flag_is_reset()
    }

    fn sign_is_positive(&self) -> &Assertor {
        self.sign_flag_is_reset()
    }

    fn sign_flag_is_set(&self) -> &Assertor {
        assert_eq!(self.cpu.get_s(), true, "Flag S unexpected value");
        self
    }

    fn sign_flag_is_negative(&self) -> &Assertor {
        self.sign_flag_is_set()
    }

    fn sign_is_negative(&self) -> &Assertor {
        self.sign_flag_is_set()
    }

    fn zero_flag_is_set(&self) -> &Assertor {
        assert_eq!(self.cpu.get_z(), true, "Flag Z unexpected value");
        self
    }

    fn zero_flag_is_reset(&self) -> &Assertor {
        assert_eq!(self.cpu.get_z(), false, "Flag Z unexpected value");
        self
    }

    fn half_carry_flag_is_set(&self) -> &Assertor {
        assert_eq!(self.cpu.get_h(), true, "Flag H unexpected value");
        self
    }

    fn half_carry_flag_is_reset(&self) -> &Assertor {
        assert_eq!(self.cpu.get_h(), false, "Flag H unexpected value");
        self
    }

    fn carry_flag_is_set(&self) -> &Assertor {
        assert_eq!(self.cpu.get_c(), true, "Flag C unexpected value");
        self
    }

    fn carry_flag_is_reset(&self) -> &Assertor {
        assert_eq!(self.cpu.get_c(), false, "Flag C unexpected value");
        self
    }

    fn parity_overflow_flag_is_set(&self) -> &Assertor {
        assert!(self.cpu.overflow_flag_is_set(), "Flag PV unexpected value");
        self
    }

    fn parity_overflow_flag_is_reset(&self) -> &Assertor {
        assert!(!self.cpu.overflow_flag_is_set(), "Flag PV unexpected value");
        self
    }

    fn parity_is_odd(&self) -> &Assertor {
        assert!(self.cpu.parity_is_odd());
        self
    }

    fn parity_is_even(&self) -> &Assertor {
        assert!(self.cpu.parity_is_even());
        self
    }

    fn add_subtract_flag_is_set(&self) -> &Assertor {
        assert_eq!(self.cpu.get_n(), true, "Flag N unexpected value");
        self
    }

    fn add_subtract_flag_is_reset(&self) -> &Assertor {
        assert_eq!(self.cpu.get_n(), false, "Flag N unexpected value");
        self
    }

    fn program_counter_is(&self, value: u16) -> &Assertor {
        assert_eq!(self.cpu.pc, value, "PC unexpected value");
        self
    }

    fn stack_pointer_is(&self, value: u16) -> &Assertor {
        assert_eq!(self.cpu.sp, value, "SP unexpected value");
        self
    }

    fn index_register_ix_is(&self, value: u16) -> &Assertor {
        assert_eq!(self.cpu.ix, value, "IX unexpected value");
        self
    }

    fn index_register_iy_is(&self, value: u16) -> &Assertor {
        assert_eq!(self.cpu.iy, value, "IY unexpected value");
        self
    }

    fn register_a_is(&self, value: u8) -> &Assertor {
        assert_eq!(self.cpu.a, value, "Register A unexpected value");
        self
    }

    fn register_b_is(&self, value: u8) -> &Assertor {
        assert_eq!(self.cpu.b, value, "Register B unexpected value");
        self
    }

    fn register_c_is(&self, value: u8) -> &Assertor {
        assert_eq!(self.cpu.c, value, "Register C unexpected value");
        self
    }

    fn register_d_is(&self, value: u8) -> &Assertor {
        assert_eq!(self.cpu.d, value, "Register D unexpected value");
        self
    }

    fn register_e_is(&self, value: u8) -> &Assertor {
        assert_eq!(self.cpu.e, value, "Register E unexpected value");
        self
    }

    fn register_f_is(&self, value: u8) -> &Assertor {
        assert_eq!(self.cpu.f, value, "Register F unexpected value");
        self
    }

    fn register_h_is(&self, value: u8) -> &Assertor {
        assert_eq!(self.cpu.h, value, "Register H unexpected value");
        self
    }

    fn register_l_is(&self, value: u8) -> &Assertor {
        assert_eq!(self.cpu.l, value, "Register L unexpected value");
        self
    }

    fn register_a1_is(&self, value: u8) -> &Assertor {
        assert_eq!(self.cpu.a1, value, "Register A' unexpected value");
        self
    }

    fn register_b1_is(&self, value: u8) -> &Assertor {
        assert_eq!(self.cpu.b1, value, "Register B' unexpected value");
        self
    }

    fn register_c1_is(&self, value: u8) -> &Assertor {
        assert_eq!(self.cpu.c1, value, "Register C' unexpected value");
        self
    }

    fn register_d1_is(&self, value: u8) -> &Assertor {
        assert_eq!(self.cpu.d1, value, "Register D' unexpected value");
        self
    }

    fn register_e1_is(&self, value: u8) -> &Assertor {
        assert_eq!(self.cpu.e1, value, "Register E' unexpected value");
        self
    }

    fn register_f1_is(&self, value: u8) -> &Assertor {
        assert_eq!(self.cpu.f1, value, "Register F' unexpected value");
        self
    }

    fn register_h1_is(&self, value: u8) -> &Assertor {
        assert_eq!(self.cpu.h1, value, "Register H' unexpected value");
        self
    }

    fn register_l1_is(&self, value: u8) -> &Assertor {
        assert_eq!(self.cpu.l1, value, "Register L' unexpected value");
        self
    }

    fn register_af_is(&self, value: u16) -> &Assertor {
        assert_eq!(self.cpu.read_af(), value, "Register AF unexpected value");
        self
    }

    fn register_bc_is(&self, value: u16) -> &Assertor {
        assert_eq!(self.cpu.read_bc(), value, "Register BC unexpected value");
        self
    }

    fn register_de_is(&self, value: u16) -> &Assertor {
        assert_eq!(self.cpu.read_de(), value, "Register DE unexpected value");
        self
    }

    fn register_hl_is(&self, value: u16) -> &Assertor {
        assert_eq!(self.cpu.read_hl(), value, "Register HL unexpected value");
        self
    }

    fn interrupt_vector_is(&self, value: u8) -> &Assertor {
        assert_eq!(self.cpu.i, value, "Register I unexpected value");
        self
    }

    fn memory_refresh_register_is(&self, value: u8) -> &Assertor {
        assert_eq!(self.cpu.r, value, "Register R unexpected value");
        self
    }

    fn interrupt_flip_flop_1_is_set(&self) -> &Assertor {
        assert_eq!(self.cpu.iff1, true, "IFF1 unexpected value");
        self
    }

    fn interrupt_flip_flop_1_is_reset(&self) -> &Assertor {
        assert_eq!(self.cpu.iff1, false, "IFF1 unexpected value");
        self
    }

    fn interrupt_flip_flop_2_is_set(&self) -> &Assertor {
        assert_eq!(self.cpu.iff2, true, "IFF2 unexpected value");
        self
    }

    fn interrupt_flip_flop_2_is_reset(&self) -> &Assertor {
        assert_eq!(self.cpu.iff2, false, "IFF2 unexpected value");
        self
    }

    fn memory_at_address_is(&self, addr: usize, value: u8) -> &Assertor {
        assert_eq!(self.cpu.memory[addr], value, "Memory location unexpected value");
        self
    }

    fn memory_size_is(&self, size: usize) -> &Assertor {
        assert_eq!(self.cpu.memory.len(), size, "Memory size unexpected value");
        self
    }
}

#[test]
fn tests_create_system() {
    let builder = CpuBuilder::new()
        .with_a(1)
        .with_b(2)
        .with_c(3)
        .with_d(4)
        .with_e(5)
        .with_h(7)
        .with_i(8)
        .with_iff1(true)
        .with_iff2(false)
        .with_ix(9)
        .with_iy(10)
        .with_l(11)
        .with_memory_size(16384)
        .with_pc(12)
        .with_r(13)
        .with_sp(14)
        .with_flag_c(true)
        .with_flag_s(true)
        .with_flag_z(true)
        .with_flag_h(true)
        .with_flag_n(true)
        .with_flag_pv(true);

    let cpu = builder.build();

    Assertor::new(cpu)
        .register_a_is(1)
        .register_b_is(2)
        .register_c_is(3)
        .register_d_is(4)
        .register_e_is(5)
        .register_f_is(0b1101_0111)     // Position S Z X H X P/V N C
        .register_h_is(7)
        .register_l_is(11)
        .interrupt_flip_flop_1_is_set()
        .interrupt_flip_flop_2_is_reset()
        .interrupt_vector_is(8)
        .index_register_ix_is(9)
        .index_register_iy_is(10)
        .program_counter_is(12)
        .stack_pointer_is(14)
        .memory_refresh_register_is(13)
        .sign_flag_is_negative()
        .zero_flag_is_set()
        .half_carry_flag_is_set()
        .carry_flag_is_set()
        .parity_overflow_flag_is_set()
        .add_subtract_flag_is_set()
        .memory_size_is(16384);
}

#[test]
fn tests_create_system_with_preset_memory() {
    let builder = CpuBuilder::new().with_memory(vec![1, 2, 3, 4]);

    let cpu = builder.build();

    Assertor::new(cpu)
        .memory_at_address_is(0, 1)
        .memory_at_address_is(1, 2)
        .memory_at_address_is(2, 3)
        .memory_at_address_is(3, 4);
}

#[test]
fn tests_add_a_r() {
    let mut cpu = CpuBuilder::new()
        .with_memory(vec![0b10000_001, 0x66, 0x66, 0x66])
        .with_a(7)
        .with_c(4)
        .build();

    cpu.add_a_r().unwrap();

    Assertor::new(cpu)
        .register_a_is(11)
        .sign_flag_is_positive()
        .zero_flag_is_reset()
        .parity_overflow_flag_is_reset()
        .add_subtract_flag_is_reset()
        .program_counter_is(1);
}

#[test]
fn tests_add_a_n() {
    let mut cpu = CpuBuilder::new()
        .with_memory(vec![0xc6, 0x04, 0x66, 0x66])
        .with_a(7)
        .build();

    cpu.add_a_n().unwrap();

    Assertor::new(cpu)
        .register_a_is(11)
        .zero_flag_is_reset()
        .program_counter_is(2);
}

#[test]
fn tests_add_a_hli() {
    let mut cpu = CpuBuilder::new()
        .with_memory(vec![0x86, 0x66, 0x66, 0x04])
        .with_a(7)
        .with_hl(3)
        .build();

    cpu.add_a_hli().unwrap();

    Assertor::new(cpu)
        .register_a_is(11)
        .zero_flag_is_reset()
        .program_counter_is(1);
}

#[test]
fn add_a_ixdi() {
    let mut cpu = CpuBuilder::new()
        .with_memory(vec![0xdd, 0x86, 0x02, 0x04])
        .with_a(7)
        .with_ix(1)
        .build();

    cpu.add_a_ixdi().unwrap();

    Assertor::new(cpu)
        .register_a_is(11)
        .zero_flag_is_reset()
        .program_counter_is(3);
}

#[test]
fn add_a_iydi() {
    let mut cpu = CpuBuilder::new()
        .with_memory(vec![0xdd, 0x86, 0x02, 0x04])
        .with_a(7)
        .with_iy(1)
        .build();

    cpu.add_a_iydi().unwrap();

    Assertor::new(cpu)
        .register_a_is(11)
        .zero_flag_is_reset()
        .program_counter_is(3);
}

#[test]
fn tests_daa() {
    // 0x15 + 0x27 leaves 0x3C in A; the decimal adjust gives 0x42.
    let mut cpu = CpuBuilder::new().with_memory_size(10).with_a(0x3c).build();

    cpu.daa().unwrap();

    Assertor::new(cpu)
        .register_a_is(0x42)
        .sign_flag_is_positive()
        .zero_flag_is_reset()
        .half_carry_flag_is_set()
        .parity_overflow_flag_is_set()
        .add_subtract_flag_is_reset()
        .carry_flag_is_reset()
        .program_counter_is(1);
}

#[test]
fn tests_cpl() {
    let mut cpu = CpuBuilder::new()
        .with_memory_size(10)
        .with_a(0b1011_0100)
        .build();

    cpu.cpl().unwrap();

    Assertor::new(cpu)
        .register_a_is(0b0100_1011)
        .half_carry_flag_is_set()
        .parity_overflow_flag_is_reset()
        .program_counter_is(1);
}

#[test]
fn tests_neg() {
    let mut cpu = CpuBuilder::new()
        .with_memory_size(10)
        .with_a(0b1001_1000)
        .build();

    cpu.neg().unwrap();

    Assertor::new(cpu)
        .register_a_is(0b0110_1000)
        .sign_flag_is_positive()
        .zero_flag_is_reset()
        .half_carry_flag_is_set()
        .parity_overflow_flag_is_reset()
        .add_subtract_flag_is_set()
        .carry_flag_is_set()
        .program_counter_is(2);
}

#[test]
fn tests_ccf() {
    let mut cpu = CpuBuilder::new()
        .with_memory_size(16)
        .with_flag_c(true)
        .build();

    cpu.ccf().unwrap();

    Assertor::new(cpu)
        .sign_flag_is_positive()
        .zero_flag_is_reset()
        .parity_overflow_flag_is_reset()
        .half_carry_flag_is_set()
        .add_subtract_flag_is_reset()
        .carry_flag_is_reset()
        .program_counter_is(1);
}

#[test]
fn tests_scf() {
    let mut cpu = CpuBuilder::new().with_memory_size(10).build();

    cpu.scf().unwrap();

    Assertor::new(cpu)
        .carry_flag_is_set()
        .half_carry_flag_is_reset()
        .add_subtract_flag_is_reset()
        .program_counter_is(1);
}

#[test]
fn tests_bit_b_r() {
    let mut cpu = CpuBuilder::new()
        .with_memory(vec![
            0xcb, // BIT 7, E
            0b01_111_011,
            0,
            0,
        ])
        .with_e(0b1000_0000)
        .build();

    cpu.bit_b_r().unwrap();

    Assertor::new(cpu)
        .zero_flag_is_reset()
        .half_carry_flag_is_set()
        .add_subtract_flag_is_reset()
        .program_counter_is(2);
}

#[test]
fn tests_bit_b_hli() {
    let mut cpu = CpuBuilder::new()
        .with_memory(vec![
            0xcb, // BIT 5, (HL)
            0b01_101_110,
            0,
            0,
        ])
        .build();

    cpu.bit_b_hli().unwrap();

    Assertor::new(cpu)
        .zero_flag_is_set()
        .half_carry_flag_is_set()
        .add_subtract_flag_is_reset()
        .program_counter_is(2);
}

#[test]
fn tests_bit_b_ixdi() {
    let mut cpu = CpuBuilder::new()
        .with_memory(vec![
            0xdd, // BIT 6, (IX + 4)
            0xcb,
            0x04,
            0b01_110_110,
            0x45,
            0x46,
            0b1110_1111,
            0x01,
        ])
        .with_ix(3)
        .build();

    cpu.bit_b_ixdi().unwrap();

    Assertor::new(cpu)
        .zero_flag_is_set()
        .half_carry_flag_is_set()
        .add_subtract_flag_is_reset()
        .program_counter_is(4);
}

#[test]
fn tests_bit_b_iydi() {
    let mut cpu = CpuBuilder::new()
        .with_memory(vec![
            0xfd, // BIT 6, (IY + 4)
            0xcb,
            0x04,
            0b01_110_110,
            0x45,
            0x46,
            0b1110_1111,
            0x01,
        ])
        .with_iy(3)
        .build();

    cpu.bit_b_iydi().unwrap();

    Assertor::new(cpu)
        .zero_flag_is_set()
        .half_carry_flag_is_set()
        .add_subtract_flag_is_reset()
        .program_counter_is(4);
}

#[test]
fn tests_set_b_r() {
    let mut cpu = CpuBuilder::new()
        .with_memory(vec![
            0xcb, // SET 2, E
            0b11_010_011,
            0,
            0,
        ])
        .with_e(0b1000_0000)
        .build();

    cpu.set_b_r().unwrap();

    Assertor::new(cpu)
        .register_e_is(0b1000_0100)
        .program_counter_is(2);
}

#[test]
fn tests_set_b_hli() {
    let mut cpu = CpuBuilder::new()
        .with_memory(vec![
            0xcb, // SET 5, (HL)
            0b11_101_110,
            0,
            0,
        ])
        .with_hl(3)
        .build();

    cpu.set_b_hli().unwrap();

    Assertor::new(cpu)
        .memory_at_address_is(3, 0b0010_0000)
        .program_counter_is(2);
}

#[test]
fn tests_set_b_ixdi() {
    let mut cpu = CpuBuilder::new()
        .with_memory(vec![
            0xdd, // SET 6, (IX + 4)
            0xcb,
            0x04,
            0b11_110_110,
            0x45,
            0x46,
            0b1110_1111,
            0x01,
        ])
        .with_ix(3)
        .build();

    cpu.set_b_ixdi().unwrap();

    Assertor::new(cpu)
        .memory_at_address_is(7, 0b0100_0001)
        .program_counter_is(4);
}

#[test]
fn tests_set_b_iydi() {
    let mut cpu = CpuBuilder::new()
        .with_memory(vec![
            0xfd, // SET 6, (IY + 4)
            0xcb,
            0x04,
            0b11_110_110,
            0x45,
            0x46,
            0b1110_1111,
            0x01,
        ])
        .with_iy(3)
        .build();

    cpu.set_b_iydi().unwrap();

    Assertor::new(cpu)
        .memory_at_address_is(7, 0b0100_0001)
        .program_counter_is(4);
}

#[test]
fn tests_res_b_r() {
    let mut cpu = CpuBuilder::new()
        .with_memory(vec![
            0xcb, // RES 2, E
            0b10_010_011,
            0,
            0,
        ])
        .with_e(0b1000_0100)
        .build();

    cpu.res_b_r().unwrap();

    Assertor::new(cpu)
        .register_e_is(0b1000_0000)
        .program_counter_is(2);
}

#[test]
fn tests_res_b_hli() {
    let mut cpu = CpuBuilder::new()
        .with_memory(vec![
            0xcb, // RES 5, (HL)
            0b10_101_110,
            0,
            0b0010_0000,
        ])
        .with_hl(3)
        .build();

    cpu.res_b_hli().unwrap();

    Assertor::new(cpu)
        .memory_at_address_is(3, 0)
        .program_counter_is(2);
}

#[test]
fn tests_res_b_ixdi() {
    let mut cpu = CpuBuilder::new()
        .with_memory(vec![
            0xdd, // RES 6, (IX + 4)
            0xcb,
            0x04,
            0b10_110_110,
            0x45,
            0x46,
            0b1110_1111,
            0xff,
        ])
        .with_ix(3)
        .build();

    cpu.res_b_ixdi().unwrap();

    Assertor::new(cpu)
        .memory_at_address_is(7, 0b1011_1111)
        .program_counter_is(4);
}

#[test]
fn tests_res_b_iydi() {
    let mut cpu = CpuBuilder::new()
        .with_memory(vec![
            0xdd, // RES 6, (IX + 4)
            0xcb,
            0x04,
            0b10_110_110,
            0x45,
            0x46,
            0b1110_1111,
            0xff,
        ])
        .with_iy(3)
        .build();

    cpu.res_b_iydi().unwrap();

    Assertor::new(cpu)
        .memory_at_address_is(7, 0b1011_1111)
        .program_counter_is(4);
}

#[test]
fn tests_cp_r() {
    let mut cpu = CpuBuilder::new()
        .with_memory(vec![0b10111_001, 0, 0, 0])
        .with_a(0b1100_0011)
        .with_c(0b1100_0011)
        .build();

    cpu.cp_r().unwrap();

    Assertor::new(cpu)
        .register_a_is(0b1100_0011)
        .sign_flag_is_reset()
        .zero_flag_is_set()
        .half_carry_flag_is_reset()
        .carry_flag_is_reset()
        // .parity_is_odd()
        .add_subtract_flag_is_set();
}

#[test]
fn tests_cp_n() {
    let mut cpu = CpuBuilder::new()
        .with_memory(vec![0xfe, 0b1100_0011, 0, 0])
        .with_a(0b1100_0011)
        .build();

    cpu.cp_n().unwrap();

    Assertor::new(cpu)
        .register_a_is(0b1100_0011)
        .sign_flag_is_reset()
        .zero_flag_is_set()
        .half_carry_flag_is_reset()
        .carry_flag_is_reset()
        // .parity_is_odd()
        .add_subtract_flag_is_set();
}

#[test]
fn tests_cp_hli() {
    let mut cpu = CpuBuilder::new()
        .with_memory(vec![0xbe, 0b1100_0011, 2, 3])
        .with_a(0b1100_0011)
        .with_hl(1)
        .build();

    cpu.cp_hli().unwrap();

    Assertor::new(cpu)
        .register_a_is(0b1100_0011)
        .sign_flag_is_reset()
        .zero_flag_is_set()
        .half_carry_flag_is_reset()
        .carry_flag_is_reset()
        // .parity_is_odd()
        .add_subtract_flag_is_set();
}

#[test]
fn tests_cp_ixdi() {
    let mut cpu = CpuBuilder::new()
        .with_memory(vec![0xdd, 0xbe, 2, 0b1100_0011])
        .with_a(0b1100_0011)
        .with_ix(1)
        .build();

    cpu.cp_ixdi().unwrap();

    Assertor::new(cpu)
        .register_a_is(0b1100_0011)
        .sign_flag_is_reset()
        .zero_flag_is_set()
        .half_carry_flag_is_reset()
        .carry_flag_is_reset()
        // .parity_is_odd()
        .add_subtract_flag_is_set();
}

#[test]
fn tests_cp_iydi() {
    let mut cpu = CpuBuilder::new()
        .with_memory(vec![0xfd, 0xbe, 2, 0b1100_0011])
        .with_a(0b1100_0011)
        .with_iy(1)
        .build();

    cpu.cp_iydi().unwrap();

    Assertor::new(cpu)
        .register_a_is(0b1100_0011)
        .sign_flag_is_reset()
        .zero_flag_is_set()
        .half_carry_flag_is_reset()
        .carry_flag_is_reset()
        // .parity_is_odd()
        .add_subtract_flag_is_set();
}

#[test]
fn tests_ex_de_hl() {
    let mut cpu = CpuBuilder::new()
        .with_d(1)
        .with_e(2)
        .with_h(3)
        .with_l(4)
        .with_memory_size(16)
        .build();

    cpu.ex_de_hl().unwrap();

    Assertor::new(cpu)
        .register_d_is(3)
        .register_e_is(4)
        .register_h_is(1)
        .register_l_is(2)
        .program_counter_is(1);
}

#[test]
fn tests_ex_af_af1() {
    let mut cpu = CpuBuilder::new()
        .with_a(1)
        .with_flag_n(true)
        .with_memory_size(16)
        .build();


    cpu.ex_af_af1().unwrap();

    cpu.a = 3;
    cpu.f = 4;

    cpu.ex_af_af1().unwrap();

    Assertor::new(cpu)
        .register_a_is(1)
        .register_f_is(2)
        .register_a1_is(3)
        .register_f1_is(4)
        .program_counter_is(2);
}

#[test]
fn tests_exx() {
    let mut cpu = CpuBuilder::new()
        .with_b(1)
        .with_c(2)
        .with_d(3)
        .with_e(4)
        .with_h(5)
        .with_l(6)
        .with_memory_size(16)
        .build();

    cpu.exx().unwrap();

    cpu.b = 11;
    cpu.c = 12;
    cpu.d = 13;
    cpu.e = 14;
    cpu.h = 15;
    cpu.l = 16;

    cpu.exx().unwrap();

    Assertor::new(cpu)
        .register_b_is(1)
        .register_c_is(2)
        .register_d_is(3)
        .register_e_is(4)
        .register_h_is(5)
        .register_l_is(6)
        .register_b1_is(11)
        .register_c1_is(12)
        .register_d1_is(13)
        .register_e1_is(14)
        .register_h1_is(15)
        .register_l1_is(16)
        .program_counter_is(2);
}

#[test]
fn tests_ex_spi_hl() {
    let mut cpu = CpuBuilder::new()
        .with_h(9)
        .with_l(8)
        .with_memory(vec![1, 2, 3, 4])
        .build();

    cpu.ex_spi_hl().unwrap();

    Assertor::new(cpu)
        // H ↔ (SP+1), L ↔ (SP)
        .register_h_is(2)
        .memory_at_address_is(1, 9)
        // H ↔ (SP+1), L ↔ (SP)
        .register_l_is(1)
        .memory_at_address_is(0, 8)
        .program_counter_is(1);
}

#[test]
fn tests_ex_spi_ix() {
    let mut cpu = CpuBuilder::new()
        .with_ix(0x3988)
        .with_l(8)
        .with_memory(vec![0x90, 0x48, 3, 4])
        .build();

    cpu.ex_spi_ix().unwrap();

    // IXH ↔ (SP+1) IXL ↔ (SP)
    Assertor::new(cpu)
        .index_register_ix_is(0x4890)
        .memory_at_address_is(1, 0x39)
        .memory_at_address_is(0, 0x88)
        .program_counter_is(2);
}

#[test]
fn tests_ex_spi_iy() {
    let mut cpu = CpuBuilder::new()
        .with_iy(0x3988)
        .with_l(8)
        .with_memory(vec![0x90, 0x48, 3, 4])
        .build();

    cpu.ex_spi_iy().unwrap();

    // IYH ↔ (SP+1) IYL ↔ (SP)
    Assertor::new(cpu)
        .index_register_iy_is(0x4890)
        .memory_at_address_is(1, 0x39)
        .memory_at_address_is(0, 0x88)
        .program_counter_is(2);
}

#[test]
fn tests_ldi() {
    let mut cpu = CpuBuilder::new()
        .with_memory(vec![0x90, 0x48, 3, 4])
        .with_bc(3)
        .with_de(0)
        .with_hl(1)
        .build();

    cpu.ldi().unwrap();

    Assertor::new(cpu)
        .memory_at_address_is(0, 0x48)      // (DE) ← (HL)
        .register_de_is(1)              // DE ← DE + 1
        .register_hl_is(2)              // HL ← HL + 1
        .register_bc_is(2)              // BC ← BC – 1
        .parity_overflow_flag_is_set()  // P/V is set if BC – 1 ≠ 0
        .program_counter_is(2);
}

#[test]
fn tests_ldir() {
    let mut cpu = CpuBuilder::new()
        .with_memory(vec![0x90, 0x91, 0x92, 0x93, 0x44, 0x45, 0x46, 0x47, 3, 4])
        .with_bc(3)
        .with_de(0)
        .with_hl(4)
        .build();

    cpu.ldir().unwrap();

    Assertor::new(cpu)
        .memory_at_address_is(0, 0x44)      // (DE) ← (HL)
        .memory_at_address_is(1, 0x45)
        .memory_at_address_is(2, 0x46)
        .memory_at_address_is(3, 0x93)
        .register_de_is(3)              // DE ← DE + 1
        .register_hl_is(7)              // HL ← HL + 1
        .register_bc_is(0)              // BC ← BC – 1
        .parity_overflow_flag_is_reset()  // P/V is set if BC – 1 ≠ 0
        .program_counter_is(2);
}

#[test]
fn tests_ldd() {
    let mut cpu = CpuBuilder::new()
        .with_memory(vec![0x90, 0x48, 3, 4])
        .with_bc(3)
        .with_de(3)
        .with_hl(1)
        .build();

    cpu.ldd().unwrap();

    Assertor::new(cpu)
        .memory_at_address_is(0, 0x90)      // (DE) ← (HL)
        .memory_at_address_is(1, 0x48)
        .memory_at_address_is(2, 0x3)
        .memory_at_address_is(3, 0x48)
        .register_de_is(2)              // DE ← DE + 1
        .register_hl_is(0)              // HL ← HL + 1
        .register_bc_is(2)              // BC ← BC – 1
        .parity_overflow_flag_is_set()  // P/V is set if BC – 1 ≠ 0
        .program_counter_is(2);
}

#[test]
fn tests_lddr() {
    let mut cpu = CpuBuilder::new()
        .with_memory(vec![0x90, 0x91, 0x92, 0x93, 0x44, 0x45, 0x46, 0x47, 3, 4])
        .with_bc(3)
        .with_de(3)
        .with_hl(7)
        .build();

    cpu.lddr().unwrap();

    Assertor::new(cpu)
        .memory_at_address_is(0, 0x90)      // (DE) ← (HL)
        .memory_at_address_is(1, 0x45)
        .memory_at_address_is(2, 0x46)
        .memory_at_address_is(3, 0x47)
        .register_de_is(0)              // DE ← DE - 1
        .register_hl_is(4)              // HL ← HL - 1
        .register_bc_is(0)              // BC ← BC - 1
        .parity_overflow_flag_is_reset()  // P/V is set if BC – 1 ≠ 0
        .program_counter_is(2);
}

#[test]
fn tests_cpi() {
    let mut cpu = CpuBuilder::new()
        .with_memory(vec![0x90, 0x91, 0x92, 0x93, 0x3b, 0x45, 0x46, 0x47, 3, 4])
        .with_a(0x3b)
        .with_bc(1)
        .with_hl(4)
        .build();

    cpu.cpi().unwrap();

    Assertor::new(cpu)
        .register_bc_is(0)          // BC ← BC-1
        .register_hl_is(5)          // HL ← HL+1
        .zero_flag_is_set()         // Z is set if A is (HL)
        .parity_overflow_flag_is_reset()  // P/V is set if BC-1 != 0
        .sign_flag_is_positive()
        .carry_flag_is_reset()
        .half_carry_flag_is_reset()
        .add_subtract_flag_is_set()
        .program_counter_is(2);
}

#[test]
fn tests_cpir() {
    let mut cpu = CpuBuilder::new()
        .with_memory(vec![0x90, 0x91, 0x92, 0x93, 0x3b, 0x45, 0x46, 0x47, 3, 4])
        .with_a(0x3b)
        .with_bc(2)
        .with_hl(4)
        .build();

    cpu.cpir().unwrap();

    Assertor::new(cpu)
        .register_bc_is(1)  // BC ← BC-1
        .register_hl_is(5)  // HL ← HL+1
        .zero_flag_is_set()// Z is set if A is (HL)
        .parity_overflow_flag_is_set()  // P/V is set if BC-1 != 0
        .sign_flag_is_positive()    // S is set if result is negative
        .carry_flag_is_reset()// C is not affected
        .half_carry_flag_is_reset()// H is set if borrow from bit 4
        .add_subtract_flag_is_set()
        .program_counter_is(2);
}

#[test]
fn tests_cpd() {
    let mut cpu = CpuBuilder::new()
        .with_memory(vec![0x90, 0x91, 0x92, 0x93, 0x3b, 0x45, 0x46, 0x47, 3, 4])
        .with_a(0x3b)
        .with_bc(1)
        .with_hl(4)
        .build();

    cpu.cpd().unwrap();

    Assertor::new(cpu)
        .register_bc_is(0)  // BC ← BC-1
        .register_hl_is(3)  // HL ← HL-1
        .program_counter_is(2);
}

#[test]
fn tests_cpdr() {
    let mut cpu = CpuBuilder::new()
        .with_memory(vec![0x90, 0x91, 0x92, 0x93, 0x3b, 0x45, 0x46, 0x47, 3, 4])
        .with_a(0x3b)
        .with_bc(2)
        .with_hl(4)
        .build();

    cpu.cpdr().unwrap();

    Assertor::new(cpu)
        .register_bc_is(1)  // BC ← BC-1
        .register_hl_is(3)  // HL ← HL-1
        .program_counter_is(2);
}

#[test]
fn tests_inc_r() {
    let mut cpu = CpuBuilder::new()
        .with_memory(vec![0b00_010_100, 0, 0, 0])
        .with_d(0x28)
        .build();

    cpu.inc_r().unwrap();

    Assertor::new(cpu)
        // If the D Register contains 28h , then upon the execution of an INC D
        // instruction, the D Register contains 29h.
        .register_d_is(0x29)
        .sign_flag_is_positive()
        .zero_flag_is_reset()
        .half_carry_flag_is_reset()
        .parity_overflow_flag_is_reset()
        .add_subtract_flag_is_reset()
        .carry_flag_is_reset()
        .program_counter_is(1);
}

#[test]
fn tests_inc_hli() {
    let mut cpu = CpuBuilder::new()
        .with_memory(vec![0x34, 0x00, 0x00, 0x00])
        .with_hl(0x02)
        .build();

    cpu.inc_hli().unwrap();

    Assertor::new(cpu)
        // (HL) ← (HL) + 1
        .memory_at_address_is(2, 1)
        .sign_flag_is_positive()
        .zero_flag_is_reset()
        .half_carry_flag_is_reset()
        .parity_overflow_flag_is_reset()
        .add_subtract_flag_is_reset()
        .carry_flag_is_reset()
        .program_counter_is(1);
}

#[test]
fn tests_inc_ixdi() {
    let mut cpu = CpuBuilder::new()
        .with_memory(vec![
            0xfd, 0x34, 0x8, 0x00, 0x00, 0x00, 0x00, 0x00, 0x00, 0x06,
        ])
        .with_ix(0x01)
        .build();

    cpu.inc_ixdi().unwrap();

    Assertor::new(cpu)
        // (IX+d) ← (IX+d) + 1
        .memory_at_address_is(9, 7)
        .sign_flag_is_positive()
        .zero_flag_is_reset()
        .half_carry_flag_is_reset()
        .parity_overflow_flag_is_reset()
        .add_subtract_flag_is_reset()
        .carry_flag_is_reset()
        .program_counter_is(3);
}

#[test]
fn tests_inc_iydi() {
    let mut cpu = CpuBuilder::new()
        .with_memory(vec![
            0xfd, 0x34, 0x8, 0x00, 0x00, 0x00, 0x00, 0x00, 0x00, 0x06,
        ])
        .with_iy(0x01)
        .build();

    cpu.inc_iydi().unwrap();

    Assertor::new(cpu)
        // (IY+d) ← (IY+d) + 1
        .memory_at_address_is(9, 7)
        .sign_flag_is_positive()
        .zero_flag_is_reset()
        .half_carry_flag_is_reset()
        .parity_overflow_flag_is_reset()
        .add_subtract_flag_is_reset()
        .carry_flag_is_reset()
        .program_counter_is(3);
}

#[test]
fn tests_dec_r() {
    let mut cpu = CpuBuilder::new()
        .with_memory(vec![0b00_010_101, 0, 0, 0])
        .with_d(0x2a)
        .build();

    cpu.dec_r().unwrap();

    Assertor::new(cpu)
        // If the D Register contains byte 2Ah , then upon the execution
        // of a DEC D instruction, the D Register contains 29h .
        .register_d_is(0x29)
        .sign_flag_is_positive()
        .zero_flag_is_reset()
        .half_carry_flag_is_reset()
        .parity_overflow_flag_is_reset()
        .add_subtract_flag_is_set()
        .carry_flag_is_reset()
        .program_counter_is(1);
}

#[test]
fn tests_dec_hli() {
    let mut cpu = CpuBuilder::new()
        .with_memory(vec![0x34, 0x00, 0x0e, 0x00])
        .with_hl(0x02)
        .build();

    cpu.dec_hli().unwrap();

    Assertor::new(cpu)
        // (HL) ← (HL) - 1
        .memory_at_address_is(2, 0x0d)
        .sign_flag_is_positive()
        .zero_flag_is_reset()
        .half_carry_flag_is_reset()
        .parity_overflow_flag_is_reset()
        .add_subtract_flag_is_set()
        .carry_flag_is_reset()
        .program_counter_is(1);
}

#[test]
fn tests_dec_ixdi() {
    let mut cpu = CpuBuilder::new()
        .with_memory(vec![
            0xdd, 0x35, 0x8, 0x00, 0x00, 0x00, 0x00, 0x00, 0x00, 0x06,
        ])
        .with_ix(0x01)
        .build();

    cpu.dec_ixdi().unwrap();

    Assertor::new(cpu)
        // (IX+d) ← (IX+d) - 1
        .memory_at_address_is(9, 5)
        .sign_flag_is_positive()
        .zero_flag_is_reset()
        .half_carry_flag_is_reset()
        .parity_overflow_flag_is_reset()
        .add_subtract_flag_is_set()
        .carry_flag_is_reset()
        .program_counter_is(3);
}

#[test]
fn tests_dec_iydi() {
    let mut cpu = CpuBuilder::new()
        .with_memory(vec![
            0xfd, 0x35, 0x8, 0x00, 0x00, 0x00, 0x00, 0x00, 0x00, 0x06,
        ])
        .with_iy(0x01)
        .build();

    cpu.dec_iydi().unwrap();

    Assertor::new(cpu)
        // (IX+d) ← (IX+d) - 1
        .memory_at_address_is(9, 5)
        .sign_flag_is_positive()
        .zero_flag_is_reset()
        .half_carry_flag_is_reset()
        .parity_overflow_flag_is_reset()
        .add_subtract_flag_is_set()
        .carry_flag_is_reset()
        .program_counter_is(3);
}

#[test]
fn tests_nop() {
    let mut cpu = CpuBuilder::new().with_memory_size(10).build();

    cpu.nop().unwrap();

    Assertor::new(cpu).program_counter_is(1);
}

#[test]
fn tests_halt() {
    let mut cpu = CpuBuilder::new().with_memory_size(10).build();

    cpu.halt().unwrap();

    assert!(cpu.halted);
    Assertor::new(cpu).program_counter_is(1);
}

#[test]
fn tests_di() {
    let mut cpu = CpuBuilder::new().with_memory_size(10).build();

    cpu.di().unwrap();

    Assertor::new(cpu)
        .interrupt_flip_flop_1_is_reset()
        .interrupt_flip_flop_2_is_reset()
        .program_counter_is(1);
}

#[test]
fn tests_ei() {
    let mut cpu = CpuBuilder::new().with_memory_size(10).build();

    cpu.ei().unwrap();

    Assertor::new(cpu)
        .interrupt_flip_flop_1_is_set()
        .interrupt_flip_flop_2_is_set()
        .program_counter_is(1);
}

#[test]
fn tests_im_0() {
    let mut cpu = CpuBuilder::new().with_memory_size(10).build();
    cpu.im = 3;

    cpu.im_0().unwrap();

    assert_eq!(cpu.im, 0);
    Assertor::new(cpu).program_counter_is(2);
}

#[test]
fn tests_im_1() {
    let mut cpu = CpuBuilder::new().with_memory_size(10).build();
    cpu.im = 3;

    cpu.im_1().unwrap();

    assert_eq!(cpu.im, 1);
    Assertor::new(cpu).program_counter_is(2);
}

#[test]
fn tests_im_2() {
    let mut cpu = CpuBuilder::new().with_memory_size(10).build();
    cpu.im = 3;

    cpu.im_2().unwrap();

    assert_eq!(cpu.im, 2);
    Assertor::new(cpu).program_counter_is(2);
}

#[test]
fn tests_jp_nn() {
    let mut cpu = CpuBuilder::new()
        .with_memory(vec![0xc3, 0x07, 0x00, 0x93, 0x44, 0x45, 0x46, 0x47, 3, 4])
        .build();

    cpu.jp_nn().unwrap();

    Assertor::new(cpu).program_counter_is(7);
}

#[test]
fn tests_jp_cc_nn() {
    // Check non-zero flag
    let mut cpu = CpuBuilder::new()
        .with_memory(vec![0b11_000_101, 0x07, 0])
        .build();

    cpu.jp_cc_nn().unwrap();

    Assertor::new(cpu).program_counter_is(7);
}

#[test]
fn tests_jr_e() {
    let mut cpu = CpuBuilder::new()
        .with_memory(vec![0x18, 0x04, 0, 0, 0, 0, 0, 0])
        .build();

    cpu.jr_e().unwrap();

    Assertor::new(cpu).program_counter_is(6);
}

#[test]
fn tests_jr_c_e() {
    let mut cpu = CpuBuilder::new()
        .with_memory(vec![0x38, 0x04, 0, 0, 0, 0, 0, 0])
        .with_flag_c(true)
        .build();

    cpu.jr_c_e().unwrap();

    Assertor::new(cpu).program_counter_is(6);
}

#[test]
fn tests_jr_nc_e() {
    let mut cpu = CpuBuilder::new()
        .with_memory(vec![0x38, 0x04, 0, 0, 0, 0, 0, 0])
        .with_flag_c(false)
        .build();

    cpu.jr_nc_e().unwrap();

    Assertor::new(cpu).program_counter_is(6);
}

#[test]
fn tests_jr_z_e() {
    let mut cpu = CpuBuilder::new()
        .with_memory(vec![0x38, 0x04, 0, 0, 0, 0, 0, 0])
        .with_flag_z(true)
        .build();

    cpu.jr_z_e().unwrap();

    Assertor::new(cpu).program_counter_is(6);
}

#[test]
fn tests_jr_nz_e() {
    let mut cpu = CpuBuilder::new()
        .with_memory(vec![0x38, 0x04, 0, 0, 0, 0, 0, 0])
        .with_flag_z(false)
        .build();

    cpu.jr_nz_e().unwrap();

    Assertor::new(cpu).program_counter_is(6);
}

#[test]
fn tests_jp_hl() {
    let mut cpu = CpuBuilder::new()
        .with_memory(vec![0xc3, 0x07, 0x00, 0x93, 0x44, 0x45, 0x46, 0x47, 3, 4])
        .with_hl(0x0009)
        .build();

    cpu.jp_hl().unwrap();

    // PC ← HL
    Assertor::new(cpu).program_counter_is(9);
}

#[test]
fn tests_jp_ix() {
    let mut cpu = CpuBuilder::new()
        .with_memory(vec![0xc3, 0x07, 0x00, 0x93, 0x44, 0x45, 0x46, 0x47, 3, 4])
        .with_ix(0x0009)
        .build();

    cpu.jp_ix().unwrap();

    // PC ← IX
    Assertor::new(cpu).program_counter_is(9);
}

#[test]
fn tests_jp_iy() {
    let mut cpu = CpuBuilder::new()
        .with_memory(vec![0xc3, 0x07, 0x00, 0x93, 0x44, 0x45, 0x46, 0x47, 3, 4])
        .with_iy(0x0009)
        .build();

    cpu.jp_iy().unwrap();

    // PC ← IY
    Assertor::new(cpu).program_counter_is(9);
}

#[test]
fn tests_djnz_e() {
    let mut cpu = CpuBuilder::new()
        .with_memory(vec![0x10, 0x04, 0, 0, 0x10, 0x04, 0, 0, 0, 0, 3, 4])
        .with_b(2)
        .build();

    cpu.djnz_e().unwrap();
    Assertor::new(cpu).program_counter_is(6);
}

#[test]
fn tests_memory_at_pc() {
    let cpu = CpuBuilder::new()
        .with_memory(vec![
            0x01, 0x02, 0xa4, 0xa8, 0x0f, 0x11, 0x12, 0x14, 0x18, 0x1f, 0x22, 0x33, 0x44, 0x55,
            0x66, 0x77,
        ])
        .build();

    Assertor::new(cpu)
        .memory_at_address_is(0, 0x01)
        .memory_at_address_is(1, 0x02)
        .memory_at_address_is(9, 0x1f)
        .memory_at_address_is(15, 0x77);
}

#[test]
fn tests_twocmp() {
    assert_eq!(compl2(0), 0);
    assert_eq!(compl2(0b0000_0001), 0b1111_1111);
    assert_eq!(compl2(0b0000_0010), 0b1111_1110);
    assert_eq!(compl2(0b0111_1110), 0b1000_0010);
    assert_eq!(compl2(0b0111_1111), 0b1000_0001);
    assert_eq!(compl2(0b1111_1111), 0b0000_0001);
}

#[test]
fn tests_incr_pc() {
    let mut cpu = CpuBuilder::new().with_memory_size(16).build();
    cpu.incr_pc(2);
    Assertor::new(cpu).program_counter_is(2);
}

#[test]
fn tests_ld_r_r1() {
    // Set initial cpu status and memory
    let mut cpu = CpuBuilder::new()
        .with_memory(vec![
            0b01_100_011, // LD H,E
            0b01_001_010, // LD C,D
            0,
            0,
        ])
        .with_d(19)
        .with_e(26)
        .build();

    // Load registers while pc = 0
    cpu.ld_r_r1().unwrap();

    Assertor::new(cpu)
        .register_a_is(0)
        .register_b_is(0)
        .register_c_is(0)
        .register_d_is(19)
        .register_e_is(26)
        .register_f_is(0)
        .register_h_is(26)
        .register_l_is(0)
        .interrupt_vector_is(0)
        .program_counter_is(1);
}

#[test]
fn tests_ld_r_n() {
    // Set initial cpu status and memory
    let mut cpu = CpuBuilder::new()
        .with_memory(vec![
            0b00_100_110, // LD H, 0xFA
            0xfa,
            0b00_000_110, // LD B, 0xFB
            0xfb,
            0,
            0,
            0,
            0,
        ])
        .build();

    // Load registers while pc = 0
    cpu.ld_r_n().unwrap();

    Assertor::new(cpu)
        .register_a_is(0)
        .register_b_is(0)
        .register_c_is(0)
        .register_d_is(0)
        .register_e_is(0)
        .register_f_is(0)
        .register_h_is(0xfa)
        .register_l_is(0)
        .interrupt_vector_is(0)
        .program_counter_is(2);

}

#[test]
fn tests_ld_r_hl() {
    let mut cpu = CpuBuilder::new()
        .with_memory(vec![
            0b01_000_110, // LD B, (HL)
            0x01,
            0xfb,
            0,
        ])
        .with_hl(2)
        .build();

    cpu.ld_r_hl().unwrap();

    Assertor::new(cpu)
        .register_b_is(0xfb)
        .program_counter_is(1);
}

#[test]
fn tests_ld_r_ixd() {
    let mut cpu = CpuBuilder::new()
        .with_memory(vec![0xdd, 0b01_000_110, 0b1111_1111, 0xfb, 0, 0, 0, 0])
        .with_ix(4)
        .build();

    cpu.ld_r_ixd().unwrap();

    Assertor::new(cpu)
        .register_b_is(0xfb)
        .program_counter_is(3);
}

#[test]
fn tests_ld_r_iyd() {
    let mut cpu = CpuBuilder::new()
        .with_memory(vec![0xfd, 0b01_000_110, 0b1111_1111, 0xfb, 0, 0, 0, 0])
        .with_iy(4)
        .build();

    cpu.ld_r_iyd().unwrap();

    Assertor::new(cpu)
        .register_b_is(0xfb)
        .program_counter_is(3);
}

#[test]
fn tests_ld_hl_r() {
    let mut cpu = CpuBuilder::new()
        .with_memory(vec![
            0b01110_010, // LD (HL), D
            0,
            0,
            0,
        ])
        .with_d(0xfa)
        .with_hl(2)
        .build();

    cpu.ld_hl_r().unwrap();

    Assertor::new(cpu)
        .memory_at_address_is(2, 0xfa)
        .program_counter_is(1);
}

#[test]
fn tests_ld_ixd_r() {
    let mut cpu = CpuBuilder::new()
        .with_memory(vec![
            0xdd, // LD (IX+D), R
            0b01110_111,
            0xff, // D
            1,
            2,
            3,
            4,
            5,
        ])
        .with_ix(4)
        .with_a(0xfb)
        .build();

    cpu.ld_ixd_r().unwrap();
    Assertor::new(cpu)
        .memory_at_address_is(3, 0xfb)
        .program_counter_is(3);
}

#[test]
fn tests_ld_iyd_r() {
    let mut cpu = CpuBuilder::new()
        .with_memory(vec![
            0xfd, // LD (IY+D), R
            0b01110_111,
            0xff, // D
            1,
            2,
            3,
            4,
            5,
        ])
        .with_iy(4)
        .with_a(0xfb)
        .build();

    cpu.ld_iyd_r().unwrap();

    Assertor::new(cpu)
        .memory_at_address_is(3, 0xfb)
        .program_counter_is(3);
}

#[test]
fn tests_ld_hl_n() {
    let mut cpu = CpuBuilder::new()
        .with_memory(vec![
            0x36, // LD (HL), N
            0xfa, 0, 0,
        ])
        .with_hl(3)
        .build();

    cpu.ld_hl_n().unwrap();

    Assertor::new(cpu)
        .memory_at_address_is(3, 0xfa)
        .program_counter_is(2);
}

#[test]
fn tests_ld_ixd_n() {
    let mut cpu = CpuBuilder::new()
        .with_memory(vec![
            0xdd, // LD (IX+D), N
            0x36, 0x02, // D
            0xfb, // N
            1, 2, 3, 4,
        ])
        .with_ix(4)
        .build();

    cpu.ld_ixd_n().unwrap();

    Assertor::new(cpu)
        .memory_at_address_is(6, 0xfb)
        .program_counter_is(4);
}

#[test]
fn tests_ld_iyd_n() {
    let mut cpu = CpuBuilder::new()
        .with_memory(vec![
            0xfd, // LD (IY+D), N
            0x36, 0x02, // D
            0xfb, // N
            1, 2, 3, 4,
        ])
        .with_iy(4)
        .build();

    cpu.ld_iyd_n().unwrap();

    Assertor::new(cpu)
        .memory_at_address_is(6, 0xfb)
        .program_counter_is(4);
}

#[test]
fn tests_ld_a_bc() {
    let mut cpu = CpuBuilder::new()
        .with_memory(vec![
            0x0a, // LD A, (BC)
            0x01, 0xf2, 0x03,
        ])
        .with_bc(2)
        .build();

    cpu.ld_a_bc().unwrap();

    Assertor::new(cpu)
        .register_a_is(0xf2)
        .program_counter_is(1);
}

#[test]
fn tests_ld_a_de() {
    let mut cpu = CpuBuilder::new()
        .with_memory(vec![
            0x1a, // LD A, (DE)
            0x01, 0xf2, 0x03,
        ])
        .with_de(2)
        .build();

    cpu.ld_a_de().unwrap();

    Assertor::new(cpu)
        .register_a_is(0xf2)
        .program_counter_is(1);
}

#[test]
fn tests_ld_a_nn() {
    let mut cpu = CpuBuilder::new()
        .with_memory(vec![
            0x3a, // LD A, NN
            0x03, 0, 0x13,
        ])
        .build();

    cpu.ld_a_nn().unwrap();

    Assertor::new(cpu)
        .register_a_is(0x13)
        .program_counter_is(3);
}

#[test]
fn tests_ld_a_i() {
    let mut cpu = CpuBuilder::new()
        .with_memory_size(16)
        .with_i(0x3b)
        .with_iff2(false)
        .with_flag_c(true)
        .build();

    cpu.ld_a_i().unwrap();

    Assertor::new(cpu)
        .register_a_is(0x3b)
        .sign_flag_is_positive()
        .half_carry_flag_is_reset()
        .add_subtract_flag_is_reset()
        .carry_flag_is_set()
        .zero_flag_is_reset()
        .parity_overflow_flag_is_reset()
        .program_counter_is(2);
}

#[test]
fn tests_ld_a_r() {
    let mut cpu = CpuBuilder::new()
        .with_memory_size(16)
        .with_r(0x3b)
        .with_iff2(false)
        .with_flag_c(true)
        .build();

    cpu.ld_a_r().unwrap();

    Assertor::new(cpu)
        .register_a_is(0x3b)
        .sign_flag_is_positive()
        .half_carry_flag_is_reset()
        .add_subtract_flag_is_reset()
        .carry_flag_is_set()
        .zero_flag_is_reset()
        .parity_overflow_flag_is_reset()
        .program_counter_is(2);
}

#[test]
fn tests_ld_i_a() {
    let mut cpu = CpuBuilder::new().with_memory_size(16).with_a(12).build();

    cpu.ld_i_a().unwrap();

    Assertor::new(cpu)
        .interrupt_vector_is(12)
        .program_counter_is(2);
}

#[test]
fn tests_ld_r_a() {
    let mut cpu = CpuBuilder::new().with_memory_size(16).with_a(12).build();

    cpu.ld_r_a().unwrap();

    Assertor::new(cpu)
        .memory_refresh_register_is(12)
        .program_counter_is(2);
}

#[test]
fn tests_rlca() {
    let mut cpu = CpuBuilder::new()
        .with_a(0b1010_1010)
        .with_memory_size(16)
        .build();

    cpu.rlca().unwrap();

    Assertor::new(cpu)
        .register_a_is(0b0101_0101)

        // S, Z, P/V are not affected.
        .sign_is_positive()
        .zero_flag_is_reset()
        .parity_overflow_flag_is_reset()
        
        // H, N are reset.
        .half_carry_flag_is_reset()
        .add_subtract_flag_is_reset()
        
        // C is data from bit 7 of Accumulator.
        .carry_flag_is_set()
   
        // The contents of the Accumulator (Register A) are rotated left 1 bit position.
        .register_a_is(0b0101_0101)
    
        .program_counter_is(1);
}

#[test]
fn tests_rla() {
    let mut cpu = CpuBuilder::new()
        .with_a(0b0111_0110)
        .with_flag_c(true)
        .with_memory_size(16)
        .build();

    cpu.rla().unwrap();

    Assertor::new(cpu)
    
        // S, Z, P/V are not affected.
        .sign_is_positive()
        .zero_flag_is_reset()
        .parity_overflow_flag_is_reset()
        
        // H, N are reset.
        .half_carry_flag_is_reset()
        .add_subtract_flag_is_reset()
        
        // C is data from bit 7 of Accumulator.
        .carry_flag_is_reset()

        // The contents of the Accumulator (Register A) are rotated left 1 bit position.
        .register_a_is(0b1110_1101)

        .program_counter_is(1);
}

#[test]
fn tests_rrca() {
    let mut cpu = CpuBuilder::new()
        .with_a(0b0001_0001)
        .with_flag_c(false)
        .with_memory_size(16)
        .build();

    cpu.rrca().unwrap();

    Assertor::new(cpu)
        .register_a_is(0b1000_1000)
    
        // S, Z, P/V are not affected.
        .sign_is_positive()
        .zero_flag_is_reset()
        .parity_overflow_flag_is_reset()
        
        // H, N are reset.
        .half_carry_flag_is_reset()
        .add_subtract_flag_is_reset()
        
        // C is data from bit 0 of Accumulator.
        .carry_flag_is_set()
    
        // The contents of the Accumulator (Register A) are rotated right 1 bit position.
        .register_a_is(0b1000_1000)
        
        .program_counter_is(1);
}

#[test]
fn tests_rra() {
    let mut cpu = CpuBuilder::new()
        .with_a(0b0001_0001)
        .with_flag_c(false)
        .with_memory_size(16)
        .build();

    cpu.rra().unwrap();

    Assertor::new(cpu)
        .register_a_is(0b0000_1000)

        // S, Z, P/V are not affected.
        .sign_is_positive()
        .zero_flag_is_reset()
        .parity_overflow_flag_is_reset()
        
        // H, N are reset.
        .half_carry_flag_is_reset()
        .add_subtract_flag_is_reset()
        
        // C is data from bit 0 of Accumulator.
        .carry_flag_is_set()
    
        // The contents of the Accumulator (Register A) are rotated right 1 bit
        // position through the Carry flag. The previous contents of the Carry
        // flag are copied to bit 7.
        .register_a_is(0b0000_1000)
        
        .program_counter_is(1);
}

#[test]
fn tests_rlc_r() {
    let mut cpu = CpuBuilder::new()
        .with_l(0b1010_1010)
        .with_memory(vec!(0xcb, 0b0000_0101, 0, 0))
        .build();

    cpu.rlc_r().unwrap();

    Assertor::new(cpu)
        .sign_is_positive()
        .zero_flag_is_reset()
        .parity_overflow_flag_is_set()
        .half_carry_flag_is_reset()
        .add_subtract_flag_is_reset()
        .carry_flag_is_set()
    
        // The contents of register r are rotated left 1 bit position. The contents of bit 7 
        // are copied to the Carry flag and also to bit 0.
        .register_l_is(0b0101_0101)

        .program_counter_is(2);
}

#[test]
fn tests_rlc_hli() {
    let mut cpu = CpuBuilder::new()
        .with_flag_c(false)
        .with_hl(6)
        .with_memory(vec!(0xcb, 0x06, 0, 0, 0xca, 0xfe, 0xba, 0xbe))
        .build();

    // 0xba = 0b1011_1010
    cpu.rlc_hli().unwrap();

    Assertor::new(cpu)
        .memory_at_address_is(0x06, 0b0111_0101)
        .sign_is_positive()
        .zero_flag_is_reset()

        // P/V is set if parity even; otherwise, it is reset.
        .parity_overflow_flag_is_reset()

        .half_carry_flag_is_reset()
        .add_subtract_flag_is_reset()
        .carry_flag_is_set()
        .program_counter_is(2);
}

#[test]
fn tests_rlc_ixdi() {
    let mut cpu = CpuBuilder::new()
        .with_flag_c(false)
        .with_ix(4)
        .with_memory(vec!(0xdd, 0xcb, 0x02, 0x06, 0xca, 0xfe, 0b1000_1000, 0xbe))
        .build();

    cpu.rlc_ixdi().unwrap();

    Assertor::new(cpu)
        .sign_is_positive()
        .zero_flag_is_reset()

        // P/V is set if parity even; otherwise, it is reset.
        .parity_overflow_flag_is_set()

        .half_carry_flag_is_reset()
        .add_subtract_flag_is_reset()
        .carry_flag_is_set()
        .memory_at_address_is(0x06, 0b0001_0001)
        .program_counter_is(4);
}

#[test]
fn tests_rlc_iydi() {
    let mut cpu = CpuBuilder::new()
        .with_flag_c(false)
        .with_iy(4)
        .with_memory(vec!(0xdd, 0xcb, 0x02, 0x06, 0xca, 0xfe, 0b1000_1000, 0xbe))
        .build();

    cpu.rlc_iydi().unwrap();

    Assertor::new(cpu)
        .sign_is_positive()
        .zero_flag_is_reset()

        // P/V is set if parity even; otherwise, it is reset.
        .parity_overflow_flag_is_set()

        .half_carry_flag_is_reset()
        .add_subtract_flag_is_reset()
        .carry_flag_is_set()
        .memory_at_address_is(0x06, 0b0001_0001)
        .program_counter_is(4);
}

#[test]
fn tests_rl_r() {
    let mut cpu = CpuBuilder::new()
        .with_flag_c(false)
        .with_a(0b1101_1101)
        .with_memory(vec!(0xcb, 0b0000_1111, 0xba, 0xbe))
        .build();

    cpu.rl_r().unwrap();

    Assertor::new(cpu)
        .register_a_is(0b1011_1010)
        .sign_is_negative()
        .zero_flag_is_reset()
        .parity_overflow_flag_is_reset()
        .half_carry_flag_is_reset()
        .add_subtract_flag_is_reset()
        .carry_flag_is_set()
        .program_counter_is(2);
}

#[test]
fn tests_rl_hli() {
    let mut cpu = CpuBuilder::new()
        .with_flag_c(false)
        .with_hl(0x06)
        .with_memory(vec!(0xcb, 0x16, 0xba, 0xbe, 0x00, 0x00, 0b1101_1101))
        .build();

    cpu.rl_hli().unwrap();

    Assertor::new(cpu)
        .memory_at_address_is(0x06, 0b1011_1010)
        .sign_is_negative()
        .zero_flag_is_reset()
        .parity_overflow_flag_is_reset()
        .half_carry_flag_is_reset()
        .add_subtract_flag_is_reset()
        .carry_flag_is_set()
        .program_counter_is(2);
}

#[test]
fn tests_rl_ixdi() {
    let mut cpu = CpuBuilder::new()
        .with_flag_c(false)
        .with_ix(0x05)
        .with_memory(vec!(0xdd, 0xcb, 0x01, 0x16, 0x00, 0x00, 0b1101_1101))
        .build();

    cpu.rl_ixdi().unwrap();

    Assertor::new(cpu)
        .memory_at_address_is(0x06, 0b1011_1010)
        .sign_is_negative()
        .zero_flag_is_reset()
        .parity_overflow_flag_is_reset()
        .half_carry_flag_is_reset()
        .add_subtract_flag_is_reset()
        .carry_flag_is_set()
        .program_counter_is(4);
}

#[test]
fn tests_rl_iydi() {
    let mut cpu = CpuBuilder::new()
        .with_flag_c(false)
        .with_iy(0x05)
        .with_memory(vec!(0xfd, 0xcb, 0x01, 0x16, 0x00, 0x00, 0b1101_1101))
        .build();

    cpu.rl_iydi().unwrap();

    Assertor::new(cpu)
        .memory_at_address_is(0x06, 0b1011_1010)
        .sign_is_negative()
        .zero_flag_is_reset()
        .parity_overflow_flag_is_reset()
        .half_carry_flag_is_reset()
        .add_subtract_flag_is_reset()
        .carry_flag_is_set()
        .program_counter_is(4);
}

#[test]
fn tests_rrc_r() {
    let mut cpu = CpuBuilder::new()
        .with_l(0b1010_1010)
        .with_memory(vec!(0xcb, 0b0000_1101, 0, 0))
        .build();

    cpu.rrc_r().unwrap();

    Assertor::new(cpu)
        .sign_is_positive()
        .zero_flag_is_reset()
        .parity_overflow_flag_is_set()
        .half_carry_flag_is_reset()
        .add_subtract_flag_is_reset()
        .carry_flag_is_reset()
        .register_l_is(0b0101_0101)
        .program_counter_is(2);
}

#[test]
fn tests_rrc_hli() {
    let mut cpu = CpuBuilder::new()
        .with_flag_c(false)
        .with_hl(6)
        .with_memory(vec!(0xcb, 0x0e, 0, 0, 0xca, 0xfe, 0xba, 0xbe))
        .build();

    // 0xba = 0b1011_1010
    cpu.rrc_hli().unwrap();

    Assertor::new(cpu)
        .sign_is_positive()
        .zero_flag_is_reset()
        .parity_overflow_flag_is_reset()
        .half_carry_flag_is_reset()
        .add_subtract_flag_is_reset()
        .carry_flag_is_reset()
        .memory_at_address_is(0x06, 0b0101_1101)
        .program_counter_is(2);
}

#[test]
fn tests_rrc_ixdi() {
    let mut cpu = CpuBuilder::new()
        .with_flag_c(false)
        .with_ix(4)
        .with_memory(vec!(0xdd, 0xcb, 0x02, 0x06, 0xca, 0xfe, 0b1000_1000, 0xbe))
        .build();

    cpu.rrc_ixdi().unwrap();

    Assertor::new(cpu)
        .sign_is_positive()
        .zero_flag_is_reset()
        .parity_overflow_flag_is_set()
        .half_carry_flag_is_reset()
        .add_subtract_flag_is_reset()
        .carry_flag_is_reset()
        .memory_at_address_is(0x06, 0b0100_0100)
        .program_counter_is(4);
}

#[test]
fn tests_rrc_iydi() {
    let mut cpu = CpuBuilder::new()
        .with_flag_c(false)
        .with_iy(4)
        .with_memory(vec!(0xdd, 0xcb, 0x02, 0x06, 0xca, 0xfe, 0b1000_1000, 0xbe))
        .build();

    cpu.rrc_iydi().unwrap();

    Assertor::new(cpu)
        .sign_is_positive()
        .zero_flag_is_reset()
        .parity_overflow_flag_is_set()
        .half_carry_flag_is_reset()
        .add_subtract_flag_is_reset()
        .carry_flag_is_reset()
        .memory_at_address_is(0x06, 0b0100_0100)
        .program_counter_is(4);
}

#[test]
fn tests_rr_r() {
    let mut cpu = CpuBuilder::new()
        .with_flag_c(false)
        .with_a(0b1101_1101)
        .with_memory(vec!(0xcb, 0b0000_1111, 0xba, 0xbe))
        .build();

    cpu.rr_r().unwrap();

    Assertor::new(cpu)
        .register_a_is(0b0110_1110)
        .sign_is_positive()
        .zero_flag_is_reset()
        .parity_overflow_flag_is_reset()
        .half_carry_flag_is_reset()
        .add_subtract_flag_is_reset()
        .carry_flag_is_set()
        .program_counter_is(2);
}

#[test]
fn tests_rr_hli() {
    let mut cpu = CpuBuilder::new()
        .with_flag_c(false)
        .with_hl(0x03)
        .with_memory(vec!(0xcb, 0x1e, 0xba, 0b1101_1101))
        .build();

    cpu.rr_hli().unwrap();

    Assertor::new(cpu)
        .memory_at_address_is(0x03, 0b0110_1110)
        .sign_is_positive()
        .zero_flag_is_reset()
        .parity_overflow_flag_is_reset()
        .half_carry_flag_is_reset()
        .add_subtract_flag_is_reset()
        .carry_flag_is_set()
        .program_counter_is(2);
}

#[test]
fn tests_rr_ixdi() {
    let mut cpu = CpuBuilder::new()
        .with_flag_c(false)
        .with_ix(0x06)
        .with_memory(vec!(0xdd, 0xcb, 0x01, 0x1e, 0xba, 0xbe, 0x00, 0b1101_1101))
        .build();

    cpu.rr_ixdi().unwrap();

    Assertor::new(cpu)
        .memory_at_address_is(0x07, 0b0110_1110)
        .sign_is_positive()
        .zero_flag_is_reset()
        .parity_overflow_flag_is_reset()
        .half_carry_flag_is_reset()
        .add_subtract_flag_is_reset()
        .carry_flag_is_set()
        .program_counter_is(4);
}

#[test]
fn tests_rr_iydi() {
    let mut cpu = CpuBuilder::new()
        .with_flag_c(false)
        .with_iy(0x06)
        .with_memory(vec!(0xfd, 0xcb, 0x01, 0x1e, 0xba, 0xbe, 0x00, 0b1101_1101))
        .build();

    cpu.rr_iydi().unwrap();

    Assertor::new(cpu)
        .memory_at_address_is(0x07, 0b0110_1110)
        .sign_is_positive()
        .zero_flag_is_reset()
        .parity_overflow_flag_is_reset()
        .half_carry_flag_is_reset()
        .add_subtract_flag_is_reset()
        .carry_flag_is_set()
        .program_counter_is(4);
}

#[test]
fn tests_rld() {
    let mut cpu = CpuBuilder::new()
        .with_flag_c(false)
        .with_iy(0x06)
        .with_memory(vec!(0xed, 0x6f))
        .build();

    cpu.rld().unwrap();

    // Assertor::new(cpu)
    //     .memory_at_address_is(0x07, 0b0110_1110)
    //     .sign_is_positive()
    //     .zero_flag_is_reset()
    //     .parity_overflow_flag_is_set()
    //     .half_carry_flag_is_reset()
    //     .add_subtract_flag_is_reset()
    //     .carry_flag_is_set()
    //     .program_counter_is(4);
}

#[test]
fn tests_rrd() {
    let mut cpu = CpuBuilder::new()
        .with_flag_c(false)
        .with_iy(0x06)
        .with_memory(vec!(0xfd, 0xcb, 0x01, 0x1e, 0xba, 0xbe, 0x00, 0b1101_1101))
        .build();

    cpu.rrd().unwrap();

    // Assertor::new(cpu)
    //     .memory_at_address_is(0x07, 0b0110_1110)
    //     .sign_is_positive()
    //     .zero_flag_is_reset()
    //     .parity_overflow_flag_is_set()
    //     .half_carry_flag_is_reset()
    //     .add_subtract_flag_is_reset()
    //     .carry_flag_is_set()
    //     .program_counter_is(4);
}

#[test]
fn tests_sla_r() {
    let mut cpu = CpuBuilder::new()
        .with_l(0b1011_0001)
        .with_memory(vec![0xcb, 0b0010_0101, 0, 0, 0, 0, 0, 0])
        .build();

    cpu.sla_r().unwrap();

    Assertor::new(cpu)
        .register_l_is(0b0110_0010)
        .carry_flag_is_set()
        .sign_is_positive()
        .zero_flag_is_reset()
        .parity_overflow_flag_is_reset()
        .half_carry_flag_is_reset()
        .add_subtract_flag_is_reset()
        .program_counter_is(2);
}

#[test]
fn tests_sla_hli() {
    let mut cpu = CpuBuilder::new()
        .with_hl(0x07)
        .with_memory(vec![0xcb, 0x26, 0, 0, 0, 0, 0, 0b1011_0001])
        .build();

    cpu.sla_hli().unwrap();

    Assertor::new(cpu)
        .memory_at_address_is(0x07, 0b0110_0010)
        .carry_flag_is_set()
        .sign_is_positive()
        .zero_flag_is_reset()
        .parity_overflow_flag_is_reset()
        .half_carry_flag_is_reset()
        .add_subtract_flag_is_reset()
        .program_counter_is(2);
}

#[test]
fn tests_sla_ixdi() {
    let mut cpu = CpuBuilder::new()
        .with_ix(0x06)
        .with_memory(vec![0xdd, 0xcb, 0x01, 0x26, 0, 0, 0, 0b1011_0001])
        .build();

    cpu.sla_ixdi().unwrap();

    Assertor::new(cpu)
        .memory_at_address_is(0x07, 0b0110_0010)
        .carry_flag_is_set()
        .sign_is_positive()
        .zero_flag_is_reset()
        .parity_overflow_flag_is_reset()
        .half_carry_flag_is_reset()
        .add_subtract_flag_is_reset()
        .program_counter_is(4);
}

#[test]
fn tests_sla_iydi() {
    let mut cpu = CpuBuilder::new()
        .with_iy(0x06)
        .with_memory(vec![0xfd, 0xcb, 0x01, 0x26, 0, 0, 0, 0b1011_0001])
        .build();

    cpu.sla_iydi().unwrap();

    Assertor::new(cpu)
        .memory_at_address_is(0x07, 0b0110_0010)
        .carry_flag_is_set()
        .sign_is_positive()
        .zero_flag_is_reset()
        .parity_overflow_flag_is_reset()
        .half_carry_flag_is_reset()
        .add_subtract_flag_is_reset()
        .program_counter_is(4);
}

#[test]
fn tests_sra_r() {
    let mut cpu = CpuBuilder::new()
        .with_l(0b1011_1000)
        .with_memory(vec![0xcb, 0b0010_1101, 0, 0, 0, 0, 0, 0])
        .build();

    cpu.sra_r().unwrap();

    Assertor::new(cpu)
        .register_l_is(0b1101_1100)
        .carry_flag_is_reset()
        .sign_is_negative()
        .zero_flag_is_reset()
        .parity_overflow_flag_is_reset()
        .half_carry_flag_is_reset()
        .add_subtract_flag_is_reset()
        .program_counter_is(2);
}

#[test]
fn tests_sra_hli() {
    let mut cpu = CpuBuilder::new()
        .with_hl(0x07)
        .with_memory(vec![0xcb, 0x2e, 0, 0, 0, 0, 0, 0b1011_1000])
        .build();

    cpu.sra_hli().unwrap();

    Assertor::new(cpu)
        .memory_at_address_is(0x07, 0b1101_1100)
        .carry_flag_is_reset()
        .sign_is_negative()
        .zero_flag_is_reset()
        .parity_overflow_flag_is_reset()
        .half_carry_flag_is_reset()
        .add_subtract_flag_is_reset()
        .program_counter_is(2);
}

#[test]
fn tests_sra_ixdi() {
    let mut cpu = CpuBuilder::new()
        .with_ix(0x06)
        .with_memory(vec![0xdd, 0xcb, 0x01, 0x2e, 0, 0, 0, 0b1011_1000])
        .build();

    cpu.sra_ixdi().unwrap();

    Assertor::new(cpu)
        .memory_at_address_is(0x07, 0b1101_1100)
        .carry_flag_is_reset()
        .sign_is_negative()
        .zero_flag_is_reset()
        .parity_overflow_flag_is_reset()
        .half_carry_flag_is_reset()
        .add_subtract_flag_is_reset()
        .program_counter_is(4);
}

#[test]
fn tests_sra_iydi() {
    let mut cpu = CpuBuilder::new()
        .with_iy(0x06)
        .with_memory(vec![0xfd, 0xcb, 0x01, 0x2e, 0, 0, 0, 0b1011_1000])
        .build();

    cpu.sra_iydi().unwrap();

    Assertor::new(cpu)
        .memory_at_address_is(0x07, 0b1101_1100)
        .carry_flag_is_reset()
        .sign_is_negative()
        .zero_flag_is_reset()
        .parity_overflow_flag_is_reset()
        .half_carry_flag_is_reset()
        .add_subtract_flag_is_reset()
        .program_counter_is(4);
}

#[test]
fn tests_srl_r() {
    let mut cpu = CpuBuilder::new()
        .with_l(0b1000_1111)
        .with_memory(vec![0xcb, 0b0011_1101, 0, 0, 0, 0, 0, 0])
        .build();

    cpu.srl_r().unwrap();

    Assertor::new(cpu)
        .register_l_is(0b0100_0111)
        .carry_flag_is_set()
        .sign_is_positive()
        .zero_flag_is_reset()
        .parity_overflow_flag_is_set()
        .half_carry_flag_is_reset()
        .add_subtract_flag_is_reset()
        .program_counter_is(2);
}

#[test]
fn tests_srl_hli() {
    let mut cpu = CpuBuilder::new()
        .with_hl(0x07)
        .with_memory(vec![0xcb, 0xcb, 0x01, 0x3e, 0, 0, 0, 0b1000_1111])
        .build();

    cpu.srl_hli().unwrap();

    Assertor::new(cpu)
        .memory_at_address_is(0x07, 0b0100_0111)
        .carry_flag_is_set()
        .sign_is_positive()
        .zero_flag_is_reset()
        .parity_overflow_flag_is_set()
        .half_carry_flag_is_reset()
        .add_subtract_flag_is_reset()
        .program_counter_is(2);
}

#[test]
fn tests_srl_ixdi() {
    let mut cpu = CpuBuilder::new()
        .with_ix(0x06)
        .with_memory(vec![0xdd, 0xcb, 0x01, 0x3e, 0, 0, 0, 0b1000_1111])
        .build();

    cpu.srl_ixdi().unwrap();

    Assertor::new(cpu)
        .memory_at_address_is(0x07, 0b0100_0111)
        .carry_flag_is_set()
        .sign_is_positive()
        .zero_flag_is_reset()
        .parity_overflow_flag_is_set()
        .half_carry_flag_is_reset()
        .add_subtract_flag_is_reset()
        .program_counter_is(4);
}

#[test]
fn tests_srl_iydi() {
    let mut cpu = CpuBuilder::new()
        .with_iy(0x06)
        .with_memory(vec![0xfd, 0xcb, 0x01, 0x3e, 0, 0, 0, 0b1000_1111])
        .build();

    cpu.srl_iydi().unwrap();

    Assertor::new(cpu)
        .memory_at_address_is(0x07, 0b0100_0111)
        .carry_flag_is_set()
        .sign_is_positive()
        .zero_flag_is_reset()
        .parity_overflow_flag_is_set()
        .half_carry_flag_is_reset()
        .add_subtract_flag_is_reset()
        .program_counter_is(4);
}

#[test]
fn tests_push_qq() {
let mut cpu = CpuBuilder::new()
.with_memory(
    vec![
        0b11_00_0101, // PUSH BC
        0b11_10_0101, // PUSH HL
        0,
        0,
        0,
        0,
        0,
        0,
    ],
)
.with_sp(0x0008)
.with_b(0xca) // BC = 0xcaf3
.with_c(0xf3)
.with_h(0x12) // HL = 0x1234
.with_l(0x34)
.build();

cpu.push_qq().unwrap();

Assertor::new(cpu)
    .memory_at_address_is(7, 0xca)
    .memory_at_address_is(6, 0xf3)
    .stack_pointer_is(6)
    .program_counter_is(1);
}

#[test]
fn tests_push_ix() {
let mut cpu = CpuBuilder::new()
    .with_memory(vec![
        0xdd, // PUSH IX
        0xe5, 0, 0, 0, 0, 0, 0,
    ])
    .with_sp(0x0008)
    .with_ix(0xcaf3)
    .build();

cpu.push_ix().unwrap();


Assertor::new(cpu)
    .memory_at_address_is(7, 0xca)
    .memory_at_address_is(6, 0xf3)
    .stack_pointer_is(6)
    .program_counter_is(2);
}

#[test]
fn tests_push_iy() {
let mut cpu = CpuBuilder::new()
    .with_memory(vec![
        0xfd, // PUSH IY
        0xe5, 0, 0, 0, 0, 0, 0,
    ])
    .with_sp(0x0008)
    .with_iy(0xcaf3)
    .build();

cpu.push_iy().unwrap();

Assertor::new(cpu)
    .memory_at_address_is(7, 0xca)
    .memory_at_address_is(6, 0xf3)
    .stack_pointer_is(6)
    .program_counter_is(2);
}

#[test]
fn tests_pop_qq() {
let mut cpu = CpuBuilder::new()
    .with_memory(vec![
        0b11_11_0001, // POP AF
        0,
        0,
        0,
        0,
        0,
        0xf3,
        0xca,
    ])
    .with_sp(0x0006)
    .build();

cpu.pop_qq().unwrap();

Assertor::new(cpu)
    .register_a_is(0xca)
    .register_f_is(0xf3)
    .stack_pointer_is(8)
    .program_counter_is(1);
}

#[test]
fn tests_pop_ix() {
let mut cpu = CpuBuilder::new()
    .with_memory(vec![
        0xdd, // POP IX
        0xe1, 0, 0, 0, 0, 0xf3, 0xca,
    ])
    .with_sp(0x0006)
    .build();

cpu.pop_ix().unwrap();

Assertor::new(cpu)
    .index_register_ix_is(0xcaf3)
    .stack_pointer_is(8)
    .program_counter_is(2);
}

#[test]
fn tests_pop_iy() {
let mut cpu = CpuBuilder::new()
    .with_memory(vec![
        0xfd, // POP IY
        0xe1, 0, 0, 0, 0, 0xf3, 0xca,
    ])
    .with_sp(0x0006)
    .build();

cpu.pop_iy().unwrap();

Assertor::new(cpu)
    .index_register_iy_is(0xcaf3)
    .stack_pointer_is(8)
    .program_counter_is(2);
}

#[test]
fn tests_sub_r() {
    let mut cpu = CpuBuilder::new()
        .with_memory(vec![0b10010_010, 0x66, 0x66, 0x66])
        .with_a(0x29)
        .with_d(0x11)
        .build();

    cpu.sub_r().unwrap();

    Assertor::new(cpu)
        .register_a_is(0x18)
        .sign_flag_is_positive()
        .zero_flag_is_reset()
        //.parity_overflow_flag_is_reset()
        .add_subtract_flag_is_set()
        .program_counter_is(1);
}

#[test]
fn tests_sub_n() {
    let mut cpu = CpuBuilder::new()
        .with_memory(vec![0xd6, 0x11, 0x66, 0x66])
        .with_a(0x29)
        .build();

    cpu.sub_n().unwrap();

    Assertor::new(cpu)
        .register_a_is(0x18)
        .sign_flag_is_positive()
        .zero_flag_is_reset()
        //.parity_overflow_flag_is_reset()
        .add_subtract_flag_is_set()
        .program_counter_is(2);
}

#[test]
fn tests_sub_hli() {
    let mut cpu = CpuBuilder::new()
        .with_memory(vec![0x96, 0x11, 0x66, 0x66])
        .with_a(0x29)
        .with_hl(0x1)
        .build();

    cpu.sub_hli().unwrap();

    Assertor::new(cpu)
        .register_a_is(0x18)
        .sign_flag_is_positive()
        .zero_flag_is_reset()
        //.parity_overflow_flag_is_reset()
        .add_subtract_flag_is_set()
        .program_counter_is(1);
}

#[test]
fn tests_sub_ixdi() {
    let mut cpu = CpuBuilder::new()
        .with_memory(vec![0xdd, 0x96, 0x02, 0x11])
        .with_a(0x29)
        .with_ix(0x01)
        .build();

    cpu.sub_ixdi().unwrap();

    Assertor::new(cpu)
        .register_a_is(0x18)
        .sign_flag_is_positive()
        .zero_flag_is_reset()
        //.parity_overflow_flag_is_reset()
        .add_subtract_flag_is_set()
        .program_counter_is(3);
}

#[test]
fn tests_sub_iydi() {
    let mut cpu = CpuBuilder::new()
        .with_memory(vec![0xdd, 0x96, 0x02, 0x11])
        .with_a(0x29)
        .with_iy(0x01)
        .build();

    cpu.sub_iydi().unwrap();

    Assertor::new(cpu)
        .register_a_is(0x18)
        .sign_flag_is_positive()
        .zero_flag_is_reset()
        //.parity_overflow_flag_is_reset()
        .add_subtract_flag_is_set()
        .program_counter_is(3);
}

#[test]
fn tests_sbc_a_r() {
    let mut cpu = CpuBuilder::new()
        .with_memory(vec![0x99, 0, 0, 0])
        .with_a(0x10).with_c(0x0f)
        .with_flag_c(true)
        .build();

    cpu.sbc_a_r().unwrap();

    Assertor::new(cpu)
        .register_a_is(0x00)
        .sign_flag_is_positive()
        .zero_flag_is_set()
        .half_carry_flag_is_set()
        .parity_overflow_flag_is_reset()
        .add_subtract_flag_is_set()
        .carry_flag_is_reset()
        .program_counter_is(1);
}

#[test]
fn tests_sbc_a_n() {
    let mut cpu = CpuBuilder::new()
        .with_memory(vec![0xde, 0x0f, 0, 0])
        .with_a(0x10)
        .with_flag_c(true)
        .build();

    cpu.sbc_a_n().unwrap();

    Assertor::new(cpu)
        .register_a_is(0x00)
        .sign_flag_is_positive()
        .zero_flag_is_set()
        .half_carry_flag_is_set()
        .parity_overflow_flag_is_reset()
        .add_subtract_flag_is_set()
        .carry_flag_is_reset()
        .program_counter_is(2);
}

#[test]
fn tests_sbc_a_hli() {
    let mut cpu = CpuBuilder::new()
        .with_memory(vec![0x9e, 0, 0x0f, 0])
        .with_a(0x10).with_hl(2)
        .with_flag_c(true)
        .build();

    cpu.sbc_a_hli().unwrap();

    Assertor::new(cpu)
        .register_a_is(0x00)
        .sign_flag_is_positive()
        .zero_flag_is_set()
        .half_carry_flag_is_set()
        .parity_overflow_flag_is_reset()
        .add_subtract_flag_is_set()
        .carry_flag_is_reset()
        .program_counter_is(1);
}

#[test]
fn tests_sbc_a_ixdi() {
    let mut cpu = CpuBuilder::new()
        .with_memory(vec![0xdd, 0x9e, 0x02, 0x0f])
        .with_a(0x10).with_ix(1)
        .with_flag_c(true)
        .build();

    cpu.sbc_a_ixdi().unwrap();

    Assertor::new(cpu)
        .register_a_is(0x00)
        .sign_flag_is_positive()
        .zero_flag_is_set()
        .half_carry_flag_is_set()
        .parity_overflow_flag_is_reset()
        .add_subtract_flag_is_set()
        .carry_flag_is_reset()
        .program_counter_is(3);
}

#[test]
fn tests_sbc_a_iydi() {
    let mut cpu = CpuBuilder::new()
        .with_memory(vec![0xfd, 0x9e, 0x02, 0x0f])
        .with_a(0x10).with_iy(1)
        .with_flag_c(true)
        .build();

    cpu.sbc_a_iydi().unwrap();

    Assertor::new(cpu)
        .register_a_is(0x00)
        .sign_flag_is_positive()
        .zero_flag_is_set()
        .half_carry_flag_is_set()
        .parity_overflow_flag_is_reset()
        .add_subtract_flag_is_set()
        .carry_flag_is_reset()
        .program_counter_is(3);
}

#[test]
fn xor_r() {
    let mut cpu = CpuBuilder::new()
        .with_memory(vec![0b10101_001, 1, 2, 3])
        .with_a(0b1100_0011)
        .with_c(0b0111_1011)
        .build();

    cpu.xor_r().unwrap();

    Assertor::new(cpu)
        .register_a_is(0b1011_1000)
        .sign_flag_is_negative()
        .zero_flag_is_reset()
        .half_carry_flag_is_reset()
        .carry_flag_is_reset()
        .parity_overflow_flag_is_set()
        .add_subtract_flag_is_reset();
}

#[test]
fn xor_n() {
    let mut cpu = CpuBuilder::new()
        .with_memory(vec![0xee, 0b0111_1011, 2, 3])
        .with_a(0b1100_0011)
        .build();

    cpu.xor_n().unwrap();

    Assertor::new(cpu)
        .register_a_is(0b1011_1000)
        .sign_flag_is_negative()
        .zero_flag_is_reset()
        .half_carry_flag_is_reset()
        .carry_flag_is_reset()
        .parity_overflow_flag_is_set()
        .add_subtract_flag_is_reset();
}

#[test]
fn xor_hli() {
    let mut cpu = CpuBuilder::new()
        .with_memory(vec![0xae, 0b0111_1011, 2, 3])
        .with_a(0b1100_0011)
        .with_hl(1)
        .build();

    cpu.xor_hli().unwrap();

    Assertor::new(cpu)
        .register_a_is(0b1011_1000)
        .sign_flag_is_negative()
        .zero_flag_is_reset()
        .half_carry_flag_is_reset()
        .carry_flag_is_reset()
        .parity_overflow_flag_is_set()
        .add_subtract_flag_is_reset();
}

#[test]
fn xor_ixdi() {
    let mut cpu = CpuBuilder::new()
        .with_memory(vec![0xdd, 0xae, 2, 0b0111_1011])
        .with_a(0b1100_0011)
        .with_ix(1)
        .build();

    cpu.xor_ixdi().unwrap();

    Assertor::new(cpu)
        .register_a_is(0b1011_1000)
        .sign_flag_is_negative()
        .zero_flag_is_reset()
        .half_carry_flag_is_reset()
        .carry_flag_is_reset()
        .parity_overflow_flag_is_set()
        .add_subtract_flag_is_reset();
}

#[test]
fn xor_iydi() {
    let mut cpu = CpuBuilder::new()
        .with_memory(vec![0xfd, 0xae, 2, 0b0111_1011])
        .with_a(0b1100_0011)
        .with_iy(1)
        .build();

    cpu.xor_iydi().unwrap();

    Assertor::new(cpu)
        .register_a_is(0b1011_1000)
        .sign_flag_is_negative()
        .zero_flag_is_reset()
        .half_carry_flag_is_reset()
        .carry_flag_is_reset()
        .parity_overflow_flag_is_set()
        .add_subtract_flag_is_reset();
}
