//! The opcode decoder and dispatcher: from the bytes at PC to the instruction's handler.

use vstd::prelude::*;
use crate::alu16::{operand_pair, wide_step, WideOp};
use crate::alu8::{alu_step, incdec_step, sub_flags, sub_result, AluOp};
use crate::control::{af_step, control_step, daa_flags, daa_result};
use crate::cpu::{
    displaced, flag_c, flag_pv, flag_s, flag_z, outcome, pack_flags, Cpu, CpuError, CpuView, Register,
    Register16,
};
use crate::exchange::{
    cp_repeat_once_step, cp_repeat_step, cp_step, ex_af_step, ex_de_hl_step, ex_sp_step, exx_step,
    ld_repeat_once_step, ld_repeat_step, ld_step,
};
use crate::flow::{call_step, djnz_step, jump_step, opcode_condition, relative_target, ret_step};
use crate::load::{
    load_a_special_step, load_reg_step, load_wide_step, pop_step, push_step, reg_field, store_step,
    store_wide_step, wide, word_operand, Wide,
};
use crate::operand::{mem_operand, reg_operand, Source, Target};
use crate::registers::pair_of;
use crate::rotate::{bit_step, nibble_step, setres_step, shift_a_step, shift_step, ShiftOp};

verus! {

/// An instruction of the CPU, as the decoder selects it; the handler reads its operands.
#[derive(Debug, Clone, Copy, PartialEq, Eq, Structural)]
pub enum Op {
    AddHlSs,
    AdcHlSs,
    SbcHlSs,
    AddIxPp,
    AddIyRr,
    IncSs,
    IncIx,
    IncIy,
    DecSs,
    DecIx,
    DecIy,
    AddAR,
    AddAN,
    AddAHli,
    AddAIxdi,
    AddAIydi,
    AdcAR,
    AdcAN,
    AdcAHli,
    AdcAIxdi,
    AdcAIydi,
    SubR,
    SubN,
    SubHli,
    SubIxdi,
    SubIydi,
    SbcAR,
    SbcAN,
    SbcAHli,
    SbcAIxdi,
    SbcAIydi,
    AndR,
    AndN,
    AndHli,
    AndIxdi,
    AndIydi,
    OrR,
    OrN,
    OrHli,
    OrIxdi,
    OrIydi,
    XorR,
    XorN,
    XorHli,
    XorIxdi,
    XorIydi,
    CpR,
    CpN,
    CpHli,
    CpIxdi,
    CpIydi,
    IncR,
    IncHli,
    IncIxdi,
    IncIydi,
    DecR,
    DecHli,
    DecIxdi,
    DecIydi,
    Daa,
    Cpl,
    Neg,
    Ccf,
    Scf,
    Nop,
    Halt,
    Di,
    Ei,
    Im0,
    Im1,
    Im2,
    ExDeHl,
    ExAfAf1,
    Exx,
    ExSpiHl,
    ExSpiIx,
    ExSpiIy,
    Ldi,
    Ldir,
    LdirStep,
    Ldd,
    Lddr,
    LddrStep,
    Cpi,
    Cpir,
    CpirStep,
    Cpd,
    Cpdr,
    CpdrStep,
    JpNn,
    JpCcNn,
    JrE,
    JrCE,
    JrNcE,
    JrZE,
    JrNzE,
    JpHl,
    JpIx,
    JpIy,
    DjnzE,
    CallNn,
    CallCcNn,
    RstP,
    Ret,
    RetCc,
    Reti,
    Retn,
    LdRR1,
    LdRN,
    LdRHl,
    LdRIxd,
    LdRIyd,
    LdHlR,
    LdIxdR,
    LdIydR,
    LdHlN,
    LdIxdN,
    LdIydN,
    LdABc,
    LdADe,
    LdANn,
    LdBcA,
    LdDeA,
    LdNnA,
    LdAI,
    LdAR,
    LdIA,
    LdRA,
    LdDdNn,
    LdIxNn,
    LdIyNn,
    LdHlNni,
    LdDdNni,
    LdIxNni,
    LdIyNni,
    LdNniHl,
    LdNniDd,
    LdNniIx,
    LdNniIy,
    LdSpHl,
    LdSpIx,
    LdSpIy,
    PushQq,
    PopQq,
    PushIx,
    PopIx,
    PushIy,
    PopIy,
    RlcR,
    RlcHli,
    RlcIxdi,
    RlcIydi,
    RlR,
    RlHli,
    RlIxdi,
    RlIydi,
    RrcR,
    RrcHli,
    RrcIxdi,
    RrcIydi,
    RrR,
    RrHli,
    RrIxdi,
    RrIydi,
    SlaR,
    SlaHli,
    SlaIxdi,
    SlaIydi,
    SraR,
    SraHli,
    SraIxdi,
    SraIydi,
    SrlR,
    SrlHli,
    SrlIxdi,
    SrlIydi,
    Rlca,
    Rla,
    Rrca,
    Rra,
    Rld,
    Rrd,
    BitBR,
    SetBR,
    ResBR,
    BitBHli,
    SetBHli,
    ResBHli,
    BitBIxdi,
    SetBIxdi,
    ResBIxdi,
    BitBIydi,
    SetBIydi,
    ResBIydi,
}

/// What an instruction does to the state.
pub open spec fn op_step(s: CpuView, op: Op) -> Result<CpuView, CpuError> {
    match op {
        Op::AddHlSs => wide_step(s, WideOp::Add, Wide::Pair(Register16::hl), operand_pair(s.fetch(0) / 16 % 4, Wide::Pair(Register16::hl)), 1),
        Op::AdcHlSs => wide_step(s, WideOp::Adc, Wide::Pair(Register16::hl), operand_pair(s.fetch(1) / 16 % 4, Wide::Pair(Register16::hl)), 2),
        Op::SbcHlSs => wide_step(s, WideOp::Sbc, Wide::Pair(Register16::hl), operand_pair(s.fetch(1) / 16 % 4, Wide::Pair(Register16::hl)), 2),
        Op::AddIxPp => wide_step(s, WideOp::Add, Wide::Ix, operand_pair(s.fetch(1) / 16 % 4, Wide::Ix), 2),
        Op::AddIyRr => wide_step(s, WideOp::Add, Wide::Iy, operand_pair(s.fetch(1) / 16 % 4, Wide::Iy), 2),
        Op::IncSs => wide_step(s, WideOp::Inc, operand_pair(s.fetch(0) / 16 % 4, Wide::Pair(Register16::hl)), operand_pair(s.fetch(0) / 16 % 4, Wide::Pair(Register16::hl)), 1),
        Op::IncIx => wide_step(s, WideOp::Inc, Wide::Ix, Wide::Ix, 2),
        Op::IncIy => wide_step(s, WideOp::Inc, Wide::Iy, Wide::Iy, 2),
        Op::DecSs => wide_step(s, WideOp::Dec, operand_pair(s.fetch(0) / 16 % 4, Wide::Pair(Register16::hl)), operand_pair(s.fetch(0) / 16 % 4, Wide::Pair(Register16::hl)), 1),
        Op::DecIx => wide_step(s, WideOp::Dec, Wide::Ix, Wide::Ix, 2),
        Op::DecIy => wide_step(s, WideOp::Dec, Wide::Iy, Wide::Iy, 2),
        Op::AddAR => alu_step(s, AluOp::Add, Source::Reg),
        Op::AddAN => alu_step(s, AluOp::Add, Source::Imm),
        Op::AddAHli => alu_step(s, AluOp::Add, Source::Hl),
        Op::AddAIxdi => alu_step(s, AluOp::Add, Source::Ix),
        Op::AddAIydi => alu_step(s, AluOp::Add, Source::Iy),
        Op::AdcAR => alu_step(s, AluOp::Adc, Source::Reg),
        Op::AdcAN => alu_step(s, AluOp::Adc, Source::Imm),
        Op::AdcAHli => alu_step(s, AluOp::Adc, Source::Hl),
        Op::AdcAIxdi => alu_step(s, AluOp::Adc, Source::Ix),
        Op::AdcAIydi => alu_step(s, AluOp::Adc, Source::Iy),
        Op::SubR => alu_step(s, AluOp::Sub, Source::Reg),
        Op::SubN => alu_step(s, AluOp::Sub, Source::Imm),
        Op::SubHli => alu_step(s, AluOp::Sub, Source::Hl),
        Op::SubIxdi => alu_step(s, AluOp::Sub, Source::Ix),
        Op::SubIydi => alu_step(s, AluOp::Sub, Source::Iy),
        Op::SbcAR => alu_step(s, AluOp::Sbc, Source::Reg),
        Op::SbcAN => alu_step(s, AluOp::Sbc, Source::Imm),
        Op::SbcAHli => alu_step(s, AluOp::Sbc, Source::Hl),
        Op::SbcAIxdi => alu_step(s, AluOp::Sbc, Source::Ix),
        Op::SbcAIydi => alu_step(s, AluOp::Sbc, Source::Iy),
        Op::AndR => alu_step(s, AluOp::And, Source::Reg),
        Op::AndN => alu_step(s, AluOp::And, Source::Imm),
        Op::AndHli => alu_step(s, AluOp::And, Source::Hl),
        Op::AndIxdi => alu_step(s, AluOp::And, Source::Ix),
        Op::AndIydi => alu_step(s, AluOp::And, Source::Iy),
        Op::OrR => alu_step(s, AluOp::Or, Source::Reg),
        Op::OrN => alu_step(s, AluOp::Or, Source::Imm),
        Op::OrHli => alu_step(s, AluOp::Or, Source::Hl),
        Op::OrIxdi => alu_step(s, AluOp::Or, Source::Ix),
        Op::OrIydi => alu_step(s, AluOp::Or, Source::Iy),
        Op::XorR => alu_step(s, AluOp::Xor, Source::Reg),
        Op::XorN => alu_step(s, AluOp::Xor, Source::Imm),
        Op::XorHli => alu_step(s, AluOp::Xor, Source::Hl),
        Op::XorIxdi => alu_step(s, AluOp::Xor, Source::Ix),
        Op::XorIydi => alu_step(s, AluOp::Xor, Source::Iy),
        Op::CpR => alu_step(s, AluOp::Cp, Source::Reg),
        Op::CpN => alu_step(s, AluOp::Cp, Source::Imm),
        Op::CpHli => alu_step(s, AluOp::Cp, Source::Hl),
        Op::CpIxdi => alu_step(s, AluOp::Cp, Source::Ix),
        Op::CpIydi => alu_step(s, AluOp::Cp, Source::Iy),
        Op::IncR => incdec_step(s, true, Target::RegHigh, 1),
        Op::IncHli => incdec_step(s, true, Target::Hl, 1),
        Op::IncIxdi => incdec_step(s, true, Target::Ix, 3),
        Op::IncIydi => incdec_step(s, true, Target::Iy, 3),
        Op::DecR => incdec_step(s, false, Target::RegHigh, 1),
        Op::DecHli => incdec_step(s, false, Target::Hl, 1),
        Op::DecIxdi => incdec_step(s, false, Target::Ix, 3),
        Op::DecIydi => incdec_step(s, false, Target::Iy, 3),
        Op::Daa => af_step(s, daa_result(s.a, s.f), daa_flags(s.a, s.f), 1),
        Op::Cpl => af_step(s, (255 - s.a) as u8, pack_flags(s.f, flag_s(s.f), flag_z(s.f), true, flag_pv(s.f), true, flag_c(s.f)), 1),
        Op::Neg => af_step(s, sub_result(0, s.a, 0), sub_flags(s.f, 0, s.a, 0), 2),
        Op::Ccf => af_step(s, s.a, pack_flags(s.f, flag_s(s.f), flag_z(s.f), flag_c(s.f), flag_pv(s.f), false, !flag_c(s.f)), 1),
        Op::Scf => af_step(s, s.a, pack_flags(s.f, flag_s(s.f), flag_z(s.f), false, flag_pv(s.f), false, true), 1),
        Op::Nop => control_step(s, s, 1),
        Op::Halt => control_step(s, CpuView { halted: true, ..s }, 1),
        Op::Di => control_step(s, CpuView { iff1: false, iff2: false, ..s }, 1),
        Op::Ei => control_step(s, CpuView { iff1: true, iff2: true, ..s }, 1),
        Op::Im0 => control_step(s, CpuView { im: 0, ..s }, 2),
        Op::Im1 => control_step(s, CpuView { im: 1, ..s }, 2),
        Op::Im2 => control_step(s, CpuView { im: 2, ..s }, 2),
        Op::ExDeHl => ex_de_hl_step(s),
        Op::ExAfAf1 => ex_af_step(s),
        Op::Exx => exx_step(s),
        Op::ExSpiHl => ex_sp_step(s, Wide::Pair(Register16::hl), 1),
        Op::ExSpiIx => ex_sp_step(s, Wide::Ix, 2),
        Op::ExSpiIy => ex_sp_step(s, Wide::Iy, 2),
        Op::Ldi => ld_step(s, true),
        Op::LdirStep => ld_repeat_once_step(s, true),
        Op::Ldir => ld_repeat_step(s, true),
        Op::Ldd => ld_step(s, false),
        Op::LddrStep => ld_repeat_once_step(s, false),
        Op::Lddr => ld_repeat_step(s, false),
        Op::Cpi => cp_step(s, true),
        Op::CpirStep => cp_repeat_once_step(s, true),
        Op::Cpir => cp_repeat_step(s, true),
        Op::Cpd => cp_step(s, false),
        Op::CpdrStep => cp_repeat_once_step(s, false),
        Op::Cpdr => cp_repeat_step(s, false),
        Op::JpNn => jump_step(s, true, s.fetch_word(1), 3),
        Op::JpCcNn => jump_step(s, opcode_condition(s), s.fetch_word(1), 3),
        Op::JrE => jump_step(s, true, relative_target(s), 2),
        Op::JrCE => jump_step(s, flag_c(s.f), relative_target(s), 2),
        Op::JrNcE => jump_step(s, !flag_c(s.f), relative_target(s), 2),
        Op::JrZE => jump_step(s, flag_z(s.f), relative_target(s), 2),
        Op::JrNzE => jump_step(s, !flag_z(s.f), relative_target(s), 2),
        Op::JpHl => jump_step(s, true, s.hl(), 1),
        Op::JpIx => jump_step(s, true, s.ix, 2),
        Op::JpIy => jump_step(s, true, s.iy, 2),
        Op::DjnzE => djnz_step(s),
        Op::CallNn => call_step(s, true, s.fetch_word(1), 3),
        Op::CallCcNn => call_step(s, opcode_condition(s), s.fetch_word(1), 3),
        Op::RstP => call_step(s, true, (s.fetch(0) / 8 % 8 * 8) as u16, 1),
        Op::Ret => ret_step(s, true, 1, false),
        Op::RetCc => ret_step(s, opcode_condition(s), 1, false),
        Op::Reti => ret_step(s, true, 2, false),
        Op::Retn => ret_step(s, true, 2, true),
        Op::LdRR1 => load_reg_step(s, reg_field(s.fetch(0) / 8 % 8), reg_operand(s, s.fetch(0) % 8), 1),
        Op::LdRN => load_reg_step(s, reg_field(s.fetch(0) / 8 % 8), Ok(s.fetch(1)), 2),
        Op::LdRHl => load_reg_step(s, reg_field(s.fetch(0) / 8 % 8), mem_operand(s, s.hl() as int), 1),
        Op::LdRIxd => load_reg_step(s, reg_field(s.fetch(1) / 8 % 8), mem_operand(s, displaced(s.ix, s.fetch(2))), 3),
        Op::LdRIyd => load_reg_step(s, reg_field(s.fetch(1) / 8 % 8), mem_operand(s, displaced(s.iy, s.fetch(2))), 3),
        Op::LdHlR => store_step(s, s.hl() as int, reg_operand(s, s.fetch(0) % 8), 1),
        Op::LdIxdR => store_step(s, displaced(s.ix, s.fetch(2)), reg_operand(s, s.fetch(1) % 8), 3),
        Op::LdIydR => store_step(s, displaced(s.iy, s.fetch(2)), reg_operand(s, s.fetch(1) % 8), 3),
        Op::LdHlN => store_step(s, s.hl() as int, Ok(s.fetch(1)), 2),
        Op::LdIxdN => store_step(s, displaced(s.ix, s.fetch(2)), Ok(s.fetch(3)), 4),
        Op::LdIydN => store_step(s, displaced(s.iy, s.fetch(2)), Ok(s.fetch(3)), 4),
        Op::LdABc => load_reg_step(s, Ok(Register::a), mem_operand(s, s.bc() as int), 1),
        Op::LdADe => load_reg_step(s, Ok(Register::a), mem_operand(s, s.de() as int), 1),
        Op::LdBcA => store_step(s, s.bc() as int, Ok(s.a), 1),
        Op::LdDeA => store_step(s, s.de() as int, Ok(s.a), 1),
        Op::LdNnA => store_step(s, s.fetch_word(1) as int, Ok(s.a), 3),
        Op::LdANn => load_reg_step(s, Ok(Register::a), mem_operand(s, s.fetch_word(1) as int), 3),
        Op::LdAI => load_a_special_step(s, s.i),
        Op::LdAR => load_a_special_step(s, s.r),
        Op::LdIA => if s.len() == 0 { Err(CpuError::AddressOutOfRange) } else { Ok(CpuView { i: s.a, pc: s.next_pc(2), ..s }) },
        Op::LdRA => if s.len() == 0 { Err(CpuError::AddressOutOfRange) } else { Ok(CpuView { r: s.a, pc: s.next_pc(2), ..s }) },
        Op::LdDdNn => load_wide_step(s, Wide::Pair(pair_of((s.fetch(0) / 16 % 4) as u8, false)), Ok(s.fetch_word(1)), 3),
        Op::LdIxNn => load_wide_step(s, Wide::Ix, Ok(s.fetch_word(2)), 4),
        Op::LdIyNn => load_wide_step(s, Wide::Iy, Ok(s.fetch_word(2)), 4),
        Op::LdHlNni => load_wide_step(s, Wide::Pair(Register16::hl), word_operand(s, s.fetch_word(1) as int), 3),
        Op::LdDdNni => load_wide_step(s, Wide::Pair(pair_of((s.fetch(1) / 16 % 4) as u8, false)), word_operand(s, s.fetch_word(2) as int), 4),
        Op::LdIxNni => load_wide_step(s, Wide::Ix, word_operand(s, s.fetch_word(2) as int), 4),
        Op::LdIyNni => load_wide_step(s, Wide::Iy, word_operand(s, s.fetch_word(2) as int), 4),
        Op::LdNniHl => store_wide_step(s, s.fetch_word(1) as int, Wide::Pair(Register16::hl), 3),
        Op::LdNniDd => store_wide_step(s, s.fetch_word(2) as int, Wide::Pair(pair_of((s.fetch(1) / 16 % 4) as u8, false)), 4),
        Op::LdNniIx => store_wide_step(s, s.fetch_word(2) as int, Wide::Ix, 4),
        Op::LdNniIy => store_wide_step(s, s.fetch_word(2) as int, Wide::Iy, 4),
        Op::LdSpHl => load_wide_step(s, Wide::Pair(Register16::sp), Ok(wide(s, Wide::Pair(Register16::hl))), 1),
        Op::LdSpIx => load_wide_step(s, Wide::Pair(Register16::sp), Ok(wide(s, Wide::Ix)), 2),
        Op::LdSpIy => load_wide_step(s, Wide::Pair(Register16::sp), Ok(wide(s, Wide::Iy)), 2),
        Op::PushQq => push_step(s, Wide::Pair(pair_of((s.fetch(0) / 16 % 4) as u8, true)), 1),
        Op::PopQq => pop_step(s, Wide::Pair(pair_of((s.fetch(0) / 16 % 4) as u8, true)), 1),
        Op::PushIx => push_step(s, Wide::Ix, 2),
        Op::PopIx => pop_step(s, Wide::Ix, 2),
        Op::PushIy => push_step(s, Wide::Iy, 2),
        Op::PopIy => pop_step(s, Wide::Iy, 2),
        Op::RlcR => shift_step(s, ShiftOp::Rlc, Target::RegLow, 2),
        Op::RlcHli => shift_step(s, ShiftOp::Rlc, Target::Hl, 2),
        Op::RlcIxdi => shift_step(s, ShiftOp::Rlc, Target::Ix, 4),
        Op::RlcIydi => shift_step(s, ShiftOp::Rlc, Target::Iy, 4),
        Op::RlR => shift_step(s, ShiftOp::Rl, Target::RegLow, 2),
        Op::RlHli => shift_step(s, ShiftOp::Rl, Target::Hl, 2),
        Op::RlIxdi => shift_step(s, ShiftOp::Rl, Target::Ix, 4),
        Op::RlIydi => shift_step(s, ShiftOp::Rl, Target::Iy, 4),
        Op::RrcR => shift_step(s, ShiftOp::Rrc, Target::RegLow, 2),
        Op::RrcHli => shift_step(s, ShiftOp::Rrc, Target::Hl, 2),
        Op::RrcIxdi => shift_step(s, ShiftOp::Rrc, Target::Ix, 4),
        Op::RrcIydi => shift_step(s, ShiftOp::Rrc, Target::Iy, 4),
        Op::RrR => shift_step(s, ShiftOp::Rr, Target::RegLow, 2),
        Op::RrHli => shift_step(s, ShiftOp::Rr, Target::Hl, 2),
        Op::RrIxdi => shift_step(s, ShiftOp::Rr, Target::Ix, 4),
        Op::RrIydi => shift_step(s, ShiftOp::Rr, Target::Iy, 4),
        Op::SlaR => shift_step(s, ShiftOp::Sla, Target::RegLow, 2),
        Op::SlaHli => shift_step(s, ShiftOp::Sla, Target::Hl, 2),
        Op::SlaIxdi => shift_step(s, ShiftOp::Sla, Target::Ix, 4),
        Op::SlaIydi => shift_step(s, ShiftOp::Sla, Target::Iy, 4),
        Op::SraR => shift_step(s, ShiftOp::Sra, Target::RegLow, 2),
        Op::SraHli => shift_step(s, ShiftOp::Sra, Target::Hl, 2),
        Op::SraIxdi => shift_step(s, ShiftOp::Sra, Target::Ix, 4),
        Op::SraIydi => shift_step(s, ShiftOp::Sra, Target::Iy, 4),
        Op::SrlR => shift_step(s, ShiftOp::Srl, Target::RegLow, 2),
        Op::SrlHli => shift_step(s, ShiftOp::Srl, Target::Hl, 2),
        Op::SrlIxdi => shift_step(s, ShiftOp::Srl, Target::Ix, 4),
        Op::SrlIydi => shift_step(s, ShiftOp::Srl, Target::Iy, 4),
        Op::Rlca => shift_a_step(s, ShiftOp::Rlc),
        Op::Rla => shift_a_step(s, ShiftOp::Rl),
        Op::Rrca => shift_a_step(s, ShiftOp::Rrc),
        Op::Rra => shift_a_step(s, ShiftOp::Rr),
        Op::Rld => nibble_step(s, true),
        Op::Rrd => nibble_step(s, false),
        Op::BitBR => bit_step(s, Target::RegLow, 1, 2),
        Op::SetBR => setres_step(s, true, Target::RegLow, 1, 2),
        Op::ResBR => setres_step(s, false, Target::RegLow, 1, 2),
        Op::BitBHli => bit_step(s, Target::Hl, 1, 2),
        Op::SetBHli => setres_step(s, true, Target::Hl, 1, 2),
        Op::ResBHli => setres_step(s, false, Target::Hl, 1, 2),
        Op::BitBIxdi => bit_step(s, Target::Ix, 3, 4),
        Op::SetBIxdi => setres_step(s, true, Target::Ix, 3, 4),
        Op::ResBIxdi => setres_step(s, false, Target::Ix, 3, 4),
        Op::BitBIydi => bit_step(s, Target::Iy, 3, 4),
        Op::SetBIydi => setres_step(s, true, Target::Iy, 3, 4),
        Op::ResBIydi => setres_step(s, false, Target::Iy, 3, 4),
    }
}

/// The instruction that an unprefixed opcode byte selects.
pub open spec fn decode_main(b0: u8) -> Result<Op, CpuError> {
    if b0 == 0x00 {
        Ok(Op::Nop)
    } else if b0 == 0x76 {
        Ok(Op::Halt)
    } else if b0 / 64 == 1 && b0 % 8 == 6 {
        Ok(Op::LdRHl)
    } else if b0 / 64 == 1 && b0 / 8 % 8 == 6 {
        Ok(Op::LdHlR)
    } else if b0 / 64 == 1 {
        Ok(Op::LdRR1)
    } else if b0 / 64 == 2 && b0 / 8 % 8 == 0 && b0 % 8 == 6 {
        Ok(Op::AddAHli)
    } else if b0 / 64 == 2 && b0 / 8 % 8 == 0 {
        Ok(Op::AddAR)
    } else if b0 / 64 == 3 && b0 / 8 % 8 == 0 && b0 % 8 == 6 {
        Ok(Op::AddAN)
    } else if b0 / 64 == 2 && b0 / 8 % 8 == 1 && b0 % 8 == 6 {
        Ok(Op::AdcAHli)
    } else if b0 / 64 == 2 && b0 / 8 % 8 == 1 {
        Ok(Op::AdcAR)
    } else if b0 / 64 == 3 && b0 / 8 % 8 == 1 && b0 % 8 == 6 {
        Ok(Op::AdcAN)
    } else if b0 / 64 == 2 && b0 / 8 % 8 == 2 && b0 % 8 == 6 {
        Ok(Op::SubHli)
    } else if b0 / 64 == 2 && b0 / 8 % 8 == 2 {
        Ok(Op::SubR)
    } else if b0 / 64 == 3 && b0 / 8 % 8 == 2 && b0 % 8 == 6 {
        Ok(Op::SubN)
    } else if b0 / 64 == 2 && b0 / 8 % 8 == 3 && b0 % 8 == 6 {
        Ok(Op::SbcAHli)
    } else if b0 / 64 == 2 && b0 / 8 % 8 == 3 {
        Ok(Op::SbcAR)
    } else if b0 / 64 == 3 && b0 / 8 % 8 == 3 && b0 % 8 == 6 {
        Ok(Op::SbcAN)
    } else if b0 / 64 == 2 && b0 / 8 % 8 == 4 && b0 % 8 == 6 {
        Ok(Op::AndHli)
    } else if b0 / 64 == 2 && b0 / 8 % 8 == 4 {
        Ok(Op::AndR)
    } else if b0 / 64 == 3 && b0 / 8 % 8 == 4 && b0 % 8 == 6 {
        Ok(Op::AndN)
    } else if b0 / 64 == 2 && b0 / 8 % 8 == 5 && b0 % 8 == 6 {
        Ok(Op::XorHli)
    } else if b0 / 64 == 2 && b0 / 8 % 8 == 5 {
        Ok(Op::XorR)
    } else if b0 / 64 == 3 && b0 / 8 % 8 == 5 && b0 % 8 == 6 {
        Ok(Op::XorN)
    } else if b0 / 64 == 2 && b0 / 8 % 8 == 6 && b0 % 8 == 6 {
        Ok(Op::OrHli)
    } else if b0 / 64 == 2 && b0 / 8 % 8 == 6 {
        Ok(Op::OrR)
    } else if b0 / 64 == 3 && b0 / 8 % 8 == 6 && b0 % 8 == 6 {
        Ok(Op::OrN)
    } else if b0 / 64 == 2 && b0 / 8 % 8 == 7 && b0 % 8 == 6 {
        Ok(Op::CpHli)
    } else if b0 / 64 == 2 && b0 / 8 % 8 == 7 {
        Ok(Op::CpR)
    } else if b0 / 64 == 3 && b0 / 8 % 8 == 7 && b0 % 8 == 6 {
        Ok(Op::CpN)
    } else if b0 == 0x34 {
        Ok(Op::IncHli)
    } else if b0 == 0x35 {
        Ok(Op::DecHli)
    } else if b0 == 0x36 {
        Ok(Op::LdHlN)
    } else if b0 / 64 == 0 && b0 % 8 == 4 {
        Ok(Op::IncR)
    } else if b0 / 64 == 0 && b0 % 8 == 5 {
        Ok(Op::DecR)
    } else if b0 / 64 == 0 && b0 % 8 == 6 {
        Ok(Op::LdRN)
    } else if b0 == 0x02 {
        Ok(Op::LdBcA)
    } else if b0 == 0x12 {
        Ok(Op::LdDeA)
    } else if b0 == 0x32 {
        Ok(Op::LdNnA)
    } else if b0 == 0x0a {
        Ok(Op::LdABc)
    } else if b0 == 0x1a {
        Ok(Op::LdADe)
    } else if b0 == 0x3a {
        Ok(Op::LdANn)
    } else if b0 / 64 == 0 && b0 % 16 == 1 {
        Ok(Op::LdDdNn)
    } else if b0 == 0x2a {
        Ok(Op::LdHlNni)
    } else if b0 == 0x22 {
        Ok(Op::LdNniHl)
    } else if b0 == 0xf9 {
        Ok(Op::LdSpHl)
    } else if b0 / 64 == 3 && b0 % 16 == 5 {
        Ok(Op::PushQq)
    } else if b0 / 64 == 3 && b0 % 16 == 1 {
        Ok(Op::PopQq)
    } else if b0 / 64 == 0 && b0 % 16 == 9 {
        Ok(Op::AddHlSs)
    } else if b0 / 64 == 0 && b0 % 16 == 3 {
        Ok(Op::IncSs)
    } else if b0 / 64 == 0 && b0 % 16 == 11 {
        Ok(Op::DecSs)
    } else if b0 == 0x07 {
        Ok(Op::Rlca)
    } else if b0 == 0x17 {
        Ok(Op::Rla)
    } else if b0 == 0x0f {
        Ok(Op::Rrca)
    } else if b0 == 0x1f {
        Ok(Op::Rra)
    } else if b0 == 0x27 {
        Ok(Op::Daa)
    } else if b0 == 0x2f {
        Ok(Op::Cpl)
    } else if b0 == 0x3f {
        Ok(Op::Ccf)
    } else if b0 == 0x37 {
        Ok(Op::Scf)
    } else if b0 == 0xf3 {
        Ok(Op::Di)
    } else if b0 == 0xfb {
        Ok(Op::Ei)
    } else if b0 == 0xeb {
        Ok(Op::ExDeHl)
    } else if b0 == 0x08 {
        Ok(Op::ExAfAf1)
    } else if b0 == 0xd9 {
        Ok(Op::Exx)
    } else if b0 == 0xe3 {
        Ok(Op::ExSpiHl)
    } else if b0 == 0xc3 {
        Ok(Op::JpNn)
    } else if b0 / 64 == 3 && b0 % 8 == 2 {
        Ok(Op::JpCcNn)
    } else if b0 == 0x18 {
        Ok(Op::JrE)
    } else if b0 == 0x38 {
        Ok(Op::JrCE)
    } else if b0 == 0x30 {
        Ok(Op::JrNcE)
    } else if b0 == 0x28 {
        Ok(Op::JrZE)
    } else if b0 == 0x20 {
        Ok(Op::JrNzE)
    } else if b0 == 0xe9 {
        Ok(Op::JpHl)
    } else if b0 == 0x10 {
        Ok(Op::DjnzE)
    } else if b0 == 0xcd {
        Ok(Op::CallNn)
    } else if b0 / 64 == 3 && b0 % 8 == 4 {
        Ok(Op::CallCcNn)
    } else if b0 == 0xc9 {
        Ok(Op::Ret)
    } else if b0 / 64 == 3 && b0 % 8 == 0 {
        Ok(Op::RetCc)
    } else if b0 / 64 == 3 && b0 % 8 == 7 {
        Ok(Op::RstP)
    } else {
        Err(CpuError::Unimplemented)
    }
}

/// The instruction that the byte after a 0xCB prefix selects.
pub open spec fn decode_cb(b1: u8) -> Result<Op, CpuError> {
    if b1 / 8 == 0 && b1 % 8 == 6 {
        Ok(Op::RlcHli)
    } else if b1 / 8 == 0 {
        Ok(Op::RlcR)
    } else if b1 / 8 == 1 && b1 % 8 == 6 {
        Ok(Op::RrcHli)
    } else if b1 / 8 == 1 {
        Ok(Op::RrcR)
    } else if b1 / 8 == 2 && b1 % 8 == 6 {
        Ok(Op::RlHli)
    } else if b1 / 8 == 2 {
        Ok(Op::RlR)
    } else if b1 / 8 == 3 && b1 % 8 == 6 {
        Ok(Op::RrHli)
    } else if b1 / 8 == 3 {
        Ok(Op::RrR)
    } else if b1 / 8 == 4 && b1 % 8 == 6 {
        Ok(Op::SlaHli)
    } else if b1 / 8 == 4 {
        Ok(Op::SlaR)
    } else if b1 / 8 == 5 && b1 % 8 == 6 {
        Ok(Op::SraHli)
    } else if b1 / 8 == 5 {
        Ok(Op::SraR)
    } else if b1 / 8 == 6 {
        Err(CpuError::Unimplemented)
    } else if b1 / 8 == 7 && b1 % 8 == 6 {
        Ok(Op::SrlHli)
    } else if b1 / 8 == 7 {
        Ok(Op::SrlR)
    } else if b1 / 64 == 1 && b1 % 8 == 6 {
        Ok(Op::BitBHli)
    } else if b1 / 64 == 1 {
        Ok(Op::BitBR)
    } else if b1 / 64 == 2 && b1 % 8 == 6 {
        Ok(Op::ResBHli)
    } else if b1 / 64 == 2 {
        Ok(Op::ResBR)
    } else if b1 / 64 == 3 && b1 % 8 == 6 {
        Ok(Op::SetBHli)
    } else if b1 / 64 == 3 {
        Ok(Op::SetBR)
    } else {
        Err(CpuError::Unimplemented)
    }
}

/// The instruction that the byte after a 0xED prefix selects.
pub open spec fn decode_ed(b1: u8) -> Result<Op, CpuError> {
    if b1 == 0x44 {
        Ok(Op::Neg)
    } else if b1 == 0x46 {
        Ok(Op::Im0)
    } else if b1 == 0x56 {
        Ok(Op::Im1)
    } else if b1 == 0x5e {
        Ok(Op::Im2)
    } else if b1 == 0x47 {
        Ok(Op::LdIA)
    } else if b1 == 0x4f {
        Ok(Op::LdRA)
    } else if b1 == 0x57 {
        Ok(Op::LdAI)
    } else if b1 == 0x5f {
        Ok(Op::LdAR)
    } else if b1 / 64 == 1 && b1 % 16 == 10 {
        Ok(Op::AdcHlSs)
    } else if b1 / 64 == 1 && b1 % 16 == 2 {
        Ok(Op::SbcHlSs)
    } else if b1 / 64 == 1 && b1 % 16 == 11 {
        Ok(Op::LdDdNni)
    } else if b1 / 64 == 1 && b1 % 16 == 3 {
        Ok(Op::LdNniDd)
    } else if b1 == 0x4d {
        Ok(Op::Reti)
    } else if b1 == 0x45 {
        Ok(Op::Retn)
    } else if b1 == 0x6f {
        Ok(Op::Rld)
    } else if b1 == 0x67 {
        Ok(Op::Rrd)
    } else if b1 == 0xa0 {
        Ok(Op::Ldi)
    } else if b1 == 0xb0 {
        Ok(Op::LdirStep)
    } else if b1 == 0xa8 {
        Ok(Op::Ldd)
    } else if b1 == 0xb8 {
        Ok(Op::LddrStep)
    } else if b1 == 0xa1 {
        Ok(Op::Cpi)
    } else if b1 == 0xb1 {
        Ok(Op::CpirStep)
    } else if b1 == 0xa9 {
        Ok(Op::Cpd)
    } else if b1 == 0xb9 {
        Ok(Op::CpdrStep)
    } else if b1 / 64 == 1 || (0xa0 <= b1 && b1 < 0xc0) {
        Err(CpuError::Unimplemented)
    } else {
        Err(CpuError::IllegalInstruction)
    }
}

/// The instruction that the bytes after a 0xDD prefix select; `b3` is the byte after the displacement.
pub open spec fn decode_ix(b1: u8, b3: u8) -> Result<Op, CpuError> {
    if b1 % 16 == 9 && b1 / 64 == 0 {
        Ok(Op::AddIxPp)
    } else if b1 == 0x21 {
        Ok(Op::LdIxNn)
    } else if b1 == 0x2a {
        Ok(Op::LdIxNni)
    } else if b1 == 0x22 {
        Ok(Op::LdNniIx)
    } else if b1 == 0x23 {
        Ok(Op::IncIx)
    } else if b1 == 0x2b {
        Ok(Op::DecIx)
    } else if b1 == 0x34 {
        Ok(Op::IncIxdi)
    } else if b1 == 0x35 {
        Ok(Op::DecIxdi)
    } else if b1 == 0x36 {
        Ok(Op::LdIxdN)
    } else if b1 / 64 == 1 && b1 % 8 == 6 && b1 != 0x76 {
        Ok(Op::LdRIxd)
    } else if b1 / 64 == 1 && b1 / 8 % 8 == 6 && b1 != 0x76 {
        Ok(Op::LdIxdR)
    } else if b1 / 64 == 2 && b1 / 8 % 8 == 0 && b1 % 8 == 6 {
        Ok(Op::AddAIxdi)
    } else if b1 / 64 == 2 && b1 / 8 % 8 == 1 && b1 % 8 == 6 {
        Ok(Op::AdcAIxdi)
    } else if b1 / 64 == 2 && b1 / 8 % 8 == 2 && b1 % 8 == 6 {
        Ok(Op::SubIxdi)
    } else if b1 / 64 == 2 && b1 / 8 % 8 == 3 && b1 % 8 == 6 {
        Ok(Op::SbcAIxdi)
    } else if b1 / 64 == 2 && b1 / 8 % 8 == 4 && b1 % 8 == 6 {
        Ok(Op::AndIxdi)
    } else if b1 / 64 == 2 && b1 / 8 % 8 == 5 && b1 % 8 == 6 {
        Ok(Op::XorIxdi)
    } else if b1 / 64 == 2 && b1 / 8 % 8 == 6 && b1 % 8 == 6 {
        Ok(Op::OrIxdi)
    } else if b1 / 64 == 2 && b1 / 8 % 8 == 7 && b1 % 8 == 6 {
        Ok(Op::CpIxdi)
    } else if b1 == 0xe1 {
        Ok(Op::PopIx)
    } else if b1 == 0xe5 {
        Ok(Op::PushIx)
    } else if b1 == 0xe3 {
        Ok(Op::ExSpiIx)
    } else if b1 == 0xe9 {
        Ok(Op::JpIx)
    } else if b1 == 0xf9 {
        Ok(Op::LdSpIx)
    } else if b1 == 0xcb {
        if b3 / 8 == 0 && b3 % 8 == 6 {
            Ok(Op::RlcIxdi)
        } else if b3 / 8 == 1 && b3 % 8 == 6 {
            Ok(Op::RrcIxdi)
        } else if b3 / 8 == 2 && b3 % 8 == 6 {
            Ok(Op::RlIxdi)
        } else if b3 / 8 == 3 && b3 % 8 == 6 {
            Ok(Op::RrIxdi)
        } else if b3 / 8 == 4 && b3 % 8 == 6 {
            Ok(Op::SlaIxdi)
        } else if b3 / 8 == 5 && b3 % 8 == 6 {
            Ok(Op::SraIxdi)
        } else if b3 / 8 == 6 && b3 % 8 == 6 {
            Err(CpuError::Unimplemented)
        } else if b3 / 8 == 7 && b3 % 8 == 6 {
            Ok(Op::SrlIxdi)
        } else if b3 / 64 == 1 && b3 % 8 == 6 {
            Ok(Op::BitBIxdi)
        } else if b3 / 64 == 2 && b3 % 8 == 6 {
            Ok(Op::ResBIxdi)
        } else if b3 / 64 == 3 && b3 % 8 == 6 {
            Ok(Op::SetBIxdi)
        } else {
            Err(CpuError::IllegalInstruction)
        }
    } else {
        Err(CpuError::IllegalInstruction)
    }
}

/// The instruction that the bytes after a 0xFD prefix select; `b3` is the byte after the displacement.
pub open spec fn decode_iy(b1: u8, b3: u8) -> Result<Op, CpuError> {
    if b1 % 16 == 9 && b1 / 64 == 0 {
        Ok(Op::AddIyRr)
    } else if b1 == 0x21 {
        Ok(Op::LdIyNn)
    } else if b1 == 0x2a {
        Ok(Op::LdIyNni)
    } else if b1 == 0x22 {
        Ok(Op::LdNniIy)
    } else if b1 == 0x23 {
        Ok(Op::IncIy)
    } else if b1 == 0x2b {
        Ok(Op::DecIy)
    } else if b1 == 0x34 {
        Ok(Op::IncIydi)
    } else if b1 == 0x35 {
        Ok(Op::DecIydi)
    } else if b1 == 0x36 {
        Ok(Op::LdIydN)
    } else if b1 / 64 == 1 && b1 % 8 == 6 && b1 != 0x76 {
        Ok(Op::LdRIyd)
    } else if b1 / 64 == 1 && b1 / 8 % 8 == 6 && b1 != 0x76 {
        Ok(Op::LdIydR)
    } else if b1 / 64 == 2 && b1 / 8 % 8 == 0 && b1 % 8 == 6 {
        Ok(Op::AddAIydi)
    } else if b1 / 64 == 2 && b1 / 8 % 8 == 1 && b1 % 8 == 6 {
        Ok(Op::AdcAIydi)
    } else if b1 / 64 == 2 && b1 / 8 % 8 == 2 && b1 % 8 == 6 {
        Ok(Op::SubIydi)
    } else if b1 / 64 == 2 && b1 / 8 % 8 == 3 && b1 % 8 == 6 {
        Ok(Op::SbcAIydi)
    } else if b1 / 64 == 2 && b1 / 8 % 8 == 4 && b1 % 8 == 6 {
        Ok(Op::AndIydi)
    } else if b1 / 64 == 2 && b1 / 8 % 8 == 5 && b1 % 8 == 6 {
        Ok(Op::XorIydi)
    } else if b1 / 64 == 2 && b1 / 8 % 8 == 6 && b1 % 8 == 6 {
        Ok(Op::OrIydi)
    } else if b1 / 64 == 2 && b1 / 8 % 8 == 7 && b1 % 8 == 6 {
        Ok(Op::CpIydi)
    } else if b1 == 0xe1 {
        Ok(Op::PopIy)
    } else if b1 == 0xe5 {
        Ok(Op::PushIy)
    } else if b1 == 0xe3 {
        Ok(Op::ExSpiIy)
    } else if b1 == 0xe9 {
        Ok(Op::JpIy)
    } else if b1 == 0xf9 {
        Ok(Op::LdSpIy)
    } else if b1 == 0xcb {
        if b3 / 8 == 0 && b3 % 8 == 6 {
            Ok(Op::RlcIydi)
        } else if b3 / 8 == 1 && b3 % 8 == 6 {
            Ok(Op::RrcIydi)
        } else if b3 / 8 == 2 && b3 % 8 == 6 {
            Ok(Op::RlIydi)
        } else if b3 / 8 == 3 && b3 % 8 == 6 {
            Ok(Op::RrIydi)
        } else if b3 / 8 == 4 && b3 % 8 == 6 {
            Ok(Op::SlaIydi)
        } else if b3 / 8 == 5 && b3 % 8 == 6 {
            Ok(Op::SraIydi)
        } else if b3 / 8 == 6 && b3 % 8 == 6 {
            Err(CpuError::Unimplemented)
        } else if b3 / 8 == 7 && b3 % 8 == 6 {
            Ok(Op::SrlIydi)
        } else if b3 / 64 == 1 && b3 % 8 == 6 {
            Ok(Op::BitBIydi)
        } else if b3 / 64 == 2 && b3 % 8 == 6 {
            Ok(Op::ResBIydi)
        } else if b3 / 64 == 3 && b3 % 8 == 6 {
            Ok(Op::SetBIydi)
        } else {
            Err(CpuError::IllegalInstruction)
        }
    } else {
        Err(CpuError::IllegalInstruction)
    }
}

/// The instruction that the bytes at PC select: `b0` the first, `b1` the second, `b3` the fourth.
pub open spec fn decode(b0: u8, b1: u8, b3: u8) -> Result<Op, CpuError> {
    if b0 == 0xcb {
        decode_cb(b1)
    } else if b0 == 0xed {
        decode_ed(b1)
    } else if b0 == 0xdd {
        decode_ix(b1, b3)
    } else if b0 == 0xfd {
        decode_iy(b1, b3)
    } else {
        decode_main(b0)
    }
}

/// One step of the CPU: a halted CPU stays as it is; otherwise the instruction at PC runs.
pub open spec fn step(s: CpuView) -> Result<CpuView, CpuError> {
    if s.halted {
        Ok(s)
    } else if s.len() == 0 {
        Err(CpuError::AddressOutOfRange)
    } else {
        match decode(s.fetch(0), s.fetch(1), s.fetch(3)) {
            Ok(op) => op_step(s, op),
            Err(e) => Err(e),
        }
    }
}

impl Cpu {
    /// The instruction that an unprefixed opcode byte selects.
    pub fn decode_main(b0: u8) -> (r: Result<Op, CpuError>)
        ensures
            r == decode_main(b0),
    {
        if b0 == 0x00 {
            Ok(Op::Nop)
        } else if b0 == 0x76 {
            Ok(Op::Halt)
        } else if b0 / 64 == 1 && b0 % 8 == 6 {
            Ok(Op::LdRHl)
        } else if b0 / 64 == 1 && b0 / 8 % 8 == 6 {
            Ok(Op::LdHlR)
        } else if b0 / 64 == 1 {
            Ok(Op::LdRR1)
        } else if b0 / 64 == 2 && b0 / 8 % 8 == 0 && b0 % 8 == 6 {
            Ok(Op::AddAHli)
        } else if b0 / 64 == 2 && b0 / 8 % 8 == 0 {
            Ok(Op::AddAR)
        } else if b0 / 64 == 3 && b0 / 8 % 8 == 0 && b0 % 8 == 6 {
            Ok(Op::AddAN)
        } else if b0 / 64 == 2 && b0 / 8 % 8 == 1 && b0 % 8 == 6 {
            Ok(Op::AdcAHli)
        } else if b0 / 64 == 2 && b0 / 8 % 8 == 1 {
            Ok(Op::AdcAR)
        } else if b0 / 64 == 3 && b0 / 8 % 8 == 1 && b0 % 8 == 6 {
            Ok(Op::AdcAN)
        } else if b0 / 64 == 2 && b0 / 8 % 8 == 2 && b0 % 8 == 6 {
            Ok(Op::SubHli)
        } else if b0 / 64 == 2 && b0 / 8 % 8 == 2 {
            Ok(Op::SubR)
        } else if b0 / 64 == 3 && b0 / 8 % 8 == 2 && b0 % 8 == 6 {
            Ok(Op::SubN)
        } else if b0 / 64 == 2 && b0 / 8 % 8 == 3 && b0 % 8 == 6 {
            Ok(Op::SbcAHli)
        } else if b0 / 64 == 2 && b0 / 8 % 8 == 3 {
            Ok(Op::SbcAR)
        } else if b0 / 64 == 3 && b0 / 8 % 8 == 3 && b0 % 8 == 6 {
            Ok(Op::SbcAN)
        } else if b0 / 64 == 2 && b0 / 8 % 8 == 4 && b0 % 8 == 6 {
            Ok(Op::AndHli)
        } else if b0 / 64 == 2 && b0 / 8 % 8 == 4 {
            Ok(Op::AndR)
        } else if b0 / 64 == 3 && b0 / 8 % 8 == 4 && b0 % 8 == 6 {
            Ok(Op::AndN)
        } else if b0 / 64 == 2 && b0 / 8 % 8 == 5 && b0 % 8 == 6 {
            Ok(Op::XorHli)
        } else if b0 / 64 == 2 && b0 / 8 % 8 == 5 {
            Ok(Op::XorR)
        } else if b0 / 64 == 3 && b0 / 8 % 8 == 5 && b0 % 8 == 6 {
            Ok(Op::XorN)
        } else if b0 / 64 == 2 && b0 / 8 % 8 == 6 && b0 % 8 == 6 {
            Ok(Op::OrHli)
        } else if b0 / 64 == 2 && b0 / 8 % 8 == 6 {
            Ok(Op::OrR)
        } else if b0 / 64 == 3 && b0 / 8 % 8 == 6 && b0 % 8 == 6 {
            Ok(Op::OrN)
        } else if b0 / 64 == 2 && b0 / 8 % 8 == 7 && b0 % 8 == 6 {
            Ok(Op::CpHli)
        } else if b0 / 64 == 2 && b0 / 8 % 8 == 7 {
            Ok(Op::CpR)
        } else if b0 / 64 == 3 && b0 / 8 % 8 == 7 && b0 % 8 == 6 {
            Ok(Op::CpN)
        } else if b0 == 0x34 {
            Ok(Op::IncHli)
        } else if b0 == 0x35 {
            Ok(Op::DecHli)
        } else if b0 == 0x36 {
            Ok(Op::LdHlN)
        } else if b0 / 64 == 0 && b0 % 8 == 4 {
            Ok(Op::IncR)
        } else if b0 / 64 == 0 && b0 % 8 == 5 {
            Ok(Op::DecR)
        } else if b0 / 64 == 0 && b0 % 8 == 6 {
            Ok(Op::LdRN)
        } else if b0 == 0x02 {
            Ok(Op::LdBcA)
        } else if b0 == 0x12 {
            Ok(Op::LdDeA)
        } else if b0 == 0x32 {
            Ok(Op::LdNnA)
        } else if b0 == 0x0a {
            Ok(Op::LdABc)
        } else if b0 == 0x1a {
            Ok(Op::LdADe)
        } else if b0 == 0x3a {
            Ok(Op::LdANn)
        } else if b0 / 64 == 0 && b0 % 16 == 1 {
            Ok(Op::LdDdNn)
        } else if b0 == 0x2a {
            Ok(Op::LdHlNni)
        } else if b0 == 0x22 {
            Ok(Op::LdNniHl)
        } else if b0 == 0xf9 {
            Ok(Op::LdSpHl)
        } else if b0 / 64 == 3 && b0 % 16 == 5 {
            Ok(Op::PushQq)
        } else if b0 / 64 == 3 && b0 % 16 == 1 {
            Ok(Op::PopQq)
        } else if b0 / 64 == 0 && b0 % 16 == 9 {
            Ok(Op::AddHlSs)
        } else if b0 / 64 == 0 && b0 % 16 == 3 {
            Ok(Op::IncSs)
        } else if b0 / 64 == 0 && b0 % 16 == 11 {
            Ok(Op::DecSs)
        } else if b0 == 0x07 {
            Ok(Op::Rlca)
        } else if b0 == 0x17 {
            Ok(Op::Rla)
        } else if b0 == 0x0f {
            Ok(Op::Rrca)
        } else if b0 == 0x1f {
            Ok(Op::Rra)
        } else if b0 == 0x27 {
            Ok(Op::Daa)
        } else if b0 == 0x2f {
            Ok(Op::Cpl)
        } else if b0 == 0x3f {
            Ok(Op::Ccf)
        } else if b0 == 0x37 {
            Ok(Op::Scf)
        } else if b0 == 0xf3 {
            Ok(Op::Di)
        } else if b0 == 0xfb {
            Ok(Op::Ei)
        } else if b0 == 0xeb {
            Ok(Op::ExDeHl)
        } else if b0 == 0x08 {
            Ok(Op::ExAfAf1)
        } else if b0 == 0xd9 {
            Ok(Op::Exx)
        } else if b0 == 0xe3 {
            Ok(Op::ExSpiHl)
        } else if b0 == 0xc3 {
            Ok(Op::JpNn)
        } else if b0 / 64 == 3 && b0 % 8 == 2 {
            Ok(Op::JpCcNn)
        } else if b0 == 0x18 {
            Ok(Op::JrE)
        } else if b0 == 0x38 {
            Ok(Op::JrCE)
        } else if b0 == 0x30 {
            Ok(Op::JrNcE)
        } else if b0 == 0x28 {
            Ok(Op::JrZE)
        } else if b0 == 0x20 {
            Ok(Op::JrNzE)
        } else if b0 == 0xe9 {
            Ok(Op::JpHl)
        } else if b0 == 0x10 {
            Ok(Op::DjnzE)
        } else if b0 == 0xcd {
            Ok(Op::CallNn)
        } else if b0 / 64 == 3 && b0 % 8 == 4 {
            Ok(Op::CallCcNn)
        } else if b0 == 0xc9 {
            Ok(Op::Ret)
        } else if b0 / 64 == 3 && b0 % 8 == 0 {
            Ok(Op::RetCc)
        } else if b0 / 64 == 3 && b0 % 8 == 7 {
            Ok(Op::RstP)
        } else {
            Err(CpuError::Unimplemented)
        }
    }

    /// The instruction that the byte after a 0xCB prefix selects.
    pub fn decode_cb(b1: u8) -> (r: Result<Op, CpuError>)
        ensures
            r == decode_cb(b1),
    {
        if b1 / 8 == 0 && b1 % 8 == 6 {
            Ok(Op::RlcHli)
        } else if b1 / 8 == 0 {
            Ok(Op::RlcR)
        } else if b1 / 8 == 1 && b1 % 8 == 6 {
            Ok(Op::RrcHli)
        } else if b1 / 8 == 1 {
            Ok(Op::RrcR)
        } else if b1 / 8 == 2 && b1 % 8 == 6 {
            Ok(Op::RlHli)
        } else if b1 / 8 == 2 {
            Ok(Op::RlR)
        } else if b1 / 8 == 3 && b1 % 8 == 6 {
            Ok(Op::RrHli)
        } else if b1 / 8 == 3 {
            Ok(Op::RrR)
        } else if b1 / 8 == 4 && b1 % 8 == 6 {
            Ok(Op::SlaHli)
        } else if b1 / 8 == 4 {
            Ok(Op::SlaR)
        } else if b1 / 8 == 5 && b1 % 8 == 6 {
            Ok(Op::SraHli)
        } else if b1 / 8 == 5 {
            Ok(Op::SraR)
        } else if b1 / 8 == 6 {
            Err(CpuError::Unimplemented)
        } else if b1 / 8 == 7 && b1 % 8 == 6 {
            Ok(Op::SrlHli)
        } else if b1 / 8 == 7 {
            Ok(Op::SrlR)
        } else if b1 / 64 == 1 && b1 % 8 == 6 {
            Ok(Op::BitBHli)
        } else if b1 / 64 == 1 {
            Ok(Op::BitBR)
        } else if b1 / 64 == 2 && b1 % 8 == 6 {
            Ok(Op::ResBHli)
        } else if b1 / 64 == 2 {
            Ok(Op::ResBR)
        } else if b1 / 64 == 3 && b1 % 8 == 6 {
            Ok(Op::SetBHli)
        } else if b1 / 64 == 3 {
            Ok(Op::SetBR)
        } else {
            Err(CpuError::Unimplemented)
        }
    }

    /// The instruction that the byte after a 0xED prefix selects.
    pub fn decode_ed(b1: u8) -> (r: Result<Op, CpuError>)
        ensures
            r == decode_ed(b1),
    {
        if b1 == 0x44 {
            Ok(Op::Neg)
        } else if b1 == 0x46 {
            Ok(Op::Im0)
        } else if b1 == 0x56 {
            Ok(Op::Im1)
        } else if b1 == 0x5e {
            Ok(Op::Im2)
        } else if b1 == 0x47 {
            Ok(Op::LdIA)
        } else if b1 == 0x4f {
            Ok(Op::LdRA)
        } else if b1 == 0x57 {
            Ok(Op::LdAI)
        } else if b1 == 0x5f {
            Ok(Op::LdAR)
        } else if b1 / 64 == 1 && b1 % 16 == 10 {
            Ok(Op::AdcHlSs)
        } else if b1 / 64 == 1 && b1 % 16 == 2 {
            Ok(Op::SbcHlSs)
        } else if b1 / 64 == 1 && b1 % 16 == 11 {
            Ok(Op::LdDdNni)
        } else if b1 / 64 == 1 && b1 % 16 == 3 {
            Ok(Op::LdNniDd)
        } else if b1 == 0x4d {
            Ok(Op::Reti)
        } else if b1 == 0x45 {
            Ok(Op::Retn)
        } else if b1 == 0x6f {
            Ok(Op::Rld)
        } else if b1 == 0x67 {
            Ok(Op::Rrd)
        } else if b1 == 0xa0 {
            Ok(Op::Ldi)
        } else if b1 == 0xb0 {
            Ok(Op::LdirStep)
        } else if b1 == 0xa8 {
            Ok(Op::Ldd)
        } else if b1 == 0xb8 {
            Ok(Op::LddrStep)
        } else if b1 == 0xa1 {
            Ok(Op::Cpi)
        } else if b1 == 0xb1 {
            Ok(Op::CpirStep)
        } else if b1 == 0xa9 {
            Ok(Op::Cpd)
        } else if b1 == 0xb9 {
            Ok(Op::CpdrStep)
        } else if b1 / 64 == 1 || (0xa0 <= b1 && b1 < 0xc0) {
            Err(CpuError::Unimplemented)
        } else {
            Err(CpuError::IllegalInstruction)
        }
    }

    /// The instruction that the bytes after a 0xDD prefix select; `b3` is the byte after the displacement.
    pub fn decode_ix(b1: u8, b3: u8) -> (r: Result<Op, CpuError>)
        ensures
            r == decode_ix(b1, b3),
    {
        if b1 % 16 == 9 && b1 / 64 == 0 {
            Ok(Op::AddIxPp)
        } else if b1 == 0x21 {
            Ok(Op::LdIxNn)
        } else if b1 == 0x2a {
            Ok(Op::LdIxNni)
        } else if b1 == 0x22 {
            Ok(Op::LdNniIx)
        } else if b1 == 0x23 {
            Ok(Op::IncIx)
        } else if b1 == 0x2b {
            Ok(Op::DecIx)
        } else if b1 == 0x34 {
            Ok(Op::IncIxdi)
        } else if b1 == 0x35 {
            Ok(Op::DecIxdi)
        } else if b1 == 0x36 {
            Ok(Op::LdIxdN)
        } else if b1 / 64 == 1 && b1 % 8 == 6 && b1 != 0x76 {
            Ok(Op::LdRIxd)
        } else if b1 / 64 == 1 && b1 / 8 % 8 == 6 && b1 != 0x76 {
            Ok(Op::LdIxdR)
        } else if b1 / 64 == 2 && b1 / 8 % 8 == 0 && b1 % 8 == 6 {
            Ok(Op::AddAIxdi)
        } else if b1 / 64 == 2 && b1 / 8 % 8 == 1 && b1 % 8 == 6 {
            Ok(Op::AdcAIxdi)
        } else if b1 / 64 == 2 && b1 / 8 % 8 == 2 && b1 % 8 == 6 {
            Ok(Op::SubIxdi)
        } else if b1 / 64 == 2 && b1 / 8 % 8 == 3 && b1 % 8 == 6 {
            Ok(Op::SbcAIxdi)
        } else if b1 / 64 == 2 && b1 / 8 % 8 == 4 && b1 % 8 == 6 {
            Ok(Op::AndIxdi)
        } else if b1 / 64 == 2 && b1 / 8 % 8 == 5 && b1 % 8 == 6 {
            Ok(Op::XorIxdi)
        } else if b1 / 64 == 2 && b1 / 8 % 8 == 6 && b1 % 8 == 6 {
            Ok(Op::OrIxdi)
        } else if b1 / 64 == 2 && b1 / 8 % 8 == 7 && b1 % 8 == 6 {
            Ok(Op::CpIxdi)
        } else if b1 == 0xe1 {
            Ok(Op::PopIx)
        } else if b1 == 0xe5 {
            Ok(Op::PushIx)
        } else if b1 == 0xe3 {
            Ok(Op::ExSpiIx)
        } else if b1 == 0xe9 {
            Ok(Op::JpIx)
        } else if b1 == 0xf9 {
            Ok(Op::LdSpIx)
        } else if b1 == 0xcb {
            if b3 / 8 == 0 && b3 % 8 == 6 {
                Ok(Op::RlcIxdi)
            } else if b3 / 8 == 1 && b3 % 8 == 6 {
                Ok(Op::RrcIxdi)
            } else if b3 / 8 == 2 && b3 % 8 == 6 {
                Ok(Op::RlIxdi)
            } else if b3 / 8 == 3 && b3 % 8 == 6 {
                Ok(Op::RrIxdi)
            } else if b3 / 8 == 4 && b3 % 8 == 6 {
                Ok(Op::SlaIxdi)
            } else if b3 / 8 == 5 && b3 % 8 == 6 {
                Ok(Op::SraIxdi)
            } else if b3 / 8 == 6 && b3 % 8 == 6 {
                Err(CpuError::Unimplemented)
            } else if b3 / 8 == 7 && b3 % 8 == 6 {
                Ok(Op::SrlIxdi)
            } else if b3 / 64 == 1 && b3 % 8 == 6 {
                Ok(Op::BitBIxdi)
            } else if b3 / 64 == 2 && b3 % 8 == 6 {
                Ok(Op::ResBIxdi)
            } else if b3 / 64 == 3 && b3 % 8 == 6 {
                Ok(Op::SetBIxdi)
            } else {
                Err(CpuError::IllegalInstruction)
            }
        } else {
            Err(CpuError::IllegalInstruction)
        }
    }

    /// The instruction that the bytes after a 0xFD prefix select; `b3` is the byte after the displacement.
    pub fn decode_iy(b1: u8, b3: u8) -> (r: Result<Op, CpuError>)
        ensures
            r == decode_iy(b1, b3),
    {
        if b1 % 16 == 9 && b1 / 64 == 0 {
            Ok(Op::AddIyRr)
        } else if b1 == 0x21 {
            Ok(Op::LdIyNn)
        } else if b1 == 0x2a {
            Ok(Op::LdIyNni)
        } else if b1 == 0x22 {
            Ok(Op::LdNniIy)
        } else if b1 == 0x23 {
            Ok(Op::IncIy)
        } else if b1 == 0x2b {
            Ok(Op::DecIy)
        } else if b1 == 0x34 {
            Ok(Op::IncIydi)
        } else if b1 == 0x35 {
            Ok(Op::DecIydi)
        } else if b1 == 0x36 {
            Ok(Op::LdIydN)
        } else if b1 / 64 == 1 && b1 % 8 == 6 && b1 != 0x76 {
            Ok(Op::LdRIyd)
        } else if b1 / 64 == 1 && b1 / 8 % 8 == 6 && b1 != 0x76 {
            Ok(Op::LdIydR)
        } else if b1 / 64 == 2 && b1 / 8 % 8 == 0 && b1 % 8 == 6 {
            Ok(Op::AddAIydi)
        } else if b1 / 64 == 2 && b1 / 8 % 8 == 1 && b1 % 8 == 6 {
            Ok(Op::AdcAIydi)
        } else if b1 / 64 == 2 && b1 / 8 % 8 == 2 && b1 % 8 == 6 {
            Ok(Op::SubIydi)
        } else if b1 / 64 == 2 && b1 / 8 % 8 == 3 && b1 % 8 == 6 {
            Ok(Op::SbcAIydi)
        } else if b1 / 64 == 2 && b1 / 8 % 8 == 4 && b1 % 8 == 6 {
            Ok(Op::AndIydi)
        } else if b1 / 64 == 2 && b1 / 8 % 8 == 5 && b1 % 8 == 6 {
            Ok(Op::XorIydi)
        } else if b1 / 64 == 2 && b1 / 8 % 8 == 6 && b1 % 8 == 6 {
            Ok(Op::OrIydi)
        } else if b1 / 64 == 2 && b1 / 8 % 8 == 7 && b1 % 8 == 6 {
            Ok(Op::CpIydi)
        } else if b1 == 0xe1 {
            Ok(Op::PopIy)
        } else if b1 == 0xe5 {
            Ok(Op::PushIy)
        } else if b1 == 0xe3 {
            Ok(Op::ExSpiIy)
        } else if b1 == 0xe9 {
            Ok(Op::JpIy)
        } else if b1 == 0xf9 {
            Ok(Op::LdSpIy)
        } else if b1 == 0xcb {
            if b3 / 8 == 0 && b3 % 8 == 6 {
                Ok(Op::RlcIydi)
            } else if b3 / 8 == 1 && b3 % 8 == 6 {
                Ok(Op::RrcIydi)
            } else if b3 / 8 == 2 && b3 % 8 == 6 {
                Ok(Op::RlIydi)
            } else if b3 / 8 == 3 && b3 % 8 == 6 {
                Ok(Op::RrIydi)
            } else if b3 / 8 == 4 && b3 % 8 == 6 {
                Ok(Op::SlaIydi)
            } else if b3 / 8 == 5 && b3 % 8 == 6 {
                Ok(Op::SraIydi)
            } else if b3 / 8 == 6 && b3 % 8 == 6 {
                Err(CpuError::Unimplemented)
            } else if b3 / 8 == 7 && b3 % 8 == 6 {
                Ok(Op::SrlIydi)
            } else if b3 / 64 == 1 && b3 % 8 == 6 {
                Ok(Op::BitBIydi)
            } else if b3 / 64 == 2 && b3 % 8 == 6 {
                Ok(Op::ResBIydi)
            } else if b3 / 64 == 3 && b3 % 8 == 6 {
                Ok(Op::SetBIydi)
            } else {
                Err(CpuError::IllegalInstruction)
            }
        } else {
            Err(CpuError::IllegalInstruction)
        }
    }

    /// Runs one instruction with the handler that `op` names.
    pub fn execute(&mut self, op: Op) -> (r: Result<(), CpuError>)
        ensures
            outcome(old(self)@, final(self)@, r, op_step(old(self)@, op)),
    {
        match op {
            Op::AddHlSs => self.add_hl_ss(),
            Op::AdcHlSs => self.adc_hl_ss(),
            Op::SbcHlSs => self.sbc_hl_ss(),
            Op::AddIxPp => self.add_ix_pp(),
            Op::AddIyRr => self.add_iy_rr(),
            Op::IncSs => self.inc_ss(),
            Op::IncIx => self.inc_ix(),
            Op::IncIy => self.inc_iy(),
            Op::DecSs => self.dec_ss(),
            Op::DecIx => self.dec_ix(),
            Op::DecIy => self.dec_iy(),
            Op::AddAR => self.add_a_r(),
            Op::AddAN => self.add_a_n(),
            Op::AddAHli => self.add_a_hli(),
            Op::AddAIxdi => self.add_a_ixdi(),
            Op::AddAIydi => self.add_a_iydi(),
            Op::AdcAR => self.adc_a_r(),
            Op::AdcAN => self.adc_a_n(),
            Op::AdcAHli => self.adc_a_hli(),
            Op::AdcAIxdi => self.adc_a_ixdi(),
            Op::AdcAIydi => self.adc_a_iydi(),
            Op::SubR => self.sub_r(),
            Op::SubN => self.sub_n(),
            Op::SubHli => self.sub_hli(),
            Op::SubIxdi => self.sub_ixdi(),
            Op::SubIydi => self.sub_iydi(),
            Op::SbcAR => self.sbc_a_r(),
            Op::SbcAN => self.sbc_a_n(),
            Op::SbcAHli => self.sbc_a_hli(),
            Op::SbcAIxdi => self.sbc_a_ixdi(),
            Op::SbcAIydi => self.sbc_a_iydi(),
            Op::AndR => self.and_r(),
            Op::AndN => self.and_n(),
            Op::AndHli => self.and_hli(),
            Op::AndIxdi => self.and_ixdi(),
            Op::AndIydi => self.and_iydi(),
            Op::OrR => self.or_r(),
            Op::OrN => self.or_n(),
            Op::OrHli => self.or_hli(),
            Op::OrIxdi => self.or_ixdi(),
            Op::OrIydi => self.or_iydi(),
            Op::XorR => self.xor_r(),
            Op::XorN => self.xor_n(),
            Op::XorHli => self.xor_hli(),
            Op::XorIxdi => self.xor_ixdi(),
            Op::XorIydi => self.xor_iydi(),
            Op::CpR => self.cp_r(),
            Op::CpN => self.cp_n(),
            Op::CpHli => self.cp_hli(),
            Op::CpIxdi => self.cp_ixdi(),
            Op::CpIydi => self.cp_iydi(),
            Op::IncR => self.inc_r(),
            Op::IncHli => self.inc_hli(),
            Op::IncIxdi => self.inc_ixdi(),
            Op::IncIydi => self.inc_iydi(),
            Op::DecR => self.dec_r(),
            Op::DecHli => self.dec_hli(),
            Op::DecIxdi => self.dec_ixdi(),
            Op::DecIydi => self.dec_iydi(),
            Op::Daa => self.daa(),
            Op::Cpl => self.cpl(),
            Op::Neg => self.neg(),
            Op::Ccf => self.ccf(),
            Op::Scf => self.scf(),
            Op::Nop => self.nop(),
            Op::Halt => self.halt(),
            Op::Di => self.di(),
            Op::Ei => self.ei(),
            Op::Im0 => self.im_0(),
            Op::Im1 => self.im_1(),
            Op::Im2 => self.im_2(),
            Op::ExDeHl => self.ex_de_hl(),
            Op::ExAfAf1 => self.ex_af_af1(),
            Op::Exx => self.exx(),
            Op::ExSpiHl => self.ex_spi_hl(),
            Op::ExSpiIx => self.ex_spi_ix(),
            Op::ExSpiIy => self.ex_spi_iy(),
            Op::Ldi => self.ldi(),
            Op::Ldir => self.ldir(),
            Op::LdirStep => self.ldir_step(),
            Op::Ldd => self.ldd(),
            Op::Lddr => self.lddr(),
            Op::LddrStep => self.lddr_step(),
            Op::Cpi => self.cpi(),
            Op::Cpir => self.cpir(),
            Op::CpirStep => self.cpir_step(),
            Op::Cpd => self.cpd(),
            Op::Cpdr => self.cpdr(),
            Op::CpdrStep => self.cpdr_step(),
            Op::JpNn => self.jp_nn(),
            Op::JpCcNn => self.jp_cc_nn(),
            Op::JrE => self.jr_e(),
            Op::JrCE => self.jr_c_e(),
            Op::JrNcE => self.jr_nc_e(),
            Op::JrZE => self.jr_z_e(),
            Op::JrNzE => self.jr_nz_e(),
            Op::JpHl => self.jp_hl(),
            Op::JpIx => self.jp_ix(),
            Op::JpIy => self.jp_iy(),
            Op::DjnzE => self.djnz_e(),
            Op::CallNn => self.call_nn(),
            Op::CallCcNn => self.call_cc_nn(),
            Op::RstP => self.rst_p(),
            Op::Ret => self.ret(),
            Op::RetCc => self.ret_cc(),
            Op::Reti => self.reti(),
            Op::Retn => self.retn(),
            Op::LdRR1 => self.ld_r_r1(),
            Op::LdRN => self.ld_r_n(),
            Op::LdRHl => self.ld_r_hl(),
            Op::LdRIxd => self.ld_r_ixd(),
            Op::LdRIyd => self.ld_r_iyd(),
            Op::LdHlR => self.ld_hl_r(),
            Op::LdIxdR => self.ld_ixd_r(),
            Op::LdIydR => self.ld_iyd_r(),
            Op::LdHlN => self.ld_hl_n(),
            Op::LdIxdN => self.ld_ixd_n(),
            Op::LdIydN => self.ld_iyd_n(),
            Op::LdABc => self.ld_a_bc(),
            Op::LdADe => self.ld_a_de(),
            Op::LdANn => self.ld_a_nn(),
            Op::LdBcA => self.ld_bc_a(),
            Op::LdDeA => self.ld_de_a(),
            Op::LdNnA => self.ld_nn_a(),
            Op::LdAI => self.ld_a_i(),
            Op::LdAR => self.ld_a_r(),
            Op::LdIA => self.ld_i_a(),
            Op::LdRA => self.ld_r_a(),
            Op::LdDdNn => self.ld_dd_nn(),
            Op::LdIxNn => self.ld_ix_nn(),
            Op::LdIyNn => self.ld_iy_nn(),
            Op::LdHlNni => self.ld_hl_nni(),
            Op::LdDdNni => self.ld_dd_nni(),
            Op::LdIxNni => self.ld_ix_nni(),
            Op::LdIyNni => self.ld_iy_nni(),
            Op::LdNniHl => self.ld_nni_hl(),
            Op::LdNniDd => self.ld_nni_dd(),
            Op::LdNniIx => self.ld_nni_ix(),
            Op::LdNniIy => self.ld_nni_iy(),
            Op::LdSpHl => self.ld_sp_hl(),
            Op::LdSpIx => self.ld_sp_ix(),
            Op::LdSpIy => self.ld_sp_iy(),
            Op::PushQq => self.push_qq(),
            Op::PopQq => self.pop_qq(),
            Op::PushIx => self.push_ix(),
            Op::PopIx => self.pop_ix(),
            Op::PushIy => self.push_iy(),
            Op::PopIy => self.pop_iy(),
            Op::RlcR => self.rlc_r(),
            Op::RlcHli => self.rlc_hli(),
            Op::RlcIxdi => self.rlc_ixdi(),
            Op::RlcIydi => self.rlc_iydi(),
            Op::RlR => self.rl_r(),
            Op::RlHli => self.rl_hli(),
            Op::RlIxdi => self.rl_ixdi(),
            Op::RlIydi => self.rl_iydi(),
            Op::RrcR => self.rrc_r(),
            Op::RrcHli => self.rrc_hli(),
            Op::RrcIxdi => self.rrc_ixdi(),
            Op::RrcIydi => self.rrc_iydi(),
            Op::RrR => self.rr_r(),
            Op::RrHli => self.rr_hli(),
            Op::RrIxdi => self.rr_ixdi(),
            Op::RrIydi => self.rr_iydi(),
            Op::SlaR => self.sla_r(),
            Op::SlaHli => self.sla_hli(),
            Op::SlaIxdi => self.sla_ixdi(),
            Op::SlaIydi => self.sla_iydi(),
            Op::SraR => self.sra_r(),
            Op::SraHli => self.sra_hli(),
            Op::SraIxdi => self.sra_ixdi(),
            Op::SraIydi => self.sra_iydi(),
            Op::SrlR => self.srl_r(),
            Op::SrlHli => self.srl_hli(),
            Op::SrlIxdi => self.srl_ixdi(),
            Op::SrlIydi => self.srl_iydi(),
            Op::Rlca => self.rlca(),
            Op::Rla => self.rla(),
            Op::Rrca => self.rrca(),
            Op::Rra => self.rra(),
            Op::Rld => self.rld(),
            Op::Rrd => self.rrd(),
            Op::BitBR => self.bit_b_r(),
            Op::SetBR => self.set_b_r(),
            Op::ResBR => self.res_b_r(),
            Op::BitBHli => self.bit_b_hli(),
            Op::SetBHli => self.set_b_hli(),
            Op::ResBHli => self.res_b_hli(),
            Op::BitBIxdi => self.bit_b_ixdi(),
            Op::SetBIxdi => self.set_b_ixdi(),
            Op::ResBIxdi => self.res_b_ixdi(),
            Op::BitBIydi => self.bit_b_iydi(),
            Op::SetBIydi => self.set_b_iydi(),
            Op::ResBIydi => self.res_b_iydi(),
        }
    }

    /// Decodes the bytes at PC.
    pub fn decode(b0: u8, b1: u8, b3: u8) -> (r: Result<Op, CpuError>)
        ensures
            r == decode(b0, b1, b3),
    {
        if b0 == 0xcb {
            Self::decode_cb(b1)
        } else if b0 == 0xed {
            Self::decode_ed(b1)
        } else if b0 == 0xdd {
            Self::decode_ix(b1, b3)
        } else if b0 == 0xfd {
            Self::decode_iy(b1, b3)
        } else {
            Self::decode_main(b0)
        }
    }

    /// Fetches, decodes and runs the instruction at PC; a halted CPU does nothing.
    pub fn step(&mut self) -> (r: Result<(), CpuError>)
        ensures
            outcome(old(self)@, final(self)@, r, step(old(self)@)),
    {
        if self.halted {
            return Ok(());
        }
        if self.memory.len() == 0 {
            return Err(CpuError::AddressOutOfRange);
        }
        let b0 = self.memory_at_pc(0);
        let b1 = self.memory_at_pc(1);
        let b3 = self.memory_at_pc(3);
        match Self::decode(b0, b1, b3) {
            Ok(op) => self.execute(op),
            Err(e) => Err(e),
        }
    }
}

} // verus!
