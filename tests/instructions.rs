use gbcpu::cmd::{
    adc, add, and, bit, call, call_flag, ccf, cp, cpl, daa, dec, get_reg_ext_byte_val,
    get_reg_ext_flag_val, get_reg_ext_val, inc, jp, jp_flag, jr, jr_flag, ld, ldd, ldhl, ldi, or,
    pop, push, put_reg_ext_val, res, ret, ret_flag, reti, rl, rla, rlc, rlca, rr, rra, rrc, rrca,
    rst, sbc, scf, sla, sra, srl, sub, swap, xor, CmdInp, RegExt,
};
use gbcpu::common::{ByteSize, CpuError, RegBytes};
use gbcpu::cpu::{Flag, Reg};
use gbcpu::motherboard::Motherboard;

fn reg(r: Reg) -> CmdInp {
    CmdInp::new(RegExt::Reg(r), false, 0)
}

fn ind(r: Reg, d: u16) -> CmdInp {
    CmdInp::new(RegExt::Reg(r), true, d)
}

fn lit(re: RegExt) -> CmdInp {
    CmdInp::new(re, false, 0)
}

fn set8(m: &mut Motherboard, r: Reg, v: u8) {
    m.cpu.write_reg(r, RegBytes::new_single(v)).unwrap();
}

fn set16(m: &mut Motherboard, r: Reg, v: u16) {
    m.cpu.write_reg(r, RegBytes::new_double(v)).unwrap();
}

fn get8(m: &Motherboard, r: Reg) -> u8 {
    m.cpu.read_reg(r).get_single().unwrap()
}

fn get16(m: &Motherboard, r: Reg) -> u16 {
    m.cpu.read_reg(r).get_double().unwrap()
}

fn flags(m: &Motherboard) -> (bool, bool, bool, bool) {
    (
        m.cpu.check_flag(Flag::Z),
        m.cpu.check_flag(Flag::N),
        m.cpu.check_flag(Flag::H),
        m.cpu.check_flag(Flag::C),
    )
}

#[test]
fn push_then_pop_restores_value_and_sp() {
    for sp in [0x0002u16, 0x1234, 0x8000, 0xFFFE] {
        let mut m = Motherboard::new();
        set16(&mut m, Reg::SP, sp);
        set16(&mut m, Reg::BC, 0xBEEF);
        push(&mut m, reg(Reg::BC)).unwrap();
        assert_eq!(get16(&m, Reg::SP), sp - 2);
        assert_eq!(m.get_mem_at(sp - 2), 0xBE);
        assert_eq!(m.get_mem_at(sp - 1), 0xEF);
        set16(&mut m, Reg::BC, 0);
        pop(&mut m, reg(Reg::BC)).unwrap();
        assert_eq!(get16(&m, Reg::BC), 0xBEEF);
        assert_eq!(get16(&m, Reg::SP), sp);
    }
}

#[test]
fn board_push_pop_round_trip() {
    let mut m = Motherboard::new();
    set16(&mut m, Reg::SP, 0xFFFE);
    m.push(0x1234);
    m.push(0xABCD);
    assert_eq!(m.pop(), 0xABCD);
    assert_eq!(m.pop(), 0x1234);
    assert_eq!(get16(&m, Reg::SP), 0xFFFE);
}

#[test]
fn pop_into_non_register_is_refused() {
    let mut m = Motherboard::new();
    set16(&mut m, Reg::SP, 0x8000);
    assert_eq!(pop(&mut m, lit(RegExt::NN)), Err(CpuError::InvalidOperand));
    assert_eq!(pop(&mut m, reg(Reg::A)), Err(CpuError::InvalidOperand));
    assert_eq!(get16(&m, Reg::SP), 0x8000);
    assert_eq!(push(&mut m, reg(Reg::A)), Err(CpuError::InvalidOperand));
    assert_eq!(get16(&m, Reg::SP), 0x8000);
}

#[test]
fn add8_flags_for_all_byte_pairs() {
    let mut m = Motherboard::new();
    for a in 0..=255u8 {
        for b in 0..=255u8 {
            set8(&mut m, Reg::A, a);
            set8(&mut m, Reg::B, b);
            add(&mut m, reg(Reg::A), reg(Reg::B)).unwrap();
            let sum = a as u16 + b as u16;
            assert_eq!(get8(&m, Reg::A), (sum % 256) as u8);
            let (z, n, h, c) = flags(&m);
            assert_eq!(c, sum > 0xFF);
            assert_eq!(h, (a & 0xF) + (b & 0xF) > 0xF);
            assert_eq!(z, sum % 256 == 0);
            assert!(!n);
        }
    }
}

#[test]
fn add8_example() {
    let mut m = Motherboard::new();
    set8(&mut m, Reg::A, 0x3A);
    set8(&mut m, Reg::B, 0xC6);
    add(&mut m, reg(Reg::A), reg(Reg::B)).unwrap();
    assert_eq!(get8(&m, Reg::A), 0x00);
    assert_eq!(flags(&m), (true, false, true, true));
    assert_eq!(get8(&m, Reg::B), 0xC6);
}

#[test]
fn add16_widens_and_sets_carries() {
    let mut m = Motherboard::new();
    set16(&mut m, Reg::HL, 0x0FFF);
    set16(&mut m, Reg::BC, 0x0001);
    add(&mut m, reg(Reg::HL), reg(Reg::BC)).unwrap();
    assert_eq!(get16(&m, Reg::HL), 0x1000);
    assert_eq!(flags(&m), (false, false, true, false));
    set16(&mut m, Reg::HL, 0xFFFF);
    add(&mut m, reg(Reg::HL), reg(Reg::BC)).unwrap();
    assert_eq!(get16(&m, Reg::HL), 0x0000);
    assert_eq!(flags(&m), (false, false, true, true));
    set16(&mut m, Reg::HL, 0x00F0);
    set8(&mut m, Reg::D, 0xF0);
    add(&mut m, reg(Reg::HL), reg(Reg::D)).unwrap();
    assert_eq!(get16(&m, Reg::HL), 0x01E0);
}

#[test]
fn add_refuses_mismatched_operands() {
    let mut m = Motherboard::new();
    set8(&mut m, Reg::A, 1);
    assert_eq!(add(&mut m, reg(Reg::A), reg(Reg::BC)), Err(CpuError::InvalidOperand));
    assert_eq!(add(&mut m, lit(RegExt::N), reg(Reg::A)), Err(CpuError::InvalidOperand));
    assert_eq!(add(&mut m, reg(Reg::A), lit(RegExt::Flag(Flag::Z))), Err(CpuError::InvalidOperand));
    assert_eq!(get8(&m, Reg::A), 1);
}

#[test]
fn adc_and_sbc_fold_in_carry() {
    let mut m = Motherboard::new();
    set8(&mut m, Reg::A, 0xFF);
    set8(&mut m, Reg::B, 0x00);
    m.cpu.set_flag(Flag::C);
    adc(&mut m, reg(Reg::A), reg(Reg::B)).unwrap();
    assert_eq!(get8(&m, Reg::A), 0x00);
    assert_eq!(flags(&m), (true, false, true, true));

    set8(&mut m, Reg::A, 0x10);
    set8(&mut m, Reg::B, 0x0F);
    m.cpu.set_flag(Flag::C);
    sbc(&mut m, reg(Reg::A), reg(Reg::B)).unwrap();
    assert_eq!(get8(&m, Reg::A), 0x00);
    assert_eq!(flags(&m), (true, true, true, false));
}

#[test]
fn sub_wraps_and_borrows() {
    let mut m = Motherboard::new();
    set8(&mut m, Reg::A, 0x10);
    set8(&mut m, Reg::B, 0x01);
    sub(&mut m, reg(Reg::B)).unwrap();
    assert_eq!(get8(&m, Reg::A), 0x0F);
    assert_eq!(flags(&m), (false, true, true, false));
    set8(&mut m, Reg::A, 0x00);
    sub(&mut m, reg(Reg::B)).unwrap();
    assert_eq!(get8(&m, Reg::A), 0xFF);
    assert_eq!(flags(&m), (false, true, true, true));
    assert_eq!(sub(&mut m, reg(Reg::BC)), Err(CpuError::InvalidOperand));
}

#[test]
fn logic_ops() {
    let mut m = Motherboard::new();
    set8(&mut m, Reg::B, 0x3C);
    set8(&mut m, Reg::A, 0xF0);
    and(&mut m, reg(Reg::B)).unwrap();
    assert_eq!(get8(&m, Reg::A), 0x30);
    assert_eq!(flags(&m), (false, false, true, false));
    set8(&mut m, Reg::A, 0xF0);
    or(&mut m, reg(Reg::B)).unwrap();
    assert_eq!(get8(&m, Reg::A), 0xFC);
    assert_eq!(flags(&m), (false, false, false, false));
    set8(&mut m, Reg::A, 0xF0);
    xor(&mut m, reg(Reg::B)).unwrap();
    assert_eq!(get8(&m, Reg::A), 0xCC);
    xor(&mut m, reg(Reg::A)).unwrap();
    assert_eq!(get8(&m, Reg::A), 0x00);
    assert_eq!(flags(&m), (true, false, false, false));
}

#[test]
fn cp_sets_flags_only() {
    let mut m = Motherboard::new();
    set8(&mut m, Reg::A, 0x3C);
    set8(&mut m, Reg::B, 0x3C);
    cp(&mut m, reg(Reg::B)).unwrap();
    assert_eq!(get8(&m, Reg::A), 0x3C);
    assert_eq!(flags(&m), (true, true, false, false));
    set8(&mut m, Reg::B, 0x40);
    cp(&mut m, reg(Reg::B)).unwrap();
    assert_eq!(get8(&m, Reg::A), 0x3C);
    assert_eq!(flags(&m), (false, true, false, true));
    set8(&mut m, Reg::B, 0x0F);
    cp(&mut m, reg(Reg::B)).unwrap();
    assert_eq!(flags(&m), (false, true, true, false));
}

#[test]
fn inc_then_dec_restores_every_register() {
    let regs = [Reg::A, Reg::B, Reg::C, Reg::D, Reg::E, Reg::H, Reg::L, Reg::AF, Reg::BC, Reg::DE, Reg::HL, Reg::SP, Reg::PC];
    for r in regs {
        for v in [0u16, 1, 0x0F, 0x10, 0x7F, 0xFE, 0xFF] {
            let mut m = Motherboard::new();
            let val = if r.size() == ByteSize::Single { RegBytes::new_single(v as u8) } else { RegBytes::new_double(v * 0x101) };
            m.cpu.write_reg(r, val).unwrap();
            inc(&mut m, reg(r)).unwrap();
            dec(&mut m, reg(r)).unwrap();
            assert_eq!(m.cpu.read_reg(r), val);
            dec(&mut m, reg(r)).unwrap();
            inc(&mut m, reg(r)).unwrap();
            assert_eq!(m.cpu.read_reg(r), val);
        }
    }
}

#[test]
fn inc_dec_boundaries() {
    let mut m = Motherboard::new();
    set8(&mut m, Reg::B, 0xFF);
    m.cpu.set_flag(Flag::C);
    inc(&mut m, reg(Reg::B)).unwrap();
    assert_eq!(get8(&m, Reg::B), 0x00);
    assert_eq!(flags(&m), (true, false, true, true));
    dec(&mut m, reg(Reg::B)).unwrap();
    assert_eq!(get8(&m, Reg::B), 0xFF);
    assert_eq!(flags(&m), (false, true, true, true));
    set8(&mut m, Reg::B, 0x01);
    dec(&mut m, reg(Reg::B)).unwrap();
    assert_eq!(get8(&m, Reg::B), 0x00);
    assert_eq!(flags(&m), (true, true, false, true));
    set16(&mut m, Reg::BC, 0xFFFF);
    let f = get8(&m, Reg::F);
    inc(&mut m, reg(Reg::BC)).unwrap();
    assert_eq!(get16(&m, Reg::BC), 0x0000);
    assert_eq!(get8(&m, Reg::F), f);
    dec(&mut m, reg(Reg::BC)).unwrap();
    assert_eq!(get16(&m, Reg::BC), 0xFFFF);
}

#[test]
fn inc_through_memory() {
    let mut m = Motherboard::new();
    set16(&mut m, Reg::HL, 0xC000);
    m.put_mem_at(0xC000, 0x41);
    inc(&mut m, ind(Reg::HL, 0)).unwrap();
    assert_eq!(m.get_mem_at(0xC000), 0x42);
    assert_eq!(get16(&m, Reg::HL), 0xC000);
    assert_eq!(inc(&mut m, lit(RegExt::N)), Err(CpuError::InvalidOperand));
}

#[test]
fn conditional_branches_not_taken_change_nothing() {
    let mut m = Motherboard::new();
    set16(&mut m, Reg::PC, 0x0200);
    set16(&mut m, Reg::SP, 0xD000);
    m.put_mem_at(0x0201, 0x10);
    m.put_mem_at(0x0202, 0x40);
    m.put_mem_at(0xD000, 0x12);
    m.put_mem_at(0xD001, 0x34);
    assert!(!m.cpu.check_flag(Flag::Z));
    let mem_before = m.mem.clone();
    jr_flag(&mut m, lit(RegExt::Flag(Flag::Z)), lit(RegExt::N)).unwrap();
    assert_eq!(get16(&m, Reg::PC), 0x0200);
    jp_flag(&mut m, lit(RegExt::Flag(Flag::Z)), lit(RegExt::NN)).unwrap();
    call_flag(&mut m, lit(RegExt::Flag(Flag::Z)), lit(RegExt::NN)).unwrap();
    ret_flag(&mut m, lit(RegExt::Flag(Flag::Z))).unwrap();
    assert_eq!(get16(&m, Reg::PC), 0x0200);
    assert_eq!(get16(&m, Reg::SP), 0xD000);
    assert!(m.mem == mem_before);
}

#[test]
fn conditional_branches_taken() {
    let mut m = Motherboard::new();
    set16(&mut m, Reg::PC, 0x0200);
    m.put_mem_at(0x0201, 0x10);
    jr_flag(&mut m, lit(RegExt::NFlag(Flag::Z)), lit(RegExt::N)).unwrap();
    assert_eq!(get16(&m, Reg::PC), 0x0210);
    m.put_mem_at(0x0211, 0x00);
    m.put_mem_at(0x0212, 0x80);
    jp_flag(&mut m, lit(RegExt::NFlag(Flag::C)), lit(RegExt::NN)).unwrap();
    assert_eq!(get16(&m, Reg::PC), 0x8000);
    assert_eq!(jp_flag(&mut m, reg(Reg::A), lit(RegExt::NN)), Err(CpuError::InvalidOperand));
    assert_eq!(get16(&m, Reg::PC), 0x8000);
}

#[test]
fn bit_test_on_accumulator() {
    let mut m = Motherboard::new();
    set8(&mut m, Reg::A, 0x3C);
    bit(&mut m, lit(RegExt::B(7)), reg(Reg::A)).unwrap();
    assert_eq!(get8(&m, Reg::A), 0x3C);
    let (z, n, h, c) = flags(&m);
    assert!(z);
    assert!(h);
    assert!(!n);
    assert!(!c);
    m.cpu.set_flag(Flag::C);
    bit(&mut m, lit(RegExt::B(2)), reg(Reg::A)).unwrap();
    assert_eq!(flags(&m), (false, false, true, true));
    assert_eq!(bit(&mut m, lit(RegExt::B(8)), reg(Reg::A)), Err(CpuError::InvalidOperand));
}

#[test]
fn set_and_res_bits() {
    let mut m = Motherboard::new();
    set8(&mut m, Reg::F, 0xA0);
    set8(&mut m, Reg::B, 0x00);
    gbcpu::cmd::set(&mut m, lit(RegExt::B(3)), reg(Reg::B)).unwrap();
    assert_eq!(get8(&m, Reg::B), 0x08);
    set8(&mut m, Reg::C, 0xFF);
    res(&mut m, lit(RegExt::B(7)), reg(Reg::C)).unwrap();
    assert_eq!(get8(&m, Reg::C), 0x7F);
    assert_eq!(get8(&m, Reg::F), 0xA0);
    assert_eq!(gbcpu::cmd::set(&mut m, reg(Reg::A), reg(Reg::B)), Err(CpuError::InvalidOperand));
}

#[test]
fn swap_nibbles() {
    let mut m = Motherboard::new();
    set8(&mut m, Reg::F, 0x70);
    set8(&mut m, Reg::B, 0x12);
    swap(&mut m, reg(Reg::B)).unwrap();
    assert_eq!(get8(&m, Reg::B), 0x21);
    assert_eq!(flags(&m), (false, false, false, false));
    set8(&mut m, Reg::B, 0x00);
    swap(&mut m, reg(Reg::B)).unwrap();
    assert_eq!(flags(&m), (true, false, false, false));
}

#[test]
fn daa_after_half_carry() {
    let mut m = Motherboard::new();
    set8(&mut m, Reg::A, 0x0A);
    m.cpu.set_flag(Flag::H);
    daa(&mut m);
    assert_eq!(get8(&m, Reg::A), 0x10);
    assert_eq!(flags(&m), (false, false, false, false));
}

#[test]
fn daa_overflowing_correction_sets_carry() {
    let mut m = Motherboard::new();
    set8(&mut m, Reg::A, 0x9A);
    daa(&mut m);
    assert_eq!(get8(&m, Reg::A), 0x00);
    assert_eq!(flags(&m), (true, false, false, true));
}

#[test]
fn daa_after_subtraction() {
    let mut m = Motherboard::new();
    set8(&mut m, Reg::A, 0x45);
    set8(&mut m, Reg::B, 0x06);
    sub(&mut m, reg(Reg::B)).unwrap();
    assert_eq!(get8(&m, Reg::A), 0x3F);
    daa(&mut m);
    assert_eq!(get8(&m, Reg::A), 0x39);
    assert_eq!(flags(&m), (false, true, false, false));
}

#[test]
fn cpl_ccf_scf() {
    let mut m = Motherboard::new();
    set8(&mut m, Reg::A, 0x35);
    cpl(&mut m);
    assert_eq!(get8(&m, Reg::A), 0xCA);
    assert_eq!(flags(&m), (false, true, true, false));
    scf(&mut m);
    assert_eq!(flags(&m), (false, false, false, true));
    ccf(&mut m);
    assert_eq!(flags(&m), (false, false, false, false));
    ccf(&mut m);
    assert_eq!(flags(&m), (false, false, false, true));
}

#[test]
fn flag_writes_clear_low_nibble() {
    let mut m = Motherboard::new();
    set8(&mut m, Reg::F, 0x0F);
    scf(&mut m);
    assert_eq!(get8(&m, Reg::F), 0x10);
}

#[test]
fn accumulator_rotates() {
    let mut m = Motherboard::new();
    set8(&mut m, Reg::A, 0x85);
    rlca(&mut m);
    assert_eq!(get8(&m, Reg::A), 0x0B);
    assert_eq!(flags(&m), (false, false, false, true));
    set8(&mut m, Reg::A, 0x80);
    set8(&mut m, Reg::F, 0x00);
    rla(&mut m);
    assert_eq!(get8(&m, Reg::A), 0x00);
    assert_eq!(flags(&m), (false, false, false, true));
    rla(&mut m);
    assert_eq!(get8(&m, Reg::A), 0x01);
    assert_eq!(flags(&m), (false, false, false, false));
    rrca(&mut m);
    assert_eq!(get8(&m, Reg::A), 0x80);
    assert_eq!(flags(&m), (false, false, false, true));
    set8(&mut m, Reg::A, 0x01);
    set8(&mut m, Reg::F, 0x00);
    rra(&mut m);
    assert_eq!(get8(&m, Reg::A), 0x00);
    assert_eq!(flags(&m), (false, false, false, true));
    rra(&mut m);
    assert_eq!(get8(&m, Reg::A), 0x80);
}

#[test]
fn operand_rotates_and_shifts() {
    let mut m = Motherboard::new();
    set8(&mut m, Reg::B, 0x80);
    rlc(&mut m, reg(Reg::B)).unwrap();
    assert_eq!(get8(&m, Reg::B), 0x01);
    assert_eq!(flags(&m), (false, false, false, true));
    set8(&mut m, Reg::B, 0x80);
    set8(&mut m, Reg::F, 0x00);
    rl(&mut m, reg(Reg::B)).unwrap();
    assert_eq!(get8(&m, Reg::B), 0x00);
    assert_eq!(flags(&m), (true, false, false, true));
    set8(&mut m, Reg::B, 0x01);
    rrc(&mut m, reg(Reg::B)).unwrap();
    assert_eq!(get8(&m, Reg::B), 0x80);
    assert_eq!(flags(&m), (false, false, false, true));
    set8(&mut m, Reg::B, 0x01);
    rr(&mut m, reg(Reg::B)).unwrap();
    assert_eq!(get8(&m, Reg::B), 0x80);
    assert_eq!(flags(&m), (false, false, false, true));
    set8(&mut m, Reg::B, 0xFF);
    sla(&mut m, reg(Reg::B)).unwrap();
    assert_eq!(get8(&m, Reg::B), 0xFE);
    assert_eq!(flags(&m), (false, false, false, true));
    set8(&mut m, Reg::B, 0x8A);
    sra(&mut m, reg(Reg::B)).unwrap();
    assert_eq!(get8(&m, Reg::B), 0xC5);
    assert_eq!(flags(&m), (false, false, false, false));
    set8(&mut m, Reg::B, 0x01);
    srl(&mut m, reg(Reg::B)).unwrap();
    assert_eq!(get8(&m, Reg::B), 0x00);
    assert_eq!(flags(&m), (true, false, false, true));
    assert_eq!(srl(&mut m, reg(Reg::BC)), Err(CpuError::InvalidOperand));
}

#[test]
fn shift_in_memory() {
    let mut m = Motherboard::new();
    set16(&mut m, Reg::HL, 0xC010);
    m.put_mem_at(0xC010, 0x81);
    srl(&mut m, ind(Reg::HL, 0)).unwrap();
    assert_eq!(m.get_mem_at(0xC010), 0x40);
    assert_eq!(flags(&m), (false, false, false, true));
}

#[test]
fn jumps_calls_and_returns() {
    let mut m = Motherboard::new();
    set16(&mut m, Reg::PC, 0x1000);
    set16(&mut m, Reg::SP, 0xFFFE);
    m.put_mem_at(0x1001, 0x34);
    m.put_mem_at(0x1002, 0x12);
    call(&mut m, lit(RegExt::NN)).unwrap();
    assert_eq!(get16(&m, Reg::PC), 0x1234);
    assert_eq!(get16(&m, Reg::SP), 0xFFFC);
    assert_eq!(m.get_mem_at(0xFFFC), 0x10);
    assert_eq!(m.get_mem_at(0xFFFD), 0x03);
    ret(&mut m);
    assert_eq!(get16(&m, Reg::PC), 0x1003);
    assert_eq!(get16(&m, Reg::SP), 0xFFFE);

    set16(&mut m, Reg::HL, 0x4000);
    jp(&mut m, reg(Reg::HL)).unwrap();
    assert_eq!(get16(&m, Reg::PC), 0x4000);
    assert_eq!(jp(&mut m, reg(Reg::A)), Err(CpuError::InvalidOperand));
}

#[test]
fn relative_jump_is_signed() {
    let mut m = Motherboard::new();
    set16(&mut m, Reg::PC, 0x1000);
    m.put_mem_at(0x1001, 0xFE);
    jr(&mut m, lit(RegExt::N)).unwrap();
    assert_eq!(get16(&m, Reg::PC), 0x0FFE);
    m.put_mem_at(0x0FFF, 0x10);
    jr(&mut m, lit(RegExt::N)).unwrap();
    assert_eq!(get16(&m, Reg::PC), 0x100E);
}

#[test]
fn rst_and_reti() {
    let mut m = Motherboard::new();
    set16(&mut m, Reg::PC, 0x1000);
    set16(&mut m, Reg::SP, 0xFFFE);
    rst(&mut m, lit(RegExt::H(0x38))).unwrap();
    assert_eq!(get16(&m, Reg::PC), 0x0038);
    assert_eq!(get16(&m, Reg::SP), 0xFFFC);
    reti(&mut m);
    assert_eq!(get16(&m, Reg::PC), 0x1000);
    assert_eq!(get16(&m, Reg::SP), 0xFFFE);
    assert_eq!(rst(&mut m, reg(Reg::HL)), Err(CpuError::InvalidOperand));
    set16(&mut m, Reg::SP, 0xFFFE);
    ret_flag(&mut m, lit(RegExt::NFlag(Flag::Z))).unwrap();
    assert_eq!(get16(&m, Reg::SP), 0x0000);
}

#[test]
fn loads_direct_immediate_and_indirect() {
    let mut m = Motherboard::new();
    set16(&mut m, Reg::PC, 0x0100);
    m.put_mem_at(0x0101, 0x42);
    m.put_mem_at(0x0102, 0x99);
    ld(&mut m, reg(Reg::B), lit(RegExt::N)).unwrap();
    assert_eq!(get8(&m, Reg::B), 0x42);
    ld(&mut m, reg(Reg::DE), lit(RegExt::NN)).unwrap();
    assert_eq!(get16(&m, Reg::DE), 0x9942);
    set16(&mut m, Reg::HL, 0xC000);
    m.put_mem_at(0xC002, 0x77);
    ld(&mut m, reg(Reg::A), ind(Reg::HL, 2)).unwrap();
    assert_eq!(get8(&m, Reg::A), 0x77);
    m.put_mem_at(0xBFFF, 0x55);
    ld(&mut m, reg(Reg::C), ind(Reg::HL, 0xFFFF)).unwrap();
    assert_eq!(get8(&m, Reg::C), 0x55);
    set16(&mut m, Reg::BC, 0xD000);
    ld(&mut m, ind(Reg::BC, 0), reg(Reg::A)).unwrap();
    assert_eq!(m.get_mem_at(0xD000), 0x77);
}

#[test]
fn loads_refuse_bad_operands() {
    let mut m = Motherboard::new();
    assert_eq!(ld(&mut m, lit(RegExt::N), reg(Reg::A)), Err(CpuError::InvalidOperand));
    assert_eq!(ld(&mut m, reg(Reg::A), lit(RegExt::Flag(Flag::Z))), Err(CpuError::InvalidOperand));
    assert_eq!(ld(&mut m, reg(Reg::A), reg(Reg::BC)), Err(CpuError::InvalidOperand));
    assert_eq!(ld(&mut m, reg(Reg::A), ind(Reg::B, 0)), Err(CpuError::InvalidOperand));
    assert_eq!(ld(&mut m, ind(Reg::HL, 0), reg(Reg::BC)), Err(CpuError::InvalidOperand));
    assert_eq!(ldi(&mut m, reg(Reg::A), reg(Reg::B)), Err(CpuError::InvalidOperand));
    assert_eq!(ldd(&mut m, reg(Reg::A), ind(Reg::BC, 0)), Err(CpuError::InvalidOperand));
}

#[test]
fn ldi_and_ldd_move_hl() {
    let mut m = Motherboard::new();
    set16(&mut m, Reg::HL, 0xC000);
    set8(&mut m, Reg::A, 0x5A);
    ldi(&mut m, ind(Reg::HL, 0), reg(Reg::A)).unwrap();
    assert_eq!(m.get_mem_at(0xC000), 0x5A);
    assert_eq!(get16(&m, Reg::HL), 0xC001);
    m.put_mem_at(0xC001, 0xA5);
    ldd(&mut m, reg(Reg::A), ind(Reg::HL, 0)).unwrap();
    assert_eq!(get8(&m, Reg::A), 0xA5);
    assert_eq!(get16(&m, Reg::HL), 0xC000);
    set16(&mut m, Reg::HL, 0x0000);
    ldd(&mut m, ind(Reg::HL, 0), reg(Reg::A)).unwrap();
    assert_eq!(get16(&m, Reg::HL), 0xFFFF);
}

#[test]
fn ldhl_adds_signed_offset() {
    let mut m = Motherboard::new();
    set16(&mut m, Reg::SP, 0xFFF8);
    set16(&mut m, Reg::PC, 0x0100);
    m.put_mem_at(0x0101, 0x08);
    ldhl(&mut m, reg(Reg::SP), lit(RegExt::N)).unwrap();
    assert_eq!(get16(&m, Reg::HL), 0x0000);
    m.put_mem_at(0x0101, 0xF8);
    ldhl(&mut m, reg(Reg::SP), lit(RegExt::N)).unwrap();
    assert_eq!(get16(&m, Reg::HL), 0xFFF0);
    assert_eq!(get16(&m, Reg::SP), 0xFFF8);
}

#[test]
fn resolver_edges() {
    let mut m = Motherboard::new();
    set16(&mut m, Reg::PC, 0xFFFF);
    m.put_mem_at(0x0000, 0x34);
    m.put_mem_at(0x0001, 0x12);
    assert_eq!(m.get_immediate_val(true), RegBytes::new_single(0x34));
    assert_eq!(m.get_immediate_val(false), RegBytes::new_double(0x1234));
    assert_eq!(get_reg_ext_val(&m, &lit(RegExt::B(5))), Ok(RegBytes::new_single(5)));
    assert_eq!(get_reg_ext_val(&m, &lit(RegExt::H(0x28))), Ok(RegBytes::new_double(0x28)));
    assert_eq!(get_reg_ext_val(&m, &lit(RegExt::NFlag(Flag::C))), Err(CpuError::InvalidOperand));
    assert_eq!(get_reg_ext_flag_val(&m, &lit(RegExt::NFlag(Flag::C))), Ok(true));
    assert_eq!(get_reg_ext_flag_val(&m, &reg(Reg::A)), Err(CpuError::InvalidOperand));
    assert_eq!(get_reg_ext_byte_val(&lit(RegExt::B(3))), Ok(3));
    assert_eq!(get_reg_ext_byte_val(&lit(RegExt::N)), Err(CpuError::InvalidOperand));
    assert_eq!(put_reg_ext_val(&mut m, &lit(RegExt::NN), RegBytes::new_double(1)), Err(CpuError::InvalidOperand));
    put_reg_ext_val(&mut m, &CmdInp::new(RegExt::H(0x40), true, 0), RegBytes::new_single(9)).unwrap();
    assert_eq!(m.get_mem_at(0x0040), 9);
}

#[test]
fn operand_widths() {
    assert_eq!(lit(RegExt::N).size(), ByteSize::Single);
    assert_eq!(lit(RegExt::NN).size(), ByteSize::Double);
    assert_eq!(lit(RegExt::H(0)).size(), ByteSize::Double);
    assert_eq!(lit(RegExt::B(0)).size(), ByteSize::Single);
    assert_eq!(lit(RegExt::Flag(Flag::Z)).size(), ByteSize::Single);
    assert_eq!(reg(Reg::HL).size(), ByteSize::Double);
    assert_eq!(ind(Reg::HL, 0).size(), ByteSize::Single);
    assert_eq!(RegExt::Reg(Reg::SP).size(), ByteSize::Double);
}

#[test]
fn new_board_is_zeroed() {
    let m = Motherboard::new();
    assert_eq!(m.mem.len(), 0x10000);
    assert_eq!(get16(&m, Reg::PC), 0);
    assert_eq!(get16(&m, Reg::SP), 0);
    assert_eq!(get16(&m, Reg::AF), 0);
    assert_eq!(m.get_mem_at(0xFFFF), 0);
}
