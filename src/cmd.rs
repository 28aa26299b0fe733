use vstd::prelude::*;

use crate::common::{ByteSize, CpuError, RegBytes};
use crate::cpu::{lemma_flags_byte, lemma_word_split, lemma_write_same, Flag, Reg};
use crate::motherboard::{next, push_pop_round_trip, Machine, Motherboard, MEM_SIZE};

verus! {

/// What an operand names: a register, the immediate byte or word after the
/// opcode, a flag test (plain or negated), a bit index, or a fixed vector.
#[derive(Clone, Copy, Debug, PartialEq, Eq, Structural)]
pub enum RegExt {
    Reg(Reg),
    N,
    NN,
    NFlag(Flag),
    Flag(Flag),
    B(u8),
    H(u8),
}

impl RegExt {
    /// The width of what the operand names.
    pub open spec fn width(self) -> ByteSize {
        match self {
            RegExt::Reg(r) => r.width(),
            RegExt::N | RegExt::NFlag(_) | RegExt::Flag(_) | RegExt::B(_) => ByteSize::Single,
            RegExt::NN | RegExt::H(_) => ByteSize::Double,
        }
    }

    pub fn size(&self) -> (r: ByteSize)
        ensures
            r == self.width(),
    {
        match self {
            RegExt::Reg(r) => r.size(),
            RegExt::N | RegExt::NFlag(_) | RegExt::Flag(_) | RegExt::B(_) => ByteSize::Single,
            RegExt::NN | RegExt::H(_) => ByteSize::Double,
        }
    }

    /// Whether the operand is a flag test rather than a value.
    pub open spec fn is_test(self) -> bool {
        self is Flag || self is NFlag
    }
}

/// One instruction argument. When `mem` is set, the argument is the byte in
/// memory at the address that `re` gives plus `change`, taken modulo 2^16
/// (so `change` works as a signed displacement).
#[derive(Clone, Copy, Debug, PartialEq, Eq, Structural)]
pub struct CmdInp {
    pub re: RegExt,
    pub mem: bool,
    pub change: u16,
}

impl CmdInp {
    pub fn new(re: RegExt, mem: bool, change: u16) -> (r: CmdInp)
        ensures
            r == (CmdInp { re, mem, change }),
    {
        CmdInp { re, mem, change }
    }

    /// The width of the argument: a byte in memory, else what `re` names.
    pub open spec fn width(self) -> ByteSize {
        if self.mem {
            ByteSize::Single
        } else {
            self.re.width()
        }
    }

    pub fn size(&self) -> (r: ByteSize)
        ensures
            r == self.width(),
    {
        if self.mem {
            ByteSize::Single
        } else {
            self.re.size()
        }
    }
}

/// The accumulator as an argument.
pub open spec fn acc() -> CmdInp {
    CmdInp { re: RegExt::Reg(Reg::A), mem: false, change: 0 }
}

/// The value `re` names, read directly (no memory indirection).
pub open spec fn base_value(s: Machine, re: RegExt) -> RegBytes {
    match re {
        RegExt::Reg(r) => s.regs.read(r),
        RegExt::N => RegBytes::Single(s.imm8()),
        RegExt::NN => RegBytes::Double(s.imm16()),
        RegExt::B(b) => RegBytes::Single(b),
        RegExt::H(h) => RegBytes::Double(h as u16),
        _ => RegBytes::Single(0),
    }
}

/// Whether the argument has a value: it is no flag test, and an indirect
/// one has a word for its address.
pub open spec fn readable(arg: CmdInp) -> bool {
    !arg.re.is_test() && (arg.mem ==> arg.re.width() == ByteSize::Double)
}

/// The address an indirect argument refers to.
pub open spec fn address(s: Machine, arg: CmdInp) -> u16 {
    next(base_value(s, arg.re).value(), arg.change as int)
}

/// The value of a readable argument.
pub open spec fn value_of(s: Machine, arg: CmdInp) -> RegBytes {
    if arg.mem {
        RegBytes::Single(s.byte_at(address(s, arg)))
    } else {
        base_value(s, arg.re)
    }
}

/// The value of a readable argument, as a number.
pub open spec fn num(s: Machine, arg: CmdInp) -> u16 {
    value_of(s, arg).value()
}

/// The byte value of a readable one-byte argument.
pub open spec fn byte_of(s: Machine, arg: CmdInp) -> u8 {
    value_of(s, arg).value() as u8
}

/// Whether a value of width `w` can be stored through the argument: a
/// register of that width, or a byte in memory.
pub open spec fn writable(arg: CmdInp, w: ByteSize) -> bool {
    if arg.mem {
        readable(arg) && w == ByteSize::Single
    } else {
        match arg.re {
            RegExt::Reg(r) => r.width() == w,
            _ => false,
        }
    }
}

/// The machine after storing `v` through a writable argument.
pub open spec fn stored(s: Machine, arg: CmdInp, v: RegBytes) -> Machine {
    if arg.mem {
        s.write_mem(address(s, arg), v.value() as u8)
    } else {
        match arg.re {
            RegExt::Reg(r) => s.write_reg(r, v.value()),
            _ => s,
        }
    }
}

/// The outcome of a flag test.
pub open spec fn test_of(s: Machine, re: RegExt) -> bool {
    match re {
        RegExt::Flag(f) => s.regs.flag(f),
        RegExt::NFlag(f) => !s.regs.flag(f),
        _ => false,
    }
}

/// An argument readable at width `w`.
pub open spec fn readable_at(arg: CmdInp, w: ByteSize) -> bool {
    readable(arg) && arg.width() == w
}

/// An instruction's result: it succeeds exactly when `ok`, then leaving the
/// machine as `expected`; else it fails with `InvalidOperand` and changes
/// nothing.
pub open spec fn executes(
    r: Result<(), CpuError>,
    ok: bool,
    pre: Machine,
    post: Machine,
    expected: Machine,
) -> bool {
    &&& (r is Ok <==> ok)
    &&& r is Ok ==> post == expected
    &&& r is Err ==> r == Err::<(), CpuError>(CpuError::InvalidOperand) && post == pre
}

/// A readable argument's value has the argument's width.
pub proof fn lemma_value_width(s: Machine, arg: CmdInp)
    requires
        readable(arg),
    ensures
        value_of(s, arg).width() == arg.width(),
{
    // by cases on the register
    match arg.re {
        RegExt::Reg(r) => {
            match r {
                Reg::A | Reg::B | Reg::C | Reg::D | Reg::E | Reg::F | Reg::H | Reg::L => {},
                _ => {},
            }
        },
        _ => {},
    }
}

fn is_readable(arg: &CmdInp) -> (r: bool)
    ensures
        r == readable(*arg),
{
    match arg.re {
        RegExt::Flag(_) | RegExt::NFlag(_) => false,
        _ => !arg.mem || arg.re.size() == ByteSize::Double,
    }
}

/// Resolves the value of an argument; a flag test, or an indirect argument
/// whose address is no word, gives `InvalidOperand`.
pub fn get_reg_ext_val(mother: &Motherboard, arg: &CmdInp) -> (r: Result<RegBytes, CpuError>)
    requires
        mother.wf(),
    ensures
        match r {
            Ok(v) => readable(*arg) && v == value_of(mother@, *arg),
            Err(e) => !readable(*arg) && e == CpuError::InvalidOperand,
        },
{
    let base = match arg.re {
        RegExt::Reg(reg) => mother.cpu.read_reg(reg),
        RegExt::N => mother.get_immediate_val(true),
        RegExt::NN => mother.get_immediate_val(false),
        RegExt::B(b) => RegBytes::Single(b),
        RegExt::H(h) => RegBytes::Double(h as u16),
        RegExt::Flag(_) | RegExt::NFlag(_) => return Err(CpuError::InvalidOperand),
    };
    if arg.mem {
        match base {
            RegBytes::Double(w) => {
                let addr = ((w as u32 + arg.change as u32) % 0x10000) as u16;
                Ok(RegBytes::Single(mother.get_mem_at(addr)))
            },
            RegBytes::Single(_) => Err(CpuError::InvalidOperand),
        }
    } else {
        Ok(base)
    }
}

/// Stores a value through an argument: into a register of the value's width,
/// or as a byte at the address of an indirect argument, computed afresh.
pub fn put_reg_ext_val(mother: &mut Motherboard, arg: &CmdInp, val: RegBytes) -> (r: Result<
    (),
    CpuError,
>)
    requires
        old(mother).wf(),
    ensures
        final(mother).wf(),
        executes(
            r,
            writable(*arg, val.width()),
            old(mother)@,
            final(mother)@,
            stored(old(mother)@, *arg, val),
        ),
{
    if arg.mem {
        let loc = match get_reg_ext_val(mother, &CmdInp::new(arg.re, false, 0)) {
            Ok(RegBytes::Double(w)) => w,
            _ => return Err(CpuError::InvalidOperand),
        };
        match val {
            RegBytes::Single(b) => {
                let addr = ((loc as u32 + arg.change as u32) % 0x10000) as u16;
                mother.put_mem_at(addr, b);
                Ok(())
            },
            RegBytes::Double(_) => Err(CpuError::InvalidOperand),
        }
    } else {
        match arg.re {
            RegExt::Reg(reg) => mother.cpu.write_reg(reg, val),
            _ => Err(CpuError::InvalidOperand),
        }
    }
}

/// Evaluates a flag test; any other argument gives `InvalidOperand`.
pub fn get_reg_ext_flag_val(mother: &Motherboard, arg: &CmdInp) -> (r: Result<bool, CpuError>)
    ensures
        match r {
            Ok(t) => arg.re.is_test() && t == test_of(mother@, arg.re),
            Err(e) => !arg.re.is_test() && e == CpuError::InvalidOperand,
        },
{
    match arg.re {
        RegExt::Flag(flag) => Ok(mother.cpu.check_flag(flag)),
        RegExt::NFlag(flag) => Ok(!mother.cpu.check_flag(flag)),
        _ => Err(CpuError::InvalidOperand),
    }
}

/// The literal of a bit-index or vector argument; any other argument gives
/// `InvalidOperand`.
pub fn get_reg_ext_byte_val(arg: &CmdInp) -> (r: Result<u8, CpuError>)
    ensures
        match arg.re {
            RegExt::B(b) => r == Ok::<u8, CpuError>(b),
            RegExt::H(h) => r == Ok::<u8, CpuError>(h),
            _ => r == Err::<u8, CpuError>(CpuError::InvalidOperand),
        },
{
    match arg.re {
        RegExt::B(b) => Ok(b),
        RegExt::H(h) => Ok(h),
        _ => Err(CpuError::InvalidOperand),
    }
}

fn is_writable(arg: &CmdInp, w: ByteSize) -> (r: bool)
    ensures
        r == writable(*arg, w),
{
    if arg.mem {
        is_readable(arg) && w == ByteSize::Single
    } else {
        match arg.re {
            RegExt::Reg(reg) => reg.size() == w,
            _ => false,
        }
    }
}

/// Reads a one-byte argument.
fn read_byte(mother: &Motherboard, arg: &CmdInp) -> (r: Result<u8, CpuError>)
    requires
        mother.wf(),
    ensures
        match r {
            Ok(b) => readable_at(*arg, ByteSize::Single) && b == byte_of(mother@, *arg),
            Err(e) => !readable_at(*arg, ByteSize::Single) && e == CpuError::InvalidOperand,
        },
{
    match get_reg_ext_val(mother, arg) {
        Ok(v) => {
            proof {
                lemma_value_width(mother@, *arg);
            }
            v.get_single()
        },
        Err(e) => Err(e),
    }
}

/// Reads a two-byte argument.
fn read_word(mother: &Motherboard, arg: &CmdInp) -> (r: Result<u16, CpuError>)
    requires
        mother.wf(),
    ensures
        match r {
            Ok(w) => readable_at(*arg, ByteSize::Double) && w == num(mother@, *arg),
            Err(e) => !readable_at(*arg, ByteSize::Double) && e == CpuError::InvalidOperand,
        },
{
    match get_reg_ext_val(mother, arg) {
        Ok(v) => {
            proof {
                lemma_value_width(mother@, *arg);
            }
            v.get_double()
        },
        Err(e) => Err(e),
    }
}

/// Writes `F` with exactly the given flags.
fn put_flags(mother: &mut Motherboard, z: bool, n: bool, h: bool, c: bool)
    requires
        old(mother).wf(),
    ensures
        final(mother).wf(),
        final(mother)@ == old(mother)@.with_flags(z, n, h, c),
{
    let f: u8 = (if z { 0x80u8 } else { 0 }) + (if n { 0x40u8 } else { 0 }) + (if h { 0x20u8 } else { 0 }) + (
    if c { 0x10u8 } else { 0 });
    let _ = mother.cpu.write_reg(Reg::F, RegBytes::Single(f));
}

/// Stores a byte result through an argument, then writes the flags.
fn write_byte(mother: &mut Motherboard, arg: &CmdInp, v: u8, z: bool, n: bool, h: bool, c: bool) -> (r:
    Result<(), CpuError>)
    requires
        old(mother).wf(),
    ensures
        final(mother).wf(),
        executes(
            r,
            writable(*arg, ByteSize::Single),
            old(mother)@,
            final(mother)@,
            stored(old(mother)@, *arg, RegBytes::Single(v)).with_flags(z, n, h, c),
        ),
{
    match put_reg_ext_val(mother, arg, RegBytes::Single(v)) {
        Ok(()) => {
            put_flags(mother, z, n, h, c);
            Ok(())
        },
        Err(e) => Err(e),
    }
}

/// `b` read as a signed byte.
pub open spec fn signed(b: u8) -> int {
    if b < 128 {
        b as int
    } else {
        b as int - 256
    }
}

/// `base` moved by the signed byte `b`, wrapping.
fn offset(base: u16, b: u8) -> (r: u16)
    ensures
        r == next(base, signed(b)),
{
    if b < 128 {
        ((base as u32 + b as u32) % 0x10000) as u16
    } else {
        ((base as u32 + b as u32 + 0xFF00) % 0x10000) as u16
    }
}

/// Copies the value of `src` into `dst`.
pub fn ld(mother: &mut Motherboard, dst: CmdInp, src: CmdInp) -> (r: Result<(), CpuError>)
    requires
        old(mother).wf(),
    ensures
        final(mother).wf(),
        executes(
            r,
            readable(src) && writable(dst, src.width()),
            old(mother)@,
            final(mother)@,
            stored(old(mother)@, dst, value_of(old(mother)@, src)),
        ),
{
    match get_reg_ext_val(mother, &src) {
        Ok(v) => {
            proof {
                lemma_value_width(mother@, src);
            }
            put_reg_ext_val(mother, &dst, v)
        },
        Err(e) => Err(e),
    }
}

/// Whether the indirect one of the two arguments goes through `HL`.
pub open spec fn through_hl(dst: CmdInp, src: CmdInp) -> bool {
    if dst.mem {
        dst.re == RegExt::Reg(Reg::HL)
    } else {
        src.mem && src.re == RegExt::Reg(Reg::HL)
    }
}

/// The machine after `ld`, then `HL` moved by `step`.
pub open spec fn ld_then_step(s: Machine, dst: CmdInp, src: CmdInp, step: int) -> Machine {
    let s1 = stored(s, dst, value_of(s, src));
    s1.write_reg(Reg::HL, next(s1.regs.read(Reg::HL).value(), step))
}

fn ld_change(mother: &mut Motherboard, dst: CmdInp, src: CmdInp, inc: bool) -> (r: Result<
    (),
    CpuError,
>)
    requires
        old(mother).wf(),
    ensures
        final(mother).wf(),
        executes(
            r,
            readable(src) && writable(dst, src.width()) && through_hl(dst, src),
            old(mother)@,
            final(mother)@,
            ld_then_step(old(mother)@, dst, src, if inc { 1 } else { -1 }),
        ),
{
    let hl_ref = if dst.mem {
        dst.re == RegExt::Reg(Reg::HL)
    } else {
        src.mem && src.re == RegExt::Reg(Reg::HL)
    };
    if !hl_ref {
        return Err(CpuError::InvalidOperand);
    }
    match ld(mother, dst, src) {
        Ok(()) => {},
        Err(e) => return Err(e),
    }
    let hl = match mother.cpu.read_reg(Reg::HL) {
        RegBytes::Double(w) => w as u32,
        RegBytes::Single(b) => b as u32,
    };
    let moved = if inc {
        ((hl + 1) % 0x10000) as u16
    } else {
        ((hl + 0xFFFF) % 0x10000) as u16
    };
    let _ = mother.cpu.write_reg(Reg::HL, RegBytes::Double(moved));
    Ok(())
}

/// `ld`, then `HL` decremented; one argument must be indirect through `HL`.
pub fn ldd(mother: &mut Motherboard, dst: CmdInp, src: CmdInp) -> (r: Result<(), CpuError>)
    requires
        old(mother).wf(),
    ensures
        final(mother).wf(),
        executes(
            r,
            readable(src) && writable(dst, src.width()) && through_hl(dst, src),
            old(mother)@,
            final(mother)@,
            ld_then_step(old(mother)@, dst, src, -1),
        ),
{
    ld_change(mother, dst, src, false)
}

/// `ld`, then `HL` incremented; one argument must be indirect through `HL`.
pub fn ldi(mother: &mut Motherboard, dst: CmdInp, src: CmdInp) -> (r: Result<(), CpuError>)
    requires
        old(mother).wf(),
    ensures
        final(mother).wf(),
        executes(
            r,
            readable(src) && writable(dst, src.width()) && through_hl(dst, src),
            old(mother)@,
            final(mother)@,
            ld_then_step(old(mother)@, dst, src, 1),
        ),
{
    ld_change(mother, dst, src, true)
}

/// Loads `HL` with the word `arg1` plus the signed byte `arg2`.
pub fn ldhl(mother: &mut Motherboard, arg1: CmdInp, arg2: CmdInp) -> (r: Result<(), CpuError>)
    requires
        old(mother).wf(),
    ensures
        final(mother).wf(),
        executes(
            r,
            readable_at(arg1, ByteSize::Double) && readable_at(arg2, ByteSize::Single),
            old(mother)@,
            final(mother)@,
            old(mother)@.write_reg(
                Reg::HL,
                next(num(old(mother)@, arg1), signed(byte_of(old(mother)@, arg2))),
            ),
        ),
{
    let base = match read_word(mother, &arg1) {
        Ok(w) => w,
        Err(e) => return Err(e),
    };
    let d = match read_byte(mother, &arg2) {
        Ok(b) => b,
        Err(e) => return Err(e),
    };
    let _ = mother.cpu.write_reg(Reg::HL, RegBytes::Double(offset(base, d)));
    Ok(())
}

/// Pushes the word value of `arg`.
pub fn push(mother: &mut Motherboard, arg: CmdInp) -> (r: Result<(), CpuError>)
    requires
        old(mother).wf(),
    ensures
        final(mother).wf(),
        executes(
            r,
            readable_at(arg, ByteSize::Double),
            old(mother)@,
            final(mother)@,
            old(mother)@.push(num(old(mother)@, arg)),
        ),
{
    match read_word(mother, &arg) {
        Ok(w) => {
            mother.push(w);
            Ok(())
        },
        Err(e) => Err(e),
    }
}

/// Pops a word into the two-byte register `arg`.
pub fn pop(mother: &mut Motherboard, arg: CmdInp) -> (r: Result<(), CpuError>)
    requires
        old(mother).wf(),
    ensures
        final(mother).wf(),
        executes(
            r,
            writable(arg, ByteSize::Double),
            old(mother)@,
            final(mother)@,
            stored(old(mother)@.pop(), arg, RegBytes::Double(old(mother)@.top())),
        ),
{
    if !is_writable(&arg, ByteSize::Double) {
        return Err(CpuError::InvalidOperand);
    }
    let w = mother.pop();
    put_reg_ext_val(mother, &arg, RegBytes::Double(w))
}

/// A carry or borrow as a number.
pub open spec fn b2i(b: bool) -> int {
    if b {
        1
    } else {
        0
    }
}

/// The 8-bit wrapped sum `x + y + cin`.
pub open spec fn sum8(x: u8, y: u8, cin: bool) -> u8 {
    ((x + y + b2i(cin)) % 256) as u8
}

/// Whether `x + y + cin` carries out of bit 3.
pub open spec fn half_carry(x: u8, y: u8, cin: bool) -> bool {
    x % 16 + y % 16 + b2i(cin) > 15
}

/// Whether `x + y + cin` carries out of bit 7.
pub open spec fn carry(x: u8, y: u8, cin: bool) -> bool {
    x + y + b2i(cin) > 255
}

/// The 8-bit wrapped difference `x - y - bin`.
pub open spec fn diff8(x: u8, y: u8, bin: bool) -> u8 {
    ((x - y - b2i(bin)) % 256) as u8
}

/// Whether `x - y - bin` borrows into bit 3.
pub open spec fn half_borrow(x: u8, y: u8, bin: bool) -> bool {
    x % 16 < y % 16 + b2i(bin)
}

/// Whether `x - y - bin` goes below zero.
pub open spec fn borrow(x: u8, y: u8, bin: bool) -> bool {
    x < y + b2i(bin)
}

/// The machine after storing `x + y + cin` through `dst`, with its flags.
pub open spec fn add8_result(s: Machine, dst: CmdInp, x: u8, y: u8, cin: bool) -> Machine {
    let r = sum8(x, y, cin);
    stored(s, dst, RegBytes::Single(r)).with_flags(
        r == 0,
        false,
        half_carry(x, y, cin),
        carry(x, y, cin),
    )
}

/// The machine after storing `x - y - bin` through `dst`, with its flags.
pub open spec fn sub8_result(s: Machine, dst: CmdInp, x: u8, y: u8, bin: bool) -> Machine {
    let r = diff8(x, y, bin);
    stored(s, dst, RegBytes::Single(r)).with_flags(
        r == 0,
        true,
        half_borrow(x, y, bin),
        borrow(x, y, bin),
    )
}

/// Whether `add` accepts its arguments: both have values, the first is a
/// place of its own width, and a one-byte sum takes a one-byte addend.
pub open spec fn add_ok(arg1: CmdInp, arg2: CmdInp) -> bool {
    readable(arg1) && readable(arg2) && writable(arg1, arg1.width()) && (arg1.width()
        == ByteSize::Single ==> arg2.width() == ByteSize::Single)
}

/// The machine after `add`: an 8-bit sum, or a 16-bit one with a one-byte
/// addend zero-extended; the 16-bit form keeps `Z` and takes `H` and `C` from
/// bits 11 and 15.
pub open spec fn add_result(s: Machine, arg1: CmdInp, arg2: CmdInp) -> Machine {
    if arg1.width() == ByteSize::Single {
        add8_result(s, arg1, byte_of(s, arg1), byte_of(s, arg2), false)
    } else {
        let x = num(s, arg1);
        let y = num(s, arg2);
        stored(s, arg1, RegBytes::Double(((x + y) % 0x10000) as u16)).with_flags(
            s.flag(Flag::Z),
            false,
            x % 0x1000 + y % 0x1000 > 0xFFF,
            x + y > 0xFFFF,
        )
    }
}

/// Adds `arg2` to `arg1`, at the width of `arg1`.
pub fn add(mother: &mut Motherboard, arg1: CmdInp, arg2: CmdInp) -> (r: Result<(), CpuError>)
    requires
        old(mother).wf(),
    ensures
        final(mother).wf(),
        executes(
            r,
            add_ok(arg1, arg2),
            old(mother)@,
            final(mother)@,
            add_result(old(mother)@, arg1, arg2),
        ),
{
    match arg1.size() {
        ByteSize::Single => {
            let x = match read_byte(mother, &arg1) {
                Ok(b) => b,
                Err(e) => return Err(e),
            };
            let y = match read_byte(mother, &arg2) {
                Ok(b) => b,
                Err(e) => return Err(e),
            };
            let total = x as u16 + y as u16;
            let v = (total % 256) as u8;
            write_byte(mother, &arg1, v, v == 0, false, x % 16 + y % 16 > 15, total > 255)
        },
        ByteSize::Double => {
            let x = match read_word(mother, &arg1) {
                Ok(w) => w as u32,
                Err(e) => return Err(e),
            };
            let y = match get_reg_ext_val(mother, &arg2) {
                Ok(v) => v.value_of() as u32,
                Err(e) => return Err(e),
            };
            let z = mother.cpu.check_flag(Flag::Z);
            let total = x + y;
            match put_reg_ext_val(mother, &arg1, RegBytes::Double((total % 0x10000) as u16)) {
                Ok(()) => {},
                Err(e) => return Err(e),
            }
            put_flags(mother, z, false, x % 0x1000 + y % 0x1000 > 0xFFF, total > 0xFFFF);
            Ok(())
        },
    }
}

/// Whether an 8-bit operation with a destination accepts its arguments.
pub open spec fn byte_pair_ok(arg1: CmdInp, arg2: CmdInp) -> bool {
    readable_at(arg1, ByteSize::Single) && readable_at(arg2, ByteSize::Single) && writable(
        arg1,
        ByteSize::Single,
    )
}

/// Adds `arg2` and the carry flag to the byte `arg1`.
pub fn adc(mother: &mut Motherboard, arg1: CmdInp, arg2: CmdInp) -> (r: Result<(), CpuError>)
    requires
        old(mother).wf(),
    ensures
        final(mother).wf(),
        executes(
            r,
            byte_pair_ok(arg1, arg2),
            old(mother)@,
            final(mother)@,
            add8_result(
                old(mother)@,
                arg1,
                byte_of(old(mother)@, arg1),
                byte_of(old(mother)@, arg2),
                old(mother)@.flag(Flag::C),
            ),
        ),
{
    let x = match read_byte(mother, &arg1) {
        Ok(b) => b,
        Err(e) => return Err(e),
    };
    let y = match read_byte(mother, &arg2) {
        Ok(b) => b,
        Err(e) => return Err(e),
    };
    let c: u16 = if mother.cpu.check_flag(Flag::C) { 1 } else { 0 };
    let total = x as u16 + y as u16 + c;
    let v = (total % 256) as u8;
    write_byte(mother, &arg1, v, v == 0, false, x as u16 % 16 + y as u16 % 16 + c > 15, total > 255)
}

/// Subtracts `y` and the borrow `bin` from `x`, storing through `dst`.
fn sub_into(mother: &mut Motherboard, dst: &CmdInp, x: u8, y: u8, bin: bool) -> (r: Result<
    (),
    CpuError,
>)
    requires
        old(mother).wf(),
    ensures
        final(mother).wf(),
        executes(
            r,
            writable(*dst, ByteSize::Single),
            old(mother)@,
            final(mother)@,
            sub8_result(old(mother)@, *dst, x, y, bin),
        ),
{
    let b: i16 = if bin { 1 } else { 0 };
    let d = x as i16 - y as i16 - b;
    let v = if d < 0 { (d + 256) as u8 } else { d as u8 };
    write_byte(mother, dst, v, v == 0, true, ((x % 16) as i16) < ((y % 16) as i16) + b, d < 0)
}

/// Subtracts `arg` from the accumulator.
pub fn sub(mother: &mut Motherboard, arg: CmdInp) -> (r: Result<(), CpuError>)
    requires
        old(mother).wf(),
    ensures
        final(mother).wf(),
        executes(
            r,
            readable_at(arg, ByteSize::Single),
            old(mother)@,
            final(mother)@,
            sub8_result(old(mother)@, acc(), old(mother)@.regs.a, byte_of(old(mother)@, arg), false),
        ),
{
    let y = match read_byte(mother, &arg) {
        Ok(b) => b,
        Err(e) => return Err(e),
    };
    let a = acc_value(mother);
    sub_into(mother, &CmdInp::new(RegExt::Reg(Reg::A), false, 0), a, y, false)
}

/// Subtracts `arg2` and the carry flag from the byte `arg1`.
pub fn sbc(mother: &mut Motherboard, arg1: CmdInp, arg2: CmdInp) -> (r: Result<(), CpuError>)
    requires
        old(mother).wf(),
    ensures
        final(mother).wf(),
        executes(
            r,
            byte_pair_ok(arg1, arg2),
            old(mother)@,
            final(mother)@,
            sub8_result(
                old(mother)@,
                arg1,
                byte_of(old(mother)@, arg1),
                byte_of(old(mother)@, arg2),
                old(mother)@.flag(Flag::C),
            ),
        ),
{
    let x = match read_byte(mother, &arg1) {
        Ok(b) => b,
        Err(e) => return Err(e),
    };
    let y = match read_byte(mother, &arg2) {
        Ok(b) => b,
        Err(e) => return Err(e),
    };
    let c = mother.cpu.check_flag(Flag::C);
    sub_into(mother, &arg1, x, y, c)
}

/// The accumulator's value.
fn acc_value(mother: &Motherboard) -> (r: u8)
    ensures
        r == mother@.regs.a,
{
    match mother.cpu.read_reg(Reg::A) {
        RegBytes::Single(b) => b,
        RegBytes::Double(w) => w as u8,
    }
}

/// Writes the accumulator and then the flags.
fn put_acc(mother: &mut Motherboard, v: u8, z: bool, n: bool, h: bool, c: bool)
    requires
        old(mother).wf(),
    ensures
        final(mother).wf(),
        final(mother)@ == old(mother)@.write_reg(Reg::A, v as u16).with_flags(z, n, h, c),
{
    let _ = mother.cpu.write_reg(Reg::A, RegBytes::Single(v));
    put_flags(mother, z, n, h, c);
}

/// The accumulator ANDed with `arg`; sets `H`, clears `N` and `C`.
pub fn and(mother: &mut Motherboard, arg: CmdInp) -> (r: Result<(), CpuError>)
    requires
        old(mother).wf(),
    ensures
        final(mother).wf(),
        executes(
            r,
            readable_at(arg, ByteSize::Single),
            old(mother)@,
            final(mother)@,
            ({
                let v = old(mother)@.regs.a & byte_of(old(mother)@, arg);
                old(mother)@.write_reg(Reg::A, v as u16).with_flags(v == 0, false, true, false)
            }),
        ),
{
    let y = match read_byte(mother, &arg) {
        Ok(b) => b,
        Err(e) => return Err(e),
    };
    let v = acc_value(mother) & y;
    put_acc(mother, v, v == 0, false, true, false);
    Ok(())
}

/// The accumulator ORed with `arg`; clears `N`, `H` and `C`.
pub fn or(mother: &mut Motherboard, arg: CmdInp) -> (r: Result<(), CpuError>)
    requires
        old(mother).wf(),
    ensures
        final(mother).wf(),
        executes(
            r,
            readable_at(arg, ByteSize::Single),
            old(mother)@,
            final(mother)@,
            ({
                let v = old(mother)@.regs.a | byte_of(old(mother)@, arg);
                old(mother)@.write_reg(Reg::A, v as u16).with_flags(v == 0, false, false, false)
            }),
        ),
{
    let y = match read_byte(mother, &arg) {
        Ok(b) => b,
        Err(e) => return Err(e),
    };
    let v = acc_value(mother) | y;
    put_acc(mother, v, v == 0, false, false, false);
    Ok(())
}

/// The accumulator XORed with `arg`; clears `N`, `H` and `C`.
pub fn xor(mother: &mut Motherboard, arg: CmdInp) -> (r: Result<(), CpuError>)
    requires
        old(mother).wf(),
    ensures
        final(mother).wf(),
        executes(
            r,
            readable_at(arg, ByteSize::Single),
            old(mother)@,
            final(mother)@,
            ({
                let v = old(mother)@.regs.a ^ byte_of(old(mother)@, arg);
                old(mother)@.write_reg(Reg::A, v as u16).with_flags(v == 0, false, false, false)
            }),
        ),
{
    let y = match read_byte(mother, &arg) {
        Ok(b) => b,
        Err(e) => return Err(e),
    };
    let v = acc_value(mother) ^ y;
    put_acc(mother, v, v == 0, false, false, false);
    Ok(())
}

/// Compares the accumulator with `arg`: the flags of the subtraction, and
/// nothing else.
pub fn cp(mother: &mut Motherboard, arg: CmdInp) -> (r: Result<(), CpuError>)
    requires
        old(mother).wf(),
    ensures
        final(mother).wf(),
        executes(
            r,
            readable_at(arg, ByteSize::Single),
            old(mother)@,
            final(mother)@,
            ({
                let x = old(mother)@.regs.a;
                let y = byte_of(old(mother)@, arg);
                old(mother)@.with_flags(
                    diff8(x, y, false) == 0,
                    true,
                    half_borrow(x, y, false),
                    borrow(x, y, false),
                )
            }),
        ),
{
    let y = match read_byte(mother, &arg) {
        Ok(b) => b,
        Err(e) => return Err(e),
    };
    let x = acc_value(mother);
    put_flags(mother, x == y, true, x % 16 < y % 16, x < y);
    Ok(())
}

/// Whether `inc` and `dec` accept the argument: a value that can be stored
/// back at its own width.
pub open spec fn step_ok(arg: CmdInp) -> bool {
    readable(arg) && writable(arg, arg.width())
}

/// The machine after `inc`: an 8-bit argument sets `Z`, `H` and clears `N`,
/// keeping `C`; a 16-bit one touches no flag.
pub open spec fn inc_result(s: Machine, arg: CmdInp) -> Machine {
    if arg.width() == ByteSize::Single {
        let x = byte_of(s, arg);
        let v = sum8(x, 1, false);
        stored(s, arg, RegBytes::Single(v)).with_flags(v == 0, false, x % 16 == 15, s.flag(Flag::C))
    } else {
        stored(s, arg, RegBytes::Double(next(num(s, arg), 1)))
    }
}

/// The machine after `dec`: an 8-bit argument sets `Z`, `N`, `H`, keeping
/// `C`; a 16-bit one touches no flag.
pub open spec fn dec_result(s: Machine, arg: CmdInp) -> Machine {
    if arg.width() == ByteSize::Single {
        let x = byte_of(s, arg);
        let v = diff8(x, 1, false);
        stored(s, arg, RegBytes::Single(v)).with_flags(v == 0, true, x % 16 == 0, s.flag(Flag::C))
    } else {
        stored(s, arg, RegBytes::Double(next(num(s, arg), -1)))
    }
}

/// Increments `arg` at its own width.
pub fn inc(mother: &mut Motherboard, arg: CmdInp) -> (r: Result<(), CpuError>)
    requires
        old(mother).wf(),
    ensures
        final(mother).wf(),
        executes(r, step_ok(arg), old(mother)@, final(mother)@, inc_result(old(mother)@, arg)),
{
    match arg.size() {
        ByteSize::Single => {
            let x = match read_byte(mother, &arg) {
                Ok(b) => b,
                Err(e) => return Err(e),
            };
            let v = if x == 255 { 0 } else { x + 1 };
            let c = mother.cpu.check_flag(Flag::C);
            write_byte(mother, &arg, v, v == 0, false, x % 16 == 15, c)
        },
        ByteSize::Double => {
            let x = match read_word(mother, &arg) {
                Ok(w) => w,
                Err(e) => return Err(e),
            };
            let v = if x == 0xFFFF { 0 } else { x + 1 };
            put_reg_ext_val(mother, &arg, RegBytes::Double(v))
        },
    }
}

/// Decrements `arg` at its own width.
pub fn dec(mother: &mut Motherboard, arg: CmdInp) -> (r: Result<(), CpuError>)
    requires
        old(mother).wf(),
    ensures
        final(mother).wf(),
        executes(r, step_ok(arg), old(mother)@, final(mother)@, dec_result(old(mother)@, arg)),
{
    match arg.size() {
        ByteSize::Single => {
            let x = match read_byte(mother, &arg) {
                Ok(b) => b,
                Err(e) => return Err(e),
            };
            let v = if x == 0 { 255 } else { x - 1 };
            let c = mother.cpu.check_flag(Flag::C);
            write_byte(mother, &arg, v, v == 0, true, x % 16 == 0, c)
        },
        ByteSize::Double => {
            let x = match read_word(mother, &arg) {
                Ok(w) => w,
                Err(e) => return Err(e),
            };
            let v = if x == 0 { 0xFFFF } else { x - 1 };
            put_reg_ext_val(mother, &arg, RegBytes::Double(v))
        },
    }
}

/// Whether a one-byte operation on `arg` in place accepts it.
pub open spec fn unary_ok(arg: CmdInp) -> bool {
    readable_at(arg, ByteSize::Single) && writable(arg, ByteSize::Single)
}

/// The machine after storing the shifted byte `v` through `arg`: `Z` from
/// `v`, `C` as given, `N` and `H` clear.
pub open spec fn shifted(s: Machine, arg: CmdInp, v: u8, c: bool) -> Machine {
    stored(s, arg, RegBytes::Single(v)).with_flags(v == 0, false, false, c)
}

/// The machine after a rotate of the accumulator to `v`: only `C` may be set.
pub open spec fn acc_rotated(s: Machine, v: u8, c: bool) -> Machine {
    s.write_reg(Reg::A, v as u16).with_flags(false, false, false, c)
}

/// `x` rotated left by one, bit 7 going round to bit 0.
pub open spec fn rotl(x: u8) -> u8 {
    ((x % 128) * 2 + x / 128) as u8
}

/// `x` shifted left by one through the carry `cin`.
pub open spec fn rotl_through(x: u8, cin: bool) -> u8 {
    ((x % 128) * 2 + b2i(cin)) as u8
}

/// `x` rotated right by one, bit 0 going round to bit 7.
pub open spec fn rotr(x: u8) -> u8 {
    (x / 2 + (x % 2) * 128) as u8
}

/// `x` shifted right by one through the carry `cin`.
pub open spec fn rotr_through(x: u8, cin: bool) -> u8 {
    (x / 2 + b2i(cin) * 128) as u8
}

/// Reads the byte `arg` and checks that it can be stored back.
fn read_in_place(mother: &Motherboard, arg: &CmdInp) -> (r: Result<u8, CpuError>)
    requires
        mother.wf(),
    ensures
        match r {
            Ok(b) => unary_ok(*arg) && b == byte_of(mother@, *arg),
            Err(e) => !unary_ok(*arg) && e == CpuError::InvalidOperand,
        },
{
    if !is_writable(arg, ByteSize::Single) {
        return Err(CpuError::InvalidOperand);
    }
    read_byte(mother, arg)
}

/// Rotates the accumulator left; bit 7 goes to bit 0 and to `C`.
pub fn rlca(mother: &mut Motherboard)
    requires
        old(mother).wf(),
    ensures
        final(mother).wf(),
        final(mother)@ == acc_rotated(old(mother)@, rotl(old(mother)@.regs.a), old(mother)@.regs.a >= 128),
{
    let x = acc_value(mother);
    put_acc(mother, x % 128 * 2 + x / 128, false, false, false, x >= 128);
}

/// Rotates the accumulator left through `C`.
pub fn rla(mother: &mut Motherboard)
    requires
        old(mother).wf(),
    ensures
        final(mother).wf(),
        final(mother)@ == acc_rotated(
            old(mother)@,
            rotl_through(old(mother)@.regs.a, old(mother)@.flag(Flag::C)),
            old(mother)@.regs.a >= 128,
        ),
{
    let x = acc_value(mother);
    let c: u8 = if mother.cpu.check_flag(Flag::C) { 1 } else { 0 };
    put_acc(mother, x % 128 * 2 + c, false, false, false, x >= 128);
}

/// Rotates the accumulator right; bit 0 goes to bit 7 and to `C`.
pub fn rrca(mother: &mut Motherboard)
    requires
        old(mother).wf(),
    ensures
        final(mother).wf(),
        final(mother)@ == acc_rotated(old(mother)@, rotr(old(mother)@.regs.a), old(mother)@.regs.a % 2 == 1),
{
    let x = acc_value(mother);
    put_acc(mother, x / 2 + x % 2 * 128, false, false, false, x % 2 == 1);
}

/// Rotates the accumulator right through `C`.
pub fn rra(mother: &mut Motherboard)
    requires
        old(mother).wf(),
    ensures
        final(mother).wf(),
        final(mother)@ == acc_rotated(
            old(mother)@,
            rotr_through(old(mother)@.regs.a, old(mother)@.flag(Flag::C)),
            old(mother)@.regs.a % 2 == 1,
        ),
{
    let x = acc_value(mother);
    let c: u8 = if mother.cpu.check_flag(Flag::C) { 128 } else { 0 };
    put_acc(mother, x / 2 + c, false, false, false, x % 2 == 1);
}

/// Rotates `arg` left; bit 7 goes to bit 0 and to `C`.
pub fn rlc(mother: &mut Motherboard, arg: CmdInp) -> (r: Result<(), CpuError>)
    requires
        old(mother).wf(),
    ensures
        final(mother).wf(),
        executes(
            r,
            unary_ok(arg),
            old(mother)@,
            final(mother)@,
            shifted(old(mother)@, arg, rotl(byte_of(old(mother)@, arg)), byte_of(old(mother)@, arg) >= 128),
        ),
{
    let x = match read_in_place(mother, &arg) {
        Ok(b) => b,
        Err(e) => return Err(e),
    };
    let v = x % 128 * 2 + x / 128;
    write_byte(mother, &arg, v, v == 0, false, false, x >= 128)
}

/// Rotates `arg` left through `C`.
pub fn rl(mother: &mut Motherboard, arg: CmdInp) -> (r: Result<(), CpuError>)
    requires
        old(mother).wf(),
    ensures
        final(mother).wf(),
        executes(
            r,
            unary_ok(arg),
            old(mother)@,
            final(mother)@,
            shifted(
                old(mother)@,
                arg,
                rotl_through(byte_of(old(mother)@, arg), old(mother)@.flag(Flag::C)),
                byte_of(old(mother)@, arg) >= 128,
            ),
        ),
{
    let x = match read_in_place(mother, &arg) {
        Ok(b) => b,
        Err(e) => return Err(e),
    };
    let c: u8 = if mother.cpu.check_flag(Flag::C) { 1 } else { 0 };
    let v = x % 128 * 2 + c;
    write_byte(mother, &arg, v, v == 0, false, false, x >= 128)
}

/// Rotates `arg` right; bit 0 goes to bit 7 and to `C`.
pub fn rrc(mother: &mut Motherboard, arg: CmdInp) -> (r: Result<(), CpuError>)
    requires
        old(mother).wf(),
    ensures
        final(mother).wf(),
        executes(
            r,
            unary_ok(arg),
            old(mother)@,
            final(mother)@,
            shifted(old(mother)@, arg, rotr(byte_of(old(mother)@, arg)), byte_of(old(mother)@, arg) % 2 == 1),
        ),
{
    let x = match read_in_place(mother, &arg) {
        Ok(b) => b,
        Err(e) => return Err(e),
    };
    let v = x / 2 + x % 2 * 128;
    write_byte(mother, &arg, v, v == 0, false, false, x % 2 == 1)
}

/// Rotates `arg` right through `C`.
pub fn rr(mother: &mut Motherboard, arg: CmdInp) -> (r: Result<(), CpuError>)
    requires
        old(mother).wf(),
    ensures
        final(mother).wf(),
        executes(
            r,
            unary_ok(arg),
            old(mother)@,
            final(mother)@,
            shifted(
                old(mother)@,
                arg,
                rotr_through(byte_of(old(mother)@, arg), old(mother)@.flag(Flag::C)),
                byte_of(old(mother)@, arg) % 2 == 1,
            ),
        ),
{
    let x = match read_in_place(mother, &arg) {
        Ok(b) => b,
        Err(e) => return Err(e),
    };
    let c: u8 = if mother.cpu.check_flag(Flag::C) { 128 } else { 0 };
    let v = x / 2 + c;
    write_byte(mother, &arg, v, v == 0, false, false, x % 2 == 1)
}

/// Shifts `arg` left, filling bit 0 with zero; bit 7 goes to `C`.
pub fn sla(mother: &mut Motherboard, arg: CmdInp) -> (r: Result<(), CpuError>)
    requires
        old(mother).wf(),
    ensures
        final(mother).wf(),
        executes(
            r,
            unary_ok(arg),
            old(mother)@,
            final(mother)@,
            shifted(
                old(mother)@,
                arg,
                ((byte_of(old(mother)@, arg) % 128) * 2) as u8,
                byte_of(old(mother)@, arg) >= 128,
            ),
        ),
{
    let x = match read_in_place(mother, &arg) {
        Ok(b) => b,
        Err(e) => return Err(e),
    };
    let v = x % 128 * 2;
    write_byte(mother, &arg, v, v == 0, false, false, x >= 128)
}

/// Shifts `arg` right, keeping the sign bit; bit 0 goes to `C`.
pub fn sra(mother: &mut Motherboard, arg: CmdInp) -> (r: Result<(), CpuError>)
    requires
        old(mother).wf(),
    ensures
        final(mother).wf(),
        executes(
            r,
            unary_ok(arg),
            old(mother)@,
            final(mother)@,
            shifted(
                old(mother)@,
                arg,
                (byte_of(old(mother)@, arg) / 2 + (byte_of(old(mother)@, arg) / 128) * 128) as u8,
                byte_of(old(mother)@, arg) % 2 == 1,
            ),
        ),
{
    let x = match read_in_place(mother, &arg) {
        Ok(b) => b,
        Err(e) => return Err(e),
    };
    let v = x / 2 + x / 128 * 128;
    write_byte(mother, &arg, v, v == 0, false, false, x % 2 == 1)
}

/// Shifts `arg` right, filling bit 7 with zero; bit 0 goes to `C`.
pub fn srl(mother: &mut Motherboard, arg: CmdInp) -> (r: Result<(), CpuError>)
    requires
        old(mother).wf(),
    ensures
        final(mother).wf(),
        executes(
            r,
            unary_ok(arg),
            old(mother)@,
            final(mother)@,
            shifted(old(mother)@, arg, byte_of(old(mother)@, arg) / 2, byte_of(old(mother)@, arg) % 2 == 1),
        ),
{
    let x = match read_in_place(mother, &arg) {
        Ok(b) => b,
        Err(e) => return Err(e),
    };
    let v = x / 2;
    write_byte(mother, &arg, v, v == 0, false, false, x % 2 == 1)
}

/// Exchanges the two nibbles of `arg`; sets `Z` from the result and clears
/// `N`, `H` and `C`.
pub fn swap(mother: &mut Motherboard, arg: CmdInp) -> (r: Result<(), CpuError>)
    requires
        old(mother).wf(),
    ensures
        final(mother).wf(),
        executes(
            r,
            unary_ok(arg),
            old(mother)@,
            final(mother)@,
            shifted(
                old(mother)@,
                arg,
                ((byte_of(old(mother)@, arg) % 16) * 16 + byte_of(old(mother)@, arg) / 16) as u8,
                false,
            ),
        ),
{
    let x = match read_in_place(mother, &arg) {
        Ok(b) => b,
        Err(e) => return Err(e),
    };
    let v = x % 16 * 16 + x / 16;
    write_byte(mother, &arg, v, v == 0, false, false, false)
}

/// The machine after `daa`. After an addition (`N` clear) the accumulator
/// gets +6 when `H` is set or its low nibble is over 9, and +0x60 when `C` is
/// set or it is over 0x99, the latter also setting `C`. After a subtraction
/// the same amounts are taken off as `H` and `C` say, and `C` is kept. `Z`
/// comes from the result, `H` is cleared, `N` is kept.
pub open spec fn daa_result(s: Machine) -> Machine {
    let a = s.regs.a;
    let n = s.flag(Flag::N);
    let h = s.flag(Flag::H);
    let c = s.flag(Flag::C);
    if !n {
        let hi = c || a > 0x99;
        let lo = h || a % 16 > 9;
        let v = ((a + (if hi { 0x60int } else { 0 }) + (if lo { 6int } else { 0 })) % 256) as u8;
        s.write_reg(Reg::A, v as u16).with_flags(v == 0, n, false, hi)
    } else {
        let v = ((a - (if c { 0x60int } else { 0 }) - (if h { 6int } else { 0 })) % 256) as u8;
        s.write_reg(Reg::A, v as u16).with_flags(v == 0, n, false, c)
    }
}

/// Corrects the accumulator to packed BCD after an addition or subtraction.
pub fn daa(mother: &mut Motherboard)
    requires
        old(mother).wf(),
    ensures
        final(mother).wf(),
        final(mother)@ == daa_result(old(mother)@),
{
    let a = acc_value(mother) as u16;
    let n = mother.cpu.check_flag(Flag::N);
    let h = mother.cpu.check_flag(Flag::H);
    let c = mother.cpu.check_flag(Flag::C);
    let mut corr: u16 = 0;
    if !n {
        let hi = c || a > 0x99;
        if hi {
            corr = corr + 0x60;
        }
        if h || a % 16 > 9 {
            corr = corr + 6;
        }
        let v = ((a + corr) % 256) as u8;
        put_acc(mother, v, v == 0, n, false, hi);
    } else {
        if c {
            corr = corr + 0x60;
        }
        if h {
            corr = corr + 6;
        }
        let v = ((a + 256 - corr) % 256) as u8;
        put_acc(mother, v, v == 0, n, false, c);
    }
}

/// Complements the accumulator; sets `N` and `H`.
pub fn cpl(mother: &mut Motherboard)
    requires
        old(mother).wf(),
    ensures
        final(mother).wf(),
        final(mother)@ == old(mother)@.write_reg(Reg::A, !old(mother)@.regs.a as u16).with_flags(
            old(mother)@.flag(Flag::Z),
            true,
            true,
            old(mother)@.flag(Flag::C),
        ),
{
    let a = acc_value(mother);
    let z = mother.cpu.check_flag(Flag::Z);
    let c = mother.cpu.check_flag(Flag::C);
    put_acc(mother, !a, z, true, true, c);
}

/// Complements `C`; clears `N` and `H`.
pub fn ccf(mother: &mut Motherboard)
    requires
        old(mother).wf(),
    ensures
        final(mother).wf(),
        final(mother)@ == old(mother)@.with_flags(
            old(mother)@.flag(Flag::Z),
            false,
            false,
            !old(mother)@.flag(Flag::C),
        ),
{
    let z = mother.cpu.check_flag(Flag::Z);
    let c = mother.cpu.check_flag(Flag::C);
    put_flags(mother, z, false, false, !c);
}

/// Sets `C`; clears `N` and `H`.
pub fn scf(mother: &mut Motherboard)
    requires
        old(mother).wf(),
    ensures
        final(mother).wf(),
        final(mother)@ == old(mother)@.with_flags(old(mother)@.flag(Flag::Z), false, false, true),
{
    let z = mother.cpu.check_flag(Flag::Z);
    put_flags(mother, z, false, false, true);
}

/// Does nothing.
pub fn nop(mother: &Motherboard) {
}

/// Low-power wait; the surrounding system acts on it, the core holds no state for it.
pub fn halt(mother: &Motherboard) {
}

/// Very-low-power stop; the surrounding system acts on it.
pub fn stop(mother: &Motherboard) {
}

/// Masks interrupts; the interrupt controller lives outside the core.
pub fn di(mother: &Motherboard) {
}

/// Unmasks interrupts; the interrupt controller lives outside the core.
pub fn ei(mother: &Motherboard) {
}

/// Whether the argument is a bit index in 0..8.
pub open spec fn bit_pos_ok(arg: CmdInp) -> bool {
    match arg.re {
        RegExt::B(p) | RegExt::H(p) => p < 8,
        _ => false,
    }
}

/// The literal of a bit-index or vector argument.
pub open spec fn literal(arg: CmdInp) -> u8 {
    match arg.re {
        RegExt::B(p) | RegExt::H(p) => p,
        _ => 0,
    }
}

/// Reads a bit index.
fn read_pos(arg: &CmdInp) -> (r: Result<u8, CpuError>)
    ensures
        match r {
            Ok(p) => bit_pos_ok(*arg) && p == literal(*arg),
            Err(e) => !bit_pos_ok(*arg) && e == CpuError::InvalidOperand,
        },
{
    match get_reg_ext_byte_val(arg) {
        Ok(p) => {
            if p < 8 {
                Ok(p)
            } else {
                Err(CpuError::InvalidOperand)
            }
        },
        Err(e) => Err(e),
    }
}

/// Tests bit `arg1` of `arg2`: `Z` is set when the bit is clear, `H` is set,
/// `N` cleared, `C` kept; `arg2` is not changed.
pub fn bit(mother: &mut Motherboard, arg1: CmdInp, arg2: CmdInp) -> (r: Result<(), CpuError>)
    requires
        old(mother).wf(),
    ensures
        final(mother).wf(),
        executes(
            r,
            bit_pos_ok(arg1) && readable_at(arg2, ByteSize::Single),
            old(mother)@,
            final(mother)@,
            old(mother)@.with_flags(
                byte_of(old(mother)@, arg2) & (1u8 << literal(arg1)) == 0,
                false,
                true,
                old(mother)@.flag(Flag::C),
            ),
        ),
{
    let pos = match read_pos(&arg1) {
        Ok(p) => p,
        Err(e) => return Err(e),
    };
    let val = match read_byte(mother, &arg2) {
        Ok(b) => b,
        Err(e) => return Err(e),
    };
    let c = mother.cpu.check_flag(Flag::C);
    put_flags(mother, val & (1u8 << pos) == 0, false, true, c);
    Ok(())
}

/// Sets bit `arg1` of `arg2`; no flag changes.
pub fn set(mother: &mut Motherboard, arg1: CmdInp, arg2: CmdInp) -> (r: Result<(), CpuError>)
    requires
        old(mother).wf(),
    ensures
        final(mother).wf(),
        executes(
            r,
            bit_pos_ok(arg1) && unary_ok(arg2),
            old(mother)@,
            final(mother)@,
            stored(
                old(mother)@,
                arg2,
                RegBytes::Single(byte_of(old(mother)@, arg2) | (1u8 << literal(arg1))),
            ),
        ),
{
    let pos = match read_pos(&arg1) {
        Ok(p) => p,
        Err(e) => return Err(e),
    };
    let val = match read_in_place(mother, &arg2) {
        Ok(b) => b,
        Err(e) => return Err(e),
    };
    put_reg_ext_val(mother, &arg2, RegBytes::Single(val | (1u8 << pos)))
}

/// Clears bit `arg1` of `arg2`; no flag changes.
pub fn res(mother: &mut Motherboard, arg1: CmdInp, arg2: CmdInp) -> (r: Result<(), CpuError>)
    requires
        old(mother).wf(),
    ensures
        final(mother).wf(),
        executes(
            r,
            bit_pos_ok(arg1) && unary_ok(arg2),
            old(mother)@,
            final(mother)@,
            stored(
                old(mother)@,
                arg2,
                RegBytes::Single(byte_of(old(mother)@, arg2) & !(1u8 << literal(arg1))),
            ),
        ),
{
    let pos = match read_pos(&arg1) {
        Ok(p) => p,
        Err(e) => return Err(e),
    };
    let val = match read_in_place(mother, &arg2) {
        Ok(b) => b,
        Err(e) => return Err(e),
    };
    put_reg_ext_val(mother, &arg2, RegBytes::Single(val & !(1u8 << pos)))
}

/// Sets `PC` to the word `target`.
fn set_pc(mother: &mut Motherboard, target: u16)
    requires
        old(mother).wf(),
    ensures
        final(mother).wf(),
        final(mother)@ == old(mother)@.write_reg(Reg::PC, target),
{
    let _ = mother.cpu.write_reg(Reg::PC, RegBytes::Double(target));
}

/// The current `PC`.
fn pc_value(mother: &Motherboard) -> (r: u16)
    ensures
        r == mother@.regs.pc,
{
    match mother.cpu.read_reg(Reg::PC) {
        RegBytes::Double(w) => w,
        RegBytes::Single(b) => b as u16,
    }
}

/// The machine after a jump to `arg`.
pub open spec fn jp_result(s: Machine, arg: CmdInp) -> Machine {
    s.write_reg(Reg::PC, num(s, arg))
}

/// Jumps to the word `arg`.
pub fn jp(mother: &mut Motherboard, arg: CmdInp) -> (r: Result<(), CpuError>)
    requires
        old(mother).wf(),
    ensures
        final(mother).wf(),
        executes(
            r,
            readable_at(arg, ByteSize::Double),
            old(mother)@,
            final(mother)@,
            jp_result(old(mother)@, arg),
        ),
{
    match read_word(mother, &arg) {
        Ok(w) => {
            set_pc(mother, w);
            Ok(())
        },
        Err(e) => Err(e),
    }
}

/// Jumps to `arg2` when the test `arg1` holds; both arguments are checked
/// either way, and a jump not taken changes nothing.
pub fn jp_flag(mother: &mut Motherboard, arg1: CmdInp, arg2: CmdInp) -> (r: Result<(), CpuError>)
    requires
        old(mother).wf(),
    ensures
        final(mother).wf(),
        executes(
            r,
            arg1.re.is_test() && readable_at(arg2, ByteSize::Double),
            old(mother)@,
            final(mother)@,
            if test_of(old(mother)@, arg1.re) {
                jp_result(old(mother)@, arg2)
            } else {
                old(mother)@
            },
        ),
{
    let test = match get_reg_ext_flag_val(mother, &arg1) {
        Ok(t) => t,
        Err(e) => return Err(e),
    };
    if !(is_readable(&arg2) && arg2.size() == ByteSize::Double) {
        return Err(CpuError::InvalidOperand);
    }
    if test {
        jp(mother, arg2)
    } else {
        Ok(())
    }
}

/// The machine after a relative jump by the signed byte `arg`.
pub open spec fn jr_result(s: Machine, arg: CmdInp) -> Machine {
    s.write_reg(Reg::PC, next(s.regs.pc, signed(byte_of(s, arg))))
}

/// Adds the signed byte `arg` to `PC`.
pub fn jr(mother: &mut Motherboard, arg: CmdInp) -> (r: Result<(), CpuError>)
    requires
        old(mother).wf(),
    ensures
        final(mother).wf(),
        executes(
            r,
            readable_at(arg, ByteSize::Single),
            old(mother)@,
            final(mother)@,
            jr_result(old(mother)@, arg),
        ),
{
    match read_byte(mother, &arg) {
        Ok(b) => {
            let target = offset(pc_value(mother), b);
            set_pc(mother, target);
            Ok(())
        },
        Err(e) => Err(e),
    }
}

/// `jr` when the test `arg1` holds; a jump not taken changes nothing.
pub fn jr_flag(mother: &mut Motherboard, arg1: CmdInp, arg2: CmdInp) -> (r: Result<(), CpuError>)
    requires
        old(mother).wf(),
    ensures
        final(mother).wf(),
        executes(
            r,
            arg1.re.is_test() && readable_at(arg2, ByteSize::Single),
            old(mother)@,
            final(mother)@,
            if test_of(old(mother)@, arg1.re) {
                jr_result(old(mother)@, arg2)
            } else {
                old(mother)@
            },
        ),
{
    let test = match get_reg_ext_flag_val(mother, &arg1) {
        Ok(t) => t,
        Err(e) => return Err(e),
    };
    if !(is_readable(&arg2) && arg2.size() == ByteSize::Single) {
        return Err(CpuError::InvalidOperand);
    }
    if test {
        jr(mother, arg2)
    } else {
        Ok(())
    }
}

/// The machine after a call of `arg`: the address after the three-byte call
/// is pushed, then `PC` takes the target, read after the push.
pub open spec fn call_result(s: Machine, arg: CmdInp) -> Machine {
    let s1 = s.push(next(s.regs.pc, 3));
    s1.write_reg(Reg::PC, num(s1, arg))
}

/// Calls the word `arg`.
pub fn call(mother: &mut Motherboard, arg: CmdInp) -> (r: Result<(), CpuError>)
    requires
        old(mother).wf(),
    ensures
        final(mother).wf(),
        executes(
            r,
            readable_at(arg, ByteSize::Double),
            old(mother)@,
            final(mother)@,
            call_result(old(mother)@, arg),
        ),
{
    if !(is_readable(&arg) && arg.size() == ByteSize::Double) {
        return Err(CpuError::InvalidOperand);
    }
    let cur = pc_value(mother) as u32;
    mother.push(((cur + 3) % 0x10000) as u16);
    match read_word(mother, &arg) {
        Ok(w) => {
            set_pc(mother, w);
            Ok(())
        },
        Err(e) => Err(e),
    }
}

/// `call` when the test `arg1` holds; a call not taken changes nothing.
pub fn call_flag(mother: &mut Motherboard, arg1: CmdInp, arg2: CmdInp) -> (r: Result<
    (),
    CpuError,
>)
    requires
        old(mother).wf(),
    ensures
        final(mother).wf(),
        executes(
            r,
            arg1.re.is_test() && readable_at(arg2, ByteSize::Double),
            old(mother)@,
            final(mother)@,
            if test_of(old(mother)@, arg1.re) {
                call_result(old(mother)@, arg2)
            } else {
                old(mother)@
            },
        ),
{
    let test = match get_reg_ext_flag_val(mother, &arg1) {
        Ok(t) => t,
        Err(e) => return Err(e),
    };
    if !(is_readable(&arg2) && arg2.size() == ByteSize::Double) {
        return Err(CpuError::InvalidOperand);
    }
    if test {
        call(mother, arg2)
    } else {
        Ok(())
    }
}

/// Pushes `PC` and jumps to the fixed vector `arg`.
pub fn rst(mother: &mut Motherboard, arg: CmdInp) -> (r: Result<(), CpuError>)
    requires
        old(mother).wf(),
    ensures
        final(mother).wf(),
        executes(
            r,
            arg.re is B || arg.re is H,
            old(mother)@,
            final(mother)@,
            old(mother)@.push(old(mother)@.regs.pc).write_reg(Reg::PC, literal(arg) as u16),
        ),
{
    let vector = match get_reg_ext_byte_val(&arg) {
        Ok(v) => v,
        Err(e) => return Err(e),
    };
    let cur = pc_value(mother);
    mother.push(cur);
    set_pc(mother, vector as u16);
    Ok(())
}

/// The machine after a return: `PC` takes the popped word.
pub open spec fn ret_result(s: Machine) -> Machine {
    s.pop().write_reg(Reg::PC, s.top())
}

/// Returns: pops a word into `PC`.
pub fn ret(mother: &mut Motherboard)
    requires
        old(mother).wf(),
    ensures
        final(mother).wf(),
        final(mother)@ == ret_result(old(mother)@),
{
    let addr = mother.pop();
    set_pc(mother, addr);
}

/// `ret` when the test `arg` holds; a return not taken changes nothing.
pub fn ret_flag(mother: &mut Motherboard, arg: CmdInp) -> (r: Result<(), CpuError>)
    requires
        old(mother).wf(),
    ensures
        final(mother).wf(),
        executes(
            r,
            arg.re.is_test(),
            old(mother)@,
            final(mother)@,
            if test_of(old(mother)@, arg.re) {
                ret_result(old(mother)@)
            } else {
                old(mother)@
            },
        ),
{
    let test = match get_reg_ext_flag_val(mother, &arg) {
        Ok(t) => t,
        Err(e) => return Err(e),
    };
    if test {
        ret(mother);
    }
    Ok(())
}

/// Returns from an interrupt handler: `ret`; unmasking interrupts is left to
/// the interrupt controller outside the core.
pub fn reti(mother: &mut Motherboard)
    requires
        old(mother).wf(),
    ensures
        final(mother).wf(),
        final(mother)@ == ret_result(old(mother)@),
{
    ret(mother);
}

/// A register, read and written directly.
pub open spec fn reg_arg(r: Reg) -> CmdInp {
    CmdInp { re: RegExt::Reg(r), mem: false, change: 0 }
}

/// `push` of a two-byte register followed at once by `pop` into it leaves
/// every register, `SP` included, as it was.
pub proof fn push_pop_restores(s: Machine, arg: CmdInp)
    requires
        s.mem.len() == MEM_SIZE,
        readable_at(arg, ByteSize::Double),
        writable(arg, ByteSize::Double),
    ensures
        ({
            let s1 = s.push(num(s, arg));
            stored(s1.pop(), arg, RegBytes::Double(s1.top())).regs == s.regs
        }),
{
    let v = num(s, arg);
    push_pop_round_trip(s, v);
    lemma_write_same(s.regs, arg.re->Reg_0);
    lemma_value_width(s, arg);
}

/// An 8-bit `add` of `a` and `b` sets `C` exactly when `a + b` exceeds 0xFF,
/// `H` exactly when the sum of the low nibbles exceeds 0xF, and `Z` exactly
/// when the wrapped sum is zero; it clears `N`.
pub proof fn add8_flags(s: Machine, arg1: CmdInp, arg2: CmdInp)
    requires
        add_ok(arg1, arg2),
        arg1.width() == ByteSize::Single,
    ensures
        ({
            let a = byte_of(s, arg1);
            let b = byte_of(s, arg2);
            let t = add_result(s, arg1, arg2);
            &&& t.flag(Flag::C) == (a + b > 0xFF)
            &&& t.flag(Flag::H) == (a % 16 + b % 16 > 0xF)
            &&& t.flag(Flag::Z) == ((a + b) % 256 == 0)
            &&& !t.flag(Flag::N)
        }),
{
    let a = byte_of(s, arg1);
    let b = byte_of(s, arg2);
    lemma_flags_byte(sum8(a, b, false) == 0, false, half_carry(a, b, false), carry(a, b, false));
}

/// What `inc` and `dec` leave in a register other than `F`: its value plus
/// or minus one, wrapping at its width.
proof fn lemma_step_value(s: Machine, r: Reg)
    requires
        r != Reg::F,
    ensures
        value_of(inc_result(s, reg_arg(r)), reg_arg(r)) == (if r.width() == ByteSize::Single {
            RegBytes::Single(sum8(s.regs.read(r).value() as u8, 1, false))
        } else {
            RegBytes::Double(next(s.regs.read(r).value(), 1))
        }),
        value_of(dec_result(s, reg_arg(r)), reg_arg(r)) == (if r.width() == ByteSize::Single {
            RegBytes::Single(diff8(s.regs.read(r).value() as u8, 1, false))
        } else {
            RegBytes::Double(next(s.regs.read(r).value(), -1))
        }),
{
    let cur = s.regs.read(r).value();
    match r {
        Reg::AF | Reg::BC | Reg::DE | Reg::HL => {
            lemma_word_split(next(cur, 1), 0, 0);
            lemma_word_split(next(cur, -1), 0, 0);
        },
        _ => {},
    }
}

/// `inc` then `dec`, or `dec` then `inc`, on a register other than `F` gives
/// the register its value back (the flags aside).
pub proof fn inc_dec_round_trip(s: Machine, r: Reg)
    requires
        r != Reg::F,
    ensures
        value_of(dec_result(inc_result(s, reg_arg(r)), reg_arg(r)), reg_arg(r)) == value_of(
            s,
            reg_arg(r),
        ),
        value_of(inc_result(dec_result(s, reg_arg(r)), reg_arg(r)), reg_arg(r)) == value_of(
            s,
            reg_arg(r),
        ),
{
    let arg = reg_arg(r);
    let up = inc_result(s, arg);
    let down = dec_result(s, arg);
    let x = s.regs.read(r);
    lemma_step_value(s, r);
    lemma_step_value(up, r);
    lemma_step_value(down, r);
    assert(value_of(s, arg) == x);
    assert(value_of(up, arg) == up.regs.read(r));
    assert(value_of(down, arg) == down.regs.read(r));
    if r.width() == ByteSize::Single {
        lemma_byte_step_inverse(x.value() as u8);
    } else {
        lemma_word_step_inverse(x.value());
    }
}

proof fn lemma_byte_step_inverse(b: u8)
    ensures
        diff8(sum8(b, 1, false), 1, false) == b,
        sum8(diff8(b, 1, false), 1, false) == b,
{
    if b == 255 {
        assert(sum8(b, 1, false) == 0);
    } else if b == 0 {
        assert(diff8(b, 1, false) == 255);
    } else {
        assert(sum8(b, 1, false) == b + 1);
        assert(diff8(b, 1, false) == b - 1);
    }
}

proof fn lemma_word_step_inverse(w: u16)
    ensures
        next(next(w, 1), -1) == w,
        next(next(w, -1), 1) == w,
{
    if w == 0xFFFF {
        assert(next(w, 1) == 0);
    } else if w == 0 {
        assert(next(w, -1) == 0xFFFF);
    } else {
        assert(next(w, 1) == w + 1);
        assert(next(w, -1) == w - 1);
    }
}

} // verus!
