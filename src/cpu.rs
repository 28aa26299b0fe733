use vstd::prelude::*;

use crate::common::{ByteSize, CpuError, RegBytes};

verus! {

/// The addressable registers: eight bytes, the four pairs formed from them,
/// and the two independent words `SP` and `PC`.
#[derive(Clone, Copy, Debug, PartialEq, Eq, Hash, Structural)]
pub enum Reg {
    A,
    B,
    C,
    D,
    E,
    F,
    H,
    L,
    AF,
    BC,
    DE,
    HL,
    SP,
    PC,
}

/// The four flags held in the upper nibble of `F`.
#[derive(Clone, Copy, Debug, PartialEq, Eq, Structural)]
pub enum Flag {
    Z,
    N,
    H,
    C,
}

/// The bit of `F` that holds a flag.
pub open spec fn flag_mask(flag: Flag) -> u8 {
    match flag {
        Flag::Z => 0x80,
        Flag::N => 0x40,
        Flag::H => 0x20,
        Flag::C => 0x10,
    }
}

/// The value of `F` that holds exactly the given flags; the lower nibble is zero.
pub open spec fn flags_byte(z: bool, n: bool, h: bool, c: bool) -> u8 {
    ((if z { 0x80int } else { 0 }) + (if n { 0x40int } else { 0 }) + (if h { 0x20int } else { 0 })
        + (if c { 0x10int } else { 0 })) as u8
}

/// Whether `flag` is set in the flag byte `f`.
pub open spec fn flag_in(f: u8, flag: Flag) -> bool {
    f & flag_mask(flag) != 0
}

/// The word whose high byte is `hi` and low byte is `lo`.
pub open spec fn word(hi: u8, lo: u8) -> u16 {
    (hi as int * 256 + lo as int) as u16
}

pub open spec fn high(w: u16) -> u8 {
    (w / 256) as u8
}

pub open spec fn low(w: u16) -> u8 {
    (w % 256) as u8
}

impl Reg {
    /// The natural width of the register.
    pub open spec fn width(self) -> ByteSize {
        match self {
            Reg::A | Reg::B | Reg::C | Reg::D | Reg::E | Reg::F | Reg::H | Reg::L => ByteSize::Single,
            _ => ByteSize::Double,
        }
    }

    pub fn size(&self) -> (r: ByteSize)
        ensures
            r == self.width(),
    {
        match self {
            Reg::A | Reg::B | Reg::C | Reg::D | Reg::E | Reg::F | Reg::H | Reg::L => ByteSize::Single,
            _ => ByteSize::Double,
        }
    }
}

/// The register file as values: the eight bytes and the two scalar words.
/// A pair register is not stored apart: it is read from, and written to,
/// its two bytes.
pub struct Regs {
    pub a: u8,
    pub f: u8,
    pub b: u8,
    pub c: u8,
    pub d: u8,
    pub e: u8,
    pub h: u8,
    pub l: u8,
    pub sp: u16,
    pub pc: u16,
}

impl Regs {
    /// What reading `r` yields.
    pub open spec fn read(self, r: Reg) -> RegBytes {
        match r {
            Reg::A => RegBytes::Single(self.a),
            Reg::B => RegBytes::Single(self.b),
            Reg::C => RegBytes::Single(self.c),
            Reg::D => RegBytes::Single(self.d),
            Reg::E => RegBytes::Single(self.e),
            Reg::F => RegBytes::Single(self.f),
            Reg::H => RegBytes::Single(self.h),
            Reg::L => RegBytes::Single(self.l),
            Reg::AF => RegBytes::Double(word(self.a, self.f)),
            Reg::BC => RegBytes::Double(word(self.b, self.c)),
            Reg::DE => RegBytes::Double(word(self.d, self.e)),
            Reg::HL => RegBytes::Double(word(self.h, self.l)),
            Reg::SP => RegBytes::Double(self.sp),
            Reg::PC => RegBytes::Double(self.pc),
        }
    }

    /// The register file after writing `v` to `r`; a byte register takes the
    /// low byte of `v`, a pair its high byte first.
    pub open spec fn write(self, r: Reg, v: u16) -> Regs {
        match r {
            Reg::A => Regs { a: v as u8, ..self },
            Reg::B => Regs { b: v as u8, ..self },
            Reg::C => Regs { c: v as u8, ..self },
            Reg::D => Regs { d: v as u8, ..self },
            Reg::E => Regs { e: v as u8, ..self },
            Reg::F => Regs { f: v as u8, ..self },
            Reg::H => Regs { h: v as u8, ..self },
            Reg::L => Regs { l: v as u8, ..self },
            Reg::AF => Regs { a: high(v), f: low(v), ..self },
            Reg::BC => Regs { b: high(v), c: low(v), ..self },
            Reg::DE => Regs { d: high(v), e: low(v), ..self },
            Reg::HL => Regs { h: high(v), l: low(v), ..self },
            Reg::SP => Regs { sp: v, ..self },
            Reg::PC => Regs { pc: v, ..self },
        }
    }

    /// Whether `flag` is set in `F`.
    pub open spec fn flag(self, flag: Flag) -> bool {
        flag_in(self.f, flag)
    }

    /// The register file with `F` holding exactly the given flags.
    pub open spec fn with_flags(self, z: bool, n: bool, h: bool, c: bool) -> Regs {
        Regs { f: flags_byte(z, n, h, c), ..self }
    }
}

/// Whether `p` is one of the four pair registers.
pub open spec fn is_pair(p: Reg) -> bool {
    p == Reg::AF || p == Reg::BC || p == Reg::DE || p == Reg::HL
}

/// The byte registers a pair is made of, the high one first.
pub open spec fn halves(p: Reg) -> (Reg, Reg) {
    match p {
        Reg::AF => (Reg::A, Reg::F),
        Reg::BC => (Reg::B, Reg::C),
        Reg::DE => (Reg::D, Reg::E),
        _ => (Reg::H, Reg::L),
    }
}

/// A word splits into its high and low bytes and is made again from them.
pub proof fn lemma_word_split(w: u16, hi: u8, lo: u8)
    ensures
        word(high(w), low(w)) == w,
        high(word(hi, lo)) == hi,
        low(word(hi, lo)) == lo,
{
}

/// The three names of a pair share one storage: writing the pair sets its
/// high byte register to the word's high byte and its low byte register to
/// the low byte; writing one byte register changes only that half of the pair.
pub proof fn pair_aliasing(s: Regs, p: Reg, w: u16, x: u8)
    requires
        is_pair(p),
    ensures
        s.write(p, w).read(p) == RegBytes::Double(w),
        s.write(p, w).read(halves(p).0) == RegBytes::Single(high(w)),
        s.write(p, w).read(halves(p).1) == RegBytes::Single(low(w)),
        s.write(halves(p).0, x as u16).read(p) == RegBytes::Double(
            word(x, low(s.read(p).value())),
        ),
        s.write(halves(p).1, x as u16).read(p) == RegBytes::Double(
            word(high(s.read(p).value()), x),
        ),
{
    lemma_word_split(w, 0, 0);
    let (hi, lo) = halves(p);
    let cur = s.read(p).value();
    lemma_word_split(cur, s.read(hi).value() as u8, s.read(lo).value() as u8);
}

/// Writing a register the value it holds changes nothing.
pub proof fn lemma_write_same(s: Regs, r: Reg)
    ensures
        s.write(r, s.read(r).value()) == s,
{
    lemma_word_split(word(s.a, s.f), s.a, s.f);
    lemma_word_split(word(s.b, s.c), s.b, s.c);
    lemma_word_split(word(s.d, s.e), s.d, s.e);
    lemma_word_split(word(s.h, s.l), s.h, s.l);
}

/// Bit masks on a byte, read as arithmetic.
pub proof fn lemma_flag_bits(x: u8)
    ensures
        (x & 0x80 != 0) == (x >= 0x80),
        (x & 0x40 != 0) == (x % 0x80 >= 0x40),
        (x & 0x20 != 0) == (x % 0x40 >= 0x20),
        (x & 0x10 != 0) == (x % 0x20 >= 0x10),
{
    assert((x & 0x80 != 0) == (x >= 0x80)) by (bit_vector);
    assert((x & 0x40 != 0) == (x % 0x80 >= 0x40)) by (bit_vector);
    assert((x & 0x20 != 0) == (x % 0x40 >= 0x20)) by (bit_vector);
    assert((x & 0x10 != 0) == (x % 0x20 >= 0x10)) by (bit_vector);
}

/// `F` written with a set of flags reads back those flags.
pub proof fn lemma_flags_byte(z: bool, n: bool, h: bool, c: bool)
    ensures
        flag_in(flags_byte(z, n, h, c), Flag::Z) == z,
        flag_in(flags_byte(z, n, h, c), Flag::N) == n,
        flag_in(flags_byte(z, n, h, c), Flag::H) == h,
        flag_in(flags_byte(z, n, h, c), Flag::C) == c,
        flags_byte(z, n, h, c) % 16 == 0,
{
    lemma_flag_bits(flags_byte(z, n, h, c));
}

/// Which part of a pair a register names.
enum RegOrder {
    First,
    Second,
    Both,
}

/// The storage of two byte registers; the first is the high byte of the pair.
struct RegPair {
    first: u8,
    second: u8,
}

impl RegPair {
    fn new() -> (r: RegPair)
        ensures
            r.first == 0 && r.second == 0,
    {
        RegPair { first: 0, second: 0 }
    }

    fn read_8(&self, first: bool) -> (r: u8)
        ensures
            r == if first { self.first } else { self.second },
    {
        if first {
            self.first
        } else {
            self.second
        }
    }

    fn write_8(&mut self, first: bool, byte: u8)
        ensures
            first ==> *final(self) == (RegPair { first: byte, second: old(self).second }),
            !first ==> *final(self) == (RegPair { first: old(self).first, second: byte }),
    {
        if first {
            self.first = byte;
        } else {
            self.second = byte;
        }
    }

    fn read_16(&self) -> (r: u16)
        ensures
            r == word(self.first, self.second),
    {
        self.first as u16 * 256 + self.second as u16
    }

    fn write_16(&mut self, w: u16)
        ensures
            final(self).first == high(w),
            final(self).second == low(w),
    {
        self.first = (w / 256) as u8;
        self.second = (w % 256) as u8;
    }

    /// Reads the part `order` names, at its width.
    fn read(&self, order: RegOrder) -> (r: RegBytes)
        ensures
            r == match order {
                RegOrder::First => RegBytes::Single(self.first),
                RegOrder::Second => RegBytes::Single(self.second),
                RegOrder::Both => RegBytes::Double(word(self.first, self.second)),
            },
    {
        match order {
            RegOrder::First => RegBytes::Single(self.read_8(true)),
            RegOrder::Second => RegBytes::Single(self.read_8(false)),
            RegOrder::Both => RegBytes::Double(self.read_16()),
        }
    }

    /// Writes the part `order` names; the value must have that part's width.
    fn write(&mut self, order: RegOrder, bytes: RegBytes)
        requires
            (order is Both) == (bytes is Double),
        ensures
            match order {
                RegOrder::First => *final(self) == (RegPair {
                    first: bytes.value() as u8,
                    second: old(self).second,
                }),
                RegOrder::Second => *final(self) == (RegPair {
                    first: old(self).first,
                    second: bytes.value() as u8,
                }),
                RegOrder::Both => final(self).first == high(bytes.value()) && final(self).second
                    == low(bytes.value()),
            },
    {
        match bytes {
            RegBytes::Single(b) => {
                match order {
                    RegOrder::First => self.write_8(true, b),
                    _ => self.write_8(false, b),
                }
            },
            RegBytes::Double(w) => self.write_16(w),
        }
    }
}

fn order_of(reg: Reg) -> (r: RegOrder)
    ensures
        r is First <==> (reg == Reg::A || reg == Reg::B || reg == Reg::D || reg == Reg::H),
        r is Second <==> (reg == Reg::F || reg == Reg::C || reg == Reg::E || reg == Reg::L),
{
    match reg {
        Reg::A | Reg::B | Reg::D | Reg::H => RegOrder::First,
        Reg::F | Reg::C | Reg::E | Reg::L => RegOrder::Second,
        _ => RegOrder::Both,
    }
}

/// The register file: four pairs of byte registers and the two scalar words.
pub struct CPU {
    sp: u16,
    pc: u16,
    af: RegPair,
    bc: RegPair,
    de: RegPair,
    hl: RegPair,
}

impl View for CPU {
    type V = Regs;

    closed spec fn view(&self) -> Regs {
        Regs {
            a: self.byte(Reg::A),
            f: self.byte(Reg::F),
            b: self.byte(Reg::B),
            c: self.byte(Reg::C),
            d: self.byte(Reg::D),
            e: self.byte(Reg::E),
            h: self.byte(Reg::H),
            l: self.byte(Reg::L),
            sp: self.sp,
            pc: self.pc,
        }
    }
}

impl CPU {
    /// The byte register `r` as stored in its pair.
    spec fn byte(&self, r: Reg) -> u8 {
        match r {
            Reg::A => self.af.first,
            Reg::F => self.af.second,
            Reg::B => self.bc.first,
            Reg::C => self.bc.second,
            Reg::D => self.de.first,
            Reg::E => self.de.second,
            Reg::H => self.hl.first,
            Reg::L => self.hl.second,
            _ => 0,
        }
    }

    /// A register file with every register zero.
    pub fn new() -> (r: CPU)
        ensures
            r@ == (Regs { a: 0, f: 0, b: 0, c: 0, d: 0, e: 0, h: 0, l: 0, sp: 0, pc: 0 }),
    {
        CPU { sp: 0, pc: 0, af: RegPair::new(), bc: RegPair::new(), de: RegPair::new(), hl: RegPair::new() }
    }

    /// Reads a register at its natural width.
    pub fn read_reg(&self, reg: Reg) -> (r: RegBytes)
        ensures
            r == self@.read(reg),
            r.width() == reg.width(),
    {
        match reg {
            Reg::SP => RegBytes::Double(self.sp),
            Reg::PC => RegBytes::Double(self.pc),
            Reg::A | Reg::F | Reg::AF => self.af.read(order_of(reg)),
            Reg::B | Reg::C | Reg::BC => self.bc.read(order_of(reg)),
            Reg::D | Reg::E | Reg::DE => self.de.read(order_of(reg)),
            Reg::H | Reg::L | Reg::HL => self.hl.read(order_of(reg)),
        }
    }

    /// Writes a register; a value of another width than the register's is
    /// refused with `InvalidOperand` and changes nothing.
    pub fn write_reg(&mut self, reg: Reg, bytes: RegBytes) -> (r: Result<(), CpuError>)
        ensures
            r is Ok <==> bytes.width() == reg.width(),
            r is Ok ==> final(self)@ == old(self)@.write(reg, bytes.value()),
            r is Err ==> r == Err::<(), CpuError>(CpuError::InvalidOperand) && final(self)@
                == old(self)@,
    {
        if bytes.size() != reg.size() {
            return Err(CpuError::InvalidOperand);
        }
        match reg {
            Reg::SP => {
                self.sp = bytes.value_of();
            },
            Reg::PC => {
                self.pc = bytes.value_of();
            },
            Reg::A | Reg::F | Reg::AF => self.af.write(order_of(reg), bytes),
            Reg::B | Reg::C | Reg::BC => self.bc.write(order_of(reg), bytes),
            Reg::D | Reg::E | Reg::DE => self.de.write(order_of(reg), bytes),
            Reg::H | Reg::L | Reg::HL => self.hl.write(order_of(reg), bytes),
        }
        Ok(())
    }

    /// Sets one flag in `F`, keeping the other bits.
    pub fn set_flag(&mut self, flag: Flag)
        ensures
            final(self)@ == old(self)@.write(Reg::F, (old(self)@.f | flag_mask(flag)) as u16),
    {
        let f = self.af.read_8(false);
        self.af.write_8(false, f | mask_of(flag));
    }

    /// Clears one flag in `F`, keeping the other bits.
    pub fn unset_flag(&mut self, flag: Flag)
        ensures
            final(self)@ == old(self)@.write(Reg::F, (old(self)@.f & !flag_mask(flag)) as u16),
    {
        let f = self.af.read_8(false);
        self.af.write_8(false, f & !mask_of(flag));
    }

    /// Whether a flag is set in `F`.
    pub fn check_flag(&self, flag: Flag) -> (r: bool)
        ensures
            r == self@.flag(flag),
    {
        self.af.read_8(false) & mask_of(flag) != 0
    }
}

fn mask_of(flag: Flag) -> (r: u8)
    ensures
        r == flag_mask(flag),
{
    match flag {
        Flag::Z => 0x80,
        Flag::N => 0x40,
        Flag::H => 0x20,
        Flag::C => 0x10,
    }
}

} // verus!
