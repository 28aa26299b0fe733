use vstd::prelude::*;

use crate::common::RegBytes;
use crate::cpu::{high, low, word, Flag, Reg, Regs, CPU};

verus! {

/// The size of the address space.
pub const MEM_SIZE: usize = 0x10000;

/// The address `k` bytes after `a`, wrapping round the 16-bit address space.
pub open spec fn next(a: u16, k: int) -> u16 {
    ((a as int + k) % 0x10000) as u16
}

/// The machine as values: the register file and the 64 KiB of memory.
pub struct Machine {
    pub regs: Regs,
    pub mem: Seq<u8>,
}

impl Machine {
    /// The byte at `addr`.
    pub open spec fn byte_at(self, addr: u16) -> u8 {
        self.mem[addr as int]
    }

    /// The machine with the byte at `addr` replaced by `v`.
    pub open spec fn write_mem(self, addr: u16, v: u8) -> Machine {
        Machine { mem: self.mem.update(addr as int, v), ..self }
    }

    /// The machine with register `r` written with `v`.
    pub open spec fn write_reg(self, r: Reg, v: u16) -> Machine {
        Machine { regs: self.regs.write(r, v), ..self }
    }

    /// Whether `flag` is set.
    pub open spec fn flag(self, flag: Flag) -> bool {
        self.regs.flag(flag)
    }

    /// The machine with `F` holding exactly the given flags.
    pub open spec fn with_flags(self, z: bool, n: bool, h: bool, c: bool) -> Machine {
        Machine { regs: self.regs.with_flags(z, n, h, c), ..self }
    }

    /// The byte that follows the opcode at `PC`.
    pub open spec fn imm8(self) -> u8 {
        self.byte_at(next(self.regs.pc, 1))
    }

    /// The little-endian word that follows the opcode at `PC`.
    pub open spec fn imm16(self) -> u16 {
        word(self.byte_at(next(self.regs.pc, 2)), self.byte_at(next(self.regs.pc, 1)))
    }

    /// The machine after pushing `v`: the high byte goes to `SP-2`, the low
    /// byte to `SP-1`, and `SP` moves down by two.
    pub open spec fn push(self, v: u16) -> Machine {
        let sp = self.regs.sp;
        self.write_mem(next(sp, -2), high(v)).write_mem(next(sp, -1), low(v)).write_reg(
            Reg::SP,
            next(sp, -2),
        )
    }

    /// The word on top of the stack: the high byte at `SP`, the low at `SP+1`.
    pub open spec fn top(self) -> u16 {
        word(self.byte_at(self.regs.sp), self.byte_at(next(self.regs.sp, 1)))
    }

    /// The machine after popping a word: `SP` moves up by two.
    pub open spec fn pop(self) -> Machine {
        self.write_reg(Reg::SP, next(self.regs.sp, 2))
    }
}

/// The register file and the memory behind the bus. `mem` covers the whole
/// address space, one byte per address.
pub struct Motherboard {
    pub cpu: CPU,
    pub mem: Vec<u8>,
}

impl View for Motherboard {
    type V = Machine;

    open spec fn view(&self) -> Machine {
        Machine { regs: self.cpu@, mem: self.mem@ }
    }
}

impl Motherboard {
    /// Memory covers the whole address space.
    pub open spec fn wf(&self) -> bool {
        self.mem@.len() == MEM_SIZE
    }

    /// A machine with every register and every byte of memory zero.
    pub fn new() -> (r: Motherboard)
        ensures
            r.wf(),
            r@.regs == (Regs { a: 0, f: 0, b: 0, c: 0, d: 0, e: 0, h: 0, l: 0, sp: 0, pc: 0 }),
            forall|i: int| 0 <= i < MEM_SIZE ==> r@.mem[i] == 0,
    {
        let mem: Vec<u8> = vec![0u8; MEM_SIZE];
        Motherboard { cpu: CPU::new(), mem }
    }

    /// Reads the byte at `addr`.
    pub fn get_mem_at(&self, addr: u16) -> (r: u8)
        requires
            self.wf(),
        ensures
            r == self@.byte_at(addr),
    {
        self.mem[addr as usize]
    }

    /// Writes the byte at `addr`.
    pub fn put_mem_at(&mut self, addr: u16, val: u8)
        requires
            old(self).wf(),
        ensures
            final(self).wf(),
            final(self)@ == old(self)@.write_mem(addr, val),
    {
        self.mem.set(addr as usize, val);
    }

    fn word_reg(&self, reg: Reg) -> (r: u16)
        requires
            reg == Reg::SP || reg == Reg::PC,
        ensures
            r == self@.regs.read(reg).value(),
    {
        match self.cpu.read_reg(reg) {
            RegBytes::Double(w) => w,
            RegBytes::Single(b) => b as u16,
        }
    }

    /// The immediate operand after the opcode at `PC`: a byte when `single`,
    /// else a little-endian word.
    pub fn get_immediate_val(&self, single: bool) -> (r: RegBytes)
        requires
            self.wf(),
        ensures
            r == if single {
                RegBytes::Single(self@.imm8())
            } else {
                RegBytes::Double(self@.imm16())
            },
    {
        let pc = self.word_reg(Reg::PC) as u32;
        let byte1 = self.get_mem_at(((pc + 1) % 0x10000) as u16);
        if single {
            RegBytes::Single(byte1)
        } else {
            let byte2 = self.get_mem_at(((pc + 2) % 0x10000) as u16);
            RegBytes::Double(byte2 as u16 * 256 + byte1 as u16)
        }
    }

    /// Pushes a word on the stack.
    pub fn push(&mut self, val: u16)
        requires
            old(self).wf(),
        ensures
            final(self).wf(),
            final(self)@ == old(self)@.push(val),
    {
        let sp = self.word_reg(Reg::SP) as u32;
        let below = ((sp + 0xFFFE) % 0x10000) as u16;
        self.put_mem_at(below, (val / 256) as u8);
        self.put_mem_at(((sp + 0xFFFF) % 0x10000) as u16, (val % 256) as u8);
        let _ = self.cpu.write_reg(Reg::SP, RegBytes::Double(below));
    }

    /// Pops a word off the stack.
    pub fn pop(&mut self) -> (r: u16)
        requires
            old(self).wf(),
        ensures
            final(self).wf(),
            r == old(self)@.top(),
            final(self)@ == old(self)@.pop(),
    {
        let sp = self.word_reg(Reg::SP) as u32;
        let hi = self.get_mem_at(sp as u16);
        let lo = self.get_mem_at(((sp + 1) % 0x10000) as u16);
        let _ = self.cpu.write_reg(Reg::SP, RegBytes::Double(((sp + 2) % 0x10000) as u16));
        hi as u16 * 256 + lo as u16
    }
}

/// Pushing a word and popping it at once gives the word back and leaves
/// `SP` where it was, whatever `SP` held.
pub proof fn push_pop_round_trip(s: Machine, v: u16)
    requires
        s.mem.len() == MEM_SIZE,
    ensures
        s.push(v).top() == v,
        s.push(v).pop().regs == s.regs,
{
    let sp = s.regs.sp;
    assert(next(next(sp, -2), 1) == next(sp, -1));
    assert(next(sp, -2) != next(sp, -1));
    assert(next(next(sp, -2), 2) == sp);
}

} // verus!
