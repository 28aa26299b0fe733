use vstd::prelude::*;

verus! {

/// The one failure kind of the core: an operand of the wrong kind or width
/// for the slot it is used in.
#[derive(Clone, Copy, Debug, PartialEq, Eq, Structural)]
pub enum CpuError {
    InvalidOperand,
}

/// The width of a value or an operand.
#[derive(Clone, Copy, Debug, PartialEq, Eq, Structural)]
pub enum ByteSize {
    Single,
    Double,
}

/// A value held by a register or an operand: a byte or a word, never both.
#[derive(Clone, Copy, Debug, PartialEq, Eq, Structural)]
pub enum RegBytes {
    Single(u8),
    Double(u16),
}

impl RegBytes {
    /// The width of this value.
    pub open spec fn width(self) -> ByteSize {
        match self {
            RegBytes::Single(_) => ByteSize::Single,
            RegBytes::Double(_) => ByteSize::Double,
        }
    }

    /// The value as a number, whatever its width.
    pub open spec fn value(self) -> u16 {
        match self {
            RegBytes::Single(b) => b as u16,
            RegBytes::Double(w) => w,
        }
    }

    pub fn new_single(single: u8) -> (r: RegBytes)
        ensures
            r == RegBytes::Single(single),
    {
        RegBytes::Single(single)
    }

    pub fn new_double(double: u16) -> (r: RegBytes)
        ensures
            r == RegBytes::Double(double),
    {
        RegBytes::Double(double)
    }

    pub fn size(&self) -> (r: ByteSize)
        ensures
            r == self.width(),
    {
        match self {
            RegBytes::Single(_) => ByteSize::Single,
            RegBytes::Double(_) => ByteSize::Double,
        }
    }

    /// The value as a word: a byte is zero-extended.
    pub fn value_of(&self) -> (r: u16)
        ensures
            r == self.value(),
    {
        match self {
            RegBytes::Single(b) => *b as u16,
            RegBytes::Double(w) => *w,
        }
    }

    /// The byte held, or `InvalidOperand` for a word.
    pub fn get_single(&self) -> (r: Result<u8, CpuError>)
        ensures
            match *self {
                RegBytes::Single(b) => r == Ok::<u8, CpuError>(b),
                RegBytes::Double(_) => r == Err::<u8, CpuError>(CpuError::InvalidOperand),
            },
    {
        match self {
            RegBytes::Single(b) => Ok(*b),
            RegBytes::Double(_) => Err(CpuError::InvalidOperand),
        }
    }

    /// The word held, or `InvalidOperand` for a byte.
    pub fn get_double(&self) -> (r: Result<u16, CpuError>)
        ensures
            match *self {
                RegBytes::Double(w) => r == Ok::<u16, CpuError>(w),
                RegBytes::Single(_) => r == Err::<u16, CpuError>(CpuError::InvalidOperand),
            },
    {
        match self {
            RegBytes::Double(w) => Ok(*w),
            RegBytes::Single(_) => Err(CpuError::InvalidOperand),
        }
    }
}

} // verus!
