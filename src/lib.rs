use vstd::prelude::*;

/// Tagged byte-or-word values, widths and the error kind.
pub mod common;
/// The register file: byte registers aliased into pairs, `SP`, `PC`, flags.
pub mod cpu;
/// The register file together with the 64 KiB memory behind the bus.
pub mod motherboard;
/// Operand descriptors, their resolution, and the instruction semantics.
pub mod cmd;

verus! {

} // verus!
