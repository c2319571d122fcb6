use vstd::prelude::*;

verus! {

/// The core's single failure kind: the byte fetched at the program counter
/// does not decode to any instruction.  It carries the offending byte.
#[derive(Debug, Clone, Copy, PartialEq, Eq, Structural)]
pub enum Error6502 {
    UnknownOpcode(u8),
}

} // verus!
