//! A thin wrapper over a basic-block index of the compilation unit, consumed
//! by the value layer for block queries and incoming-edge registration.

use vstd::prelude::*;

use crate::unit::IrUnit;

verus! {

/// One basic block of a function, referenced by its index in the owning
/// unit's block table.
#[derive(Clone, Copy, Debug, PartialEq, Eq, Structural)]
pub struct BasicBlock {
    pub basic_block: usize,
}

impl BasicBlock {
    /// The wrapper is meaningful only while its index denotes a block of the
    /// unit it came from.
    pub open spec fn wf(self, unit: IrUnit) -> bool {
        unit.valid_block(self.basic_block)
    }

    /// Wraps a block index. The caller vouches that the index came from the
    /// unit's block table.
    pub fn new(unit: &IrUnit, basic_block: usize) -> (b: BasicBlock)
        requires
            unit.valid_block(basic_block),
        ensures
            b.basic_block == basic_block,
            b.wf(*unit),
    {
        BasicBlock { basic_block }
    }

    /// Whether this block ends in a terminator instruction.
    pub fn is_terminated(&self, unit: &IrUnit) -> (r: bool)
        requires
            self.wf(*unit),
        ensures
            r == unit.block_terminated(self.basic_block),
    {
        unit.blocks[self.basic_block].terminated
    }
}

} // verus!
