//! The brushable-block fixture record: a marker-only record today, kept as
//! an explicit type so fields can be added without changing callers.

use vstd::prelude::*;

use crate::error::{ParseErrorV, SculkParseError};
use crate::nbt::{compound_view, CompoundV, NbtCompound};
use crate::traits::FromCompoundNbt;

verus! {

/// A brushable block's stored state; no fields are read today.
#[derive(Debug, Clone, PartialEq, Eq, Structural)]
pub struct BrushableBlock {}

/// What decoding a brushable block yields: it succeeds on every compound.
pub open spec fn spec_brushable_block(c: CompoundV) -> Result<BrushableBlock, ParseErrorV> {
    Ok(BrushableBlock {  })
}

/// The compound a brushable block is written back as: an empty one.
pub open spec fn spec_brushable_block_compound(x: BrushableBlock) -> CompoundV {
    Seq::empty()
}

impl BrushableBlock {
    /// Writes the record back as a compound.
    pub fn to_compound(&self) -> (r: NbtCompound)
        ensures
            compound_view(r) == spec_brushable_block_compound(*self),
    {
        NbtCompound::new()
    }
}

impl FromCompoundNbt for BrushableBlock {
    type V = BrushableBlock;

    open spec fn model(self) -> BrushableBlock {
        self
    }

    open spec fn spec_from_compound(c: CompoundV) -> Result<BrushableBlock, ParseErrorV> {
        spec_brushable_block(c)
    }

    fn from_compound_nbt(nbt: &NbtCompound) -> (r: Result<Self, SculkParseError>) {
        Ok(BrushableBlock {  })
    }
}

} // verus!
