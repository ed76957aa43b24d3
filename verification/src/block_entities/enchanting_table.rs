//! The enchanting-table fixture record.

use vstd::prelude::*;

use crate::error::{ParseErrorV, SculkParseError};
use crate::nbt::{compound_view, spec_string, CompoundV, NbtCompound, Value, ValueV};
use crate::traits::{opt_view, FromCompoundNbt};
use crate::util::get_optional_name;

verus! {

/// An enchanting table's stored state.
#[derive(Debug, Clone, PartialEq)]
pub struct EnchantingTable {
    /// Optional name shown in the table's interface. `CustomName`.
    pub custom_name: Option<String>,
}

/// The abstraction of an [`EnchantingTable`].
pub struct EnchantingTableV {
    pub custom_name: Option<Seq<char>>,
}

/// What decoding an enchanting table yields: it succeeds on every
/// compound, with `CustomName` taken when present as a string.
pub open spec fn spec_enchanting_table(c: CompoundV) -> Result<EnchantingTableV, ParseErrorV> {
    Ok(EnchantingTableV { custom_name: spec_string(c, "CustomName"@) })
}

/// The compound an enchanting table is written back as; an absent name
/// writes no key.
pub open spec fn spec_enchanting_table_compound(x: EnchantingTableV) -> CompoundV {
    match x.custom_name {
        Some(s) => seq![("CustomName"@, ValueV::Text(s))],
        None => Seq::empty(),
    }
}

impl EnchantingTable {
    /// Writes the record back as a compound.
    pub fn to_compound(&self) -> (r: NbtCompound)
        ensures
            compound_view(r) == spec_enchanting_table_compound((*self).model()),
    {
        let mut c = NbtCompound::new();
        match &self.custom_name {
            Some(s) => c.push("CustomName", Value::Text(s.clone())),
            None => (),
        }
        proof {
            assert(compound_view(c) =~= spec_enchanting_table_compound((*self).model()));
        }
        c
    }
}

impl FromCompoundNbt for EnchantingTable {
    type V = EnchantingTableV;

    open spec fn model(self) -> EnchantingTableV {
        EnchantingTableV { custom_name: opt_view(self.custom_name) }
    }

    open spec fn spec_from_compound(c: CompoundV) -> Result<EnchantingTableV, ParseErrorV> {
        spec_enchanting_table(c)
    }

    fn from_compound_nbt(nbt: &NbtCompound) -> (r: Result<Self, SculkParseError>) {
        Ok(EnchantingTable { custom_name: get_optional_name(nbt) })
    }
}

} // verus!
