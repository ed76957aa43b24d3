//! Enchantments on an item: a generic map of enchantment levels, written
//! on documents either flat or wrapped under a `levels` sub-key.

use vstd::prelude::*;

use crate::error::{ParseErrorV, SculkParseError};
use crate::kv::{spec_kv_ints, KVPair};
use crate::nbt::{
    compound_view, lemma_lookup_remove, lookup, remove_key, spec_bool_or, spec_byte,
    spec_compound, CompoundV, NbtCompound, ValueV,
};
use crate::traits::FromCompoundNbt;
use crate::util::get_bool_or_true;

verus! {

/// Enchantments on an item.
#[derive(Debug, Clone, PartialEq)]
pub struct Enchantments {
    /// Levels of the enchantments on this item, keyed by enchantment id.
    pub levels: KVPair<i32>,
    /// Whether the enchantments are shown on the item's tooltip; defaults
    /// to `true`.
    pub show_in_tooltip: bool,
}

/// The abstraction of an [`Enchantments`].
pub struct EnchantmentsV {
    pub levels: Seq<(Seq<char>, i32)>,
    pub show_in_tooltip: bool,
}

/// What decoding enchantments yields. When the compound holds a compound
/// under `levels`, that sub-compound's entries are the map and the
/// `show_in_tooltip` byte is read beside it (wrapped mode); otherwise the
/// compound's own entries are the map and the flag keeps its default
/// (flat mode). The mode is decided once, by the presence of the sub-key.
pub open spec fn spec_enchantments(c: CompoundV) -> Result<EnchantmentsV, ParseErrorV> {
    match spec_compound(c, "levels"@) {
        Some(levels) => match spec_kv_ints(levels) {
            Ok(kv) => Ok(
                EnchantmentsV { levels: kv, show_in_tooltip: spec_bool_or(c, "show_in_tooltip"@, true) },
            ),
            Err(e) => Err(e),
        },
        None => match spec_kv_ints(c) {
            Ok(kv) => Ok(EnchantmentsV { levels: kv, show_in_tooltip: true }),
            Err(e) => Err(e),
        },
    }
}

/// Flat-mode entries and the same entries wrapped under `levels` decode
/// to the same record: the same map, with the tooltip flag at its default
/// either way.
pub proof fn lemma_enchantments_modes(flat: CompoundV, wrapped: CompoundV)
    requires
        spec_compound(flat, "levels"@) is None,
        lookup(wrapped, "levels"@) == Some(ValueV::Compound(flat)),
        spec_byte(wrapped, "show_in_tooltip"@) is None,
    ensures
        spec_enchantments(wrapped) == spec_enchantments(flat),
{
}

/// Removing the optional tooltip flag from a wrapped-mode compound
/// decodes the same record as supplying its documented default, one.
pub proof fn lemma_enchantments_tooltip_default(c: CompoundV)
    requires
        lookup(c, "levels"@) matches Some(v) && v is Compound,
        lookup(c, "show_in_tooltip"@) == Some(ValueV::Byte(1)),
    ensures
        spec_enchantments(remove_key(c, "show_in_tooltip"@)) == spec_enchantments(c),
{
    reveal_strlit("levels");
    reveal_strlit("show_in_tooltip");
    assert("levels"@.len() == 6);
    assert("show_in_tooltip"@.len() == 15);
    lemma_lookup_remove(c, "show_in_tooltip"@, "levels"@);
}

impl FromCompoundNbt for Enchantments {
    type V = EnchantmentsV;

    open spec fn model(self) -> EnchantmentsV {
        EnchantmentsV { levels: self.levels.model(), show_in_tooltip: self.show_in_tooltip }
    }

    open spec fn spec_from_compound(c: CompoundV) -> Result<EnchantmentsV, ParseErrorV> {
        spec_enchantments(c)
    }

    fn from_compound_nbt(nbt: &NbtCompound) -> (r: Result<Self, SculkParseError>) {
        match nbt.compound("levels") {
            Some(levels) => {
                let levels = match KVPair::<i32>::from_compound_nbt(levels) {
                    Ok(kv) => kv,
                    Err(e) => return Err(e),
                };
                let show_in_tooltip = get_bool_or_true(nbt, "show_in_tooltip");
                Ok(Enchantments { levels, show_in_tooltip })
            },
            None => {
                let levels = match KVPair::<i32>::from_compound_nbt(nbt) {
                    Ok(kv) => kv,
                    Err(e) => return Err(e),
                };
                Ok(Enchantments { levels, show_in_tooltip: true })
            },
        }
    }
}

} // verus!
