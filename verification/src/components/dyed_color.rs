//! The dyed color component, a shape-ambiguous field: the color appears on
//! documents either as a bare integer or as a compound carrying the same
//! integer under `rgb` beside a tooltip flag. Both shapes decode to the
//! one normalized record here.

use vstd::prelude::*;

use crate::error::{ParseErrorV, SculkParseError};
use crate::nbt::{
    compound_view, lookup, spec_bool_or, CompoundV, NbtCompound, Value, ValueV,
};
use crate::traits::FromCompoundNbt;
use crate::util::get_bool_or_true;

verus! {

/// A dyed color, normalized from either on-document shape.
#[derive(Debug, Clone, Copy, PartialEq, Eq, Structural)]
pub struct DyedColor {
    /// The color as a packed red-green-blue integer.
    pub rgb: i32,
    /// Whether the color is shown in the item's tooltip; the bare-integer
    /// shape fixes this to its default, `true`.
    pub show_in_tooltip: bool,
}

/// What decoding a dyed color yields. The scalar shape is tried first: a
/// bare integer under `minecraft:dyed_color` is the color with the
/// tooltip flag at its default. A compound under that key must carry the
/// integer under `rgb` — its absence, or another shape there, is
/// `InvalidField`, never a fallback to the scalar reading. An absent key
/// is `MissingField`; any other shape is `InvalidField`.
pub open spec fn spec_dyed_color(c: CompoundV) -> Result<DyedColor, ParseErrorV> {
    match lookup(c, "minecraft:dyed_color"@) {
        None => Err(ParseErrorV::MissingField("minecraft:dyed_color"@)),
        Some(ValueV::Int(rgb)) => Ok(DyedColor { rgb, show_in_tooltip: true }),
        Some(ValueV::Compound(sub)) => match lookup(sub, "rgb"@) {
            Some(ValueV::Int(rgb)) => Ok(
                DyedColor { rgb, show_in_tooltip: spec_bool_or(sub, "show_in_tooltip"@, true) },
            ),
            _ => Err(ParseErrorV::InvalidField("minecraft:dyed_color"@)),
        },
        Some(_) => Err(ParseErrorV::InvalidField("minecraft:dyed_color"@)),
    }
}

/// The bare-scalar shape and the compound shape with the same color and
/// the auxiliary flag left to its default decode to equal normalized
/// records.
pub proof fn lemma_dyed_color_shapes(c1: CompoundV, c2: CompoundV, sub: CompoundV, rgb: i32)
    requires
        lookup(c1, "minecraft:dyed_color"@) == Some(ValueV::Int(rgb)),
        lookup(c2, "minecraft:dyed_color"@) == Some(ValueV::Compound(sub)),
        lookup(sub, "rgb"@) == Some(ValueV::Int(rgb)),
        lookup(sub, "show_in_tooltip"@) is None,
    ensures
        spec_dyed_color(c1) == spec_dyed_color(c2),
        spec_dyed_color(c1) == Ok::<DyedColor, ParseErrorV>(
            DyedColor { rgb, show_in_tooltip: true },
        ),
{
}

impl FromCompoundNbt for DyedColor {
    type V = DyedColor;

    open spec fn model(self) -> DyedColor {
        self
    }

    open spec fn spec_from_compound(c: CompoundV) -> Result<DyedColor, ParseErrorV> {
        spec_dyed_color(c)
    }

    fn from_compound_nbt(nbt: &NbtCompound) -> (r: Result<Self, SculkParseError>) {
        match nbt.get("minecraft:dyed_color") {
            None => Err(SculkParseError::MissingField("minecraft:dyed_color".to_owned())),
            Some(Value::Int(rgb)) => Ok(DyedColor { rgb: *rgb, show_in_tooltip: true }),
            Some(Value::Compound(sub)) => {
                match sub.get("rgb") {
                    Some(Value::Int(rgb)) => {
                        let show_in_tooltip = get_bool_or_true(sub, "show_in_tooltip");
                        Ok(DyedColor { rgb: *rgb, show_in_tooltip })
                    },
                    _ => Err(SculkParseError::InvalidField("minecraft:dyed_color".to_owned())),
                }
            },
            Some(_) => Err(SculkParseError::InvalidField("minecraft:dyed_color".to_owned())),
        }
    }
}

} // verus!
