//! Item-attached data components and the record that collects them.
//!
//! A `Components` collection sits under a `components` field of an item
//! compound; each known component is read from its own key inside it, and
//! every component is optional there.

pub mod dyed_color;
pub mod enchantments;
pub mod food;
pub mod map_decorations;

use vstd::prelude::*;

use crate::components::dyed_color::{spec_dyed_color, DyedColor};
use crate::components::enchantments::{spec_enchantments, Enchantments, EnchantmentsV};
use crate::components::food::{decode_food, food_view, spec_food, Food, FoodV};
use crate::components::map_decorations::{spec_kv_icons, MapDecorations, MapIconV};
use crate::error::{error_view, ParseErrorV, SculkParseError};
use crate::nbt::{
    compound_view, lemma_lookup_decreases, lookup, CompoundV, NbtCompound, Value, ValueV,
};
use crate::rarity::{spec_rarity_from_str, Rarity};
use crate::traits::FromCompoundNbt;

verus! {

/// The data components attached to one item, every one of them optional.
#[derive(Debug, PartialEq)]
pub struct Components {
    /// Dyed color. `minecraft:dyed_color`.
    pub dyed_color: Option<DyedColor>,
    /// Enchantment levels. `minecraft:enchantments`.
    pub enchantments: Option<Enchantments>,
    /// Food data. `minecraft:food`.
    pub food: Option<Food>,
    /// Map decorations. `minecraft:map_decorations`.
    pub map_decorations: Option<MapDecorations>,
    /// Rarity. `minecraft:rarity`.
    pub rarity: Option<Rarity>,
}

/// The abstraction of a [`Components`].
pub struct ComponentsV {
    pub dyed_color: Option<DyedColor>,
    pub enchantments: Option<EnchantmentsV>,
    pub food: Option<FoodV>,
    pub map_decorations: Option<Seq<(Seq<char>, MapIconV)>>,
    pub rarity: Option<Rarity>,
}

/// The abstraction of a component collection.
pub open spec fn components_view(x: Components) -> ComponentsV
    decreases x,
{
    ComponentsV {
        dyed_color: x.dyed_color,
        enchantments: match x.enchantments {
            Some(e) => Some(e.model()),
            None => None,
        },
        food: match x.food {
            Some(f) => Some(food_view(f)),
            None => None,
        },
        map_decorations: match x.map_decorations {
            Some(m) => Some(m.model()),
            None => None,
        },
        rarity: x.rarity,
    }
}

/// What reading the dyed-color component yields: its own decoder reports
/// its key's absence as `MissingField`, which means the component is not
/// there; any other failure stands.
pub open spec fn spec_opt_dyed(sub: CompoundV) -> Result<Option<DyedColor>, ParseErrorV> {
    match spec_dyed_color(sub) {
        Ok(d) => Ok(Some(d)),
        Err(ParseErrorV::MissingField(_)) => Ok(None),
        Err(e) => Err(e),
    }
}

/// What reading the enchantments component yields: absent key means no
/// component; the key must hold a compound.
pub open spec fn spec_opt_enchantments(sub: CompoundV) -> Result<Option<EnchantmentsV>, ParseErrorV> {
    match lookup(sub, "minecraft:enchantments"@) {
        None => Ok(None),
        Some(ValueV::Compound(e)) => match spec_enchantments(e) {
            Ok(x) => Ok(Some(x)),
            Err(e) => Err(e),
        },
        Some(_) => Err(ParseErrorV::InvalidField("minecraft:enchantments"@)),
    }
}

/// What reading the map-decorations component yields.
pub open spec fn spec_opt_map_decorations(sub: CompoundV) -> Result<
    Option<Seq<(Seq<char>, MapIconV)>>,
    ParseErrorV,
> {
    match lookup(sub, "minecraft:map_decorations"@) {
        None => Ok(None),
        Some(ValueV::Compound(m)) => match spec_kv_icons(m) {
            Ok(x) => Ok(Some(x)),
            Err(e) => Err(e),
        },
        Some(_) => Err(ParseErrorV::InvalidField("minecraft:map_decorations"@)),
    }
}

/// What reading the rarity component yields: the key must hold one of the
/// catalogued identifier strings.
pub open spec fn spec_opt_rarity(sub: CompoundV) -> Result<Option<Rarity>, ParseErrorV> {
    match lookup(sub, "minecraft:rarity"@) {
        None => Ok(None),
        Some(ValueV::Text(s)) => match spec_rarity_from_str(s) {
            Ok(r) => Ok(Some(r)),
            Err(e) => Err(e),
        },
        Some(_) => Err(ParseErrorV::InvalidField("minecraft:rarity"@)),
    }
}

/// What decoding a component collection yields: the compound must hold a
/// compound under `components` — its absence is `MissingField`, another
/// shape `InvalidField` — and the components are read from it in the
/// order dyed color, enchantments, food, map decorations, rarity, the
/// first failure winning.
pub open spec fn spec_components(c: CompoundV) -> Result<ComponentsV, ParseErrorV>
    decreases c, 0int,
{
    match lookup(c, "components"@) {
        None => Err(ParseErrorV::MissingField("components"@)),
        Some(ValueV::Compound(sub)) => {
            proof {
                lemma_lookup_decreases(c, "components"@);
                assert(decreases_to!(lookup(c, "components"@)->0 => lookup(
                    c,
                    "components"@,
                )->0->Compound_0));
            }
            match spec_opt_dyed(sub) {
                Err(e) => Err(e),
                Ok(dyed_color) => match spec_opt_enchantments(sub) {
                    Err(e) => Err(e),
                    Ok(enchantments) => {
                        let food = match lookup(sub, "minecraft:food"@) {
                            None => Ok(None),
                            Some(ValueV::Compound(fc)) => {
                                proof {
                                    lemma_lookup_decreases(sub, "minecraft:food"@);
                                    assert(decreases_to!(lookup(sub, "minecraft:food"@)->0
                                        => lookup(sub, "minecraft:food"@)->0->Compound_0));
                                }
                                match spec_food(fc) {
                                    Ok(f) => Ok(Some(f)),
                                    Err(e) => Err(e),
                                }
                            },
                            Some(_) => Err(ParseErrorV::InvalidField("minecraft:food"@)),
                        };
                        match food {
                            Err(e) => Err(e),
                            Ok(food) => match spec_opt_map_decorations(sub) {
                                Err(e) => Err(e),
                                Ok(map_decorations) => match spec_opt_rarity(sub) {
                                    Err(e) => Err(e),
                                    Ok(rarity) => Ok(
                                        ComponentsV {
                                            dyed_color,
                                            enchantments,
                                            food,
                                            map_decorations,
                                            rarity,
                                        },
                                    ),
                                },
                            },
                        }
                    },
                },
            }
        },
        Some(_) => Err(ParseErrorV::InvalidField("components"@)),
    }
}

/// What reading an optional component collection yields: absence of the
/// `components` field is no error, merely no collection; any other
/// failure stands.
pub open spec fn spec_optional_components(c: CompoundV) -> Result<Option<ComponentsV>, ParseErrorV>
    decreases c, 1int,
{
    match spec_components(c) {
        Ok(x) => Ok(Some(x)),
        Err(ParseErrorV::MissingField(k)) => if k == "components"@ {
            Ok(None)
        } else {
            Err(ParseErrorV::MissingField(k))
        },
        Err(e) => Err(e),
    }
}

/// Decodes a component collection; see [`spec_components`].
pub(crate) fn decode_components(nbt: &NbtCompound) -> (r: Result<Components, SculkParseError>)
    ensures
        (match r {
            Ok(x) => spec_components(compound_view(*nbt)) == Ok::<_, ParseErrorV>(
                components_view(x),
            ),
            Err(e) => spec_components(compound_view(*nbt)) == Err::<ComponentsV, _>(error_view(e)),
        }),
    decreases compound_view(*nbt), 0int,
{
    let sub: &NbtCompound = match nbt.get("components") {
        None => return Err(SculkParseError::MissingField("components".to_owned())),
        Some(Value::Compound(sub)) => sub,
        Some(_) => return Err(SculkParseError::InvalidField("components".to_owned())),
    };
    proof {
        lemma_lookup_decreases(compound_view(*nbt), "components"@);
        assert(decreases_to!(lookup(compound_view(*nbt), "components"@)->0 => lookup(
            compound_view(*nbt),
            "components"@,
        )->0->Compound_0));
    }
    let dyed_color = match DyedColor::from_compound_nbt(sub) {
        Ok(d) => Some(d),
        Err(SculkParseError::MissingField(_)) => None,
        Err(e) => return Err(e),
    };
    let enchantments = match sub.get("minecraft:enchantments") {
        None => None,
        Some(Value::Compound(ec)) => match Enchantments::from_compound_nbt(ec) {
            Ok(x) => Some(x),
            Err(e) => return Err(e),
        },
        Some(_) => return Err(SculkParseError::InvalidField("minecraft:enchantments".to_owned())),
    };
    let food = match sub.get("minecraft:food") {
        None => None,
        Some(Value::Compound(fc)) => {
            proof {
                lemma_lookup_decreases(compound_view(*sub), "minecraft:food"@);
                assert(decreases_to!(lookup(compound_view(*sub), "minecraft:food"@)->0 => lookup(
                    compound_view(*sub),
                    "minecraft:food"@,
                )->0->Compound_0));
            }
            match decode_food(fc) {
                Ok(f) => Some(f),
                Err(e) => return Err(e),
            }
        },
        Some(_) => return Err(SculkParseError::InvalidField("minecraft:food".to_owned())),
    };
    let map_decorations = match sub.get("minecraft:map_decorations") {
        None => None,
        Some(Value::Compound(mc)) => match MapDecorations::from_compound_nbt(mc) {
            Ok(x) => Some(x),
            Err(e) => return Err(e),
        },
        Some(_) => return Err(
            SculkParseError::InvalidField("minecraft:map_decorations".to_owned()),
        ),
    };
    let rarity = match sub.get("minecraft:rarity") {
        None => None,
        Some(Value::Text(s)) => match Rarity::from_str(s.as_str()) {
            Ok(x) => Some(x),
            Err(e) => return Err(e),
        },
        Some(_) => return Err(SculkParseError::InvalidField("minecraft:rarity".to_owned())),
    };
    Ok(Components { dyed_color, enchantments, food, map_decorations, rarity })
}

impl FromCompoundNbt for Components {
    type V = ComponentsV;

    open spec fn model(self) -> ComponentsV {
        components_view(self)
    }

    open spec fn spec_from_compound(c: CompoundV) -> Result<ComponentsV, ParseErrorV> {
        spec_components(c)
    }

    fn from_compound_nbt(nbt: &NbtCompound) -> (r: Result<Self, SculkParseError>) {
        decode_components(nbt)
    }
}

} // verus!
