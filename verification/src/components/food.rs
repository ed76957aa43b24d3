//! The food component: an item that can be eaten. Food embeds effects,
//! and may name a replacement item that in turn carries its own component
//! collection, so decoding here recurses back into [`crate::components`].

use vstd::prelude::*;

use crate::components::{components_view, spec_optional_components, Components, ComponentsV};
use crate::error::{ParseErrorV, SculkParseError};
use crate::nbt::{
    compound_view, lemma_lookup_decreases, lookup, spec_bool_or, spec_compound, CompoundV,
    NbtCompound, Value, ValueV,
};
use crate::traits::{models, FromCompoundNbt};
use crate::util::{
    get_bool, get_float_bits, get_float_bits_or, get_int, get_opt_bool, get_owned_string,
    get_t_compound_vec, spec_float_bits_or, spec_opt_bool, spec_req_float_bits, spec_req_int,
    spec_req_string, spec_t_compound_vec,
};

verus! {

/// The seconds eating takes unless the document says otherwise: the bit
/// pattern of single-precision 1.6.
pub const DEFAULT_EAT_SECONDS_BITS: u32 = 0x3FCCCCCD;

/// The chance an effect applies unless the document says otherwise: the
/// bit pattern of single-precision 1.0.
pub const DEFAULT_PROBABILITY_BITS: u32 = 0x3F800000;

/// Details of one status effect applied by eating.
#[derive(Debug, Clone, PartialEq)]
pub struct EffectDetails {
    /// The ID of the effect. `id`.
    pub id: String,
    /// The amplifier, level one being zero; defaults to zero. `amplifier`.
    pub amplifier: Option<i8>,
    /// The duration in ticks; defaults to one tick. `duration`.
    pub duration: Option<i32>,
    /// Whether the effect is shown less intrusively; defaults to `false`.
    /// `ambient`.
    pub ambient: Option<bool>,
    /// Whether the effect produces particles; defaults to `true`.
    /// `show_particles`.
    pub show_particles: Option<bool>,
    /// Whether an icon is shown for the effect; defaults to `true`.
    /// `show_icon`.
    pub show_icon: Option<bool>,
}

/// The abstraction of an [`EffectDetails`].
pub struct EffectDetailsV {
    pub id: Seq<char>,
    pub amplifier: Option<i8>,
    pub duration: Option<i32>,
    pub ambient: Option<bool>,
    pub show_particles: Option<bool>,
    pub show_icon: Option<bool>,
}

/// What decoding effect details yields: only `id` is required; the rest
/// stay absent when missing or of another shape.
pub open spec fn spec_effect_details(c: CompoundV) -> Result<EffectDetailsV, ParseErrorV> {
    match spec_req_string(c, "id"@) {
        Err(e) => Err(e),
        Ok(id) => Ok(
            EffectDetailsV {
                id,
                amplifier: match lookup(c, "amplifier"@) {
                    Some(ValueV::Byte(n)) => Some(n),
                    _ => None,
                },
                duration: match lookup(c, "duration"@) {
                    Some(ValueV::Int(n)) => Some(n),
                    _ => None,
                },
                ambient: spec_opt_bool(c, "ambient"@),
                show_particles: spec_opt_bool(c, "show_particles"@),
                show_icon: spec_opt_bool(c, "show_icon"@),
            },
        ),
    }
}

impl FromCompoundNbt for EffectDetails {
    type V = EffectDetailsV;

    open spec fn model(self) -> EffectDetailsV {
        EffectDetailsV {
            id: self.id@,
            amplifier: self.amplifier,
            duration: self.duration,
            ambient: self.ambient,
            show_particles: self.show_particles,
            show_icon: self.show_icon,
        }
    }

    open spec fn spec_from_compound(c: CompoundV) -> Result<EffectDetailsV, ParseErrorV> {
        spec_effect_details(c)
    }

    fn from_compound_nbt(nbt: &NbtCompound) -> (r: Result<Self, SculkParseError>) {
        let id = match get_owned_string(nbt, "id") {
            Ok(s) => s,
            Err(e) => return Err(e),
        };
        let amplifier = nbt.byte("amplifier");
        let duration = nbt.int32("duration");
        let ambient = get_opt_bool(nbt, "ambient");
        let show_particles = get_opt_bool(nbt, "show_particles");
        let show_icon = get_opt_bool(nbt, "show_icon");
        Ok(EffectDetails { id, amplifier, duration, ambient, show_particles, show_icon })
    }
}

/// One status effect applied by eating, with its chance.
#[derive(Debug, Clone, PartialEq)]
pub struct Effect {
    /// The effect itself. `effect`.
    pub effect: EffectDetails,
    /// The chance the effect applies, a single-precision bit pattern;
    /// defaults to 1.0. `probability`.
    pub probability: u32,
}

/// The abstraction of an [`Effect`].
pub struct EffectV {
    pub effect: EffectDetailsV,
    pub probability: u32,
}

/// What decoding an effect yields: `effect` is a required compound —
/// absence is `MissingField`, another shape `InvalidField` — and
/// `probability` defaults to 1.0.
pub open spec fn spec_effect(c: CompoundV) -> Result<EffectV, ParseErrorV> {
    match lookup(c, "effect"@) {
        None => Err(ParseErrorV::MissingField("effect"@)),
        Some(ValueV::Compound(sub)) => match spec_effect_details(sub) {
            Ok(details) => Ok(
                EffectV {
                    effect: details,
                    probability: spec_float_bits_or(c, "probability"@, DEFAULT_PROBABILITY_BITS),
                },
            ),
            Err(e) => Err(e),
        },
        Some(_) => Err(ParseErrorV::InvalidField("effect"@)),
    }
}

impl FromCompoundNbt for Effect {
    type V = EffectV;

    open spec fn model(self) -> EffectV {
        EffectV { effect: self.effect.model(), probability: self.probability }
    }

    open spec fn spec_from_compound(c: CompoundV) -> Result<EffectV, ParseErrorV> {
        spec_effect(c)
    }

    fn from_compound_nbt(nbt: &NbtCompound) -> (r: Result<Self, SculkParseError>) {
        let details = match nbt.get("effect") {
            None => return Err(SculkParseError::MissingField("effect".to_owned())),
            Some(Value::Compound(sub)) => match EffectDetails::from_compound_nbt(sub) {
                Ok(details) => details,
                Err(e) => return Err(e),
            },
            Some(_) => return Err(SculkParseError::InvalidField("effect".to_owned())),
        };
        let probability = get_float_bits_or(nbt, "probability", DEFAULT_PROBABILITY_BITS);
        Ok(Effect { effect: details, probability })
    }
}

/// The item a food item turns into once eaten.
#[derive(Debug, PartialEq)]
pub struct FoodConvertedItem {
    /// The resource location of the replacement item. `id`.
    pub id: String,
    /// Optional component collection of the replacement item.
    pub components: Option<Box<Components>>,
}

/// The abstraction of a [`FoodConvertedItem`].
pub struct FoodConvertedItemV {
    pub id: Seq<char>,
    pub components: Option<Box<ComponentsV>>,
}

/// The abstraction of a replacement item.
pub open spec fn converted_view(x: FoodConvertedItem) -> FoodConvertedItemV
    decreases x,
{
    FoodConvertedItemV {
        id: x.id@,
        components: match x.components {
            Some(b) => Some(Box::new(components_view(*b))),
            None => None,
        },
    }
}

/// What decoding a replacement item yields: `id` is required; the
/// component collection is present exactly when the compound has a
/// `components` field, and a failure inside it other than its absence
/// propagates unchanged.
pub open spec fn spec_converted(c: CompoundV) -> Result<FoodConvertedItemV, ParseErrorV>
    decreases c, 2int,
{
    match spec_req_string(c, "id"@) {
        Err(e) => Err(e),
        Ok(id) => match spec_optional_components(c) {
            Err(e) => Err(e),
            Ok(oc) => Ok(
                FoodConvertedItemV {
                    id,
                    components: match oc {
                        Some(cv) => Some(Box::new(cv)),
                        None => None,
                    },
                },
            ),
        },
    }
}

/// Decodes a replacement item; see [`spec_converted`].
pub(crate) fn decode_converted(nbt: &NbtCompound) -> (r: Result<FoodConvertedItem, SculkParseError>)
    ensures
        (match r {
            Ok(x) => spec_converted(compound_view(*nbt)) == Ok::<_, ParseErrorV>(converted_view(x)),
            Err(e) => spec_converted(compound_view(*nbt)) == Err::<FoodConvertedItemV, _>(
                crate::error::error_view(e),
            ),
        }),
    decreases compound_view(*nbt), 2int,
{
    let id = match get_owned_string(nbt, "id") {
        Ok(s) => s,
        Err(e) => return Err(e),
    };
    let components = match crate::util::get_optional_components(nbt) {
        Ok(Some(c)) => Some(Box::new(c)),
        Ok(None) => None,
        Err(e) => return Err(e),
    };
    Ok(FoodConvertedItem { id, components })
}

impl FromCompoundNbt for FoodConvertedItem {
    type V = FoodConvertedItemV;

    open spec fn model(self) -> FoodConvertedItemV {
        converted_view(self)
    }

    open spec fn spec_from_compound(c: CompoundV) -> Result<FoodConvertedItemV, ParseErrorV> {
        spec_converted(c)
    }

    fn from_compound_nbt(nbt: &NbtCompound) -> (r: Result<Self, SculkParseError>) {
        decode_converted(nbt)
    }
}

/// An item that can be eaten.
#[derive(Debug, PartialEq)]
pub struct Food {
    /// Food points restored when eaten. `nutrition`.
    pub nutrition: i32,
    /// Saturation restored when eaten, a single-precision bit pattern.
    /// `saturation`.
    pub saturation: u32,
    /// Whether the item can be eaten when not hungry; defaults to `false`.
    /// `can_always_eat`.
    pub can_always_eat: bool,
    /// Seconds taken to eat, a single-precision bit pattern; defaults to
    /// 1.6. `eat_seconds`.
    pub eat_seconds: u32,
    /// The item this one turns into when eaten. `using_converts_to`.
    pub using_converts_to: Option<FoodConvertedItem>,
    /// Effects applied when eaten. `effects`.
    pub effects: Vec<Effect>,
}

/// The abstraction of a [`Food`].
pub struct FoodV {
    pub nutrition: i32,
    pub saturation: u32,
    pub can_always_eat: bool,
    pub eat_seconds: u32,
    pub using_converts_to: Option<FoodConvertedItemV>,
    pub effects: Seq<EffectV>,
}

/// The abstraction of a food record.
pub open spec fn food_view(f: Food) -> FoodV
    decreases f,
{
    FoodV {
        nutrition: f.nutrition,
        saturation: f.saturation,
        can_always_eat: f.can_always_eat,
        eat_seconds: f.eat_seconds,
        using_converts_to: match f.using_converts_to {
            Some(x) => Some(converted_view(x)),
            None => None,
        },
        effects: models(f.effects@),
    }
}

/// What decoding a food component yields: `nutrition` and `saturation`
/// are required and fail in that order; `can_always_eat` and
/// `eat_seconds` keep their defaults when absent; a replacement item is
/// read when `using_converts_to` holds a compound; `effects` decodes as a
/// list of records with an empty default.
pub open spec fn spec_food(c: CompoundV) -> Result<FoodV, ParseErrorV>
    decreases c, 3int,
{
    match spec_req_int(c, "nutrition"@) {
        Err(e) => Err(e),
        Ok(nutrition) => match spec_req_float_bits(c, "saturation"@) {
            Err(e) => Err(e),
            Ok(saturation) => {
                let conv = match spec_compound(c, "using_converts_to"@) {
                    Some(sub) => {
                        proof {
                            lemma_lookup_decreases(c, "using_converts_to"@);
                            assert(decreases_to!(lookup(c, "using_converts_to"@)->0 => lookup(
                                c,
                                "using_converts_to"@,
                            )->0->Compound_0));
                        }
                        match spec_converted(sub) {
                            Ok(x) => Ok(Some(x)),
                            Err(e) => Err(e),
                        }
                    },
                    None => Ok(None),
                };
                match conv {
                    Err(e) => Err(e),
                    Ok(using_converts_to) => match spec_t_compound_vec::<Effect>(c, "effects"@) {
                        Err(e) => Err(e),
                        Ok(effects) => Ok(
                            FoodV {
                                nutrition,
                                saturation,
                                can_always_eat: spec_bool_or(c, "can_always_eat"@, false),
                                eat_seconds: spec_float_bits_or(
                                    c,
                                    "eat_seconds"@,
                                    DEFAULT_EAT_SECONDS_BITS,
                                ),
                                using_converts_to,
                                effects,
                            },
                        ),
                    },
                }
            },
        },
    }
}

/// Decodes a food component; see [`spec_food`].
pub(crate) fn decode_food(nbt: &NbtCompound) -> (r: Result<Food, SculkParseError>)
    ensures
        (match r {
            Ok(x) => spec_food(compound_view(*nbt)) == Ok::<_, ParseErrorV>(food_view(x)),
            Err(e) => spec_food(compound_view(*nbt)) == Err::<FoodV, _>(
                crate::error::error_view(e),
            ),
        }),
    decreases compound_view(*nbt), 3int,
{
    let nutrition = match get_int(nbt, "nutrition") {
        Ok(n) => n,
        Err(e) => return Err(e),
    };
    let saturation = match get_float_bits(nbt, "saturation") {
        Ok(bits) => bits,
        Err(e) => return Err(e),
    };
    let can_always_eat = get_bool(nbt, "can_always_eat");
    let eat_seconds = get_float_bits_or(nbt, "eat_seconds", DEFAULT_EAT_SECONDS_BITS);
    let using_converts_to = match nbt.compound("using_converts_to") {
        Some(sub) => {
            proof {
                lemma_lookup_decreases(compound_view(*nbt), "using_converts_to"@);
                assert(decreases_to!(lookup(compound_view(*nbt), "using_converts_to"@)->0 => lookup(
                    compound_view(*nbt),
                    "using_converts_to"@,
                )->0->Compound_0));
            }
            match decode_converted(sub) {
                Ok(x) => Some(x),
                Err(e) => return Err(e),
            }
        },
        None => None,
    };
    let effects = match get_t_compound_vec::<Effect>(nbt, "effects") {
        Ok(xs) => xs,
        Err(e) => return Err(e),
    };
    Ok(Food { nutrition, saturation, can_always_eat, eat_seconds, using_converts_to, effects })
}

impl FromCompoundNbt for Food {
    type V = FoodV;

    open spec fn model(self) -> FoodV {
        food_view(self)
    }

    open spec fn spec_from_compound(c: CompoundV) -> Result<FoodV, ParseErrorV> {
        spec_food(c)
    }

    fn from_compound_nbt(nbt: &NbtCompound) -> (r: Result<Self, SculkParseError>) {
        decode_food(nbt)
    }
}

} // verus!
