//! The mob-spawner fixture record: the deepest aggregate in the catalogue.
//! A spawner embeds spawn data, which embeds an entity node, spawn rules
//! and equipment; the potential-spawn list embeds spawn data again.

use vstd::prelude::*;

use crate::error::{ParseErrorV, SculkParseError};
use crate::nbt::{
    compound_view, lookup, spec_compound, spec_float_bits, value_view, CompoundV, NbtCompound,
    Value, ValueV,
};
use crate::traits::{models, FromCompoundNbt};
use crate::util::{get_int, get_owned_string, get_short, spec_req_int, spec_req_short, spec_req_string};

verus! {

/// Overrides of the light checks made before an entity spawns.
#[derive(Debug, Clone, Copy, PartialEq, Eq, Structural)]
pub struct SpawnRules {
    /// Overrides the block light check. `block_light_limit`.
    pub block_light_limit: i32,
    /// Overrides the sky light check. `sky_light_limit`.
    pub sky_light_limit: i32,
}

/// What decoding spawn rules yields: both limits are required four-byte
/// integers and fail in that order.
pub open spec fn spec_spawn_rules(c: CompoundV) -> Result<SpawnRules, ParseErrorV> {
    match spec_req_int(c, "block_light_limit"@) {
        Err(e) => Err(e),
        Ok(block_light_limit) => match spec_req_int(c, "sky_light_limit"@) {
            Err(e) => Err(e),
            Ok(sky_light_limit) => Ok(SpawnRules { block_light_limit, sky_light_limit }),
        },
    }
}

impl FromCompoundNbt for SpawnRules {
    type V = SpawnRules;

    open spec fn model(self) -> SpawnRules {
        self
    }

    open spec fn spec_from_compound(c: CompoundV) -> Result<SpawnRules, ParseErrorV> {
        spec_spawn_rules(c)
    }

    fn from_compound_nbt(nbt: &NbtCompound) -> (r: Result<Self, SculkParseError>) {
        let block_light_limit = match get_int(nbt, "block_light_limit") {
            Ok(n) => n,
            Err(e) => return Err(e),
        };
        let sky_light_limit = match get_int(nbt, "sky_light_limit") {
            Ok(n) => n,
            Err(e) => return Err(e),
        };
        Ok(SpawnRules { block_light_limit, sky_light_limit })
    }
}

/// Per-slot equipment drop chances, each a single-precision bit pattern.
#[derive(Debug, Clone, Copy, PartialEq, Eq, Structural)]
pub struct DropChances {
    /// Drop chance of the boots. `feet`.
    pub feet: Option<u32>,
    /// Drop chance of the leggings. `legs`.
    pub legs: Option<u32>,
    /// Drop chance of the chestplate. `chest`.
    pub chest: Option<u32>,
    /// Drop chance of the helmet. `head`.
    pub head: Option<u32>,
    /// Drop chance of the body armor. `body`.
    pub body: Option<u32>,
    /// Drop chance of the main-hand weapon. `mainhand`.
    pub mainhand: Option<u32>,
    /// Drop chance of the off-hand weapon. `offhand`.
    pub offhand: Option<u32>,
}

/// What decoding per-slot drop chances yields: every slot is optional.
pub open spec fn spec_drop_chances(c: CompoundV) -> DropChances {
    DropChances {
        feet: spec_float_bits(c, "feet"@),
        legs: spec_float_bits(c, "legs"@),
        chest: spec_float_bits(c, "chest"@),
        head: spec_float_bits(c, "head"@),
        body: spec_float_bits(c, "body"@),
        mainhand: spec_float_bits(c, "mainhand"@),
        offhand: spec_float_bits(c, "offhand"@),
    }
}

/// Equipment drop chances: either one chance for every slot — the bare
/// scalar shape — or a compound of per-slot chances.
#[derive(Debug, Clone, Copy, PartialEq, Eq, Structural)]
pub enum DropChanceType {
    /// One chance for every slot, a single-precision bit pattern.
    All(u32),
    /// Per-slot chances.
    Indiviual(DropChances),
}

/// Equipment the spawned entity wears.
#[derive(Debug, Clone, PartialEq)]
pub struct Equipment {
    /// Resource location of the loot table generating the equipment.
    /// `loot_table`.
    pub loot_table: String,
    /// Drop chances, as one chance or per slot. `slot_drop_chances`.
    pub slot_drop_chances: Option<DropChanceType>,
}

/// The abstraction of an [`Equipment`].
pub struct EquipmentV {
    pub loot_table: Seq<char>,
    pub slot_drop_chances: Option<DropChanceType>,
}

/// What decoding equipment yields: `loot_table` is required;
/// `slot_drop_chances` takes the bare-scalar shape as a chance for every
/// slot, the compound shape as per-slot chances, absence as no chances,
/// and any other shape is `InvalidField`.
pub open spec fn spec_equipment(c: CompoundV) -> Result<EquipmentV, ParseErrorV> {
    match spec_req_string(c, "loot_table"@) {
        Err(e) => Err(e),
        Ok(loot_table) => match lookup(c, "slot_drop_chances"@) {
            None => Ok(EquipmentV { loot_table, slot_drop_chances: None }),
            Some(ValueV::Float(bits)) => Ok(
                EquipmentV { loot_table, slot_drop_chances: Some(DropChanceType::All(bits)) },
            ),
            Some(ValueV::Compound(sub)) => Ok(
                EquipmentV {
                    loot_table,
                    slot_drop_chances: Some(DropChanceType::Indiviual(spec_drop_chances(sub))),
                },
            ),
            Some(_) => Err(ParseErrorV::InvalidField("slot_drop_chances"@)),
        },
    }
}

impl FromCompoundNbt for Equipment {
    type V = EquipmentV;

    open spec fn model(self) -> EquipmentV {
        EquipmentV { loot_table: self.loot_table@, slot_drop_chances: self.slot_drop_chances }
    }

    open spec fn spec_from_compound(c: CompoundV) -> Result<EquipmentV, ParseErrorV> {
        spec_equipment(c)
    }

    fn from_compound_nbt(nbt: &NbtCompound) -> (r: Result<Self, SculkParseError>) {
        let loot_table = match get_owned_string(nbt, "loot_table") {
            Ok(s) => s,
            Err(e) => return Err(e),
        };
        let slot_drop_chances = match nbt.get("slot_drop_chances") {
            None => None,
            Some(Value::Float(bits)) => Some(DropChanceType::All(*bits)),
            Some(Value::Compound(sub)) => Some(
                DropChanceType::Indiviual(
                    DropChances {
                        feet: sub.float_bits("feet"),
                        legs: sub.float_bits("legs"),
                        chest: sub.float_bits("chest"),
                        head: sub.float_bits("head"),
                        body: sub.float_bits("body"),
                        mainhand: sub.float_bits("mainhand"),
                        offhand: sub.float_bits("offhand"),
                    },
                ),
            ),
            Some(_) => return Err(SculkParseError::InvalidField("slot_drop_chances".to_owned())),
        };
        Ok(Equipment { loot_table, slot_drop_chances })
    }
}

/// The data copied onto the next spawned entity.
#[derive(Debug, PartialEq)]
pub struct SpawnData {
    /// The entity to spawn, with its id. Entity records are outside this
    /// catalogue, so the node is carried unchanged, as read. `entity`.
    pub entity: Value,
    /// Overrides of spawning requirements. `custom_spawn_rules`.
    pub custom_spawn_rules: SpawnRules,
    /// Equipment the entity will wear. `equipment`.
    pub equipment: Option<Equipment>,
}

/// The abstraction of a [`SpawnData`].
pub struct SpawnDataV {
    pub entity: ValueV,
    pub custom_spawn_rules: SpawnRules,
    pub equipment: Option<EquipmentV>,
}

/// The abstraction of spawn data.
pub open spec fn spawn_data_view(d: SpawnData) -> SpawnDataV {
    SpawnDataV {
        entity: value_view(d.entity),
        custom_spawn_rules: d.custom_spawn_rules,
        equipment: match d.equipment {
            Some(e) => Some(e.model()),
            None => None,
        },
    }
}

/// What decoding spawn data yields: `entity` is required and carried
/// unchanged; `custom_spawn_rules` must be a compound that decodes;
/// `equipment` is read when it holds a compound.
pub open spec fn spec_spawn_data(c: CompoundV) -> Result<SpawnDataV, ParseErrorV> {
    match lookup(c, "entity"@) {
        None => Err(ParseErrorV::MissingField("entity"@)),
        Some(entity) => match lookup(c, "custom_spawn_rules"@) {
            None => Err(ParseErrorV::MissingField("custom_spawn_rules"@)),
            Some(ValueV::Compound(rules)) => match spec_spawn_rules(rules) {
                Err(e) => Err(e),
                Ok(custom_spawn_rules) => match spec_compound(c, "equipment"@) {
                    None => Ok(SpawnDataV { entity, custom_spawn_rules, equipment: None }),
                    Some(eq) => match spec_equipment(eq) {
                        Err(e) => Err(e),
                        Ok(equipment) => Ok(
                            SpawnDataV { entity, custom_spawn_rules, equipment: Some(equipment) },
                        ),
                    },
                },
            },
            Some(_) => Err(ParseErrorV::InvalidField("custom_spawn_rules"@)),
        },
    }
}

impl FromCompoundNbt for SpawnData {
    type V = SpawnDataV;

    open spec fn model(self) -> SpawnDataV {
        spawn_data_view(self)
    }

    open spec fn spec_from_compound(c: CompoundV) -> Result<SpawnDataV, ParseErrorV> {
        spec_spawn_data(c)
    }

    fn from_compound_nbt(nbt: &NbtCompound) -> (r: Result<Self, SculkParseError>) {
        let entity = match nbt.get("entity") {
            None => return Err(SculkParseError::MissingField("entity".to_owned())),
            Some(v) => v.duplicate(),
        };
        let custom_spawn_rules = match nbt.get("custom_spawn_rules") {
            None => return Err(SculkParseError::MissingField("custom_spawn_rules".to_owned())),
            Some(Value::Compound(rules)) => match SpawnRules::from_compound_nbt(rules) {
                Ok(x) => x,
                Err(e) => return Err(e),
            },
            Some(_) => return Err(SculkParseError::InvalidField("custom_spawn_rules".to_owned())),
        };
        let equipment = match nbt.compound("equipment") {
            None => None,
            Some(eq) => match Equipment::from_compound_nbt(eq) {
                Ok(x) => Some(x),
                Err(e) => return Err(e),
            },
        };
        Ok(SpawnData { entity, custom_spawn_rules, equipment })
    }
}

/// One possible future spawn, weighted against its siblings.
#[derive(Debug, PartialEq)]
pub struct PotentialSpawn {
    /// The chance this spawn is picked, relative to the other weights.
    /// `weight`.
    pub weight: i32,
    /// The spawn data used when it is picked. `data`.
    pub data: SpawnData,
}

/// The abstraction of a [`PotentialSpawn`].
pub struct PotentialSpawnV {
    pub weight: i32,
    pub data: SpawnDataV,
}

/// What decoding a potential spawn yields: `weight` and `data` are both
/// required and fail in that order.
pub open spec fn spec_potential_spawn(c: CompoundV) -> Result<PotentialSpawnV, ParseErrorV> {
    match spec_req_int(c, "weight"@) {
        Err(e) => Err(e),
        Ok(weight) => match lookup(c, "data"@) {
            None => Err(ParseErrorV::MissingField("data"@)),
            Some(ValueV::Compound(sub)) => match spec_spawn_data(sub) {
                Err(e) => Err(e),
                Ok(data) => Ok(PotentialSpawnV { weight, data }),
            },
            Some(_) => Err(ParseErrorV::InvalidField("data"@)),
        },
    }
}

impl FromCompoundNbt for PotentialSpawn {
    type V = PotentialSpawnV;

    open spec fn model(self) -> PotentialSpawnV {
        PotentialSpawnV { weight: self.weight, data: spawn_data_view(self.data) }
    }

    open spec fn spec_from_compound(c: CompoundV) -> Result<PotentialSpawnV, ParseErrorV> {
        spec_potential_spawn(c)
    }

    fn from_compound_nbt(nbt: &NbtCompound) -> (r: Result<Self, SculkParseError>) {
        let weight = match get_int(nbt, "weight") {
            Ok(n) => n,
            Err(e) => return Err(e),
        };
        let data = match nbt.get("data") {
            None => return Err(SculkParseError::MissingField("data".to_owned())),
            Some(Value::Compound(sub)) => match SpawnData::from_compound_nbt(sub) {
                Ok(x) => x,
                Err(e) => return Err(e),
            },
            Some(_) => return Err(SculkParseError::InvalidField("data".to_owned())),
        };
        Ok(PotentialSpawn { weight, data })
    }
}

/// A mob spawner's stored state.
#[derive(Debug, PartialEq)]
pub struct MobSpawner {
    /// Ticks until the next spawn. `Delay`.
    pub delay: i16,
    /// Cap on nearby entities of the spawned kind. `MaxNearbyEntities`.
    pub max_nearby_entities: i16,
    /// The maximum random delay for the next spawn. `MaxSpawnDelay`.
    pub max_spawn_delay: i16,
    /// The minimum random delay for the next spawn. `MinSpawnDelay`.
    pub min_spawn_delay: i16,
    /// Radius of the player sphere that keeps the spawner active.
    /// `RequiredPlayerRange`.
    pub required_player_range: i16,
    /// How many mobs each attempt tries to spawn. `SpawnCount`.
    pub spawn_count: i16,
    /// The data copied onto the next spawned entity. `SpawnData`.
    pub spawn_data: SpawnData,
    /// Optional list of possible spawns. `SpawnPotentials`.
    pub spawn_potentials: Option<Vec<PotentialSpawn>>,
    /// The radius of the square the spawner places mobs in. `SpawnRange`.
    pub spawn_range: i16,
}

/// The abstraction of a [`MobSpawner`].
pub struct MobSpawnerV {
    pub delay: i16,
    pub max_nearby_entities: i16,
    pub max_spawn_delay: i16,
    pub min_spawn_delay: i16,
    pub required_player_range: i16,
    pub spawn_count: i16,
    pub spawn_data: SpawnDataV,
    pub spawn_potentials: Option<Seq<PotentialSpawnV>>,
    pub spawn_range: i16,
}

/// What decoding a mob spawner yields: the six two-byte counters, then
/// `SpawnData` as a required compound, then the optional
/// `SpawnPotentials` list, then `SpawnRange`, failing fast in that order.
pub open spec fn spec_mob_spawner(c: CompoundV) -> Result<MobSpawnerV, ParseErrorV> {
    match spec_req_short(c, "Delay"@) {
        Err(e) => Err(e),
        Ok(delay) => match spec_req_short(c, "MaxNearbyEntities"@) {
            Err(e) => Err(e),
            Ok(max_nearby_entities) => match spec_req_short(c, "MaxSpawnDelay"@) {
                Err(e) => Err(e),
                Ok(max_spawn_delay) => match spec_req_short(c, "MinSpawnDelay"@) {
                    Err(e) => Err(e),
                    Ok(min_spawn_delay) => match spec_req_short(c, "RequiredPlayerRange"@) {
                        Err(e) => Err(e),
                        Ok(required_player_range) => match spec_req_short(c, "SpawnCount"@) {
                            Err(e) => Err(e),
                            Ok(spawn_count) => match lookup(c, "SpawnData"@) {
                                None => Err(ParseErrorV::MissingField("SpawnData"@)),
                                Some(ValueV::Compound(sd)) => match spec_spawn_data(sd) {
                                    Err(e) => Err(e),
                                    Ok(spawn_data) => {
                                        let pot = match lookup(c, "SpawnPotentials"@) {
                                            None => Ok(None),
                                            Some(ValueV::List(vs)) => match spec_compound_items_ps(
                                                vs,
                                            ) {
                                                Ok(ps) => Ok(Some(ps)),
                                                Err(e) => Err(e),
                                            },
                                            Some(_) => Err(
                                                ParseErrorV::InvalidField("SpawnPotentials"@),
                                            ),
                                        };
                                        match pot {
                                            Err(e) => Err(e),
                                            Ok(spawn_potentials) => match spec_req_short(
                                                c,
                                                "SpawnRange"@,
                                            ) {
                                                Err(e) => Err(e),
                                                Ok(spawn_range) => Ok(
                                                    MobSpawnerV {
                                                        delay,
                                                        max_nearby_entities,
                                                        max_spawn_delay,
                                                        min_spawn_delay,
                                                        required_player_range,
                                                        spawn_count,
                                                        spawn_data,
                                                        spawn_potentials,
                                                        spawn_range,
                                                    },
                                                ),
                                            },
                                        }
                                    },
                                },
                                Some(_) => Err(ParseErrorV::InvalidField("SpawnData"@)),
                            },
                        },
                    },
                },
            },
        },
    }
}

/// The potential-spawn list decoded item by item; see
/// [`crate::util::spec_compound_items`].
pub open spec fn spec_compound_items_ps(vs: Seq<ValueV>) -> Result<
    Seq<PotentialSpawnV>,
    ParseErrorV,
> {
    crate::util::spec_compound_items::<PotentialSpawn>(vs, "SpawnPotentials"@)
}

/// An optional single-precision field as zero or one compound entries.
pub open spec fn spec_opt_float_entry(key: Seq<char>, o: Option<u32>) -> CompoundV {
    match o {
        Some(bits) => seq![(key, ValueV::Float(bits))],
        None => Seq::empty(),
    }
}

/// The compound per-slot drop chances are written back as; absent slots
/// write no key.
pub open spec fn spec_drop_chances_compound(d: DropChances) -> CompoundV {
    spec_opt_float_entry("feet"@, d.feet) + spec_opt_float_entry("legs"@, d.legs)
        + spec_opt_float_entry("chest"@, d.chest) + spec_opt_float_entry("head"@, d.head)
        + spec_opt_float_entry("body"@, d.body) + spec_opt_float_entry("mainhand"@, d.mainhand)
        + spec_opt_float_entry("offhand"@, d.offhand)
}

impl DropChances {
    /// Writes the chances back as a compound.
    pub fn to_compound(&self) -> (r: NbtCompound)
        ensures
            compound_view(r) == spec_drop_chances_compound(*self),
    {
        let mut c = NbtCompound::new();
        match self.feet {
            Some(bits) => c.push("feet", Value::Float(bits)),
            None => (),
        }
        proof {
            assert(compound_view(c) =~= spec_opt_float_entry("feet"@, self.feet));
        }
        match self.legs {
            Some(bits) => c.push("legs", Value::Float(bits)),
            None => (),
        }
        proof {
            assert(compound_view(c) =~= spec_opt_float_entry("feet"@, self.feet)
                + spec_opt_float_entry("legs"@, self.legs));
        }
        match self.chest {
            Some(bits) => c.push("chest", Value::Float(bits)),
            None => (),
        }
        proof {
            assert(compound_view(c) =~= spec_opt_float_entry("feet"@, self.feet)
                + spec_opt_float_entry("legs"@, self.legs) + spec_opt_float_entry(
                "chest"@,
                self.chest,
            ));
        }
        match self.head {
            Some(bits) => c.push("head", Value::Float(bits)),
            None => (),
        }
        proof {
            assert(compound_view(c) =~= spec_opt_float_entry("feet"@, self.feet)
                + spec_opt_float_entry("legs"@, self.legs) + spec_opt_float_entry(
                "chest"@,
                self.chest,
            ) + spec_opt_float_entry("head"@, self.head));
        }
        match self.body {
            Some(bits) => c.push("body", Value::Float(bits)),
            None => (),
        }
        proof {
            assert(compound_view(c) =~= spec_opt_float_entry("feet"@, self.feet)
                + spec_opt_float_entry("legs"@, self.legs) + spec_opt_float_entry(
                "chest"@,
                self.chest,
            ) + spec_opt_float_entry("head"@, self.head) + spec_opt_float_entry(
                "body"@,
                self.body,
            ));
        }
        match self.mainhand {
            Some(bits) => c.push("mainhand", Value::Float(bits)),
            None => (),
        }
        proof {
            assert(compound_view(c) =~= spec_opt_float_entry("feet"@, self.feet)
                + spec_opt_float_entry("legs"@, self.legs) + spec_opt_float_entry(
                "chest"@,
                self.chest,
            ) + spec_opt_float_entry("head"@, self.head) + spec_opt_float_entry(
                "body"@,
                self.body,
            ) + spec_opt_float_entry("mainhand"@, self.mainhand));
        }
        match self.offhand {
            Some(bits) => c.push("offhand", Value::Float(bits)),
            None => (),
        }
        proof {
            assert(compound_view(c) =~= spec_drop_chances_compound(*self));
        }
        c
    }
}

/// The compound equipment is written back as.
pub open spec fn spec_equipment_compound(e: EquipmentV) -> CompoundV {
    seq![("loot_table"@, ValueV::Text(e.loot_table))] + (match e.slot_drop_chances {
        None => Seq::empty(),
        Some(DropChanceType::All(bits)) => seq![("slot_drop_chances"@, ValueV::Float(bits))],
        Some(DropChanceType::Indiviual(d)) => seq![
            ("slot_drop_chances"@, ValueV::Compound(spec_drop_chances_compound(d))),
        ],
    })
}

impl Equipment {
    /// Writes the record back as a compound.
    pub fn to_compound(&self) -> (r: NbtCompound)
        ensures
            compound_view(r) == spec_equipment_compound((*self).model()),
    {
        let mut c = NbtCompound::new();
        c.push("loot_table", Value::Text(self.loot_table.clone()));
        match &self.slot_drop_chances {
            None => (),
            Some(DropChanceType::All(bits)) => c.push("slot_drop_chances", Value::Float(*bits)),
            Some(DropChanceType::Indiviual(d)) => c.push(
                "slot_drop_chances",
                Value::Compound(d.to_compound()),
            ),
        }
        proof {
            assert(compound_view(c) =~= spec_equipment_compound((*self).model()));
        }
        c
    }
}

/// The compound spawn rules are written back as.
pub open spec fn spec_spawn_rules_compound(r: SpawnRules) -> CompoundV {
    seq![
        ("block_light_limit"@, ValueV::Int(r.block_light_limit)),
        ("sky_light_limit"@, ValueV::Int(r.sky_light_limit)),
    ]
}

impl SpawnRules {
    /// Writes the record back as a compound.
    pub fn to_compound(&self) -> (r: NbtCompound)
        ensures
            compound_view(r) == spec_spawn_rules_compound(*self),
    {
        let mut c = NbtCompound::new();
        c.push("block_light_limit", Value::Int(self.block_light_limit));
        c.push("sky_light_limit", Value::Int(self.sky_light_limit));
        proof {
            assert(compound_view(c) =~= spec_spawn_rules_compound(*self));
        }
        c
    }
}

/// The compound spawn data is written back as; the entity node goes out
/// exactly as it was carried.
pub open spec fn spec_spawn_data_compound(d: SpawnDataV) -> CompoundV {
    seq![
        ("entity"@, d.entity),
        ("custom_spawn_rules"@, ValueV::Compound(spec_spawn_rules_compound(d.custom_spawn_rules))),
    ] + (match d.equipment {
        Some(e) => seq![("equipment"@, ValueV::Compound(spec_equipment_compound(e)))],
        None => Seq::empty(),
    })
}

impl SpawnData {
    /// Writes the record back as a compound.
    pub fn to_compound(&self) -> (r: NbtCompound)
        ensures
            compound_view(r) == spec_spawn_data_compound(spawn_data_view(*self)),
    {
        let mut c = NbtCompound::new();
        c.push("entity", self.entity.duplicate());
        c.push("custom_spawn_rules", Value::Compound(self.custom_spawn_rules.to_compound()));
        match &self.equipment {
            Some(e) => c.push("equipment", Value::Compound(e.to_compound())),
            None => (),
        }
        proof {
            assert(compound_view(c) =~= spec_spawn_data_compound(spawn_data_view(*self)));
        }
        c
    }
}

/// The compound a potential spawn is written back as.
pub open spec fn spec_potential_spawn_compound(p: PotentialSpawnV) -> CompoundV {
    seq![
        ("weight"@, ValueV::Int(p.weight)),
        ("data"@, ValueV::Compound(spec_spawn_data_compound(p.data))),
    ]
}

impl PotentialSpawn {
    /// Writes the record back as a compound.
    pub fn to_compound(&self) -> (r: NbtCompound)
        ensures
            compound_view(r) == spec_potential_spawn_compound((*self).model()),
    {
        let mut c = NbtCompound::new();
        c.push("weight", Value::Int(self.weight));
        c.push("data", Value::Compound(self.data.to_compound()));
        proof {
            assert(compound_view(c) =~= spec_potential_spawn_compound((*self).model()));
        }
        c
    }
}

/// The compound a mob spawner is written back as; an absent
/// potential-spawn list writes no key.
pub open spec fn spec_mob_spawner_compound(m: MobSpawnerV) -> CompoundV {
    seq![
        ("Delay"@, ValueV::Short(m.delay)),
        ("MaxNearbyEntities"@, ValueV::Short(m.max_nearby_entities)),
        ("MaxSpawnDelay"@, ValueV::Short(m.max_spawn_delay)),
        ("MinSpawnDelay"@, ValueV::Short(m.min_spawn_delay)),
        ("RequiredPlayerRange"@, ValueV::Short(m.required_player_range)),
        ("SpawnCount"@, ValueV::Short(m.spawn_count)),
        ("SpawnData"@, ValueV::Compound(spec_spawn_data_compound(m.spawn_data))),
    ] + (match m.spawn_potentials {
        Some(ps) => seq![
            (
                "SpawnPotentials"@,
                ValueV::List(
                    Seq::new(
                        ps.len(),
                        |i: int| ValueV::Compound(spec_potential_spawn_compound(ps[i])),
                    ),
                ),
            ),
        ],
        None => Seq::empty(),
    }) + seq![("SpawnRange"@, ValueV::Short(m.spawn_range))]
}

impl MobSpawner {
    /// Writes the record back as a compound.
    #[verifier::rlimit(100)]
    pub fn to_compound(&self) -> (r: NbtCompound)
        ensures
            compound_view(r) == spec_mob_spawner_compound((*self).model()),
    {
        let ghost m = (*self).model();
        let mut c = NbtCompound::new();
        c.push("Delay", Value::Short(self.delay));
        c.push("MaxNearbyEntities", Value::Short(self.max_nearby_entities));
        c.push("MaxSpawnDelay", Value::Short(self.max_spawn_delay));
        c.push("MinSpawnDelay", Value::Short(self.min_spawn_delay));
        c.push("RequiredPlayerRange", Value::Short(self.required_player_range));
        c.push("SpawnCount", Value::Short(self.spawn_count));
        c.push("SpawnData", Value::Compound(self.spawn_data.to_compound()));
        proof {
            assert(compound_view(c) =~= seq![
                ("Delay"@, ValueV::Short(m.delay)),
                ("MaxNearbyEntities"@, ValueV::Short(m.max_nearby_entities)),
                ("MaxSpawnDelay"@, ValueV::Short(m.max_spawn_delay)),
                ("MinSpawnDelay"@, ValueV::Short(m.min_spawn_delay)),
                ("RequiredPlayerRange"@, ValueV::Short(m.required_player_range)),
                ("SpawnCount"@, ValueV::Short(m.spawn_count)),
                ("SpawnData"@, ValueV::Compound(spec_spawn_data_compound(m.spawn_data))),
            ]);
        }
        let ghost head = compound_view(c);
        match &self.spawn_potentials {
            Some(ps) => {
                let ghost psv = models(ps@);
                let n = ps.len();
                let mut items: Vec<Value> = Vec::new();
                let mut i: usize = 0;
                while i < n
                    invariant
                        n == ps@.len(),
                        psv == models(ps@),
                        psv.len() == n,
                        forall|j: int| 0 <= j < n ==> psv[j] == ps@[j].model(),
                        0 <= i <= n,
                        items@.len() == i,
                        forall|j: int|
                            0 <= j < i ==> value_view(items@[j]) == ValueV::Compound(
                                spec_potential_spawn_compound(psv[j]),
                            ),
                    decreases n - i,
                {
                    items.push(Value::Compound(ps[i].to_compound()));
                    i += 1;
                }
                proof {
                    crate::nbt::lemma_values_view(items@);
                    assert(crate::nbt::values_view(items@) =~= Seq::new(
                        psv.len(),
                        |i: int| ValueV::Compound(spec_potential_spawn_compound(psv[i])),
                    ));
                }
                c.push("SpawnPotentials", Value::List(items));
                proof {
                    assert(compound_view(c) =~= head + seq![
                        (
                            "SpawnPotentials"@,
                            ValueV::List(
                                Seq::new(
                                    psv.len(),
                                    |i: int|
                                        ValueV::Compound(spec_potential_spawn_compound(psv[i])),
                                ),
                            ),
                        ),
                    ]);
                }
            },
            None => (),
        }
        c.push("SpawnRange", Value::Short(self.spawn_range));
        proof {
            assert(compound_view(c) =~= spec_mob_spawner_compound(m)) by {
                if self.spawn_potentials is Some {
                    assert(m.spawn_potentials == Some(models(self.spawn_potentials->0@)));
                } else {
                    assert(m.spawn_potentials is None);
                }
            }
        }
        c
    }
}

impl FromCompoundNbt for MobSpawner {
    type V = MobSpawnerV;

    open spec fn model(self) -> MobSpawnerV {
        MobSpawnerV {
            delay: self.delay,
            max_nearby_entities: self.max_nearby_entities,
            max_spawn_delay: self.max_spawn_delay,
            min_spawn_delay: self.min_spawn_delay,
            required_player_range: self.required_player_range,
            spawn_count: self.spawn_count,
            spawn_data: spawn_data_view(self.spawn_data),
            spawn_potentials: match self.spawn_potentials {
                Some(ps) => Some(models(ps@)),
                None => None,
            },
            spawn_range: self.spawn_range,
        }
    }

    open spec fn spec_from_compound(c: CompoundV) -> Result<MobSpawnerV, ParseErrorV> {
        spec_mob_spawner(c)
    }

    fn from_compound_nbt(nbt: &NbtCompound) -> (r: Result<Self, SculkParseError>) {
        let delay = match get_short(nbt, "Delay") {
            Ok(n) => n,
            Err(e) => return Err(e),
        };
        let max_nearby_entities = match get_short(nbt, "MaxNearbyEntities") {
            Ok(n) => n,
            Err(e) => return Err(e),
        };
        let max_spawn_delay = match get_short(nbt, "MaxSpawnDelay") {
            Ok(n) => n,
            Err(e) => return Err(e),
        };
        let min_spawn_delay = match get_short(nbt, "MinSpawnDelay") {
            Ok(n) => n,
            Err(e) => return Err(e),
        };
        let required_player_range = match get_short(nbt, "RequiredPlayerRange") {
            Ok(n) => n,
            Err(e) => return Err(e),
        };
        let spawn_count = match get_short(nbt, "SpawnCount") {
            Ok(n) => n,
            Err(e) => return Err(e),
        };
        let spawn_data = match nbt.get("SpawnData") {
            None => return Err(SculkParseError::MissingField("SpawnData".to_owned())),
            Some(Value::Compound(sd)) => match SpawnData::from_compound_nbt(sd) {
                Ok(x) => x,
                Err(e) => return Err(e),
            },
            Some(_) => return Err(SculkParseError::InvalidField("SpawnData".to_owned())),
        };
        let spawn_potentials = match nbt.get("SpawnPotentials") {
            None => None,
            Some(Value::List(vs)) => match crate::util::decode_compound_items::<PotentialSpawn>(
                vs,
                "SpawnPotentials",
            ) {
                Ok(ps) => Some(ps),
                Err(e) => return Err(e),
            },
            Some(_) => return Err(SculkParseError::InvalidField("SpawnPotentials".to_owned())),
        };
        let spawn_range = match get_short(nbt, "SpawnRange") {
            Ok(n) => n,
            Err(e) => return Err(e),
        };
        Ok(
            MobSpawner {
                delay,
                max_nearby_entities,
                max_spawn_delay,
                min_spawn_delay,
                required_player_range,
                spawn_count,
                spawn_data,
                spawn_potentials,
                spawn_range,
            },
        )
    }
}

} // verus!
