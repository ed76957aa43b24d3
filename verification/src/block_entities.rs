//! Block-scoped fixture records and the identifier-keyed dispatcher that
//! selects among them.
//!
//! The dispatcher maps an identifier string to the one decoder for it, by
//! exact, case-sensitive equality. An unrecognized identifier, a node that
//! is not a compound, and a recognized decoder that fails all degrade to
//! the `Other` variant carrying the original node unchanged: one malformed
//! fixture never aborts the caller's traversal of its siblings, and no
//! data is lost.

pub mod brushable_block;
pub mod command_block;
pub mod conduit;
pub mod enchanting_table;
pub mod mob_spawner;

use vstd::prelude::*;

use crate::block_entities::brushable_block::{
    spec_brushable_block, spec_brushable_block_compound, BrushableBlock,
};
use crate::block_entities::command_block::{
    spec_command_block, spec_command_block_compound, CommandBlock, CommandBlockV,
};
use crate::block_entities::conduit::{spec_conduit, spec_conduit_compound, Conduit};
use crate::block_entities::enchanting_table::{
    spec_enchanting_table, spec_enchanting_table_compound, EnchantingTable, EnchantingTableV,
};
use crate::block_entities::mob_spawner::{
    spec_mob_spawner, spec_mob_spawner_compound, MobSpawner, MobSpawnerV,
};
use crate::nbt::{compound_view, value_view, NbtCompound, Value, ValueV};
use crate::traits::FromCompoundNbt;
use crate::util::str_eq;

verus! {

/// The decoded data of one block-scoped fixture, or the untouched node
/// when no decoder produced a record.
#[derive(Debug, PartialEq)]
pub enum BlockEntityData {
    /// A brushable block. `fixture:brushable_block`.
    BrushableBlock(BrushableBlock),
    /// A command block. `fixture:command`.
    CommandBlock(CommandBlock),
    /// A conduit. `fixture:conduit`.
    Conduit(Conduit),
    /// An enchanting table. `fixture:enchanting_table`.
    EnchantingTable(EnchantingTable),
    /// A mob spawner. `fixture:mob_spawner`.
    MobSpawner(MobSpawner),
    /// The original node, for an unrecognized identifier or a failed
    /// decode.
    Other(Value),
}

/// The abstraction of a [`BlockEntityData`].
pub enum BlockEntityDataV {
    BrushableBlock(BrushableBlock),
    CommandBlock(CommandBlockV),
    Conduit(Conduit),
    EnchantingTable(EnchantingTableV),
    MobSpawner(MobSpawnerV),
    Other(ValueV),
}

/// The abstraction of a dispatched fixture.
pub open spec fn block_entity_view(d: BlockEntityData) -> BlockEntityDataV {
    match d {
        BlockEntityData::BrushableBlock(x) => BlockEntityDataV::BrushableBlock(x),
        BlockEntityData::CommandBlock(x) => BlockEntityDataV::CommandBlock(x.model()),
        BlockEntityData::Conduit(x) => BlockEntityDataV::Conduit(x),
        BlockEntityData::EnchantingTable(x) => BlockEntityDataV::EnchantingTable(x.model()),
        BlockEntityData::MobSpawner(x) => BlockEntityDataV::MobSpawner(x.model()),
        BlockEntityData::Other(v) => BlockEntityDataV::Other(value_view(v)),
    }
}

/// Whether the catalogue has a decoder for this identifier.
pub open spec fn spec_known_fixture_id(id: Seq<char>) -> bool {
    ||| id == "fixture:brushable_block"@
    ||| id == "fixture:command"@
    ||| id == "fixture:conduit"@
    ||| id == "fixture:enchanting_table"@
    ||| id == "fixture:mob_spawner"@
}

/// What dispatching yields, for every identifier and node: the record of
/// the one decoder the identifier names, when the node is a compound and
/// that decoder succeeds; in every other case the `Other` fallback
/// carrying the node unchanged. No failure escapes to the caller.
pub open spec fn spec_block_entity(id: Seq<char>, v: ValueV) -> BlockEntityDataV {
    match v {
        ValueV::Compound(c) => {
            if id == "fixture:brushable_block"@ {
                match spec_brushable_block(c) {
                    Ok(x) => BlockEntityDataV::BrushableBlock(x),
                    Err(_) => BlockEntityDataV::Other(v),
                }
            } else if id == "fixture:command"@ {
                match spec_command_block(c) {
                    Ok(x) => BlockEntityDataV::CommandBlock(x),
                    Err(_) => BlockEntityDataV::Other(v),
                }
            } else if id == "fixture:conduit"@ {
                match spec_conduit(c) {
                    Ok(x) => BlockEntityDataV::Conduit(x),
                    Err(_) => BlockEntityDataV::Other(v),
                }
            } else if id == "fixture:enchanting_table"@ {
                match spec_enchanting_table(c) {
                    Ok(x) => BlockEntityDataV::EnchantingTable(x),
                    Err(_) => BlockEntityDataV::Other(v),
                }
            } else if id == "fixture:mob_spawner"@ {
                match spec_mob_spawner(c) {
                    Ok(x) => BlockEntityDataV::MobSpawner(x),
                    Err(_) => BlockEntityDataV::Other(v),
                }
            } else {
                BlockEntityDataV::Other(v)
            }
        },
        _ => BlockEntityDataV::Other(v),
    }
}

/// The node a fixture is written back as: decoded records are encoded
/// from their fields, and the `Other` fallback returns the node it
/// carries.
pub open spec fn spec_block_entity_value(d: BlockEntityDataV) -> Option<ValueV> {
    match d {
        BlockEntityDataV::BrushableBlock(x) => Some(
            ValueV::Compound(spec_brushable_block_compound(x)),
        ),
        BlockEntityDataV::CommandBlock(x) => Some(
            ValueV::Compound(spec_command_block_compound(x)),
        ),
        BlockEntityDataV::Conduit(x) => Some(ValueV::Compound(spec_conduit_compound(x))),
        BlockEntityDataV::EnchantingTable(x) => Some(
            ValueV::Compound(spec_enchanting_table_compound(x)),
        ),
        BlockEntityDataV::MobSpawner(x) => Some(ValueV::Compound(spec_mob_spawner_compound(x))),
        BlockEntityDataV::Other(v) => Some(v),
    }
}

impl BlockEntityData {
    /// Selects and runs the one decoder `id` names on `data`. An
    /// unrecognized identifier returns `Other` carrying the node
    /// unchanged; so does a recognized identifier whose decoder fails:
    /// the dispatcher absorbs every per-record failure.
    pub fn new(id: &str, data: &Value) -> (r: BlockEntityData)
        ensures
            block_entity_view(r) == spec_block_entity(id@, value_view(*data)),
            !spec_known_fixture_id(id@) ==> block_entity_view(r) == BlockEntityDataV::Other(
                value_view(*data),
            ),
            block_entity_view(r) matches BlockEntityDataV::Other(v) ==> v == value_view(*data),
    {
        let c: &NbtCompound = match data {
            Value::Compound(c) => c,
            _ => {
                return BlockEntityData::Other(data.duplicate());
            },
        };
        if str_eq(id, "fixture:brushable_block") {
            match BrushableBlock::from_compound_nbt(c) {
                Ok(x) => BlockEntityData::BrushableBlock(x),
                Err(_) => BlockEntityData::Other(data.duplicate()),
            }
        } else if str_eq(id, "fixture:command") {
            match CommandBlock::from_compound_nbt(c) {
                Ok(x) => BlockEntityData::CommandBlock(x),
                Err(_) => BlockEntityData::Other(data.duplicate()),
            }
        } else if str_eq(id, "fixture:conduit") {
            match Conduit::from_compound_nbt(c) {
                Ok(x) => BlockEntityData::Conduit(x),
                Err(_) => BlockEntityData::Other(data.duplicate()),
            }
        } else if str_eq(id, "fixture:enchanting_table") {
            match EnchantingTable::from_compound_nbt(c) {
                Ok(x) => BlockEntityData::EnchantingTable(x),
                Err(_) => BlockEntityData::Other(data.duplicate()),
            }
        } else if str_eq(id, "fixture:mob_spawner") {
            match MobSpawner::from_compound_nbt(c) {
                Ok(x) => BlockEntityData::MobSpawner(x),
                Err(_) => BlockEntityData::Other(data.duplicate()),
            }
        } else {
            BlockEntityData::Other(data.duplicate())
        }
    }

    /// Writes the fixture back as a node; the `Other` fallback hands back
    /// a copy of the node it carries.
    pub fn as_value(&self) -> (r: Option<Value>)
        ensures
            (match r {
                Some(v) => spec_block_entity_value(block_entity_view(*self)) == Some(
                    value_view(v),
                ),
                None => spec_block_entity_value(block_entity_view(*self)) is None,
            }),
    {
        match self {
            BlockEntityData::BrushableBlock(x) => Some(Value::Compound(x.to_compound())),
            BlockEntityData::CommandBlock(x) => Some(Value::Compound(x.to_compound())),
            BlockEntityData::Conduit(x) => Some(Value::Compound(x.to_compound())),
            BlockEntityData::EnchantingTable(x) => Some(Value::Compound(x.to_compound())),
            BlockEntityData::MobSpawner(x) => Some(Value::Compound(x.to_compound())),
            BlockEntityData::Other(v) => Some(v.duplicate()),
        }
    }
}

/// A recognized identifier whose decoder fails on the node never lets the
/// failure escape: dispatching degrades to `Other` carrying the node.
/// Stated for the command-block decoder; dispatching treats every
/// catalogued decoder alike, by the one definition above.
pub proof fn lemma_dispatch_absorbs_failure(id: Seq<char>, c: crate::nbt::CompoundV)
    requires
        id == "fixture:command"@,
        spec_command_block(c) is Err,
    ensures
        spec_block_entity(id, ValueV::Compound(c)) == BlockEntityDataV::Other(ValueV::Compound(c)),
{
    assert("fixture:command"@ != "fixture:brushable_block"@) by {
        reveal_strlit("fixture:brushable_block");
        reveal_strlit("fixture:command");
        assert("fixture:command"@.len() == 15);
        assert("fixture:brushable_block"@.len() == 23);
    }
}

} // verus!
