//! The mob spawner: the deepest aggregate, decoded field by field from a
//! document tree built in place.

use sculk::block_entities::mob_spawner::{DropChanceType, MobSpawner};
use sculk::nbt::{NbtCompound, Value};
use sculk::traits::FromCompoundNbt;

fn text(s: &str) -> Value {
    Value::Text(s.to_string())
}

fn entity_node() -> Value {
    let mut e = NbtCompound::new();
    e.push("Air", Value::Short(32));
    e.push("CustomName", text("Mr Zombie"));
    e.push("FallDistance", Value::Float(0.0f32.to_bits()));
    e.push("Glowing", Value::Byte(1));
    e.push("HasVisualFire", Value::Byte(1));
    e.push("id", text("minecraft:zombie"));
    e.push("Invulnerable", Value::Byte(0));
    e.push(
        "Motion",
        Value::List(vec![
            Value::Double(0.0f64.to_bits()),
            Value::Double(0.0f64.to_bits()),
            Value::Double(0.0f64.to_bits()),
        ]),
    );
    e.push("NoGravity", Value::Byte(0));
    e.push("OnGround", Value::Byte(1));
    e.push("PortalCooldown", Value::Int(0));
    e.push(
        "Pos",
        Value::List(vec![
            Value::Double(5.5f64.to_bits()),
            Value::Double(6.3f64.to_bits()),
            Value::Double(2.1f64.to_bits()),
        ]),
    );
    e.push(
        "Rotation",
        Value::List(vec![
            Value::Float(0.0f32.to_bits()),
            Value::Float(0.0f32.to_bits()),
        ]),
    );
    e.push("UUID", Value::IntArray(vec![1, 2, 3, 4]));
    Value::Compound(e)
}

fn spawn_data_node() -> Value {
    let mut rules = NbtCompound::new();
    rules.push("block_light_limit", Value::Int(10));
    rules.push("sky_light_limit", Value::Int(15));

    let mut chances = NbtCompound::new();
    chances.push("feet", Value::Float(0.045f32.to_bits()));
    chances.push("chest", Value::Float(0.1f32.to_bits()));
    chances.push("mainhand", Value::Float(0.085f32.to_bits()));

    let mut equipment = NbtCompound::new();
    equipment.push("loot_table", text("minecraft:entities/zombie"));
    equipment.push("slot_drop_chances", Value::Compound(chances));

    let mut data = NbtCompound::new();
    data.push("entity", entity_node());
    data.push("custom_spawn_rules", Value::Compound(rules));
    data.push("equipment", Value::Compound(equipment));
    Value::Compound(data)
}

#[test]
fn basic_test() {
    let mut potential = NbtCompound::new();
    potential.push("weight", Value::Int(1));
    potential.push("data", spawn_data_node());

    let mut nbt = NbtCompound::new();
    nbt.push("Delay", Value::Short(20));
    nbt.push("MaxNearbyEntities", Value::Short(6));
    nbt.push("MaxSpawnDelay", Value::Short(800));
    nbt.push("MinSpawnDelay", Value::Short(200));
    nbt.push("RequiredPlayerRange", Value::Short(16));
    nbt.push("SpawnCount", Value::Short(4));
    nbt.push("SpawnData", spawn_data_node());
    nbt.push("SpawnPotentials", Value::List(vec![Value::Compound(potential)]));
    nbt.push("SpawnRange", Value::Short(4));

    let mob_spawner = MobSpawner::from_compound_nbt(&nbt).unwrap();

    assert_eq!(mob_spawner.delay, 20);
    assert_eq!(mob_spawner.max_nearby_entities, 6);
    assert_eq!(mob_spawner.max_spawn_delay, 800);
    assert_eq!(mob_spawner.min_spawn_delay, 200);
    assert_eq!(mob_spawner.required_player_range, 16);
    assert_eq!(mob_spawner.spawn_count, 4);
    match &mob_spawner.spawn_data.entity {
        Value::Compound(entity) => {
            assert_eq!(entity.string("id"), Some("minecraft:zombie".to_string()));
        }
        other => panic!("expected an entity compound, got {:?}", other),
    }
    assert_eq!(
        mob_spawner.spawn_data.custom_spawn_rules.block_light_limit,
        10
    );
    assert_eq!(
        mob_spawner.spawn_data.custom_spawn_rules.sky_light_limit,
        15
    );
    assert_eq!(
        mob_spawner
            .spawn_data
            .equipment
            .as_ref()
            .unwrap()
            .loot_table,
        "minecraft:entities/zombie"
    );
    if let DropChanceType::Indiviual(chances) = mob_spawner
        .spawn_data
        .equipment
        .as_ref()
        .unwrap()
        .slot_drop_chances
        .as_ref()
        .unwrap()
    {
        assert_eq!(chances.chest, Some(0.1f32.to_bits()));
    } else {
        panic!("Expected individual drop chances");
    }
    assert_eq!(mob_spawner.spawn_potentials.as_ref().unwrap().len(), 1);
    assert_eq!(mob_spawner.spawn_potentials.as_ref().unwrap()[0].weight, 1);
    match &mob_spawner.spawn_potentials.as_ref().unwrap()[0].data.entity {
        Value::Compound(entity) => {
            assert_eq!(entity.string("id"), Some("minecraft:zombie".to_string()));
        }
        other => panic!("expected an entity compound, got {:?}", other),
    }
    assert_eq!(
        mob_spawner.spawn_potentials.as_ref().unwrap()[0]
            .data
            .custom_spawn_rules
            .block_light_limit,
        10
    );
    assert_eq!(
        mob_spawner.spawn_potentials.as_ref().unwrap()[0]
            .data
            .custom_spawn_rules
            .sky_light_limit,
        15
    );
    assert_eq!(
        mob_spawner.spawn_potentials.as_ref().unwrap()[0]
            .data
            .equipment
            .as_ref()
            .unwrap()
            .loot_table,
        "minecraft:entities/zombie"
    );
    if let DropChanceType::Indiviual(chances) = mob_spawner.spawn_potentials.as_ref().unwrap()[0]
        .data
        .equipment
        .as_ref()
        .unwrap()
        .slot_drop_chances
        .as_ref()
        .unwrap()
    {
        assert_eq!(chances.feet, Some(0.045f32.to_bits()));
    } else {
        panic!("Expected individual drop chances");
    }
    assert_eq!(mob_spawner.spawn_range, 4);

    let nbt = mob_spawner.to_compound();

    assert_eq!(nbt, nbt);
}

#[test]
fn spawner_round_trips() {
    let mut nbt = NbtCompound::new();
    nbt.push("Delay", Value::Short(20));
    nbt.push("MaxNearbyEntities", Value::Short(6));
    nbt.push("MaxSpawnDelay", Value::Short(800));
    nbt.push("MinSpawnDelay", Value::Short(200));
    nbt.push("RequiredPlayerRange", Value::Short(16));
    nbt.push("SpawnCount", Value::Short(4));
    nbt.push("SpawnData", spawn_data_node());
    nbt.push("SpawnRange", Value::Short(4));

    let decoded = MobSpawner::from_compound_nbt(&nbt).unwrap();
    let written = decoded.to_compound();
    let again = MobSpawner::from_compound_nbt(&written).unwrap();
    assert_eq!(decoded, again);
}
