//! Decoding of single records: required and optional fields, shape
//! ambiguity, map modes, arrays, and the failure taxonomy.

use sculk::components::dyed_color::DyedColor;
use sculk::components::enchantments::Enchantments;
use sculk::components::food::{Food, DEFAULT_EAT_SECONDS_BITS, DEFAULT_PROBABILITY_BITS};
use sculk::components::map_decorations::{MapDecorations, MapIcon, MapIconType};
use sculk::components::Components;
use sculk::chunk::tile_tick::TileTick;
use sculk::block_entities::brushable_block::BrushableBlock;
use sculk::block_entities::command_block::CommandBlock;
use sculk::block_entities::conduit::Conduit;
use sculk::block_entities::enchanting_table::EnchantingTable;
use sculk::block_entities::mob_spawner::DropChanceType;
use sculk::block_entities::mob_spawner::Equipment;
use sculk::error::SculkParseError;
use sculk::nbt::{NbtCompound, Value};
use sculk::rarity::Rarity;
use sculk::traits::FromCompoundNbt;
use sculk::util::{
    default_true, get_bool, get_doubles_array, get_int_array, get_loot_table_data,
    get_optional_components, get_optional_lock, get_owned_string, str_eq,
};
use sculk::uuid::Uuid;

fn text(s: &str) -> Value {
    Value::Text(s.to_string())
}

fn command_node_without(skip: &str) -> NbtCompound {
    let mut c = NbtCompound::new();
    let fields = vec![
        ("auto", Value::Byte(0)),
        ("Command", text("say hi")),
        ("conditionMet", Value::Byte(1)),
        ("LastExecution", Value::Long(5)),
        ("LastOutput", text("")),
        ("powered", Value::Byte(0)),
        ("SuccessCount", Value::Int(0)),
        ("TrackOutput", Value::Byte(1)),
        ("UpdateLastExecution", Value::Byte(1)),
    ];
    for (k, v) in fields {
        if k != skip {
            c.push(k, v);
        }
    }
    c
}

#[test]
fn command_block_decodes() {
    let cb = CommandBlock::from_compound_nbt(&command_node_without("")).unwrap();
    assert_eq!(cb.auto, false);
    assert_eq!(cb.command, "say hi");
    assert_eq!(cb.condition_met, true);
    assert_eq!(cb.custom_name, None);
    assert_eq!(cb.last_execution, 5);
    assert_eq!(cb.last_output, "");
    assert_eq!(cb.powered, false);
    assert_eq!(cb.success_count, 0);
    assert_eq!(cb.track_output, true);
    assert_eq!(cb.update_last_execution, true);
}

#[test]
fn removing_any_required_field_is_missing_field() {
    for key in ["Command", "LastExecution", "LastOutput", "SuccessCount"] {
        let r = CommandBlock::from_compound_nbt(&command_node_without(key));
        assert_eq!(r, Err(SculkParseError::MissingField(key.to_string())));
    }
}

#[test]
fn wrong_shape_is_invalid_field() {
    let mut c = command_node_without("Command");
    c.push("Command", Value::Int(3));
    let r = CommandBlock::from_compound_nbt(&c);
    assert_eq!(r, Err(SculkParseError::InvalidField("Command".to_string())));
}

#[test]
fn removing_an_optional_field_equals_supplying_its_default() {
    let with_default = command_node_without("");
    let without = command_node_without("auto");
    let a = CommandBlock::from_compound_nbt(&with_default).unwrap();
    let b = CommandBlock::from_compound_nbt(&without).unwrap();
    assert_eq!(a, b);
}

#[test]
fn command_block_round_trips() {
    let cb = CommandBlock::from_compound_nbt(&command_node_without("")).unwrap();
    let encoded = cb.to_compound();
    let again = CommandBlock::from_compound_nbt(&encoded).unwrap();
    assert_eq!(cb, again);
}

#[test]
fn dyed_color_scalar_and_compound_shapes_agree() {
    let mut scalar = NbtCompound::new();
    scalar.push("minecraft:dyed_color", Value::Int(0x00ff_00ff));

    let mut inner = NbtCompound::new();
    inner.push("rgb", Value::Int(0x00ff_00ff));
    let mut compound = NbtCompound::new();
    compound.push("minecraft:dyed_color", Value::Compound(inner));

    let a = DyedColor::from_compound_nbt(&scalar).unwrap();
    let b = DyedColor::from_compound_nbt(&compound).unwrap();
    assert_eq!(a, b);
    assert_eq!(a.rgb, 0x00ff_00ff);
    assert_eq!(a.show_in_tooltip, true);
}

#[test]
fn dyed_color_compound_without_rgb_is_invalid_not_a_fallback() {
    let mut inner = NbtCompound::new();
    inner.push("show_in_tooltip", Value::Byte(0));
    let mut c = NbtCompound::new();
    c.push("minecraft:dyed_color", Value::Compound(inner));
    let r = DyedColor::from_compound_nbt(&c);
    assert_eq!(
        r,
        Err(SculkParseError::InvalidField("minecraft:dyed_color".to_string()))
    );
}

#[test]
fn dyed_color_absent_is_missing() {
    let r = DyedColor::from_compound_nbt(&NbtCompound::new());
    assert_eq!(
        r,
        Err(SculkParseError::MissingField("minecraft:dyed_color".to_string()))
    );
}

fn levels_ab() -> NbtCompound {
    let mut c = NbtCompound::new();
    c.push("a", Value::Int(1));
    c.push("b", Value::Int(2));
    c
}

#[test]
fn enchantments_flat_and_wrapped_modes_agree() {
    let flat = levels_ab();
    let mut wrapped = NbtCompound::new();
    wrapped.push("levels", Value::Compound(levels_ab()));

    let a = Enchantments::from_compound_nbt(&flat).unwrap();
    let b = Enchantments::from_compound_nbt(&wrapped).unwrap();
    assert_eq!(a, b);
    assert_eq!(
        a.levels.entries,
        vec![("a".to_string(), 1), ("b".to_string(), 2)]
    );
    assert_eq!(a.show_in_tooltip, true);
}

#[test]
fn enchantments_tooltip_flag_reads_in_wrapped_mode() {
    let mut wrapped = NbtCompound::new();
    wrapped.push("levels", Value::Compound(levels_ab()));
    wrapped.push("show_in_tooltip", Value::Byte(0));
    let e = Enchantments::from_compound_nbt(&wrapped).unwrap();
    assert_eq!(e.show_in_tooltip, false);
}

#[test]
fn enchantments_non_integer_level_is_invalid() {
    let mut flat = NbtCompound::new();
    flat.push("a", text("one"));
    let r = Enchantments::from_compound_nbt(&flat);
    assert_eq!(r, Err(SculkParseError::InvalidField("a".to_string())));
}

fn icon(kind: &str, x: f64, z: f64, rot: f32) -> Value {
    let mut c = NbtCompound::new();
    c.push("type", text(kind));
    c.push("x", Value::Double(x.to_bits()));
    c.push("z", Value::Double(z.to_bits()));
    c.push("rotation", Value::Float(rot.to_bits()));
    Value::Compound(c)
}

#[test]
fn map_decorations_round_trip() {
    let mut c = NbtCompound::new();
    c.push("home", icon("player", 1.5, -2.5, 0.0));
    c.push("hideout", icon("banner_red", 10.0, 20.0, 90.0));
    let decoded = MapDecorations::from_compound_nbt(&c).unwrap();
    let encoded = decoded.to_compound();
    let again = MapDecorations::from_compound_nbt(&encoded).unwrap();
    assert_eq!(decoded, again);
    assert_eq!(decoded.0.len(), 2);
    assert_eq!(decoded.0.entries[0].0, "home");
    assert_eq!(decoded.0.entries[0].1.icon_type, MapIconType::Player);
    assert_eq!(decoded.0.entries[1].1.icon_type, MapIconType::BannerRed);
}

#[test]
fn map_icon_requires_all_fields() {
    let mut c = NbtCompound::new();
    c.push("type", text("player"));
    c.push("x", Value::Double(0.0f64.to_bits()));
    c.push("z", Value::Double(0.0f64.to_bits()));
    let r = MapIcon::from_compound_nbt(&c);
    assert_eq!(r, Err(SculkParseError::MissingField("rotation".to_string())));
}

#[test]
fn icon_type_catalogue_is_exact() {
    assert_eq!(MapIconType::from_str("player"), MapIconType::Player);
    assert_eq!(MapIconType::from_str("banner_white"), MapIconType::BannerWhite);
    assert_eq!(MapIconType::from_str("swamp_hut"), MapIconType::SwampHut);
    assert_eq!(
        MapIconType::from_str("Player"),
        MapIconType::Unknown("Player".to_string())
    );
    assert_eq!(MapIconType::from_str("frame").identifier(), "frame");
    assert_eq!(
        MapIconType::Unknown("mystery".to_string()).identifier(),
        "mystery"
    );
}

#[test]
fn rarity_identifiers_are_exact_and_case_sensitive() {
    assert_eq!(Rarity::from_str("common"), Ok(Rarity::Common));
    assert_eq!(Rarity::from_str("uncommon"), Ok(Rarity::Uncommon));
    assert_eq!(Rarity::from_str("rare"), Ok(Rarity::Rare));
    assert_eq!(Rarity::from_str("epic"), Ok(Rarity::Epic));
    assert_eq!(
        Rarity::from_str("Epic"),
        Err(SculkParseError::InvalidField("Epic".to_string()))
    );
}

#[test]
fn tile_tick_decodes_and_fails_fast() {
    let mut c = NbtCompound::new();
    c.push("i", text("minecraft:sand"));
    c.push("p", Value::Int(0));
    c.push("t", Value::Int(-3));
    c.push("x", Value::Int(1));
    c.push("y", Value::Int(64));
    c.push("z", Value::Int(-2));
    let t = TileTick::from_compound_nbt(&c).unwrap();
    assert_eq!(t.i, "minecraft:sand");
    assert_eq!(t.p, 0);
    assert_eq!(t.t, -3);
    assert_eq!((t.x, t.y, t.z), (1, 64, -2));

    let mut missing = NbtCompound::new();
    missing.push("i", text("minecraft:sand"));
    let r = TileTick::from_compound_nbt(&missing);
    assert_eq!(r, Err(SculkParseError::MissingField("p".to_string())));

    let mut bad = NbtCompound::new();
    bad.push("i", text("minecraft:sand"));
    bad.push("p", text("zero"));
    let r = TileTick::from_compound_nbt(&bad);
    assert_eq!(r, Err(SculkParseError::InvalidField("p".to_string())));
}

#[test]
fn conduit_target_shapes() {
    let empty = Conduit::from_compound_nbt(&NbtCompound::new()).unwrap();
    assert_eq!(empty.target, None);

    let mut c = NbtCompound::new();
    c.push("target", Value::IntArray(vec![1, 2, 3, 4]));
    let full = Conduit::from_compound_nbt(&c).unwrap();
    assert_eq!(full.target, Some(Uuid(1, 2, 3, 4)));

    let mut short = NbtCompound::new();
    short.push("target", Value::IntArray(vec![1, 2]));
    let r = Conduit::from_compound_nbt(&short);
    assert_eq!(r, Err(SculkParseError::InvalidField("target".to_string())));
}

#[test]
fn brushable_block_and_enchanting_table_decode() {
    assert_eq!(
        BrushableBlock::from_compound_nbt(&NbtCompound::new()),
        Ok(BrushableBlock {})
    );
    let mut c = NbtCompound::new();
    c.push("CustomName", text("Table"));
    let t = EnchantingTable::from_compound_nbt(&c).unwrap();
    assert_eq!(t.custom_name, Some("Table".to_string()));
    let t = EnchantingTable::from_compound_nbt(&NbtCompound::new()).unwrap();
    assert_eq!(t.custom_name, None);
}

#[test]
fn food_defaults_and_nested_components() {
    let mut effect_details = NbtCompound::new();
    effect_details.push("id", text("minecraft:regeneration"));
    effect_details.push("duration", Value::Int(100));
    let mut effect = NbtCompound::new();
    effect.push("effect", Value::Compound(effect_details));

    let mut nested_components = NbtCompound::new();
    nested_components.push("minecraft:rarity", text("epic"));
    let mut converted = NbtCompound::new();
    converted.push("id", text("minecraft:bowl"));
    converted.push("components", Value::Compound(nested_components));

    let mut c = NbtCompound::new();
    c.push("nutrition", Value::Int(4));
    c.push("saturation", Value::Float(0.3f32.to_bits()));
    c.push("using_converts_to", Value::Compound(converted));
    c.push("effects", Value::List(vec![Value::Compound(effect)]));

    let food = Food::from_compound_nbt(&c).unwrap();
    assert_eq!(food.nutrition, 4);
    assert_eq!(food.saturation, 0.3f32.to_bits());
    assert_eq!(food.can_always_eat, false);
    assert_eq!(food.eat_seconds, DEFAULT_EAT_SECONDS_BITS);
    assert_eq!(food.eat_seconds, 1.6f32.to_bits());
    assert_eq!(food.effects.len(), 1);
    assert_eq!(food.effects[0].effect.id, "minecraft:regeneration");
    assert_eq!(food.effects[0].effect.duration, Some(100));
    assert_eq!(food.effects[0].probability, DEFAULT_PROBABILITY_BITS);
    assert_eq!(food.effects[0].probability, 1.0f32.to_bits());
    let conv = food.using_converts_to.as_ref().unwrap();
    assert_eq!(conv.id, "minecraft:bowl");
    let comps = conv.components.as_ref().unwrap();
    assert_eq!(comps.rarity, Some(Rarity::Epic));

    let mut missing = NbtCompound::new();
    missing.push("saturation", Value::Float(0.3f32.to_bits()));
    let r = Food::from_compound_nbt(&missing);
    assert_eq!(r, Err(SculkParseError::MissingField("nutrition".to_string())));
}

#[test]
fn components_collects_every_known_component() {
    let mut inner = NbtCompound::new();
    inner.push("minecraft:dyed_color", Value::Int(7));
    inner.push("minecraft:enchantments", Value::Compound(levels_ab()));
    inner.push("minecraft:rarity", text("rare"));
    let mut item = NbtCompound::new();
    item.push("components", Value::Compound(inner));

    let comps = Components::from_compound_nbt(&item).unwrap();
    assert_eq!(
        comps.dyed_color,
        Some(DyedColor {
            rgb: 7,
            show_in_tooltip: true,
        })
    );
    assert!(comps.enchantments.is_some());
    assert_eq!(comps.food, None);
    assert_eq!(comps.rarity, Some(Rarity::Rare));

    let none = get_optional_components(&NbtCompound::new()).unwrap();
    assert!(none.is_none());
}

#[test]
fn equipment_drop_chance_shapes() {
    let mut all = NbtCompound::new();
    all.push("loot_table", text("minecraft:entities/zombie"));
    all.push("slot_drop_chances", Value::Float(0.5f32.to_bits()));
    let e = Equipment::from_compound_nbt(&all).unwrap();
    assert_eq!(
        e.slot_drop_chances,
        Some(DropChanceType::All(0.5f32.to_bits()))
    );

    let mut none = NbtCompound::new();
    none.push("loot_table", text("minecraft:entities/zombie"));
    let e = Equipment::from_compound_nbt(&none).unwrap();
    assert_eq!(e.slot_drop_chances, None);
}

#[test]
fn accessor_helpers() {
    let mut c = NbtCompound::new();
    c.push(
        "UUID",
        Value::List(vec![Value::Int(1), Value::Int(2), Value::Int(3)]),
    );
    c.push(
        "Motion",
        Value::List(vec![
            Value::Double(0.5f64.to_bits()),
            Value::Double(1.5f64.to_bits()),
        ]),
    );
    c.push("Mixed", Value::List(vec![Value::Int(1), text("two")]));
    c.push("LootTable", text("minecraft:chests/simple"));
    c.push("LootTableSeed", Value::Long(99));
    c.push("flag", Value::Byte(2));

    assert_eq!(get_int_array(&c, "UUID"), Ok(vec![1, 2, 3]));
    assert_eq!(get_int_array(&c, "absent"), Ok(vec![]));
    assert_eq!(
        get_int_array(&c, "Mixed"),
        Err(SculkParseError::InvalidField("Mixed".to_string()))
    );
    assert_eq!(
        get_doubles_array(&c, "Motion"),
        Ok(vec![0.5f64.to_bits(), 1.5f64.to_bits()])
    );
    let loot = get_loot_table_data(&c);
    assert_eq!(loot.loot_table, Some("minecraft:chests/simple".to_string()));
    assert_eq!(loot.loot_table_seed, Some(99));
    assert_eq!(get_bool(&c, "flag"), true);
    assert_eq!(get_bool(&c, "absent"), false);
    assert_eq!(default_true(), true);
    assert!(str_eq("same", "same"));
    assert!(!str_eq("same", "Same"));
    assert_eq!(
        get_owned_string(&c, "LootTable"),
        Ok("minecraft:chests/simple".to_string())
    );
    assert_eq!(
        get_owned_string(&c, "absent"),
        Err(SculkParseError::MissingField("absent".to_string()))
    );
    assert_eq!(get_optional_lock(&c), None);
    let mut locked = NbtCompound::new();
    locked.push("Lock", text("key of gold"));
    assert_eq!(get_optional_lock(&locked), Some("key of gold".to_string()));
}

#[test]
fn conduit_and_enchanting_table_mirror() {
    let mut c = NbtCompound::new();
    c.push("target", Value::IntArray(vec![9, 8, 7, 6]));
    let conduit = Conduit::from_compound_nbt(&c).unwrap();
    let again = Conduit::from_compound_nbt(&conduit.to_compound()).unwrap();
    assert_eq!(conduit, again);

    let idle = Conduit { target: None };
    assert_eq!(idle.to_compound().len(), 0);

    let table = EnchantingTable {
        custom_name: Some("Table".to_string()),
    };
    let again = EnchantingTable::from_compound_nbt(&table.to_compound()).unwrap();
    assert_eq!(table, again);
}
