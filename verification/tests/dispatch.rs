//! The polymorphic dispatcher: identifier-keyed selection, the `Other`
//! fallback, and the mirror back to a node.

use sculk::block_entities::BlockEntityData;
use sculk::nbt::{NbtCompound, Value};

fn text(s: &str) -> Value {
    Value::Text(s.to_string())
}

fn command_node() -> Value {
    let mut c = NbtCompound::new();
    c.push("auto", Value::Byte(0));
    c.push("Command", text("say hi"));
    c.push("conditionMet", Value::Byte(1));
    c.push("LastExecution", Value::Long(5));
    c.push("LastOutput", text(""));
    c.push("powered", Value::Byte(0));
    c.push("SuccessCount", Value::Int(0));
    c.push("TrackOutput", Value::Byte(1));
    c.push("UpdateLastExecution", Value::Byte(1));
    Value::Compound(c)
}

#[test]
fn recognized_identifier_dispatches_to_its_decoder() {
    let node = command_node();
    let r = BlockEntityData::new("fixture:command", &node);
    match r {
        BlockEntityData::CommandBlock(cb) => {
            assert_eq!(cb.auto, false);
            assert_eq!(cb.command, "say hi");
            assert_eq!(cb.condition_met, true);
            assert_eq!(cb.custom_name, None);
            assert_eq!(cb.last_execution, 5);
            assert_eq!(cb.last_output, "");
            assert_eq!(cb.powered, false);
            assert_eq!(cb.success_count, 0);
            assert_eq!(cb.track_output, true);
            assert_eq!(cb.update_last_execution, true);
        }
        other => panic!("expected a command block, got {:?}", other),
    }
}

#[test]
fn unrecognized_identifier_degrades_to_other_unchanged() {
    let node = command_node();
    let r = BlockEntityData::new("fixture:jukebox", &node);
    match r {
        BlockEntityData::Other(v) => assert_eq!(v, node),
        other => panic!("expected the fallback, got {:?}", other),
    }
}

#[test]
fn failed_decode_degrades_to_other_unchanged() {
    let mut c = NbtCompound::new();
    c.push("auto", Value::Byte(0));
    let node = Value::Compound(c);
    let r = BlockEntityData::new("fixture:command", &node);
    match r {
        BlockEntityData::Other(v) => assert_eq!(v, node),
        other => panic!("expected the fallback, got {:?}", other),
    }
}

#[test]
fn non_compound_node_degrades_to_other_unchanged() {
    let node = text("not a compound");
    let r = BlockEntityData::new("fixture:command", &node);
    match r {
        BlockEntityData::Other(v) => assert_eq!(v, node),
        other => panic!("expected the fallback, got {:?}", other),
    }
}

#[test]
fn case_matters_in_identifiers() {
    let node = command_node();
    let r = BlockEntityData::new("FIXTURE:COMMAND", &node);
    assert!(matches!(r, BlockEntityData::Other(_)));
}

#[test]
fn other_as_value_hands_the_node_back() {
    let node = command_node();
    let r = BlockEntityData::new("fixture:unheard_of", &node);
    assert_eq!(r.as_value(), Some(node));
}

#[test]
fn decoded_fixture_as_value_round_trips() {
    let node = command_node();
    let decoded = BlockEntityData::new("fixture:command", &node);
    let written = decoded.as_value().unwrap();
    let again = BlockEntityData::new("fixture:command", &written);
    assert_eq!(decoded, again);
}

#[test]
fn every_catalogued_identifier_is_recognized() {
    let mut rules = NbtCompound::new();
    rules.push("block_light_limit", Value::Int(0));
    rules.push("sky_light_limit", Value::Int(0));

    let conduit = Value::Compound(NbtCompound::new());
    assert!(matches!(
        BlockEntityData::new("fixture:conduit", &conduit),
        BlockEntityData::Conduit(_)
    ));
    assert!(matches!(
        BlockEntityData::new("fixture:brushable_block", &conduit),
        BlockEntityData::BrushableBlock(_)
    ));
    assert!(matches!(
        BlockEntityData::new("fixture:enchanting_table", &conduit),
        BlockEntityData::EnchantingTable(_)
    ));
}
