//! The command-block fixture record.

use vstd::prelude::*;

use crate::error::{ParseErrorV, SculkParseError};
use crate::nbt::{
    compound_view, lemma_lookup_remove, lookup, remove_key, spec_bool_or, spec_string, CompoundV,
    NbtCompound, Value, ValueV,
};
use crate::traits::{opt_view, FromCompoundNbt};
use crate::util::{
    get_bool, get_int, get_long, get_owned_optional_string, get_owned_string, spec_req_int,
    spec_req_long, spec_req_string,
};

verus! {

/// A command block's stored state.
#[derive(Debug, Clone, PartialEq)]
pub struct CommandBlock {
    /// Whether the command runs without a redstone signal. `auto`.
    pub auto: bool,
    /// The command to issue to the server. `Command`.
    pub command: String,
    /// Whether a conditional command block had its condition met when last
    /// activated. `conditionMet`.
    pub condition_met: bool,
    /// Optional name shown in place of the usual marker in command output.
    /// `CustomName`.
    pub custom_name: Option<String>,
    /// The tick a chain command block was last executed in. `LastExecution`.
    pub last_execution: i64,
    /// The last line of output generated by the command block. `LastOutput`.
    pub last_output: String,
    /// Whether the block is powered by redstone. `powered`.
    pub powered: bool,
    /// Strength of the analog signal read by comparators. `SuccessCount`.
    pub success_count: i32,
    /// Whether `LastOutput` is stored. `TrackOutput`.
    pub track_output: bool,
    /// Whether `LastExecution` is updated; `false` allows loops in one tick.
    /// `UpdateLastExecution`.
    pub update_last_execution: bool,
}

/// The abstraction of a [`CommandBlock`].
pub struct CommandBlockV {
    pub auto: bool,
    pub command: Seq<char>,
    pub condition_met: bool,
    pub custom_name: Option<Seq<char>>,
    pub last_execution: i64,
    pub last_output: Seq<char>,
    pub powered: bool,
    pub success_count: i32,
    pub track_output: bool,
    pub update_last_execution: bool,
}

/// What decoding a command block yields, for every compound: the required
/// fields `Command`, `LastExecution`, `LastOutput` and `SuccessCount` fail
/// in that order, absence as `MissingField` and another shape as
/// `InvalidField`; the boolean fields default to `false` and `CustomName`
/// to absent.
pub open spec fn spec_command_block(c: CompoundV) -> Result<CommandBlockV, ParseErrorV> {
    match spec_req_string(c, "Command"@) {
        Err(e) => Err(e),
        Ok(command) => match spec_req_long(c, "LastExecution"@) {
            Err(e) => Err(e),
            Ok(last_execution) => match spec_req_string(c, "LastOutput"@) {
                Err(e) => Err(e),
                Ok(last_output) => match spec_req_int(c, "SuccessCount"@) {
                    Err(e) => Err(e),
                    Ok(success_count) => Ok(
                        CommandBlockV {
                            auto: spec_bool_or(c, "auto"@, false),
                            command,
                            condition_met: spec_bool_or(c, "conditionMet"@, false),
                            custom_name: spec_string(c, "CustomName"@),
                            last_execution,
                            last_output,
                            powered: spec_bool_or(c, "powered"@, false),
                            success_count,
                            track_output: spec_bool_or(c, "TrackOutput"@, false),
                            update_last_execution: spec_bool_or(c, "UpdateLastExecution"@, false),
                        },
                    ),
                },
            },
        },
    }
}

/// Removing any one required field from a compound that decodes makes the
/// decode fail with exactly `MissingField` of that key: a required field
/// is never defaulted, and no later field changes the failure.
pub proof fn lemma_command_block_missing_required(c: CompoundV, key: Seq<char>)
    requires
        spec_command_block(c) is Ok,
        key == "Command"@ || key == "LastExecution"@ || key == "LastOutput"@ || key
            == "SuccessCount"@,
    ensures
        spec_command_block(remove_key(c, key)) == Err::<CommandBlockV, _>(
            ParseErrorV::MissingField(key),
        ),
{
    reveal_strlit("Command");
    reveal_strlit("LastExecution");
    reveal_strlit("LastOutput");
    reveal_strlit("SuccessCount");
    assert("Command"@.len() == 7);
    assert("LastExecution"@.len() == 13);
    assert("LastOutput"@.len() == 10);
    assert("SuccessCount"@.len() == 12);
    if key != "Command"@ {
        lemma_lookup_remove(c, key, "Command"@);
    }
    if key != "LastExecution"@ {
        lemma_lookup_remove(c, key, "LastExecution"@);
    }
    if key != "LastOutput"@ {
        lemma_lookup_remove(c, key, "LastOutput"@);
    }
    if key != "SuccessCount"@ {
        lemma_lookup_remove(c, key, "SuccessCount"@);
    }
}

/// Removing the optional `auto` field decodes the same record as
/// supplying its documented default, a zero byte.
pub proof fn lemma_command_block_auto_default(c: CompoundV)
    requires
        lookup(c, "auto"@) == Some(ValueV::Byte(0)),
    ensures
        spec_command_block(remove_key(c, "auto"@)) == spec_command_block(c),
{
    reveal_strlit("auto");
    reveal_strlit("Command");
    reveal_strlit("conditionMet");
    reveal_strlit("CustomName");
    reveal_strlit("LastExecution");
    reveal_strlit("LastOutput");
    reveal_strlit("powered");
    reveal_strlit("SuccessCount");
    reveal_strlit("TrackOutput");
    reveal_strlit("UpdateLastExecution");
    assert("auto"@.len() == 4);
    assert("Command"@.len() == 7);
    assert("conditionMet"@.len() == 12);
    assert("CustomName"@.len() == 10);
    assert("LastExecution"@.len() == 13);
    assert("LastOutput"@.len() == 10);
    assert("powered"@.len() == 7);
    assert("SuccessCount"@.len() == 12);
    assert("TrackOutput"@.len() == 11);
    assert("UpdateLastExecution"@.len() == 19);
    lemma_lookup_remove(c, "auto"@, "Command"@);
    lemma_lookup_remove(c, "auto"@, "conditionMet"@);
    lemma_lookup_remove(c, "auto"@, "CustomName"@);
    lemma_lookup_remove(c, "auto"@, "LastExecution"@);
    lemma_lookup_remove(c, "auto"@, "LastOutput"@);
    lemma_lookup_remove(c, "auto"@, "powered"@);
    lemma_lookup_remove(c, "auto"@, "SuccessCount"@);
    lemma_lookup_remove(c, "auto"@, "TrackOutput"@);
    lemma_lookup_remove(c, "auto"@, "UpdateLastExecution"@);
}

/// A boolean as its on-document byte.
pub open spec fn spec_bool_byte(b: bool) -> ValueV {
    ValueV::Byte(
        if b {
            1
        } else {
            0
        },
    )
}

/// The compound a command block is written back as; an absent
/// `CustomName` writes no key, so decoding rebuilds the record.
pub open spec fn spec_command_block_compound(cb: CommandBlockV) -> CompoundV {
    seq![
        ("auto"@, spec_bool_byte(cb.auto)),
        ("Command"@, ValueV::Text(cb.command)),
        ("conditionMet"@, spec_bool_byte(cb.condition_met)),
    ] + (match cb.custom_name {
        Some(s) => seq![("CustomName"@, ValueV::Text(s))],
        None => Seq::empty(),
    }) + seq![
        ("LastExecution"@, ValueV::Long(cb.last_execution)),
        ("LastOutput"@, ValueV::Text(cb.last_output)),
        ("powered"@, spec_bool_byte(cb.powered)),
        ("SuccessCount"@, ValueV::Int(cb.success_count)),
        ("TrackOutput"@, spec_bool_byte(cb.track_output)),
        ("UpdateLastExecution"@, spec_bool_byte(cb.update_last_execution)),
    ]
}

impl CommandBlock {
    /// Writes the record back as a compound.
    #[verifier::rlimit(60)]
    pub fn to_compound(&self) -> (r: NbtCompound)
        ensures
            compound_view(r) == spec_command_block_compound((*self).model()),
    {
        let mut c = NbtCompound::new();
        c.push("auto", Value::Byte(if self.auto { 1 } else { 0 }));
        c.push("Command", Value::Text(self.command.clone()));
        c.push("conditionMet", Value::Byte(if self.condition_met { 1 } else { 0 }));
        match &self.custom_name {
            Some(s) => c.push("CustomName", Value::Text(s.clone())),
            None => (),
        }
        c.push("LastExecution", Value::Long(self.last_execution));
        c.push("LastOutput", Value::Text(self.last_output.clone()));
        c.push("powered", Value::Byte(if self.powered { 1 } else { 0 }));
        c.push("SuccessCount", Value::Int(self.success_count));
        c.push("TrackOutput", Value::Byte(if self.track_output { 1 } else { 0 }));
        c.push(
            "UpdateLastExecution",
            Value::Byte(
                if self.update_last_execution {
                    1
                } else {
                    0
                },
            ),
        );
        proof {
            assert(compound_view(c) =~= spec_command_block_compound((*self).model()));
        }
        c
    }
}

impl FromCompoundNbt for CommandBlock {
    type V = CommandBlockV;

    open spec fn model(self) -> CommandBlockV {
        CommandBlockV {
            auto: self.auto,
            command: self.command@,
            condition_met: self.condition_met,
            custom_name: opt_view(self.custom_name),
            last_execution: self.last_execution,
            last_output: self.last_output@,
            powered: self.powered,
            success_count: self.success_count,
            track_output: self.track_output,
            update_last_execution: self.update_last_execution,
        }
    }

    open spec fn spec_from_compound(c: CompoundV) -> Result<CommandBlockV, ParseErrorV> {
        spec_command_block(c)
    }

    fn from_compound_nbt(nbt: &NbtCompound) -> (r: Result<Self, SculkParseError>) {
        let auto = get_bool(nbt, "auto");
        let command = match get_owned_string(nbt, "Command") {
            Ok(s) => s,
            Err(e) => return Err(e),
        };
        let condition_met = get_bool(nbt, "conditionMet");
        let custom_name = get_owned_optional_string(nbt, "CustomName");
        let last_execution = match get_long(nbt, "LastExecution") {
            Ok(n) => n,
            Err(e) => return Err(e),
        };
        let last_output = match get_owned_string(nbt, "LastOutput") {
            Ok(s) => s,
            Err(e) => return Err(e),
        };
        let powered = get_bool(nbt, "powered");
        let success_count = match get_int(nbt, "SuccessCount") {
            Ok(n) => n,
            Err(e) => return Err(e),
        };
        let track_output = get_bool(nbt, "TrackOutput");
        let update_last_execution = get_bool(nbt, "UpdateLastExecution");
        Ok(
            CommandBlock {
                auto,
                command,
                condition_met,
                custom_name,
                last_execution,
                last_output,
                powered,
                success_count,
                track_output,
                update_last_execution,
            },
        )
    }
}

} // verus!
