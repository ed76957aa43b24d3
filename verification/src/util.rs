//! The accessor layer: typed, presence-checked reads of scalars, strings,
//! arrays, compounds and lists from a compound node.
//!
//! A required read distinguishes an absent key (`MissingField`) from a
//! present value of the wrong shape (`InvalidField`). An optional read
//! yields `None`, or a fixed default, for both; callers decide per field
//! whether absence is fatal.

use vstd::prelude::*;

use crate::components::{
    components_view, decode_components, spec_optional_components, Components, ComponentsV,
};
use crate::error::{error_view, ParseErrorV, SculkParseError};
use crate::nbt::{
    compound_view, lemma_values_view, lookup, spec_bool_or, spec_byte, spec_float_bits, spec_long,
    spec_string, value_view, values_view, CompoundV, NbtCompound, Value, ValueV,
};
use crate::traits::{models, opt_view, FromCompoundNbt};

verus! {

/// Whether two strings hold the same characters.
pub fn str_eq(a: &str, b: &str) -> (r: bool)
    ensures
        r == (a@ == b@),
{
    let x: String = a.to_owned();
    let y: String = b.to_owned();
    x == y
}

/// The fixed default used by fields that are shown unless a document says
/// otherwise.
pub fn default_true() -> (r: bool)
    ensures
        r == true,
{
    true
}

/// The pair of optional loot-table fields shared by container records.
#[derive(Debug, Clone, PartialEq)]
pub struct LootTableData {
    /// Resource location of the loot table; absent when none is set.
    pub loot_table: Option<String>,
    /// The seed for generating the loot table; absent when none is set.
    pub loot_table_seed: Option<i64>,
}

/// The abstraction of a [`LootTableData`].
pub struct LootTableDataV {
    pub loot_table: Option<Seq<char>>,
    pub loot_table_seed: Option<i64>,
}

/// The abstraction of this record value.
pub open spec fn loot_table_data_view(d: LootTableData) -> LootTableDataV {
    LootTableDataV {
        loot_table: opt_view(d.loot_table),
        loot_table_seed: d.loot_table_seed,
    }
}

/// What reading the loot-table fields yields, for every compound.
pub open spec fn spec_loot_table_data(c: CompoundV) -> LootTableDataV {
    LootTableDataV { loot_table: spec_string(c, "LootTable"@), loot_table_seed: spec_long(c, "LootTableSeed"@) }
}

/// Reads the optional `LootTable` and `LootTableSeed` fields.
pub fn get_loot_table_data(nbt: &NbtCompound) -> (r: LootTableData)
    ensures
        loot_table_data_view(r) == spec_loot_table_data(compound_view(*nbt)),
{
    let loot_table = get_owned_optional_string(nbt, "LootTable");
    let loot_table_seed = nbt.long("LootTableSeed");
    LootTableData { loot_table, loot_table_seed }
}

/// What a required string read yields: the string under `key`, absence as
/// `MissingField`, any other shape as `InvalidField`.
pub open spec fn spec_req_string(c: CompoundV, key: Seq<char>) -> Result<Seq<char>, ParseErrorV> {
    match lookup(c, key) {
        None => Err(ParseErrorV::MissingField(key)),
        Some(ValueV::Text(s)) => Ok(s),
        Some(_) => Err(ParseErrorV::InvalidField(key)),
    }
}

/// What a required one-byte integer read yields.
pub open spec fn spec_req_byte(c: CompoundV, key: Seq<char>) -> Result<i8, ParseErrorV> {
    match lookup(c, key) {
        None => Err(ParseErrorV::MissingField(key)),
        Some(ValueV::Byte(n)) => Ok(n),
        Some(_) => Err(ParseErrorV::InvalidField(key)),
    }
}

/// What a required two-byte integer read yields.
pub open spec fn spec_req_short(c: CompoundV, key: Seq<char>) -> Result<i16, ParseErrorV> {
    match lookup(c, key) {
        None => Err(ParseErrorV::MissingField(key)),
        Some(ValueV::Short(n)) => Ok(n),
        Some(_) => Err(ParseErrorV::InvalidField(key)),
    }
}

/// What a required four-byte integer read yields.
pub open spec fn spec_req_int(c: CompoundV, key: Seq<char>) -> Result<i32, ParseErrorV> {
    match lookup(c, key) {
        None => Err(ParseErrorV::MissingField(key)),
        Some(ValueV::Int(n)) => Ok(n),
        Some(_) => Err(ParseErrorV::InvalidField(key)),
    }
}

/// What a required eight-byte integer read yields.
pub open spec fn spec_req_long(c: CompoundV, key: Seq<char>) -> Result<i64, ParseErrorV> {
    match lookup(c, key) {
        None => Err(ParseErrorV::MissingField(key)),
        Some(ValueV::Long(n)) => Ok(n),
        Some(_) => Err(ParseErrorV::InvalidField(key)),
    }
}

/// What a required single-precision read yields, as a bit pattern.
pub open spec fn spec_req_float_bits(c: CompoundV, key: Seq<char>) -> Result<u32, ParseErrorV> {
    match lookup(c, key) {
        None => Err(ParseErrorV::MissingField(key)),
        Some(ValueV::Float(bits)) => Ok(bits),
        Some(_) => Err(ParseErrorV::InvalidField(key)),
    }
}

/// What a required double-precision read yields, as a bit pattern.
pub open spec fn spec_req_double_bits(c: CompoundV, key: Seq<char>) -> Result<u64, ParseErrorV> {
    match lookup(c, key) {
        None => Err(ParseErrorV::MissingField(key)),
        Some(ValueV::Double(bits)) => Ok(bits),
        Some(_) => Err(ParseErrorV::InvalidField(key)),
    }
}

/// Reads the required string under `key` as an owned, independent copy.
pub fn get_owned_string(nbt: &NbtCompound, key: &str) -> (r: Result<String, SculkParseError>)
    ensures
        (match r {
            Ok(s) => spec_req_string(compound_view(*nbt), key@) == Ok::<_, ParseErrorV>(s@),
            Err(e) => spec_req_string(compound_view(*nbt), key@) == Err::<Seq<char>, _>(
                error_view(e),
            ),
        }),
{
    match nbt.get(key) {
        None => Err(SculkParseError::MissingField(key.to_owned())),
        Some(Value::Text(s)) => Ok(s.clone()),
        Some(_) => Err(SculkParseError::InvalidField(key.to_owned())),
    }
}

/// Reads the optional string under `key`; an absent key, or one holding
/// another shape, is `None`.
pub fn get_owned_optional_string(nbt: &NbtCompound, key: &str) -> (r: Option<String>)
    ensures
        opt_view(r) == spec_string(compound_view(*nbt), key@),
{
    nbt.string(key)
}

/// Reads the conventional optional `Lock` field.
pub fn get_optional_lock(nbt: &NbtCompound) -> (r: Option<String>)
    ensures
        opt_view(r) == spec_string(compound_view(*nbt), "Lock"@),
{
    nbt.string("Lock")
}

/// Reads the conventional optional `CustomName` field.
pub fn get_optional_name(nbt: &NbtCompound) -> (r: Option<String>)
    ensures
        opt_view(r) == spec_string(compound_view(*nbt), "CustomName"@),
{
    nbt.string("CustomName")
}

/// Reads the byte under `key` as a boolean: any non-zero byte is `true`; an
/// absent key, or one holding another shape, is `false`.
pub fn get_bool(nbt: &NbtCompound, key: &str) -> (r: bool)
    ensures
        r == spec_bool_or(compound_view(*nbt), key@, false),
{
    match nbt.byte(key) {
        Some(n) => n != 0,
        None => false,
    }
}

/// Reads the byte under `key` as a boolean, defaulting to `true` when the
/// key is absent or holds another shape.
pub fn get_bool_or_true(nbt: &NbtCompound, key: &str) -> (r: bool)
    ensures
        r == spec_bool_or(compound_view(*nbt), key@, true),
{
    match nbt.byte(key) {
        Some(n) => n != 0,
        None => true,
    }
}

/// Reads the required two-byte integer under `key`.
pub fn get_short(nbt: &NbtCompound, key: &str) -> (r: Result<i16, SculkParseError>)
    ensures
        (match r {
            Ok(n) => spec_req_short(compound_view(*nbt), key@) == Ok::<_, ParseErrorV>(n),
            Err(e) => spec_req_short(compound_view(*nbt), key@) == Err::<i16, _>(error_view(e)),
        }),
{
    match nbt.get(key) {
        None => Err(SculkParseError::MissingField(key.to_owned())),
        Some(Value::Short(n)) => Ok(*n),
        Some(_) => Err(SculkParseError::InvalidField(key.to_owned())),
    }
}

/// Reads the required four-byte integer under `key`.
pub fn get_int(nbt: &NbtCompound, key: &str) -> (r: Result<i32, SculkParseError>)
    ensures
        (match r {
            Ok(n) => spec_req_int(compound_view(*nbt), key@) == Ok::<_, ParseErrorV>(n),
            Err(e) => spec_req_int(compound_view(*nbt), key@) == Err::<i32, _>(error_view(e)),
        }),
{
    match nbt.get(key) {
        None => Err(SculkParseError::MissingField(key.to_owned())),
        Some(Value::Int(n)) => Ok(*n),
        Some(_) => Err(SculkParseError::InvalidField(key.to_owned())),
    }
}

/// Reads the required eight-byte integer under `key`.
pub fn get_long(nbt: &NbtCompound, key: &str) -> (r: Result<i64, SculkParseError>)
    ensures
        (match r {
            Ok(n) => spec_req_long(compound_view(*nbt), key@) == Ok::<_, ParseErrorV>(n),
            Err(e) => spec_req_long(compound_view(*nbt), key@) == Err::<i64, _>(error_view(e)),
        }),
{
    match nbt.get(key) {
        None => Err(SculkParseError::MissingField(key.to_owned())),
        Some(Value::Long(n)) => Ok(*n),
        Some(_) => Err(SculkParseError::InvalidField(key.to_owned())),
    }
}

/// Reads the required single-precision float under `key`, as its bit
/// pattern.
pub fn get_float_bits(nbt: &NbtCompound, key: &str) -> (r: Result<u32, SculkParseError>)
    ensures
        (match r {
            Ok(bits) => spec_req_float_bits(compound_view(*nbt), key@) == Ok::<_, ParseErrorV>(
                bits,
            ),
            Err(e) => spec_req_float_bits(compound_view(*nbt), key@) == Err::<u32, _>(
                error_view(e),
            ),
        }),
{
    match nbt.get(key) {
        None => Err(SculkParseError::MissingField(key.to_owned())),
        Some(Value::Float(bits)) => Ok(*bits),
        Some(_) => Err(SculkParseError::InvalidField(key.to_owned())),
    }
}

/// Reads the required double-precision float under `key`, as its bit
/// pattern.
pub fn get_double_bits(nbt: &NbtCompound, key: &str) -> (r: Result<u64, SculkParseError>)
    ensures
        (match r {
            Ok(bits) => spec_req_double_bits(compound_view(*nbt), key@) == Ok::<_, ParseErrorV>(
                bits,
            ),
            Err(e) => spec_req_double_bits(compound_view(*nbt), key@) == Err::<u64, _>(
                error_view(e),
            ),
        }),
{
    match nbt.get(key) {
        None => Err(SculkParseError::MissingField(key.to_owned())),
        Some(Value::Double(bits)) => Ok(*bits),
        Some(_) => Err(SculkParseError::InvalidField(key.to_owned())),
    }
}

/// The byte under `key` read as an optional boolean: absent, or another
/// shape, is `None`.
pub open spec fn spec_opt_bool(c: CompoundV, key: Seq<char>) -> Option<bool> {
    match spec_byte(c, key) {
        Some(n) => Some(n != 0),
        None => None,
    }
}

/// Reads the byte under `key` as an optional boolean.
pub fn get_opt_bool(nbt: &NbtCompound, key: &str) -> (r: Option<bool>)
    ensures
        r == spec_opt_bool(compound_view(*nbt), key@),
{
    match nbt.byte(key) {
        Some(n) => Some(n != 0),
        None => None,
    }
}

/// The single-precision bit pattern under `key`, or `default` when the key
/// is absent or holds another shape.
pub open spec fn spec_float_bits_or(c: CompoundV, key: Seq<char>, default: u32) -> u32 {
    match spec_float_bits(c, key) {
        Some(bits) => bits,
        None => default,
    }
}

/// Reads the single-precision float under `key` as its bit pattern,
/// defaulting when the key is absent or holds another shape.
pub fn get_float_bits_or(nbt: &NbtCompound, key: &str, default: u32) -> (r: u32)
    ensures
        r == spec_float_bits_or(compound_view(*nbt), key@, default),
{
    match nbt.float_bits(key) {
        Some(bits) => bits,
        None => default,
    }
}

/// What decoding every item of a list as a record yields: the records in
/// order; an item that is not a compound is `InvalidField` naming the
/// list's key; a failing record decode fails the list with its own error;
/// the first failing item wins.
pub open spec fn spec_compound_items<T: FromCompoundNbt>(vs: Seq<ValueV>, key: Seq<char>) -> Result<
    Seq<T::V>,
    ParseErrorV,
>
    decreases vs.len(),
{
    if vs.len() == 0 {
        Ok(Seq::empty())
    } else {
        match vs[0] {
            ValueV::Compound(sub) => match T::spec_from_compound(sub) {
                Ok(x) => match spec_compound_items::<T>(vs.subrange(1, vs.len() as int), key) {
                    Ok(rest) => Ok(seq![x] + rest),
                    Err(e) => Err(e),
                },
                Err(e) => Err(e),
            },
            _ => Err(ParseErrorV::InvalidField(key)),
        }
    }
}

/// Decoding a list whose first `i` items are compounds that decode is
/// decided by the remaining items, prefixed by those records.
pub proof fn lemma_compound_items_prefix<T: FromCompoundNbt>(vs: Seq<ValueV>, key: Seq<char>, i: int)
    requires
        0 <= i <= vs.len(),
        forall|j: int|
            0 <= j < i ==> vs[j] is Compound && T::spec_from_compound(vs[j]->Compound_0) is Ok,
    ensures
        spec_compound_items::<T>(vs, key) == (match spec_compound_items::<T>(
            vs.subrange(i, vs.len() as int),
            key,
        ) {
            Ok(rest) => Ok::<_, ParseErrorV>(
                Seq::new(i as nat, |j: int| T::spec_from_compound(vs[j]->Compound_0)->Ok_0) + rest,
            ),
            Err(e) => Err::<Seq<T::V>, _>(e),
        }),
    decreases i,
{
    if i == 0 {
        assert(vs.subrange(0, vs.len() as int) =~= vs);
        if spec_compound_items::<T>(vs, key) is Ok {
            assert(Seq::new(0nat, |j: int| T::spec_from_compound(vs[j]->Compound_0)->Ok_0)
                + spec_compound_items::<T>(vs, key)->Ok_0 =~= spec_compound_items::<T>(
                vs,
                key,
            )->Ok_0);
        }
    } else {
        lemma_compound_items_prefix::<T>(vs, key, i - 1);
        let mid = vs.subrange(i - 1, vs.len() as int);
        let tail = vs.subrange(i, vs.len() as int);
        assert(mid[0] == vs[i - 1]);
        assert(mid.subrange(1, mid.len() as int) =~= tail);
        match spec_compound_items::<T>(tail, key) {
            Ok(rest) => {
                assert(spec_compound_items::<T>(mid, key) == Ok::<_, ParseErrorV>(
                    seq![T::spec_from_compound(vs[i - 1]->Compound_0)->Ok_0] + rest,
                ));
                assert(Seq::new(
                    (i - 1) as nat,
                    |j: int| T::spec_from_compound(vs[j]->Compound_0)->Ok_0,
                ) + (seq![T::spec_from_compound(vs[i - 1]->Compound_0)->Ok_0] + rest) =~= Seq::new(
                    i as nat,
                    |j: int| T::spec_from_compound(vs[j]->Compound_0)->Ok_0,
                ) + rest);
            },
            Err(e) => {
                assert(spec_compound_items::<T>(mid, key) == Err::<Seq<T::V>, _>(e));
            },
        }
    }
}

/// What decoding the list-of-records field under `key` yields: an absent
/// key is the empty sequence — list-valued fields are conventionally
/// optional with an empty default — while a value of another shape is
/// `InvalidField`.
pub open spec fn spec_t_compound_vec<T: FromCompoundNbt>(c: CompoundV, key: Seq<char>) -> Result<
    Seq<T::V>,
    ParseErrorV,
> {
    match lookup(c, key) {
        None => Ok(Seq::empty()),
        Some(ValueV::List(vs)) => spec_compound_items::<T>(vs, key),
        Some(_) => Err(ParseErrorV::InvalidField(key)),
    }
}

/// Decodes the list of records under `key`; an absent key yields the empty
/// vector.
pub fn get_t_compound_vec<T: FromCompoundNbt>(nbt: &NbtCompound, key: &str) -> (r: Result<
    Vec<T>,
    SculkParseError,
>)
    ensures
        (match r {
            Ok(xs) => spec_t_compound_vec::<T>(compound_view(*nbt), key@) == Ok::<_, ParseErrorV>(
                models(xs@),
            ),
            Err(e) => spec_t_compound_vec::<T>(compound_view(*nbt), key@) == Err::<Seq<T::V>, _>(
                error_view(e),
            ),
        }),
{
    let vs: &Vec<Value> = match nbt.get(key) {
        None => {
            let out: Vec<T> = Vec::new();
            proof {
                assert(models(out@) =~= Seq::<T::V>::empty());
            }
            return Ok(out);
        },
        Some(Value::List(vs)) => vs,
        Some(_) => {
            return Err(SculkParseError::InvalidField(key.to_owned()));
        },
    };
    decode_compound_items(vs, key)
}

/// Decodes every item of `list` as a record; the caller names the field
/// the list came from for the failure report.
pub fn decode_compound_items<T: FromCompoundNbt>(list: &Vec<Value>, key: &str) -> (r: Result<
    Vec<T>,
    SculkParseError,
>)
    ensures
        (match r {
            Ok(xs) => spec_compound_items::<T>(values_view(list@), key@) == Ok::<_, ParseErrorV>(
                models(xs@),
            ),
            Err(e) => spec_compound_items::<T>(values_view(list@), key@) == Err::<Seq<T::V>, _>(
                error_view(e),
            ),
        }),
{
    let ghost lv = values_view(list@);
    proof {
        lemma_values_view(list@);
    }
    let n = list.len();
    let mut out: Vec<T> = Vec::new();
    let mut i: usize = 0;
    while i < n
        invariant
            n == list@.len(),
            lv == values_view(list@),
            lv.len() == n,
            forall|j: int| 0 <= j < n ==> lv[j] == value_view(list@[j]),
            0 <= i <= n,
            out@.len() == i,
            forall|j: int|
                0 <= j < i ==> lv[j] is Compound && T::spec_from_compound(lv[j]->Compound_0) is Ok,
            forall|j: int|
                0 <= j < i ==> T::spec_from_compound(lv[j]->Compound_0) == Ok::<_, ParseErrorV>(
                    out@[j].model(),
                ),
        decreases n - i,
    {
        match &list[i] {
            Value::Compound(sub) => {
                match T::from_compound_nbt(sub) {
                    Ok(x) => {
                        out.push(x);
                    },
                    Err(e) => {
                        proof {
                            lemma_compound_items_prefix::<T>(lv, key@, i as int);
                        }
                        return Err(e);
                    },
                }
            },
            _ => {
                proof {
                    lemma_compound_items_prefix::<T>(lv, key@, i as int);
                }
                return Err(SculkParseError::InvalidField(key.to_owned()));
            },
        }
        i += 1;
    }
    proof {
        lemma_compound_items_prefix::<T>(lv, key@, n as int);
        assert(lv.subrange(n as int, lv.len() as int).len() == 0);
        assert(Seq::new(n as nat, |j: int| T::spec_from_compound(lv[j]->Compound_0)->Ok_0)
            + Seq::<T::V>::empty() =~= Seq::new(
            n as nat,
            |j: int| T::spec_from_compound(lv[j]->Compound_0)->Ok_0,
        ));
        assert(models(out@) =~= Seq::new(
            n as nat,
            |j: int| T::spec_from_compound(lv[j]->Compound_0)->Ok_0,
        ));
    }
    Ok(out)
}

/// Every item of the list as a four-byte integer, when they all are.
pub open spec fn spec_int_items(vs: Seq<ValueV>) -> Option<Seq<i32>> {
    if forall|i: int| 0 <= i < vs.len() ==> vs[i] is Int {
        Some(Seq::new(vs.len(), |i: int| vs[i]->Int_0))
    } else {
        None
    }
}

/// What reading a list of four-byte integers under `key` yields: an absent
/// key is the empty sequence; a list with any item of another kind, or a
/// value of another shape, is `InvalidField`.
pub open spec fn spec_get_int_array(c: CompoundV, key: Seq<char>) -> Result<Seq<i32>, ParseErrorV> {
    match lookup(c, key) {
        None => Ok(Seq::empty()),
        Some(ValueV::List(vs)) => match spec_int_items(vs) {
            Some(ns) => Ok(ns),
            None => Err(ParseErrorV::InvalidField(key)),
        },
        Some(_) => Err(ParseErrorV::InvalidField(key)),
    }
}

/// Reads the list of four-byte integers under `key`; an absent key yields
/// the empty vector.
pub fn get_int_array(nbt: &NbtCompound, key: &str) -> (r: Result<Vec<i32>, SculkParseError>)
    ensures
        (match r {
            Ok(ns) => spec_get_int_array(compound_view(*nbt), key@) == Ok::<_, ParseErrorV>(ns@),
            Err(e) => spec_get_int_array(compound_view(*nbt), key@) == Err::<Seq<i32>, _>(
                error_view(e),
            ),
        }),
{
    let vs: &Vec<Value> = match nbt.get(key) {
        None => {
            let out: Vec<i32> = Vec::new();
            proof {
                assert(out@ =~= Seq::<i32>::empty());
            }
            return Ok(out);
        },
        Some(Value::List(vs)) => vs,
        Some(_) => {
            return Err(SculkParseError::InvalidField(key.to_owned()));
        },
    };
    let ghost lv = values_view(vs@);
    proof {
        lemma_values_view(vs@);
    }
    let n = vs.len();
    let mut out: Vec<i32> = Vec::new();
    let mut i: usize = 0;
    while i < n
        invariant
            n == vs@.len(),
            lv == values_view(vs@),
            lv.len() == n,
            lookup(compound_view(*nbt), key@) == Some(ValueV::List(lv)),
            forall|j: int| 0 <= j < n ==> lv[j] == value_view(vs@[j]),
            0 <= i <= n,
            out@.len() == i,
            forall|j: int| 0 <= j < i ==> lv[j] == ValueV::Int(out@[j]),
        decreases n - i,
    {
        match &vs[i] {
            Value::Int(v) => {
                proof {
                    assert(lv[i as int] == ValueV::Int(*v));
                }
                out.push(*v);
            },
            _ => {
                proof {
                    assert(!(forall|k: int| 0 <= k < lv.len() ==> lv[k] is Int)) by {
                        assert(!(lv[i as int] is Int));
                    }
                    assert(spec_int_items(lv) is None);
                }
                return Err(SculkParseError::InvalidField(key.to_owned()));
            },
        }
        i += 1;
    }
    proof {
        assert(forall|k: int| 0 <= k < lv.len() ==> lv[k] is Int);
        assert(out@ =~= Seq::new(lv.len(), |i: int| lv[i]->Int_0));
    }
    Ok(out)
}

/// Every item of the list as a double-precision bit pattern, when they
/// all are doubles.
pub open spec fn spec_double_items(vs: Seq<ValueV>) -> Option<Seq<u64>> {
    if forall|i: int| 0 <= i < vs.len() ==> vs[i] is Double {
        Some(Seq::new(vs.len(), |i: int| vs[i]->Double_0))
    } else {
        None
    }
}

/// What reading a list of double-precision floats under `key` yields, as
/// bit patterns; absence is the empty sequence, any other shape
/// `InvalidField`.
pub open spec fn spec_get_doubles_array(c: CompoundV, key: Seq<char>) -> Result<
    Seq<u64>,
    ParseErrorV,
> {
    match lookup(c, key) {
        None => Ok(Seq::empty()),
        Some(ValueV::List(vs)) => match spec_double_items(vs) {
            Some(bits) => Ok(bits),
            None => Err(ParseErrorV::InvalidField(key)),
        },
        Some(_) => Err(ParseErrorV::InvalidField(key)),
    }
}

/// Reads the list of double-precision floats under `key`, as bit
/// patterns; an absent key yields the empty vector.
pub fn get_doubles_array(nbt: &NbtCompound, key: &str) -> (r: Result<Vec<u64>, SculkParseError>)
    ensures
        (match r {
            Ok(bits) => spec_get_doubles_array(compound_view(*nbt), key@) == Ok::<_, ParseErrorV>(
                bits@,
            ),
            Err(e) => spec_get_doubles_array(compound_view(*nbt), key@) == Err::<Seq<u64>, _>(
                error_view(e),
            ),
        }),
{
    let vs: &Vec<Value> = match nbt.get(key) {
        None => {
            let out: Vec<u64> = Vec::new();
            proof {
                assert(out@ =~= Seq::<u64>::empty());
            }
            return Ok(out);
        },
        Some(Value::List(vs)) => vs,
        Some(_) => {
            return Err(SculkParseError::InvalidField(key.to_owned()));
        },
    };
    let ghost lv = values_view(vs@);
    proof {
        lemma_values_view(vs@);
    }
    let n = vs.len();
    let mut out: Vec<u64> = Vec::new();
    let mut i: usize = 0;
    while i < n
        invariant
            n == vs@.len(),
            lv == values_view(vs@),
            lv.len() == n,
            lookup(compound_view(*nbt), key@) == Some(ValueV::List(lv)),
            forall|j: int| 0 <= j < n ==> lv[j] == value_view(vs@[j]),
            0 <= i <= n,
            out@.len() == i,
            forall|j: int| 0 <= j < i ==> lv[j] == ValueV::Double(out@[j]),
        decreases n - i,
    {
        match &vs[i] {
            Value::Double(bits) => {
                proof {
                    assert(lv[i as int] == ValueV::Double(*bits));
                }
                out.push(*bits);
            },
            _ => {
                proof {
                    assert(!(forall|k: int| 0 <= k < lv.len() ==> lv[k] is Double)) by {
                        assert(!(lv[i as int] is Double));
                    }
                    assert(spec_double_items(lv) is None);
                }
                return Err(SculkParseError::InvalidField(key.to_owned()));
            },
        }
        i += 1;
    }
    proof {
        assert(forall|k: int| 0 <= k < lv.len() ==> lv[k] is Double);
        assert(out@ =~= Seq::new(lv.len(), |i: int| lv[i]->Double_0));
    }
    Ok(out)
}

/// Reads the optional component collection of an item compound: a missing
/// `components` field is no error, merely no collection; every other
/// failure inside the collection stands.
pub fn get_optional_components(nbt: &NbtCompound) -> (r: Result<
    Option<Components>,
    SculkParseError,
>)
    ensures
        (match r {
            Ok(Some(x)) => spec_optional_components(compound_view(*nbt)) == Ok::<_, ParseErrorV>(
                Some(components_view(x)),
            ),
            Ok(None) => spec_optional_components(compound_view(*nbt)) == Ok::<
                Option<ComponentsV>,
                ParseErrorV,
            >(None),
            Err(e) => spec_optional_components(compound_view(*nbt)) == Err::<
                Option<ComponentsV>,
                _,
            >(error_view(e)),
        }),
    decreases compound_view(*nbt), 1int,
{
    match decode_components(nbt) {
        Ok(c) => Ok(Some(c)),
        Err(SculkParseError::MissingField(k)) => {
            if str_eq("components", k.as_str()) {
                Ok(None)
            } else {
                Err(SculkParseError::MissingField(k))
            }
        },
        Err(e) => Err(e),
    }
}

/// What decoding a free-standing list of records yields: a list whose
/// items are not compounds is the empty sequence — the document writes
/// homogeneous lists, so the first item decides.
pub open spec fn spec_t_list<T: FromCompoundNbt>(vs: Seq<ValueV>, key: Seq<char>) -> Result<
    Seq<T::V>,
    ParseErrorV,
> {
    if vs.len() > 0 && !(vs[0] is Compound) {
        Ok(Seq::empty())
    } else {
        spec_compound_items::<T>(vs, key)
    }
}

/// Decodes a free-standing list of records; a list of another item kind
/// yields the empty vector.
pub fn get_t_list<T: FromCompoundNbt>(list: &Vec<Value>, key: &str) -> (r: Result<
    Vec<T>,
    SculkParseError,
>)
    ensures
        (match r {
            Ok(xs) => spec_t_list::<T>(values_view(list@), key@) == Ok::<_, ParseErrorV>(
                models(xs@),
            ),
            Err(e) => spec_t_list::<T>(values_view(list@), key@) == Err::<Seq<T::V>, _>(
                error_view(e),
            ),
        }),
{
    proof {
        lemma_values_view(list@);
    }
    if list.len() > 0 {
        let first_is_compound = match &list[0] {
            Value::Compound(_) => true,
            _ => false,
        };
        if !first_is_compound {
            let out: Vec<T> = Vec::new();
            proof {
                assert(models(out@) =~= Seq::<T::V>::empty());
            }
            return Ok(out);
        }
    }
    decode_compound_items(list, key)
}

} // verus!
