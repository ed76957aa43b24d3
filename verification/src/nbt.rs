//! The document node model: a tagged tree of scalars, strings, arrays,
//! lists and string-keyed compounds, together with typed, presence-checked
//! accessors.
//!
//! Floating-point payloads are carried as their IEEE-754 bit patterns
//! (`u32` for single, `u64` for double precision); decoding only moves such
//! values, it never computes with them.

use vstd::prelude::*;

verus! {

broadcast use vstd::std_specs::vec::axiom_vec_decreases_to_view, vstd::seq::axiom_seq_index_decreases, vstd::seq::axiom_seq_subrange_decreases;

/// One node of a document tree.
#[derive(Debug, PartialEq)]
pub enum Value {
    /// A one-byte integer; also the on-document representation of booleans.
    Byte(i8),
    /// A two-byte integer.
    Short(i16),
    /// A four-byte integer.
    Int(i32),
    /// An eight-byte integer.
    Long(i64),
    /// A single-precision float, as its IEEE-754 bit pattern.
    Float(u32),
    /// A double-precision float, as its IEEE-754 bit pattern.
    Double(u64),
    /// A string.
    Text(String),
    /// A packed array of four-byte integers.
    IntArray(Vec<i32>),
    /// A list of nodes.
    List(Vec<Value>),
    /// A compound: ordered string-keyed fields.
    Compound(NbtCompound),
}

/// A compound node: an ordered sequence of string-keyed fields.
///
/// Documents produced by a parser have distinct keys within one compound;
/// the accessors use the first entry with a matching key either way.
#[derive(Debug, PartialEq)]
pub struct NbtCompound {
    pub entries: Vec<(String, Value)>,
}

/// The mathematical abstraction of a [`Value`].
pub enum ValueV {
    Byte(i8),
    Short(i16),
    Int(i32),
    Long(i64),
    Float(u32),
    Double(u64),
    Text(Seq<char>),
    IntArray(Seq<i32>),
    List(Seq<ValueV>),
    Compound(Seq<(Seq<char>, ValueV)>),
}

/// The abstraction of a compound: its entries, in order.
pub type CompoundV = Seq<(Seq<char>, ValueV)>;

/// The abstraction of a node.
pub open spec fn value_view(v: Value) -> ValueV
    decreases v,
{
    match v {
        Value::Byte(n) => ValueV::Byte(n),
        Value::Short(n) => ValueV::Short(n),
        Value::Int(n) => ValueV::Int(n),
        Value::Long(n) => ValueV::Long(n),
        Value::Float(bits) => ValueV::Float(bits),
        Value::Double(bits) => ValueV::Double(bits),
        Value::Text(s) => ValueV::Text(s@),
        Value::IntArray(ns) => ValueV::IntArray(ns@),
        Value::List(vs) => {
            proof {
                assert(decreases_to!(v => vs));
                assert(decreases_to!(vs => vs@));
            }
            ValueV::List(values_view(vs@))
        },
        Value::Compound(c) => ValueV::Compound(compound_view(c)),
    }
}

/// The abstraction of a sequence of nodes, elementwise.
pub open spec fn values_view(vs: Seq<Value>) -> Seq<ValueV>
    decreases vs,
{
    if vs.len() == 0 {
        Seq::empty()
    } else {
        seq![value_view(vs[0])] + values_view(vs.subrange(1, vs.len() as int))
    }
}

/// The abstraction of a compound: each entry as (key, value).
pub open spec fn compound_view(c: NbtCompound) -> CompoundV
    decreases c,
{
    proof {
        assert(decreases_to!(c => c.entries));
        assert(decreases_to!(c.entries => c.entries@));
    }
    entries_view(c.entries@)
}

/// The abstraction of a compound's entries, elementwise.
pub open spec fn entries_view(es: Seq<(String, Value)>) -> CompoundV
    decreases es,
{
    if es.len() == 0 {
        Seq::empty()
    } else {
        proof {
            assert(decreases_to!(es => es[0]));
            assert(decreases_to!(es[0] => es[0].1));
        }
        seq![(es[0].0@, value_view(es[0].1))] + entries_view(es.subrange(1, es.len() as int))
    }
}

/// `values_view` maps the abstraction over the elements.
pub proof fn lemma_values_view(vs: Seq<Value>)
    ensures
        values_view(vs).len() == vs.len(),
        forall|i: int| 0 <= i < vs.len() ==> values_view(vs)[i] == value_view(vs[i]),
    decreases vs.len(),
{
    if vs.len() != 0 {
        lemma_values_view(vs.subrange(1, vs.len() as int));
    }
}

/// `entries_view` maps the abstraction over the entries.
pub proof fn lemma_entries_view(es: Seq<(String, Value)>)
    ensures
        entries_view(es).len() == es.len(),
        forall|i: int|
            0 <= i < es.len() ==> entries_view(es)[i] == (es[i].0@, value_view(es[i].1)),
    decreases es.len(),
{
    if es.len() != 0 {
        lemma_entries_view(es.subrange(1, es.len() as int));
    }
}

/// The value stored under `key`, taking the first entry with that key;
/// `None` when no entry has that key.
pub open spec fn lookup(c: CompoundV, key: Seq<char>) -> Option<ValueV>
    decreases c.len(),
{
    if c.len() == 0 {
        None
    } else if c[0].0 == key {
        Some(c[0].1)
    } else {
        lookup(c.subrange(1, c.len() as int), key)
    }
}

/// A successful lookup returns a structurally smaller value than the
/// compound it searched; the recursive record decoders terminate by it.
pub proof fn lemma_lookup_decreases(c: CompoundV, key: Seq<char>)
    requires
        lookup(c, key) is Some,
    ensures
        decreases_to!(c => lookup(c, key)->0),
    decreases c.len(),
{
    if c.len() != 0 && c[0].0 != key {
        let rest = c.subrange(1, c.len() as int);
        lemma_lookup_decreases(rest, key);
        assert(decreases_to!(c => rest));
    } else {
        assert(decreases_to!(c => c[0]));
        assert(decreases_to!(c[0] => c[0].1));
    }
}

/// The compound with every entry under `key` removed, the rest in order.
pub open spec fn remove_key(c: CompoundV, key: Seq<char>) -> CompoundV
    decreases c.len(),
{
    if c.len() == 0 {
        Seq::empty()
    } else if c[0].0 == key {
        remove_key(c.subrange(1, c.len() as int), key)
    } else {
        seq![c[0]] + remove_key(c.subrange(1, c.len() as int), key)
    }
}

/// Removing a key makes exactly that key absent: its own lookup reports
/// nothing, and every other key's lookup is untouched.
pub proof fn lemma_lookup_remove(c: CompoundV, key: Seq<char>, other: Seq<char>)
    requires
        other != key,
    ensures
        lookup(remove_key(c, key), key) is None,
        lookup(remove_key(c, key), other) == lookup(c, other),
    decreases c.len(),
{
    if c.len() != 0 {
        let rest = c.subrange(1, c.len() as int);
        lemma_lookup_remove(rest, key, other);
        if c[0].0 != key {
            let r = seq![c[0]] + remove_key(rest, key);
            assert(r[0] == c[0]);
            assert(r.subrange(1, r.len() as int) =~= remove_key(rest, key));
        }
    }
}

/// If the first `i` keys all differ from `key`, the lookup is decided by the
/// remaining entries.
proof fn lemma_lookup_skip(c: CompoundV, key: Seq<char>, i: int)
    requires
        0 <= i <= c.len(),
        forall|j: int| 0 <= j < i ==> c[j].0 != key,
    ensures
        lookup(c, key) == lookup(c.subrange(i, c.len() as int), key),
    decreases i,
{
    if i > 0 {
        lemma_lookup_skip(c, key, i - 1);
        let rest = c.subrange(i - 1, c.len() as int);
        assert(rest[0] == c[i - 1]);
        assert(lookup(rest, key) == lookup(rest.subrange(1, rest.len() as int), key));
        assert(rest.subrange(1, rest.len() as int) =~= c.subrange(i, c.len() as int));
    } else {
        assert(c.subrange(0, c.len() as int) =~= c);
    }
}

impl NbtCompound {
    /// An empty compound.
    pub fn new() -> (r: NbtCompound)
        ensures
            compound_view(r) == Seq::<(Seq<char>, ValueV)>::empty(),
    {
        let entries: Vec<(String, Value)> = Vec::new();
        let r = NbtCompound { entries };
        proof {
            assert(compound_view(r) =~= Seq::<(Seq<char>, ValueV)>::empty());
        }
        r
    }

    /// Appends a field. The callers that build documents use distinct keys;
    /// with a repeated key the first entry keeps deciding every lookup.
    pub fn push(&mut self, key: &str, value: Value)
        ensures
            compound_view(*final(self)) == compound_view(*old(self)).push(
                (key@, value_view(value)),
            ),
    {
        let k: String = key.to_owned();
        self.entries.push((k, value));
        proof {
            lemma_entries_view(self.entries@);
            lemma_entries_view(old(self).entries@);
            assert(compound_view(*self) =~= compound_view(*old(self)).push(
                (key@, value_view(value)),
            ));
        }
    }

    /// The number of fields.
    pub fn len(&self) -> (r: usize)
        ensures
            r == compound_view(*self).len(),
    {
        proof {
            lemma_entries_view(self.entries@);
        }
        self.entries.len()
    }

    /// The value stored under `key`, or `None` when the key is absent.
    pub fn get<'a>(&'a self, key: &str) -> (r: Option<&'a Value>)
        ensures
            match r {
                Some(v) => lookup(compound_view(*self), key@) == Some(value_view(*v)),
                None => lookup(compound_view(*self), key@) is None,
            },
    {
        let k: String = key.to_owned();
        let n = self.entries.len();
        proof {
            lemma_entries_view(self.entries@);
        }
        let mut i: usize = 0;
        while i < n
            invariant
                n == self.entries.len(),
                n == compound_view(*self).len(),
                0 <= i <= n,
                k@ == key@,
                forall|j: int| 0 <= j < i ==> compound_view(*self)[j].0 != key@,
            decreases n - i,
        {
            proof {
                lemma_entries_view(self.entries@);
            }
            if self.entries[i].0 == k {
                proof {
                    lemma_lookup_skip(compound_view(*self), key@, i as int);
                    let rest = compound_view(*self).subrange(
                        i as int,
                        compound_view(*self).len() as int,
                    );
                    assert(rest[0] == compound_view(*self)[i as int]);
                }
                return Some(&self.entries[i].1);
            }
            i += 1;
        }
        proof {
            lemma_lookup_skip(compound_view(*self), key@, n as int);
        }
        None
    }

    /// The one-byte integer stored under `key`; `None` when the key is
    /// absent or holds another shape.
    pub fn byte(&self, key: &str) -> (r: Option<i8>)
        ensures
            r == spec_byte(compound_view(*self), key@),
    {
        match self.get(key) {
            Some(Value::Byte(n)) => Some(*n),
            _ => None,
        }
    }

    /// The two-byte integer stored under `key`.
    pub fn short(&self, key: &str) -> (r: Option<i16>)
        ensures
            r == spec_short(compound_view(*self), key@),
    {
        match self.get(key) {
            Some(Value::Short(n)) => Some(*n),
            _ => None,
        }
    }

    /// The four-byte integer stored under `key`.
    pub fn int32(&self, key: &str) -> (r: Option<i32>)
        ensures
            r == spec_int(compound_view(*self), key@),
    {
        match self.get(key) {
            Some(Value::Int(n)) => Some(*n),
            _ => None,
        }
    }

    /// The eight-byte integer stored under `key`.
    pub fn long(&self, key: &str) -> (r: Option<i64>)
        ensures
            r == spec_long(compound_view(*self), key@),
    {
        match self.get(key) {
            Some(Value::Long(n)) => Some(*n),
            _ => None,
        }
    }

    /// The single-precision bit pattern stored under `key`.
    pub fn float_bits(&self, key: &str) -> (r: Option<u32>)
        ensures
            r == spec_float_bits(compound_view(*self), key@),
    {
        match self.get(key) {
            Some(Value::Float(bits)) => Some(*bits),
            _ => None,
        }
    }

    /// The double-precision bit pattern stored under `key`.
    pub fn double_bits(&self, key: &str) -> (r: Option<u64>)
        ensures
            r == spec_double_bits(compound_view(*self), key@),
    {
        match self.get(key) {
            Some(Value::Double(bits)) => Some(*bits),
            _ => None,
        }
    }

    /// An owned copy of the string stored under `key`; the copy outlives the
    /// source node.
    pub fn string(&self, key: &str) -> (r: Option<String>)
        ensures
            match r {
                Some(s) => spec_string(compound_view(*self), key@) == Some(s@),
                None => spec_string(compound_view(*self), key@) is None,
            },
    {
        match self.get(key) {
            Some(Value::Text(s)) => Some(s.clone()),
            _ => None,
        }
    }

    /// The packed integer array stored under `key`.
    pub fn int_array<'a>(&'a self, key: &str) -> (r: Option<&'a Vec<i32>>)
        ensures
            match r {
                Some(ns) => spec_int_array(compound_view(*self), key@) == Some(ns@),
                None => spec_int_array(compound_view(*self), key@) is None,
            },
    {
        match self.get(key) {
            Some(Value::IntArray(ns)) => Some(ns),
            _ => None,
        }
    }

    /// The list stored under `key`.
    pub fn list<'a>(&'a self, key: &str) -> (r: Option<&'a Vec<Value>>)
        ensures
            match r {
                Some(vs) => spec_list(compound_view(*self), key@) == Some(values_view(vs@)),
                None => spec_list(compound_view(*self), key@) is None,
            },
    {
        match self.get(key) {
            Some(Value::List(vs)) => Some(vs),
            _ => None,
        }
    }

    /// The nested compound stored under `key`.
    pub fn compound<'a>(&'a self, key: &str) -> (r: Option<&'a NbtCompound>)
        ensures
            match r {
                Some(c) => spec_compound(compound_view(*self), key@) == Some(compound_view(*c)),
                None => spec_compound(compound_view(*self), key@) is None,
            },
    {
        match self.get(key) {
            Some(Value::Compound(c)) => Some(c),
            _ => None,
        }
    }

    /// An owned copy of the whole compound.
    pub fn duplicate(&self) -> (r: NbtCompound)
        ensures
            compound_view(r) == compound_view(*self),
        decreases *self,
    {
        let n = self.entries.len();
        let mut out: Vec<(String, Value)> = Vec::new();
        let mut i: usize = 0;
        while i < n
            invariant
                n == self.entries.len(),
                0 <= i <= n,
                out@.len() == i,
                forall|j: int|
                    0 <= j < i ==> out@[j].0@ == self.entries@[j].0@ && value_view(out@[j].1)
                        == value_view(self.entries@[j].1),
            decreases n - i,
        {
            proof {
                assert(decreases_to!(*self => self.entries));
                assert(decreases_to!(self.entries@ => self.entries@[i as int]));
                assert(decreases_to!(self.entries@[i as int] => self.entries@[i as int].1));
            }
            let k: String = self.entries[i].0.clone();
            let v: Value = self.entries[i].1.duplicate();
            out.push((k, v));
            i += 1;
        }
        let r = NbtCompound { entries: out };
        proof {
            lemma_entries_view(r.entries@);
            lemma_entries_view(self.entries@);
            assert(compound_view(r) =~= compound_view(*self));
        }
        r
    }
}

impl Value {
    /// An owned copy of the node.
    pub fn duplicate(&self) -> (r: Value)
        ensures
            value_view(r) == value_view(*self),
        decreases *self,
    {
        match self {
            Value::Byte(n) => Value::Byte(*n),
            Value::Short(n) => Value::Short(*n),
            Value::Int(n) => Value::Int(*n),
            Value::Long(n) => Value::Long(*n),
            Value::Float(bits) => Value::Float(*bits),
            Value::Double(bits) => Value::Double(*bits),
            Value::Text(s) => Value::Text(s.clone()),
            Value::IntArray(ns) => {
                let n = ns.len();
                let mut out: Vec<i32> = Vec::new();
                let mut i: usize = 0;
                while i < n
                    invariant
                        n == ns.len(),
                        0 <= i <= n,
                        out@ == ns@.subrange(0, i as int),
                    decreases n - i,
                {
                    out.push(ns[i]);
                    proof {
                        assert(out@ =~= ns@.subrange(0, i + 1 as int));
                    }
                    i += 1;
                }
                proof {
                    assert(ns@.subrange(0, n as int) =~= ns@);
                }
                Value::IntArray(out)
            },
            Value::List(vs) => {
                let n = vs.len();
                let mut out: Vec<Value> = Vec::new();
                let mut i: usize = 0;
                while i < n
                    invariant
                        n == vs.len(),
                        *self == Value::List(*vs),
                        0 <= i <= n,
                        out@.len() == i,
                        forall|j: int| 0 <= j < i ==> value_view(out@[j]) == value_view(vs@[j]),
                    decreases n - i,
                {
                    proof {
                        assert(decreases_to!(*self => (*self)->List_0));
                        assert(decreases_to!(vs@ => vs@[i as int]));
                    }
                    let v: Value = vs[i].duplicate();
                    out.push(v);
                    i += 1;
                }
                let r = Value::List(out);
                proof {
                    lemma_values_view(r->List_0@);
                    lemma_values_view(vs@);
                    assert(values_view(r->List_0@) =~= values_view(vs@));
                }
                r
            },
            Value::Compound(c) => {
                proof {
                    assert(decreases_to!(*self => *c));
                }
                Value::Compound(c.duplicate())
            },
        }
    }
}

/// The one-byte integer under `key`, when that is what the key holds.
pub open spec fn spec_byte(c: CompoundV, key: Seq<char>) -> Option<i8> {
    match lookup(c, key) {
        Some(ValueV::Byte(n)) => Some(n),
        _ => None,
    }
}

/// The two-byte integer under `key`, when that is what the key holds.
pub open spec fn spec_short(c: CompoundV, key: Seq<char>) -> Option<i16> {
    match lookup(c, key) {
        Some(ValueV::Short(n)) => Some(n),
        _ => None,
    }
}

/// The four-byte integer under `key`, when that is what the key holds.
pub open spec fn spec_int(c: CompoundV, key: Seq<char>) -> Option<i32> {
    match lookup(c, key) {
        Some(ValueV::Int(n)) => Some(n),
        _ => None,
    }
}

/// The eight-byte integer under `key`, when that is what the key holds.
pub open spec fn spec_long(c: CompoundV, key: Seq<char>) -> Option<i64> {
    match lookup(c, key) {
        Some(ValueV::Long(n)) => Some(n),
        _ => None,
    }
}

/// The single-precision bit pattern under `key`.
pub open spec fn spec_float_bits(c: CompoundV, key: Seq<char>) -> Option<u32> {
    match lookup(c, key) {
        Some(ValueV::Float(bits)) => Some(bits),
        _ => None,
    }
}

/// The double-precision bit pattern under `key`.
pub open spec fn spec_double_bits(c: CompoundV, key: Seq<char>) -> Option<u64> {
    match lookup(c, key) {
        Some(ValueV::Double(bits)) => Some(bits),
        _ => None,
    }
}

/// The string under `key`, when that is what the key holds.
pub open spec fn spec_string(c: CompoundV, key: Seq<char>) -> Option<Seq<char>> {
    match lookup(c, key) {
        Some(ValueV::Text(s)) => Some(s),
        _ => None,
    }
}

/// The packed integer array under `key`.
pub open spec fn spec_int_array(c: CompoundV, key: Seq<char>) -> Option<Seq<i32>> {
    match lookup(c, key) {
        Some(ValueV::IntArray(ns)) => Some(ns),
        _ => None,
    }
}

/// The list under `key`, when that is what the key holds.
pub open spec fn spec_list(c: CompoundV, key: Seq<char>) -> Option<Seq<ValueV>> {
    match lookup(c, key) {
        Some(ValueV::List(vs)) => Some(vs),
        _ => None,
    }
}

/// The nested compound under `key`, when that is what the key holds.
pub open spec fn spec_compound(c: CompoundV, key: Seq<char>) -> Option<CompoundV> {
    match lookup(c, key) {
        Some(ValueV::Compound(sub)) => Some(sub),
        _ => None,
    }
}

/// The byte under `key` read as a boolean: any non-zero byte is `true`;
/// an absent key, or one holding another shape, is `default`.
pub open spec fn spec_bool_or(c: CompoundV, key: Seq<char>, default: bool) -> bool {
    match spec_byte(c, key) {
        Some(n) => n != 0,
        None => default,
    }
}

} // verus!
