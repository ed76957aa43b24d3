//! A generic ordered string-keyed map of a uniform value type, decoded
//! from a compound's entries and reused across unrelated record families.

use vstd::prelude::*;

use crate::error::{ParseErrorV, SculkParseError};
use crate::nbt::{
    compound_view, lemma_entries_view, CompoundV, NbtCompound, Value, ValueV,
};
use crate::traits::FromCompoundNbt;

verus! {

/// An ordered map from string keys to `T`, in document order. Keys are
/// unique within one map whenever the source compound's keys are.
#[derive(Debug, Clone, PartialEq)]
pub struct KVPair<T> {
    /// The entries, in the order the source compound listed them.
    pub entries: Vec<(String, T)>,
}

impl<T> KVPair<T> {
    /// Wraps entries already in document order.
    pub fn new(entries: Vec<(String, T)>) -> (r: KVPair<T>)
        ensures
            r.entries == entries,
    {
        KVPair { entries }
    }

    /// The number of entries.
    pub fn len(&self) -> (r: usize)
        ensures
            r == self.entries@.len(),
    {
        self.entries.len()
    }
}

/// What decoding every entry of a compound as a four-byte integer yields:
/// the keys in order with their integers, or `InvalidField` naming the
/// first key whose value is not a four-byte integer.
pub open spec fn spec_kv_ints(c: CompoundV) -> Result<Seq<(Seq<char>, i32)>, ParseErrorV>
    decreases c.len(),
{
    if c.len() == 0 {
        Ok(Seq::empty())
    } else {
        match c[0].1 {
            ValueV::Int(n) => match spec_kv_ints(c.subrange(1, c.len() as int)) {
                Ok(rest) => Ok(seq![(c[0].0, n)] + rest),
                Err(e) => Err(e),
            },
            _ => Err(ParseErrorV::InvalidField(c[0].0)),
        }
    }
}

/// Decoding a compound whose first `i` entries are four-byte integers is
/// decided by the remaining entries, prefixed by those integers.
pub proof fn lemma_kv_ints_prefix(c: CompoundV, i: int)
    requires
        0 <= i <= c.len(),
        forall|j: int| 0 <= j < i ==> c[j].1 is Int,
    ensures
        spec_kv_ints(c) == (match spec_kv_ints(c.subrange(i, c.len() as int)) {
            Ok(rest) => Ok::<_, ParseErrorV>(
                Seq::new(i as nat, |j: int| (c[j].0, c[j].1->Int_0)) + rest,
            ),
            Err(e) => Err::<Seq<(Seq<char>, i32)>, _>(e),
        }),
    decreases i,
{
    if i == 0 {
        assert(c.subrange(0, c.len() as int) =~= c);
        if spec_kv_ints(c) is Ok {
            assert(Seq::new(0nat, |j: int| (c[j].0, c[j].1->Int_0)) + spec_kv_ints(c)->Ok_0
                =~= spec_kv_ints(c)->Ok_0);
        }
    } else {
        lemma_kv_ints_prefix(c, i - 1);
        let mid = c.subrange(i - 1, c.len() as int);
        let tail = c.subrange(i, c.len() as int);
        assert(mid[0] == c[i - 1]);
        assert(mid.subrange(1, mid.len() as int) =~= tail);
        match spec_kv_ints(tail) {
            Ok(rest) => {
                assert(spec_kv_ints(mid) == Ok::<_, ParseErrorV>(
                    seq![(c[i - 1].0, c[i - 1].1->Int_0)] + rest,
                ));
                assert(Seq::new((i - 1) as nat, |j: int| (c[j].0, c[j].1->Int_0)) + (seq![
                    (c[i - 1].0, c[i - 1].1->Int_0),
                ] + rest) =~= Seq::new(i as nat, |j: int| (c[j].0, c[j].1->Int_0)) + rest);
            },
            Err(e) => {
                assert(spec_kv_ints(mid) == Err::<Seq<(Seq<char>, i32)>, _>(e));
            },
        }
    }
}

impl FromCompoundNbt for KVPair<i32> {
    type V = Seq<(Seq<char>, i32)>;

    open spec fn model(self) -> Seq<(Seq<char>, i32)> {
        Seq::new(self.entries@.len(), |i: int| (self.entries@[i].0@, self.entries@[i].1))
    }

    open spec fn spec_from_compound(c: CompoundV) -> Result<Seq<(Seq<char>, i32)>, ParseErrorV> {
        spec_kv_ints(c)
    }

    fn from_compound_nbt(nbt: &NbtCompound) -> (r: Result<Self, SculkParseError>) {
        let ghost c = compound_view(*nbt);
        let n = nbt.entries.len();
        let mut out: Vec<(String, i32)> = Vec::new();
        let mut i: usize = 0;
        proof {
            lemma_entries_view(nbt.entries@);
        }
        while i < n
            invariant
                n == nbt.entries@.len(),
                c == compound_view(*nbt),
                c.len() == n,
                forall|j: int|
                    0 <= j < n ==> c[j] == (nbt.entries@[j].0@, crate::nbt::value_view(
                        nbt.entries@[j].1,
                    )),
                0 <= i <= n,
                out@.len() == i,
                forall|j: int| 0 <= j < i ==> c[j].1 is Int,
                forall|j: int|
                    0 <= j < i ==> (out@[j].0@, out@[j].1) == (c[j].0, c[j].1->Int_0),
            decreases n - i,
        {
            match &nbt.entries[i].1 {
                Value::Int(v) => {
                    let k: String = nbt.entries[i].0.clone();
                    out.push((k, *v));
                },
                _ => {
                    proof {
                        lemma_kv_ints_prefix(c, i as int);
                    }
                    return Err(SculkParseError::InvalidField(nbt.entries[i].0.clone()));
                },
            }
            i += 1;
        }
        let r = KVPair { entries: out };
        proof {
            lemma_kv_ints_prefix(c, n as int);
            assert(c.subrange(n as int, c.len() as int).len() == 0);
            assert(Seq::new(n as nat, |j: int| (c[j].0, c[j].1->Int_0)) + Seq::empty() =~= Seq::new(
                n as nat,
                |j: int| (c[j].0, c[j].1->Int_0),
            ));
            assert(r.model() =~= Seq::new(n as nat, |j: int| (c[j].0, c[j].1->Int_0)));
        }
        Ok(r)
    }
}

} // verus!
