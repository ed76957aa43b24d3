//! The conduit fixture record.

use vstd::prelude::*;

use crate::error::{ParseErrorV, SculkParseError};
use crate::nbt::{compound_view, lookup, CompoundV, NbtCompound, Value, ValueV};
use crate::traits::FromCompoundNbt;
use crate::uuid::Uuid;

verus! {

/// A conduit's stored state.
#[derive(Debug, Clone, PartialEq)]
pub struct Conduit {
    /// The entity the conduit is attacking; absent when idle. `target`.
    pub target: Option<Uuid>,
}

/// What decoding a conduit yields: an absent `target`, or one of another
/// shape, is an idle conduit; a packed integer array of a length other
/// than four is `InvalidField`.
pub open spec fn spec_conduit(c: CompoundV) -> Result<Conduit, ParseErrorV> {
    match lookup(c, "target"@) {
        Some(ValueV::IntArray(ns)) => if ns.len() == 4 {
            Ok(Conduit { target: Some(Uuid(ns[0], ns[1], ns[2], ns[3])) })
        } else {
            Err(ParseErrorV::InvalidField("target"@))
        },
        _ => Ok(Conduit { target: None }),
    }
}

/// The compound a conduit is written back as; an idle conduit writes no
/// key.
pub open spec fn spec_conduit_compound(x: Conduit) -> CompoundV {
    match x.target {
        Some(u) => seq![("target"@, ValueV::IntArray(seq![u.0, u.1, u.2, u.3]))],
        None => Seq::empty(),
    }
}

impl Conduit {
    /// Writes the record back as a compound.
    pub fn to_compound(&self) -> (r: NbtCompound)
        ensures
            compound_view(r) == spec_conduit_compound(*self),
    {
        let mut c = NbtCompound::new();
        match &self.target {
            Some(u) => {
                let ns: Vec<i32> = vec![u.0, u.1, u.2, u.3];
                proof {
                    assert(ns@ =~= seq![u.0, u.1, u.2, u.3]);
                }
                c.push("target", Value::IntArray(ns));
            },
            None => (),
        }
        proof {
            assert(compound_view(c) =~= spec_conduit_compound(*self));
        }
        c
    }
}

impl FromCompoundNbt for Conduit {
    type V = Conduit;

    open spec fn model(self) -> Conduit {
        self
    }

    open spec fn spec_from_compound(c: CompoundV) -> Result<Conduit, ParseErrorV> {
        spec_conduit(c)
    }

    fn from_compound_nbt(nbt: &NbtCompound) -> (r: Result<Self, SculkParseError>) {
        match nbt.get("target") {
            Some(Value::IntArray(ns)) => {
                if ns.len() == 4 {
                    Ok(Conduit { target: Some(Uuid(ns[0], ns[1], ns[2], ns[3])) })
                } else {
                    Err(SculkParseError::InvalidField("target".to_owned()))
                }
            },
            _ => Ok(Conduit { target: None }),
        }
    }
}

} // verus!
