//! The decode contract: every record type can attempt to build itself from
//! a compound node, or fail with a typed reason.

use vstd::prelude::*;

use crate::error::{error_view, ParseErrorV, SculkParseError};
use crate::nbt::{compound_view, CompoundV, NbtCompound};

verus! {

/// A record type that decodes itself from a compound node.
///
/// `spec_from_compound` pins down, for every compound, either the
/// abstraction of the record that decoding builds or the exact failure;
/// `from_compound_nbt` is the decoder and is held to it.
pub trait FromCompoundNbt: Sized {
    /// The abstraction of the record.
    type V;

    /// The abstraction of this record value.
    spec fn model(self) -> Self::V;

    /// What decoding yields, for every compound.
    spec fn spec_from_compound(c: CompoundV) -> Result<Self::V, ParseErrorV>;

    /// Attempts to build the record from `nbt`; fails fast on the first
    /// required-field problem.
    fn from_compound_nbt(nbt: &NbtCompound) -> (r: Result<Self, SculkParseError>)
        ensures
            (match r {
                Ok(x) => Self::spec_from_compound(compound_view(*nbt)) == Ok::<_, ParseErrorV>(
                    x.model(),
                ),
                Err(e) => Self::spec_from_compound(compound_view(*nbt)) == Err::<Self::V, _>(
                    error_view(e),
                ),
            }),
    ;
}

/// The abstractions of a sequence of records, elementwise.
pub open spec fn models<T: FromCompoundNbt>(s: Seq<T>) -> Seq<T::V> {
    Seq::new(s.len(), |i: int| s[i].model())
}

/// The abstraction of an optional string.
pub open spec fn opt_view(o: Option<String>) -> Option<Seq<char>> {
    match o {
        Some(s) => Some(s@),
        None => None,
    }
}

} // verus!
