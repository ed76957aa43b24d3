//! A scheduled world update for one block position.

use vstd::prelude::*;

use crate::error::{ParseErrorV, SculkParseError};
use crate::nbt::{compound_view, lemma_lookup_remove, remove_key, CompoundV, NbtCompound};
use crate::traits::FromCompoundNbt;
use crate::util::{get_int, get_owned_string, spec_req_int, spec_req_string};

verus! {

/// A tile tick: a block update scheduled for a coming tick.
#[derive(Debug, Clone, PartialEq)]
pub struct TileTick {
    /// The ID of the block, used to pick the update procedure. `i`.
    pub i: String,
    /// Ticks with lower `p` are processed first within one tick. `p`.
    pub p: i32,
    /// Ticks until processing; negative when overdue. `t`.
    pub t: i32,
    /// X position. `x`.
    pub x: i32,
    /// Y position. `y`.
    pub y: i32,
    /// Z position. `z`.
    pub z: i32,
}

/// The abstraction of a [`TileTick`].
pub struct TileTickV {
    pub i: Seq<char>,
    pub p: i32,
    pub t: i32,
    pub x: i32,
    pub y: i32,
    pub z: i32,
}

/// What decoding a tile tick yields: all six fields are required and fail
/// in the order `i`, `p`, `t`, `x`, `y`, `z`.
pub open spec fn spec_tile_tick(c: CompoundV) -> Result<TileTickV, ParseErrorV> {
    match spec_req_string(c, "i"@) {
        Err(e) => Err(e),
        Ok(i) => match spec_req_int(c, "p"@) {
            Err(e) => Err(e),
            Ok(p) => match spec_req_int(c, "t"@) {
                Err(e) => Err(e),
                Ok(t) => match spec_req_int(c, "x"@) {
                    Err(e) => Err(e),
                    Ok(x) => match spec_req_int(c, "y"@) {
                        Err(e) => Err(e),
                        Ok(y) => match spec_req_int(c, "z"@) {
                            Err(e) => Err(e),
                            Ok(z) => Ok(TileTickV { i, p, t, x, y, z }),
                        },
                    },
                },
            },
        },
    }
}

/// Removing any one of the six required fields from a compound that
/// decodes makes the decode fail with exactly `MissingField` of that key.
pub proof fn lemma_tile_tick_missing_required(c: CompoundV, key: Seq<char>)
    requires
        spec_tile_tick(c) is Ok,
        key == "i"@ || key == "p"@ || key == "t"@ || key == "x"@ || key == "y"@ || key == "z"@,
    ensures
        spec_tile_tick(remove_key(c, key)) == Err::<TileTickV, _>(ParseErrorV::MissingField(key)),
{
    reveal_strlit("i");
    reveal_strlit("p");
    reveal_strlit("t");
    reveal_strlit("x");
    reveal_strlit("y");
    reveal_strlit("z");
    assert("i"@[0] == 'i' && "p"@[0] == 'p' && "t"@[0] == 't' && "x"@[0] == 'x' && "y"@[0] == 'y'
        && "z"@[0] == 'z');
    if key != "i"@ {
        lemma_lookup_remove(c, key, "i"@);
    }
    if key != "p"@ {
        lemma_lookup_remove(c, key, "p"@);
    }
    if key != "t"@ {
        lemma_lookup_remove(c, key, "t"@);
    }
    if key != "x"@ {
        lemma_lookup_remove(c, key, "x"@);
    }
    if key != "y"@ {
        lemma_lookup_remove(c, key, "y"@);
    }
    if key != "z"@ {
        lemma_lookup_remove(c, key, "z"@);
    }
}

impl FromCompoundNbt for TileTick {
    type V = TileTickV;

    open spec fn model(self) -> TileTickV {
        TileTickV {
            i: self.i@,
            p: self.p,
            t: self.t,
            x: self.x,
            y: self.y,
            z: self.z,
        }
    }

    open spec fn spec_from_compound(c: CompoundV) -> Result<TileTickV, ParseErrorV> {
        spec_tile_tick(c)
    }

    fn from_compound_nbt(nbt: &NbtCompound) -> (r: Result<Self, SculkParseError>) {
        let i = match get_owned_string(nbt, "i") {
            Ok(s) => s,
            Err(e) => return Err(e),
        };
        let p = match get_int(nbt, "p") {
            Ok(n) => n,
            Err(e) => return Err(e),
        };
        let t = match get_int(nbt, "t") {
            Ok(n) => n,
            Err(e) => return Err(e),
        };
        let x = match get_int(nbt, "x") {
            Ok(n) => n,
            Err(e) => return Err(e),
        };
        let y = match get_int(nbt, "y") {
            Ok(n) => n,
            Err(e) => return Err(e),
        };
        let z = match get_int(nbt, "z") {
            Ok(n) => n,
            Err(e) => return Err(e),
        };
        Ok(TileTick { i, p, t, x, y, z })
    }
}

} // verus!
