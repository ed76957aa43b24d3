//! The rarity of an item.

use vstd::prelude::*;

use crate::error::{error_view, ParseErrorV, SculkParseError};
use crate::util::str_eq;

verus! {

/// The rarity of an item, deciding its name's color.
#[derive(Debug, Clone, Copy, PartialEq, Eq, Structural)]
pub enum Rarity {
    /// Common rarity.
    Common,
    /// Uncommon rarity.
    Uncommon,
    /// Rare rarity.
    Rare,
    /// Epic rarity.
    Epic,
}

/// What reading a rarity from its identifier yields: exactly the four
/// lower-case names are accepted; anything else is `InvalidField` carrying
/// the rejected text.
pub open spec fn spec_rarity_from_str(s: Seq<char>) -> Result<Rarity, ParseErrorV> {
    if s == "common"@ {
        Ok(Rarity::Common)
    } else if s == "uncommon"@ {
        Ok(Rarity::Uncommon)
    } else if s == "rare"@ {
        Ok(Rarity::Rare)
    } else if s == "epic"@ {
        Ok(Rarity::Epic)
    } else {
        Err(ParseErrorV::InvalidField(s))
    }
}

impl Rarity {
    /// Converts an identifier string to a `Rarity`.
    pub fn from_str(s: &str) -> (r: Result<Rarity, SculkParseError>)
        ensures
            (match r {
                Ok(v) => spec_rarity_from_str(s@) == Ok::<_, ParseErrorV>(v),
                Err(e) => spec_rarity_from_str(s@) == Err::<Rarity, _>(error_view(e)),
            }),
    {
        if str_eq(s, "common") {
            Ok(Rarity::Common)
        } else if str_eq(s, "uncommon") {
            Ok(Rarity::Uncommon)
        } else if str_eq(s, "rare") {
            Ok(Rarity::Rare)
        } else if str_eq(s, "epic") {
            Ok(Rarity::Epic)
        } else {
            Err(SculkParseError::InvalidField(s.to_owned()))
        }
    }
}

} // verus!
