//! The map decorations component: an ordered map from arbitrary unique
//! decoration keys to icons, with a mirror encoding back to a compound so
//! decoded decorations can be written out again.

use vstd::prelude::*;

use crate::error::{ParseErrorV, SculkParseError};
use crate::kv::KVPair;
use crate::nbt::{
    compound_view, lemma_entries_view, lookup, value_view, CompoundV, NbtCompound, Value, ValueV,
};
use crate::traits::FromCompoundNbt;
use crate::util::{
    get_double_bits, get_float_bits, get_owned_string, spec_req_double_bits, spec_req_float_bits,
    spec_req_string, str_eq,
};

verus! {

/// The kind of icon a map decoration shows.
#[derive(Debug, Clone, PartialEq)]
pub enum MapIconType {
    Player,
    Frame,
    RedMarker,
    BlueMarker,
    TargetX,
    TargetPoint,
    PlayerOffMap,
    PlayerOffLimits,
    Mansion,
    Monument,
    BannerWhite,
    BannerOrange,
    BanneMagenta,
    BannerLightBlue,
    BannerYellow,
    BannerLime,
    BannerPink,
    BannerGray,
    BannerLightGray,
    BannerCyan,
    BannerPurple,
    BannerBlue,
    BannerBrown,
    BannerGreen,
    BannerRed,
    BannerBlack,
    RedX,
    VillageDesert,
    VillagePlains,
    VillageSavanna,
    VillageSnowy,
    VillageTaiga,
    JungleTemple,
    SwampHut,
    /// Any identifier outside the catalogue, kept as written.
    Unknown(String),
}

/// The abstraction of a [`MapIconType`].
pub enum MapIconTypeV {
    Player,
    Frame,
    RedMarker,
    BlueMarker,
    TargetX,
    TargetPoint,
    PlayerOffMap,
    PlayerOffLimits,
    Mansion,
    Monument,
    BannerWhite,
    BannerOrange,
    BanneMagenta,
    BannerLightBlue,
    BannerYellow,
    BannerLime,
    BannerPink,
    BannerGray,
    BannerLightGray,
    BannerCyan,
    BannerPurple,
    BannerBlue,
    BannerBrown,
    BannerGreen,
    BannerRed,
    BannerBlack,
    RedX,
    VillageDesert,
    VillagePlains,
    VillageSavanna,
    VillageSnowy,
    VillageTaiga,
    JungleTemple,
    SwampHut,
    Unknown(Seq<char>),
}

/// The abstraction of an icon kind.
pub open spec fn icon_type_view(t: MapIconType) -> MapIconTypeV {
    match t {
        MapIconType::Player => MapIconTypeV::Player,
        MapIconType::Frame => MapIconTypeV::Frame,
        MapIconType::RedMarker => MapIconTypeV::RedMarker,
        MapIconType::BlueMarker => MapIconTypeV::BlueMarker,
        MapIconType::TargetX => MapIconTypeV::TargetX,
        MapIconType::TargetPoint => MapIconTypeV::TargetPoint,
        MapIconType::PlayerOffMap => MapIconTypeV::PlayerOffMap,
        MapIconType::PlayerOffLimits => MapIconTypeV::PlayerOffLimits,
        MapIconType::Mansion => MapIconTypeV::Mansion,
        MapIconType::Monument => MapIconTypeV::Monument,
        MapIconType::BannerWhite => MapIconTypeV::BannerWhite,
        MapIconType::BannerOrange => MapIconTypeV::BannerOrange,
        MapIconType::BanneMagenta => MapIconTypeV::BanneMagenta,
        MapIconType::BannerLightBlue => MapIconTypeV::BannerLightBlue,
        MapIconType::BannerYellow => MapIconTypeV::BannerYellow,
        MapIconType::BannerLime => MapIconTypeV::BannerLime,
        MapIconType::BannerPink => MapIconTypeV::BannerPink,
        MapIconType::BannerGray => MapIconTypeV::BannerGray,
        MapIconType::BannerLightGray => MapIconTypeV::BannerLightGray,
        MapIconType::BannerCyan => MapIconTypeV::BannerCyan,
        MapIconType::BannerPurple => MapIconTypeV::BannerPurple,
        MapIconType::BannerBlue => MapIconTypeV::BannerBlue,
        MapIconType::BannerBrown => MapIconTypeV::BannerBrown,
        MapIconType::BannerGreen => MapIconTypeV::BannerGreen,
        MapIconType::BannerRed => MapIconTypeV::BannerRed,
        MapIconType::BannerBlack => MapIconTypeV::BannerBlack,
        MapIconType::RedX => MapIconTypeV::RedX,
        MapIconType::VillageDesert => MapIconTypeV::VillageDesert,
        MapIconType::VillagePlains => MapIconTypeV::VillagePlains,
        MapIconType::VillageSavanna => MapIconTypeV::VillageSavanna,
        MapIconType::VillageSnowy => MapIconTypeV::VillageSnowy,
        MapIconType::VillageTaiga => MapIconTypeV::VillageTaiga,
        MapIconType::JungleTemple => MapIconTypeV::JungleTemple,
        MapIconType::SwampHut => MapIconTypeV::SwampHut,
        MapIconType::Unknown(s) => MapIconTypeV::Unknown(s@),
    }
}

/// Which icon kind an identifier names: exact, case-sensitive matching
/// against the catalogue; anything else is `Unknown`, kept as written.
pub open spec fn spec_icon_type_from_str(s: Seq<char>) -> MapIconTypeV {
    if s == "player"@ {
        MapIconTypeV::Player
    } else if s == "frame"@ {
        MapIconTypeV::Frame
    } else if s == "red_marker"@ {
        MapIconTypeV::RedMarker
    } else if s == "blue_marker"@ {
        MapIconTypeV::BlueMarker
    } else if s == "target_x"@ {
        MapIconTypeV::TargetX
    } else if s == "target_point"@ {
        MapIconTypeV::TargetPoint
    } else if s == "player_off_map"@ {
        MapIconTypeV::PlayerOffMap
    } else if s == "player_off_limits"@ {
        MapIconTypeV::PlayerOffLimits
    } else if s == "mansion"@ {
        MapIconTypeV::Mansion
    } else if s == "monument"@ {
        MapIconTypeV::Monument
    } else if s == "banner_white"@ {
        MapIconTypeV::BannerWhite
    } else if s == "banner_orange"@ {
        MapIconTypeV::BannerOrange
    } else if s == "banner_magenta"@ {
        MapIconTypeV::BanneMagenta
    } else if s == "banner_light_blue"@ {
        MapIconTypeV::BannerLightBlue
    } else if s == "banner_yellow"@ {
        MapIconTypeV::BannerYellow
    } else if s == "banner_lime"@ {
        MapIconTypeV::BannerLime
    } else if s == "banner_pink"@ {
        MapIconTypeV::BannerPink
    } else if s == "banner_gray"@ {
        MapIconTypeV::BannerGray
    } else if s == "banner_light_gray"@ {
        MapIconTypeV::BannerLightGray
    } else if s == "banner_cyan"@ {
        MapIconTypeV::BannerCyan
    } else if s == "banner_purple"@ {
        MapIconTypeV::BannerPurple
    } else if s == "banner_blue"@ {
        MapIconTypeV::BannerBlue
    } else if s == "banner_brown"@ {
        MapIconTypeV::BannerBrown
    } else if s == "banner_green"@ {
        MapIconTypeV::BannerGreen
    } else if s == "banner_red"@ {
        MapIconTypeV::BannerRed
    } else if s == "banner_black"@ {
        MapIconTypeV::BannerBlack
    } else if s == "red_x"@ {
        MapIconTypeV::RedX
    } else if s == "village_desert"@ {
        MapIconTypeV::VillageDesert
    } else if s == "village_plains"@ {
        MapIconTypeV::VillagePlains
    } else if s == "village_savanna"@ {
        MapIconTypeV::VillageSavanna
    } else if s == "village_snowy"@ {
        MapIconTypeV::VillageSnowy
    } else if s == "village_taiga"@ {
        MapIconTypeV::VillageTaiga
    } else if s == "jungle_temple"@ {
        MapIconTypeV::JungleTemple
    } else if s == "swamp_hut"@ {
        MapIconTypeV::SwampHut
    } else {
        MapIconTypeV::Unknown(s)
    }
}

/// The identifier an icon kind is written as; an `Unknown` keeps the text
/// it was read from.
pub open spec fn spec_icon_type_str(t: MapIconTypeV) -> Seq<char> {
    match t {
        MapIconTypeV::Player => "player"@,
        MapIconTypeV::Frame => "frame"@,
        MapIconTypeV::RedMarker => "red_marker"@,
        MapIconTypeV::BlueMarker => "blue_marker"@,
        MapIconTypeV::TargetX => "target_x"@,
        MapIconTypeV::TargetPoint => "target_point"@,
        MapIconTypeV::PlayerOffMap => "player_off_map"@,
        MapIconTypeV::PlayerOffLimits => "player_off_limits"@,
        MapIconTypeV::Mansion => "mansion"@,
        MapIconTypeV::Monument => "monument"@,
        MapIconTypeV::BannerWhite => "banner_white"@,
        MapIconTypeV::BannerOrange => "banner_orange"@,
        MapIconTypeV::BanneMagenta => "banner_magenta"@,
        MapIconTypeV::BannerLightBlue => "banner_light_blue"@,
        MapIconTypeV::BannerYellow => "banner_yellow"@,
        MapIconTypeV::BannerLime => "banner_lime"@,
        MapIconTypeV::BannerPink => "banner_pink"@,
        MapIconTypeV::BannerGray => "banner_gray"@,
        MapIconTypeV::BannerLightGray => "banner_light_gray"@,
        MapIconTypeV::BannerCyan => "banner_cyan"@,
        MapIconTypeV::BannerPurple => "banner_purple"@,
        MapIconTypeV::BannerBlue => "banner_blue"@,
        MapIconTypeV::BannerBrown => "banner_brown"@,
        MapIconTypeV::BannerGreen => "banner_green"@,
        MapIconTypeV::BannerRed => "banner_red"@,
        MapIconTypeV::BannerBlack => "banner_black"@,
        MapIconTypeV::RedX => "red_x"@,
        MapIconTypeV::VillageDesert => "village_desert"@,
        MapIconTypeV::VillagePlains => "village_plains"@,
        MapIconTypeV::VillageSavanna => "village_savanna"@,
        MapIconTypeV::VillageSnowy => "village_snowy"@,
        MapIconTypeV::VillageTaiga => "village_taiga"@,
        MapIconTypeV::JungleTemple => "jungle_temple"@,
        MapIconTypeV::SwampHut => "swamp_hut"@,
        MapIconTypeV::Unknown(s) => s,
    }
}

impl MapIconType {
    /// Converts an identifier string to a `MapIconType`.
    pub fn from_str(s: &str) -> (r: MapIconType)
        ensures
            icon_type_view(r) == spec_icon_type_from_str(s@),
    {
        if str_eq(s, "player") {
            MapIconType::Player
        } else if str_eq(s, "frame") {
            MapIconType::Frame
        } else if str_eq(s, "red_marker") {
            MapIconType::RedMarker
        } else if str_eq(s, "blue_marker") {
            MapIconType::BlueMarker
        } else if str_eq(s, "target_x") {
            MapIconType::TargetX
        } else if str_eq(s, "target_point") {
            MapIconType::TargetPoint
        } else if str_eq(s, "player_off_map") {
            MapIconType::PlayerOffMap
        } else if str_eq(s, "player_off_limits") {
            MapIconType::PlayerOffLimits
        } else if str_eq(s, "mansion") {
            MapIconType::Mansion
        } else if str_eq(s, "monument") {
            MapIconType::Monument
        } else if str_eq(s, "banner_white") {
            MapIconType::BannerWhite
        } else if str_eq(s, "banner_orange") {
            MapIconType::BannerOrange
        } else if str_eq(s, "banner_magenta") {
            MapIconType::BanneMagenta
        } else if str_eq(s, "banner_light_blue") {
            MapIconType::BannerLightBlue
        } else if str_eq(s, "banner_yellow") {
            MapIconType::BannerYellow
        } else if str_eq(s, "banner_lime") {
            MapIconType::BannerLime
        } else if str_eq(s, "banner_pink") {
            MapIconType::BannerPink
        } else if str_eq(s, "banner_gray") {
            MapIconType::BannerGray
        } else if str_eq(s, "banner_light_gray") {
            MapIconType::BannerLightGray
        } else if str_eq(s, "banner_cyan") {
            MapIconType::BannerCyan
        } else if str_eq(s, "banner_purple") {
            MapIconType::BannerPurple
        } else if str_eq(s, "banner_blue") {
            MapIconType::BannerBlue
        } else if str_eq(s, "banner_brown") {
            MapIconType::BannerBrown
        } else if str_eq(s, "banner_green") {
            MapIconType::BannerGreen
        } else if str_eq(s, "banner_red") {
            MapIconType::BannerRed
        } else if str_eq(s, "banner_black") {
            MapIconType::BannerBlack
        } else if str_eq(s, "red_x") {
            MapIconType::RedX
        } else if str_eq(s, "village_desert") {
            MapIconType::VillageDesert
        } else if str_eq(s, "village_plains") {
            MapIconType::VillagePlains
        } else if str_eq(s, "village_savanna") {
            MapIconType::VillageSavanna
        } else if str_eq(s, "village_snowy") {
            MapIconType::VillageSnowy
        } else if str_eq(s, "village_taiga") {
            MapIconType::VillageTaiga
        } else if str_eq(s, "jungle_temple") {
            MapIconType::JungleTemple
        } else if str_eq(s, "swamp_hut") {
            MapIconType::SwampHut
        } else {
            MapIconType::Unknown(s.to_owned())
        }
    }

    /// The identifier this icon kind is written as.
    pub fn identifier(&self) -> (r: String)
        ensures
            r@ == spec_icon_type_str(icon_type_view(*self)),
    {
        match self {
            MapIconType::Player => "player".to_owned(),
            MapIconType::Frame => "frame".to_owned(),
            MapIconType::RedMarker => "red_marker".to_owned(),
            MapIconType::BlueMarker => "blue_marker".to_owned(),
            MapIconType::TargetX => "target_x".to_owned(),
            MapIconType::TargetPoint => "target_point".to_owned(),
            MapIconType::PlayerOffMap => "player_off_map".to_owned(),
            MapIconType::PlayerOffLimits => "player_off_limits".to_owned(),
            MapIconType::Mansion => "mansion".to_owned(),
            MapIconType::Monument => "monument".to_owned(),
            MapIconType::BannerWhite => "banner_white".to_owned(),
            MapIconType::BannerOrange => "banner_orange".to_owned(),
            MapIconType::BanneMagenta => "banner_magenta".to_owned(),
            MapIconType::BannerLightBlue => "banner_light_blue".to_owned(),
            MapIconType::BannerYellow => "banner_yellow".to_owned(),
            MapIconType::BannerLime => "banner_lime".to_owned(),
            MapIconType::BannerPink => "banner_pink".to_owned(),
            MapIconType::BannerGray => "banner_gray".to_owned(),
            MapIconType::BannerLightGray => "banner_light_gray".to_owned(),
            MapIconType::BannerCyan => "banner_cyan".to_owned(),
            MapIconType::BannerPurple => "banner_purple".to_owned(),
            MapIconType::BannerBlue => "banner_blue".to_owned(),
            MapIconType::BannerBrown => "banner_brown".to_owned(),
            MapIconType::BannerGreen => "banner_green".to_owned(),
            MapIconType::BannerRed => "banner_red".to_owned(),
            MapIconType::BannerBlack => "banner_black".to_owned(),
            MapIconType::RedX => "red_x".to_owned(),
            MapIconType::VillageDesert => "village_desert".to_owned(),
            MapIconType::VillagePlains => "village_plains".to_owned(),
            MapIconType::VillageSavanna => "village_savanna".to_owned(),
            MapIconType::VillageSnowy => "village_snowy".to_owned(),
            MapIconType::VillageTaiga => "village_taiga".to_owned(),
            MapIconType::JungleTemple => "jungle_temple".to_owned(),
            MapIconType::SwampHut => "swamp_hut".to_owned(),
            MapIconType::Unknown(s) => s.clone(),
        }
    }
}

/// One decoration on a map.
#[derive(Debug, Clone, PartialEq)]
pub struct MapIcon {
    /// The kind of icon. `type`.
    pub icon_type: MapIconType,
    /// The x-coordinate of the icon, as a double-precision bit pattern.
    pub x: u64,
    /// The z-coordinate of the icon, as a double-precision bit pattern.
    pub z: u64,
    /// The rotation of the icon, as a single-precision bit pattern.
    pub rotation: u32,
}

/// The abstraction of a [`MapIcon`].
pub struct MapIconV {
    pub icon_type: MapIconTypeV,
    pub x: u64,
    pub z: u64,
    pub rotation: u32,
}

/// What decoding one icon yields: `type`, `x`, `z` and `rotation` are all
/// required and fail in that order.
pub open spec fn spec_map_icon(c: CompoundV) -> Result<MapIconV, ParseErrorV> {
    match spec_req_string(c, "type"@) {
        Err(e) => Err(e),
        Ok(s) => match spec_req_double_bits(c, "x"@) {
            Err(e) => Err(e),
            Ok(x) => match spec_req_double_bits(c, "z"@) {
                Err(e) => Err(e),
                Ok(z) => match spec_req_float_bits(c, "rotation"@) {
                    Err(e) => Err(e),
                    Ok(rotation) => Ok(
                        MapIconV { icon_type: spec_icon_type_from_str(s), x, z, rotation },
                    ),
                },
            },
        },
    }
}

/// The compound one icon is written back as.
pub open spec fn spec_map_icon_compound(icon: MapIconV) -> CompoundV {
    seq![
        ("type"@, ValueV::Text(spec_icon_type_str(icon.icon_type))),
        ("x"@, ValueV::Double(icon.x)),
        ("z"@, ValueV::Double(icon.z)),
        ("rotation"@, ValueV::Float(icon.rotation)),
    ]
}

impl FromCompoundNbt for MapIcon {
    type V = MapIconV;

    open spec fn model(self) -> MapIconV {
        MapIconV {
            icon_type: icon_type_view(self.icon_type),
            x: self.x,
            z: self.z,
            rotation: self.rotation,
        }
    }

    open spec fn spec_from_compound(c: CompoundV) -> Result<MapIconV, ParseErrorV> {
        spec_map_icon(c)
    }

    fn from_compound_nbt(nbt: &NbtCompound) -> (r: Result<Self, SculkParseError>) {
        let s = match get_owned_string(nbt, "type") {
            Ok(s) => s,
            Err(e) => return Err(e),
        };
        let icon_type = MapIconType::from_str(s.as_str());
        let x = match get_double_bits(nbt, "x") {
            Ok(bits) => bits,
            Err(e) => return Err(e),
        };
        let z = match get_double_bits(nbt, "z") {
            Ok(bits) => bits,
            Err(e) => return Err(e),
        };
        let rotation = match get_float_bits(nbt, "rotation") {
            Ok(bits) => bits,
            Err(e) => return Err(e),
        };
        Ok(MapIcon { icon_type, x, z, rotation })
    }
}

impl MapIcon {
    /// Writes the icon back as a compound; decoding it again rebuilds this
    /// icon.
    pub fn to_compound(&self) -> (r: NbtCompound)
        ensures
            compound_view(r) == spec_map_icon_compound((*self).model()),
    {
        let mut c = NbtCompound::new();
        c.push("type", Value::Text(self.icon_type.identifier()));
        c.push("x", Value::Double(self.x));
        c.push("z", Value::Double(self.z));
        c.push("rotation", Value::Float(self.rotation));
        proof {
            assert(compound_view(c) =~= spec_map_icon_compound((*self).model()));
        }
        c
    }
}

/// What decoding every entry of a compound as an icon yields: the keys in
/// order with their icons; an entry whose value is not a compound is
/// `InvalidField` naming the component; a failing icon decode fails the
/// whole map with its own error.
pub open spec fn spec_kv_icons(c: CompoundV) -> Result<Seq<(Seq<char>, MapIconV)>, ParseErrorV>
    decreases c.len(),
{
    if c.len() == 0 {
        Ok(Seq::empty())
    } else {
        match c[0].1 {
            ValueV::Compound(sub) => match spec_map_icon(sub) {
                Ok(icon) => match spec_kv_icons(c.subrange(1, c.len() as int)) {
                    Ok(rest) => Ok(seq![(c[0].0, icon)] + rest),
                    Err(e) => Err(e),
                },
                Err(e) => Err(e),
            },
            _ => Err(ParseErrorV::InvalidField("minecraft:map_decorations"@)),
        }
    }
}

/// Decoding a compound whose first `i` entries are icon compounds that
/// decode is decided by the remaining entries, prefixed by those icons.
pub proof fn lemma_kv_icons_prefix(c: CompoundV, i: int)
    requires
        0 <= i <= c.len(),
        forall|j: int|
            0 <= j < i ==> c[j].1 is Compound && spec_map_icon(c[j].1->Compound_0) is Ok,
    ensures
        spec_kv_icons(c) == (match spec_kv_icons(c.subrange(i, c.len() as int)) {
            Ok(rest) => Ok::<_, ParseErrorV>(
                Seq::new(i as nat, |j: int| (c[j].0, spec_map_icon(c[j].1->Compound_0)->Ok_0))
                    + rest,
            ),
            Err(e) => Err::<Seq<(Seq<char>, MapIconV)>, _>(e),
        }),
    decreases i,
{
    if i == 0 {
        assert(c.subrange(0, c.len() as int) =~= c);
        if spec_kv_icons(c) is Ok {
            assert(Seq::new(0nat, |j: int| (c[j].0, spec_map_icon(c[j].1->Compound_0)->Ok_0))
                + spec_kv_icons(c)->Ok_0 =~= spec_kv_icons(c)->Ok_0);
        }
    } else {
        lemma_kv_icons_prefix(c, i - 1);
        let mid = c.subrange(i - 1, c.len() as int);
        let tail = c.subrange(i, c.len() as int);
        assert(mid[0] == c[i - 1]);
        assert(mid.subrange(1, mid.len() as int) =~= tail);
        match spec_kv_icons(tail) {
            Ok(rest) => {
                assert(spec_kv_icons(mid) == Ok::<_, ParseErrorV>(
                    seq![(c[i - 1].0, spec_map_icon(c[i - 1].1->Compound_0)->Ok_0)] + rest,
                ));
                assert(Seq::new(
                    (i - 1) as nat,
                    |j: int| (c[j].0, spec_map_icon(c[j].1->Compound_0)->Ok_0),
                ) + (seq![(c[i - 1].0, spec_map_icon(c[i - 1].1->Compound_0)->Ok_0)] + rest)
                    =~= Seq::new(
                    i as nat,
                    |j: int| (c[j].0, spec_map_icon(c[j].1->Compound_0)->Ok_0),
                ) + rest);
            },
            Err(e) => {
                assert(spec_kv_icons(mid) == Err::<Seq<(Seq<char>, MapIconV)>, _>(e));
            },
        }
    }
}

impl FromCompoundNbt for KVPair<MapIcon> {
    type V = Seq<(Seq<char>, MapIconV)>;

    open spec fn model(self) -> Seq<(Seq<char>, MapIconV)> {
        Seq::new(
            self.entries@.len(),
            |i: int| (self.entries@[i].0@, self.entries@[i].1.model()),
        )
    }

    open spec fn spec_from_compound(c: CompoundV) -> Result<
        Seq<(Seq<char>, MapIconV)>,
        ParseErrorV,
    > {
        spec_kv_icons(c)
    }

    fn from_compound_nbt(nbt: &NbtCompound) -> (r: Result<Self, SculkParseError>) {
        let ghost c = compound_view(*nbt);
        let n = nbt.entries.len();
        let mut out: Vec<(String, MapIcon)> = Vec::new();
        let mut i: usize = 0;
        proof {
            lemma_entries_view(nbt.entries@);
        }
        while i < n
            invariant
                n == nbt.entries@.len(),
                c == compound_view(*nbt),
                c.len() == n,
                forall|j: int|
                    0 <= j < n ==> c[j] == (nbt.entries@[j].0@, value_view(nbt.entries@[j].1)),
                0 <= i <= n,
                out@.len() == i,
                forall|j: int|
                    0 <= j < i ==> c[j].1 is Compound && spec_map_icon(c[j].1->Compound_0) is Ok,
                forall|j: int|
                    0 <= j < i ==> (out@[j].0@, out@[j].1.model()) == (
                        c[j].0,
                        spec_map_icon(c[j].1->Compound_0)->Ok_0,
                    ),
            decreases n - i,
        {
            match &nbt.entries[i].1 {
                Value::Compound(sub) => {
                    match MapIcon::from_compound_nbt(sub) {
                        Ok(icon) => {
                            let k: String = nbt.entries[i].0.clone();
                            out.push((k, icon));
                        },
                        Err(e) => {
                            proof {
                                lemma_kv_icons_prefix(c, i as int);
                            }
                            return Err(e);
                        },
                    }
                },
                _ => {
                    proof {
                        lemma_kv_icons_prefix(c, i as int);
                    }
                    return Err(
                        SculkParseError::InvalidField("minecraft:map_decorations".to_owned()),
                    );
                },
            }
            i += 1;
        }
        let r = KVPair { entries: out };
        proof {
            lemma_kv_icons_prefix(c, n as int);
            assert(c.subrange(n as int, c.len() as int).len() == 0);
            assert(Seq::new(
                n as nat,
                |j: int| (c[j].0, spec_map_icon(c[j].1->Compound_0)->Ok_0),
            ) + Seq::<(Seq<char>, MapIconV)>::empty() =~= Seq::new(
                n as nat,
                |j: int| (c[j].0, spec_map_icon(c[j].1->Compound_0)->Ok_0),
            ));
            assert(r.model() =~= Seq::new(
                n as nat,
                |j: int| (c[j].0, spec_map_icon(c[j].1->Compound_0)->Ok_0),
            ));
        }
        Ok(r)
    }
}

/// Writing back the kind read from an identifier yields that identifier:
/// catalogued kinds write their own name, and an unknown kind keeps the
/// text it was read from.
pub proof fn lemma_icon_identifier_stable(s: Seq<char>)
    ensures
        spec_icon_type_str(spec_icon_type_from_str(s)) == s,
{
}

/// An icon written back as a compound decodes to itself, whenever its
/// kind came from reading an identifier (an `Unknown` carrying a
/// catalogued name would decode to the catalogued kind instead).
pub proof fn lemma_map_icon_round_trip(icon: MapIconV)
    requires
        spec_icon_type_from_str(spec_icon_type_str(icon.icon_type)) == icon.icon_type,
    ensures
        spec_map_icon(spec_map_icon_compound(icon)) == Ok::<MapIconV, ParseErrorV>(icon),
{
    reveal_with_fuel(lookup, 5);
    reveal_strlit("type");
    reveal_strlit("x");
    reveal_strlit("z");
    reveal_strlit("rotation");
    assert("type"@.len() == 4 && "x"@.len() == 1 && "z"@.len() == 1 && "rotation"@.len() == 8);
    assert("x"@[0] == 'x' && "z"@[0] == 'z');
    let enc = spec_map_icon_compound(icon);
    let rest1 = enc.subrange(1, 4);
    let rest2 = rest1.subrange(1, rest1.len() as int);
    let rest3 = rest2.subrange(1, rest2.len() as int);
    assert(rest1[0] == enc[1] && rest1[1] == enc[2] && rest1[2] == enc[3]);
    assert(rest2[0] == enc[2] && rest2[1] == enc[3]);
    assert(rest3[0] == enc[3]);
    assert(lookup(enc, "type"@) == Some(ValueV::Text(spec_icon_type_str(icon.icon_type))));
    assert(lookup(enc, "x"@) == Some(ValueV::Double(icon.x)));
    assert(lookup(enc, "z"@) == Some(ValueV::Double(icon.z)));
    assert(lookup(enc, "rotation"@) == Some(ValueV::Float(icon.rotation)));
}

/// Every icon a decode yields carries a kind read from an identifier, so
/// writing it back is faithful.
pub proof fn lemma_kv_icons_kinds_stable(c: CompoundV)
    requires
        spec_kv_icons(c) is Ok,
    ensures
        forall|i: int|
            0 <= i < spec_kv_icons(c)->Ok_0.len() ==> spec_icon_type_from_str(
                spec_icon_type_str(#[trigger] spec_kv_icons(c)->Ok_0[i].1.icon_type),
            ) == spec_kv_icons(c)->Ok_0[i].1.icon_type,
    decreases c.len(),
{
    if c.len() != 0 {
        let rest = c.subrange(1, c.len() as int);
        lemma_kv_icons_kinds_stable(rest);
        let sub = c[0].1->Compound_0;
        let icon0 = spec_map_icon(sub)->Ok_0;
        lemma_icon_identifier_stable(spec_req_string(sub, "type"@)->Ok_0);
        let m = spec_kv_icons(c)->Ok_0;
        let mr = spec_kv_icons(rest)->Ok_0;
        assert(m == seq![(c[0].0, icon0)] + mr);
        assert(forall|i: int| 1 <= i < m.len() ==> m[i] == mr[i - 1]);
    }
}

/// A decoration map written back as a compound decodes to itself,
/// whenever every icon kind in it came from reading an identifier.
pub proof fn lemma_map_decorations_round_trip(m: Seq<(Seq<char>, MapIconV)>)
    requires
        forall|i: int|
            0 <= i < m.len() ==> spec_icon_type_from_str(
                spec_icon_type_str(#[trigger] m[i].1.icon_type),
            ) == m[i].1.icon_type,
    ensures
        spec_kv_icons(spec_map_decorations_compound(m)) == Ok::<_, ParseErrorV>(m),
    decreases m.len(),
{
    let enc = spec_map_decorations_compound(m);
    if m.len() == 0 {
        assert(spec_kv_icons(enc) == Ok::<_, ParseErrorV>(Seq::<(Seq<char>, MapIconV)>::empty()));
        assert(Seq::<(Seq<char>, MapIconV)>::empty() =~= m);
    } else {
        let mrest = m.subrange(1, m.len() as int);
        lemma_map_decorations_round_trip(mrest);
        lemma_map_icon_round_trip(m[0].1);
        assert(enc.subrange(1, enc.len() as int) =~= spec_map_decorations_compound(mrest));
        assert(enc[0] == (m[0].0, ValueV::Compound(spec_map_icon_compound(m[0].1))));
        assert(seq![(m[0].0, m[0].1)] + mrest =~= m);
    }
}

/// Decoding, writing back, and decoding again yields the map the first
/// decode produced: the mirror loses nothing a decode can see.
pub proof fn lemma_map_decorations_mirror(c: CompoundV)
    requires
        spec_kv_icons(c) is Ok,
    ensures
        spec_kv_icons(spec_map_decorations_compound(spec_kv_icons(c)->Ok_0)) == spec_kv_icons(c),
{
    lemma_kv_icons_kinds_stable(c);
    lemma_map_decorations_round_trip(spec_kv_icons(c)->Ok_0);
}

/// Decorations on a map: arbitrary unique keys, each naming one icon.
#[derive(Debug, Clone, PartialEq)]
pub struct MapDecorations(pub KVPair<MapIcon>);

/// The compound a decoration map is written back as: one entry per key, in
/// order, each an icon compound.
pub open spec fn spec_map_decorations_compound(m: Seq<(Seq<char>, MapIconV)>) -> CompoundV {
    Seq::new(m.len(), |i: int| (m[i].0, ValueV::Compound(spec_map_icon_compound(m[i].1))))
}

impl FromCompoundNbt for MapDecorations {
    type V = Seq<(Seq<char>, MapIconV)>;

    open spec fn model(self) -> Seq<(Seq<char>, MapIconV)> {
        self.0.model()
    }

    open spec fn spec_from_compound(c: CompoundV) -> Result<
        Seq<(Seq<char>, MapIconV)>,
        ParseErrorV,
    > {
        spec_kv_icons(c)
    }

    fn from_compound_nbt(nbt: &NbtCompound) -> (r: Result<Self, SculkParseError>) {
        match KVPair::<MapIcon>::from_compound_nbt(nbt) {
            Ok(kv) => Ok(MapDecorations(kv)),
            Err(e) => Err(e),
        }
    }
}

impl MapDecorations {
    /// Writes the decorations back as a compound; decoding it again
    /// rebuilds this map, key for key and icon for icon.
    pub fn to_compound(&self) -> (r: NbtCompound)
        ensures
            compound_view(r) == spec_map_decorations_compound((*self).model()),
    {
        let ghost m = (*self).model();
        let n = self.0.entries.len();
        let mut c = NbtCompound::new();
        let mut i: usize = 0;
        while i < n
            invariant
                n == self.0.entries@.len(),
                m == (*self).model(),
                m.len() == n,
                forall|j: int|
                    0 <= j < n ==> m[j] == (
                        self.0.entries@[j].0@,
                        self.0.entries@[j].1.model(),
                    ),
                0 <= i <= n,
                compound_view(c) == spec_map_decorations_compound(m).subrange(0, i as int),
            decreases n - i,
        {
            let key: &String = &self.0.entries[i].0;
            let icon = self.0.entries[i].1.to_compound();
            c.push(key.as_str(), Value::Compound(icon));
            proof {
                assert(compound_view(c) =~= spec_map_decorations_compound(m).subrange(
                    0,
                    i + 1 as int,
                ));
            }
            i += 1;
        }
        proof {
            assert(spec_map_decorations_compound(m).subrange(0, n as int)
                =~= spec_map_decorations_compound(m));
        }
        c
    }
}

} // verus!
