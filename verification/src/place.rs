//! Places: geographical locations and the larger regions they sit in.

use vstd::prelude::*;
use crate::field::Field;
use crate::rng::RandomSource;

verus! {

#[derive(Clone, Copy, Debug, PartialEq, Eq, Structural)]
pub enum GeographicalType {
    Beach,
    Canyon,
    Cave,
    Chasm,
    Glacier,
    Grove,
    Hill,
    Island,
    Monolith,
    Oasis,
    Pass,
    Peninsula,
    Ridge,
    Rift,
    River,
    Tree,
    Valley,
}

impl GeographicalType {
    /// The pictograph shown beside a location of this type, where one fits.
    pub open spec fn emoji_spec(self) -> Option<Seq<char>> {
        match self {
            GeographicalType::Beach => Some("🏖"@),
            GeographicalType::Canyon
            | GeographicalType::Chasm
            | GeographicalType::River
            | GeographicalType::Valley => Some("🏞"@),
            GeographicalType::Glacier => Some("🏔"@),
            GeographicalType::Grove | GeographicalType::Tree => Some("🌳"@),
            GeographicalType::Hill | GeographicalType::Pass | GeographicalType::Ridge => Some(
                "⛰"@,
            ),
            GeographicalType::Island | GeographicalType::Peninsula => Some("🏝"@),
            GeographicalType::Monolith => Some("🗿"@),
            GeographicalType::Oasis => Some("🌴"@),
            GeographicalType::Cave | GeographicalType::Rift => None,
        }
    }

    pub fn get_emoji(&self) -> (r: Option<&'static str>)
        ensures
            match (r, self.emoji_spec()) {
                (Some(e), Some(s)) => e@ == s,
                (None, None) => true,
                _ => false,
            },
    {
        match self {
            GeographicalType::Beach => Some("🏖"),
            GeographicalType::Canyon
            | GeographicalType::Chasm
            | GeographicalType::River
            | GeographicalType::Valley => Some("🏞"),
            GeographicalType::Glacier => Some("🏔"),
            GeographicalType::Grove | GeographicalType::Tree => Some("🌳"),
            GeographicalType::Hill | GeographicalType::Pass | GeographicalType::Ridge => Some("⛰"),
            GeographicalType::Island | GeographicalType::Peninsula => Some("🏝"),
            GeographicalType::Monolith => Some("🗿"),
            GeographicalType::Oasis => Some("🌴"),
            GeographicalType::Cave | GeographicalType::Rift => None,
        }
    }

    /// The canonical lowercase name of the type.
    pub open spec fn name_spec(self) -> Seq<char> {
        match self {
            GeographicalType::Beach => "beach"@,
            GeographicalType::Canyon => "canyon"@,
            GeographicalType::Cave => "cave"@,
            GeographicalType::Chasm => "chasm"@,
            GeographicalType::Glacier => "glacier"@,
            GeographicalType::Grove => "grove"@,
            GeographicalType::Hill => "hill"@,
            GeographicalType::Island => "island"@,
            GeographicalType::Monolith => "monolith"@,
            GeographicalType::Oasis => "oasis"@,
            GeographicalType::Pass => "pass"@,
            GeographicalType::Peninsula => "peninsula"@,
            GeographicalType::Ridge => "ridge"@,
            GeographicalType::Rift => "rift"@,
            GeographicalType::River => "river"@,
            GeographicalType::Tree => "tree"@,
            GeographicalType::Valley => "valley"@,
        }
    }

    pub fn name(&self) -> (r: &'static str)
        ensures
            r@ == self.name_spec(),
    {
        match self {
            GeographicalType::Beach => "beach",
            GeographicalType::Canyon => "canyon",
            GeographicalType::Cave => "cave",
            GeographicalType::Chasm => "chasm",
            GeographicalType::Glacier => "glacier",
            GeographicalType::Grove => "grove",
            GeographicalType::Hill => "hill",
            GeographicalType::Island => "island",
            GeographicalType::Monolith => "monolith",
            GeographicalType::Oasis => "oasis",
            GeographicalType::Pass => "pass",
            GeographicalType::Peninsula => "peninsula",
            GeographicalType::Ridge => "ridge",
            GeographicalType::Rift => "rift",
            GeographicalType::River => "river",
            GeographicalType::Tree => "tree",
            GeographicalType::Valley => "valley",
        }
    }
}

#[derive(Clone, Copy, Debug, PartialEq, Eq, Structural)]
pub enum GeographyType {
    Archipelago,
    Barrens,
    Coastline,
    Continent,
    Desert,
    Forest,
    Jungle,
    Lake,
    Marsh,
    Mesa,
    Moor,
    Mountain,
    Ocean,
    Plain,
    Plateau,
    Reef,
    Sea,
    Swamp,
    Tundra,
    Wasteland,
    World,
}

impl GeographyType {
    /// The pictograph shown beside a region of this type, where one fits.
    pub open spec fn emoji_spec(self) -> Option<Seq<char>> {
        match self {
            GeographyType::Archipelago => Some("🏝"@),
            GeographyType::Barrens | GeographyType::Desert | GeographyType::Wasteland => Some(
                "🏜"@,
            ),
            GeographyType::Coastline
            | GeographyType::Lake
            | GeographyType::Sea
            | GeographyType::Ocean => Some("🌊"@),
            GeographyType::Forest | GeographyType::Jungle => Some("🌳"@),
            GeographyType::Mountain => Some("⛰"@),
            GeographyType::Tundra => Some("❄"@),
            GeographyType::World => Some("🌐"@),
            GeographyType::Continent
            | GeographyType::Marsh
            | GeographyType::Mesa
            | GeographyType::Moor
            | GeographyType::Plain
            | GeographyType::Plateau
            | GeographyType::Reef
            | GeographyType::Swamp => None,
        }
    }

    pub fn get_emoji(&self) -> (r: Option<&'static str>)
        ensures
            match (r, self.emoji_spec()) {
                (Some(e), Some(s)) => e@ == s,
                (None, None) => true,
                _ => false,
            },
    {
        match self {
            GeographyType::Archipelago => Some("🏝"),
            GeographyType::Barrens | GeographyType::Desert | GeographyType::Wasteland => Some("🏜"),
            GeographyType::Coastline
            | GeographyType::Lake
            | GeographyType::Sea
            | GeographyType::Ocean => Some("🌊"),
            GeographyType::Forest | GeographyType::Jungle => Some("🌳"),
            GeographyType::Mountain => Some("⛰"),
            GeographyType::Tundra => Some("❄"),
            GeographyType::World => Some("🌐"),
            GeographyType::Continent
            | GeographyType::Marsh
            | GeographyType::Mesa
            | GeographyType::Moor
            | GeographyType::Plain
            | GeographyType::Plateau
            | GeographyType::Reef
            | GeographyType::Swamp => None,
        }
    }
}

/// A geographical location: lockable fields plus a non-owning reference
/// to the region it lies in.
#[derive(Clone, Debug)]
pub struct Location {
    pub uuid: Option<u128>,
    pub name: Field<String>,
    pub subtype: Field<GeographicalType>,
    pub region: Option<u128>,
}

impl Location {
    pub open spec fn is_blank(self) -> bool {
        &&& self.uuid.is_none()
        &&& self.name.value_spec().is_none() && !self.name.locked_spec()
        &&& self.subtype.value_spec().is_none() && !self.subtype.locked_spec()
        &&& self.region.is_none()
    }

    pub fn new() -> (r: Location)
        ensures
            r.is_blank(),
    {
        Location { uuid: None, name: Field::new(), subtype: Field::new(), region: None }
    }

    /// Regenerates the location in place: a locked field is never touched,
    /// an unlocked one is freshly populated.
    pub fn regenerate(&mut self, rng: &mut RandomSource)
        ensures
            final(self).uuid == old(self).uuid,
            final(self).region == old(self).region,
            old(self).name.locked_spec() ==> final(self).name == old(self).name,
            old(self).subtype.locked_spec() ==> final(self).subtype == old(self).subtype,
            !old(self).name.locked_spec() ==> final(self).name.value_spec().is_some()
                && !final(self).name.locked_spec(),
            !old(self).subtype.locked_spec() ==> final(self).subtype.value_spec().is_some()
                && !final(self).subtype.locked_spec(),
    {
        if self.subtype.is_unlocked() {
            let t = gen_geographical_type(rng);
            self.subtype.replace(t);
        }
        if self.name.is_unlocked() {
            let n = gen_location_name(rng);
            self.name.replace(n);
        }
    }
}

impl Default for Location {
    fn default() -> (r: Location)
        ensures
            r.is_blank(),
    {
        Location::new()
    }
}

/// Draws a geographical type uniformly.
fn gen_geographical_type(rng: &mut RandomSource) -> GeographicalType {
    let x = rng.next_below(17);
    if x == 0 {
        GeographicalType::Beach
    } else if x == 1 {
        GeographicalType::Canyon
    } else if x == 2 {
        GeographicalType::Cave
    } else if x == 3 {
        GeographicalType::Chasm
    } else if x == 4 {
        GeographicalType::Glacier
    } else if x == 5 {
        GeographicalType::Grove
    } else if x == 6 {
        GeographicalType::Hill
    } else if x == 7 {
        GeographicalType::Island
    } else if x == 8 {
        GeographicalType::Monolith
    } else if x == 9 {
        GeographicalType::Oasis
    } else if x == 10 {
        GeographicalType::Pass
    } else if x == 11 {
        GeographicalType::Peninsula
    } else if x == 12 {
        GeographicalType::Ridge
    } else if x == 13 {
        GeographicalType::Rift
    } else if x == 14 {
        GeographicalType::River
    } else if x == 15 {
        GeographicalType::Tree
    } else {
        GeographicalType::Valley
    }
}

/// Draws a location name from the fixed list.
fn gen_location_name(rng: &mut RandomSource) -> String {
    let x = rng.next_below(4);
    if x == 0 {
        String::from_str("Silverstream")
    } else if x == 1 {
        String::from_str("Thornhollow")
    } else if x == 2 {
        String::from_str("Windmere")
    } else {
        String::from_str("Duskvale")
    }
}

/// The one-line rendering of a location: the name, then its type, each
/// part falling back when the field holds no value.
pub open spec fn location_description_spec(location: Location) -> Seq<char> {
    (match location.name.value_spec() {
        Some(n) => n@,
        None => "A place"@,
    }) + ", a "@ + (match location.subtype.value_spec() {
        Some(t) => t.name_spec(),
        None => "landmark"@,
    })
}

/// A region: a named area of the world that locations and people refer to
/// by identifier.
#[derive(Clone, Debug)]
pub struct Region {
    pub uuid: Option<u128>,
    pub name: Field<String>,
    pub geography: Field<GeographyType>,
}

impl Region {
    pub open spec fn is_blank(self) -> bool {
        &&& self.uuid.is_none()
        &&& self.name.value_spec().is_none() && !self.name.locked_spec()
        &&& self.geography.value_spec().is_none() && !self.geography.locked_spec()
    }

    pub fn new() -> (r: Region)
        ensures
            r.is_blank(),
    {
        Region { uuid: None, name: Field::new(), geography: Field::new() }
    }
}

impl Default for Region {
    fn default() -> (r: Region)
        ensures
            r.is_blank(),
    {
        Region::new()
    }
}

} // verus!
