//! People: generated characters assembled from lockable fields.

pub mod race;

use vstd::prelude::*;
use crate::demographics::{ConfigurationError, Demographics, total_weight};
use crate::field::Field;
use crate::rng::RandomSource;
use race::Race;

verus! {

#[derive(Clone, Copy, Debug, PartialEq, Eq, Structural)]
pub enum Gender {
    Feminine,
    Masculine,
    Neutral,
}

#[derive(Clone, Copy, Debug, PartialEq, Eq, Structural)]
pub enum Age {
    Child,
    Adult,
    Elderly,
}

impl Gender {
    pub open spec fn name_spec(self) -> Seq<char> {
        match self {
            Gender::Feminine => "feminine"@,
            Gender::Masculine => "masculine"@,
            Gender::Neutral => "neutral"@,
        }
    }

    pub fn name(&self) -> (r: &'static str)
        ensures
            r@ == self.name_spec(),
    {
        match self {
            Gender::Feminine => "feminine",
            Gender::Masculine => "masculine",
            Gender::Neutral => "neutral",
        }
    }
}

impl Age {
    pub open spec fn name_spec(self) -> Seq<char> {
        match self {
            Age::Child => "child"@,
            Age::Adult => "adult"@,
            Age::Elderly => "elderly"@,
        }
    }

    pub fn name(&self) -> (r: &'static str)
        ensures
            r@ == self.name_spec(),
    {
        match self {
            Age::Child => "child",
            Age::Adult => "adult",
            Age::Elderly => "elderly",
        }
    }
}

#[derive(Clone, Copy, Debug, PartialEq, Eq, Structural)]
pub struct Size {
    pub height_cm: u32,
    pub weight_lb: u32,
}

/// A person: a stable identifier, a set of individually lockable fields,
/// and an optional non-owning reference to a home region, held as a lookup
/// key whose target may independently disappear.
#[derive(Clone, Debug)]
pub struct Npc {
    pub uuid: Option<u128>,
    pub name: Field<String>,
    pub gender: Field<Gender>,
    pub age: Field<Age>,
    pub size: Field<Size>,
    pub race: Field<Race>,
    pub home_region: Option<u128>,
}

/// A regeneration pass never touches a locked field: each one keeps its
/// exact prior state, value and lock bit alike.
pub open spec fn respects_locks(b: Npc, a: Npc) -> bool {
    &&& (b.name.locked_spec() ==> a.name == b.name)
    &&& (b.gender.locked_spec() ==> a.gender == b.gender)
    &&& (b.age.locked_spec() ==> a.age == b.age)
    &&& (b.size.locked_spec() ==> a.size == b.size)
    &&& (b.race.locked_spec() ==> a.race == b.race)
}

/// A locked field survives any number of regeneration passes unchanged:
/// two passes in a row leave it exactly as it stood before the first.
pub proof fn lemma_locked_fields_stable(n0: Npc, n1: Npc, n2: Npc)
    requires
        respects_locks(n0, n1),
        respects_locks(n1, n2),
    ensures
        respects_locks(n0, n2),
{
}

impl Npc {
    /// All attribute fields hold no value and are unlocked.
    pub open spec fn is_blank(self) -> bool {
        &&& self.uuid.is_none()
        &&& self.name.value_spec().is_none() && !self.name.locked_spec()
        &&& self.gender.value_spec().is_none() && !self.gender.locked_spec()
        &&& self.age.value_spec().is_none() && !self.age.locked_spec()
        &&& self.size.value_spec().is_none() && !self.size.locked_spec()
        &&& self.race.value_spec().is_none() && !self.race.locked_spec()
        &&& self.home_region.is_none()
    }

    /// Every generated attribute holds a value.
    pub open spec fn is_fully_populated(self) -> bool {
        &&& self.name.value_spec().is_some()
        &&& self.gender.value_spec().is_some()
        &&& self.age.value_spec().is_some()
        &&& self.size.value_spec().is_some()
        &&& self.race.value_spec().is_some()
    }

    pub fn new() -> (r: Npc)
        ensures
            r.is_blank(),
    {
        Npc {
            uuid: None,
            name: Field::new(),
            gender: Field::new(),
            age: Field::new(),
            size: Field::new(),
            race: Field::new(),
            home_region: None,
        }
    }

    /// Generates a fresh person: all fields unlocked, the lineage sampled
    /// from the general demographic table, every attribute populated.
    /// Fails exactly when that table has zero total weight.
    pub fn generate(rng: &mut RandomSource, demographics: &Demographics) -> (r: Result<
        Npc,
        ConfigurationError,
    >)
        requires
            demographics.wf(),
        ensures
            r.is_err() <==> total_weight(demographics.table_for(None)) == 0,
            match r {
                Ok(npc) => npc.is_fully_populated() && !npc.name.locked_spec()
                    && !npc.gender.locked_spec() && !npc.age.locked_spec()
                    && !npc.size.locked_spec() && !npc.race.locked_spec(),
                Err(e) => e == ConfigurationError,
            },
    {
        let mut npc = Npc::new();
        match npc.regenerate(rng, demographics) {
            Ok(()) => Ok(npc),
            Err(e) => Err(e),
        }
    }

    /// Regenerates the person in place. A locked field is never touched,
    /// whatever the state of its dependencies. The lineage is sampled from
    /// the home region's demographic table only when the field holds no
    /// value; name and size are regenerated only when both gender and age
    /// are present once their own regeneration has run.
    pub fn regenerate(&mut self, rng: &mut RandomSource, demographics: &Demographics) -> (r: Result<
        (),
        ConfigurationError,
    >)
        requires
            demographics.wf(),
        ensures
            final(self).uuid == old(self).uuid,
            final(self).home_region == old(self).home_region,
            respects_locks(*old(self), *final(self)),
            r.is_err() <==> old(self).race.value_spec().is_none() && !old(self).race.locked_spec()
                && total_weight(demographics.table_for(old(self).home_region)) == 0,
            r.is_err() ==> *final(self) == *old(self),
            r.is_ok() && old(self).race.value_spec().is_some() ==> final(self).race == old(
                self,
            ).race,
            r.is_ok() && old(self).race.value_spec().is_none() && !old(self).race.locked_spec()
                ==> final(self).race.value_spec().is_some() && !final(self).race.locked_spec(),
            r.is_ok() && final(self).race.value_spec().is_some() ==> race::regenerated_from(
                *old(self),
                *final(self),
            ),
            r.is_ok() && final(self).race.value_spec().is_none() ==> final(self).name == old(
                self,
            ).name && final(self).gender == old(self).gender && final(self).age == old(self).age
                && final(self).size == old(self).size,
    {
        if !self.race.is_some() && self.race.is_unlocked() {
            match demographics.weighted_choice(rng, self.home_region) {
                Ok(race) => self.race.replace(race),
                Err(e) => {
                    return Err(e);
                },
            }
        }
        race::regenerate(rng, self);
        Ok(())
    }
}

/// The one-line rendering of a person: the name, then lineage, age and
/// gender in parentheses, each part falling back or dropping out when the
/// field holds no value.
pub open spec fn npc_description_spec(npc: Npc) -> Seq<char> {
    (match npc.name.value_spec() {
        Some(n) => n@,
        None => "A person"@,
    }) + " ("@ + (match npc.race.value_spec() {
        Some(r) => r.name_spec(),
        None => "unknown lineage"@,
    }) + (match npc.age.value_spec() {
        Some(a) => ", "@ + a.name_spec(),
        None => Seq::<char>::empty(),
    }) + (match npc.gender.value_spec() {
        Some(g) => ", "@ + g.name_spec(),
        None => Seq::<char>::empty(),
    }) + ")"@
}

impl Default for Npc {
    fn default() -> (r: Npc)
        ensures
            r.is_blank(),
    {
        Npc::new()
    }
}

} // verus!
