//! Lineages and their generation strategies.
//!
//! Each lineage implements the same capability set (gender, age, name,
//! size); a dispatcher selects the strategy from the person's already
//! resolved lineage field. The lineage set is closed and exhaustively
//! matched.

use vstd::prelude::*;
use crate::npc::{Age, Gender, Npc, Size};
use crate::rng::RandomSource;
use crate::text::lower;

verus! {

#[derive(Clone, Copy, Debug, Eq, PartialEq, Hash, Structural)]
pub enum Race {
    Human,
    Warforged,
}

impl Race {
    /// The canonical lowercase name of the lineage.
    pub open spec fn name_spec(self) -> Seq<char> {
        match self {
            Race::Human => "human"@,
            Race::Warforged => "warforged"@,
        }
    }

    pub fn name(&self) -> (r: String)
        ensures
            r@ == self.name_spec(),
    {
        match self {
            Race::Human => String::from_str("human"),
            Race::Warforged => String::from_str("warforged"),
        }
    }

    /// The lineage named by `input`, ignoring ASCII case.
    pub fn parse(input: &str) -> (r: Option<Race>)
        ensures
            r == race_from_name(input@),
    {
        if crate::text::eq_ci(input, "human") {
            Some(Race::Human)
        } else if crate::text::eq_ci(input, "warforged") {
            Some(Race::Warforged)
        } else {
            None
        }
    }
}

/// The lineage whose canonical name case-insensitively equals `s`.
pub open spec fn race_from_name(s: Seq<char>) -> Option<Race> {
    if lower(s) == lower("human"@) {
        Some(Race::Human)
    } else if lower(s) == lower("warforged"@) {
        Some(Race::Warforged)
    } else {
        None
    }
}

/// One regeneration pass ran over `b`, yielding `a`: an unlocked gender or
/// age is freshly populated, a locked field is untouched, and name and size
/// are regenerated only when both gender and age came out present —
/// otherwise they are left exactly as they were.
pub open spec fn regenerated_from(b: Npc, a: Npc) -> bool {
    &&& a.uuid == b.uuid
    &&& a.home_region == b.home_region
    &&& (b.gender.locked_spec() ==> a.gender == b.gender)
    &&& (!b.gender.locked_spec() ==> a.gender.value_spec().is_some() && !a.gender.locked_spec())
    &&& (b.age.locked_spec() ==> a.age == b.age)
    &&& (!b.age.locked_spec() ==> a.age.value_spec().is_some() && !a.age.locked_spec())
    &&& if a.gender.value_spec().is_some() && a.age.value_spec().is_some() {
        &&& (b.name.locked_spec() ==> a.name == b.name)
        &&& (!b.name.locked_spec() ==> a.name.value_spec().is_some() && !a.name.locked_spec())
        &&& (b.size.locked_spec() ==> a.size == b.size)
        &&& (!b.size.locked_spec() ==> a.size.value_spec().is_some() && !a.size.locked_spec())
    } else {
        a.name == b.name && a.size == b.size
    }
}

/// After one dispatched regeneration pass, gender and age are populated
/// unless locked while empty, and a missing name or size can only be due
/// to a declared dependency (gender or age) having come out absent — in
/// which case both are left exactly as they were.
pub proof fn lemma_strategy_fields_accounted(b: Npc, a: Npc)
    requires
        regenerated_from(b, a),
    ensures
        a.gender.value_spec().is_some() || (b.gender.locked_spec()
            && b.gender.value_spec().is_none()),
        a.age.value_spec().is_some() || (b.age.locked_spec() && b.age.value_spec().is_none()),
        a.name.value_spec().is_some() || (b.name.locked_spec() && b.name.value_spec().is_none())
            || !(a.gender.value_spec().is_some() && a.age.value_spec().is_some()),
        a.size.value_spec().is_some() || (b.size.locked_spec() && b.size.value_spec().is_none())
            || !(a.gender.value_spec().is_some() && a.age.value_spec().is_some()),
        !(a.gender.value_spec().is_some() && a.age.value_spec().is_some()) ==> a.name == b.name
            && a.size == b.size,
{
}

/// The shared capability set every lineage strategy implements.
trait RaceGenerate {
    fn gen_gender(rng: &mut RandomSource) -> Gender;

    fn gen_age(rng: &mut RandomSource) -> Age;

    fn gen_name(rng: &mut RandomSource, age: &Age, gender: &Gender) -> String;

    fn gen_size(rng: &mut RandomSource, age: &Age, gender: &Gender) -> Size;
}

/// The generic regeneration driver: gender first, then age, then — only if
/// both are now present — name and size. A locked field is never replaced
/// and its generator is not even consulted, so a locked field costs no
/// random draws.
fn drive<S: RaceGenerate>(rng: &mut RandomSource, npc: &mut Npc)
    ensures
        final(npc).race == old(npc).race,
        regenerated_from(*old(npc), *final(npc)),
{
    if npc.gender.is_unlocked() {
        let g = S::gen_gender(rng);
        npc.gender.replace(g);
    }
    if npc.age.is_unlocked() {
        let a = S::gen_age(rng);
        npc.age.replace(a);
    }
    let g_opt: Option<Gender> = match npc.gender.get() {
        Some(g) => Some(*g),
        None => None,
    };
    let a_opt: Option<Age> = match npc.age.get() {
        Some(a) => Some(*a),
        None => None,
    };
    if let (Some(g), Some(a)) = (g_opt, a_opt) {
        if npc.name.is_unlocked() {
            let n = S::gen_name(rng, &a, &g);
            npc.name.replace(n);
        }
        if npc.size.is_unlocked() {
            let s = S::gen_size(rng, &a, &g);
            npc.size.replace(s);
        }
    }
}

/// Dispatches one regeneration pass to the strategy selected by the
/// person's lineage field. A person with no lineage is left untouched.
pub fn regenerate(rng: &mut RandomSource, npc: &mut Npc)
    ensures
        final(npc).race == old(npc).race,
        old(npc).race.value_spec().is_none() ==> *final(npc) == *old(npc),
        old(npc).race.value_spec().is_some() ==> regenerated_from(*old(npc), *final(npc)),
{
    let race: Option<Race> = match npc.race.get() {
        Some(r) => Some(*r),
        None => None,
    };
    match race {
        Some(Race::Human) => drive::<Human>(rng, npc),
        Some(Race::Warforged) => drive::<Warforged>(rng, npc),
        None => (),
    }
}

struct Human;

impl RaceGenerate for Human {
    fn gen_gender(rng: &mut RandomSource) -> Gender {
        let x = rng.next_below(100);
        if x < 49 {
            Gender::Feminine
        } else if x < 98 {
            Gender::Masculine
        } else {
            Gender::Neutral
        }
    }

    fn gen_age(rng: &mut RandomSource) -> Age {
        let x = rng.next_below(100);
        if x < 20 {
            Age::Child
        } else if x < 85 {
            Age::Adult
        } else {
            Age::Elderly
        }
    }

    fn gen_name(rng: &mut RandomSource, _age: &Age, gender: &Gender) -> String {
        let pool: u32 = match gender {
            Gender::Feminine => 0,
            Gender::Masculine => 1,
            Gender::Neutral => rng.next_below(2),
        };
        let x = rng.next_below(4);
        if pool == 0 {
            if x == 0 {
                String::from_str("Aria")
            } else if x == 1 {
                String::from_str("Brianne")
            } else if x == 2 {
                String::from_str("Celeste")
            } else {
                String::from_str("Yolanda")
            }
        } else {
            if x == 0 {
                String::from_str("Bram")
            } else if x == 1 {
                String::from_str("Cole")
            } else if x == 2 {
                String::from_str("Dorian")
            } else {
                String::from_str("Ferris")
            }
        }
    }

    fn gen_size(rng: &mut RandomSource, age: &Age, _gender: &Gender) -> Size {
        match age {
            Age::Child => Size {
                height_cm: 90 + rng.next_below(60),
                weight_lb: 30 + rng.next_below(60),
            },
            Age::Adult | Age::Elderly => Size {
                height_cm: 150 + rng.next_below(45),
                weight_lb: 110 + rng.next_below(140),
            },
        }
    }
}

struct Warforged;

impl RaceGenerate for Warforged {
    fn gen_gender(rng: &mut RandomSource) -> Gender {
        let x = rng.next_below(20);
        if x < 18 {
            Gender::Neutral
        } else if x < 19 {
            Gender::Masculine
        } else {
            Gender::Feminine
        }
    }

    fn gen_age(_rng: &mut RandomSource) -> Age {
        Age::Adult
    }

    fn gen_name(rng: &mut RandomSource, _age: &Age, _gender: &Gender) -> String {
        let x = rng.next_below(5);
        if x == 0 {
            String::from_str("Anchor")
        } else if x == 1 {
            String::from_str("Banner")
        } else if x == 2 {
            String::from_str("Cutter")
        } else if x == 3 {
            String::from_str("Hammer")
        } else {
            String::from_str("Pierce")
        }
    }

    fn gen_size(rng: &mut RandomSource, _age: &Age, _gender: &Gender) -> Size {
        Size { height_cm: 180 + rng.next_below(30), weight_lb: 240 + rng.next_below(60) }
    }
}

} // verus!
