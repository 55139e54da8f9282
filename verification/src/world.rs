//! The world: the owning registry of generated entities, and the commands
//! that create them.
//!
//! Entities refer to each other only by identifier; the registry owns
//! every entity, so a reference to a deleted entity is a recoverable
//! dangling key, never a crash.

use vstd::prelude::*;
use crate::demographics::{ConfigurationError, Demographics, total_weight};
use crate::npc::race::{race_from_name, Race};
use crate::npc::Npc;
use crate::place::{Location, Region};
use crate::rng::RandomSource;
use crate::text::{eq_ci, lower};

verus! {

/// The identifier of the root region every world starts with.
pub const ROOT_UUID: u128 = 0xffffffffffffffffffffffffffffffffu128;

/// No two entries share a key.
pub open spec fn keys_unique<T>(v: Seq<(u128, T)>) -> bool {
    forall|i: int, j: int| 0 <= i < j < v.len() ==> (#[trigger] v[i]).0 != (#[trigger] v[j]).0
}

/// A registry of entities, keyed by identifier.
pub struct World {
    pub uuid: u128,
    pub regions: Vec<(u128, Region)>,
    pub locations: Vec<(u128, Location)>,
    pub npcs: Vec<(u128, Npc)>,
}

impl World {
    /// Identifiers are unique within each entity category.
    pub open spec fn wf(self) -> bool {
        &&& keys_unique(self.regions@)
        &&& keys_unique(self.locations@)
        &&& keys_unique(self.npcs@)
    }

    /// A fresh world holding only the root region, itself still blank.
    pub fn new() -> (r: World)
        ensures
            r.wf(),
            r.regions@.len() == 1,
            r.regions@[0].0 == ROOT_UUID,
            r.regions@[0].1.is_blank(),
            r.locations@.len() == 0,
            r.npcs@.len() == 0,
    {
        let mut regions: Vec<(u128, Region)> = Vec::new();
        regions.push((ROOT_UUID, Region::new()));
        World { uuid: new_uuid_v4(), regions, locations: Vec::new(), npcs: Vec::new() }
    }
}

impl Default for World {
    fn default() -> (r: World)
        ensures
            r.wf(),
            r.regions@.len() == 1,
            r.regions@[0].0 == ROOT_UUID,
            r.regions@[0].1.is_blank(),
            r.locations@.len() == 0,
            r.npcs@.len() == 0,
    {
        World::new()
    }
}

/// Relies on uuid's `Uuid::new_v4`: a freshly generated random identifier,
/// returned as its 128-bit value. Nothing is claimed of which value comes.
/// The call aborts if the operating system's entropy source fails, an
/// environmental condition no precondition can exclude.
#[verifier::external_body]
fn new_uuid_v4() -> (r: u128) {
    uuid::Uuid::new_v4().as_u128()
}

/// Stores `value` under `id`, replacing any entry already keyed by `id`.
pub fn put_entry<T>(v: &mut Vec<(u128, T)>, id: u128, value: T)
    requires
        keys_unique(old(v)@),
    ensures
        keys_unique(final(v)@),
        final(v)@.len() >= old(v)@.len(),
        final(v)@.len() <= old(v)@.len() + 1,
        exists|i: int|
            0 <= i < final(v)@.len() && (#[trigger] final(v)@[i]).0 == id && final(v)@[i].1
                == value,
{
    let mut i: usize = 0;
    while i < v.len()
        invariant
            keys_unique(v@),
            v@ == old(v)@,
            i <= v@.len(),
            forall|j: int| 0 <= j < i ==> (#[trigger] v@[j]).0 != id,
        decreases v@.len() - i,
    {
        if v[i].0 == id {
            v.set(i, (id, value));
            proof {
                assert((v@[i as int]).0 == id && v@[i as int].1 == value);
            }
            return ;
        }
        i += 1;
    }
    v.push((id, value));
    proof {
        let n = v@.len() - 1;
        assert((v@[n]).0 == id && v@[n].1 == value);
    }
}

/// An entity-creation command: the lineage or kind may be pinned by the
/// phrasing, or left for demographics to decide.
#[derive(Clone, Copy, Debug, PartialEq, Eq)]
pub enum WorldCommand {
    Npc { race: Option<Race> },
    Location,
}

/// The authoritative reading of an input as a world command.
pub open spec fn world_exact_spec(s: Seq<char>) -> Option<WorldCommand> {
    if lower(s) == lower("npc"@) {
        Some(WorldCommand::Npc { race: None })
    } else {
        match race_from_name(s) {
            Some(race) => Some(WorldCommand::Npc { race: Some(race) }),
            None => if lower(s) == lower("location"@) {
                Some(WorldCommand::Location)
            } else {
                None
            },
        }
    }
}

/// The command creates a person.
pub open spec fn is_npc_command(c: WorldCommand) -> bool {
    c matches WorldCommand::Npc { .. }
}

/// The command creates a person without pinning a lineage.
pub open spec fn is_unpinned_npc_command(c: WorldCommand) -> bool {
    c matches WorldCommand::Npc { race: None }
}

/// An input that case-insensitively equals a world command's canonical
/// phrasing parses to exactly that command.
pub proof fn lemma_world_exact_round_trip(c: WorldCommand, s: Seq<char>)
    requires
        lower(s) == lower(world_display_spec(c)),
    ensures
        world_exact_spec(s) == Some(c),
{
    reveal_strlit("npc");
    reveal_strlit("human");
    reveal_strlit("warforged");
    reveal_strlit("location");
    crate::text::lemma_lower_len(s);
    crate::text::lemma_lower_len("npc"@);
    crate::text::lemma_lower_len("human"@);
    crate::text::lemma_lower_len("warforged"@);
    crate::text::lemma_lower_len("location"@);
    match c {
        WorldCommand::Npc { race: None } => {
            assert(world_exact_spec(s) == Some(c));
        },
        WorldCommand::Npc { race: Some(race) } => {
            match race {
                Race::Human => {
                    assert(world_exact_spec(s) == Some(c));
                },
                Race::Warforged => {
                    assert(world_exact_spec(s) == Some(c));
                },
            }
        },
        WorldCommand::Location => {
            assert(world_exact_spec(s) == Some(c));
        },
    }
}

/// The canonical display phrasing of a world command.
pub open spec fn world_display_spec(c: WorldCommand) -> Seq<char> {
    match c {
        WorldCommand::Npc { race: None } => "npc"@,
        WorldCommand::Npc { race: Some(race) } => race.name_spec(),
        WorldCommand::Location => "location"@,
    }
}

impl WorldCommand {
    /// Parses an input as a world command; creation phrases match only
    /// exactly (case-insensitively), so there are no fuzzy readings.
    pub fn parse_input(input: &str) -> (r: Option<WorldCommand>)
        ensures
            r == world_exact_spec(input@),
    {
        if eq_ci(input, "npc") {
            Some(WorldCommand::Npc { race: None })
        } else if let Some(race) = Race::parse(input) {
            Some(WorldCommand::Npc { race: Some(race) })
        } else if eq_ci(input, "location") {
            Some(WorldCommand::Location)
        } else {
            None
        }
    }

    /// The canonical display phrasing.
    pub fn display(&self) -> (r: String)
        ensures
            r@ == world_display_spec(*self),
    {
        match self {
            WorldCommand::Npc { race: None } => String::from_str("npc"),
            WorldCommand::Npc { race: Some(race) } => race.name(),
            WorldCommand::Location => String::from_str("location"),
        }
    }
}

/// Everything executing an entity-creation command promises: the registry
/// stays well-formed, only the commanded category changes, failure comes
/// exactly from an unpinned lineage over a zero-weight table and leaves
/// the world untouched, and success registers a new entity whose rendered
/// description is the output.
pub open spec fn command_post(
    cmd: WorldCommand,
    pre: World,
    demographics: Demographics,
    post: World,
    r: Result<String, String>,
) -> bool {
    &&& post.wf()
    &&& post.uuid == pre.uuid
    &&& (r.is_err() <==> (is_unpinned_npc_command(cmd) && total_weight(
        demographics.table_for(None),
    ) == 0))
    &&& (is_npc_command(cmd) ==> post.locations@ == pre.locations@ && post.regions@
        == pre.regions@)
    &&& (!is_npc_command(cmd) ==> post.npcs@ == pre.npcs@ && post.regions@ == pre.regions@)
    &&& (r.is_ok() && is_npc_command(cmd) ==> exists|i: int|
        0 <= i < post.npcs@.len() && (#[trigger] post.npcs@[i]).1.is_fully_populated() && (
        r matches Ok(out) && out@ == crate::npc::npc_description_spec(post.npcs@[i].1)))
    &&& (r.is_ok() && !is_npc_command(cmd) ==> exists|i: int|
        0 <= i < post.locations@.len() && (r matches Ok(out) && out@
            == crate::place::location_description_spec((#[trigger] post.locations@[i]).1)))
    &&& (r.is_err() ==> post == pre)
}

/// Executes an entity-creation command: generates the entity, stores it
/// in the owning registry under a fresh identifier, and renders a short
/// description. Fails if and only if an unpinned lineage must be sampled
/// from a zero-weight demographic table.
pub fn command(
    cmd: &WorldCommand,
    world: &mut World,
    demographics: &Demographics,
    rng: &mut RandomSource,
) -> (r: Result<String, String>)
    requires
        old(world).wf(),
        demographics.wf(),
    ensures
        command_post(*cmd, *old(world), *demographics, *final(world), r),
{
    match cmd {
        WorldCommand::Npc { race } => {
            let mut npc = Npc::new();
            if let Some(race) = race {
                npc.race.set(*race);
            }
            match npc.regenerate(rng, demographics) {
                Ok(()) => {
                    let id = new_uuid_v4();
                    npc.uuid = Some(id);
                    let description = describe_npc(&npc);
                    let ghost d = description@;
                    put_entry(&mut world.npcs, id, npc);
                    proof {
                        let i = choose|i: int|
                            0 <= i < world.npcs@.len() && (#[trigger] world.npcs@[i]).0 == id
                                && world.npcs@[i].1 == npc;
                        assert(world.npcs@[i].1.is_fully_populated() && d
                            == crate::npc::npc_description_spec(world.npcs@[i].1));
                    }
                    Ok(description)
                },
                Err(_) => Err(
                    String::from_str(
                        "The demographic table for this request has zero total weight, so no lineage can be chosen.",
                    ),
                ),
            }
        },
        WorldCommand::Location => {
            let mut location = Location::new();
            location.region = Some(ROOT_UUID);
            location.regenerate(rng);
            let id = new_uuid_v4();
            location.uuid = Some(id);
            let description = describe_location(&location);
            let ghost d = description@;
            put_entry(&mut world.locations, id, location);
            proof {
                let i = choose|i: int|
                    0 <= i < world.locations@.len() && (#[trigger] world.locations@[i]).0 == id
                        && world.locations@[i].1 == location;
                assert(d == crate::place::location_description_spec(world.locations@[i].1));
            }
            Ok(description)
        },
    }
}

/// Renders a one-line description of a person.
fn describe_npc(npc: &Npc) -> (r: String)
    ensures
        r@ == crate::npc::npc_description_spec(*npc),
{
    let ghost name_part = match npc.name.value_spec() {
        Some(n) => n@,
        None => "A person"@,
    };
    let ghost race_part = match npc.race.value_spec() {
        Some(r) => r.name_spec(),
        None => "unknown lineage"@,
    };
    let ghost age_part = match npc.age.value_spec() {
        Some(a) => ", "@ + a.name_spec(),
        None => Seq::<char>::empty(),
    };
    let ghost gender_part = match npc.gender.value_spec() {
        Some(g) => ", "@ + g.name_spec(),
        None => Seq::<char>::empty(),
    };
    let mut out = match npc.name.get() {
        Some(name) => name.clone(),
        None => String::from_str("A person"),
    };
    proof {
        assert(out@ == name_part);
    }
    out.append(" (");
    match npc.race.get() {
        Some(race) => {
            let race_name = race.name();
            out.append(race_name.as_str());
        },
        None => out.append("unknown lineage"),
    }
    proof {
        assert(out@ == name_part + " ("@ + race_part);
    }
    if let Some(age) = npc.age.get() {
        out.append(", ");
        out.append(age.name());
    }
    proof {
        assert(out@ =~= name_part + " ("@ + race_part + age_part);
    }
    if let Some(gender) = npc.gender.get() {
        out.append(", ");
        out.append(gender.name());
    }
    proof {
        assert(out@ =~= name_part + " ("@ + race_part + age_part + gender_part);
    }
    out.append(")");
    proof {
        assert(out@ == crate::npc::npc_description_spec(*npc));
    }
    out
}

/// Renders a one-line description of a location.
fn describe_location(location: &Location) -> (r: String)
    ensures
        r@ == crate::place::location_description_spec(*location),
{
    let ghost name_part = match location.name.value_spec() {
        Some(n) => n@,
        None => "A place"@,
    };
    let mut out = match location.name.get() {
        Some(name) => name.clone(),
        None => String::from_str("A place"),
    };
    proof {
        assert(out@ == name_part);
    }
    out.append(", a ");
    match location.subtype.get() {
        Some(subtype) => out.append(subtype.name()),
        None => out.append("landmark"),
    }
    proof {
        assert(out@ == crate::place::location_description_spec(*location));
    }
    out
}

/// The common contract every entity generator implements: build a fresh
/// entity, or re-run generation over an existing one without touching its
/// locked fields.
pub trait Generate: Sized {
    fn generate(rng: &mut RandomSource, demographics: &Demographics) -> (r: Result<
        Self,
        ConfigurationError,
    >)
        requires
            demographics.wf(),
    ;

    fn regenerate(&mut self, rng: &mut RandomSource, demographics: &Demographics) -> (r: Result<
        (),
        ConfigurationError,
    >)
        requires
            demographics.wf(),
    ;
}

impl Generate for Npc {
    fn generate(rng: &mut RandomSource, demographics: &Demographics) -> Result<
        Npc,
        ConfigurationError,
    > {
        Npc::generate(rng, demographics)
    }

    fn regenerate(&mut self, rng: &mut RandomSource, demographics: &Demographics) -> Result<
        (),
        ConfigurationError,
    > {
        Npc::regenerate(self, rng, demographics)
    }
}

impl Generate for Location {
    fn generate(rng: &mut RandomSource, _demographics: &Demographics) -> Result<
        Location,
        ConfigurationError,
    > {
        let mut location = Location::new();
        location.regenerate(rng);
        Ok(location)
    }

    fn regenerate(&mut self, rng: &mut RandomSource, _demographics: &Demographics) -> Result<
        (),
        ConfigurationError,
    > {
        Location::regenerate(self, rng);
        Ok(())
    }
}

} // verus!
