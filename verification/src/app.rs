//! The application shell: command resolution, execution and autocomplete.
//!
//! Resolution fans an input out over every command family's parser. A
//! single authoritative exact match wins outright and suppresses fuzzy
//! candidates; otherwise every fuzzy reading is surfaced for the caller
//! to disambiguate, and an input no family recognizes is reported as
//! guidance, not as a failure of the session.

use vstd::prelude::*;
use crate::demographics::{Demographics, total_weight};
use crate::npc::Npc;
use crate::reference::{pair_views, ref_display_spec, ref_exact_spec, ref_fuzzy_spec,
    ref_run_output_spec, ref_vocab, ref_vocab_spec, push_pair, ReferenceCommand};
use crate::rng::RandomSource;
use crate::text::{eq_str, is_prefix_ci, lex_le, lemma_lex_refl, lemma_lex_total, lemma_lex_trans,
    lower, starts_with_ci, str_le};
use crate::world::{command_post, is_unpinned_npc_command, world_display_spec, world_exact_spec,
    World, WorldCommand};

verus! {

/// The interface to the excluded persistence collaborator. A backend that
/// is not enabled degrades the session to memory-only operation; it never
/// aborts it.
pub trait DataStore {
    fn is_enabled(&self) -> bool;

    fn save_thing(&mut self, key: u128, value: String) -> bool;

    fn load_thing(&self, key: u128) -> Option<String>;
}

/// A backend that stores nothing.
#[derive(Clone, Copy, Debug, PartialEq, Eq, Structural)]
pub struct NullDataStore;

impl DataStore for NullDataStore {
    fn is_enabled(&self) -> bool {
        false
    }

    fn save_thing(&mut self, _key: u128, _value: String) -> bool {
        false
    }

    fn load_thing(&self, _key: u128) -> Option<String> {
        None
    }
}

impl Default for NullDataStore {
    fn default() -> (r: NullDataStore) {
        NullDataStore
    }
}

/// A backend that keeps everything in memory.
#[derive(Clone, Debug)]
pub struct MemoryDataStore {
    pub entries: Vec<(u128, String)>,
}

impl DataStore for MemoryDataStore {
    fn is_enabled(&self) -> bool {
        true
    }

    fn save_thing(&mut self, key: u128, value: String) -> bool {
        let mut i: usize = 0;
        while i < self.entries.len()
            invariant
                i <= self.entries@.len(),
            decreases self.entries@.len() - i,
        {
            if self.entries[i].0 == key {
                self.entries.set(i, (key, value));
                return true;
            }
            i += 1;
        }
        self.entries.push((key, value));
        true
    }

    fn load_thing(&self, key: u128) -> Option<String> {
        let mut i: usize = 0;
        while i < self.entries.len()
            invariant
                i <= self.entries@.len(),
            decreases self.entries@.len() - i,
        {
            if self.entries[i].0 == key {
                return Some(self.entries[i].1.clone());
            }
            i += 1;
        }
        None
    }
}

impl Default for MemoryDataStore {
    fn default() -> (r: MemoryDataStore)
        ensures
            r.entries@.len() == 0,
    {
        MemoryDataStore { entries: Vec::new() }
    }
}

/// The session context: the owned world, the demographic tables, the
/// random source and the persistence backend.
pub struct AppMeta<D: DataStore> {
    pub world: World,
    pub demographics: Demographics,
    pub rng: RandomSource,
    pub repository: D,
}

impl<D: DataStore> AppMeta<D> {
    pub open spec fn wf(self) -> bool {
        &&& self.world.wf()
        &&& self.demographics.wf()
    }

    /// A fresh session context holds no entities beyond the blank root
    /// region, carries the standard demographic mix, and is backed by
    /// exactly the given store.
    pub open spec fn is_fresh(self, data_store: D) -> bool {
        &&& self.repository == data_store
        &&& self.world.regions@.len() == 1
        &&& self.world.regions@[0].0 == crate::world::ROOT_UUID
        &&& self.world.regions@[0].1.is_blank()
        &&& self.world.locations@.len() == 0
        &&& self.world.npcs@.len() == 0
        &&& total_weight(self.demographics.table_for(None)) > 0
    }

    pub fn new(data_store: D) -> (r: AppMeta<D>)
        ensures
            r.wf(),
            r.is_fresh(data_store),
    {
        AppMeta {
            world: World::new(),
            demographics: Demographics::default(),
            rng: RandomSource::unseeded(),
            repository: data_store,
        }
    }
}

/// One resolved or resolvable command from any family.
#[derive(Clone, Copy, Debug, PartialEq, Eq)]
pub enum Command {
    Reference(ReferenceCommand),
    World(WorldCommand),
}

/// The canonical display phrasing of a resolved command.
pub open spec fn command_display_spec(c: Command) -> Seq<char> {
    match c {
        Command::Reference(rc) => ref_display_spec(rc),
        Command::World(wc) => world_display_spec(wc),
    }
}

/// The single authoritative reading of an input, when exactly one family
/// claims one.
pub open spec fn command_exact_spec(s: Seq<char>) -> Option<Command> {
    match (ref_exact_spec(s), world_exact_spec(s)) {
        (Some(rc), None) => Some(Command::Reference(rc)),
        (None, Some(wc)) => Some(Command::World(wc)),
        _ => None,
    }
}

/// The candidates surfaced when no single exact match wins: both exact
/// readings if two families claim one, else every fuzzy reading in family
/// declaration order.
pub open spec fn command_candidates_spec(s: Seq<char>) -> Seq<Command> {
    match (ref_exact_spec(s), world_exact_spec(s)) {
        (Some(rc), Some(wc)) => seq![Command::Reference(rc), Command::World(wc)],
        _ => ref_fuzzy_spec(s).map_values(|rc: ReferenceCommand| Command::Reference(rc)),
    }
}

/// The outcome of resolving one input.
#[derive(Clone, Debug, PartialEq, Eq)]
pub enum Resolution {
    ExactMatch(Command),
    Ambiguous(Vec<Command>),
    NoMatch,
}

impl Command {
    /// Resolves an input across every command family: one exact match wins
    /// outright, otherwise all candidates are surfaced, otherwise nothing
    /// matched.
    pub fn parse_input_irrefutable(input: &str) -> (r: Resolution)
        ensures
            (match command_exact_spec(input@) {
                Some(c) => r == Resolution::ExactMatch(c),
                None => if command_candidates_spec(input@).len() == 0 {
                    r == Resolution::NoMatch
                } else {
                    r matches Resolution::Ambiguous(list) && list@ == command_candidates_spec(
                        input@,
                    )
                },
            }),
    {
        let (ref_exact, ref_fuzzy) = ReferenceCommand::parse_input(input);
        let world_exact = WorldCommand::parse_input(input);
        match (ref_exact, world_exact) {
            (Some(rc), None) => Resolution::ExactMatch(Command::Reference(rc)),
            (None, Some(wc)) => Resolution::ExactMatch(Command::World(wc)),
            (Some(rc), Some(wc)) => {
                let mut list: Vec<Command> = Vec::new();
                list.push(Command::Reference(rc));
                list.push(Command::World(wc));
                proof {
                    assert(list@ =~= command_candidates_spec(input@));
                }
                Resolution::Ambiguous(list)
            },
            (None, None) => {
                let mut list: Vec<Command> = Vec::new();
                let mut i: usize = 0;
                while i < ref_fuzzy.len()
                    invariant
                        i <= ref_fuzzy@.len(),
                        list@ == ref_fuzzy@.take(i as int).map_values(
                            |rc: ReferenceCommand| Command::Reference(rc),
                        ),
                    decreases ref_fuzzy@.len() - i,
                {
                    list.push(Command::Reference(ref_fuzzy[i]));
                    proof {
                        assert(list@ =~= ref_fuzzy@.take(i as int + 1).map_values(
                            |rc: ReferenceCommand| Command::Reference(rc),
                        ));
                    }
                    i += 1;
                }
                proof {
                    assert(ref_fuzzy@.take(ref_fuzzy@.len() as int) =~= ref_fuzzy@);
                }
                if list.len() == 0 {
                    Resolution::NoMatch
                } else {
                    Resolution::Ambiguous(list)
                }
            },
        }
    }

    /// The canonical display phrasing.
    pub fn display(&self) -> (r: String)
        ensures
            r@ == command_display_spec(*self),
    {
        match self {
            Command::Reference(rc) => rc.display(),
            Command::World(wc) => wc.display(),
        }
    }
}

/// An input that case-insensitively equals a command's canonical phrasing
/// resolves to exactly that command as the authoritative match, with no
/// candidate beside it from any family.
pub proof fn lemma_canonical_phrasing_resolves_exactly(c: Command, s: Seq<char>)
    requires
        lower(s) == lower(command_display_spec(c)),
    ensures
        command_exact_spec(s) == Some(c),
        command_candidates_spec(s) == Seq::<Command>::empty(),
{
    reveal_strlit("npc");
    reveal_strlit("human");
    reveal_strlit("warforged");
    reveal_strlit("location");
    reveal_strlit("Open Game License");
    reveal_strlit("srd spells");
    reveal_strlit("srd spell ");
    reveal_strlit("srd item category ");
    reveal_strlit("srd item ");
    reveal_strlit("srd magic item ");
    reveal_strlit("Fireball");
    reveal_strlit("Magic Missile");
    reveal_strlit("Shield");
    reveal_strlit("Dagger");
    reveal_strlit("Torch");
    reveal_strlit("Armor");
    reveal_strlit("Shields");
    reveal_strlit("Weapons");
    reveal_strlit("Bag of Holding");
    reveal_strlit("Deck of Many Things");
    reveal_strlit("spells");
    crate::text::lemma_lower_len(s);
    crate::text::lemma_lower_len("npc"@);
    crate::text::lemma_lower_len("human"@);
    crate::text::lemma_lower_len("warforged"@);
    crate::text::lemma_lower_len("location"@);
    crate::text::lemma_lower_len("Fireball"@);
    crate::text::lemma_lower_len("Magic Missile"@);
    crate::text::lemma_lower_len("Shield"@);
    crate::text::lemma_lower_len("Dagger"@);
    crate::text::lemma_lower_len("Torch"@);
    crate::text::lemma_lower_len("Armor"@);
    crate::text::lemma_lower_len("Shields"@);
    crate::text::lemma_lower_len("Weapons"@);
    crate::text::lemma_lower_len("Bag of Holding"@);
    crate::text::lemma_lower_len("Deck of Many Things"@);
    crate::text::lemma_lower_len("Open Game License"@);
    crate::text::lemma_lower_len("srd spells"@);
    match c {
        Command::Reference(rc) => {
            crate::reference::lemma_ref_exact_round_trip(rc, s);
            crate::reference::lemma_ref_display_len(rc);
            crate::text::lemma_lower_len(ref_display_spec(rc));
            assert(s.len() >= 10);
            assert(world_exact_spec(s).is_none());
            assert(command_exact_spec(s) == Some(c));
            assert(command_candidates_spec(s) =~= Seq::<Command>::empty());
        },
        Command::World(wc) => {
            crate::world::lemma_world_exact_round_trip(wc, s);
            match wc {
                WorldCommand::Npc { race: None } => {
                    assert(crate::reference::ref_exact_spec(s).is_none());
                    assert(crate::reference::ref_fuzzy_spec(s) =~= Seq::<
                        crate::reference::ReferenceCommand,
                    >::empty());
                },
                WorldCommand::Npc { race: Some(race) } => {
                    match race {
                        crate::npc::race::Race::Human => {
                            assert(lower(s)[0] != lower("Torch"@)[0]);
                            assert(lower(s)[0] != lower("Armor"@)[0]);
                            assert(crate::reference::ref_exact_spec(s).is_none());
                            assert(crate::reference::ref_fuzzy_spec(s) =~= Seq::<
                                crate::reference::ReferenceCommand,
                            >::empty());
                        },
                        crate::npc::race::Race::Warforged => {
                            crate::text::lemma_lower_skip(s, "srd item "@.len() as int);
                            assert(crate::reference::item_from_name(
                                crate::reference::rest_after("srd item "@, s),
                            ).is_none());
                            assert(crate::reference::ref_exact_spec(s).is_none());
                            assert(crate::reference::ref_fuzzy_spec(s) =~= Seq::<
                                crate::reference::ReferenceCommand,
                            >::empty());
                        },
                    }
                },
                WorldCommand::Location => {
                    assert(lower(s)[0] != lower("Fireball"@)[0]);
                    assert(crate::reference::ref_exact_spec(s).is_none());
                    assert(crate::reference::ref_fuzzy_spec(s) =~= Seq::<
                        crate::reference::ReferenceCommand,
                    >::empty());
                },
            }
            assert(command_exact_spec(s) == Some(c));
            assert(command_candidates_spec(s) =~= Seq::<Command>::empty());
        },
    }
}

/// The disambiguation menu over a candidate list: a fixed heading, then
/// each candidate's canonical phrasing on its own bullet line.
pub open spec fn menu_spec(cands: Seq<Command>) -> Seq<char>
    decreases cands.len(),
{
    if cands.len() == 0 {
        "Did you mean one of the following?"@
    } else {
        menu_spec(cands.drop_last()) + "\n* "@ + command_display_spec(cands.last())
    }
}

/// The guidance shown for an input that matched nothing.
pub open spec fn no_match_message_spec(s: Seq<char>) -> Seq<char> {
    "Unknown command: "@ + s
}

/// The greeting shown once the session is ready.
pub open spec fn motd_spec() -> Seq<char> {
    "Welcome! Type a command, or part of one to see suggestions."@
}

/// The warning appended when the persistence backend is unavailable.
pub open spec fn storage_warning_spec() -> Seq<char> {
    "\n! Local storage is not available. You will be able to play, but saving and loading will not work."@
}

/// The message of the day for a backend answer: the greeting alone when
/// the persistence backend is enabled, and the greeting with the storage
/// warning appended if and only if it is not.
pub fn greeting(enabled: bool) -> (r: String)
    ensures
        r@ == if enabled {
            motd_spec()
        } else {
            motd_spec() + storage_warning_spec()
        },
{
    let mut message = String::from_str(
        "Welcome! Type a command, or part of one to see suggestions.",
    );
    if !enabled {
        message.append(
            "\n! Local storage is not available. You will be able to play, but saving and loading will not work.",
        );
    }
    message
}

/// The application: a session context behind a small command-line facing
/// surface.
pub struct App<D: DataStore> {
    pub meta: AppMeta<D>,
}

impl<D: DataStore> App<D> {
    pub open spec fn wf(self) -> bool {
        self.meta.wf()
    }

    pub fn new(meta: AppMeta<D>) -> (r: App<D>)
        ensures
            r.meta == meta,
    {
        App { meta }
    }

    /// Readies the session and returns the greeting for the backend's own
    /// answer: `greeting` fixes the message for each value of it.
    pub fn init(&mut self) -> (r: String)
        ensures
            final(self).meta.world == old(self).meta.world,
            final(self).meta.demographics == old(self).meta.demographics,
            r@ == motd_spec() || r@ == motd_spec() + storage_warning_spec(),
    {
        let enabled = self.meta.repository.is_enabled();
        greeting(enabled)
    }

    /// Resolves and executes one line of input. An exact match runs
    /// immediately; a single fuzzy candidate is picked irrefutably; several
    /// candidates come back as a choice list, and an unrecognized input as
    /// guidance.
    pub fn command(&mut self, input: &str) -> (r: Result<String, String>)
        requires
            old(self).wf(),
        ensures
            final(self).wf(),
            final(self).meta.demographics == old(self).meta.demographics,
            (match command_exact_spec(input@) {
                Some(c) => match c {
                    Command::Reference(rc) => (r matches Ok(out) && out@ == ref_run_output_spec(
                        rc,
                    )) && final(self).meta.world == old(self).meta.world,
                    Command::World(wc) => command_post(
                        wc,
                        old(self).meta.world,
                        old(self).meta.demographics,
                        final(self).meta.world,
                        r,
                    ),
                },
                None => (if command_candidates_spec(input@).len() == 0 {
                    (r matches Err(m) && m@ == no_match_message_spec(input@))
                        && final(self).meta.world == old(self).meta.world
                } else if command_candidates_spec(input@).len() == 1 {
                    match command_candidates_spec(input@)[0] {
                        Command::Reference(rc) => (r matches Ok(out) && out@
                            == ref_run_output_spec(rc)) && final(self).meta.world == old(
                            self,
                        ).meta.world,
                        Command::World(wc) => command_post(
                            wc,
                            old(self).meta.world,
                            old(self).meta.demographics,
                            final(self).meta.world,
                            r,
                        ),
                    }
                } else {
                    (r matches Err(m) && m@ == menu_spec(command_candidates_spec(input@)))
                        && final(self).meta.world == old(self).meta.world
                }),
            }),
    {
        match Command::parse_input_irrefutable(input) {
            Resolution::ExactMatch(c) => self.run(c),
            Resolution::Ambiguous(list) => {
                if list.len() == 1 {
                    self.run(list[0])
                } else {
                    Err(render_menu(&list))
                }
            },
            Resolution::NoMatch => {
                let mut message = String::from_str("Unknown command: ");
                message.append(input);
                Err(message)
            },
        }
    }

    /// Executes one resolved command against the session context.
    fn run(&mut self, c: Command) -> (r: Result<String, String>)
        requires
            old(self).wf(),
        ensures
            final(self).wf(),
            (match c {
                Command::Reference(rc) => (r matches Ok(out) && out@ == ref_run_output_spec(rc))
                    && final(self).meta.world == old(self).meta.world,
                Command::World(wc) => command_post(
                    wc,
                    old(self).meta.world,
                    old(self).meta.demographics,
                    final(self).meta.world,
                    r,
                ),
            }),
            final(self).meta.demographics == old(self).meta.demographics,
    {
        match c {
            Command::Reference(rc) => rc.run(),
            Command::World(wc) => crate::world::command(
                &wc,
                &mut self.meta.world,
                &self.meta.demographics,
                &mut self.meta.rng,
            ),
        }
    }
}

/// Renders the disambiguation menu over the candidates.
fn render_menu(list: &Vec<Command>) -> (r: String)
    ensures
        r@ == menu_spec(list@),
{
    let mut out = String::from_str("Did you mean one of the following?");
    proof {
        assert(list@.take(0) =~= Seq::<Command>::empty());
    }
    let mut i: usize = 0;
    while i < list.len()
        invariant
            out@ == menu_spec(list@.take(i as int)),
            i <= list@.len(),
        decreases list@.len() - i,
    {
        out.append("\n* ");
        let phrase = list[i].display();
        out.append(phrase.as_str());
        proof {
            assert(list@.take(i as int + 1).drop_last() =~= list@.take(i as int));
            assert(list@.take(i as int + 1).last() == list@[i as int]);
        }
        i += 1;
    }
    proof {
        assert(list@.take(list@.len() as int) =~= list@);
    }
    out
}


/// The word-list entries contributed by the entity-creation family.
pub open spec fn world_vocab_spec() -> Seq<(Seq<char>, Seq<char>)> {
    seq![
        ("npc"@, "create person"@),
        ("human"@, "create person"@),
        ("warforged"@, "create person"@),
        ("location"@, "create place"@),
    ]
}

/// The labels contributed by the named people of the world, in registry
/// order.
pub open spec fn npc_vocab_spec(npcs: Seq<(u128, Npc)>) -> Seq<(Seq<char>, Seq<char>)>
    decreases npcs.len(),
{
    if npcs.len() == 0 {
        Seq::<(Seq<char>, Seq<char>)>::empty()
    } else {
        npc_vocab_spec(npcs.drop_last()) + (match npcs.last().1.name.value_spec() {
            Some(n) => seq![(n@, "person"@)],
            None => Seq::<(Seq<char>, Seq<char>)>::empty(),
        })
    }
}

/// Labels are in nondecreasing lexicographic order.
pub open spec fn sorted_by_label(s: Seq<(Seq<char>, Seq<char>)>) -> bool {
    forall|i: int, j: int|
        0 <= i < j < s.len() ==> lex_le((#[trigger] s[i]).0, (#[trigger] s[j]).0)
}

/// The position of the first occurrence of `p` in `v` (the length of `v`
/// when `p` does not occur).
pub open spec fn first_index_of(v: Seq<(Seq<char>, Seq<char>)>, p: (Seq<char>, Seq<char>)) -> int
    decreases v.len(),
{
    if v.len() == 0 {
        0
    } else if v[0] == p {
        0
    } else {
        1 + first_index_of(v.skip(1), p)
    }
}

/// An occurrence of `p` bounds its first occurrence from above.
pub proof fn lemma_first_index_le(v: Seq<(Seq<char>, Seq<char>)>, p: (Seq<char>, Seq<char>), k: int)
    requires
        0 <= k < v.len(),
        v[k] == p,
    ensures
        0 <= first_index_of(v, p) <= k,
    decreases v.len(),
{
    if v[0] != p {
        lemma_first_index_le(v.skip(1), p, k - 1);
    }
}

/// The first occurrence is never negative.
pub proof fn lemma_first_index_nonneg(v: Seq<(Seq<char>, Seq<char>)>, p: (Seq<char>, Seq<char>))
    ensures
        first_index_of(v, p) >= 0,
    decreases v.len(),
{
    if v.len() != 0 && v[0] != p {
        lemma_first_index_nonneg(v.skip(1), p);
    }
}

/// A prefix free of `p` bounds its first occurrence from below.
pub proof fn lemma_first_index_ge(v: Seq<(Seq<char>, Seq<char>)>, p: (Seq<char>, Seq<char>), n: int)
    requires
        0 <= n <= v.len(),
        forall|k: int| 0 <= k < n ==> (#[trigger] v[k]) != p,
    ensures
        first_index_of(v, p) >= n,
    decreases n,
{
    lemma_first_index_nonneg(v, p);
    if n > 0 {
        assert(v[0] != p);
        assert(forall|k: int| 0 <= k < n - 1 ==> (#[trigger] v.skip(1)[k]) != p);
        lemma_first_index_ge(v.skip(1), p, n - 1);
        assert(first_index_of(v, p) == 1 + first_index_of(v.skip(1), p));
    }
}

/// Entries that share a label keep the order of their first source
/// occurrence: the merge is stable.
pub open spec fn stable_by_source(
    s: Seq<(Seq<char>, Seq<char>)>,
    vocab: Seq<(Seq<char>, Seq<char>)>,
) -> bool {
    forall|i: int, j: int|
        0 <= i < j < s.len() && (#[trigger] s[i]).0 == (#[trigger] s[j]).0 ==> first_index_of(
            vocab,
            s[i],
        ) < first_index_of(vocab, s[j])
}

/// No suggestion appears twice with the same label and hint.
pub open spec fn distinct_pairs(s: Seq<(Seq<char>, Seq<char>)>) -> bool {
    forall|i: int, j: int| 0 <= i < j < s.len() ==> (#[trigger] s[i]) != (#[trigger] s[j])
}

/// The list already holds this label with this hint.
fn contains_pair(v: &Vec<(String, String)>, label: &str, hint: &str) -> (r: bool)
    ensures
        r == pair_views(v@).contains((label@, hint@)),
{
    let mut i: usize = 0;
    while i < v.len()
        invariant
            i <= v@.len(),
            forall|j: int| 0 <= j < i ==> (#[trigger] pair_views(v@)[j]) != (label@, hint@),
        decreases v@.len() - i,
    {
        if eq_str(v[i].0.as_str(), label) && eq_str(v[i].1.as_str(), hint) {
            proof {
                assert(pair_views(v@)[i as int] == (label@, hint@));
            }
            return true;
        }
        i += 1;
    }
    proof {
        assert(!pair_views(v@).contains((label@, hint@)));
    }
    false
}

/// Inserts a fresh suggestion at its sorted position, before no equal
/// label and after every smaller one.
fn insert_sorted(v: &mut Vec<(String, String)>, label: String, hint: String)
    requires
        sorted_by_label(pair_views(old(v)@)),
        distinct_pairs(pair_views(old(v)@)),
        !pair_views(old(v)@).contains((label@, hint@)),
    ensures
        sorted_by_label(pair_views(final(v)@)),
        distinct_pairs(pair_views(final(v)@)),
        final(v)@.len() == old(v)@.len() + 1,
        pair_views(final(v)@).contains((label@, hint@)),
        forall|p: (Seq<char>, Seq<char>)|
            pair_views(old(v)@).contains(p) ==> pair_views(final(v)@).contains(p),
        forall|p: (Seq<char>, Seq<char>)|
            pair_views(final(v)@).contains(p) ==> p == (label@, hint@) || pair_views(
                old(v)@,
            ).contains(p),
        exists|k: int|
            0 <= k <= old(v)@.len() && pair_views(final(v)@) == pair_views(old(v)@).insert(
                k,
                (label@, hint@),
            ) && (forall|m: int|
                k <= m < old(v)@.len() ==> (#[trigger] pair_views(old(v)@)[m]).0 != label@),
{
    let ghost ov = pair_views(old(v)@);
    let ghost e = (label@, hint@);
    let mut pos: usize = 0;
    while pos < v.len() && str_le(v[pos].0.as_str(), label.as_str())
        invariant
            v@ == old(v)@,
            pos <= v@.len(),
            forall|m: int| 0 <= m < pos ==> lex_le((#[trigger] pair_views(v@)[m]).0, label@),
        decreases v@.len() - pos,
    {
        proof {
            assert(pair_views(v@)[pos as int].0 == v@[pos as int].0@);
        }
        pos += 1;
    }
    proof {
        if pos < v@.len() {
            assert(!lex_le(ov[pos as int].0, label@));
            lemma_lex_total(label@, ov[pos as int].0);
        }
    }
    v.insert(pos, (label, hint));
    proof {
        let p = pos as int;
        let nv = pair_views(v@);
        assert(nv =~= ov.insert(p, e)) by {
            assert forall|i: int| 0 <= i < nv.len() implies nv[i] == ov.insert(p, e)[i] by {
                assert(v@ == old(v)@.insert(p, (label, hint)));
            }
        }
        assert forall|m: int| p <= m < ov.len() implies (#[trigger] ov[m]).0 != e.0 by {
            if ov[m].0 == e.0 {
                if m == p {
                    lemma_lex_refl(e.0);
                } else {
                    assert(lex_le(ov[p].0, ov[m].0));
                }
                assert(lex_le(ov[p].0, e.0));
                assert(false);
            }
        }
        assert forall|i: int, j: int| 0 <= i < j < nv.len() implies lex_le(
            (#[trigger] nv[i]).0,
            (#[trigger] nv[j]).0,
        ) by {
            if i < p && j == p {
                assert(nv[i] == ov[i]);
            } else if i == p && j > p {
                assert(nv[j] == ov[j - 1]);
                if j - 1 > p {
                    lemma_lex_trans(e.0, ov[p].0, ov[j - 1].0);
                }
            } else if i < p && j > p {
                assert(nv[i] == ov[i] && nv[j] == ov[j - 1]);
                if j - 1 == i {
                    lemma_lex_trans(ov[i].0, e.0, e.0);
                }
            } else if i > p {
                assert(nv[i] == ov[i - 1] && nv[j] == ov[j - 1]);
            } else if j < p {
                assert(nv[i] == ov[i] && nv[j] == ov[j]);
            }
        }
        assert forall|i: int, j: int| 0 <= i < j < nv.len() implies (#[trigger] nv[i]) != (
        #[trigger] nv[j]) by {
            if i == p {
                assert(nv[j] == ov[j - 1]);
                assert(ov.contains(ov[j - 1]));
            } else if j == p {
                assert(nv[i] == ov[i]);
                assert(ov.contains(ov[i]));
            }
        }
        assert(nv[p] == e);
        assert(nv.contains(e));
        assert forall|q: (Seq<char>, Seq<char>)| ov.contains(q) implies nv.contains(q) by {
            let k = choose|k: int| 0 <= k < ov.len() && ov[k] == q;
            if k < p {
                assert(nv[k] == q);
            } else {
                assert(nv[k + 1] == q);
            }
        }
        assert forall|q: (Seq<char>, Seq<char>)| nv.contains(q) implies q == e || ov.contains(
            q,
        ) by {
            let k = choose|k: int| 0 <= k < nv.len() && nv[k] == q;
            if k < p {
                assert(ov[k] == q);
            } else if k > p {
                assert(ov[k - 1] == q);
            }
        }
    }
}

impl<D: DataStore> App<D> {
    /// Every label source merged: canonical command phrasings, reference
    /// word lists and the names of generated people.
    pub open spec fn vocab_spec(self) -> Seq<(Seq<char>, Seq<char>)> {
        ref_vocab_spec() + world_vocab_spec() + npc_vocab_spec(self.meta.world.npcs@)
    }

    /// Builds the merged vocabulary in source order.
    fn vocabulary(&self) -> (r: Vec<(String, String)>)
        ensures
            pair_views(r@) == self.vocab_spec(),
    {
        let mut v = ref_vocab();
        push_pair(&mut v, "npc", "create person");
        push_pair(&mut v, "human", "create person");
        push_pair(&mut v, "warforged", "create person");
        push_pair(&mut v, "location", "create place");
        proof {
            assert(pair_views(v@) =~= ref_vocab_spec() + world_vocab_spec());
            assert(self.meta.world.npcs@.take(0) =~= Seq::<(u128, Npc)>::empty());
        }
        let mut i: usize = 0;
        while i < self.meta.world.npcs.len()
            invariant
                i <= self.meta.world.npcs@.len(),
                pair_views(v@) == ref_vocab_spec() + world_vocab_spec() + npc_vocab_spec(
                    self.meta.world.npcs@.take(i as int),
                ),
            decreases self.meta.world.npcs@.len() - i,
        {
            let ghost npcs = self.meta.world.npcs@;
            let ghost pv = pair_views(v@);
            match self.meta.world.npcs[i].1.name.get() {
                Some(name) => {
                    let n = name.clone();
                    let ghost nn = n@;
                    v.push((n, String::from_str("person")));
                    proof {
                        assert(pair_views(v@) =~= pv.push((nn, "person"@)));
                        assert(npcs[i as int].1.name.value_spec() matches Some(m) && m@ == nn);
                    }
                },
                None => {},
            }
            proof {
                assert(npcs.take(i as int + 1).drop_last() =~= npcs.take(i as int));
                assert(npcs.take(i as int + 1).last() == npcs[i as int]);
                assert(pair_views(v@) =~= ref_vocab_spec() + world_vocab_spec() + npc_vocab_spec(
                    npcs.take(i as int + 1),
                ));
            }
            i += 1;
        }
        proof {
            assert(self.meta.world.npcs@.take(self.meta.world.npcs@.len() as int)
                =~= self.meta.world.npcs@);
        }
        v
    }

    /// Merges suggestions from every source, keeps those whose label the
    /// partial input prefixes (ignoring case), lists a label once per
    /// distinct category hint, sorts by label, and returns at most ten.
    pub fn autocomplete(&self, input: &str) -> (r: Vec<(String, String)>)
        ensures
            r@.len() <= 10,
            sorted_by_label(pair_views(r@)),
            distinct_pairs(pair_views(r@)),
            stable_by_source(pair_views(r@), self.vocab_spec()),
            forall|i: int|
                0 <= i < r@.len() ==> is_prefix_ci(input@, (#[trigger] pair_views(r@)[i]).0)
                    && self.vocab_spec().contains(pair_views(r@)[i]),
            r@.len() < 10 ==> (forall|p: (Seq<char>, Seq<char>)|
                self.vocab_spec().contains(p) && is_prefix_ci(input@, p.0)
                    ==> pair_views(r@).contains(p)),
            forall|i: int, p: (Seq<char>, Seq<char>)|
                #![trigger pair_views(r@)[i], self.vocab_spec().contains(p)]
                0 <= i < r@.len() && self.vocab_spec().contains(p) && is_prefix_ci(input@, p.0)
                    && !pair_views(r@).contains(p) ==> lex_le(pair_views(r@)[i].0, p.0),
    {
        let vocab = self.vocabulary();
        let ghost vv = pair_views(vocab@);
        let mut out: Vec<(String, String)> = Vec::new();
        let mut i: usize = 0;
        while i < vocab.len()
            invariant
                vv == pair_views(vocab@),
                vv == self.vocab_spec(),
                i <= vocab@.len(),
                sorted_by_label(pair_views(out@)),
                distinct_pairs(pair_views(out@)),
                stable_by_source(pair_views(out@), vv),
                forall|p: (Seq<char>, Seq<char>)|
                    pair_views(out@).contains(p) ==> vv.contains(p) && is_prefix_ci(input@, p.0),
                forall|p: (Seq<char>, Seq<char>)|
                    pair_views(out@).contains(p) ==> first_index_of(vv, p) < i,
                forall|j: int|
                    0 <= j < i && is_prefix_ci(input@, (#[trigger] vv[j]).0) ==> pair_views(
                        out@,
                    ).contains(vv[j]),
            decreases vocab@.len() - i,
        {
            let label = vocab[i].0.clone();
            let hint = vocab[i].1.clone();
            proof {
                assert(vv[i as int] == (label@, hint@));
                assert(vv.contains(vv[i as int]));
            }
            if starts_with_ci(label.as_str(), input) {
                if !contains_pair(&out, label.as_str(), hint.as_str()) {
                    let ghost lv = label@;
                    let ghost hv = hint@;
                    let ghost before = pair_views(out@);
                    insert_sorted(&mut out, label, hint);
                    proof {
                        let e = (lv, hv);
                        let nv = pair_views(out@);
                        assert forall|p: (Seq<char>, Seq<char>)|
                            nv.contains(p) implies vv.contains(p) && is_prefix_ci(
                            input@,
                            p.0,
                        ) by {
                            if p == e {
                                assert(vv.contains(vv[i as int]));
                            }
                        }
                        assert forall|j: int| 0 <= j < i implies (#[trigger] vv[j]) != e by {
                            if vv[j] == e {
                                assert(is_prefix_ci(input@, vv[j].0));
                                assert(before.contains(vv[j]));
                            }
                        }
                        lemma_first_index_ge(vv, e, i as int);
                        lemma_first_index_le(vv, e, i as int);
                        assert(first_index_of(vv, e) == i as int);
                        assert forall|p: (Seq<char>, Seq<char>)|
                            nv.contains(p) implies first_index_of(vv, p) < i + 1 by {
                            if p != e {
                                assert(before.contains(p));
                            }
                        }
                        let k = choose|k: int|
                            0 <= k <= before.len() && nv == before.insert(k, e) && (forall|m: int|
                                k <= m < before.len() ==> (#[trigger] before[m]).0 != e.0);
                        assert forall|a: int, b: int|
                            0 <= a < b < nv.len() && (#[trigger] nv[a]).0 == (#[trigger] nv[b]).0
                            implies first_index_of(vv, nv[a]) < first_index_of(vv, nv[b]) by {
                            if b == k {
                                assert(nv[a] == before[a]);
                                assert(before.contains(before[a]));
                                assert(first_index_of(vv, nv[a]) < i as int);
                            } else if a == k {
                                assert(nv[b] == before[b - 1]);
                                assert(before[b - 1].0 != e.0);
                            } else {
                                let a2: int = if a < k {
                                    a
                                } else {
                                    a - 1
                                };
                                let b2: int = if b < k {
                                    b
                                } else {
                                    b - 1
                                };
                                assert(nv[a] == before[a2]);
                                assert(nv[b] == before[b2]);
                            }
                        }
                    }
                }
            }
            i += 1;
        }
        let ghost pre = pair_views(out@);
        if out.len() > 10 {
            out.truncate(10);
            proof {
                assert(pair_views(out@) =~= pre.take(10));
            }
        }
        proof {
            let fin = pair_views(out@);
            assert forall|i: int| 0 <= i < fin.len() implies is_prefix_ci(
                input@,
                (#[trigger] fin[i]).0,
            ) && self.vocab_spec().contains(fin[i]) by {
                assert(fin[i] == pre[i]);
                assert(pre.contains(pre[i]));
                assert(vv.contains(pre[i]) && is_prefix_ci(input@, pre[i].0));
            }
            if fin.len() < 10 {
                assert(fin =~= pre);
                assert forall|p: (Seq<char>, Seq<char>)|
                    self.vocab_spec().contains(p) && is_prefix_ci(input@, p.0) implies fin.contains(
                    p,
                ) by {
                    let k = choose|k: int|
                        0 <= k < self.vocab_spec().len() && self.vocab_spec()[k] == p;
                    assert(vv[k] == p);
                }
            }
            assert forall|a: int, b: int|
                0 <= a < b < fin.len() && (#[trigger] fin[a]).0 == (#[trigger] fin[b]).0 implies
                first_index_of(vv, fin[a]) < first_index_of(vv, fin[b]) by {
                assert(fin[a] == pre[a] && fin[b] == pre[b]);
            }
            assert forall|i2: int, p: (Seq<char>, Seq<char>)|
                #![trigger pair_views(out@)[i2], self.vocab_spec().contains(p)]
                0 <= i2 < fin.len() && self.vocab_spec().contains(p) && is_prefix_ci(input@, p.0)
                    && !fin.contains(p) implies lex_le(fin[i2].0, p.0) by {
                let k0 = choose|k0: int| 0 <= k0 < vv.len() && vv[k0] == p;
                assert(is_prefix_ci(input@, vv[k0].0));
                assert(pre.contains(p));
                let kp = choose|kp: int| 0 <= kp < pre.len() && pre[kp] == p;
                if pre.len() <= 10 {
                    assert(fin == pre);
                    assert(fin.contains(p));
                } else {
                    if kp < 10 {
                        assert(fin[kp] == p);
                        assert(fin.contains(p));
                    }
                    assert(kp >= 10);
                    assert(fin[i2] == pre[i2]);
                    assert(lex_le(pre[i2].0, pre[kp].0));
                }
            }
        }
        out
    }
}

} // verus!
