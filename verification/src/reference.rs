//! Reference lookups: spells, items, item categories and magic items,
//! each resolvable by canonical phrasing or by bare name.
//!
//! A bare token may validly name several things at once (a spell and an
//! item, say); every reading is surfaced as its own fuzzy candidate and
//! the resolution layer disambiguates.

use vstd::prelude::*;
use crate::text::{eq_ci, eq_str, is_prefix_ci, lower, strip_prefix_ci};

verus! {

#[derive(Clone, Copy, Debug, PartialEq, Eq)]
pub enum Spell {
    Fireball,
    MagicMissile,
    Shield,
}

#[derive(Clone, Copy, Debug, PartialEq, Eq)]
pub enum Item {
    Dagger,
    Shield,
    Torch,
}

#[derive(Clone, Copy, Debug, PartialEq, Eq)]
pub enum ItemCategory {
    Armor,
    Shields,
    Weapons,
}

#[derive(Clone, Copy, Debug, PartialEq, Eq)]
pub enum MagicItem {
    BagOfHolding,
    DeckOfManyThings,
}

impl Spell {
    pub open spec fn name_spec(self) -> Seq<char> {
        match self {
            Spell::Fireball => "Fireball"@,
            Spell::MagicMissile => "Magic Missile"@,
            Spell::Shield => "Shield"@,
        }
    }

    pub fn get_name(&self) -> (r: &'static str)
        ensures
            r@ == self.name_spec(),
    {
        match self {
            Spell::Fireball => "Fireball",
            Spell::MagicMissile => "Magic Missile",
            Spell::Shield => "Shield",
        }
    }

    pub open spec fn text_spec(self) -> Seq<char> {
        match self {
            Spell::Fireball => "**Fireball**\n3rd-level evocation. Each creature in a 20-foot-radius sphere takes 8d6 fire damage."@,
            Spell::MagicMissile => "**Magic Missile**\n1st-level evocation. Three darts each deal 1d4 + 1 force damage."@,
            Spell::Shield => "**Shield**\n1st-level abjuration. +5 bonus to AC until the start of your next turn."@,
        }
    }

    pub fn get_text(&self) -> (r: &'static str)
        ensures
            r@ == self.text_spec(),
    {
        match self {
            Spell::Fireball => "**Fireball**\n3rd-level evocation. Each creature in a 20-foot-radius sphere takes 8d6 fire damage.",
            Spell::MagicMissile => "**Magic Missile**\n1st-level evocation. Three darts each deal 1d4 + 1 force damage.",
            Spell::Shield => "**Shield**\n1st-level abjuration. +5 bonus to AC until the start of your next turn.",
        }
    }

    /// The spell whose name case-insensitively equals `input`.
    pub fn parse(input: &str) -> (r: Option<Spell>)
        ensures
            r == spell_from_name(input@),
    {
        if eq_ci(input, "Fireball") {
            Some(Spell::Fireball)
        } else if eq_ci(input, "Magic Missile") {
            Some(Spell::MagicMissile)
        } else if eq_ci(input, "Shield") {
            Some(Spell::Shield)
        } else {
            None
        }
    }
}

pub open spec fn spell_from_name(s: Seq<char>) -> Option<Spell> {
    if lower(s) == lower("Fireball"@) {
        Some(Spell::Fireball)
    } else if lower(s) == lower("Magic Missile"@) {
        Some(Spell::MagicMissile)
    } else if lower(s) == lower("Shield"@) {
        Some(Spell::Shield)
    } else {
        None
    }
}

impl Item {
    pub open spec fn name_spec(self) -> Seq<char> {
        match self {
            Item::Dagger => "Dagger"@,
            Item::Shield => "Shield"@,
            Item::Torch => "Torch"@,
        }
    }

    pub fn get_name(&self) -> (r: &'static str)
        ensures
            r@ == self.name_spec(),
    {
        match self {
            Item::Dagger => "Dagger",
            Item::Shield => "Shield",
            Item::Torch => "Torch",
        }
    }

    pub open spec fn text_spec(self) -> Seq<char> {
        match self {
            Item::Dagger => "**Dagger**\nSimple melee weapon. 1d4 piercing damage, finesse, light, thrown."@,
            Item::Shield => "**Shield**\nArmor. +2 AC while wielded."@,
            Item::Torch => "**Torch**\nBurns for 1 hour, shedding bright light in a 20-foot radius."@,
        }
    }

    pub fn get_text(&self) -> (r: &'static str)
        ensures
            r@ == self.text_spec(),
    {
        match self {
            Item::Dagger => "**Dagger**\nSimple melee weapon. 1d4 piercing damage, finesse, light, thrown.",
            Item::Shield => "**Shield**\nArmor. +2 AC while wielded.",
            Item::Torch => "**Torch**\nBurns for 1 hour, shedding bright light in a 20-foot radius.",
        }
    }

    /// The item whose name case-insensitively equals `input`.
    pub fn parse(input: &str) -> (r: Option<Item>)
        ensures
            r == item_from_name(input@),
    {
        if eq_ci(input, "Dagger") {
            Some(Item::Dagger)
        } else if eq_ci(input, "Shield") {
            Some(Item::Shield)
        } else if eq_ci(input, "Torch") {
            Some(Item::Torch)
        } else {
            None
        }
    }
}

pub open spec fn item_from_name(s: Seq<char>) -> Option<Item> {
    if lower(s) == lower("Dagger"@) {
        Some(Item::Dagger)
    } else if lower(s) == lower("Shield"@) {
        Some(Item::Shield)
    } else if lower(s) == lower("Torch"@) {
        Some(Item::Torch)
    } else {
        None
    }
}

impl ItemCategory {
    pub open spec fn name_spec(self) -> Seq<char> {
        match self {
            ItemCategory::Armor => "Armor"@,
            ItemCategory::Shields => "Shields"@,
            ItemCategory::Weapons => "Weapons"@,
        }
    }

    pub fn get_name(&self) -> (r: &'static str)
        ensures
            r@ == self.name_spec(),
    {
        match self {
            ItemCategory::Armor => "Armor",
            ItemCategory::Shields => "Shields",
            ItemCategory::Weapons => "Weapons",
        }
    }

    pub open spec fn text_spec(self) -> Seq<char> {
        match self {
            ItemCategory::Armor => "# Armor\n\n* Shield"@,
            ItemCategory::Shields => "# Shields\n\n* Shield"@,
            ItemCategory::Weapons => "# Weapons\n\n* Dagger"@,
        }
    }

    pub fn get_text(&self) -> (r: &'static str)
        ensures
            r@ == self.text_spec(),
    {
        match self {
            ItemCategory::Armor => "# Armor\n\n* Shield",
            ItemCategory::Shields => "# Shields\n\n* Shield",
            ItemCategory::Weapons => "# Weapons\n\n* Dagger",
        }
    }

    /// The category whose name case-insensitively equals `input`.
    pub fn parse(input: &str) -> (r: Option<ItemCategory>)
        ensures
            r == category_from_name(input@),
    {
        if eq_ci(input, "Armor") {
            Some(ItemCategory::Armor)
        } else if eq_ci(input, "Shields") {
            Some(ItemCategory::Shields)
        } else if eq_ci(input, "Weapons") {
            Some(ItemCategory::Weapons)
        } else {
            None
        }
    }
}

pub open spec fn category_from_name(s: Seq<char>) -> Option<ItemCategory> {
    if lower(s) == lower("Armor"@) {
        Some(ItemCategory::Armor)
    } else if lower(s) == lower("Shields"@) {
        Some(ItemCategory::Shields)
    } else if lower(s) == lower("Weapons"@) {
        Some(ItemCategory::Weapons)
    } else {
        None
    }
}

impl MagicItem {
    pub open spec fn name_spec(self) -> Seq<char> {
        match self {
            MagicItem::BagOfHolding => "Bag of Holding"@,
            MagicItem::DeckOfManyThings => "Deck of Many Things"@,
        }
    }

    pub fn get_name(&self) -> (r: &'static str)
        ensures
            r@ == self.name_spec(),
    {
        match self {
            MagicItem::BagOfHolding => "Bag of Holding",
            MagicItem::DeckOfManyThings => "Deck of Many Things",
        }
    }

    pub open spec fn text_spec(self) -> Seq<char> {
        match self {
            MagicItem::BagOfHolding => "**Bag of Holding**\nWondrous item, uncommon. Holds 500 pounds in an extradimensional space."@,
            MagicItem::DeckOfManyThings => "**Deck of Many Things**\nWondrous item, legendary. Draw a card at your peril."@,
        }
    }

    pub fn get_text(&self) -> (r: &'static str)
        ensures
            r@ == self.text_spec(),
    {
        match self {
            MagicItem::BagOfHolding => "**Bag of Holding**\nWondrous item, uncommon. Holds 500 pounds in an extradimensional space.",
            MagicItem::DeckOfManyThings => "**Deck of Many Things**\nWondrous item, legendary. Draw a card at your peril.",
        }
    }

    /// The magic item whose name case-insensitively equals `input`.
    pub fn parse(input: &str) -> (r: Option<MagicItem>)
        ensures
            r == magic_item_from_name(input@),
    {
        if eq_ci(input, "Bag of Holding") {
            Some(MagicItem::BagOfHolding)
        } else if eq_ci(input, "Deck of Many Things") {
            Some(MagicItem::DeckOfManyThings)
        } else {
            None
        }
    }
}

pub open spec fn magic_item_from_name(s: Seq<char>) -> Option<MagicItem> {
    if lower(s) == lower("Bag of Holding"@) {
        Some(MagicItem::BagOfHolding)
    } else if lower(s) == lower("Deck of Many Things"@) {
        Some(MagicItem::DeckOfManyThings)
    } else {
        None
    }
}

#[derive(Clone, Copy, Debug, PartialEq, Eq)]
pub enum ReferenceCommand {
    Spell(Spell),
    Spells,
    Item(Item),
    ItemCategory(ItemCategory),
    MagicItem(MagicItem),
    OpenGameLicense,
}

/// The remainder of `s` after a prefix of `p`'s length.
pub open spec fn rest_after(p: Seq<char>, s: Seq<char>) -> Seq<char> {
    s.skip(p.len() as int)
}

/// The authoritative reading of an input: its canonical phrasing matched
/// case-insensitively, either a fixed phrase or a recognized lookup prefix
/// followed by a name the sub-parser accepts.
pub open spec fn ref_exact_spec(s: Seq<char>) -> Option<ReferenceCommand> {
    if lower(s) == lower("Open Game License"@) {
        Some(ReferenceCommand::OpenGameLicense)
    } else if lower(s) == lower("srd spells"@) {
        Some(ReferenceCommand::Spells)
    } else if is_prefix_ci("srd spell "@, s) && spell_from_name(
        rest_after("srd spell "@, s),
    ).is_some() {
        match spell_from_name(rest_after("srd spell "@, s)) {
            Some(sp) => Some(ReferenceCommand::Spell(sp)),
            None => None,
        }
    } else if is_prefix_ci("srd item category "@, s) && category_from_name(
        rest_after("srd item category "@, s),
    ).is_some() {
        match category_from_name(rest_after("srd item category "@, s)) {
            Some(c) => Some(ReferenceCommand::ItemCategory(c)),
            None => None,
        }
    } else if is_prefix_ci("srd item "@, s) && item_from_name(rest_after("srd item "@, s)).is_some() {
        match item_from_name(rest_after("srd item "@, s)) {
            Some(it) => Some(ReferenceCommand::Item(it)),
            None => None,
        }
    } else if is_prefix_ci("srd magic item "@, s) && magic_item_from_name(
        rest_after("srd magic item "@, s),
    ).is_some() {
        match magic_item_from_name(rest_after("srd magic item "@, s)) {
            Some(m) => Some(ReferenceCommand::MagicItem(m)),
            None => None,
        }
    } else {
        None
    }
}

/// Every plausible reading of a bare token, one candidate per sub-type it
/// parses as, in fixed declaration order.
pub open spec fn ref_fuzzy_spec(s: Seq<char>) -> Seq<ReferenceCommand> {
    (match spell_from_name(s) {
        Some(sp) => seq![ReferenceCommand::Spell(sp)],
        None => Seq::<ReferenceCommand>::empty(),
    }) + (match item_from_name(s) {
        Some(it) => seq![ReferenceCommand::Item(it)],
        None => Seq::<ReferenceCommand>::empty(),
    }) + (match category_from_name(s) {
        Some(c) => seq![ReferenceCommand::ItemCategory(c)],
        None => Seq::<ReferenceCommand>::empty(),
    }) + (match magic_item_from_name(s) {
        Some(m) => seq![ReferenceCommand::MagicItem(m)],
        None => Seq::<ReferenceCommand>::empty(),
    }) + (if s == "spells"@ {
        seq![ReferenceCommand::Spells]
    } else {
        Seq::<ReferenceCommand>::empty()
    })
}

/// The canonical display phrasing of a resolved command.
pub open spec fn ref_display_spec(c: ReferenceCommand) -> Seq<char> {
    match c {
        ReferenceCommand::Spell(sp) => "srd spell "@ + sp.name_spec(),
        ReferenceCommand::Spells => "srd spells"@,
        ReferenceCommand::Item(it) => "srd item "@ + it.name_spec(),
        ReferenceCommand::ItemCategory(cat) => "srd item category "@ + cat.name_spec(),
        ReferenceCommand::MagicItem(m) => "srd magic item "@ + m.name_spec(),
        ReferenceCommand::OpenGameLicense => "Open Game License"@,
    }
}

/// The note appended to Open Game Content output.
pub open spec fn ogc_note_spec(name: Seq<char>) -> Seq<char> {
    "\n\n*"@ + name + " is Open Game Content subject to the `Open Game License`.*"@
}

/// The text a resolved reference command prints.
pub open spec fn ref_run_output_spec(c: ReferenceCommand) -> Seq<char> {
    match c {
        ReferenceCommand::Spell(sp) => sp.text_spec() + ogc_note_spec(sp.name_spec()),
        ReferenceCommand::Spells => "# Spells\n\n* Fireball\n* Magic Missile\n* Shield"@
            + ogc_note_spec("This listing"@),
        ReferenceCommand::Item(it) => it.text_spec() + ogc_note_spec(it.name_spec()),
        ReferenceCommand::ItemCategory(cat) => cat.text_spec() + ogc_note_spec("This listing"@),
        ReferenceCommand::MagicItem(m) => m.text_spec() + ogc_note_spec(m.name_spec()),
        ReferenceCommand::OpenGameLicense => "# Open Game License\n\nPermission to copy, modify and distribute the covered reference material is granted under the terms of the license."@,
    }
}

impl ReferenceCommand {
    /// Splits an input into its authoritative reading, if any, and every
    /// plausible fuzzy reading. An exact match never suppresses the fuzzy
    /// candidates here; the resolution layer applies that policy.
    pub fn parse_input(input: &str) -> (r: (Option<ReferenceCommand>, Vec<ReferenceCommand>))
        ensures
            r.0 == ref_exact_spec(input@),
            r.1@ == ref_fuzzy_spec(input@),
    {
        let exact = Self::parse_exact(input);
        let mut fuzzy: Vec<ReferenceCommand> = Vec::new();
        if let Some(sp) = Spell::parse(input) {
            fuzzy.push(ReferenceCommand::Spell(sp));
        }
        if let Some(it) = Item::parse(input) {
            fuzzy.push(ReferenceCommand::Item(it));
        }
        if let Some(c) = ItemCategory::parse(input) {
            fuzzy.push(ReferenceCommand::ItemCategory(c));
        }
        if let Some(m) = MagicItem::parse(input) {
            fuzzy.push(ReferenceCommand::MagicItem(m));
        }
        if eq_str(input, "spells") {
            fuzzy.push(ReferenceCommand::Spells);
        }
        proof {
            assert(fuzzy@ =~= ref_fuzzy_spec(input@));
        }
        (exact, fuzzy)
    }

    fn parse_exact(input: &str) -> (r: Option<ReferenceCommand>)
        ensures
            r == ref_exact_spec(input@),
    {
        if eq_ci(input, "Open Game License") {
            return Some(ReferenceCommand::OpenGameLicense);
        }
        if eq_ci(input, "srd spells") {
            return Some(ReferenceCommand::Spells);
        }
        if let Some(rest) = strip_prefix_ci(input, "srd spell ") {
            if let Some(sp) = Spell::parse(rest) {
                return Some(ReferenceCommand::Spell(sp));
            }
        }
        if let Some(rest) = strip_prefix_ci(input, "srd item category ") {
            if let Some(c) = ItemCategory::parse(rest) {
                return Some(ReferenceCommand::ItemCategory(c));
            }
        }
        if let Some(rest) = strip_prefix_ci(input, "srd item ") {
            if let Some(it) = Item::parse(rest) {
                return Some(ReferenceCommand::Item(it));
            }
        }
        if let Some(rest) = strip_prefix_ci(input, "srd magic item ") {
            if let Some(m) = MagicItem::parse(rest) {
                return Some(ReferenceCommand::MagicItem(m));
            }
        }
        None
    }

    /// The canonical display phrasing, used for confirmation and for
    /// autocomplete labels.
    pub fn display(&self) -> (r: String)
        ensures
            r@ == ref_display_spec(*self),
    {
        match self {
            ReferenceCommand::Spell(sp) => {
                let mut out = String::from_str("srd spell ");
                out.append(sp.get_name());
                out
            },
            ReferenceCommand::Spells => String::from_str("srd spells"),
            ReferenceCommand::Item(it) => {
                let mut out = String::from_str("srd item ");
                out.append(it.get_name());
                out
            },
            ReferenceCommand::ItemCategory(cat) => {
                let mut out = String::from_str("srd item category ");
                out.append(cat.get_name());
                out
            },
            ReferenceCommand::MagicItem(m) => {
                let mut out = String::from_str("srd magic item ");
                out.append(m.get_name());
                out
            },
            ReferenceCommand::OpenGameLicense => String::from_str("Open Game License"),
        }
    }

    /// Executes the lookup, rendering the reference text with its Open
    /// Game Content note. Reference lookups always succeed once resolved.
    pub fn run(self) -> (r: Result<String, String>)
        ensures
            r matches Ok(out) && out@ == ref_run_output_spec(self),
    {
        match self {
            ReferenceCommand::Spell(sp) => {
                let mut out = String::from_str(sp.get_text());
                append_ogc_note(&mut out, sp.get_name());
                Ok(out)
            },
            ReferenceCommand::Spells => {
                let mut out = String::from_str("# Spells\n\n* Fireball\n* Magic Missile\n* Shield");
                append_ogc_note(&mut out, "This listing");
                Ok(out)
            },
            ReferenceCommand::Item(it) => {
                let mut out = String::from_str(it.get_text());
                append_ogc_note(&mut out, it.get_name());
                Ok(out)
            },
            ReferenceCommand::ItemCategory(cat) => {
                let mut out = String::from_str(cat.get_text());
                append_ogc_note(&mut out, "This listing");
                Ok(out)
            },
            ReferenceCommand::MagicItem(m) => {
                let mut out = String::from_str(m.get_text());
                append_ogc_note(&mut out, m.get_name());
                Ok(out)
            },
            ReferenceCommand::OpenGameLicense => Ok(
                String::from_str(
                    "# Open Game License\n\nPermission to copy, modify and distribute the covered reference material is granted under the terms of the license.",
                ),
            ),
        }
    }
}

/// Appends the Open Game Content note for `name` to `out`.
fn append_ogc_note(out: &mut String, name: &str)
    ensures
        final(out)@ == old(out)@ + ogc_note_spec(name@),
{
    out.append("\n\n*");
    out.append(name);
    out.append(" is Open Game Content subject to the `Open Game License`.*");
}

/// An input that case-insensitively equals a reference command's canonical
/// phrasing resolves to exactly that command as the authoritative match,
/// with no fuzzy candidate beside it.
pub proof fn lemma_ref_exact_round_trip(c: ReferenceCommand, s: Seq<char>)
    requires
        lower(s) == lower(ref_display_spec(c)),
    ensures
        ref_exact_spec(s) == Some(c),
        ref_fuzzy_spec(s) == Seq::<ReferenceCommand>::empty(),
{
    reveal_strlit("Open Game License");
    reveal_strlit("srd spells");
    reveal_strlit("srd spell ");
    reveal_strlit("srd item category ");
    reveal_strlit("srd item ");
    reveal_strlit("srd magic item ");
    reveal_strlit("Fireball");
    reveal_strlit("Magic Missile");
    reveal_strlit("Shield");
    reveal_strlit("Dagger");
    reveal_strlit("Torch");
    reveal_strlit("Armor");
    reveal_strlit("Shields");
    reveal_strlit("Weapons");
    reveal_strlit("Bag of Holding");
    reveal_strlit("Deck of Many Things");
    reveal_strlit("spells");
    crate::text::lemma_lower_len("Open Game License"@);
    crate::text::lemma_lower_len("srd spells"@);
    crate::text::lemma_lower_len("srd spell "@);
    crate::text::lemma_lower_len("srd item category "@);
    crate::text::lemma_lower_len("srd item "@);
    crate::text::lemma_lower_len("srd magic item "@);
    crate::text::lemma_lower_len("Fireball"@);
    crate::text::lemma_lower_len("Magic Missile"@);
    crate::text::lemma_lower_len("Shield"@);
    crate::text::lemma_lower_len("Dagger"@);
    crate::text::lemma_lower_len("Torch"@);
    crate::text::lemma_lower_len("Armor"@);
    crate::text::lemma_lower_len("Shields"@);
    crate::text::lemma_lower_len("Weapons"@);
    crate::text::lemma_lower_len("Bag of Holding"@);
    crate::text::lemma_lower_len("Deck of Many Things"@);
    crate::text::lemma_lower_len("spells"@);
    assert(s.len() == lower(s).len());
    match c {
        ReferenceCommand::Spell(sp) => {
            match sp {
                Spell::Fireball => {
                    crate::text::lemma_prefix_ci_of_concat("srd spell "@, "Fireball"@, s);
                    assert(ref_exact_spec(s) == Some(c));
                    assert(ref_fuzzy_spec(s) =~= Seq::<ReferenceCommand>::empty());
                },
                Spell::MagicMissile => {
                    crate::text::lemma_prefix_ci_of_concat("srd spell "@, "Magic Missile"@, s);
                    assert(ref_exact_spec(s) == Some(c));
                    assert(ref_fuzzy_spec(s) =~= Seq::<ReferenceCommand>::empty());
                },
                Spell::Shield => {
                    crate::text::lemma_prefix_ci_of_concat("srd spell "@, "Shield"@, s);
                    assert(ref_exact_spec(s) == Some(c));
                    assert(ref_fuzzy_spec(s) =~= Seq::<ReferenceCommand>::empty());
                },
            }
        },
        ReferenceCommand::Spells => {
            assert(ref_exact_spec(s) == Some(c));
            assert(ref_fuzzy_spec(s) =~= Seq::<ReferenceCommand>::empty());
        },
        ReferenceCommand::Item(it) => {
            match it {
                Item::Dagger => {
                    crate::text::lemma_prefix_ci_of_concat("srd item "@, "Dagger"@, s);
                    crate::text::lemma_lower_skip(s, "srd spell "@.len() as int);
                    assert(spell_from_name(rest_after("srd spell "@, s)).is_none());
                    assert(ref_exact_spec(s) == Some(c));
                    assert(ref_fuzzy_spec(s) =~= Seq::<ReferenceCommand>::empty());
                },
                Item::Shield => {
                    crate::text::lemma_prefix_ci_of_concat("srd item "@, "Shield"@, s);
                    crate::text::lemma_lower_skip(s, "srd spell "@.len() as int);
                    assert(spell_from_name(rest_after("srd spell "@, s)).is_none());
                    assert(lower(rest_after("srd item "@, s))[0] != lower("Dagger"@)[0]);
                    assert(ref_exact_spec(s) == Some(c));
                    assert(ref_fuzzy_spec(s) =~= Seq::<ReferenceCommand>::empty());
                },
                Item::Torch => {
                    crate::text::lemma_prefix_ci_of_concat("srd item "@, "Torch"@, s);
                    crate::text::lemma_lower_skip(s, "srd spell "@.len() as int);
                    assert(spell_from_name(rest_after("srd spell "@, s)).is_none());
                    assert(lower(s)[0] != lower("Bag of Holding"@)[0]);
                    assert(ref_exact_spec(s) == Some(c));
                    assert(ref_fuzzy_spec(s) =~= Seq::<ReferenceCommand>::empty());
                },
            }
        },
        ReferenceCommand::ItemCategory(cat) => {
            match cat {
                ItemCategory::Armor => {
                    crate::text::lemma_prefix_ci_of_concat("srd item category "@, "Armor"@, s);
                    crate::text::lemma_lower_skip(s, "srd spell "@.len() as int);
                    assert(lower(rest_after("srd spell "@, s))[0] != lower("Magic Missile"@)[0]);
                    assert(spell_from_name(rest_after("srd spell "@, s)).is_none());
                    assert(ref_exact_spec(s) == Some(c));
                    assert(ref_fuzzy_spec(s) =~= Seq::<ReferenceCommand>::empty());
                },
                ItemCategory::Shields => {
                    crate::text::lemma_prefix_ci_of_concat("srd item category "@, "Shields"@, s);
                    crate::text::lemma_lower_skip(s, "srd spell "@.len() as int);
                    assert(spell_from_name(rest_after("srd spell "@, s)).is_none());
                    assert(lower(rest_after("srd item category "@, s))[0] != lower("Weapons"@)[0]);
                    assert(ref_exact_spec(s) == Some(c));
                    assert(ref_fuzzy_spec(s) =~= Seq::<ReferenceCommand>::empty());
                },
                ItemCategory::Weapons => {
                    crate::text::lemma_prefix_ci_of_concat("srd item category "@, "Weapons"@, s);
                    crate::text::lemma_lower_skip(s, "srd spell "@.len() as int);
                    assert(spell_from_name(rest_after("srd spell "@, s)).is_none());
                    assert(lower(rest_after("srd item category "@, s))[0] != lower("Shields"@)[0]);
                    assert(ref_exact_spec(s) == Some(c));
                    assert(ref_fuzzy_spec(s) =~= Seq::<ReferenceCommand>::empty());
                },
            }
        },
        ReferenceCommand::MagicItem(m) => {
            match m {
                MagicItem::BagOfHolding => {
                    crate::text::lemma_prefix_ci_of_concat("srd magic item "@, "Bag of Holding"@, s);
                    crate::text::lemma_lower_skip(s, "srd spell "@.len() as int);
                    assert(spell_from_name(rest_after("srd spell "@, s)).is_none());
                    crate::text::lemma_lower_skip(s, "srd item category "@.len() as int);
                    assert(category_from_name(rest_after("srd item category "@, s)).is_none());
                    crate::text::lemma_lower_skip(s, "srd item "@.len() as int);
                    assert(item_from_name(rest_after("srd item "@, s)).is_none());
                    assert(ref_exact_spec(s) == Some(c));
                    assert(ref_fuzzy_spec(s) =~= Seq::<ReferenceCommand>::empty());
                },
                MagicItem::DeckOfManyThings => {
                    crate::text::lemma_prefix_ci_of_concat("srd magic item "@, "Deck of Many Things"@, s);
                    crate::text::lemma_lower_skip(s, "srd spell "@.len() as int);
                    assert(spell_from_name(rest_after("srd spell "@, s)).is_none());
                    crate::text::lemma_lower_skip(s, "srd item category "@.len() as int);
                    assert(category_from_name(rest_after("srd item category "@, s)).is_none());
                    crate::text::lemma_lower_skip(s, "srd item "@.len() as int);
                    assert(item_from_name(rest_after("srd item "@, s)).is_none());
                    assert(ref_exact_spec(s) == Some(c));
                    assert(ref_fuzzy_spec(s) =~= Seq::<ReferenceCommand>::empty());
                },
            }
        },
        ReferenceCommand::OpenGameLicense => {
            assert(ref_exact_spec(s) == Some(c));
            assert(ref_fuzzy_spec(s) =~= Seq::<ReferenceCommand>::empty());
        },
    }
}

/// Every reference command's canonical phrasing is at least ten
/// characters long.
pub proof fn lemma_ref_display_len(c: ReferenceCommand)
    ensures
        ref_display_spec(c).len() >= 10,
{
    reveal_strlit("Open Game License");
    reveal_strlit("srd spells");
    reveal_strlit("srd spell ");
    reveal_strlit("srd item category ");
    reveal_strlit("srd item ");
    reveal_strlit("srd magic item ");
    reveal_strlit("Dagger");
    reveal_strlit("Shield");
    reveal_strlit("Torch");
    match c {
        ReferenceCommand::Item(it) => {
            match it {
                Item::Dagger => {},
                Item::Shield => {},
                Item::Torch => {},
            }
        },
        _ => {},
    }
}

/// The full reference vocabulary offered to autocomplete: fixed phrases
/// plus every word list, each entry labelled with its category hint.
pub open spec fn ref_vocab_spec() -> Seq<(Seq<char>, Seq<char>)> {
    seq![
        ("Open Game License"@, "SRD license"@),
        ("spells"@, "SRD index"@),
        ("Fireball"@, "SRD spell"@),
        ("Magic Missile"@, "SRD spell"@),
        ("Shield"@, "SRD spell"@),
        ("Dagger"@, "SRD item"@),
        ("Shield"@, "SRD item"@),
        ("Torch"@, "SRD item"@),
        ("Armor"@, "SRD item category"@),
        ("Shields"@, "SRD item category"@),
        ("Weapons"@, "SRD item category"@),
        ("Bag of Holding"@, "SRD magic item"@),
        ("Deck of Many Things"@, "SRD magic item"@),
    ]
}

/// The view of a list of labelled suggestions.
pub open spec fn pair_views(v: Seq<(String, String)>) -> Seq<(Seq<char>, Seq<char>)> {
    v.map_values(|p: (String, String)| (p.0@, p.1@))
}

/// Builds the reference vocabulary.
pub fn ref_vocab() -> (r: Vec<(String, String)>)
    ensures
        pair_views(r@) == ref_vocab_spec(),
{
    let mut v: Vec<(String, String)> = Vec::new();
    push_pair(&mut v, "Open Game License", "SRD license");
    push_pair(&mut v, "spells", "SRD index");
    push_pair(&mut v, "Fireball", "SRD spell");
    push_pair(&mut v, "Magic Missile", "SRD spell");
    push_pair(&mut v, "Shield", "SRD spell");
    push_pair(&mut v, "Dagger", "SRD item");
    push_pair(&mut v, "Shield", "SRD item");
    push_pair(&mut v, "Torch", "SRD item");
    push_pair(&mut v, "Armor", "SRD item category");
    push_pair(&mut v, "Shields", "SRD item category");
    push_pair(&mut v, "Weapons", "SRD item category");
    push_pair(&mut v, "Bag of Holding", "SRD magic item");
    push_pair(&mut v, "Deck of Many Things", "SRD magic item");
    proof {
        assert(pair_views(v@) =~= ref_vocab_spec());
    }
    v
}

/// Appends one labelled suggestion.
pub fn push_pair(v: &mut Vec<(String, String)>, label: &str, hint: &str)
    ensures
        final(v)@.len() == old(v)@.len() + 1,
        pair_views(final(v)@) == pair_views(old(v)@).push((label@, hint@)),
{
    v.push((String::from_str(label), String::from_str(hint)));
    proof {
        assert(pair_views(v@) =~= pair_views(old(v)@).push((label@, hint@)));
    }
}

} // verus!
