//! Weighted distribution tables that drive randomized choices.
//!
//! A `Demographics` value holds a general fallback table of lineage
//! weights and any number of region-specific tables that override it.
//! Sampling fails only when the resolved table has zero total weight:
//! that is a configuration error, reported rather than silently defaulted.

use vstd::prelude::*;
use crate::npc::race::Race;
use crate::rng::RandomSource;

verus! {

/// A weighted table resolved to zero total weight when a sample was
/// requested: the distribution cannot choose anything.
#[derive(Clone, Copy, Debug, PartialEq, Eq, Structural)]
pub struct ConfigurationError;

/// The sum of the weights of a table.
pub open spec fn total_weight(t: Seq<(Race, u32)>) -> int
    decreases t.len(),
{
    if t.len() == 0 {
        0
    } else {
        total_weight(t.drop_last()) + t.last().1
    }
}

pub proof fn lemma_total_weight_nonneg(t: Seq<(Race, u32)>)
    ensures
        total_weight(t) >= 0,
    decreases t.len(),
{
    if t.len() > 0 {
        lemma_total_weight_nonneg(t.drop_last());
    }
}

/// The first table registered under `key`, if any.
spec fn find_override(entries: Seq<(u128, Vec<(Race, u32)>)>, key: u128) -> Option<
    Seq<(Race, u32)>,
>
    decreases entries.len(),
{
    if entries.len() == 0 {
        None
    } else if entries[0].0 == key {
        Some(entries[0].1@)
    } else {
        find_override(entries.skip(1), key)
    }
}

pub struct Demographics {
    default_races: Vec<(Race, u32)>,
    region_races: Vec<(u128, Vec<(Race, u32)>)>,
}

impl Demographics {
    /// Every table's total weight fits the sampler's draw bound.
    pub closed spec fn wf(self) -> bool {
        &&& total_weight(self.default_races@) <= u32::MAX
        &&& forall|i: int|
            0 <= i < self.region_races@.len() ==> total_weight(
                #[trigger] self.region_races@[i].1@,
            ) <= u32::MAX
    }

    /// The general fallback table.
    pub closed spec fn default_table(self) -> Seq<(Race, u32)> {
        self.default_races@
    }

    /// The region-specific table registered for `key`, if any.
    pub closed spec fn override_for(self, key: u128) -> Option<Seq<(Race, u32)>> {
        find_override(self.region_races@, key)
    }

    /// The table that a sample drawn in `region` resolves to: the most
    /// specific override if one exists, else the general fallback.
    pub open spec fn table_for(self, region: Option<u128>) -> Seq<(Race, u32)> {
        match region {
            Some(key) => match self.override_for(key) {
                Some(t) => t,
                None => self.default_table(),
            },
            None => self.default_table(),
        }
    }

    /// An empty set of tables: every sample fails until weights are added.
    pub fn new() -> (r: Demographics)
        ensures
            r.wf(),
            r.default_table() == Seq::<(Race, u32)>::empty(),
            forall|key: u128| r.override_for(key).is_none(),
    {
        Demographics { default_races: Vec::new(), region_races: Vec::new() }
    }

    /// Appends a lineage weight to the general fallback table.
    pub fn add_race_weight(&mut self, race: Race, weight: u32)
        requires
            old(self).wf(),
            total_weight(old(self).default_table()) + weight <= u32::MAX,
        ensures
            final(self).wf(),
            final(self).default_table() == old(self).default_table().push((race, weight)),
            forall|key: u128| final(self).override_for(key) == old(self).override_for(key),
    {
        let ghost entries = self.region_races@;
        self.default_races.push((race, weight));
        proof {
            assert(self.default_races@.drop_last() =~= old(self).default_races@);
        }
    }

    /// Registers a region-specific table that overrides the fallback for
    /// samples drawn in that region.
    pub fn set_region_table(&mut self, region: u128, table: Vec<(Race, u32)>)
        requires
            old(self).wf(),
            total_weight(table@) <= u32::MAX,
        ensures
            final(self).wf(),
            final(self).default_table() == old(self).default_table(),
            final(self).override_for(region) == Some(table@),
            forall|key: u128|
                key != region ==> final(self).override_for(key) == old(self).override_for(key),
    {
        self.region_races.insert(0, (region, table));
        proof {
            assert(self.region_races@.skip(1) =~= old(self).region_races@);
            assert(forall|i: int|
                0 <= i < self.region_races@.len() ==> total_weight(
                    #[trigger] self.region_races@[i].1@,
                ) <= u32::MAX);
        }
    }

    /// Draws a category from the table resolved for `region`. Fails if and
    /// only if that table's total weight is zero; a returned category always
    /// stands in the table with a positive weight.
    pub fn weighted_choice(&self, rng: &mut RandomSource, region: Option<u128>) -> (r: Result<
        Race,
        ConfigurationError,
    >)
        requires
            self.wf(),
        ensures
            r.is_err() <==> total_weight(self.table_for(region)) == 0,
            match r {
                Ok(race) => exists|i: int|
                    0 <= i < self.table_for(region).len() && (#[trigger] self.table_for(region)[i]).0
                        == race && self.table_for(region)[i].1 > 0,
                Err(e) => e == ConfigurationError,
            },
    {
        let table = self.resolve_table(region);
        let ghost t = self.table_for(region);
        proof {
            lemma_total_weight_nonneg(t);
            if let Some(key) = region {
                lemma_find_override_bound(self.region_races@, key);
            }
        }
        let mut total: u64 = 0;
        let mut i: usize = 0;
        while i < table.len()
            invariant
                t == self.table_for(region),
                t == table@,
                total_weight(t) <= u32::MAX,
                i <= table@.len(),
                total == total_weight(table@.take(i as int)),
                total <= u32::MAX,
            decreases table@.len() - i,
        {
            proof {
                assert(table@.take(i as int + 1).drop_last() =~= table@.take(i as int));
                lemma_total_weight_prefix_bound(table@, i as int + 1);
            }
            total = total + table[i].1 as u64;
            i += 1;
        }
        proof {
            assert(table@.take(table@.len() as int) =~= table@);
        }
        if total == 0 {
            return Err(ConfigurationError);
        }
        let x = rng.next_below(total as u32);
        let mut acc: u64 = 0;
        let mut j: usize = 0;
        while j < table.len()
            invariant
                t == self.table_for(region),
                t == table@,
                0 <= total_weight(t) <= u32::MAX,
                j <= table@.len(),
                acc == total_weight(table@.take(j as int)),
                (x as int) < total_weight(t),
                acc <= x as int,
            decreases table@.len() - j,
        {
            proof {
                assert(table@.take(j as int + 1).drop_last() =~= table@.take(j as int));
                lemma_total_weight_prefix_bound(table@, j as int + 1);
            }
            let w = table[j].1;
            if (x as u64) < acc + w as u64 {
                proof {
                    assert(table@[j as int].1 > 0);
                    assert(self.table_for(region)[j as int].1 > 0);
                    assert(total_weight(self.table_for(region)) > x as int);
                }
                return Ok(table[j].0);
            }
            acc = acc + w as u64;
            j += 1;
        }
        proof {
            assert(table@.take(table@.len() as int) =~= table@);
            assert(false);
        }
        Err(ConfigurationError)
    }

    /// Resolves the table that `region` falls under.
    fn resolve_table(&self, region: Option<u128>) -> (r: &Vec<(Race, u32)>)
        ensures
            r@ == self.table_for(region),
    {
        match region {
            Some(key) => {
                let mut i: usize = 0;
                proof {
                    assert(self.region_races@.skip(0) =~= self.region_races@);
                }
                while i < self.region_races.len()
                    invariant
                        region == Some(key),
                        i <= self.region_races@.len(),
                        find_override(self.region_races@, key) == find_override(
                            self.region_races@.skip(i as int),
                            key,
                        ),
                    decreases self.region_races@.len() - i,
                {
                    if self.region_races[i].0 == key {
                        proof {
                            assert(self.region_races@.skip(i as int)[0]
                                == self.region_races@[i as int]);
                            assert(find_override(self.region_races@.skip(i as int), key)
                                == Some(self.region_races@[i as int].1@));
                        }
                        return &self.region_races[i].1;
                    }
                    proof {
                        assert(self.region_races@.skip(i as int).skip(1) =~= self.region_races@.skip(
                            i as int + 1,
                        ));
                    }
                    i += 1;
                }
                &self.default_races
            },
            None => &self.default_races,
        }
    }
}

/// A table found among bounded entries is itself bounded.
proof fn lemma_find_override_bound(entries: Seq<(u128, Vec<(Race, u32)>)>, key: u128)
    requires
        forall|i: int|
            0 <= i < entries.len() ==> total_weight(#[trigger] entries[i].1@) <= u32::MAX,
    ensures
        match find_override(entries, key) {
            Some(t) => total_weight(t) <= u32::MAX,
            None => true,
        },
    decreases entries.len(),
{
    if entries.len() > 0 && entries[0].0 != key {
        assert(forall|i: int|
            0 <= i < entries.skip(1).len() ==> total_weight(#[trigger] entries.skip(1)[i].1@)
                <= u32::MAX);
        lemma_find_override_bound(entries.skip(1), key);
    }
}

/// A prefix of a table weighs no more than the whole table.
proof fn lemma_total_weight_prefix_bound(t: Seq<(Race, u32)>, n: int)
    requires
        0 <= n <= t.len(),
    ensures
        total_weight(t.take(n)) <= total_weight(t),
        total_weight(t.take(n)) >= 0,
    decreases t.len() - n,
{
    lemma_total_weight_nonneg(t.take(n));
    if n < t.len() {
        lemma_total_weight_prefix_bound(t, n + 1);
        assert(t.take(n + 1).drop_last() =~= t.take(n));
    } else {
        assert(t.take(n) =~= t);
    }
}

impl Default for Demographics {
    /// The standard population mix: predominantly human, with a small
    /// warforged minority.
    fn default() -> (r: Demographics)
        ensures
            r.wf(),
            total_weight(r.default_table()) > 0,
            r.default_table() == seq![(Race::Human, 95u32), (Race::Warforged, 5u32)],
            forall|key: u128| r.override_for(key).is_none(),
    {
        let mut d = Demographics::new();
        d.add_race_weight(Race::Human, 95);
        proof {
            assert(d.default_table().drop_last() =~= Seq::<(Race, u32)>::empty());
            assert(total_weight(d.default_table()) == 95);
        }
        d.add_race_weight(Race::Warforged, 5);
        proof {
            assert(d.default_table() =~= seq![(Race::Human, 95u32), (Race::Warforged, 5u32)]);
            assert(total_weight(d.default_table()) == 100) by {
                assert(d.default_table().drop_last() =~= seq![(Race::Human, 95u32)]);
                assert(seq![(Race::Human, 95u32)].drop_last() =~= Seq::<(Race, u32)>::empty());
            }
        }
        d
    }
}

} // verus!
