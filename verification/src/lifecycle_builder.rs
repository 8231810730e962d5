//! The lifecycle ledger: four fixed, overwritable milestone dates plus an
//! open-ended append-only list of named events, merged on demand into one
//! mapping from name to timestamp.

use vstd::prelude::*;
use crate::platform::fresh_id;

verus! {

/// One named, dated fact recorded by an actor. Times are in milliseconds
/// since the Unix epoch.
pub struct Event {
    pub name: String,
    pub recorded_by: u128,
    pub recorded_on: i64,
}

/// One entry of the merged date view: a name with its timestamp.
pub struct DatedFact {
    pub name: String,
    pub when: i64,
}

/// The per-asset lifecycle state: the owning asset's identifier, the four
/// milestone slots, and the event list.
pub struct LifecycleBuilder {
    pub asset_id: u128,
    pub hatch_date: Option<i64>,
    pub park_introduction_date: Option<i64>,
    pub last_checkup_date: Option<i64>,
    pub death_date: Option<i64>,
    pub other_dates: Vec<Event>,
}

/// The mapping contributed by the milestone slots alone: each present
/// milestone under its reserved key.
pub open spec fn spec_milestones_map(lb: LifecycleBuilder) -> Map<Seq<char>, i64> {
    let m = Map::<Seq<char>, i64>::empty();
    let m = if lb.hatch_date is Some {
        m.insert("hatch_date"@, lb.hatch_date->0)
    } else {
        m
    };
    let m = if lb.park_introduction_date is Some {
        m.insert("park_introduction_date"@, lb.park_introduction_date->0)
    } else {
        m
    };
    let m = if lb.last_checkup_date is Some {
        m.insert("last_checkup_date"@, lb.last_checkup_date->0)
    } else {
        m
    };
    let m = if lb.death_date is Some {
        m.insert("death_date"@, lb.death_date->0)
    } else {
        m
    };
    m
}

/// The mapping after the given events are merged over `m`, in order, each
/// under its own name; a later insertion wins on an equal key.
pub open spec fn spec_dates_after(m: Map<Seq<char>, i64>, evs: Seq<Event>) -> Map<Seq<char>, i64>
    decreases evs.len(),
{
    if evs.len() == 0 {
        m
    } else {
        spec_dates_after(m.insert(evs[0].name@, evs[0].recorded_on), evs.drop_first())
    }
}

/// The full merged view: the milestones under their reserved keys first,
/// then every event under its own name, last write winning.
pub open spec fn spec_all_dates(lb: LifecycleBuilder) -> Map<Seq<char>, i64> {
    spec_dates_after(spec_milestones_map(lb), lb.other_dates@)
}

/// How many milestone slots are set.
pub open spec fn spec_milestone_count(lb: LifecycleBuilder) -> int {
    (if lb.hatch_date is Some {
        1int
    } else {
        0int
    }) + (if lb.park_introduction_date is Some {
        1int
    } else {
        0int
    }) + (if lb.last_checkup_date is Some {
        1int
    } else {
        0int
    }) + (if lb.death_date is Some {
        1int
    } else {
        0int
    })
}

/// The names of the given events, as a set.
pub open spec fn spec_event_names(evs: Seq<Event>) -> Set<Seq<char>>
    decreases evs.len(),
{
    if evs.len() == 0 {
        Set::empty()
    } else {
        spec_event_names(evs.drop_first()).insert(evs[0].name@)
    }
}

/// No two entries of the merged view carry the same name.
pub open spec fn distinct_facts(s: Seq<DatedFact>) -> bool {
    forall|i: int, j: int| 0 <= i < j < s.len() ==> s[i].name@ != s[j].name@
}

/// The mapping an entry list stands for: each entry's timestamp under its
/// name, a later entry winning on an equal name.
pub open spec fn spec_fact_map(s: Seq<DatedFact>) -> Map<Seq<char>, i64>
    decreases s.len(),
{
    if s.len() == 0 {
        Map::empty()
    } else {
        spec_fact_map(s.drop_last()).insert(s.last().name@, s.last().when)
    }
}

/// Whether some entry of `s` carries the name `k`.
pub open spec fn has_name(s: Seq<DatedFact>, k: Seq<char>) -> bool {
    exists|i: int| 0 <= i < s.len() && s[i].name@ == k
}

/// An entry list's mapping is keyed by exactly the names of its entries.
proof fn lemma_fact_map_dom(s: Seq<DatedFact>)
    ensures
        spec_fact_map(s).dom().finite(),
        forall|k: Seq<char>| #[trigger] spec_fact_map(s).dom().contains(k) <==> has_name(s, k),
    decreases s.len(),
{
    if s.len() == 0 {
    } else {
        lemma_fact_map_dom(s.drop_last());
        assert forall|k: Seq<char>| #[trigger]
            spec_fact_map(s).dom().contains(k) <==> has_name(s, k) by {
            if spec_fact_map(s).dom().contains(k) {
                if k == s.last().name@ {
                    assert(s[s.len() - 1].name@ == k);
                } else {
                    let i = choose|i: int|
                        0 <= i < s.drop_last().len() && s.drop_last()[i].name@ == k;
                    assert(s[i].name@ == k);
                }
            }
            if has_name(s, k) {
                let i = choose|i: int| 0 <= i < s.len() && s[i].name@ == k;
                if i < s.len() - 1 {
                    assert(s.drop_last()[i].name@ == k);
                    assert(has_name(s.drop_last(), k));
                }
            }
        }
    }
}

/// A list with pairwise-distinct names maps exactly as many keys as it has
/// entries.
proof fn lemma_fact_map_len(s: Seq<DatedFact>)
    requires
        distinct_facts(s),
    ensures
        spec_fact_map(s).dom().finite(),
        spec_fact_map(s).dom().len() == s.len(),
    decreases s.len(),
{
    if s.len() == 0 {
        assert(spec_fact_map(s).dom() =~= Set::<Seq<char>>::empty());
    } else {
        assert(forall|i: int, j: int|
            0 <= i < j < s.drop_last().len() ==> s.drop_last()[i].name@ != s.drop_last()[j].name@);
        lemma_fact_map_len(s.drop_last());
        lemma_fact_map_dom(s.drop_last());
        assert(!has_name(s.drop_last(), s.last().name@)) by {
            if has_name(s.drop_last(), s.last().name@) {
                let i = choose|i: int|
                    0 <= i < s.drop_last().len() && s.drop_last()[i].name@ == s.last().name@;
                assert(s[i].name@ == s[s.len() - 1].name@);
            }
        }
    }
}

/// Overwriting the entry that carries a name re-maps that name and nothing
/// else.
proof fn lemma_fact_map_update(s: Seq<DatedFact>, j: int, f: DatedFact)
    requires
        distinct_facts(s),
        0 <= j < s.len(),
        s[j].name@ == f.name@,
    ensures
        spec_fact_map(s.update(j, f)) == spec_fact_map(s).insert(f.name@, f.when),
    decreases s.len(),
{
    let t = s.update(j, f);
    if j == s.len() - 1 {
        assert(t.drop_last() =~= s.drop_last());
        assert(t.last() == f);
        assert(spec_fact_map(s.drop_last()).insert(f.name@, f.when) =~= spec_fact_map(
            s.drop_last(),
        ).insert(s.last().name@, s.last().when).insert(f.name@, f.when));
    } else {
        assert(t.drop_last() =~= s.drop_last().update(j, f));
        assert(t.last() == s.last());
        assert(forall|a: int, b: int|
            0 <= a < b < s.drop_last().len() ==> s.drop_last()[a].name@ != s.drop_last()[b].name@);
        assert(s.drop_last()[j].name@ == f.name@);
        lemma_fact_map_update(s.drop_last(), j, f);
        assert(s.last().name@ != f.name@);
        assert(spec_fact_map(s.drop_last()).insert(f.name@, f.when).insert(
            s.last().name@,
            s.last().when,
        ) =~= spec_fact_map(s.drop_last()).insert(s.last().name@, s.last().when).insert(
            f.name@,
            f.when,
        ));
    }
}

/// Records `when` under `name` in the entry list: overwrites the entry that
/// already carries the name, else appends a new one.
fn upsert(dates: &mut Vec<DatedFact>, name: String, when: i64)
    requires
        distinct_facts(old(dates)@),
    ensures
        distinct_facts(final(dates)@),
        spec_fact_map(final(dates)@) == spec_fact_map(old(dates)@).insert(name@, when),
{
    let mut j: usize = 0;
    while j < dates.len()
        invariant
            j <= dates@.len(),
            dates@ == old(dates)@,
            distinct_facts(dates@),
            forall|k: int| 0 <= k < j ==> dates@[k].name@ != name@,
        decreases dates@.len() - j,
    {
        if dates[j].name == name {
            let replacement = DatedFact { name, when };
            proof {
                lemma_fact_map_update(dates@, j as int, replacement);
            }
            dates[j] = replacement;
            assert(distinct_facts(dates@)) by {
                assert(forall|a: int, b: int|
                    0 <= a < b < dates@.len() ==> dates@[a].name@ != dates@[b].name@);
            }
            return;
        }
        j = j + 1;
    }
    dates.push(DatedFact { name, when });
    assert(dates@.drop_last() =~= old(dates)@);
}

impl LifecycleBuilder {
    /// A ledger for the given asset with every milestone absent and no
    /// events.
    pub fn new(asset_id: u128) -> (r: LifecycleBuilder)
        ensures
            r.asset_id == asset_id,
            r.hatch_date is None,
            r.park_introduction_date is None,
            r.last_checkup_date is None,
            r.death_date is None,
            r.other_dates@ == Seq::<Event>::empty(),
    {
        LifecycleBuilder {
            asset_id,
            hatch_date: None,
            park_introduction_date: None,
            last_checkup_date: None,
            death_date: None,
            other_dates: Vec::new(),
        }
    }

    /// Overwrites the hatch milestone; every other part of the ledger is
    /// untouched.
    pub fn set_hatch_date(&mut self, date: i64)
        ensures
            final(self).hatch_date == Some(date),
            final(self).asset_id == old(self).asset_id,
            final(self).park_introduction_date == old(self).park_introduction_date,
            final(self).last_checkup_date == old(self).last_checkup_date,
            final(self).death_date == old(self).death_date,
            final(self).other_dates@ == old(self).other_dates@,
    {
        self.hatch_date = Some(date);
    }

    /// Overwrites the park-introduction milestone; every other part of the
    /// ledger is untouched.
    pub fn set_park_introduction_date(&mut self, date: i64)
        ensures
            final(self).park_introduction_date == Some(date),
            final(self).asset_id == old(self).asset_id,
            final(self).hatch_date == old(self).hatch_date,
            final(self).last_checkup_date == old(self).last_checkup_date,
            final(self).death_date == old(self).death_date,
            final(self).other_dates@ == old(self).other_dates@,
    {
        self.park_introduction_date = Some(date);
    }

    /// Overwrites the last-checkup milestone; every other part of the
    /// ledger is untouched.
    pub fn set_last_checkup_date(&mut self, date: i64)
        ensures
            final(self).last_checkup_date == Some(date),
            final(self).asset_id == old(self).asset_id,
            final(self).hatch_date == old(self).hatch_date,
            final(self).park_introduction_date == old(self).park_introduction_date,
            final(self).death_date == old(self).death_date,
            final(self).other_dates@ == old(self).other_dates@,
    {
        self.last_checkup_date = Some(date);
    }

    /// Overwrites the death milestone; every other part of the ledger is
    /// untouched.
    pub fn set_death_date(&mut self, date: i64)
        ensures
            final(self).death_date == Some(date),
            final(self).asset_id == old(self).asset_id,
            final(self).hatch_date == old(self).hatch_date,
            final(self).park_introduction_date == old(self).park_introduction_date,
            final(self).last_checkup_date == old(self).last_checkup_date,
            final(self).other_dates@ == old(self).other_dates@,
    {
        self.death_date = Some(date);
    }

    /// Appends an event unconditionally; duplicate names are permitted.
    pub fn add_other_event(&mut self, name: String, recorded_by: u128, recorded_on: i64)
        ensures
            final(self).other_dates@ == old(self).other_dates@.push(
                (Event { name, recorded_by, recorded_on }),
            ),
            final(self).asset_id == old(self).asset_id,
            final(self).hatch_date == old(self).hatch_date,
            final(self).park_introduction_date == old(self).park_introduction_date,
            final(self).last_checkup_date == old(self).last_checkup_date,
            final(self).death_date == old(self).death_date,
    {
        self.other_dates.push(Event { name, recorded_by, recorded_on });
    }

    /// The merged view of all dated facts: each present milestone under its
    /// reserved key, then every event under its own name; on an equal key
    /// the later insertion wins, so the view has one entry per distinct key.
    pub fn get_all_dates(&self) -> (r: Vec<DatedFact>)
        ensures
            distinct_facts(r@),
            spec_fact_map(r@) == spec_all_dates(*self),
            r@.len() == spec_all_dates(*self).dom().len(),
    {
        let mut dates: Vec<DatedFact> = Vec::new();
        assert(spec_fact_map(dates@) =~= Map::<Seq<char>, i64>::empty());
        if let Some(date) = self.hatch_date {
            upsert(&mut dates, "hatch_date".to_owned(), date);
        }
        if let Some(date) = self.park_introduction_date {
            upsert(&mut dates, "park_introduction_date".to_owned(), date);
        }
        if let Some(date) = self.last_checkup_date {
            upsert(&mut dates, "last_checkup_date".to_owned(), date);
        }
        if let Some(date) = self.death_date {
            upsert(&mut dates, "death_date".to_owned(), date);
        }
        assert(spec_fact_map(dates@) == spec_milestones_map(*self));
        let ghost m0 = spec_milestones_map(*self);
        let mut i: usize = 0;
        while i < self.other_dates.len()
            invariant
                i <= self.other_dates@.len(),
                distinct_facts(dates@),
                spec_fact_map(dates@) == spec_dates_after(m0, self.other_dates@.take(i as int)),
            decreases self.other_dates@.len() - i,
        {
            let event = &self.other_dates[i];
            upsert(&mut dates, event.name.clone(), event.recorded_on);
            proof {
                lemma_dates_after_push(m0, self.other_dates@.take(i as int), self.other_dates@[i as int]);
                assert(self.other_dates@.take(i as int + 1) =~= self.other_dates@.take(
                    i as int,
                ).push(self.other_dates@[i as int]));
            }
            i = i + 1;
        }
        assert(self.other_dates@.take(self.other_dates@.len() as int) =~= self.other_dates@);
        proof {
            lemma_fact_map_len(dates@);
        }
        dates
    }
}

impl Default for LifecycleBuilder {
    /// A ledger for a freshly drawn asset identifier, with every milestone
    /// absent and no events.
    fn default() -> (r: Self)
        ensures
            r.hatch_date is None,
            r.park_introduction_date is None,
            r.last_checkup_date is None,
            r.death_date is None,
            r.other_dates@ == Seq::<Event>::empty(),
    {
        LifecycleBuilder::new(fresh_id())
    }
}

/// Merging one more event re-maps its name and nothing else.
proof fn lemma_dates_after_push(m: Map<Seq<char>, i64>, evs: Seq<Event>, e: Event)
    ensures
        spec_dates_after(m, evs.push(e)) == spec_dates_after(m, evs).insert(e.name@, e.recorded_on),
    decreases evs.len(),
{
    let p = evs.push(e);
    assert(p.len() == evs.len() + 1);
    assert(spec_dates_after(m, p) == spec_dates_after(
        m.insert(p[0].name@, p[0].recorded_on),
        p.drop_first(),
    ));
    if evs.len() == 0 {
        assert(p[0] == e);
        assert(p.drop_first() =~= Seq::<Event>::empty());
        assert(spec_dates_after(m.insert(e.name@, e.recorded_on), p.drop_first()) == m.insert(
            e.name@,
            e.recorded_on,
        ));
    } else {
        assert(p[0] == evs[0]);
        assert(p.drop_first() =~= evs.drop_first().push(e));
        lemma_dates_after_push(m.insert(evs[0].name@, evs[0].recorded_on), evs.drop_first(), e);
        assert(spec_dates_after(m, evs) == spec_dates_after(
            m.insert(evs[0].name@, evs[0].recorded_on),
            evs.drop_first(),
        ));
    }
}

/// Merging events over a base mapping keys the result by the base's keys
/// together with the events' names.
proof fn lemma_dates_after_dom(m: Map<Seq<char>, i64>, evs: Seq<Event>)
    ensures
        spec_dates_after(m, evs).dom() =~= m.dom().union(spec_event_names(evs)),
    decreases evs.len(),
{
    if evs.len() == 0 {
    } else {
        lemma_dates_after_dom(m.insert(evs[0].name@, evs[0].recorded_on), evs.drop_first());
    }
}

/// The merged view's keys are exactly the reserved keys of the milestones
/// that are set together with the names of the recorded events, so its size
/// falls short of (milestones set) + (events added) by exactly the number
/// of key collisions.
pub proof fn lemma_all_dates_dom(lb: LifecycleBuilder)
    ensures
        spec_all_dates(lb).dom() =~= spec_milestones_map(lb).dom().union(
            spec_event_names(lb.other_dates@),
        ),
{
    lemma_dates_after_dom(spec_milestones_map(lb), lb.other_dates@);
}

/// The milestone mapping has one key per set milestone.
pub proof fn lemma_milestones_dom(lb: LifecycleBuilder)
    ensures
        spec_milestones_map(lb).dom().finite(),
        spec_milestones_map(lb).dom().len() == spec_milestone_count(lb),
{
    reveal_strlit("hatch_date");
    reveal_strlit("park_introduction_date");
    reveal_strlit("last_checkup_date");
    reveal_strlit("death_date");
    assert("hatch_date"@[0] != "park_introduction_date"@[0]);
    assert("hatch_date"@[0] != "last_checkup_date"@[0]);
    assert("hatch_date"@[0] != "death_date"@[0]);
    assert("park_introduction_date"@[0] != "last_checkup_date"@[0]);
    assert("park_introduction_date"@[0] != "death_date"@[0]);
    assert("last_checkup_date"@[0] != "death_date"@[0]);
}

/// Merging events whose names are pairwise distinct and absent from the
/// base mapping adds one key per event.
proof fn lemma_dates_after_len(m: Map<Seq<char>, i64>, evs: Seq<Event>)
    requires
        m.dom().finite(),
        forall|i: int, j: int| 0 <= i < j < evs.len() ==> evs[i].name@ != evs[j].name@,
        forall|i: int| 0 <= i < evs.len() ==> !m.dom().contains(#[trigger] evs[i].name@),
    ensures
        spec_dates_after(m, evs).dom().finite(),
        spec_dates_after(m, evs).dom().len() == m.dom().len() + evs.len(),
    decreases evs.len(),
{
    if evs.len() == 0 {
    } else {
        let m1 = m.insert(evs[0].name@, evs[0].recorded_on);
        let rest = evs.drop_first();
        assert(forall|i: int, j: int| 0 <= i < j < rest.len() ==> rest[i].name@ != rest[j].name@);
        assert forall|i: int| 0 <= i < rest.len() implies !m1.dom().contains(
            #[trigger] rest[i].name@,
        ) by {
            assert(rest[i] == evs[i + 1]);
        }
        lemma_dates_after_len(m1, rest);
        assert(m1.dom() =~= m.dom().insert(evs[0].name@));
    }
}

/// When no event name collides with another or with a reserved milestone
/// key, the merged view's size is exactly (milestones set) + (events
/// added).
pub proof fn lemma_all_dates_size_no_collision(lb: LifecycleBuilder)
    requires
        forall|i: int, j: int|
            0 <= i < j < lb.other_dates@.len() ==> lb.other_dates@[i].name@
                != lb.other_dates@[j].name@,
        forall|i: int|
            0 <= i < lb.other_dates@.len() ==> !spec_milestones_map(lb).dom().contains(
                #[trigger] lb.other_dates@[i].name@,
            ),
    ensures
        spec_all_dates(lb).dom().len() == spec_milestone_count(lb) + lb.other_dates@.len(),
{
    lemma_milestones_dom(lb);
    lemma_dates_after_len(spec_milestones_map(lb), lb.other_dates@);
}

} // verus!
