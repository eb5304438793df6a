//! The agents that a user has assigned to maps.
use vstd::prelude::*;

use crate::text::{at_most, eq_ignore_ascii_case, lemma_ordered_antisymmetric, lemma_ordered_total, lemma_ordered_transitive, ordered, same, same_ignoring_case, texts_of};

verus! {

/// The models of assignments.
pub open spec fn entry_views(entries: Seq<(String, String)>) -> Seq<(Seq<char>, Seq<char>)> {
    Seq::new(entries.len(), |i: int| (entries[i].0@, entries[i].1@))
}

/// Whether the maps of assignments stand in ascending order, none of them twice.
pub open spec fn ascending(entries: Seq<(Seq<char>, Seq<char>)>) -> bool {
    forall|i: int, j: int|
        0 <= i < j < entries.len() ==> #[trigger] ordered(entries[i].0, entries[j].0)
            && entries[i].0 != entries[j].0
}

/// Agents assigned to maps, at most one to each, in ascending order of the maps.
#[derive(Debug)]
pub struct MapAgents {
    entries: Vec<(String, String)>,
}

impl MapAgents {
    #[verifier::type_invariant]
    spec fn well_formed(self) -> bool {
        ascending(entry_views(self.entries@))
    }

    /// The assignments, each a map and an agent, in ascending order of the maps.
    pub closed spec fn assigned(self) -> Seq<(Seq<char>, Seq<char>)> {
        entry_views(self.entries@)
    }
}

impl View for MapAgents {
    type V = Seq<(Seq<char>, Seq<char>)>;

    open spec fn view(&self) -> Seq<(Seq<char>, Seq<char>)> {
        self.assigned()
    }
}

/// The agent of the first assignment whose map is the given one, whatever the case of its ASCII
/// letters.
pub open spec fn first_assigned(
    entries: Seq<(Seq<char>, Seq<char>)>,
    map_id: Seq<char>,
) -> Option<Seq<char>>
    decreases entries.len(),
{
    if entries.len() == 0 {
        None
    } else if same_ignoring_case(entries[0].0, map_id) {
        Some(entries[0].1)
    } else {
        first_assigned(entries.skip(1), map_id)
    }
}

/// The agents of assignments.
pub open spec fn assigned_agents(entries: Seq<(Seq<char>, Seq<char>)>) -> Seq<Seq<char>> {
    Seq::new(entries.len(), |i: int| entries[i].1)
}

/// Whether `after` is `before` with an agent assigned to a map, in place of the one that the map
/// had, if it had one.
pub open spec fn assigned_in(
    before: Seq<(Seq<char>, Seq<char>)>,
    after: Seq<(Seq<char>, Seq<char>)>,
    map_url: Seq<char>,
    agent: Seq<char>,
) -> bool {
    ||| exists|i: int|
        0 <= i < before.len() && before[i].0 == map_url && after == #[trigger] before.update(
            i,
            (map_url, agent),
        )
    ||| (forall|i: int| 0 <= i < before.len() ==> (#[trigger] before[i]).0 != map_url) && exists|
        i: int,
    |
        0 <= i <= before.len() && after == #[trigger] before.insert(i, (map_url, agent))
}

impl MapAgents {
    /// No assignments.
    pub fn new() -> (r: MapAgents)
        ensures
            r@ == Seq::<(Seq<char>, Seq<char>)>::empty(),
    {
        let r = MapAgents { entries: Vec::new() };
        assert(r@ =~= Seq::<(Seq<char>, Seq<char>)>::empty());
        r
    }

    /// The assignments, each a map and an agent, in ascending order of the maps.
    pub fn pairs(&self) -> (r: &Vec<(String, String)>)
        ensures
            entry_views(r@) == self@,
            ascending(self@),
    {
        proof {
            use_type_invariant(self);
        }
        &self.entries
    }

    /// Whether there are no assignments.
    pub fn is_empty(&self) -> (r: bool)
        ensures
            r == (self@.len() == 0),
    {
        self.entries.len() == 0
    }

    /// Assigns an agent to a map, in place of the one that the map had.
    pub fn insert(&mut self, map_url: String, agent_uuid: String)
        ensures
            ascending(final(self)@),
            assigned_in(old(self)@, final(self)@, map_url@, agent_uuid@),
    {
        proof {
            use_type_invariant(&*self);
        }
        let ghost before = self@;
        let mut entries: Vec<(String, String)> = Vec::new();
        std::mem::swap(&mut entries, &mut self.entries);
        let ghost key = map_url@;
        let ghost entry = (map_url@, agent_uuid@);
        let mut i: usize = 0;
        while i < entries.len() && !at_most(map_url.as_str(), entries[i].0.as_str())
            invariant
                i <= entries.len(),
                entry_views(entries@) == before,
                key == map_url@,
                forall|j: int| 0 <= j < i ==> !ordered(key, #[trigger] before[j].0),
            decreases entries.len() - i,
        {
            assert(before[i as int].0 == entries@[i as int].0@);
            i = i + 1;
        }
        proof {
            assert(i < before.len() ==> before[i as int].0 == entries@[i as int].0@);
            assert forall|j: int| 0 <= j < i implies ordered((#[trigger] before[j]).0, key)
                && before[j].0 != key by {
                assert(!ordered(key, before[j].0));
                lemma_ordered_total(key, before[j].0);
            }
            assert forall|j: int| i <= j < before.len() implies ordered(
                key,
                (#[trigger] before[j]).0,
            ) by {
                if j > i {
                    assert(ordered(before[i as int].0, before[j].0));
                    lemma_ordered_transitive(key, before[i as int].0, before[j].0);
                }
            }
        }
        if i < entries.len() && same(entries[i].0.as_str(), map_url.as_str()) {
            entries.set(i, (map_url, agent_uuid));
            assert(entry_views(entries@) =~= before.update(i as int, entry));
            assert(ascending(entry_views(entries@))) by {
                assert forall|a: int, b: int| 0 <= a < b < entries@.len() implies #[trigger] ordered(
                    entry_views(entries@)[a].0,
                    entry_views(entries@)[b].0,
                ) && entry_views(entries@)[a].0 != entry_views(entries@)[b].0 by {
                    assert(ordered(before[a].0, before[b].0));
                }
            }
        } else {
            proof {
                assert forall|j: int| i <= j < before.len() implies (#[trigger] before[j]).0
                    != key by {
                    if j > i && before[j].0 == key {
                        assert(ordered(before[i as int].0, before[j].0));
                        lemma_ordered_antisymmetric(key, before[i as int].0);
                    }
                }
            }
            entries.insert(i, (map_url, agent_uuid));
            assert(entry_views(entries@) =~= before.insert(i as int, entry));
            assert(ascending(entry_views(entries@))) by {
                let after = before.insert(i as int, entry);
                assert forall|a: int, b: int| 0 <= a < b < after.len() implies #[trigger] ordered(
                    after[a].0,
                    after[b].0,
                ) && after[a].0 != after[b].0 by {
                    let pa = if a < i {
                        a
                    } else {
                        a - 1
                    };
                    let pb = if b < i {
                        b
                    } else {
                        b - 1
                    };
                    if a == i {
                        assert(after[b] == before[b - 1]);
                    } else if b == i {
                        assert(after[a] == before[a]);
                    } else {
                        assert(after[a] == before[pa]);
                        assert(after[b] == before[pb]);
                        assert(ordered(before[pa].0, before[pb].0));
                    }
                }
            }
        }
        self.entries = entries;
    }

    /// The agent assigned to a map, whatever the case of the ASCII letters in its name; the first
    /// one if several maps are named like that.
    pub fn agent_for(&self, map_id: &str) -> (r: Option<&String>)
        ensures
            match r {
                Some(agent) => first_assigned(self@, map_id@) == Some(agent@),
                None => first_assigned(self@, map_id@) is None,
            },
    {
        let ghost entries = self@;
        assert(entries.skip(0) == entries);
        for i in 0..self.entries.len()
            invariant
                entries == entry_views(self.entries@),
                first_assigned(entries, map_id@) == first_assigned(
                    entries.skip(i as int),
                    map_id@,
                ),
        {
            assert(entries.skip(i as int)[0] == entries[i as int]);
            assert(entries.skip(i as int).skip(1) == entries.skip(i + 1));
            if eq_ignore_ascii_case(self.entries[i].0.as_str(), map_id) {
                return Some(&self.entries[i].1);
            }
        }
        None
    }

    /// The assigned agents, in ascending order of their maps.
    pub fn agents(&self) -> (r: Vec<&str>)
        ensures
            texts_of(r@) == assigned_agents(self@),
    {
        let mut r: Vec<&str> = Vec::new();
        for i in 0..self.entries.len()
            invariant
                r@.len() == i,
                forall|j: int| 0 <= j < i ==> (#[trigger] r@[j])@ == self.entries@[j].1@,
        {
            r.push(self.entries[i].1.as_str());
        }
        r
    }
}

impl Clone for MapAgents {
    fn clone(&self) -> (r: MapAgents)
        ensures
            r@ == self@,
    {
        proof {
            use_type_invariant(self);
        }
        let mut entries: Vec<(String, String)> = Vec::new();
        for i in 0..self.entries.len()
            invariant
                entries@.len() == i,
                forall|j: int|
                    0 <= j < i ==> (#[trigger] entries@[j]).0@ == self.entries@[j].0@
                        && entries@[j].1@ == self.entries@[j].1@,
        {
            entries.push((self.entries[i].0.clone(), self.entries[i].1.clone()));
        }
        assert(entry_views(entries@) =~= entry_views(self.entries@));
        MapAgents { entries }
    }
}

} // verus!
