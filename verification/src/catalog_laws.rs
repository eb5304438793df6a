//! What always holds of sorting, of the lists of agents and maps, and of the agents assigned to
//! maps.
use vstd::prelude::*;
use vstd::set_lib::{lemma_int_range, lemma_subset_equality, set_int_range};

use crate::app::{Agent, AgentView, GameMap, MapView};
use crate::assignments::{ascending, assigned_in, first_assigned};
use crate::config_laws::says_something;
use crate::maps::{has_bomb_sites, playable, pool, shown_map, shown_maps, ApiMap, RotationMap};
use crate::sorting::{sorts, stably_sorted, Ranked};
use crate::text::{lemma_ordered_total, lower, ordered, same_ignoring_case};
use crate::text_laws::law_blank;

verus! {

/// Every place of the input is one that a value of the output comes from.
proof fn lemma_all_places<T: Ranked>(input: Seq<T::V>, output: Seq<T::V>, places: Seq<int>, k: int)
    requires
        sorts::<T>(input, output, places),
        0 <= k < input.len(),
    ensures
        exists|j: int| 0 <= j < output.len() && #[trigger] places[j] == k,
{
    let n = input.len() as int;
    let all = set_int_range(0, n);
    assert(places.no_duplicates());
    places.unique_seq_to_set();
    lemma_int_range(0, n);
    assert(places.to_set().subset_of(all)) by {
        assert forall|x: int| places.to_set().contains(x) implies all.contains(x) by {
            let j = choose|j: int| 0 <= j < places.len() && places[j] == x;
            assert(0 <= places[j] < input.len());
        }
    }
    vstd::seq_lib::seq_to_set_is_finite(places);
    lemma_subset_equality(places.to_set(), all);
    assert(places.to_set().contains(k));
}

/// Sorting loses nothing and makes nothing up: every value comes from the input, and every value of
/// the input is still there.
pub proof fn law_sorting_keeps_values<T: Ranked>(input: Seq<T::V>, output: Seq<T::V>)
    requires
        stably_sorted::<T>(input, output),
    ensures
        output.len() == input.len(),
        forall|v: T::V| input.contains(v) <==> output.contains(v),
{
    let places = choose|places: Seq<int>| sorts::<T>(input, output, places);
    assert forall|v: T::V| input.contains(v) implies output.contains(v) by {
        let k = choose|k: int| 0 <= k < input.len() && input[k] == v;
        lemma_all_places::<T>(input, output, places, k);
        let j = choose|j: int| 0 <= j < output.len() && #[trigger] places[j] == k;
        assert(output[j] == v);
    }
    assert forall|v: T::V| output.contains(v) implies input.contains(v) by {
        let j = choose|j: int| 0 <= j < output.len() && output[j] == v;
        assert(input[places[j]] == v);
    }
}

proof fn lemma_same_places<T: Ranked>(
    input: Seq<T::V>,
    output: Seq<T::V>,
    places: Seq<int>,
    other: Seq<T::V>,
    others: Seq<int>,
    k: int,
)
    requires
        sorts::<T>(input, output, places),
        sorts::<T>(input, other, others),
        0 <= k <= input.len(),
    ensures
        forall|j: int| 0 <= j < k ==> #[trigger] places[j] == others[j],
    decreases k,
{
    if k > 0 {
        let i = k - 1;
        lemma_same_places::<T>(input, output, places, other, others, i);
        if places[i] != others[i] {
            lemma_all_places::<T>(input, other, others, places[i]);
            let m = choose|m: int| 0 <= m < other.len() && #[trigger] others[m] == places[i];
            lemma_all_places::<T>(input, output, places, others[i]);
            let n = choose|n: int| 0 <= n < output.len() && #[trigger] places[n] == others[i];
            if m < i {
                assert(places[m] == others[m]);
            }
            if n < i {
                assert(places[n] == others[n]);
            }
            assert(m > i && n > i);
            assert(T::ranks(other[i], other[m]));
            assert(T::ranks(output[i], output[n]));
            assert(output[i] == other[m] && output[n] == other[i]);
            assert(others[i] < others[m]);
            assert(places[i] < places[n]);
        }
    }
}

/// The order is fixed: there is one way to sort values.
pub proof fn law_sorting_is_determined<T: Ranked>(
    input: Seq<T::V>,
    output: Seq<T::V>,
    other: Seq<T::V>,
)
    requires
        stably_sorted::<T>(input, output),
        stably_sorted::<T>(input, other),
    ensures
        output == other,
{
    let places = choose|places: Seq<int>| sorts::<T>(input, output, places);
    let others = choose|places: Seq<int>| sorts::<T>(input, other, places);
    lemma_same_places::<T>(input, output, places, other, others, input.len() as int);
    assert forall|i: int| 0 <= i < output.len() implies output[i] == other[i] by {
        assert(places[i] == others[i]);
    }
    assert(output =~= other);
}

/// Agents are listed by role and, within a role, by name; those without a role come first.
pub proof fn law_agents_by_role(input: Seq<AgentView>, output: Seq<AgentView>, i: int, j: int)
    requires
        stably_sorted::<Agent>(input, output),
        0 <= i < j < output.len(),
    ensures
        output[i].role is None || (output[j].role is Some && ordered(
            output[i].role->0,
            output[j].role->0,
        )),
        output[i].role == output[j].role ==> ordered(output[i].display_name, output[j].display_name),
{
    let places = choose|places: Seq<int>| sorts::<Agent>(input, output, places);
    assert(places[i] != places[j]);
    if output[i].role == output[j].role && output[i].role is Some {
        lemma_ordered_total(output[i].role->0, output[j].role->0);
    }
}

/// Maps of the ranked pool are listed before the others, and both by name.
pub proof fn law_ranked_maps_first(input: Seq<MapView>, output: Seq<MapView>, i: int, j: int)
    requires
        stably_sorted::<GameMap>(input, output),
        0 <= i < j < output.len(),
    ensures
        output[j].in_ranked_pool ==> output[i].in_ranked_pool,
        output[i].in_ranked_pool == output[j].in_ranked_pool ==> ordered(
            output[i].display_name,
            output[j].display_name,
        ),
{
    let places = choose|places: Seq<int>| sorts::<GameMap>(input, output, places);
    assert(places[i] != places[j]);
}

/// A name is in the ranked pool if and only if a map with that name in lower case is not rotated
/// out.
pub proof fn law_pool(maps: Seq<RotationMap>, name: Seq<char>)
    ensures
        pool(maps).contains(name) <==> exists|i: int|
            0 <= i < maps.len() && lower((#[trigger] maps[i]).name_en@) == name
                && !same_ignoring_case(maps[i].status@, "rotated_out"@),
    decreases maps.len(),
{
    if maps.len() > 0 {
        let front = maps.drop_last();
        law_pool(front, name);
        let n = maps.len() - 1;
        if pool(front).contains(name) {
            let i = choose|i: int|
                0 <= i < front.len() && lower((#[trigger] front[i]).name_en@) == name
                    && !same_ignoring_case(front[i].status@, "rotated_out"@);
            assert(maps[i] == front[i]);
        }
        assert(maps[n] == maps.last());
        if exists|i: int|
            0 <= i < maps.len() && lower((#[trigger] maps[i]).name_en@) == name
                && !same_ignoring_case(maps[i].status@, "rotated_out"@) {
            let i = choose|i: int|
                0 <= i < maps.len() && lower((#[trigger] maps[i]).name_en@) == name
                    && !same_ignoring_case(maps[i].status@, "rotated_out"@);
            if i < n {
                assert(front[i] == maps[i]);
            }
        }
    }
}

/// The maps on show are exactly those of the public data that lobbies are played on.
pub proof fn law_shown_maps(data: Seq<ApiMap>, ranked: Set<Seq<char>>, map: MapView)
    ensures
        shown_maps(data, ranked).contains(map) <==> exists|i: int|
            0 <= i < data.len() && playable(#[trigger] data[i]) && shown_map(data[i], ranked)
                == map,
    decreases data.len(),
{
    if data.len() > 0 {
        let front = data.drop_last();
        let earlier = shown_maps(front, ranked);
        let all = shown_maps(data, ranked);
        let n = data.len() - 1;
        law_shown_maps(front, ranked, map);
        assert(data[n] == data.last());
        if all.contains(map) {
            let k = choose|k: int| 0 <= k < all.len() && all[k] == map;
            if k < earlier.len() {
                assert(earlier[k] == map);
                let i = choose|i: int|
                    0 <= i < front.len() && playable(#[trigger] front[i]) && shown_map(
                        front[i],
                        ranked,
                    ) == map;
                assert(data[i] == front[i]);
            }
        }
        if exists|i: int|
            0 <= i < data.len() && playable(#[trigger] data[i]) && shown_map(data[i], ranked)
                == map {
            let i = choose|i: int|
                0 <= i < data.len() && playable(#[trigger] data[i]) && shown_map(data[i], ranked)
                    == map;
            if i < n {
                assert(front[i] == data[i]);
                let k = choose|k: int| 0 <= k < earlier.len() && earlier[k] == map;
                assert(all[k] == map);
            } else {
                assert(all[earlier.len() as int] == map);
            }
        }
    }
}

proof fn lemma_first_assigned(entries: Seq<(Seq<char>, Seq<char>)>, map_id: Seq<char>)
    ensures
        match first_assigned(entries, map_id) {
            Some(agent) => exists|i: int|
                0 <= i < entries.len() && same_ignoring_case((#[trigger] entries[i]).0, map_id)
                    && entries[i].1 == agent,
            None => forall|i: int|
                0 <= i < entries.len() ==> !same_ignoring_case((#[trigger] entries[i]).0, map_id),
        },
    decreases entries.len(),
{
    if entries.len() > 0 && !same_ignoring_case(entries[0].0, map_id) {
        let rest = entries.skip(1);
        lemma_first_assigned(rest, map_id);
        if first_assigned(rest, map_id) is Some {
            let i = choose|i: int|
                0 <= i < rest.len() && same_ignoring_case((#[trigger] rest[i]).0, map_id)
                    && rest[i].1 == first_assigned(rest, map_id)->0;
            assert(entries[i + 1] == rest[i]);
        } else {
            assert forall|i: int| 0 <= i < entries.len() implies !same_ignoring_case(
                (#[trigger] entries[i]).0,
                map_id,
            ) by {
                if i > 0 {
                    assert(entries[i] == rest[i - 1]);
                }
            }
        }
    }
}

/// An agent that was assigned to a map is the one for this map, in whatever case its address is
/// written, if no other map has an address that differs from it only in case. If one has, some
/// agent is still assigned.
pub proof fn law_assigned_agent_is_found(
    before: Seq<(Seq<char>, Seq<char>)>,
    after: Seq<(Seq<char>, Seq<char>)>,
    map_url: Seq<char>,
    agent: Seq<char>,
    map_id: Seq<char>,
)
    requires
        assigned_in(before, after, map_url, agent),
        ascending(after),
        same_ignoring_case(map_id, map_url),
    ensures
        first_assigned(after, map_id) is Some,
        (forall|i: int|
            0 <= i < before.len() && same_ignoring_case((#[trigger] before[i]).0, map_url)
                ==> before[i].0 == map_url) ==> first_assigned(after, map_id) == Some(agent),
{
    lemma_first_assigned(after, map_id);
    let k = if exists|i: int|
        0 <= i < before.len() && before[i].0 == map_url && after == #[trigger] before.update(
            i,
            (map_url, agent),
        ) {
        choose|i: int|
            0 <= i < before.len() && before[i].0 == map_url && after == #[trigger] before.update(
                i,
                (map_url, agent),
            )
    } else {
        choose|i: int|
            0 <= i <= before.len() && after == #[trigger] before.insert(i, (map_url, agent))
    };
    assert(after[k] == (map_url, agent));
    if forall|i: int|
        0 <= i < before.len() && same_ignoring_case((#[trigger] before[i]).0, map_url)
            ==> before[i].0 == map_url {
        let i = choose|i: int|
            0 <= i < after.len() && same_ignoring_case((#[trigger] after[i]).0, map_id)
                && after[i].1 == first_assigned(after, map_id)->0;
        if i != k {
            let old_place = if after.len() == before.len() || i < k {
                i
            } else {
                i - 1
            };
            assert(after[i] == before[old_place]);
            assert(same_ignoring_case(before[old_place].0, map_url));
            assert(after[i].0 == after[k].0);
            if i < k {
                assert(ordered(after[i].0, after[k].0));
            } else {
                assert(ordered(after[k].0, after[i].0));
            }
        }
    }
}

proof fn lemma_first_unaffected(
    entries: Seq<(Seq<char>, Seq<char>)>,
    entry: (Seq<char>, Seq<char>),
    k: int,
    map_id: Seq<char>,
)
    requires
        !same_ignoring_case(entry.0, map_id),
    ensures
        0 <= k <= entries.len() ==> first_assigned(entries.insert(k, entry), map_id)
            == first_assigned(entries, map_id),
        0 <= k < entries.len() && !same_ignoring_case(entries[k].0, map_id) ==> first_assigned(
            entries.update(k, entry),
            map_id,
        ) == first_assigned(entries, map_id),
    decreases entries.len(),
{
    if 0 <= k <= entries.len() {
        let inserted = entries.insert(k, entry);
        if k == 0 {
            assert(inserted.skip(1) =~= entries);
        } else {
            lemma_first_unaffected(entries.skip(1), entry, k - 1, map_id);
            assert(inserted[0] == entries[0]);
            assert(inserted.skip(1) =~= entries.skip(1).insert(k - 1, entry));
        }
    }
    if 0 <= k < entries.len() && !same_ignoring_case(entries[k].0, map_id) {
        let updated = entries.update(k, entry);
        if k == 0 {
            assert(updated.skip(1) =~= entries.skip(1));
        } else {
            lemma_first_unaffected(entries.skip(1), entry, k - 1, map_id);
            assert(entries.skip(1)[k - 1] == entries[k]);
            assert(updated[0] == entries[0]);
            assert(updated.skip(1) =~= entries.skip(1).update(k - 1, entry));
        }
    }
}

/// Assigning an agent to a map changes nothing for maps whose address differs in more than case.
pub proof fn law_other_maps_keep_agents(
    before: Seq<(Seq<char>, Seq<char>)>,
    after: Seq<(Seq<char>, Seq<char>)>,
    map_url: Seq<char>,
    agent: Seq<char>,
    map_id: Seq<char>,
)
    requires
        assigned_in(before, after, map_url, agent),
        !same_ignoring_case(map_id, map_url),
    ensures
        first_assigned(after, map_id) == first_assigned(before, map_id),
{
    let entry = (map_url, agent);
    if exists|i: int|
        0 <= i < before.len() && before[i].0 == map_url && after == #[trigger] before.update(
            i,
            entry,
        ) {
        let i = choose|i: int|
            0 <= i < before.len() && before[i].0 == map_url && after == #[trigger] before.update(
                i,
                entry,
            );
        lemma_first_unaffected(before, entry, i, map_id);
    } else {
        let i = choose|i: int|
            0 <= i <= before.len() && after == #[trigger] before.insert(i, entry);
        lemma_first_unaffected(before, entry, i, map_id);
    }
}

/// Sorting puts every value behind those that rank before it, and leaves values of the same rank in
/// the order that they had: the values come from different places of the input, those of the same
/// rank from ascending ones.
pub proof fn law_sorting_is_stable<T: Ranked>(input: Seq<T::V>, output: Seq<T::V>)
    requires
        stably_sorted::<T>(input, output),
    ensures
        exists|places: Seq<int>|
            places.len() == output.len() && (forall|k: int|
                0 <= k < output.len() ==> 0 <= #[trigger] places[k] < input.len() && output[k]
                    == input[places[k]]) && (forall|i: int, j: int|
                0 <= i < j < output.len() ==> #[trigger] places[i] != #[trigger] places[j]
                    && T::ranks(output[i], output[j]) && (T::ranks(output[j], output[i])
                    ==> places[i] < places[j])),
{
    let places = choose|places: Seq<int>| sorts::<T>(input, output, places);
    assert(places.len() == output.len());
}

/// An agent ranks before another or the same exactly if it has no role and the other has one, if its
/// role comes first, or if both have the same role, or none, and its name comes first or is the same.
/// Nothing else of an agent counts.
pub proof fn law_agent_ranks(a: AgentView, b: AgentView)
    ensures
        <Agent as Ranked>::ranks(a, b) <==> (a.role is None && b.role is Some) || (a.role is Some
            && b.role is Some && a.role->0 != b.role->0 && ordered(a.role->0, b.role->0)) || (a.role
            == b.role && ordered(a.display_name, b.display_name)),
{
}

/// A map ranks before another or the same exactly if only it is in the ranked pool, or if both are or
/// neither is and its name comes first or is the same. Nothing else of a map counts.
pub proof fn law_map_ranks(a: MapView, b: MapView)
    ensures
        <GameMap as Ranked>::ranks(a, b) <==> (a.in_ranked_pool && !b.in_ranked_pool) || (
        a.in_ranked_pool == b.in_ranked_pool && ordered(a.display_name, b.display_name)),
{
}

/// Lobbies are played on a map exactly if its address says something and its description names two
/// or three bomb sites.
pub proof fn law_playable(map: ApiMap)
    ensures
        playable(map) <==> says_something(map.map_url@) && map.tactical_description is Some && (
        map.tactical_description->0@ == "A/B Sites"@ || map.tactical_description->0@
            == "A/B/C Sites"@),
{
    law_blank(map.map_url@);
}

/// A description names bomb sites exactly if it is one of the two that do.
pub proof fn law_bomb_sites(description: Option<Seq<char>>)
    ensures
        has_bomb_sites(description) <==> description is Some && (description->0 == "A/B Sites"@
            || description->0 == "A/B/C Sites"@),
{
}

/// A map on show is as the public data describe it, and counts as ranked exactly if its name in lower
/// case is in the pool.
pub proof fn law_shown_map(map: ApiMap, ranked: Set<Seq<char>>)
    ensures
        ({
            let shown = shown_map(map, ranked);
            &&& shown.uuid == map.uuid@
            &&& shown.display_name == map.display_name@
            &&& shown.display_icon == map.display_icon.deep_view()
            &&& shown.list_view_icon == map.list_view_icon.deep_view()
            &&& shown.splash == map.splash.deep_view()
            &&& shown.map_url == map.map_url@
            &&& shown.in_ranked_pool <==> ranked.contains(lower(map.display_name@))
        }),
{
}

/// The maps on show stand in the order of the public data, each as often as there: one more map is
/// added at the end exactly if lobbies are played on it.
pub proof fn law_shown_maps_in_order(data: Seq<ApiMap>, map: ApiMap, ranked: Set<Seq<char>>)
    ensures
        shown_maps(Seq::empty(), ranked) == Seq::<MapView>::empty(),
        shown_maps(data.push(map), ranked) == if playable(map) {
            shown_maps(data, ranked).push(shown_map(map, ranked))
        } else {
            shown_maps(data, ranked)
        },
{
    assert(data.push(map).drop_last() =~= data);
}

/// Assignments are in order exactly if each map comes before all that follow it and is none of them.
pub proof fn law_ascending(entries: Seq<(Seq<char>, Seq<char>)>, i: int, j: int)
    requires
        ascending(entries),
        0 <= i < j < entries.len(),
    ensures
        ordered(entries[i].0, entries[j].0),
        entries[i].0 != entries[j].0,
{
    assert(ordered(entries[i].0, entries[j].0));
}

/// Assigning an agent to a map leaves exactly this assignment for the map, and those of all other
/// maps as they were.
pub proof fn law_assignment_replaces(
    before: Seq<(Seq<char>, Seq<char>)>,
    after: Seq<(Seq<char>, Seq<char>)>,
    map_url: Seq<char>,
    agent: Seq<char>,
    entry: (Seq<char>, Seq<char>),
)
    requires
        ascending(before),
        assigned_in(before, after, map_url, agent),
    ensures
        after.contains(entry) <==> entry == (map_url, agent) || (before.contains(entry) && entry.0
            != map_url),
        after.len() == before.len() || after.len() == before.len() + 1,
{
    let added = (map_url, agent);
    if exists|i: int|
        0 <= i < before.len() && before[i].0 == map_url && after == #[trigger] before.update(
            i,
            added,
        ) {
        let i = choose|i: int|
            0 <= i < before.len() && before[i].0 == map_url && after == #[trigger] before.update(
                i,
                added,
            );
        assert(after[i] == added);
        if after.contains(entry) && entry != added {
            let k = choose|k: int| 0 <= k < after.len() && after[k] == entry;
            assert(before[k] == entry);
            if k < i {
                law_ascending(before, k, i);
            } else {
                law_ascending(before, i, k);
            }
        }
        if before.contains(entry) && entry.0 != map_url {
            let k = choose|k: int| 0 <= k < before.len() && before[k] == entry;
            assert(after[k] == entry);
        }
    } else {
        let i = choose|i: int|
            0 <= i <= before.len() && after == #[trigger] before.insert(i, added);
        assert(after[i] == added);
        if after.contains(entry) && entry != added {
            let k = choose|k: int| 0 <= k < after.len() && after[k] == entry;
            let old_place = if k < i {
                k
            } else {
                k - 1
            };
            assert(before[old_place] == entry);
        }
        if before.contains(entry) && entry.0 != map_url {
            let k = choose|k: int| 0 <= k < before.len() && before[k] == entry;
            let new_place = if k < i {
                k
            } else {
                k + 1
            };
            assert(after[new_place] == entry);
        }
    }
}

} // verus!
