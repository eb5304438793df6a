//! The maps of the game, and which of them are in the ranked pool.
use vstd::prelude::*;

use crate::app::{map_views, push_event_at, GameMap, InnerState, InnerView, MapView};
use crate::sorting::{sort, stably_sorted, views, Ranked};
use crate::text::{at_most, eq_ignore_ascii_case, lemma_ordered_total, lemma_ordered_transitive, lower, ordered, same, same_ignoring_case, to_ascii_lowercase, trim, trimmed};

verus! {

/// A map as the public data describe it.
pub struct ApiMap {
    pub uuid: String,
    pub display_name: String,
    pub display_icon: Option<String>,
    pub list_view_icon: Option<String>,
    pub splash: Option<String>,
    pub map_url: String,
    pub tactical_description: Option<String>,
}

/// A map in the rotation of the ranked pool.
pub struct RotationMap {
    pub name_en: String,
    pub status: String,
}

/// Names, none of them twice.
pub struct NameSet {
    names: Vec<String>,
}

impl NameSet {
    #[verifier::type_invariant]
    spec fn well_formed(self) -> bool {
        self.names.deep_view().no_duplicates()
    }

    /// The names in the set.
    pub closed spec fn members(self) -> Set<Seq<char>> {
        self.names.deep_view().to_set()
    }

    /// No names.
    pub fn new() -> (r: NameSet)
        ensures
            r@ == Set::<Seq<char>>::empty(),
    {
        let names: Vec<String> = Vec::new();
        assert(names.deep_view() =~= Seq::<Seq<char>>::empty());
        let r = NameSet { names };
        assert(r@ =~= Set::<Seq<char>>::empty());
        r
    }

    /// Whether a name is in the set.
    pub fn contains(&self, name: &str) -> (r: bool)
        ensures
            r == self@.contains(name@),
    {
        for i in 0..self.names.len()
            invariant
                forall|j: int| 0 <= j < i ==> #[trigger] self.names.deep_view()[j] != name@,
        {
            assert(self.names.deep_view()[i as int] == self.names@[i as int]@);
            if same(self.names[i].as_str(), name) {
                assert(self.names.deep_view().contains(name@));
                return true;
            }
        }
        false
    }

    /// Puts a name in the set.
    pub fn insert(&mut self, name: String)
        ensures
            final(self)@ == old(self)@.insert(name@),
    {
        if !self.contains(name.as_str()) {
            proof {
                use_type_invariant(&*self);
            }
            let ghost before = self.names.deep_view();
            let ghost added = name@;
            let mut names: Vec<String> = Vec::new();
            assert(names.deep_view() =~= Seq::<Seq<char>>::empty());
            std::mem::swap(&mut names, &mut self.names);
            names.push(name);
            assert(names.deep_view() =~= before.push(added));
            assert(before.push(added).to_set() =~= before.to_set().insert(added)) by {
                assert(before.push(added)[before.len() as int] == added);
                assert forall|n: Seq<char>| before.to_set().insert(added).contains(
                    n,
                ) implies before.push(added).contains(n) by {
                    if n != added {
                        let i = choose|i: int| 0 <= i < before.len() && before[i] == n;
                        assert(before.push(added)[i] == n);
                    }
                }
            }
            self.names = names;
        } else {
            assert(self@.insert(name@) =~= self@);
        }
    }
}

impl View for NameSet {
    type V = Set<Seq<char>>;

    open spec fn view(&self) -> Set<Seq<char>> {
        self.members()
    }
}

/// Whether a map's description says that it is played with bomb sites.
pub open spec fn has_bomb_sites(description: Option<Seq<char>>) -> bool {
    description == Some("A/B Sites"@) || description == Some("A/B/C Sites"@)
}

/// Whether a map's description says that it is played with bomb sites.
pub fn is_bomb_site_map(tactical_description: &Option<String>) -> (r: bool)
    ensures
        r == has_bomb_sites(tactical_description.deep_view()),
{
    match tactical_description {
        Some(description) => same(description.as_str(), "A/B Sites") || same(
            description.as_str(),
            "A/B/C Sites",
        ),
        None => false,
    }
}

/// The names of the maps in the ranked pool, in lower case: all that are not rotated out.
pub open spec fn pool(maps: Seq<RotationMap>) -> Set<Seq<char>>
    decreases maps.len(),
{
    if maps.len() == 0 {
        Set::empty()
    } else {
        let earlier = pool(maps.drop_last());
        if same_ignoring_case(maps.last().status@, "rotated_out"@) {
            earlier
        } else {
            earlier.insert(lower(maps.last().name_en@))
        }
    }
}

/// The names of the maps in the ranked pool, in lower case: all that are not rotated out.
pub fn ranked_pool_names(maps: Vec<RotationMap>) -> (r: NameSet)
    ensures
        r@ == pool(maps@),
{
    let mut r = NameSet::new();
    for i in 0..maps.len()
        invariant
            r@ == pool(maps@.take(i as int)),
    {
        assert(maps@.take(i + 1).drop_last() == maps@.take(i as int));
        if !eq_ignore_ascii_case(maps[i].status.as_str(), "rotated_out") {
            r.insert(to_ascii_lowercase(maps[i].name_en.as_str()));
        }
    }
    assert(maps@.take(maps.len() as int) == maps@);
    r
}

/// A map of the public data as the dashboard shows it.
pub open spec fn shown_map(map: ApiMap, ranked: Set<Seq<char>>) -> MapView {
    MapView {
        uuid: map.uuid@,
        display_name: map.display_name@,
        display_icon: map.display_icon.deep_view(),
        list_view_icon: map.list_view_icon.deep_view(),
        splash: map.splash.deep_view(),
        map_url: map.map_url@,
        in_ranked_pool: ranked.contains(lower(map.display_name@)),
    }
}

/// Whether a map of the public data is one that lobbies are played on.
pub open spec fn playable(map: ApiMap) -> bool {
    trimmed(map.map_url@).len() > 0 && has_bomb_sites(map.tactical_description.deep_view())
}

/// The maps of the public data that lobbies are played on, as the dashboard shows them.
pub open spec fn shown_maps(data: Seq<ApiMap>, ranked: Set<Seq<char>>) -> Seq<MapView>
    decreases data.len(),
{
    if data.len() == 0 {
        seq![]
    } else {
        let earlier = shown_maps(data.drop_last(), ranked);
        if playable(data.last()) {
            earlier.push(shown_map(data.last(), ranked))
        } else {
            earlier
        }
    }
}

/// Whether a map stands before another or ranks the same: those in the ranked pool first, then by
/// name.
pub open spec fn map_ordered(a: MapView, b: MapView) -> bool {
    if a.in_ranked_pool == b.in_ranked_pool {
        ordered(a.display_name, b.display_name)
    } else {
        a.in_ranked_pool
    }
}

impl Ranked for GameMap {
    open spec fn ranks(a: MapView, b: MapView) -> bool {
        map_ordered(a, b)
    }

    proof fn ranks_total(a: MapView, b: MapView) {
        lemma_ordered_total(a.display_name, b.display_name);
    }

    proof fn ranks_transitive(a: MapView, b: MapView, c: MapView) {
        if a.in_ranked_pool == b.in_ranked_pool && b.in_ranked_pool == c.in_ranked_pool {
            lemma_ordered_transitive(a.display_name, b.display_name, c.display_name);
        }
    }

    fn stands_before(&self, other: &GameMap) -> (r: bool) {
        if self.in_ranked_pool == other.in_ranked_pool {
            at_most(self.display_name.as_str(), other.display_name.as_str())
        } else {
            self.in_ranked_pool
        }
    }
}

/// The maps of the public data that lobbies are played on, none of them marked as ranked.
pub fn fetch_valorant_api_maps(data: Vec<ApiMap>) -> (r: Vec<GameMap>)
    ensures
        map_views(r@) == shown_maps(data@, Set::empty()),
{
    let ghost all = data@;
    let mut rest = data;
    let mut r: Vec<GameMap> = Vec::new();
    let ghost mut taken: int = 0;
    assert(all.skip(0) =~= all);
    assert(map_views(r@) =~= Seq::<MapView>::empty());
    while rest.len() > 0
        invariant
            0 <= taken <= all.len(),
            rest@ == all.skip(taken),
            map_views(r@) == shown_maps(all.take(taken), Set::empty()),
        decreases rest.len(),
    {
        let ghost before = map_views(r@);
        assert(all.skip(taken)[0] == all[taken]);
        assert(all.take(taken + 1).drop_last() =~= all.take(taken));
        let map = rest.remove(0);
        assert(rest@ =~= all.skip(taken + 1));
        if !trim(map.map_url.as_str()).is_empty() && is_bomb_site_map(&map.tactical_description) {
            let shown = GameMap {
                uuid: map.uuid,
                display_name: map.display_name,
                display_icon: map.display_icon,
                list_view_icon: map.list_view_icon,
                splash: map.splash,
                map_url: map.map_url,
                in_ranked_pool: false,
            };
            assert(shown@ == shown_map(map, Set::empty()));
            let ghost added = shown@;
            r.push(shown);
            assert(map_views(r@) =~= before.push(added));
        }
        proof {
            taken = taken + 1;
        }
    }
    assert(all.take(taken) =~= all);
    r
}

/// Maps with their marks set by the names in the ranked pool.
pub open spec fn marked(maps: Seq<MapView>, ranked: Set<Seq<char>>) -> Seq<MapView> {
    Seq::new(
        maps.len(),
        |i: int|
            MapView { in_ranked_pool: ranked.contains(lower(maps[i].display_name)), ..maps[i] },
    )
}

proof fn lemma_marked(data: Seq<ApiMap>, ranked: Set<Seq<char>>)
    ensures
        marked(shown_maps(data, Set::empty()), ranked) == shown_maps(data, ranked),
    decreases data.len(),
{
    if data.len() > 0 {
        lemma_marked(data.drop_last(), ranked);
        let earlier = shown_maps(data.drop_last(), Set::empty());
        if playable(data.last()) {
            let last = shown_map(data.last(), Set::empty());
            assert(marked(earlier.push(last), ranked) =~= marked(earlier, ranked).push(
                shown_map(data.last(), ranked),
            ));
        }
    } else {
        assert(marked(shown_maps(data, Set::empty()), ranked) =~= shown_maps(data, ranked));
    }
}

/// The maps that lobbies are played on: those in the ranked pool first, then by name. If the
/// rotation is not known, no map counts as ranked.
pub fn fetch_maps(data: Vec<ApiMap>, rotation: Option<Vec<RotationMap>>) -> (r: Vec<GameMap>)
    ensures
        stably_sorted::<GameMap>(
            shown_maps(
                data@,
                match rotation {
                    Some(rotation) => pool(rotation@),
                    None => Set::empty(),
                },
            ),
            map_views(r@),
        ),
{
    let ghost all = data@;
    let ranked = match rotation {
        Some(rotation) => ranked_pool_names(rotation),
        None => NameSet::new(),
    };
    let mut maps = fetch_valorant_api_maps(data);
    let ghost unmarked = map_views(maps@);
    let ghost wanted = marked(unmarked, ranked@);
    let count: usize = maps.len();
    for i in 0..count
        invariant
            count == maps.len(),
            unmarked.len() == maps.len(),
            wanted == marked(unmarked, ranked@),
            forall|j: int| 0 <= j < i ==> (#[trigger] maps@[j])@ == wanted[j],
            forall|j: int| i <= j < maps.len() ==> (#[trigger] maps@[j])@ == unmarked[j],
    {
        let ghost before = maps@;
        let in_pool = ranked.contains(to_ascii_lowercase(maps[i].display_name.as_str()).as_str());
        assert(maps@[i as int]@ == unmarked[i as int]);
        maps[i].in_ranked_pool = in_pool;
        assert(maps@[i as int]@ =~= wanted[i as int]);
        assert(forall|j: int| 0 <= j < maps.len() && j != i ==> maps@[j] == before[j]);
    }
    assert(map_views(maps@) =~= wanted);
    proof {
        lemma_marked(all, ranked@);
    }
    assert(views(maps@) =~= wanted);
    let r = sort(maps);
    assert(map_views(r@) =~= views(r@));
    r
}

impl InnerView {
    /// The state after the fetch of the maps: they are there, or the log says why not.
    pub open spec fn maps_fetched(self, ts: u64, outcome: Result<Vec<GameMap>, String>) -> InnerView {
        match outcome {
            Ok(maps) => InnerView { maps: map_views(maps@), ..self },
            Err(error) => self.with_event(ts, "error"@, "Map data load failed: "@ + error@),
        }
    }
}

/// Takes in what came of the fetch of the maps.
pub fn load_public_maps(inner: &mut InnerState, ts: u64, outcome: Result<Vec<GameMap>, String>)
    ensures
        final(inner)@ == old(inner)@.maps_fetched(ts, outcome),
{
    match outcome {
        Ok(maps) => {
            inner.maps = maps;
        },
        Err(error) => {
            let event = "Map data load failed: ".to_string().concat(error.as_str());
            push_event_at(inner, ts, "error", event.as_str());
        },
    }
}

} // verus!
