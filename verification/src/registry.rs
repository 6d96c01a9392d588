//! The hero registry: identifier allocation, insertion, lookup and enumeration.

use crate::hero::{Hero, HeroView, NewHero, NewHeroView, ID};
use crate::step::{increment, successor};
use std::collections::HashMap;
use vstd::prelude::*;
use vstd::std_specs::iter::IteratorSpec;

verus! {

broadcast use vstd::std_specs::hash::group_hash_axioms;

/// The identifier of the first hero of a registry made by default.
pub const FIRST_ID: ID = 1;

/// Mathematical value of a [`HeroRegistry`]: the identifier that the next
/// creation hands out, and the stored heroes by identifier.
pub struct RegistryView {
    pub next_id: ID,
    pub heroes: Map<ID, HeroView>,
}

impl RegistryView {
    /// A registry without heroes whose first creation hands out `first_id`.
    pub open spec fn empty(first_id: ID) -> RegistryView {
        RegistryView { next_id: first_id, heroes: Map::empty() }
    }

    /// Every stored hero is filed under its own identifier, and there are
    /// finitely many of them.
    pub open spec fn wf(self) -> bool {
        &&& self.heroes.dom().finite()
        &&& forall|id: ID| #[trigger]
            self.heroes.contains_key(id) ==> self.heroes[id].id == id
    }

    /// The hero that creating `new_hero` returns.
    pub open spec fn created_hero(self, new_hero: NewHeroView) -> HeroView {
        HeroView { id: self.next_id, name: new_hero.name, can_fly: new_hero.can_fly }
    }

    /// The registry after creating `new_hero`.
    pub open spec fn after_create(self, new_hero: NewHeroView) -> RegistryView {
        RegistryView {
            next_id: successor(self.next_id),
            heroes: self.heroes.insert(self.next_id, self.created_hero(new_hero)),
        }
    }

    /// The hero stored under `id`, if there is one.
    pub open spec fn lookup(self, id: ID) -> Option<HeroView> {
        if self.heroes.contains_key(id) {
            Some(self.heroes[id])
        } else {
            None
        }
    }

    /// Whether `listing` enumerates the stored heroes: each of them once, in
    /// any order.
    pub open spec fn is_listing(self, listing: Seq<HeroView>) -> bool {
        &&& listing.no_duplicates()
        &&& listing.to_set() == self.heroes.values()
    }
}

/// The mathematical values of a sequence of heroes, in the same order.
pub open spec fn hero_views(heroes: Seq<Hero>) -> Seq<HeroView> {
    heroes.map_values(|hero: Hero| hero@)
}

/// The in-memory store of heroes together with its identifier allocator.
pub struct HeroRegistry {
    next_id: ID,
    heroes: HashMap<ID, Hero>,
}

impl View for HeroRegistry {
    type V = RegistryView;

    closed spec fn view(&self) -> RegistryView {
        RegistryView {
            next_id: self.next_id,
            heroes: self.heroes@.map_values(|hero: Hero| hero@),
        }
    }
}

impl HeroRegistry {
    #[verifier::type_invariant]
    spec fn keyed_by_id(self) -> bool {
        forall|id: ID| #[trigger] self.heroes@.contains_key(id) ==> self.heroes@[id].id == id
    }

    /// A registry that files each hero under its own identifier has a well
    /// formed value.
    proof fn lemma_view_wf(self)
        requires
            self.keyed_by_id(),
        ensures
            self@.wf(),
    {
        assert(self@.heroes.dom() =~= self.heroes@.dom());
    }

    /// An empty registry whose first hero gets the identifier `first_id`.
    pub fn new(first_id: ID) -> (registry: HeroRegistry)
        ensures
            registry@ == RegistryView::empty(first_id),
            registry@.wf(),
    {
        let registry = HeroRegistry { next_id: first_id, heroes: HashMap::new() };
        assert(registry@.heroes =~= Map::<ID, HeroView>::empty());
        registry
    }

    /// Stores a new hero under the next identifier and returns a copy of it.
    pub fn create(&mut self, new_hero: NewHero) -> (hero: Hero)
        ensures
            hero@ == old(self)@.created_hero(new_hero@),
            final(self)@ == old(self)@.after_create(new_hero@),
            final(self)@.wf(),
    {
        proof {
            use_type_invariant(&*self);
        }
        let id = self.next_id;
        let hero = Hero::from_new(id, new_hero);
        let copy = hero.clone();
        let mut heroes = HashMap::new();
        std::mem::swap(&mut heroes, &mut self.heroes);
        heroes.insert(id, hero);
        self.next_id = increment(id);
        self.heroes = heroes;
        proof {
            assert(self@.heroes =~= old(self)@.after_create(new_hero@).heroes);
            self.lemma_view_wf();
        }
        copy
    }

    /// A copy of the hero stored under `id`, or `None` where there is none.
    pub fn get(&self, id: ID) -> (found: Option<Hero>)
        ensures
            self@.wf(),
            match found {
                Some(hero) => self@.lookup(id) == Some(hero@),
                None => self@.lookup(id) is None,
            },
    {
        proof {
            use_type_invariant(self);
            self.lemma_view_wf();
        }
        match self.heroes.get(&id) {
            Some(hero) => Some(hero.clone()),
            None => None,
        }
    }

    /// Copies of all stored heroes, each once, in no particular order.
    pub fn list_all(&self) -> (all: Vec<Hero>)
        ensures
            self@.wf(),
            self@.is_listing(hero_views(all@)),
            all@.len() == self@.heroes.len(),
    {
        proof {
            use_type_invariant(self);
        }
        let ghost stored = self.heroes.values().remaining();
        let mut all: Vec<Hero> = Vec::new();
        for hero in it: self.heroes.values()
            invariant
                it.seq() == stored,
                all@.len() == it.index(),
                forall|i: int| 0 <= i < all@.len() ==> all@[i]@ == (#[trigger] stored[i])@,
        {
            all.push(hero.clone());
        }
        proof {
            lemma_values_listing(self.heroes@, stored.unref(), hero_views(all@));
            self.lemma_view_wf();
        }
        all
    }
}

/// A listing and lookups agree: each listed hero is found under its
/// identifier, and each hero that a lookup finds is listed.
pub proof fn lemma_listing_agrees_with_lookup(registry: RegistryView, listing: Seq<HeroView>)
    requires
        registry.wf(),
        registry.is_listing(listing),
    ensures
        forall|i: int|
            0 <= i < listing.len() ==> registry.lookup((#[trigger] listing[i]).id) == Some(
                listing[i],
            ),
        forall|id: ID| #[trigger]
            registry.heroes.contains_key(id) ==> listing.contains(registry.heroes[id]),
{
    assert forall|i: int| 0 <= i < listing.len() implies registry.lookup(
        (#[trigger] listing[i]).id,
    ) == Some(listing[i]) by {
        assert(listing.to_set().contains(listing[i]));
        let id = choose|id: ID|
            registry.heroes.contains_key(id) && registry.heroes[id] == listing[i];
        assert(registry.heroes[id].id == id);
    }
    assert forall|id: ID| #[trigger] registry.heroes.contains_key(id) implies listing.contains(
        registry.heroes[id],
    ) by {
        assert(registry.heroes.values().contains(registry.heroes[id]));
        assert(listing.to_set().contains(registry.heroes[id]));
    }
}

impl Default for HeroRegistry {
    /// An empty registry whose first hero gets the identifier [`FIRST_ID`].
    fn default() -> (registry: HeroRegistry)
        ensures
            registry@ == RegistryView::empty(FIRST_ID),
            registry@.wf(),
    {
        HeroRegistry::new(FIRST_ID)
    }
}

/// A sequence that holds the values of a map keyed by identifier, and has as
/// many items as the map has keys, lists each stored hero once.
proof fn lemma_values_listing(stored: Map<ID, Hero>, values: Seq<Hero>, listing: Seq<HeroView>)
    requires
        stored.dom().finite(),
        forall|id: ID| #[trigger] stored.contains_key(id) ==> stored[id].id == id,
        values.to_set() == stored.values(),
        values.len() == stored.dom().len(),
        listing.len() == values.len(),
        forall|i: int| 0 <= i < listing.len() ==> #[trigger] listing[i] == values[i]@,
    ensures
        listing.no_duplicates(),
        listing.to_set() == stored.map_values(|hero: Hero| hero@).values(),
        listing.len() == stored.map_values(|hero: Hero| hero@).len(),
{
    let views = stored.map_values(|hero: Hero| hero@);
    assert(views.dom() =~= stored.dom());
    assert(views.is_injective());
    views.lemma_injective_values_len();
    assert forall|v: HeroView| listing.to_set().contains(v) implies views.values().contains(v) by {
        let i = choose|i: int| 0 <= i < listing.len() && listing[i] == v;
        assert(values.to_set().contains(values[i]));
        let id = choose|id: ID| stored.contains_key(id) && stored[id] == values[i];
        assert(views.contains_key(id) && views[id] == v);
    }
    assert forall|v: HeroView| views.values().contains(v) implies listing.to_set().contains(v) by {
        let id = choose|id: ID| views.contains_key(id) && views[id] == v;
        assert(stored.values().contains(stored[id]));
        let i = choose|i: int| 0 <= i < values.len() && values[i] == stored[id];
        assert(listing[i] == v);
    }
    assert(listing.to_set() =~= views.values());
    listing.lemma_no_dup_set_cardinality();
}

} // verus!
