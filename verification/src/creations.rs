//! Runs of creations: what a registry holds, and which identifiers it has
//! handed out, after any number of heroes were created one after another.

use crate::hero::{HeroView, NewHeroView, ID};
use crate::registry::RegistryView;
use crate::step::{
    advanced, lemma_advanced_successor, lemma_advanced_without_wrap, lemma_advanced_zero,
};
use vstd::arithmetic::div_mod::{lemma_mod_equivalence, lemma_small_mod};
use vstd::prelude::*;

verus! {

impl RegistryView {
    /// The registry after creating each of `requests` in turn.
    pub open spec fn after_all(self, requests: Seq<NewHeroView>) -> RegistryView
        decreases requests.len(),
    {
        if requests.len() == 0 {
            self
        } else {
            self.after_all(requests.drop_last()).after_create(requests.last())
        }
    }

    /// The heroes returned by creating each of `requests` in turn, oldest first.
    pub open spec fn created_all(self, requests: Seq<NewHeroView>) -> Seq<HeroView>
        decreases requests.len(),
    {
        if requests.len() == 0 {
            Seq::empty()
        } else {
            self.created_all(requests.drop_last()).push(
                self.after_all(requests.drop_last()).created_hero(requests.last()),
            )
        }
    }
}

/// The identifiers of a sequence of heroes, in the same order.
pub open spec fn hero_ids(heroes: Seq<HeroView>) -> Seq<ID> {
    heroes.map_values(|hero: HeroView| hero.id)
}

/// A run of creations returns one hero for each request and moves the counter
/// one step for each; the hero of request `k` has the name and the ability
/// that were asked for, and the identifier that the counter then held.
pub proof fn lemma_created_heroes(registry: RegistryView, requests: Seq<NewHeroView>)
    ensures
        registry.created_all(requests).len() == requests.len(),
        registry.after_all(requests).next_id == advanced(registry.next_id, requests.len()),
        forall|k: int|
            0 <= k < requests.len() ==> #[trigger] registry.created_all(requests)[k] == (HeroView {
                id: advanced(registry.next_id, k as nat),
                name: requests[k].name,
                can_fly: requests[k].can_fly,
            }),
    decreases requests.len(),
{
    if requests.len() == 0 {
        lemma_advanced_zero(registry.next_id);
    } else {
        let before = requests.drop_last();
        lemma_created_heroes(registry, before);
        lemma_advanced_successor(registry.next_id, before.len());
        assert forall|k: int| 0 <= k < requests.len() implies #[trigger] registry.created_all(
            requests,
        )[k] == (HeroView {
            id: advanced(registry.next_id, k as nat),
            name: requests[k].name,
            can_fly: requests[k].can_fly,
        }) by {
            if k < before.len() {
                assert(registry.created_all(requests)[k] == registry.created_all(before)[k]);
                assert(requests[k] == before[k]);
            }
        }
    }
}

/// A run of no more creations than there are identifiers hands out no
/// identifier twice, wherever the counter started.
pub proof fn lemma_created_ids_distinct(
    registry: RegistryView,
    requests: Seq<NewHeroView>,
    one: int,
    other: int,
)
    requires
        requests.len() <= usize::MAX + 1,
        0 <= one < requests.len(),
        0 <= other < requests.len(),
        one != other,
    ensures
        registry.created_all(requests)[one].id != registry.created_all(requests)[other].id,
{
    let space = usize::MAX + 1;
    lemma_created_heroes(registry, requests);
    lemma_mod_equivalence(registry.next_id + one, registry.next_id + other, space);
    if one > other {
        lemma_small_mod((one - other) as nat, space as nat);
    } else {
        lemma_mod_equivalence(registry.next_id + other, registry.next_id + one, space);
        lemma_small_mod((other - one) as nat, space as nat);
    }
}

/// Until the counter passes the largest identifier, a later creation gets a
/// greater identifier than an earlier one.
pub proof fn lemma_created_ids_increase(
    registry: RegistryView,
    requests: Seq<NewHeroView>,
    earlier: int,
    later: int,
)
    requires
        0 <= earlier < later < requests.len(),
        registry.next_id + later <= usize::MAX,
    ensures
        registry.created_all(requests)[earlier].id < registry.created_all(requests)[later].id,
{
    lemma_created_heroes(registry, requests);
    lemma_advanced_without_wrap(registry.next_id, earlier as nat);
    lemma_advanced_without_wrap(registry.next_id, later as nat);
}

/// Looking up the identifier of a hero that was just created finds that hero.
pub proof fn lemma_created_hero_is_found(registry: RegistryView, request: NewHeroView)
    ensures
        registry.after_create(request).lookup(registry.created_hero(request).id) == Some(
            registry.created_hero(request),
        ),
{
}

/// Creations keep a registry well formed.
pub proof fn lemma_creations_keep_wf(registry: RegistryView, requests: Seq<NewHeroView>)
    requires
        registry.wf(),
    ensures
        registry.after_all(requests).wf(),
    decreases requests.len(),
{
    if requests.len() > 0 {
        lemma_creations_keep_wf(registry, requests.drop_last());
    }
}

/// The identifiers under which heroes are stored are those that were there
/// before together with those that creations have handed out since.
pub proof fn lemma_keys_after_creations(registry: RegistryView, requests: Seq<NewHeroView>)
    ensures
        registry.after_all(requests).heroes.dom() == registry.heroes.dom().union(
            hero_ids(registry.created_all(requests)).to_set(),
        ),
    decreases requests.len(),
{
    let issued = hero_ids(registry.created_all(requests));
    if requests.len() == 0 {
        assert(registry.after_all(requests).heroes.dom() =~= registry.heroes.dom().union(
            issued.to_set(),
        ));
    } else {
        let before = requests.drop_last();
        let issued_before = hero_ids(registry.created_all(before));
        lemma_keys_after_creations(registry, before);
        assert(issued =~= issued_before.push(registry.after_all(before).next_id));
        assert forall|id: ID| issued.to_set().contains(id) <==> issued_before.to_set().contains(id)
            || id == registry.after_all(before).next_id by {
            if issued_before.to_set().contains(id) {
                let k = choose|k: int| 0 <= k < issued_before.len() && issued_before[k] == id;
                assert(issued[k] == id);
            }
            if id == registry.after_all(before).next_id {
                assert(issued[issued.len() - 1] == id);
            }
        }
        assert(registry.after_all(requests).heroes.dom() =~= registry.heroes.dom().union(
            issued.to_set(),
        ));
    }
}

/// In a registry that started empty, an identifier that no creation has handed
/// out has no hero.
pub proof fn lemma_unissued_id_is_absent(first_id: ID, requests: Seq<NewHeroView>, id: ID)
    requires
        !hero_ids(RegistryView::empty(first_id).created_all(requests)).contains(id),
    ensures
        RegistryView::empty(first_id).after_all(requests).lookup(id) is None,
{
    lemma_keys_after_creations(RegistryView::empty(first_id), requests);
}

/// After no more creations than there are identifiers, each created hero is
/// stored under its identifier as it was returned.
pub proof fn lemma_created_heroes_are_stored(
    registry: RegistryView,
    requests: Seq<NewHeroView>,
    k: int,
)
    requires
        requests.len() <= usize::MAX + 1,
        0 <= k < requests.len(),
    ensures
        registry.after_all(requests).lookup(registry.created_all(requests)[k].id) == Some(
            registry.created_all(requests)[k],
        ),
    decreases requests.len(),
{
    let before = requests.drop_last();
    lemma_created_heroes(registry, requests);
    lemma_created_heroes(registry, before);
    if k < before.len() {
        lemma_created_heroes_are_stored(registry, before, k);
        lemma_created_ids_distinct(registry, requests, k, requests.len() - 1);
        assert(registry.created_all(requests)[k] == registry.created_all(before)[k]);
    }
}

/// A listing of a registry that started empty and has since seen no more
/// creations than there are identifiers holds as many heroes as were created,
/// and exactly those that the creations returned.
pub proof fn lemma_listing_after_creations(
    first_id: ID,
    requests: Seq<NewHeroView>,
    listing: Seq<HeroView>,
)
    requires
        requests.len() <= usize::MAX + 1,
        RegistryView::empty(first_id).after_all(requests).is_listing(listing),
    ensures
        listing.len() == requests.len(),
        listing.to_set() == RegistryView::empty(first_id).created_all(requests).to_set(),
{
    let start = RegistryView::empty(first_id);
    let created = start.created_all(requests);
    let stored = start.after_all(requests).heroes;
    lemma_created_heroes(start, requests);
    lemma_keys_after_creations(start, requests);
    assert forall|hero: HeroView| created.to_set().contains(hero) implies stored.values().contains(
        hero,
    ) by {
        let k = choose|k: int| 0 <= k < created.len() && created[k] == hero;
        lemma_created_heroes_are_stored(start, requests, k);
    }
    assert forall|hero: HeroView| stored.values().contains(hero) implies created.to_set().contains(
        hero,
    ) by {
        let id = choose|id: ID| stored.contains_key(id) && stored[id] == hero;
        assert(hero_ids(created).to_set().contains(id));
        let k = choose|k: int| 0 <= k < created.len() && hero_ids(created)[k] == id;
        lemma_created_heroes_are_stored(start, requests, k);
    }
    assert(created.to_set() =~= stored.values());
    assert forall|i: int, j: int|
        0 <= i < created.len() && 0 <= j < created.len() && i != j implies created[i]
        != created[j] by {
        lemma_created_ids_distinct(start, requests, i, j);
    }
    created.unique_seq_to_set();
    listing.unique_seq_to_set();
}

} // verus!
