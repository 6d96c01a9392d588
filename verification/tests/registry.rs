use hero_api::{Hero, HeroRegistry, NewHero};

fn request(name: &str, can_fly: bool) -> NewHero {
    NewHero { name: name.to_string(), can_fly }
}

fn sorted_by_id(mut heroes: Vec<Hero>) -> Vec<Hero> {
    heroes.sort_by_key(|hero| hero.id);
    heroes
}

#[test]
fn first_hero_gets_the_first_id() {
    let mut registry = HeroRegistry::new(1);
    let storm = registry.create(request("Storm", true));
    assert_eq!(storm, Hero { id: 1, name: "Storm".to_string(), can_fly: true });
}

#[test]
fn two_heroes_are_listed_with_their_ids() {
    let mut registry = HeroRegistry::new(1);
    registry.create(request("Storm", true));
    registry.create(request("Rogue", false));
    let all = sorted_by_id(registry.list_all());
    assert_eq!(
        all,
        vec![
            Hero { id: 1, name: "Storm".to_string(), can_fly: true },
            Hero { id: 2, name: "Rogue".to_string(), can_fly: false },
        ]
    );
}

#[test]
fn created_hero_is_found_by_its_id() {
    let mut registry = HeroRegistry::new(1);
    registry.create(request("Storm", true));
    let rogue = registry.create(request("Rogue", false));
    assert_eq!(registry.get(rogue.id), Some(rogue.clone()));
    assert_eq!(rogue.id, 2);
    assert_eq!(rogue.name, "Rogue");
    assert!(!rogue.can_fly);
}

#[test]
fn unissued_id_is_not_found() {
    let mut registry = HeroRegistry::new(1);
    assert_eq!(registry.get(1), None);
    registry.create(request("Storm", true));
    assert_eq!(registry.get(0), None);
    assert_eq!(registry.get(2), None);
    assert_eq!(registry.get(usize::MAX), None);
}

#[test]
fn empty_registry_lists_nothing() {
    let registry = HeroRegistry::new(1);
    assert!(registry.list_all().is_empty());
}

#[test]
fn ids_are_distinct_and_rise() {
    let mut registry = HeroRegistry::new(1);
    let mut ids = Vec::new();
    for n in 0..100 {
        ids.push(registry.create(request(&format!("hero {}", n), n % 2 == 0)).id);
    }
    let expected: Vec<usize> = (1..=100).collect();
    assert_eq!(ids, expected);
}

#[test]
fn listing_holds_every_created_hero_once() {
    let mut registry = HeroRegistry::new(1);
    let mut created = Vec::new();
    for n in 0..25 {
        created.push(registry.create(request(&format!("hero {}", n), n % 3 == 0)));
    }
    let all = sorted_by_id(registry.list_all());
    assert_eq!(all.len(), 25);
    assert_eq!(all, created);
}

#[test]
fn default_registry_starts_at_one() {
    let mut registry = HeroRegistry::default();
    assert_eq!(hero_api::FIRST_ID, 1);
    assert_eq!(registry.get(1), None);
    assert_eq!(
        registry.create(request("Storm", true)),
        Hero { id: 1, name: "Storm".to_string(), can_fly: true }
    );
}

#[test]
fn first_id_can_be_chosen() {
    let mut registry = HeroRegistry::new(40);
    assert_eq!(registry.create(request("Storm", true)).id, 40);
    assert_eq!(registry.create(request("Rogue", false)).id, 41);
    assert_eq!(registry.get(1), None);
}

#[test]
fn counter_wraps_past_the_largest_id() {
    let mut registry = HeroRegistry::new(usize::MAX);
    assert_eq!(registry.create(request("Storm", true)).id, usize::MAX);
    assert_eq!(registry.create(request("Rogue", false)).id, 0);
    assert_eq!(registry.create(request("Gambit", false)).id, 1);
    assert_eq!(registry.list_all().len(), 3);
}

#[test]
fn same_request_twice_gives_two_heroes() {
    let mut registry = HeroRegistry::new(1);
    let one = registry.create(request("Storm", true));
    let two = registry.create(request("Storm", true));
    assert_ne!(one.id, two.id);
    assert_eq!(one.name, two.name);
    assert_eq!(registry.list_all().len(), 2);
}

#[test]
fn returned_hero_is_a_copy() {
    let mut registry = HeroRegistry::new(1);
    let mut storm = registry.create(request("Storm", true));
    storm.name.push_str(" the Weather Witch");
    storm.can_fly = false;
    assert_eq!(
        registry.get(1),
        Some(Hero { id: 1, name: "Storm".to_string(), can_fly: true })
    );
}
