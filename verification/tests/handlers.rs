use hero_api::{HeroRegistry, NewHero};

#[test]
fn index_says_hello() {
    assert_eq!(hero_api::index(), "Hello, world!");
}

#[test]
fn greeting_names_the_caller() {
    assert_eq!(hero_api::greeting("Odd".to_string()), "Hello Odd");
    assert_eq!(hero_api::greeting(String::new()), "Hello ");
}

#[test]
fn query_greeting_uses_the_salutation() {
    assert_eq!(
        hero_api::query_greeting("Oddbjørn".to_string(), Some("Greetings".to_string())),
        "Greetings Oddbjørn"
    );
    assert_eq!(hero_api::query_greeting("Odd".to_string(), None), "Hello Odd");
}

#[test]
fn delay_message_names_the_seconds() {
    assert_eq!(hero_api::delay_message(0), "Hello, world 0 seconds later.");
    assert_eq!(hero_api::delay_message(15), "Hello, world 15 seconds later.");
}

#[test]
fn login_sets_the_session_cookie() {
    let cookie = hero_api::login();
    assert_eq!(cookie.name, "Session");
    assert_eq!(cookie.value, "dGhpc19pc19hX3Nlc3Npb25fa2V5");
}

#[test]
fn session_depends_on_the_cookie() {
    assert_eq!(hero_api::session(Some("dGhpc19pc19hX3Nlc3Npb25fa2V5")), "You got the cookie!");
    assert_eq!(hero_api::session(Some("")), "You got the cookie!");
    assert_eq!(hero_api::session(None), "Sorry, no cookie!");
}

#[test]
fn not_found_page() {
    assert_eq!(
        hero_api::not_found(),
        r#"
        <h1>Not found</h1>
        <p>What are you looking for?</p>
    "#
    );
}

#[test]
fn add_hero_stores_and_locates() {
    let mut registry = HeroRegistry::new(1);
    let created = hero_api::add_hero(
        NewHero { name: "Storm".to_string(), can_fly: true },
        &mut registry,
    );
    assert_eq!(created.location, "/api/heroes/1");
    assert_eq!(created.hero.id, 1);
    assert_eq!(created.hero.name, "Storm");
    assert!(created.hero.can_fly);
    assert_eq!(hero_api::get_hero(1, &registry), Some(created.hero));
    let next = hero_api::add_hero(
        NewHero { name: "Rogue".to_string(), can_fly: false },
        &mut registry,
    );
    assert_eq!(next.location, "/api/heroes/2");
}

#[test]
fn get_hero_of_unknown_id() {
    let registry = HeroRegistry::new(1);
    assert_eq!(hero_api::get_hero(1, &registry), None);
}

#[test]
fn get_all_lists_what_was_added() {
    let mut registry = HeroRegistry::new(1);
    assert!(hero_api::get_all(&registry).is_empty());
    hero_api::add_hero(NewHero { name: "Storm".to_string(), can_fly: true }, &mut registry);
    hero_api::add_hero(NewHero { name: "Rogue".to_string(), can_fly: false }, &mut registry);
    let mut names: Vec<String> =
        hero_api::get_all(&registry).into_iter().map(|hero| hero.name).collect();
    names.sort();
    assert_eq!(names, vec!["Rogue".to_string(), "Storm".to_string()]);
}
