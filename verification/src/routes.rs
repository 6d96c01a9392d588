//! What each route of the service answers, from values that the HTTP layer has
//! already parsed.

use crate::api_key::ApiKey;
use crate::codec::{base64_encoding, encode_base64};
use crate::counter::RequestCounter;
use crate::decimal::{decimal, decimal_text};
use crate::hero::{Hero, NewHero, ID};
use crate::registry::{hero_views, HeroRegistry};
use vstd::prelude::*;
use vstd::string::{StringExecFns, StringSliceAdditionalSpecFns};
use vstd::utf8::{is_ascii_chars, is_ascii_chars_encode_utf8};

verus! {

/// The name of the cookie that marks a session.
pub const SESSION_COOKIE: &'static str = "Session";

/// The text that a login stores in the session cookie, before encoding.
pub const SESSION_KEY: &'static str = "this_is_a_session_key";

/// A cookie, by name and value.
pub struct Cookie {
    pub name: &'static str,
    pub value: String,
}

/// The answer to a creation: the stored hero and the path under which it can
/// be fetched.
pub struct Created {
    pub location: String,
    pub hero: Hero,
}

/// The path under which the hero with `id` can be fetched.
pub open spec fn hero_location(id: ID) -> Seq<char> {
    "/api/heroes/"@ + decimal_text(id as nat)
}

/// The text that reports `get_count` GET requests and `post_count` POST
/// requests.
pub open spec fn counts_text(get_count: usize, post_count: usize) -> Seq<char> {
    "Get: "@ + decimal_text(get_count as nat) + "\nPost: "@ + decimal_text(post_count as nat)
}

/// The greeting at the root of the API.
pub fn index() -> (body: &'static str)
    ensures
        body@ == "Hello, world!"@,
{
    "Hello, world!"
}

/// Greets `name`.
pub fn greeting(name: String) -> (body: String)
    ensures
        body@ == "Hello "@ + name@,
{
    let mut body = String::from_str("Hello ");
    body.append(name.as_str());
    body
}

/// Greets `name` with `salutation`, or with "Hello" where none is given.
pub fn query_greeting(name: String, salutation: Option<String>) -> (body: String)
    ensures
        body@ == match salutation {
            Some(s) => s@ + " "@ + name@,
            None => "Hello "@ + name@,
        },
{
    match salutation {
        Some(s) => {
            let mut body = s;
            body.append(" ");
            body.append(name.as_str());
            body
        },
        None => greeting(name),
    }
}

/// The greeting sent after a wait of `seconds` seconds.
pub fn delay_message(seconds: u64) -> (body: String)
    ensures
        body@ == "Hello, world "@ + decimal_text(seconds as nat) + " seconds later."@,
{
    let mut body = String::from_str("Hello, world ");
    body.append(decimal(seconds).as_str());
    body.append(" seconds later.");
    body
}

/// The answer to a client that presented `key`.
pub fn protected(key: ApiKey) -> (body: String)
    ensures
        body@ == "You are allowed to access this API because you presented key '"@ + key@
            + "'"@,
{
    let mut body = String::from_str(
        "You are allowed to access this API because you presented key '",
    );
    body.append(key.0.as_str());
    body.append("'");
    body
}

/// The session cookie that a login sets: the session key in base64.
pub fn login() -> (cookie: Cookie)
    ensures
        cookie.name@ == SESSION_COOKIE@,
        cookie.value@ == base64_encoding(SESSION_KEY.spec_bytes()),
{
    proof {
        reveal_strlit("this_is_a_session_key");
        assert(is_ascii_chars(SESSION_KEY@));
        is_ascii_chars_encode_utf8(SESSION_KEY@);
    }
    Cookie { name: SESSION_COOKIE, value: encode_base64(SESSION_KEY.as_bytes()) }
}

/// Tells a client whether it sent the session cookie; `cookie` is its value
/// where it did.
pub fn session(cookie: Option<&str>) -> (body: &'static str)
    ensures
        body@ == if cookie is Some {
            "You got the cookie!"@
        } else {
            "Sorry, no cookie!"@
        },
{
    match cookie {
        Some(_) => "You got the cookie!",
        None => "Sorry, no cookie!",
    }
}

/// Creates `hero` in `registry` and says where it can be fetched.
pub fn add_hero(hero: NewHero, registry: &mut HeroRegistry) -> (created: Created)
    ensures
        created.hero@ == old(registry)@.created_hero(hero@),
        created.location@ == hero_location(created.hero.id),
        final(registry)@ == old(registry)@.after_create(hero@),
        final(registry)@.wf(),
{
    let hero = registry.create(hero);
    let mut location = String::from_str("/api/heroes/");
    location.append(decimal(hero.id as u64).as_str());
    Created { location, hero }
}

/// The hero stored under `id` in `registry`, if there is one.
pub fn get_hero(id: ID, registry: &HeroRegistry) -> (found: Option<Hero>)
    ensures
        registry@.wf(),
        match found {
            Some(hero) => registry@.lookup(id) == Some(hero@),
            None => registry@.lookup(id) is None,
        },
{
    registry.get(id)
}

/// All heroes stored in `registry`, each once, in no particular order.
pub fn get_all(registry: &HeroRegistry) -> (all: Vec<Hero>)
    ensures
        registry@.wf(),
        registry@.is_listing(hero_views(all@)),
        all@.len() == registry@.heroes.len(),
{
    registry.list_all()
}

/// The page for a path that the service does not serve.
pub fn not_found() -> (body: &'static str)
    ensures
        body@ == "\n        <h1>Not found</h1>\n        <p>What are you looking for?</p>\n    "@,
{
    "\n        <h1>Not found</h1>\n        <p>What are you looking for?</p>\n    "
}

/// The report of the requests counted so far.
pub fn counts(counter: &RequestCounter) -> (body: String)
    ensures
        body@ == counts_text(counter@.get_count, counter@.post_count),
{
    let tally = counter.snapshot();
    let mut body = String::from_str("Get: ");
    body.append(decimal(tally.get_count as u64).as_str());
    body.append("\nPost: ");
    body.append(decimal(tally.post_count as u64).as_str());
    body
}

} // verus!
