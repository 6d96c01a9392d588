//! A small hero service: a registry of hero records with unique identifiers,
//! a tally of the requests served, and the answers of the service's routes,
//! each stated over a mathematical model and proved.
//!
//! The registry and the counter are plain values. A writer needs `&mut`, so
//! every call takes effect at once and alone; to share one among request
//! handlers, put it behind a lock.

pub mod api_key;
pub mod codec;
pub mod counter;
pub mod creations;
pub mod decimal;
pub mod hero;
pub mod registry;
pub mod routes;
pub mod step;

pub use api_key::{ApiKey, ApiKeyError};
pub use counter::{Method, RequestCounter, RequestTally};
pub use hero::{Hero, HeroView, NewHero, NewHeroView, ID};
pub use registry::{HeroRegistry, RegistryView, FIRST_ID};
pub use routes::{
    add_hero, counts, delay_message, get_all, get_hero, greeting, index, login, not_found,
    protected, query_greeting, session, Cookie, Created, SESSION_COOKIE, SESSION_KEY,
};
