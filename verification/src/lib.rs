//! A feed synchronization engine.
//!
//! The library keeps a registry of configured feeds, each refreshed on its own
//! interval, turns fetched Atom or RSS documents into canonical items, and
//! records items not previously seen in a durable story store keyed by
//! `(feed_url, guid)`. Fetching bytes from the network and driving the timer
//! belong to the surrounding program; every decision in between is made here.

pub mod engine;
pub mod error;
pub mod parser;
pub mod registry;
pub mod store;
pub mod story;

pub use engine::Server;
pub use registry::{Feed, Registry};
pub use store::Database;
pub use story::Story;
