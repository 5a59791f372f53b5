//! Rules and data shaping behind a desktop console for a local container
//! engine.
//!
//! The console's commands talk to the engine and to the public registry;
//! this library holds what they decide and compute. `validation` checks
//! what a user types. `creation` and `compose` work out what the engine is
//! asked for when a container is created, alone or as a service of a
//! compose file. `containers`, `details`, `images`, `networks`, `volumes`
//! and `stats` bring what the engine reports into the shape that is shown.
//! `registry` holds the search of the public registry, `engine` the
//! requests of the simple commands and the messages of failures. `text`,
//! `decimal` and `string_map` are the tools the others are built from.

pub mod compose;
pub mod containers;
pub mod creation;
pub mod decimal;
pub mod details;
pub mod engine;
pub mod images;
pub mod networks;
pub mod registry;
pub mod stats;
pub mod string_map;
pub mod text;
pub mod validation;
pub mod volumes;
