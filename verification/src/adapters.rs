//! The adapters through which the service reaches its upstream providers:
//! one that looks a Pokémon up by name, one that translates a description.

pub mod endpoint;
pub mod pokedex;
pub mod translation;
