//! The data shared by the adapters and the endpoints.

pub mod pokemon;

pub use self::pokemon::{Pokemon, PokemonView};
