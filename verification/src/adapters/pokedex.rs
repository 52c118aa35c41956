//! The contract of the adapter that fetches the data of a Pokémon by name.

pub mod mock;
pub mod pokeapi;

use vstd::prelude::*;

pub use self::mock::MockPokedexAdapter;
pub use self::pokeapi::{
    FlavorTextEntry, FlavorTextEntryView, Habitat, Language, PokeApiAdapter,
    PokeApiAdapterView, Species, SpeciesView, DEFAULT_POKEAPI_ENDPOINT, LANGUAGE_ENGLISH,
};
use crate::model::{Pokemon, PokemonView};

verus! {

/// The result type for PokedexAdapter operations
pub type PokedexAdapterResult<T> = Result<T, PokedexAdapterError>;

/// Errors that can occur while interacting with the PokedexAdapter
#[derive(Debug)]
pub enum PokedexAdapterError {
    /// No Pokémon matches the name.
    NotFound,
    /// The request did not reach the provider, or no answer came back.
    NetworkError(String),
    /// The answer could not be decoded.
    ParseError(String),
    /// The provider answered, but not in the format that is understood.
    UnexpectedResponse(String),
}

/// The mathematical value of a [`PokedexAdapterError`].
pub ghost enum PokedexAdapterErrorView {
    NotFound,
    NetworkError(Seq<char>),
    ParseError(Seq<char>),
    UnexpectedResponse(Seq<char>),
}

impl PokedexAdapterErrorView {
    /// The text by which the error is reported.
    pub open spec fn message(self) -> Seq<char> {
        match self {
            PokedexAdapterErrorView::NotFound => "Pokémon not found"@,
            PokedexAdapterErrorView::NetworkError(detail) => "Network error: "@ + detail,
            PokedexAdapterErrorView::ParseError(detail) => "Parse error: "@ + detail,
            PokedexAdapterErrorView::UnexpectedResponse(detail) => "Unexpected response from the API: "@
                + detail,
        }
    }
}

impl View for PokedexAdapterError {
    type V = PokedexAdapterErrorView;

    open spec fn view(&self) -> PokedexAdapterErrorView {
        match self {
            PokedexAdapterError::NotFound => PokedexAdapterErrorView::NotFound,
            PokedexAdapterError::NetworkError(detail) => PokedexAdapterErrorView::NetworkError(
                detail@,
            ),
            PokedexAdapterError::ParseError(detail) => PokedexAdapterErrorView::ParseError(detail@),
            PokedexAdapterError::UnexpectedResponse(detail) => PokedexAdapterErrorView::UnexpectedResponse(
                detail@,
            ),
        }
    }
}

impl PokedexAdapterError {
    /// The text by which the error is reported.
    pub fn to_string(&self) -> (text: String)
        ensures
            text@ == self@.message(),
    {
        match self {
            PokedexAdapterError::NotFound => String::from_str("Pokémon not found"),
            PokedexAdapterError::NetworkError(detail) => String::from_str("Network error: ").concat(
                detail.as_str(),
            ),
            PokedexAdapterError::ParseError(detail) => String::from_str("Parse error: ").concat(
                detail.as_str(),
            ),
            PokedexAdapterError::UnexpectedResponse(detail) => String::from_str(
                "Unexpected response from the API: ",
            ).concat(detail.as_str()),
        }
    }
}

/// The view of what a fetch returned.
pub open spec fn fetch_view(outcome: PokedexAdapterResult<Pokemon>) -> Result<
    PokemonView,
    PokedexAdapterErrorView,
> {
    match outcome {
        Ok(pokemon) => Ok(pokemon@),
        Err(err) => Err(err@),
    }
}

/// The PokedexAdapter trait defines the interface for fetching Pokémon data
/// from an external API.
pub trait PokedexAdapter: Send + Sync {
    /// Whether `outcome` is an answer that this adapter may give when it is
    /// asked for `name`. An adapter that says nothing of itself admits every
    /// outcome.
    open spec fn may_fetch(
        &self,
        name: Seq<char>,
        outcome: Result<PokemonView, PokedexAdapterErrorView>,
    ) -> bool {
        true
    }

    /// fetch a [`Pokemon`] by its name from the external API
    fn fetch_pokemon_by_name(&self, name: &str) -> (outcome: PokedexAdapterResult<Pokemon>)
        ensures
            self.may_fetch(name@, fetch_view(outcome)),
    ;
}

} // verus!
