use vstd::prelude::*;
use vstd::std_specs::convert::FromSpecImpl;

use crate::adapters::pokedex::{
    PokedexAdapter, PokedexAdapterError, PokedexAdapterErrorView, PokedexAdapterResult,
};
use crate::model::{Pokemon, PokemonView};

verus! {

/// Mock implementation of the PokedexAdapter for testing purposes.
///
/// It simulates fetching Pokémon data without making actual network requests.
/// It always returns the data for a predefined [`Pokemon`], or always reports
/// that there is none, whatever the name it is asked for.
pub struct MockPokedexAdapter(pub Option<Pokemon>);

impl From<Pokemon> for MockPokedexAdapter {
    fn from(pokemon: Pokemon) -> (adapter: Self) {
        MockPokedexAdapter(Some(pokemon))
    }
}

impl FromSpecImpl<Pokemon> for MockPokedexAdapter {
    open spec fn obeys_from_spec() -> bool {
        true
    }

    open spec fn from_spec(pokemon: Pokemon) -> Self {
        MockPokedexAdapter(Some(pokemon))
    }
}

impl MockPokedexAdapter {
    /// The answer that the adapter gives to every request.
    pub open spec fn answer(self) -> Result<PokemonView, PokedexAdapterErrorView> {
        match self.0 {
            Some(pokemon) => Ok(pokemon@),
            None => Err(PokedexAdapterErrorView::NotFound),
        }
    }

    /// Creates a new instance of the [`MockPokedexAdapter`] with the given [`Pokemon`] data.
    pub fn new(pokemon: Pokemon) -> (adapter: Self)
        ensures
            adapter.0 == Some(pokemon),
            adapter.answer() == Ok::<PokemonView, PokedexAdapterErrorView>(pokemon@),
    {
        pokemon.into()
    }

    /// Creates an adapter that knows no Pokémon at all.
    pub fn not_found() -> (adapter: Self)
        ensures
            adapter.0 is None,
            adapter.answer() == Err::<PokemonView, PokedexAdapterErrorView>(
                PokedexAdapterErrorView::NotFound,
            ),
    {
        MockPokedexAdapter(None)
    }
}

impl PokedexAdapter for MockPokedexAdapter {
    /// The adapter admits one outcome only, the same for every name.
    open spec fn may_fetch(
        &self,
        name: Seq<char>,
        outcome: Result<PokemonView, PokedexAdapterErrorView>,
    ) -> bool {
        outcome == self.answer()
    }

    fn fetch_pokemon_by_name(&self, _name: &str) -> (outcome: PokedexAdapterResult<Pokemon>) {
        match &self.0 {
            Some(pokemon) => Ok(pokemon.clone()),
            None => Err(PokedexAdapterError::NotFound),
        }
    }
}

} // verus!
