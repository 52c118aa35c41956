use vstd::prelude::*;

verus! {

/// A struct representing a Pokémon.
#[derive(Debug, PartialEq, Eq, Hash)]
pub struct Pokemon {
    /// The name of the Pokémon.
    pub name: String,
    /// The pokedex description of the Pokemon.
    pub description: String,
    /// The Pokémon habitat. This field should be defined only for Pokémons between
    /// 1st and 3rd generation, because it was a feature of Pokémon leaf green and
    /// fire red games.
    pub habitat: Option<String>,
    /// Whether the Pokémon is legendary.
    pub is_legendary: bool,
}

/// The mathematical value of a [`Pokemon`]: its texts as sequences of characters.
pub ghost struct PokemonView {
    pub name: Seq<char>,
    pub description: Seq<char>,
    pub habitat: Option<Seq<char>>,
    pub is_legendary: bool,
}

impl PokemonView {
    /// The Pokémon that differs from this one in its description only.
    pub open spec fn with_description(self, description: Seq<char>) -> PokemonView {
        PokemonView { description, ..self }
    }
}

impl View for Pokemon {
    type V = PokemonView;

    open spec fn view(&self) -> PokemonView {
        PokemonView {
            name: self.name@,
            description: self.description@,
            habitat: match self.habitat {
                Some(habitat) => Some(habitat@),
                None => None,
            },
            is_legendary: self.is_legendary,
        }
    }
}

impl Clone for Pokemon {
    /// The copy is equal to the Pokémon that it was made of, field by field.
    fn clone(&self) -> (copy: Self)
        ensures
            copy == *self,
    {
        Pokemon {
            name: self.name.clone(),
            description: self.description.clone(),
            habitat: match &self.habitat {
                Some(habitat) => Some(habitat.clone()),
                None => None,
            },
            is_legendary: self.is_legendary,
        }
    }
}

impl Pokemon {
    /// Builds the Pokémon that is derived from `self` by replacing its
    /// description; every other field is carried over unchanged.
    pub fn with_description(self, description: String) -> (derived: Pokemon)
        ensures
            derived@ == self@.with_description(description@),
            derived.name == self.name,
            derived.habitat == self.habitat,
            derived.is_legendary == self.is_legendary,
            derived.description == description,
    {
        Pokemon { description, ..self }
    }
}

} // verus!
