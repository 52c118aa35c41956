use rand::seq::IteratorRandom;
use vstd::prelude::*;

pub use self::species::{
    FlavorTextEntry, FlavorTextEntryView, Habitat, Language, Species, SpeciesView,
    LANGUAGE_ENGLISH,
};
use self::species::{english_texts, entry_views, lemma_english_texts_push};
use crate::adapters::endpoint::{join_url, url_join, url_view};
use crate::adapters::pokedex::{
    fetch_view, PokedexAdapterError, PokedexAdapterErrorView, PokedexAdapterResult,
};
use crate::model::{Pokemon, PokemonView};

pub mod species;

verus! {

/// The number of seconds after which a call to the provider is given up, unless configured.
pub const DEFAULT_API_TIMEOUT_SECS: u64 = 30;

/// The endpoint of the PokeAPI service, unless configured.
pub const DEFAULT_POKEAPI_ENDPOINT: &'static str = "https://pokeapi.co/api/v2/";

/// The status with which the provider says that it knows no such Pokémon.
pub const STATUS_NOT_FOUND: u16 = 404;

/// PokeApiAdapter is an adapter for the PokeAPI service: the endpoint and the
/// timeout of its requests, and what it makes of the provider's answers.
#[derive(Debug)]
pub struct PokeApiAdapter {
    endpoint: String,
    timeout_secs: u64,
}

/// The mathematical value of a [`PokeApiAdapter`].
pub ghost struct PokeApiAdapterView {
    pub endpoint: Seq<char>,
    pub timeout_secs: u64,
}

impl View for PokeApiAdapter {
    type V = PokeApiAdapterView;

    closed spec fn view(&self) -> PokeApiAdapterView {
        PokeApiAdapterView { endpoint: self.endpoint@, timeout_secs: self.timeout_secs }
    }
}

impl Default for PokeApiAdapter {
    fn default() -> (adapter: Self)
        ensures
            adapter@ == (PokeApiAdapterView {
                endpoint: DEFAULT_POKEAPI_ENDPOINT@,
                timeout_secs: DEFAULT_API_TIMEOUT_SECS,
            }),
    {
        Self {
            endpoint: String::from_str(DEFAULT_POKEAPI_ENDPOINT),
            timeout_secs: DEFAULT_API_TIMEOUT_SECS,
        }
    }
}

impl Clone for PokeApiAdapter {
    fn clone(&self) -> (copy: Self)
        ensures
            copy@ == self@,
    {
        Self { endpoint: self.endpoint.clone(), timeout_secs: self.timeout_secs }
    }
}

/// The view of a URL, or of the error that took its place.
pub open spec fn species_url_view(outcome: PokedexAdapterResult<String>) -> Result<
    Seq<char>,
    PokedexAdapterErrorView,
> {
    match outcome {
        Ok(url) => Ok(url@),
        Err(err) => Err(err@),
    }
}

/// A URL as it was joined, or the parse error that reports why it was not.
pub open spec fn joined_or_parse_error(joined: Result<Seq<char>, Seq<char>>) -> Result<
    Seq<char>,
    PokedexAdapterErrorView,
> {
    match joined {
        Ok(url) => Ok(url),
        Err(message) => Err(PokedexAdapterErrorView::ParseError(message)),
    }
}

/// The URL under which the provider serves the species `name`, for an adapter
/// of the given `endpoint`: the directory `pokemon-species/` below the
/// endpoint, and `name` below that.
pub open spec fn species_url(endpoint: Seq<char>, name: Seq<char>) -> Result<
    Seq<char>,
    PokedexAdapterErrorView,
> {
    match url_join(endpoint, "pokemon-species/"@) {
        Ok(directory) => joined_or_parse_error(url_join(directory, name)),
        Err(message) => Err(PokedexAdapterErrorView::ParseError(message)),
    }
}

/// What the adapter makes of the status of the provider's answer, where
/// `status_text` is the status as it is displayed: not-found, an unexpected
/// response for every other status outside 200 to 299, and no failure inside.
pub open spec fn status_failure(status: u16, status_text: Seq<char>) -> Option<
    PokedexAdapterErrorView,
> {
    if status == STATUS_NOT_FOUND {
        Some(PokedexAdapterErrorView::NotFound)
    } else if !(200 <= status < 300) {
        Some(PokedexAdapterErrorView::UnexpectedResponse("HTTP "@ + status_text))
    } else {
        None
    }
}

/// The Pokémon that is made of a species and of the description that was
/// chosen for it, or the error that reports that there was none to choose.
pub open spec fn described_pokemon(
    name: Seq<char>,
    description: Option<Seq<char>>,
    habitat: Option<Seq<char>>,
    is_legendary: bool,
) -> Result<PokemonView, PokedexAdapterErrorView> {
    match description {
        Some(description) => Ok(PokemonView { name, description, habitat, is_legendary }),
        None => Err(
            PokedexAdapterErrorView::UnexpectedResponse("No English description found"@),
        ),
    }
}

/// Whether `outcome` is what can be made of `species` for the Pokémon `name`:
/// a Pokémon of that name, with the habitat and the legendary flag of the
/// species and one of its English descriptions, or, where it has none, the
/// error that says so.
pub open spec fn is_pokemon_of(
    name: Seq<char>,
    species: SpeciesView,
    outcome: Result<PokemonView, PokedexAdapterErrorView>,
) -> bool {
    match outcome {
        Ok(pokemon) => {
            &&& species.english_descriptions().contains(pokemon.description)
            &&& pokemon == (PokemonView {
                name,
                description: pokemon.description,
                habitat: species.habitat,
                is_legendary: species.is_legendary,
            })
        },
        Err(err) => {
            &&& species.english_descriptions().len() == 0
            &&& err == PokedexAdapterErrorView::UnexpectedResponse(
                "No English description found"@,
            )
        },
    }
}

/// What the adapter is told of the request that it asked for.
#[derive(Debug)]
pub enum FetchEvent {
    /// No answer came: the request could not be sent, or it was given up.
    Unanswered(String),
    /// The provider answered with `status`, which is displayed as `status_text`.
    Answered { status: u16, status_text: String },
    /// The body of the answer could not be decoded.
    Undecoded(String),
    /// The body of the answer was decoded into this species.
    Decoded(Species),
}

/// What the adapter asks for next.
#[derive(Debug)]
pub enum FetchStep {
    /// `url` is to be requested, and the request given up after `timeout_secs` seconds.
    Request { url: String, timeout_secs: u64 },
    /// The body of the answer is to be decoded.
    Decode,
    /// The fetch is over, with this outcome.
    Done(PokedexAdapterResult<Pokemon>),
}

/// The mathematical value of a [`FetchEvent`].
pub ghost enum FetchEventView {
    Unanswered(Seq<char>),
    Answered { status: u16, status_text: Seq<char> },
    Undecoded(Seq<char>),
    Decoded(SpeciesView),
}

/// The mathematical value of a [`FetchStep`].
pub ghost enum FetchStepView {
    Request { url: Seq<char>, timeout_secs: u64 },
    Decode,
    Done(Result<PokemonView, PokedexAdapterErrorView>),
}

impl View for FetchEvent {
    type V = FetchEventView;

    open spec fn view(&self) -> FetchEventView {
        match self {
            FetchEvent::Unanswered(message) => FetchEventView::Unanswered(message@),
            FetchEvent::Answered { status, status_text } => FetchEventView::Answered {
                status: *status,
                status_text: status_text@,
            },
            FetchEvent::Undecoded(message) => FetchEventView::Undecoded(message@),
            FetchEvent::Decoded(species) => FetchEventView::Decoded(species@),
        }
    }
}

impl View for FetchStep {
    type V = FetchStepView;

    open spec fn view(&self) -> FetchStepView {
        match self {
            FetchStep::Request { url, timeout_secs } => FetchStepView::Request {
                url: url@,
                timeout_secs: *timeout_secs,
            },
            FetchStep::Decode => FetchStepView::Decode,
            FetchStep::Done(outcome) => FetchStepView::Done(fetch_view(*outcome)),
        }
    }
}

/// The step with which the fetch of `name` begins: the request for the URL
/// of the species, with the timeout of the adapter, or the end of the fetch
/// where there is no such URL.
pub open spec fn first_step(adapter: PokeApiAdapterView, name: Seq<char>) -> FetchStepView {
    match species_url(adapter.endpoint, name) {
        Ok(url) => FetchStepView::Request { url, timeout_secs: adapter.timeout_secs },
        Err(err) => FetchStepView::Done(Err(err)),
    }
}

/// Whether `step` is what follows `event` in the fetch of `name`.
///
/// A request without an answer ends the fetch with a network error. An
/// answer is judged by its status: a failure ends the fetch, and the body is
/// decoded otherwise. A body that cannot be decoded ends the fetch with a
/// parse error, and a species ends it with what can be made of the species.
pub open spec fn follows(name: Seq<char>, event: FetchEventView, step: FetchStepView) -> bool {
    match event {
        FetchEventView::Unanswered(message) => step == FetchStepView::Done(
            Err(PokedexAdapterErrorView::NetworkError(message)),
        ),
        FetchEventView::Answered { status, status_text } => step == match status_failure(
            status,
            status_text,
        ) {
            Some(err) => FetchStepView::Done(Err(err)),
            None => FetchStepView::Decode,
        },
        FetchEventView::Undecoded(message) => step == FetchStepView::Done(
            Err(PokedexAdapterErrorView::ParseError(message)),
        ),
        FetchEventView::Decoded(species) => step matches FetchStepView::Done(outcome)
            && is_pokemon_of(name, species, outcome),
    }
}

/// The texts that a vector of strings holds.
pub open spec fn texts(strings: Seq<String>) -> Seq<Seq<char>> {
    strings.map_values(|text: String| text@)
}

/// `IteratorRandom::choose` of the `rand` crate, drawing from the thread-local
/// generator that `rand::rng` hands out, on the owning iterator of
/// `candidates`. It gives nothing where there is no candidate, and one of the
/// candidates otherwise; which one is left to chance.
#[verifier::external_body]
fn choose_description(candidates: Vec<String>) -> (chosen: Option<String>)
    ensures
        candidates@.len() == 0 ==> chosen is None,
        candidates@.len() > 0 ==> chosen is Some && texts(candidates@).contains(chosen.unwrap()@),
{
    candidates.into_iter().choose(&mut rand::rng())
}

/// Whether the answer of the provider, by its status, is a failure, and which.
pub fn check_status(status: u16, status_text: &str) -> (checked: Result<(), PokedexAdapterError>)
    ensures
        match checked {
            Ok(()) => status_failure(status, status_text@) is None,
            Err(err) => status_failure(status, status_text@) == Some(err@),
        },
{
    if status == STATUS_NOT_FOUND {
        return Err(PokedexAdapterError::NotFound);
    }
    if !(200 <= status && status < 300) {
        return Err(
            PokedexAdapterError::UnexpectedResponse(String::from_str("HTTP ").concat(status_text)),
        );
    }
    Ok(())
}

/// Reports a URL that could not be joined as a parse error.
pub fn parse_error_unless_joined(joined: Result<String, String>) -> (outcome: PokedexAdapterResult<
    String,
>)
    ensures
        species_url_view(outcome) == joined_or_parse_error(url_view(joined)),
{
    match joined {
        Ok(url) => Ok(url),
        Err(message) => Err(PokedexAdapterError::ParseError(message)),
    }
}

/// Collects the English descriptions of a species, in the order in which they are listed.
pub fn english_descriptions(entries: &Vec<FlavorTextEntry>) -> (descriptions: Vec<String>)
    ensures
        texts(descriptions@) == english_texts(entry_views(entries@)),
{
    let english = String::from_str(LANGUAGE_ENGLISH);
    let mut descriptions: Vec<String> = Vec::new();
    let mut index: usize = 0;
    assert(entry_views(entries@).take(0) =~= Seq::empty());
    assert(english_texts(Seq::empty()) =~= Seq::empty()) by {
        reveal(Seq::filter);
    }
    while index < entries.len()
        invariant
            index <= entries.len(),
            english@ == LANGUAGE_ENGLISH@,
            texts(descriptions@) == english_texts(entry_views(entries@).take(index as int)),
        decreases entries.len() - index,
    {
        let entry = &entries[index];
        proof {
            let listed = entry_views(entries@);
            assert(listed.take(index + 1) =~= listed.take(index as int).push(entry@));
            lemma_english_texts_push(listed.take(index as int), entry@);
        }
        if entry.language.name == english {
            let ghost before = descriptions@;
            descriptions.push(entry.flavor_text.clone());
            assert(texts(descriptions@) =~= texts(before).push(entry.flavor_text@));
        }
        index = index + 1;
    }
    assert(entry_views(entries@).take(index as int) =~= entry_views(entries@));
    descriptions
}

/// Makes the Pokémon of a species out of the description that was chosen for it.
pub fn describe_pokemon(
    name: &str,
    description: Option<String>,
    habitat: Option<Habitat>,
    is_legendary: bool,
) -> (outcome: PokedexAdapterResult<Pokemon>)
    ensures
        fetch_view(outcome) == described_pokemon(
            name@,
            match description {
                Some(text) => Some(text@),
                None => None,
            },
            match habitat {
                Some(habitat) => Some(habitat@),
                None => None,
            },
            is_legendary,
        ),
{
    match description {
        Some(description) => Ok(
            Pokemon {
                name: String::from_str(name),
                description,
                habitat: match habitat {
                    Some(habitat) => Some(habitat.name),
                    None => None,
                },
                is_legendary,
            },
        ),
        None => Err(
            PokedexAdapterError::UnexpectedResponse(
                String::from_str("No English description found"),
            ),
        ),
    }
}

impl PokeApiAdapter {
    /// Creates a new [`PokeApiAdapter`] with the given endpoint URL and timeout in seconds.
    pub fn new(endpoint: &str, timeout_secs: u64) -> (adapter: Self)
        ensures
            adapter@ == (PokeApiAdapterView { endpoint: endpoint@, timeout_secs }),
    {
        Self { endpoint: String::from_str(endpoint), timeout_secs }
    }

    /// The URL below which the provider is reached.
    pub fn endpoint(&self) -> (endpoint: &str)
        ensures
            endpoint@ == self@.endpoint,
    {
        self.endpoint.as_str()
    }

    /// The number of seconds after which a request is given up.
    pub fn timeout_secs(&self) -> (timeout_secs: u64)
        ensures
            timeout_secs == self@.timeout_secs,
    {
        self.timeout_secs
    }

    /// Begins the fetch of the Pokémon `name`: asks for the request of its
    /// species, with the timeout of the adapter.
    pub fn begin_fetch(&self, name: &str) -> (step: FetchStep)
        ensures
            step@ == first_step(self@, name@),
    {
        match self.species_endpoint(name) {
            Ok(url) => FetchStep::Request { url, timeout_secs: self.timeout_secs },
            Err(err) => FetchStep::Done(Err(err)),
        }
    }

    /// Continues the fetch of the Pokémon `name` with what came of the step
    /// that was asked for. No event is followed by another request: a fetch
    /// is attempted once.
    pub fn continue_fetch(&self, name: &str, event: FetchEvent) -> (step: FetchStep)
        ensures
            follows(name@, event@, step@),
            !(step is Request),
    {
        match event {
            FetchEvent::Unanswered(message) => FetchStep::Done(
                Err(PokedexAdapterError::NetworkError(message)),
            ),
            FetchEvent::Answered { status, status_text } => match check_status(
                status,
                status_text.as_str(),
            ) {
                Ok(()) => FetchStep::Decode,
                Err(err) => FetchStep::Done(Err(err)),
            },
            FetchEvent::Undecoded(message) => FetchStep::Done(
                Err(PokedexAdapterError::ParseError(message)),
            ),
            FetchEvent::Decoded(species) => FetchStep::Done(
                self.get_pokemon_data_from_species(name, species),
            ),
        }
    }

    /// Builds the URL for fetching a Pokémon species by name.
    pub fn species_endpoint(&self, name: &str) -> (outcome: PokedexAdapterResult<String>)
        ensures
            species_url_view(outcome) == species_url(self@.endpoint, name@),
    {
        match join_url(self.endpoint.as_str(), "pokemon-species/") {
            Ok(directory) => parse_error_unless_joined(join_url(directory.as_str(), name)),
            Err(message) => Err(PokedexAdapterError::ParseError(message)),
        }
    }

    /// Extracts the [`Pokemon`] data from the given species data.
    ///
    /// The description is one of the English descriptions of the species,
    /// chosen at random; a species without one is an unexpected response.
    /// The name is the one that was asked for, and the habitat and the
    /// legendary flag are those of the species.
    pub fn get_pokemon_data_from_species(&self, name: &str, species: Species) -> (outcome:
        PokedexAdapterResult<Pokemon>)
        ensures
            is_pokemon_of(name@, species@, fetch_view(outcome)),
    {
        // get a random english description. If none found, return an error.
        let candidates = english_descriptions(&species.flavor_text_entries);
        let description = choose_description(candidates);
        describe_pokemon(name, description, species.habitat, species.is_legendary)
    }
}

} // verus!
