use vstd::prelude::*;

use crate::adapters::pokedex::{
    fetch_view, PokedexAdapter, PokedexAdapterError, PokedexAdapterErrorView,
    PokedexAdapterResult,
};
use crate::adapters::translation::{
    translation_view, TranslationAdapter, TranslationAdapterErrorView, TranslationAdapterResult,
    TranslationStyle,
};
use crate::model::{Pokemon, PokemonView};
use crate::web::AppState;

verus! {

/// The status under which an endpoint reports that it has no Pokémon to give.
#[derive(Debug, Clone, Copy, PartialEq, Eq, Structural)]
pub enum StatusCode {
    /// No Pokémon has the name that was asked for.
    NotFound,
    /// The lookup failed for any other reason.
    InternalServerError,
}

impl StatusCode {
    /// The number of the status on the wire.
    pub open spec fn code(self) -> int {
        match self {
            StatusCode::NotFound => 404,
            StatusCode::InternalServerError => 500,
        }
    }

    /// The number of the status on the wire.
    pub fn as_u16(&self) -> (code: u16)
        ensures
            code == self.code(),
    {
        match self {
            StatusCode::NotFound => 404,
            StatusCode::InternalServerError => 500,
        }
    }
}

/// What an endpoint answers: the Pokémon, or a status and the message that goes with it.
pub type Response = Result<Pokemon, (StatusCode, String)>;

/// The mathematical value of a [`Response`].
pub type ResponseView = Result<PokemonView, (StatusCode, Seq<char>)>;

/// The view of a response.
pub open spec fn response_view(response: Response) -> ResponseView {
    match response {
        Ok(pokemon) => Ok(pokemon@),
        Err((status, message)) => Err((status, message@)),
    }
}

/// The answer of the plain endpoint to what the pokedex adapter returned: the
/// Pokémon as it was fetched; not-found where there is none; an internal
/// error with the adapter's message for every other failure.
pub open spec fn pokemon_response(
    fetched: Result<PokemonView, PokedexAdapterErrorView>,
) -> ResponseView {
    match fetched {
        Ok(pokemon) => Ok(pokemon),
        Err(PokedexAdapterErrorView::NotFound) => Err(
            (StatusCode::NotFound, "Pokemon not found"@),
        ),
        Err(err) => Err((StatusCode::InternalServerError, err.message())),
    }
}

/// The style into which the description of `pokemon` is translated: Yoda for a
/// legendary Pokémon and for one that lives in a cave, Shakespeare for every other.
pub open spec fn style_for(pokemon: PokemonView) -> TranslationStyle {
    if pokemon.is_legendary || pokemon.habitat == Some("cave"@) {
        TranslationStyle::Yoda
    } else {
        TranslationStyle::Shakespeare
    }
}

/// The Pokémon that the translated endpoint gives for a fetched `pokemon` and
/// what the translation adapter returned: the description is replaced where
/// the translation succeeded, and the Pokémon is left as it was where it failed.
pub open spec fn translated_pokemon(
    pokemon: PokemonView,
    translated: Result<Seq<char>, TranslationAdapterErrorView>,
) -> PokemonView {
    match translated {
        Ok(description) => pokemon.with_description(description),
        Err(_) => pokemon,
    }
}

/// What the translated endpoint does once the pokedex adapter has returned.
#[derive(Debug)]
pub enum TranslationStep {
    /// The description of `pokemon` is to be translated into `style`.
    Translate { pokemon: Pokemon, style: TranslationStyle },
    /// The request is answered with a failure, and nothing is translated.
    Fail { status: StatusCode, message: String },
}

/// The mathematical value of a [`TranslationStep`].
pub ghost enum TranslationStepView {
    Translate { pokemon: PokemonView, style: TranslationStyle },
    Fail { status: StatusCode, message: Seq<char> },
}

impl View for TranslationStep {
    type V = TranslationStepView;

    open spec fn view(&self) -> TranslationStepView {
        match self {
            TranslationStep::Translate { pokemon, style } => TranslationStepView::Translate {
                pokemon: pokemon@,
                style: *style,
            },
            TranslationStep::Fail { status, message } => TranslationStepView::Fail {
                status: *status,
                message: message@,
            },
        }
    }
}

/// The step that follows what the pokedex adapter returned: a Pokémon is
/// translated into the style that its attributes select; a failure is
/// reported under its status, with the adapter's message.
pub open spec fn next_step(
    fetched: Result<PokemonView, PokedexAdapterErrorView>,
) -> TranslationStepView {
    match fetched {
        Ok(pokemon) => TranslationStepView::Translate { pokemon, style: style_for(pokemon) },
        Err(err) => TranslationStepView::Fail {
            status: if err is NotFound {
                StatusCode::NotFound
            } else {
                StatusCode::InternalServerError
            },
            message: err.message(),
        },
    }
}

/// The answer of the translated endpoint to what the two adapters returned.
/// Where the fetch failed, `translated` plays no part.
pub open spec fn translated_pokemon_response(
    fetched: Result<PokemonView, PokedexAdapterErrorView>,
    translated: Result<Seq<char>, TranslationAdapterErrorView>,
) -> ResponseView {
    match next_step(fetched) {
        TranslationStepView::Translate { pokemon, style } => Ok(
            translated_pokemon(pokemon, translated),
        ),
        TranslationStepView::Fail { status, message } => Err((status, message)),
    }
}

/// Whether `response` is an answer of the plain endpoint of `state` to
/// `name`: the one that [`pokemon_response`] gives for an outcome that the
/// pokedex adapter admits.
pub open spec fn is_pokemon_answer<P, T>(
    state: AppState<P, T>,
    name: Seq<char>,
    response: ResponseView,
) -> bool
    where
        P: PokedexAdapter + Send + Sync + 'static,
        T: TranslationAdapter + Send + Sync + 'static,
{
    exists|fetched: Result<PokemonView, PokedexAdapterErrorView>|
        #[trigger] state.pokedex_adapter.may_fetch(name, fetched) && response == pokemon_response(
            fetched,
        )
}

/// Whether `response` is an answer of the translated endpoint of `state` to
/// `name`: the one that [`translated_pokemon_response`] gives for an outcome
/// that the pokedex adapter admits and, where that is a Pokémon, for an
/// outcome that the translation adapter admits for its description, in the
/// style that [`style_for`] selects for it.
pub open spec fn is_translated_answer<P, T>(
    state: AppState<P, T>,
    name: Seq<char>,
    response: ResponseView,
) -> bool
    where
        P: PokedexAdapter + Send + Sync + 'static,
        T: TranslationAdapter + Send + Sync + 'static,
{
    exists|
        fetched: Result<PokemonView, PokedexAdapterErrorView>,
        translated: Result<Seq<char>, TranslationAdapterErrorView>,
    |
        {
            &&& state.pokedex_adapter.may_fetch(name, fetched)
            &&& fetched matches Ok(pokemon) ==> state.translation_adapter.may_translate(
                style_for(pokemon),
                pokemon.description,
                translated,
            )
            &&& response == #[trigger] translated_pokemon_response(fetched, translated)
        }
}

/// Answers the plain endpoint from what the pokedex adapter returned.
pub fn respond_with_pokemon(fetched: PokedexAdapterResult<Pokemon>) -> (response: Response)
    ensures
        response_view(response) == pokemon_response(fetch_view(fetched)),
{
    match fetched {
        Ok(pokemon) => Ok(pokemon),
        Err(PokedexAdapterError::NotFound) => Err(
            (StatusCode::NotFound, String::from_str("Pokemon not found")),
        ),
        Err(err) => Err((StatusCode::InternalServerError, err.to_string())),
    }
}

/// Selects the style into which the description of `pokemon` is translated.
pub fn select_style(pokemon: &Pokemon) -> (style: TranslationStyle)
    ensures
        style == style_for(pokemon@),
{
    let cave = String::from_str("cave");
    let lives_in_cave = match &pokemon.habitat {
        Some(habitat) => *habitat == cave,
        None => false,
    };
    if pokemon.is_legendary || lives_in_cave {
        TranslationStyle::Yoda
    } else {
        TranslationStyle::Shakespeare
    }
}

/// Decides what the translated endpoint does with what the pokedex adapter returned.
pub fn after_fetch(fetched: PokedexAdapterResult<Pokemon>) -> (step: TranslationStep)
    ensures
        step@ == next_step(fetch_view(fetched)),
{
    match fetched {
        Ok(pokemon) => {
            let style = select_style(&pokemon);
            TranslationStep::Translate { pokemon, style }
        },
        Err(err) => {
            let status = match err {
                PokedexAdapterError::NotFound => StatusCode::NotFound,
                _ => StatusCode::InternalServerError,
            };
            TranslationStep::Fail { status, message: err.to_string() }
        },
    }
}

/// Applies what the translation adapter returned to the fetched `pokemon`:
/// a translation replaces the description, a failure leaves the Pokémon as it was.
pub fn apply_translation(
    pokemon: Pokemon,
    translated: TranslationAdapterResult<String>,
) -> (answer: Pokemon)
    ensures
        answer@ == translated_pokemon(pokemon@, translation_view(translated)),
        answer.name == pokemon.name,
        answer.habitat == pokemon.habitat,
        answer.is_legendary == pokemon.is_legendary,
        match translated {
            Ok(description) => answer.description == description,
            Err(_) => answer.description == pokemon.description,
        },
{
    match translated {
        Ok(translated_description) => pokemon.with_description(translated_description),
        Err(_) => pokemon,
    }
}

/// GET /pokemon/{name} endpoint handler.
///
/// The Pokémon is fetched, once, and the answer is made of what the pokedex
/// adapter returned.
pub fn get_pokemon<P, T>(state: &AppState<P, T>, name: &str) -> (response: Response)
    where
        P: PokedexAdapter + Send + Sync + 'static,
        T: TranslationAdapter + Send + Sync + 'static,
    ensures
        is_pokemon_answer(*state, name@, response_view(response)),
{
    let fetched = state.pokedex_adapter.fetch_pokemon_by_name(name);
    respond_with_pokemon(fetched)
}

/// GET /pokemon/translated/{name} endpoint handler.
///
/// The Pokémon is fetched; its description is then translated into the style
/// that [`style_for`] selects, and into no other. The answer is made of what
/// the two adapters returned; where the fetch failed, nothing is translated.
pub fn get_translated_pokemon<P, T>(state: &AppState<P, T>, name: &str) -> (response: Response)
    where
        P: PokedexAdapter + Send + Sync + 'static,
        T: TranslationAdapter + Send + Sync + 'static,
    ensures
        is_translated_answer(*state, name@, response_view(response)),
{
    let fetched = state.pokedex_adapter.fetch_pokemon_by_name(name);
    let ghost fetched_view = fetch_view(fetched);
    match after_fetch(fetched) {
        TranslationStep::Translate { pokemon, style } => {
            // Translate the description based on whether the pokemon is legendary or from a cave habitat
            let translated = match style {
                TranslationStyle::Yoda => state.translation_adapter.translate_into_yoda(
                    pokemon.description.as_str(),
                ),
                TranslationStyle::Shakespeare => state.translation_adapter.translate_into_shakespeare(
                    pokemon.description.as_str(),
                ),
            };
            let ghost translated_view = translation_view(translated);
            // we return the pokemon data as it was fetched if translation fails
            let answer = apply_translation(pokemon, translated);
            // the outcomes of the two adapters account for the answer
            assert(Ok::<PokemonView, (StatusCode, Seq<char>)>(answer@)
                == translated_pokemon_response(fetched_view, translated_view));
            Ok(answer)
        },
        TranslationStep::Fail { status, message } => {
            // nothing was translated: any outcome of a translation accounts for the answer
            assert(Err::<PokemonView, (StatusCode, Seq<char>)>((status, message@))
                == translated_pokemon_response(
                fetched_view,
                Ok::<Seq<char>, TranslationAdapterErrorView>(Seq::empty()),
            ));
            Err((status, message))
        },
    }
}

/// A legendary Pokémon is translated into Yoda's style, whatever its habitat.
pub proof fn lemma_legendary_is_translated_into_yoda(pokemon: PokemonView)
    requires
        pokemon.is_legendary,
    ensures
        style_for(pokemon) == TranslationStyle::Yoda,
        next_step(Ok(pokemon)) == (TranslationStepView::Translate {
            pokemon,
            style: TranslationStyle::Yoda,
        }),
{
}

/// A Pokémon that lives in a cave is translated into Yoda's style, legendary or not.
pub proof fn lemma_cave_dweller_is_translated_into_yoda(pokemon: PokemonView)
    requires
        pokemon.habitat == Some("cave"@),
    ensures
        style_for(pokemon) == TranslationStyle::Yoda,
        next_step(Ok(pokemon)) == (TranslationStepView::Translate {
            pokemon,
            style: TranslationStyle::Yoda,
        }),
{
}

/// A Pokémon that is not legendary and does not live in a cave is translated
/// into Shakespeare's style.
pub proof fn lemma_ordinary_is_translated_into_shakespeare(pokemon: PokemonView)
    requires
        !pokemon.is_legendary,
        pokemon.habitat != Some("cave"@),
    ensures
        style_for(pokemon) == TranslationStyle::Shakespeare,
        next_step(Ok(pokemon)) == (TranslationStepView::Translate {
            pokemon,
            style: TranslationStyle::Shakespeare,
        }),
{
}

/// Where the pokedex adapter finds no Pokémon, both endpoints answer
/// not-found, and the translated endpoint does so without a translation:
/// the step after the fetch is a failure, and the answer is the same
/// whatever a translation would have returned.
pub proof fn lemma_unknown_pokemon_is_not_translated(
    translated: Result<Seq<char>, TranslationAdapterErrorView>,
)
    ensures
        pokemon_response(Err(PokedexAdapterErrorView::NotFound)) matches Err((status, _))
            && status == StatusCode::NotFound,
        next_step(Err(PokedexAdapterErrorView::NotFound)) == (TranslationStepView::Fail {
            status: StatusCode::NotFound,
            message: PokedexAdapterErrorView::NotFound.message(),
        }),
        translated_pokemon_response(Err(PokedexAdapterErrorView::NotFound), translated) == Err::<
            PokemonView,
            (StatusCode, Seq<char>),
        >((StatusCode::NotFound, PokedexAdapterErrorView::NotFound.message())),
{
}

/// Where the pokedex adapter of `state` admits no outcome for `name` but
/// that there is no such Pokémon, both endpoints answer not-found, whatever
/// the translation adapter of `state` admits.
pub proof fn lemma_unknown_pokemon_is_answered_not_found<P, T>(
    state: AppState<P, T>,
    name: Seq<char>,
    response: ResponseView,
)
    where
        P: PokedexAdapter + Send + Sync + 'static,
        T: TranslationAdapter + Send + Sync + 'static,
    requires
        forall|fetched: Result<PokemonView, PokedexAdapterErrorView>| #[trigger]
            state.pokedex_adapter.may_fetch(name, fetched) ==> fetched == Err::<
                PokemonView,
                PokedexAdapterErrorView,
            >(PokedexAdapterErrorView::NotFound),
    ensures
        is_pokemon_answer(state, name, response) ==> response == Err::<
            PokemonView,
            (StatusCode, Seq<char>),
        >((StatusCode::NotFound, "Pokemon not found"@)),
        is_translated_answer(state, name, response) ==> response == Err::<
            PokemonView,
            (StatusCode, Seq<char>),
        >((StatusCode::NotFound, PokedexAdapterErrorView::NotFound.message())),
{
}

/// Where the pokedex adapter of `state` admits `pokemon` and nothing else
/// for `name`, and the translation adapter admits `translated` and nothing
/// else for the description of `pokemon` in the style that its attributes
/// select, the translated endpoint answers with `pokemon` as `translated`
/// changes it. What the translation adapter admits for the other style plays
/// no part.
pub proof fn lemma_selected_style_decides_the_answer<P, T>(
    state: AppState<P, T>,
    name: Seq<char>,
    pokemon: PokemonView,
    translated: Result<Seq<char>, TranslationAdapterErrorView>,
    response: ResponseView,
)
    where
        P: PokedexAdapter + Send + Sync + 'static,
        T: TranslationAdapter + Send + Sync + 'static,
    requires
        forall|fetched: Result<PokemonView, PokedexAdapterErrorView>| #[trigger]
            state.pokedex_adapter.may_fetch(name, fetched) ==> fetched == Ok::<
                PokemonView,
                PokedexAdapterErrorView,
            >(pokemon),
        forall|outcome: Result<Seq<char>, TranslationAdapterErrorView>| #[trigger]
            state.translation_adapter.may_translate(
                style_for(pokemon),
                pokemon.description,
                outcome,
            ) ==> outcome == translated,
        is_translated_answer(state, name, response),
    ensures
        response == Ok::<PokemonView, (StatusCode, Seq<char>)>(
            translated_pokemon(pokemon, translated),
        ),
        translated is Err ==> response == Ok::<PokemonView, (StatusCode, Seq<char>)>(pokemon),
{
}

/// Where the translation fails, the translated endpoint answers with the
/// Pokémon as it was fetched: the description and every other field unchanged.
pub proof fn lemma_failed_translation_keeps_pokemon(
    pokemon: PokemonView,
    err: TranslationAdapterErrorView,
)
    ensures
        translated_pokemon(pokemon, Err(err)) == pokemon,
        translated_pokemon_response(Ok(pokemon), Err(err)) == Ok::<
            PokemonView,
            (StatusCode, Seq<char>),
        >(pokemon),
{
}

/// Whatever the translation returned, the Pokémon that the translated
/// endpoint answers with has the name, the habitat and the legendary flag of
/// the one that was fetched; where the translation succeeded, its
/// description is the translated text.
pub proof fn lemma_translation_changes_description_only(
    pokemon: PokemonView,
    translated: Result<Seq<char>, TranslationAdapterErrorView>,
)
    ensures
        translated_pokemon(pokemon, translated).name == pokemon.name,
        translated_pokemon(pokemon, translated).habitat == pokemon.habitat,
        translated_pokemon(pokemon, translated).is_legendary == pokemon.is_legendary,
        translated matches Ok(description) ==> translated_pokemon(pokemon, translated).description
            == description,
        translated_pokemon_response(Ok(pokemon), translated) == Ok::<
            PokemonView,
            (StatusCode, Seq<char>),
        >(translated_pokemon(pokemon, translated)),
{
}

} // verus!
