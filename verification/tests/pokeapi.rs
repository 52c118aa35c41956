use std::time::Duration;

use pokedex_api::adapters::pokedex::pokeapi::species::{FlavorTextEntry, Habitat, Language};
use pokedex_api::adapters::pokedex::pokeapi::{
    check_status, describe_pokemon, english_descriptions, parse_error_unless_joined, FetchEvent,
    FetchStep, PokeApiAdapter, Species, DEFAULT_API_TIMEOUT_SECS, LANGUAGE_ENGLISH,
};
use pokedex_api::adapters::pokedex::PokedexAdapterError;
use url::Url;

fn entry(text: &str, language: &str) -> FlavorTextEntry {
    FlavorTextEntry {
        flavor_text: text.to_string(),
        language: Language {
            name: language.to_string(),
        },
    }
}

#[test]
fn test_should_build_default_adapter() {
    let adapter = PokeApiAdapter::default();
    assert_eq!(adapter.endpoint(), "https://pokeapi.co/api/v2/");
}

#[test]
fn default_pokeapi_adapter_gives_up_after_thirty_seconds() {
    let adapter = PokeApiAdapter::default();
    assert_eq!(DEFAULT_API_TIMEOUT_SECS, 30);
    assert_eq!(adapter.timeout_secs(), 30);
}

#[test]
fn test_should_build_custom_adapter() {
    let custom_url = Url::parse("https://custom-pokeapi.com/api/").unwrap();
    let adapter = PokeApiAdapter::new(custom_url.as_str(), Duration::from_secs(10).as_secs());
    assert_eq!(adapter.endpoint(), custom_url.as_str());
    assert_eq!(
        Duration::from_secs(adapter.timeout_secs()),
        Duration::from_secs(10)
    );
}

#[test]
fn cloned_pokeapi_adapter_keeps_its_configuration() {
    let adapter = PokeApiAdapter::new("https://custom-pokeapi.com/api/", 7);
    let copy = adapter.clone();
    assert_eq!(copy.endpoint(), "https://custom-pokeapi.com/api/");
    assert_eq!(copy.timeout_secs(), 7);
}

#[test]
fn test_should_get_pokemon_species_url() {
    let adapter = PokeApiAdapter::default();
    let species_url = adapter.species_endpoint("pikachu").unwrap();
    assert_eq!(
        species_url.as_str(),
        "https://pokeapi.co/api/v2/pokemon-species/pikachu"
    );
}

#[test]
fn species_url_is_resolved_below_a_custom_endpoint() {
    let adapter = PokeApiAdapter::new("http://localhost:8080/mirror/", 5);
    assert_eq!(
        adapter.species_endpoint("mewtwo").unwrap(),
        "http://localhost:8080/mirror/pokemon-species/mewtwo"
    );
    // without a trailing slash the last segment of the endpoint is replaced
    let adapter = PokeApiAdapter::new("http://localhost:8080/mirror", 5);
    assert_eq!(
        adapter.species_endpoint("mewtwo").unwrap(),
        "http://localhost:8080/pokemon-species/mewtwo"
    );
}

#[test]
fn species_url_of_an_endpoint_that_is_no_url_is_a_parse_error() {
    let adapter = PokeApiAdapter::new("not a url", 5);
    let err = adapter.species_endpoint("pikachu").unwrap_err();
    assert!(matches!(&err, PokedexAdapterError::ParseError(message) if message == "relative URL without a base"));
    assert_eq!(err.to_string(), "Parse error: relative URL without a base");
}

#[test]
fn species_url_that_cannot_be_joined_is_a_parse_error() {
    let adapter = PokeApiAdapter::default();
    let err = adapter.species_endpoint("http://[::1").unwrap_err();
    assert!(matches!(err, PokedexAdapterError::ParseError(_)));
}

#[test]
fn joined_url_is_kept_and_a_failure_becomes_a_parse_error() {
    assert_eq!(
        parse_error_unless_joined(Ok("https://pokeapi.co/".to_string())).unwrap(),
        "https://pokeapi.co/"
    );
    let err = parse_error_unless_joined(Err("empty host".to_string())).unwrap_err();
    assert!(matches!(err, PokedexAdapterError::ParseError(message) if message == "empty host"));
}

#[test]
fn test_should_get_pokemon_data_from_species() {
    let adapter = PokeApiAdapter::default();
    let species = Species {
        flavor_text_entries: vec![
            FlavorTextEntry {
                flavor_text: "A yellow electric mouse.".to_string(),
                language: Language {
                    name: LANGUAGE_ENGLISH.to_string(),
                },
            },
            FlavorTextEntry {
                flavor_text: "Un ratón eléctrico amarillo.".to_string(),
                language: Language {
                    name: "es".to_string(),
                },
            },
        ],
        is_legendary: false,
        habitat: Some(Habitat {
            name: "forest".to_string(),
        }),
    };
    let pokemon = adapter
        .get_pokemon_data_from_species("pikachu", species)
        .unwrap();
    assert_eq!(pokemon.name, "pikachu");
    assert_eq!(pokemon.description, "A yellow electric mouse.");
    assert_eq!(pokemon.is_legendary, false);
    assert_eq!(pokemon.habitat.as_deref(), Some("forest"));
}

#[test]
fn species_without_english_description_is_an_unexpected_response() {
    let adapter = PokeApiAdapter::default();
    let species = Species {
        flavor_text_entries: vec![entry("Un ratón eléctrico amarillo.", "es")],
        is_legendary: false,
        habitat: None,
    };
    let err = adapter
        .get_pokemon_data_from_species("pikachu", species)
        .unwrap_err();
    assert!(
        matches!(&err, PokedexAdapterError::UnexpectedResponse(message) if message == "No English description found")
    );
    assert_eq!(
        err.to_string(),
        "Unexpected response from the API: No English description found"
    );

    let species = Species {
        flavor_text_entries: vec![],
        is_legendary: true,
        habitat: None,
    };
    assert!(matches!(
        adapter.get_pokemon_data_from_species("mewtwo", species),
        Err(PokedexAdapterError::UnexpectedResponse(_))
    ));
}

#[test]
fn description_is_one_of_the_english_ones() {
    let adapter = PokeApiAdapter::default();
    for _ in 0..32 {
        let species = Species {
            flavor_text_entries: vec![
                entry("Es un ratón.", "es"),
                entry("It is a mouse.", "en"),
                entry("C'est une souris.", "fr"),
                entry("It stores electricity in its cheeks.", "en"),
                entry("EN is not en.", "EN"),
            ],
            is_legendary: true,
            habitat: None,
        };
        let pokemon = adapter
            .get_pokemon_data_from_species("pikachu", species)
            .unwrap();
        assert!(
            pokemon.description == "It is a mouse."
                || pokemon.description == "It stores electricity in its cheeks."
        );
        assert_eq!(pokemon.name, "pikachu");
        assert_eq!(pokemon.habitat, None);
        assert!(pokemon.is_legendary);
    }
}

#[test]
fn english_descriptions_are_collected_in_order() {
    let entries = vec![
        entry("first", "en"),
        entry("zweite", "de"),
        entry("third", "en"),
        entry("", "en"),
        entry("en", "it"),
    ];
    assert_eq!(english_descriptions(&entries), vec!["first", "third", ""]);
    assert!(english_descriptions(&vec![]).is_empty());
}

#[test]
fn pokemon_is_made_of_the_chosen_description() {
    let pokemon = describe_pokemon(
        "zubat",
        Some("It has no eyes.".to_string()),
        Some(Habitat {
            name: "cave".to_string(),
        }),
        false,
    )
    .unwrap();
    assert_eq!(pokemon.name, "zubat");
    assert_eq!(pokemon.description, "It has no eyes.");
    assert_eq!(pokemon.habitat.as_deref(), Some("cave"));
    assert!(!pokemon.is_legendary);

    let err = describe_pokemon("zubat", None, None, false).unwrap_err();
    assert!(
        matches!(err, PokedexAdapterError::UnexpectedResponse(message) if message == "No English description found")
    );
}

#[test]
fn pokeapi_status_404_is_not_found() {
    assert!(matches!(
        check_status(404, "404 Not Found"),
        Err(PokedexAdapterError::NotFound)
    ));
}

#[test]
fn pokeapi_status_outside_success_is_an_unexpected_response() {
    for (status, text) in [
        (199, "199 <unknown status code>"),
        (300, "300 Multiple Choices"),
        (500, "500 Internal Server Error"),
        (100, "100 Continue"),
    ] {
        let err = check_status(status, text).unwrap_err();
        assert!(
            matches!(&err, PokedexAdapterError::UnexpectedResponse(message) if *message == format!("HTTP {text}"))
        );
    }
    assert_eq!(
        check_status(500, "500 Internal Server Error")
            .unwrap_err()
            .to_string(),
        "Unexpected response from the API: HTTP 500 Internal Server Error"
    );
}

#[test]
fn pokeapi_status_of_success_passes() {
    assert!(check_status(200, "200 OK").is_ok());
    assert!(check_status(204, "204 No Content").is_ok());
    assert!(check_status(299, "299 <unknown status code>").is_ok());
}

#[test]
fn fetch_begins_with_the_request_of_the_species() {
    let adapter = PokeApiAdapter::new("https://pokeapi.co/api/v2/", 12);
    match adapter.begin_fetch("pikachu") {
        FetchStep::Request { url, timeout_secs } => {
            assert_eq!(url, "https://pokeapi.co/api/v2/pokemon-species/pikachu");
            assert_eq!(timeout_secs, 12);
        }
        step => panic!("the fetch begins with a request, not with {step:?}"),
    }
    match PokeApiAdapter::default().begin_fetch("mewtwo") {
        FetchStep::Request { url, timeout_secs } => {
            assert_eq!(url, "https://pokeapi.co/api/v2/pokemon-species/mewtwo");
            assert_eq!(timeout_secs, 30);
        }
        step => panic!("the fetch begins with a request, not with {step:?}"),
    }
}

#[test]
fn fetch_ends_at_once_without_a_url() {
    let adapter = PokeApiAdapter::new("pokeapi", 12);
    assert!(matches!(
        adapter.begin_fetch("pikachu"),
        FetchStep::Done(Err(PokedexAdapterError::ParseError(message)))
            if message == "relative URL without a base"
    ));
}

#[test]
fn request_without_answer_ends_the_fetch_with_a_network_error() {
    let adapter = PokeApiAdapter::default();
    assert!(matches!(
        adapter.continue_fetch("pikachu", FetchEvent::Unanswered("operation timed out".to_string())),
        FetchStep::Done(Err(PokedexAdapterError::NetworkError(message)))
            if message == "operation timed out"
    ));
}

#[test]
fn answer_is_judged_by_its_status() {
    let adapter = PokeApiAdapter::default();
    let answered = |status: u16, status_text: &str| FetchEvent::Answered {
        status,
        status_text: status_text.to_string(),
    };
    assert!(matches!(
        adapter.continue_fetch("pikachu", answered(200, "200 OK")),
        FetchStep::Decode
    ));
    assert!(matches!(
        adapter.continue_fetch("missingno", answered(404, "404 Not Found")),
        FetchStep::Done(Err(PokedexAdapterError::NotFound))
    ));
    assert!(matches!(
        adapter.continue_fetch("pikachu", answered(503, "503 Service Unavailable")),
        FetchStep::Done(Err(PokedexAdapterError::UnexpectedResponse(message)))
            if message == "HTTP 503 Service Unavailable"
    ));
}

#[test]
fn body_that_is_not_decoded_ends_the_fetch_with_a_parse_error() {
    let adapter = PokeApiAdapter::default();
    assert!(matches!(
        adapter.continue_fetch("pikachu", FetchEvent::Undecoded("missing field `habitat`".to_string())),
        FetchStep::Done(Err(PokedexAdapterError::ParseError(message)))
            if message == "missing field `habitat`"
    ));
}

#[test]
fn decoded_species_ends_the_fetch_with_its_pokemon() {
    let adapter = PokeApiAdapter::default();
    let species = Species {
        flavor_text_entries: vec![entry("It has no eyes.", "en")],
        is_legendary: false,
        habitat: Some(Habitat {
            name: "cave".to_string(),
        }),
    };
    match adapter.continue_fetch("zubat", FetchEvent::Decoded(species)) {
        FetchStep::Done(Ok(pokemon)) => {
            assert_eq!(pokemon.name, "zubat");
            assert_eq!(pokemon.description, "It has no eyes.");
            assert_eq!(pokemon.habitat.as_deref(), Some("cave"));
            assert!(!pokemon.is_legendary);
        }
        step => panic!("the fetch ends with the pokemon, not with {step:?}"),
    }
    let species = Species {
        flavor_text_entries: vec![entry("Non ha occhi.", "it")],
        is_legendary: false,
        habitat: None,
    };
    assert!(matches!(
        adapter.continue_fetch("zubat", FetchEvent::Decoded(species)),
        FetchStep::Done(Err(PokedexAdapterError::UnexpectedResponse(message)))
            if message == "No English description found"
    ));
}
