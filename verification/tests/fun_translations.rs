use std::time::Duration;

use pokedex_api::adapters::translation::fun_translations::{
    check_status, translation_from_response, unknown_error_unless_joined, TranslateEvent,
    TranslateStep, DEFAULT_API_TIMEOUT_SECS,
};
use pokedex_api::adapters::translation::{
    FunTranslationsAdapter, TranslateContents, TranslateResponse, TranslateSuccess,
    TranslationAdapterError, TranslationStyle,
};
use url::Url;

#[test]
fn test_should_build_default_fun_translations_adapter() {
    let adapter = FunTranslationsAdapter::default();
    assert_eq!(
        adapter.endpoint(),
        "https://api.funtranslations.com/translate/"
    );
    assert_eq!(adapter.timeout_secs(), DEFAULT_API_TIMEOUT_SECS);
    assert_eq!(
        Duration::from_secs(adapter.timeout_secs()),
        Duration::from_secs(30)
    );
}

#[test]
fn test_should_build_custom_fun_translations_adapter() {
    let custom_url = Url::parse("https://custom-funtranslations.com/api/").unwrap();
    let custom_timeout = Duration::from_secs(10);
    let adapter = FunTranslationsAdapter::new(custom_url.as_str(), custom_timeout.as_secs());
    assert_eq!(adapter.endpoint(), custom_url.as_str());
    assert_eq!(Duration::from_secs(adapter.timeout_secs()), custom_timeout);
}

#[test]
fn cloned_fun_translations_adapter_keeps_its_configuration() {
    let adapter = FunTranslationsAdapter::new("https://custom-funtranslations.com/api/", 3);
    let copy = adapter.clone();
    assert_eq!(copy.endpoint(), "https://custom-funtranslations.com/api/");
    assert_eq!(copy.timeout_secs(), 3);
}

#[test]
fn test_should_get_shakespeare_url() {
    let adapter = FunTranslationsAdapter::default();
    let shakespeare_url = adapter.shakespeare_url().unwrap();
    assert_eq!(
        shakespeare_url.as_str(),
        "https://api.funtranslations.com/translate/shakespeare"
    );
}

#[test]
fn test_should_get_yoda_url() {
    let adapter = FunTranslationsAdapter::default();
    let yoda_url = adapter.yoda_url().unwrap();
    assert_eq!(
        yoda_url.as_str(),
        "https://api.funtranslations.com/translate/yoda"
    );
}

#[test]
fn translation_url_of_an_endpoint_that_is_no_url_is_an_unknown_error() {
    let adapter = FunTranslationsAdapter::new("//nowhere", 30);
    let err = adapter.shakespeare_url().unwrap_err();
    assert!(
        matches!(&err, TranslationAdapterError::UnknownError(message) if message == "relative URL without a base")
    );
    assert_eq!(
        err.to_string(),
        "Unknown error: relative URL without a base"
    );
    assert!(matches!(
        adapter.yoda_url(),
        Err(TranslationAdapterError::UnknownError(_))
    ));
}

#[test]
fn joined_url_is_kept_and_a_failure_becomes_an_unknown_error() {
    assert_eq!(
        unknown_error_unless_joined(Ok("https://api.funtranslations.com/".to_string())).unwrap(),
        "https://api.funtranslations.com/"
    );
    let err = unknown_error_unless_joined(Err("invalid port number".to_string())).unwrap_err();
    assert!(
        matches!(err, TranslationAdapterError::UnknownError(message) if message == "invalid port number")
    );
}

fn response(total: u32, translated: &str) -> TranslateResponse {
    TranslateResponse {
        success: TranslateSuccess { total },
        contents: TranslateContents {
            translated: translated.to_string(),
        },
    }
}

#[test]
fn translation_is_taken_from_a_successful_response() {
    assert_eq!(
        translation_from_response(response(1, "Learned,  you must unlearn what you have."))
            .unwrap(),
        "Learned,  you must unlearn what you have."
    );
    assert_eq!(translation_from_response(response(3, "")).unwrap(), "");
}

#[test]
fn response_without_successful_translation_is_unexpected() {
    let err = translation_from_response(response(0, "ignored")).unwrap_err();
    assert!(
        matches!(&err, TranslationAdapterError::UnexpectedResponse(message) if message == "Translation API returned unsuccessful response")
    );
    assert_eq!(
        err.to_string(),
        "Unexpected response from the API: Translation API returned unsuccessful response"
    );
}

#[test]
fn fun_translations_status_outside_success_is_an_unexpected_response() {
    for (status, text) in [
        (404, "404 Not Found"),
        (429, "429 Too Many Requests"),
        (199, "199 <unknown status code>"),
        (300, "300 Multiple Choices"),
    ] {
        let err = check_status(status, text).unwrap_err();
        assert!(
            matches!(&err, TranslationAdapterError::UnexpectedResponse(message) if *message == format!("HTTP {text}"))
        );
    }
}

#[test]
fn fun_translations_status_of_success_passes() {
    assert!(check_status(200, "200 OK").is_ok());
    assert!(check_status(299, "299 <unknown status code>").is_ok());
}

#[test]
fn translation_errors_are_reported_by_kind() {
    assert_eq!(
        TranslationAdapterError::NetworkError("timed out".to_string()).to_string(),
        "Network error: timed out"
    );
    assert_eq!(
        TranslationAdapterError::ParseError("expected value".to_string()).to_string(),
        "Parse error: expected value"
    );
    assert_eq!(
        TranslationAdapterError::UnknownError("empty host".to_string()).to_string(),
        "Unknown error: empty host"
    );
    assert_eq!(
        TranslationAdapterError::UnexpectedResponse("HTTP 500".to_string()).to_string(),
        "Unexpected response from the API: HTTP 500"
    );
}

#[test]
fn translation_begins_with_the_request_of_the_style() {
    let adapter = FunTranslationsAdapter::new("https://api.funtranslations.com/translate/", 9);
    for (style, expected) in [
        (
            TranslationStyle::Shakespeare,
            "https://api.funtranslations.com/translate/shakespeare",
        ),
        (
            TranslationStyle::Yoda,
            "https://api.funtranslations.com/translate/yoda",
        ),
    ] {
        match adapter.begin_translation(style, "A yellow electric mouse.") {
            TranslateStep::Request {
                url,
                field,
                text,
                timeout_secs,
            } => {
                assert_eq!(url, expected);
                assert_eq!(field, "text");
                assert_eq!(text, "A yellow electric mouse.");
                assert_eq!(timeout_secs, 9);
            }
            step => panic!("the translation begins with a request, not with {step:?}"),
        }
    }
}

#[test]
fn translation_ends_at_once_without_a_url() {
    let adapter = FunTranslationsAdapter::new("", 9);
    assert!(matches!(
        adapter.begin_translation(TranslationStyle::Yoda, "Hello"),
        TranslateStep::Done(Err(TranslationAdapterError::UnknownError(message)))
            if message == "relative URL without a base"
    ));
}

#[test]
fn translation_follows_what_came_of_the_request() {
    let adapter = FunTranslationsAdapter::default();
    assert!(matches!(
        adapter.continue_translation(TranslateEvent::Unanswered("connection refused".to_string())),
        TranslateStep::Done(Err(TranslationAdapterError::NetworkError(message)))
            if message == "connection refused"
    ));
    assert!(matches!(
        adapter.continue_translation(TranslateEvent::Answered {
            status: 200,
            status_text: "200 OK".to_string(),
        }),
        TranslateStep::Decode
    ));
    assert!(matches!(
        adapter.continue_translation(TranslateEvent::Answered {
            status: 429,
            status_text: "429 Too Many Requests".to_string(),
        }),
        TranslateStep::Done(Err(TranslationAdapterError::UnexpectedResponse(message)))
            if message == "HTTP 429 Too Many Requests"
    ));
    assert!(matches!(
        adapter.continue_translation(TranslateEvent::Undecoded("expected value".to_string())),
        TranslateStep::Done(Err(TranslationAdapterError::ParseError(message)))
            if message == "expected value"
    ));
    assert!(matches!(
        adapter.continue_translation(TranslateEvent::Decoded(response(1, "Thee electric mouse."))),
        TranslateStep::Done(Ok(translated)) if translated == "Thee electric mouse."
    ));
    assert!(matches!(
        adapter.continue_translation(TranslateEvent::Decoded(response(0, "Thee electric mouse."))),
        TranslateStep::Done(Err(TranslationAdapterError::UnexpectedResponse(message)))
            if message == "Translation API returned unsuccessful response"
    ));
}
