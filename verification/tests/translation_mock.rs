use pokedex_api::adapters::translation::{MockTranslationAdapter, TranslationAdapter};

#[test]
fn test_mock_translation_adapter() {
    let mock_adapter = MockTranslationAdapter::new(
        "To be, or not to be, that is the question.",
        "Do or do not, there is no try.",
    );

    let shakespeare_result = mock_adapter.translate_into_shakespeare("Hello").unwrap();
    assert_eq!(
        shakespeare_result,
        "To be, or not to be, that is the question."
    );

    let yoda_result = mock_adapter.translate_into_yoda("Hello").unwrap();
    assert_eq!(yoda_result, "Do or do not, there is no try.");
}

#[test]
fn mock_translation_ignores_the_text() {
    let mock_adapter = MockTranslationAdapter::new("thou", "you, hmm");

    assert_eq!(mock_adapter.translate_into_shakespeare("").unwrap(), "thou");
    assert_eq!(
        mock_adapter
            .translate_into_shakespeare("A yellow electric mouse.")
            .unwrap(),
        "thou"
    );
    assert_eq!(mock_adapter.translate_into_yoda("").unwrap(), "you, hmm");
    assert_eq!(
        mock_adapter
            .translate_into_yoda("A yellow electric mouse.")
            .unwrap(),
        "you, hmm"
    );
}
