use vstd::prelude::*;

use crate::adapters::translation::{
    TranslationAdapter, TranslationAdapterErrorView, TranslationAdapterResult, TranslationStyle,
};

verus! {

/// A mock translation adapter for testing purposes.
pub struct MockTranslationAdapter {
    /// predefined responses for shakespeare translation
    shakespeare_response: String,
    /// predefined responses for yoda translation
    yoda_response: String,
}

impl MockTranslationAdapter {
    /// The text that the adapter answers with when it is asked for `style`.
    pub closed spec fn response(self, style: TranslationStyle) -> Seq<char> {
        match style {
            TranslationStyle::Shakespeare => self.shakespeare_response@,
            TranslationStyle::Yoda => self.yoda_response@,
        }
    }

    /// Creates a new instance of [`MockTranslationAdapter`] with the given predefined responses.
    pub fn new(shakespeare_response: &str, yoda_response: &str) -> (adapter: Self)
        ensures
            adapter.response(TranslationStyle::Shakespeare) == shakespeare_response@,
            adapter.response(TranslationStyle::Yoda) == yoda_response@,
    {
        Self {
            shakespeare_response: String::from_str(shakespeare_response),
            yoda_response: String::from_str(yoda_response),
        }
    }
}

impl TranslationAdapter for MockTranslationAdapter {
    /// The adapter admits one outcome for each style, the same for every text.
    open spec fn may_translate(
        &self,
        style: TranslationStyle,
        text: Seq<char>,
        outcome: Result<Seq<char>, TranslationAdapterErrorView>,
    ) -> bool {
        outcome == Ok::<Seq<char>, TranslationAdapterErrorView>(self.response(style))
    }

    fn translate_into_shakespeare(&self, _text: &str) -> (outcome: TranslationAdapterResult<
        String,
    >) {
        Ok(self.shakespeare_response.clone())
    }

    fn translate_into_yoda(&self, _text: &str) -> (outcome: TranslationAdapterResult<String>) {
        Ok(self.yoda_response.clone())
    }
}

} // verus!
