//! The contract of the adapter that translates a text into one of two styles.

pub mod fun_translations;
pub mod mock;

use vstd::prelude::*;

pub use self::fun_translations::{
    FunTranslationsAdapter, FunTranslationsAdapterView, TranslateContents, TranslateResponse,
    TranslateResponseView, TranslateSuccess, DEFAULT_FUN_TRANSLATIONS_ENDPOINT,
};
pub use self::mock::MockTranslationAdapter;

verus! {

/// Result type for [`TranslationAdapter`] operations
pub type TranslationAdapterResult<T> = Result<T, TranslationAdapterError>;

/// Errors that can occur while interacting with the [`TranslationAdapter`]
#[derive(Debug)]
pub enum TranslationAdapterError {
    /// The request did not reach the provider, or no answer came back.
    NetworkError(String),
    /// The answer could not be decoded.
    ParseError(String),
    /// The request could not be built.
    UnknownError(String),
    /// The provider answered, but without a translation.
    UnexpectedResponse(String),
}

/// The mathematical value of a [`TranslationAdapterError`].
pub ghost enum TranslationAdapterErrorView {
    NetworkError(Seq<char>),
    ParseError(Seq<char>),
    UnknownError(Seq<char>),
    UnexpectedResponse(Seq<char>),
}

impl TranslationAdapterErrorView {
    /// The text by which the error is reported.
    pub open spec fn message(self) -> Seq<char> {
        match self {
            TranslationAdapterErrorView::NetworkError(detail) => "Network error: "@ + detail,
            TranslationAdapterErrorView::ParseError(detail) => "Parse error: "@ + detail,
            TranslationAdapterErrorView::UnknownError(detail) => "Unknown error: "@ + detail,
            TranslationAdapterErrorView::UnexpectedResponse(detail) => "Unexpected response from the API: "@
                + detail,
        }
    }
}

impl View for TranslationAdapterError {
    type V = TranslationAdapterErrorView;

    open spec fn view(&self) -> TranslationAdapterErrorView {
        match self {
            TranslationAdapterError::NetworkError(detail) => TranslationAdapterErrorView::NetworkError(
                detail@,
            ),
            TranslationAdapterError::ParseError(detail) => TranslationAdapterErrorView::ParseError(
                detail@,
            ),
            TranslationAdapterError::UnknownError(detail) => TranslationAdapterErrorView::UnknownError(
                detail@,
            ),
            TranslationAdapterError::UnexpectedResponse(detail) => TranslationAdapterErrorView::UnexpectedResponse(
                detail@,
            ),
        }
    }
}

impl TranslationAdapterError {
    /// The text by which the error is reported.
    pub fn to_string(&self) -> (text: String)
        ensures
            text@ == self@.message(),
    {
        match self {
            TranslationAdapterError::NetworkError(detail) => String::from_str(
                "Network error: ",
            ).concat(detail.as_str()),
            TranslationAdapterError::ParseError(detail) => String::from_str("Parse error: ").concat(
                detail.as_str(),
            ),
            TranslationAdapterError::UnknownError(detail) => String::from_str(
                "Unknown error: ",
            ).concat(detail.as_str()),
            TranslationAdapterError::UnexpectedResponse(detail) => String::from_str(
                "Unexpected response from the API: ",
            ).concat(detail.as_str()),
        }
    }
}

/// The two styles into which a text can be translated.
#[derive(Debug, Clone, Copy, PartialEq, Eq, Structural)]
pub enum TranslationStyle {
    /// Shakespearean-style speech.
    Shakespeare,
    /// Yoda-style speech.
    Yoda,
}

/// The view of what a translation returned.
pub open spec fn translation_view(outcome: TranslationAdapterResult<String>) -> Result<
    Seq<char>,
    TranslationAdapterErrorView,
> {
    match outcome {
        Ok(text) => Ok(text@),
        Err(err) => Err(err@),
    }
}

/// The `TranslationAdapter` trait defines the interface for translating text into different styles.
pub trait TranslationAdapter {
    /// Whether `outcome` is an answer that this adapter may give when it is
    /// asked to translate `text` into `style`. An adapter that says nothing of
    /// itself admits every outcome.
    open spec fn may_translate(
        &self,
        style: TranslationStyle,
        text: Seq<char>,
        outcome: Result<Seq<char>, TranslationAdapterErrorView>,
    ) -> bool {
        true
    }

    /// Translates the given text into Shakespearean-style speech.
    fn translate_into_shakespeare(&self, text: &str) -> (outcome: TranslationAdapterResult<String>)
        ensures
            self.may_translate(TranslationStyle::Shakespeare, text@, translation_view(outcome)),
    ;

    /// Translates the given text into Yoda-style speech.
    fn translate_into_yoda(&self, text: &str) -> (outcome: TranslationAdapterResult<String>)
        ensures
            self.may_translate(TranslationStyle::Yoda, text@, translation_view(outcome)),
    ;
}

} // verus!
