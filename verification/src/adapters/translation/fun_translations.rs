use vstd::prelude::*;

pub use self::response::{
    TranslateContents, TranslateResponse, TranslateResponseView, TranslateSuccess,
};
use crate::adapters::endpoint::{join_url, url_join, url_view};
use crate::adapters::translation::{
    translation_view, TranslationAdapterError, TranslationAdapterErrorView,
    TranslationAdapterResult, TranslationStyle,
};

pub mod response;

verus! {

/// The number of seconds after which a call to the provider is given up, unless configured.
pub const DEFAULT_API_TIMEOUT_SECS: u64 = 30;

/// The endpoint of the Fun Translations service, unless configured.
pub const DEFAULT_FUN_TRANSLATIONS_ENDPOINT: &'static str =
    "https://api.funtranslations.com/translate/";

/// Adapter for Fun Translations API: the endpoint and the timeout of its
/// requests, and what it makes of the provider's answers.
#[derive(Debug)]
pub struct FunTranslationsAdapter {
    endpoint: String,
    timeout_secs: u64,
}

/// The mathematical value of a [`FunTranslationsAdapter`].
pub ghost struct FunTranslationsAdapterView {
    pub endpoint: Seq<char>,
    pub timeout_secs: u64,
}

impl View for FunTranslationsAdapter {
    type V = FunTranslationsAdapterView;

    closed spec fn view(&self) -> FunTranslationsAdapterView {
        FunTranslationsAdapterView { endpoint: self.endpoint@, timeout_secs: self.timeout_secs }
    }
}

impl Default for FunTranslationsAdapter {
    fn default() -> (adapter: Self)
        ensures
            adapter@ == (FunTranslationsAdapterView {
                endpoint: DEFAULT_FUN_TRANSLATIONS_ENDPOINT@,
                timeout_secs: DEFAULT_API_TIMEOUT_SECS,
            }),
    {
        Self {
            endpoint: String::from_str(DEFAULT_FUN_TRANSLATIONS_ENDPOINT),
            timeout_secs: DEFAULT_API_TIMEOUT_SECS,
        }
    }
}

impl Clone for FunTranslationsAdapter {
    fn clone(&self) -> (copy: Self)
        ensures
            copy@ == self@,
    {
        Self { endpoint: self.endpoint.clone(), timeout_secs: self.timeout_secs }
    }
}

/// The path, below the endpoint, under which the provider translates into `style`.
pub open spec fn style_path(style: TranslationStyle) -> Seq<char> {
    match style {
        TranslationStyle::Shakespeare => "shakespeare"@,
        TranslationStyle::Yoda => "yoda"@,
    }
}

/// A URL as it was joined, or the unknown error that reports why it was not.
pub open spec fn joined_or_unknown_error(joined: Result<Seq<char>, Seq<char>>) -> Result<
    Seq<char>,
    TranslationAdapterErrorView,
> {
    match joined {
        Ok(url) => Ok(url),
        Err(message) => Err(TranslationAdapterErrorView::UnknownError(message)),
    }
}

/// The URL under which the provider translates into `style`, for an adapter
/// of the given `endpoint`.
pub open spec fn translation_url(endpoint: Seq<char>, style: TranslationStyle) -> Result<
    Seq<char>,
    TranslationAdapterErrorView,
> {
    joined_or_unknown_error(url_join(endpoint, style_path(style)))
}

/// What the adapter makes of the status of the provider's answer, where
/// `status_text` is the status as it is displayed: an unexpected response
/// for every status outside 200 to 299, and no failure inside.
pub open spec fn status_failure(status: u16, status_text: Seq<char>) -> Option<
    TranslationAdapterErrorView,
> {
    if !(200 <= status < 300) {
        Some(TranslationAdapterErrorView::UnexpectedResponse("HTTP "@ + status_text))
    } else {
        None
    }
}

/// The translation that an answer of the provider holds: the translated
/// text, unless the provider counts no translation that succeeded.
pub open spec fn translation_of(response: TranslateResponseView) -> Result<
    Seq<char>,
    TranslationAdapterErrorView,
> {
    if response.total == 0 {
        Err(
            TranslationAdapterErrorView::UnexpectedResponse(
                "Translation API returned unsuccessful response"@,
            ),
        )
    } else {
        Ok(response.translated)
    }
}

/// The field of the form in which the text to translate is sent.
pub const TEXT_FIELD: &'static str = "text";

/// What the adapter is told of the request that it asked for.
#[derive(Debug)]
pub enum TranslateEvent {
    /// No answer came: the request could not be sent, or it was given up.
    Unanswered(String),
    /// The provider answered with `status`, which is displayed as `status_text`.
    Answered { status: u16, status_text: String },
    /// The body of the answer could not be decoded.
    Undecoded(String),
    /// The body of the answer was decoded into this response.
    Decoded(TranslateResponse),
}

/// What the adapter asks for next.
#[derive(Debug)]
pub enum TranslateStep {
    /// A form that holds `text` in its field `field` is to be posted to `url`,
    /// and the request given up after `timeout_secs` seconds.
    Request { url: String, field: String, text: String, timeout_secs: u64 },
    /// The body of the answer is to be decoded.
    Decode,
    /// The translation is over, with this outcome.
    Done(TranslationAdapterResult<String>),
}

/// The mathematical value of a [`TranslateEvent`].
pub ghost enum TranslateEventView {
    Unanswered(Seq<char>),
    Answered { status: u16, status_text: Seq<char> },
    Undecoded(Seq<char>),
    Decoded(TranslateResponseView),
}

/// The mathematical value of a [`TranslateStep`].
pub ghost enum TranslateStepView {
    Request { url: Seq<char>, field: Seq<char>, text: Seq<char>, timeout_secs: u64 },
    Decode,
    Done(Result<Seq<char>, TranslationAdapterErrorView>),
}

impl View for TranslateEvent {
    type V = TranslateEventView;

    open spec fn view(&self) -> TranslateEventView {
        match self {
            TranslateEvent::Unanswered(message) => TranslateEventView::Unanswered(message@),
            TranslateEvent::Answered { status, status_text } => TranslateEventView::Answered {
                status: *status,
                status_text: status_text@,
            },
            TranslateEvent::Undecoded(message) => TranslateEventView::Undecoded(message@),
            TranslateEvent::Decoded(response) => TranslateEventView::Decoded(response@),
        }
    }
}

impl View for TranslateStep {
    type V = TranslateStepView;

    open spec fn view(&self) -> TranslateStepView {
        match self {
            TranslateStep::Request { url, field, text, timeout_secs } => TranslateStepView::Request {
                url: url@,
                field: field@,
                text: text@,
                timeout_secs: *timeout_secs,
            },
            TranslateStep::Decode => TranslateStepView::Decode,
            TranslateStep::Done(outcome) => TranslateStepView::Done(translation_view(*outcome)),
        }
    }
}

/// The step with which the translation of `text` into `style` begins: the
/// request that posts the text to the URL of the style, with the timeout of
/// the adapter, or the end of the translation where there is no such URL.
pub open spec fn first_step(
    adapter: FunTranslationsAdapterView,
    style: TranslationStyle,
    text: Seq<char>,
) -> TranslateStepView {
    match translation_url(adapter.endpoint, style) {
        Ok(url) => TranslateStepView::Request {
            url,
            field: TEXT_FIELD@,
            text,
            timeout_secs: adapter.timeout_secs,
        },
        Err(err) => TranslateStepView::Done(Err(err)),
    }
}

/// The step that follows `event` in a translation.
///
/// A request without an answer ends the translation with a network error.
/// An answer is judged by its status: a failure ends the translation, and
/// the body is decoded otherwise. A body that cannot be decoded ends the
/// translation with a parse error, and a response ends it with the
/// translation that it holds.
pub open spec fn step_after(event: TranslateEventView) -> TranslateStepView {
    match event {
        TranslateEventView::Unanswered(message) => TranslateStepView::Done(
            Err(TranslationAdapterErrorView::NetworkError(message)),
        ),
        TranslateEventView::Answered { status, status_text } => match status_failure(
            status,
            status_text,
        ) {
            Some(err) => TranslateStepView::Done(Err(err)),
            None => TranslateStepView::Decode,
        },
        TranslateEventView::Undecoded(message) => TranslateStepView::Done(
            Err(TranslationAdapterErrorView::ParseError(message)),
        ),
        TranslateEventView::Decoded(response) => TranslateStepView::Done(
            translation_of(response),
        ),
    }
}

/// Whether the answer of the provider, by its status, is a failure, and which.
pub fn check_status(status: u16, status_text: &str) -> (checked: Result<
    (),
    TranslationAdapterError,
>)
    ensures
        match checked {
            Ok(()) => status_failure(status, status_text@) is None,
            Err(err) => status_failure(status, status_text@) == Some(err@),
        },
{
    if !(200 <= status && status < 300) {
        return Err(
            TranslationAdapterError::UnexpectedResponse(
                String::from_str("HTTP ").concat(status_text),
            ),
        );
    }
    Ok(())
}

/// Reports a URL that could not be joined as an unknown error.
pub fn unknown_error_unless_joined(joined: Result<String, String>) -> (outcome:
    TranslationAdapterResult<String>)
    ensures
        translation_view(outcome) == joined_or_unknown_error(url_view(joined)),
{
    match joined {
        Ok(url) => Ok(url),
        Err(message) => Err(TranslationAdapterError::UnknownError(message)),
    }
}

/// Takes the translation out of an answer of the provider.
pub fn translation_from_response(response: TranslateResponse) -> (outcome:
    TranslationAdapterResult<String>)
    ensures
        translation_view(outcome) == translation_of(response@),
{
    // check if success is not zero
    if response.success.total == 0 {
        return Err(
            TranslationAdapterError::UnexpectedResponse(
                String::from_str("Translation API returned unsuccessful response"),
            ),
        );
    }
    Ok(response.contents.translated)
}

impl FunTranslationsAdapter {
    /// Create a new instance of [`FunTranslationsAdapter`] with the given endpoint and timeout.
    pub fn new(endpoint: &str, timeout_secs: u64) -> (adapter: Self)
        ensures
            adapter@ == (FunTranslationsAdapterView { endpoint: endpoint@, timeout_secs }),
    {
        Self { endpoint: String::from_str(endpoint), timeout_secs }
    }

    /// The URL below which the provider is reached.
    pub fn endpoint(&self) -> (endpoint: &str)
        ensures
            endpoint@ == self@.endpoint,
    {
        self.endpoint.as_str()
    }

    /// The number of seconds after which a request is given up.
    pub fn timeout_secs(&self) -> (timeout_secs: u64)
        ensures
            timeout_secs == self@.timeout_secs,
    {
        self.timeout_secs
    }

    /// Begins the translation of `text` into `style`: asks for the request
    /// that posts the text to the URL of the style, with the timeout of the adapter.
    pub fn begin_translation(&self, style: TranslationStyle, text: &str) -> (step: TranslateStep)
        ensures
            step@ == first_step(self@, style, text@),
    {
        let url = match style {
            TranslationStyle::Shakespeare => self.shakespeare_url(),
            TranslationStyle::Yoda => self.yoda_url(),
        };
        match url {
            Ok(url) => TranslateStep::Request {
                url,
                field: String::from_str(TEXT_FIELD),
                text: String::from_str(text),
                timeout_secs: self.timeout_secs,
            },
            Err(err) => TranslateStep::Done(Err(err)),
        }
    }

    /// Continues a translation with what came of the step that was asked
    /// for. No event is followed by another request: a translation is
    /// attempted once.
    pub fn continue_translation(&self, event: TranslateEvent) -> (step: TranslateStep)
        ensures
            step@ == step_after(event@),
            !(step is Request),
    {
        match event {
            TranslateEvent::Unanswered(message) => TranslateStep::Done(
                Err(TranslationAdapterError::NetworkError(message)),
            ),
            TranslateEvent::Answered { status, status_text } => match check_status(
                status,
                status_text.as_str(),
            ) {
                Ok(()) => TranslateStep::Decode,
                Err(err) => TranslateStep::Done(Err(err)),
            },
            TranslateEvent::Undecoded(message) => TranslateStep::Done(
                Err(TranslationAdapterError::ParseError(message)),
            ),
            TranslateEvent::Decoded(response) => TranslateStep::Done(
                translation_from_response(response),
            ),
        }
    }

    /// Get the Shakespeare translation URL.
    pub fn shakespeare_url(&self) -> (outcome: TranslationAdapterResult<String>)
        ensures
            translation_view(outcome) == translation_url(
                self@.endpoint,
                TranslationStyle::Shakespeare,
            ),
    {
        unknown_error_unless_joined(join_url(self.endpoint.as_str(), "shakespeare"))
    }

    /// Get the Yoda translation URL.
    pub fn yoda_url(&self) -> (outcome: TranslationAdapterResult<String>)
        ensures
            translation_view(outcome) == translation_url(self@.endpoint, TranslationStyle::Yoda),
    {
        unknown_error_unless_joined(join_url(self.endpoint.as_str(), "yoda"))
    }
}

} // verus!
