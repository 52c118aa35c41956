//! The addresses of the providers: how the URL of a request is derived from
//! the endpoint that an adapter was configured with.

use url::Url;
use vstd::prelude::*;

verus! {

/// What resolving the reference `input` against the URL written as `base`
/// gives: the text of the resolved URL, or the message of the parse error.
/// The text of `base` is parsed first, and its parse error is the result
/// where it is no URL.
pub uninterp spec fn url_join(base: Seq<char>, input: Seq<char>) -> Result<Seq<char>, Seq<char>>;

/// The view of a URL that is held as text, or of the message that took its place.
pub open spec fn url_view(joined: Result<String, String>) -> Result<Seq<char>, Seq<char>> {
    match joined {
        Ok(url) => Ok(url@),
        Err(message) => Err(message@),
    }
}

/// `Url::join` of the `url` crate, on a base that `Url::parse` reads from its
/// text. The result is a function of the two texts alone, which [`url_join`]
/// names: the serialization of the joined URL, or what the `ParseError` of
/// the step that failed displays.
#[verifier::external_body]
pub(crate) fn join_url(base: &str, input: &str) -> (joined: Result<String, String>)
    ensures
        url_view(joined) == url_join(base@, input@),
{
    let joined = match Url::parse(base) {
        Ok(base) => base.join(input),
        Err(err) => Err(err),
    };
    match joined {
        Ok(url) => Ok(String::from(url)),
        Err(err) => Err(err.to_string()),
    }
}

} // verus!
