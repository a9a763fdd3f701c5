//! Parsing and joining of URLs, done by the `url` crate.

use vstd::prelude::*;

verus! {

/// The error that the `url` crate reports for text it cannot take as a URL.
#[verifier::external_type_specification]
#[verifier::external_body]
pub struct ExParseError(url::ParseError);

/// What `url::Url::parse` makes of `input`: the serialization of the parsed
/// URL, or the error it stops with.
pub uninterp spec fn url_parse(input: Seq<char>) -> Result<Seq<char>, url::ParseError>;

/// What `url::Url::join` makes of `reference` against the URL that `base`
/// parses to: the serialization of the resolved URL, or the error that
/// parsing either of them stops with.
pub uninterp spec fn url_join(base: Seq<char>, reference: Seq<char>) -> Result<
    Seq<char>,
    url::ParseError,
>;

/// Whether `text` is what `url::Url::parse` makes of some input: a URL in
/// the form in which the `url` crate writes the URLs it has parsed.
pub open spec fn is_parsed_url(text: Seq<char>) -> bool {
    exists|input: Seq<char>| url_parse(input) == Ok::<Seq<char>, url::ParseError>(text)
}

/// An outcome of the `url` crate with the text taken by its view.
pub open spec fn text_of(r: Result<String, url::ParseError>) -> Result<Seq<char>, url::ParseError> {
    match r {
        Ok(text) => Ok(text@),
        Err(e) => Err(e),
    }
}

/// Calls `url::Url::parse` and hands back the parsed URL's serialization.
/// Trusted: the result is `url_parse` of the input.
#[verifier::external_body]
pub(crate) fn parse_url(input: &str) -> (r: Result<String, url::ParseError>)
    ensures
        text_of(r) == url_parse(input@),
{
    match url::Url::parse(input) {
        Ok(parsed) => Ok(String::from(parsed)),
        Err(e) => Err(e),
    }
}

/// Parses `base` with `url::Url::parse` and calls `url::Url::join` on it
/// with `reference`. Trusted: the result is `url_join` of the two texts.
#[verifier::external_body]
pub(crate) fn join_url(base: &str, reference: &str) -> (r: Result<String, url::ParseError>)
    ensures
        text_of(r) == url_join(base@, reference@),
{
    match url::Url::parse(base) {
        Ok(parsed) => match parsed.join(reference) {
            Ok(joined) => Ok(String::from(joined)),
            Err(e) => Err(e),
        },
        Err(e) => Err(e),
    }
}

} // verus!
