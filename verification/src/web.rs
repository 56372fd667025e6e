use vstd::prelude::*;

use url::ParseError;
use url::Url;

verus! {

/// Why a text could not be read as a URL.
#[derive(Debug, Clone, Copy, PartialEq, Eq, Structural)]
pub enum UrlError {
    EmptyHost,
    IdnaError,
    InvalidPort,
    InvalidIpv4Address,
    InvalidIpv6Address,
    InvalidDomainCharacter,
    RelativeUrlWithoutBase,
    RelativeUrlWithCannotBeABaseBase,
    SetHostOnCannotBeABaseUrl,
    Overflow,
    /// A reason that this library does not tell apart.
    Other,
}

/// A pair of texts, as a query parameter is.
pub open spec fn pair_text(p: (String, String)) -> (Seq<char>, Seq<char>) {
    (p.0@, p.1@)
}

/// The texts of a list of pairs of strings.
pub open spec fn pair_texts(ps: Seq<(String, String)>) -> Seq<(Seq<char>, Seq<char>)> {
    ps.map_values(|p: (String, String)| pair_text(p))
}

/// The text of a URL result.
pub open spec fn url_result_text(r: Result<String, UrlError>) -> Result<Seq<char>, UrlError> {
    match r {
        Ok(s) => Ok(s@),
        Err(e) => Err(e),
    }
}

/// What `url::Url::parse` makes of a text: the serialization of the URL, or
/// the reason it is not one.
pub uninterp spec fn parsed_url(input: Seq<char>) -> Result<Seq<char>, UrlError>;

/// The serialization of the URL that `base` parses to, with the pairs
/// appended to its query, form-urlencoded, in their order.
pub uninterp spec fn url_with_query_pairs(
    base: Seq<char>,
    pairs: Seq<(Seq<char>, Seq<char>)>,
) -> Seq<char>;

/// What `url::Url::join` makes of the URL that `base` parses to and the
/// reference `input`: the serialization of the result, or the reason.
pub uninterp spec fn joined_url(base: Seq<char>, input: Seq<char>) -> Result<Seq<char>, UrlError>;

/// What `url::Url::port` gives for the URL that `input` parses to: its port,
/// or nothing when it has none or has the default port of its scheme.
pub uninterp spec fn url_port_of(input: Seq<char>) -> Option<u16>;

/// What `url::Url::path` gives for the URL that `input` parses to.
pub uninterp spec fn url_path_of(input: Seq<char>) -> Seq<char>;

/// Calls `url::Url::parse` and hands back the serialization of the URL
/// (`String::from`), or the kind of the `url::ParseError`. The contract only
/// names the outcome: it is a function of the input text.
#[verifier::external_body]
pub(crate) fn parse_url(input: &str) -> (r: Result<String, UrlError>)
    ensures
        url_result_text(r) == parsed_url(input@),
{
    match Url::parse(input) {
        Ok(u) => Ok(String::from(u)),
        Err(e) => Err(match e {
            ParseError::EmptyHost => UrlError::EmptyHost, ParseError::IdnaError => UrlError::IdnaError,
            ParseError::InvalidPort => UrlError::InvalidPort, ParseError::InvalidIpv4Address => UrlError::InvalidIpv4Address,
            ParseError::InvalidIpv6Address => UrlError::InvalidIpv6Address, ParseError::InvalidDomainCharacter => UrlError::InvalidDomainCharacter,
            ParseError::RelativeUrlWithoutBase => UrlError::RelativeUrlWithoutBase, ParseError::RelativeUrlWithCannotBeABaseBase => UrlError::RelativeUrlWithCannotBeABaseBase,
            ParseError::SetHostOnCannotBeABaseUrl => UrlError::SetHostOnCannotBeABaseUrl, ParseError::Overflow => UrlError::Overflow,
            _ => UrlError::Other,
        }),
    }
}

/// Calls `form_urlencoded::Serializer::extend_pairs` on
/// `url::Url::query_pairs_mut` of the URL that `base` parses to, and hands
/// back its serialization. `base` must parse (the parse only converts the
/// argument back to a `Url`). The contract only names the outcome: it is a
/// function of the base text and the pairs.
#[verifier::external_body]
pub(crate) fn append_query_pairs(base: &str, pairs: &Vec<(String, String)>) -> (r: String)
    requires
        parsed_url(base@) is Ok,
    ensures
        r@ == url_with_query_pairs(base@, pair_texts(pairs@)),
{
    let mut url = Url::parse(base).unwrap();
    url.query_pairs_mut().extend_pairs(pairs.iter().map(|p| (p.0.as_str(), p.1.as_str())));
    String::from(url)
}

/// Calls `url::Url::join` on the URL that `base` parses to, and hands back
/// the serialization of the result (`String::from`), or the kind of the
/// `url::ParseError`. `base` must parse (the parse only converts the argument
/// back to a `Url`). The contract only names the outcome: it is a function of
/// the two texts.
#[verifier::external_body]
pub(crate) fn join_url(base: &str, input: &str) -> (r: Result<String, UrlError>)
    requires
        parsed_url(base@) is Ok,
    ensures
        url_result_text(r) == joined_url(base@, input@),
{
    match Url::parse(base).unwrap().join(input) {
        Ok(u) => Ok(String::from(u)),
        Err(e) => Err(match e {
            ParseError::EmptyHost => UrlError::EmptyHost, ParseError::IdnaError => UrlError::IdnaError,
            ParseError::InvalidPort => UrlError::InvalidPort, ParseError::InvalidIpv4Address => UrlError::InvalidIpv4Address,
            ParseError::InvalidIpv6Address => UrlError::InvalidIpv6Address, ParseError::InvalidDomainCharacter => UrlError::InvalidDomainCharacter,
            ParseError::RelativeUrlWithoutBase => UrlError::RelativeUrlWithoutBase, ParseError::RelativeUrlWithCannotBeABaseBase => UrlError::RelativeUrlWithCannotBeABaseBase,
            ParseError::SetHostOnCannotBeABaseUrl => UrlError::SetHostOnCannotBeABaseUrl, ParseError::Overflow => UrlError::Overflow,
            _ => UrlError::Other,
        }),
    }
}

/// Calls `url::Url::port` on the URL that `input` parses to. `input` must
/// parse (the parse only converts the argument back to a `Url`). The
/// contract only names the outcome: it is a function of the text.
#[verifier::external_body]
pub(crate) fn url_port(input: &str) -> (r: Option<u16>)
    requires
        parsed_url(input@) is Ok,
    ensures
        r == url_port_of(input@),
{
    Url::parse(input).unwrap().port()
}

/// Calls `url::Url::path` on the URL that `input` parses to and copies the
/// path into a `String`. `input` must parse (the parse only converts the
/// argument back to a `Url`). The contract only names the outcome: it is a
/// function of the text.
#[verifier::external_body]
pub(crate) fn url_path(input: &str) -> (r: String)
    requires
        parsed_url(input@) is Ok,
    ensures
        r@ == url_path_of(input@),
{
    Url::parse(input).unwrap().path().to_string()
}

/// An HTTP reply whose status is not a success.
#[derive(Debug)]
pub struct HttpFailure {
    pub status: u16,
    pub body: String,
}

/// A status in 200..=299 is a success.
pub open spec fn is_success(status: u16) -> bool {
    200 <= status <= 299
}

/// A status is a success exactly when it lies in 200..=299: every status
/// below 200 or above 299 (such as 404 or 500) is a failure.
pub proof fn lemma_success_is_2xx(status: u16)
    ensures
        is_success(status) <==> (200 <= status && status < 300),
        (status < 200 || status >= 300) ==> !is_success(status),
{
}

/// The body of a reply when its status is a success, and the status with
/// the body otherwise.
pub fn reply_body(status: u16, body: String) -> (r: Result<String, HttpFailure>)
    ensures
        is_success(status) ==> r == Ok::<String, HttpFailure>(body),
        !is_success(status) ==> r == Err::<String, HttpFailure>(HttpFailure { status, body }),
        r is Ok <==> (200 <= status && status < 300),
        r matches Ok(b) ==> b == body,
        r matches Err(f) ==> f.status == status && f.body == body,
{
    if 200 <= status && status <= 299 {
        Ok(body)
    } else {
        Err(HttpFailure { status, body })
    }
}

} // verus!
