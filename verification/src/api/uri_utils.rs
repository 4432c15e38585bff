//! Building the URI of an API endpoint from a base URI.
use url::ParseError;
use vstd::prelude::*;

verus! {

/// Why a path segment could not be added to a URI. All but the last variant are the
/// `url` crate's parse errors, one for one; `CannotBeABase` is a URI that has no
/// path to extend, as with `mailto:`.
#[derive(Clone, Copy, Debug, PartialEq, Eq, Structural)]
pub enum UriError {
    EmptyHost,
    IdnaError,
    InvalidPort,
    InvalidIpv4Address,
    InvalidIpv6Address,
    InvalidDomainCharacter,
    RelativeUrlWithoutBase,
    RelativeUrlWithCannotBeABaseBase,
    SetHostOnCannotBeABaseUrl,
    Overflow,
    /// A parse error of a later `url` release that this library does not name.
    UnknownParseError,
    CannotBeABase,
}

/// The text by which each error is reported.
pub open spec fn uri_error_text(e: UriError) -> Seq<char> {
    match e {
        UriError::EmptyHost => "empty host"@,
        UriError::IdnaError => "invalid international domain name"@,
        UriError::InvalidPort => "invalid port number"@,
        UriError::InvalidIpv4Address => "invalid IPv4 address"@,
        UriError::InvalidIpv6Address => "invalid IPv6 address"@,
        UriError::InvalidDomainCharacter => "invalid domain character"@,
        UriError::RelativeUrlWithoutBase => "relative URL without a base"@,
        UriError::RelativeUrlWithCannotBeABaseBase => "relative URL with a cannot-be-a-base base"@,
        UriError::SetHostOnCannotBeABaseUrl => "a cannot-be-a-base URL doesn’t have a host to set"@,
        UriError::Overflow => "URLs more than 4 GB are not supported"@,
        UriError::UnknownParseError => "invalid URL"@,
        UriError::CannotBeABase => "url cannot be used as a base"@,
    }
}

impl UriError {
    /// The text by which the error is reported.
    pub fn message(&self) -> (r: String)
        ensures
            r@ == uri_error_text(*self),
    {
        match self {
            UriError::EmptyHost => String::from_str("empty host"),
            UriError::IdnaError => String::from_str("invalid international domain name"),
            UriError::InvalidPort => String::from_str("invalid port number"),
            UriError::InvalidIpv4Address => String::from_str("invalid IPv4 address"),
            UriError::InvalidIpv6Address => String::from_str("invalid IPv6 address"),
            UriError::InvalidDomainCharacter => String::from_str("invalid domain character"),
            UriError::RelativeUrlWithoutBase => String::from_str("relative URL without a base"),
            UriError::RelativeUrlWithCannotBeABaseBase => String::from_str(
                "relative URL with a cannot-be-a-base base",
            ),
            UriError::SetHostOnCannotBeABaseUrl => String::from_str(
                "a cannot-be-a-base URL doesn’t have a host to set",
            ),
            UriError::Overflow => String::from_str("URLs more than 4 GB are not supported"),
            UriError::UnknownParseError => String::from_str("invalid URL"),
            UriError::CannotBeABase => String::from_str("url cannot be used as a base"),
        }
    }
}

/// What `url::Url::parse` makes of `uri`: the parse error, or `None` where it parses.
pub uninterp spec fn url_parse_error(uri: Seq<char>) -> Option<UriError>;

/// What the `url` crate makes of `uri` with `segment` pushed onto its path: the
/// serialization of the resulting URL, or why there is none.
pub uninterp spec fn url_pushed_segment(uri: Seq<char>, segment: Seq<char>) -> Result<Seq<char>, UriError>;

pub open spec fn uri_pushed(s: Seq<char>) -> Result<Seq<char>, UriError> {
    Ok(s)
}

pub open spec fn uri_refused(e: UriError) -> Result<Seq<char>, UriError> {
    Err(e)
}

/// Parses `uri` with `url::Url::parse` and gives back its error, each
/// `url::ParseError` as the variant of the same name. The contract names the
/// outcome `url_parse_error` of the text, and says that where parsing fails, pushing
/// any segment fails with that error: the parse is the first step of the push.
#[verifier::external_body]
fn parse_error_of(uri: &str) -> (r: Option<UriError>)
    ensures
        r == url_parse_error(uri@),
        r matches Some(e) ==> forall|segment: Seq<char>|
            #[trigger] url_pushed_segment(uri@, segment) == uri_refused(e),
{
    match url::Url::parse(uri) {
        Ok(_) => None,
        Err(ParseError::EmptyHost) => Some(UriError::EmptyHost),
        Err(ParseError::IdnaError) => Some(UriError::IdnaError),
        Err(ParseError::InvalidPort) => Some(UriError::InvalidPort),
        Err(ParseError::InvalidIpv4Address) => Some(UriError::InvalidIpv4Address),
        Err(ParseError::InvalidIpv6Address) => Some(UriError::InvalidIpv6Address),
        Err(ParseError::InvalidDomainCharacter) => Some(UriError::InvalidDomainCharacter),
        Err(ParseError::RelativeUrlWithoutBase) => Some(UriError::RelativeUrlWithoutBase),
        Err(ParseError::RelativeUrlWithCannotBeABaseBase) => Some(UriError::RelativeUrlWithCannotBeABaseBase),
        Err(ParseError::SetHostOnCannotBeABaseUrl) => Some(UriError::SetHostOnCannotBeABaseUrl),
        Err(ParseError::Overflow) => Some(UriError::Overflow),
        Err(_) => Some(UriError::UnknownParseError),
    }
}

/// Parses `uri` with `url::Url::parse`, pushes `segment` with
/// `PathSegmentsMut::push` on `Url::path_segments_mut`, and serializes the URL
/// with `From<Url> for String`. The contract names the result `url_pushed_segment`
/// of the two texts and says nothing of its form: percent-encoding and the
/// normalisation of the URL are left unstated. Called only on a text that parses;
/// a URL without a base path is `CannotBeABase`.
#[verifier::external_body]
fn push_url_segment(uri: &str, segment: &str) -> (r: Result<String, UriError>)
    requires
        url_parse_error(uri@) is None,
    ensures
        r matches Ok(s) ==> url_pushed_segment(uri@, segment@) == uri_pushed(s@),
        r matches Err(e) ==> e == UriError::CannotBeABase
            && url_pushed_segment(uri@, segment@) == uri_refused(e),
{
    let mut url = url::Url::parse(uri).unwrap();
    match url.path_segments_mut() {
        Ok(mut segments) => {
            segments.push(segment);
        },
        Err(_) => return Err(UriError::CannotBeABase),
    }
    Ok(url.into())
}

/// The URI `uri` with `segment` added to its path: the parse error of `uri`, or
/// `CannotBeABase` where the URL has no path to extend.
pub fn with_path_segment(uri: &str, segment: &str) -> (r: Result<String, UriError>)
    ensures
        match url_pushed_segment(uri@, segment@) {
            Ok(s) => r matches Ok(x) && x@ == s,
            Err(e) => r matches Err(x) && x == e,
        },
        url_parse_error(uri@) matches Some(e) ==> r == Err::<String, UriError>(e),
{
    match parse_error_of(uri) {
        Some(e) => Err(e),
        None => push_url_segment(uri, segment),
    }
}

} // verus!
