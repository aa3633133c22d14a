//! The parts of a parsed URL that the routing rules read, held as plain strings.
use vstd::prelude::*;

verus! {

/// Mathematical view of a parsed URL.
pub struct UrlView {
    /// The whole URL as the parser serialises it.
    pub serialization: Seq<char>,
    /// Lower-cased scheme, without the ':'.
    pub scheme: Seq<char>,
    /// Host as it appears in the serialisation, if the URL has one.
    pub host: Option<Seq<char>>,
    /// Path component (percent-encoded).
    pub path: Seq<char>,
    /// The query decoded as `application/x-www-form-urlencoded` name/value pairs, in order.
    pub query_pairs: Seq<(Seq<char>, Seq<char>)>,
}

/// An absolute URL, reduced to the components that the routing rules look at.
#[derive(Debug)]
pub struct ParsedUrl {
    pub serialization: String,
    pub scheme: String,
    pub host: Option<String>,
    pub path: String,
    pub query_pairs: Vec<(String, String)>,
}

pub open spec fn host_view(h: Option<String>) -> Option<Seq<char>> {
    match h {
        Some(s) => Some(s@),
        None => None,
    }
}

pub open spec fn pairs_view(v: Seq<(String, String)>) -> Seq<(Seq<char>, Seq<char>)> {
    Seq::new(v.len(), |i: int| (v[i].0@, v[i].1@))
}

impl View for ParsedUrl {
    type V = UrlView;

    open spec fn view(&self) -> UrlView {
        UrlView {
            serialization: self.serialization@,
            scheme: self.scheme@,
            host: host_view(self.host),
            path: self.path@,
            query_pairs: pairs_view(self.query_pairs@),
        }
    }
}

pub open spec fn url_option_view(u: Option<ParsedUrl>) -> Option<UrlView> {
    match u {
        Some(p) => Some(p@),
        None => None,
    }
}

/// What `url::Url::parse` makes of an input string (`None` where it refuses it),
/// read through the components above.
pub uninterp spec fn parsed_url(input: Seq<char>) -> Option<UrlView>;

#[verifier::external_type_specification]
#[verifier::external_body]
pub struct ExUrlParseError(url::ParseError);

/// Calls `url::Url::parse` and copies out the scheme, host, path, the decoded
/// query pairs and the serialisation. The contract claims only that the outcome
/// is the named function `parsed_url` of the input: success exactly when it is
/// `Some`, with the copied components equal to it.
#[verifier::external_body]
fn parse_with_url_crate(input: &str) -> (res: Result<ParsedUrl, url::ParseError>)
    ensures
        res is Ok <==> parsed_url(input@) is Some,
        res matches Ok(u) ==> parsed_url(input@) == Some(u@),
{
    match url::Url::parse(input) {
        Ok(u) => Ok(ParsedUrl {
            serialization: u.as_str().to_string(),
            scheme: u.scheme().to_string(),
            host: u.host_str().map(|h| h.to_string()),
            path: u.path().to_string(),
            query_pairs: u.query_pairs().map(|(k, v)| (k.into_owned(), v.into_owned())).collect(),
        }),
        Err(e) => Err(e),
    }
}

impl ParsedUrl {
    /// Parses an absolute URL; `None` where the URL parser rejects the input.
    pub fn parse(input: &str) -> (res: Option<ParsedUrl>)
        ensures
            url_option_view(res) == parsed_url(input@),
    {
        match parse_with_url_crate(input) {
            Ok(u) => Some(u),
            Err(_) => None,
        }
    }

    /// The whole URL as text.
    pub fn as_str(&self) -> (r: &str)
        ensures
            r@ == self@.serialization,
    {
        self.serialization.as_str()
    }
}

} // verus!
