//! Transport-agnostic description of one HTTP exchange: which method, which
//! absolute URL, which headers, which JSON body. Nothing here touches the
//! network; a transport takes a [`Request`] and performs it.

use vstd::prelude::*;
use vstd::string::*;
use vstd::utf8::encode_utf8;

use crate::error::ClientError;
use crate::params::{Pairs, Params};
use crate::text::join;
use crate::BASE_URL;

verus! {

/// The HTTP methods the service is spoken to with.
#[derive(Clone, Copy, Debug, PartialEq, Eq, Structural)]
pub enum Method {
    Get,
    Post,
}

/// A request that is ready to be sent.
#[derive(Clone, Debug, PartialEq, Eq)]
pub struct Request {
    pub method: Method,
    /// Absolute URL, query string included.
    pub url: String,
    /// Header names and values, in the order they are to be attached.
    pub headers: Params,
    /// Members of the JSON object to send as the body, if any.
    pub body: Option<Params>,
}

/// The mathematical content of a [`Request`].
pub struct RequestView {
    pub method: Method,
    pub url: Seq<char>,
    pub headers: Pairs,
    pub body: Option<Pairs>,
}

impl View for Request {
    type V = RequestView;

    open spec fn view(&self) -> RequestView {
        RequestView {
            method: self.method,
            url: self.url@,
            headers: self.headers@,
            body: match self.body {
                Some(b) => Some(b@),
                None => None,
            },
        }
    }
}

/// The views of an optional mapping.
pub open spec fn pairs_of(params: Option<Params>) -> Option<Pairs> {
    match params {
        Some(p) => Some(p@),
        None => None,
    }
}

/// The `url` crate's `ParseError`, carried through as an opaque value.
#[verifier::external_type_specification]
#[verifier::external_body]
pub struct ExParseError(url::ParseError);

/// What `Url::parse` makes of an input: the serialization of the URL it
/// parses to, or `None` where the input does not parse as an absolute URL.
pub uninterp spec fn url_parsed(input: Seq<char>) -> Option<Seq<char>>;

/// Calls `reqwest::Url::parse` (the `url` crate's `Url`) and serializes the
/// URL it returns. The contract only names the outcome: it is the function
/// `url_parsed` of the input text, and an error is returned exactly where
/// that function is `None`.
#[verifier::external_body]
fn parse_url(input: &str) -> (parsed: Result<String, url::ParseError>)
    ensures
        match parsed {
            Ok(text) => url_parsed(input@) == Some(text@),
            Err(_) => url_parsed(input@) is None,
        },
{
    reqwest::Url::parse(input).map(String::from)
}

/// The base URL, a slash, and the relative path.
pub open spec fn plain_url(path: Seq<char>) -> Seq<char> {
    BASE_URL@ + "/"@ + path
}

/// Whether a text begins with the base URL and a slash, so that scheme and
/// host are those of the service and everything after them is path, query
/// or fragment.
pub open spec fn on_base(input: Seq<char>) -> bool {
    let base = BASE_URL@ + "/"@;
    input.len() >= base.len() && input.subrange(0, base.len() as int) == base
}

/// The most bytes that the text of a URL and the names and values of its
/// parameters may hold together, each parameter counted with one more.
/// A URL is addressed by 32-bit offsets, and writing a URL can take three
/// bytes for each byte read, plus one for the question mark: this is the
/// largest number that, taken three times and one added, is still a 32-bit
/// number.
pub const URL_INPUT_LIMIT: u64 = 1_431_655_764;

/// The bytes of the names and values of a list of parameters, each
/// parameter counted with one more for what separates it from the others.
pub open spec fn pairs_room(params: Pairs) -> nat
    decreases params.len(),
{
    if params.len() == 0 {
        0
    } else {
        pairs_room(params.drop_last()) + encode_utf8(params.last().0).len() + encode_utf8(
            params.last().1,
        ).len() + 1
    }
}

/// Whether a URL text and its parameters are within [`URL_INPUT_LIMIT`].
pub open spec fn fits(input: Seq<char>, params: Pairs) -> bool {
    encode_utf8(input).len() + pairs_room(params) <= URL_INPUT_LIMIT
}

/// What `Url::parse_with_params` makes of an input and a list of
/// parameters: the serialization of the resulting URL, or `None` where the
/// input does not parse as an absolute URL.
pub uninterp spec fn url_with_params(input: Seq<char>, params: Pairs) -> Option<Seq<char>>;

/// Calls `reqwest::Url::parse_with_params` (the `url` crate's `Url`) and
/// serializes the URL it returns. The contract only names the outcome: it is
/// the function `url_with_params` of the input text and the parameters, and
/// an error is returned exactly where that function is `None`.
///
/// After parsing, the outside function converts the length of the URL's
/// text to a 32-bit offset and panics where it does not fit: once where the
/// parsed URL has no query, and once more, after the parameters are
/// appended, where it has a fragment. The precondition keeps every text it
/// writes below that size. The input begins with the service's scheme and
/// host, so what is parsed after them is path, query and fragment, which the
/// parser copies or percent-encodes, at most three bytes for one. Each
/// parameter is written as a separator, the name, an equals sign and the
/// value, names and values form-encoded at most three bytes for one.
#[verifier::external_body]
fn parse_with_params(input: &str, params: &Vec<(String, String)>) -> (parsed: Result<
    String,
    url::ParseError,
>)
    requires
        on_base(input@),
        fits(input@, params.deep_view()),
    ensures
        match parsed {
            Ok(text) => url_with_params(input@, params.deep_view()) == Some(text@),
            Err(_) => url_with_params(input@, params.deep_view()) is None,
        },
{
    reqwest::Url::parse_with_params(input, params.iter()).map(String::from)
}

/// The room of a list grows with the list.
proof fn pairs_room_grows(params: Pairs, n: int)
    requires
        0 <= n <= params.len(),
    ensures
        pairs_room(params.take(n)) <= pairs_room(params),
    decreases params.len() - n,
{
    if n < params.len() {
        pairs_room_grows(params, n + 1);
        assert(params.take(n + 1).drop_last() =~= params.take(n));
    } else {
        assert(params.take(n) =~= params);
    }
}

/// Decides whether a URL text and its parameters are within
/// [`URL_INPUT_LIMIT`].
pub fn within_limit(input: &str, params: &Params) -> (ok: bool)
    ensures
        ok == fits(input@, params@),
{
    let entries = params.entries();
    let ghost pairs = entries.deep_view();
    let text = input.as_bytes();
    if text.len() as u64 > URL_INPUT_LIMIT {
        return false;
    }
    let mut total: u64 = text.len() as u64;
    let n = entries.len();
    let mut i: usize = 0;
    assert(pairs.take(0) =~= Pairs::empty());
    while i < n
        invariant
            i <= n,
            n == entries.len(),
            pairs == entries.deep_view(),
            pairs == params@,
            total == encode_utf8(input@).len() + pairs_room(pairs.take(i as int)),
            total <= URL_INPUT_LIMIT,
        decreases n - i,
    {
        let name = entries[i].0.as_str().as_bytes();
        let value = entries[i].1.as_str().as_bytes();
        proof {
            pairs_room_grows(pairs, i + 1);
            assert(pairs.take(i + 1).drop_last() =~= pairs.take(i as int));
            assert(pairs.take(i + 1).last() == pairs[i as int]);
            assert(pairs[i as int] == (entries[i as int].0@, entries[i as int].1@));
            assert(name@.len() == encode_utf8(pairs[i as int].0).len());
            assert(value@.len() == encode_utf8(pairs[i as int].1).len());
            assert(pairs_room(pairs.take(i + 1)) == pairs_room(pairs.take(i as int)) + name@.len()
                + value@.len() + 1);
        }
        if name.len() as u64 > URL_INPUT_LIMIT - total {
            return false;
        }
        total = total + name.len() as u64;
        if value.len() as u64 >= URL_INPUT_LIMIT - total {
            return false;
        }
        total = total + value.len() as u64 + 1;
        i = i + 1;
    }
    assert(pairs.take(n as int) =~= pairs);
    true
}

/// The absolute URL of a relative path and optional query parameters, or
/// `None` where no valid URL can be made of them. Without parameters the
/// URL is the plain concatenation. With parameters it is parsed and the
/// parameters are appended, percent-encoded, as its query string; path and
/// parameters beyond [`URL_INPUT_LIMIT`] make no URL.
pub open spec fn target(path: Seq<char>, query: Option<Pairs>) -> Option<Seq<char>> {
    match query {
        None => Some(plain_url(path)),
        Some(params) => if fits(plain_url(path), params) {
            url_with_params(plain_url(path), params)
        } else {
            None
        },
    }
}

/// The request made of a resolved URL and the optional parts. A missing
/// header set attaches nothing. A body travels with `Post` only: a `Get`
/// never carries one, whatever was supplied.
pub open spec fn prepared(
    method: Method,
    url: Seq<char>,
    headers: Option<Pairs>,
    json: Option<Pairs>,
) -> RequestView {
    RequestView {
        method,
        url,
        headers: match headers {
            Some(h) => h,
            None => Seq::empty(),
        },
        body: match method {
            Method::Post => json,
            Method::Get => None,
        },
    }
}

/// Whether `r` is the outcome of building a request for `path`: the
/// request [`prepared`] with the URL that [`target`] gives, or
/// [`ClientError::InvalidUrl`] where it gives none.
pub open spec fn built(
    method: Method,
    path: Seq<char>,
    headers: Option<Pairs>,
    query: Option<Pairs>,
    json: Option<Pairs>,
    r: Result<Request, ClientError>,
) -> bool {
    match target(path, query) {
        Some(url) => r is Ok && r->Ok_0@ == prepared(method, url, headers, json),
        None => r == Err::<Request, ClientError>(ClientError::InvalidUrl),
    }
}

/// Assembles a request from a URL and the optional parts.
pub fn assemble(method: Method, url: String, headers: Option<Params>, json: Option<Params>) -> (request:
    Request)
    ensures
        request@ == prepared(method, url@, pairs_of(headers), pairs_of(json)),
{
    let attached = match headers {
        Some(h) => h,
        None => Params::new(),
    };
    let body = match method {
        Method::Post => json,
        Method::Get => None,
    };
    Request { method, url, headers: attached, body }
}

/// The outcome of parsing a URL, in the library's own terms: the text of
/// the URL, or [`ClientError::InvalidUrl`] where parsing failed.
pub fn checked(parsed: Result<String, url::ParseError>) -> (r: Result<String, ClientError>)
    ensures
        match parsed {
            Ok(url) => r == Ok::<String, ClientError>(url),
            Err(_) => r == Err::<String, ClientError>(ClientError::InvalidUrl),
        },
{
    match parsed {
        Ok(url) => Ok(url),
        Err(_) => Err(ClientError::InvalidUrl),
    }
}

/// Whether `r` is the outcome of resolving a URL text: the serialization
/// of the URL it parses to, or [`ClientError::InvalidUrl`] where it does not
/// parse.
pub open spec fn resolved(input: Seq<char>, r: Result<String, ClientError>) -> bool {
    match url_parsed(input) {
        Some(url) => r is Ok && r->Ok_0@ == url,
        None => r == Err::<String, ClientError>(ClientError::InvalidUrl),
    }
}

/// Parses a URL text and gives back the URL in its serialized form.
pub fn resolve(input: &str) -> (r: Result<String, ClientError>)
    ensures
        resolved(input@, r),
{
    checked(parse_url(input))
}

/// Assembles the request once the URL has been resolved. A URL that failed
/// to parse becomes [`ClientError::InvalidUrl`].
pub fn finish(
    method: Method,
    resolved: Result<String, url::ParseError>,
    headers: Option<Params>,
    json: Option<Params>,
) -> (r: Result<Request, ClientError>)
    ensures
        match resolved {
            Ok(url) => r is Ok && r->Ok_0@ == prepared(
                method,
                url@,
                pairs_of(headers),
                pairs_of(json),
            ),
            Err(_) => r == Err::<Request, ClientError>(ClientError::InvalidUrl),
        },
{
    match checked(resolved) {
        Ok(url) => Ok(assemble(method, url, headers, json)),
        Err(e) => Err(e),
    }
}

/// The base URL joined to a relative path.
pub fn join_base(path: &str) -> (url: String)
    ensures
        url@ == plain_url(path@),
        on_base(url@),
{
    let mut url = join(BASE_URL, "/");
    url.append(path);
    assert(url@.subrange(0, (BASE_URL@ + "/"@).len() as int) =~= BASE_URL@ + "/"@);
    url
}

/// Builds the request for a relative path without query parameters. The
/// URL is the plain concatenation of base and path.
pub fn direct(method: Method, path: &str, headers: Option<Params>, json: Option<Params>) -> (request:
    Request)
    ensures
        request@ == prepared(method, plain_url(path@), pairs_of(headers), pairs_of(json)),
{
    assemble(method, join_base(path), headers, json)
}

/// Builds the request for a relative path: joins it to the base URL,
/// appends the query parameters if there are any, and attaches headers and
/// body as [`prepared`] says. Path and parameters beyond
/// [`URL_INPUT_LIMIT`] are refused as [`ClientError::InvalidUrl`].
pub fn prepare(
    method: Method,
    path: &str,
    headers: Option<Params>,
    query: Option<Params>,
    json: Option<Params>,
) -> (r: Result<Request, ClientError>)
    ensures
        built(method, path@, pairs_of(headers), pairs_of(query), pairs_of(json), r),
{
    match query {
        Some(params) => {
            let path_url = join_base(path);
            if !within_limit(path_url.as_str(), &params) {
                return Err(ClientError::InvalidUrl);
            }
            let parsed = parse_with_params(path_url.as_str(), params.entries());
            finish(method, parsed, headers, json)
        },
        None => Ok(direct(method, path, headers, json)),
    }
}

/// Whether a byte may stand in a header value: a tab, or anything from the
/// space upwards but the delete character.
pub open spec fn is_header_byte(b: u8) -> bool {
    (b >= 32 && b != 127) || b == 9
}

/// Whether a text may stand as a header value: every byte of its UTF-8
/// encoding may.
pub open spec fn is_header_value(text: Seq<char>) -> bool {
    forall|i: int|
        0 <= i < encode_utf8(text).len() ==> is_header_byte(#[trigger] encode_utf8(text)[i])
}

/// Calls `reqwest::header::HeaderValue::from_str` (the `http` crate's) and
/// reports whether it accepted the text. It does so exactly where every
/// byte of the text is a tab or at least 32 and not 127.
#[verifier::external_body]
fn header_value_accepts(text: &str) -> (ok: bool)
    ensures
        ok == is_header_value(text@),
{
    reqwest::header::HeaderValue::from_str(text).is_ok()
}

/// The headers of an authenticated call: the token as authorization, and
/// JSON as the content type.
pub open spec fn auth_headers(token: Seq<char>) -> Pairs {
    seq![("authorization"@, token), ("content-type"@, "application/json"@)]
}

/// Builds the headers of an authenticated call, or reports
/// [`ClientError::InvalidToken`] where the token cannot stand as a header
/// value.
pub fn authorized_headers(token: &str) -> (r: Result<Params, ClientError>)
    ensures
        is_header_value(token@) ==> r is Ok && r->Ok_0@ == auth_headers(token@),
        !is_header_value(token@) ==> r == Err::<Params, ClientError>(ClientError::InvalidToken),
{
    if !header_value_accepts(token) {
        return Err(ClientError::InvalidToken);
    }
    let mut headers = Params::new();
    headers.insert("authorization", String::from_str(token));
    proof {
        reveal_strlit("authorization");
        reveal_strlit("content-type");
        assert("authorization"@.len() != "content-type"@.len());
    }
    headers.insert("content-type", String::from_str("application/json"));
    assert(headers@ =~= auth_headers(token@));
    Ok(headers)
}

} // verus!
