use vstd::prelude::*;

use crate::api::SingleHttpRequest;

verus! {

#[verifier::external_type_specification]
#[verifier::external_body]
pub struct ExUri(http::Uri);

#[verifier::external_type_specification]
#[verifier::external_body]
pub struct ExHeaderName(http::header::HeaderName);

#[verifier::external_type_specification]
#[verifier::external_body]
pub struct ExHeaderValue(http::header::HeaderValue);

#[verifier::external_type_specification]
#[verifier::external_body]
pub struct ExBody(hyper::Body);

#[verifier::external_type_specification]
#[verifier::external_body]
pub struct ExMethod(http::Method);

#[verifier::external_type_specification]
#[verifier::external_body]
#[verifier::reject_recursive_types(T)]
pub struct ExRequest<T>(http::Request<T>);

/// The distinct names, in lower case, of the headers that a request holds.
pub uninterp spec fn header_names(req: http::Request<hyper::Body>) -> Set<Seq<char>>;

/// A request's header map accepts a new name while it holds fewer names than this: it only
/// fails to grow past 32768 slots, and it doubles once a fifth of its slots are in use.
pub const HEADER_MAP_ROOM: usize = 6553;

/// Whether http's URI parser accepts the text.
pub uninterp spec fn uri_accepted(s: Seq<char>) -> bool;

/// A character that may stand in a header name (a token character).
pub open spec fn is_header_name_char(c: char) -> bool {
    ('a' <= c && c <= 'z') || ('A' <= c && c <= 'Z') || ('0' <= c && c <= '9') || c == '!' || c
        == '"' || c == '#' || c == '$' || c == '%' || c == '&' || c == '\'' || c == '*' || c == '+'
        || c == '-' || c == '.' || c == '^' || c == '_' || c == '`' || c == '|' || c == '~'
}

/// A legal header name: one to 65535 token characters.
pub open spec fn header_name_legal(s: Seq<char>) -> bool {
    &&& 1 <= s.len() <= 65535
    &&& forall|i: int| 0 <= i < s.len() ==> is_header_name_char(#[trigger] s[i])
}

/// A character that may stand in a header value: no control character but tab.
pub open spec fn is_header_value_char(c: char) -> bool {
    (c as u32 >= 32 && c as u32 != 127) || c == '\t'
}

/// A legal header value.
pub open spec fn header_value_legal(s: Seq<char>) -> bool {
    forall|i: int| 0 <= i < s.len() ==> is_header_value_char(#[trigger] s[i])
}

/// Relies on http's `Uri` parser (`TryFrom<&str>`); the error becomes its message.
#[verifier::external_body]
fn parse_uri(s: &str) -> (r: Result<http::Uri, String>)
    ensures
        r is Ok == uri_accepted(s@),
{
    match http::Uri::try_from(s) {
        Ok(u) => Ok(u),
        Err(e) => Err(e.to_string()),
    }
}

/// Relies on `HeaderName::from_bytes`: it accepts one to 65535 bytes that its table maps
/// to a token character, which rules out every byte of a non-ASCII character.
#[verifier::external_body]
fn parse_header_name(s: &str) -> (r: Result<http::header::HeaderName, String>)
    ensures
        r is Ok == header_name_legal(s@),
{
    match http::header::HeaderName::from_bytes(s.as_bytes()) {
        Ok(n) => Ok(n),
        Err(e) => Err(e.to_string()),
    }
}

/// Relies on `HeaderValue::from_bytes`: it accepts the bytes that are at least 32 and not
/// 127, and tab; the bytes of a non-ASCII character are all at least 128.
#[verifier::external_body]
fn parse_header_value(s: &str) -> (r: Result<http::header::HeaderValue, String>)
    ensures
        r is Ok == header_value_legal(s@),
{
    match http::header::HeaderValue::from_bytes(s.as_bytes()) {
        Ok(v) => Ok(v),
        Err(e) => Err(e.to_string()),
    }
}

/// Relies on `Method::from_bytes`, which accepts the standard method names.
#[verifier::external_body]
fn parse_method(s: &str) -> (r: Result<http::Method, String>)
    ensures
        s@ == "GET"@ || s@ == "POST"@ || s@ == "PUT"@ || s@ == "DELETE"@ ==> r is Ok,
{
    match http::Method::from_bytes(s.as_bytes()) {
        Ok(m) => Ok(m),
        Err(e) => Err(e.to_string()),
    }
}

/// Relies on hyper's `Body::from(String)`, a body of that payload.
#[verifier::external_body]
fn body_from_string(payload: String) -> hyper::Body {
    hyper::Body::from(payload)
}

/// Relies on hyper's `Body::empty`.
#[verifier::external_body]
fn empty_body() -> hyper::Body {
    hyper::Body::empty()
}

/// Relies on `Request::new`: a GET of `/` with no headers, carrying the body.
#[verifier::external_body]
fn new_request(body: hyper::Body) -> (r: http::Request<hyper::Body>)
    ensures
        header_names(r) == Set::<Seq<char>>::empty(),
{
    http::Request::new(body)
}

/// Relies on `Request::method_mut`, to set the method.
#[verifier::external_body]
fn set_method(req: &mut http::Request<hyper::Body>, method: http::Method)
    ensures
        header_names(*final(req)) == header_names(*old(req)),
{
    *req.method_mut() = method;
}

/// Relies on `Request::uri_mut`, to set the target.
#[verifier::external_body]
fn set_uri(req: &mut http::Request<hyper::Body>, uri: http::Uri)
    ensures
        header_names(*final(req)) == header_names(*old(req)),
{
    *req.uri_mut() = uri;
}

/// Relies on `HeaderMap::try_append` on the request's headers: it adds the value under its
/// name, a new name at most, and fails only when the map cannot grow, which it can while it
/// holds fewer than `HEADER_MAP_ROOM` names; the error becomes its message.
#[verifier::external_body]
fn append_header(
    req: &mut http::Request<hyper::Body>,
    name: http::header::HeaderName,
    value: http::header::HeaderValue,
) -> (r: Result<(), String>)
    ensures
        header_names(*old(req)).finite() && header_names(*old(req)).len() < HEADER_MAP_ROOM
            ==> r is Ok,
        header_names(*old(req)).finite() ==> header_names(*final(req)).finite()
            && header_names(*final(req)).len() <= header_names(*old(req)).len() + 1,
{
    match req.headers_mut().try_append(name, value) {
        Ok(_) => Ok(()),
        Err(e) => Err(e.to_string()),
    }
}

/// Why a leg could not be turned into a request.
#[derive(Debug, Clone, Copy, PartialEq, Eq, Structural)]
pub enum LegDefect {
    UnsupportedMethod,
    MalformedUri,
    IllegalHeaderName,
    IllegalHeaderValue,
    TooManyHeaders,
}

/// A leg, ready to send or rejected with its cause.
pub enum MaterializedLeg {
    ValidRequest(http::Request<hyper::Body>),
    InvalidRequest { defect: LegDefect, cause: String },
}

/// Header `i` of the leg has a legal name and a legal value.
pub open spec fn header_legal(leg: SingleHttpRequest, i: int) -> bool {
    header_name_legal(leg.headers@[i].0@) && header_value_legal(leg.headers@[i].1@)
}

/// The headers before `i` are all legal.
pub open spec fn headers_legal_before(leg: SingleHttpRequest, i: int) -> bool {
    forall|j: int| 0 <= j < i ==> #[trigger] header_legal(leg, j)
}

/// The leg's URI parses and each of its headers is legal.
pub open spec fn leg_acceptable(leg: SingleHttpRequest) -> bool {
    uri_accepted(leg.uri@) && headers_legal_before(leg, leg.headers@.len() as int)
}

/// The defect of a leg that is not acceptable: the URI first, then the headers in order,
/// the name of each before its value; a full header map, met first, is reported instead.
pub open spec fn defect_of(leg: SingleHttpRequest, r: MaterializedLeg) -> bool {
    &&& !uri_accepted(leg.uri@) ==> r == (MaterializedLeg::InvalidRequest {
        defect: LegDefect::MalformedUri,
        cause: r->cause,
    })
    &&& forall|i: int|
        0 <= i < leg.headers@.len() && uri_accepted(leg.uri@) && headers_legal_before(leg, i)
            && !#[trigger] header_legal(leg, i) ==> r is InvalidRequest && (r->defect == (
        if !header_name_legal(leg.headers@[i].0@) {
            LegDefect::IllegalHeaderName
        } else {
            LegDefect::IllegalHeaderValue
        }) || r->defect == LegDefect::TooManyHeaders)
}

/// `r` is what `leg` becomes: rejected exactly when it is not acceptable, or when the
/// request's header map is full, and with the defect that comes first. The map cannot be
/// full for a leg of at most `HEADER_MAP_ROOM` headers, so such a leg is sent when it is
/// acceptable. Headers are appended one pair at a time, so a name that repeats carries each
/// of its values.
pub open spec fn materializes(leg: SingleHttpRequest, r: MaterializedLeg) -> bool {
    &&& !leg_acceptable(leg) ==> r is InvalidRequest
    &&& leg_acceptable(leg) ==> r is ValidRequest || r->defect == LegDefect::TooManyHeaders
    &&& leg_acceptable(leg) && leg.headers@.len() <= HEADER_MAP_ROOM ==> r is ValidRequest
    &&& defect_of(leg, r)
}

/// A header that is not legal, with all before it legal, is the first such header: no other
/// has all before it legal.
proof fn lemma_first_defect(leg: SingleHttpRequest, i: int)
    requires
        0 <= i < leg.headers@.len(),
        headers_legal_before(leg, i),
        !header_legal(leg, i),
    ensures
        !headers_legal_before(leg, leg.headers@.len() as int),
        forall|k: int|
            0 <= k < leg.headers@.len() && headers_legal_before(leg, k) && !#[trigger] header_legal(
                leg,
                k,
            ) ==> k == i,
{
    assert forall|k: int|
        0 <= k < leg.headers@.len() && headers_legal_before(leg, k) && !#[trigger] header_legal(
            leg,
            k,
        ) implies k == i by {
        if k > i {
            assert(header_legal(leg, i));
        }
    }
}

/// Turns a leg into a request: the parsed method and URI, each header in order, and the
/// body, empty when the leg has none. A leg that cannot be sent is rejected, never the batch.
pub fn materialize(leg: SingleHttpRequest) -> (r: MaterializedLeg)
    ensures
        materializes(leg, r),
{
    let method = match parse_method(leg.method.as_str()) {
        Ok(m) => m,
        Err(cause) => {
            return MaterializedLeg::InvalidRequest { defect: LegDefect::UnsupportedMethod, cause };
        },
    };
    let uri = match parse_uri(leg.uri.as_str()) {
        Ok(u) => u,
        Err(cause) => {
            return MaterializedLeg::InvalidRequest { defect: LegDefect::MalformedUri, cause };
        },
    };
    let ghost leg0 = leg;
    let SingleHttpRequest { method: _, uri: _, headers, body } = leg;
    let payload = match body {
        Some(b) => body_from_string(b),
        None => empty_body(),
    };
    let mut req = new_request(payload);
    set_method(&mut req, method);
    set_uri(&mut req, uri);
    let n = headers.len();
    let mut i: usize = 0;
    while i < n
        invariant
            n == headers.len(),
            headers@ == leg0.headers@,
            leg0 == leg,
            uri_accepted(leg0.uri@),
            0 <= i <= n,
            headers_legal_before(leg0, i as int),
            header_names(req).finite(),
            header_names(req).len() <= i,
        decreases n - i,
    {
        let name = match parse_header_name(headers[i].0.as_str()) {
            Ok(h) => h,
            Err(cause) => {
                proof {
                    lemma_first_defect(leg0, i as int);
                }
                return MaterializedLeg::InvalidRequest {
                    defect: LegDefect::IllegalHeaderName,
                    cause,
                };
            },
        };
        let value = match parse_header_value(headers[i].1.as_str()) {
            Ok(v) => v,
            Err(cause) => {
                proof {
                    lemma_first_defect(leg0, i as int);
                }
                return MaterializedLeg::InvalidRequest {
                    defect: LegDefect::IllegalHeaderValue,
                    cause,
                };
            },
        };
        match append_header(&mut req, name, value) {
            Ok(()) => {},
            Err(cause) => {
                return MaterializedLeg::InvalidRequest { defect: LegDefect::TooManyHeaders, cause };
            },
        }
        proof {
            assert forall|j: int| 0 <= j < i + 1 implies #[trigger] header_legal(leg0, j) by {
                if j < i {
                    assert(header_legal(leg0, j));
                }
            }
        }
        i = i + 1;
    }
    MaterializedLeg::ValidRequest(req)
}

} // verus!
