//! The HTTP transport boundary: the opaque `reqwest` client and the small
//! set of trusted wrappers through which a dispatch reaches it.
//!
//! Everything a dispatched call returns depends on the network, so none of
//! the wrappers here promises anything about a response's content; they only
//! fix the shape of the outcome. The executor in [`crate::rolling`] is
//! verified for every value these wrappers may hand back.

use vstd::prelude::*;

use crate::request::{pairs_view, Request};

verus! {

/// The top-level result of one successfully transported call: the received
/// status code and the body decoded as text.
#[derive(Debug)]
pub struct HttpResponse {
    pub status: u16,
    pub body: String,
}

/// The class of a transport failure.
#[derive(Clone, Copy, PartialEq, Eq, Structural, Debug)]
pub enum HttpErrorKind {
    /// The call exceeded the configured timeout.
    Timeout,
    /// The connection could not be established.
    Connect,
    /// The transport client itself could not be constructed.
    Build,
    /// Any other transport failure.
    Other,
}

/// A transport failure, surfaced as a per-request outcome and never
/// escalated past the window that observed it.
#[derive(Debug)]
pub struct HttpError {
    pub kind: HttpErrorKind,
    pub message: String,
}

#[verifier::external_type_specification]
#[verifier::external_body]
pub struct ExClient(reqwest::blocking::Client);

#[verifier::external_type_specification]
#[verifier::external_body]
pub struct ExMethod(reqwest::Method);

#[verifier::external_type_specification]
#[verifier::external_body]
pub struct ExHeaderValue(reqwest::header::HeaderValue);

#[verifier::external_type_specification]
#[verifier::external_body]
#[verifier::reject_recursive_types(T)]
pub struct ExHeaderMap<T>(reqwest::header::HeaderMap<T>);

#[verifier::external_type_specification]
#[verifier::external_body]
pub struct ExResponse(reqwest::blocking::Response);

/// Relies on `reqwest::blocking::ClientBuilder`: `timeout` bounds the
/// connect, read and write phases of every call made through the client, and
/// `http2_prior_knowledge` restricts the client to HTTP/2. `build` fails only
/// if the transport backend cannot be initialized; that failure is mapped to
/// a `Build` error. `build` panics when called from within an async runtime,
/// so the embedding application must construct executors from blocking
/// context.
#[verifier::external_body]
pub(crate) fn new_transport_client(timeout_ms: u64, force_http2: bool) -> (r: Result<
    reqwest::blocking::Client,
    HttpError,
>)
    ensures
        r matches Err(e) ==> e.kind == HttpErrorKind::Build,
{
    let timeout = std::time::Duration::from_millis(timeout_ms);
    let builder = reqwest::blocking::Client::builder().timeout(timeout);
    let builder = if force_http2 { builder.http2_prior_knowledge() } else { builder };
    match builder.build() {
        Ok(c) => Ok(c),
        Err(e) => Err(HttpError { kind: HttpErrorKind::Build, message: e.to_string() }),
    }
}

/// Relies on the associated constants of `reqwest::Method`, which name the
/// standard HTTP methods.
#[verifier::external_body]
fn to_transport_method(m: &crate::request::HttpMethod) -> reqwest::Method {
    match m {
        crate::request::HttpMethod::Get => reqwest::Method::GET,
        crate::request::HttpMethod::Post => reqwest::Method::POST,
        crate::request::HttpMethod::Put => reqwest::Method::PUT,
        crate::request::HttpMethod::Patch => reqwest::Method::PATCH,
        crate::request::HttpMethod::Delete => reqwest::Method::DELETE,
        crate::request::HttpMethod::Head => reqwest::Method::HEAD,
        crate::request::HttpMethod::Options => reqwest::Method::OPTIONS,
        crate::request::HttpMethod::Connect => reqwest::Method::CONNECT,
        crate::request::HttpMethod::Trace => reqwest::Method::TRACE,
    }
}

/// Whether `reqwest::header::HeaderName::from_bytes` accepts these
/// characters as a header name.
pub uninterp spec fn valid_header_name(name: Seq<char>) -> bool;

/// Whether `reqwest::header::HeaderValue::from_str` accepts these characters
/// as a header value.
pub uninterp spec fn valid_header_value(value: Seq<char>) -> bool;

/// The name/value entries a transport header map holds, keyed by the
/// ASCII-lowercased header name (the canonical form the HTTP layer stores).
pub uninterp spec fn header_entries(m: reqwest::header::HeaderMap) -> Map<Seq<char>, Seq<char>>;

/// The ASCII-lowercased form of a header name. Valid header names are ASCII,
/// and the HTTP layer canonicalizes their uppercase letters on parsing.
pub open spec fn ascii_lower(s: Seq<char>) -> Seq<char> {
    s.map_values(
        |c: char|
            if 'A' as u32 <= c as u32 && c as u32 <= 'Z' as u32 {
                ((c as u32) + 32) as char
            } else {
                c
            },
    )
}

/// The empty header-entry map.
pub open spec fn no_header_entries() -> Map<Seq<char>, Seq<char>> {
    Map::empty()
}

/// The entries a descriptor's header pairs produce, applied in storage
/// order: a representable pair is stored under its lowercased name, a later
/// pair replacing an earlier one of the same name; a pair the HTTP layer
/// cannot represent is skipped.
pub open spec fn header_entries_of(pairs: Seq<(Seq<char>, Seq<char>)>) -> Map<
    Seq<char>,
    Seq<char>,
>
    decreases pairs.len(),
{
    if pairs.len() == 0 {
        Map::empty()
    } else {
        let rest = header_entries_of(pairs.drop_last());
        let p = pairs.last();
        if valid_header_name(p.0) && valid_header_value(p.1) {
            rest.insert(ascii_lower(p.0), p.1)
        } else {
            rest
        }
    }
}

/// The entries of a pair list form a finite map no larger than the list.
proof fn lemma_header_entries_of_len(pairs: Seq<(Seq<char>, Seq<char>)>)
    ensures
        header_entries_of(pairs).dom().finite(),
        header_entries_of(pairs).len() <= pairs.len(),
    decreases pairs.len(),
{
    broadcast use vstd::map::group_map_axioms;
    broadcast use vstd::set::group_set_axioms;

    if pairs.len() == 0 {
    } else {
        lemma_header_entries_of_len(pairs.drop_last());
    }
}

/// Relies on `reqwest::header::HeaderMap::new`: an empty header map.
#[verifier::external_body]
fn new_header_map() -> (r: reqwest::header::HeaderMap)
    ensures
        header_entries(r) == no_header_entries(),
{
    reqwest::header::HeaderMap::new()
}

/// Relies on `reqwest::header::{HeaderName::from_bytes, HeaderValue::from_str,
/// HeaderMap::try_insert}`: a pair that forms a valid header name and value
/// is inserted under its lowercased name, replacing any value stored for
/// that name; a pair the HTTP layer cannot represent — an invalid name or
/// value, or a map at its size ceiling — is skipped, exactly as the
/// transport itself would refuse it. The ceiling cannot be reached below
/// 6554 entries: the map refuses growth only past its 32768-slot maximum,
/// and growth is demanded at the earliest once five times the entry count
/// reaches the slot count.
#[verifier::external_body]
fn insert_header(map: &mut reqwest::header::HeaderMap, name: &String, value: &String)
    ensures
        !(valid_header_name(name@) && valid_header_value(value@)) ==> header_entries(*final(map))
            == header_entries(*old(map)),
        valid_header_name(name@) && valid_header_value(value@) ==> (header_entries(*final(map))
            == header_entries(*old(map)).insert(ascii_lower(name@), value@) || header_entries(
            *final(map),
        ) == header_entries(*old(map))),
        valid_header_name(name@) && valid_header_value(value@) && header_entries(
            *old(map),
        ).len() < 6554 ==> header_entries(*final(map)) == header_entries(*old(map)).insert(
            ascii_lower(name@),
            value@,
        ),
{
    if let (Ok(n), Ok(v)) = (
        reqwest::header::HeaderName::from_bytes(name.as_bytes()),
        reqwest::header::HeaderValue::from_str(value),
    ) {
        let _ = map.try_insert(n, v);
    }
}

/// Builds the transport's header map from the pairs stored on a descriptor:
/// it holds exactly the representable pairs, each under its lowercased name,
/// a later pair replacing an earlier one of the same name. The bound keeps
/// every insertion below the transport map's size ceiling; a descriptor
/// carries nowhere near that many headers.
fn to_header_map(pairs: &Vec<(String, String)>) -> (r: reqwest::header::HeaderMap)
    ensures
        pairs@.len() < 6554 ==> header_entries(r) == header_entries_of(pairs_view(pairs@)),
{
    let mut map = new_header_map();
    let mut i: usize = 0;
    while i < pairs.len()
        invariant
            i <= pairs@.len(),
            pairs@.len() < 6554 ==> header_entries(map) == header_entries_of(
                pairs_view(pairs@.take(i as int)),
            ),
        decreases pairs.len() - i,
    {
        proof {
            if pairs@.len() < 6554 {
                lemma_header_entries_of_len(pairs_view(pairs@.take(i as int)));
            }
        }
        let p = &pairs[i];
        insert_header(&mut map, &p.0, &p.1);
        proof {
            if pairs@.len() < 6554 {
                let prev = pairs_view(pairs@.take(i as int));
                let cur = pairs_view(pairs@.take(i as int + 1));
                assert(cur =~= prev.push((p.0@, p.1@)));
                assert(cur.drop_last() =~= prev);
                assert(cur.last() == (p.0@, p.1@));
            }
        }
        i += 1;
    }
    proof {
        assert(pairs_view(pairs@.take(pairs@.len() as int)) =~= pairs_view(pairs@));
    }
    map
}

/// Relies on `reqwest::blocking::Client::request` and
/// `reqwest::blocking::RequestBuilder::{headers, body, send}`: issues one
/// HTTP call and blocks until it reaches a terminal state. What comes back
/// depends on the network; a transport failure is mapped to this library's
/// error value by `reqwest::Error::{is_timeout, is_connect}`, so it is never
/// of the construction class.
#[verifier::external_body]
fn transport_send(
    client: &reqwest::blocking::Client,
    method: reqwest::Method,
    url: &String,
    headers: Option<reqwest::header::HeaderMap>,
    body: &Option<String>,
) -> (r: Result<reqwest::blocking::Response, HttpError>)
    ensures
        r matches Err(e) ==> e.kind != HttpErrorKind::Build,
{
    let mut builder = client.request(method, url.as_str());
    if let Some(h) = headers { builder = builder.headers(h); }
    if let Some(d) = body { builder = builder.body(d.clone()); }
    match builder.send() {
        Ok(resp) => Ok(resp),
        Err(e) => {
            let kind = if e.is_timeout() { HttpErrorKind::Timeout } else if e.is_connect() { HttpErrorKind::Connect } else { HttpErrorKind::Other };
            Err(HttpError { kind, message: e.to_string() })
        },
    }
}

/// Relies on `reqwest::blocking::Response::{status, text}`: yields the
/// received status code and the body decoded as text. A failure while the
/// body is read is mapped to this library's error value by
/// `reqwest::Error::is_timeout`, so it is never of the construction class.
#[verifier::external_body]
fn read_response(resp: reqwest::blocking::Response) -> (r: Result<HttpResponse, HttpError>)
    ensures
        r matches Err(e) ==> e.kind != HttpErrorKind::Build,
{
    let status = resp.status().as_u16();
    match resp.text() {
        Ok(t) => Ok(HttpResponse { status, body: t }),
        Err(e) => {
            let kind = if e.is_timeout() { HttpErrorKind::Timeout } else { HttpErrorKind::Other };
            Err(HttpError { kind, message: e.to_string() })
        },
    }
}

/// Dispatches one descriptor through the client: builds the transport
/// request from the descriptor's method, URL, headers and body, issues it,
/// and reads the outcome. The outcome depends on the network; whatever comes
/// back is returned as a value, so one descriptor's failure can never unwind
/// past its own slot, and an error here is a per-request failure, never one
/// of the construction class.
pub(crate) fn send_descriptor(client: &reqwest::blocking::Client, req: &Request) -> (r: Result<
    HttpResponse,
    HttpError,
>)
    ensures
        r matches Err(e) ==> e.kind != HttpErrorKind::Build,
{
    let method = to_transport_method(&req.method);
    let headers = match &req.headers {
        Some(h) => Some(to_header_map(h)),
        None => None,
    };
    match transport_send(client, method, &req.url, headers, &req.post_data) {
        Ok(resp) => read_response(resp),
        Err(e) => Err(e),
    }
}

} // verus!
