//! The download proxy: how the catalog's answer to a single-asset download
//! becomes the response that the caller sees.
//!
//! A successful answer (2xx) is streamed through with an allow-list of its
//! headers; a client error (4xx) is streamed through with its status and no
//! headers; anything else is reported as 503 with a JSON description; a
//! failure to reach the catalog is 503, any other transport failure 500.

use vstd::prelude::*;

use crate::json::{json_parse, json_quoted, json_text, json_to_string, parse_json, quote_json};
use crate::text::{decimal, decimal_string};

verus! {

/// One HTTP header: its name, lower case as HTTP libraries normalise it, and
/// its raw value.
#[derive(Debug, Clone, PartialEq, Eq)]
pub struct Header {
    pub name: String,
    pub value: Vec<u8>,
}

impl View for Header {
    type V = (Seq<char>, Seq<u8>);

    open spec fn view(&self) -> (Seq<char>, Seq<u8>) {
        (self.name@, self.value@)
    }
}

/// The views of a sequence of headers.
pub open spec fn headers_view(hs: Seq<Header>) -> Seq<(Seq<char>, Seq<u8>)> {
    hs.map_values(|h: Header| h@)
}

/// The headers that a successful download passes on, in the order they are
/// passed on.
pub open spec fn forwarded_names() -> Seq<Seq<char>> {
    seq!["content-disposition"@, "content-type"@, "content-length"@, "last-modified"@]
}

/// The value of the first header called `name`.
pub open spec fn first_value(hs: Seq<(Seq<char>, Seq<u8>)>, name: Seq<char>) -> Option<Seq<u8>>
    decreases hs.len(),
{
    if hs.len() == 0 {
        None
    } else if hs[0].0 == name {
        Some(hs[0].1)
    } else {
        first_value(hs.drop_first(), name)
    }
}

/// For each of `names` in turn that occurs in `hs`, that name with its first
/// value.
pub open spec fn forwarded(hs: Seq<(Seq<char>, Seq<u8>)>, names: Seq<Seq<char>>) -> Seq<(Seq<char>, Seq<u8>)>
    decreases names.len(),
{
    if names.len() == 0 {
        Seq::empty()
    } else {
        let rest = forwarded(hs, names.drop_last());
        match first_value(hs, names.last()) {
            Some(v) => rest.push((names.last(), v)),
            None => rest,
        }
    }
}

/// How an upstream status is treated.
#[derive(PartialEq, Eq, Structural, Debug, Clone, Copy)]
pub enum StatusBucket {
    /// 2xx: the download worked.
    Success,
    /// 4xx: the caller should see exactly this.
    ClientError,
    /// Everything else: the catalog broke its contract.
    Unexpected,
}

pub open spec fn bucket_of(status: u16) -> StatusBucket {
    if 200 <= status < 300 {
        StatusBucket::Success
    } else if 400 <= status < 500 {
        StatusBucket::ClientError
    } else {
        StatusBucket::Unexpected
    }
}

/// The bucket of an upstream status code.
pub fn status_bucket(status: u16) -> (b: StatusBucket)
    ensures
        b == bucket_of(status),
{
    if 200 <= status && status < 300 {
        StatusBucket::Success
    } else if 400 <= status && status < 500 {
        StatusBucket::ClientError
    } else {
        StatusBucket::Unexpected
    }
}

/// What came back from the download request to the catalog.
#[derive(Debug, Clone, PartialEq, Eq)]
pub enum Upstream {
    /// The catalog could not be reached (refused, timed out, unresolved).
    ConnectFailed,
    /// Any other transport failure.
    Failed,
    /// The catalog answered with this status and these headers; its body is
    /// still unread.
    Responded { status: u16, headers: Vec<Header> },
}

/// The body of the proxy's response.
#[derive(Debug, Clone, PartialEq, Eq)]
pub enum ProxyBody {
    /// The upstream body, streamed through unchanged.
    Upstream,
    /// A body of the proxy's own.
    Text(String),
}

/// The response that the caller gets.
#[derive(Debug, Clone, PartialEq, Eq)]
pub struct ProxyResponse {
    pub status: u16,
    pub headers: Vec<Header>,
    pub body: ProxyBody,
}

/// The next thing the proxy does with an upstream answer.
#[derive(Debug, Clone, PartialEq, Eq)]
pub enum ProxyStep {
    /// Send this response.
    Respond(ProxyResponse),
    /// Read the upstream body as text and hand it, with this status, to
    /// `report_unexpected_response`.
    ReadBody { status: u16 },
}

pub open spec fn body_view(b: ProxyBody) -> Option<Seq<char>> {
    match b {
        ProxyBody::Upstream => None,
        ProxyBody::Text(t) => Some(t@),
    }
}

/// `p` has this status, these headers and this body (`None`: the upstream
/// body).
pub open spec fn is_response(
    p: ProxyResponse,
    status: u16,
    headers: Seq<(Seq<char>, Seq<u8>)>,
    body: Option<Seq<char>>,
) -> bool {
    &&& p.status == status
    &&& headers_view(p.headers@) == headers
    &&& body_view(p.body) == body
}

pub open spec fn connect_failure_text() -> Seq<char> {
    "Could not connect to tiled"@
}

pub open spec fn request_failure_text() -> Seq<char> {
    "Error making request to tiled"@
}

fn copy_bytes(v: &Vec<u8>) -> (r: Vec<u8>)
    ensures
        r@ == v@,
{
    let mut r: Vec<u8> = Vec::new();
    let mut i: usize = 0;
    while i < v.len()
        invariant
            i <= v.len(),
            r@ == v@.take(i as int),
        decreases v.len() - i,
    {
        proof {
            assert(v@.take(i + 1) =~= v@.take(i as int).push(v@[i as int]));
        }
        r.push(v[i]);
        i = i + 1;
    }
    proof {
        assert(v@.take(v@.len() as int) =~= v@);
    }
    r
}

/// The index of the first header called `name`.
fn find_header(hs: &Vec<Header>, name: &String) -> (r: Option<usize>)
    ensures
        r matches Some(i) ==> i < hs@.len() && first_value(headers_view(hs@), name@) == Some(hs@[i as int].value@),
        r is None ==> first_value(headers_view(hs@), name@) is None,
{
    let mut i: usize = 0;
    proof {
        assert(headers_view(hs@).skip(0) =~= headers_view(hs@));
    }
    while i < hs.len()
        invariant
            i <= hs.len(),
            first_value(headers_view(hs@), name@) == first_value(headers_view(hs@).skip(i as int), name@),
        decreases hs.len() - i,
    {
        proof {
            assert(headers_view(hs@).skip(i as int).drop_first() =~= headers_view(hs@).skip(i + 1));
            assert(headers_view(hs@).skip(i as int)[0] == hs@[i as int]@);
        }
        if hs[i].name == *name {
            return Some(i);
        }
        i = i + 1;
    }
    None
}

/// The headers of a successful download that reach the caller: for each
/// allow-listed name in turn, the first header of that name.
pub fn forwarded_headers(hs: &Vec<Header>) -> (r: Vec<Header>)
    ensures
        headers_view(r@) == forwarded(headers_view(hs@), forwarded_names()),
{
    let names: Vec<String> = vec![
        String::from_str("content-disposition"),
        String::from_str("content-type"),
        String::from_str("content-length"),
        String::from_str("last-modified"),
    ];
    assert(names@.map_values(|s: String| s@) =~= forwarded_names());
    let mut r: Vec<Header> = Vec::new();
    let mut k: usize = 0;
    while k < names.len()
        invariant
            k <= names.len(),
            names@.map_values(|s: String| s@) == forwarded_names(),
            headers_view(r@) == forwarded(headers_view(hs@), forwarded_names().take(k as int)),
        decreases names.len() - k,
    {
        proof {
            assert(forwarded_names().take(k + 1).drop_last() =~= forwarded_names().take(k as int));
            assert(forwarded_names().take(k + 1).last() == names@[k as int]@);
        }
        match find_header(hs, &names[k]) {
            Some(i) => {
                let h = Header { name: names[k].clone(), value: copy_bytes(&hs[i].value) };
                r.push(h);
                assert(headers_view(r@) =~= forwarded(headers_view(hs@), forwarded_names().take(k + 1)));
            },
            None => {},
        }
        k = k + 1;
    }
    proof {
        assert(forwarded_names().take(4) =~= forwarded_names());
    }
    r
}

/// The step that the proxy takes on the catalog's answer to a download.
pub fn forward_download_response(upstream: &Upstream) -> (s: ProxyStep)
    ensures
        match *upstream {
            Upstream::ConnectFailed => s matches ProxyStep::Respond(p)
                && is_response(p, 503, Seq::empty(), Some(connect_failure_text())),
            Upstream::Failed => s matches ProxyStep::Respond(p)
                && is_response(p, 500, Seq::empty(), Some(request_failure_text())),
            Upstream::Responded { status, headers } => match bucket_of(status) {
                StatusBucket::Success => s matches ProxyStep::Respond(p)
                    && is_response(p, status, forwarded(headers_view(headers@), forwarded_names()), None),
                StatusBucket::ClientError => s matches ProxyStep::Respond(p)
                    && is_response(p, status, Seq::empty(), None),
                StatusBucket::Unexpected => s == (ProxyStep::ReadBody { status }),
            },
        },
{
    proof {
        assert(headers_view(Seq::<Header>::empty()) =~= Seq::empty());
    }
    match upstream {
        Upstream::ConnectFailed => {
            let text = String::from_str("Could not connect to tiled");
            ProxyStep::Respond(ProxyResponse { status: 503, headers: Vec::new(), body: ProxyBody::Text(text) })
        },
        Upstream::Failed => {
            let text = String::from_str("Error making request to tiled");
            ProxyStep::Respond(ProxyResponse { status: 500, headers: Vec::new(), body: ProxyBody::Text(text) })
        },
        Upstream::Responded { status, headers } => match status_bucket(*status) {
            StatusBucket::Success => {
                let forwarded = forwarded_headers(headers);
                ProxyStep::Respond(ProxyResponse { status: *status, headers: forwarded, body: ProxyBody::Upstream })
            },
            StatusBucket::ClientError => {
                ProxyStep::Respond(ProxyResponse { status: *status, headers: Vec::new(), body: ProxyBody::Upstream })
            },
            StatusBucket::Unexpected => ProxyStep::ReadBody { status: *status },
        },
    }
}

/// The body that reports an unexpected upstream status, around the JSON
/// that stands for the upstream body.
pub open spec fn unexpected_text(status: u16, response_json: Seq<char>) -> Seq<char> {
    "{\"detail\":\"Unexpected response from tiled\",\"status\":"@ + decimal(status as nat)
        + ",\"response\":"@ + response_json + "}"@
}

/// What the proxy knows of an unexpected upstream body: its text, or why it
/// could not be read.
pub open spec fn content_of(body: Result<String, String>) -> Seq<char> {
    match body {
        Ok(t) => t@,
        Err(e) => "Unable to read error response: "@ + e@,
    }
}

/// The JSON that stands for an upstream body: the body where it is JSON,
/// else the body as a JSON string.
pub open spec fn embedded_response(content: Seq<char>) -> Seq<char> {
    match json_parse(content) {
        Some(v) => json_text(v),
        None => json_quoted(content),
    }
}

/// The report of an unexpected upstream status, given the JSON that stands
/// for the upstream body.
pub fn unexpected_response_text(status: u16, response_json: &str) -> (r: String)
    ensures
        r@ == unexpected_text(status, response_json@),
{
    let mut r = String::from_str("{\"detail\":\"Unexpected response from tiled\",\"status\":");
    let digits = decimal_string(status as u64);
    r.append(digits.as_str());
    r.append(",\"response\":");
    r.append(response_json);
    r.append("}");
    r
}

/// The response to an upstream status outside 2xx and 4xx: 503, no headers,
/// and a JSON report that carries the status and the upstream body.
pub fn report_unexpected_response(status: u16, body: Result<String, String>) -> (p: ProxyResponse)
    ensures
        is_response(p, 503, Seq::empty(), Some(unexpected_text(status, embedded_response(content_of(body))))),
{
    let content = match body {
        Ok(t) => t,
        Err(e) => {
            let mut c = String::from_str("Unable to read error response: ");
            c.append(e.as_str());
            c
        },
    };
    let embedded = match parse_json(content.as_str()) {
        Some(v) => json_to_string(&v),
        None => quote_json(content.as_str()),
    };
    let text = unexpected_response_text(status, embedded.as_str());
    proof {
        assert(headers_view(Seq::<Header>::empty()) =~= Seq::empty());
    }
    ProxyResponse { status: 503, headers: Vec::new(), body: ProxyBody::Text(text) }
}

} // verus!
