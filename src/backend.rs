//! The catalog as the core sees it: the read-only requests it issues, the
//! failures a request can end in, and how an answer's body is read.

use vstd::prelude::*;

use crate::json::{field, get_field, get_string, int_value, json_parse, parse_json, string_member, Json};
use crate::node::{decode_listed_nodes, decode_node, listed_nodes_of, node_of, nodes_view, Node, NodeView};
use crate::run::{decode_listed_runs, decode_run, listed_runs_of, run_of, runs_view, Run, RunView};

verus! {

/// A GET request to the catalog: a path below its address and the query
/// parameters, in order.
#[derive(Debug, Clone, PartialEq, Eq)]
pub struct BackendRequest {
    pub path: String,
    pub query: Vec<(String, String)>,
}

pub struct BackendRequestView {
    pub path: Seq<char>,
    pub query: Seq<(Seq<char>, Seq<char>)>,
}

impl View for BackendRequest {
    type V = BackendRequestView;

    open spec fn view(&self) -> BackendRequestView {
        BackendRequestView {
            path: self.path@,
            query: self.query@.map_values(|p: (String, String)| (p.0@, p.1@)),
        }
    }
}

/// Why a request to the catalog failed.
#[derive(Debug, Clone, PartialEq, Eq)]
pub enum FetchError {
    /// The request did not complete; `connect` where the catalog could not
    /// be reached at all.
    Transport { connect: bool, message: String },
    /// The catalog answered 4xx or 5xx.
    UpstreamStatus { status: u16, body: String },
    /// The catalog answered 2xx with a body that does not have the expected
    /// shape; the body is kept for diagnosis.
    Deserialize { body: String },
    /// The catalog answered with a document that reports an error.
    Catalog { code: i64, message: String },
}

pub open spec fn is_error_status(status: u16) -> bool {
    400 <= status < 600
}

/// Sorts an answer by its status: 4xx and 5xx are failures that keep the
/// status and the body.
pub fn check_status(status: u16, body: String) -> (r: Result<String, FetchError>)
    ensures
        is_error_status(status) ==> r == Err::<String, FetchError>(FetchError::UpstreamStatus { status, body }),
        !is_error_status(status) ==> r == Ok::<String, FetchError>(body),
{
    if 400 <= status && status < 600 {
        Err(FetchError::UpstreamStatus { status, body })
    } else {
        Ok(body)
    }
}

/// A member that is set: present and not `null`.
pub open spec fn set_member(j: Json, key: Seq<char>) -> Option<Json> {
    match field(j, key) {
        Some(Json::Null) => None,
        m => m,
    }
}

/// What a catalog document carries: its `data`, or the error it reports as
/// a code and a message. Exactly one of the two must be set; `None` where
/// both or neither are, or where the error is not a code and a message.
pub open spec fn content_of(j: Json) -> Option<Result<Json, (i64, String)>> {
    match (set_member(j, "data"@), set_member(j, "error"@)) {
        (Some(d), None) => Some(Ok(d)),
        (None, Some(e)) => match (field(e, "code"@), string_member(e, "message"@)) {
            (Some(c), Some(message)) => match int_value(c) {
                Some(code) => Some(Err((code, message))),
                None => None,
            },
            _ => None,
        },
        _ => None,
    }
}

/// Reads the content of a catalog document.
pub fn read_content(j: &Json) -> (r: Option<Result<&Json, (i64, String)>>)
    ensures
        r matches Some(Ok(d)) ==> content_of(*j) == Some(Ok::<Json, (i64, String)>(*d)),
        r matches Some(Err(e)) ==> content_of(*j) == Some(Err::<Json, (i64, String)>(e)),
        r is None ==> content_of(*j) is None,
{
    let data = match get_field(j, "data") {
        Some(Json::Null) => None,
        m => m,
    };
    let error = match get_field(j, "error") {
        Some(Json::Null) => None,
        m => m,
    };
    match (data, error) {
        (Some(d), None) => Some(Ok(d)),
        (None, Some(e)) => match (get_field(e, "code"), get_string(e, "message")) {
            (Some(Json::Number(n)), Some(message)) => match n.int {
                Some(code) => Some(Err((code, message))),
                None => None,
            },
            _ => None,
        },
        _ => None,
    }
}

/// The nodes of a search answer's body, or why the body cannot be read.
pub open spec fn search_outcome(body: String) -> Result<Seq<NodeView>, FetchError> {
    match json_parse(body@) {
        Some(j) => match content_of(j) {
            Some(Ok(d)) => match listed_nodes_of(d) {
                Some(nodes) => Ok(nodes),
                None => Err(FetchError::Deserialize { body }),
            },
            Some(Err((code, message))) => Err(FetchError::Catalog { code, message }),
            None => Err(FetchError::Deserialize { body }),
        },
        None => Err(FetchError::Deserialize { body }),
    }
}

/// The runs of a filtered search answer's body, or why the body cannot be
/// read.
pub open spec fn run_search_outcome(body: String) -> Result<Seq<RunView>, FetchError> {
    match json_parse(body@) {
        Some(j) => match content_of(j) {
            Some(Ok(d)) => match listed_runs_of(d) {
                Some(runs) => Ok(runs),
                None => Err(FetchError::Deserialize { body }),
            },
            Some(Err((code, message))) => Err(FetchError::Catalog { code, message }),
            None => Err(FetchError::Deserialize { body }),
        },
        None => Err(FetchError::Deserialize { body }),
    }
}

/// Reads the nodes that a search answer lists.
pub fn decode_search_response(body: String) -> (r: Result<Vec<Node>, FetchError>)
    ensures
        match search_outcome(body) {
            Ok(nodes) => r matches Ok(v) && nodes_view(v@) == nodes,
            Err(e) => r == Err::<Vec<Node>, FetchError>(e),
        },
{
    let parsed = parse_json(body.as_str());
    let listed = match &parsed {
        Some(j) => match read_content(j) {
            Some(Ok(d)) => decode_listed_nodes(d),
            Some(Err((code, message))) => {
                return Err(FetchError::Catalog { code, message });
            },
            None => None,
        },
        None => None,
    };
    match listed {
        Some(v) => Ok(v),
        None => Err(FetchError::Deserialize { body }),
    }
}

/// Reads the runs that a filtered search answer lists.
pub fn decode_run_search_response(body: String) -> (r: Result<Vec<Run>, FetchError>)
    ensures
        match run_search_outcome(body) {
            Ok(runs) => r matches Ok(v) && runs_view(v@) == runs,
            Err(e) => r == Err::<Vec<Run>, FetchError>(e),
        },
{
    let parsed = parse_json(body.as_str());
    let listed = match &parsed {
        Some(j) => match read_content(j) {
            Some(Ok(d)) => decode_listed_runs(d),
            Some(Err((code, message))) => {
                return Err(FetchError::Catalog { code, message });
            },
            None => None,
        },
        None => None,
    };
    match listed {
        Some(v) => Ok(v),
        None => Err(FetchError::Deserialize { body }),
    }
}

/// The node of a metadata answer's body (its `data` member), or why the
/// body cannot be read.
pub open spec fn node_outcome(body: String) -> Result<NodeView, FetchError> {
    match json_parse(body@) {
        Some(j) => match content_of(j) {
            Some(Err((code, message))) => Err(FetchError::Catalog { code, message }),
            Some(Ok(d)) => match node_of(d) {
                Some(n) => Ok(n),
                None => Err(FetchError::Deserialize { body }),
            },
            None => Err(FetchError::Deserialize { body }),
        },
        None => Err(FetchError::Deserialize { body }),
    }
}

/// The run of a metadata answer's body (its `data` member), or why the body
/// cannot be read.
pub open spec fn run_outcome(body: String) -> Result<RunView, FetchError> {
    match json_parse(body@) {
        Some(j) => match content_of(j) {
            Some(Err((code, message))) => Err(FetchError::Catalog { code, message }),
            Some(Ok(d)) => match run_of(d) {
                Some(r) => Ok(r),
                None => Err(FetchError::Deserialize { body }),
            },
            None => Err(FetchError::Deserialize { body }),
        },
        None => Err(FetchError::Deserialize { body }),
    }
}

/// Reads the node that a metadata answer describes.
pub fn decode_node_response(body: String) -> (r: Result<Node, FetchError>)
    ensures
        match node_outcome(body) {
            Ok(n) => r matches Ok(v) && v@ == n,
            Err(e) => r == Err::<Node, FetchError>(e),
        },
{
    let parsed = parse_json(body.as_str());
    let node = match &parsed {
        Some(j) => match read_content(j) {
            Some(Ok(d)) => decode_node(d),
            Some(Err((code, message))) => {
                return Err(FetchError::Catalog { code, message });
            },
            None => None,
        },
        None => None,
    };
    match node {
        Some(n) => Ok(n),
        None => Err(FetchError::Deserialize { body }),
    }
}

/// Reads the run that a metadata answer describes.
pub fn decode_run_response(body: String) -> (r: Result<Run, FetchError>)
    ensures
        match run_outcome(body) {
            Ok(run) => r matches Ok(v) && v@ == run,
            Err(e) => r == Err::<Run, FetchError>(e),
        },
{
    let parsed = parse_json(body.as_str());
    let run = match &parsed {
        Some(j) => match read_content(j) {
            Some(Ok(d)) => decode_run(d),
            Some(Err((code, message))) => {
                return Err(FetchError::Catalog { code, message });
            },
            None => None,
        },
        None => None,
    };
    match run {
        Some(v) => Ok(v),
        None => Err(FetchError::Deserialize { body }),
    }
}

} // verus!
