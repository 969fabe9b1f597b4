//! Instrument sessions: the filtered search that finds a session's runs,
//! and the grouping of runs by the session they were recorded under.

use vstd::prelude::*;

use crate::backend::{decode_run_search_response, run_search_outcome, BackendRequest, BackendRequestView, FetchError};
use crate::run::{runs_view, HintDimension, Hints, NumEvents, Run, RunMetadata, RunView, Start, Stop, Versions};
use crate::text::{copy_strings, strings_view};

verus! {

/// A session and its runs, in the order the catalog listed them.
#[derive(Debug, Clone, PartialEq, Eq)]
pub struct InstrumentSession {
    pub name: String,
    pub runs: Vec<Run>,
}

/// The search of the catalog's root for the runs whose start document names
/// the session, with their data sources.
pub open spec fn session_search_request_of(name: Seq<char>) -> BackendRequestView {
    BackendRequestView {
        path: "/api/v1/search/"@,
        query: seq![
            ("filter[eq][condition][key]"@, "start.instrument_session"@),
            ("filter[eq][condition][value]"@, "\""@ + name + "\""@),
            ("include_data_sources"@, "true"@),
        ],
    }
}

/// The request that finds the runs of a session.
pub fn session_search_request(name: &str) -> (q: BackendRequest)
    ensures
        q@ == session_search_request_of(name@),
{
    let mut value = String::from_str("\"");
    value.append(name);
    value.append("\"");
    let query = vec![
        (String::from_str("filter[eq][condition][key]"), String::from_str("start.instrument_session")),
        (String::from_str("filter[eq][condition][value]"), value),
        (String::from_str("include_data_sources"), String::from_str("true")),
    ];
    let q = BackendRequest { path: String::from_str("/api/v1/search/"), query };
    assert(q@.query =~= session_search_request_of(name@).query);
    q
}

/// A session from the answer to its search: exactly the runs that the
/// catalog listed, in its order; or the failure of the search.
pub fn resolve_instrument_session(name: String, answer: Result<String, FetchError>) -> (r: Result<InstrumentSession, FetchError>)
    ensures
        match answer {
            Err(e) => r == Err::<InstrumentSession, FetchError>(e),
            Ok(body) => match run_search_outcome(body) {
                Ok(runs) => r matches Ok(s) && s.name == name && runs_view(s.runs@) == runs,
                Err(e) => r == Err::<InstrumentSession, FetchError>(e),
            },
        },
{
    match answer {
        Err(e) => Err(e),
        Ok(body) => match decode_run_search_response(body) {
            Ok(runs) => Ok(InstrumentSession { name, runs }),
            Err(e) => Err(e),
        },
    }
}

/// The session keys of the runs, each once, in the order of their first
/// run.
pub open spec fn session_keys(runs: Seq<RunView>) -> Seq<Seq<char>>
    decreases runs.len(),
{
    if runs.len() == 0 {
        Seq::empty()
    } else {
        let ks = session_keys(runs.drop_last());
        if ks.contains(runs.last().session) {
            ks
        } else {
            ks.push(runs.last().session)
        }
    }
}

/// The runs recorded under a session key, in their order.
pub open spec fn runs_of_session(runs: Seq<RunView>, key: Seq<char>) -> Seq<RunView>
    decreases runs.len(),
{
    if runs.len() == 0 {
        Seq::empty()
    } else {
        let rest = runs_of_session(runs.drop_last(), key);
        if runs.last().session == key {
            rest.push(runs.last())
        } else {
            rest
        }
    }
}

fn copy_hints(h: &Hints) -> (c: Hints)
    ensures
        c.dimensions@.map_values(|d: HintDimension| d@) == h.dimensions@.map_values(|d: HintDimension| d@),
{
    let mut dimensions: Vec<HintDimension> = Vec::new();
    let mut i: usize = 0;
    while i < h.dimensions.len()
        invariant
            i <= h.dimensions.len(),
            dimensions@.len() == i,
            forall|k: int| 0 <= k < i ==> #[trigger] dimensions@[k]@ == h.dimensions@[k]@,
        decreases h.dimensions.len() - i,
    {
        let d = &h.dimensions[i];
        dimensions.push(HintDimension { axes: copy_strings(&d.axes), stream: d.stream.clone() });
        i = i + 1;
    }
    let c = Hints { dimensions };
    assert(c.dimensions@.map_values(|d: HintDimension| d@) =~= h.dimensions@.map_values(|d: HintDimension| d@));
    c
}

fn copy_run(r: &Run) -> (c: Run)
    ensures
        c@ == r@,
{
    let stop = match &r.metadata.stop {
        Some(s) => Some(Stop { num_events: NumEvents { streams: copy_strings(&s.num_events.streams) } }),
        None => None,
    };
    let versions = match &r.metadata.start.versions {
        Some(v) => Some(Versions { ophyd: v.ophyd.clone(), ophyd_async: v.ophyd_async.clone(), bluesky: v.bluesky.clone() }),
        None => None,
    };
    let hints = match &r.metadata.start.hints {
        Some(h) => Some(copy_hints(h)),
        None => None,
    };
    let start = Start {
        instrument_session: r.metadata.start.instrument_session.clone(),
        scan_id: r.metadata.start.scan_id,
        versions,
        hints,
    };
    Run { id: r.id.clone(), metadata: RunMetadata { start, stop } }
}

fn contains_text(v: &Vec<String>, s: &String) -> (b: bool)
    ensures
        b == strings_view(v@).contains(s@),
{
    let mut i: usize = 0;
    while i < v.len()
        invariant
            i <= v.len(),
            forall|k: int| 0 <= k < i ==> v@[k]@ != s@,
        decreases v.len() - i,
    {
        if v[i] == *s {
            assert(strings_view(v@)[i as int] == s@);
            return true;
        }
        i = i + 1;
    }
    false
}

fn session_key_list(runs: &Vec<Run>) -> (keys: Vec<String>)
    ensures
        strings_view(keys@) == session_keys(runs_view(runs@)),
{
    let ghost rv = runs_view(runs@);
    let mut keys: Vec<String> = Vec::new();
    let mut i: usize = 0;
    assert(rv.take(0) =~= Seq::<RunView>::empty());
    assert(strings_view(keys@) =~= Seq::<Seq<char>>::empty());
    while i < runs.len()
        invariant
            i <= runs.len(),
            rv == runs_view(runs@),
            strings_view(keys@) == session_keys(rv.take(i as int)),
        decreases runs.len() - i,
    {
        assert(rv.take(i + 1).drop_last() =~= rv.take(i as int));
        assert(rv.take(i + 1).last() == runs@[i as int]@);
        let key = &runs[i].metadata.start.instrument_session;
        if !contains_text(&keys, key) {
            let ghost before = keys@;
            keys.push(key.clone());
            assert(strings_view(keys@) =~= strings_view(before).push(key@));
        }
        i = i + 1;
    }
    assert(rv.take(runs@.len() as int) =~= rv);
    keys
}

fn runs_with_key(runs: &Vec<Run>, key: &String) -> (out: Vec<Run>)
    ensures
        runs_view(out@) == runs_of_session(runs_view(runs@), key@),
{
    let ghost rv = runs_view(runs@);
    let mut out: Vec<Run> = Vec::new();
    let mut i: usize = 0;
    assert(rv.take(0) =~= Seq::<RunView>::empty());
    assert(runs_view(out@) =~= Seq::<RunView>::empty());
    while i < runs.len()
        invariant
            i <= runs.len(),
            rv == runs_view(runs@),
            runs_view(out@) == runs_of_session(rv.take(i as int), key@),
        decreases runs.len() - i,
    {
        assert(rv.take(i + 1).drop_last() =~= rv.take(i as int));
        assert(rv.take(i + 1).last() == runs@[i as int]@);
        if runs[i].metadata.start.instrument_session == *key {
            let ghost before = out@;
            let c = copy_run(&runs[i]);
            out.push(c);
            assert(runs_view(out@) =~= runs_view(before).push(runs@[i as int]@));
        }
        i = i + 1;
    }
    assert(rv.take(runs@.len() as int) =~= rv);
    out
}

/// Groups runs by their session key: one group for each key, in the order
/// of the key's first run, holding that key's runs in their order. An empty
/// key is a key like any other.
pub fn group_runs_by_session(runs: &Vec<Run>) -> (r: Vec<InstrumentSession>)
    ensures
        r@.len() == session_keys(runs_view(runs@)).len(),
        forall|i: int|
            0 <= i < r@.len() ==> (#[trigger] r@[i]).name@ == session_keys(runs_view(runs@))[i]
                && runs_view(r@[i].runs@) == runs_of_session(runs_view(runs@), r@[i].name@),
{
    let keys = session_key_list(runs);
    let mut r: Vec<InstrumentSession> = Vec::new();
    let mut i: usize = 0;
    while i < keys.len()
        invariant
            i <= keys.len(),
            strings_view(keys@) == session_keys(runs_view(runs@)),
            r@.len() == i,
            forall|k: int|
                0 <= k < i ==> (#[trigger] r@[k]).name@ == session_keys(runs_view(runs@))[k]
                    && runs_view(r@[k].runs@) == runs_of_session(runs_view(runs@), r@[k].name@),
        decreases keys.len() - i,
    {
        let group = runs_with_key(runs, &keys[i]);
        r.push(InstrumentSession { name: keys[i].clone(), runs: group });
        i = i + 1;
    }
    r
}

} // verus!
