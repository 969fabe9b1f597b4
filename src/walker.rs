//! The walk below a run: which stream listings to request, and how their
//! answers, taken in stream order, become the run's data.
//!
//! The listings of one run's streams may be fetched concurrently; the caller
//! hands their answers back in stream order, so the result does not depend
//! on the order in which they completed. The first failure, in stream
//! order, fails the whole run.

use vstd::prelude::*;

use crate::backend::{decode_search_response, search_outcome, BackendRequest, BackendRequestView, FetchError};
use crate::data::{data_view, project_stream, push_stream_data, AssetReference, Data, DataView, TableData};
use crate::node::{nodes_view, NodeView};
use crate::run::{run_streams, Run};
use crate::text::{canonical_u64, decimal, decimal_string, lemma_decimal_reads_back, parse_u64, strings_view};

verus! {

/// The query that asks the catalog to include data sources.
pub open spec fn with_data_sources() -> Seq<(Seq<char>, Seq<char>)> {
    seq![("include_data_sources"@, "true"@)]
}

/// The request that lists the datasets of one stream of a run.
pub open spec fn stream_listing_request(run_id: Seq<char>, stream: Seq<char>) -> BackendRequestView {
    BackendRequestView { path: "/api/v1/search/"@ + run_id + "/"@ + stream, query: with_data_sources() }
}

/// The stream names of a run, as stored.
pub open spec fn stream_names(run: Run) -> Seq<String> {
    match run.metadata.stop {
        Some(s) => s.num_events.streams@,
        None => Seq::empty(),
    }
}

pub(crate) fn data_sources_query() -> (q: Vec<(String, String)>)
    ensures
        q@.map_values(|p: (String, String)| (p.0@, p.1@)) == with_data_sources(),
{
    let q = vec![(String::from_str("include_data_sources"), String::from_str("true"))];
    assert(q@.map_values(|p: (String, String)| (p.0@, p.1@)) =~= with_data_sources());
    q
}

/// The requests that list the datasets of each stream of a run, in stream
/// order; none for a run without a stop document.
pub fn stream_listing_requests(run: &Run) -> (r: Vec<BackendRequest>)
    ensures
        r@.len() == run_streams(run@).len(),
        forall|i: int| 0 <= i < r@.len() ==> #[trigger] r@[i]@ == stream_listing_request(run@.id, run_streams(run@)[i]),
{
    let mut r: Vec<BackendRequest> = Vec::new();
    match &run.metadata.stop {
        None => r,
        Some(stop) => {
            let streams = &stop.num_events.streams;
            let mut i: usize = 0;
            while i < streams.len()
                invariant
                    i <= streams.len(),
                    run_streams(run@) == strings_view(streams@),
                    r@.len() == i,
                    forall|k: int| 0 <= k < i ==> #[trigger] r@[k]@ == stream_listing_request(run@.id, run_streams(run@)[k]),
                decreases streams.len() - i,
            {
                let mut path = String::from_str("/api/v1/search/");
                path.append(run.id.as_str());
                path.append("/");
                path.append(streams[i].as_str());
                r.push(BackendRequest { path, query: data_sources_query() });
                i = i + 1;
            }
            r
        },
    }
}

/// The nodes of one listing answer, or why there are none.
pub open spec fn listing_outcome(l: Result<String, FetchError>) -> Result<Seq<NodeView>, FetchError> {
    match l {
        Ok(body) => search_outcome(body),
        Err(e) => Err(e),
    }
}

/// A run's data from the answers to its stream listings, in stream order:
/// the first failure, or what each stream's datasets become, stream after
/// stream.
pub open spec fn run_data_outcome(
    run_id: String,
    streams: Seq<String>,
    listings: Seq<Result<String, FetchError>>,
) -> Result<Seq<DataView>, FetchError>
    decreases listings.len(),
{
    if listings.len() == 0 || streams.len() == 0 {
        Ok(Seq::empty())
    } else {
        match listing_outcome(listings[0]) {
            Err(e) => Err(e),
            Ok(nodes) => match run_data_outcome(run_id, streams.drop_first(), listings.drop_first()) {
                Err(e) => Err(e),
                Ok(rest) => Ok(project_stream(run_id, streams[0], nodes) + rest),
            },
        }
    }
}

pub open spec fn prepend(acc: Seq<DataView>, r: Result<Seq<DataView>, FetchError>) -> Result<Seq<DataView>, FetchError> {
    match r {
        Ok(ds) => Ok(acc + ds),
        Err(e) => Err(e),
    }
}

fn copy_fetch_error(e: &FetchError) -> (c: FetchError)
    ensures
        c == *e,
{
    match e {
        FetchError::Transport { connect, message } => FetchError::Transport { connect: *connect, message: message.clone() },
        FetchError::UpstreamStatus { status, body } => FetchError::UpstreamStatus { status: *status, body: body.clone() },
        FetchError::Deserialize { body } => FetchError::Deserialize { body: body.clone() },
        FetchError::Catalog { code, message } => FetchError::Catalog { code: *code, message: message.clone() },
    }
}

/// A run's data, from the answers to the requests of
/// `stream_listing_requests`, given in the same order.
pub fn run_data(run: &Run, listings: &Vec<Result<String, FetchError>>) -> (r: Result<Vec<Data>, FetchError>)
    requires
        listings@.len() == stream_names(*run).len(),
    ensures
        match run_data_outcome(run.id, stream_names(*run), listings@) {
            Ok(ds) => r matches Ok(v) && data_view(v@) == ds,
            Err(e) => r == Err::<Vec<Data>, FetchError>(e),
        },
{
    let ghost names = stream_names(*run);
    let mut acc: Vec<Data> = Vec::new();
    let streams = match &run.metadata.stop {
        Some(stop) => &stop.num_events.streams,
        None => {
            return Ok(acc);
        },
    };
    proof {
        match run_data_outcome(run.id, names, listings@) {
            Ok(ds) => {
                assert(data_view(acc@) + ds =~= ds);
            },
            Err(_) => {},
        }
        assert(names.skip(0) =~= names);
        assert(listings@.skip(0) =~= listings@);
    }
    let mut i: usize = 0;
    while i < listings.len()
        invariant
            i <= listings.len(),
            names == streams@,
            names == stream_names(*run),
            listings@.len() == names.len(),
            run_data_outcome(run.id, names, listings@) == prepend(
                data_view(acc@),
                run_data_outcome(run.id, names.skip(i as int), listings@.skip(i as int)),
            ),
        decreases listings.len() - i,
    {
        proof {
            assert(listings@.skip(i as int).drop_first() =~= listings@.skip(i + 1));
            assert(names.skip(i as int).drop_first() =~= names.skip(i + 1));
            assert(listings@.skip(i as int)[0] == listings@[i as int]);
            assert(names.skip(i as int)[0] == names[i as int]);
        }
        match &listings[i] {
            Err(e) => {
                return Err(copy_fetch_error(e));
            },
            Ok(body) => match decode_search_response(body.clone()) {
                Err(e) => {
                    return Err(e);
                },
                Ok(nodes) => {
                    let ghost before = data_view(acc@);
                    push_stream_data(&run.id, &streams[i], &nodes, &mut acc);
                    proof {
                        let ps = project_stream(run.id, names[i as int], nodes_view(nodes@));
                        match run_data_outcome(run.id, names.skip(i + 1), listings@.skip(i + 1)) {
                            Ok(rest) => {
                                assert((before + ps) + rest =~= before + (ps + rest));
                            },
                            Err(_) => {},
                        }
                    }
                },
            },
        }
        i = i + 1;
    }
    proof {
        assert(data_view(acc@) + Seq::<DataView>::empty() =~= data_view(acc@));
    }
    Ok(acc)
}

/// The catalog request that downloads one asset.
pub open spec fn download_request_of(r: AssetReference) -> BackendRequestView {
    BackendRequestView {
        path: "/api/v1/asset/bytes/"@ + r.run@ + "/"@ + r.stream@ + "/"@ + r.dataset@,
        query: seq![("id"@, decimal(r.asset_id as nat))],
    }
}

/// The route under which the gateway serves one asset.
pub open spec fn download_path_of(r: AssetReference) -> Seq<char> {
    "/asset/"@ + r.run@ + "/"@ + r.stream@ + "/"@ + r.dataset@ + "/"@ + decimal(r.asset_id as nat)
}

/// The catalog request that downloads the asset of a reference.
pub fn download_request(r: &AssetReference) -> (q: BackendRequest)
    ensures
        q@ == download_request_of(*r),
{
    let mut path = String::from_str("/api/v1/asset/bytes/");
    path.append(r.run.as_str());
    path.append("/");
    path.append(r.stream.as_str());
    path.append("/");
    path.append(r.dataset.as_str());
    let query = vec![(String::from_str("id"), decimal_string(r.asset_id))];
    let q = BackendRequest { path, query };
    assert(q@.query =~= download_request_of(*r).query);
    q
}

/// The route under which the gateway serves the asset of a reference.
pub fn download_path(r: &AssetReference) -> (p: String)
    ensures
        p@ == download_path_of(*r),
{
    let mut p = String::from_str("/asset/");
    p.append(r.run.as_str());
    p.append("/");
    p.append(r.stream.as_str());
    p.append("/");
    p.append(r.dataset.as_str());
    p.append("/");
    let digits = decimal_string(r.asset_id);
    p.append(digits.as_str());
    p
}

/// The catalog request for the rows of a table, restricted to the given
/// columns (all of them where none is given).
pub open spec fn table_rows_request_of(path: Seq<char>, columns: Seq<String>) -> BackendRequestView {
    BackendRequestView {
        path: "/api/v1/table/full/"@ + path,
        query: columns.map_values(|c: String| ("column"@, c@)),
    }
}

/// The catalog request for the rows of a table.
pub fn table_rows_request(table: &TableData, columns: &Vec<String>) -> (q: BackendRequest)
    ensures
        q@ == table_rows_request_of(table.path@, columns@),
{
    let mut path = String::from_str("/api/v1/table/full/");
    path.append(table.path.as_str());
    let mut query: Vec<(String, String)> = Vec::new();
    let mut i: usize = 0;
    proof {
        reveal_strlit("column");
    }
    while i < columns.len()
        invariant
            i <= columns.len(),
            query@.len() == i,
            forall|k: int| 0 <= k < i ==> (#[trigger] query@[k]).0@ == "column"@ && query@[k].1@ == columns@[k]@,
        decreases columns.len() - i,
    {
        query.push((String::from_str("column"), columns[i].clone()));
        i = i + 1;
    }
    let q = BackendRequest { path, query };
    assert(q@.query =~= table_rows_request_of(table.path@, columns@).query);
    q
}

/// The index of the first `/` of `s` at or after `from`; `s.len()` where
/// there is none.
pub open spec fn slash_from(s: Seq<char>, from: int) -> int
    decreases s.len() - from,
{
    if from < 0 || from >= s.len() {
        s.len() as int
    } else if s[from] == '/' {
        from
    } else {
        slash_from(s, from + 1)
    }
}

/// What a download route names: the run, the stream, the dataset and the
/// asset id of `/asset/{run}/{stream}/{dataset}/{id}`, where the first three
/// are not empty and the id is a `u64` in canonical decimal.
pub open spec fn parse_route(s: Seq<char>) -> Option<(Seq<char>, Seq<char>, Seq<char>, u64)> {
    if s.len() < 7 || s.subrange(0, 7) != "/asset/"@ {
        None
    } else {
        let i1 = slash_from(s, 7);
        let i2 = slash_from(s, i1 + 1);
        let i3 = slash_from(s, i2 + 1);
        if i3 >= s.len() {
            None
        } else {
            let run = s.subrange(7, i1);
            let stream = s.subrange(i1 + 1, i2);
            let dataset = s.subrange(i2 + 1, i3);
            if run.len() == 0 || stream.len() == 0 || dataset.len() == 0 {
                None
            } else {
                match canonical_u64(s.subrange(i3 + 1, s.len() as int)) {
                    Some(id) => Some((run, stream, dataset, id)),
                    None => None,
                }
            }
        }
    }
}

fn find_slash(s: &str, n: usize, from: usize) -> (r: usize)
    requires
        n == s@.len(),
        from <= n,
    ensures
        r == slash_from(s@, from as int),
        from <= r <= n,
{
    let mut j = from;
    while j < n
        invariant
            from <= j <= n,
            n == s@.len(),
            slash_from(s@, from as int) == slash_from(s@, j as int),
        decreases n - j,
    {
        if s.get_char(j) == '/' {
            return j;
        }
        j = j + 1;
    }
    j
}

/// The asset reference that a download route names, as `parse_route` reads
/// it.
pub fn parse_download_path(path: &str) -> (r: Option<AssetReference>)
    ensures
        r matches Some(a) ==> parse_route(path@) == Some((a.run@, a.stream@, a.dataset@, a.asset_id)),
        r is None ==> parse_route(path@) is None,
{
    let n = path.unicode_len();
    if n < 7 {
        return None;
    }
    let head = String::from_str(path.substring_char(0, 7));
    let prefix = String::from_str("/asset/");
    if !(head == prefix) {
        return None;
    }
    let i1 = find_slash(path, n, 7);
    if i1 >= n {
        assert(slash_from(path@, i1 + 1) == n);
        assert(slash_from(path@, n + 1) == n);
        return None;
    }
    let i2 = find_slash(path, n, i1 + 1);
    if i2 >= n {
        assert(slash_from(path@, n + 1) == n);
        return None;
    }
    let i3 = find_slash(path, n, i2 + 1);
    if i3 >= n {
        return None;
    }
    if i1 == 7 || i2 == i1 + 1 || i3 == i2 + 1 {
        return None;
    }
    let asset_id = match parse_u64(path.substring_char(i3 + 1, n)) {
        Some(id) => id,
        None => {
            return None;
        },
    };
    let run = String::from_str(path.substring_char(7, i1));
    let stream = String::from_str(path.substring_char(i1 + 1, i2));
    let dataset = String::from_str(path.substring_char(i2 + 1, i3));
    Some(AssetReference { run, stream, dataset, asset_id })
}

/// A segment of a download route: not empty, without `/`.
pub open spec fn route_segment(s: Seq<char>) -> bool {
    s.len() > 0 && forall|i: int| 0 <= i < s.len() ==> s[i] != '/'
}

proof fn lemma_slash_from(s: Seq<char>, from: int, to: int)
    requires
        0 <= from <= to < s.len(),
        s[to] == '/',
        forall|k: int| from <= k < to ==> s[k] != '/',
    ensures
        slash_from(s, from) == to,
    decreases to - from,
{
    if from < to {
        lemma_slash_from(s, from + 1, to);
    }
}

/// A reference whose run, stream and dataset are route segments reads back
/// from its download route as itself.
pub proof fn download_path_reads_back(a: AssetReference)
    requires
        route_segment(a.run@),
        route_segment(a.stream@),
        route_segment(a.dataset@),
    ensures
        parse_route(download_path_of(a)) == Some((a.run@, a.stream@, a.dataset@, a.asset_id)),
{
    reveal_strlit("/asset/");
    reveal_strlit("/");
    let s = download_path_of(a);
    let (r, t, d, digits) = (a.run@, a.stream@, a.dataset@, decimal(a.asset_id as nat));
    lemma_decimal_reads_back(a.asset_id as nat);
    let run_end: int = 7 + r.len() as int;
    let stream_end: int = run_end + 1 + t.len() as int;
    let dataset_end: int = stream_end + 1 + d.len() as int;
    assert(s.len() == dataset_end + 1 + digits.len());
    assert(s.subrange(0, 7) =~= "/asset/"@);
    assert(s.subrange(7, run_end) =~= r);
    assert(s.subrange(run_end + 1, stream_end) =~= t);
    assert(s.subrange(stream_end + 1, dataset_end) =~= d);
    assert(s.subrange(dataset_end + 1, s.len() as int) =~= digits);
    assert(s[run_end] == '/' && s[stream_end] == '/' && s[dataset_end] == '/');
    assert forall|k: int| 7 <= k < run_end implies s[k] != '/' by {
        assert(s[k] == s.subrange(7, run_end)[k - 7]);
    }
    assert forall|k: int| run_end + 1 <= k < stream_end implies s[k] != '/' by {
        assert(s[k] == s.subrange(run_end + 1, stream_end)[k - run_end - 1]);
    }
    assert forall|k: int| stream_end + 1 <= k < dataset_end implies s[k] != '/' by {
        assert(s[k] == s.subrange(stream_end + 1, dataset_end)[k - stream_end - 1]);
    }
    lemma_slash_from(s, 7, run_end);
    lemma_slash_from(s, run_end + 1, stream_end);
    lemma_slash_from(s, stream_end + 1, dataset_end);
    assert(canonical_u64(digits) == Some(a.asset_id));
}

/// A run without a stop document has no streams: no listing is requested
/// for it, and its data is empty.
pub proof fn run_without_stop_needs_no_listing(run: Run)
    requires
        run.metadata.stop is None,
    ensures
        run_streams(run@).len() == 0,
        stream_names(run).len() == 0,
        run_data_outcome(run.id, stream_names(run), Seq::empty()) == Ok::<Seq<DataView>, FetchError>(Seq::empty()),
{
}

/// Resolving a run's data twice against the same answers gives the same
/// data: it depends only on the run and on the answers in stream order, not
/// on the order in which the listings completed.
pub proof fn run_data_is_repeatable(
    run: Run,
    first: Seq<Result<String, FetchError>>,
    second: Seq<Result<String, FetchError>>,
)
    requires
        first == second,
    ensures
        run_data_outcome(run.id, stream_names(run), first) == run_data_outcome(run.id, stream_names(run), second),
{
}

} // verus!
