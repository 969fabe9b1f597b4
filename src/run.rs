//! Experiment runs, as the catalog's filtered search lists them.

use vstd::prelude::*;

use crate::json::{
    array_member, field, get_field, get_optional_int, get_optional_string, get_string, items, keys,
    object_keys, opt_str_view, optional_int_member, optional_string_member, string_member, Json,
};
use crate::node::{all_strings, decode_strings, string_of};
use crate::text::strings_view;

verus! {

/// The versions of the acquisition software that recorded a run.
#[derive(Debug, Clone, PartialEq, Eq)]
pub struct Versions {
    pub ophyd: Option<String>,
    pub ophyd_async: Option<String>,
    pub bluesky: Option<String>,
}

/// One plotting hint: the axes of a stream. Written `[[axis, ...], stream]`.
#[derive(Debug, Clone, PartialEq, Eq)]
pub struct HintDimension {
    pub axes: Vec<String>,
    pub stream: String,
}

pub struct HintDimensionView {
    pub axes: Seq<String>,
    pub stream: String,
}

impl View for HintDimension {
    type V = HintDimensionView;

    open spec fn view(&self) -> HintDimensionView {
        HintDimensionView { axes: self.axes@, stream: self.stream }
    }
}

#[derive(Debug, Clone, PartialEq, Eq)]
pub struct Hints {
    pub dimensions: Vec<HintDimension>,
}

pub open spec fn hints_view(h: Option<Hints>) -> Option<Seq<HintDimensionView>> {
    match h {
        Some(h) => Some(h.dimensions@.map_values(|d: HintDimension| d@)),
        None => None,
    }
}

/// The start document of a run: what the aggregation reads of it.
#[derive(Debug, Clone, PartialEq, Eq)]
pub struct Start {
    /// The key under which runs are grouped.
    pub instrument_session: String,
    pub scan_id: Option<i64>,
    pub versions: Option<Versions>,
    pub hints: Option<Hints>,
}

/// The streams for which a completed run recorded events.
#[derive(Debug, Clone, PartialEq, Eq)]
pub struct NumEvents {
    pub streams: Vec<String>,
}

/// The stop document of a completed run.
#[derive(Debug, Clone, PartialEq, Eq)]
pub struct Stop {
    pub num_events: NumEvents,
}

#[derive(Debug, Clone, PartialEq, Eq)]
pub struct RunMetadata {
    pub start: Start,
    /// Absent while the run has not completed.
    pub stop: Option<Stop>,
}

/// One acquisition, identified by a UUID.
#[derive(Debug, Clone, PartialEq, Eq)]
pub struct Run {
    pub id: String,
    pub metadata: RunMetadata,
}

pub struct RunView {
    pub id: Seq<char>,
    pub session: Seq<char>,
    pub scan_id: Option<i64>,
    pub versions: Option<Versions>,
    pub hints: Option<Seq<HintDimensionView>>,
    /// The stream names of the stop document; `None` without one.
    pub streams: Option<Seq<Seq<char>>>,
}

impl View for Run {
    type V = RunView;

    open spec fn view(&self) -> RunView {
        RunView {
            id: self.id@,
            session: self.metadata.start.instrument_session@,
            scan_id: self.metadata.start.scan_id,
            versions: self.metadata.start.versions,
            hints: hints_view(self.metadata.start.hints),
            streams: match self.metadata.stop {
                Some(s) => Some(strings_view(s.num_events.streams@)),
                None => None,
            },
        }
    }
}

pub open spec fn runs_view(v: Seq<Run>) -> Seq<RunView> {
    v.map_values(|r: Run| r@)
}

/// The streams that a run has data for: those of its stop document, and
/// none without one.
pub open spec fn run_streams(r: RunView) -> Seq<Seq<char>> {
    match r.streams {
        Some(s) => s,
        None => Seq::empty(),
    }
}

/// The hyphenated lower-case form of a UUID, where the text is one.
pub uninterp spec fn uuid_text(s: Seq<char>) -> Option<Seq<char>>;

/// Relies on `uuid::Uuid::parse_str` and `Display` for `uuid::Uuid`: the
/// text read as a UUID and written back in its hyphenated lower-case form;
/// `None` where the text is not a UUID.
#[verifier::external_body]
fn canonical_uuid(s: &str) -> (r: Option<String>)
    ensures
        opt_str_view(r) == uuid_text(s@),
{
    uuid::Uuid::parse_str(s).ok().map(|u| u.to_string())
}

/// The stream names of a run's metadata: `Some(None)` without a stop
/// document, `None` where the stop document has no `num_events` object.
pub open spec fn stop_streams_of(metadata: Json) -> Option<Option<Seq<Seq<char>>>> {
    match field(metadata, "stop"@) {
        None => Some(None),
        Some(Json::Null) => Some(None),
        Some(st) => match field(st, "num_events"@) {
            Some(ne) => match keys(ne) {
                Some(k) => Some(Some(k)),
                None => None,
            },
            None => None,
        },
    }
}

pub open spec fn versions_of(j: Json) -> Option<Versions> {
    match (
        optional_string_member(j, "ophyd"@),
        optional_string_member(j, "ophyd_async"@),
        optional_string_member(j, "bluesky"@),
    ) {
        (Some(ophyd), Some(ophyd_async), Some(bluesky)) => Some(Versions { ophyd, ophyd_async, bluesky }),
        _ => None,
    }
}

/// The `versions` of a start document: `Some(None)` where absent or `null`.
pub open spec fn optional_versions_of(start: Json) -> Option<Option<Versions>> {
    match field(start, "versions"@) {
        None => Some(None),
        Some(Json::Null) => Some(None),
        Some(v) => match versions_of(v) {
            Some(versions) => Some(Some(versions)),
            None => None,
        },
    }
}

pub open spec fn hint_dimension_of(j: Json) -> Option<HintDimensionView> {
    match items(j) {
        Some(pair) => if pair.len() == 2 {
            match (items(pair[0]), string_of(pair[1])) {
                (Some(axes), Some(stream)) => match all_strings(axes) {
                    Some(axes) => Some(HintDimensionView { axes, stream }),
                    None => None,
                },
                _ => None,
            }
        } else {
            None
        },
        None => None,
    }
}

pub open spec fn all_hint_dimensions(xs: Seq<Json>) -> Option<Seq<HintDimensionView>> {
    if forall|i: int| 0 <= i < xs.len() ==> (#[trigger] hint_dimension_of(xs[i])) is Some {
        Some(xs.map_values(|x: Json| hint_dimension_of(x).unwrap()))
    } else {
        None
    }
}

/// The `hints` of a start document: `Some(None)` where absent or `null`.
pub open spec fn optional_hints_of(start: Json) -> Option<Option<Seq<HintDimensionView>>> {
    match field(start, "hints"@) {
        None => Some(None),
        Some(Json::Null) => Some(None),
        Some(h) => match array_member(h, "dimensions"@) {
            Some(ds) => match all_hint_dimensions(ds) {
                Some(dimensions) => Some(Some(dimensions)),
                None => None,
            },
            None => None,
        },
    }
}

pub open spec fn run_of(j: Json) -> Option<RunView> {
    match (string_member(j, "id"@), field(j, "attributes"@)) {
        (Some(id), Some(at)) => match (uuid_text(id@), field(at, "metadata"@)) {
            (Some(uid), Some(md)) => match field(md, "start"@) {
                Some(st) => match (
                    string_member(st, "instrument_session"@),
                    optional_int_member(st, "scan_id"@),
                    optional_versions_of(st),
                    optional_hints_of(st),
                    stop_streams_of(md),
                ) {
                    (Some(session), Some(scan_id), Some(versions), Some(hints), Some(streams)) => Some(
                        RunView { id: uid, session: session@, scan_id, versions, hints, streams },
                    ),
                    _ => None,
                },
                None => None,
            },
            _ => None,
        },
        _ => None,
    }
}

pub open spec fn all_runs(xs: Seq<Json>) -> Option<Seq<RunView>> {
    if forall|i: int| 0 <= i < xs.len() ==> (#[trigger] run_of(xs[i])) is Some {
        Some(xs.map_values(|x: Json| run_of(x).unwrap()))
    } else {
        None
    }
}

/// The runs that the `data` of a search document lists.
pub open spec fn listed_runs_of(data: Json) -> Option<Seq<RunView>> {
    match items(data) {
        Some(xs) => all_runs(xs),
        None => None,
    }
}

fn decode_stop(metadata: &Json) -> (r: Option<Option<Stop>>)
    ensures
        r matches Some(s) ==> stop_streams_of(*metadata) == Some(
            match s {
                Some(st) => Some(strings_view(st.num_events.streams@)),
                None => None,
            },
        ),
        r is None ==> stop_streams_of(*metadata) is None,
{
    match get_field(metadata, "stop") {
        None => Some(None),
        Some(Json::Null) => Some(None),
        Some(st) => match get_field(st, "num_events") {
            Some(ne) => match object_keys(ne) {
                Some(streams) => Some(Some(Stop { num_events: NumEvents { streams } })),
                None => None,
            },
            None => None,
        },
    }
}

fn decode_versions(j: &Json) -> (r: Option<Versions>)
    ensures
        r == versions_of(*j),
{
    match (get_optional_string(j, "ophyd"), get_optional_string(j, "ophyd_async"), get_optional_string(j, "bluesky")) {
        (Some(ophyd), Some(ophyd_async), Some(bluesky)) => Some(Versions { ophyd, ophyd_async, bluesky }),
        _ => None,
    }
}

/// Reads one plotting hint, written `[[axis, ...], stream]`.
pub fn decode_hint_dimension(j: &Json) -> (r: Option<HintDimension>)
    ensures
        r matches Some(d) ==> hint_dimension_of(*j) == Some(d@),
        r is None ==> hint_dimension_of(*j) is None,
{
    match j {
        Json::Array(pair) => {
            if pair.len() != 2 {
                return None;
            }
            match (&pair[0], &pair[1]) {
                (Json::Array(axes), Json::Str(stream)) => match decode_strings(axes) {
                    Some(axes) => Some(HintDimension { axes, stream: stream.clone() }),
                    None => None,
                },
                _ => None,
            }
        },
        _ => None,
    }
}

fn decode_hints(j: &Json) -> (r: Option<Hints>)
    ensures
        r matches Some(h) ==> array_member(*j, "dimensions"@) matches Some(ds) && all_hint_dimensions(ds)
            == hints_view(Some(h)),
        r is None ==> !(array_member(*j, "dimensions"@) matches Some(ds) && all_hint_dimensions(ds) is Some),
{
    let xs = match get_field(j, "dimensions") {
        Some(Json::Array(xs)) => xs,
        _ => {
            return None;
        },
    };
    let mut v: Vec<HintDimension> = Vec::new();
    let mut i: usize = 0;
    while i < xs.len()
        invariant
            i <= xs.len(),
            v@.len() == i,
            array_member(*j, "dimensions"@) == Some(xs@),
            forall|k: int| 0 <= k < i ==> #[trigger] hint_dimension_of(xs@[k]) == Some(v@[k]@),
        decreases xs.len() - i,
    {
        match decode_hint_dimension(&xs[i]) {
            Some(d) => v.push(d),
            None => {
                return None;
            },
        }
        i = i + 1;
    }
    let h = Hints { dimensions: v };
    assert(h.dimensions@.map_values(|d: HintDimension| d@) =~= xs@.map_values(|x: Json| hint_dimension_of(x).unwrap()));
    Some(h)
}

/// Reads one run of a search document.
pub fn decode_run(j: &Json) -> (r: Option<Run>)
    ensures
        r matches Some(run) ==> run_of(*j) == Some(run@),
        r is None ==> run_of(*j) is None,
{
    let id = match get_string(j, "id") {
        Some(id) => id,
        None => {
            return None;
        },
    };
    let metadata = match get_field(j, "attributes") {
        Some(at) => match get_field(at, "metadata") {
            Some(md) => md,
            None => {
                return None;
            },
        },
        None => {
            return None;
        },
    };
    let uid = match canonical_uuid(id.as_str()) {
        Some(u) => u,
        None => {
            return None;
        },
    };
    let st = match get_field(metadata, "start") {
        Some(st) => st,
        None => {
            return None;
        },
    };
    let versions = match get_field(st, "versions") {
        None => None,
        Some(Json::Null) => None,
        Some(v) => match decode_versions(v) {
            Some(v) => Some(v),
            None => {
                return None;
            },
        },
    };
    let hints = match get_field(st, "hints") {
        None => None,
        Some(Json::Null) => None,
        Some(h) => match decode_hints(h) {
            Some(h) => Some(h),
            None => {
                return None;
            },
        },
    };
    match (get_string(st, "instrument_session"), get_optional_int(st, "scan_id"), decode_stop(metadata)) {
        (Some(instrument_session), Some(scan_id), Some(stop)) => Some(
            Run {
                id: uid,
                metadata: RunMetadata { start: Start { instrument_session, scan_id, versions, hints }, stop },
            },
        ),
        _ => None,
    }
}

/// Reads the runs that the `data` of a search document lists; all of them
/// or nothing.
pub fn decode_listed_runs(data: &Json) -> (r: Option<Vec<Run>>)
    ensures
        r matches Some(v) ==> listed_runs_of(*data) == Some(runs_view(v@)),
        r is None ==> listed_runs_of(*data) is None,
{
    let xs = match data {
        Json::Array(xs) => xs,
        _ => {
            return None;
        },
    };
    let mut v: Vec<Run> = Vec::new();
    let mut i: usize = 0;
    while i < xs.len()
        invariant
            i <= xs.len(),
            v@.len() == i,
            listed_runs_of(*data) == all_runs(xs@),
            forall|k: int| 0 <= k < i ==> #[trigger] run_of(xs@[k]) == Some(v@[k]@),
        decreases xs.len() - i,
    {
        match decode_run(&xs[i]) {
            Some(run) => v.push(run),
            None => {
                return None;
            },
        }
        i = i + 1;
    }
    assert(runs_view(v@) =~= xs@.map_values(|x: Json| run_of(x).unwrap()));
    Some(v)
}

} // verus!
