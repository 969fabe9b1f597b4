use glazed::backend::{check_status, decode_run_search_response, FetchError};
use glazed::cli::{Cli, CliError, Commands};
use glazed::data::{project_dataset, AssetReference, Data, DataFile, TableData};
use glazed::node::{Asset, Attributes, DataSource, Management, Node, NodeAttributes};
use glazed::run::{NumEvents, Run, RunMetadata, Start, Stop};
use glazed::session::{group_runs_by_session, resolve_instrument_session, session_search_request};
use glazed::text::{decimal_string, join_segments};
use glazed::text::parse_u64;
use glazed::walker::{
    download_path, download_request, parse_download_path, run_data, stream_listing_requests, table_rows_request,
};

const RUN_ID: &str = "77e40dcd-00f7-48aa-9eeb-1909c3ce5831";

fn s(x: &str) -> String {
    x.to_string()
}

fn run(id: &str, session: &str, streams: Option<Vec<&str>>) -> Run {
    Run {
        id: s(id),
        metadata: RunMetadata {
            start: Start { instrument_session: s(session), scan_id: None, versions: None, hints: None },
            stop: streams.map(|v| Stop { num_events: NumEvents { streams: v.into_iter().map(s).collect() } }),
        },
    }
}

fn attributes(ancestors: Vec<&str>, data_sources: Option<Vec<DataSource>>) -> Attributes {
    Attributes { ancestors: ancestors.into_iter().map(s).collect(), specs: vec![], sorting: None, data_sources }
}

fn listing(datasets: &[(&str, &str)]) -> String {
    // each dataset: (id, family)
    let items: Vec<String> = datasets
        .iter()
        .map(|(id, family)| {
            let structure = match *family {
                "array" => "{\"data_type\": {}, \"shape\": [2]}",
                "table" => "{\"columns\": [\"a\", \"b\"]}",
                _ => "{\"contents\": null, \"count\": 0}",
            };
            format!(
                "{{\"id\": \"{id}\", \"attributes\": {{\"ancestors\": [\"{RUN_ID}\", \"primary\"], \"structure_family\": \"{family}\", \"specs\": [], \"structure\": {structure}, \"data_sources\": [{{\"assets\": [{{\"data_uri\": \"file:///{id}.h5\", \"id\": 1}}, {{\"data_uri\": \"file:///{id}.txt\", \"id\": null}}], \"management\": \"external\"}}]}}}}"
            )
        })
        .collect();
    format!("{{\"data\": [{}], \"error\": null}}", items.join(","))
}

#[test]
fn one_entry_for_the_asset_with_an_id() {
    let node = Node {
        id: s("det"),
        attributes: NodeAttributes::Array {
            attributes: attributes(
                vec![RUN_ID, "primary"],
                Some(vec![DataSource {
                    assets: vec![
                        Asset { data_uri: s("file:///a.h5"), id: None },
                        Asset { data_uri: s("file:///b.h5"), id: Some(4) },
                    ],
                    management: Management::External,
                }]),
            ),
            kind: None,
        },
        links: None,
    };
    let Some(Data::Array(a)) = project_dataset(&s(RUN_ID), &s("primary"), &node) else {
        panic!("expected array data");
    };
    assert_eq!(
        a.files,
        vec![DataFile {
            file: s("file:///b.h5"),
            download: AssetReference { run: s(RUN_ID), stream: s("primary"), dataset: s("det"), asset_id: 4 },
        }]
    );
}

#[test]
fn array_without_data_sources_has_no_entries() {
    let node = Node {
        id: s("det"),
        attributes: NodeAttributes::Array { attributes: attributes(vec![], None), kind: None },
        links: None,
    };
    let Some(Data::Array(a)) = project_dataset(&s(RUN_ID), &s("primary"), &node) else {
        panic!("expected array data");
    };
    assert!(a.files.is_empty());
}

#[test]
fn table_is_keyed_by_its_full_path() {
    let node = Node {
        id: s("internal"),
        attributes: NodeAttributes::Table { attributes: attributes(vec![RUN_ID, "primary"], None), columns: vec![s("time")] },
        links: None,
    };
    let Some(Data::Table(t)) = project_dataset(&s(RUN_ID), &s("primary"), &node) else {
        panic!("expected table data");
    };
    assert_eq!(t.path, format!("{RUN_ID}/primary/internal"));
    assert_eq!(t.columns, vec![s("time")]);
}

#[test]
fn containers_are_not_expanded() {
    let node = Node { id: s("nested"), attributes: NodeAttributes::Container(attributes(vec![], None)), links: None };
    assert_eq!(project_dataset(&s(RUN_ID), &s("primary"), &node), None);
}

#[test]
fn run_without_stop_lists_nothing_and_has_no_data() {
    let r = run(RUN_ID, "cm1", None);
    assert!(stream_listing_requests(&r).is_empty());
    assert_eq!(run_data(&r, &vec![]), Ok(vec![]));
}

#[test]
fn stream_listings_follow_the_stop_document() {
    let r = run(RUN_ID, "cm1", Some(vec!["baseline", "primary"]));
    let reqs = stream_listing_requests(&r);
    assert_eq!(reqs.len(), 2);
    assert_eq!(reqs[0].path, format!("/api/v1/search/{RUN_ID}/baseline"));
    assert_eq!(reqs[1].path, format!("/api/v1/search/{RUN_ID}/primary"));
    assert_eq!(reqs[1].query, vec![(s("include_data_sources"), s("true"))]);
}

#[test]
fn run_data_in_stream_then_dataset_order() {
    let r = run(RUN_ID, "cm1", Some(vec!["baseline", "primary"]));
    let answers = vec![Ok(listing(&[("t", "table")])), Ok(listing(&[("det", "array"), ("c", "container"), ("x", "array")]))];
    let data = run_data(&r, &answers).unwrap();
    let names: Vec<String> = data
        .iter()
        .map(|d| match d {
            Data::Array(a) => format!("{}/{}", a.stream, a.name),
            Data::Table(t) => t.name.clone(),
        })
        .collect();
    assert_eq!(names, vec![s("t"), s("primary/det"), s("primary/x")]);
    let Data::Array(det) = &data[1] else { panic!("expected array data") };
    assert_eq!(det.files.len(), 1);
    assert_eq!(det.files[0].download.asset_id, 1);
}

#[test]
fn run_data_twice_is_identical() {
    let r = run(RUN_ID, "cm1", Some(vec!["baseline", "primary"]));
    let answers = vec![Ok(listing(&[("t", "table")])), Ok(listing(&[("det", "array")]))];
    assert_eq!(run_data(&r, &answers), run_data(&r, &answers));
}

#[test]
fn first_failed_listing_fails_the_run() {
    let r = run(RUN_ID, "cm1", Some(vec!["a", "b", "c"]));
    let answers = vec![
        Ok(listing(&[("det", "array")])),
        Err(FetchError::UpstreamStatus { status: 500, body: s("boom") }),
        Err(FetchError::Transport { connect: true, message: s("refused") }),
    ];
    assert_eq!(run_data(&r, &answers), Err(FetchError::UpstreamStatus { status: 500, body: s("boom") }));
    let answers = vec![Ok(s("{}")), Ok(listing(&[]))];
    let r = run(RUN_ID, "cm1", Some(vec!["a", "b"]));
    assert_eq!(run_data(&r, &answers), Err(FetchError::Deserialize { body: s("{}") }));
}

#[test]
fn session_runs_are_the_search_result_in_order() {
    let body = format!(
        "{{\"data\": [{}, {}]}}",
        format!("{{\"id\": \"{RUN_ID}\", \"attributes\": {{\"metadata\": {{\"start\": {{\"instrument_session\": \"cm1\"}}}}}}}}"),
        "{\"id\": \"00000000-0000-0000-0000-000000000001\", \"attributes\": {\"metadata\": {\"start\": {\"instrument_session\": \"cm1\", \"scan_id\": 9}, \"stop\": null}}}"
    );
    let session = resolve_instrument_session(s("cm1"), Ok(body.clone())).unwrap();
    assert_eq!(session.name, "cm1");
    assert_eq!(session.runs, decode_run_search_response(body).unwrap());
    assert_eq!(session.runs[0].id, RUN_ID);
    assert_eq!(session.runs[1].metadata.start.scan_id, Some(9));
}

#[test]
fn session_search_failure_is_passed_on() {
    let err = FetchError::Transport { connect: false, message: s("timeout") };
    assert_eq!(resolve_instrument_session(s("cm1"), Err(err.clone())), Err(err));
}

#[test]
fn session_search_filters_on_the_session() {
    let q = session_search_request("cm12345-1");
    assert_eq!(q.path, "/api/v1/search/");
    assert_eq!(
        q.query,
        vec![
            (s("filter[eq][condition][key]"), s("start.instrument_session")),
            (s("filter[eq][condition][value]"), s("\"cm12345-1\"")),
            (s("include_data_sources"), s("true")),
        ]
    );
}

#[test]
fn grouping_is_stable_and_keeps_empty_keys() {
    let runs = vec![
        run("a", "s1", None),
        run("b", "", None),
        run("c", "s2", None),
        run("d", "s1", None),
        run("e", "", None),
    ];
    let groups = group_runs_by_session(&runs);
    let summary: Vec<(String, Vec<String>)> =
        groups.iter().map(|g| (g.name.clone(), g.runs.iter().map(|r| r.id.clone()).collect())).collect();
    assert_eq!(
        summary,
        vec![
            (s("s1"), vec![s("a"), s("d")]),
            (s(""), vec![s("b"), s("e")]),
            (s("s2"), vec![s("c")]),
        ]
    );
    assert!(group_runs_by_session(&vec![]).is_empty());
}

#[test]
fn download_addresses() {
    let r = AssetReference { run: s(RUN_ID), stream: s("primary"), dataset: s("det"), asset_id: 12 };
    assert_eq!(download_path(&r), format!("/asset/{RUN_ID}/primary/det/12"));
    let q = download_request(&r);
    assert_eq!(q.path, format!("/api/v1/asset/bytes/{RUN_ID}/primary/det"));
    assert_eq!(q.query, vec![(s("id"), s("12"))]);
}

#[test]
fn error_statuses_keep_status_and_body() {
    assert_eq!(check_status(200, s("ok")), Ok(s("ok")));
    assert_eq!(check_status(302, s("moved")), Ok(s("moved")));
    assert_eq!(check_status(404, s("nf")), Err(FetchError::UpstreamStatus { status: 404, body: s("nf") }));
    assert_eq!(check_status(599, s("x")), Err(FetchError::UpstreamStatus { status: 599, body: s("x") }));
}

#[test]
fn decimal_and_paths() {
    assert_eq!(decimal_string(0), "0");
    assert_eq!(decimal_string(1234567890), "1234567890");
    assert_eq!(decimal_string(u64::MAX), "18446744073709551615");
    assert_eq!(join_segments(&vec![]), "");
    assert_eq!(join_segments(&vec![s("a"), s("b"), s("c")]), "a/b/c");
}

fn args(v: &[&str]) -> Vec<String> {
    v.iter().map(|a| a.to_string()).collect()
}

#[test]
fn command_line_forms() {
    let cli = Cli::init(&args(&["serve"])).unwrap();
    assert_eq!(cli.command, Commands::Serve);
    assert_eq!(cli.config_filepath, None);
    let cli = Cli::init(&args(&["-c", "glazed.yaml", "serve"])).unwrap();
    assert_eq!(cli.config_filepath, Some(s("glazed.yaml")));
    let cli = Cli::init(&args(&["serve", "--config-filepath", "a.toml"])).unwrap();
    assert_eq!(cli.config_filepath, Some(s("a.toml")));
    let cli = Cli::init(&args(&["--config-filepath=b.toml", "serve"])).unwrap();
    assert_eq!(cli.config_filepath, Some(s("b.toml")));
}

#[test]
fn command_line_errors() {
    assert_eq!(Cli::init(&args(&[])).err(), Some(CliError::MissingCommand));
    assert_eq!(Cli::init(&args(&["serve", "-c"])).err(), Some(CliError::MissingValue));
    assert_eq!(Cli::init(&args(&["-c", "a", "serve", "-c", "b"])).err(), Some(CliError::Repeated));
    assert_eq!(Cli::init(&args(&["serve", "serve"])).err(), Some(CliError::Unexpected(s("serve"))));
    assert_eq!(Cli::init(&args(&["run"])).err(), Some(CliError::Unexpected(s("run"))));
    assert_eq!(Cli::init(&args(&["--help"])).err(), Some(CliError::Help));
    assert_eq!(Cli::init(&args(&["serve", "-V"])).err(), Some(CliError::Version));
}

#[test]
fn download_route_reads_back() {
    let r = AssetReference { run: s(RUN_ID), stream: s("primary"), dataset: s("det"), asset_id: 0 };
    assert_eq!(parse_download_path(&download_path(&r)), Some(r.clone()));
    let r = AssetReference { run: s("a"), stream: s("b"), dataset: s("c"), asset_id: u64::MAX };
    assert_eq!(parse_download_path(&download_path(&r)), Some(r));
}

#[test]
fn malformed_download_routes_are_rejected() {
    for path in [
        "",
        "/asset/",
        "/asset/a/b/c",
        "/asset/a/b/c/",
        "/asset/a/b/c/01",
        "/asset/a/b/c/1/",
        "/asset/a/b/c/d/1",
        "/asset//b/c/1",
        "/asset/a//c/1",
        "/asset/a/b//1",
        "/asset/a/b/c/-1",
        "/asset/a/b/c/18446744073709551616",
        "/assets/a/b/c/1",
    ] {
        assert_eq!(parse_download_path(path), None, "{path}");
    }
}

#[test]
fn canonical_decimal_only() {
    assert_eq!(parse_u64("0"), Some(0));
    assert_eq!(parse_u64("18446744073709551615"), Some(u64::MAX));
    assert_eq!(parse_u64("18446744073709551616"), None);
    assert_eq!(parse_u64("00"), None);
    assert_eq!(parse_u64(""), None);
    assert_eq!(parse_u64("1a"), None);
}

#[test]
fn table_rows_request_names_columns() {
    let t = TableData { name: s("internal"), columns: vec![s("a"), s("b")], path: format!("{RUN_ID}/primary/internal") };
    let q = table_rows_request(&t, &vec![s("b")]);
    assert_eq!(q.path, format!("/api/v1/table/full/{RUN_ID}/primary/internal"));
    assert_eq!(q.query, vec![(s("column"), s("b"))]);
}
