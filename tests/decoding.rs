use glazed::backend::{
    decode_node_response, decode_run_response, decode_run_search_response, decode_search_response,
    FetchError,
};
use glazed::node::{Kind, Management, NodeAttributes, SortingDirection};

const RUN_ID: &str = "77e40dcd-00f7-48aa-9eeb-1909c3ce5831";

const METADATA_RUN: &str = r#"{
  "data": {
    "id": "77e40dcd-00f7-48aa-9eeb-1909c3ce5831",
    "attributes": {
      "ancestors": [],
      "structure_family": "container",
      "specs": [{"name": "BlueskyRun", "version": "3.0"}],
      "metadata": {
        "start": {
          "uid": "77e40dcd-00f7-48aa-9eeb-1909c3ce5831",
          "time": 1741264729.96,
          "versions": {"ophyd": "1.10.0", "ophyd_async": "0.9.0", "bluesky": "1.13.1"},
          "instrument": "p46",
          "instrument_session": "cm12345-1",
          "scan_id": 3,
          "plan_type": "generator",
          "plan_name": "count",
          "detectors": ["det"],
          "num_points": 1,
          "num_intervals": 0,
          "plan_args": {"num": 1},
          "hints": {"dimensions": [[["time"], "primary"]]},
          "shape": [1]
        },
        "stop": {
          "uid": "9b1dc2b6-1d16-4b64-b1c5-0cd1f1c4a1e2",
          "time": 1741264731.2,
          "run_start": "77e40dcd-00f7-48aa-9eeb-1909c3ce5831",
          "exit_status": "success",
          "reason": "",
          "num_events": {"primary": 1, "baseline": 2}
        }
      },
      "structure": {"contents": null, "count": 2},
      "access_blob": {},
      "sorting": [{"key": "", "direction": 1}],
      "data_sources": null
    },
    "links": {
      "self": "http://localhost:8000/api/v1/metadata/77e40dcd-00f7-48aa-9eeb-1909c3ce5831",
      "search": "http://localhost:8000/api/v1/search/77e40dcd-00f7-48aa-9eeb-1909c3ce5831",
      "full": "http://localhost:8000/api/v1/container/full/77e40dcd-00f7-48aa-9eeb-1909c3ce5831"
    },
    "meta": null
  },
  "error": null,
  "links": null,
  "meta": {}
}"#;

const SEARCH_ROOT: &str = r#"{
  "data": [
    {
      "id": "77e40dcd-00f7-48aa-9eeb-1909c3ce5831",
      "attributes": {
        "ancestors": [],
        "structure_family": "container",
        "specs": [{"name": "BlueskyRun", "version": "3.0"}],
        "metadata": {
          "start": {"uid": "77e40dcd-00f7-48aa-9eeb-1909c3ce5831", "instrument_session": "cm12345-1", "scan_id": 3},
          "stop": {"exit_status": "success", "num_events": {"primary": 1}}
        },
        "structure": {"contents": null, "count": 1},
        "sorting": null,
        "data_sources": null
      },
      "links": {"self": "http://localhost:8000/api/v1/metadata/77e40dcd-00f7-48aa-9eeb-1909c3ce5831"},
      "meta": null
    },
    {
      "id": "1E4A9B0C-5D6F-4A3B-8C2D-1E0F9A8B7C6D",
      "attributes": {
        "ancestors": [],
        "structure_family": "container",
        "specs": [],
        "metadata": {
          "start": {"uid": "1e4a9b0c-5d6f-4a3b-8c2d-1e0f9a8b7c6d", "instrument_session": "cm12345-1", "scan_id": 4}
        },
        "structure": {"contents": null, "count": 0},
        "data_sources": null
      }
    }
  ],
  "error": null,
  "links": {"self": "http://localhost:8000/api/v1/search/", "first": "a", "prev": null, "next": null, "last": "b"},
  "meta": {"count": 2}
}"#;

const CONTAINER_RUN: &str = r#"{
  "data": {
    "id": "77e40dcd-00f7-48aa-9eeb-1909c3ce5831",
    "attributes": {
      "ancestors": [],
      "structure_family": "container",
      "specs": [{"name": "BlueskyRun", "version": "3.0"}],
      "metadata": {},
      "structure": {"contents": {"primary": {}, "baseline": {}}, "count": 2},
      "sorting": [{"key": "time", "direction": "DESCENDING"}]
    }
  },
  "error": null
}"#;

const CONTAINER_EVENT_STREAM: &str = r#"{
  "data": {
    "id": "primary",
    "attributes": {
      "ancestors": ["77e40dcd-00f7-48aa-9eeb-1909c3ce5831"],
      "structure_family": "container",
      "specs": [{"name": "BlueskyEventStream", "version": "3.0"}],
      "metadata": {"configuration": {}, "data_keys": {}, "time": 1741264730.1, "hints": {}},
      "structure": {"contents": {"det": {}, "internal": {}}, "count": 2},
      "sorting": null,
      "data_sources": null
    },
    "links": {"self": "http://localhost:8000/api/v1/metadata/77e40dcd-00f7-48aa-9eeb-1909c3ce5831/primary"}
  },
  "error": null
}"#;

const CONTAINER_SNIPPET: &str = r#"{"data": {"id": "snippet", "attributes": {"ancestors": [], "structure_family": "container", "specs": [], "structure": {"contents": null, "count": 0}}}}"#;

const METADATA_ARRAY: &str = r#"{
  "data": {
    "id": "det",
    "attributes": {
      "ancestors": ["77e40dcd-00f7-48aa-9eeb-1909c3ce5831", "primary"],
      "structure_family": "array",
      "specs": [],
      "metadata": {},
      "structure": {
        "data_type": {"endianness": "little", "kind": "u", "itemsize": 2, "dt_units": null},
        "chunks": [[1], [10], [10]],
        "shape": [1, 10, 10],
        "dims": null,
        "resizable": false
      },
      "sorting": null,
      "data_sources": [
        {
          "id": 1,
          "structure_family": "array",
          "mimetype": "application/x-hdf5",
          "parameters": {"dataset": "entry/data/data"},
          "assets": [
            {"data_uri": "file://localhost/data/det.h5", "is_directory": false, "parameter": "data_uris", "num": null, "id": 7}
          ],
          "management": "external"
        }
      ]
    },
    "links": {"self": "x", "full": "y", "block": "z"}
  },
  "error": null
}"#;

const METADATA_TABLE: &str = r#"{
  "data": {
    "id": "internal",
    "attributes": {
      "ancestors": ["77e40dcd-00f7-48aa-9eeb-1909c3ce5831", "primary"],
      "structure_family": "table",
      "specs": [],
      "metadata": {},
      "structure": {"arrow_schema": "data:...", "npartitions": 1, "columns": ["time", "det-sum"], "resizable": false},
      "sorting": null,
      "data_sources": [
        {"id": 2, "mimetype": "application/x-parquet", "parameters": {}, "assets": [{"data_uri": "file://localhost/data/t.parquet", "id": 8}], "management": "writable"}
      ]
    }
  },
  "error": null
}"#;

const SEARCH_RUN_CONTAINER: &str = r#"{
  "data": [
    {"id": "baseline", "attributes": {"ancestors": ["77e40dcd-00f7-48aa-9eeb-1909c3ce5831"], "structure_family": "container", "specs": [{"name": "BlueskyEventStream", "version": null}], "structure": {"contents": null, "count": 1}}},
    {"id": "primary", "attributes": {"ancestors": ["77e40dcd-00f7-48aa-9eeb-1909c3ce5831"], "structure_family": "container", "specs": [{"name": "BlueskyEventStream", "version": "3.0"}], "structure": {"contents": null, "count": 2}}}
  ],
  "error": null,
  "links": {"self": "s", "first": "f", "prev": null, "next": null, "last": "l"},
  "meta": {"count": 2}
}"#;

#[test]
fn run_metadata() {
    let run = decode_run_response(METADATA_RUN.to_string()).unwrap();
    assert_eq!(run.id, RUN_ID);
    assert_eq!(run.metadata.start.instrument_session, "cm12345-1");
    assert_eq!(run.metadata.start.scan_id, Some(3));
    let versions = run.metadata.start.versions.clone().unwrap();
    assert_eq!(versions.bluesky, Some("1.13.1".to_string()));
    let hints = run.metadata.start.hints.clone().unwrap();
    assert_eq!(hints.dimensions.len(), 1);
    assert_eq!(hints.dimensions[0].axes, vec!["time".to_string()]);
    assert_eq!(hints.dimensions[0].stream, "primary");
    // serde_json keeps object members sorted by key
    let streams = run.metadata.stop.unwrap().num_events.streams;
    assert_eq!(streams, vec!["baseline".to_string(), "primary".to_string()]);
}

#[test]
fn search_root_for_run_containers() {
    let runs = decode_run_search_response(SEARCH_ROOT.to_string()).unwrap();
    assert_eq!(runs.len(), 2);
    assert_eq!(runs[0].id, RUN_ID);
    // ids are normalised to the hyphenated lower-case form
    assert_eq!(runs[1].id, "1e4a9b0c-5d6f-4a3b-8c2d-1e0f9a8b7c6d");
    assert!(runs[1].metadata.stop.is_none());
}

#[test]
fn container_full() {
    let node = decode_node_response(CONTAINER_RUN.to_string()).unwrap();
    assert_eq!(node.id, RUN_ID);
    let NodeAttributes::Container(attrs) = node.attributes else {
        panic!("expected a container");
    };
    let sorting = attrs.sorting.unwrap();
    assert_eq!(sorting[0].direction, SortingDirection::Descending);
}

#[test]
fn read_container_event_stream() {
    let node = decode_node_response(CONTAINER_EVENT_STREAM.to_string()).unwrap();
    assert_eq!(node.id, "primary");
    let NodeAttributes::Container(attrs) = &node.attributes else {
        panic!("expected a container");
    };
    assert_eq!(attrs.specs[0].name, "BlueskyEventStream");
    assert_eq!(attrs.ancestors, vec![RUN_ID.to_string()]);
    assert!(node.links.is_some());
}

#[test]
fn read_container_run() {
    let node = decode_node_response(CONTAINER_RUN.to_string()).unwrap();
    assert!(matches!(node.attributes, NodeAttributes::Container(_)));
    assert!(node.links.is_none());
}

#[test]
fn read_container_snippet() {
    let node = decode_node_response(CONTAINER_SNIPPET.to_string()).unwrap();
    assert_eq!(node.id, "snippet");
}

#[test]
fn read_metadata_array() {
    let node = decode_node_response(METADATA_ARRAY.to_string()).unwrap();
    let NodeAttributes::Array { attributes: attrs, kind } = node.attributes else {
        panic!("expected an array");
    };
    assert_eq!(kind, Some(Kind::UnsignedInteger));
    let sources = attrs.data_sources.unwrap();
    assert_eq!(sources.len(), 1);
    assert_eq!(sources[0].management, Management::External);
    assert_eq!(sources[0].assets[0].id, Some(7));
    assert_eq!(sources[0].assets[0].data_uri, "file://localhost/data/det.h5");
    assert_eq!(node.links.unwrap().block, Some("z".to_string()));
}

#[test]
fn read_metadata_event_stream() {
    let node = decode_node_response(CONTAINER_EVENT_STREAM.to_string()).unwrap();
    assert!(matches!(node.attributes, NodeAttributes::Container(_)));
}

#[test]
fn read_metadata_run() {
    let node = decode_node_response(METADATA_RUN.to_string()).unwrap();
    let NodeAttributes::Container(attrs) = node.attributes else {
        panic!("expected a container");
    };
    assert_eq!(attrs.specs[0].version, Some("3.0".to_string()));
    assert!(attrs.data_sources.is_none());
}

#[test]
fn read_metadata_table() {
    let node = decode_node_response(METADATA_TABLE.to_string()).unwrap();
    let NodeAttributes::Table { attributes, columns } = node.attributes else {
        panic!("expected a table");
    };
    assert_eq!(columns, vec!["time".to_string(), "det-sum".to_string()]);
    assert_eq!(attributes.data_sources.unwrap()[0].management, Management::Writable);
}

#[test]
fn read_search_run_container() {
    let nodes = decode_search_response(SEARCH_RUN_CONTAINER.to_string()).unwrap();
    assert_eq!(nodes.len(), 2);
    assert_eq!(nodes[0].id, "baseline");
    assert_eq!(nodes[1].id, "primary");
    let NodeAttributes::Container(attrs) = &nodes[0].attributes else {
        panic!("expected a container");
    };
    assert_eq!(attrs.specs[0].version, None);
}

#[test]
fn family_tag_mismatch_is_rejected() {
    // a table's structure under the array tag
    let doc = METADATA_TABLE.replace("\"table\"", "\"array\"");
    let err = decode_node_response(doc.clone()).unwrap_err();
    assert_eq!(err, FetchError::Deserialize { body: doc });
}

#[test]
fn unknown_family_is_rejected() {
    let doc = CONTAINER_SNIPPET.replace("\"container\"", "\"sparse\"");
    assert!(matches!(decode_node_response(doc), Err(FetchError::Deserialize { .. })));
}

#[test]
fn invalid_json_is_a_deserialize_error() {
    let err = decode_search_response("not json".to_string()).unwrap_err();
    assert_eq!(err, FetchError::Deserialize { body: "not json".to_string() });
}

#[test]
fn negative_asset_id_is_rejected() {
    let doc = METADATA_ARRAY.replace("\"id\": 7", "\"id\": -7");
    assert!(decode_node_response(doc).is_err());
}

#[test]
fn non_uuid_run_id_is_rejected() {
    let doc = METADATA_RUN.replace(
        "\"id\": \"77e40dcd-00f7-48aa-9eeb-1909c3ce5831\",\n    \"attributes\"",
        "\"id\": \"not-a-uuid\",\n    \"attributes\"",
    );
    assert!(decode_run_response(doc).is_err());
}

#[test]
fn bad_sort_direction_is_rejected() {
    let doc = CONTAINER_RUN.replace("\"DESCENDING\"", "2");
    assert!(decode_node_response(doc).is_err());
}

#[test]
fn hint_dimension_must_be_a_pair() {
    let doc = METADATA_RUN.replace("[[[\"time\"], \"primary\"]]", "[[[\"time\"]]]");
    assert!(decode_run_response(doc).is_err());
}

#[test]
fn read_error_response() {
    let raw = r#"{ "data": null, "error": {"code": 23, "message": "broken"}}"#;
    assert_eq!(
        decode_search_response(raw.to_string()),
        Err(FetchError::Catalog { code: 23, message: "broken".to_string() })
    );
}

#[test]
fn read_root_response() {
    let nodes = decode_search_response(SEARCH_ROOT.to_string()).unwrap();
    assert_eq!(nodes.len(), 2);
    assert_eq!(nodes[1].id, "1E4A9B0C-5D6F-4A3B-8C2D-1E0F9A8B7C6D");
}

#[test]
fn search_run_container_for_event_stream_containers() {
    let nodes = decode_search_response(SEARCH_RUN_CONTAINER.to_string()).unwrap();
    assert!(nodes.iter().all(|n| matches!(n.attributes, NodeAttributes::Container(_))));
}

#[test]
fn data_and_error_together_are_rejected() {
    let raw = r#"{"data": [], "error": {"code": 1, "message": "x"}}"#;
    assert!(matches!(decode_search_response(raw.to_string()), Err(FetchError::Deserialize { .. })));
    let raw = r#"{"data": null, "error": null}"#;
    assert!(matches!(decode_search_response(raw.to_string()), Err(FetchError::Deserialize { .. })));
    let raw = r#"{"data": [], "error": null}"#;
    assert_eq!(decode_search_response(raw.to_string()), Ok(vec![]));
}

#[test]
fn catalog_error_on_a_metadata_answer() {
    let raw = r#"{"error": {"code": 404, "message": "No such entry"}}"#;
    assert_eq!(
        decode_node_response(raw.to_string()),
        Err(FetchError::Catalog { code: 404, message: "No such entry".to_string() })
    );
    assert_eq!(
        decode_run_response(raw.to_string()),
        Err(FetchError::Catalog { code: 404, message: "No such entry".to_string() })
    );
}

#[test]
fn element_kind_codes() {
    let codes = [
        ('t', Kind::BitField),
        ('b', Kind::Boolean),
        ('i', Kind::Integer),
        ('u', Kind::UnsignedInteger),
        ('f', Kind::FloatingPoint),
        ('c', Kind::ComplexFloatingPoint),
        ('m', Kind::Timedelta),
        ('M', Kind::Datetime),
        ('S', Kind::String),
        ('U', Kind::Unicode),
        ('V', Kind::Other),
    ];
    for (code, kind) in codes {
        assert_eq!(Kind::from_code(code), Some(kind));
    }
    assert_eq!(Kind::from_code('x'), None);
    assert_eq!(Kind::from_code('I'), None);
}

#[test]
fn unknown_element_kind_is_rejected() {
    let doc = METADATA_ARRAY.replace("\"kind\": \"u\"", "\"kind\": \"q\"");
    assert!(decode_node_response(doc).is_err());
    let doc = METADATA_ARRAY.replace("\"kind\": \"u\"", "\"kind\": \"uu\"");
    assert!(decode_node_response(doc).is_err());
}

#[test]
fn structured_data_type_has_no_kind() {
    let doc = METADATA_ARRAY.replace(
        "{\"endianness\": \"little\", \"kind\": \"u\", \"itemsize\": 2, \"dt_units\": null}",
        "{\"itemsize\": 8, \"fields\": []}",
    );
    let node = decode_node_response(doc).unwrap();
    assert!(matches!(node.attributes, NodeAttributes::Array { kind: None, .. }));
}
