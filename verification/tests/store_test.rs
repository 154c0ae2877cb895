use suiup::defaults::{DefaultVersion, DefaultVersions};
use suiup::handlers::install::install_binary;
use suiup::handlers::{installed_binaries_grouped_by_network, update_default_versions};
use suiup::json::{parse, render, Json};
use suiup::store_format::{
    decode_defaults, decode_entry, decode_installed, decode_record, defaults_from_text,
    defaults_to_text, encode_defaults, encode_entry, encode_installed, encode_record,
    installed_from_text, installed_to_text, load_defaults, load_installed, FileContent, StoreError,
};
use suiup::types::{BinaryVersion, InstalledBinaries};

fn record(name: &str, network: &str, version: &str, debug: bool, path: Option<&str>) -> BinaryVersion {
    BinaryVersion {
        binary_name: name.to_string(),
        network_release: network.to_string(),
        version: version.to_string(),
        debug,
        path: path.map(String::from),
    }
}

fn default_of(network: &str, version: &str, debug: bool) -> DefaultVersion {
    DefaultVersion { network_release: network.to_string(), version: version.to_string(), debug }
}

#[test]
fn new_store_is_empty() {
    let store = InstalledBinaries::new();
    assert_eq!(store.len(), 0);
    assert!(store.binaries().is_empty());
    assert!(store.find("sui", "testnet", "1.39.3", false).is_none());
    assert!(!store.contains_binary("sui"));
}

#[test]
fn add_or_replace_appends_a_new_key() {
    let mut store = InstalledBinaries::new();
    store.add_or_replace(record("sui", "testnet", "1.39.3", false, Some("/a")));
    store.add_or_replace(record("sui", "testnet", "1.39.3", true, Some("/b")));
    store.add_or_replace(record("sui", "devnet", "1.39.3", false, None));
    store.add_or_replace(record("sui", "testnet", "1.40.1", false, Some("/d")));
    store.add_or_replace(record("mvr", "testnet", "1.39.3", false, Some("/e")));
    assert_eq!(store.len(), 5);
    assert_eq!(store.binaries()[4].binary_name, "mvr");
}

#[test]
fn add_or_replace_overwrites_in_place() {
    let mut store = InstalledBinaries::new();
    store.add_or_replace(record("sui", "testnet", "1.39.3", false, Some("/old")));
    store.add_or_replace(record("mvr", "standalone", "0.0.5", false, None));
    store.add_or_replace(record("sui", "testnet", "1.39.3", false, Some("/new")));
    assert_eq!(store.len(), 2);
    assert_eq!(store.binaries()[0], record("sui", "testnet", "1.39.3", false, Some("/new")));
    assert_eq!(store.binaries()[1], record("mvr", "standalone", "0.0.5", false, None));
    assert_eq!(store.find("sui", "testnet", "1.39.3", false).unwrap().path.as_deref(), Some("/new"));
}

#[test]
fn keys_stay_unique_whatever_is_recorded() {
    let mut store = InstalledBinaries::new();
    for round in 0..3 {
        for debug in [false, true] {
            for version in ["1.0.0", "1.0.1"] {
                store.add_or_replace(record("sui", "testnet", version, debug, Some(&format!("/p{round}"))));
            }
        }
    }
    assert_eq!(store.len(), 4);
    let records = store.binaries();
    for i in 0..records.len() {
        for j in 0..i {
            let same = records[i].binary_name == records[j].binary_name
                && records[i].network_release == records[j].network_release
                && records[i].version == records[j].version
                && records[i].debug == records[j].debug;
            assert!(!same);
        }
    }
    assert!(records.iter().all(|r| r.path.as_deref() == Some("/p2")));
}

#[test]
fn from_records_lets_the_later_record_win() {
    let store = InstalledBinaries::from_records(vec![
        record("sui", "testnet", "1.0.0", false, Some("/1")),
        record("mvr", "standalone", "0.0.5", false, None),
        record("sui", "testnet", "1.0.0", false, Some("/2")),
    ]);
    assert_eq!(store.len(), 2);
    assert_eq!(store.binaries()[0].path.as_deref(), Some("/2"));
}

#[test]
fn remove_by_binary_name_removes_every_record_of_the_binary() {
    let mut store = InstalledBinaries::from_records(vec![
        record("sui", "testnet", "1.0.0", false, Some("/1")),
        record("mvr", "standalone", "0.0.5", false, None),
        record("sui", "devnet", "1.0.0", true, Some("/2")),
        record("walrus", "testnet", "1.0.0", false, None),
    ]);
    let removed = store.remove_by_binary_name("sui");
    assert_eq!(removed.len(), 2);
    assert_eq!(removed[0].network_release, "testnet");
    assert_eq!(removed[1].network_release, "devnet");
    assert_eq!(store.len(), 2);
    assert_eq!(store.binaries()[0].binary_name, "mvr");
    assert_eq!(store.binaries()[1].binary_name, "walrus");
}

#[test]
fn remove_by_binary_name_of_an_unknown_binary_changes_nothing() {
    let mut store = InstalledBinaries::from_records(vec![
        record("sui", "testnet", "1.0.0", false, Some("/1")),
        record("mvr", "standalone", "0.0.5", false, None),
    ]);
    let before = installed_to_text(&store).unwrap();
    let removed = store.remove_by_binary_name("walrus");
    assert!(removed.is_empty());
    assert_eq!(installed_to_text(&store).unwrap(), before);
    let again = store.remove_by_binary_name("walrus");
    assert!(again.is_empty());
    assert_eq!(installed_to_text(&store).unwrap(), before);
}

#[test]
fn find_all_and_grouping() {
    let store = InstalledBinaries::from_records(vec![
        record("sui", "testnet", "1.0.0", false, None),
        record("mvr", "standalone", "0.0.5", false, None),
        record("sui", "devnet", "1.0.0", false, None),
        record("walrus", "testnet", "2.0.0", false, None),
    ]);
    let all = store.find_all("sui");
    assert_eq!(all.len(), 2);
    assert_eq!(all[1].network_release, "devnet");
    assert!(store.find_all("nope").is_empty());
    assert_eq!(store.networks(), vec!["testnet", "standalone", "devnet"]);
    assert_eq!(store.find_in_network("testnet").len(), 2);
    let groups = installed_binaries_grouped_by_network(&store);
    assert_eq!(groups.len(), 3);
    assert_eq!(groups[0].0, "testnet");
    assert_eq!(groups[0].1.iter().map(|b| b.binary_name.as_str()).collect::<Vec<_>>(), vec!["sui", "walrus"]);
    assert_eq!(groups[1].0, "standalone");
    assert_eq!(groups[2].1.len(), 1);
    assert!(store.grouped_by_network().iter().map(|g| g.1.len()).sum::<usize>() == store.len());
}

#[test]
fn install_binary_records_the_artifact_with_its_path() {
    let mut store = InstalledBinaries::new();
    install_binary(&mut store, "sui", "testnet", "1.39.3", false, "/data/binaries/testnet/sui-1.39.3");
    assert_eq!(
        store.binaries(),
        &vec![record("sui", "testnet", "1.39.3", false, Some("/data/binaries/testnet/sui-1.39.3"))]
    );
    install_binary(&mut store, "sui", "testnet", "1.39.3", false, "/elsewhere");
    assert_eq!(store.len(), 1);
    assert_eq!(store.binaries()[0].path.as_deref(), Some("/elsewhere"));
}

#[test]
fn defaults_get_set_remove() {
    let mut defaults = DefaultVersions::new();
    assert!(defaults.get("sui").is_none());
    defaults.set("sui", "testnet", "1.39.3", false);
    defaults.set("mvr", "standalone", "0.0.5", false);
    assert_eq!(defaults.get("sui"), Some(&default_of("testnet", "1.39.3", false)));
    defaults.set("sui", "devnet", "1.40.1", true);
    assert_eq!(defaults.len(), 2);
    assert_eq!(defaults.get("sui"), Some(&default_of("devnet", "1.40.1", true)));
    assert_eq!(defaults.all()[0].0, "sui");
    defaults.remove("nope");
    assert_eq!(defaults.len(), 2);
    defaults.remove("sui");
    assert!(defaults.get("sui").is_none());
    assert_eq!(defaults.get("mvr"), Some(&default_of("standalone", "0.0.5", false)));
    defaults.remove("sui");
    assert_eq!(defaults.len(), 1);
}

#[test]
fn update_default_versions_sets_each_binary() {
    let mut defaults = DefaultVersions::new();
    defaults.set("sui", "testnet", "1.0.0", true);
    update_default_versions(
        &mut defaults,
        &vec!["sui".to_string(), "sui-node".to_string()],
        "devnet",
        "1.2.3",
        false,
    );
    assert_eq!(defaults.get("sui"), Some(&default_of("devnet", "1.2.3", false)));
    assert_eq!(defaults.get("sui-node"), Some(&default_of("devnet", "1.2.3", false)));
    assert_eq!(defaults.len(), 2);
}

#[test]
fn installed_round_trip_through_text() {
    let store = InstalledBinaries::from_records(vec![
        record("sui", "testnet", "1.39.3", false, Some("/data/binaries/testnet/sui-1.39.3")),
        record("sui", "testnet", "1.39.3", true, None),
        record("mvr", "standalone", "v0.0.5", false, Some("C:\\bin\\\"mvr\".exe")),
        record("walrus", "main", "nightly", false, Some("/data/binaries/main/bin/walrus-nightly")),
    ]);
    let text = installed_to_text(&store).unwrap();
    let loaded = installed_from_text(&text).unwrap();
    assert_eq!(loaded.binaries(), store.binaries());
}

#[test]
fn installed_round_trip_of_the_empty_store() {
    let text = installed_to_text(&InstalledBinaries::new()).unwrap();
    assert_eq!(installed_from_text(&text).unwrap().len(), 0);
}

#[test]
fn installed_file_has_named_fields_under_binaries() {
    let store = InstalledBinaries::from_records(vec![record("sui", "testnet", "1.39.3", false, None)]);
    let text = installed_to_text(&store).unwrap();
    let value: serde_json::Value = serde_json::from_str(&text).unwrap();
    let item = &value["binaries"][0];
    assert_eq!(item["binary_name"], "sui");
    assert_eq!(item["network_release"], "testnet");
    assert_eq!(item["version"], "1.39.3");
    assert_eq!(item["debug"], false);
    assert!(item["path"].is_null());
    assert_eq!(value["binaries"].as_array().unwrap().len(), 1);
}

#[test]
fn installed_loads_from_a_bare_list_and_from_tuples() {
    let text = r#"[
        {"binary_name": "sui", "network_release": "testnet", "version": "1.0.0", "debug": true, "path": "/p"},
        {"version": "0.0.5", "debug": false, "binary_name": "mvr", "network_release": "standalone", "extra": 1},
        ["walrus", "testnet", "2.0.0", false],
        ["walrus", "devnet", "2.0.0", false, null],
        ["walrus", "mainnet", "2.0.0", true, "/w"]
    ]"#;
    let store = installed_from_text(text).unwrap();
    assert_eq!(
        store.binaries(),
        &vec![
            record("sui", "testnet", "1.0.0", true, Some("/p")),
            record("mvr", "standalone", "0.0.5", false, None),
            record("walrus", "testnet", "2.0.0", false, None),
            record("walrus", "devnet", "2.0.0", false, None),
            record("walrus", "mainnet", "2.0.0", true, Some("/w")),
        ]
    );
}

#[test]
fn installed_file_with_a_repeated_key_keeps_the_later_record() {
    let text = r#"{"binaries": [
        {"binary_name": "sui", "network_release": "testnet", "version": "1.0.0", "debug": false, "path": "/1"},
        {"binary_name": "sui", "network_release": "testnet", "version": "1.0.0", "debug": false, "path": "/2"}
    ]}"#;
    let store = installed_from_text(text).unwrap();
    assert_eq!(store.len(), 1);
    assert_eq!(store.binaries()[0].path.as_deref(), Some("/2"));
}

#[test]
fn corrupt_installed_files() {
    for text in [
        "",
        "{",
        "null",
        "3",
        "{}",
        r#"{"binaries": {}}"#,
        r#"[{"binary_name": "sui"}]"#,
        r#"[{"binary_name": "sui", "network_release": "t", "version": "1", "debug": "no"}]"#,
        r#"[{"binary_name": "sui", "network_release": "t", "version": "1", "debug": false, "path": 3}]"#,
        r#"[["sui", "testnet", "1.0.0"]]"#,
        r#"[["sui", "testnet", "1.0.0", false, null, null]]"#,
        r#"["sui"]"#,
    ] {
        assert!(matches!(installed_from_text(text), Err(StoreError::CorruptState(_))), "{text}");
    }
}

#[test]
fn defaults_round_trip_through_text() {
    let mut defaults = DefaultVersions::new();
    defaults.set("sui", "testnet", "1.39.3", false);
    defaults.set("mvr", "standalone", "v0.0.5", false);
    defaults.set("sui-debug", "main", "nightly", true);
    let text = defaults_to_text(&defaults).unwrap();
    let loaded = defaults_from_text(&text).unwrap();
    assert_eq!(loaded.len(), 3);
    for (name, entry) in defaults.all() {
        assert_eq!(loaded.get(name), Some(entry));
    }
}

#[test]
fn defaults_file_maps_each_binary_to_a_tuple() {
    let mut defaults = DefaultVersions::new();
    defaults.set("sui", "testnet", "1.39.3", false);
    let text = defaults_to_text(&defaults).unwrap();
    let value: serde_json::Value = serde_json::from_str(&text).unwrap();
    let expected: serde_json::Value = serde_json::from_str(r#"{"sui": ["testnet", "1.39.3", false]}"#).unwrap();
    assert_eq!(value, expected);
}

#[test]
fn legacy_and_modern_defaults_load_alike() {
    let legacy = r#"{"sui": ["testnet", "1.39.3", false], "mvr": ["standalone", "v0.0.5", true]}"#;
    let modern = r#"{
        "sui": {"network_release": "testnet", "version": "1.39.3", "debug": false},
        "mvr": {"debug": true, "version": "v0.0.5", "network_release": "standalone", "since": "2025"}
    }"#;
    let a = defaults_from_text(legacy).unwrap();
    let b = defaults_from_text(modern).unwrap();
    assert_eq!(a.len(), 2);
    assert_eq!(b.len(), 2);
    for (name, entry) in a.all() {
        assert_eq!(b.get(name), Some(entry));
    }
    assert_eq!(a.get("sui"), Some(&default_of("testnet", "1.39.3", false)));
    assert_eq!(a.get("mvr"), Some(&default_of("standalone", "v0.0.5", true)));
}

#[test]
fn mixed_shapes_in_one_defaults_file() {
    let text = r#"{"a": ["testnet", "1", false], "b": {"network_release": "devnet", "version": "2", "debug": true}}"#;
    let d = defaults_from_text(text).unwrap();
    assert_eq!(d.get("a"), Some(&default_of("testnet", "1", false)));
    assert_eq!(d.get("b"), Some(&default_of("devnet", "2", true)));
}

#[test]
fn corrupt_defaults_files() {
    for text in [
        "",
        "[]",
        "null",
        r#"{"sui": ["testnet", "1.39.3"]}"#,
        r#"{"sui": ["testnet", "1.39.3", "false"]}"#,
        r#"{"sui": ["testnet", 1, false]}"#,
        r#"{"sui": ["testnet", "1.39.3", false, 0]}"#,
        r#"{"sui": {"network_release": "testnet", "version": "1.39.3"}}"#,
        r#"{"sui": "testnet"}"#,
    ] {
        assert!(matches!(defaults_from_text(text), Err(StoreError::CorruptState(_))), "{text}");
    }
}

#[test]
fn load_bootstraps_a_missing_file() {
    let (store, bootstrap) = load_installed(&FileContent::Missing).unwrap();
    assert_eq!(store.len(), 0);
    let text = bootstrap.unwrap();
    assert_eq!(installed_from_text(&text).unwrap().len(), 0);

    let (defaults, bootstrap) = load_defaults(&FileContent::Missing).unwrap();
    assert_eq!(defaults.len(), 0);
    let text = bootstrap.unwrap();
    let value: serde_json::Value = serde_json::from_str(&text).unwrap();
    assert_eq!(value.as_object().unwrap().len(), 0);
}

#[test]
fn load_reports_an_unreadable_file() {
    let file = FileContent::Unreadable("permission denied".to_string());
    match load_installed(&file) {
        Err(StoreError::Io(m)) => assert_eq!(m, "permission denied"),
        _ => panic!(),
    }
    match load_defaults(&file) {
        Err(e @ StoreError::Io(_)) => assert_eq!(e.message(), "I/O error: permission denied"),
        _ => panic!(),
    }
}

#[test]
fn load_reads_a_file_and_bootstraps_nothing() {
    let file = FileContent::Text(r#"{"sui": ["testnet", "1.39.3", false]}"#.to_string());
    let (defaults, bootstrap) = load_defaults(&file).unwrap();
    assert!(bootstrap.is_none());
    assert_eq!(defaults.len(), 1);
    let file = FileContent::Text(r#"{"binaries": []}"#.to_string());
    let (store, bootstrap) = load_installed(&file).unwrap();
    assert!(bootstrap.is_none());
    assert_eq!(store.len(), 0);
}

#[test]
fn load_does_not_repair_a_corrupt_file() {
    let file = FileContent::Text("not json".to_string());
    match load_installed(&file) {
        Err(e @ StoreError::CorruptState(_)) => assert!(e.message().starts_with("Corrupt state: ")),
        _ => panic!(),
    }
    assert!(matches!(load_defaults(&file), Err(StoreError::CorruptState(_))));
}

#[test]
fn records_and_entries_as_documents() {
    let r = record("sui", "testnet", "1.0.0", true, Some("/p"));
    assert_eq!(decode_record(&encode_record(&r)), Some(r));
    let bare = record("sui", "testnet", "1.0.0", false, None);
    assert_eq!(decode_record(&encode_record(&bare)), Some(bare));
    assert_eq!(decode_record(&Json::Null), None);
    let e = default_of("testnet", "1.0.0", true);
    assert_eq!(decode_entry(&encode_entry(&e)), Some(e));
    assert_eq!(decode_entry(&Json::Bool(true)), None);
    match encode_entry(&default_of("n", "v", false)) {
        Json::Array(items) => assert_eq!(items.len(), 3),
        _ => panic!(),
    }
}

#[test]
fn stores_as_documents() {
    let store = InstalledBinaries::from_records(vec![
        record("sui", "testnet", "1.0.0", true, Some("/p")),
        record("mvr", "standalone", "0.0.5", false, None),
    ]);
    let back = decode_installed(&encode_installed(&store)).unwrap();
    assert_eq!(back.binaries(), store.binaries());
    let mut defaults = DefaultVersions::new();
    defaults.set("sui", "testnet", "1.0.0", true);
    let back = decode_defaults(&encode_defaults(&defaults)).unwrap();
    assert_eq!(back.get("sui"), defaults.get("sui"));
    assert!(matches!(decode_installed(&Json::Null), Err(StoreError::CorruptState(_))));
    assert!(matches!(decode_defaults(&Json::Array(vec![])), Err(StoreError::CorruptState(_))));
}

#[test]
fn json_parse_reads_every_kind_of_node() {
    let doc = parse(r#"{"b": [1.5, "x", null, true, -2], "a": {}}"#).unwrap();
    match doc {
        Json::Object(fields) => {
            assert_eq!(fields.len(), 2);
            assert_eq!(fields[0].0, "a");
            assert!(matches!(&fields[0].1, Json::Object(f) if f.is_empty()));
            assert_eq!(fields[1].0, "b");
            match &fields[1].1 {
                Json::Array(items) => {
                    assert!(matches!(&items[0], Json::Number(n) if n == "1.5"));
                    assert!(matches!(&items[1], Json::Text(t) if t == "x"));
                    assert!(matches!(&items[2], Json::Null));
                    assert!(matches!(&items[3], Json::Bool(true)));
                    assert!(matches!(&items[4], Json::Number(n) if n == "-2"));
                }
                _ => panic!(),
            }
        }
        _ => panic!(),
    }
}

#[test]
fn json_parse_refuses_what_is_no_document() {
    for text in ["", "{", "[1,]", "nul", "{\"a\" 1}", "1 2"] {
        let r = parse(text);
        assert!(r.is_err(), "{text}");
        assert!(!r.err().unwrap().message.is_empty());
    }
}

#[test]
fn json_render_refuses_a_number_that_is_none() {
    for bad in ["", "abc", "[1]", "\"1\"", "1 2", "NaN"] {
        let doc = Json::Array(vec![Json::Number(bad.to_string())]);
        assert!(render(&doc).is_err(), "{bad}");
        let doc = Json::Object(vec![("n".to_string(), Json::Number(bad.to_string()))]);
        assert!(render(&doc).is_err(), "{bad}");
    }
    for good in ["0", "-2", "1.5", "1e3"] {
        assert!(render(&Json::Number(good.to_string())).is_ok(), "{good}");
    }
}

#[test]
fn json_render_writes_what_parse_reads() {
    let doc = Json::Object(vec![
        ("name".to_string(), Json::Text("sui \"cli\"\n".to_string())),
        ("list".to_string(), Json::Array(vec![Json::Null, Json::Bool(false), Json::Number("42".to_string())])),
    ]);
    let text = render(&doc).unwrap();
    let value: serde_json::Value = serde_json::from_str(&text).unwrap();
    assert_eq!(value["name"], "sui \"cli\"\n");
    assert_eq!(value["list"][2], 42);
    assert!(value["list"][0].is_null());
    assert!(text.contains('\n'));
    assert_ne!(text, "name");
}
