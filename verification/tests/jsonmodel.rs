//! The JSON layer: quoting, the number grammar, document round trips, the
//! directory listing, and the typed view.

use cockpit_config::config::parse_doc_lenient;
use cockpit_config::import::config_listing_entry;
use cockpit_config::jsonobj::JsonObj;
use cockpit_config::jsontext::{is_number_str, quoted};
use cockpit_config::model::ConfigError;
use cockpit_config::view::get_current_file_contents;

#[test]
fn quoting_round_trips_through_a_real_json_parser() {
    let cases = [
        "plain",
        "",
        "with \"quotes\" and \\backslashes\\",
        "tab\there\nnewline\rreturn",
        "control\u{1}\u{1f}chars",
        "unicode: caf\u{e9} \u{1f600}",
    ];
    for c in cases {
        let lit = quoted(c);
        let back: String = serde_json::from_str(&lit).unwrap();
        assert_eq!(back, c);
    }
}

#[test]
fn number_grammar_accepts_json_numbers_and_nothing_else() {
    for good in ["0", "-0", "7", "-12", "3.25", "-0.5", "1e3", "2E-7", "6.02e+23"] {
        assert!(is_number_str(good), "rejected {}", good);
        // Each accepted literal really parses as a JSON number.
        let v: serde_json::Value = serde_json::from_str(good).unwrap();
        assert!(v.is_number());
    }
    for bad in ["", "-", "01", "1.", ".5", "1e", "1e+", "abc", "0x1", "+1", "1 ", "NaN"] {
        assert!(!is_number_str(bad), "accepted {}", bad);
    }
}

#[test]
fn document_round_trip_preserves_every_top_level_value() {
    let stored = r#"{"b":[1,2,{"c":true}],"a":"x","notes":null,"n":1.5}"#;
    let doc = parse_doc_lenient(stored).unwrap();
    let out = doc.to_text();
    let v1: serde_json::Value = serde_json::from_str(stored).unwrap();
    let v2: serde_json::Value = serde_json::from_str(&out).unwrap();
    assert_eq!(v1, v2);
}

#[test]
fn object_operations_insert_overwrite_and_remove() {
    let mut o = JsonObj::new();
    assert!(!o.contains_key("k"));
    o.set("k", "1".to_string());
    o.set("m", "2".to_string());
    assert_eq!(o.get("k").unwrap(), "1");
    o.set("k", "3".to_string());
    assert_eq!(o.get("k").unwrap(), "3");
    assert_eq!(o.keys(), vec!["k", "m"]);
    assert!(o.remove("k"));
    assert!(!o.remove("k"));
    assert_eq!(o.to_text(), "{\"m\":2}");
}

#[test]
fn listing_skips_unreadable_files_and_defaults_the_path() {
    // Not valid JSON: the file is skipped.
    assert!(config_listing_entry("a.json".to_string(), "oops").is_none());
    // Valid JSON without a string modelPath: listed with an empty path.
    let p = config_listing_entry("b.json".to_string(), "{}").unwrap();
    assert_eq!(p.file_name, "b.json");
    assert_eq!(p.model_path, "");
    let p = config_listing_entry("c.json".to_string(), "[1,2]").unwrap();
    assert_eq!(p.model_path, "");
    // The recorded path is read out.
    let p = config_listing_entry(
        "d.json".to_string(),
        r#"{"modelPath":"/m.glb","planeName":"d"}"#,
    )
    .unwrap();
    assert_eq!(p.model_path, "/m.glb");
}

#[test]
fn typed_view_reserializes_the_modeled_sections_only() {
    let stored = r#"{
        "planeName": "b-52",
        "modelPath": "/home/models/b52.glb",
        "notes": "hello",
        "teleportZones": {"Door": {"x": 1.5, "y": 0, "z": -2}},
        "switches": {"Lever1": {
            "switchType": "lever", "switchDescription": "Air Pressure",
            "movementAxis": "Y", "soundEffect": "leverSound",
            "movementMode": true, "momentarySwitch": false,
            "bleedMargins": 0.3, "defaultPosition": 0.0,
            "upperLimit": 90.0, "lowerLimit": 0.0,
            "rawNodeName": "Lever1-Lever"
        }}
    }"#;
    let out = get_current_file_contents(stored).unwrap();
    let v: serde_json::Value = serde_json::from_str(&out).unwrap();
    // The view holds exactly the modeled sections; the unknown key is not
    // part of the view (the stored file itself is untouched).
    assert!(v.get("notes").is_none());
    assert_eq!(v["planeName"].as_str().unwrap(), "b-52");
    assert_eq!(v["modelPath"].as_str().unwrap(), "/home/models/b52.glb");
    assert_eq!(v["teleportZones"]["Door"]["x"].as_f64().unwrap(), 1.5);
    assert_eq!(
        v["switches"]["Lever1"]["soundEffect"].as_str().unwrap(),
        "leverSound"
    );
}

#[test]
fn typed_view_accepts_a_fresh_config_without_zones() {
    let stored = r#"{"planeName":"p","modelPath":"/m.glb","switches":{}}"#;
    let out = get_current_file_contents(stored).unwrap();
    let v: serde_json::Value = serde_json::from_str(&out).unwrap();
    assert!(v["teleportZones"].as_object().unwrap().is_empty());
}

#[test]
fn typed_view_rejects_wrong_shapes() {
    // No plane name.
    assert_eq!(
        get_current_file_contents(r#"{"modelPath":"/m"}"#),
        Err(ConfigError::Schema)
    );
    // A switch with a malformed limit.
    let stored = r#"{"planeName":"p","modelPath":"/m","switches":{"L":{
        "switchType": "lever", "switchDescription": "d",
        "movementAxis": "Y", "soundEffect": "leverSound",
        "movementMode": true, "momentarySwitch": false,
        "bleedMargins": 0.3, "defaultPosition": 0.0,
        "upperLimit": "high", "lowerLimit": 0.0,
        "rawNodeName": "L-Lever"
    }}}"#;
    assert_eq!(get_current_file_contents(stored), Err(ConfigError::Schema));
    // An unknown switch kind.
    let stored2 = stored.replace("\"lever\"", "\"crank\"").replace("\"high\"", "1.0");
    assert_eq!(get_current_file_contents(&stored2), Err(ConfigError::Schema));
    // A non-object root.
    assert_eq!(get_current_file_contents("[]"), Err(ConfigError::Parse));
}
