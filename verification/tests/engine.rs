//! The reconciliation engine: submissions, zone operations, merging, and the
//! end-to-end import flow, checked through real JSON round trips.

use cockpit_config::config::{
    add_new_switch, add_new_teleport_zone, config_file_name, create_new_config_file,
    remove_teleport_zone, rename_teleport_zone, update_teleport_zone,
};
use cockpit_config::import::{import_prepare, inventory_recorded, load_plane_model_data};
use cockpit_config::model::{
    AppData, ConfigError, MovementAxis, NewSwitchSubmission, NewTeleportZoneSubmission,
    SwitchType, TeleportZoneUpdate,
};
use cockpit_config::scene::SceneNode;

fn node(name: &str) -> SceneNode {
    SceneNode {
        name: Some(name.to_string()),
        children: vec![],
    }
}

fn submission(name: &str, upper: &str) -> NewSwitchSubmission {
    NewSwitchSubmission {
        switch_type: SwitchType::Lever,
        switch_name: name.to_string(),
        switch_description: "a lever".to_string(),
        movement_axis: MovementAxis::Y,
        movement_mode: true,
        momentary_switch: false,
        bleed_margins: "0.3".to_string(),
        default_position: "0.0".to_string(),
        upper_limit: upper.to_string(),
        lower_limit: "0.0".to_string(),
        raw_node_name: format!("{}-Lever", name),
    }
}

fn zone_submission(name: &str, x: &str, y: &str, z: &str) -> NewTeleportZoneSubmission {
    NewTeleportZoneSubmission {
        teleport_zone_name: name.to_string(),
        x: x.to_string(),
        y: y.to_string(),
        z: z.to_string(),
    }
}

fn zone_update(name: &str, x: &str, y: &str, z: &str) -> TeleportZoneUpdate {
    TeleportZoneUpdate {
        name: name.to_string(),
        x: x.to_string(),
        y: y.to_string(),
        z: z.to_string(),
    }
}

fn parsed(text: &str) -> serde_json::Value {
    serde_json::from_str(text).unwrap()
}

#[test]
fn create_config_writes_name_path_and_empty_switches() {
    let text = create_new_config_file("plane1", "/m.glb");
    let v = parsed(&text);
    assert_eq!(v["planeName"].as_str().unwrap(), "plane1");
    assert_eq!(v["modelPath"].as_str().unwrap(), "/m.glb");
    assert!(v["switches"].as_object().unwrap().is_empty());
}

#[test]
fn config_file_name_appends_json_extension() {
    assert_eq!(config_file_name("b-52"), "b-52.json");
}

#[test]
fn switch_submission_persists_every_field() {
    let text = create_new_config_file("p", "/m.glb");
    let out = add_new_switch(&text, &vec![submission("Lever1", "90.0")]).unwrap();
    let v = parsed(&out);
    let s = &v["switches"]["Lever1"];
    assert_eq!(s["switchType"].as_str().unwrap(), "lever");
    assert_eq!(s["switchDescription"].as_str().unwrap(), "a lever");
    assert_eq!(s["movementAxis"].as_str().unwrap(), "Y");
    assert_eq!(s["soundEffect"].as_str().unwrap(), "leverSound");
    assert_eq!(s["movementMode"].as_bool().unwrap(), true);
    assert_eq!(s["momentarySwitch"].as_bool().unwrap(), false);
    assert_eq!(s["bleedMargins"].as_f64().unwrap(), 0.3);
    assert_eq!(s["defaultPosition"].as_f64().unwrap(), 0.0);
    assert_eq!(s["upperLimit"].as_f64().unwrap(), 90.0);
    assert_eq!(s["lowerLimit"].as_f64().unwrap(), 0.0);
    assert_eq!(s["rawNodeName"].as_str().unwrap(), "Lever1-Lever");
}

#[test]
fn switch_overwrite_keeps_one_entry_with_second_value() {
    let text = create_new_config_file("p", "/m.glb");
    let once = add_new_switch(&text, &vec![submission("Lever1", "90.0")]).unwrap();
    let twice = add_new_switch(&once, &vec![submission("Lever1", "45.5")]).unwrap();
    let v = parsed(&twice);
    let switches = v["switches"].as_object().unwrap();
    assert_eq!(switches.len(), 1);
    assert_eq!(switches["Lever1"]["upperLimit"].as_f64().unwrap(), 45.5);
}

#[test]
fn batched_submissions_last_write_wins_within_one_batch() {
    let text = create_new_config_file("p", "/m.glb");
    let out = add_new_switch(
        &text,
        &vec![submission("Lever1", "1.0"), submission("Lever1", "2.0")],
    )
    .unwrap();
    let v = parsed(&out);
    let switches = v["switches"].as_object().unwrap();
    assert_eq!(switches.len(), 1);
    assert_eq!(switches["Lever1"]["upperLimit"].as_f64().unwrap(), 2.0);
}

#[test]
fn merge_preserves_unknown_keys_across_operations() {
    let stored = r#"{"planeName":"p","modelPath":"/m.glb","notes":"hello","switches":{}}"#;
    let after_switch = add_new_switch(stored, &vec![submission("L", "1.0")]).unwrap();
    assert_eq!(parsed(&after_switch)["notes"].as_str().unwrap(), "hello");
    let after_zone = add_new_teleport_zone(&after_switch, &zone_submission("A", "1", "2", "3")).unwrap();
    assert_eq!(parsed(&after_zone)["notes"].as_str().unwrap(), "hello");
    let after_rename =
        rename_teleport_zone(&after_zone, "A", &zone_update("B", "1", "2", "3")).unwrap();
    assert_eq!(parsed(&after_rename)["notes"].as_str().unwrap(), "hello");
    let after_remove = remove_teleport_zone(&after_rename, "B").unwrap();
    let v = parsed(&after_remove);
    assert_eq!(v["notes"].as_str().unwrap(), "hello");
    // The switch survived the zone operations too.
    assert_eq!(v["switches"]["L"]["upperLimit"].as_f64().unwrap(), 1.0);
}

#[test]
fn submission_with_bad_number_is_rejected_before_writing() {
    let text = create_new_config_file("p", "/m.glb");
    let mut bad = submission("L", "90.0");
    bad.bleed_margins = "abc".to_string();
    assert_eq!(
        add_new_switch(&text, &vec![bad]),
        Err(ConfigError::Validation)
    );
}

#[test]
fn submit_against_non_object_root_is_a_parse_error() {
    assert_eq!(
        add_new_switch("[1,2]", &vec![submission("L", "1.0")]),
        Err(ConfigError::Parse)
    );
}

#[test]
fn submit_against_malformed_switches_section_is_a_schema_error() {
    let stored = r#"{"switches":5}"#;
    assert_eq!(
        add_new_switch(stored, &vec![submission("L", "1.0")]),
        Err(ConfigError::Schema)
    );
}

#[test]
fn unreadable_file_counts_as_an_empty_document() {
    let out = add_new_switch("", &vec![submission("L", "1.0")]).unwrap();
    let v = parsed(&out);
    assert!(v["switches"]["L"].is_object());
}

#[test]
fn zone_upsert_creates_then_overwrites() {
    let text = create_new_config_file("p", "/m.glb");
    let one = add_new_teleport_zone(&text, &zone_submission("A", "1.5", "2.5", "3.5")).unwrap();
    let v = parsed(&one);
    assert_eq!(v["teleportZones"]["A"]["x"].as_f64().unwrap(), 1.5);
    let two = add_new_teleport_zone(&one, &zone_submission("A", "9", "9", "9")).unwrap();
    let v2 = parsed(&two);
    assert_eq!(v2["teleportZones"].as_object().unwrap().len(), 1);
    assert_eq!(v2["teleportZones"]["A"]["x"].as_f64().unwrap(), 9.0);
}

#[test]
fn zone_update_keeps_extra_keys_inside_the_zone() {
    let stored = r#"{"teleportZones":{"A":{"x":1,"y":2,"z":3,"label":"door"}}}"#;
    let out = update_teleport_zone(stored, &zone_update("A", "7", "8", "9")).unwrap();
    let v = parsed(&out);
    assert_eq!(v["teleportZones"]["A"]["x"].as_f64().unwrap(), 7.0);
    assert_eq!(v["teleportZones"]["A"]["label"].as_str().unwrap(), "door");
}

#[test]
fn zone_update_of_absent_zone_is_not_found() {
    let stored = r#"{"teleportZones":{}}"#;
    assert_eq!(
        update_teleport_zone(stored, &zone_update("A", "1", "2", "3")),
        Err(ConfigError::NotFound)
    );
}

#[test]
fn zone_remove_of_absent_zone_is_not_found() {
    let stored = r#"{"teleportZones":{"A":{"x":1,"y":2,"z":3}}}"#;
    assert_eq!(
        remove_teleport_zone(stored, "B"),
        Err(ConfigError::NotFound)
    );
    let out = remove_teleport_zone(stored, "A").unwrap();
    assert!(parsed(&out)["teleportZones"]
        .as_object()
        .unwrap()
        .is_empty());
}

#[test]
fn zone_rename_conflict_fails_and_changes_nothing() {
    let stored = r#"{"teleportZones":{"A":{"x":1,"y":1,"z":1},"B":{"x":2,"y":2,"z":2}}}"#;
    assert_eq!(
        rename_teleport_zone(stored, "A", &zone_update("B", "9", "9", "9")),
        Err(ConfigError::Conflict)
    );
    // The engine returned no new text, so both zones stand unchanged.
    let v = parsed(stored);
    assert_eq!(v["teleportZones"]["A"]["x"].as_f64().unwrap(), 1.0);
    assert_eq!(v["teleportZones"]["B"]["x"].as_f64().unwrap(), 2.0);
}

#[test]
fn zone_rename_to_same_name_updates_coordinates_in_place() {
    let stored = r#"{"teleportZones":{"A":{"x":1,"y":1,"z":1}}}"#;
    let out = rename_teleport_zone(stored, "A", &zone_update("A", "4", "5", "6")).unwrap();
    let v = parsed(&out);
    let zones = v["teleportZones"].as_object().unwrap();
    assert_eq!(zones.len(), 1);
    assert_eq!(zones["A"]["x"].as_f64().unwrap(), 4.0);
    assert_eq!(zones["A"]["y"].as_f64().unwrap(), 5.0);
    assert_eq!(zones["A"]["z"].as_f64().unwrap(), 6.0);
}

#[test]
fn zone_rename_moves_the_entry_to_the_new_name() {
    let stored = r#"{"teleportZones":{"A":{"x":1,"y":1,"z":1}}}"#;
    let out = rename_teleport_zone(stored, "A", &zone_update("B", "4", "5", "6")).unwrap();
    let v = parsed(&out);
    let zones = v["teleportZones"].as_object().unwrap();
    assert_eq!(zones.len(), 1);
    assert!(zones.get("A").is_none());
    assert_eq!(zones["B"]["x"].as_f64().unwrap(), 4.0);
}

#[test]
fn zone_rename_of_absent_zone_is_not_found() {
    let stored = r#"{"teleportZones":{}}"#;
    assert_eq!(
        rename_teleport_zone(stored, "A", &zone_update("B", "1", "2", "3")),
        Err(ConfigError::NotFound)
    );
}

#[test]
fn import_prepare_reads_the_model_path() {
    let text = create_new_config_file("p", "/m.glb");
    assert_eq!(import_prepare(&text).unwrap(), "/m.glb");
}

#[test]
fn import_prepare_without_model_path_is_missing_field() {
    assert_eq!(import_prepare("{}"), Err(ConfigError::MissingField));
    // A non-string modelPath is missing too.
    assert_eq!(
        import_prepare(r#"{"modelPath":5}"#),
        Err(ConfigError::MissingField)
    );
}

#[test]
fn import_records_inventory_and_classifies_against_stored_switches() {
    let text = create_new_config_file("p", "/m.glb");
    let forest = vec![node("Cockpit"), node("Lever1-Lever"), node("Dial1-Dial-Collider")];
    assert_eq!(inventory_recorded(&text).unwrap(), false);
    let (switches, new_text) = load_plane_model_data(&text, &forest).unwrap();
    assert_eq!(switches.len(), 2);
    assert_eq!(switches[0].pretty_name, "Lever1");
    assert_eq!(switches[0].switch_type, "lever");
    assert!(!switches[0].is_configured);
    assert_eq!(switches[1].pretty_name, "Dial1");
    assert_eq!(switches[1].switch_type, "dial");
    assert!(!switches[1].is_configured);
    let v = parsed(&new_text);
    let inv: Vec<&str> = v["nonSwitchRawNodeNames"]
        .as_array()
        .unwrap()
        .iter()
        .map(|x| x.as_str().unwrap())
        .collect();
    assert_eq!(inv, vec!["Cockpit"]);
    assert_eq!(inventory_recorded(&new_text).unwrap(), true);
}

#[test]
fn reimport_of_unmodified_model_is_idempotent() {
    let text = create_new_config_file("p", "/m.glb");
    let forest = vec![node("Cockpit"), node("Lever1-Lever")];
    let (c1, d1) = load_plane_model_data(&text, &forest).unwrap();
    let (c2, d2) = load_plane_model_data(&d1, &forest).unwrap();
    // The same inventory is recorded both times, and the documents agree.
    let v1 = parsed(&d1);
    let v2 = parsed(&d2);
    assert_eq!(v1["nonSwitchRawNodeNames"], v2["nonSwitchRawNodeNames"]);
    assert_eq!(v1, v2);
    assert_eq!(c1.len(), c2.len());
    for (a, b) in c1.iter().zip(c2.iter()) {
        assert_eq!(a.pretty_name, b.pretty_name);
        assert_eq!(a.switch_type, b.switch_type);
        assert_eq!(a.is_configured, b.is_configured);
        assert_eq!(a.mesh_name, b.mesh_name);
    }
}

#[test]
fn end_to_end_create_import_submit_reload() {
    // Create the config for plane1.
    let created = create_new_config_file("plane1", "/m.glb");
    assert_eq!(import_prepare(&created).unwrap(), "/m.glb");
    // Import a model with one lever, one dial and one plain node.
    let forest = vec![node("Cockpit"), node("Lever1-Lever"), node("Dial1-Dial-Collider")];
    let (switches, stored) = load_plane_model_data(&created, &forest).unwrap();
    assert_eq!(switches.len(), 2);
    assert_eq!(
        (switches[0].pretty_name.as_str(), switches[0].switch_type.as_str(), switches[0].is_configured),
        ("Lever1", "lever", false)
    );
    assert_eq!(
        (switches[1].pretty_name.as_str(), switches[1].switch_type.as_str(), switches[1].is_configured),
        ("Dial1", "dial", false)
    );
    // Submit the lever, then reload: its sound effect was derived.
    let stored = add_new_switch(&stored, &vec![submission("Lever1", "90.0")]).unwrap();
    let v = parsed(&stored);
    assert_eq!(
        v["switches"]["Lever1"]["soundEffect"].as_str().unwrap(),
        "leverSound"
    );
    // A second import now reports the lever as configured.
    let (again, _) = load_plane_model_data(&stored, &forest).unwrap();
    assert!(again[0].is_configured);
    assert!(!again[1].is_configured);
}

#[test]
fn session_selection_is_explicit_state() {
    let mut session = AppData::new();
    assert!(session.get_current_file_name().is_none());
    session.set_current_json_file("plane1.json".to_string());
    assert_eq!(session.get_current_json_file(), "plane1.json");
    assert_eq!(session.get_current_file_name().unwrap(), "plane1.json");
}

#[test]
fn parse_glb_classifies_without_recording_inventory() {
    let text = create_new_config_file("p", "/m.glb");
    let forest = vec![node("Cockpit"), node("Lever1-Lever")];
    let switches = cockpit_config::import::parse_glb(&text, &forest).unwrap();
    assert_eq!(switches.len(), 1);
    assert_eq!(switches[0].pretty_name, "Lever1");
    // Nothing was persisted: the stored text still lacks an inventory.
    assert_eq!(inventory_recorded(&text).unwrap(), false);
}
