//! Tag matching and scene traversal.

use cockpit_config::model::{sound_effect_for, SoundEffect, SwitchType};
use cockpit_config::scene::{classify_scene, collect_forest_names, SceneNode};
use cockpit_config::tags::classify;

fn node(name: &str, children: Vec<SceneNode>) -> SceneNode {
    SceneNode { name: Some(name.to_string()), children }
}

fn unnamed(children: Vec<SceneNode>) -> SceneNode {
    SceneNode { name: None, children }
}

#[test]
fn tag_priority_lever_wins_over_later_tags() {
    // First-match-wins by list order: the name holds only `-Lever`, and the
    // derived pretty name strips both the tag and the collider suffix.
    let r = classify("Throttle1-Lever-Collider").unwrap();
    assert_eq!(r.0, "lever");
    assert_eq!(r.1, "Throttle1");
}

#[test]
fn tag_order_dial_before_button_before_lever() {
    // A name holding two tags classifies by the earlier tag in the list,
    // not by position in the name.
    let r = classify("A-Lever-Dial").unwrap();
    assert_eq!(r.0, "dial");
    // Only the matched tag is removed; the other tag text stays.
    assert_eq!(r.1, "A-Lever");
}

#[test]
fn tag_match_is_case_insensitive() {
    let r = classify("cockpit-LEVER-collider").unwrap();
    assert_eq!(r.0, "lever");
    // `-Collider` removal is exact-case: the lower-case suffix stays.
    assert_eq!(r.1, "cockpit-collider");
}

#[test]
fn tag_substring_matches_inside_longer_word() {
    // The heuristic is substring matching, not whole-word matching.
    let r = classify("Main-Buttons").unwrap();
    assert_eq!(r.0, "button");
    assert_eq!(r.1, "Mains");
}

#[test]
fn tag_removes_every_occurrence_and_trims() {
    let r = classify(" Panel-Lever-Lever ").unwrap();
    assert_eq!(r.0, "lever");
    assert_eq!(r.1, "Panel");
}

#[test]
fn no_tag_means_no_switch() {
    assert!(classify("Cockpit").is_none());
    assert!(classify("").is_none());
}

#[test]
fn traversal_is_depth_first_parent_before_child() {
    let forest = vec![
        node(
            "A",
            vec![node("B", vec![node("C", vec![])]), node("D", vec![])],
        ),
        node("E", vec![]),
    ];
    let names = collect_forest_names(&forest);
    assert_eq!(names, vec!["A", "B", "C", "D", "E"]);
}

#[test]
fn traversal_skips_unnamed_nodes_but_visits_their_children() {
    let forest = vec![unnamed(vec![node("X-Lever", vec![]), node("Y", vec![])])];
    let names = collect_forest_names(&forest);
    assert_eq!(names, vec!["X-Lever", "Y"]);
    let (switches, non_switch) = classify_scene(&forest, &Vec::new());
    assert_eq!(switches.len(), 1);
    assert_eq!(switches[0].pretty_name, "X");
    assert_eq!(non_switch, vec!["Y"]);
}

#[test]
fn classification_flags_already_configured_pretty_names() {
    let forest = vec![node("Lever1-Lever", vec![]), node("Lever2-Lever", vec![])];
    let configured = vec!["Lever1".to_string()];
    let (switches, non_switch) = classify_scene(&forest, &configured);
    assert_eq!(switches.len(), 2);
    assert!(switches[0].is_configured);
    assert!(!switches[1].is_configured);
    assert!(non_switch.is_empty());
    assert_eq!(switches[0].mesh_name, "Lever1-Lever");
    assert_eq!(switches[0].raw_node_name, "Lever1-Lever");
}

#[test]
fn non_switch_inventory_keeps_duplicates_in_order() {
    let forest = vec![
        node("Cockpit", vec![node("Frame", vec![])]),
        node("Cockpit", vec![]),
    ];
    let (switches, non_switch) = classify_scene(&forest, &Vec::new());
    assert!(switches.is_empty());
    assert_eq!(non_switch, vec!["Cockpit", "Frame", "Cockpit"]);
}

#[test]
fn sound_effect_mapping_is_total() {
    assert_eq!(
        sound_effect_for(SwitchType::Lever),
        SoundEffect::LeverSound
    );
    assert_eq!(
        sound_effect_for(SwitchType::Button),
        SoundEffect::ButtonSound
    );
    assert_eq!(sound_effect_for(SwitchType::Dial), SoundEffect::DialSound);
    assert_eq!(
        sound_effect_for(SwitchType::Throttle),
        SoundEffect::ThrottleSound
    );
}
