//! The typed view of a stored configuration: validates the document against
//! the persisted schema and re-serializes exactly the sections the engine
//! models (plane name, model path, teleport zones, switches), dropping
//! unrecognized top-level keys from the view — the stored file itself is
//! never touched.

use vstd::prelude::*;

use crate::config::{lenient_doc, parse_doc_lenient, section_entries, ensure_section_exists};
use crate::jsonio::{json_doc_entries, json_string_value, parse_doc_entries, parse_string_value};
use crate::jsonobj::{lookup, JsonObj};
use crate::jsontext::{
    is_number_str, is_number_text, obj_text, obj_text_exec, pairs_view, quote_spec, quoted,
};
use crate::model::{
    axis_word, bool_text, sound_word, spec_axis_word, spec_bool_text, spec_sound_word,
    spec_switch_type_word, switch_type_word, ConfigError, MovementAxis, SoundEffect, SwitchType,
};
use crate::text::string_of;

verus! {

/// The value is one of the four switch-kind string literals.
pub open spec fn is_kind_text(v: Seq<char>) -> bool {
    ||| v == quote_spec(spec_switch_type_word(SwitchType::Lever))
    ||| v == quote_spec(spec_switch_type_word(SwitchType::Button))
    ||| v == quote_spec(spec_switch_type_word(SwitchType::Dial))
    ||| v == quote_spec(spec_switch_type_word(SwitchType::Throttle))
}

/// The value is one of the three movement-axis string literals.
pub open spec fn is_axis_text(v: Seq<char>) -> bool {
    ||| v == quote_spec(spec_axis_word(MovementAxis::X))
    ||| v == quote_spec(spec_axis_word(MovementAxis::Y))
    ||| v == quote_spec(spec_axis_word(MovementAxis::Z))
}

/// The value is one of the four sound-effect string literals.
pub open spec fn is_sound_text(v: Seq<char>) -> bool {
    ||| v == quote_spec(spec_sound_word(SoundEffect::LeverSound))
    ||| v == quote_spec(spec_sound_word(SoundEffect::ButtonSound))
    ||| v == quote_spec(spec_sound_word(SoundEffect::DialSound))
    ||| v == quote_spec(spec_sound_word(SoundEffect::ThrottleSound))
}

/// The value is a JSON boolean literal.
pub open spec fn is_bool_literal(v: Seq<char>) -> bool {
    v == spec_bool_text(true) || v == spec_bool_text(false)
}

/// The object holds a JSON string under `k`.
pub open spec fn field_is_string(es: Seq<(Seq<char>, Seq<char>)>, k: Seq<char>) -> bool {
    match lookup(es, k) {
        Some(v) => json_string_value(v) is Some,
        None => false,
    }
}

/// The object holds a JSON number literal under `k`.
pub open spec fn field_is_number(es: Seq<(Seq<char>, Seq<char>)>, k: Seq<char>) -> bool {
    match lookup(es, k) {
        Some(v) => is_number_text(v),
        None => false,
    }
}

/// The value text is a full switch definition: an object carrying every
/// persisted field with the right shape.
pub open spec fn valid_switch_value(v: Seq<char>) -> bool {
    match json_doc_entries(v) {
        Err(_) => false,
        Ok(es) => {
            &&& match lookup(es, "switchType"@) {
                Some(t) => is_kind_text(t),
                None => false,
            }
            &&& field_is_string(es, "switchDescription"@)
            &&& match lookup(es, "movementAxis"@) {
                Some(t) => is_axis_text(t),
                None => false,
            }
            &&& match lookup(es, "soundEffect"@) {
                Some(t) => is_sound_text(t),
                None => false,
            }
            &&& match lookup(es, "movementMode"@) {
                Some(t) => is_bool_literal(t),
                None => false,
            }
            &&& match lookup(es, "momentarySwitch"@) {
                Some(t) => is_bool_literal(t),
                None => false,
            }
            &&& field_is_number(es, "bleedMargins"@)
            &&& field_is_number(es, "defaultPosition"@)
            &&& field_is_number(es, "upperLimit"@)
            &&& field_is_number(es, "lowerLimit"@)
            &&& field_is_string(es, "rawNodeName"@)
        },
    }
}

/// The value text is a teleport zone: an object with numeric coordinates.
pub open spec fn valid_zone_value(v: Seq<char>) -> bool {
    match json_doc_entries(v) {
        Err(_) => false,
        Ok(es) => {
            &&& field_is_number(es, "x"@)
            &&& field_is_number(es, "y"@)
            &&& field_is_number(es, "z"@)
        },
    }
}

/// The document has the shape the typed view requires: string plane name and
/// model path, and well-shaped `switches` and `teleportZones` sections.
pub open spec fn view_shape_ok(doc: Seq<(Seq<char>, Seq<char>)>) -> bool {
    &&& field_is_string(doc, "planeName"@)
    &&& field_is_string(doc, "modelPath"@)
    &&& match section_entries(doc, "switches"@) {
        Ok(es) => forall|i: int| 0 <= i < es.len() ==> valid_switch_value(#[trigger] es[i].1),
        Err(_) => false,
    }
    &&& match section_entries(doc, "teleportZones"@) {
        Ok(es) => forall|i: int| 0 <= i < es.len() ==> valid_zone_value(#[trigger] es[i].1),
        Err(_) => false,
    }
}

/// The typed view's text: the four modeled sections, in their canonical
/// order, with both sections re-serialized from their entries.
pub open spec fn view_text(doc: Seq<(Seq<char>, Seq<char>)>) -> Seq<char> {
    obj_text(
        seq![
            ("planeName"@, lookup(doc, "planeName"@)->0),
            ("modelPath"@, lookup(doc, "modelPath"@)->0),
            ("teleportZones"@, obj_text(section_entries(doc, "teleportZones"@)->Ok_0)),
            ("switches"@, obj_text(section_entries(doc, "switches"@)->Ok_0)),
        ],
    )
}

fn is_kind_str(t: &String) -> (r: bool)
    ensures
        r == is_kind_text(t@),
{
    let a = quoted(switch_type_word(SwitchType::Lever).as_str());
    let b = quoted(switch_type_word(SwitchType::Button).as_str());
    let c = quoted(switch_type_word(SwitchType::Dial).as_str());
    let d = quoted(switch_type_word(SwitchType::Throttle).as_str());
    *t == a || *t == b || *t == c || *t == d
}

fn is_axis_str(t: &String) -> (r: bool)
    ensures
        r == is_axis_text(t@),
{
    let a = quoted(axis_word(MovementAxis::X).as_str());
    let b = quoted(axis_word(MovementAxis::Y).as_str());
    let c = quoted(axis_word(MovementAxis::Z).as_str());
    *t == a || *t == b || *t == c
}

fn is_sound_str(t: &String) -> (r: bool)
    ensures
        r == is_sound_text(t@),
{
    let a = quoted(sound_word(SoundEffect::LeverSound).as_str());
    let b = quoted(sound_word(SoundEffect::ButtonSound).as_str());
    let c = quoted(sound_word(SoundEffect::DialSound).as_str());
    let d = quoted(sound_word(SoundEffect::ThrottleSound).as_str());
    *t == a || *t == b || *t == c || *t == d
}

fn is_bool_str(t: &String) -> (r: bool)
    ensures
        r == is_bool_literal(t@),
{
    let a = bool_text(true);
    let b = bool_text(false);
    *t == a || *t == b
}

fn field_string_ok(o: &JsonObj, k: &str) -> (r: bool)
    ensures
        r == field_is_string(o.view_entries(), k@),
{
    match o.get(k) {
        Some(v) => parse_string_value(v.as_str()).is_some(),
        None => false,
    }
}

fn field_number_ok(o: &JsonObj, k: &str) -> (r: bool)
    ensures
        r == field_is_number(o.view_entries(), k@),
{
    match o.get(k) {
        Some(v) => is_number_str(v.as_str()),
        None => false,
    }
}

fn check_switch_value(v: &str) -> (r: bool)
    ensures
        r == valid_switch_value(v@),
{
    match parse_doc_entries(v) {
        Err(_) => false,
        Ok(entries) => {
            let o = JsonObj::from_entries(entries);
            let kind_ok = match o.get("switchType") {
                Some(t) => is_kind_str(&t),
                None => false,
            };
            let axis_ok = match o.get("movementAxis") {
                Some(t) => is_axis_str(&t),
                None => false,
            };
            let sound_ok = match o.get("soundEffect") {
                Some(t) => is_sound_str(&t),
                None => false,
            };
            let mode_ok = match o.get("movementMode") {
                Some(t) => is_bool_str(&t),
                None => false,
            };
            let momentary_ok = match o.get("momentarySwitch") {
                Some(t) => is_bool_str(&t),
                None => false,
            };
            kind_ok && field_string_ok(&o, "switchDescription") && axis_ok && sound_ok && mode_ok
                && momentary_ok && field_number_ok(&o, "bleedMargins") && field_number_ok(
                &o,
                "defaultPosition",
            ) && field_number_ok(&o, "upperLimit") && field_number_ok(&o, "lowerLimit")
                && field_string_ok(&o, "rawNodeName")
        },
    }
}

fn check_zone_value(v: &str) -> (r: bool)
    ensures
        r == valid_zone_value(v@),
{
    match parse_doc_entries(v) {
        Err(_) => false,
        Ok(entries) => {
            let o = JsonObj::from_entries(entries);
            field_number_ok(&o, "x") && field_number_ok(&o, "y") && field_number_ok(&o, "z")
        },
    }
}

/// Checks every value of the section against the given shape.
#[verifier::loop_isolation(false)]
fn check_section_values(sec: &JsonObj, switches: bool) -> (r: bool)
    ensures
        r == (forall|i: int|
            0 <= i < sec.view_entries().len() ==> (if switches {
                valid_switch_value(#[trigger] sec.view_entries()[i].1)
            } else {
                valid_zone_value(sec.view_entries()[i].1)
            })),
{
    let mut i: usize = 0;
    while i < sec.entries.len()
        invariant
            0 <= i <= sec.entries@.len(),
            forall|j: int|
                0 <= j < i ==> (if switches {
                    valid_switch_value(#[trigger] sec.view_entries()[j].1)
                } else {
                    valid_zone_value(sec.view_entries()[j].1)
                }),
        decreases sec.entries@.len() - i,
    {
        let ok = if switches {
            check_switch_value(sec.entries[i].1.as_str())
        } else {
            check_zone_value(sec.entries[i].1.as_str())
        };
        if !ok {
            assert(sec.view_entries()[i as int].1 == sec.entries@[i as int].1@);
            return false;
        }
        i += 1;
    }
    true
}

/// The stored configuration rendered as its typed view: exactly the modeled
/// sections, re-serialized; fails with `Parse` when the root is not an object
/// and with `Schema` when a required field or section has the wrong shape.
pub fn get_current_file_contents(doc_text: &str) -> (r: Result<String, ConfigError>)
    ensures
        match r {
            Ok(out) => {
                &&& lenient_doc(doc_text@) is Some
                &&& view_shape_ok(lenient_doc(doc_text@)->0)
                &&& out@ == view_text(lenient_doc(doc_text@)->0)
            },
            Err(e) => match e {
                ConfigError::Parse => lenient_doc(doc_text@) is None,
                ConfigError::Schema => lenient_doc(doc_text@) is Some && !view_shape_ok(
                    lenient_doc(doc_text@)->0,
                ),
                _ => false,
            },
        },
{
    let doc = match parse_doc_lenient(doc_text) {
        Ok(d) => d,
        Err(e) => {
            return Err(e);
        },
    };
    let plane_raw = match doc.get("planeName") {
        Some(v) => v,
        None => {
            return Err(ConfigError::Schema);
        },
    };
    if parse_string_value(plane_raw.as_str()).is_none() {
        return Err(ConfigError::Schema);
    }
    let model_raw = match doc.get("modelPath") {
        Some(v) => v,
        None => {
            return Err(ConfigError::Schema);
        },
    };
    if parse_string_value(model_raw.as_str()).is_none() {
        return Err(ConfigError::Schema);
    }
    let ssec = match ensure_section_exists(&doc, "switches") {
        Ok(s) => s,
        Err(_) => {
            return Err(ConfigError::Schema);
        },
    };
    if !check_section_values(&ssec, true) {
        return Err(ConfigError::Schema);
    }
    let zsec = match ensure_section_exists(&doc, "teleportZones") {
        Ok(s) => s,
        Err(_) => {
            return Err(ConfigError::Schema);
        },
    };
    if !check_section_values(&zsec, false) {
        return Err(ConfigError::Schema);
    }
    let mut entries: Vec<(String, String)> = Vec::new();
    entries.push((String::from_str("planeName"), plane_raw));
    entries.push((String::from_str("modelPath"), model_raw));
    entries.push((String::from_str("teleportZones"), zsec.to_text()));
    entries.push((String::from_str("switches"), ssec.to_text()));
    proof {
        assert(pairs_view(entries@) =~= seq![
            ("planeName"@, lookup(doc.view_entries(), "planeName"@)->0),
            ("modelPath"@, lookup(doc.view_entries(), "modelPath"@)->0),
            (
                "teleportZones"@,
                obj_text(section_entries(doc.view_entries(), "teleportZones"@)->Ok_0),
            ),
            ("switches"@, obj_text(section_entries(doc.view_entries(), "switches"@)->Ok_0)),
        ]);
    }
    let chars = obj_text_exec(&entries);
    Ok(string_of(&chars))
}

} // verus!
