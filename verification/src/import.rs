//! Importing a model into a plane's configuration: deriving the set of
//! already-configured switches, classifying the scene, and recording the
//! non-switch node inventory in the document.
//!
//! Reading the model file and decoding its bytes are the caller's concern;
//! the engine consumes the decoded node forest.

use vstd::prelude::*;

use crate::config::{lenient_doc, parse_doc_lenient};
use crate::jsonio::{json_doc_entries, json_string_value, parse_doc_entries, parse_string_value};
use crate::jsonobj::{has_key, lookup, upsert, JsonObj};
use crate::jsontext::{obj_text, str_array_text, str_array_text_exec};
use crate::model::{ConfigError, PlaneConfigFile, SwitchItem};
use crate::scene::{
    classify_scene, items_view, spec_classified, spec_non_switch, strs_view, visit_forest,
    ClassifiedView, SceneNode,
};
use crate::text::string_of;

verus! {

/// The pretty names that already have a persisted definition: the keys of the
/// `switches` section when it is an object, and none otherwise.
pub open spec fn configured_keys(doc: Seq<(Seq<char>, Seq<char>)>) -> Seq<Seq<char>> {
    match lookup(doc, "switches"@) {
        None => Seq::<Seq<char>>::empty(),
        Some(v) => match json_doc_entries(v) {
            Ok(es) => es.map(|i: int, p: (Seq<char>, Seq<char>)| p.0),
            Err(_) => Seq::<Seq<char>>::empty(),
        },
    }
}

/// The keys of the document's `switches` section, when it is an object.
pub fn switch_keys(doc: &JsonObj) -> (r: Vec<String>)
    ensures
        strs_view(r@) == configured_keys(doc.view_entries()),
{
    match doc.get("switches") {
        None => {
            let r: Vec<String> = Vec::new();
            assert(strs_view(r@) =~= configured_keys(doc.view_entries()));
            r
        },
        Some(v) => match parse_doc_entries(v.as_str()) {
            Ok(entries) => {
                let o = JsonObj::from_entries(entries);
                let r = o.keys();
                proof {
                    assert(strs_view(r@) =~= configured_keys(doc.view_entries()));
                }
                r
            },
            Err(_) => {
                let r: Vec<String> = Vec::new();
                assert(strs_view(r@) =~= configured_keys(doc.view_entries()));
                r
            },
        },
    }
}

/// The model asset's path recorded in the document, when it is a string.
pub open spec fn spec_model_path(doc: Seq<(Seq<char>, Seq<char>)>) -> Option<Seq<char>> {
    match lookup(doc, "modelPath"@) {
        None => None,
        Some(v) => json_string_value(v),
    }
}

/// Reads the stored document and yields the model path to load. Fails with
/// `Parse` when the stored root is not an object and with `MissingField`
/// when no string `modelPath` is recorded.
pub fn import_prepare(doc_text: &str) -> (r: Result<String, ConfigError>)
    ensures
        match r {
            Ok(path) => lenient_doc(doc_text@) is Some && spec_model_path(
                lenient_doc(doc_text@)->0,
            ) == Some(path@),
            Err(e) => match e {
                ConfigError::Parse => lenient_doc(doc_text@) is None,
                ConfigError::MissingField => lenient_doc(doc_text@) is Some && spec_model_path(
                    lenient_doc(doc_text@)->0,
                ) is None,
                _ => false,
            },
        },
{
    let doc = match parse_doc_lenient(doc_text) {
        Ok(d) => d,
        Err(e) => {
            return Err(e);
        },
    };
    match doc.get("modelPath") {
        None => Err(ConfigError::MissingField),
        Some(v) => match parse_string_value(v.as_str()) {
            None => Err(ConfigError::MissingField),
            Some(path) => Ok(path),
        },
    }
}

/// Whether a non-switch inventory has been recorded for this document: the
/// explicit state the import transition establishes. A submit against a
/// document still lacking it should be preceded by an import.
pub fn inventory_recorded(doc_text: &str) -> (r: Result<bool, ConfigError>)
    ensures
        match r {
            Ok(b) => lenient_doc(doc_text@) is Some && b == has_key(
                lenient_doc(doc_text@)->0,
                "nonSwitchRawNodeNames"@,
            ),
            Err(e) => e == ConfigError::Parse && lenient_doc(doc_text@) is None,
        },
{
    let doc = match parse_doc_lenient(doc_text) {
        Ok(d) => d,
        Err(e) => {
            return Err(e);
        },
    };
    Ok(doc.contains_key("nonSwitchRawNodeNames"))
}

/// What one import does to a parsed document: the classified candidates,
/// against the already-configured keys, and the document with its non-switch
/// inventory replaced.
pub open spec fn spec_import(doc: Seq<(Seq<char>, Seq<char>)>, names: Seq<Seq<char>>) -> (
    Seq<ClassifiedView>,
    Seq<(Seq<char>, Seq<char>)>,
) {
    (
        spec_classified(names, configured_keys(doc)),
        upsert(doc, "nonSwitchRawNodeNames"@, str_array_text(spec_non_switch(names))),
    )
}

/// Imports the decoded model: classifies every named node against the stored
/// switches, records the non-switch inventory in the document, and returns
/// the candidates together with the new document text to persist.
pub fn load_plane_model_data(doc_text: &str, roots: &Vec<SceneNode>) -> (r: Result<
    (Vec<SwitchItem>, String),
    ConfigError,
>)
    ensures
        match r {
            Ok(out) => lenient_doc(doc_text@) is Some && items_view(out.0@) == spec_import(
                lenient_doc(doc_text@)->0,
                visit_forest(roots@),
            ).0 && out.1@ == obj_text(
                spec_import(lenient_doc(doc_text@)->0, visit_forest(roots@)).1,
            ),
            Err(e) => e == ConfigError::Parse && lenient_doc(doc_text@) is None,
        },
{
    let mut doc = match parse_doc_lenient(doc_text) {
        Ok(d) => d,
        Err(e) => {
            return Err(e);
        },
    };
    let configured = switch_keys(&doc);
    let (switches, non_switch) = classify_scene(roots, &configured);
    let inv_chars = str_array_text_exec(&non_switch);
    let inv = string_of(&inv_chars);
    doc.set("nonSwitchRawNodeNames", inv);
    Ok((switches, doc.to_text()))
}

/// Classifies the decoded model against the stored switches without touching
/// the document: the read-only half of an import.
pub fn parse_glb(doc_text: &str, roots: &Vec<SceneNode>) -> (r: Result<Vec<SwitchItem>, ConfigError>)
    ensures
        match r {
            Ok(out) => lenient_doc(doc_text@) is Some && items_view(out@) == spec_classified(
                visit_forest(roots@),
                configured_keys(lenient_doc(doc_text@)->0),
            ),
            Err(e) => e == ConfigError::Parse && lenient_doc(doc_text@) is None,
        },
{
    let doc = match parse_doc_lenient(doc_text) {
        Ok(d) => d,
        Err(e) => {
            return Err(e);
        },
    };
    let configured = switch_keys(&doc);
    let (switches, _) = classify_scene(roots, &configured);
    Ok(switches)
}

/// What a directory listing reports as a file's model path: the string under
/// `modelPath` when the file parses and has one, and empty otherwise.
pub open spec fn spec_listing_model_path(es: Seq<(Seq<char>, Seq<char>)>) -> Seq<char> {
    match lookup(es, "modelPath"@) {
        None => Seq::<char>::empty(),
        Some(v) => match json_string_value(v) {
            Some(s) => s,
            None => Seq::<char>::empty(),
        },
    }
}

/// One directory-listing entry: pairs the file's name with the model path its
/// content records. A file that is not valid JSON is skipped (`None`); valid
/// JSON without a string `modelPath` lists an empty path.
pub fn config_listing_entry(file_name: String, text: &str) -> (r: Option<PlaneConfigFile>)
    ensures
        match r {
            Some(p) => {
                &&& json_doc_entries(text@) is Err ==> json_doc_entries(text@)->Err_0 == true
                    && p.model_path@ == Seq::<char>::empty()
                &&& json_doc_entries(text@) is Ok ==> p.model_path@ == spec_listing_model_path(
                    json_doc_entries(text@)->Ok_0,
                )
                &&& p.file_name@ == file_name@
            },
            None => json_doc_entries(text@) == Err::<Seq<(Seq<char>, Seq<char>)>, bool>(false),
        },
{
    match parse_doc_entries(text) {
        Err(b) => {
            if b {
                Some(PlaneConfigFile { file_name, model_path: String::new() })
            } else {
                None
            }
        },
        Ok(entries) => {
            let doc = JsonObj::from_entries(entries);
            let model_path = match doc.get("modelPath") {
                None => String::new(),
                Some(v) => match parse_string_value(v.as_str()) {
                    Some(s) => s,
                    None => String::new(),
                },
            };
            Some(PlaneConfigFile { file_name, model_path })
        },
    }
}

} // verus!
