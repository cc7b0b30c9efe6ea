//! The reconciliation engine: reading a stored configuration document,
//! merging switch and teleport-zone submissions into it, and serializing it
//! back, touching only the sections the engine models.
//!
//! Every operation takes the stored document's text and returns the new text
//! to persist; reading and writing the file itself is the caller's concern.

use vstd::prelude::*;

use crate::jsonio::{json_doc_entries, parse_doc_entries};
use crate::jsonobj::{has_key, lookup, remove_key, upsert, JsonObj};
use crate::jsontext::{obj_text, quote_spec, quoted};
use crate::model::{
    spec_switch_data, spec_switch_value_text, spec_zone_value_text, valid_submission,
    valid_zone_coords, check_submission, switch_data_of, switch_value_text, zone_value_text,
    ConfigError, NewSwitchSubmission, NewTeleportZoneSubmission, TeleportZone, TeleportZoneUpdate,
};

verus! {

/// How stored text reads as a document: a root object's entries; an empty or
/// unreadable file counts as an empty document; valid JSON with a non-object
/// root is refused (`None`).
pub open spec fn lenient_doc(t: Seq<char>) -> Option<Seq<(Seq<char>, Seq<char>)>> {
    match json_doc_entries(t) {
        Ok(es) => Some(es),
        Err(b) => if b {
            None
        } else {
            Some(Seq::empty())
        },
    }
}

/// Reads stored text as a configuration document, leniently.
pub fn parse_doc_lenient(text: &str) -> (r: Result<JsonObj, ConfigError>)
    ensures
        match r {
            Ok(doc) => doc.wf() && lenient_doc(text@) == Some(doc.view_entries()),
            Err(e) => e == ConfigError::Parse && lenient_doc(text@) is None,
        },
{
    match parse_doc_entries(text) {
        Ok(entries) => Ok(JsonObj::from_entries(entries)),
        Err(b) => {
            if b {
                Err(ConfigError::Parse)
            } else {
                Ok(JsonObj::new())
            }
        },
    }
}

/// How a named section of a document reads: its object's entries, an absent
/// section counting as empty; `Err` when the section is present but not an
/// object.
pub open spec fn section_entries(
    doc: Seq<(Seq<char>, Seq<char>)>,
    name: Seq<char>,
) -> Result<Seq<(Seq<char>, Seq<char>)>, ()> {
    match lookup(doc, name) {
        None => Ok(Seq::<(Seq<char>, Seq<char>)>::empty()),
        Some(v) => match json_doc_entries(v) {
            Ok(es) => Ok(es),
            Err(_) => Err(()),
        },
    }
}

/// Yields the named section as an object, an absent section counting as
/// empty; fails when the section is present with a different shape.
pub fn ensure_section_exists(doc: &JsonObj, name: &str) -> (r: Result<JsonObj, ConfigError>)
    ensures
        match r {
            Ok(sec) => sec.wf() && section_entries(doc.view_entries(), name@) == Ok::<_, ()>(
                sec.view_entries(),
            ),
            Err(e) => e == ConfigError::Schema && section_entries(doc.view_entries(), name@)
                is Err,
        },
{
    match doc.get(name) {
        None => Ok(JsonObj::new()),
        Some(v) => match parse_doc_entries(v.as_str()) {
            Ok(entries) => Ok(JsonObj::from_entries(entries)),
            Err(_) => Err(ConfigError::Schema),
        },
    }
}

/// The document text after replacing one section.
pub open spec fn doc_with_section(
    doc: Seq<(Seq<char>, Seq<char>)>,
    name: Seq<char>,
    sec: Seq<(Seq<char>, Seq<char>)>,
) -> Seq<char> {
    obj_text(upsert(doc, name, obj_text(sec)))
}

/// Serializes the document with section `name` set to `sec`'s text.
fn write_back(doc: &mut JsonObj, name: &str, sec: &JsonObj) -> (r: String)
    requires
        old(doc).wf(),
    ensures
        r@ == doc_with_section(old(doc).view_entries(), name@, sec.view_entries()),
{
    let sec_text = sec.to_text();
    doc.set(name, sec_text);
    doc.to_text()
}

/// What one switch submission does to the switches section: insert or
/// overwrite, by name, the derived full definition.
pub open spec fn apply_submission(
    sec: Seq<(Seq<char>, Seq<char>)>,
    s: NewSwitchSubmission,
) -> Seq<(Seq<char>, Seq<char>)> {
    upsert(sec, s.switch_name@, spec_switch_value_text(spec_switch_data(s)))
}

/// What a batch does: each submission applied in order, so the last write
/// under a name wins.
pub open spec fn apply_submissions(
    sec: Seq<(Seq<char>, Seq<char>)>,
    subs: Seq<NewSwitchSubmission>,
) -> Seq<(Seq<char>, Seq<char>)>
    decreases subs.len(),
{
    if subs.len() == 0 {
        sec
    } else {
        apply_submissions(apply_submission(sec, subs[0]), subs.skip(1))
    }
}

pub proof fn lemma_apply_submissions_push(
    sec: Seq<(Seq<char>, Seq<char>)>,
    subs: Seq<NewSwitchSubmission>,
    s: NewSwitchSubmission,
)
    ensures
        apply_submissions(sec, subs.push(s)) == apply_submission(
            apply_submissions(sec, subs),
            s,
        ),
    decreases subs.len(),
{
    if subs.len() == 0 {
        assert(subs.push(s)[0] == s);
        assert(subs.push(s).skip(1) =~= Seq::<NewSwitchSubmission>::empty());
        assert(apply_submissions(apply_submission(sec, s), Seq::<NewSwitchSubmission>::empty())
            == apply_submission(sec, s));
        assert(apply_submissions(sec, subs.push(s)) == apply_submissions(
            apply_submission(sec, s),
            subs.push(s).skip(1),
        ));
    } else {
        assert(subs.push(s)[0] == subs[0]);
        assert(subs.push(s).skip(1) =~= subs.skip(1).push(s));
        lemma_apply_submissions_push(apply_submission(sec, subs[0]), subs.skip(1), s);
        assert(apply_submissions(sec, subs.push(s)) == apply_submissions(
            apply_submission(sec, subs[0]),
            subs.skip(1).push(s),
        ));
        assert(apply_submissions(sec, subs) == apply_submissions(
            apply_submission(sec, subs[0]),
            subs.skip(1),
        ));
    }
}

/// Merges one or more switch submissions into the stored document text and
/// returns the new text to persist. Nothing outside the `switches` section is
/// touched. Fails before producing any output: `Parse` when the stored root
/// is not an object, `Schema` when `switches` is not an object, `Validation`
/// when a submission's numeric field is not a JSON number literal.
#[verifier::loop_isolation(false)]
pub fn add_new_switch(doc_text: &str, submissions: &Vec<NewSwitchSubmission>) -> (r: Result<
    String,
    ConfigError,
>)
    ensures
        match r {
            Ok(out) => {
                &&& lenient_doc(doc_text@) is Some
                &&& section_entries(lenient_doc(doc_text@)->0, "switches"@) is Ok
                &&& forall|i: int|
                    0 <= i < submissions@.len() ==> valid_submission(submissions@[i])
                &&& out@ == doc_with_section(
                    lenient_doc(doc_text@)->0,
                    "switches"@,
                    apply_submissions(
                        section_entries(lenient_doc(doc_text@)->0, "switches"@)->Ok_0,
                        submissions@,
                    ),
                )
            },
            Err(e) => match e {
                ConfigError::Parse => lenient_doc(doc_text@) is None,
                ConfigError::Schema => lenient_doc(doc_text@) is Some && section_entries(
                    lenient_doc(doc_text@)->0,
                    "switches"@,
                ) is Err,
                ConfigError::Validation => {
                    &&& lenient_doc(doc_text@) is Some
                    &&& section_entries(lenient_doc(doc_text@)->0, "switches"@) is Ok
                    &&& exists|i: int|
                        0 <= i < submissions@.len() && !valid_submission(submissions@[i])
                },
                _ => false,
            },
        },
{
    let mut doc = match parse_doc_lenient(doc_text) {
        Ok(d) => d,
        Err(e) => {
            return Err(e);
        },
    };
    let mut sec = match ensure_section_exists(&doc, "switches") {
        Ok(s) => s,
        Err(e) => {
            return Err(e);
        },
    };
    let mut i: usize = 0;
    while i < submissions.len()
        invariant
            0 <= i <= submissions@.len(),
            forall|j: int| 0 <= j < i ==> valid_submission(submissions@[j]),
        decreases submissions@.len() - i,
    {
        if !check_submission(&submissions[i]) {
            assert(exists|j: int|
                0 <= j < submissions@.len() && !valid_submission(submissions@[j])) by {
                assert(!valid_submission(submissions@[i as int]));
            }
            return Err(ConfigError::Validation);
        }
        i += 1;
    }
    let ghost sec0 = sec.view_entries();
    let mut i: usize = 0;
    while i < submissions.len()
        invariant
            0 <= i <= submissions@.len(),
            sec.wf(),
            sec.view_entries() == apply_submissions(sec0, submissions@.take(i as int)),
        decreases submissions@.len() - i,
    {
        proof {
            assert(apply_submissions(sec0, submissions@.take(0)) == sec0);
        }
        let sub = &submissions[i];
        let data = switch_data_of(sub);
        let value = switch_value_text(&data);
        sec.set(sub.switch_name.as_str(), value);
        proof {
            lemma_apply_submissions_push(sec0, submissions@.take(i as int), submissions@[i as int]);
            assert(submissions@.take(i as int).push(submissions@[i as int]) =~= submissions@.take(
                i + 1,
            ));
        }
        i += 1;
    }
    proof {
        assert(submissions@.take(i as int) =~= submissions@);
    }
    Ok(write_back(&mut doc, "switches", &sec))
}

/// Inserts or overwrites one teleport zone in the stored document text and
/// returns the new text to persist. Nothing outside the `teleportZones`
/// section is touched.
pub fn add_new_teleport_zone(doc_text: &str, submission: &NewTeleportZoneSubmission) -> (r: Result<
    String,
    ConfigError,
>)
    ensures
        match r {
            Ok(out) => {
                &&& lenient_doc(doc_text@) is Some
                &&& section_entries(lenient_doc(doc_text@)->0, "teleportZones"@) is Ok
                &&& valid_zone_coords(submission.x@, submission.y@, submission.z@)
                &&& out@ == doc_with_section(
                    lenient_doc(doc_text@)->0,
                    "teleportZones"@,
                    upsert(
                        section_entries(lenient_doc(doc_text@)->0, "teleportZones"@)->Ok_0,
                        submission.teleport_zone_name@,
                        spec_zone_value_text(submission.x@, submission.y@, submission.z@),
                    ),
                )
            },
            Err(e) => match e {
                ConfigError::Parse => lenient_doc(doc_text@) is None,
                ConfigError::Schema => lenient_doc(doc_text@) is Some && section_entries(
                    lenient_doc(doc_text@)->0,
                    "teleportZones"@,
                ) is Err,
                ConfigError::Validation => {
                    &&& lenient_doc(doc_text@) is Some
                    &&& section_entries(lenient_doc(doc_text@)->0, "teleportZones"@) is Ok
                    &&& !valid_zone_coords(submission.x@, submission.y@, submission.z@)
                },
                _ => false,
            },
        },
{
    let mut doc = match parse_doc_lenient(doc_text) {
        Ok(d) => d,
        Err(e) => {
            return Err(e);
        },
    };
    let mut sec = match ensure_section_exists(&doc, "teleportZones") {
        Ok(s) => s,
        Err(e) => {
            return Err(e);
        },
    };
    if !(crate::jsontext::is_number_str(submission.x.as_str())
        && crate::jsontext::is_number_str(submission.y.as_str())
        && crate::jsontext::is_number_str(submission.z.as_str())) {
        return Err(ConfigError::Validation);
    }
    let value = zone_value_text(
        &TeleportZone { x: submission.x.clone(), y: submission.y.clone(), z: submission.z.clone() },
    );
    sec.set(submission.teleport_zone_name.as_str(), value);
    Ok(write_back(&mut doc, "teleportZones", &sec))
}

/// Removes the named teleport zone from the stored document text and returns
/// the new text to persist; fails with `NotFound` when no zone has the name.
pub fn remove_teleport_zone(doc_text: &str, teleport_zone_key: &str) -> (r: Result<
    String,
    ConfigError,
>)
    ensures
        match r {
            Ok(out) => {
                &&& lenient_doc(doc_text@) is Some
                &&& section_entries(lenient_doc(doc_text@)->0, "teleportZones"@) is Ok
                &&& has_key(
                    section_entries(lenient_doc(doc_text@)->0, "teleportZones"@)->Ok_0,
                    teleport_zone_key@,
                )
                &&& out@ == doc_with_section(
                    lenient_doc(doc_text@)->0,
                    "teleportZones"@,
                    remove_key(
                        section_entries(lenient_doc(doc_text@)->0, "teleportZones"@)->Ok_0,
                        teleport_zone_key@,
                    ),
                )
            },
            Err(e) => match e {
                ConfigError::Parse => lenient_doc(doc_text@) is None,
                ConfigError::Schema => lenient_doc(doc_text@) is Some && section_entries(
                    lenient_doc(doc_text@)->0,
                    "teleportZones"@,
                ) is Err,
                ConfigError::NotFound => {
                    &&& lenient_doc(doc_text@) is Some
                    &&& section_entries(lenient_doc(doc_text@)->0, "teleportZones"@) is Ok
                    &&& !has_key(
                        section_entries(lenient_doc(doc_text@)->0, "teleportZones"@)->Ok_0,
                        teleport_zone_key@,
                    )
                },
                _ => false,
            },
        },
{
    let mut doc = match parse_doc_lenient(doc_text) {
        Ok(d) => d,
        Err(e) => {
            return Err(e);
        },
    };
    let mut sec = match ensure_section_exists(&doc, "teleportZones") {
        Ok(s) => s,
        Err(e) => {
            return Err(e);
        },
    };
    let found = sec.remove(teleport_zone_key);
    if !found {
        return Err(ConfigError::NotFound);
    }
    Ok(write_back(&mut doc, "teleportZones", &sec))
}

/// Overwrites the coordinates of an existing teleport zone, leaving any other
/// keys inside that zone's object untouched, and returns the new text to
/// persist. Fails with `NotFound` when no zone has the submitted name and
/// with `Schema` when the stored zone is not an object.
pub fn update_teleport_zone(doc_text: &str, update: &TeleportZoneUpdate) -> (r: Result<
    String,
    ConfigError,
>)
    ensures
        match r {
            Ok(out) => {
                &&& lenient_doc(doc_text@) is Some
                &&& section_entries(lenient_doc(doc_text@)->0, "teleportZones"@) is Ok
                &&& valid_zone_coords(update.x@, update.y@, update.z@)
                &&& {
                    let sec = section_entries(lenient_doc(doc_text@)->0, "teleportZones"@)->Ok_0;
                    &&& lookup(sec, update.name@) is Some
                    &&& json_doc_entries(lookup(sec, update.name@)->0) is Ok
                    &&& out@ == doc_with_section(
                        lenient_doc(doc_text@)->0,
                        "teleportZones"@,
                        upsert(
                            sec,
                            update.name@,
                            obj_text(
                                upsert(
                                    upsert(
                                        upsert(
                                            json_doc_entries(lookup(sec, update.name@)->0)->Ok_0,
                                            "x"@,
                                            update.x@,
                                        ),
                                        "y"@,
                                        update.y@,
                                    ),
                                    "z"@,
                                    update.z@,
                                ),
                            ),
                        ),
                    )
                }
            },
            Err(e) => match e {
                ConfigError::Parse => lenient_doc(doc_text@) is None,
                ConfigError::Schema => lenient_doc(doc_text@) is Some && (section_entries(
                    lenient_doc(doc_text@)->0,
                    "teleportZones"@,
                ) is Err || {
                    let sec = section_entries(lenient_doc(doc_text@)->0, "teleportZones"@)->Ok_0;
                    &&& section_entries(lenient_doc(doc_text@)->0, "teleportZones"@) is Ok
                    &&& valid_zone_coords(update.x@, update.y@, update.z@)
                    &&& lookup(sec, update.name@) is Some
                    &&& json_doc_entries(lookup(sec, update.name@)->0) is Err
                }),
                ConfigError::Validation => {
                    &&& lenient_doc(doc_text@) is Some
                    &&& section_entries(lenient_doc(doc_text@)->0, "teleportZones"@) is Ok
                    &&& !valid_zone_coords(update.x@, update.y@, update.z@)
                },
                ConfigError::NotFound => {
                    &&& lenient_doc(doc_text@) is Some
                    &&& section_entries(lenient_doc(doc_text@)->0, "teleportZones"@) is Ok
                    &&& valid_zone_coords(update.x@, update.y@, update.z@)
                    &&& lookup(
                        section_entries(lenient_doc(doc_text@)->0, "teleportZones"@)->Ok_0,
                        update.name@,
                    ) is None
                },
                _ => false,
            },
        },
{
    let mut doc = match parse_doc_lenient(doc_text) {
        Ok(d) => d,
        Err(e) => {
            return Err(e);
        },
    };
    let mut sec = match ensure_section_exists(&doc, "teleportZones") {
        Ok(s) => s,
        Err(e) => {
            return Err(e);
        },
    };
    if !(crate::jsontext::is_number_str(update.x.as_str()) && crate::jsontext::is_number_str(
        update.y.as_str(),
    ) && crate::jsontext::is_number_str(update.z.as_str())) {
        return Err(ConfigError::Validation);
    }
    let zone_text = match sec.get(update.name.as_str()) {
        None => {
            return Err(ConfigError::NotFound);
        },
        Some(v) => v,
    };
    let mut zone = match parse_doc_entries(zone_text.as_str()) {
        Ok(entries) => JsonObj::from_entries(entries),
        Err(_) => {
            return Err(ConfigError::Schema);
        },
    };
    zone.set("x", update.x.clone());
    zone.set("y", update.y.clone());
    zone.set("z", update.z.clone());
    let new_zone_text = zone.to_text();
    sec.set(update.name.as_str(), new_zone_text);
    Ok(write_back(&mut doc, "teleportZones", &sec))
}

/// Renames a teleport zone, writing the submitted coordinates under the new
/// name. Renaming to the zone's own name updates it in place. Fails with
/// `NotFound` when the old name is absent and with `Conflict` when the new
/// name already names a different zone; on failure nothing is written.
pub fn rename_teleport_zone(doc_text: &str, old_name: &str, update: &TeleportZoneUpdate) -> (r:
    Result<String, ConfigError>)
    ensures
        match r {
            Ok(out) => {
                &&& lenient_doc(doc_text@) is Some
                &&& section_entries(lenient_doc(doc_text@)->0, "teleportZones"@) is Ok
                &&& valid_zone_coords(update.x@, update.y@, update.z@)
                &&& {
                    let sec = section_entries(lenient_doc(doc_text@)->0, "teleportZones"@)->Ok_0;
                    let fresh = spec_zone_value_text(update.x@, update.y@, update.z@);
                    &&& has_key(sec, old_name@)
                    &&& (update.name@ == old_name@ || !has_key(sec, update.name@))
                    &&& out@ == doc_with_section(
                        lenient_doc(doc_text@)->0,
                        "teleportZones"@,
                        if update.name@ == old_name@ {
                            upsert(sec, old_name@, fresh)
                        } else {
                            upsert(remove_key(sec, old_name@), update.name@, fresh)
                        },
                    )
                }
            },
            Err(e) => match e {
                ConfigError::Parse => lenient_doc(doc_text@) is None,
                ConfigError::Schema => lenient_doc(doc_text@) is Some && section_entries(
                    lenient_doc(doc_text@)->0,
                    "teleportZones"@,
                ) is Err,
                ConfigError::Validation => {
                    &&& lenient_doc(doc_text@) is Some
                    &&& section_entries(lenient_doc(doc_text@)->0, "teleportZones"@) is Ok
                    &&& !valid_zone_coords(update.x@, update.y@, update.z@)
                },
                ConfigError::NotFound => {
                    &&& lenient_doc(doc_text@) is Some
                    &&& section_entries(lenient_doc(doc_text@)->0, "teleportZones"@) is Ok
                    &&& valid_zone_coords(update.x@, update.y@, update.z@)
                    &&& !has_key(
                        section_entries(lenient_doc(doc_text@)->0, "teleportZones"@)->Ok_0,
                        old_name@,
                    )
                },
                ConfigError::Conflict => {
                    &&& lenient_doc(doc_text@) is Some
                    &&& section_entries(lenient_doc(doc_text@)->0, "teleportZones"@) is Ok
                    &&& valid_zone_coords(update.x@, update.y@, update.z@)
                    &&& {
                        let sec = section_entries(
                            lenient_doc(doc_text@)->0,
                            "teleportZones"@,
                        )->Ok_0;
                        &&& has_key(sec, old_name@)
                        &&& update.name@ != old_name@
                        &&& has_key(sec, update.name@)
                    }
                },
                _ => false,
            },
        },
{
    let mut doc = match parse_doc_lenient(doc_text) {
        Ok(d) => d,
        Err(e) => {
            return Err(e);
        },
    };
    let mut sec = match ensure_section_exists(&doc, "teleportZones") {
        Ok(s) => s,
        Err(e) => {
            return Err(e);
        },
    };
    if !(crate::jsontext::is_number_str(update.x.as_str()) && crate::jsontext::is_number_str(
        update.y.as_str(),
    ) && crate::jsontext::is_number_str(update.z.as_str())) {
        return Err(ConfigError::Validation);
    }
    if !sec.contains_key(old_name) {
        return Err(ConfigError::NotFound);
    }
    let same_name = crate::text::str_eq(old_name, update.name.as_str());
    if !same_name && sec.contains_key(update.name.as_str()) {
        return Err(ConfigError::Conflict);
    }
    let fresh = zone_value_text(
        &TeleportZone { x: update.x.clone(), y: update.y.clone(), z: update.z.clone() },
    );
    if same_name {
        sec.set(old_name, fresh);
    } else {
        let _ = sec.remove(old_name);
        sec.set(update.name.as_str(), fresh);
    }
    Ok(write_back(&mut doc, "teleportZones", &sec))
}

/// The entries of a freshly created configuration document.
pub open spec fn spec_new_config_entries(plane_name: Seq<char>, model_path: Seq<char>) -> Seq<
    (Seq<char>, Seq<char>),
> {
    seq![
        ("planeName"@, quote_spec(plane_name)),
        ("modelPath"@, quote_spec(model_path)),
        ("switches"@, obj_text(Seq::<(Seq<char>, Seq<char>)>::empty())),
    ]
}

/// The initial document text for a newly registered plane: its name, its
/// model's path, and an empty switches section.
pub fn create_new_config_file(plane_name: &str, model_file_path: &str) -> (r: String)
    ensures
        r@ == obj_text(spec_new_config_entries(plane_name@, model_file_path@)),
{
    let mut entries: Vec<(String, String)> = Vec::new();
    entries.push((String::from_str("planeName"), quoted(plane_name)));
    entries.push((String::from_str("modelPath"), quoted(model_file_path)));
    let empty = JsonObj::new();
    entries.push((String::from_str("switches"), empty.to_text()));
    proof {
        assert(crate::jsontext::pairs_view(entries@) =~= spec_new_config_entries(
            plane_name@,
            model_file_path@,
        ));
    }
    let chars = crate::jsontext::obj_text_exec(&entries);
    crate::text::string_of(&chars)
}

/// The file name a plane's configuration is stored under.
pub fn config_file_name(plane_name: &str) -> (r: String)
    ensures
        r@ == plane_name@ + ".json"@,
{
    let mut s = String::from_str(plane_name);
    s.append(".json");
    s
}

} // verus!
