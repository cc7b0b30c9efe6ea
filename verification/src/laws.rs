//! The engine's cross-operation guarantees, each proved once and for all:
//! re-importing an unmodified model changes nothing, merging touches only the
//! section it owns, and a repeated switch submission overwrites rather than
//! duplicates.

use vstd::prelude::*;

use crate::config::{apply_submission, apply_submissions};
use crate::import::{configured_keys, spec_import};
use crate::jsonobj::{
    lemma_upsert_lookup, lemma_upsert_override, lemma_upsert_unique, lookup, unique_keys, upsert,
};
use crate::jsontext::{obj_text, str_array_text};
use crate::model::{spec_switch_data, spec_switch_value_text, NewSwitchSubmission};
use crate::scene::spec_non_switch;
use crate::tags::{classify_name, first_tag_from, spec_kind_of, spec_pretty_of, spec_tags};
use crate::text::contains_pat;

verus! {

/// Tag priority is first-match-wins by vocabulary order: when a tag occurs in
/// the name and no earlier tag does, that tag alone decides the switch kind
/// and the pretty name.
pub proof fn lemma_tag_priority(name: Seq<char>, t: int)
    requires
        0 <= t < spec_tags().len(),
        contains_pat(name, spec_tags()[t], true),
        forall|u: int| 0 <= u < t ==> !contains_pat(name, spec_tags()[u], true),
    ensures
        classify_name(name) == Some(
            (spec_kind_of(spec_tags()[t]), spec_pretty_of(name, spec_tags()[t])),
        ),
{
    lemma_first_tag_from(name, 0, t);
}

proof fn lemma_first_tag_from(name: Seq<char>, u: int, t: int)
    requires
        0 <= u <= t < spec_tags().len(),
        contains_pat(name, spec_tags()[t], true),
        forall|w: int| u <= w < t ==> !contains_pat(name, spec_tags()[w], true),
    ensures
        first_tag_from(name, u) == Some(t),
    decreases t - u,
{
    if u < t {
        lemma_first_tag_from(name, u + 1, t);
    }
}

/// Importing the same unmodified model twice yields the same classified
/// candidates and the same document both times: recording the non-switch
/// inventory never disturbs the stored switches the classification reads.
pub proof fn lemma_reimport_idempotent(doc: Seq<(Seq<char>, Seq<char>)>, names: Seq<Seq<char>>)
    ensures
        spec_import(spec_import(doc, names).1, names) == spec_import(doc, names),
{
    let k = "nonSwitchRawNodeNames"@;
    let v = str_array_text(spec_non_switch(names));
    let d1 = upsert(doc, k, v);
    reveal_strlit("nonSwitchRawNodeNames");
    reveal_strlit("switches");
    assert(k.len() == 21);
    assert("switches"@.len() == 8);
    assert("switches"@ != k);
    lemma_upsert_lookup(doc, k, v, "switches"@);
    assert(lookup(d1, "switches"@) == lookup(doc, "switches"@));
    assert(configured_keys(d1) == configured_keys(doc));
    lemma_upsert_override(doc, k, v, v);
    assert(upsert(d1, k, v) == d1);
}

/// A merge preserves unknown keys: every mutating operation replaces exactly
/// one top-level section (its output is the document with that section
/// upserted), and an upsert leaves every other key's value unchanged.
pub proof fn lemma_merge_preserves_unknown_keys(
    doc: Seq<(Seq<char>, Seq<char>)>,
    name: Seq<char>,
    sec: Seq<(Seq<char>, Seq<char>)>,
    k: Seq<char>,
)
    requires
        k != name,
    ensures
        lookup(upsert(doc, name, obj_text(sec)), k) == lookup(doc, k),
{
    lemma_upsert_lookup(doc, name, obj_text(sec), k);
}

/// Submitting a switch twice under one name leaves one entry under that name,
/// holding exactly the second submission's derived definition, and keeps the
/// section's keys distinct.
pub proof fn lemma_switch_overwrite(
    sec: Seq<(Seq<char>, Seq<char>)>,
    s1: NewSwitchSubmission,
    s2: NewSwitchSubmission,
)
    requires
        unique_keys(sec),
        s1.switch_name@ == s2.switch_name@,
    ensures
        lookup(apply_submissions(sec, seq![s1, s2]), s1.switch_name@) == Some(
            spec_switch_value_text(spec_switch_data(s2)),
        ),
        unique_keys(apply_submissions(sec, seq![s1, s2])),
{
    let k = s1.switch_name@;
    let v1 = spec_switch_value_text(spec_switch_data(s1));
    let v2 = spec_switch_value_text(spec_switch_data(s2));
    let ss = seq![s1, s2];
    assert(ss[0] == s1);
    assert(ss.skip(1) =~= seq![s2]);
    assert(seq![s2][0] == s2);
    assert(seq![s2].skip(1) =~= Seq::<NewSwitchSubmission>::empty());
    assert(apply_submissions(sec, ss) == apply_submissions(apply_submission(sec, s1), ss.skip(1)));
    assert(apply_submissions(upsert(sec, k, v1), seq![s2]) == apply_submissions(
        apply_submission(upsert(sec, k, v1), s2),
        Seq::<NewSwitchSubmission>::empty(),
    ));
    assert(apply_submissions(sec, ss) == upsert(upsert(sec, k, v1), k, v2));
    lemma_upsert_override(sec, k, v1, v2);
    lemma_upsert_lookup(sec, k, v2, k);
    lemma_upsert_unique(sec, k, v2);
}

} // verus!
