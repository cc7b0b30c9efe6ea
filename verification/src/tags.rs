//! The tag matcher: classifies a node's display name against the fixed,
//! ordered vocabulary of naming tags, first match wins, and derives the
//! switch kind and the normalized ("pretty") name.

use vstd::prelude::*;

use crate::text::{
    chars_of, contains_pat, contains_pat_exec, lower_char, lower_char_exec, remove_all,
    remove_all_exec, string_of, trim, trim_exec,
};

verus! {

/// The recognized naming tags, in priority order: the first tag found in a
/// name (case-insensitively, as a substring) decides the classification.
pub open spec fn spec_tags() -> Seq<Seq<char>> {
    seq![
        seq!['-', 'D', 'i', 'a', 'l'],
        seq!['-', 'B', 'u', 't', 't', 'o', 'n'],
        seq!['-', 'L', 'e', 'v', 'e', 'r'],
    ]
}

/// The collider suffix stripped when deriving a pretty name.
pub open spec fn spec_collider() -> Seq<char> {
    seq!['-', 'C', 'o', 'l', 'l', 'i', 'd', 'e', 'r']
}

/// The tag vocabulary, in priority order.
pub fn tag_list() -> (r: Vec<Vec<char>>)
    ensures
        r@.len() == spec_tags().len(),
        forall|i: int| 0 <= i < r@.len() ==> r@[i]@ == spec_tags()[i],
{
    let mut out: Vec<Vec<char>> = Vec::new();
    let dial: Vec<char> = vec!['-', 'D', 'i', 'a', 'l'];
    let button: Vec<char> = vec!['-', 'B', 'u', 't', 't', 'o', 'n'];
    let lever: Vec<char> = vec!['-', 'L', 'e', 'v', 'e', 'r'];
    assert(dial@ =~= spec_tags()[0]);
    assert(button@ =~= spec_tags()[1]);
    assert(lever@ =~= spec_tags()[2]);
    out.push(dial);
    out.push(button);
    out.push(lever);
    out
}

/// The index of the first tag, from `t` on, that occurs in `name`.
pub open spec fn first_tag_from(name: Seq<char>, t: int) -> Option<int>
    decreases spec_tags().len() - t,
{
    if t < 0 || t >= spec_tags().len() {
        None
    } else if contains_pat(name, spec_tags()[t], true) {
        Some(t)
    } else {
        first_tag_from(name, t + 1)
    }
}

/// The switch kind a tag names: the tag without its leading separator,
/// lower-cased.
pub open spec fn spec_kind_of(tag: Seq<char>) -> Seq<char> {
    tag.skip(1).map(|i: int, c: char| lower_char(c))
}

/// The pretty name: every occurrence of the matched tag removed
/// (case-insensitively), every collider suffix removed, surrounding
/// whitespace trimmed.
pub open spec fn spec_pretty_of(name: Seq<char>, tag: Seq<char>) -> Seq<char> {
    trim(remove_all(remove_all(name, tag, true), spec_collider(), false))
}

/// The classification of a display name: the first matching tag's switch
/// kind, and the pretty name it derives; nothing when no tag occurs.
pub open spec fn classify_name(name: Seq<char>) -> Option<(Seq<char>, Seq<char>)> {
    match first_tag_from(name, 0) {
        None => None,
        Some(t) => Some((spec_kind_of(spec_tags()[t]), spec_pretty_of(name, spec_tags()[t]))),
    }
}

/// Classifies one display name: the switch kind and pretty name derived from
/// the first matching tag, in vocabulary order; nothing for a non-switch.
#[verifier::loop_isolation(false)]
pub fn classify(name: &str) -> (r: Option<(String, String)>)
    ensures
        match r {
            Some(kp) => classify_name(name@) == Some((kp.0@, kp.1@)),
            None => classify_name(name@) is None,
        },
{
    let nc = chars_of(name);
    let tags = tag_list();
    let collider: Vec<char> = vec!['-', 'C', 'o', 'l', 'l', 'i', 'd', 'e', 'r'];
    assert(collider@ =~= spec_collider());
    let mut t: usize = 0;
    while t < tags.len()
        invariant
            0 <= t <= spec_tags().len(),
            first_tag_from(name@, 0) == first_tag_from(name@, t as int),
        decreases spec_tags().len() - t,
    {
        let tag = &tags[t];
        if contains_pat_exec(&nc, tag, true) {
            assert(first_tag_from(name@, t as int) == Some(t as int));
            // The kind: the tag minus its separator, lower-cased.
            let mut kind: Vec<char> = Vec::new();
            let mut j: usize = 1;
            while j < tag.len()
                invariant
                    1 <= j <= tag@.len(),
                    kind@.len() == j - 1,
                    forall|m: int| 0 <= m < kind@.len() ==> kind@[m] == lower_char(tag@[m + 1]),
                decreases tag@.len() - j,
            {
                kind.push(lower_char_exec(tag[j]));
                j += 1;
            }
            assert(kind@ =~= spec_kind_of(tag@));
            // The pretty name: remove the tag, remove colliders, trim.
            let stripped = remove_all_exec(&nc, tag, true);
            let no_collider = remove_all_exec(&stripped, &collider, false);
            let pretty = trim_exec(&no_collider);
            assert(pretty@ == spec_pretty_of(name@, tag@));
            return Some((string_of(&kind), string_of(&pretty)));
        }
        assert(first_tag_from(name@, t as int) == first_tag_from(name@, t + 1));
        t += 1;
    }
    assert(first_tag_from(name@, t as int) is None);
    None
}

} // verus!
