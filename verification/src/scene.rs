//! The scene traverser: a depth-first walk of the decoded model's node
//! forest, classifying every named node and partitioning the names into
//! switch candidates and the non-switch inventory.

use vstd::prelude::*;

use crate::model::SwitchItem;
use crate::tags::{classify, classify_name};
use crate::text::str_eq;

verus! {

/// One node of the decoded scene graph: an optional display name and the
/// ordered child nodes. The decoder guarantees an acyclic forest.
pub struct SceneNode {
    pub name: Option<String>,
    pub children: Vec<SceneNode>,
}

/// The views of a vector of strings.
pub open spec fn strs_view(v: Seq<String>) -> Seq<Seq<char>> {
    v.map(|i: int, s: String| s@)
}

/// The node's own display name, as a sequence of zero or one names.
pub open spec fn own_name(n: SceneNode) -> Seq<Seq<char>> {
    match n.name {
        Some(s) => seq![s@],
        None => Seq::<Seq<char>>::empty(),
    }
}

/// Every display name in the subtree rooted at `n`, in discovery order:
/// the node's own name first, then each child's names, depth first.
pub open spec fn visit_node(n: SceneNode) -> Seq<Seq<char>>
    decreases n,
{
    own_name(n) + visit_forest(n.children@)
}

/// Every display name in the forest, in discovery order.
pub open spec fn visit_forest(ns: Seq<SceneNode>) -> Seq<Seq<char>>
    decreases ns,
{
    if ns.len() == 0 {
        Seq::<Seq<char>>::empty()
    } else {
        visit_node(ns.first()) + visit_forest(ns.drop_first())
    }
}

pub proof fn lemma_visit_forest_push(ns: Seq<SceneNode>, n: SceneNode)
    ensures
        visit_forest(ns.push(n)) == visit_forest(ns) + visit_node(n),
    decreases ns.len(),
{
    if ns.len() == 0 {
        assert(ns.push(n).first() == n);
        assert(ns.push(n).drop_first() =~= Seq::<SceneNode>::empty());
        assert(visit_forest(Seq::<SceneNode>::empty()) =~= Seq::<Seq<char>>::empty());
        assert(visit_node(n) + Seq::<Seq<char>>::empty() =~= visit_node(n));
        assert(Seq::<Seq<char>>::empty() + visit_node(n) =~= visit_node(n));
    } else {
        assert(ns.push(n).first() == ns.first());
        assert(ns.push(n).drop_first() =~= ns.drop_first().push(n));
        lemma_visit_forest_push(ns.drop_first(), n);
        assert(visit_node(ns.first()) + (visit_forest(ns.drop_first()) + visit_node(n)) =~= (
        visit_node(ns.first()) + visit_forest(ns.drop_first())) + visit_node(n));
    }
}

/// Appends every display name under `n`, in discovery order.
#[verifier::loop_isolation(false)]
pub fn collect_node_names(n: &SceneNode, out: &mut Vec<String>)
    ensures
        strs_view(final(out)@) == strs_view(old(out)@) + visit_node(*n),
    decreases *n,
{
    match &n.name {
        Some(s) => {
            out.push(s.clone());
            assert(strs_view(out@) =~= strs_view(old(out)@) + own_name(*n));
        },
        None => {
            assert(strs_view(out@) =~= strs_view(old(out)@) + own_name(*n));
        },
    }
    let mut i: usize = 0;
    while i < n.children.len()
        invariant
            0 <= i <= n.children@.len(),
            strs_view(out@) == strs_view(old(out)@) + own_name(*n) + visit_forest(
                n.children@.take(i as int),
            ),
        decreases n.children@.len() - i,
    {
        collect_node_names(&n.children[i], out);
        proof {
            lemma_visit_forest_push(n.children@.take(i as int), n.children@[i as int]);
            assert(n.children@.take(i as int).push(n.children@[i as int]) =~= n.children@.take(
                i + 1,
            ));
            assert(strs_view(old(out)@) + own_name(*n) + visit_forest(n.children@.take(i as int))
                + visit_node(n.children@[i as int]) =~= strs_view(old(out)@) + own_name(*n)
                + visit_forest(n.children@.take(i + 1)));
        }
        i += 1;
    }
    proof {
        assert(n.children@.take(i as int) =~= n.children@);
        assert(strs_view(old(out)@) + own_name(*n) + visit_forest(n.children@) =~= strs_view(
            old(out)@,
        ) + visit_node(*n));
    }
}

/// Every display name in the forest, in discovery order.
#[verifier::loop_isolation(false)]
pub fn collect_forest_names(roots: &Vec<SceneNode>) -> (r: Vec<String>)
    ensures
        strs_view(r@) == visit_forest(roots@),
{
    let mut out: Vec<String> = Vec::new();
    assert(strs_view(out@) =~= Seq::<Seq<char>>::empty());
    assert(visit_forest(roots@.take(0)) =~= Seq::<Seq<char>>::empty());
    let mut i: usize = 0;
    while i < roots.len()
        invariant
            0 <= i <= roots@.len(),
            strs_view(out@) == visit_forest(roots@.take(i as int)),
        decreases roots@.len() - i,
    {
        let ghost pre = strs_view(out@);
        collect_node_names(&roots[i], &mut out);
        proof {
            lemma_visit_forest_push(roots@.take(i as int), roots@[i as int]);
            assert(roots@.take(i as int).push(roots@[i as int]) =~= roots@.take(i + 1));
        }
        i += 1;
    }
    proof {
        assert(roots@.take(i as int) =~= roots@);
    }
    out
}

/// What the traverser reports of one classified node.
pub struct ClassifiedView {
    pub mesh_name: Seq<char>,
    pub pretty_name: Seq<char>,
    pub is_configured: bool,
    pub switch_type: Seq<char>,
    pub raw_node_name: Seq<char>,
}

/// The view of a reported switch candidate.
pub open spec fn item_view(it: SwitchItem) -> ClassifiedView {
    ClassifiedView {
        mesh_name: it.mesh_name@,
        pretty_name: it.pretty_name@,
        is_configured: it.is_configured,
        switch_type: it.switch_type@,
        raw_node_name: it.raw_node_name@,
    }
}

/// The views of a vector of switch candidates.
pub open spec fn items_view(v: Seq<SwitchItem>) -> Seq<ClassifiedView> {
    v.map(|i: int, it: SwitchItem| item_view(it))
}

/// What one classified name reports, given the set of already-configured
/// pretty names.
pub open spec fn classified_of(name: Seq<char>, cfg: Seq<Seq<char>>) -> ClassifiedView {
    let kp = classify_name(name)->0;
    ClassifiedView {
        mesh_name: name,
        pretty_name: kp.1,
        is_configured: cfg.contains(kp.1),
        switch_type: kp.0,
        raw_node_name: name,
    }
}

/// The classified switch candidates among `names`, in order.
pub open spec fn spec_classified(names: Seq<Seq<char>>, cfg: Seq<Seq<char>>) -> Seq<ClassifiedView>
    decreases names.len(),
{
    if names.len() == 0 {
        Seq::<ClassifiedView>::empty()
    } else {
        (if classify_name(names.first()) is Some {
            seq![classified_of(names.first(), cfg)]
        } else {
            Seq::<ClassifiedView>::empty()
        }) + spec_classified(names.drop_first(), cfg)
    }
}

/// The names among `names` that classify as no switch, in order, duplicates
/// kept: the non-switch inventory.
pub open spec fn spec_non_switch(names: Seq<Seq<char>>) -> Seq<Seq<char>>
    decreases names.len(),
{
    if names.len() == 0 {
        Seq::<Seq<char>>::empty()
    } else {
        (if classify_name(names.first()) is None {
            seq![names.first()]
        } else {
            Seq::<Seq<char>>::empty()
        }) + spec_non_switch(names.drop_first())
    }
}

pub proof fn lemma_spec_classified_push(names: Seq<Seq<char>>, n: Seq<char>, cfg: Seq<Seq<char>>)
    ensures
        spec_classified(names.push(n), cfg) == spec_classified(names, cfg) + (if classify_name(n)
            is Some {
            seq![classified_of(n, cfg)]
        } else {
            Seq::<ClassifiedView>::empty()
        }),
    decreases names.len(),
{
    let tail = if classify_name(n) is Some {
        seq![classified_of(n, cfg)]
    } else {
        Seq::<ClassifiedView>::empty()
    };
    if names.len() == 0 {
        assert(names.push(n).first() == n);
        assert(names.push(n).drop_first() =~= Seq::<Seq<char>>::empty());
        assert(spec_classified(Seq::<Seq<char>>::empty(), cfg) =~= Seq::<ClassifiedView>::empty());
        assert(spec_classified(names.push(n), cfg) =~= tail);
        assert(spec_classified(names, cfg) + tail =~= tail);
    } else {
        assert(names.push(n).first() == names.first());
        assert(names.push(n).drop_first() =~= names.drop_first().push(n));
        lemma_spec_classified_push(names.drop_first(), n, cfg);
        let head = if classify_name(names.first()) is Some {
            seq![classified_of(names.first(), cfg)]
        } else {
            Seq::<ClassifiedView>::empty()
        };
        assert(head + (spec_classified(names.drop_first(), cfg) + tail) =~= (head + spec_classified(
            names.drop_first(),
            cfg,
        )) + tail);
    }
}

pub proof fn lemma_spec_non_switch_push(names: Seq<Seq<char>>, n: Seq<char>)
    ensures
        spec_non_switch(names.push(n)) == spec_non_switch(names) + (if classify_name(n) is None {
            seq![n]
        } else {
            Seq::<Seq<char>>::empty()
        }),
    decreases names.len(),
{
    let tail = if classify_name(n) is None {
        seq![n]
    } else {
        Seq::<Seq<char>>::empty()
    };
    if names.len() == 0 {
        assert(names.push(n).first() == n);
        assert(names.push(n).drop_first() =~= Seq::<Seq<char>>::empty());
        assert(spec_non_switch(Seq::<Seq<char>>::empty()) =~= Seq::<Seq<char>>::empty());
        assert(spec_non_switch(names.push(n)) =~= tail);
        assert(spec_non_switch(names) + tail =~= tail);
    } else {
        assert(names.push(n).first() == names.first());
        assert(names.push(n).drop_first() =~= names.drop_first().push(n));
        lemma_spec_non_switch_push(names.drop_first(), n);
        let head = if classify_name(names.first()) is None {
            seq![names.first()]
        } else {
            Seq::<Seq<char>>::empty()
        };
        assert(head + (spec_non_switch(names.drop_first()) + tail) =~= (head + spec_non_switch(
            names.drop_first(),
        )) + tail);
    }
}

/// Whether some string in `v` holds the characters `s`.
pub fn contains_str(v: &Vec<String>, s: &str) -> (r: bool)
    ensures
        r == strs_view(v@).contains(s@),
{
    let mut i: usize = 0;
    while i < v.len()
        invariant
            0 <= i <= v@.len(),
            forall|j: int| 0 <= j < i ==> strs_view(v@)[j] != s@,
        decreases v@.len() - i,
    {
        if str_eq(v[i].as_str(), s) {
            assert(strs_view(v@)[i as int] == s@);
            return true;
        }
        assert(strs_view(v@)[i as int] != s@);
        i += 1;
    }
    assert(forall|j: int| 0 <= j < strs_view(v@).len() ==> strs_view(v@)[j] != s@);
    false
}

/// Walks the forest and classifies every named node: the switch candidates
/// (each flagged when its pretty name is already configured), in discovery
/// order, and the non-switch name inventory.
#[verifier::loop_isolation(false)]
pub fn classify_scene(roots: &Vec<SceneNode>, configured: &Vec<String>) -> (r: (
    Vec<SwitchItem>,
    Vec<String>,
))
    ensures
        items_view(r.0@) == spec_classified(visit_forest(roots@), strs_view(configured@)),
        strs_view(r.1@) == spec_non_switch(visit_forest(roots@)),
{
    let names = collect_forest_names(roots);
    let ghost all = strs_view(names@);
    let mut switches: Vec<SwitchItem> = Vec::new();
    let mut non_switch: Vec<String> = Vec::new();
    assert(items_view(switches@) =~= spec_classified(all.take(0), strs_view(configured@)));
    assert(spec_classified(all.take(0), strs_view(configured@)) =~= Seq::<
        ClassifiedView,
    >::empty());
    assert(strs_view(non_switch@) =~= spec_non_switch(all.take(0)));
    let mut i: usize = 0;
    while i < names.len()
        invariant
            0 <= i <= names@.len(),
            all == strs_view(names@),
            items_view(switches@) == spec_classified(all.take(i as int), strs_view(configured@)),
            strs_view(non_switch@) == spec_non_switch(all.take(i as int)),
        decreases names@.len() - i,
    {
        let ghost name = all[i as int];
        assert(name == names@[i as int]@);
        match classify(names[i].as_str()) {
            Some(kp) => {
                let (kind, pretty) = kp;
                let is_configured = contains_str(configured, pretty.as_str());
                let item = SwitchItem {
                    mesh_name: names[i].clone(),
                    pretty_name: pretty,
                    is_configured,
                    switch_type: kind,
                    raw_node_name: names[i].clone(),
                };
                switches.push(item);
                proof {
                    assert(item_view(item) == classified_of(name, strs_view(configured@)));
                    lemma_spec_classified_push(all.take(i as int), name, strs_view(configured@));
                    assert(all.take(i as int).push(name) =~= all.take(i + 1));
                    assert(items_view(switches@) =~= spec_classified(
                        all.take(i as int),
                        strs_view(configured@),
                    ) + seq![classified_of(name, strs_view(configured@))]);
                    lemma_spec_non_switch_push(all.take(i as int), name);
                }
            },
            None => {
                non_switch.push(names[i].clone());
                proof {
                    lemma_spec_classified_push(all.take(i as int), name, strs_view(configured@));
                    lemma_spec_non_switch_push(all.take(i as int), name);
                    assert(all.take(i as int).push(name) =~= all.take(i + 1));
                    assert(strs_view(non_switch@) =~= spec_non_switch(all.take(i as int))
                        + seq![name]);
                }
            },
        }
        i += 1;
    }
    proof {
        assert(all.take(i as int) =~= all);
    }
    (switches, non_switch)
}

} // verus!
