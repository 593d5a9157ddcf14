//! What holds of every analysis: how the features of a tree depend on its
//! nodes, and how the earliest edition depends on the features.

use crate::es_features::EsFeature;
use crate::es_version::EsVersion;
use crate::feature_set::FeatureSet;
use crate::rules::{forest_features, kind_features, node_features};
use crate::syntax::Node;
use crate::{
    minimum_edition, minimum_edition_answer, program_features, shows_edition, supports,
};
use vstd::prelude::*;

verus! {

/// A set shows an edition exactly where it holds a feature that the
/// edition introduced.
pub proof fn lemma_shows_edition(s: Set<EsFeature>, v: EsVersion)
    ensures
        shows_edition(s, v) <==> exists|f: EsFeature| #[trigger] s.contains(f) && f.edition() == v,
{
}

/// Where `f` is a latest feature of `s`, the earliest edition that has every
/// feature of `s` is the edition of `f`.
pub proof fn lemma_latest_gives_minimum(s: Set<EsFeature>, f: EsFeature)
    requires
        FeatureSet::is_latest(s, f),
    ensures
        minimum_edition(s) == Some(f.edition()),
{
    lemma_shows_edition(s, f.edition());
    assert forall|v: EsVersion| shows_edition(s, v) implies v.at_most(f.edition()) by {
        lemma_shows_edition(s, v);
    }
}

/// The earliest edition that has every feature of `s` does have them all,
/// one of them was introduced by it, and no earlier edition has them all.
pub proof fn lemma_minimum_edition_is_least(s: Set<EsFeature>, v: EsVersion)
    requires
        minimum_edition(s) == Some(v),
    ensures
        supports(v, s),
        exists|f: EsFeature| #[trigger] s.contains(f) && f.edition() == v,
        forall|w: EsVersion| supports(w, s) ==> v.at_most(w),
{
    lemma_shows_edition(s, v);
    assert forall|f: EsFeature| s.contains(f) implies f.edition().at_most(v) by {
        lemma_shows_edition(s, f.edition());
    }
}

/// A set without any feature has no earliest edition, and only such a set
/// has none.
pub proof fn lemma_no_minimum_edition(s: Set<EsFeature>)
    ensures
        minimum_edition(s) is None <==> s == Set::<EsFeature>::empty(),
{
    if minimum_edition(s) is None {
        assert forall|f: EsFeature| !s.contains(f) by {
            lemma_shows_edition(s, f.edition());
        }
        assert(s =~= Set::<EsFeature>::empty());
    }
}

/// A program that shows a feature of the edition `e` and none of a later
/// edition needs exactly `e`.
pub proof fn lemma_minimum_edition_exact(program: Node, e: EsVersion)
    requires
        exists|f: EsFeature| #[trigger] program_features(program).contains(f) && f.edition() == e,
        forall|f: EsFeature| program_features(program).contains(f) ==> f.edition().at_most(e),
    ensures
        minimum_edition_answer(program_features(program)) == Ok::<EsVersion, crate::Error>(e),
{
}

/// A set that holds every feature of another needs no earlier edition than
/// the other does.
pub proof fn lemma_more_features_never_earlier(fewer: Set<EsFeature>, more: Set<EsFeature>)
    requires
        fewer.subset_of(more),
    ensures
        minimum_edition(fewer) matches Some(v) ==> (minimum_edition(more) matches Some(w)
            && v.at_most(w)),
{
    if let Some(v) = minimum_edition(fewer) {
        lemma_minimum_edition_is_least(fewer, v);
    }
}

/// The features of a row of trees are the features of the trees in it: a
/// feature is shown by the row exactly when one of the trees shows it.
pub proof fn lemma_forest_features(nodes: Seq<Node>, in_function: bool, f: EsFeature)
    ensures
        forest_features(nodes, in_function).contains(f) <==> exists|i: int|
            0 <= i < nodes.len() && node_features(nodes[i], in_function).contains(f),
    decreases nodes.len(),
{
    if nodes.len() > 0 {
        let front = nodes.drop_last();
        lemma_forest_features(front, in_function, f);
        if exists|i: int| 0 <= i < nodes.len() && node_features(nodes[i], in_function).contains(f) {
            let i = choose|i: int|
                0 <= i < nodes.len() && node_features(nodes[i], in_function).contains(f);
            if i < nodes.len() - 1 {
                assert(node_features(front[i], in_function).contains(f));
            }
        }
    }
}

/// The tree under `a` is part of the tree under `b`: the two roots are of
/// one kind, and every tree that stands directly below the root of `a` is
/// part of some tree that stands directly below the root of `b`. The trees
/// below a node count as a collection: neither their order nor how often one
/// occurs plays a role.
pub open spec fn part_of(a: Node, b: Node) -> bool
    decreases a, 0nat,
{
    &&& a.kind == b.kind
    &&& forall|i: int|
        #![trigger a.children@[i]]
        0 <= i < a.children@.len() ==> part_of_one(a.children@[i], b.children@)
}

/// The tree under `x` is part of one of the trees of `row`.
pub open spec fn part_of_one(x: Node, row: Seq<Node>) -> bool
    decreases x, 1nat,
{
    exists|j: int| 0 <= j < row.len() && part_of(x, #[trigger] row[j])
}

/// A tree that is part of another shows no feature that the other does not
/// show.
pub proof fn lemma_part_shows_no_more(a: Node, b: Node, in_function: bool)
    requires
        part_of(a, b),
    ensures
        node_features(a, in_function).subset_of(node_features(b, in_function)),
    decreases a,
{
    let below = in_function || a.kind.is_function_like();
    let above = a.children@;
    let beneath = b.children@;
    assert forall|f: EsFeature| forest_features(above, below).contains(f) implies forest_features(
        beneath,
        below,
    ).contains(f) by {
        lemma_forest_features(above, below, f);
        lemma_forest_features(beneath, below, f);
        let i = choose|i: int| 0 <= i < above.len() && node_features(above[i], below).contains(f);
        let j = choose|j: int| 0 <= j < beneath.len() && part_of(above[i], beneath[j]);
        lemma_part_shows_no_more(above[i], beneath[j], below);
    }
    assert forall|f: EsFeature| node_features(a, in_function).contains(f) implies node_features(
        b,
        in_function,
    ).contains(f) by {
        if !kind_features(a.kind, in_function).contains(f) {
            assert(forest_features(above, below).contains(f));
        }
    }
}

/// The order in which the nodes of a tree are walked through does not
/// matter. Two trees that are each part of the other differ at most in the
/// order, and in the number of copies, of the trees below their nodes, and
/// they show the same features.
pub proof fn lemma_order_is_immaterial(a: Node, b: Node, in_function: bool)
    requires
        part_of(a, b),
        part_of(b, a),
    ensures
        node_features(a, in_function) == node_features(b, in_function),
{
    lemma_part_shows_no_more(a, b, in_function);
    lemma_part_shows_no_more(b, a, in_function);
}

/// Putting the trees below a node into another order changes nothing: two
/// nodes of one kind with the same trees below them, each as often as in
/// the other, show the same features.
pub proof fn lemma_reordered_shows_the_same(a: Node, b: Node, in_function: bool)
    requires
        a.kind == b.kind,
        a.children@.to_multiset() == b.children@.to_multiset(),
    ensures
        node_features(a, in_function) == node_features(b, in_function),
{
    lemma_members_are_parts(a, b);
    lemma_members_are_parts(b, a);
    lemma_order_is_immaterial(a, b, in_function);
}

/// A node is part of a node of its kind that has the same trees below it,
/// in whatever order.
proof fn lemma_members_are_parts(a: Node, b: Node)
    requires
        a.kind == b.kind,
        a.children@.to_multiset() == b.children@.to_multiset(),
    ensures
        part_of(a, b),
{
    a.children@.to_multiset_ensures();
    b.children@.to_multiset_ensures();
    assert forall|i: int| #![trigger a.children@[i]] 0 <= i < a.children@.len() implies part_of_one(
        a.children@[i],
        b.children@,
    ) by {
        let x = a.children@[i];
        assert(a.children@.contains(x));
        assert(b.children@.to_multiset().count(x) > 0);
        let j = choose|j: int| 0 <= j < b.children@.len() && b.children@[j] == x;
        lemma_part_of_itself(x);
        assert(part_of(x, b.children@[j]));
    }
}

/// Every tree is part of itself.
pub proof fn lemma_part_of_itself(a: Node)
    ensures
        part_of(a, a),
    decreases a,
{
    assert forall|i: int| #![trigger a.children@[i]] 0 <= i < a.children@.len() implies part_of_one(
        a.children@[i],
        a.children@,
    ) by {
        lemma_part_of_itself(a.children@[i]);
    }
}

/// Adding to a program never lowers the edition that it needs. Where
/// `program` is part of `extended`, which has whatever was added besides,
/// `extended` shows every feature that `program` shows, and the earliest
/// edition for it is no earlier than that for `program`.
pub proof fn lemma_minimum_edition_monotonic(program: Node, extended: Node)
    requires
        part_of(program, extended),
    ensures
        program_features(program).subset_of(program_features(extended)),
        minimum_edition(program_features(program)) matches Some(v) ==> (minimum_edition(
            program_features(extended),
        ) matches Some(w) && v.at_most(w)),
{
    lemma_part_shows_no_more(program, extended, false);
    lemma_more_features_never_earlier(program_features(program), program_features(extended));
}

/// A program is part of the program that has one more tree below its root,
/// wherever that tree is put in.
pub proof fn lemma_part_of_extended(program: Node, fragment: Node, at: int, extended: Node)
    requires
        extended.kind == program.kind,
        0 <= at <= program.children@.len(),
        extended.children@ == program.children@.insert(at, fragment),
    ensures
        part_of(program, extended),
{
    assert forall|i: int|
        #![trigger program.children@[i]]
        0 <= i < program.children@.len() implies part_of_one(
        program.children@[i],
        extended.children@,
    ) by {
        lemma_part_of_itself(program.children@[i]);
        let j = if i < at {
            i
        } else {
            i + 1
        };
        assert(extended.children@[j] == program.children@[i]);
    }
}

/// A program with one more tree at the end shows what it showed before and
/// what the new tree shows, and nothing else.
pub proof fn lemma_fragment_adds_its_features(program: Node, fragment: Node, extended: Node)
    requires
        extended.kind == program.kind,
        extended.children@ == program.children@.push(fragment),
    ensures
        program_features(extended) == program_features(program).union(
            node_features(fragment, program.kind.is_function_like()),
        ),
{
    assert(extended.children@.drop_last() =~= program.children@);
}

} // verus!
