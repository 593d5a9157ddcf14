//! A set of features: each feature is in it once or not at all.

use crate::es_features::EsFeature;
use vstd::prelude::*;
use vstd::string::StringExecFns;

verus! {

/// The features found in one analysis. What counts is which features are in
/// the set, never the order in which they came.
#[derive(Debug)]
pub struct FeatureSet {
    items: Vec<EsFeature>,
}

impl View for FeatureSet {
    type V = Set<EsFeature>;

    closed spec fn view(&self) -> Set<EsFeature> {
        self.items@.to_set()
    }
}

/// The names of the features of `listed`, one after the other.
pub open spec fn names_of(listed: Seq<EsFeature>) -> Seq<char>
    decreases listed.len(),
{
    if listed.len() == 0 {
        Seq::<char>::empty()
    } else {
        names_of(listed.drop_last()) + listed.last().label()
    }
}

impl FeatureSet {
    /// No feature is held twice.
    #[verifier::type_invariant]
    spec fn distinct(&self) -> bool {
        self.items@.no_duplicates()
    }

    /// `f` is the latest of `s`: it is in `s`, and no feature of `s` belongs
    /// to a later edition.
    pub open spec fn is_latest(s: Set<EsFeature>, f: EsFeature) -> bool {
        &&& s.contains(f)
        &&& forall|g: EsFeature| s.contains(g) ==> g.edition().at_most(f.edition())
    }

    /// The set without any feature.
    pub fn new() -> (s: FeatureSet)
        ensures
            s@ == Set::<EsFeature>::empty(),
    {
        let s = FeatureSet { items: Vec::new() };
        s
    }

    /// Tells whether `f` is in the set.
    pub fn contains(&self, f: &EsFeature) -> (r: bool)
        ensures
            r == self@.contains(*f),
    {
        let mut i: usize = 0;
        while i < self.items.len()
            invariant
                i <= self.items.len(),
                forall|j: int| 0 <= j < i ==> self.items@[j] != *f,
            decreases self.items.len() - i,
        {
            if self.items[i] == *f {
                return true;
            }
            i += 1;
        }
        false
    }

    /// Puts `f` into the set and tells whether it was new to it. A feature
    /// that is already there stays there once.
    pub fn insert(&mut self, f: EsFeature) -> (fresh: bool)
        ensures
            final(self)@ == old(self)@.insert(f),
            fresh == !old(self)@.contains(f),
    {
        if self.contains(&f) {
            false
        } else {
            proof {
                use_type_invariant(&*self);
            }
            let ghost before = self.items@;
            let mut items: Vec<EsFeature> = Vec::new();
            core::mem::swap(&mut self.items, &mut items);
            items.push(f);
            assert(items@.to_set() =~= before.to_set().insert(f)) by {
                assert forall|g: EsFeature| items@.contains(g) <==> (g == f || before.contains(
                    g,
                )) by {
                    if before.contains(g) {
                        let j = choose|j: int| 0 <= j < before.len() && before[j] == g;
                        assert(items@[j] == g);
                    }
                    if g == f {
                        assert(items@[before.len() as int] == f);
                    }
                }
            }
            core::mem::swap(&mut self.items, &mut items);
            true
        }
    }

    /// The number of features in the set.
    pub fn len(&self) -> (n: usize)
        ensures
            n == self@.len(),
            self@.finite(),
    {
        proof {
            use_type_invariant(self);
            self.items@.unique_seq_to_set();
        }
        self.items.len()
    }

    /// Tells whether the set holds no feature at all.
    pub fn is_empty(&self) -> (r: bool)
        ensures
            r == (self@ == Set::<EsFeature>::empty()),
    {
        let r: bool = self.items.len() == 0;
        proof {
            if r {
                assert(self@ =~= Set::<EsFeature>::empty());
            } else {
                assert(self@.contains(self.items@[0]));
            }
        }
        r
    }

    /// The features of the set, each once, in no order that a caller may
    /// count on.
    pub fn to_vec(&self) -> (v: Vec<EsFeature>)
        ensures
            v@.no_duplicates(),
            v@.to_set() == self@,
    {
        proof {
            use_type_invariant(self);
        }
        let mut v: Vec<EsFeature> = Vec::new();
        let mut i: usize = 0;
        while i < self.items.len()
            invariant
                i <= self.items.len(),
                v@ == self.items@.take(i as int),
            decreases self.items.len() - i,
        {
            v.push(self.items[i]);
            i += 1;
        }
        assert(v@ =~= self.items@);
        v
    }

    /// The names of the features of the set, one after the other without
    /// anything between them, in the order in which `to_vec` gives them.
    pub fn describe(&self) -> (r: String)
        ensures
            exists|listed: Seq<EsFeature>| #[trigger]
                listed.to_set() == self@ && listed.no_duplicates() && r@ == names_of(listed),
    {
        proof {
            use_type_invariant(self);
        }
        let mut r: String = String::new();
        let mut i: usize = 0;
        while i < self.items.len()
            invariant
                i <= self.items.len(),
                r@ == names_of(self.items@.take(i as int)),
            decreases self.items.len() - i,
        {
            r.append(self.items[i].name());
            proof {
                let upto = self.items@.take(i + 1);
                assert(upto.drop_last() =~= self.items@.take(i as int));
            }
            i += 1;
        }
        assert(self.items@.take(self.items.len() as int) =~= self.items@);
        assert(self.items@.to_set() == self@);
        r
    }

    /// A feature of the set that belongs to the latest edition found in it,
    /// or `None` where the set is empty. Where several features share that
    /// edition, any one of them may come back.
    pub fn max(&self) -> (r: Option<EsFeature>)
        ensures
            r is None <==> self@ == Set::<EsFeature>::empty(),
            r matches Some(f) ==> FeatureSet::is_latest(self@, f),
    {
        if self.items.len() == 0 {
            assert(self@ =~= Set::<EsFeature>::empty());
            return None;
        }
        let mut best: EsFeature = self.items[0];
        let mut i: usize = 1;
        while i < self.items.len()
            invariant
                1 <= i <= self.items.len(),
                self.items@.contains(best),
                forall|j: int| 0 <= j < i ==> self.items@[j].edition().at_most(best.edition()),
            decreases self.items.len() - i,
        {
            best = best.max(self.items[i]);
            i += 1;
        }
        assert(self@.contains(best));
        Some(best)
    }
}

impl Clone for FeatureSet {
    fn clone(&self) -> (r: FeatureSet)
        ensures
            r@ == self@,
    {
        proof {
            use_type_invariant(self);
        }
        let items: Vec<EsFeature> = self.items.clone();
        FeatureSet { items }
    }
}

impl Default for FeatureSet {
    fn default() -> (s: FeatureSet)
        ensures
            s@ == Set::<EsFeature>::empty(),
    {
        FeatureSet::new()
    }
}

/// A set of features is finite.
pub proof fn lemma_feature_set_finite(s: FeatureSet)
    ensures
        s@.finite(),
{
}

} // verus!
