//! The editions of ECMAScript, ordered by the year of their release.

use std::cmp::Ordering;
use vstd::prelude::*;
use vstd::std_specs::cmp::PartialOrdSpecImpl;

verus! {

/// One edition of the ECMAScript standard. `ESNext` stands for every edition
/// that is not yet released and comes after all the named ones.
#[derive(Clone, Copy, Debug, PartialEq, Eq, Structural, Hash, Ord)]
pub enum EsVersion {
    ES7,
    ES8,
    ES9,
    ES10,
    ES11,
    ES12,
    ES13,
    ES14,
    ES15,
    ES16,
    ESNext,
}

impl EsVersion {
    /// The position of the edition in the order of release, starting at 0.
    pub open spec fn rank(self) -> nat {
        match self {
            EsVersion::ES7 => 0,
            EsVersion::ES8 => 1,
            EsVersion::ES9 => 2,
            EsVersion::ES10 => 3,
            EsVersion::ES11 => 4,
            EsVersion::ES12 => 5,
            EsVersion::ES13 => 6,
            EsVersion::ES14 => 7,
            EsVersion::ES15 => 8,
            EsVersion::ES16 => 9,
            EsVersion::ESNext => 10,
        }
    }

    /// `self` was released no later than `other`.
    pub open spec fn at_most(self, other: EsVersion) -> bool {
        self.rank() <= other.rank()
    }

    /// How `self` stands to `other` in the order of release.
    pub open spec fn order(self, other: EsVersion) -> Ordering {
        if self.rank() < other.rank() {
            Ordering::Less
        } else if self.rank() == other.rank() {
            Ordering::Equal
        } else {
            Ordering::Greater
        }
    }

    /// The later of two editions.
    pub open spec fn later(self, other: EsVersion) -> EsVersion {
        if self.rank() >= other.rank() {
            self
        } else {
            other
        }
    }

    /// The name under which the edition is shown.
    pub open spec fn label(self) -> Seq<char> {
        match self {
            EsVersion::ES7 => "ES7"@,
            EsVersion::ES8 => "ES8"@,
            EsVersion::ES9 => "ES9"@,
            EsVersion::ES10 => "ES10"@,
            EsVersion::ES11 => "ES11"@,
            EsVersion::ES12 => "ES12"@,
            EsVersion::ES13 => "ES13"@,
            EsVersion::ES14 => "ES14"@,
            EsVersion::ES15 => "ES15"@,
            EsVersion::ES16 => "ES16"@,
            EsVersion::ESNext => "ESNext"@,
        }
    }

    /// The position of the edition in the order of release, as a machine integer.
    pub fn ordinal(&self) -> (r: u8)
        ensures
            r == self.rank(),
    {
        match self {
            EsVersion::ES7 => 0,
            EsVersion::ES8 => 1,
            EsVersion::ES9 => 2,
            EsVersion::ES10 => 3,
            EsVersion::ES11 => 4,
            EsVersion::ES12 => 5,
            EsVersion::ES13 => 6,
            EsVersion::ES14 => 7,
            EsVersion::ES15 => 8,
            EsVersion::ES16 => 9,
            EsVersion::ESNext => 10,
        }
    }

    /// Reports whether `self` is earlier than, the same as, or later than `other`.
    pub fn compare(&self, other: &EsVersion) -> (r: Ordering)
        ensures
            r == self.order(*other),
    {
        let a: u8 = self.ordinal();
        let b: u8 = other.ordinal();
        if a < b {
            Ordering::Less
        } else if a == b {
            Ordering::Equal
        } else {
            Ordering::Greater
        }
    }

    /// The later of two editions; `self` where they are the same.
    pub fn latest(self, other: EsVersion) -> (r: EsVersion)
        ensures
            r == self.later(other),
    {
        if self.ordinal() >= other.ordinal() {
            self
        } else {
            other
        }
    }

    /// The latest edition in `versions`, or `None` where there is none at all.
    pub fn max_of(versions: &Vec<EsVersion>) -> (r: Option<EsVersion>)
        ensures
            r is None <==> versions@.len() == 0,
            r matches Some(m) ==> versions@.contains(m) && forall|i: int|
                0 <= i < versions@.len() ==> versions@[i].at_most(m),
    {
        if versions.len() == 0 {
            return None;
        }
        let mut best: EsVersion = versions[0];
        let mut i: usize = 1;
        while i < versions.len()
            invariant
                1 <= i <= versions.len(),
                versions@.contains(best),
                forall|j: int| 0 <= j < i ==> versions@[j].at_most(best),
            decreases versions.len() - i,
        {
            best = best.latest(versions[i]);
            i += 1;
        }
        Some(best)
    }

    /// The name under which the edition is shown.
    pub fn name(&self) -> (r: &'static str)
        ensures
            r@ == self.label(),
    {
        match self {
            EsVersion::ES7 => "ES7",
            EsVersion::ES8 => "ES8",
            EsVersion::ES9 => "ES9",
            EsVersion::ES10 => "ES10",
            EsVersion::ES11 => "ES11",
            EsVersion::ES12 => "ES12",
            EsVersion::ES13 => "ES13",
            EsVersion::ES14 => "ES14",
            EsVersion::ES15 => "ES15",
            EsVersion::ES16 => "ES16",
            EsVersion::ESNext => "ESNext",
        }
    }
}

impl PartialOrd for EsVersion {
    fn partial_cmp(&self, other: &EsVersion) -> (r: Option<Ordering>) {
        Some(self.compare(other))
    }
}

impl PartialOrdSpecImpl for EsVersion {
    open spec fn obeys_partial_cmp_spec() -> bool {
        true
    }

    open spec fn partial_cmp_spec(&self, other: &EsVersion) -> Option<Ordering> {
        Some(self.order(*other))
    }
}

/// Every edition is at most itself.
pub proof fn lemma_order_reflexive(a: EsVersion)
    ensures
        a.at_most(a),
        a.order(a) == Ordering::Equal,
{
}

/// Two editions that are each at most the other are one and the same edition.
pub proof fn lemma_order_antisymmetric(a: EsVersion, b: EsVersion)
    requires
        a.at_most(b),
        b.at_most(a),
    ensures
        a == b,
{
}

/// The order of release carries over a middle edition.
pub proof fn lemma_order_transitive(a: EsVersion, b: EsVersion, c: EsVersion)
    requires
        a.at_most(b),
        b.at_most(c),
    ensures
        a.at_most(c),
{
}

/// Of any two editions one is at most the other; they compare as equal
/// exactly when they are the same edition.
pub proof fn lemma_order_total(a: EsVersion, b: EsVersion)
    ensures
        a.at_most(b) || b.at_most(a),
        a.order(b) == Ordering::Equal <==> a == b,
        a.order(b) == Ordering::Less <==> b.order(a) == Ordering::Greater,
{
}

/// No edition comes after `ESNext`.
pub proof fn lemma_next_is_last(a: EsVersion)
    ensures
        a.at_most(EsVersion::ESNext),
{
}

} // verus!
