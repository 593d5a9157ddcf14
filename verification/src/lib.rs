//! Detects which ECMAScript features a syntax tree uses and the earliest
//! edition of the language that has them all.
//!
//! The tree comes from a parser; this library reads it and never changes
//! it. A source without any feature of the catalog has no edition that
//! could be named for it: asking for one is answered with
//! [`Error::NoFeaturesDetected`].

pub mod es_features;
pub mod es_version;
pub mod examples;
pub mod feature_set;
pub mod laws;
pub mod rules;
pub mod syntax;
pub mod text;
pub mod visitor;

pub use crate::es_features::EsFeature;
pub use crate::es_version::EsVersion;
pub use crate::feature_set::FeatureSet;
use crate::rules::node_features;
pub use crate::syntax::Node;
pub use crate::visitor::FeatureFinder;
use vstd::prelude::*;

verus! {

/// Why an analysis gave no answer.
#[derive(Clone, Copy, Debug, PartialEq, Eq, Structural)]
pub enum Error {
    /// The source is not a program of the accepted grammar. The parser says
    /// so; nothing in this library does.
    ParserError,
    /// The source shows no feature of the catalog, so no edition can be
    /// named as the earliest that it needs.
    NoFeaturesDetected,
}

impl Error {
    /// The text under which the error is shown.
    pub open spec fn text(self) -> Seq<char> {
        match self {
            Error::ParserError => "Parse error"@,
            Error::NoFeaturesDetected => "No features detected"@,
        }
    }

    /// The text under which the error is shown.
    pub fn message(&self) -> (r: &'static str)
        ensures
            r@ == self.text(),
    {
        match self {
            Error::ParserError => "Parse error",
            Error::NoFeaturesDetected => "No features detected",
        }
    }
}

/// The features that the program under `program` shows. The walk starts
/// outside any function.
pub open spec fn program_features(program: Node) -> Set<EsFeature> {
    node_features(program, false)
}

/// The edition `v` has every feature of `s`: none of them was introduced
/// after `v`.
pub open spec fn supports(v: EsVersion, s: Set<EsFeature>) -> bool {
    forall|f: EsFeature| s.contains(f) ==> f.edition().at_most(v)
}

/// The set `s` holds a feature that the edition `v` introduced.
pub open spec fn shows_edition(s: Set<EsFeature>, v: EsVersion) -> bool {
    match v {
        EsVersion::ES7 => s.contains(EsFeature::ExponentiationOperator),
        EsVersion::ES8 => {
            s.contains(EsFeature::ObjectValuesEntries)
                || s.contains(EsFeature::ObjectGetOwnPropertyDescriptors)
                || s.contains(EsFeature::AsyncFunctions)
                || s.contains(EsFeature::SharedMemoryAndAtomics)
        },
        EsVersion::ES9 => {
            s.contains(EsFeature::SDotAllFlagForRegularExpressions)
                || s.contains(EsFeature::RestSpreadProperties)
                || s.contains(EsFeature::RegExpLookbehindAssertions)
                || s.contains(EsFeature::RegExpUnicodePropertyEscapes)
        },
        EsVersion::ES10 => {
            s.contains(EsFeature::OptionalCatchBinding)
                || s.contains(EsFeature::ObjectFromEntries)
        },
        EsVersion::ES11 => {
            s.contains(EsFeature::BigInt)
                || s.contains(EsFeature::PromiseAllSettled)
                || s.contains(EsFeature::GlobalThis)
                || s.contains(EsFeature::ForInMechanics)
                || s.contains(EsFeature::OptionalChaining)
                || s.contains(EsFeature::NullishCoalescingOperator)
        },
        EsVersion::ES12 => {
            s.contains(EsFeature::PromiseAny)
                || s.contains(EsFeature::LogicalAssignmentOperators)
                || s.contains(EsFeature::NumericSeparators)
        },
        EsVersion::ES13 => {
            s.contains(EsFeature::ClassFields)
                || s.contains(EsFeature::RegExpMatchIndices)
                || s.contains(EsFeature::TopLevelAwait)
                || s.contains(EsFeature::ErgonomicBrandChecksForPrivateFields)
                || s.contains(EsFeature::AccessibleObjectPrototypeHasOwnProperty)
                || s.contains(EsFeature::ClassStaticBlock)
        },
        EsVersion::ES15 => {
            s.contains(EsFeature::AtomicsWaitAsync)
                || s.contains(EsFeature::RegexpVFlagWithSetNotationAndPropertiesOfStrings)
                || s.contains(EsFeature::ArrayGrouping)
                || s.contains(EsFeature::PromiseWithResolvers)
        },
        EsVersion::ES14 | EsVersion::ES16 | EsVersion::ESNext => false,
    }
}

/// The earliest edition that has every feature of `s`, or `None` where `s`
/// holds no feature at all: it is the latest of the editions that
/// introduced a feature of `s`.
pub open spec fn minimum_edition(s: Set<EsFeature>) -> Option<EsVersion> {
    if shows_edition(s, EsVersion::ESNext) {
        Some(EsVersion::ESNext)
    } else if shows_edition(s, EsVersion::ES16) {
        Some(EsVersion::ES16)
    } else if shows_edition(s, EsVersion::ES15) {
        Some(EsVersion::ES15)
    } else if shows_edition(s, EsVersion::ES14) {
        Some(EsVersion::ES14)
    } else if shows_edition(s, EsVersion::ES13) {
        Some(EsVersion::ES13)
    } else if shows_edition(s, EsVersion::ES12) {
        Some(EsVersion::ES12)
    } else if shows_edition(s, EsVersion::ES11) {
        Some(EsVersion::ES11)
    } else if shows_edition(s, EsVersion::ES10) {
        Some(EsVersion::ES10)
    } else if shows_edition(s, EsVersion::ES9) {
        Some(EsVersion::ES9)
    } else if shows_edition(s, EsVersion::ES8) {
        Some(EsVersion::ES8)
    } else if shows_edition(s, EsVersion::ES7) {
        Some(EsVersion::ES7)
    } else {
        None
    }
}

/// What is answered to the question for the earliest edition that has every
/// feature of `s`.
pub open spec fn minimum_edition_answer(s: Set<EsFeature>) -> Result<EsVersion, Error> {
    match minimum_edition(s) {
        Some(v) => Ok(v),
        None => Err(Error::NoFeaturesDetected),
    }
}

/// The features that the program shows.
pub fn get_ecma_features(program: &Node) -> (r: FeatureSet)
    ensures
        r@ == program_features(*program),
{
    let mut finder: FeatureFinder = FeatureFinder::new();
    finder.visit_node(program);
    finder.get_result()
}

/// The earliest edition that has every feature of `features`: the latest of
/// the editions that introduced them. For the empty set the answer is
/// `Error::NoFeaturesDetected`.
pub fn min_ecma_version_of(features: &FeatureSet) -> (r: Result<EsVersion, Error>)
    ensures
        r == minimum_edition_answer(features@),
{
    match features.max() {
        Some(f) => Ok(f.version()),
        None => Err(Error::NoFeaturesDetected),
    }
}

/// The earliest edition that has every feature which the program shows. For
/// a program that shows none the answer is `Error::NoFeaturesDetected`.
pub fn get_min_ecma_version(program: &Node) -> (r: Result<EsVersion, Error>)
    ensures
        r == minimum_edition_answer(program_features(*program)),
{
    let found: FeatureSet = get_ecma_features(program);
    min_ecma_version_of(&found)
}

} // verus!
