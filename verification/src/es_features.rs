//! The catalog of detectable features and the edition that introduced each.

use crate::es_version::EsVersion;
use std::cmp::Ordering;
use vstd::prelude::*;

verus! {

/// A feature of the language that the detection can recognise. Two values are
/// equal exactly when they name the same feature, whatever their editions.
#[derive(Clone, Copy, Debug, PartialEq, Eq, Structural, Hash)]
pub enum EsFeature {
    /// The operator `**` and its assignment form `**=`.
    ExponentiationOperator,
    /// `Object.values` and `Object.entries`.
    ObjectValuesEntries,
    /// `Object.getOwnPropertyDescriptors`.
    ObjectGetOwnPropertyDescriptors,
    /// Asynchronous functions and `await` inside a function.
    AsyncFunctions,
    /// `SharedArrayBuffer`.
    SharedMemoryAndAtomics,
    /// The flag `s` of a regular expression.
    SDotAllFlagForRegularExpressions,
    /// Rest patterns and spread elements.
    RestSpreadProperties,
    /// Lookbehind assertions in a regular expression.
    RegExpLookbehindAssertions,
    /// Unicode property escapes in a regular expression.
    RegExpUnicodePropertyEscapes,
    /// A `catch` clause that binds no parameter.
    OptionalCatchBinding,
    /// `Object.fromEntries`.
    ObjectFromEntries,
    /// Big integer literals and the conversion `BigInt(..)`.
    BigInt,
    /// `Promise.allSettled`.
    PromiseAllSettled,
    /// The global object `globalThis`.
    GlobalThis,
    /// The enumeration order of `for`-`in`.
    ForInMechanics,
    /// The optional chain `?.`.
    OptionalChaining,
    /// The operator `??`.
    NullishCoalescingOperator,
    /// `Promise.any`.
    PromiseAny,
    /// The operators `&&=`, `||=` and `??=`.
    LogicalAssignmentOperators,
    /// The separator `_` between the digits of a number.
    NumericSeparators,
    /// Fields and private members of a class.
    ClassFields,
    /// The flag `d` of a regular expression.
    RegExpMatchIndices,
    /// `await` outside any function.
    TopLevelAwait,
    /// A private name to the left of `in`.
    ErgonomicBrandChecksForPrivateFields,
    /// `Object.hasOwn`.
    AccessibleObjectPrototypeHasOwnProperty,
    /// Static initialisation blocks of a class.
    ClassStaticBlock,
    /// `Atomics.waitAsync`.
    AtomicsWaitAsync,
    /// The flag `v` of a regular expression.
    RegexpVFlagWithSetNotationAndPropertiesOfStrings,
    /// `groupBy`.
    ArrayGrouping,
    /// `Promise.withResolvers`.
    PromiseWithResolvers,
}

impl EsFeature {
    /// The edition that introduced the feature.
    pub open spec fn edition(self) -> EsVersion {
        match self {
            EsFeature::ExponentiationOperator => EsVersion::ES7,
            EsFeature::ObjectValuesEntries => EsVersion::ES8,
            EsFeature::ObjectGetOwnPropertyDescriptors => EsVersion::ES8,
            EsFeature::AsyncFunctions => EsVersion::ES8,
            EsFeature::SharedMemoryAndAtomics => EsVersion::ES8,
            EsFeature::SDotAllFlagForRegularExpressions => EsVersion::ES9,
            EsFeature::RestSpreadProperties => EsVersion::ES9,
            EsFeature::RegExpLookbehindAssertions => EsVersion::ES9,
            EsFeature::RegExpUnicodePropertyEscapes => EsVersion::ES9,
            EsFeature::OptionalCatchBinding => EsVersion::ES10,
            EsFeature::ObjectFromEntries => EsVersion::ES10,
            EsFeature::BigInt => EsVersion::ES11,
            EsFeature::PromiseAllSettled => EsVersion::ES11,
            EsFeature::GlobalThis => EsVersion::ES11,
            EsFeature::ForInMechanics => EsVersion::ES11,
            EsFeature::OptionalChaining => EsVersion::ES11,
            EsFeature::NullishCoalescingOperator => EsVersion::ES11,
            EsFeature::PromiseAny => EsVersion::ES12,
            EsFeature::LogicalAssignmentOperators => EsVersion::ES12,
            EsFeature::NumericSeparators => EsVersion::ES12,
            EsFeature::ClassFields => EsVersion::ES13,
            EsFeature::RegExpMatchIndices => EsVersion::ES13,
            EsFeature::TopLevelAwait => EsVersion::ES13,
            EsFeature::ErgonomicBrandChecksForPrivateFields => EsVersion::ES13,
            EsFeature::AccessibleObjectPrototypeHasOwnProperty => EsVersion::ES13,
            EsFeature::ClassStaticBlock => EsVersion::ES13,
            EsFeature::AtomicsWaitAsync => EsVersion::ES15,
            EsFeature::RegexpVFlagWithSetNotationAndPropertiesOfStrings => EsVersion::ES15,
            EsFeature::ArrayGrouping => EsVersion::ES15,
            EsFeature::PromiseWithResolvers => EsVersion::ES15,
        }
    }

    /// The position of the feature in the catalog, starting at 0.
    pub open spec fn index(self) -> nat {
        match self {
            EsFeature::ExponentiationOperator => 0,
            EsFeature::ObjectValuesEntries => 1,
            EsFeature::ObjectGetOwnPropertyDescriptors => 2,
            EsFeature::AsyncFunctions => 3,
            EsFeature::SharedMemoryAndAtomics => 4,
            EsFeature::SDotAllFlagForRegularExpressions => 5,
            EsFeature::RestSpreadProperties => 6,
            EsFeature::RegExpLookbehindAssertions => 7,
            EsFeature::RegExpUnicodePropertyEscapes => 8,
            EsFeature::OptionalCatchBinding => 9,
            EsFeature::ObjectFromEntries => 10,
            EsFeature::BigInt => 11,
            EsFeature::PromiseAllSettled => 12,
            EsFeature::GlobalThis => 13,
            EsFeature::ForInMechanics => 14,
            EsFeature::OptionalChaining => 15,
            EsFeature::NullishCoalescingOperator => 16,
            EsFeature::PromiseAny => 17,
            EsFeature::LogicalAssignmentOperators => 18,
            EsFeature::NumericSeparators => 19,
            EsFeature::ClassFields => 20,
            EsFeature::RegExpMatchIndices => 21,
            EsFeature::TopLevelAwait => 22,
            EsFeature::ErgonomicBrandChecksForPrivateFields => 23,
            EsFeature::AccessibleObjectPrototypeHasOwnProperty => 24,
            EsFeature::ClassStaticBlock => 25,
            EsFeature::AtomicsWaitAsync => 26,
            EsFeature::RegexpVFlagWithSetNotationAndPropertiesOfStrings => 27,
            EsFeature::ArrayGrouping => 28,
            EsFeature::PromiseWithResolvers => 29,
        }
    }

    /// The name under which the feature is shown.
    pub open spec fn label(self) -> Seq<char> {
        match self {
            EsFeature::ExponentiationOperator => "ExponentiationOperator"@,
            EsFeature::ObjectValuesEntries => "ObjectValuesEntries"@,
            EsFeature::ObjectGetOwnPropertyDescriptors => "ObjectGetOwnPropertyDescriptors"@,
            EsFeature::AsyncFunctions => "AsyncFunctions"@,
            EsFeature::SharedMemoryAndAtomics => "SharedMemoryAndAtomics"@,
            EsFeature::SDotAllFlagForRegularExpressions => "SDotAllFlagForRegularExpressions"@,
            EsFeature::RestSpreadProperties => "RestSpreadProperties"@,
            EsFeature::RegExpLookbehindAssertions => "RegExpLookbehindAssertions"@,
            EsFeature::RegExpUnicodePropertyEscapes => "RegExpUnicodePropertyEscapes"@,
            EsFeature::OptionalCatchBinding => "OptionalCatchBinding"@,
            EsFeature::ObjectFromEntries => "ObjectFromEntries"@,
            EsFeature::BigInt => "BigInt"@,
            EsFeature::PromiseAllSettled => "PromiseAllSettled"@,
            EsFeature::GlobalThis => "GlobalThis"@,
            EsFeature::ForInMechanics => "ForInMechanics"@,
            EsFeature::OptionalChaining => "OptionalChaining"@,
            EsFeature::NullishCoalescingOperator => "NullishCoalescingOperator"@,
            EsFeature::PromiseAny => "PromiseAny"@,
            EsFeature::LogicalAssignmentOperators => "LogicalAssignmentOperators"@,
            EsFeature::NumericSeparators => "NumericSeparators"@,
            EsFeature::ClassFields => "ClassFields"@,
            EsFeature::RegExpMatchIndices => "RegExpMatchIndices"@,
            EsFeature::TopLevelAwait => "TopLevelAwait"@,
            EsFeature::ErgonomicBrandChecksForPrivateFields => "ErgonomicBrandChecksForPrivateFields"@,
            EsFeature::AccessibleObjectPrototypeHasOwnProperty => "AccessibleObjectPrototypeHasOwnProperty"@,
            EsFeature::ClassStaticBlock => "ClassStaticBlock"@,
            EsFeature::AtomicsWaitAsync => "AtomicsWaitAsync"@,
            EsFeature::RegexpVFlagWithSetNotationAndPropertiesOfStrings => "RegexpVFlagWithSetNotationAndPropertiesOfStrings"@,
            EsFeature::ArrayGrouping => "ArrayGrouping"@,
            EsFeature::PromiseWithResolvers => "PromiseWithResolvers"@,
        }
    }

    /// How the edition of `self` stands to that of `other`.
    pub open spec fn order(self, other: EsFeature) -> Ordering {
        self.edition().order(other.edition())
    }

    /// The one of two features whose edition is later; `self` where both
    /// editions are the same.
    pub open spec fn later(self, other: EsFeature) -> EsFeature {
        if self.edition().rank() >= other.edition().rank() {
            self
        } else {
            other
        }
    }

    /// The edition that introduced the feature.
    pub fn version(&self) -> (r: EsVersion)
        ensures
            r == self.edition(),
    {
        match self {
            EsFeature::ExponentiationOperator => EsVersion::ES7,
            EsFeature::ObjectValuesEntries => EsVersion::ES8,
            EsFeature::ObjectGetOwnPropertyDescriptors => EsVersion::ES8,
            EsFeature::AsyncFunctions => EsVersion::ES8,
            EsFeature::SharedMemoryAndAtomics => EsVersion::ES8,
            EsFeature::SDotAllFlagForRegularExpressions => EsVersion::ES9,
            EsFeature::RestSpreadProperties => EsVersion::ES9,
            EsFeature::RegExpLookbehindAssertions => EsVersion::ES9,
            EsFeature::RegExpUnicodePropertyEscapes => EsVersion::ES9,
            EsFeature::OptionalCatchBinding => EsVersion::ES10,
            EsFeature::ObjectFromEntries => EsVersion::ES10,
            EsFeature::BigInt => EsVersion::ES11,
            EsFeature::PromiseAllSettled => EsVersion::ES11,
            EsFeature::GlobalThis => EsVersion::ES11,
            EsFeature::ForInMechanics => EsVersion::ES11,
            EsFeature::OptionalChaining => EsVersion::ES11,
            EsFeature::NullishCoalescingOperator => EsVersion::ES11,
            EsFeature::PromiseAny => EsVersion::ES12,
            EsFeature::LogicalAssignmentOperators => EsVersion::ES12,
            EsFeature::NumericSeparators => EsVersion::ES12,
            EsFeature::ClassFields => EsVersion::ES13,
            EsFeature::RegExpMatchIndices => EsVersion::ES13,
            EsFeature::TopLevelAwait => EsVersion::ES13,
            EsFeature::ErgonomicBrandChecksForPrivateFields => EsVersion::ES13,
            EsFeature::AccessibleObjectPrototypeHasOwnProperty => EsVersion::ES13,
            EsFeature::ClassStaticBlock => EsVersion::ES13,
            EsFeature::AtomicsWaitAsync => EsVersion::ES15,
            EsFeature::RegexpVFlagWithSetNotationAndPropertiesOfStrings => EsVersion::ES15,
            EsFeature::ArrayGrouping => EsVersion::ES15,
            EsFeature::PromiseWithResolvers => EsVersion::ES15,
        }
    }

    /// The name under which the feature is shown.
    pub fn name(&self) -> (r: &'static str)
        ensures
            r@ == self.label(),
    {
        match self {
            EsFeature::ExponentiationOperator => "ExponentiationOperator",
            EsFeature::ObjectValuesEntries => "ObjectValuesEntries",
            EsFeature::ObjectGetOwnPropertyDescriptors => "ObjectGetOwnPropertyDescriptors",
            EsFeature::AsyncFunctions => "AsyncFunctions",
            EsFeature::SharedMemoryAndAtomics => "SharedMemoryAndAtomics",
            EsFeature::SDotAllFlagForRegularExpressions => "SDotAllFlagForRegularExpressions",
            EsFeature::RestSpreadProperties => "RestSpreadProperties",
            EsFeature::RegExpLookbehindAssertions => "RegExpLookbehindAssertions",
            EsFeature::RegExpUnicodePropertyEscapes => "RegExpUnicodePropertyEscapes",
            EsFeature::OptionalCatchBinding => "OptionalCatchBinding",
            EsFeature::ObjectFromEntries => "ObjectFromEntries",
            EsFeature::BigInt => "BigInt",
            EsFeature::PromiseAllSettled => "PromiseAllSettled",
            EsFeature::GlobalThis => "GlobalThis",
            EsFeature::ForInMechanics => "ForInMechanics",
            EsFeature::OptionalChaining => "OptionalChaining",
            EsFeature::NullishCoalescingOperator => "NullishCoalescingOperator",
            EsFeature::PromiseAny => "PromiseAny",
            EsFeature::LogicalAssignmentOperators => "LogicalAssignmentOperators",
            EsFeature::NumericSeparators => "NumericSeparators",
            EsFeature::ClassFields => "ClassFields",
            EsFeature::RegExpMatchIndices => "RegExpMatchIndices",
            EsFeature::TopLevelAwait => "TopLevelAwait",
            EsFeature::ErgonomicBrandChecksForPrivateFields => "ErgonomicBrandChecksForPrivateFields",
            EsFeature::AccessibleObjectPrototypeHasOwnProperty => "AccessibleObjectPrototypeHasOwnProperty",
            EsFeature::ClassStaticBlock => "ClassStaticBlock",
            EsFeature::AtomicsWaitAsync => "AtomicsWaitAsync",
            EsFeature::RegexpVFlagWithSetNotationAndPropertiesOfStrings => "RegexpVFlagWithSetNotationAndPropertiesOfStrings",
            EsFeature::ArrayGrouping => "ArrayGrouping",
            EsFeature::PromiseWithResolvers => "PromiseWithResolvers",
        }
    }

    /// Compares two features by their editions alone. Features of one edition
    /// compare as equal here and are still different features under `==`.
    pub fn cmp(&self, other: &EsFeature) -> (r: Ordering)
        ensures
            r == self.order(*other),
    {
        self.version().compare(&other.version())
    }

    /// The one of two features whose edition is later; `self` where both
    /// editions are the same.
    pub fn max(self, other: EsFeature) -> (r: EsFeature)
        ensures
            r == self.later(other),
    {
        if self.version().ordinal() >= other.version().ordinal() {
            self
        } else {
            other
        }
    }

    /// Every feature of the catalog, in the order of the catalog.
    pub fn all() -> (r: Vec<EsFeature>)
        ensures
            r@.len() == 30,
            forall|f: EsFeature| #[trigger] r@[f.index() as int] == f,
    {
        vec![
            EsFeature::ExponentiationOperator,
            EsFeature::ObjectValuesEntries,
            EsFeature::ObjectGetOwnPropertyDescriptors,
            EsFeature::AsyncFunctions,
            EsFeature::SharedMemoryAndAtomics,
            EsFeature::SDotAllFlagForRegularExpressions,
            EsFeature::RestSpreadProperties,
            EsFeature::RegExpLookbehindAssertions,
            EsFeature::RegExpUnicodePropertyEscapes,
            EsFeature::OptionalCatchBinding,
            EsFeature::ObjectFromEntries,
            EsFeature::BigInt,
            EsFeature::PromiseAllSettled,
            EsFeature::GlobalThis,
            EsFeature::ForInMechanics,
            EsFeature::OptionalChaining,
            EsFeature::NullishCoalescingOperator,
            EsFeature::PromiseAny,
            EsFeature::LogicalAssignmentOperators,
            EsFeature::NumericSeparators,
            EsFeature::ClassFields,
            EsFeature::RegExpMatchIndices,
            EsFeature::TopLevelAwait,
            EsFeature::ErgonomicBrandChecksForPrivateFields,
            EsFeature::AccessibleObjectPrototypeHasOwnProperty,
            EsFeature::ClassStaticBlock,
            EsFeature::AtomicsWaitAsync,
            EsFeature::RegexpVFlagWithSetNotationAndPropertiesOfStrings,
            EsFeature::ArrayGrouping,
            EsFeature::PromiseWithResolvers,
        ]
    }
}

/// The position in the catalog tells the features apart: it is below the
/// size of the catalog, and two features at one position are the same feature.
pub proof fn lemma_index_identifies(a: EsFeature, b: EsFeature)
    ensures
        a.index() < 30,
        a.index() == b.index() <==> a == b,
{
}

/// No feature of the catalog belongs to an edition that is not yet released:
/// each has a named edition of its own.
pub proof fn lemma_edition_is_named(f: EsFeature)
    ensures
        f.edition() != EsVersion::ESNext,
        f.edition().rank() <= 8,
{
}

/// The order of two features goes by their editions and by nothing else:
/// they compare as equal exactly when one edition introduced both, whether
/// or not they are the same feature.
pub proof fn lemma_order_goes_by_edition(a: EsFeature, b: EsFeature)
    ensures
        a.order(b) == Ordering::Equal <==> a.edition() == b.edition(),
        a.order(b) == Ordering::Less <==> a.edition().rank() < b.edition().rank(),
        a == b ==> a.order(b) == Ordering::Equal,
{
}

} // verus!
