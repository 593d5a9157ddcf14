//! For every feature of the catalog a smallest tree that shows it: one node,
//! which shows that feature and no other.

use crate::es_features::EsFeature;
use crate::program_features;
use crate::rules::{
    call_features, has_flag, has_lookbehind, has_property_escape, only, regex_features,
};
use crate::syntax::{
    is_method_of, AssignOp, BinExpr, BinaryOp, CallExpr, Callee, CatchClause, ClassMember,
    ExprShape, FnDecl, Lit, MemberExpr, NewExpr, Node, NodeKind, Regex, TryStmt,
};
use crate::text::{lemma_longer_occurs_nowhere, lemma_same_length_occurs, occurs_at};
use vstd::prelude::*;

verus! {

/// The call `obj.prop()`, without arguments.
fn method_call(obj: &str, prop: &str) -> (c: CallExpr)
    ensures
        is_method_of(c.callee, obj@, prop@),
        c.args@.len() == 0,
{
    CallExpr {
        callee: Callee::Member { obj: ExprShape::Ident(obj.to_owned()), prop: Some(prop.to_owned()) },
        args: Vec::new(),
    }
}

/// The receivers that the rules for calls name are all different, and so
/// are the methods that the rules look for on one receiver.
proof fn lemma_names_differ()
    ensures
        "Object"@ != "Map"@,
        "Object"@ != "Promise"@,
        "Object"@ != "Atomics"@,
        "Promise"@ != "Atomics"@,
        "Promise"@ != "Map"@,
        "Atomics"@ != "Map"@,
        "values"@ != "entries"@,
        "values"@ != "groupBy"@,
        "values"@ != "getOwnPropertyDescriptors"@,
        "values"@ != "hasOwn"@,
        "values"@ != "fromEntries"@,
        "entries"@ != "groupBy"@,
        "entries"@ != "getOwnPropertyDescriptors"@,
        "entries"@ != "hasOwn"@,
        "entries"@ != "fromEntries"@,
        "groupBy"@ != "getOwnPropertyDescriptors"@,
        "groupBy"@ != "hasOwn"@,
        "groupBy"@ != "fromEntries"@,
        "getOwnPropertyDescriptors"@ != "hasOwn"@,
        "getOwnPropertyDescriptors"@ != "fromEntries"@,
        "hasOwn"@ != "fromEntries"@,
        "allSettled"@ != "any"@,
        "allSettled"@ != "withResolvers"@,
        "any"@ != "withResolvers"@,
{
    reveal_strlit("Object");
    reveal_strlit("Map");
    reveal_strlit("Promise");
    reveal_strlit("Atomics");
    reveal_strlit("values");
    reveal_strlit("entries");
    reveal_strlit("groupBy");
    reveal_strlit("getOwnPropertyDescriptors");
    reveal_strlit("hasOwn");
    reveal_strlit("fromEntries");
    reveal_strlit("allSettled");
    reveal_strlit("any");
    reveal_strlit("withResolvers");
    assert("Object"@.len() == 6 && "Map"@.len() == 3);
    assert("getOwnPropertyDescriptors"@.len() == 25 && "fromEntries"@.len() == 11);
    assert("allSettled"@.len() == 10 && "any"@.len() == 3);
    assert("Promise"@[0] == 'P' && "Atomics"@[0] == 'A');
    assert("values"@[0] == 'v' && "hasOwn"@[0] == 'h');
    assert("entries"@[0] == 'e' && "groupBy"@[0] == 'g');
}

/// A call of a method that one rule names shows the feature of that rule
/// and no other.
fn call_example(f: EsFeature) -> (c: CallExpr)
    requires
        f == EsFeature::ObjectValuesEntries || f == EsFeature::ObjectGetOwnPropertyDescriptors
            || f == EsFeature::AccessibleObjectPrototypeHasOwnProperty || f
            == EsFeature::ObjectFromEntries || f == EsFeature::PromiseAllSettled || f
            == EsFeature::PromiseAny || f == EsFeature::PromiseWithResolvers || f
            == EsFeature::AtomicsWaitAsync || f == EsFeature::ArrayGrouping,
    ensures
        call_features(c) == only(f),
{
    let c: CallExpr = match f {
        EsFeature::ObjectValuesEntries => method_call("Object", "values"),
        EsFeature::ObjectGetOwnPropertyDescriptors => method_call(
            "Object",
            "getOwnPropertyDescriptors",
        ),
        EsFeature::AccessibleObjectPrototypeHasOwnProperty => method_call("Object", "hasOwn"),
        EsFeature::ObjectFromEntries => method_call("Object", "fromEntries"),
        EsFeature::PromiseAllSettled => method_call("Promise", "allSettled"),
        EsFeature::PromiseAny => method_call("Promise", "any"),
        EsFeature::PromiseWithResolvers => method_call("Promise", "withResolvers"),
        EsFeature::AtomicsWaitAsync => method_call("Atomics", "waitAsync"),
        _ => method_call("Map", "groupBy"),
    };
    proof {
        lemma_names_differ();
    }
    c
}

/// A regular expression literal with the given pattern and flags.
fn regex(exp: &str, flags: &str) -> (r: Regex)
    ensures
        r.exp@ == exp@,
        r.flags@ == flags@,
{
    Regex { exp: exp.to_owned(), flags: flags.to_owned() }
}

/// The texts that the rules for regular expressions look for: how long each
/// is, and that no two of one length are the same.
proof fn lemma_marks_differ()
    ensures
        ""@.len() == 0,
        "s"@.len() == 1,
        "d"@.len() == 1,
        "v"@.len() == 1,
        "u"@.len() == 1,
        "(?<="@.len() == 4,
        "(?<!"@.len() == 4,
        "\\p{"@.len() == 3,
        "\\P{"@.len() == 3,
        "s"@ != "d"@,
        "s"@ != "v"@,
        "s"@ != "u"@,
        "d"@ != "v"@,
        "d"@ != "u"@,
        "v"@ != "u"@,
        "(?<="@ != "(?<!"@,
        "\\p{"@ != "\\P{"@,
{
    reveal_strlit("");
    reveal_strlit("s");
    reveal_strlit("d");
    reveal_strlit("v");
    reveal_strlit("u");
    reveal_strlit("(?<=");
    reveal_strlit("(?<!");
    reveal_strlit("\\p{");
    reveal_strlit("\\P{");
    assert("s"@[0] == 's' && "d"@[0] == 'd' && "v"@[0] == 'v' && "u"@[0] == 'u');
    assert("(?<="@[3] == '=' && "(?<!"@[3] == '!');
    assert("\\p{"@[1] == 'p' && "\\P{"@[1] == 'P');
}

/// Which flags a text of one character holds, and that the empty text
/// holds none.
proof fn lemma_flags_held(flags: Seq<char>)
    requires
        flags.len() <= 1,
    ensures
        has_flag(Some(flags), "s"@) <==> flags == "s"@,
        has_flag(Some(flags), "d"@) <==> flags == "d"@,
        has_flag(Some(flags), "v"@) <==> flags == "v"@,
        has_flag(Some(flags), "u"@) <==> flags == "u"@,
{
    lemma_marks_differ();
    if flags.len() == 1 {
        lemma_same_length_occurs(flags, "s"@);
        lemma_same_length_occurs(flags, "d"@);
        lemma_same_length_occurs(flags, "v"@);
        lemma_same_length_occurs(flags, "u"@);
    }
}

/// What a pattern holds that is empty or is one of the texts looked for.
proof fn lemma_pattern_holds(exp: Seq<char>)
    requires
        exp == ""@ || exp == "(?<="@ || exp == "\\p{"@,
    ensures
        has_lookbehind(Some(exp)) <==> exp == "(?<="@,
        exp != "(?<="@ ==> (has_property_escape(Some(exp)) <==> exp == "\\p{"@),
{
    lemma_marks_differ();
    if exp.len() == 4 {
        lemma_same_length_occurs(exp, "(?<="@);
        lemma_same_length_occurs(exp, "(?<!"@);
    } else {
        lemma_longer_occurs_nowhere(exp, "(?<="@);
        lemma_longer_occurs_nowhere(exp, "(?<!"@);
        if exp.len() == 3 {
            lemma_same_length_occurs(exp, "\\p{"@);
            lemma_same_length_occurs(exp, "\\P{"@);
        } else {
            lemma_longer_occurs_nowhere(exp, "\\p{"@);
            lemma_longer_occurs_nowhere(exp, "\\P{"@);
        }
    }
}

/// A regular expression literal that shows one feature and no other.
fn regex_example(f: EsFeature) -> (r: Regex)
    requires
        f == EsFeature::SDotAllFlagForRegularExpressions || f == EsFeature::RegExpMatchIndices
            || f == EsFeature::RegexpVFlagWithSetNotationAndPropertiesOfStrings || f
            == EsFeature::RegExpLookbehindAssertions || f
            == EsFeature::RegExpUnicodePropertyEscapes,
    ensures
        regex_features(Some(r.exp@), Some(r.flags@)) == only(f),
{
    let r: Regex = match f {
        EsFeature::SDotAllFlagForRegularExpressions => regex("", "s"),
        EsFeature::RegExpMatchIndices => regex("", "d"),
        EsFeature::RegexpVFlagWithSetNotationAndPropertiesOfStrings => regex("", "v"),
        EsFeature::RegExpLookbehindAssertions => regex("(?<=", ""),
        _ => regex("\\p{", "u"),
    };
    proof {
        lemma_marks_differ();
        lemma_flags_held(r.flags@);
        lemma_pattern_holds(r.exp@);
    }
    r
}

/// A tree of one node that shows the feature `f` and no other: for every
/// feature of the catalog there is a rule that finds it.
pub fn example(f: EsFeature) -> (tree: Node)
    ensures
        program_features(tree) == only(f),
        tree.children@.len() == 0,
{
    let kind: NodeKind = match f {
        EsFeature::ExponentiationOperator => NodeKind::Assign(AssignOp::ExpAssign),
        EsFeature::ObjectValuesEntries
        | EsFeature::ObjectGetOwnPropertyDescriptors
        | EsFeature::AccessibleObjectPrototypeHasOwnProperty
        | EsFeature::ObjectFromEntries
        | EsFeature::PromiseAllSettled
        | EsFeature::PromiseAny
        | EsFeature::PromiseWithResolvers
        | EsFeature::AtomicsWaitAsync
        | EsFeature::ArrayGrouping => NodeKind::Call(call_example(f)),
        EsFeature::AsyncFunctions => NodeKind::FnDecl(FnDecl { is_async: true }),
        EsFeature::SharedMemoryAndAtomics => {
            proof {
                reveal_strlit("SharedArrayBuffer");
                reveal_strlit("RegExp");
            }
            NodeKind::New(
                NewExpr { callee: ExprShape::Ident("SharedArrayBuffer".to_owned()), args: None },
            )
        },
        EsFeature::SDotAllFlagForRegularExpressions
        | EsFeature::RegExpMatchIndices
        | EsFeature::RegexpVFlagWithSetNotationAndPropertiesOfStrings
        | EsFeature::RegExpLookbehindAssertions
        | EsFeature::RegExpUnicodePropertyEscapes => NodeKind::Regex(regex_example(f)),
        EsFeature::RestSpreadProperties => NodeKind::RestPat,
        EsFeature::OptionalCatchBinding => NodeKind::Try(
            TryStmt { handler: Some(CatchClause { has_param: false }) },
        ),
        EsFeature::BigInt => NodeKind::Lit(Lit::BigInt),
        EsFeature::GlobalThis => NodeKind::Member(
            MemberExpr { obj: ExprShape::Ident("globalThis".to_owned()) },
        ),
        EsFeature::ForInMechanics => NodeKind::ForIn,
        EsFeature::OptionalChaining => NodeKind::OptChain,
        EsFeature::NullishCoalescingOperator => NodeKind::Bin(
            BinExpr { op: BinaryOp::NullishCoalescing, left: ExprShape::Other },
        ),
        EsFeature::LogicalAssignmentOperators => NodeKind::Assign(AssignOp::NullishAssign),
        EsFeature::NumericSeparators => {
            proof {
                reveal_strlit("1_000");
                reveal_strlit("_");
                assert(occurs_at("1_000"@, "_"@, 1));
            }
            NodeKind::Lit(Lit::Num { raw: Some("1_000".to_owned()) })
        },
        EsFeature::ClassFields => NodeKind::ClassMember(ClassMember::ClassProp),
        EsFeature::TopLevelAwait => NodeKind::Await,
        EsFeature::ErgonomicBrandChecksForPrivateFields => NodeKind::Bin(
            BinExpr { op: BinaryOp::In, left: ExprShape::PrivateName },
        ),
        EsFeature::ClassStaticBlock => NodeKind::StaticBlock,
    };
    Node::leaf(kind)
}

} // verus!
