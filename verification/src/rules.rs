//! Which features a node of the syntax tree shows, kind by kind, and which
//! features a whole tree shows.
//!
//! A rule looks at one node and at the context in which the node stands. The
//! rules of a kind add up: a node may show none, one or several features.

use crate::es_features::EsFeature;
use crate::syntax::{
    is_ident, is_method_of, is_method_of_array, AssignOp, BinExpr, BinaryOp, CallExpr, Callee,
    ClassMember, ExprShape, FnDecl, Lit, MemberExpr, NewExpr, Node, NodeKind, TryStmt,
};
use crate::text::occurs_in;
use vstd::prelude::*;

verus! {

/// The set that holds `f` alone.
pub open spec fn only(f: EsFeature) -> Set<EsFeature> {
    Set::<EsFeature>::empty().insert(f)
}

/// The set that holds `f` alone where `cond` holds, and nothing where not.
pub open spec fn only_if(cond: bool, f: EsFeature) -> Set<EsFeature> {
    if cond {
        only(f)
    } else {
        Set::<EsFeature>::empty()
    }
}

/// The view of a text that may be missing.
pub open spec fn text_of(t: Option<&str>) -> Option<Seq<char>> {
    match t {
        Some(text) => Some(text@),
        None => None,
    }
}

/// The value of the argument at position `i`, where there is such an argument
/// and it is a string literal.
pub open spec fn str_arg(args: Option<Vec<ExprShape>>, i: int) -> Option<Seq<char>> {
    match args {
        Some(v) => if 0 <= i < v@.len() {
            match v@[i] {
                ExprShape::Str(s) => Some(s@),
                _ => None,
            }
        } else {
            None
        },
        None => None,
    }
}

/// The features of an assignment operator.
pub open spec fn assign_op_features(op: AssignOp) -> Set<EsFeature> {
    only_if(op is ExpAssign, EsFeature::ExponentiationOperator).union(
        only_if(
            op is NullishAssign || op is AndAssign || op is OrAssign,
            EsFeature::LogicalAssignmentOperators,
        ),
    )
}

/// The feature of an `await`: which one depends on whether it stands inside
/// a function.
pub open spec fn await_features(in_function: bool) -> Set<EsFeature> {
    only_if(!in_function, EsFeature::TopLevelAwait).union(
        only_if(in_function, EsFeature::AsyncFunctions),
    )
}

/// The features of a binary operator.
pub open spec fn binary_op_features(op: BinaryOp) -> Set<EsFeature> {
    only_if(op is Exp, EsFeature::ExponentiationOperator).union(
        only_if(op is NullishCoalescing, EsFeature::NullishCoalescingOperator),
    )
}

/// The features of a binary expression: the check whether an object has a
/// private field, and what its operator shows.
pub open spec fn bin_expr_features(n: BinExpr) -> Set<EsFeature> {
    only_if(
        n.left is PrivateName && n.op is In,
        EsFeature::ErgonomicBrandChecksForPrivateFields,
    ).union(binary_op_features(n.op))
}

/// The call is `BigInt(..)` with a string or a number as its first argument.
pub open spec fn is_bigint_conversion(n: CallExpr) -> bool {
    &&& n.callee matches Callee::Ident(name)
    &&& name@ == "BigInt"@
    &&& n.args@.len() > 0
    &&& (n.args@[0] is Str || n.args@[0] is Num)
}

/// The features of a call expression.
pub open spec fn call_features(n: CallExpr) -> Set<EsFeature> {
    let c = n.callee;
    only_if(
        is_method_of(c, "Object"@, "values"@) || is_method_of(c, "Object"@, "entries"@),
        EsFeature::ObjectValuesEntries,
    ).union(
        only_if(
            is_method_of_array(c, "groupBy"@) || is_method_of(c, "Object"@, "groupBy"@)
                || is_method_of(c, "Map"@, "groupBy"@),
            EsFeature::ArrayGrouping,
        ),
    ).union(
        only_if(
            is_method_of(c, "Object"@, "getOwnPropertyDescriptors"@),
            EsFeature::ObjectGetOwnPropertyDescriptors,
        ),
    ).union(
        only_if(
            is_method_of(c, "Object"@, "hasOwn"@),
            EsFeature::AccessibleObjectPrototypeHasOwnProperty,
        ),
    ).union(only_if(is_method_of(c, "Object"@, "fromEntries"@), EsFeature::ObjectFromEntries)).union(
        only_if(is_method_of(c, "Promise"@, "allSettled"@), EsFeature::PromiseAllSettled),
    ).union(only_if(is_method_of(c, "Promise"@, "any"@), EsFeature::PromiseAny)).union(
        only_if(is_method_of(c, "Promise"@, "withResolvers"@), EsFeature::PromiseWithResolvers),
    ).union(only_if(is_method_of(c, "Atomics"@, "waitAsync"@), EsFeature::AtomicsWaitAsync)).union(
        only_if(is_bigint_conversion(n), EsFeature::BigInt),
    )
}

/// The feature of a class member: fields, private members and static
/// methods show it.
pub open spec fn class_member_features(m: ClassMember) -> Set<EsFeature> {
    only_if(
        m is PrivateMethod || m is PrivateProp || m is ClassProp || m == (ClassMember::Method {
            is_static: true,
        }),
        EsFeature::ClassFields,
    )
}

/// The feature of a function declaration.
pub open spec fn fn_decl_features(n: FnDecl) -> Set<EsFeature> {
    only_if(n.is_async, EsFeature::AsyncFunctions)
}

/// The literal is a number whose text is known and holds the separator `_`.
pub open spec fn has_separator(n: Lit) -> bool {
    n matches Lit::Num { raw: Some(text) } && occurs_in(text@, "_"@)
}

/// The features of a literal.
pub open spec fn lit_features(n: Lit) -> Set<EsFeature> {
    only_if(n is BigInt, EsFeature::BigInt).union(
        only_if(has_separator(n), EsFeature::NumericSeparators),
    )
}

/// The feature of a member access.
pub open spec fn member_features(n: MemberExpr) -> Set<EsFeature> {
    only_if(is_ident(n.obj, "globalThis"@), EsFeature::GlobalThis)
}

/// `flags` is there and holds `flag`.
pub open spec fn has_flag(flags: Option<Seq<char>>, flag: Seq<char>) -> bool {
    flags matches Some(text) && occurs_in(text, flag)
}

/// The pattern is there and holds a lookbehind assertion.
pub open spec fn has_lookbehind(exp: Option<Seq<char>>) -> bool {
    exp matches Some(text) && (occurs_in(text, "(?<="@) || occurs_in(text, "(?<!"@))
}

/// The pattern is there and holds a Unicode property escape.
pub open spec fn has_property_escape(exp: Option<Seq<char>>) -> bool {
    exp matches Some(text) && (occurs_in(text, "\\p{"@) || occurs_in(text, "\\P{"@))
}

/// The features of a regular expression, from the text of its pattern and
/// its flags, each as far as it is known. A flag shows its feature by
/// itself; a Unicode property escape counts only together with the flag `u`.
pub open spec fn regex_features(exp: Option<Seq<char>>, flags: Option<Seq<char>>) -> Set<
    EsFeature,
> {
    only_if(has_flag(flags, "s"@), EsFeature::SDotAllFlagForRegularExpressions).union(
        only_if(has_flag(flags, "d"@), EsFeature::RegExpMatchIndices),
    ).union(
        only_if(
            has_flag(flags, "v"@),
            EsFeature::RegexpVFlagWithSetNotationAndPropertiesOfStrings,
        ),
    ).union(only_if(has_lookbehind(exp), EsFeature::RegExpLookbehindAssertions)).union(
        only_if(
            has_property_escape(exp) && has_flag(flags, "u"@),
            EsFeature::RegExpUnicodePropertyEscapes,
        ),
    )
}

/// The features of a `new` expression: shared memory, and what a regular
/// expression made by `new RegExp(pattern, flags)` shows where the pattern
/// and the flags are string literals.
pub open spec fn new_features(n: NewExpr) -> Set<EsFeature> {
    only_if(is_ident(n.callee, "SharedArrayBuffer"@), EsFeature::SharedMemoryAndAtomics).union(
        if is_ident(n.callee, "RegExp"@) {
            regex_features(str_arg(n.args, 0), str_arg(n.args, 1))
        } else {
            Set::<EsFeature>::empty()
        },
    )
}

/// The feature of a `try` statement: a `catch` clause without a parameter.
pub open spec fn try_features(n: TryStmt) -> Set<EsFeature> {
    only_if(n.handler matches Some(h) && !h.has_param, EsFeature::OptionalCatchBinding)
}

/// The features that a node of kind `kind` shows by itself, where it stands
/// inside a function or not as `in_function` says.
pub open spec fn kind_features(kind: NodeKind, in_function: bool) -> Set<EsFeature> {
    match kind {
        NodeKind::Arrow => Set::<EsFeature>::empty(),
        NodeKind::Assign(op) => assign_op_features(op),
        NodeKind::Await => await_features(in_function),
        NodeKind::Bin(n) => bin_expr_features(n),
        NodeKind::Call(n) => call_features(n),
        NodeKind::ClassMember(m) => class_member_features(m),
        NodeKind::FnDecl(n) => fn_decl_features(n),
        NodeKind::ForIn => only(EsFeature::ForInMechanics),
        NodeKind::Function => Set::<EsFeature>::empty(),
        NodeKind::Lit(n) => lit_features(n),
        NodeKind::Member(n) => member_features(n),
        NodeKind::New(n) => new_features(n),
        NodeKind::OptChain => only(EsFeature::OptionalChaining),
        NodeKind::Regex(n) => regex_features(Some(n.exp@), Some(n.flags@)),
        NodeKind::RestPat => only(EsFeature::RestSpreadProperties),
        NodeKind::SpreadElement => only(EsFeature::RestSpreadProperties),
        NodeKind::StaticBlock => only(EsFeature::ClassStaticBlock),
        NodeKind::Try(n) => try_features(n),
        NodeKind::Other => Set::<EsFeature>::empty(),
    }
}

/// The features that the tree under `n` shows: those of `n` itself and
/// those of every node below it, each in its own context. What stands below
/// a function is inside a function; everything else is where its parent is.
pub open spec fn node_features(n: Node, in_function: bool) -> Set<EsFeature>
    decreases n, 0nat,
{
    kind_features(n.kind, in_function).union(
        forest_features(n.children@, in_function || n.kind.is_function_like()),
    )
}

/// The features that the trees under `nodes` show, all in one context.
pub open spec fn forest_features(nodes: Seq<Node>, in_function: bool) -> Set<EsFeature>
    decreases nodes, 1nat,
{
    if nodes.len() == 0 {
        Set::<EsFeature>::empty()
    } else {
        forest_features(nodes.drop_last(), in_function).union(
            node_features(nodes.last(), in_function),
        )
    }
}

} // verus!
