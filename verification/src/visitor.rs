//! The detection: one walk over a syntax tree that gathers the features
//! which the tree shows.

use crate::es_features::EsFeature;
use crate::feature_set::{names_of, FeatureSet};
use crate::rules::{
    assign_op_features, await_features, bin_expr_features, binary_op_features, call_features,
    class_member_features, fn_decl_features, forest_features, has_flag, has_lookbehind,
    has_property_escape, is_bigint_conversion, lit_features, member_features, new_features,
    node_features, only, only_if, regex_features, str_arg, text_of, try_features,
};
use crate::syntax::{
    AssignOp, BinExpr, BinaryOp, CallExpr, Callee, ClassMember, ExprShape, FnDecl, Lit, MemberExpr,
    NewExpr, Node, NodeKind, Regex, TryStmt,
};
use crate::text::{contains, same_text};
use vstd::prelude::*;

verus! {

/// The state of one walk: the features found so far, and whether the walk
/// is inside a function at the moment.
#[derive(Debug)]
pub struct FeatureFinder {
    in_function: bool,
    set: FeatureSet,
}

/// Tells whether the call is `BigInt(..)` with a string or a number as its
/// first argument.
fn bigint_conversion(n: &CallExpr) -> (r: bool)
    ensures
        r == is_bigint_conversion(*n),
{
    match &n.callee {
        Callee::Ident(name) => {
            if same_text(name.as_str(), "BigInt") && n.args.len() > 0 {
                match &n.args[0] {
                    ExprShape::Str(_) => true,
                    ExprShape::Num => true,
                    _ => false,
                }
            } else {
                false
            }
        },
        _ => false,
    }
}

/// The value of the argument at position `i`, where there is such an argument
/// and it is a string literal.
fn arg_text(args: &Option<Vec<ExprShape>>, i: usize) -> (r: Option<&str>)
    ensures
        text_of(r) == str_arg(*args, i as int),
{
    match args {
        Some(v) => {
            if i < v.len() {
                match &v[i] {
                    ExprShape::Str(s) => Some(s.as_str()),
                    _ => None,
                }
            } else {
                None
            }
        },
        None => None,
    }
}

/// Tells whether `flags` is there and holds `flag`.
fn flag_given(flags: Option<&str>, flag: &str) -> (r: bool)
    ensures
        r == has_flag(text_of(flags), flag@),
{
    match flags {
        Some(text) => contains(text, flag),
        None => false,
    }
}

/// Tells whether the pattern is there and holds a lookbehind assertion.
fn lookbehind_given(exp: Option<&str>) -> (r: bool)
    ensures
        r == has_lookbehind(text_of(exp)),
{
    match exp {
        Some(text) => contains(text, "(?<=") || contains(text, "(?<!"),
        None => false,
    }
}

/// Tells whether the pattern is there and holds a Unicode property escape.
fn property_escape_given(exp: Option<&str>) -> (r: bool)
    ensures
        r == has_property_escape(text_of(exp)),
{
    match exp {
        Some(text) => contains(text, "\\p{") || contains(text, "\\P{"),
        None => false,
    }
}

impl Default for FeatureFinder {
    fn default() -> (s: FeatureFinder)
        ensures
            !s.in_function(),
            s.found() == Set::<EsFeature>::empty(),
    {
        FeatureFinder::new()
    }
}

impl FeatureFinder {
    /// Whether the walk is inside a function at the moment.
    pub closed spec fn in_function(&self) -> bool {
        self.in_function
    }

    /// The features found so far.
    pub closed spec fn found(&self) -> Set<EsFeature> {
        self.set@
    }

    /// The walk went on from `before` and added exactly `added` to what was
    /// found; it is inside a function, or not, as it was before.
    pub open spec fn grew_by(&self, before: &FeatureFinder, added: Set<EsFeature>) -> bool {
        &&& self.in_function() == before.in_function()
        &&& self.found() == before.found().union(added)
    }

    /// The state before a walk: nothing found, outside any function.
    pub fn new() -> (s: FeatureFinder)
        ensures
            !s.in_function(),
            s.found() == Set::<EsFeature>::empty(),
    {
        FeatureFinder { in_function: false, set: FeatureSet::new() }
    }

    /// The features found so far, as a set of its own.
    pub fn get_result(&self) -> (r: FeatureSet)
        ensures
            r@ == self.found(),
    {
        self.set.clone()
    }

    /// The names of the features found so far, one after the other without
    /// anything between them, in no order that a caller may count on.
    pub fn describe(&self) -> (r: String)
        ensures
            exists|listed: Seq<EsFeature>| #[trigger]
                listed.to_set() == self.found() && listed.no_duplicates() && r@ == names_of(listed),
    {
        self.set.describe()
    }

    /// Counts `f` as found.
    fn add(&mut self, f: EsFeature)
        ensures
            final(self).grew_by(old(self), only(f)),
    {
        self.set.insert(f);
        assert(self.found() =~= old(self).found().union(only(f)));
    }

    /// Counts `f` as found where `cond` holds.
    fn add_when(&mut self, cond: bool, f: EsFeature)
        ensures
            final(self).grew_by(old(self), only_if(cond, f)),
    {
        if cond {
            self.set.insert(f);
        }
        assert(self.found() =~= old(self).found().union(only_if(cond, f)));
    }

    /// The rule for an assignment operator.
    pub fn visit_assign_op(&mut self, op: AssignOp)
        ensures
            final(self).grew_by(old(self), assign_op_features(op)),
    {
        match op {
            AssignOp::ExpAssign => {
                self.add(EsFeature::ExponentiationOperator);
            },
            AssignOp::NullishAssign | AssignOp::AndAssign | AssignOp::OrAssign => {
                self.add(EsFeature::LogicalAssignmentOperators);
            },
            AssignOp::Other => {},
        }
        assert(self.found() =~= old(self).found().union(assign_op_features(op)));
    }

    /// The rule for an `await`: outside any function it is a top-level
    /// `await`, inside a function it belongs to an asynchronous function.
    pub fn visit_await_expr(&mut self)
        ensures
            final(self).grew_by(old(self), await_features(old(self).in_function())),
    {
        if !self.in_function {
            self.add(EsFeature::TopLevelAwait);
        } else {
            self.add(EsFeature::AsyncFunctions);
        }
        assert(self.found() =~= old(self).found().union(await_features(old(self).in_function())));
    }

    /// The rule for a binary operator.
    pub fn visit_binary_op(&mut self, op: BinaryOp)
        ensures
            final(self).grew_by(old(self), binary_op_features(op)),
    {
        match op {
            BinaryOp::Exp => {
                self.add(EsFeature::ExponentiationOperator);
            },
            BinaryOp::NullishCoalescing => {
                self.add(EsFeature::NullishCoalescingOperator);
            },
            _ => {},
        }
        assert(self.found() =~= old(self).found().union(binary_op_features(op)));
    }

    /// The rules for a binary expression: a private name to the left of `in`
    /// checks whether an object has a private field; the operator has rules
    /// of its own.
    pub fn visit_bin_expr(&mut self, n: &BinExpr)
        ensures
            final(self).grew_by(old(self), bin_expr_features(*n)),
    {
        let brand_check: bool = match (&n.left, n.op) {
            (ExprShape::PrivateName, BinaryOp::In) => true,
            _ => false,
        };
        self.add_when(brand_check, EsFeature::ErgonomicBrandChecksForPrivateFields);
        self.visit_binary_op(n.op);
        assert(self.found() =~= old(self).found().union(bin_expr_features(*n)));
    }

    /// The rules for a call expression. A method counts only on the receiver
    /// that its rule names: the plain identifier of that name or, for
    /// `groupBy`, an array literal as well.
    pub fn visit_call_expr(&mut self, n: &CallExpr)
        ensures
            final(self).grew_by(old(self), call_features(*n)),
    {
        let c: &Callee = &n.callee;
        self.add_when(
            c.is_method_of("Object", "values") || c.is_method_of("Object", "entries"),
            EsFeature::ObjectValuesEntries,
        );
        self.add_when(
            c.is_method_of_array("groupBy") || c.is_method_of("Object", "groupBy")
                || c.is_method_of("Map", "groupBy"),
            EsFeature::ArrayGrouping,
        );
        self.add_when(
            c.is_method_of("Object", "getOwnPropertyDescriptors"),
            EsFeature::ObjectGetOwnPropertyDescriptors,
        );
        self.add_when(
            c.is_method_of("Object", "hasOwn"),
            EsFeature::AccessibleObjectPrototypeHasOwnProperty,
        );
        self.add_when(c.is_method_of("Object", "fromEntries"), EsFeature::ObjectFromEntries);
        self.add_when(c.is_method_of("Promise", "allSettled"), EsFeature::PromiseAllSettled);
        self.add_when(c.is_method_of("Promise", "any"), EsFeature::PromiseAny);
        self.add_when(
            c.is_method_of("Promise", "withResolvers"),
            EsFeature::PromiseWithResolvers,
        );
        self.add_when(c.is_method_of("Atomics", "waitAsync"), EsFeature::AtomicsWaitAsync);
        self.add_when(bigint_conversion(n), EsFeature::BigInt);
        assert(self.found() =~= old(self).found().union(call_features(*n)));
    }

    /// The rule for a member of a class.
    pub fn visit_class_member(&mut self, m: ClassMember)
        ensures
            final(self).grew_by(old(self), class_member_features(m)),
    {
        match m {
            ClassMember::PrivateMethod | ClassMember::PrivateProp | ClassMember::ClassProp => {
                self.add(EsFeature::ClassFields);
            },
            ClassMember::Method { is_static } => {
                if is_static {
                    self.add(EsFeature::ClassFields);
                }
            },
            _ => {},
        }
        assert(self.found() =~= old(self).found().union(class_member_features(m)));
    }

    /// The rule for an optional chain.
    pub fn visit_opt_chain_expr(&mut self)
        ensures
            final(self).grew_by(old(self), only(EsFeature::OptionalChaining)),
    {
        self.add(EsFeature::OptionalChaining);
    }

    /// The rule for a function declaration.
    pub fn visit_fn_decl(&mut self, n: FnDecl)
        ensures
            final(self).grew_by(old(self), fn_decl_features(n)),
    {
        self.add_when(n.is_async, EsFeature::AsyncFunctions);
    }

    /// The rule for a `for`-`in` statement: every one counts.
    pub fn visit_for_in_stmt(&mut self)
        ensures
            final(self).grew_by(old(self), only(EsFeature::ForInMechanics)),
    {
        self.add(EsFeature::ForInMechanics);
    }

    /// The rules for a literal.
    pub fn visit_lit(&mut self, n: &Lit)
        ensures
            final(self).grew_by(old(self), lit_features(*n)),
    {
        match n {
            Lit::BigInt => {
                self.add(EsFeature::BigInt);
            },
            Lit::Num { raw: Some(text) } => {
                self.add_when(contains(text.as_str(), "_"), EsFeature::NumericSeparators);
            },
            _ => {},
        }
        assert(self.found() =~= old(self).found().union(lit_features(*n)));
    }

    /// The rule for a member access.
    pub fn visit_member_expr(&mut self, n: &MemberExpr)
        ensures
            final(self).grew_by(old(self), member_features(*n)),
    {
        self.add_when(n.obj.is_ident("globalThis"), EsFeature::GlobalThis);
    }

    /// The rules for a regular expression, on the text of its pattern and
    /// its flags, each as far as it is known.
    pub fn visit_regex_parts(&mut self, exp: Option<&str>, flags: Option<&str>)
        ensures
            final(self).grew_by(old(self), regex_features(text_of(exp), text_of(flags))),
    {
        self.add_when(flag_given(flags, "s"), EsFeature::SDotAllFlagForRegularExpressions);
        self.add_when(flag_given(flags, "d"), EsFeature::RegExpMatchIndices);
        self.add_when(
            flag_given(flags, "v"),
            EsFeature::RegexpVFlagWithSetNotationAndPropertiesOfStrings,
        );
        self.add_when(lookbehind_given(exp), EsFeature::RegExpLookbehindAssertions);
        self.add_when(
            property_escape_given(exp) && flag_given(flags, "u"),
            EsFeature::RegExpUnicodePropertyEscapes,
        );
        assert(self.found() =~= old(self).found().union(
            regex_features(text_of(exp), text_of(flags)),
        ));
    }

    /// The rules for a regular expression literal.
    pub fn visit_regex(&mut self, n: &Regex)
        ensures
            final(self).grew_by(old(self), regex_features(Some(n.exp@), Some(n.flags@))),
    {
        self.visit_regex_parts(Some(n.exp.as_str()), Some(n.flags.as_str()));
    }

    /// The rules for a `new` expression. For `new RegExp(..)` the pattern and
    /// the flags are read from the first two arguments, each where it is
    /// there and is a string literal.
    pub fn visit_new_expr(&mut self, n: &NewExpr)
        ensures
            final(self).grew_by(old(self), new_features(*n)),
    {
        self.add_when(n.callee.is_ident("SharedArrayBuffer"), EsFeature::SharedMemoryAndAtomics);
        if n.callee.is_ident("RegExp") {
            let exp: Option<&str> = arg_text(&n.args, 0);
            let flags: Option<&str> = arg_text(&n.args, 1);
            self.visit_regex_parts(exp, flags);
        }
        assert(self.found() =~= old(self).found().union(new_features(*n)));
    }

    /// The rule for a rest pattern.
    pub fn visit_rest_pat(&mut self)
        ensures
            final(self).grew_by(old(self), only(EsFeature::RestSpreadProperties)),
    {
        self.add(EsFeature::RestSpreadProperties);
    }

    /// The rule for a spread element.
    pub fn visit_spread_element(&mut self)
        ensures
            final(self).grew_by(old(self), only(EsFeature::RestSpreadProperties)),
    {
        self.add(EsFeature::RestSpreadProperties);
    }

    /// The rule for a static initialisation block.
    pub fn visit_static_block(&mut self)
        ensures
            final(self).grew_by(old(self), only(EsFeature::ClassStaticBlock)),
    {
        self.add(EsFeature::ClassStaticBlock);
    }

    /// The rule for a `try` statement.
    pub fn visit_try_stmt(&mut self, n: TryStmt)
        ensures
            final(self).grew_by(old(self), try_features(n)),
    {
        let unbound: bool = match n.handler {
            Some(h) => !h.has_param,
            None => false,
        };
        self.add_when(unbound, EsFeature::OptionalCatchBinding);
    }

    /// Walks through the trees under `children`, one after the other, all
    /// in the context in which the walk stands.
    pub fn visit_children(&mut self, children: &Vec<Node>)
        ensures
            final(self).grew_by(
                old(self),
                forest_features(children@, old(self).in_function()),
            ),
        decreases children, 0nat,
    {
        let ghost inside = self.in_function();
        let mut i: usize = 0;
        assert(self.found() =~= self.found().union(forest_features(children@.take(0), inside)));
        while i < children.len()
            invariant
                i <= children.len(),
                self.grew_by(old(self), forest_features(children@.take(i as int), inside)),
                inside == old(self).in_function(),
            decreases children.len() - i,
        {
            self.visit_node(&children[i]);
            proof {
                let upto = children@.take(i + 1);
                assert(upto.drop_last() =~= children@.take(i as int));
                assert(self.found() =~= old(self).found().union(forest_features(upto, inside)));
            }
            i += 1;
        }
        assert(children@.take(children.len() as int) =~= children@);
    }

    /// Walks through what stands below an arrow function: all of it is
    /// inside a function. Afterwards the walk is where it was before.
    pub fn visit_arrow_expr(&mut self, children: &Vec<Node>)
        ensures
            final(self).grew_by(old(self), forest_features(children@, true)),
        decreases children, 1nat,
    {
        let prev_in_function: bool = self.in_function;
        self.in_function = true;
        self.visit_children(children);
        self.in_function = prev_in_function;
    }

    /// Walks through what stands below a function: all of it is inside a
    /// function. Afterwards the walk is where it was before.
    pub fn visit_function(&mut self, children: &Vec<Node>)
        ensures
            final(self).grew_by(old(self), forest_features(children@, true)),
        decreases children, 1nat,
    {
        let prev_in_function: bool = self.in_function;
        self.in_function = true;
        self.visit_children(children);
        self.in_function = prev_in_function;
    }

    /// Walks through the tree under `n`: applies the rules of its kind to
    /// `n`, then walks through what stands below it.
    pub fn visit_node(&mut self, n: &Node)
        ensures
            final(self).grew_by(old(self), node_features(*n, old(self).in_function())),
        decreases n, 0nat,
    {
        match &n.kind {
            NodeKind::Arrow => {
                self.visit_arrow_expr(&n.children);
                assert(node_features(*n, old(self).in_function()) =~= forest_features(
                    n.children@,
                    true,
                ));
                return ;
            },
            NodeKind::Function => {
                self.visit_function(&n.children);
                assert(node_features(*n, old(self).in_function()) =~= forest_features(
                    n.children@,
                    true,
                ));
                return ;
            },
            NodeKind::Assign(op) => self.visit_assign_op(*op),
            NodeKind::Await => self.visit_await_expr(),
            NodeKind::Bin(e) => self.visit_bin_expr(e),
            NodeKind::Call(e) => self.visit_call_expr(e),
            NodeKind::ClassMember(m) => self.visit_class_member(*m),
            NodeKind::FnDecl(d) => self.visit_fn_decl(*d),
            NodeKind::ForIn => self.visit_for_in_stmt(),
            NodeKind::Lit(l) => self.visit_lit(l),
            NodeKind::Member(e) => self.visit_member_expr(e),
            NodeKind::New(e) => self.visit_new_expr(e),
            NodeKind::OptChain => self.visit_opt_chain_expr(),
            NodeKind::Regex(r) => self.visit_regex(r),
            NodeKind::RestPat => self.visit_rest_pat(),
            NodeKind::SpreadElement => self.visit_spread_element(),
            NodeKind::StaticBlock => self.visit_static_block(),
            NodeKind::Try(t) => self.visit_try_stmt(*t),
            NodeKind::Other => {},
        }
        self.visit_children(&n.children);
        assert(self.found() =~= old(self).found().union(
            node_features(*n, old(self).in_function()),
        ));
    }
}

} // verus!
