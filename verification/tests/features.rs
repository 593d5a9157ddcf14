//! The features found in sources that are parsed from text.

use js_version_checker::es_features::EsFeature;
use js_version_checker::es_version::EsVersion;
use js_version_checker::feature_set::FeatureSet;
use js_version_checker::syntax::{
    AssignOp, BinExpr, BinaryOp, CallExpr, Callee, CatchClause, ClassMember, ExprShape, FnDecl,
    Lit, MemberExpr, NewExpr, Node, NodeKind, Regex, TryStmt,
};
use js_version_checker::{get_ecma_features, get_min_ecma_version, Error};
use swc_common::sync::Lrc;
use swc_common::{BytePos, FileName, SourceFile};
use swc_ecma_ast as ast;
use swc_ecma_parser::lexer::Lexer;
use swc_ecma_parser::{EsSyntax, Parser, StringInput, Syntax};
use swc_ecma_visit::{Visit, VisitWith};

/// Builds the tree that the library reads while the parser's tree is walked
/// through: `rows` holds, for each node that is still open, the nodes found
/// below it so far.
struct Lowering {
    rows: Vec<Vec<Node>>,
}

impl Lowering {
    fn node<N: VisitWith<Lowering>>(&mut self, kind: NodeKind, n: &N) {
        self.rows.push(Vec::new());
        n.visit_children_with(self);
        let children = self.rows.pop().unwrap();
        self.rows.last_mut().unwrap().push(Node::new(kind, children));
    }
}

fn shape(e: &ast::Expr) -> ExprShape {
    match e {
        ast::Expr::Ident(i) => ExprShape::Ident(i.sym.to_string()),
        ast::Expr::Array(_) => ExprShape::Array,
        ast::Expr::Lit(ast::Lit::Str(s)) => ExprShape::Str(s.value.to_string_lossy().into_owned()),
        ast::Expr::Lit(ast::Lit::Num(_)) => ExprShape::Num,
        ast::Expr::PrivateName(_) => ExprShape::PrivateName,
        _ => ExprShape::Other,
    }
}

fn shapes(args: &[ast::ExprOrSpread]) -> Vec<ExprShape> {
    args.iter().map(|a| shape(&a.expr)).collect()
}

fn callee(c: &ast::Callee) -> Callee {
    match c {
        ast::Callee::Expr(e) => match &**e {
            ast::Expr::Ident(i) => Callee::Ident(i.sym.to_string()),
            ast::Expr::Member(m) => Callee::Member {
                obj: shape(&m.obj),
                prop: match &m.prop {
                    ast::MemberProp::Ident(i) => Some(i.sym.to_string()),
                    _ => None,
                },
            },
            _ => Callee::Other,
        },
        _ => Callee::Other,
    }
}

fn assign_op(op: ast::AssignOp) -> AssignOp {
    match op {
        ast::AssignOp::ExpAssign => AssignOp::ExpAssign,
        ast::AssignOp::AndAssign => AssignOp::AndAssign,
        ast::AssignOp::OrAssign => AssignOp::OrAssign,
        ast::AssignOp::NullishAssign => AssignOp::NullishAssign,
        _ => AssignOp::Other,
    }
}

fn binary_op(op: ast::BinaryOp) -> BinaryOp {
    match op {
        ast::BinaryOp::In => BinaryOp::In,
        ast::BinaryOp::Exp => BinaryOp::Exp,
        ast::BinaryOp::NullishCoalescing => BinaryOp::NullishCoalescing,
        _ => BinaryOp::Other,
    }
}

fn class_member(m: &ast::ClassMember) -> ClassMember {
    match m {
        ast::ClassMember::Constructor(_) => ClassMember::Constructor,
        ast::ClassMember::Method(method) => ClassMember::Method { is_static: method.is_static },
        ast::ClassMember::PrivateMethod(_) => ClassMember::PrivateMethod,
        ast::ClassMember::ClassProp(_) => ClassMember::ClassProp,
        ast::ClassMember::PrivateProp(_) => ClassMember::PrivateProp,
        ast::ClassMember::StaticBlock(_) => ClassMember::StaticBlock,
        _ => ClassMember::Other,
    }
}

fn lit(l: &ast::Lit) -> Lit {
    match l {
        ast::Lit::Num(n) => Lit::Num { raw: n.raw.as_ref().map(|r| r.to_string()) },
        ast::Lit::BigInt(_) => Lit::BigInt,
        _ => Lit::Other,
    }
}

impl Visit for Lowering {
    fn visit_arrow_expr(&mut self, n: &ast::ArrowExpr) {
        self.node(NodeKind::Arrow, n)
    }

    fn visit_assign_expr(&mut self, n: &ast::AssignExpr) {
        self.node(NodeKind::Assign(assign_op(n.op)), n)
    }

    fn visit_await_expr(&mut self, n: &ast::AwaitExpr) {
        self.node(NodeKind::Await, n)
    }

    fn visit_bin_expr(&mut self, n: &ast::BinExpr) {
        let kind = NodeKind::Bin(BinExpr { op: binary_op(n.op), left: shape(&n.left) });
        self.node(kind, n)
    }

    fn visit_call_expr(&mut self, n: &ast::CallExpr) {
        let kind = NodeKind::Call(CallExpr { callee: callee(&n.callee), args: shapes(&n.args) });
        self.node(kind, n)
    }

    fn visit_class_member(&mut self, n: &ast::ClassMember) {
        self.node(NodeKind::ClassMember(class_member(n)), n)
    }

    fn visit_expr(&mut self, n: &ast::Expr) {
        match n {
            ast::Expr::OptChain(_) => self.node(NodeKind::OptChain, n),
            _ => n.visit_children_with(self),
        }
    }

    fn visit_fn_decl(&mut self, n: &ast::FnDecl) {
        self.node(NodeKind::FnDecl(FnDecl { is_async: n.function.is_async }), n)
    }

    fn visit_for_in_stmt(&mut self, n: &ast::ForInStmt) {
        self.node(NodeKind::ForIn, n)
    }

    fn visit_function(&mut self, n: &ast::Function) {
        self.node(NodeKind::Function, n)
    }

    fn visit_lit(&mut self, n: &ast::Lit) {
        self.node(NodeKind::Lit(lit(n)), n)
    }

    fn visit_member_expr(&mut self, n: &ast::MemberExpr) {
        self.node(NodeKind::Member(MemberExpr { obj: shape(&n.obj) }), n)
    }

    fn visit_new_expr(&mut self, n: &ast::NewExpr) {
        let args = n.args.as_ref().map(|a| shapes(a));
        self.node(NodeKind::New(NewExpr { callee: shape(&n.callee), args }), n)
    }

    fn visit_regex(&mut self, n: &ast::Regex) {
        let kind = NodeKind::Regex(Regex { exp: n.exp.to_string(), flags: n.flags.to_string() });
        self.node(kind, n)
    }

    fn visit_rest_pat(&mut self, n: &ast::RestPat) {
        self.node(NodeKind::RestPat, n)
    }

    fn visit_spread_element(&mut self, n: &ast::SpreadElement) {
        self.node(NodeKind::SpreadElement, n)
    }

    fn visit_static_block(&mut self, n: &ast::StaticBlock) {
        self.node(NodeKind::StaticBlock, n)
    }

    fn visit_try_stmt(&mut self, n: &ast::TryStmt) {
        let handler = n.handler.as_ref().map(|h| CatchClause { has_param: h.param.is_some() });
        self.node(NodeKind::Try(TryStmt { handler }), n)
    }
}

/// Parses `js` and hands back the tree that the library reads.
fn parse(js: &str) -> Result<Node, Error> {
    let f = SourceFile::new(
        Lrc::new(FileName::Anon),
        false,
        Lrc::new(FileName::Anon),
        String::from(js).into(),
        BytePos(1),
    );
    let lexer = Lexer::new(
        Syntax::Es(EsSyntax { jsx: false, ..Default::default() }),
        ast::EsVersion::Es2022,
        StringInput::from(&f),
        None,
    );
    let program = Parser::new_from(lexer).parse_program().map_err(|_| Error::ParserError)?;
    let mut lowering = Lowering { rows: vec![Vec::new()] };
    program.visit_children_with(&mut lowering);
    Ok(Node::program(lowering.rows.pop().unwrap()))
}

fn features_of(js: &str) -> FeatureSet {
    let program = parse(js).expect("Failed to parse JavaScript");
    get_ecma_features(&program)
}

fn min_version_of(js: &str) -> Result<EsVersion, Error> {
    get_min_ecma_version(&parse(js)?)
}

fn assert_features(js: &str, expected_features: &[EsFeature]) {
    let features_found = features_of(js);
    println!("Found: {:?}", features_found);
    println!("Expected: {:?}", expected_features);
    expected_features
        .iter()
        .for_each(|expected_feature| assert!(features_found.contains(expected_feature)));
}

/// The features of `js` are those of `expected`, no more and no fewer.
fn assert_exactly(js: &str, expected: &[EsFeature]) {
    let found = features_of(js);
    println!("Found: {:?}", found);
    assert_eq!(found.len(), expected.len());
    for f in expected {
        assert!(found.contains(f));
    }
}

#[test]
fn test_exponentiation_operator() {
    assert_features("let x = 2 ** 3;", &[EsFeature::ExponentiationOperator]);
}

#[test]
fn test_object_values_entries() {
    assert_features(
        "Object.values(obj); Object.entries(obj);",
        &[EsFeature::ObjectValuesEntries],
    );
}

#[test]
fn test_object_get_own_property_descriptors() {
    assert_features(
        "Object.getOwnPropertyDescriptors(obj);",
        &[EsFeature::ObjectGetOwnPropertyDescriptors],
    );
}

#[test]
fn test_async_functions() {
    assert_features(
        "async function foo() {}; const bar = async () => {};",
        &[EsFeature::AsyncFunctions],
    );
}

#[test]
fn test_shared_memory_and_atomics() {
    assert_features(
        "const sharedBuffer = new SharedArrayBuffer(1024); Atomics.store(sharedBuffer, 0, 42);",
        &[EsFeature::SharedMemoryAndAtomics],
    );
}

#[test]
fn test_dotall_flag_for_regular_expressions() {
    assert_features(
        "/foo.bar/s;",
        &[EsFeature::SDotAllFlagForRegularExpressions],
    );
}

#[test]
fn test_rest_spread_properties() {
    assert_features(
        "const { a, ...rest } = obj; const obj2 = { ...obj, c: 3 };",
        &[EsFeature::RestSpreadProperties],
    );
}

#[test]
fn test_regexp_lookbehind_assertions() {
    assert_features("/(?<=foo)bar/;", &[EsFeature::RegExpLookbehindAssertions]);
}

#[test]
fn test_regexp_unicode_property_escapes() {
    assert_features(
        "/\\p{Script=Greek}/u;",
        &[EsFeature::RegExpUnicodePropertyEscapes],
    );
}

#[test]
fn test_optional_catch_binding() {
    assert_features(
        "try { throw 'error'; } catch { console.error('Caught'); }",
        &[EsFeature::OptionalCatchBinding],
    );
}

#[test]
fn test_object_from_entries() {
    assert_features(
        "const obj = Object.fromEntries(entries);",
        &[EsFeature::ObjectFromEntries],
    );
}

#[test]
fn test_bigint() {
    assert_features("const bigInt = 123n;", &[EsFeature::BigInt]);
}

#[test]
fn test_promise_all_settled() {
    assert_features(
        "Promise.allSettled(promises);",
        &[EsFeature::PromiseAllSettled],
    );
}

#[test]
fn test_global_this() {
    assert_features("globalThis.foo = 'bar';", &[EsFeature::GlobalThis]);
}

#[test]
fn test_for_in_mechanics() {
    assert_features(
        "for (const key in obj) { console.log(key); }",
        &[EsFeature::ForInMechanics],
    );
}

#[test]
fn test_optional_chaining() {
    assert_features("const value = obj?.prop;", &[EsFeature::OptionalChaining]);
}

#[test]
fn test_nullish_coalescing_operator() {
    assert_features(
        "const value = foo ?? 'default';",
        &[EsFeature::NullishCoalescingOperator],
    );
}

#[test]
fn test_promise_any() {
    assert_features("Promise.any(promises);", &[EsFeature::PromiseAny]);
}

#[test]
fn test_logical_assignment_operators() {
    assert_features(
        "a ||= b; c &&= d; e ??= f;",
        &[EsFeature::LogicalAssignmentOperators],
    );
}

#[test]
fn test_numeric_separators() {
    assert_features("const num = 1_000_000;", &[EsFeature::NumericSeparators]);
}

#[test]
fn test_class_fields() {
    assert_features(
        "class MyClass { #privateField; static staticField = 42; }",
        &[EsFeature::ClassFields],
    );
}

#[test]
fn test_regexp_match_indices() {
    assert_features("/foo/d;", &[EsFeature::RegExpMatchIndices]);
}

#[test]
fn test_top_level_await() {
    assert_features("await fetchData();", &[EsFeature::TopLevelAwait]);
}

#[test]
fn test_ergonomic_brand_checks_for_private_fields() {
    assert_features(
        "class MyClass { #privateField; isPrivate() { return #privateField in this; } }",
        &[EsFeature::ErgonomicBrandChecksForPrivateFields],
    );
}

#[test]
fn test_accessible_object_prototype_has_own_property() {
    assert_features(
        "Object.hasOwn(obj, 'prop');",
        &[EsFeature::AccessibleObjectPrototypeHasOwnProperty],
    );
}

#[test]
fn test_class_static_block() {
    assert_features(
        "class MyClass { static { console.log('Static block!'); } }",
        &[EsFeature::ClassStaticBlock],
    );
}

#[test]
fn test_atomics_wait_async() {
    assert_features(
        "Atomics.waitAsync(sharedArrayBuffer, 0, 0);",
        &[EsFeature::AtomicsWaitAsync],
    );
}

#[test]
fn test_regexp_v_flag_with_set_notation_and_properties_of_strings() {
    assert_features(
        "/[\\p{L}&&[^a]]/v;",
        &[EsFeature::RegexpVFlagWithSetNotationAndPropertiesOfStrings],
    );
}

#[test]
fn test_array_grouping() {
    assert_features(
        "const grouped = [1, 2, 3].groupBy(x => x % 2);",
        &[EsFeature::ArrayGrouping],
    );
}

#[test]
fn test_promise_with_resolvers() {
    assert_features(
        "const { promise, resolve, reject } = Promise.withResolvers();",
        &[EsFeature::PromiseWithResolvers],
    );
}

#[test]
fn test_context_unwinds_after_a_function() {
    assert_exactly(
        "await x(); function f(){ await y(); }",
        &[EsFeature::TopLevelAwait, EsFeature::AsyncFunctions],
    );
}

#[test]
fn test_await_after_a_function_is_top_level_again() {
    assert_exactly(
        "function f(){ g(); } await x();",
        &[EsFeature::TopLevelAwait],
    );
}

#[test]
fn test_await_inside_an_arrow_function() {
    assert_exactly(
        "const f = async () => { await y(); };",
        &[EsFeature::AsyncFunctions],
    );
}

#[test]
fn test_await_inside_nested_functions() {
    assert_exactly(
        "const f = async () => { function g() {} await y(); };",
        &[EsFeature::AsyncFunctions],
    );
}

#[test]
fn test_lookbehind_with_dotall_flag() {
    assert_exactly(
        "/(?<=a)b/s",
        &[
            EsFeature::RegExpLookbehindAssertions,
            EsFeature::SDotAllFlagForRegularExpressions,
        ],
    );
}

#[test]
fn test_negative_lookbehind() {
    assert_exactly("/(?<!a)b/;", &[EsFeature::RegExpLookbehindAssertions]);
}

#[test]
fn test_property_escape_needs_the_unicode_flag() {
    assert_exactly("/\\p{L}/;", &[]);
    assert_exactly("/\\P{L}/u;", &[EsFeature::RegExpUnicodePropertyEscapes]);
}

#[test]
fn test_numeric_separator_alone() {
    assert_exactly("const n = 1_000;", &[EsFeature::NumericSeparators]);
    assert_exactly("const n = 1000;", &[]);
}

#[test]
fn test_source_without_features() {
    let found = features_of("1+1;");
    assert!(found.is_empty());
    assert_eq!(found.len(), 0);
    assert_eq!(found.to_vec(), Vec::<EsFeature>::new());
    assert_eq!(min_version_of("1+1;"), Err(Error::NoFeaturesDetected));
}

#[test]
fn test_empty_source() {
    assert!(features_of("").is_empty());
    assert_eq!(min_version_of(""), Err(Error::NoFeaturesDetected));
}

#[test]
fn test_syntax_error() {
    assert_eq!(parse("let = ;").err(), Some(Error::ParserError));
    assert_eq!(min_version_of("function ("), Err(Error::ParserError));
}

#[test]
fn test_min_version_of_one_edition() {
    assert_eq!(min_version_of("let x = 2 ** 3;"), Ok(EsVersion::ES7));
    assert_eq!(min_version_of("Object.values(obj); Object.entries(obj);"), Ok(EsVersion::ES8));
    assert_eq!(min_version_of("/foo.bar/s;"), Ok(EsVersion::ES9));
    assert_eq!(min_version_of("try { f(); } catch { g(); }"), Ok(EsVersion::ES10));
    assert_eq!(min_version_of("const value = foo ?? 'default';"), Ok(EsVersion::ES11));
    assert_eq!(min_version_of("a ||= b; c &&= d; e ??= f;"), Ok(EsVersion::ES12));
    assert_eq!(min_version_of("Object.hasOwn(obj, 'prop');"), Ok(EsVersion::ES13));
    assert_eq!(min_version_of("Promise.withResolvers();"), Ok(EsVersion::ES15));
}

#[test]
fn test_min_version_is_the_latest_edition_found() {
    assert_eq!(min_version_of("x **= 2; Object.values(x); x?.y;"), Ok(EsVersion::ES11));
    assert_eq!(
        min_version_of("class A { static { f(2 ** 3); } } Object.entries(o);"),
        Ok(EsVersion::ES13)
    );
}

#[test]
fn test_min_version_never_falls_when_a_fragment_is_added() {
    let source = "const value = foo ?? 'default';";
    let earlier = "let x = 2 ** 3;";
    let later = "Atomics.waitAsync(b, 0, 0);";
    assert_eq!(min_version_of(source), Ok(EsVersion::ES11));
    assert_eq!(min_version_of(&format!("{source} {earlier}")), Ok(EsVersion::ES11));
    assert_eq!(min_version_of(&format!("{earlier} {source}")), Ok(EsVersion::ES11));
    assert_eq!(min_version_of(&format!("{source} {later}")), Ok(EsVersion::ES15));
    assert_eq!(min_version_of(&format!("{later} {source}")), Ok(EsVersion::ES15));
}

#[test]
fn test_order_of_statements_does_not_matter() {
    let one = features_of("a ??= b; for (const k in o) {} Promise.any(p);");
    let other = features_of("Promise.any(p); a ??= b; for (const k in o) {}");
    assert_eq!(one.len(), 3);
    assert_eq!(other.len(), 3);
    for f in one.to_vec() {
        assert!(other.contains(&f));
    }
}

#[test]
fn test_regexp_constructor() {
    assert_exactly(
        "new RegExp('(?<=a)b', 's');",
        &[
            EsFeature::RegExpLookbehindAssertions,
            EsFeature::SDotAllFlagForRegularExpressions,
        ],
    );
    assert_exactly("new RegExp('a', 'd');", &[EsFeature::RegExpMatchIndices]);
    assert_exactly(
        "new RegExp('a', 'v');",
        &[EsFeature::RegexpVFlagWithSetNotationAndPropertiesOfStrings],
    );
    assert_exactly(
        "new RegExp('\\\\p{L}', 'u');",
        &[EsFeature::RegExpUnicodePropertyEscapes],
    );
    assert_exactly("new RegExp('\\\\p{L}');", &[]);
    assert_exactly("new RegExp('\\\\p{u}');", &[]);
}

#[test]
fn test_regexp_constructor_without_all_its_arguments() {
    assert_exactly("new RegExp('abc');", &[]);
    assert_exactly("new RegExp('(?<!a)b');", &[EsFeature::RegExpLookbehindAssertions]);
    assert_exactly("new RegExp();", &[]);
    assert_exactly("new RegExp;", &[]);
    assert_exactly("new RegExp(pattern, 's');", &[EsFeature::SDotAllFlagForRegularExpressions]);
    assert_exactly("new RegExp('(?<=a)b', flags);", &[EsFeature::RegExpLookbehindAssertions]);
    assert_exactly("new Other('(?<=a)b', 's');", &[]);
}

#[test]
fn test_methods_count_only_on_their_receivers() {
    assert_exactly("obj.groupBy(f);", &[]);
    assert_exactly("a.b.groupBy(f);", &[]);
    assert_exactly("Map.groupBy(list, f);", &[EsFeature::ArrayGrouping]);
    assert_exactly("Object.groupBy(list, f);", &[EsFeature::ArrayGrouping]);
    assert_exactly("other.values(x); other.hasOwn(x); other.any(x);", &[]);
    assert_exactly("Object['values'](x);", &[]);
    assert_exactly("Promise.values(x); Object.any(x); Atomics.any(x);", &[]);
    assert_exactly("Object.fromEntries(x);", &[EsFeature::ObjectFromEntries]);
    assert_exactly("entries.fromEntries(x);", &[]);
    assert_exactly("foo.fromEntries(x);", &[]);
    assert_exactly("[1].fromEntries(x);", &[]);
}

#[test]
fn test_bigint_conversion() {
    assert_exactly("BigInt('10');", &[EsFeature::BigInt]);
    assert_exactly("BigInt(10);", &[EsFeature::BigInt]);
    assert_exactly("BigInt(x);", &[]);
    assert_exactly("BigInt();", &[]);
    assert_exactly("Number('10');", &[]);
    assert_exactly("const b = 10n;", &[EsFeature::BigInt]);
}

#[test]
fn test_class_members() {
    assert_exactly("class A { m() {} }", &[]);
    assert_exactly("class A { constructor() {} }", &[]);
    assert_exactly("class A { static m() {} }", &[EsFeature::ClassFields]);
    assert_exactly("class A { #m() {} }", &[EsFeature::ClassFields]);
    assert_exactly("class A { x = 1; }", &[EsFeature::ClassFields]);
    assert_exactly("class A { static { f(); } }", &[EsFeature::ClassStaticBlock]);
}

#[test]
fn test_catch_with_a_parameter() {
    assert_exactly("try { f(); } catch (e) { g(e); }", &[]);
    assert_exactly("try { f(); } finally { g(); }", &[]);
}

#[test]
fn test_operators() {
    assert_exactly("x **= 2;", &[EsFeature::ExponentiationOperator]);
    assert_exactly("x = a + b; x += 1; x = a in b;", &[]);
    assert_exactly("x ??= 1;", &[EsFeature::LogicalAssignmentOperators]);
    assert_exactly("x &&= 1;", &[EsFeature::LogicalAssignmentOperators]);
    assert_exactly("x ||= 1;", &[EsFeature::LogicalAssignmentOperators]);
}

#[test]
fn test_rest_and_spread() {
    assert_exactly("const { a, ...rest } = obj;", &[EsFeature::RestSpreadProperties]);
    assert_exactly("const obj2 = { ...obj, c: 3 };", &[EsFeature::RestSpreadProperties]);
    assert_exactly("const { a, b } = obj;", &[]);
}

#[test]
fn test_global_this_only_as_the_object_of_a_member() {
    assert_exactly("globalThis.foo;", &[EsFeature::GlobalThis]);
    assert_exactly("foo.globalThis;", &[]);
    assert_exactly("globalThis?.foo;", &[EsFeature::GlobalThis, EsFeature::OptionalChaining]);
}

#[test]
fn test_for_in_with_await_in_its_body() {
    assert_exactly(
        "for (const k in o) { await f(k); }",
        &[EsFeature::ForInMechanics, EsFeature::TopLevelAwait],
    );
}

#[test]
fn test_async_function_expression_is_no_declaration() {
    assert_exactly("const f = async function () {};", &[]);
    assert_exactly("async function f() {}", &[EsFeature::AsyncFunctions]);
    assert_exactly("function f() {}", &[]);
}

#[test]
fn test_the_tree_that_is_read() {
    let program = parse("await x(); function f(){ await y(); }").expect("Failed to parse JavaScript");
    assert!(matches!(program.kind, NodeKind::Other));
    assert_eq!(program.children.len(), 2);
    assert!(matches!(program.children[0].kind, NodeKind::Await));
    assert!(matches!(program.children[1].kind, NodeKind::FnDecl(FnDecl { is_async: false })));
    let function = &program.children[1].children[0];
    assert!(matches!(function.kind, NodeKind::Function));
    assert!(matches!(function.children[0].kind, NodeKind::Await));
}
