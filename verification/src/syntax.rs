//! The syntax tree that the detection reads: the kinds of node that a rule
//! looks at, each with the plain values that the rule needs, and the nodes
//! below it.
//!
//! A tree need not hold the nodes that no rule looks at. Where one is left
//! out, what stands below it stands below the nearest node above it that is
//! in the tree.

use crate::text::same_text;
use vstd::prelude::*;

verus! {

/// The outline of an expression, as far as a rule looks into it.
#[derive(Debug)]
pub enum ExprShape {
    /// A plain identifier, with its name.
    Ident(String),
    /// An array literal.
    Array,
    /// A string literal, with its value.
    Str(String),
    /// A numeric literal.
    Num,
    /// A private name, such as `#field`.
    PrivateName,
    /// Any other expression.
    Other,
}

/// What a call expression calls.
#[derive(Debug)]
pub enum Callee {
    /// A plain identifier, with its name: `name(..)`.
    Ident(String),
    /// A member of an object: `obj.prop(..)`. `prop` is the name of the member
    /// where it is written as a plain name, and `None` where it is computed
    /// or private.
    Member { obj: ExprShape, prop: Option<String> },
    /// Anything else.
    Other,
}

/// An assignment operator.
#[derive(Debug, Clone, Copy, PartialEq, Eq, Structural)]
pub enum AssignOp {
    /// `**=`
    ExpAssign,
    /// `&&=`
    AndAssign,
    /// `||=`
    OrAssign,
    /// `??=`
    NullishAssign,
    /// Any other assignment operator.
    Other,
}

/// A binary operator.
#[derive(Debug, Clone, Copy, PartialEq, Eq, Structural)]
pub enum BinaryOp {
    /// `in`
    In,
    /// `**`
    Exp,
    /// `??`
    NullishCoalescing,
    /// Any other binary operator.
    Other,
}

/// A binary expression: its operator and the outline of its left operand.
#[derive(Debug)]
pub struct BinExpr {
    pub op: BinaryOp,
    pub left: ExprShape,
}

/// A call expression: what it calls and the outlines of its arguments.
#[derive(Debug)]
pub struct CallExpr {
    pub callee: Callee,
    pub args: Vec<ExprShape>,
}

/// A member of a class body.
#[derive(Debug, Clone, Copy, PartialEq, Eq, Structural)]
pub enum ClassMember {
    Constructor,
    /// A method with a public name.
    Method { is_static: bool },
    PrivateMethod,
    /// A field with a public name, static or not.
    ClassProp,
    PrivateProp,
    StaticBlock,
    /// Any other member.
    Other,
}

/// A function declaration.
#[derive(Debug, Clone, Copy, PartialEq, Eq, Structural)]
pub struct FnDecl {
    pub is_async: bool,
}

/// A literal.
#[derive(Debug)]
pub enum Lit {
    /// A numeric literal, with the text it was written as where that is known.
    Num { raw: Option<String> },
    /// A big integer literal, such as `10n`.
    BigInt,
    /// Any other literal.
    Other,
}

/// A member access: the outline of the object whose member is taken.
#[derive(Debug)]
pub struct MemberExpr {
    pub obj: ExprShape,
}

/// A `new` expression: the outline of what it constructs and of each
/// argument. `args` is `None` where the expression has no argument list.
#[derive(Debug)]
pub struct NewExpr {
    pub callee: ExprShape,
    pub args: Option<Vec<ExprShape>>,
}

/// A regular expression literal: the text of its pattern and its flags.
#[derive(Debug)]
pub struct Regex {
    pub exp: String,
    pub flags: String,
}

/// A `catch` clause.
#[derive(Debug, Clone, Copy, PartialEq, Eq, Structural)]
pub struct CatchClause {
    /// The clause binds what was thrown to a parameter.
    pub has_param: bool,
}

/// A `try` statement, with its `catch` clause where it has one.
#[derive(Debug, Clone, Copy, PartialEq, Eq, Structural)]
pub struct TryStmt {
    pub handler: Option<CatchClause>,
}

/// The kind of a node, with what a rule reads of it.
#[derive(Debug)]
pub enum NodeKind {
    /// An arrow function.
    Arrow,
    /// An assignment, with its operator.
    Assign(AssignOp),
    /// An `await` expression.
    Await,
    Bin(BinExpr),
    Call(CallExpr),
    ClassMember(ClassMember),
    FnDecl(FnDecl),
    /// A `for`-`in` statement.
    ForIn,
    /// A function: its parameters and its body.
    Function,
    Lit(Lit),
    Member(MemberExpr),
    New(NewExpr),
    /// An optional chain, such as `a?.b`.
    OptChain,
    Regex(Regex),
    /// A rest pattern, such as `...rest` in a destructuring.
    RestPat,
    /// A spread element, such as `...obj` in an object literal.
    SpreadElement,
    /// A static initialisation block of a class.
    StaticBlock,
    Try(TryStmt),
    /// A node of any other kind: no rule looks at it.
    Other,
}

/// A node of the syntax tree: its kind and the nodes directly below it.
#[derive(Debug)]
pub struct Node {
    pub kind: NodeKind,
    pub children: Vec<Node>,
}

/// `e` is the plain identifier `name`.
pub open spec fn is_ident(e: ExprShape, name: Seq<char>) -> bool {
    e matches ExprShape::Ident(s) && s@ == name
}

/// `c` is the member `prop`, written as a plain name, of the plain identifier `obj`.
pub open spec fn is_method_of(c: Callee, obj: Seq<char>, prop: Seq<char>) -> bool {
    c matches Callee::Member { obj: o, prop: Some(p) } && is_ident(o, obj) && p@ == prop
}

/// `c` is the member `prop`, written as a plain name, of an array literal.
pub open spec fn is_method_of_array(c: Callee, prop: Seq<char>) -> bool {
    c matches Callee::Member { obj: ExprShape::Array, prop: Some(p) } && p@ == prop
}

impl ExprShape {
    /// Tells whether this is the plain identifier `name`.
    pub fn is_ident(&self, name: &str) -> (r: bool)
        ensures
            r == is_ident(*self, name@),
    {
        match self {
            ExprShape::Ident(s) => same_text(s.as_str(), name),
            _ => false,
        }
    }
}

impl Callee {
    /// Tells whether this is the member `prop`, written as a plain name, of
    /// the plain identifier `obj`.
    pub fn is_method_of(&self, obj: &str, prop: &str) -> (r: bool)
        ensures
            r == is_method_of(*self, obj@, prop@),
    {
        match self {
            Callee::Member { obj: o, prop: Some(p) } => o.is_ident(obj) && same_text(
                p.as_str(),
                prop,
            ),
            _ => false,
        }
    }

    /// Tells whether this is the member `prop`, written as a plain name, of
    /// an array literal.
    pub fn is_method_of_array(&self, prop: &str) -> (r: bool)
        ensures
            r == is_method_of_array(*self, prop@),
    {
        match self {
            Callee::Member { obj: ExprShape::Array, prop: Some(p) } => same_text(
                p.as_str(),
                prop,
            ),
            _ => false,
        }
    }
}

impl NodeKind {
    /// The node is a function: what stands below it is inside a function.
    pub open spec fn is_function_like(self) -> bool {
        self is Arrow || self is Function
    }
}

impl Node {
    /// A node without any node below it.
    pub fn leaf(kind: NodeKind) -> (n: Node)
        ensures
            n.kind == kind,
            n.children@ == Seq::<Node>::empty(),
    {
        Node { kind, children: Vec::new() }
    }

    /// A node with the given nodes below it.
    pub fn new(kind: NodeKind, children: Vec<Node>) -> (n: Node)
        ensures
            n.kind == kind,
            n.children == children,
    {
        Node { kind, children }
    }

    /// The root of a program: a node that no rule looks at, with the trees
    /// of the program below it.
    pub fn program(children: Vec<Node>) -> (n: Node)
        ensures
            n.kind == NodeKind::Other,
            n.children == children,
    {
        Node { kind: NodeKind::Other, children }
    }
}

} // verus!
