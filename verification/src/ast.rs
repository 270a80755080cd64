//! The expression tree of a GROQ query, as the style rules read it.
//!
//! The tree holds plain values only: names, operator texts and literal
//! values. It carries no source positions, comments or whitespace.

use vstd::prelude::*;

verus! {

/// What the style rules need to know about an operator besides its text.
#[derive(Clone, Copy, Debug, PartialEq, Eq, Structural)]
pub enum TokenKind {
    /// Logical conjunction.
    And,
    /// Logical disjunction.
    Or,
    /// The separator between a key and its value.
    Colon,
    /// The dereference operator.
    Arrow,
    /// Ascending sort order.
    AscOperator,
    /// Descending sort order.
    DescOperator,
    /// Any other operator.
    Other,
}

/// An operator: its kind and its text in the query language.
#[derive(Debug)]
pub struct Token {
    pub kind: TokenKind,
    pub literal: String,
}

/// A literal value.
#[derive(Debug)]
pub enum Literal {
    /// A string, unescaped.
    String(String),
    /// An integer.
    Integer(i64),
    /// A floating-point number, held as its shortest decimal text that reads
    /// back to the same number.
    Float(String),
    /// `true` or `false`.
    Boolean(bool),
    /// `null`.
    Null,
}

/// A call `name(arguments)` or `namespace::name(arguments)`.
#[derive(Debug)]
pub struct FunctionCall {
    /// The namespace; empty when the call names none.
    pub namespace: String,
    pub name: String,
    pub arguments: Vec<Expr>,
}

/// An object `{ ... }`: its fields in order.
#[derive(Debug)]
pub struct Object {
    pub expressions: Vec<Expr>,
}

/// An array `[ ... ]`: its elements in order.
#[derive(Debug)]
pub struct Array {
    pub expressions: Vec<Expr>,
}

/// An infix operator with both operands.
#[derive(Debug)]
pub struct BinaryOperator {
    pub lhs: Box<Expr>,
    pub operator: Token,
    pub rhs: Box<Expr>,
}

/// An operator in front of its operand.
#[derive(Debug)]
pub struct PrefixOperator {
    pub operator: Token,
    pub rhs: Box<Expr>,
}

/// An operator behind its operand.
#[derive(Debug)]
pub struct PostfixOperator {
    pub lhs: Box<Expr>,
    pub operator: Token,
}

/// Attribute access `lhs.rhs`.
#[derive(Debug)]
pub struct DotOperator {
    pub lhs: Box<Expr>,
    pub rhs: Box<Expr>,
}

/// A range `start..end` (inclusive) or `start...end` (exclusive).
#[derive(Debug)]
pub struct Range {
    pub start: Box<Expr>,
    pub end: Box<Expr>,
    pub inclusive: bool,
}

/// An expression of the query language.
#[derive(Debug)]
pub enum Expr {
    /// `*`
    Everything,
    /// `@`
    This,
    /// `^`
    Parent,
    /// `...`
    Ellipsis,
    Literal(Literal),
    /// An attribute, by name.
    Attribute(String),
    /// A parameter `$name`, by name.
    Param(String),
    /// `lhs[constraint]`
    Filter { lhs: Box<Expr>, constraint: Box<Expr> },
    /// `lhs[range]`
    Slice { lhs: Box<Expr>, range: Box<Expr> },
    /// `lhs[index]`
    Element { lhs: Box<Expr>, index: Box<Expr> },
    /// `expr[]`
    ArrayTraversal(Box<Expr>),
    Dot(DotOperator),
    /// `lhs { ... }`
    Projection { lhs: Box<Expr>, object: Object },
    /// `lhs | rhs`
    Pipe { lhs: Box<Expr>, rhs: Box<Expr> },
    /// `lhs | func(...)`
    FunctionPipe { lhs: Box<Expr>, func: FunctionCall },
    Binary(BinaryOperator),
    Prefix(PrefixOperator),
    Postfix(PostfixOperator),
    FunctionCall(FunctionCall),
    Array(Array),
    Object(Object),
    /// `(expression)`
    Group(Box<Expr>),
    Range(Range),
    /// The expression between the brackets of a filter.
    Constraint(Box<Expr>),
    /// The expression between the brackets of a slice or an element access.
    Subscript(Box<Expr>),
    /// `(a, b, ...)`
    Tuple(Vec<Expr>),
}

/// A user-defined function `fn namespace::name($a, $b) = body;`.
#[derive(Debug)]
pub struct FunctionDefinition {
    pub namespace: String,
    pub name: String,
    /// The parameter names, without the leading `$`.
    pub parameters: Vec<String>,
    pub body: Expr,
}

/// A whole query: its function definitions and its expression.
#[derive(Debug)]
pub struct ParseResult {
    pub functions: Vec<FunctionDefinition>,
    pub expr: Expr,
}

} // verus!
