//! The abstract syntax consumed by the lowering engine. An external parser
//! produces these shapes; the engine reads them and never mutates them.

use vstd::prelude::*;
use crate::types::Num;

verus! {

/// The arithmetic operators of a binary expression.
#[derive(Clone, Copy, PartialEq, Eq, Structural, Debug)]
pub enum BinOpKind {
    Add,
    Sub,
    Mul,
    Div,
    IntDiv,
    Rem,
}

/// The comparison predicates.
#[derive(Clone, Copy, PartialEq, Eq, Structural, Debug)]
pub enum CmpKind {
    Eq,
    Ne,
    Gt,
    Ge,
    Lt,
    Le,
}

/// A whole program: an ordered sequence of statements.
pub struct Program {
    pub stmts: Vec<Statement>,
}

/// A statement: either an expression statement or a function declaration.
pub enum Statement {
    Expr(ExprStmt),
    Function(FunctionDecl),
}

/// An expression statement: a bare expression or a block of statements.
/// A block is legal only here, never as a bare expression.
pub enum ExprStmt {
    Expr(Expression),
    Block(Vec<Statement>),
}

/// One declared parameter: the name of its type, then its own name.
pub struct ParamDecl {
    pub ty_name: String,
    pub name: String,
}

/// A function declaration. Without a body it only declares the callable
/// signature; with a body it also defines the function.
pub struct FunctionDecl {
    pub name: String,
    pub return_type: String,
    pub params: Vec<ParamDecl>,
    pub body: Option<ExprStmt>,
}

/// An expression.
#[allow(inconsistent_fields)]
pub enum Expression {
    /// A decimal number literal.
    NumberLiteral(Num),
    /// A string literal.
    StringLiteral(String),
    /// A reference to a bound variable.
    VariableReference(String),
    /// Declaration of a variable with a named type and an initialiser.
    VariableDeclaration { ty_name: String, name: String, init: Box<Expression> },
    /// An arithmetic combination of two same-typed operands.
    BinaryOperator { op: BinOpKind, left: Box<Expression>, right: Box<Expression> },
    /// A comparison of two same-typed operands, yielding `Bool`.
    Comparison { op: CmpKind, left: Box<Expression>, right: Box<Expression> },
    /// A call of a declared function.
    FunctionCall { name: String, args: Vec<Expression> },
    /// A conditional with a value: both branches lower into fresh blocks
    /// that meet again in a merge block.
    IfExpression {
        cond: Box<Expression>,
        then_branch: Box<ExprStmt>,
        else_branch: Box<ExprStmt>,
    },
    /// A pre-tested loop: header, body and exit blocks.
    WhileExpression { cond: Box<Expression>, body: Box<ExprStmt> },
    /// A loop with an initialiser and a step, lowered with the same header,
    /// body and exit blocks as `WhileExpression`.
    ForExpression {
        init: Box<Expression>,
        cond: Box<Expression>,
        step: Box<Expression>,
        body: Box<ExprStmt>,
    },
}

} // verus!
