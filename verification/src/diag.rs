//! The error taxonomy. Every failure is fatal to the compilation unit:
//! the first error aborts lowering and is handed to the caller with the
//! offending name or the expected and actual types.

use vstd::prelude::*;
use std::rc::Rc;
use crate::ast::{BinOpKind, CmpKind};
use crate::types::Type;

verus! {

/// What was attempted on a type that does not support it.
#[derive(Clone, Copy, PartialEq, Eq, Structural, Debug)]
pub enum OpName {
    /// An arithmetic operator.
    Arith(BinOpKind),
    /// A comparison predicate.
    Compare(CmpKind),
    /// Use as a declared parameter.
    Parameter,
    /// Allocation of an addressable storage slot.
    StorageSlot,
}

/// A compile error. Each variant names what failed and carries the context
/// a caller needs to render a diagnostic.
#[derive(Debug)]
#[allow(inconsistent_fields)]
pub enum CompileError {
    /// A type name resolved in no visible scope.
    UndefinedType(String),
    /// A type name was already bound in the innermost scope.
    DuplicateType(String),
    /// A variable name bound in no visible scope.
    UndefinedVariable(String),
    /// A called function name absent from the module's function table.
    UndefinedFunction(String),
    /// A function name already present in the module's function table.
    DuplicateFunction(String),
    /// A call with the wrong number of arguments.
    ParameterCountMismatch { expected: usize, actual: usize },
    /// An operation that demands equal types got different ones.
    TypeMismatch { expected: Rc<Type>, actual: Rc<Type> },
    /// A literal aimed at a type that cannot hold one.
    InvalidConstantForType(Rc<Type>),
    /// An operation on a type without support for it.
    UnsupportedOperation { ty: Rc<Type>, op: OpName },
    /// An operation that needs a module before one was created.
    NoModule,
    /// A second module creation in one session.
    ModuleAlreadyCreated,
    /// A construct that emits instructions used outside any function body.
    NoEnclosingFunction,
    /// An AST shape without a defined lowering.
    UnsupportedConstruct,
}

/// The mathematical image of a `CompileError`: names as character
/// sequences, all else as plain values.
#[verifier::ext_equal]
#[allow(inconsistent_fields)]
pub enum ErrV {
    UndefinedType(Seq<char>),
    DuplicateType(Seq<char>),
    UndefinedVariable(Seq<char>),
    UndefinedFunction(Seq<char>),
    DuplicateFunction(Seq<char>),
    ParameterCountMismatch { expected: int, actual: int },
    TypeMismatch { expected: Type, actual: Type },
    InvalidConstantForType(Type),
    UnsupportedOperation { ty: Type, op: OpName },
    NoModule,
    ModuleAlreadyCreated,
    NoEnclosingFunction,
    UnsupportedConstruct,
}

impl View for CompileError {
    type V = ErrV;

    open spec fn view(&self) -> ErrV {
        match self {
            CompileError::UndefinedType(n) => ErrV::UndefinedType(n@),
            CompileError::DuplicateType(n) => ErrV::DuplicateType(n@),
            CompileError::UndefinedVariable(n) => ErrV::UndefinedVariable(n@),
            CompileError::UndefinedFunction(n) => ErrV::UndefinedFunction(n@),
            CompileError::DuplicateFunction(n) => ErrV::DuplicateFunction(n@),
            CompileError::ParameterCountMismatch { expected, actual } => {
                ErrV::ParameterCountMismatch {
                    expected: *expected as int,
                    actual: *actual as int,
                }
            },
            CompileError::TypeMismatch { expected, actual } => {
                ErrV::TypeMismatch { expected: **expected, actual: **actual }
            },
            CompileError::InvalidConstantForType(t) => ErrV::InvalidConstantForType(**t),
            CompileError::UnsupportedOperation { ty, op } => {
                ErrV::UnsupportedOperation { ty: **ty, op: *op }
            },
            CompileError::NoModule => ErrV::NoModule,
            CompileError::ModuleAlreadyCreated => ErrV::ModuleAlreadyCreated,
            CompileError::NoEnclosingFunction => ErrV::NoEnclosingFunction,
            CompileError::UnsupportedConstruct => ErrV::UnsupportedConstruct,
        }
    }
}

} // verus!
