//! A lowering engine for the small KSC expression language.
//!
//! A parsed program is translated into a static-single-assignment (SSA)
//! intermediate representation: a module of functions made of basic blocks
//! holding typed instructions, with explicit control-flow merges (phi nodes).
//! Every lowering step is specified by a ghost compiler over a mathematical
//! view of the compilation state, and each executable function is proved to
//! return exactly what the ghost compiler says; rendering the finished module
//! to text is a function of the module alone, so equal programs always
//! produce byte-identical text.

pub mod ast;
pub mod builder;
pub mod compiler;
pub mod context;
pub mod diag;
pub mod emit;
pub mod ir;
pub mod laws;
pub mod modname;
pub mod ops;
pub mod render;
pub mod scopes;
pub mod text;
pub mod types;
