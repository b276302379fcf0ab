//! The expression compiler: the ghost lowering of every AST shape into
//! the context, and the executable compiler that is proved to produce
//! exactly that lowering. The first error aborts the whole compilation;
//! validation precedes emission at every step.

use vstd::prelude::*;
use crate::ast::{ExprStmt, Expression, Program, Statement};
use crate::builder::{decls_view, spec_declare, spec_define};
use crate::context::{
    spec_bind, spec_lookup, spec_pop_scope, spec_push_scope, spec_resolve_type, Compiler, CtxV,
};
use crate::diag::{CompileError, ErrV};
use crate::emit::{spec_branch, spec_branch_cond, spec_merge_phi, spec_new_block, spec_position};
use crate::ir::{TypedValue, TypedValueV};
use crate::ops::{
    spec_binary, spec_call, spec_compare, spec_cond_to_bool, spec_constant, spec_load, spec_ret,
    spec_slot,
};
use crate::types::{ty_eq, Type};

verus! {

/// The valueless result: `Void`, owning no operand.
pub open spec fn void_tv() -> TypedValueV {
    TypedValueV { ty: Type::Void, val: None }
}

/// A context fit for compiling: well formed, and any current block still
/// open for writing.
pub open spec fn ready(c: CtxV) -> bool {
    &&& c.wf()
    &&& c.cur is Some ==> c.cursor_open()
}

// --- the ghost compiler -----------------------------------------------------

/// Lower one expression. `expected` guides only constant construction:
/// a number literal is built against the expected type, or against
/// `Number` when nothing is expected.
pub open spec fn spec_compile_expr(c: CtxV, e: Expression, expected: Option<Type>) -> (
    CtxV,
    Result<TypedValueV, ErrV>,
)
    decreases e, 3int,
{
    match e {
        Expression::NumberLiteral(num) => {
            let target = match expected {
                Some(t) => t,
                None => Type::Number,
            };
            (c, spec_constant(num, target))
        },
        Expression::StringLiteral(_) => {
            let target = match expected {
                Some(t) => t,
                None => Type::Number,
            };
            (c, Err(ErrV::InvalidConstantForType(target)))
        },
        Expression::VariableReference(name) => {
            match spec_lookup(c, name@) {
                Err(er) => (c, Err(er)),
                Ok(slot) => spec_load(c, slot),
            }
        },
        Expression::VariableDeclaration { .. } => spec_compile_vardecl(c, e),
        Expression::BinaryOperator { .. } => spec_compile_binary(c, e),
        Expression::Comparison { .. } => spec_compile_comparison(c, e),
        Expression::FunctionCall { .. } => spec_compile_call(c, e),
        Expression::IfExpression { .. } => spec_compile_if(c, e),
        Expression::WhileExpression { .. } => spec_compile_while(c, e),
        Expression::ForExpression { .. } => spec_compile_for(c, e),
    }
}

/// Lower a variable declaration: resolve the named type, lower the
/// initialiser against it, demand exact type agreement, give the value an
/// addressable slot, bind the name to the slot, and yield the stored
/// value.
pub open spec fn spec_compile_vardecl(c: CtxV, e: Expression) -> (CtxV, Result<TypedValueV, ErrV>)
    recommends
        e is VariableDeclaration,
    decreases e, 2int,
{
    match e {
        Expression::VariableDeclaration { ty_name, name, init } => {
            match spec_resolve_type(c, ty_name@) {
                Err(er) => (c, Err(er)),
                Ok(ty) => {
                    let (c1, r1) = spec_compile_expr(c, *init, Some(ty));
                    match r1 {
                        Err(er) => (c1, Err(er)),
                        Ok(v) => if !ty_eq(v.ty, ty) {
                            (c1, Err(ErrV::TypeMismatch { expected: ty, actual: v.ty }))
                        } else {
                            let (c2, r2) = spec_slot(c1, v);
                            match r2 {
                                Err(er) => (c2, Err(er)),
                                Ok(slot) => (spec_bind(c2, name@, slot), Ok(v)),
                            }
                        },
                    }
                },
            }
        },
        _ => (c, Err(ErrV::UnsupportedConstruct)),
    }
}

/// Lower an arithmetic expression: the left operand first, then the
/// right against the left's type, then the operation.
pub open spec fn spec_compile_binary(c: CtxV, e: Expression) -> (CtxV, Result<TypedValueV, ErrV>)
    recommends
        e is BinaryOperator,
    decreases e, 2int,
{
    match e {
        Expression::BinaryOperator { op, left, right } => {
            let (c1, r1) = spec_compile_expr(c, *left, None);
            match r1 {
                Err(er) => (c1, Err(er)),
                Ok(l) => {
                    let (c2, r2) = spec_compile_expr(c1, *right, Some(l.ty));
                    match r2 {
                        Err(er) => (c2, Err(er)),
                        Ok(r) => spec_binary(c2, op, l, r),
                    }
                },
            }
        },
        _ => (c, Err(ErrV::UnsupportedConstruct)),
    }
}

/// Lower a comparison the same way; the result is a `Bool`.
pub open spec fn spec_compile_comparison(c: CtxV, e: Expression) -> (
    CtxV,
    Result<TypedValueV, ErrV>,
)
    recommends
        e is Comparison,
    decreases e, 2int,
{
    match e {
        Expression::Comparison { op, left, right } => {
            let (c1, r1) = spec_compile_expr(c, *left, None);
            match r1 {
                Err(er) => (c1, Err(er)),
                Ok(l) => {
                    let (c2, r2) = spec_compile_expr(c1, *right, Some(l.ty));
                    match r2 {
                        Err(er) => (c2, Err(er)),
                        Ok(r) => spec_compare(c2, op, l, r),
                    }
                },
            }
        },
        _ => (c, Err(ErrV::UnsupportedConstruct)),
    }
}

/// Lower the arguments of a call, left to right.
pub open spec fn spec_compile_args(c: CtxV, args: Seq<Expression>, k: int) -> (
    CtxV,
    Result<Seq<TypedValueV>, ErrV>,
)
    decreases args, args.len() - k,
{
    if k < 0 || k >= args.len() {
        (c, Ok(Seq::empty()))
    } else {
        let (c1, r1) = spec_compile_expr(c, args[k], None);
        match r1 {
            Err(er) => (c1, Err(er)),
            Ok(v) => {
                let (c2, r2) = spec_compile_args(c1, args, k + 1);
                match r2 {
                    Err(er) => (c2, Err(er)),
                    Ok(rest) => (c2, Ok(seq![v] + rest)),
                }
            },
        }
    }
}

/// Lower a call: arguments first, then the lookup and the checked call.
pub open spec fn spec_compile_call(c: CtxV, e: Expression) -> (CtxV, Result<TypedValueV, ErrV>)
    recommends
        e is FunctionCall,
    decreases e, 2int,
{
    match e {
        Expression::FunctionCall { name, args } => {
            let (c1, r1) = spec_compile_args(c, args@, 0);
            match r1 {
                Err(er) => (c1, Err(er)),
                Ok(vals) => spec_call(c1, name@, vals),
            }
        },
        _ => (c, Err(ErrV::UnsupportedConstruct)),
    }
}

/// Lower a conditional with a value. The condition is compared against
/// zero; `then`, `else` and `ifcont` blocks are created in that order;
/// each branch is lowered in its own scope and closes with a branch to
/// the merge block from whatever block it actually ends in; the merge
/// block then joins the two values with one phi.
pub open spec fn spec_compile_if(c: CtxV, e: Expression) -> (CtxV, Result<TypedValueV, ErrV>)
    recommends
        e is IfExpression,
    decreases e, 2int,
{
    match e {
        Expression::IfExpression { cond, then_branch, else_branch } => {
            let (c1, r1) = spec_compile_expr(c, *cond, None);
            match r1 {
                Err(er) => (c1, Err(er)),
                Ok(cv) => {
                    let (c2, rb) = spec_cond_to_bool(c1, cv);
                    match rb {
                        Err(er) => (c2, Err(er)),
                        Ok(bv) => {
                            let (c3, r3) = spec_new_block(c2, "then"@);
                            match r3 {
                                Err(er) => (c3, Err(er)),
                                Ok(tb) => {
                                    let (c4, r4) = spec_new_block(c3, "else"@);
                                    let eb = r4->Ok_0;
                                    let (c5, r5) = spec_new_block(c4, "ifcont"@);
                                    let mb = r5->Ok_0;
                                    let (c6, r6) = spec_branch_cond(c5, bv, tb, eb);
                                    let c7 = spec_push_scope(spec_position(c6, tb));
                                    let (c8, r8) = spec_compile_expr_stmt(c7, *then_branch);
                                    match r8 {
                                        Err(er) => (c8, Err(er)),
                                        Ok(tv) => {
                                            let c9 = spec_pop_scope(c8);
                                            let tpred = c9.cur->Some_0.blk;
                                            let (c10, _) = spec_branch(c9, mb);
                                            let c11 = spec_push_scope(spec_position(c10, eb));
                                            let (c12, r12) = spec_compile_expr_stmt(
                                                c11,
                                                *else_branch,
                                            );
                                            match r12 {
                                                Err(er) => (c12, Err(er)),
                                                Ok(ev) => {
                                                    let c13 = spec_pop_scope(c12);
                                                    let epred = c13.cur->Some_0.blk;
                                                    let (c14, _) = spec_branch(c13, mb);
                                                    let c15 = spec_position(c14, mb);
                                                    spec_merge_phi(c15, tv, tpred, ev, epred)
                                                },
                                            }
                                        },
                                    }
                                },
                            }
                        },
                    }
                },
            }
        },
        _ => (c, Err(ErrV::UnsupportedConstruct)),
    }
}

/// Lower a pre-tested loop: `loophead`, `loopbody` and `loopexit` blocks
/// in that order; the head tests the condition against zero and decides
/// body or exit; the body runs in its own scope and branches back to the
/// head; the loop itself yields no value.
pub open spec fn spec_compile_while(c: CtxV, e: Expression) -> (CtxV, Result<TypedValueV, ErrV>)
    recommends
        e is WhileExpression,
    decreases e, 2int,
{
    match e {
        Expression::WhileExpression { cond, body } => {
            let (c1, r1) = spec_new_block(c, "loophead"@);
            match r1 {
                Err(er) => (c1, Err(er)),
                Ok(hb) => {
                    let (c2, r2) = spec_new_block(c1, "loopbody"@);
                    let bb = r2->Ok_0;
                    let (c3, r3) = spec_new_block(c2, "loopexit"@);
                    let xb = r3->Ok_0;
                    let (c4, _) = spec_branch(c3, hb);
                    let c5 = spec_position(c4, hb);
                    let (c6, r6) = spec_compile_expr(c5, *cond, None);
                    match r6 {
                        Err(er) => (c6, Err(er)),
                        Ok(cv) => {
                            let (c7, rb) = spec_cond_to_bool(c6, cv);
                            match rb {
                                Err(er) => (c7, Err(er)),
                                Ok(bv) => {
                                    let (c8, _) = spec_branch_cond(c7, bv, bb, xb);
                                    let c9 = spec_push_scope(spec_position(c8, bb));
                                    let (c10, r10) = spec_compile_expr_stmt(c9, *body);
                                    match r10 {
                                        Err(er) => (c10, Err(er)),
                                        Ok(_) => {
                                            let c11 = spec_pop_scope(c10);
                                            let (c12, _) = spec_branch(c11, hb);
                                            let c13 = spec_position(c12, xb);
                                            (c13, Ok(void_tv()))
                                        },
                                    }
                                },
                            }
                        },
                    }
                },
            }
        },
        _ => (c, Err(ErrV::UnsupportedConstruct)),
    }
}

/// Lower a stepped loop: the initialiser runs once in a scope of its own
/// that also encloses the loop; the rest follows the same head, body and
/// exit discipline, with the step at the end of the body.
pub open spec fn spec_compile_for(c: CtxV, e: Expression) -> (CtxV, Result<TypedValueV, ErrV>)
    recommends
        e is ForExpression,
    decreases e, 2int,
{
    match e {
        Expression::ForExpression { init, cond, step, body } => {
            let c0 = spec_push_scope(c);
            let (ci, ri) = spec_compile_expr(c0, *init, None);
            match ri {
                Err(er) => (ci, Err(er)),
                Ok(_) => {
                    let (c1, r1) = spec_new_block(ci, "loophead"@);
                    match r1 {
                        Err(er) => (c1, Err(er)),
                        Ok(hb) => {
                            let (c2, r2) = spec_new_block(c1, "loopbody"@);
                            let bb = r2->Ok_0;
                            let (c3, r3) = spec_new_block(c2, "loopexit"@);
                            let xb = r3->Ok_0;
                            let (c4, _) = spec_branch(c3, hb);
                            let c5 = spec_position(c4, hb);
                            let (c6, r6) = spec_compile_expr(c5, *cond, None);
                            match r6 {
                                Err(er) => (c6, Err(er)),
                                Ok(cv) => {
                                    let (c7, rb) = spec_cond_to_bool(c6, cv);
                                    match rb {
                                        Err(er) => (c7, Err(er)),
                                        Ok(bv) => {
                                            let (c8, _) = spec_branch_cond(c7, bv, bb, xb);
                                            let c9 = spec_push_scope(spec_position(c8, bb));
                                            let (c10, r10) = spec_compile_expr_stmt(c9, *body);
                                            match r10 {
                                                Err(er) => (c10, Err(er)),
                                                Ok(_) => {
                                                    let (c11, r11) = spec_compile_expr(
                                                        c10,
                                                        *step,
                                                        None,
                                                    );
                                                    match r11 {
                                                        Err(er) => (c11, Err(er)),
                                                        Ok(_) => {
                                                            let c12 = spec_pop_scope(c11);
                                                            let (c13, _) = spec_branch(c12, hb);
                                                            let c14 = spec_position(c13, xb);
                                                            (spec_pop_scope(c14), Ok(void_tv()))
                                                        },
                                                    }
                                                },
                                            }
                                        },
                                    }
                                },
                            }
                        },
                    }
                },
            }
        },
        _ => (c, Err(ErrV::UnsupportedConstruct)),
    }
}

/// Lower an expression statement: a bare expression as it stands, or a
/// block, which runs in its own scope and yields no value.
pub open spec fn spec_compile_expr_stmt(c: CtxV, es: ExprStmt) -> (CtxV, Result<TypedValueV, ErrV>)
    decreases es, 3int,
{
    match es {
        ExprStmt::Expr(e) => spec_compile_expr(c, e, None),
        ExprStmt::Block(stmts) => {
            let c1 = spec_push_scope(c);
            let (c2, r) = spec_compile_stmts(c1, stmts@, 0);
            match r {
                Some(er) => (c2, Err(er)),
                None => (spec_pop_scope(c2), Ok(void_tv())),
            }
        },
    }
}

/// Lower a run of statements, first to last; values are discarded, the
/// first error aborts.
pub open spec fn spec_compile_stmts(c: CtxV, stmts: Seq<Statement>, k: int) -> (CtxV, Option<ErrV>)
    decreases stmts, stmts.len() - k,
{
    if k < 0 || k >= stmts.len() {
        (c, None)
    } else {
        let (c1, r1) = spec_compile_stmt(c, stmts[k]);
        match r1 {
            Err(er) => (c1, Some(er)),
            Ok(_) => spec_compile_stmts(c1, stmts, k + 1),
        }
    }
}

/// Lower one statement.
pub open spec fn spec_compile_stmt(c: CtxV, st: Statement) -> (CtxV, Result<TypedValueV, ErrV>)
    decreases st, 3int,
{
    match st {
        Statement::Expr(es) => spec_compile_expr_stmt(c, es),
        Statement::Function(fd) => spec_compile_fdecl(c, st),
    }
}

/// Lower the body of a defined function. A bare expression is the return
/// value, built against the declared return type; a block runs in its
/// own scope and its final statement, when it is a bare expression,
/// becomes the return value.
pub open spec fn spec_compile_body(c: CtxV, es: ExprStmt, ret: Type) -> (
    CtxV,
    Result<TypedValueV, ErrV>,
)
    decreases es, 3int,
{
    match es {
        ExprStmt::Expr(e) => spec_compile_expr(c, e, Some(ret)),
        ExprStmt::Block(stmts) => {
            let c1 = spec_push_scope(c);
            let (c2, r) = spec_compile_block_tail(c1, stmts@, 0, ret);
            match r {
                Err(er) => (c2, Err(er)),
                Ok(v) => (spec_pop_scope(c2), Ok(v)),
            }
        },
    }
}

/// Lower a function-body block: every statement in order, and the value
/// of the final one — when it is a bare expression, built against the
/// declared return type — is the block's value.
pub open spec fn spec_compile_block_tail(c: CtxV, stmts: Seq<Statement>, k: int, ret: Type) -> (
    CtxV,
    Result<TypedValueV, ErrV>,
)
    decreases stmts, stmts.len() - k,
{
    if k < 0 || k >= stmts.len() {
        (c, Ok(void_tv()))
    } else if k == stmts.len() - 1 {
        match stmts[k] {
            Statement::Expr(ExprStmt::Expr(e)) => spec_compile_expr(c, e, Some(ret)),
            _ => spec_compile_stmt(c, stmts[k]),
        }
    } else {
        let (c1, r1) = spec_compile_stmt(c, stmts[k]);
        match r1 {
            Err(er) => (c1, Err(er)),
            Ok(_) => spec_compile_block_tail(c1, stmts, k + 1, ret),
        }
    }
}

/// Lower a function declaration. Without a body, the signature is
/// declared and that is the terminal state. With one, the signature is
/// registered first — so the body may call its own function — then the
/// body is lowered, the return is emitted against the declared return
/// type, the parameter scope is dropped, and the cursor returns to where
/// it stood before.
pub open spec fn spec_compile_fdecl(c: CtxV, st: Statement) -> (CtxV, Result<TypedValueV, ErrV>)
    recommends
        st is Function,
    decreases st, 2int,
{
    match st {
        Statement::Function(fd) => {
            match fd.body {
                None => {
                    let (c1, r1) = spec_declare(
                        c,
                        fd.name@,
                        fd.return_type@,
                        crate::builder::decl_ty_names(decls_view(fd.params@)),
                    );
                    match r1 {
                        Err(er) => (c1, Err(er)),
                        Ok(_) => (c1, Ok(void_tv())),
                    }
                },
                Some(body) => {
                    let saved = c.cur;
                    let (c1, r1) = spec_define(c, fd.name@, fd.return_type@, decls_view(fd.params@));
                    match r1 {
                        Err(er) => (c1, Err(er)),
                        Ok(fi) => {
                            let ret = c1.module->Some_0.funcs[fi].ret;
                            let (c2, r2) = spec_compile_body(c1, body, ret);
                            match r2 {
                                Err(er) => (c2, Err(er)),
                                Ok(v) => {
                                    if !(ret is Void) && !ty_eq(v.ty, ret) {
                                        (c2, Err(ErrV::TypeMismatch { expected: ret, actual: v.ty }))
                                    } else {
                                        let rv = if ret is Void {
                                            None
                                        } else {
                                            Some(v)
                                        };
                                        let (c3, _) = spec_ret(c2, rv);
                                        let c4 = spec_pop_scope(c3);
                                        (CtxV { cur: saved, ..c4 }, Ok(void_tv()))
                                    }
                                },
                            }
                        },
                    }
                },
            }
        },
        _ => (c, Err(ErrV::UnsupportedConstruct)),
    }
}

/// Lower a whole program, statement by statement.
pub open spec fn spec_compile_program(c: CtxV, p: Program) -> (CtxV, Option<ErrV>) {
    spec_compile_stmts(c, p.stmts@, 0)
}

/// How a successful lowering step may move the context: the cursor keeps
/// its presence and its function, the module stays, the scope depth is
/// restored, the current function's blocks only grow, the terminators of
/// blocks other than the one under the cursor stand untouched, and the
/// cursor ends on the same block or on one created underway — open
/// either way.
pub open spec fn advances(a: CtxV, b: CtxV) -> bool {
    &&& (b.cur is Some <==> a.cur is Some)
    &&& (a.module is Some ==> b.module is Some)
    &&& b.scopes.len() == a.scopes.len()
    &&& ready(b)
    &&& (a.module matches Some(am) ==> {
        let bm = b.module->Some_0;
        &&& bm.funcs.len() >= am.funcs.len()
        &&& forall|fj: int|
            0 <= fj < am.funcs.len() && (a.cur is Some ==> fj != a.cur->Some_0.func)
                ==> bm.funcs[fj] == am.funcs[fj]
    })
    &&& (a.cur matches Some(ca) ==> {
        let ab = a.module->Some_0.funcs[ca.func].blocks;
        let bb = b.module->Some_0.funcs[ca.func].blocks;
        &&& b.cur->Some_0.func == ca.func
        &&& (b.cur->Some_0.blk == ca.blk || b.cur->Some_0.blk >= ab.len())
        &&& bb.len() >= ab.len()
        &&& forall|j: int|
            0 <= j < ab.len() && j != ca.blk ==> bb[j].term == ab[j].term
    })
}

/// Appending an instruction to the open block under the cursor is an
/// advance, whatever the counter did.
pub proof fn lemma_append_advances(c: CtxV, m2: crate::ir::ModuleV, cur: crate::context::CursorV, i: crate::ir::InstV)
    requires
        c.wf(),
        c.cursor_open(),
        c.cur == Some(cur),
        m2.funcs == c.module->Some_0.funcs,
    ensures
        advances(c, crate::emit::with_module(c, crate::emit::append_inst(m2, cur, i))),
        crate::emit::with_module(c, crate::emit::append_inst(m2, cur, i)).cur == c.cur,
{
    let b = crate::emit::with_module(c, crate::emit::append_inst(m2, cur, i));
    assert(b.module->Some_0.funcs[cur.func].blocks[cur.blk].term == c.module->Some_0.funcs[cur.func].blocks[cur.blk].term);
    assert(b.cursor_open());
}

// --- the executable compiler ------------------------------------------------

impl Compiler {
    /// Lower one expression; see `spec_compile_expr`.
    pub fn compile_expression(
        &mut self,
        e: &Expression,
        expected: Option<&std::rc::Rc<Type>>,
    ) -> (r: Result<TypedValue, CompileError>)
        requires
            ready(old(self)@),
        ensures
            ({
                let xv = match expected {
                    Some(t) => Some(**t),
                    None => None,
                };
                let (sc, sr) = spec_compile_expr(old(self)@, *e, xv);
                &&& final(self)@ == sc
                &&& match r {
                    Ok(tv) => sr == Ok::<TypedValueV, ErrV>(tv@),
                    Err(er) => sr == Err::<TypedValueV, ErrV>(er@),
                }
            }),
            final(self)@.wf(),
            r is Ok ==> advances(old(self)@, final(self)@),
        decreases *e, 3int,
    {
        match e {
            Expression::NumberLiteral(num) => {
                let target: std::rc::Rc<Type> = match expected {
                    Some(t) => crate::types::dup_type(t),
                    None => crate::types::share_type(Type::Number),
                };
                crate::ops::constant_number(*num, &target)
            },
            Expression::StringLiteral(_) => {
                let target: std::rc::Rc<Type> = match expected {
                    Some(t) => crate::types::dup_type(t),
                    None => crate::types::share_type(Type::Number),
                };
                Err(CompileError::InvalidConstantForType(target))
            },
            Expression::VariableReference(name) => {
                let slot = match self.lookup(name) {
                    Ok(s) => s,
                    Err(er) => {
                        return Err(er);
                    },
                };
                let r = self.emit_load(&slot);
                proof {
                    if r is Ok {
                        let c = old(self)@;
                        let m = c.module->Some_0;
                        lemma_append_advances(
                            c,
                            crate::ops::bump(m),
                            c.cur->Some_0,
                            crate::ir::InstV::Load {
                                dst: m.counter,
                                ptr: crate::emit::arg_val(slot@),
                                ty: slot@.ty,
                            },
                        );
                    }
                }
                r
            },
            Expression::VariableDeclaration { .. } => self.compile_vardecl(e),
            Expression::BinaryOperator { .. } => self.compile_binary_expr(e),
            Expression::Comparison { .. } => self.compile_comparison_expr(e),
            Expression::FunctionCall { .. } => self.compile_call_expr(e),
            Expression::IfExpression { .. } => self.compile_if_expr(e),
            Expression::WhileExpression { .. } => self.compile_while_expr(e),
            Expression::ForExpression { .. } => self.compile_for_expr(e),
        }
    }

    /// Lower a variable declaration; see `spec_compile_vardecl`.
    fn compile_vardecl(&mut self, e: &Expression) -> (r: Result<TypedValue, CompileError>)
        requires
            ready(old(self)@),
        ensures
            final(self)@ == spec_compile_vardecl(old(self)@, *e).0,
            ({
                let sr = spec_compile_vardecl(old(self)@, *e).1;
                match r {
                    Ok(tv) => sr == Ok::<TypedValueV, ErrV>(tv@),
                    Err(er) => sr == Err::<TypedValueV, ErrV>(er@),
                }
            }),
            final(self)@.wf(),
            r is Ok ==> advances(old(self)@, final(self)@),
        decreases *e, 2int,
    {
        match e {
            Expression::VariableDeclaration { ty_name, name, init } => {
                let ty = match self.resolve_type(ty_name) {
                    Ok(t) => t,
                    Err(er) => {
                        return Err(er);
                    },
                };
                let v = match self.compile_expression(init, Some(&ty)) {
                    Ok(v) => v,
                    Err(er) => {
                        return Err(er);
                    },
                };
                if !v.ty.eq_type(&ty) {
                    return Err(CompileError::TypeMismatch {
                        expected: crate::types::dup_type(&ty),
                        actual: crate::types::dup_type(&v.ty),
                    });
                }
                let ghost c1 = self@;
                let slot = match self.emit_slot(&v) {
                    Ok(s) => s,
                    Err(er) => {
                        return Err(er);
                    },
                };
                proof {
                    let m = c1.module->Some_0;
                    let cur = c1.cur->Some_0;
                    let m1 = crate::emit::append_inst(
                        crate::ops::bump(m),
                        cur,
                        crate::ir::InstV::Alloca { dst: m.counter, ty: v@.ty },
                    );
                    lemma_append_advances(
                        c1,
                        crate::ops::bump(m),
                        cur,
                        crate::ir::InstV::Alloca { dst: m.counter, ty: v@.ty },
                    );
                    lemma_append_advances(
                        crate::emit::with_module(c1, m1),
                        m1,
                        cur,
                        crate::ir::InstV::Store {
                            ptr: crate::ir::Val::Reg(m.counter),
                            val: crate::emit::arg_val(v@),
                            ty: v@.ty,
                        },
                    );
                }
                self.bind(name.clone(), slot);
                Ok(v)
            },
            _ => Err(CompileError::UnsupportedConstruct),
        }
    }

    /// Lower an arithmetic expression; see `spec_compile_binary`.
    fn compile_binary_expr(&mut self, e: &Expression) -> (r: Result<TypedValue, CompileError>)
        requires
            ready(old(self)@),
        ensures
            final(self)@ == spec_compile_binary(old(self)@, *e).0,
            ({
                let sr = spec_compile_binary(old(self)@, *e).1;
                match r {
                    Ok(tv) => sr == Ok::<TypedValueV, ErrV>(tv@),
                    Err(er) => sr == Err::<TypedValueV, ErrV>(er@),
                }
            }),
            final(self)@.wf(),
            r is Ok ==> advances(old(self)@, final(self)@),
        decreases *e, 2int,
    {
        match e {
            Expression::BinaryOperator { op, left, right } => {
                let l = match self.compile_expression(left, None) {
                    Ok(v) => v,
                    Err(er) => {
                        return Err(er);
                    },
                };
                let rv = match self.compile_expression(right, Some(&l.ty)) {
                    Ok(v) => v,
                    Err(er) => {
                        return Err(er);
                    },
                };
                let ghost c2 = self@;
                let res = self.emit_binary_op(*op, &l, &rv);
                proof {
                    if res is Ok {
                        let m = c2.module->Some_0;
                        lemma_append_advances(
                            c2,
                            crate::ops::bump(m),
                            c2.cur->Some_0,
                            crate::ir::InstV::Bin {
                                dst: m.counter,
                                op: *op,
                                ty: l@.ty,
                                lhs: crate::emit::arg_val(l@),
                                rhs: crate::emit::arg_val(rv@),
                            },
                        );
                    }
                }
                res
            },
            _ => Err(CompileError::UnsupportedConstruct),
        }
    }

    /// Lower a comparison; see `spec_compile_comparison`.
    fn compile_comparison_expr(&mut self, e: &Expression) -> (r: Result<TypedValue, CompileError>)
        requires
            ready(old(self)@),
        ensures
            final(self)@ == spec_compile_comparison(old(self)@, *e).0,
            ({
                let sr = spec_compile_comparison(old(self)@, *e).1;
                match r {
                    Ok(tv) => sr == Ok::<TypedValueV, ErrV>(tv@),
                    Err(er) => sr == Err::<TypedValueV, ErrV>(er@),
                }
            }),
            final(self)@.wf(),
            r is Ok ==> advances(old(self)@, final(self)@),
        decreases *e, 2int,
    {
        match e {
            Expression::Comparison { op, left, right } => {
                let l = match self.compile_expression(left, None) {
                    Ok(v) => v,
                    Err(er) => {
                        return Err(er);
                    },
                };
                let rv = match self.compile_expression(right, Some(&l.ty)) {
                    Ok(v) => v,
                    Err(er) => {
                        return Err(er);
                    },
                };
                let ghost c2 = self@;
                let res = self.emit_comparison(*op, &l, &rv);
                proof {
                    if res is Ok {
                        let m = c2.module->Some_0;
                        lemma_append_advances(
                            c2,
                            crate::ops::bump(m),
                            c2.cur->Some_0,
                            crate::ir::InstV::Cmp {
                                dst: m.counter,
                                op: *op,
                                ty: l@.ty,
                                lhs: crate::emit::arg_val(l@),
                                rhs: crate::emit::arg_val(rv@),
                            },
                        );
                    }
                }
                res
            },
            _ => Err(CompileError::UnsupportedConstruct),
        }
    }

    /// Lower the arguments of a call, left to right; see
    /// `spec_compile_args`.
    fn compile_args(&mut self, args: &Vec<Expression>, k: usize) -> (r: Result<
        Vec<TypedValue>,
        CompileError,
    >)
        requires
            ready(old(self)@),
        ensures
            final(self)@ == spec_compile_args(old(self)@, args@, k as int).0,
            ({
                let sr = spec_compile_args(old(self)@, args@, k as int).1;
                match r {
                    Ok(vs) => sr == Ok::<Seq<TypedValueV>, ErrV>(crate::ir::tvs_view(vs@)),
                    Err(er) => sr == Err::<Seq<TypedValueV>, ErrV>(er@),
                }
            }),
            final(self)@.wf(),
            r is Ok ==> advances(old(self)@, final(self)@),
        decreases args@, args@.len() - k,
    {
        if k >= args.len() {
            let out: Vec<TypedValue> = Vec::new();
            proof {
                assert(crate::ir::tvs_view(out@) =~= Seq::<TypedValueV>::empty());
            }
            return Ok(out);
        }
        proof {
            assert(decreases_to!(args@ => args@[k as int]));
        }
        let v = match self.compile_expression(&args[k], None) {
            Ok(v) => v,
            Err(er) => {
                return Err(er);
            },
        };
        let mut rest = match self.compile_args(args, k + 1) {
            Ok(vs) => vs,
            Err(er) => {
                return Err(er);
            },
        };
        let ghost restv = rest@;
        rest.insert(0, v);
        proof {
            assert(crate::ir::tvs_view(rest@) =~= seq![v@] + crate::ir::tvs_view(restv));
        }
        Ok(rest)
    }

    /// Lower a call; see `spec_compile_call`.
    fn compile_call_expr(&mut self, e: &Expression) -> (r: Result<TypedValue, CompileError>)
        requires
            ready(old(self)@),
        ensures
            final(self)@ == spec_compile_call(old(self)@, *e).0,
            ({
                let sr = spec_compile_call(old(self)@, *e).1;
                match r {
                    Ok(tv) => sr == Ok::<TypedValueV, ErrV>(tv@),
                    Err(er) => sr == Err::<TypedValueV, ErrV>(er@),
                }
            }),
            final(self)@.wf(),
            r is Ok ==> advances(old(self)@, final(self)@),
        decreases *e, 2int,
    {
        match e {
            Expression::FunctionCall { name, args } => {
                let vs = match self.compile_args(args, 0) {
                    Ok(vs) => vs,
                    Err(er) => {
                        return Err(er);
                    },
                };
                let ghost c1 = self@;
                let res = self.emit_call(name, &vs);
                proof {
                    if res is Ok {
                        let m = c1.module->Some_0;
                        let sr = crate::ops::spec_call(c1, name@, crate::ir::tvs_view(vs@));
                        let fi = crate::ir::spec_find_func(m.funcs, name@)->Some_0;
                        if m.funcs[fi].ret is Void {
                            lemma_append_advances(
                                c1,
                                m,
                                c1.cur->Some_0,
                                crate::ir::InstV::Call {
                                    dst: None,
                                    callee: name@,
                                    ret: m.funcs[fi].ret,
                                    args: crate::ops::spec_args_vals(crate::ir::tvs_view(vs@)),
                                },
                            );
                        } else {
                            lemma_append_advances(
                                c1,
                                crate::ops::bump(m),
                                c1.cur->Some_0,
                                crate::ir::InstV::Call {
                                    dst: Some(m.counter),
                                    callee: name@,
                                    ret: m.funcs[fi].ret,
                                    args: crate::ops::spec_args_vals(crate::ir::tvs_view(vs@)),
                                },
                            );
                        }
                    }
                }
                res
            },
            _ => Err(CompileError::UnsupportedConstruct),
        }
    }

    /// Lower a conditional with a value; see `spec_compile_if`.
    fn compile_if_expr(&mut self, e: &Expression) -> (r: Result<TypedValue, CompileError>)
        requires
            ready(old(self)@),
        ensures
            final(self)@ == spec_compile_if(old(self)@, *e).0,
            ({
                let sr = spec_compile_if(old(self)@, *e).1;
                match r {
                    Ok(tv) => sr == Ok::<TypedValueV, ErrV>(tv@),
                    Err(er) => sr == Err::<TypedValueV, ErrV>(er@),
                }
            }),
            final(self)@.wf(),
            r is Ok ==> advances(old(self)@, final(self)@),
        decreases *e, 2int,
    {
        match e {
            Expression::IfExpression { cond, then_branch, else_branch } => {
                let ghost a = old(self)@;
                let cv = match self.compile_expression(cond, None) {
                    Ok(v) => v,
                    Err(er) => {
                        return Err(er);
                    },
                };
                let ghost c1 = self@;
                let bv = match self.condition_to_bool(&cv) {
                    Ok(v) => v,
                    Err(er) => {
                        return Err(er);
                    },
                };
                let ghost c2 = self@;
                proof {
                    let m = c1.module->Some_0;
                    lemma_append_advances(
                        c1,
                        crate::ops::bump(m),
                        c1.cur->Some_0,
                        crate::ir::InstV::Cmp {
                            dst: m.counter,
                            op: crate::ast::CmpKind::Ne,
                            ty: cv@.ty,
                            lhs: crate::emit::arg_val(cv@),
                            rhs: crate::emit::zero_of(cv@.ty),
                        },
                    );
                }
                let tb = match self.new_block("then") {
                    Ok(b) => b,
                    Err(er) => {
                        return Err(er);
                    },
                };
                let eb = match self.new_block("else") {
                    Ok(b) => b,
                    Err(er) => {
                        proof {
                            assert(false);
                        }
                        return Err(er);
                    },
                };
                let mb = match self.new_block("ifcont") {
                    Ok(b) => b,
                    Err(er) => {
                        proof {
                            assert(false);
                        }
                        return Err(er);
                    },
                };
                let ghost c5 = self@;
                match self.branch_conditional(&bv, tb, eb) {
                    Ok(_) => {},
                    Err(er) => {
                        proof {
                            assert(false);
                        }
                        return Err(er);
                    },
                }
                self.position(tb);
                self.push_scope();
                let ghost c7 = self@;
                let tv = match self.compile_expr_stmt(then_branch) {
                    Ok(v) => v,
                    Err(er) => {
                        return Err(er);
                    },
                };
                let ghost c8 = self@;
                self.pop_scope();
                let tpred = self.cursor.unwrap().blk;
                let ghost c9 = self@;
                match self.branch_unconditional(mb) {
                    Ok(_) => {},
                    Err(er) => {
                        proof {
                            assert(false);
                        }
                        return Err(er);
                    },
                }
                self.position(eb);
                self.push_scope();
                let ghost c11 = self@;
                let ev = match self.compile_expr_stmt(else_branch) {
                    Ok(v) => v,
                    Err(er) => {
                        return Err(er);
                    },
                };
                let ghost c12 = self@;
                self.pop_scope();
                let epred = self.cursor.unwrap().blk;
                let ghost c13 = self@;
                match self.branch_unconditional(mb) {
                    Ok(_) => {},
                    Err(er) => {
                        proof {
                            assert(false);
                        }
                        return Err(er);
                    },
                }
                self.position(mb);
                let ghost c15 = self@;
                let res = self.merge_phi(&tv, tpred, &ev, epred);
                proof {
                    if res is Ok {
                        if !(tv@.ty is Void) {
                            let m = c15.module->Some_0;
                            lemma_append_advances(
                                c15,
                                crate::ops::bump(m),
                                c15.cur->Some_0,
                                crate::ir::InstV::Phi {
                                    dst: m.counter,
                                    ty: tv@.ty,
                                    a: crate::emit::arg_val(tv@),
                                    ablk: tpred as int,
                                    b: crate::emit::arg_val(ev@),
                                    bblk: epred as int,
                                },
                            );
                        }
                        assert(advances(a, final(self)@));
                    }
                }
                res
            },
            _ => Err(CompileError::UnsupportedConstruct),
        }
    }

    /// Lower a pre-tested loop; see `spec_compile_while`.
    fn compile_while_expr(&mut self, e: &Expression) -> (r: Result<TypedValue, CompileError>)
        requires
            ready(old(self)@),
        ensures
            final(self)@ == spec_compile_while(old(self)@, *e).0,
            ({
                let sr = spec_compile_while(old(self)@, *e).1;
                match r {
                    Ok(tv) => sr == Ok::<TypedValueV, ErrV>(tv@),
                    Err(er) => sr == Err::<TypedValueV, ErrV>(er@),
                }
            }),
            final(self)@.wf(),
            r is Ok ==> advances(old(self)@, final(self)@),
        decreases *e, 2int,
    {
        match e {
            Expression::WhileExpression { cond, body } => {
                let ghost a = old(self)@;
                let hb = match self.new_block("loophead") {
                    Ok(b) => b,
                    Err(er) => {
                        return Err(er);
                    },
                };
                let bb = match self.new_block("loopbody") {
                    Ok(b) => b,
                    Err(er) => {
                        proof {
                            assert(false);
                        }
                        return Err(er);
                    },
                };
                let xb = match self.new_block("loopexit") {
                    Ok(b) => b,
                    Err(er) => {
                        proof {
                            assert(false);
                        }
                        return Err(er);
                    },
                };
                match self.branch_unconditional(hb) {
                    Ok(_) => {},
                    Err(er) => {
                        proof {
                            assert(false);
                        }
                        return Err(er);
                    },
                }
                self.position(hb);
                let ghost c5 = self@;
                let cv = match self.compile_expression(cond, None) {
                    Ok(v) => v,
                    Err(er) => {
                        return Err(er);
                    },
                };
                let ghost c6 = self@;
                let bv = match self.condition_to_bool(&cv) {
                    Ok(v) => v,
                    Err(er) => {
                        return Err(er);
                    },
                };
                proof {
                    let m = c6.module->Some_0;
                    lemma_append_advances(
                        c6,
                        crate::ops::bump(m),
                        c6.cur->Some_0,
                        crate::ir::InstV::Cmp {
                            dst: m.counter,
                            op: crate::ast::CmpKind::Ne,
                            ty: cv@.ty,
                            lhs: crate::emit::arg_val(cv@),
                            rhs: crate::emit::zero_of(cv@.ty),
                        },
                    );
                }
                match self.branch_conditional(&bv, bb, xb) {
                    Ok(_) => {},
                    Err(er) => {
                        proof {
                            assert(false);
                        }
                        return Err(er);
                    },
                }
                self.position(bb);
                self.push_scope();
                let ghost c9 = self@;
                match self.compile_expr_stmt(body) {
                    Ok(_) => {},
                    Err(er) => {
                        return Err(er);
                    },
                }
                let ghost c10 = self@;
                self.pop_scope();
                match self.branch_unconditional(hb) {
                    Ok(_) => {},
                    Err(er) => {
                        proof {
                            assert(false);
                        }
                        return Err(er);
                    },
                }
                self.position(xb);
                proof {
                    assert(advances(a, self@));
                }
                Ok(TypedValue { ty: crate::types::share_type(Type::Void), val: None })
            },
            _ => Err(CompileError::UnsupportedConstruct),
        }
    }

    /// Lower a stepped loop; see `spec_compile_for`.
    fn compile_for_expr(&mut self, e: &Expression) -> (r: Result<TypedValue, CompileError>)
        requires
            ready(old(self)@),
        ensures
            final(self)@ == spec_compile_for(old(self)@, *e).0,
            ({
                let sr = spec_compile_for(old(self)@, *e).1;
                match r {
                    Ok(tv) => sr == Ok::<TypedValueV, ErrV>(tv@),
                    Err(er) => sr == Err::<TypedValueV, ErrV>(er@),
                }
            }),
            final(self)@.wf(),
            r is Ok ==> advances(old(self)@, final(self)@),
        decreases *e, 2int,
    {
        match e {
            Expression::ForExpression { init, cond, step, body } => {
                let ghost a = old(self)@;
                self.push_scope();
                match self.compile_expression(init, None) {
                    Ok(_) => {},
                    Err(er) => {
                        return Err(er);
                    },
                }
                let hb = match self.new_block("loophead") {
                    Ok(b) => b,
                    Err(er) => {
                        return Err(er);
                    },
                };
                let bb = match self.new_block("loopbody") {
                    Ok(b) => b,
                    Err(er) => {
                        proof {
                            assert(false);
                        }
                        return Err(er);
                    },
                };
                let xb = match self.new_block("loopexit") {
                    Ok(b) => b,
                    Err(er) => {
                        proof {
                            assert(false);
                        }
                        return Err(er);
                    },
                };
                match self.branch_unconditional(hb) {
                    Ok(_) => {},
                    Err(er) => {
                        proof {
                            assert(false);
                        }
                        return Err(er);
                    },
                }
                self.position(hb);
                let cv = match self.compile_expression(cond, None) {
                    Ok(v) => v,
                    Err(er) => {
                        return Err(er);
                    },
                };
                let ghost c6 = self@;
                let bv = match self.condition_to_bool(&cv) {
                    Ok(v) => v,
                    Err(er) => {
                        return Err(er);
                    },
                };
                proof {
                    let m = c6.module->Some_0;
                    lemma_append_advances(
                        c6,
                        crate::ops::bump(m),
                        c6.cur->Some_0,
                        crate::ir::InstV::Cmp {
                            dst: m.counter,
                            op: crate::ast::CmpKind::Ne,
                            ty: cv@.ty,
                            lhs: crate::emit::arg_val(cv@),
                            rhs: crate::emit::zero_of(cv@.ty),
                        },
                    );
                }
                match self.branch_conditional(&bv, bb, xb) {
                    Ok(_) => {},
                    Err(er) => {
                        proof {
                            assert(false);
                        }
                        return Err(er);
                    },
                }
                self.position(bb);
                self.push_scope();
                match self.compile_expr_stmt(body) {
                    Ok(_) => {},
                    Err(er) => {
                        return Err(er);
                    },
                }
                match self.compile_expression(step, None) {
                    Ok(_) => {},
                    Err(er) => {
                        return Err(er);
                    },
                }
                self.pop_scope();
                match self.branch_unconditional(hb) {
                    Ok(_) => {},
                    Err(er) => {
                        proof {
                            assert(false);
                        }
                        return Err(er);
                    },
                }
                self.position(xb);
                self.pop_scope();
                proof {
                    assert(advances(a, self@));
                }
                Ok(TypedValue { ty: crate::types::share_type(Type::Void), val: None })
            },
            _ => Err(CompileError::UnsupportedConstruct),
        }
    }

    /// Lower an expression statement; see `spec_compile_expr_stmt`.
    fn compile_expr_stmt(&mut self, es: &ExprStmt) -> (r: Result<TypedValue, CompileError>)
        requires
            ready(old(self)@),
        ensures
            final(self)@ == spec_compile_expr_stmt(old(self)@, *es).0,
            ({
                let sr = spec_compile_expr_stmt(old(self)@, *es).1;
                match r {
                    Ok(tv) => sr == Ok::<TypedValueV, ErrV>(tv@),
                    Err(er) => sr == Err::<TypedValueV, ErrV>(er@),
                }
            }),
            final(self)@.wf(),
            r is Ok ==> advances(old(self)@, final(self)@),
        decreases *es, 3int,
    {
        match es {
            ExprStmt::Expr(e) => self.compile_expression(e, None),
            ExprStmt::Block(stmts) => {
                self.push_scope();
                match self.compile_stmts(stmts, 0) {
                    Ok(_) => {},
                    Err(er) => {
                        return Err(er);
                    },
                }
                self.pop_scope();
                Ok(TypedValue { ty: crate::types::share_type(Type::Void), val: None })
            },
        }
    }

    /// Lower a run of statements from position `k` on; see
    /// `spec_compile_stmts`.
    fn compile_stmts(&mut self, stmts: &Vec<Statement>, k: usize) -> (r: Result<
        (),
        CompileError,
    >)
        requires
            ready(old(self)@),
        ensures
            final(self)@ == spec_compile_stmts(old(self)@, stmts@, k as int).0,
            crate::context::unit_outcome(r, spec_compile_stmts(old(self)@, stmts@, k as int).1),
            final(self)@.wf(),
            r is Ok ==> advances(old(self)@, final(self)@),
        decreases stmts@, stmts@.len() - k,
    {
        if k >= stmts.len() {
            return Ok(());
        }
        proof {
            assert(decreases_to!(stmts@ => stmts@[k as int]));
        }
        match self.compile_stmt(&stmts[k]) {
            Ok(_) => {},
            Err(er) => {
                return Err(er);
            },
        }
        self.compile_stmts(stmts, k + 1)
    }

    /// Lower one statement; see `spec_compile_stmt`.
    fn compile_stmt(&mut self, st: &Statement) -> (r: Result<TypedValue, CompileError>)
        requires
            ready(old(self)@),
        ensures
            final(self)@ == spec_compile_stmt(old(self)@, *st).0,
            ({
                let sr = spec_compile_stmt(old(self)@, *st).1;
                match r {
                    Ok(tv) => sr == Ok::<TypedValueV, ErrV>(tv@),
                    Err(er) => sr == Err::<TypedValueV, ErrV>(er@),
                }
            }),
            final(self)@.wf(),
            r is Ok ==> advances(old(self)@, final(self)@),
        decreases *st, 3int,
    {
        match st {
            Statement::Expr(es) => self.compile_expr_stmt(es),
            Statement::Function(_) => self.compile_fdecl(st),
        }
    }

    /// Lower a function body; see `spec_compile_body`.
    fn compile_body(&mut self, es: &ExprStmt, ret: &std::rc::Rc<Type>) -> (r: Result<
        TypedValue,
        CompileError,
    >)
        requires
            ready(old(self)@),
        ensures
            final(self)@ == spec_compile_body(old(self)@, *es, **ret).0,
            ({
                let sr = spec_compile_body(old(self)@, *es, **ret).1;
                match r {
                    Ok(tv) => sr == Ok::<TypedValueV, ErrV>(tv@),
                    Err(er) => sr == Err::<TypedValueV, ErrV>(er@),
                }
            }),
            final(self)@.wf(),
            r is Ok ==> advances(old(self)@, final(self)@),
        decreases *es, 3int,
    {
        match es {
            ExprStmt::Expr(e) => self.compile_expression(e, Some(ret)),
            ExprStmt::Block(stmts) => {
                self.push_scope();
                let v = match self.compile_block_tail(stmts, 0, ret) {
                    Ok(v) => v,
                    Err(er) => {
                        return Err(er);
                    },
                };
                self.pop_scope();
                Ok(v)
            },
        }
    }

    /// Lower a function-body block from position `k` on; see
    /// `spec_compile_block_tail`.
    fn compile_block_tail(
        &mut self,
        stmts: &Vec<Statement>,
        k: usize,
        ret: &std::rc::Rc<Type>,
    ) -> (r: Result<TypedValue, CompileError>)
        requires
            ready(old(self)@),
        ensures
            final(self)@ == spec_compile_block_tail(old(self)@, stmts@, k as int, **ret).0,
            ({
                let sr = spec_compile_block_tail(old(self)@, stmts@, k as int, **ret).1;
                match r {
                    Ok(tv) => sr == Ok::<TypedValueV, ErrV>(tv@),
                    Err(er) => sr == Err::<TypedValueV, ErrV>(er@),
                }
            }),
            final(self)@.wf(),
            r is Ok ==> advances(old(self)@, final(self)@),
        decreases stmts@, stmts@.len() - k,
    {
        if k >= stmts.len() {
            return Ok(TypedValue { ty: crate::types::share_type(Type::Void), val: None });
        }
        proof {
            assert(decreases_to!(stmts@ => stmts@[k as int]));
        }
        if k == stmts.len() - 1 {
            match &stmts[k] {
                Statement::Expr(ExprStmt::Expr(e)) => {
                    return self.compile_expression(e, Some(ret));
                },
                _ => {
                    return self.compile_stmt(&stmts[k]);
                },
            }
        }
        match self.compile_stmt(&stmts[k]) {
            Ok(_) => {},
            Err(er) => {
                return Err(er);
            },
        }
        self.compile_block_tail(stmts, k + 1, ret)
    }

    /// Lower a function declaration; see `spec_compile_fdecl`.
    fn compile_fdecl(&mut self, st: &Statement) -> (r: Result<TypedValue, CompileError>)
        requires
            ready(old(self)@),
        ensures
            final(self)@ == spec_compile_fdecl(old(self)@, *st).0,
            ({
                let sr = spec_compile_fdecl(old(self)@, *st).1;
                match r {
                    Ok(tv) => sr == Ok::<TypedValueV, ErrV>(tv@),
                    Err(er) => sr == Err::<TypedValueV, ErrV>(er@),
                }
            }),
            final(self)@.wf(),
            r is Ok ==> advances(old(self)@, final(self)@),
        decreases *st, 2int,
    {
        match st {
            Statement::Function(fd) => {
                match &fd.body {
                    None => {
                        let n: usize = fd.params.len();
                        let mut tynames: Vec<String> = Vec::new();
                        let mut i: usize = 0;
                        while i < n
                            invariant
                                i <= n,
                                n == fd.params@.len(),
                                tynames@.len() == i,
                                forall|j: int|
                                    0 <= j < i ==> tynames@[j]@ == fd.params@[j].ty_name@,
                            decreases n - i,
                        {
                            tynames.push(fd.params[i].ty_name.clone());
                            i += 1;
                        }
                        proof {
                            assert(crate::builder::strings_view(tynames@)
                                =~= crate::builder::decl_ty_names(decls_view(fd.params@)));
                        }
                        match self.declare_function(&fd.name, &fd.return_type, &tynames) {
                            Ok(_) => Ok(
                                TypedValue { ty: crate::types::share_type(Type::Void), val: None },
                            ),
                            Err(er) => Err(er),
                        }
                    },
                    Some(body) => {
                        let ghost a = old(self)@;
                        let saved = self.cursor;
                        let fi = match self.define_function(&fd.name, &fd.return_type, &fd.params)
                            {
                            Ok(fi) => fi,
                            Err(er) => {
                                return Err(er);
                            },
                        };
                        let ret: std::rc::Rc<Type> = match &self.module {
                            Some(m) => crate::types::dup_type(&m.funcs[fi].ret),
                            None => crate::types::share_type(Type::Void),
                        };
                        proof {
                            assert(decreases_to!(*st => *body)) by {
                                assert(decreases_to!(*st => *fd));
                                assert(decreases_to!(*fd => fd.body));
                                assert(decreases_to!(fd.body => *body));
                            }
                        }
                        let v = match self.compile_body(body, &ret) {
                            Ok(v) => v,
                            Err(er) => {
                                return Err(er);
                            },
                        };
                        if !ret.is_void() && !v.ty.eq_type(&ret) {
                            return Err(CompileError::TypeMismatch {
                                expected: crate::types::dup_type(&ret),
                                actual: crate::types::dup_type(&v.ty),
                            });
                        }
                        let rv: Option<&TypedValue> = if ret.is_void() {
                            None
                        } else {
                            Some(&v)
                        };
                        match self.emit_ret(rv) {
                            Ok(_) => {},
                            Err(er) => {
                                proof {
                                    assert(false);
                                }
                                return Err(er);
                            },
                        }
                        self.pop_scope();
                        self.cursor = saved;
                        proof {
                            assert(final(self)@ =~~= spec_compile_fdecl(a, *st).0);
                            assert(advances(a, final(self)@));
                        }
                        Ok(TypedValue { ty: crate::types::share_type(Type::Void), val: None })
                    },
                }
            },
            _ => Err(CompileError::UnsupportedConstruct),
        }
    }

    /// Lower a whole program, statement by statement; the first error
    /// aborts the compilation and is handed back.
    pub fn compile_program(&mut self, p: &Program) -> (r: Result<(), CompileError>)
        requires
            ready(old(self)@),
        ensures
            final(self)@ == spec_compile_program(old(self)@, *p).0,
            crate::context::unit_outcome(r, spec_compile_program(old(self)@, *p).1),
            final(self)@.wf(),
            r is Ok ==> advances(old(self)@, final(self)@),
    {
        self.compile_stmts(&p.stmts, 0)
    }
}

} // verus!
