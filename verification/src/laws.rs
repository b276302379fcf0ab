//! The engine's stated laws, proved once and for all over the ghost
//! compiler. Every executable entry point is pinned to its ghost
//! counterpart, so each law carries over to every run of the executable
//! engine.

use vstd::prelude::*;
use crate::ast::{BinOpKind, Expression, Program};
use crate::builder::{bind_params, spec_declare, spec_define};
use crate::compiler::{spec_compile_expr, spec_compile_if, spec_compile_program};
use crate::context::CtxV;
use crate::diag::ErrV;
use crate::ir::{spec_find_func, InstV, ParamV, TypedValueV, Val};
use crate::ops::{spec_binary, spec_call};
use crate::render::spec_render_module;
use crate::scopes::lookup_val;
use crate::types::Type;

verus! {

/// Law: the lowering is deterministic. The compiled module and its
/// rendered text are functions of the starting context and the program
/// alone, so compiling one program twice from equal contexts yields
/// byte-identical text. Every executable run returns exactly what the
/// ghost compiler says, so this covers the executable engine as well.
pub proof fn lemma_compiled_text_deterministic(a: CtxV, b: CtxV, p: Program)
    requires
        a == b,
    ensures
        spec_compile_program(a, p) == spec_compile_program(b, p),
        spec_compile_program(a, p).0.module matches Some(m) ==> spec_render_module(m)
            == spec_render_module(spec_compile_program(b, p).0.module->Some_0),
{
}

/// Law: declaring a function with no body registers exactly one more
/// function, carrying the declared name and no basic blocks at all, and
/// touches nothing else in the module.
pub proof fn lemma_declare_registers_bodiless(
    c: CtxV,
    name: Seq<char>,
    ret_name: Seq<char>,
    ptys: Seq<Seq<char>>,
)
    requires
        spec_declare(c, name, ret_name, ptys).1 is Ok,
    ensures
        ({
            let (c1, r) = spec_declare(c, name, ret_name, ptys);
            let m0 = c.module->Some_0;
            let m1 = c1.module->Some_0;
            &&& m1.funcs.len() == m0.funcs.len() + 1
            &&& r->Ok_0 == m0.funcs.len()
            &&& m1.funcs.last().name == name
            &&& m1.funcs.last().blocks.len() == 0
            &&& forall|j: int| 0 <= j < m0.funcs.len() ==> m1.funcs[j] == m0.funcs[j]
        }),
{
    let (c1, r) = spec_declare(c, name, ret_name, ptys);
    let m0 = c.module->Some_0;
    assert(m0.funcs.push(c1.module->Some_0.funcs.last()).last()
        == c1.module->Some_0.funcs.last());
}

/// Two modules of the same shape: the same functions with the same
/// signatures, the same block count, and the same labels and
/// terminators; only the instruction lists and the counter may differ.
pub open spec fn same_shape(m: crate::ir::ModuleV, b: crate::ir::ModuleV) -> bool {
    &&& b.funcs.len() == m.funcs.len()
    &&& forall|fj: int|
        0 <= fj < m.funcs.len() ==> {
            &&& (#[trigger] b.funcs[fj]).blocks.len() == m.funcs[fj].blocks.len()
            &&& b.funcs[fj].name == m.funcs[fj].name
            &&& b.funcs[fj].ret == m.funcs[fj].ret
            &&& b.funcs[fj].params == m.funcs[fj].params
        }
    &&& forall|fj: int, bj: int|
        0 <= fj < m.funcs.len() && 0 <= bj < m.funcs[fj].blocks.len() ==> {
            &&& (#[trigger] b.funcs[fj].blocks[bj]).label == m.funcs[fj].blocks[bj].label
            &&& b.funcs[fj].blocks[bj].term == m.funcs[fj].blocks[bj].term
        }
}

/// `same_shape` chains.
proof fn lemma_same_shape_trans(a: crate::ir::ModuleV, b: crate::ir::ModuleV, c: crate::ir::ModuleV)
    requires
        same_shape(a, b),
        same_shape(b, c),
    ensures
        same_shape(a, c),
{
}

/// Giving the parameters their slots and bindings only appends
/// instructions into the open entry block: no function appears or
/// disappears, and no function gains or loses a block, a label or a
/// terminator.
proof fn lemma_bind_params_preserves_blocks(c: CtxV, params: Seq<ParamV>, k: int)
    requires
        c.cur matches Some(cc) ==> {
            &&& c.module is Some
            &&& 0 <= cc.func < c.module->Some_0.funcs.len()
            &&& 0 <= cc.blk < c.module->Some_0.funcs[cc.func].blocks.len()
        },
    ensures
        ({
            let b = bind_params(c, params, k);
            &&& b.module is Some <==> c.module is Some
            &&& b.cur == c.cur
            &&& c.module matches Some(m) ==> same_shape(m, b.module->Some_0)
        }),
    decreases params.len() - k,
{
    if 0 <= k < params.len() {
        let tv = TypedValueV { ty: params[k].ty, val: Some(Val::Reg(params[k].id)) };
        let (c1, r) = crate::ops::spec_slot(c, tv);
        let c2 = match r {
            Ok(slot) => crate::context::spec_bind(c1, params[k].name, slot),
            Err(_) => c1,
        };
        let b = bind_params(c2, params, k + 1);
        if c.module is Some {
            assert(same_shape(c.module->Some_0, c2.module->Some_0));
            lemma_bind_params_preserves_blocks(c2, params, k + 1);
            lemma_same_shape_trans(c.module->Some_0, c2.module->Some_0, b.module->Some_0);
        } else {
            lemma_bind_params_preserves_blocks(c2, params, k + 1);
        }
    } else {
        if c.module is Some {
            assert(same_shape(c.module->Some_0, c.module->Some_0));
        }
    }
}

/// Law: defining a function registers exactly one more function, which
/// opens with exactly one basic block — the entry block — before any
/// body is lowered; blocks beyond that come only from lowering the body.
pub proof fn lemma_define_opens_single_entry(
    c: CtxV,
    name: Seq<char>,
    ret_name: Seq<char>,
    decls: Seq<(Seq<char>, Seq<char>)>,
)
    requires
        spec_define(c, name, ret_name, decls).1 is Ok,
    ensures
        ({
            let (c1, r) = spec_define(c, name, ret_name, decls);
            let m0 = c.module->Some_0;
            let m1 = c1.module->Some_0;
            let fi = r->Ok_0;
            &&& m1.funcs.len() == m0.funcs.len() + 1
            &&& fi == m0.funcs.len()
            &&& m1.funcs[fi].name == name
            &&& m1.funcs[fi].blocks.len() == 1
            &&& m1.funcs[fi].blocks[0].label == "entry"@ + crate::text::spec_dec(0)
            &&& m1.funcs[fi].blocks[0].term is None
            &&& c1.cur == Some(crate::context::CursorV { func: fi, blk: 0 })
        }),
{
    let m = c.module->Some_0;
    let ret = crate::context::spec_resolve_type(c, ret_name)->Ok_0;
    let params = crate::builder::defined_params(c, decls, m.counter);
    let f = crate::ir::FuncV {
        name,
        params,
        ret,
        blocks: seq![crate::builder::entry_block()],
    };
    let m1 = crate::ir::ModuleV {
        funcs: m.funcs.push(f),
        counter: crate::builder::sat_bumps(m.counter, decls.len() as int),
        ..m
    };
    let c1 = CtxV {
        module: Some(m1),
        cur: Some(crate::context::CursorV { func: m.funcs.len() as int, blk: 0 }),
        ..c
    };
    let c2 = crate::context::spec_push_scope(c1);
    assert(c2.module->Some_0.funcs[m.funcs.len() as int].blocks.len() == 1);
    lemma_bind_params_preserves_blocks(c2, params, 0);
}

/// Law: an arithmetic operation on operands of different types — here
/// `Int32` against `Number` — fails with `TypeMismatch` naming the two
/// types, and leaves the whole context exactly as it was: no instruction
/// is emitted before validation passes.
pub proof fn lemma_mismatched_binary_rejected(c: CtxV, op: BinOpKind, l: TypedValueV, r: TypedValueV)
    requires
        c.module is Some,
        c.cur is Some,
        l.ty is Int32,
        r.ty is Number,
    ensures
        spec_binary(c, op, l, r).0 == c,
        spec_binary(c, op, l, r).1 == Err::<TypedValueV, ErrV>(
            ErrV::TypeMismatch { expected: l.ty, actual: r.ty },
        ),
{
}

/// Law: referencing a variable name that no visible scope binds fails
/// with `UndefinedVariable` naming it, and changes nothing.
pub proof fn lemma_undefined_variable_rejected(
    c: CtxV,
    e: Expression,
    x: Option<Type>,
    n: Seq<char>,
)
    requires
        e matches Expression::VariableReference(name) && name@ == n,
        lookup_val(c.scopes, n) is None,
    ensures
        spec_compile_expr(c, e, x).0 == c,
        spec_compile_expr(c, e, x).1 == Err::<TypedValueV, ErrV>(ErrV::UndefinedVariable(n)),
{
}

/// Law: calling a function name absent from the module's function table
/// fails with `UndefinedFunction` naming it; the arguments were already
/// lowered, and nothing further changes.
pub proof fn lemma_undefined_function_rejected(c: CtxV, n: Seq<char>, args: Seq<TypedValueV>)
    requires
        c.module is Some,
        c.cur is Some,
        spec_find_func(c.module->Some_0.funcs, n) is None,
    ensures
        spec_call(c, n, args).0 == c,
        spec_call(c, n, args).1 == Err::<TypedValueV, ErrV>(ErrV::UndefinedFunction(n)),
{
}

/// One lowering step was straight-line: it kept the cursor where it
/// stood, created no function and no block, wrote only into the block
/// under the cursor, and left that block open.
pub open spec fn straight_line(c0: CtxV, c1: CtxV) -> bool {
    &&& c1.cur == c0.cur
    &&& c0.module is Some
    &&& c1.module is Some
    &&& c1.module->Some_0.funcs.len() == c0.module->Some_0.funcs.len()
    &&& (c0.cur matches Some(cc) ==> {
        let af = c0.module->Some_0.funcs[cc.func];
        let bf = c1.module->Some_0.funcs[cc.func];
        &&& bf.blocks.len() == af.blocks.len()
        &&& forall|j: int| 0 <= j < af.blocks.len() && j != cc.blk ==> bf.blocks[j] == af.blocks[j]
        &&& bf.blocks[cc.blk].term == af.blocks[cc.blk].term
        &&& bf.blocks[cc.blk].label == af.blocks[cc.blk].label
    })
    &&& c1.scopes.len() == c0.scopes.len()
    &&& c1.scopes.drop_last() == c0.scopes.drop_last()
}

/// Law: lowering `if cond then X else Y`, where the condition and both
/// branches are straight-line and the branches produce values of one
/// same non-`Void` type, creates exactly three new basic blocks — then,
/// else and merge, in that order — and the merge block holds exactly one
/// instruction: a phi with exactly two incoming edges, one naming each
/// branch's actual exit block. The engine records the block each branch
/// ends in, so the edges stay right even when a branch opens further
/// blocks; straight-line branches end in the blocks made for them.
#[verifier::rlimit(100)]
pub proof fn lemma_if_three_blocks_one_phi(c: CtxV, e: Expression)
    requires
        crate::compiler::ready(c),
        c.cur is Some,
        c.module is Some,
        e matches Expression::IfExpression { cond, then_branch, else_branch } && ({
            let (c1, r1) = spec_compile_expr(c, *cond, None);
            &&& r1 is Ok
            &&& straight_line(c, c1)
            &&& r1->Ok_0.ty.spec_is_scalar()
            &&& {
                let (c2, rb) = crate::ops::spec_cond_to_bool(c1, r1->Ok_0);
                let (c3, r3) = crate::emit::spec_new_block(c2, "then"@);
                let (c4, r4) = crate::emit::spec_new_block(c3, "else"@);
                let (c5, r5) = crate::emit::spec_new_block(c4, "ifcont"@);
                let (c6, r6) = crate::emit::spec_branch_cond(c5, rb->Ok_0, r3->Ok_0, r4->Ok_0);
                let c7 = crate::context::spec_push_scope(crate::emit::spec_position(c6, r3->Ok_0));
                let (c8, r8) = crate::compiler::spec_compile_expr_stmt(c7, *then_branch);
                &&& r8 is Ok
                &&& straight_line(c7, c8)
                &&& !(r8->Ok_0.ty is Void)
                &&& {
                    let c9 = crate::context::spec_pop_scope(c8);
                    let (c10, _) = crate::emit::spec_branch(c9, r5->Ok_0);
                    let c11 = crate::context::spec_push_scope(
                        crate::emit::spec_position(c10, r4->Ok_0),
                    );
                    let (c12, r12) = crate::compiler::spec_compile_expr_stmt(c11, *else_branch);
                    &&& r12 is Ok
                    &&& straight_line(c11, c12)
                    &&& crate::types::ty_eq(r8->Ok_0.ty, r12->Ok_0.ty)
                }
            }
        }),
    ensures
        ({
            let (cf, rr) = spec_compile_if(c, e);
            let cc = c.cur->Some_0;
            let before = c.module->Some_0.funcs[cc.func].blocks.len() as int;
            let after = cf.module->Some_0.funcs[cc.func].blocks;
            &&& rr is Ok
            &&& after.len() == before + 3
            &&& after[before].label == "then"@ + crate::text::spec_dec(before as nat)
            &&& after[before + 1].label == "else"@ + crate::text::spec_dec((before + 1) as nat)
            &&& after[before + 2].label == "ifcont"@ + crate::text::spec_dec((before + 2) as nat)
            &&& cf.cur == Some(crate::context::CursorV { func: cc.func, blk: before + 2 })
            &&& after[before + 2].insts.len() == 1
            &&& after[before + 2].insts[0] matches InstV::Phi { ablk, bblk, .. }
                && ablk == before && bblk == before + 1
        }),
{
    match e {
        Expression::IfExpression { cond, then_branch, else_branch } => {
            let cc = c.cur->Some_0;
            let before = c.module->Some_0.funcs[cc.func].blocks.len() as int;
            let (c1, r1) = spec_compile_expr(c, *cond, None);
            let cv = r1->Ok_0;
            let (c2, rb) = crate::ops::spec_cond_to_bool(c1, cv);
            let bv = rb->Ok_0;
            let (c3, r3) = crate::emit::spec_new_block(c2, "then"@);
            let tb = r3->Ok_0;
            let (c4, r4) = crate::emit::spec_new_block(c3, "else"@);
            let eb = r4->Ok_0;
            let (c5, r5) = crate::emit::spec_new_block(c4, "ifcont"@);
            let mb = r5->Ok_0;
            let (c6, r6) = crate::emit::spec_branch_cond(c5, bv, tb, eb);
            let c7 = crate::context::spec_push_scope(crate::emit::spec_position(c6, tb));
            let (c8, r8) = crate::compiler::spec_compile_expr_stmt(c7, *then_branch);
            let tv = r8->Ok_0;
            let c9 = crate::context::spec_pop_scope(c8);
            let tpred = c9.cur->Some_0.blk;
            let (c10, _) = crate::emit::spec_branch(c9, mb);
            let c11 = crate::context::spec_push_scope(crate::emit::spec_position(c10, eb));
            let (c12, r12) = crate::compiler::spec_compile_expr_stmt(c11, *else_branch);
            let ev = r12->Ok_0;
            let c13 = crate::context::spec_pop_scope(c12);
            let epred = c13.cur->Some_0.blk;
            let (c14, _) = crate::emit::spec_branch(c13, mb);
            let c15 = crate::emit::spec_position(c14, mb);
            let (cf, rr) = crate::emit::spec_merge_phi(c15, tv, tpred, ev, epred);
            assert(tb == before && eb == before + 1 && mb == before + 2);
            assert(tpred == tb);
            assert(epred == eb);
            assert(c15.cur == Some(crate::context::CursorV { func: cc.func, blk: mb }));
            assert(c15.module->Some_0.funcs[cc.func].blocks[mb].insts =~= Seq::<InstV>::empty());
            assert(cf.module->Some_0.funcs[cc.func].blocks[mb].insts =~= Seq::<
                InstV,
            >::empty().push(
                InstV::Phi {
                    dst: c15.module->Some_0.counter,
                    ty: tv.ty,
                    a: crate::emit::arg_val(tv),
                    ablk: tpred,
                    b: crate::emit::arg_val(ev),
                    bblk: epred,
                },
            ));
            assert(spec_compile_if(c, e) == (cf, rr));
        },
        _ => {},
    }
}

/// Law: a successful `if` leaves the scope stack exactly as it found
/// it — each branch ran in a scope of its own, pushed before the branch
/// and popped after it, so a variable declared inside a branch is
/// unreachable after the merge: looking its name up afterwards answers
/// exactly what it answered before.
pub proof fn lemma_if_branch_scope_dropped(c: CtxV, e: Expression)
    requires
        crate::compiler::ready(c),
        c.cur is Some,
        c.module is Some,
        e matches Expression::IfExpression { cond, then_branch, else_branch } && ({
            let (c1, r1) = spec_compile_expr(c, *cond, None);
            &&& r1 is Ok
            &&& straight_line(c, c1)
            &&& c1.scopes == c.scopes
            &&& r1->Ok_0.ty.spec_is_scalar()
            &&& {
                let (c2, rb) = crate::ops::spec_cond_to_bool(c1, r1->Ok_0);
                let (c3, r3) = crate::emit::spec_new_block(c2, "then"@);
                let (c4, r4) = crate::emit::spec_new_block(c3, "else"@);
                let (c5, r5) = crate::emit::spec_new_block(c4, "ifcont"@);
                let (c6, r6) = crate::emit::spec_branch_cond(c5, rb->Ok_0, r3->Ok_0, r4->Ok_0);
                let c7 = crate::context::spec_push_scope(crate::emit::spec_position(c6, r3->Ok_0));
                let (c8, r8) = crate::compiler::spec_compile_expr_stmt(c7, *then_branch);
                &&& r8 is Ok
                &&& straight_line(c7, c8)
                &&& {
                    let c9 = crate::context::spec_pop_scope(c8);
                    let (c10, _) = crate::emit::spec_branch(c9, r5->Ok_0);
                    let c11 = crate::context::spec_push_scope(
                        crate::emit::spec_position(c10, r4->Ok_0),
                    );
                    let (c12, r12) = crate::compiler::spec_compile_expr_stmt(c11, *else_branch);
                    &&& r12 is Ok
                    &&& straight_line(c11, c12)
                }
            }
        }),
    ensures
        spec_compile_if(c, e).0.scopes == c.scopes,
        forall|n: Seq<char>|
            lookup_val(#[trigger] spec_compile_if(c, e).0.scopes, n) == lookup_val(c.scopes, n),
{
    match e {
        Expression::IfExpression { cond, then_branch, else_branch } => {
            let (c1, r1) = spec_compile_expr(c, *cond, None);
            let cv = r1->Ok_0;
            let (c2, rb) = crate::ops::spec_cond_to_bool(c1, cv);
            let (c3, r3) = crate::emit::spec_new_block(c2, "then"@);
            let tb = r3->Ok_0;
            let (c4, r4) = crate::emit::spec_new_block(c3, "else"@);
            let eb = r4->Ok_0;
            let (c5, r5) = crate::emit::spec_new_block(c4, "ifcont"@);
            let mb = r5->Ok_0;
            let (c6, r6) = crate::emit::spec_branch_cond(c5, rb->Ok_0, tb, eb);
            let c7 = crate::context::spec_push_scope(crate::emit::spec_position(c6, tb));
            let (c8, r8) = crate::compiler::spec_compile_expr_stmt(c7, *then_branch);
            let c9 = crate::context::spec_pop_scope(c8);
            assert(c9.scopes =~= c1.scopes);
            let (c10, _) = crate::emit::spec_branch(c9, mb);
            let c11 = crate::context::spec_push_scope(crate::emit::spec_position(c10, eb));
            let (c12, r12) = crate::compiler::spec_compile_expr_stmt(c11, *else_branch);
            let c13 = crate::context::spec_pop_scope(c12);
            assert(c13.scopes =~= c1.scopes);
            assert(spec_compile_if(c, e).0.scopes =~= c.scopes);
        },
        _ => {},
    }
}

} // verus!
