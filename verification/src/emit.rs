//! The control-flow emitter: creating blocks, moving the one insertion
//! cursor, terminating blocks with branches, and merging values with phi
//! nodes. Emission only ever writes into the open block under the cursor;
//! terminating a block twice, or writing past a terminator, is ruled out
//! by contract, not detected at run time.

use vstd::prelude::*;
use crate::context::{Compiler, CtxV, Cursor, CursorV};
use crate::diag::{CompileError, ErrV};
use crate::ir::{
    sat_inc, BasicBlock, BlockV, FuncV, InstV, Module, ModuleV, TermV, Terminator, TypedValue,
    TypedValueV, Val,
};
use crate::text::{make_label, spec_dec};
use crate::types::{dup_type, Num, Type};

verus! {

/// The operand a typed value contributes to an instruction; a value
/// without an operand contributes an integral zero, though every checked
/// path hands such a value to no instruction.
pub open spec fn arg_val(tv: TypedValueV) -> Val {
    match tv.val {
        Some(v) => v,
        None => Val::Int { neg: false, mag: 0 },
    }
}

/// The zero constant in the representation of `ty`.
pub open spec fn zero_of(ty: Type) -> Val {
    match ty {
        Type::Number => Val::Flt(Num { neg: false, mant: 0, scale: 0 }),
        _ => Val::Int { neg: false, mag: 0 },
    }
}

/// The context, its module replaced.
pub open spec fn with_module(c: CtxV, m: ModuleV) -> CtxV {
    CtxV { module: Some(m), ..c }
}

/// The module, one instruction appended to the block under the cursor.
pub open spec fn append_inst(m: ModuleV, cur: CursorV, i: InstV) -> ModuleV {
    let f = m.funcs[cur.func];
    let b = f.blocks[cur.blk];
    let b2 = BlockV { insts: b.insts.push(i), ..b };
    let f2 = FuncV { blocks: f.blocks.update(cur.blk, b2), ..f };
    ModuleV { funcs: m.funcs.update(cur.func, f2), ..m }
}

/// The module, the block under the cursor closed with a terminator.
pub open spec fn set_term(m: ModuleV, cur: CursorV, t: TermV) -> ModuleV {
    let f = m.funcs[cur.func];
    let b = f.blocks[cur.blk];
    let b2 = BlockV { term: Some(t), ..b };
    let f2 = FuncV { blocks: f.blocks.update(cur.blk, b2), ..f };
    ModuleV { funcs: m.funcs.update(cur.func, f2), ..m }
}

/// The module, a fresh empty block appended to function `func`.
pub open spec fn append_block(m: ModuleV, func: int, b: BlockV) -> ModuleV {
    let f = m.funcs[func];
    let f2 = FuncV { blocks: f.blocks.push(b), ..f };
    ModuleV { funcs: m.funcs.update(func, f2), ..m }
}

// --- ghost operations -------------------------------------------------------

/// Create a block labelled by its purpose and its position, inside the
/// current function. The cursor does not move.
pub open spec fn spec_new_block(c: CtxV, purpose: Seq<char>) -> (CtxV, Result<int, ErrV>) {
    if c.module is None {
        (c, Err(ErrV::NoModule))
    } else if c.cur is None {
        (c, Err(ErrV::NoEnclosingFunction))
    } else {
        let m = c.module->Some_0;
        let cur = c.cur->Some_0;
        let idx = m.funcs[cur.func].blocks.len() as int;
        let b = BlockV {
            label: purpose + spec_dec(idx as nat),
            insts: Seq::empty(),
            term: None,
        };
        (with_module(c, append_block(m, cur.func, b)), Ok(idx))
    }
}

/// Move the cursor to another block of the current function.
pub open spec fn spec_position(c: CtxV, blk: int) -> CtxV {
    CtxV { cur: Some(CursorV { func: c.cur->Some_0.func, blk }), ..c }
}

/// Terminate the block under the cursor with an unconditional branch.
pub open spec fn spec_branch(c: CtxV, target: int) -> (CtxV, Option<ErrV>) {
    if c.module is None {
        (c, Some(ErrV::NoModule))
    } else if c.cur is None {
        (c, Some(ErrV::NoEnclosingFunction))
    } else {
        (
            with_module(c, set_term(c.module->Some_0, c.cur->Some_0, TermV::Br { target })),
            None,
        )
    }
}

/// Terminate the block under the cursor with a two-way branch on a value
/// that must be of type `Bool`.
pub open spec fn spec_branch_cond(c: CtxV, cond: TypedValueV, then_to: int, else_to: int) -> (
    CtxV,
    Option<ErrV>,
) {
    if c.module is None {
        (c, Some(ErrV::NoModule))
    } else if c.cur is None {
        (c, Some(ErrV::NoEnclosingFunction))
    } else if !crate::types::ty_eq(cond.ty, Type::Bool) {
        (c, Some(ErrV::TypeMismatch { expected: Type::Bool, actual: cond.ty }))
    } else {
        let t = TermV::CondBr { cond: arg_val(cond), then_to, else_to };
        (with_module(c, set_term(c.module->Some_0, c.cur->Some_0, t)), None)
    }
}

/// Merge the values of two predecessor blocks in the block under the
/// cursor. The two types must agree exactly; agreeing on `Void` merges no
/// value and emits nothing; otherwise one phi instruction selects between
/// the two incoming values by predecessor.
pub open spec fn spec_merge_phi(
    c: CtxV,
    a: TypedValueV,
    ablk: int,
    b: TypedValueV,
    bblk: int,
) -> (CtxV, Result<TypedValueV, ErrV>) {
    if c.module is None {
        (c, Err(ErrV::NoModule))
    } else if c.cur is None {
        (c, Err(ErrV::NoEnclosingFunction))
    } else if !crate::types::ty_eq(a.ty, b.ty) {
        (c, Err(ErrV::TypeMismatch { expected: a.ty, actual: b.ty }))
    } else if a.ty is Void {
        (c, Ok(TypedValueV { ty: Type::Void, val: None }))
    } else {
        let m = c.module->Some_0;
        let dst = m.counter;
        let m1 = ModuleV { counter: sat_inc(m.counter), ..m };
        let i = InstV::Phi {
            dst,
            ty: a.ty,
            a: arg_val(a),
            ablk,
            b: arg_val(b),
            bblk,
        };
        (
            with_module(c, append_inst(m1, c.cur->Some_0, i)),
            Ok(TypedValueV { ty: a.ty, val: Some(Val::Reg(dst)) }),
        )
    }
}

// --- executable operations --------------------------------------------------

impl Compiler {
    /// Append one instruction to the open block under the cursor.
    pub(crate) fn emit(&mut self, inst: crate::ir::Inst)
        requires
            old(self)@.wf(),
            old(self)@.cursor_open(),
        ensures
            final(self)@ == with_module(
                old(self)@,
                append_inst(old(self)@.module->Some_0, old(self)@.cur->Some_0, inst@),
            ),
            final(self)@.wf(),
            final(self)@.cursor_open(),
    {
        let cur = self.cursor.unwrap();
        match &mut self.module {
            Some(m) => {
                m.funcs[cur.func].blocks[cur.blk].insts.push(inst);
                proof {
                    assert(final(self)@.module->Some_0 =~~= append_inst(
                        old(self)@.module->Some_0,
                        old(self)@.cur->Some_0,
                        inst@,
                    ));
                    assert(final(self)@ =~~= with_module(
                        old(self)@,
                        append_inst(old(self)@.module->Some_0, old(self)@.cur->Some_0, inst@),
                    ));
                }
            },
            None => {},
        }
    }

    /// Draw a fresh value number from the module's counter.
    pub(crate) fn fresh(&mut self) -> (r: u64)
        requires
            old(self)@.wf(),
            old(self)@.module is Some,
        ensures
            r == old(self)@.module->Some_0.counter,
            final(self)@ == with_module(
                old(self)@,
                ModuleV {
                    counter: sat_inc(old(self)@.module->Some_0.counter),
                    ..old(self)@.module->Some_0
                },
            ),
            final(self)@.wf(),
            old(self)@.cursor_open() ==> final(self)@.cursor_open(),
    {
        match &mut self.module {
            Some(m) => {
                let r = m.fresh_value();
                proof {
                    assert(final(self)@ =~~= with_module(
                        old(self)@,
                        ModuleV {
                            counter: sat_inc(old(self)@.module->Some_0.counter),
                            ..old(self)@.module->Some_0
                        },
                    ));
                }
                r
            },
            None => 0,
        }
    }

    /// Create a basic block in the current function, labelled with its
    /// purpose and its position there; the cursor stays where it was.
    pub fn new_block(&mut self, purpose: &str) -> (r: Result<usize, CompileError>)
        requires
            old(self)@.wf(),
        ensures
            final(self)@ == spec_new_block(old(self)@, purpose@).0,
            match r {
                Ok(i) => spec_new_block(old(self)@, purpose@).1 == Ok::<int, ErrV>(i as int),
                Err(e) => spec_new_block(old(self)@, purpose@).1 == Err::<int, ErrV>(e@),
            },
            final(self)@.wf(),
            old(self)@.cursor_open() ==> final(self)@.cursor_open(),
    {
        let cur = match self.cursor {
            Some(c) => c,
            None => {
                if self.module.is_none() {
                    return Err(CompileError::NoModule);
                }
                return Err(CompileError::NoEnclosingFunction);
            },
        };
        match &mut self.module {
            Some(m) => {
                let idx: usize = m.funcs[cur.func].blocks.len();
                let lbl = make_label(purpose, idx as u64);
                m.funcs[cur.func].blocks.push(
                    BasicBlock { label: lbl, insts: Vec::new(), term: None },
                );
                proof {
                    assert(final(self)@.module->Some_0 =~~= spec_new_block(
                        old(self)@,
                        purpose@,
                    ).0.module->Some_0);
                    assert(final(self)@ =~~= spec_new_block(old(self)@, purpose@).0);
                }
                Ok(idx)
            },
            None => Err(CompileError::NoModule),
        }
    }

    /// Move the cursor to a block of the current function. Nothing is
    /// terminated: this resumes emission into a block created earlier.
    pub fn position(&mut self, blk: usize)
        requires
            old(self)@.wf(),
            old(self)@.cur is Some,
            blk < old(self)@.module->Some_0.funcs[old(self)@.cur->Some_0.func].blocks.len(),
        ensures
            final(self)@ == spec_position(old(self)@, blk as int),
            final(self)@.wf(),
    {
        let cur = self.cursor.unwrap();
        self.cursor = Some(Cursor { func: cur.func, blk });
        proof {
            assert(final(self)@ =~~= spec_position(old(self)@, blk as int));
        }
    }

    /// Terminate the open block under the cursor with an unconditional
    /// branch to `target`.
    pub fn branch_unconditional(&mut self, target: usize) -> (r: Result<(), CompileError>)
        requires
            old(self)@.wf(),
            old(self)@.cur is Some ==> old(self)@.cursor_open(),
            old(self)@.cur is Some ==> target < old(self)@.module->Some_0.funcs[old(
                self,
            )@.cur->Some_0.func].blocks.len(),
        ensures
            final(self)@ == spec_branch(old(self)@, target as int).0,
            crate::context::unit_outcome(r, spec_branch(old(self)@, target as int).1),
            final(self)@.wf(),
    {
        let cur = match self.cursor {
            Some(c) => c,
            None => {
                if self.module.is_none() {
                    return Err(CompileError::NoModule);
                }
                return Err(CompileError::NoEnclosingFunction);
            },
        };
        match &mut self.module {
            Some(m) => {
                m.funcs[cur.func].blocks[cur.blk].term = Some(Terminator::Br { target });
                proof {
                    assert(final(self)@.module->Some_0 =~~= spec_branch(
                        old(self)@,
                        target as int,
                    ).0.module->Some_0);
                    assert(final(self)@ =~~= spec_branch(old(self)@, target as int).0);
                }
                Ok(())
            },
            None => Err(CompileError::NoModule),
        }
    }

    /// Terminate the open block under the cursor with a two-way branch:
    /// `cond` must be a `Bool` value, else `TypeMismatch`.
    pub fn branch_conditional(
        &mut self,
        cond: &TypedValue,
        then_to: usize,
        else_to: usize,
    ) -> (r: Result<(), CompileError>)
        requires
            old(self)@.wf(),
            old(self)@.cur is Some ==> old(self)@.cursor_open(),
            old(self)@.cur is Some ==> then_to < old(self)@.module->Some_0.funcs[old(
                self,
            )@.cur->Some_0.func].blocks.len() && else_to < old(self)@.module->Some_0.funcs[old(
                self,
            )@.cur->Some_0.func].blocks.len(),
        ensures
            final(self)@ == spec_branch_cond(
                old(self)@,
                cond@,
                then_to as int,
                else_to as int,
            ).0,
            crate::context::unit_outcome(
                r,
                spec_branch_cond(old(self)@, cond@, then_to as int, else_to as int).1,
            ),
            final(self)@.wf(),
    {
        let cur = match self.cursor {
            Some(c) => c,
            None => {
                if self.module.is_none() {
                    return Err(CompileError::NoModule);
                }
                return Err(CompileError::NoEnclosingFunction);
            },
        };
        if self.module.is_none() {
            return Err(CompileError::NoModule);
        }
        if !cond.ty.eq_type(&Type::Bool) {
            return Err(CompileError::TypeMismatch {
                expected: crate::types::share_type(Type::Bool),
                actual: dup_type(&cond.ty),
            });
        }
        let cv = match cond.val {
            Some(v) => v,
            None => Val::Int { neg: false, mag: 0 },
        };
        match &mut self.module {
            Some(m) => {
                m.funcs[cur.func].blocks[cur.blk].term = Some(
                    Terminator::CondBr { cond: cv, then_to, else_to },
                );
                proof {
                    assert(final(self)@.module->Some_0 =~~= spec_branch_cond(
                        old(self)@,
                        cond@,
                        then_to as int,
                        else_to as int,
                    ).0.module->Some_0);
                    assert(final(self)@ =~~= spec_branch_cond(
                        old(self)@,
                        cond@,
                        then_to as int,
                        else_to as int,
                    ).0);
                }
                Ok(())
            },
            None => Err(CompileError::NoModule),
        }
    }

    /// With the cursor already positioned in the merge block, merge the
    /// two branch values: one phi with one incoming edge per recorded
    /// predecessor, or no value at all when both branches were `Void`.
    pub fn merge_phi(
        &mut self,
        then_value: &TypedValue,
        then_blk: usize,
        else_value: &TypedValue,
        else_blk: usize,
    ) -> (r: Result<TypedValue, CompileError>)
        requires
            old(self)@.wf(),
            old(self)@.cur is Some ==> old(self)@.cursor_open(),
        ensures
            final(self)@ == spec_merge_phi(
                old(self)@,
                then_value@,
                then_blk as int,
                else_value@,
                else_blk as int,
            ).0,
            ({
                let sr = spec_merge_phi(
                    old(self)@,
                    then_value@,
                    then_blk as int,
                    else_value@,
                    else_blk as int,
                ).1;
                match r {
                    Ok(tv) => sr == Ok::<TypedValueV, ErrV>(tv@),
                    Err(e) => sr == Err::<TypedValueV, ErrV>(e@),
                }
            }),
            final(self)@.wf(),
    {
        if self.module.is_none() {
            return Err(CompileError::NoModule);
        }
        if self.cursor.is_none() {
            return Err(CompileError::NoEnclosingFunction);
        }
        if !then_value.ty.eq_type(&else_value.ty) {
            return Err(CompileError::TypeMismatch {
                expected: dup_type(&then_value.ty),
                actual: dup_type(&else_value.ty),
            });
        }
        if then_value.ty.is_void() {
            return Ok(TypedValue { ty: crate::types::share_type(Type::Void), val: None });
        }
        let av = match then_value.val {
            Some(v) => v,
            None => Val::Int { neg: false, mag: 0 },
        };
        let bv = match else_value.val {
            Some(v) => v,
            None => Val::Int { neg: false, mag: 0 },
        };
        let dst = self.fresh();
        self.emit(crate::ir::Inst::Phi {
            dst,
            ty: dup_type(&then_value.ty),
            a: av,
            ablk: then_blk,
            b: bv,
            bblk: else_blk,
        });
        proof {
            assert(final(self)@ =~~= spec_merge_phi(
                old(self)@,
                then_value@,
                then_blk as int,
                else_value@,
                else_blk as int,
            ).0);
        }
        Ok(TypedValue { ty: dup_type(&then_value.ty), val: Some(Val::Reg(dst)) })
    }
}

} // verus!
