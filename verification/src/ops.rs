//! Value-producing operations: constants, arithmetic, comparisons, loads
//! and stores of addressable slots, calls, and returns. Validation always
//! precedes emission: an operation that fails leaves the module exactly
//! as it was.

use vstd::prelude::*;
use crate::context::{Compiler, CtxV};
use crate::diag::{CompileError, ErrV, OpName};
use crate::ast::{BinOpKind, CmpKind};
use crate::emit::{append_inst, arg_val, set_term, with_module, zero_of};
use crate::ir::{
    sat_inc, spec_find_func, Inst, InstV, ModuleV, ParamV, TermV, Terminator, TypedValue,
    TypedValueV, Val,
};
use crate::types::{dup_type, share_type, ty_eq, Num, Type};

verus! {

/// The module with its counter advanced once.
pub open spec fn bump(m: ModuleV) -> ModuleV {
    ModuleV { counter: sat_inc(m.counter), ..m }
}

/// Constant construction against a target type: a decimal literal becomes
/// a floating constant of `Number` as it stands, or an integral constant
/// of `Int32` or `Bool` rounded to the nearest integer; no other type can
/// hold a number literal.
pub open spec fn spec_constant(num: Num, target: Type) -> Result<TypedValueV, ErrV> {
    match target {
        Type::Number => Ok(TypedValueV { ty: target, val: Some(Val::Flt(num)) }),
        Type::Int32 | Type::Bool => Ok(
            TypedValueV {
                ty: target,
                val: Some(
                    Val::Int {
                        neg: num.spec_rounded().0,
                        mag: num.spec_rounded().1 as u64,
                    },
                ),
            },
        ),
        _ => Err(ErrV::InvalidConstantForType(target)),
    }
}

/// Arithmetic on two values: their types must agree exactly, and must be
/// a scalar representation; integer division exists only in the integral
/// representation.
pub open spec fn spec_binary(c: CtxV, op: BinOpKind, l: TypedValueV, r: TypedValueV) -> (
    CtxV,
    Result<TypedValueV, ErrV>,
) {
    if c.module is None {
        (c, Err(ErrV::NoModule))
    } else if c.cur is None {
        (c, Err(ErrV::NoEnclosingFunction))
    } else if !ty_eq(l.ty, r.ty) {
        (c, Err(ErrV::TypeMismatch { expected: l.ty, actual: r.ty }))
    } else if !l.ty.spec_is_scalar() {
        (c, Err(ErrV::UnsupportedOperation { ty: l.ty, op: OpName::Arith(op) }))
    } else if l.ty is Number && op is IntDiv {
        (c, Err(ErrV::UnsupportedOperation { ty: l.ty, op: OpName::Arith(op) }))
    } else {
        let m = c.module->Some_0;
        let dst = m.counter;
        let i = InstV::Bin { dst, op, ty: l.ty, lhs: arg_val(l), rhs: arg_val(r) };
        (
            with_module(c, append_inst(bump(m), c.cur->Some_0, i)),
            Ok(TypedValueV { ty: l.ty, val: Some(Val::Reg(dst)) }),
        )
    }
}

/// Comparison of two values: same demands as arithmetic, and the result
/// is always a `Bool`.
pub open spec fn spec_compare(c: CtxV, op: CmpKind, l: TypedValueV, r: TypedValueV) -> (
    CtxV,
    Result<TypedValueV, ErrV>,
) {
    if c.module is None {
        (c, Err(ErrV::NoModule))
    } else if c.cur is None {
        (c, Err(ErrV::NoEnclosingFunction))
    } else if !ty_eq(l.ty, r.ty) {
        (c, Err(ErrV::TypeMismatch { expected: l.ty, actual: r.ty }))
    } else if !l.ty.spec_is_scalar() {
        (c, Err(ErrV::UnsupportedOperation { ty: l.ty, op: OpName::Compare(op) }))
    } else {
        let m = c.module->Some_0;
        let dst = m.counter;
        let i = InstV::Cmp { dst, op, ty: l.ty, lhs: arg_val(l), rhs: arg_val(r) };
        (
            with_module(c, append_inst(bump(m), c.cur->Some_0, i)),
            Ok(TypedValueV { ty: Type::Bool, val: Some(Val::Reg(dst)) }),
        )
    }
}

/// A condition made branchable: the value is compared against the zero
/// constant of its own representation, yielding a `Bool`; a value of a
/// representation without comparison fails with `TypeMismatch` against
/// the `Bool` a branch demands.
pub open spec fn spec_cond_to_bool(c: CtxV, cond: TypedValueV) -> (
    CtxV,
    Result<TypedValueV, ErrV>,
) {
    if c.module is None {
        (c, Err(ErrV::NoModule))
    } else if c.cur is None {
        (c, Err(ErrV::NoEnclosingFunction))
    } else if !cond.ty.spec_is_scalar() {
        (c, Err(ErrV::TypeMismatch { expected: Type::Bool, actual: cond.ty }))
    } else {
        let m = c.module->Some_0;
        let dst = m.counter;
        let i = InstV::Cmp {
            dst,
            op: CmpKind::Ne,
            ty: cond.ty,
            lhs: arg_val(cond),
            rhs: zero_of(cond.ty),
        };
        (
            with_module(c, append_inst(bump(m), c.cur->Some_0, i)),
            Ok(TypedValueV { ty: Type::Bool, val: Some(Val::Reg(dst)) }),
        )
    }
}

/// Load the current value out of an addressable slot.
pub open spec fn spec_load(c: CtxV, slot: TypedValueV) -> (CtxV, Result<TypedValueV, ErrV>) {
    if c.module is None {
        (c, Err(ErrV::NoModule))
    } else if c.cur is None {
        (c, Err(ErrV::NoEnclosingFunction))
    } else if slot.ty is Void {
        (c, Err(ErrV::UnsupportedOperation { ty: slot.ty, op: OpName::StorageSlot }))
    } else {
        let m = c.module->Some_0;
        let dst = m.counter;
        let i = InstV::Load { dst, ptr: arg_val(slot), ty: slot.ty };
        (
            with_module(c, append_inst(bump(m), c.cur->Some_0, i)),
            Ok(TypedValueV { ty: slot.ty, val: Some(Val::Reg(dst)) }),
        )
    }
}

/// Allocate an addressable slot, store a value into it, and hand the slot
/// back; `Void` owns no storage.
pub open spec fn spec_slot(c: CtxV, init: TypedValueV) -> (CtxV, Result<TypedValueV, ErrV>) {
    if c.module is None {
        (c, Err(ErrV::NoModule))
    } else if c.cur is None {
        (c, Err(ErrV::NoEnclosingFunction))
    } else if init.ty is Void {
        (c, Err(ErrV::UnsupportedOperation { ty: init.ty, op: OpName::StorageSlot }))
    } else {
        let m = c.module->Some_0;
        let dst = m.counter;
        let cur = c.cur->Some_0;
        let m1 = append_inst(bump(m), cur, InstV::Alloca { dst, ty: init.ty });
        let m2 = append_inst(
            m1,
            cur,
            InstV::Store { ptr: Val::Reg(dst), val: arg_val(init), ty: init.ty },
        );
        (with_module(c, m2), Ok(TypedValueV { ty: init.ty, val: Some(Val::Reg(dst)) }))
    }
}

/// Close the block under the cursor with a return.
pub open spec fn spec_ret(c: CtxV, v: Option<TypedValueV>) -> (CtxV, Option<ErrV>) {
    if c.module is None {
        (c, Some(ErrV::NoModule))
    } else if c.cur is None {
        (c, Some(ErrV::NoEnclosingFunction))
    } else {
        let arg = match v {
            None => None,
            Some(tv) => if tv.ty is Void {
                None
            } else {
                Some((arg_val(tv), tv.ty))
            },
        };
        (with_module(c, set_term(c.module->Some_0, c.cur->Some_0, TermV::Ret { arg })), None)
    }
}

/// The first argument position whose type disagrees with the declared
/// parameter type, from position `k` on.
pub open spec fn first_bad_arg(params: Seq<ParamV>, args: Seq<TypedValueV>, k: int) -> Option<
    int,
>
    decreases params.len() - k,
{
    if k < 0 || k >= params.len() {
        None
    } else if !ty_eq(args[k].ty, params[k].ty) {
        Some(k)
    } else {
        first_bad_arg(params, args, k + 1)
    }
}

/// The operands a sequence of argument values contributes.
pub open spec fn spec_args_vals(args: Seq<TypedValueV>) -> Seq<Val> {
    args.map_values(|a: TypedValueV| arg_val(a))
}

/// Call a declared function: the callee is looked up in the module's
/// function table, the argument count and every position's type must
/// match the declared signature, and the call yields a value of the
/// declared return type — no value when it returns `Void`.
pub open spec fn spec_call(c: CtxV, name: Seq<char>, args: Seq<TypedValueV>) -> (
    CtxV,
    Result<TypedValueV, ErrV>,
) {
    if c.module is None {
        (c, Err(ErrV::NoModule))
    } else if c.cur is None {
        (c, Err(ErrV::NoEnclosingFunction))
    } else {
        let m = c.module->Some_0;
        match spec_find_func(m.funcs, name) {
            None => (c, Err(ErrV::UndefinedFunction(name))),
            Some(fi) => {
                let f = m.funcs[fi];
                if args.len() != f.params.len() {
                    (
                        c,
                        Err(ErrV::ParameterCountMismatch {
                            expected: f.params.len() as int,
                            actual: args.len() as int,
                        }),
                    )
                } else {
                    match first_bad_arg(f.params, args, 0) {
                        Some(j) => (
                            c,
                            Err(ErrV::TypeMismatch {
                                expected: f.params[j].ty,
                                actual: args[j].ty,
                            }),
                        ),
                        None => {
                            if f.ret is Void {
                                let i = InstV::Call {
                                    dst: None,
                                    callee: name,
                                    ret: f.ret,
                                    args: spec_args_vals(args),
                                };
                                (
                                    with_module(c, append_inst(m, c.cur->Some_0, i)),
                                    Ok(TypedValueV { ty: f.ret, val: None }),
                                )
                            } else {
                                let dst = m.counter;
                                let i = InstV::Call {
                                    dst: Some(dst),
                                    callee: name,
                                    ret: f.ret,
                                    args: spec_args_vals(args),
                                };
                                (
                                    with_module(c, append_inst(bump(m), c.cur->Some_0, i)),
                                    Ok(TypedValueV { ty: f.ret, val: Some(Val::Reg(dst)) }),
                                )
                            }
                        },
                    }
                }
            },
        }
    }
}

// --- executable operations --------------------------------------------------

/// Constant construction against a target type; see `spec_constant`.
pub fn constant_number(num: Num, target: &std::rc::Rc<Type>) -> (r: Result<
    TypedValue,
    CompileError,
>)
    ensures
        match r {
            Ok(tv) => spec_constant(num, **target) == Ok::<TypedValueV, ErrV>(tv@),
            Err(e) => spec_constant(num, **target) == Err::<TypedValueV, ErrV>(e@),
        },
{
    match &**target {
        Type::Number => Ok(TypedValue { ty: dup_type(target), val: Some(Val::Flt(num)) }),
        Type::Int32 | Type::Bool => {
            let (neg, mag) = num.rounded();
            Ok(TypedValue { ty: dup_type(target), val: Some(Val::Int { neg, mag }) })
        },
        _ => Err(CompileError::InvalidConstantForType(dup_type(target))),
    }
}

impl Compiler {
    /// The operand of a typed value, as `arg_val` names it.
    fn operand(tv: &TypedValue) -> (r: Val)
        ensures
            r == arg_val(tv@),
    {
        match tv.val {
            Some(v) => v,
            None => Val::Int { neg: false, mag: 0 },
        }
    }

    /// Check the operational context of an emitting operation, handing
    /// back the error owed when no module or no cursor stands.
    fn check_emittable(&self) -> (r: Result<(), CompileError>)
        ensures
            match r {
                Ok(_) => self@.module is Some && self@.cur is Some,
                Err(e) => {
                    if self@.module is None {
                        e@ == ErrV::NoModule
                    } else {
                        self@.cur is None && e@ == ErrV::NoEnclosingFunction
                    }
                },
            },
    {
        if self.module.is_none() {
            return Err(CompileError::NoModule);
        }
        if self.cursor.is_none() {
            return Err(CompileError::NoEnclosingFunction);
        }
        Ok(())
    }

    /// Arithmetic on two values; see `spec_binary`.
    pub fn emit_binary_op(&mut self, op: BinOpKind, left: &TypedValue, right: &TypedValue)
        -> (r: Result<TypedValue, CompileError>)
        requires
            old(self)@.wf(),
            old(self)@.cur is Some ==> old(self)@.cursor_open(),
        ensures
            final(self)@ == spec_binary(old(self)@, op, left@, right@).0,
            ({
                let sr = spec_binary(old(self)@, op, left@, right@).1;
                match r {
                    Ok(tv) => sr == Ok::<TypedValueV, ErrV>(tv@),
                    Err(e) => sr == Err::<TypedValueV, ErrV>(e@),
                }
            }),
            final(self)@.wf(),
            old(self)@.cursor_open() ==> final(self)@.cursor_open(),
    {
        match self.check_emittable() {
            Ok(_) => {},
            Err(e) => {
                return Err(e);
            },
        }
        if !left.ty.eq_type(&right.ty) {
            return Err(CompileError::TypeMismatch {
                expected: dup_type(&left.ty),
                actual: dup_type(&right.ty),
            });
        }
        if !left.ty.is_scalar() {
            return Err(CompileError::UnsupportedOperation {
                ty: dup_type(&left.ty),
                op: OpName::Arith(op),
            });
        }
        let float = match &*left.ty {
            Type::Number => true,
            _ => false,
        };
        if float && matches!(op, BinOpKind::IntDiv) {
            return Err(CompileError::UnsupportedOperation {
                ty: dup_type(&left.ty),
                op: OpName::Arith(op),
            });
        }
        let lhs = Self::operand(left);
        let rhs = Self::operand(right);
        let dst = self.fresh();
        self.emit(Inst::Bin { dst, op, ty: dup_type(&left.ty), lhs, rhs });
        proof {
            assert(final(self)@ =~~= spec_binary(old(self)@, op, left@, right@).0);
        }
        Ok(TypedValue { ty: dup_type(&left.ty), val: Some(Val::Reg(dst)) })
    }

    /// Comparison of two values; see `spec_compare`.
    pub fn emit_comparison(&mut self, op: CmpKind, left: &TypedValue, right: &TypedValue)
        -> (r: Result<TypedValue, CompileError>)
        requires
            old(self)@.wf(),
            old(self)@.cur is Some ==> old(self)@.cursor_open(),
        ensures
            final(self)@ == spec_compare(old(self)@, op, left@, right@).0,
            ({
                let sr = spec_compare(old(self)@, op, left@, right@).1;
                match r {
                    Ok(tv) => sr == Ok::<TypedValueV, ErrV>(tv@),
                    Err(e) => sr == Err::<TypedValueV, ErrV>(e@),
                }
            }),
            final(self)@.wf(),
            old(self)@.cursor_open() ==> final(self)@.cursor_open(),
    {
        match self.check_emittable() {
            Ok(_) => {},
            Err(e) => {
                return Err(e);
            },
        }
        if !left.ty.eq_type(&right.ty) {
            return Err(CompileError::TypeMismatch {
                expected: dup_type(&left.ty),
                actual: dup_type(&right.ty),
            });
        }
        if !left.ty.is_scalar() {
            return Err(CompileError::UnsupportedOperation {
                ty: dup_type(&left.ty),
                op: OpName::Compare(op),
            });
        }
        let lhs = Self::operand(left);
        let rhs = Self::operand(right);
        let dst = self.fresh();
        self.emit(Inst::Cmp { dst, op, ty: dup_type(&left.ty), lhs, rhs });
        proof {
            assert(final(self)@ =~~= spec_compare(old(self)@, op, left@, right@).0);
        }
        Ok(TypedValue { ty: share_type(Type::Bool), val: Some(Val::Reg(dst)) })
    }

    /// Compare a condition against the zero constant of its own
    /// representation, yielding the `Bool` a branch demands; see
    /// `spec_cond_to_bool`.
    pub fn condition_to_bool(&mut self, cond: &TypedValue) -> (r: Result<
        TypedValue,
        CompileError,
    >)
        requires
            old(self)@.wf(),
            old(self)@.cur is Some ==> old(self)@.cursor_open(),
        ensures
            final(self)@ == spec_cond_to_bool(old(self)@, cond@).0,
            ({
                let sr = spec_cond_to_bool(old(self)@, cond@).1;
                match r {
                    Ok(tv) => sr == Ok::<TypedValueV, ErrV>(tv@),
                    Err(e) => sr == Err::<TypedValueV, ErrV>(e@),
                }
            }),
            final(self)@.wf(),
            old(self)@.cursor_open() ==> final(self)@.cursor_open(),
    {
        match self.check_emittable() {
            Ok(_) => {},
            Err(e) => {
                return Err(e);
            },
        }
        if !cond.ty.is_scalar() {
            return Err(CompileError::TypeMismatch {
                expected: share_type(Type::Bool),
                actual: dup_type(&cond.ty),
            });
        }
        let zero = match &*cond.ty {
            Type::Number => Val::Flt(Num { neg: false, mant: 0, scale: 0 }),
            _ => Val::Int { neg: false, mag: 0 },
        };
        let lhs = Self::operand(cond);
        let dst = self.fresh();
        self.emit(Inst::Cmp { dst, op: CmpKind::Ne, ty: dup_type(&cond.ty), lhs, rhs: zero });
        proof {
            assert(final(self)@ =~~= spec_cond_to_bool(old(self)@, cond@).0);
        }
        Ok(TypedValue { ty: share_type(Type::Bool), val: Some(Val::Reg(dst)) })
    }

    /// Load the current value out of an addressable slot; see `spec_load`.
    pub fn emit_load(&mut self, slot: &TypedValue) -> (r: Result<TypedValue, CompileError>)
        requires
            old(self)@.wf(),
            old(self)@.cur is Some ==> old(self)@.cursor_open(),
        ensures
            final(self)@ == spec_load(old(self)@, slot@).0,
            ({
                let sr = spec_load(old(self)@, slot@).1;
                match r {
                    Ok(tv) => sr == Ok::<TypedValueV, ErrV>(tv@),
                    Err(e) => sr == Err::<TypedValueV, ErrV>(e@),
                }
            }),
            final(self)@.wf(),
            old(self)@.cursor_open() ==> final(self)@.cursor_open(),
    {
        match self.check_emittable() {
            Ok(_) => {},
            Err(e) => {
                return Err(e);
            },
        }
        if slot.ty.is_void() {
            return Err(CompileError::UnsupportedOperation {
                ty: dup_type(&slot.ty),
                op: OpName::StorageSlot,
            });
        }
        let ptr = Self::operand(slot);
        let dst = self.fresh();
        self.emit(Inst::Load { dst, ptr, ty: dup_type(&slot.ty) });
        proof {
            assert(final(self)@ =~~= spec_load(old(self)@, slot@).0);
        }
        Ok(TypedValue { ty: dup_type(&slot.ty), val: Some(Val::Reg(dst)) })
    }

    /// Allocate an addressable slot holding `init`, handing the slot back;
    /// see `spec_slot`.
    pub fn emit_slot(&mut self, init: &TypedValue) -> (r: Result<TypedValue, CompileError>)
        requires
            old(self)@.wf(),
            old(self)@.cur is Some ==> old(self)@.cursor_open(),
        ensures
            final(self)@ == spec_slot(old(self)@, init@).0,
            ({
                let sr = spec_slot(old(self)@, init@).1;
                match r {
                    Ok(tv) => sr == Ok::<TypedValueV, ErrV>(tv@),
                    Err(e) => sr == Err::<TypedValueV, ErrV>(e@),
                }
            }),
            final(self)@.wf(),
            old(self)@.cursor_open() ==> final(self)@.cursor_open(),
    {
        match self.check_emittable() {
            Ok(_) => {},
            Err(e) => {
                return Err(e);
            },
        }
        if init.ty.is_void() {
            return Err(CompileError::UnsupportedOperation {
                ty: dup_type(&init.ty),
                op: OpName::StorageSlot,
            });
        }
        let v = Self::operand(init);
        let dst = self.fresh();
        self.emit(Inst::Alloca { dst, ty: dup_type(&init.ty) });
        self.emit(Inst::Store { ptr: Val::Reg(dst), val: v, ty: dup_type(&init.ty) });
        proof {
            assert(final(self)@ =~~= spec_slot(old(self)@, init@).0);
        }
        Ok(TypedValue { ty: dup_type(&init.ty), val: Some(Val::Reg(dst)) })
    }

    /// Close the block under the cursor with a return; see `spec_ret`.
    pub fn emit_ret(&mut self, val: Option<&TypedValue>) -> (r: Result<(), CompileError>)
        requires
            old(self)@.wf(),
            old(self)@.cur is Some ==> old(self)@.cursor_open(),
        ensures
            final(self)@ == spec_ret(
                old(self)@,
                match val {
                    Some(tv) => Some(tv@),
                    None => None,
                },
            ).0,
            crate::context::unit_outcome(
                r,
                spec_ret(
                    old(self)@,
                    match val {
                        Some(tv) => Some(tv@),
                        None => None,
                    },
                ).1,
            ),
            final(self)@.wf(),
    {
        match self.check_emittable() {
            Ok(_) => {},
            Err(e) => {
                return Err(e);
            },
        }
        let arg: Option<(Val, std::rc::Rc<Type>)> = match val {
            None => None,
            Some(tv) => {
                if tv.ty.is_void() {
                    None
                } else {
                    Some((Self::operand(tv), dup_type(&tv.ty)))
                }
            },
        };
        let cur = self.cursor.unwrap();
        match &mut self.module {
            Some(m) => {
                m.funcs[cur.func].blocks[cur.blk].term = Some(Terminator::Ret { arg });
                proof {
                    let gv = match val {
                        Some(tv) => Some(tv@),
                        None => None,
                    };
                    assert(final(self)@.module->Some_0 =~~= spec_ret(
                        old(self)@,
                        gv,
                    ).0.module->Some_0);
                    assert(final(self)@ =~~= spec_ret(old(self)@, gv).0);
                }
                Ok(())
            },
            None => Err(CompileError::NoModule),
        }
    }

    /// Call a declared function; see `spec_call`.
    pub fn emit_call(&mut self, name: &String, args: &Vec<TypedValue>) -> (r: Result<
        TypedValue,
        CompileError,
    >)
        requires
            old(self)@.wf(),
            old(self)@.cur is Some ==> old(self)@.cursor_open(),
        ensures
            final(self)@ == spec_call(old(self)@, name@, crate::ir::tvs_view(args@)).0,
            ({
                let sr = spec_call(old(self)@, name@, crate::ir::tvs_view(args@)).1;
                match r {
                    Ok(tv) => sr == Ok::<TypedValueV, ErrV>(tv@),
                    Err(e) => sr == Err::<TypedValueV, ErrV>(e@),
                }
            }),
            final(self)@.wf(),
            old(self)@.cursor_open() ==> final(self)@.cursor_open(),
    {
        let ghost argsv = crate::ir::tvs_view(args@);
        match self.check_emittable() {
            Ok(_) => {},
            Err(e) => {
                return Err(e);
            },
        }
        let ghost mfv = self@.module->Some_0.funcs;
        // Phase one: read the signature and validate against it.
        let (fidx, ret): (usize, std::rc::Rc<Type>) = match &self.module {
            Some(m) => {
                let fidx = match m.find_func(name) {
                    Some(i) => i,
                    None => {
                        return Err(CompileError::UndefinedFunction(name.clone()));
                    },
                };
                proof {
                    crate::ir::lemma_find_func_correct(mfv, name@);
                }
                let f = &m.funcs[fidx];
                if args.len() != f.params.len() {
                    return Err(CompileError::ParameterCountMismatch {
                        expected: f.params.len(),
                        actual: args.len(),
                    });
                }
                let n: usize = args.len();
                let mut i: usize = 0;
                proof {
                    assert(mfv == m@.funcs);
                    assert(f@ == mfv[fidx as int]);
                }
                while i < n
                    invariant
                        n == args@.len() == f.params@.len(),
                        i <= n,
                        argsv == crate::ir::tvs_view(args@),
                        argsv.len() == args@.len(),
                        old(self)@.wf(),
                        old(self)@.module is Some,
                        old(self)@.cur is Some,
                        mfv == old(self)@.module->Some_0.funcs,
                        crate::ir::spec_find_func(mfv, name@) == Some(fidx as int),
                        fidx < m.funcs@.len(),
                        mfv.len() == m.funcs@.len(),
                        f@ == mfv[fidx as int],
                        forall|j: int| 0 <= j < i ==> ty_eq(argsv[j].ty, f@.params[j].ty),
                        first_bad_arg(f@.params, argsv, 0) == first_bad_arg(
                            f@.params,
                            argsv,
                            i as int,
                        ),
                    decreases n - i,
                {
                    proof {
                        assert(f@.params[i as int] == f.params@[i as int]@);
                        assert(argsv[i as int] == args@[i as int]@);
                    }
                    if !args[i].ty.eq_type(&f.params[i].ty) {
                        proof {
                            assert(first_bad_arg(f@.params, argsv, i as int) == Some(i as int));
                        }
                        return Err(CompileError::TypeMismatch {
                            expected: dup_type(&f.params[i].ty),
                            actual: dup_type(&args[i].ty),
                        });
                    }
                    i += 1;
                }
                (fidx, dup_type(&f.ret))
            },
            None => {
                return Err(CompileError::NoModule);
            },
        };
        // Phase two: gather the operands.
        let n: usize = args.len();
        let mut vals: Vec<Val> = Vec::new();
        let mut i: usize = 0;
        while i < n
            invariant
                n == args@.len(),
                i <= n,
                argsv == crate::ir::tvs_view(args@),
                argsv.len() == args@.len(),
                vals@ =~= spec_args_vals(argsv.take(i as int)),
            decreases n - i,
        {
            vals.push(Self::operand(&args[i]));
            proof {
                assert(vals@ =~= spec_args_vals(argsv.take(i + 1)));
            }
            i += 1;
        }
        proof {
            assert(argsv.take(n as int) =~= argsv);
        }
        // Phase three: emit the call.
        let ret2 = dup_type(&ret);
        if ret.is_void() {
            self.emit(Inst::Call { dst: None, callee: name.clone(), ret, args: vals });
            proof {
                assert(final(self)@ =~~= spec_call(old(self)@, name@, argsv).0);
            }
            Ok(TypedValue { ty: ret2, val: None })
        } else {
            let dst = self.fresh();
            self.emit(
                Inst::Call { dst: Some(dst), callee: name.clone(), ret, args: vals },
            );
            proof {
                assert(final(self)@ =~~= spec_call(old(self)@, name@, argsv).0);
            }
            Ok(TypedValue { ty: ret2, val: Some(Val::Reg(dst)) })
        }
    }
}

} // verus!
