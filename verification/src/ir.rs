//! The SSA intermediate representation: typed values, instructions, basic
//! blocks, functions and the module that owns them, together with the
//! mathematical image of each shape that the contracts speak of.

use vstd::prelude::*;
use std::rc::Rc;
use crate::ast::{BinOpKind, CmpKind};
use crate::types::{Num, Type};

verus! {

/// An operand: a numbered register, an integer constant or a floating
/// constant kept in its exact decimal form.
#[derive(Clone, Copy, PartialEq, Eq, Structural, Debug)]
pub enum Val {
    /// The result of the instruction or parameter numbered by the module's
    /// value counter.
    Reg(u64),
    /// An integral constant with its sign and magnitude.
    Int { neg: bool, mag: u64 },
    /// A floating constant, written as the decimal literal it came from.
    Flt(Num),
}

/// One instruction. Every value-producing instruction names its fresh
/// destination register.
#[allow(inconsistent_fields)]
pub enum Inst {
    /// Reserve an addressable storage slot for a value of `ty`.
    Alloca { dst: u64, ty: Rc<Type> },
    /// Store `val` of type `ty` into the slot `ptr`.
    Store { ptr: Val, val: Val, ty: Rc<Type> },
    /// Load a value of type `ty` from the slot `ptr`.
    Load { dst: u64, ptr: Val, ty: Rc<Type> },
    /// Arithmetic on two operands of the same type `ty`.
    Bin { dst: u64, op: BinOpKind, ty: Rc<Type>, lhs: Val, rhs: Val },
    /// Comparison of two operands of type `ty`, yielding a `Bool`.
    Cmp { dst: u64, op: CmpKind, ty: Rc<Type>, lhs: Val, rhs: Val },
    /// Call of the named function; `dst` is absent exactly when the callee
    /// returns `Void`.
    Call { dst: Option<u64>, callee: String, ret: Rc<Type>, args: Vec<Val> },
    /// Control-flow merge: the value is `a` when control arrived from the
    /// block numbered `ablk`, `b` when it arrived from `bblk`.
    Phi { dst: u64, ty: Rc<Type>, a: Val, ablk: usize, b: Val, bblk: usize },
}

/// What ends a basic block.
pub enum Terminator {
    /// Return, with the returned value and its type unless the function
    /// returns `Void`.
    Ret { arg: Option<(Val, Rc<Type>)> },
    /// Unconditional branch to the block numbered `target`.
    Br { target: usize },
    /// Two-way branch on a `Bool` operand.
    CondBr { cond: Val, then_to: usize, else_to: usize },
}

/// A basic block: a label, a straight-line instruction sequence and, once
/// it is closed, a terminator.
pub struct BasicBlock {
    pub label: String,
    pub insts: Vec<Inst>,
    pub term: Option<Terminator>,
}

/// A declared parameter of a lowered function.
pub struct Param {
    pub name: String,
    pub ty: Rc<Type>,
    pub id: u64,
}

/// A function of the module. Without blocks it is declared only; defining
/// it gives it an entry block and possibly more.
pub struct FunctionRec {
    pub name: String,
    pub params: Vec<Param>,
    pub ret: Rc<Type>,
    pub blocks: Vec<BasicBlock>,
}

/// The module: a name, an ordered table of functions with unique names,
/// and the monotone counter that numbers values.
pub struct Module {
    pub name: String,
    pub funcs: Vec<FunctionRec>,
    pub counter: u64,
}

/// A typed value: its type, and an operand unless the type is `Void`.
#[derive(Debug)]
pub struct TypedValue {
    pub ty: Rc<Type>,
    pub val: Option<Val>,
}

// --- mathematical images ---------------------------------------------------

/// Image of `Inst`.
#[verifier::ext_equal]
#[allow(inconsistent_fields)]
pub enum InstV {
    Alloca { dst: u64, ty: Type },
    Store { ptr: Val, val: Val, ty: Type },
    Load { dst: u64, ptr: Val, ty: Type },
    Bin { dst: u64, op: BinOpKind, ty: Type, lhs: Val, rhs: Val },
    Cmp { dst: u64, op: CmpKind, ty: Type, lhs: Val, rhs: Val },
    Call { dst: Option<u64>, callee: Seq<char>, ret: Type, args: Seq<Val> },
    Phi { dst: u64, ty: Type, a: Val, ablk: int, b: Val, bblk: int },
}

/// Image of `Terminator`.
#[verifier::ext_equal]
pub enum TermV {
    Ret { arg: Option<(Val, Type)> },
    Br { target: int },
    CondBr { cond: Val, then_to: int, else_to: int },
}

/// Image of `BasicBlock`.
#[verifier::ext_equal]
pub struct BlockV {
    pub label: Seq<char>,
    pub insts: Seq<InstV>,
    pub term: Option<TermV>,
}

/// Image of `Param`.
#[verifier::ext_equal]
pub struct ParamV {
    pub name: Seq<char>,
    pub ty: Type,
    pub id: u64,
}

/// Image of `FunctionRec`.
#[verifier::ext_equal]
pub struct FuncV {
    pub name: Seq<char>,
    pub params: Seq<ParamV>,
    pub ret: Type,
    pub blocks: Seq<BlockV>,
}

/// Image of `Module`.
#[verifier::ext_equal]
pub struct ModuleV {
    pub name: Seq<char>,
    pub funcs: Seq<FuncV>,
    pub counter: u64,
}

/// Image of `TypedValue`.
#[verifier::ext_equal]
pub struct TypedValueV {
    pub ty: Type,
    pub val: Option<Val>,
}

impl View for Inst {
    type V = InstV;

    open spec fn view(&self) -> InstV {
        match self {
            Inst::Alloca { dst, ty } => InstV::Alloca { dst: *dst, ty: **ty },
            Inst::Store { ptr, val, ty } => InstV::Store { ptr: *ptr, val: *val, ty: **ty },
            Inst::Load { dst, ptr, ty } => InstV::Load { dst: *dst, ptr: *ptr, ty: **ty },
            Inst::Bin { dst, op, ty, lhs, rhs } => {
                InstV::Bin { dst: *dst, op: *op, ty: **ty, lhs: *lhs, rhs: *rhs }
            },
            Inst::Cmp { dst, op, ty, lhs, rhs } => {
                InstV::Cmp { dst: *dst, op: *op, ty: **ty, lhs: *lhs, rhs: *rhs }
            },
            Inst::Call { dst, callee, ret, args } => {
                InstV::Call { dst: *dst, callee: callee@, ret: **ret, args: args@ }
            },
            Inst::Phi { dst, ty, a, ablk, b, bblk } => {
                InstV::Phi {
                    dst: *dst,
                    ty: **ty,
                    a: *a,
                    ablk: *ablk as int,
                    b: *b,
                    bblk: *bblk as int,
                }
            },
        }
    }
}

impl View for Terminator {
    type V = TermV;

    open spec fn view(&self) -> TermV {
        match self {
            Terminator::Ret { arg } => {
                TermV::Ret {
                    arg: match arg {
                        Some((v, t)) => Some((*v, **t)),
                        None => None,
                    },
                }
            },
            Terminator::Br { target } => TermV::Br { target: *target as int },
            Terminator::CondBr { cond, then_to, else_to } => {
                TermV::CondBr {
                    cond: *cond,
                    then_to: *then_to as int,
                    else_to: *else_to as int,
                }
            },
        }
    }
}

impl View for BasicBlock {
    type V = BlockV;

    open spec fn view(&self) -> BlockV {
        BlockV {
            label: self.label@,
            insts: self.insts@.map_values(|i: Inst| i@),
            term: match self.term {
                Some(t) => Some(t@),
                None => None,
            },
        }
    }
}

impl View for Param {
    type V = ParamV;

    open spec fn view(&self) -> ParamV {
        ParamV { name: self.name@, ty: *self.ty, id: self.id }
    }
}

impl View for FunctionRec {
    type V = FuncV;

    open spec fn view(&self) -> FuncV {
        FuncV {
            name: self.name@,
            params: self.params@.map_values(|p: Param| p@),
            ret: *self.ret,
            blocks: self.blocks@.map_values(|b: BasicBlock| b@),
        }
    }
}

impl View for Module {
    type V = ModuleV;

    open spec fn view(&self) -> ModuleV {
        ModuleV {
            name: self.name@,
            funcs: self.funcs@.map_values(|f: FunctionRec| f@),
            counter: self.counter,
        }
    }
}

impl View for TypedValue {
    type V = TypedValueV;

    open spec fn view(&self) -> TypedValueV {
        TypedValueV {
            ty: *self.ty,
            val: self.val,
        }
    }
}

impl TypedValue {
    /// A second handle on the same typed value.
    pub fn duplicate(&self) -> (r: TypedValue)
        ensures
            r@ == self@,
    {
        TypedValue { ty: crate::types::dup_type(&self.ty), val: self.val }
    }
}

/// The next value number: one more, staying put at the top of the range,
/// which no reachable module can fill.
pub open spec fn sat_inc(c: u64) -> u64 {
    if c < u64::MAX {
        (c + 1) as u64
    } else {
        c
    }
}

impl Module {
    /// Draw a fresh value number and advance the counter.
    pub fn fresh_value(&mut self) -> (r: u64)
        ensures
            r == old(self).counter,
            final(self)@ == (ModuleV { counter: sat_inc(old(self).counter), ..old(self)@ }),
    {
        let r = self.counter;
        if self.counter < u64::MAX {
            self.counter = self.counter + 1;
        }
        r
    }
}

/// The position of the function called `name` in the table, searching from
/// the front; `None` when no function carries the name.
pub open spec fn spec_find_func(funcs: Seq<FuncV>, name: Seq<char>) -> Option<int>
    decreases funcs.len(),
{
    if funcs.len() == 0 {
        None
    } else if funcs[0].name == name {
        Some(0)
    } else {
        match spec_find_func(funcs.drop_first(), name) {
            Some(i) => Some(i + 1),
            None => None,
        }
    }
}

/// Unrolling `spec_find_func` past a prefix without a match.
pub proof fn lemma_find_func_skip(funcs: Seq<FuncV>, name: Seq<char>, k: int)
    requires
        0 <= k <= funcs.len(),
        forall|j: int| 0 <= j < k ==> funcs[j].name != name,
    ensures
        spec_find_func(funcs, name) == match spec_find_func(funcs.skip(k), name) {
            Some(i) => Some(i + k),
            None => None::<int>,
        },
    decreases k,
{
    if k == 0 {
        assert(funcs.skip(0) =~= funcs);
    } else {
        lemma_find_func_skip(funcs, name, k - 1);
        assert(funcs.skip(k - 1).len() > 0);
        assert(funcs.skip(k - 1)[0] == funcs[k - 1]);
        assert(funcs.skip(k - 1).drop_first() =~= funcs.skip(k));
    }
}

/// What `spec_find_func` answers is a real position with the name asked
/// for, and `None` only when the name is nowhere.
pub proof fn lemma_find_func_correct(funcs: Seq<FuncV>, name: Seq<char>)
    ensures
        match spec_find_func(funcs, name) {
            Some(i) => 0 <= i < funcs.len() && funcs[i].name == name,
            None => forall|j: int| 0 <= j < funcs.len() ==> funcs[j].name != name,
        },
    decreases funcs.len(),
{
    if funcs.len() > 0 && funcs[0].name != name {
        lemma_find_func_correct(funcs.drop_first(), name);
        match spec_find_func(funcs.drop_first(), name) {
            Some(i) => {
                assert(funcs.drop_first()[i] == funcs[i + 1]);
            },
            None => {
                assert forall|j: int| 0 <= j < funcs.len() implies funcs[j].name != name by {
                    if j > 0 {
                        assert(funcs.drop_first()[j - 1] == funcs[j]);
                    }
                }
            },
        }
    }
}

impl Module {
    /// Find the position of the function called `name`.
    pub fn find_func(&self, name: &String) -> (r: Option<usize>)
        ensures
            match r {
                Some(i) => spec_find_func(self@.funcs, name@) == Some(i as int),
                None => spec_find_func(self@.funcs, name@) is None,
            },
    {
        let n: usize = self.funcs.len();
        let mut i: usize = 0;
        while i < n
            invariant
                n == self.funcs.len(),
                i <= n,
                forall|j: int| 0 <= j < i ==> self@.funcs[j].name != name@,
            decreases n - i,
        {
            if names_equal(name, &self.funcs[i].name) {
                proof {
                    lemma_find_func_skip(self@.funcs, name@, i as int);
                    assert(self@.funcs.skip(i as int)[0] == self@.funcs[i as int]);
                }
                return Some(i);
            }
            i += 1;
        }
        proof {
            lemma_find_func_skip(self@.funcs, name@, n as int);
            assert(self@.funcs.skip(n as int) =~= Seq::<FuncV>::empty());
        }
        None
    }
}

/// The images of a sequence of parameter records.
pub open spec fn params_view(s: Seq<Param>) -> Seq<ParamV> {
    s.map_values(|p: Param| p@)
}

/// The images of a sequence of typed values.
pub open spec fn tvs_view(s: Seq<TypedValue>) -> Seq<TypedValueV> {
    s.map_values(|t: TypedValue| t@)
}

/// Equality of two names, by contents.
pub fn names_equal(a: &String, b: &String) -> (r: bool)
    ensures
        r == (a@ == b@),
{
    a.eq(b)
}

} // verus!
