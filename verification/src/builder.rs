//! The module builder: registering a callable signature without a body
//! (declare), and opening a function for definition (define) — entry
//! block, cursor positioned there, one addressable slot per parameter
//! holding the incoming value, and the parameter names bound in a newly
//! pushed scope. A signature is registered before any body is lowered, so
//! a body may call its own function.

use vstd::prelude::*;
use crate::context::{
    spec_bind, spec_push_scope, spec_resolve_type, Compiler, CtxV, Cursor, CursorV,
};
use crate::diag::{CompileError, ErrV, OpName};
use crate::ast::ParamDecl;
use crate::emit::with_module;
use crate::ir::{
    params_view, sat_inc, spec_find_func, BasicBlock, BlockV, FuncV, FunctionRec, ModuleV, Param, ParamV,
    TypedValue, TypedValueV, Val,
};
use crate::ops::spec_slot;
use crate::scopes::lookup_ty;
use crate::text::{make_label, spec_dec};
use crate::types::{dup_type, Type};

verus! {

/// The images of a sequence of owned type names.
pub open spec fn strings_view(s: Seq<String>) -> Seq<Seq<char>> {
    s.map_values(|x: String| x@)
}

/// The images of a sequence of parameter declarations: the type name,
/// then the parameter's own name.
pub open spec fn decls_view(s: Seq<ParamDecl>) -> Seq<(Seq<char>, Seq<char>)> {
    s.map_values(|p: ParamDecl| (p.ty_name@, p.name@))
}

/// The counter after `n` draws.
pub open spec fn sat_bumps(c: u64, n: int) -> u64
    decreases n,
{
    if n <= 0 {
        c
    } else {
        sat_bumps(sat_inc(c), n - 1)
    }
}

/// Drawing once more advances the end of the chain.
pub proof fn lemma_sat_bumps_snoc(c: u64, n: int)
    requires
        n >= 0,
    ensures
        sat_bumps(c, n + 1) == sat_inc(sat_bumps(c, n)),
    decreases n,
{
    if n == 0 {
        assert(sat_bumps(c, 1) == sat_bumps(sat_inc(c), 0));
    } else {
        lemma_sat_bumps_snoc(sat_inc(c), n - 1);
    }
}

/// The type names of a sequence of parameter declarations.
pub open spec fn decl_ty_names(decls: Seq<(Seq<char>, Seq<char>)>) -> Seq<Seq<char>> {
    decls.map_values(|d: (Seq<char>, Seq<char>)| d.0)
}

/// The first failure among the named parameter types, from position `k`
/// on: a name no scope binds, or the type `Void`, which no parameter may
/// have.
pub open spec fn param_err(c: CtxV, names: Seq<Seq<char>>, k: int) -> Option<ErrV>
    decreases names.len() - k,
{
    if k < 0 || k >= names.len() {
        None
    } else {
        match lookup_ty(c.scopes, names[k]) {
            None => Some(ErrV::UndefinedType(names[k])),
            Some(t) => if t is Void {
                Some(ErrV::UnsupportedOperation { ty: t, op: OpName::Parameter })
            } else {
                param_err(c, names, k + 1)
            },
        }
    }
}

/// The type a parameter name resolves to.
pub open spec fn param_ty(c: CtxV, name: Seq<char>) -> Type {
    lookup_ty(c.scopes, name)->Some_0
}

/// Without a failure, every name resolves, and never to `Void`.
pub proof fn lemma_param_err_none(c: CtxV, names: Seq<Seq<char>>, k: int)
    requires
        0 <= k,
        param_err(c, names, k) is None,
    ensures
        forall|j: int|
            k <= j < names.len() ==> lookup_ty(c.scopes, #[trigger] names[j]) is Some && !(
            param_ty(c, names[j]) is Void),
    decreases names.len() - k,
{
    if 0 <= k < names.len() {
        lemma_param_err_none(c, names, k + 1);
    }
}

/// The parameter records a declaration registers: only the types, since
/// a declared function owns no body.
pub open spec fn declared_params(c: CtxV, names: Seq<Seq<char>>) -> Seq<ParamV> {
    Seq::new(names.len(), |i: int| ParamV { name: Seq::empty(), ty: param_ty(c, names[i]), id: 0 })
}

/// Register a callable signature without a body.
pub open spec fn spec_declare(c: CtxV, name: Seq<char>, ret_name: Seq<char>, ptys: Seq<Seq<char>>)
    -> (CtxV, Result<int, ErrV>) {
    if c.module is None {
        (c, Err(ErrV::NoModule))
    } else {
        match spec_resolve_type(c, ret_name) {
            Err(e) => (c, Err(e)),
            Ok(ret) => match param_err(c, ptys, 0) {
                Some(e) => (c, Err(e)),
                None => {
                    let m = c.module->Some_0;
                    if spec_find_func(m.funcs, name) is Some {
                        (c, Err(ErrV::DuplicateFunction(name)))
                    } else {
                        let f = FuncV {
                            name,
                            params: declared_params(c, ptys),
                            ret,
                            blocks: Seq::empty(),
                        };
                        (
                            with_module(c, ModuleV { funcs: m.funcs.push(f), ..m }),
                            Ok(m.funcs.len() as int),
                        )
                    }
                },
            },
        }
    }
}

/// The parameter records of a defined function: declared names, resolved
/// types, and one fresh value number each, drawn in order.
pub open spec fn defined_params(
    c: CtxV,
    decls: Seq<(Seq<char>, Seq<char>)>,
    c0: u64,
) -> Seq<ParamV> {
    Seq::new(
        decls.len(),
        |i: int| ParamV { name: decls[i].1, ty: param_ty(c, decls[i].0), id: sat_bumps(c0, i) },
    )
}

/// The entry block a definition opens.
pub open spec fn entry_block() -> BlockV {
    BlockV { label: "entry"@ + spec_dec(0), insts: Seq::empty(), term: None }
}

/// Give each parameter an addressable slot: store the incoming value and
/// bind the parameter's name to the slot, left to right.
pub open spec fn bind_params(c: CtxV, params: Seq<ParamV>, k: int) -> CtxV
    decreases params.len() - k,
{
    if k < 0 || k >= params.len() {
        c
    } else {
        let tv = TypedValueV { ty: params[k].ty, val: Some(Val::Reg(params[k].id)) };
        let (c1, r) = spec_slot(c, tv);
        let c2 = match r {
            Ok(slot) => spec_bind(c1, params[k].name, slot),
            Err(_) => c1,
        };
        bind_params(c2, params, k + 1)
    }
}

/// Register a signature and open the function for definition: entry
/// block, cursor there, slots and bindings for the parameters in a newly
/// pushed scope.
pub open spec fn spec_define(
    c: CtxV,
    name: Seq<char>,
    ret_name: Seq<char>,
    decls: Seq<(Seq<char>, Seq<char>)>,
) -> (CtxV, Result<int, ErrV>) {
    if c.module is None {
        (c, Err(ErrV::NoModule))
    } else {
        match spec_resolve_type(c, ret_name) {
            Err(e) => (c, Err(e)),
            Ok(ret) => match param_err(c, decl_ty_names(decls), 0) {
                Some(e) => (c, Err(e)),
                None => {
                    let m = c.module->Some_0;
                    if spec_find_func(m.funcs, name) is Some {
                        (c, Err(ErrV::DuplicateFunction(name)))
                    } else {
                        let params = defined_params(c, decls, m.counter);
                        let f = FuncV { name, params, ret, blocks: seq![entry_block()] };
                        let m1 = ModuleV {
                            funcs: m.funcs.push(f),
                            counter: sat_bumps(m.counter, decls.len() as int),
                            ..m
                        };
                        let c1 = CtxV {
                            module: Some(m1),
                            cur: Some(CursorV { func: m.funcs.len() as int, blk: 0 }),
                            ..c
                        };
                        let c2 = spec_push_scope(c1);
                        (bind_params(c2, params, 0), Ok(m.funcs.len() as int))
                    }
                },
            },
        }
    }
}

// --- executable operations --------------------------------------------------

impl Compiler {
    /// Register a callable signature without a body; see `spec_declare`.
    #[verifier::rlimit(100)]
    pub fn declare_function(
        &mut self,
        name: &String,
        ret_name: &String,
        param_tys: &Vec<String>,
    ) -> (r: Result<usize, CompileError>)
        requires
            old(self)@.wf(),
        ensures
            final(self)@ == spec_declare(
                old(self)@,
                name@,
                ret_name@,
                strings_view(param_tys@),
            ).0,
            ({
                let sr = spec_declare(
                    old(self)@,
                    name@,
                    ret_name@,
                    strings_view(param_tys@),
                ).1;
                match r {
                    Ok(i) => sr == Ok::<int, ErrV>(i as int),
                    Err(e) => sr == Err::<int, ErrV>(e@),
                }
            }),
            final(self)@.wf(),
    {
        let ghost ptysv = strings_view(param_tys@);
        if self.module.is_none() {
            return Err(CompileError::NoModule);
        }
        let ret = match self.resolve_type(ret_name) {
            Ok(t) => t,
            Err(e) => {
                return Err(e);
            },
        };
        let n: usize = param_tys.len();
        let mut tys: Vec<std::rc::Rc<Type>> = Vec::new();
        let mut i: usize = 0;
        while i < n
            invariant
                n == param_tys@.len(),
                i <= n,
                ptysv == strings_view(param_tys@),
                ptysv.len() == n,
                self@ == old(self)@,
                old(self)@.wf(),
                old(self)@.module is Some,
                spec_resolve_type(old(self)@, ret_name@) == Ok::<Type, ErrV>(*ret),
                param_err(old(self)@, ptysv, 0) == param_err(old(self)@, ptysv, i as int),
                tys@.len() == i,
                forall|j: int| 0 <= j < i ==> *tys@[j] == param_ty(old(self)@, ptysv[j]),
            decreases n - i,
        {
            proof {
                assert(ptysv[i as int] == param_tys@[i as int]@);
            }
            let t = match self.resolve_type(&param_tys[i]) {
                Ok(t) => t,
                Err(e) => {
                    return Err(e);
                },
            };
            if t.is_void() {
                return Err(
                    CompileError::UnsupportedOperation { ty: t, op: OpName::Parameter },
                );
            }
            tys.push(t);
            i += 1;
        }
        let dup = match &self.module {
            Some(m) => m.find_func(name).is_some(),
            None => false,
        };
        if dup {
            return Err(CompileError::DuplicateFunction(name.clone()));
        }
        let mut prs: Vec<Param> = Vec::new();
        let mut i: usize = 0;
        while i < n
            invariant
                i <= n,
                self@ == old(self)@,
                tys@.len() == n,
                ptysv.len() == n,
                prs@.len() == i,
                declared_params(old(self)@, ptysv).len() == n,
                forall|j: int| 0 <= j < n ==> *tys@[j] == param_ty(old(self)@, ptysv[j]),
                params_view(prs@) =~= declared_params(old(self)@, ptysv).take(
                    i as int,
                ),
            decreases n - i,
        {
            prs.push(Param { name: String::new(), ty: dup_type(&tys[i]), id: 0 });
            proof {
                assert(params_view(prs@) =~~= declared_params(old(self)@, ptysv).take(i + 1));
            }
            i += 1;
        }
        proof {
            assert(declared_params(old(self)@, ptysv).take(n as int) =~= declared_params(
                old(self)@,
                ptysv,
            ));
        }
        match &mut self.module {
            Some(m) => {
                let fidx: usize = m.funcs.len();
                m.funcs.push(
                    FunctionRec { name: name.clone(), params: prs, ret, blocks: Vec::new() },
                );
                proof {
                    assert(final(self)@.module->Some_0 =~~= spec_declare(
                        old(self)@,
                        name@,
                        ret_name@,
                        ptysv,
                    ).0.module->Some_0);
                    assert(final(self)@ =~~= spec_declare(
                        old(self)@,
                        name@,
                        ret_name@,
                        ptysv,
                    ).0);
                }
                Ok(fidx)
            },
            None => Err(CompileError::NoModule),
        }
    }

    /// Register a signature and open the function for definition; see
    /// `spec_define`.
    #[verifier::rlimit(100)]
    pub fn define_function(
        &mut self,
        name: &String,
        ret_name: &String,
        params: &Vec<ParamDecl>,
    ) -> (r: Result<usize, CompileError>)
        requires
            old(self)@.wf(),
        ensures
            final(self)@ == spec_define(
                old(self)@,
                name@,
                ret_name@,
                decls_view(params@),
            ).0,
            ({
                let sr = spec_define(
                    old(self)@,
                    name@,
                    ret_name@,
                    decls_view(params@),
                ).1;
                match r {
                    Ok(i) => sr == Ok::<int, ErrV>(i as int),
                    Err(e) => sr == Err::<int, ErrV>(e@),
                }
            }),
            final(self)@.wf(),
            r is Ok ==> final(self)@.cursor_open(),
            r matches Ok(fi) ==> {
                &&& forall|fj: int|
                    0 <= fj < old(self)@.module->Some_0.funcs.len()
                        ==> final(self)@.module->Some_0.funcs[fj] == old(
                        self,
                    )@.module->Some_0.funcs[fj]
                &&& final(self)@.module is Some
                &&& final(self)@.cur is Some
                &&& final(self)@.cur->Some_0.func == fi as int
                &&& final(self)@.cur->Some_0.blk == 0
                &&& fi as int == old(self)@.module->Some_0.funcs.len()
                &&& final(self)@.module->Some_0.funcs.len() == old(self)@.module->Some_0.funcs.len() + 1
                &&& final(self)@.module->Some_0.funcs[fi as int].ret == spec_resolve_type(
                    old(self)@,
                    ret_name@,
                )->Ok_0
                &&& final(self)@.scopes.len() == old(self)@.scopes.len() + 1
            },
    {
        let ghost declsv = decls_view(params@);
        let ghost ptysv = decl_ty_names(declsv);
        let ghost sd = spec_define(old(self)@, name@, ret_name@, declsv);
        if self.module.is_none() {
            return Err(CompileError::NoModule);
        }
        let ret = match self.resolve_type(ret_name) {
            Ok(t) => t,
            Err(e) => {
                return Err(e);
            },
        };
        let n: usize = params.len();
        let mut tys: Vec<std::rc::Rc<Type>> = Vec::new();
        let mut i: usize = 0;
        while i < n
            invariant
                n == params@.len(),
                i <= n,
                declsv == decls_view(params@),
                ptysv == decl_ty_names(declsv),
                ptysv.len() == n,
                sd == spec_define(old(self)@, name@, ret_name@, declsv),
                self@ == old(self)@,
                old(self)@.wf(),
                old(self)@.module is Some,
                spec_resolve_type(old(self)@, ret_name@) == Ok::<Type, ErrV>(*ret),
                param_err(old(self)@, ptysv, 0) == param_err(old(self)@, ptysv, i as int),
                tys@.len() == i,
                forall|j: int| 0 <= j < i ==> *tys@[j] == param_ty(old(self)@, ptysv[j]),
            decreases n - i,
        {
            proof {
                assert(declsv[i as int] == (params@[i as int].ty_name@, params@[i as int].name@));
                assert(ptysv[i as int] == declsv[i as int].0);
            }
            let t = match self.resolve_type(&params[i].ty_name) {
                Ok(t) => t,
                Err(e) => {
                    return Err(e);
                },
            };
            if t.is_void() {
                return Err(
                    CompileError::UnsupportedOperation { ty: t, op: OpName::Parameter },
                );
            }
            tys.push(t);
            i += 1;
        }
        let dup = match &self.module {
            Some(m) => m.find_func(name).is_some(),
            None => false,
        };
        if dup {
            return Err(CompileError::DuplicateFunction(name.clone()));
        }
        proof {
            assert(spec_find_func(old(self)@.module->Some_0.funcs, name@) is None);
            lemma_param_err_none(old(self)@, ptysv, 0);
        }
        let ghost c0 = old(self)@.module->Some_0.counter;
        let ghost pv = defined_params(old(self)@, declsv, c0);
        let ghost retv = spec_resolve_type(old(self)@, ret_name@)->Ok_0;
        // Draw one value number per parameter, in order.
        let mut prs: Vec<Param> = Vec::new();
        let mut i: usize = 0;
        while i < n
            invariant
                n == params@.len(),
                i <= n,
                declsv == decls_view(params@),
                ptysv == decl_ty_names(declsv),
                pv == defined_params(old(self)@, declsv, c0),
                pv.len() == n,
                tys@.len() == n,
                forall|j: int| 0 <= j < n ==> *tys@[j] == param_ty(old(self)@, ptysv[j]),
                old(self)@.wf(),
                old(self)@.module is Some,
                c0 == old(self)@.module->Some_0.counter,
                self@ == with_module(
                    old(self)@,
                    ModuleV { counter: sat_bumps(c0, i as int), ..old(self)@.module->Some_0 },
                ),
                prs@.len() == i,
                params_view(prs@) =~= pv.take(i as int),
            decreases n - i,
        {
            proof {
                assert(declsv[i as int] == (params@[i as int].ty_name@, params@[i as int].name@));
                assert(ptysv[i as int] == declsv[i as int].0);
                lemma_sat_bumps_snoc(c0, i as int);
            }
            let id = self.fresh();
            prs.push(Param { name: params[i].name.clone(), ty: dup_type(&tys[i]), id });
            proof {
                assert(self@ =~~= with_module(
                    old(self)@,
                    ModuleV { counter: sat_bumps(c0, i + 1), ..old(self)@.module->Some_0 },
                ));
                assert(params_view(prs@) =~~= pv.take(i + 1));
            }
            i += 1;
        }
        // Register the signature with its entry block and move the cursor.
        let fidx: usize = match &mut self.module {
            Some(m) => {
                let fx: usize = m.funcs.len();
                let mut bs: Vec<BasicBlock> = Vec::new();
                bs.push(BasicBlock { label: make_label("entry", 0), insts: Vec::new(), term: None });
                m.funcs.push(FunctionRec { name: name.clone(), params: prs, ret, blocks: bs });
                fx
            },
            None => 0,
        };
        self.cursor = Some(Cursor { func: fidx, blk: 0 });
        self.push_scope();
        proof {
            assert(pv.take(n as int) =~= pv);
            let m0 = old(self)@.module->Some_0;
            let f = FuncV { name: name@, params: pv, ret: retv, blocks: seq![entry_block()] };
            let m1 = ModuleV {
                funcs: m0.funcs.push(f),
                counter: sat_bumps(c0, n as int),
                ..m0
            };
            let c1 = CtxV {
                module: Some(m1),
                cur: Some(CursorV { func: m0.funcs.len() as int, blk: 0 }),
                ..old(self)@
            };
            let c2 = spec_push_scope(c1);
            assert(fidx as int == m0.funcs.len());
            assert(self@ =~~= c2);
            assert(sd.0 == bind_params(c2, pv, 0));
            assert(sd.0 == bind_params(self@, pv, 0));
            assert forall|j: int| 0 <= j < n implies !(#[trigger] pv[j].ty is Void) by {
                assert(ptysv[j] == declsv[j].0);
                assert(pv[j].ty == param_ty(old(self)@, ptysv[j]));
            }
        }
        // Give each parameter its slot and bind its name.
        let mut i: usize = 0;
        while i < n
            invariant
                n == params@.len(),
                i <= n,
                declsv == decls_view(params@),
                pv == defined_params(old(self)@, declsv, c0),
                pv.len() == n,
                sd.0 == bind_params(self@, pv, i as int),
                sd == spec_define(old(self)@, name@, ret_name@, declsv),
                self@.wf(),
                self@.cursor_open(),
                self@.module is Some,
                self@.cur is Some,
                self@.cur->Some_0.func == fidx as int,
                self@.cur->Some_0.blk == 0,
                fidx < self@.module->Some_0.funcs.len(),
                fidx as int == old(self)@.module->Some_0.funcs.len(),
                self@.module->Some_0.funcs.len() == old(self)@.module->Some_0.funcs.len() + 1,
                self@.module->Some_0.funcs[fidx as int].params == pv,
                self@.module->Some_0.funcs[fidx as int].ret == retv,
                forall|fj: int|
                    0 <= fj < old(self)@.module->Some_0.funcs.len()
                        ==> self@.module->Some_0.funcs[fj] == old(
                        self,
                    )@.module->Some_0.funcs[fj],
                retv == spec_resolve_type(old(self)@, ret_name@)->Ok_0,
                self@.scopes.len() == old(self)@.scopes.len() + 1,
                self@.scopes.len() > 1,
                forall|j: int|
                    0 <= j < n ==> !(#[trigger] pv[j].ty is Void),
            decreases n - i,
        {
            let (pty, pid): (std::rc::Rc<Type>, u64) = match &self.module {
                Some(m) => {
                    proof {
                        assert(m@.funcs[fidx as int].params[i as int] == m.funcs@[fidx as int].params@[i as int]@);
                    }
                    let p = &m.funcs[fidx].params[i];
                    (dup_type(&p.ty), p.id)
                },
                None => (crate::types::share_type(Type::Void), 0),
            };
            let pname = params[i].name.clone();
            let tv = TypedValue { ty: pty, val: Some(Val::Reg(pid)) };
            proof {
                assert(tv@ == (TypedValueV { ty: pv[i as int].ty, val: Some(Val::Reg(pv[i as int].id)) }));
                assert(declsv[i as int] == (params@[i as int].ty_name@, params@[i as int].name@));
                assert(pv[i as int].name == declsv[i as int].1);
            }
            let ghost pre = self@;
            let slot = match self.emit_slot(&tv) {
                Ok(s) => s,
                Err(e) => {
                    proof {
                        assert(false);
                    }
                    return Err(e);
                },
            };
            self.bind(pname, slot);
            proof {
                assert(bind_params(pre, pv, i as int) == bind_params(self@, pv, i + 1));
            }
            i += 1;
        }
        proof {
            assert(bind_params(self@, pv, n as int) == self@);
        }
        Ok(fidx)
    }
}

} // verus!
