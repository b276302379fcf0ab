//! The compilation context: the module under construction, the scope
//! stack, and the single insertion cursor. Every operation of the engine
//! is a function of this context, and each executable operation is pinned
//! to a ghost counterpart over the context's mathematical image.

use vstd::prelude::*;
use vstd::string::StringExecFns;
use crate::diag::{CompileError, ErrV};
use crate::ir::{Module, ModuleV, TypedValue, TypedValueV};
use crate::scopes::{lookup_ty, lookup_val, scopes_view, Scope, ScopeV};
use crate::types::{share_type, Type};

verus! {

/// The insertion cursor: the one basic block now receiving instructions,
/// named by its function's position and its own position there.
#[derive(Clone, Copy, PartialEq, Eq, Structural, Debug)]
pub struct Cursor {
    pub func: usize,
    pub blk: usize,
}

/// Image of `Cursor`.
#[verifier::ext_equal]
pub struct CursorV {
    pub func: int,
    pub blk: int,
}

/// Image of the whole compilation context.
#[verifier::ext_equal]
pub struct CtxV {
    pub module: Option<ModuleV>,
    pub scopes: Seq<ScopeV>,
    pub cur: Option<CursorV>,
}

impl CtxV {
    /// The context is well formed: at least the builtin scope stands, and
    /// the cursor, when set, points into a real block of a real function
    /// of a created module.
    pub open spec fn wf(&self) -> bool {
        &&& self.scopes.len() >= 1
        &&& match self.cur {
            Some(c) => {
                &&& self.module is Some
                &&& 0 <= c.func < self.module->Some_0.funcs.len()
                &&& 0 <= c.blk < self.module->Some_0.funcs[c.func].blocks.len()
            },
            None => true,
        }
    }

    /// The block under the cursor.
    pub open spec fn cur_block(&self) -> crate::ir::BlockV
        recommends
            self.wf(),
            self.cur is Some,
    {
        self.module->Some_0.funcs[self.cur->Some_0.func].blocks[self.cur->Some_0.blk]
    }

    /// The cursor stands in a block that is still open for writing.
    pub open spec fn cursor_open(&self) -> bool {
        &&& self.cur is Some
        &&& self.cur_block().term is None
    }
}

/// The driver of one compilation session.
pub struct Compiler {
    pub module: Option<Module>,
    pub scopes: Vec<Scope>,
    pub cursor: Option<Cursor>,
}

impl View for Compiler {
    type V = CtxV;

    open spec fn view(&self) -> CtxV {
        CtxV {
            module: match self.module {
                Some(m) => Some(m@),
                None => None,
            },
            scopes: scopes_view(self.scopes@),
            cur: match self.cursor {
                Some(c) => Some(CursorV { func: c.func as int, blk: c.blk as int }),
                None => None,
            },
        }
    }
}

/// The builtin type catalog that opens every session.
pub open spec fn builtin_scope() -> ScopeV {
    ScopeV {
        types: Map::empty()
            .insert("Number"@, Type::Number)
            .insert("Int32"@, Type::Int32)
            .insert("Bool"@, Type::Bool)
            .insert("Void"@, Type::Void),
        vals: Map::empty(),
    }
}

/// The context a fresh session starts from: no module, no cursor, one
/// scope holding the builtin types.
pub open spec fn initial_ctx() -> CtxV {
    CtxV { module: None, scopes: seq![builtin_scope()], cur: None }
}

/// Whether a unit-valued outcome agrees with the ghost outcome.
pub open spec fn unit_outcome(r: Result<(), CompileError>, e: Option<ErrV>) -> bool {
    match r {
        Ok(_) => e is None,
        Err(er) => e matches Some(ev) && er@ == ev,
    }
}

// --- ghost operations -------------------------------------------------------

/// Create the module: exactly once per session.
pub open spec fn spec_create_module(c: CtxV, name: Seq<char>) -> (CtxV, Option<ErrV>) {
    if c.module is Some {
        (c, Some(ErrV::ModuleAlreadyCreated))
    } else {
        (
            CtxV {
                module: Some(ModuleV { name, funcs: Seq::empty(), counter: 0 }),
                ..c
            },
            None,
        )
    }
}

/// Enter a nested scope.
pub open spec fn spec_push_scope(c: CtxV) -> CtxV {
    CtxV { scopes: c.scopes.push(ScopeV::empty()), ..c }
}

/// Leave the innermost scope, dropping everything bound inside it.
pub open spec fn spec_pop_scope(c: CtxV) -> CtxV {
    CtxV { scopes: c.scopes.drop_last(), ..c }
}

/// Define a type name in the innermost scope.
pub open spec fn spec_define_type(c: CtxV, name: Seq<char>, ty: Type) -> (CtxV, Option<ErrV>) {
    let last = c.scopes.last();
    if last.types.dom().contains(name) {
        (c, Some(ErrV::DuplicateType(name)))
    } else {
        (
            CtxV {
                scopes: c.scopes.update(
                    c.scopes.len() - 1,
                    ScopeV { types: last.types.insert(name, ty), ..last },
                ),
                ..c
            },
            None,
        )
    }
}

/// Resolve a type name, innermost scope first.
pub open spec fn spec_resolve_type(c: CtxV, name: Seq<char>) -> Result<Type, ErrV> {
    match lookup_ty(c.scopes, name) {
        Some(t) => Ok(t),
        None => Err(ErrV::UndefinedType(name)),
    }
}

/// Bind a variable name in the innermost scope, shadowing any earlier
/// binding of the name there.
pub open spec fn spec_bind(c: CtxV, name: Seq<char>, tv: TypedValueV) -> CtxV {
    let last = c.scopes.last();
    CtxV {
        scopes: c.scopes.update(
            c.scopes.len() - 1,
            ScopeV { vals: last.vals.insert(name, tv), ..last },
        ),
        ..c
    }
}

/// Look a variable name up, innermost scope first.
pub open spec fn spec_lookup(c: CtxV, name: Seq<char>) -> Result<TypedValueV, ErrV> {
    match lookup_val(c.scopes, name) {
        Some(tv) => Ok(tv),
        None => Err(ErrV::UndefinedVariable(name)),
    }
}

// --- executable operations --------------------------------------------------

impl Compiler {
    /// Open a session: no module yet, one scope with the builtin types
    /// `Number`, `Int32`, `Bool` and `Void`.
    pub fn new() -> (r: Compiler)
        ensures
            r@ == initial_ctx(),
            r@.wf(),
    {
        let mut sc = Scope::new_scope();
        sc.bind_type(String::from_str("Number"), share_type(Type::Number));
        sc.bind_type(String::from_str("Int32"), share_type(Type::Int32));
        sc.bind_type(String::from_str("Bool"), share_type(Type::Bool));
        sc.bind_type(String::from_str("Void"), share_type(Type::Void));
        let mut scopes: Vec<Scope> = Vec::new();
        scopes.push(sc);
        let r = Compiler { module: None, scopes, cursor: None };
        proof {
            assert(r@.scopes =~= seq![builtin_scope()]) by {
                assert(r@.scopes.len() == 1);
                assert(r@.scopes[0] =~= builtin_scope());
            }
            assert(r@ =~= initial_ctx());
        }
        r
    }

    /// Create the module this session compiles into; a second creation
    /// fails with `ModuleAlreadyCreated`.
    pub fn create_module(&mut self, name: String) -> (r: Result<(), CompileError>)
        ensures
            final(self)@ == spec_create_module(old(self)@, name@).0,
            unit_outcome(r, spec_create_module(old(self)@, name@).1),
            old(self)@.wf() ==> final(self)@.wf(),
    {
        if self.module.is_some() {
            return Err(CompileError::ModuleAlreadyCreated);
        }
        self.module = Some(Module { name, funcs: Vec::new(), counter: 0 });
        proof {
            assert(final(self)@ =~~= spec_create_module(old(self)@, name@).0);
        }
        Ok(())
    }

    /// Enter a nested scope.
    pub fn push_scope(&mut self)
        ensures
            final(self)@ == spec_push_scope(old(self)@),
            old(self)@.wf() ==> final(self)@.wf(),
    {
        self.scopes.push(Scope::new_scope());
        proof {
            assert(final(self)@ =~~= spec_push_scope(old(self)@));
        }
    }

    /// Leave the innermost scope. The outermost scope carries the builtin
    /// catalog and is never removable, so at least one nested scope must
    /// stand.
    pub fn pop_scope(&mut self)
        requires
            old(self)@.scopes.len() > 1,
        ensures
            final(self)@ == spec_pop_scope(old(self)@),
            old(self)@.wf() ==> final(self)@.wf(),
    {
        self.scopes.pop();
        proof {
            assert(final(self)@ =~~= spec_pop_scope(old(self)@));
        }
    }

    /// Define a type name in the innermost scope; a name already bound
    /// there fails with `DuplicateType`.
    pub fn define_type(&mut self, name: String, ty: Type) -> (r: Result<(), CompileError>)
        requires
            old(self)@.wf(),
        ensures
            final(self)@ == spec_define_type(old(self)@, name@, ty).0,
            unit_outcome(r, spec_define_type(old(self)@, name@, ty).1),
            final(self)@.wf(),
    {
        let idx: usize = self.scopes.len() - 1;
        match self.scopes[idx].find_type(&name) {
            Some(_) => {
                proof {
                    assert(old(self)@.scopes.last() == self@.scopes[idx as int]);
                }
                Err(CompileError::DuplicateType(name))
            },
            None => {
                let shared = share_type(ty);
                self.scopes[idx].bind_type(name, shared);
                proof {
                    assert(final(self)@ =~~= spec_define_type(old(self)@, name@, ty).0);
                }
                Ok(())
            },
        }
    }

    /// Resolve a type name, innermost scope first; an unbound name fails
    /// with `UndefinedType`.
    pub fn resolve_type(&self, name: &String) -> (r: Result<std::rc::Rc<Type>, CompileError>)
        ensures
            match r {
                Ok(t) => spec_resolve_type(self@, name@) == Ok::<Type, ErrV>(*t),
                Err(e) => spec_resolve_type(self@, name@) == Err::<Type, ErrV>(e@),
            },
    {
        match crate::scopes::stack_lookup_type(&self.scopes, name) {
            Some(t) => Ok(t),
            None => Err(CompileError::UndefinedType(name.clone())),
        }
    }

    /// Bind a variable name to a typed value in the innermost scope.
    pub fn bind(&mut self, name: String, tv: TypedValue)
        requires
            old(self)@.wf(),
        ensures
            final(self)@ == spec_bind(old(self)@, name@, tv@),
            final(self)@.wf(),
    {
        let idx: usize = self.scopes.len() - 1;
        self.scopes[idx].bind_value(name, tv);
        proof {
            assert(final(self)@ =~~= spec_bind(old(self)@, name@, tv@));
        }
    }

    /// Look a variable name up, innermost scope first; an unbound name
    /// fails with `UndefinedVariable`.
    pub fn lookup(&self, name: &String) -> (r: Result<TypedValue, CompileError>)
        ensures
            match r {
                Ok(tv) => spec_lookup(self@, name@) == Ok::<TypedValueV, ErrV>(tv@),
                Err(e) => spec_lookup(self@, name@) == Err::<TypedValueV, ErrV>(e@),
            },
    {
        match crate::scopes::stack_lookup_value(&self.scopes, name) {
            Some(tv) => Ok(tv),
            None => Err(CompileError::UndefinedVariable(name.clone())),
        }
    }
}

} // verus!
