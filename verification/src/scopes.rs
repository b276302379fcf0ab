//! Lexical scopes: named type bindings and named value bindings, stacked
//! innermost-last. Binding again in one scope shadows for the rest of that
//! scope; resolution walks from the innermost scope outward; popping a
//! scope drops everything bound inside it.

use vstd::prelude::*;
use std::rc::Rc;
use crate::ir::{names_equal, TypedValue, TypedValueV};
use crate::types::{dup_type, Type};

verus! {

/// One named type binding.
pub struct TyBind {
    pub name: String,
    pub ty: Rc<Type>,
}

/// One named value binding.
pub struct ValBind {
    pub name: String,
    pub tv: TypedValue,
}

/// One scope: its type bindings and value bindings in binding order.
pub struct Scope {
    pub tys: Vec<TyBind>,
    pub vals: Vec<ValBind>,
}

/// Image of a scope: two maps, later bindings shadowing earlier ones.
#[verifier::ext_equal]
pub struct ScopeV {
    pub types: Map<Seq<char>, Type>,
    pub vals: Map<Seq<char>, TypedValueV>,
}

impl ScopeV {
    /// A scope with nothing bound.
    pub open spec fn empty() -> ScopeV {
        ScopeV { types: Map::empty(), vals: Map::empty() }
    }
}

/// The map that a sequence of type bindings denotes.
pub open spec fn ty_map(s: Seq<TyBind>) -> Map<Seq<char>, Type>
    decreases s.len(),
{
    if s.len() == 0 {
        Map::empty()
    } else {
        ty_map(s.drop_last()).insert(s.last().name@, *s.last().ty)
    }
}

/// The map that a sequence of value bindings denotes.
pub open spec fn val_map(s: Seq<ValBind>) -> Map<Seq<char>, TypedValueV>
    decreases s.len(),
{
    if s.len() == 0 {
        Map::empty()
    } else {
        val_map(s.drop_last()).insert(s.last().name@, s.last().tv@)
    }
}

impl View for Scope {
    type V = ScopeV;

    open spec fn view(&self) -> ScopeV {
        ScopeV { types: ty_map(self.tys@), vals: val_map(self.vals@) }
    }
}

/// The images of a stack of scopes.
pub open spec fn scopes_view(s: Seq<Scope>) -> Seq<ScopeV> {
    s.map_values(|x: Scope| x@)
}

/// Resolution of a type name: innermost scope first, first match wins.
pub open spec fn lookup_ty(scopes: Seq<ScopeV>, name: Seq<char>) -> Option<Type>
    decreases scopes.len(),
{
    if scopes.len() == 0 {
        None
    } else if scopes.last().types.dom().contains(name) {
        Some(scopes.last().types[name])
    } else {
        lookup_ty(scopes.drop_last(), name)
    }
}

/// Resolution of a variable name: innermost scope first, first match wins.
pub open spec fn lookup_val(scopes: Seq<ScopeV>, name: Seq<char>) -> Option<TypedValueV>
    decreases scopes.len(),
{
    if scopes.len() == 0 {
        None
    } else if scopes.last().vals.dom().contains(name) {
        Some(scopes.last().vals[name])
    } else {
        lookup_val(scopes.drop_last(), name)
    }
}

// --- how the binding lists relate to their maps ----------------------------

/// A name is in the map exactly when some binding carries it.
proof fn lemma_ty_map_contains(s: Seq<TyBind>, n: Seq<char>)
    ensures
        ty_map(s).dom().contains(n) <==> exists|i: int| 0 <= i < s.len() && s[i].name@ == n,
    decreases s.len(),
{
    if s.len() > 0 {
        lemma_ty_map_contains(s.drop_last(), n);
        if s.last().name@ == n {
            assert(s[s.len() - 1].name@ == n);
        } else {
            if exists|i: int| 0 <= i < s.drop_last().len() && s.drop_last()[i].name@ == n {
                let i = choose|i: int| 0 <= i < s.drop_last().len() && s.drop_last()[i].name@ == n;
                assert(s[i].name@ == n);
            }
            if exists|i: int| 0 <= i < s.len() && s[i].name@ == n {
                let i = choose|i: int| 0 <= i < s.len() && s[i].name@ == n;
                assert(s.drop_last()[i].name@ == n);
            }
        }
    }
}

/// The last binding that carries a name decides what the map holds for it.
proof fn lemma_ty_map_at(s: Seq<TyBind>, n: Seq<char>, i: int)
    requires
        0 <= i < s.len(),
        s[i].name@ == n,
        forall|j: int| i < j < s.len() ==> s[j].name@ != n,
    ensures
        ty_map(s).dom().contains(n),
        ty_map(s)[n] == *s[i].ty,
    decreases s.len(),
{
    if i == s.len() - 1 {
    } else {
        lemma_ty_map_at(s.drop_last(), n, i);
    }
}

/// As `lemma_ty_map_contains`, for value bindings.
proof fn lemma_val_map_contains(s: Seq<ValBind>, n: Seq<char>)
    ensures
        val_map(s).dom().contains(n) <==> exists|i: int| 0 <= i < s.len() && s[i].name@ == n,
    decreases s.len(),
{
    if s.len() > 0 {
        lemma_val_map_contains(s.drop_last(), n);
        if s.last().name@ == n {
            assert(s[s.len() - 1].name@ == n);
        } else {
            if exists|i: int| 0 <= i < s.drop_last().len() && s.drop_last()[i].name@ == n {
                let i = choose|i: int| 0 <= i < s.drop_last().len() && s.drop_last()[i].name@ == n;
                assert(s[i].name@ == n);
            }
            if exists|i: int| 0 <= i < s.len() && s[i].name@ == n {
                let i = choose|i: int| 0 <= i < s.len() && s[i].name@ == n;
                assert(s.drop_last()[i].name@ == n);
            }
        }
    }
}

/// As `lemma_ty_map_at`, for value bindings.
proof fn lemma_val_map_at(s: Seq<ValBind>, n: Seq<char>, i: int)
    requires
        0 <= i < s.len(),
        s[i].name@ == n,
        forall|j: int| i < j < s.len() ==> s[j].name@ != n,
    ensures
        val_map(s).dom().contains(n),
        val_map(s)[n] == s[i].tv@,
    decreases s.len(),
{
    if i == s.len() - 1 {
    } else {
        lemma_val_map_at(s.drop_last(), n, i);
    }
}

// --- executable search in one scope ----------------------------------------

impl Scope {
    /// A scope with nothing bound.
    pub fn new_scope() -> (r: Scope)
        ensures
            r@ == ScopeV::empty(),
    {
        let r = Scope { tys: Vec::new(), vals: Vec::new() };
        proof {
            assert(r@.types =~= Map::empty());
            assert(r@.vals =~= Map::empty());
            assert(r@ =~= ScopeV::empty());
        }
        r
    }

    /// The type this scope binds to `name`, if any.
    pub fn find_type(&self, name: &String) -> (r: Option<Rc<Type>>)
        ensures
            match r {
                Some(t) => {
                    &&& self@.types.dom().contains(name@)
                    &&& self@.types[name@] == *t
                },
                None => !self@.types.dom().contains(name@),
            },
    {
        let n: usize = self.tys.len();
        let mut i: usize = n;
        while i > 0
            invariant
                n == self.tys.len(),
                i <= n,
                forall|j: int| i <= j < n ==> self.tys@[j].name@ != name@,
            decreases i,
        {
            i -= 1;
            if names_equal(&self.tys[i].name, name) {
                proof {
                    lemma_ty_map_at(self.tys@, name@, i as int);
                }
                return Some(dup_type(&self.tys[i].ty));
            }
        }
        proof {
            lemma_ty_map_contains(self.tys@, name@);
        }
        None
    }

    /// The value this scope binds to `name`, if any.
    pub fn find_value(&self, name: &String) -> (r: Option<TypedValue>)
        ensures
            match r {
                Some(tv) => {
                    &&& self@.vals.dom().contains(name@)
                    &&& self@.vals[name@] == tv@
                },
                None => !self@.vals.dom().contains(name@),
            },
    {
        let n: usize = self.vals.len();
        let mut i: usize = n;
        while i > 0
            invariant
                n == self.vals.len(),
                i <= n,
                forall|j: int| i <= j < n ==> self.vals@[j].name@ != name@,
            decreases i,
        {
            i -= 1;
            if names_equal(&self.vals[i].name, name) {
                proof {
                    lemma_val_map_at(self.vals@, name@, i as int);
                }
                return Some(self.vals[i].tv.duplicate());
            }
        }
        proof {
            lemma_val_map_contains(self.vals@, name@);
        }
        None
    }

    /// Bind a type name in this scope.
    pub fn bind_type(&mut self, name: String, ty: Rc<Type>)
        ensures
            final(self)@ == (ScopeV {
                types: old(self)@.types.insert(name@, *ty),
                vals: old(self)@.vals,
            }),
    {
        let ghost pre = self.tys@;
        self.tys.push(TyBind { name, ty });
        proof {
            assert(self.tys@.drop_last() =~= pre);
        }
    }

    /// Bind a value name in this scope, shadowing any earlier binding of
    /// the same name here.
    pub fn bind_value(&mut self, name: String, tv: TypedValue)
        ensures
            final(self)@ == (ScopeV {
                types: old(self)@.types,
                vals: old(self)@.vals.insert(name@, tv@),
            }),
    {
        let ghost pre = self.vals@;
        self.vals.push(ValBind { name, tv });
        proof {
            assert(self.vals@.drop_last() =~= pre);
        }
    }
}

// --- executable search through the stack -----------------------------------

/// Resolve a type name through the stack, innermost scope first.
pub fn stack_lookup_type(scopes: &Vec<Scope>, name: &String) -> (r: Option<Rc<Type>>)
    ensures
        match r {
            Some(t) => lookup_ty(scopes_view(scopes@), name@) == Some(*t),
            None => lookup_ty(scopes_view(scopes@), name@) is None,
        },
{
    let ghost full = scopes_view(scopes@);
    let mut k: usize = scopes.len();
    proof {
        assert(full.take(k as int) =~= full);
    }
    while k > 0
        invariant
            k <= scopes.len(),
            full == scopes_view(scopes@),
            full.len() == scopes@.len(),
            lookup_ty(full, name@) == lookup_ty(full.take(k as int), name@),
        decreases k,
    {
        k -= 1;
        proof {
            assert(full.take(k + 1).last() == full[k as int]);
            assert(full.take(k + 1).drop_last() =~= full.take(k as int));
        }
        match scopes[k].find_type(name) {
            Some(t) => {
                return Some(t);
            },
            None => {},
        }
    }
    proof {
        assert(full.take(0) =~= Seq::<ScopeV>::empty());
    }
    None
}

/// Resolve a variable name through the stack, innermost scope first.
pub fn stack_lookup_value(scopes: &Vec<Scope>, name: &String) -> (r: Option<TypedValue>)
    ensures
        match r {
            Some(tv) => lookup_val(scopes_view(scopes@), name@) == Some(tv@),
            None => lookup_val(scopes_view(scopes@), name@) is None,
        },
{
    let ghost full = scopes_view(scopes@);
    let mut k: usize = scopes.len();
    proof {
        assert(full.take(k as int) =~= full);
    }
    while k > 0
        invariant
            k <= scopes.len(),
            full == scopes_view(scopes@),
            full.len() == scopes@.len(),
            lookup_val(full, name@) == lookup_val(full.take(k as int), name@),
        decreases k,
    {
        k -= 1;
        proof {
            assert(full.take(k + 1).last() == full[k as int]);
            assert(full.take(k + 1).drop_last() =~= full.take(k as int));
        }
        match scopes[k].find_value(name) {
            Some(tv) => {
                return Some(tv);
            },
            None => {},
        }
    }
    proof {
        assert(full.take(0) =~= Seq::<ScopeV>::empty());
    }
    None
}

} // verus!
