//! Deterministic textual rendering of a module. The text is a pure
//! function of the module's mathematical image, so equal modules always
//! render to byte-identical text.

use vstd::prelude::*;
use vstd::string::StringExecFns;
use crate::ast::{BinOpKind, CmpKind};
use crate::context::Compiler;
use crate::ir::{
    BasicBlock, BlockV, FuncV, FunctionRec, Inst, InstV, Module, ModuleV, Param, ParamV, TermV,
    Terminator, Val,
};
use crate::text::{push_dec, push_frac, spec_dec, spec_frac};
use crate::types::{lemma_basic_div_large_scale, spec_pow10, Num, Type};

verus! {

/// The integer part of a literal's magnitude.
pub open spec fn spec_num_ip(n: Num) -> nat {
    n.mant as nat / spec_pow10(n.scale as nat)
}

/// The text of a floating constant: the exact decimal literal.
pub open spec fn spec_render_num(n: Num) -> Seq<char> {
    let sign: Seq<char> = if n.neg {
        "-"@
    } else {
        Seq::empty()
    };
    let ip = spec_dec(spec_num_ip(n));
    if n.scale == 0 {
        sign + ip
    } else {
        sign + ip + "."@ + spec_frac(n.mant as nat, n.scale as nat)
    }
}

/// The text of an operand.
pub open spec fn spec_render_val(v: Val) -> Seq<char> {
    match v {
        Val::Reg(d) => "%"@ + spec_dec(d as nat),
        Val::Int { neg, mag } => if neg {
            "-"@ + spec_dec(mag as nat)
        } else {
            spec_dec(mag as nat)
        },
        Val::Flt(n) => spec_render_num(n),
    }
}

/// The text of a type.
pub open spec fn spec_render_type(t: Type) -> Seq<char>
    decreases t, 1int,
{
    match t {
        Type::Number => "double"@,
        Type::Int32 => "i32"@,
        Type::Bool => "i1"@,
        Type::Void => "void"@,
        Type::Function { params, ret } => {
            "fn("@ + spec_render_type_list(params@, 0) + ") -> "@ + spec_render_type(*ret)
        },
        Type::Struct { fields } => "{"@ + spec_render_type_list(fields@, 0) + "}"@,
        Type::List { elem } => "["@ + spec_render_type(*elem) + "]"@,
    }
}

/// The comma-separated text of a list of types, from position `k` on.
pub open spec fn spec_render_type_list(s: Seq<Type>, k: int) -> Seq<char>
    decreases s, s.len() - k,
{
    if k < 0 || k >= s.len() {
        Seq::empty()
    } else if k == s.len() - 1 {
        spec_render_type(s[k])
    } else {
        spec_render_type(s[k]) + ", "@ + spec_render_type_list(s, k + 1)
    }
}

/// The mnemonic of an arithmetic operation in a representation.
pub open spec fn spec_arith_mnemonic(op: BinOpKind, float: bool) -> Seq<char> {
    if float {
        match op {
            BinOpKind::Add => "fadd"@,
            BinOpKind::Sub => "fsub"@,
            BinOpKind::Mul => "fmul"@,
            BinOpKind::Div => "fdiv"@,
            BinOpKind::IntDiv => "fdiv"@,
            BinOpKind::Rem => "frem"@,
        }
    } else {
        match op {
            BinOpKind::Add => "add"@,
            BinOpKind::Sub => "sub"@,
            BinOpKind::Mul => "mul"@,
            BinOpKind::Div => "sdiv"@,
            BinOpKind::IntDiv => "sdiv"@,
            BinOpKind::Rem => "srem"@,
        }
    }
}

/// The predicate text of a comparison: signed for the integral
/// representation, ordered for the floating one.
pub open spec fn spec_cmp_pred(op: CmpKind, float: bool) -> Seq<char> {
    if float {
        match op {
            CmpKind::Eq => "oeq"@,
            CmpKind::Ne => "one"@,
            CmpKind::Gt => "ogt"@,
            CmpKind::Ge => "oge"@,
            CmpKind::Lt => "olt"@,
            CmpKind::Le => "ole"@,
        }
    } else {
        match op {
            CmpKind::Eq => "eq"@,
            CmpKind::Ne => "ne"@,
            CmpKind::Gt => "sgt"@,
            CmpKind::Ge => "sge"@,
            CmpKind::Lt => "slt"@,
            CmpKind::Le => "sle"@,
        }
    }
}

/// The label of the block numbered `j` in a function, or nothing for a
/// number no block carries.
pub open spec fn spec_label_of(f: FuncV, j: int) -> Seq<char> {
    if 0 <= j < f.blocks.len() {
        f.blocks[j].label
    } else {
        Seq::empty()
    }
}

/// The text of one instruction, inside the function that owns it.
pub open spec fn spec_render_inst(i: InstV, f: FuncV) -> Seq<char> {
    match i {
        InstV::Alloca { dst, ty } => {
            "  %"@ + spec_dec(dst as nat) + " = alloca "@ + spec_render_type(ty) + "\n"@
        },
        InstV::Store { ptr, val, ty } => {
            "  store "@ + spec_render_type(ty) + " "@ + spec_render_val(val) + ", "@
                + spec_render_val(ptr) + "\n"@
        },
        InstV::Load { dst, ptr, ty } => {
            "  %"@ + spec_dec(dst as nat) + " = load "@ + spec_render_type(ty) + ", "@
                + spec_render_val(ptr) + "\n"@
        },
        InstV::Bin { dst, op, ty, lhs, rhs } => {
            "  %"@ + spec_dec(dst as nat) + " = "@ + spec_arith_mnemonic(op, ty is Number) + " "@
                + spec_render_type(ty) + " "@ + spec_render_val(lhs) + ", "@ + spec_render_val(rhs)
                + "\n"@
        },
        InstV::Cmp { dst, op, ty, lhs, rhs } => {
            let head: Seq<char> = if ty is Number {
                "fcmp"@
            } else {
                "icmp"@
            };
            "  %"@ + spec_dec(dst as nat) + " = "@ + head + " "@ + spec_cmp_pred(op, ty is Number)
                + " "@ + spec_render_type(ty) + " "@ + spec_render_val(lhs) + ", "@
                + spec_render_val(rhs) + "\n"@
        },
        InstV::Call { dst, callee, ret, args } => {
            let head: Seq<char> = match dst {
                Some(d) => "  %"@ + spec_dec(d as nat) + " = call "@,
                None => "  call "@,
            };
            head + spec_render_type(ret) + " @"@ + callee + "("@ + spec_render_args(args, 0)
                + ")\n"@
        },
        InstV::Phi { dst, ty, a, ablk, b, bblk } => {
            "  %"@ + spec_dec(dst as nat) + " = phi "@ + spec_render_type(ty) + " [ "@
                + spec_render_val(a) + ", %"@ + spec_label_of(f, ablk) + " ], [ "@
                + spec_render_val(b) + ", %"@ + spec_label_of(f, bblk) + " ]\n"@
        },
    }
}

/// The comma-separated text of call operands, from position `k` on.
pub open spec fn spec_render_args(args: Seq<Val>, k: int) -> Seq<char>
    decreases args.len() - k,
{
    if k < 0 || k >= args.len() {
        Seq::empty()
    } else if k == args.len() - 1 {
        spec_render_val(args[k])
    } else {
        spec_render_val(args[k]) + ", "@ + spec_render_args(args, k + 1)
    }
}

/// The text of a terminator, inside the function that owns it.
pub open spec fn spec_render_term(t: TermV, f: FuncV) -> Seq<char> {
    match t {
        TermV::Ret { arg } => {
            match arg {
                None => "  ret void\n"@,
                Some((v, ty)) => {
                    "  ret "@ + spec_render_type(ty) + " "@ + spec_render_val(v) + "\n"@
                },
            }
        },
        TermV::Br { target } => "  br label %"@ + spec_label_of(f, target) + "\n"@,
        TermV::CondBr { cond, then_to, else_to } => {
            "  br i1 "@ + spec_render_val(cond) + ", label %"@ + spec_label_of(f, then_to)
                + ", label %"@ + spec_label_of(f, else_to) + "\n"@
        },
    }
}

/// The text of the instructions of a block, from position `k` on.
pub open spec fn spec_render_insts(insts: Seq<InstV>, f: FuncV, k: int) -> Seq<char>
    decreases insts.len() - k,
{
    if k < 0 || k >= insts.len() {
        Seq::empty()
    } else {
        spec_render_inst(insts[k], f) + spec_render_insts(insts, f, k + 1)
    }
}

/// The text of one block: its label line, its instructions, and its
/// terminator when it has one.
pub open spec fn spec_render_block(b: BlockV, f: FuncV) -> Seq<char> {
    let term: Seq<char> = match b.term {
        Some(t) => spec_render_term(t, f),
        None => Seq::empty(),
    };
    b.label + ":\n"@ + spec_render_insts(b.insts, f, 0) + term
}

/// The text of the blocks of a function, from position `k` on.
pub open spec fn spec_render_blocks(f: FuncV, k: int) -> Seq<char>
    decreases f.blocks.len() - k,
{
    if k < 0 || k >= f.blocks.len() {
        Seq::empty()
    } else {
        spec_render_block(f.blocks[k], f) + spec_render_blocks(f, k + 1)
    }
}

/// The comma-separated header parameters of a defined function.
pub open spec fn spec_render_params(params: Seq<ParamV>, k: int) -> Seq<char>
    decreases params.len() - k,
{
    if k < 0 || k >= params.len() {
        Seq::empty()
    } else if k == params.len() - 1 {
        spec_render_type(params[k].ty) + " %"@ + spec_dec(params[k].id as nat)
    } else {
        spec_render_type(params[k].ty) + " %"@ + spec_dec(params[k].id as nat) + ", "@
            + spec_render_params(params, k + 1)
    }
}

/// The parameter types of a declared function.
pub open spec fn spec_render_param_types(params: Seq<ParamV>, k: int) -> Seq<char>
    decreases params.len() - k,
{
    if k < 0 || k >= params.len() {
        Seq::empty()
    } else if k == params.len() - 1 {
        spec_render_type(params[k].ty)
    } else {
        spec_render_type(params[k].ty) + ", "@ + spec_render_param_types(params, k + 1)
    }
}

/// The text of one function: a declaration line when it has no body, or
/// its header and blocks when it is defined.
pub open spec fn spec_render_func(f: FuncV) -> Seq<char> {
    if f.blocks.len() == 0 {
        "declare "@ + spec_render_type(f.ret) + " @"@ + f.name + "("@ + spec_render_param_types(
            f.params,
            0,
        ) + ")\n"@
    } else {
        "define "@ + spec_render_type(f.ret) + " @"@ + f.name + "("@ + spec_render_params(
            f.params,
            0,
        ) + ") {\n"@ + spec_render_blocks(f, 0) + "}\n"@
    }
}

/// The text of the functions of a module, from position `k` on, each
/// preceded by a blank line.
pub open spec fn spec_render_funcs(funcs: Seq<FuncV>, k: int) -> Seq<char>
    decreases funcs.len() - k,
{
    if k < 0 || k >= funcs.len() {
        Seq::empty()
    } else {
        "\n"@ + spec_render_func(funcs[k]) + spec_render_funcs(funcs, k + 1)
    }
}

/// The text of a whole module.
pub open spec fn spec_render_module(m: ModuleV) -> Seq<char> {
    "; module "@ + m.name + "\n"@ + spec_render_funcs(m.funcs, 0)
}

// --- executable rendering ---------------------------------------------------

impl Num {
    /// The integer part of the literal's magnitude.
    fn int_part(&self) -> (r: u64)
        ensures
            r as nat == spec_num_ip(*self),
    {
        if self.scale >= 20 {
            proof {
                lemma_basic_div_large_scale(self.mant as nat, self.scale as nat);
            }
            return 0;
        }
        let mut p: u64 = 1;
        let mut i: u32 = 0;
        while i < self.scale
            invariant
                i <= self.scale < 20,
                p as nat == spec_pow10(i as nat),
                p >= 1,
            decreases self.scale - i,
        {
            proof {
                crate::types::lemma_pow10_increases(i as nat, 18);
                assert(spec_pow10(18) == 1000000000000000000) by {
                    reveal_with_fuel(spec_pow10, 19);
                }
            }
            p = p * 10;
            i = i + 1;
        }
        self.mant / p
    }
}

/// Append the text of a floating constant.
fn push_num(out: &mut String, n: Num)
    ensures
        final(out)@ == old(out)@ + spec_render_num(n),
{
    let ghost pre = out@;
    if n.neg {
        out.append("-");
    }
    let ip = n.int_part();
    push_dec(out, ip);
    if n.scale > 0 {
        out.append(".");
        push_frac(out, n.mant, n.scale);
    }
    proof {
        assert(out@ =~= pre + spec_render_num(n));
    }
}

/// Append the text of an operand.
fn push_val(out: &mut String, v: Val)
    ensures
        final(out)@ == old(out)@ + spec_render_val(v),
{
    let ghost pre = out@;
    match v {
        Val::Reg(d) => {
            out.append("%");
            push_dec(out, d);
        },
        Val::Int { neg, mag } => {
            if neg {
                out.append("-");
            }
            push_dec(out, mag);
        },
        Val::Flt(n) => {
            push_num(out, n);
        },
    }
    proof {
        assert(out@ =~= pre + spec_render_val(v));
    }
}

/// Append the text of a type.
fn push_type(out: &mut String, t: &Type)
    ensures
        final(out)@ == old(out)@ + spec_render_type(*t),
    decreases *t, 1int,
{
    let ghost pre = out@;
    match t {
        Type::Number => {
            out.append("double");
        },
        Type::Int32 => {
            out.append("i32");
        },
        Type::Bool => {
            out.append("i1");
        },
        Type::Void => {
            out.append("void");
        },
        Type::Function { params, ret } => {
            out.append("fn(");
            push_type_list(out, params, 0);
            out.append(") -> ");
            proof {
                assert(decreases_to!(*t => *t->ret));
            }
            push_type(out, ret);
        },
        Type::Struct { fields } => {
            out.append("{");
            push_type_list(out, fields, 0);
            out.append("}");
        },
        Type::List { elem } => {
            out.append("[");
            proof {
                assert(decreases_to!(*t => *t->elem));
            }
            push_type(out, elem);
            out.append("]");
        },
    }
    proof {
        assert(out@ =~= pre + spec_render_type(*t));
    }
}

/// Append the comma-separated text of a list of types.
fn push_type_list(out: &mut String, s: &Vec<Type>, k: usize)
    ensures
        final(out)@ == old(out)@ + spec_render_type_list(s@, k as int),
    decreases s@, s@.len() - k,
{
    let ghost pre = out@;
    if k >= s.len() {
        proof {
            assert(out@ =~= pre + spec_render_type_list(s@, k as int));
        }
        return ;
    }
    proof {
        assert(decreases_to!(s@ => s@[k as int]));
    }
    push_type(out, &s[k]);
    if k < s.len() - 1 {
        out.append(", ");
        push_type_list(out, s, k + 1);
    }
    proof {
        assert(out@ =~= pre + spec_render_type_list(s@, k as int));
    }
}

/// Append the label of the block numbered `j`.
fn push_label(out: &mut String, f: &FunctionRec, j: usize)
    ensures
        final(out)@ == old(out)@ + spec_label_of(f@, j as int),
{
    let ghost pre = out@;
    if j < f.blocks.len() {
        proof {
            assert(f@.blocks[j as int] == f.blocks@[j as int]@);
        }
        out.append(f.blocks[j].label.as_str());
    }
    proof {
        assert(out@ =~= pre + spec_label_of(f@, j as int));
    }
}

/// Append the comma-separated text of call operands.
fn push_args(out: &mut String, args: &Vec<Val>, k: usize)
    ensures
        final(out)@ == old(out)@ + spec_render_args(args@, k as int),
    decreases args@.len() - k,
{
    let ghost pre = out@;
    if k >= args.len() {
        proof {
            assert(out@ =~= pre + spec_render_args(args@, k as int));
        }
        return ;
    }
    push_val(out, args[k]);
    if k < args.len() - 1 {
        out.append(", ");
        push_args(out, args, k + 1);
    }
    proof {
        assert(out@ =~= pre + spec_render_args(args@, k as int));
    }
}

/// Append an arithmetic mnemonic.
fn push_mnemonic(out: &mut String, op: BinOpKind, float: bool)
    ensures
        final(out)@ == old(out)@ + spec_arith_mnemonic(op, float),
{
    if float {
        match op {
            BinOpKind::Add => out.append("fadd"),
            BinOpKind::Sub => out.append("fsub"),
            BinOpKind::Mul => out.append("fmul"),
            BinOpKind::Div => out.append("fdiv"),
            BinOpKind::IntDiv => out.append("fdiv"),
            BinOpKind::Rem => out.append("frem"),
        }
    } else {
        match op {
            BinOpKind::Add => out.append("add"),
            BinOpKind::Sub => out.append("sub"),
            BinOpKind::Mul => out.append("mul"),
            BinOpKind::Div => out.append("sdiv"),
            BinOpKind::IntDiv => out.append("sdiv"),
            BinOpKind::Rem => out.append("srem"),
        }
    }
}

/// Append a comparison predicate.
fn push_pred(out: &mut String, op: CmpKind, float: bool)
    ensures
        final(out)@ == old(out)@ + spec_cmp_pred(op, float),
{
    if float {
        match op {
            CmpKind::Eq => out.append("oeq"),
            CmpKind::Ne => out.append("one"),
            CmpKind::Gt => out.append("ogt"),
            CmpKind::Ge => out.append("oge"),
            CmpKind::Lt => out.append("olt"),
            CmpKind::Le => out.append("ole"),
        }
    } else {
        match op {
            CmpKind::Eq => out.append("eq"),
            CmpKind::Ne => out.append("ne"),
            CmpKind::Gt => out.append("sgt"),
            CmpKind::Ge => out.append("sge"),
            CmpKind::Lt => out.append("slt"),
            CmpKind::Le => out.append("sle"),
        }
    }
}

/// Append the text of one instruction.
#[verifier::rlimit(100)]
fn push_inst(out: &mut String, i: &Inst, f: &FunctionRec)
    ensures
        final(out)@ == old(out)@ + spec_render_inst(i@, f@),
{
    let ghost pre = out@;
    match i {
        Inst::Alloca { dst, ty } => {
            out.append("  %");
            push_dec(out, *dst);
            out.append(" = alloca ");
            push_type(out, ty);
            out.append("\n");
        },
        Inst::Store { ptr, val, ty } => {
            out.append("  store ");
            push_type(out, ty);
            out.append(" ");
            push_val(out, *val);
            out.append(", ");
            push_val(out, *ptr);
            out.append("\n");
        },
        Inst::Load { dst, ptr, ty } => {
            out.append("  %");
            push_dec(out, *dst);
            out.append(" = load ");
            push_type(out, ty);
            out.append(", ");
            push_val(out, *ptr);
            out.append("\n");
        },
        Inst::Bin { dst, op, ty, lhs, rhs } => {
            out.append("  %");
            push_dec(out, *dst);
            out.append(" = ");
            let float = match &**ty {
                Type::Number => true,
                _ => false,
            };
            push_mnemonic(out, *op, float);
            out.append(" ");
            push_type(out, ty);
            out.append(" ");
            push_val(out, *lhs);
            out.append(", ");
            push_val(out, *rhs);
            out.append("\n");
            proof {
                assert(out@ =~= pre + spec_render_inst(i@, f@));
            }
        },
        Inst::Cmp { dst, op, ty, lhs, rhs } => {
            out.append("  %");
            push_dec(out, *dst);
            out.append(" = ");
            let float = match &**ty {
                Type::Number => true,
                _ => false,
            };
            if float {
                out.append("fcmp");
            } else {
                out.append("icmp");
            }
            out.append(" ");
            push_pred(out, *op, float);
            out.append(" ");
            push_type(out, ty);
            out.append(" ");
            push_val(out, *lhs);
            out.append(", ");
            push_val(out, *rhs);
            out.append("\n");
            proof {
                assert(out@ =~= pre + spec_render_inst(i@, f@));
            }
        },
        Inst::Call { dst, callee, ret, args } => {
            match dst {
                Some(d) => {
                    out.append("  %");
                    push_dec(out, *d);
                    out.append(" = call ");
                },
                None => {
                    out.append("  call ");
                },
            }
            push_type(out, ret);
            out.append(" @");
            out.append(callee.as_str());
            out.append("(");
            push_args(out, args, 0);
            out.append(")\n");
        },
        Inst::Phi { dst, ty, a, ablk, b, bblk } => {
            out.append("  %");
            push_dec(out, *dst);
            out.append(" = phi ");
            push_type(out, ty);
            out.append(" [ ");
            push_val(out, *a);
            out.append(", %");
            push_label(out, f, *ablk);
            out.append(" ], [ ");
            push_val(out, *b);
            out.append(", %");
            push_label(out, f, *bblk);
            out.append(" ]\n");
        },
    }
    proof {
        assert(out@ =~= pre + spec_render_inst(i@, f@));
    }
}

/// Append the text of a terminator.
fn push_term(out: &mut String, t: &Terminator, f: &FunctionRec)
    ensures
        final(out)@ == old(out)@ + spec_render_term(t@, f@),
{
    let ghost pre = out@;
    match t {
        Terminator::Ret { arg } => {
            match arg {
                None => {
                    out.append("  ret void\n");
                },
                Some((v, ty)) => {
                    out.append("  ret ");
                    push_type(out, ty);
                    out.append(" ");
                    push_val(out, *v);
                    out.append("\n");
                },
            }
        },
        Terminator::Br { target } => {
            out.append("  br label %");
            push_label(out, f, *target);
            out.append("\n");
        },
        Terminator::CondBr { cond, then_to, else_to } => {
            out.append("  br i1 ");
            push_val(out, *cond);
            out.append(", label %");
            push_label(out, f, *then_to);
            out.append(", label %");
            push_label(out, f, *else_to);
            out.append("\n");
        },
    }
    proof {
        assert(out@ =~= pre + spec_render_term(t@, f@));
    }
}

/// Append the text of the instructions of a block.
fn push_insts(out: &mut String, insts: &Vec<Inst>, f: &FunctionRec, k: usize)
    ensures
        final(out)@ == old(out)@ + spec_render_insts(insts@.map_values(|x: Inst| x@), f@, k as int),
    decreases insts@.len() - k,
{
    let ghost pre = out@;
    let ghost iv = insts@.map_values(|x: Inst| x@);
    if k >= insts.len() {
        proof {
            assert(out@ =~= pre + spec_render_insts(iv, f@, k as int));
        }
        return ;
    }
    proof {
        assert(iv[k as int] == insts@[k as int]@);
    }
    push_inst(out, &insts[k], f);
    push_insts(out, insts, f, k + 1);
    proof {
        assert(out@ =~= pre + spec_render_insts(iv, f@, k as int));
    }
}

/// Append the text of one block.
fn push_block(out: &mut String, b: &BasicBlock, f: &FunctionRec)
    ensures
        final(out)@ == old(out)@ + spec_render_block(b@, f@),
{
    let ghost pre = out@;
    out.append(b.label.as_str());
    out.append(":\n");
    push_insts(out, &b.insts, f, 0);
    match &b.term {
        Some(t) => {
            push_term(out, t, f);
        },
        None => {},
    }
    proof {
        assert(out@ =~= pre + spec_render_block(b@, f@));
    }
}

/// Append the text of the blocks of a function.
fn push_blocks(out: &mut String, f: &FunctionRec, k: usize)
    ensures
        final(out)@ == old(out)@ + spec_render_blocks(f@, k as int),
    decreases f.blocks@.len() - k,
{
    let ghost pre = out@;
    if k >= f.blocks.len() {
        proof {
            assert(out@ =~= pre + spec_render_blocks(f@, k as int));
        }
        return ;
    }
    proof {
        assert(f@.blocks[k as int] == f.blocks@[k as int]@);
    }
    push_block(out, &f.blocks[k], f);
    push_blocks(out, f, k + 1);
    proof {
        assert(out@ =~= pre + spec_render_blocks(f@, k as int));
    }
}

/// Append the comma-separated header parameters of a defined function.
fn push_params(out: &mut String, params: &Vec<Param>, k: usize)
    ensures
        final(out)@ == old(out)@ + spec_render_params(crate::ir::params_view(params@), k as int),
    decreases params@.len() - k,
{
    let ghost pre = out@;
    let ghost pv = crate::ir::params_view(params@);
    if k >= params.len() {
        proof {
            assert(out@ =~= pre + spec_render_params(pv, k as int));
        }
        return ;
    }
    proof {
        assert(pv[k as int] == params@[k as int]@);
    }
    push_type(out, &params[k].ty);
    out.append(" %");
    push_dec(out, params[k].id);
    if k < params.len() - 1 {
        out.append(", ");
        push_params(out, params, k + 1);
    }
    proof {
        assert(out@ =~= pre + spec_render_params(pv, k as int));
    }
}

/// Append the parameter types of a declared function.
fn push_param_types(out: &mut String, params: &Vec<Param>, k: usize)
    ensures
        final(out)@ == old(out)@ + spec_render_param_types(
            crate::ir::params_view(params@),
            k as int,
        ),
    decreases params@.len() - k,
{
    let ghost pre = out@;
    let ghost pv = crate::ir::params_view(params@);
    if k >= params.len() {
        proof {
            assert(out@ =~= pre + spec_render_param_types(pv, k as int));
        }
        return ;
    }
    proof {
        assert(pv[k as int] == params@[k as int]@);
    }
    push_type(out, &params[k].ty);
    if k < params.len() - 1 {
        out.append(", ");
        push_param_types(out, params, k + 1);
    }
    proof {
        assert(out@ =~= pre + spec_render_param_types(pv, k as int));
    }
}

/// Append the text of one function.
fn push_func(out: &mut String, f: &FunctionRec)
    ensures
        final(out)@ == old(out)@ + spec_render_func(f@),
{
    let ghost pre = out@;
    if f.blocks.len() == 0 {
        out.append("declare ");
        push_type(out, &f.ret);
        out.append(" @");
        out.append(f.name.as_str());
        out.append("(");
        push_param_types(out, &f.params, 0);
        out.append(")\n");
    } else {
        out.append("define ");
        push_type(out, &f.ret);
        out.append(" @");
        out.append(f.name.as_str());
        out.append("(");
        push_params(out, &f.params, 0);
        out.append(") {\n");
        push_blocks(out, f, 0);
        out.append("}\n");
    }
    proof {
        assert(out@ =~= pre + spec_render_func(f@));
    }
}

/// Append the text of the functions of a module.
fn push_funcs(out: &mut String, funcs: &Vec<FunctionRec>, k: usize)
    ensures
        final(out)@ == old(out)@ + spec_render_funcs(
            funcs@.map_values(|x: FunctionRec| x@),
            k as int,
        ),
    decreases funcs@.len() - k,
{
    let ghost pre = out@;
    let ghost fv = funcs@.map_values(|x: FunctionRec| x@);
    if k >= funcs.len() {
        proof {
            assert(out@ =~= pre + spec_render_funcs(fv, k as int));
        }
        return ;
    }
    proof {
        assert(fv[k as int] == funcs@[k as int]@);
    }
    out.append("\n");
    push_func(out, &funcs[k]);
    push_funcs(out, funcs, k + 1);
    proof {
        assert(out@ =~= pre + spec_render_funcs(fv, k as int));
    }
}

/// The deterministic text of a module: a pure function of the module's
/// image, so equal modules render byte-identically.
pub fn render_module(m: &Module) -> (r: String)
    ensures
        r@ == spec_render_module(m@),
{
    let mut out = String::new();
    out.append("; module ");
    out.append(m.name.as_str());
    out.append("\n");
    push_funcs(&mut out, &m.funcs, 0);
    proof {
        assert(out@ =~= spec_render_module(m@));
    }
    out
}

impl Compiler {
    /// The rendered text of the module, once one exists.
    pub fn emit_as_text(&self) -> (r: Option<String>)
        ensures
            match r {
                Some(s) => self@.module matches Some(m) && s@ == spec_render_module(m),
                None => self@.module is None,
            },
    {
        match &self.module {
            Some(m) => Some(render_module(m)),
            None => None,
        }
    }
}

} // verus!
