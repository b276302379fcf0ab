use kscc::ast::{BinOpKind, CmpKind, ExprStmt, Expression, FunctionDecl, ParamDecl, Program, Statement};
use kscc::context::Compiler;
use kscc::diag::{CompileError, OpName};
use kscc::ir::{Inst, TypedValue, Val};
use kscc::types::{share_type, Num, Type};

fn s(x: &str) -> String {
    x.to_string()
}

fn nlit(mant: u64, scale: u32) -> Expression {
    Expression::NumberLiteral(Num { neg: false, mant, scale })
}

fn var(name: &str) -> Expression {
    Expression::VariableReference(s(name))
}

fn param(ty: &str, name: &str) -> ParamDecl {
    ParamDecl { ty_name: s(ty), name: s(name) }
}

fn define_fn(name: &str, ret: &str, params: Vec<ParamDecl>, body: ExprStmt) -> Statement {
    Statement::Function(FunctionDecl {
        name: s(name),
        return_type: s(ret),
        params,
        body: Some(body),
    })
}

fn declare_fn(name: &str, ret: &str, params: Vec<ParamDecl>) -> Statement {
    Statement::Function(FunctionDecl { name: s(name), return_type: s(ret), params, body: None })
}

/// The program of the first end-to-end scenario: `gcd` over `Number`
/// with a recursive call in the else branch, and `main` returning 0.
fn gcd_program() -> Program {
    let gcd_body = ExprStmt::Expr(Expression::IfExpression {
        cond: Box::new(Expression::Comparison {
            op: CmpKind::Eq,
            left: Box::new(var("b")),
            right: Box::new(nlit(0, 0)),
        }),
        then_branch: Box::new(ExprStmt::Expr(var("a"))),
        else_branch: Box::new(ExprStmt::Expr(Expression::FunctionCall {
            name: s("gcd"),
            args: vec![
                var("b"),
                Expression::BinaryOperator {
                    op: BinOpKind::Rem,
                    left: Box::new(var("a")),
                    right: Box::new(var("b")),
                },
            ],
        })),
    });
    let main_body = ExprStmt::Block(vec![
        Statement::Expr(ExprStmt::Expr(Expression::FunctionCall {
            name: s("gcd"),
            args: vec![nlit(12, 0), nlit(18, 0)],
        })),
        Statement::Expr(ExprStmt::Expr(nlit(0, 0))),
    ]);
    Program {
        stmts: vec![
            define_fn("gcd", "Number", vec![param("Number", "a"), param("Number", "b")], gcd_body),
            define_fn("main", "Int32", vec![], main_body),
        ],
    }
}

fn compile_gcd() -> (Compiler, String) {
    let mut c = Compiler::new();
    c.create_module(s("demo")).unwrap();
    c.compile_program(&gcd_program()).unwrap();
    let text = c.emit_as_text().unwrap();
    (c, text)
}

#[test]
fn same_program_renders_byte_identical_text() {
    let (_, t1) = compile_gcd();
    let (_, t2) = compile_gcd();
    assert_eq!(t1, t2);
    assert_eq!(t1.as_bytes(), t2.as_bytes());
}

#[test]
fn declare_only_yields_function_without_blocks() {
    let mut c = Compiler::new();
    c.create_module(s("m")).unwrap();
    let p = Program { stmts: vec![declare_fn("printNumber", "Void", vec![param("Number", "x")])] };
    c.compile_program(&p).unwrap();
    let m = c.module.as_ref().unwrap();
    assert_eq!(m.funcs.len(), 1);
    assert_eq!(m.funcs[0].name, s("printNumber"));
    assert_eq!(m.funcs[0].blocks.len(), 0);
}

#[test]
fn define_opens_exactly_one_entry_block() {
    let mut c = Compiler::new();
    c.create_module(s("m")).unwrap();
    let p = Program {
        stmts: vec![define_fn("one", "Number", vec![], ExprStmt::Expr(nlit(1, 0)))],
    };
    c.compile_program(&p).unwrap();
    let m = c.module.as_ref().unwrap();
    assert_eq!(m.funcs.len(), 1);
    assert_eq!(m.funcs[0].blocks.len(), 1);
    assert_eq!(m.funcs[0].blocks[0].label, s("entry0"));
}

#[test]
fn if_expression_creates_three_blocks_and_one_phi() {
    let body = ExprStmt::Expr(Expression::IfExpression {
        cond: Box::new(Expression::Comparison {
            op: CmpKind::Eq,
            left: Box::new(var("a")),
            right: Box::new(nlit(0, 0)),
        }),
        then_branch: Box::new(ExprStmt::Expr(nlit(1, 0))),
        else_branch: Box::new(ExprStmt::Expr(nlit(2, 0))),
    });
    let mut c = Compiler::new();
    c.create_module(s("m")).unwrap();
    let p = Program { stmts: vec![define_fn("f", "Number", vec![param("Number", "a")], body)] };
    c.compile_program(&p).unwrap();
    let m = c.module.as_ref().unwrap();
    let f = &m.funcs[0];
    // entry plus exactly then, else and merge
    assert_eq!(f.blocks.len(), 4);
    assert_eq!(f.blocks[1].label, s("then1"));
    assert_eq!(f.blocks[2].label, s("else2"));
    assert_eq!(f.blocks[3].label, s("ifcont3"));
    // exactly one phi in the merge block, with one edge per branch's
    // actual exit block
    assert_eq!(f.blocks[3].insts.len(), 1);
    match &f.blocks[3].insts[0] {
        Inst::Phi { ty, a, ablk, b, bblk, .. } => {
            assert!(matches!(&**ty, Type::Number));
            assert_eq!(*ablk, 1);
            assert_eq!(*bblk, 2);
            assert!(matches!(a, Val::Flt(_)));
            assert!(matches!(b, Val::Flt(_)));
        },
        _ => panic!("expected a phi in the merge block"),
    }
}

#[test]
fn mismatched_binary_operands_fail_with_type_mismatch() {
    // Int32 against Number: rejected, and no instruction emitted by the
    // failing operation.
    let body = ExprStmt::Block(vec![
        Statement::Expr(ExprStmt::Expr(Expression::VariableDeclaration {
            ty_name: s("Int32"),
            name: s("i"),
            init: Box::new(nlit(1, 0)),
        })),
        Statement::Expr(ExprStmt::Expr(Expression::VariableDeclaration {
            ty_name: s("Number"),
            name: s("x"),
            init: Box::new(nlit(2, 0)),
        })),
        Statement::Expr(ExprStmt::Expr(Expression::BinaryOperator {
            op: BinOpKind::Add,
            left: Box::new(var("i")),
            right: Box::new(var("x")),
        })),
    ]);
    let mut c = Compiler::new();
    c.create_module(s("m")).unwrap();
    let p = Program { stmts: vec![define_fn("f", "Void", vec![], body)] };
    let err = c.compile_program(&p).unwrap_err();
    match err {
        CompileError::TypeMismatch { expected, actual } => {
            assert!(matches!(&*expected, Type::Int32));
            assert!(matches!(&*actual, Type::Number));
        },
        other => panic!("expected TypeMismatch, got {:?}", other),
    }
}

#[test]
fn binary_mismatch_emits_no_instruction() {
    let mut c = Compiler::new();
    c.create_module(s("m")).unwrap();
    c.define_function(&s("f"), &s("Void"), &vec![]).unwrap();
    let insts_before = c.module.as_ref().unwrap().funcs[0].blocks[0].insts.len();
    let l = TypedValue { ty: share_type(Type::Int32), val: Some(Val::Int { neg: false, mag: 1 }) };
    let r = TypedValue {
        ty: share_type(Type::Number),
        val: Some(Val::Flt(Num { neg: false, mant: 1, scale: 0 })),
    };
    let err = c.emit_binary_op(BinOpKind::Add, &l, &r).unwrap_err();
    assert!(matches!(err, CompileError::TypeMismatch { .. }));
    let insts_after = c.module.as_ref().unwrap().funcs[0].blocks[0].insts.len();
    assert_eq!(insts_before, insts_after);
}

#[test]
fn undefined_variable_is_rejected() {
    let body = ExprStmt::Expr(var("nowhere"));
    let mut c = Compiler::new();
    c.create_module(s("m")).unwrap();
    let p = Program { stmts: vec![define_fn("f", "Void", vec![], body)] };
    let err = c.compile_program(&p).unwrap_err();
    match err {
        CompileError::UndefinedVariable(n) => assert_eq!(n, s("nowhere")),
        other => panic!("expected UndefinedVariable, got {:?}", other),
    }
}

#[test]
fn undefined_function_is_rejected() {
    let body = ExprStmt::Expr(Expression::FunctionCall { name: s("ghost_fn"), args: vec![] });
    let mut c = Compiler::new();
    c.create_module(s("m")).unwrap();
    let p = Program { stmts: vec![define_fn("f", "Void", vec![], body)] };
    let err = c.compile_program(&p).unwrap_err();
    match err {
        CompileError::UndefinedFunction(n) => assert_eq!(n, s("ghost_fn")),
        other => panic!("expected UndefinedFunction, got {:?}", other),
    }
}

#[test]
fn gcd_scenario_produces_expected_module() {
    let (c, text) = compile_gcd();
    let m = c.module.as_ref().unwrap();
    assert_eq!(m.funcs.len(), 2);
    let gcd = &m.funcs[0];
    let main = &m.funcs[1];
    assert_eq!(gcd.name, s("gcd"));
    assert_eq!(main.name, s("main"));
    // gcd: entry plus then/else/merge, one phi of Number with two edges
    assert_eq!(gcd.blocks.len(), 4);
    let merge = &gcd.blocks[3];
    let phis: Vec<&Inst> = merge
        .insts
        .iter()
        .filter(|i| matches!(i, Inst::Phi { .. }))
        .collect();
    assert_eq!(phis.len(), 1);
    match phis[0] {
        Inst::Phi { ty, ablk, bblk, .. } => {
            assert!(matches!(&**ty, Type::Number));
            assert_eq!(*ablk, 1);
            assert_eq!(*bblk, 2);
        },
        _ => unreachable!(),
    }
    // the recursive call resolves against gcd's own registered signature
    assert!(text.contains("call double @gcd("));
    // main: one block, a call then ret i32 0
    assert_eq!(main.blocks.len(), 1);
    assert!(text.contains("ret i32 0"));
    let main_insts = &main.blocks[0].insts;
    assert!(main_insts.iter().any(|i| matches!(i, Inst::Call { .. })));
}

#[test]
fn declared_function_can_be_called_and_yields_void() {
    let main_body = ExprStmt::Expr(Expression::FunctionCall {
        name: s("printNumber"),
        args: vec![nlit(35, 1)],
    });
    let mut c = Compiler::new();
    c.create_module(s("m")).unwrap();
    let p = Program {
        stmts: vec![
            declare_fn("printNumber", "Void", vec![param("Number", "x")]),
            define_fn("main", "Void", vec![], main_body),
        ],
    };
    c.compile_program(&p).unwrap();
    let m = c.module.as_ref().unwrap();
    // the call's result is Void: the call instruction has no destination
    let main = &m.funcs[1];
    let call = main.blocks[0]
        .insts
        .iter()
        .find(|i| matches!(i, Inst::Call { .. }))
        .unwrap();
    match call {
        Inst::Call { dst, ret, .. } => {
            assert!(dst.is_none());
            assert!(matches!(&**ret, Type::Void));
        },
        _ => unreachable!(),
    }
    let text = c.emit_as_text().unwrap();
    assert!(text.contains("declare void @printNumber(double)"));
    assert!(text.contains("  call void @printNumber(3.5)"));
}

#[test]
fn variable_declared_in_branch_is_unreachable_after_merge() {
    let body = ExprStmt::Block(vec![
        Statement::Expr(ExprStmt::Expr(Expression::IfExpression {
            cond: Box::new(Expression::Comparison {
                op: CmpKind::Eq,
                left: Box::new(var("a")),
                right: Box::new(nlit(0, 0)),
            }),
            then_branch: Box::new(ExprStmt::Expr(Expression::VariableDeclaration {
                ty_name: s("Number"),
                name: s("t"),
                init: Box::new(nlit(1, 0)),
            })),
            else_branch: Box::new(ExprStmt::Expr(nlit(2, 0))),
        })),
        Statement::Expr(ExprStmt::Expr(var("t"))),
    ]);
    let mut c = Compiler::new();
    c.create_module(s("m")).unwrap();
    let p = Program { stmts: vec![define_fn("f", "Void", vec![param("Number", "a")], body)] };
    let err = c.compile_program(&p).unwrap_err();
    match err {
        CompileError::UndefinedVariable(n) => assert_eq!(n, s("t")),
        other => panic!("expected UndefinedVariable, got {:?}", other),
    }
}

#[test]
fn undefined_type_is_rejected() {
    let mut c = Compiler::new();
    c.create_module(s("m")).unwrap();
    let p = Program { stmts: vec![declare_fn("f", "Matrix", vec![])] };
    let err = c.compile_program(&p).unwrap_err();
    match err {
        CompileError::UndefinedType(n) => assert_eq!(n, s("Matrix")),
        other => panic!("expected UndefinedType, got {:?}", other),
    }
}

#[test]
fn void_parameter_is_rejected() {
    let mut c = Compiler::new();
    c.create_module(s("m")).unwrap();
    let p = Program { stmts: vec![declare_fn("f", "Void", vec![param("Void", "x")])] };
    let err = c.compile_program(&p).unwrap_err();
    match err {
        CompileError::UnsupportedOperation { ty, op } => {
            assert!(matches!(&*ty, Type::Void));
            assert!(matches!(op, OpName::Parameter));
        },
        other => panic!("expected UnsupportedOperation, got {:?}", other),
    }
}

#[test]
fn duplicate_function_is_rejected() {
    let mut c = Compiler::new();
    c.create_module(s("m")).unwrap();
    let p = Program {
        stmts: vec![
            define_fn("f", "Void", vec![], ExprStmt::Block(vec![])),
            define_fn("f", "Void", vec![], ExprStmt::Block(vec![])),
        ],
    };
    let err = c.compile_program(&p).unwrap_err();
    match err {
        CompileError::DuplicateFunction(n) => assert_eq!(n, s("f")),
        other => panic!("expected DuplicateFunction, got {:?}", other),
    }
}

#[test]
fn parameter_count_mismatch_is_rejected() {
    let body = ExprStmt::Expr(Expression::FunctionCall { name: s("g"), args: vec![nlit(1, 0)] });
    let mut c = Compiler::new();
    c.create_module(s("m")).unwrap();
    let p = Program {
        stmts: vec![
            declare_fn("g", "Void", vec![param("Number", "x"), param("Number", "y")]),
            define_fn("main", "Void", vec![], body),
        ],
    };
    let err = c.compile_program(&p).unwrap_err();
    match err {
        CompileError::ParameterCountMismatch { expected, actual } => {
            assert_eq!(expected, 2);
            assert_eq!(actual, 1);
        },
        other => panic!("expected ParameterCountMismatch, got {:?}", other),
    }
}

#[test]
fn call_argument_type_mismatch_is_rejected() {
    // an Int32 variable handed to a Number parameter
    let body = ExprStmt::Block(vec![
        Statement::Expr(ExprStmt::Expr(Expression::VariableDeclaration {
            ty_name: s("Int32"),
            name: s("i"),
            init: Box::new(nlit(1, 0)),
        })),
        Statement::Expr(ExprStmt::Expr(Expression::FunctionCall {
            name: s("g"),
            args: vec![var("i")],
        })),
    ]);
    let mut c = Compiler::new();
    c.create_module(s("m")).unwrap();
    let p = Program {
        stmts: vec![
            declare_fn("g", "Void", vec![param("Number", "x")]),
            define_fn("main", "Void", vec![], body),
        ],
    };
    let err = c.compile_program(&p).unwrap_err();
    match err {
        CompileError::TypeMismatch { expected, actual } => {
            assert!(matches!(&*expected, Type::Number));
            assert!(matches!(&*actual, Type::Int32));
        },
        other => panic!("expected TypeMismatch, got {:?}", other),
    }
}

#[test]
fn string_literal_has_no_constructible_type() {
    // mid-block, nothing is expected of the literal, so the default
    // target is Number, which cannot hold a string
    let body = ExprStmt::Block(vec![
        Statement::Expr(ExprStmt::Expr(Expression::StringLiteral(s("hi")))),
        Statement::Expr(ExprStmt::Expr(nlit(0, 0))),
    ]);
    let mut c = Compiler::new();
    c.create_module(s("m")).unwrap();
    let p = Program { stmts: vec![define_fn("f", "Void", vec![], body)] };
    let err = c.compile_program(&p).unwrap_err();
    match err {
        CompileError::InvalidConstantForType(t) => assert!(matches!(&*t, Type::Number)),
        other => panic!("expected InvalidConstantForType, got {:?}", other),
    }
}

#[test]
fn integer_division_of_numbers_is_unsupported() {
    let body = ExprStmt::Expr(Expression::BinaryOperator {
        op: BinOpKind::IntDiv,
        left: Box::new(nlit(7, 0)),
        right: Box::new(nlit(2, 0)),
    });
    let mut c = Compiler::new();
    c.create_module(s("m")).unwrap();
    let p = Program { stmts: vec![define_fn("f", "Void", vec![], body)] };
    let err = c.compile_program(&p).unwrap_err();
    match err {
        CompileError::UnsupportedOperation { ty, op } => {
            assert!(matches!(&*ty, Type::Number));
            assert!(matches!(op, OpName::Arith(BinOpKind::IntDiv)));
        },
        other => panic!("expected UnsupportedOperation, got {:?}", other),
    }
}

#[test]
fn module_can_be_created_once_only() {
    let mut c = Compiler::new();
    c.create_module(s("m")).unwrap();
    let err = c.create_module(s("n")).unwrap_err();
    assert!(matches!(err, CompileError::ModuleAlreadyCreated));
}

#[test]
fn operations_before_module_creation_fail() {
    let mut c = Compiler::new();
    let p = Program { stmts: vec![declare_fn("f", "Void", vec![])] };
    let err = c.compile_program(&p).unwrap_err();
    assert!(matches!(err, CompileError::NoModule));
}

#[test]
fn emission_outside_any_function_fails() {
    let body = Expression::BinaryOperator {
        op: BinOpKind::Add,
        left: Box::new(nlit(1, 0)),
        right: Box::new(nlit(2, 0)),
    };
    let mut c = Compiler::new();
    c.create_module(s("m")).unwrap();
    let p = Program { stmts: vec![Statement::Expr(ExprStmt::Expr(body))] };
    let err = c.compile_program(&p).unwrap_err();
    assert!(matches!(err, CompileError::NoEnclosingFunction));
}

#[test]
fn while_loop_builds_head_body_and_exit_blocks() {
    let body = ExprStmt::Expr(Expression::WhileExpression {
        cond: Box::new(Expression::Comparison {
            op: CmpKind::Gt,
            left: Box::new(var("a")),
            right: Box::new(nlit(0, 0)),
        }),
        body: Box::new(ExprStmt::Expr(Expression::BinaryOperator {
            op: BinOpKind::Sub,
            left: Box::new(var("a")),
            right: Box::new(nlit(1, 0)),
        })),
    });
    let mut c = Compiler::new();
    c.create_module(s("m")).unwrap();
    let p = Program { stmts: vec![define_fn("f", "Void", vec![param("Number", "a")], body)] };
    c.compile_program(&p).unwrap();
    let m = c.module.as_ref().unwrap();
    let f = &m.funcs[0];
    assert_eq!(f.blocks.len(), 4);
    assert_eq!(f.blocks[1].label, s("loophead1"));
    assert_eq!(f.blocks[2].label, s("loopbody2"));
    assert_eq!(f.blocks[3].label, s("loopexit3"));
    // the body branches back to the head
    assert!(matches!(
        f.blocks[2].term,
        Some(kscc::ir::Terminator::Br { target: 1 })
    ));
    // and the loop produced no phi anywhere
    for b in f.blocks.iter() {
        assert!(!b.insts.iter().any(|i| matches!(i, Inst::Phi { .. })));
    }
}
