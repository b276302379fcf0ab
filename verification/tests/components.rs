use kscc::ast::{CmpKind, ExprStmt, Expression, FunctionDecl, ParamDecl, Program, Statement};
use kscc::context::Compiler;
use kscc::diag::CompileError;
use kscc::ir::{TypedValue, Val};
use kscc::types::{share_type, Num, Type};

fn s(x: &str) -> String {
    x.to_string()
}

#[test]
fn type_equality_is_deep() {
    let f1 = Type::Function {
        params: vec![Type::Number, Type::Int32],
        ret: Box::new(Type::List { elem: Box::new(Type::Bool) }),
    };
    let f2 = Type::Function {
        params: vec![Type::Number, Type::Int32],
        ret: Box::new(Type::List { elem: Box::new(Type::Bool) }),
    };
    let f3 = Type::Function {
        params: vec![Type::Number, Type::Number],
        ret: Box::new(Type::List { elem: Box::new(Type::Bool) }),
    };
    assert!(f1.eq_type(&f2));
    assert!(!f1.eq_type(&f3));
    assert!(!f1.eq_type(&Type::Number));
    assert!(Type::Void.eq_type(&Type::Void));
}

#[test]
fn literals_round_to_nearest_integer() {
    // halves round away from zero
    assert_eq!(Num { neg: false, mant: 25, scale: 1 }.rounded(), (false, 3));
    assert_eq!(Num { neg: false, mant: 24, scale: 1 }.rounded(), (false, 2));
    assert_eq!(Num { neg: true, mant: 25, scale: 1 }.rounded(), (true, 3));
    assert_eq!(Num { neg: false, mant: 125, scale: 0 }.rounded(), (false, 125));
    assert_eq!(Num { neg: false, mant: 1999, scale: 3 }.rounded(), (false, 2));
    // a zero magnitude drops the sign
    assert_eq!(Num { neg: true, mant: 4, scale: 1 }.rounded(), (false, 0));
    // a scale past the mantissa's reach leaves nothing
    assert_eq!(Num { neg: false, mant: u64::MAX, scale: 21 }.rounded(), (false, 0));
}

#[test]
fn rounded_literal_lands_in_integer_constants() {
    let body = ExprStmt::Expr(Expression::VariableDeclaration {
        ty_name: s("Int32"),
        name: s("i"),
        init: Box::new(Expression::NumberLiteral(Num { neg: false, mant: 25, scale: 1 })),
    });
    let mut c = Compiler::new();
    c.create_module(s("m")).unwrap();
    let p = Program {
        stmts: vec![Statement::Function(FunctionDecl {
            name: s("f"),
            return_type: s("Void"),
            params: vec![],
            body: Some(body),
        })],
    };
    c.compile_program(&p).unwrap();
    let text = c.emit_as_text().unwrap();
    assert!(text.contains("store i32 3"));
}

#[test]
fn rendered_text_of_declare_module_is_exact() {
    let mut c = Compiler::new();
    c.create_module(s("m")).unwrap();
    let p = Program {
        stmts: vec![Statement::Function(FunctionDecl {
            name: s("p"),
            return_type: s("Void"),
            params: vec![ParamDecl { ty_name: s("Number"), name: s("x") }],
            body: None,
        })],
    };
    c.compile_program(&p).unwrap();
    let text = c.emit_as_text().unwrap();
    assert_eq!(text, s("; module m\n\ndeclare void @p(double)\n"));
}

#[test]
fn rendered_text_of_simple_define_is_exact() {
    let mut c = Compiler::new();
    c.create_module(s("m")).unwrap();
    let p = Program {
        stmts: vec![Statement::Function(FunctionDecl {
            name: s("one"),
            return_type: s("Number"),
            params: vec![],
            body: Some(ExprStmt::Expr(Expression::NumberLiteral(Num {
                neg: false,
                mant: 15,
                scale: 1,
            }))),
        })],
    };
    c.compile_program(&p).unwrap();
    let text = c.emit_as_text().unwrap();
    assert_eq!(
        text,
        s("; module m\n\ndefine double @one() {\nentry0:\n  ret double 1.5\n}\n")
    );
}

#[test]
fn registry_defines_and_resolves_in_scopes() {
    let mut c = Compiler::new();
    // builtins resolve
    assert!(c.resolve_type(&s("Number")).is_ok());
    assert!(c.resolve_type(&s("Int32")).is_ok());
    assert!(c.resolve_type(&s("Bool")).is_ok());
    assert!(c.resolve_type(&s("Void")).is_ok());
    // a new name in the innermost scope
    c.define_type(s("Pair"), Type::Struct { fields: vec![Type::Number, Type::Number] })
        .unwrap();
    let t = c.resolve_type(&s("Pair")).unwrap();
    assert!(matches!(&*t, Type::Struct { .. }));
    // defining the same name again in the same scope is refused
    let err = c.define_type(s("Pair"), Type::Void).unwrap_err();
    match err {
        CompileError::DuplicateType(n) => assert_eq!(n, s("Pair")),
        other => panic!("expected DuplicateType, got {:?}", other),
    }
    // but a nested scope may shadow it, and popping restores the outer one
    c.push_scope();
    c.define_type(s("Pair"), Type::Bool).unwrap();
    let inner = c.resolve_type(&s("Pair")).unwrap();
    assert!(matches!(&*inner, Type::Bool));
    c.pop_scope();
    let outer = c.resolve_type(&s("Pair")).unwrap();
    assert!(matches!(&*outer, Type::Struct { .. }));
    // an unknown name fails
    let err = c.resolve_type(&s("Ghost_t")).unwrap_err();
    assert!(matches!(err, CompileError::UndefinedType(_)));
}

#[test]
fn symbol_stack_shadows_and_pops() {
    let mut c = Compiler::new();
    let v1 = TypedValue { ty: share_type(Type::Int32), val: Some(Val::Reg(1)) };
    let v2 = TypedValue { ty: share_type(Type::Int32), val: Some(Val::Reg(2)) };
    let v3 = TypedValue { ty: share_type(Type::Number), val: Some(Val::Reg(3)) };
    c.bind(s("x"), v1);
    // rebinding in the same scope shadows: last bind wins
    c.bind(s("x"), v2);
    let got = c.lookup(&s("x")).unwrap();
    assert!(matches!(got.val, Some(Val::Reg(2))));
    // an inner scope shadows further, and popping uncovers the old value
    c.push_scope();
    c.bind(s("x"), v3);
    let got = c.lookup(&s("x")).unwrap();
    assert!(matches!(got.val, Some(Val::Reg(3))));
    assert!(matches!(&*got.ty, Type::Number));
    c.pop_scope();
    let got = c.lookup(&s("x")).unwrap();
    assert!(matches!(got.val, Some(Val::Reg(2))));
    // names bound only in the popped scope are gone
    c.push_scope();
    c.bind(s("y"), TypedValue { ty: share_type(Type::Bool), val: Some(Val::Reg(9)) });
    c.pop_scope();
    let err = c.lookup(&s("y")).unwrap_err();
    assert!(matches!(err, CompileError::UndefinedVariable(_)));
}

#[test]
fn emitter_merge_phi_demands_equal_types() {
    let mut c = Compiler::new();
    c.create_module(s("m")).unwrap();
    c.define_function(&s("f"), &s("Void"), &vec![]).unwrap();
    let tb = c.new_block("then").unwrap();
    let eb = c.new_block("else").unwrap();
    let a = TypedValue { ty: share_type(Type::Int32), val: Some(Val::Int { neg: false, mag: 1 }) };
    let b = TypedValue {
        ty: share_type(Type::Number),
        val: Some(Val::Flt(Num { neg: false, mant: 2, scale: 0 })),
    };
    let err = c.merge_phi(&a, tb, &b, eb).unwrap_err();
    assert!(matches!(err, CompileError::TypeMismatch { .. }));
    // agreeing on Void merges no value and emits nothing
    let v1 = TypedValue { ty: share_type(Type::Void), val: None };
    let v2 = TypedValue { ty: share_type(Type::Void), val: None };
    let merged = c.merge_phi(&v1, tb, &v2, eb).unwrap();
    assert!(matches!(&*merged.ty, Type::Void));
    assert!(merged.val.is_none());
}

#[test]
fn comparison_of_numbers_yields_bool() {
    let mut c = Compiler::new();
    c.create_module(s("m")).unwrap();
    c.define_function(&s("f"), &s("Void"), &vec![]).unwrap();
    let a = TypedValue {
        ty: share_type(Type::Number),
        val: Some(Val::Flt(Num { neg: false, mant: 1, scale: 0 })),
    };
    let b = TypedValue {
        ty: share_type(Type::Number),
        val: Some(Val::Flt(Num { neg: false, mant: 2, scale: 0 })),
    };
    let r = c.emit_comparison(CmpKind::Lt, &a, &b).unwrap();
    assert!(matches!(&*r.ty, Type::Bool));
    assert!(matches!(r.val, Some(Val::Reg(_))));
}

#[test]
fn module_name_carries_digest_of_path() {
    let mut c = Compiler::new();
    // the digest of the empty string is a fixed, well-known value
    c.initialize_module_for_file("a.ksc", "").unwrap();
    let name = &c.module.as_ref().unwrap().name;
    assert_eq!(
        name,
        &s("a.ksce3b0c44298fc1c149afbf4c8996fb92427ae41e4649b934ca495991b7852b855")
    );
}

#[test]
fn module_names_differ_with_the_path() {
    let n1 = kscc::modname::module_name_for("a.ksc", "/one/a.ksc");
    let n2 = kscc::modname::module_name_for("a.ksc", "/two/a.ksc");
    assert_ne!(n1, n2);
    assert_eq!(n1.len(), "a.ksc".len() + 64);
    // the digest is not the path handed back unchanged
    assert!(!n1.contains("/one/"));
}

#[test]
fn for_loop_runs_init_and_step_in_its_own_scope() {
    // for (Number i = 0; i < 3; i + 1) { i }  — then i is gone
    let body = ExprStmt::Block(vec![
        Statement::Expr(ExprStmt::Expr(Expression::ForExpression {
            init: Box::new(Expression::VariableDeclaration {
                ty_name: s("Number"),
                name: s("i"),
                init: Box::new(Expression::NumberLiteral(Num { neg: false, mant: 0, scale: 0 })),
            }),
            cond: Box::new(Expression::Comparison {
                op: CmpKind::Lt,
                left: Box::new(Expression::VariableReference(s("i"))),
                right: Box::new(Expression::NumberLiteral(Num { neg: false, mant: 3, scale: 0 })),
            }),
            step: Box::new(Expression::BinaryOperator {
                op: kscc::ast::BinOpKind::Add,
                left: Box::new(Expression::VariableReference(s("i"))),
                right: Box::new(Expression::NumberLiteral(Num { neg: false, mant: 1, scale: 0 })),
            }),
            body: Box::new(ExprStmt::Expr(Expression::VariableReference(s("i")))),
        })),
        Statement::Expr(ExprStmt::Expr(Expression::VariableReference(s("i")))),
    ]);
    let mut c = Compiler::new();
    c.create_module(s("m")).unwrap();
    let p = Program {
        stmts: vec![Statement::Function(FunctionDecl {
            name: s("f"),
            return_type: s("Void"),
            params: vec![],
            body: Some(body),
        })],
    };
    let err = c.compile_program(&p).unwrap_err();
    match err {
        CompileError::UndefinedVariable(n) => assert_eq!(n, s("i")),
        other => panic!("expected UndefinedVariable, got {:?}", other),
    }
}

#[test]
fn void_variable_owns_no_storage() {
    let body = ExprStmt::Expr(Expression::VariableDeclaration {
        ty_name: s("Void"),
        name: s("v"),
        init: Box::new(Expression::FunctionCall { name: s("nop"), args: vec![] }),
    });
    let mut c = Compiler::new();
    c.create_module(s("m")).unwrap();
    let p = Program {
        stmts: vec![
            Statement::Function(FunctionDecl {
                name: s("nop"),
                return_type: s("Void"),
                params: vec![],
                body: None,
            }),
            Statement::Function(FunctionDecl {
                name: s("f"),
                return_type: s("Void"),
                params: vec![],
                body: Some(body),
            }),
        ],
    };
    let err = c.compile_program(&p).unwrap_err();
    match err {
        CompileError::UnsupportedOperation { ty, op } => {
            assert!(matches!(&*ty, Type::Void));
            assert!(matches!(op, kscc::diag::OpName::StorageSlot));
        },
        other => panic!("expected UnsupportedOperation, got {:?}", other),
    }
}

#[test]
fn parameters_get_slots_and_loads() {
    let body = ExprStmt::Expr(Expression::VariableReference(s("a")));
    let mut c = Compiler::new();
    c.create_module(s("m")).unwrap();
    let p = Program {
        stmts: vec![Statement::Function(FunctionDecl {
            name: s("id_num"),
            return_type: s("Number"),
            params: vec![ParamDecl { ty_name: s("Number"), name: s("a") }],
            body: Some(body),
        })],
    };
    c.compile_program(&p).unwrap();
    let text = c.emit_as_text().unwrap();
    // the parameter arrives as %0, gets slot %1, and is loaded back as %2
    assert_eq!(
        text,
        s("; module m\n\ndefine double @id_num(double %0) {\nentry0:\n  %1 = alloca double\n  store double %0, %1\n  %2 = load double, %1\n  ret double %2\n}\n")
    );
}

#[test]
fn integral_arithmetic_and_comparison_render_signed_forms() {
    let body = ExprStmt::Expr(Expression::IfExpression {
        cond: Box::new(Expression::Comparison {
            op: CmpKind::Eq,
            left: Box::new(Expression::VariableReference(s("i"))),
            right: Box::new(Expression::NumberLiteral(Num { neg: false, mant: 0, scale: 0 })),
        }),
        then_branch: Box::new(ExprStmt::Expr(Expression::BinaryOperator {
            op: kscc::ast::BinOpKind::Add,
            left: Box::new(Expression::VariableReference(s("i"))),
            right: Box::new(Expression::NumberLiteral(Num { neg: false, mant: 1, scale: 0 })),
        })),
        else_branch: Box::new(ExprStmt::Expr(Expression::BinaryOperator {
            op: kscc::ast::BinOpKind::IntDiv,
            left: Box::new(Expression::VariableReference(s("i"))),
            right: Box::new(Expression::NumberLiteral(Num { neg: false, mant: 2, scale: 0 })),
        })),
    });
    let mut c = Compiler::new();
    c.create_module(s("m")).unwrap();
    let p = Program {
        stmts: vec![Statement::Function(FunctionDecl {
            name: s("f"),
            return_type: s("Int32"),
            params: vec![ParamDecl { ty_name: s("Int32"), name: s("i") }],
            body: Some(body),
        })],
    };
    c.compile_program(&p).unwrap();
    let text = c.emit_as_text().unwrap();
    assert!(text.contains("icmp eq i32"));
    assert!(text.contains("add i32"));
    assert!(text.contains("sdiv i32"));
    assert!(text.contains("phi i32"));
}

#[test]
fn negative_literal_keeps_its_sign_and_digits() {
    let body = ExprStmt::Expr(Expression::VariableDeclaration {
        ty_name: s("Number"),
        name: s("x"),
        init: Box::new(Expression::NumberLiteral(Num { neg: true, mant: 25, scale: 1 })),
    });
    let mut c = Compiler::new();
    c.create_module(s("m")).unwrap();
    let p = Program {
        stmts: vec![Statement::Function(FunctionDecl {
            name: s("f"),
            return_type: s("Void"),
            params: vec![],
            body: Some(body),
        })],
    };
    c.compile_program(&p).unwrap();
    let text = c.emit_as_text().unwrap();
    assert!(text.contains("store double -2.5"));
}
