use istanbul_oxi::ast::{ClassMember, Declarator, DeclKind, Expr, ExprKind, MemberKind, Stmt, StmtKind};
use istanbul_oxi::cov_map::CoverageMap;
use istanbul_oxi::hashing::var_name_of;
use istanbul_oxi::json::{freeze, render_record};
use istanbul_oxi::list::{text_eq, text_of_vec, List, Text};
use istanbul_oxi::program::{
    default_options, transform_program, Program, TransformError,
};
use istanbul_oxi::range::SourceRange;

fn text(s: &str) -> Text {
    text_of_vec(&s.as_bytes().to_vec())
}

fn rng(sl: u32, sc: u32, el: u32, ec: u32) -> SourceRange {
    SourceRange::new(sl, sc, el, ec)
}

fn plain_expr(span: Option<SourceRange>, kind: ExprKind) -> Expr {
    Expr { span, leading: List::Nil, kind }
}

fn plain_stmt(span: Option<SourceRange>, kind: StmtKind) -> Stmt {
    Stmt { span, leading: List::Nil, kind }
}

fn list1<T>(a: T) -> List<T> {
    List::Cons(a, Box::new(List::Nil))
}

fn to_vec(mut l: &List<Stmt>) -> Vec<&Stmt> {
    let mut out = Vec::new();
    while let List::Cons(s, rest) = l {
        out.push(s);
        l = rest;
    }
    out
}

fn defaults() -> istanbul_oxi::program::InstrumentOptions {
    default_options(None, None, None, None, None, None, None)
}

fn program_of(body: List<Stmt>) -> Program {
    Program {
        span: Some(rng(1, 0, 1, 30)),
        leading_lo: List::Nil,
        leading_hi: List::Nil,
        trailing_lo: List::Nil,
        trailing_hi: List::Nil,
        body,
    }
}

#[test]
fn default_options_follow_the_table() {
    let o = defaults();
    assert_eq!(o.coverage_variable, b"__coverage__".to_vec());
    assert!(!o.compact);
    assert!(!o.report_logic);
    assert_eq!(o.coverage_global_scope, b"this".to_vec());
    assert!(o.coverage_global_scope_func);
    assert!(o.ignore_class_methods.is_empty());
    assert!(o.input_source_map.is_none());
    let o2 = default_options(
        Some(b"cv".to_vec()),
        Some(true),
        None,
        Some(b"globalThis".to_vec()),
        Some(false),
        Some(vec![b"render".to_vec()]),
        Some(b"{}".to_vec()),
    );
    assert_eq!(o2.coverage_variable, b"cv".to_vec());
    assert!(o2.compact);
    assert_eq!(o2.coverage_global_scope, b"globalThis".to_vec());
    assert!(!o2.coverage_global_scope_func);
    assert_eq!(o2.ignore_class_methods, vec![b"render".to_vec()]);
    assert_eq!(o2.input_source_map, Some(b"{}".to_vec()));
}

#[test]
fn report_logic_is_refused() {
    let opts = default_options(None, None, Some(true), None, None, None, None);
    let p = program_of(List::Nil);
    let r = transform_program(p, b"a.js".to_vec(), &opts);
    assert_eq!(r.unwrap_err(), TransformError::UnsupportedConstruct);
}

#[test]
fn file_ignore_returns_the_program_unchanged() {
    // /* istanbul ignore file */ foo();
    let foo = plain_stmt(
        Some(rng(1, 27, 1, 33)),
        StmtKind::Expr(plain_expr(
            Some(rng(1, 27, 1, 33)),
            ExprKind::Call {
                callee: Box::new(plain_expr(
                    Some(rng(1, 27, 1, 30)),
                    ExprKind::Ident(text("foo")),
                )),
                args: Box::new(List::Nil),
            },
        )),
    );
    let p = Program {
        span: Some(rng(1, 0, 1, 33)),
        leading_lo: list1(text(" istanbul ignore file ")),
        leading_hi: List::Nil,
        trailing_lo: List::Nil,
        trailing_hi: List::Nil,
        body: list1(foo),
    };
    let expected = Program {
        span: p.span,
        leading_lo: list1(text(" istanbul ignore file ")),
        leading_hi: List::Nil,
        trailing_lo: List::Nil,
        trailing_hi: List::Nil,
        body: list1(plain_stmt(
            Some(rng(1, 27, 1, 33)),
            StmtKind::Expr(plain_expr(
                Some(rng(1, 27, 1, 33)),
                ExprKind::Call {
                    callee: Box::new(plain_expr(
                        Some(rng(1, 27, 1, 30)),
                        ExprKind::Ident(text("foo")),
                    )),
                    args: Box::new(List::Nil),
                },
            )),
        )),
    };
    let out = transform_program(p, b"a.js".to_vec(), &defaults()).unwrap();
    assert_eq!(out.program, expected);
    assert!(out.coverage.is_none());
    assert!(out.trailing_comment.is_none());
}

#[test]
fn a_trailing_module_comment_also_ignores_the_file() {
    let p = Program {
        span: Some(rng(1, 0, 1, 10)),
        leading_lo: List::Nil,
        leading_hi: List::Nil,
        trailing_lo: List::Nil,
        trailing_hi: list1(text("istanbul ignore file")),
        body: List::Nil,
    };
    let out = transform_program(p, b"a.js".to_vec(), &defaults()).unwrap();
    assert!(out.coverage.is_none());
    assert!(out.trailing_comment.is_none());
}

#[test]
fn instrumented_program_gets_preamble_and_trailing_comment() {
    // function a() { return 1; }
    let ret = plain_stmt(
        Some(rng(1, 15, 1, 24)),
        StmtKind::Return(Some(plain_expr(Some(rng(1, 22, 1, 23)), ExprKind::Num(1)))),
    );
    let f = plain_stmt(
        Some(rng(1, 0, 1, 26)),
        StmtKind::FnDecl {
            name: text("a"),
            params: List::Nil,
            body_span: Some(rng(1, 13, 1, 26)),
            body: Box::new(list1(ret)),
        },
    );
    let p = program_of(list1(f));
    let out = transform_program(p, b"a.js".to_vec(), &defaults()).unwrap();
    let var = text_of_vec(&var_name_of(&b"a.js".to_vec()));
    let stmts = to_vec(&out.program.body);
    // Preamble: the declaration of F, then the eager call F();
    assert_eq!(stmts.len(), 3);
    match &stmts[0].kind {
        StmtKind::FnDecl { name, .. } => assert!(text_eq(name, &var)),
        _ => panic!("first item should declare the coverage function"),
    }
    match &stmts[1].kind {
        StmtKind::Expr(e) => match &e.kind {
            ExprKind::Call { callee, .. } => match &callee.kind {
                ExprKind::Ident(name) => assert!(text_eq(name, &var)),
                _ => panic!("the eager call should name the coverage function"),
            },
            _ => panic!("second item should be a call"),
        },
        _ => panic!("second item should be an expression statement"),
    }
    assert!(matches!(stmts[2].kind, StmtKind::FnDecl { .. }));
    let cov = out.coverage.unwrap();
    assert!(cov.frozen);
    assert_eq!(cov.statements.len(), 1);
    assert_eq!(cov.functions.len(), 1);
    let comment = out.trailing_comment.unwrap();
    assert!(comment.starts_with(b"__coverage_data_json_comment__::"));
    let json = &comment[b"__coverage_data_json_comment__::".len()..];
    assert!(json.starts_with(b"{\"path\":\"a.js\","));
}

#[test]
fn arrow_initializer_is_promoted_and_wrapped() {
    // const f = x => x + 1;
    let body = plain_expr(
        Some(rng(1, 15, 1, 20)),
        ExprKind::Bin {
            op: istanbul_oxi::ast::BinOp::Add,
            left: Box::new(plain_expr(Some(rng(1, 15, 1, 16)), ExprKind::Ident(text("x")))),
            right: Box::new(plain_expr(Some(rng(1, 19, 1, 20)), ExprKind::Num(1))),
        },
    );
    let arrow = plain_expr(
        Some(rng(1, 10, 1, 20)),
        ExprKind::Arrow {
            params: Box::new(list1(istanbul_oxi::ast::Param {
                span: Some(rng(1, 10, 1, 11)),
                name: text("x"),
                default: None,
            })),
            body: istanbul_oxi::ast::ArrowBody::Expr(Box::new(body)),
        },
    );
    let decl = plain_stmt(
        Some(rng(1, 0, 1, 21)),
        StmtKind::VarDecl {
            kind: DeclKind::Const,
            decls: list1(Declarator { name: text("f"), init: Some(arrow) }),
        },
    );
    let p = program_of(list1(decl));
    let out = transform_program(p, b"a.js".to_vec(), &defaults()).unwrap();
    let cov = out.coverage.unwrap();
    // One function (the arrow); two statements: the promoted return and the
    // declarator initializer.
    assert_eq!(cov.functions.len(), 1);
    assert_eq!(cov.statements.len(), 2);
    let stmts = to_vec(&out.program.body);
    match &stmts[2].kind {
        StmtKind::VarDecl { decls, .. } => match decls {
            List::Cons(d, _) => match &d.init.as_ref().unwrap().kind {
                ExprKind::Paren(inner) => match &inner.kind {
                    ExprKind::Comma(_, orig) => match &orig.kind {
                        ExprKind::Arrow { body, .. } => match body {
                            istanbul_oxi::ast::ArrowBody::Block { stmts, .. } => {
                                assert_eq!(to_vec(stmts).len(), 3);
                            }
                            _ => panic!("arrow body should be a block now"),
                        },
                        _ => panic!("the wrapped value should still be the arrow"),
                    },
                    _ => panic!("expected comma sequence"),
                },
                _ => panic!("initializer should be wrapped"),
            },
            _ => panic!("expected a declarator"),
        },
        _ => panic!("expected the declaration"),
    }
}

#[test]
fn record_rendering_has_the_wire_shape() {
    let mut cov = CoverageMap::new(b"a.js".to_vec());
    cov.new_statement(rng(1, 0, 1, 5));
    freeze(&mut cov);
    let rec = render_record(&cov, &None);
    let expected = format!(
        "{{\"path\":\"a.js\",\"statementMap\":{{\"0\":{{\"start\":{{\"line\":1,\"column\":0}},\"end\":{{\"line\":1,\"column\":5}}}}}},\"fnMap\":{{}},\"branchMap\":{{}},\"s\":{{\"0\":0}},\"f\":{{}},\"b\":{{}},\"hash\":\"{}\"}}",
        cov.hash
    );
    assert_eq!(rec, expected.into_bytes());
    // With an input source map it is carried verbatim.
    let rec2 = render_record(&cov, &Some(b"{\"v\":3}".to_vec()));
    let expected2 = format!(
        "{{\"path\":\"a.js\",\"statementMap\":{{\"0\":{{\"start\":{{\"line\":1,\"column\":0}},\"end\":{{\"line\":1,\"column\":5}}}}}},\"fnMap\":{{}},\"branchMap\":{{}},\"s\":{{\"0\":0}},\"f\":{{}},\"b\":{{}},\"inputSourceMap\":{{\"v\":3}},\"hash\":\"{}\"}}",
        cov.hash
    );
    assert_eq!(rec2, expected2.into_bytes());
}

#[test]
fn spanless_if_still_descends() {
    // An if without a range gets no branch, but its arms are still visited.
    let inner_ret = plain_stmt(
        Some(rng(2, 0, 2, 9)),
        StmtKind::Return(Some(plain_expr(Some(rng(2, 7, 2, 8)), ExprKind::Num(1)))),
    );
    let cons = plain_stmt(None, StmtKind::Block(Box::new(list1(inner_ret))));
    let iff = plain_stmt(
        None,
        StmtKind::If {
            test: plain_expr(Some(rng(1, 4, 1, 5)), ExprKind::Ident(text("a"))),
            cons: Box::new(cons),
            alt: None,
        },
    );
    let mut cov = CoverageMap::new(b"a.js".to_vec());
    let var = text("cov_1");
    let out = istanbul_oxi::transform::stmts_pass(&mut cov, &var, &List::Nil, list1(iff));
    // No branch for the span-less if, but the inner return is counted.
    assert_eq!(cov.branches.len(), 0);
    assert_eq!(cov.statements.len(), 1);
    let stmts = to_vec(&out);
    assert_eq!(stmts.len(), 1);
}


#[test]
fn class_methods_and_properties_are_covered() {
    // class C { m() { return 1; } p = 2; }
    let ret = plain_stmt(
        Some(rng(1, 16, 1, 25)),
        StmtKind::Return(Some(plain_expr(Some(rng(1, 23, 1, 24)), ExprKind::Num(1)))),
    );
    let method = ClassMember {
        span: Some(rng(1, 10, 1, 27)),
        leading: List::Nil,
        name: text("m"),
        kind: MemberKind::Method {
            params: List::Nil,
            body_span: Some(rng(1, 14, 1, 27)),
            body: Box::new(list1(ret)),
        },
    };
    let prop = ClassMember {
        span: Some(rng(1, 28, 1, 34)),
        leading: List::Nil,
        name: text("p"),
        kind: MemberKind::Prop {
            value: Some(plain_expr(Some(rng(1, 32, 1, 33)), ExprKind::Num(2))),
        },
    };
    let class = plain_stmt(
        Some(rng(1, 0, 1, 36)),
        StmtKind::ClassDecl {
            name: text("C"),
            members: List::Cons(method, Box::new(list1(prop))),
        },
    );
    let p = program_of(list1(class));
    let out = transform_program(p, b"a.js".to_vec(), &defaults()).unwrap();
    let cov = out.coverage.unwrap();
    // One function (the method); two statements: the return and the
    // property initializer.
    assert_eq!(cov.functions.len(), 1);
    assert_eq!(cov.statements.len(), 2);
    let stmts = to_vec(&out.program.body);
    match &stmts[2].kind {
        StmtKind::ClassDecl { members, .. } => match members {
            List::Cons(m, rest) => {
                match &m.kind {
                    MemberKind::Method { body, .. } => assert_eq!(to_vec(body).len(), 3),
                    _ => panic!("first member should still be the method"),
                }
                match &**rest {
                    List::Cons(pr, _) => match &pr.kind {
                        MemberKind::Prop { value } => {
                            assert!(matches!(
                                value.as_ref().unwrap().kind,
                                ExprKind::Paren(_)
                            ));
                        }
                        _ => panic!("second member should still be the property"),
                    },
                    _ => panic!("property member lost"),
                }
            }
            _ => panic!("members lost"),
        },
        _ => panic!("expected the class declaration"),
    }
}

#[test]
fn ignored_class_method_is_left_untouched() {
    let ret = plain_stmt(
        Some(rng(1, 16, 1, 25)),
        StmtKind::Return(Some(plain_expr(Some(rng(1, 23, 1, 24)), ExprKind::Num(1)))),
    );
    let method = ClassMember {
        span: Some(rng(1, 10, 1, 27)),
        leading: List::Nil,
        name: text("render"),
        kind: MemberKind::Method {
            params: List::Nil,
            body_span: Some(rng(1, 14, 1, 27)),
            body: Box::new(list1(ret)),
        },
    };
    let class = plain_stmt(
        Some(rng(1, 0, 1, 36)),
        StmtKind::ClassDecl { name: text("C"), members: list1(method) },
    );
    let p = program_of(list1(class));
    let opts = default_options(
        None,
        None,
        None,
        None,
        None,
        Some(vec![b"render".to_vec()]),
        None,
    );
    let out = transform_program(p, b"a.js".to_vec(), &opts).unwrap();
    let cov = out.coverage.unwrap();
    // The named method is exempt: nothing is allocated for it.
    assert_eq!(cov.functions.len(), 0);
    assert_eq!(cov.statements.len(), 0);
    let stmts = to_vec(&out.program.body);
    match &stmts[2].kind {
        StmtKind::ClassDecl { members, .. } => match members {
            List::Cons(m, _) => match &m.kind {
                MemberKind::Method { body, .. } => assert_eq!(to_vec(body).len(), 1),
                _ => panic!("method lost"),
            },
            _ => panic!("members lost"),
        },
        _ => panic!("expected the class declaration"),
    }
}
