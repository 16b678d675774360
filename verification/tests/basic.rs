use istanbul_oxi::ast::{Declarator, DeclKind, Expr, ExprKind, Stmt, StmtKind};
use istanbul_oxi::counter::{is_counter_stmt_exec, mk_counter_stmt};
use istanbul_oxi::cov_map::{BranchKind, CoverageMap};
use istanbul_oxi::hashing::var_name_of;
use istanbul_oxi::hint::{parse_hint_exec, IgnoreScope};
use istanbul_oxi::json::{freeze, render_maps};
use istanbul_oxi::list::{text_of_vec, List, Text};
use istanbul_oxi::range::SourceRange;
use istanbul_oxi::transform::{mk_s_text, stmts_pass};

fn text(s: &str) -> Text {
    text_of_vec(&s.as_bytes().to_vec())
}

fn rng(sl: u32, sc: u32, el: u32, ec: u32) -> SourceRange {
    SourceRange::new(sl, sc, el, ec)
}

fn plain_expr(span: Option<SourceRange>, kind: ExprKind) -> Expr {
    Expr { span, leading: List::Nil, kind }
}

fn plain_stmt(span: Option<SourceRange>, kind: StmtKind) -> Stmt {
    Stmt { span, leading: List::Nil, kind }
}

fn list1<T>(a: T) -> List<T> {
    List::Cons(a, Box::new(List::Nil))
}

fn to_vec(mut l: &List<Stmt>) -> Vec<&Stmt> {
    let mut out = Vec::new();
    while let List::Cons(s, rest) = l {
        out.push(s);
        l = rest;
    }
    out
}

#[test]
fn var_name_of_empty_path_is_fnv_basis() {
    // FNV-1a of no bytes is the offset basis.
    let name = var_name_of(&Vec::new());
    assert_eq!(name, b"cov_14695981039346656037".to_vec());
}

#[test]
fn var_name_is_stable_and_prefixed() {
    let p = b"src/app.js".to_vec();
    let a = var_name_of(&p);
    let b = var_name_of(&p);
    assert_eq!(a, b);
    assert!(a.starts_with(b"cov_"));
    let other = var_name_of(&b"src/other.js".to_vec());
    assert_ne!(a, other);
}

#[test]
fn hint_scanner_recognizes_directives() {
    assert_eq!(
        parse_hint_exec(&text(" istanbul ignore file ")),
        Some(IgnoreScope::File)
    );
    assert_eq!(
        parse_hint_exec(&text("istanbul   ignore\tnext")),
        Some(IgnoreScope::Next)
    );
    assert_eq!(parse_hint_exec(&text("istanbul ignore if")), Some(IgnoreScope::If));
    assert_eq!(
        parse_hint_exec(&text("istanbul ignore else: branch"))
        , Some(IgnoreScope::Else)
    );
}

#[test]
fn hint_scanner_wants_word_boundaries() {
    assert_eq!(parse_hint_exec(&text("istanbul ignorefile")), None);
    assert_eq!(parse_hint_exec(&text("istanbul ignore filex")), None);
    assert_eq!(parse_hint_exec(&text("istanbulignore file")), None);
    assert_eq!(parse_hint_exec(&text("nothing here")), None);
}

#[test]
fn map_ids_are_dense_and_ordered() {
    let mut cov = CoverageMap::new(b"a.js".to_vec());
    assert_eq!(cov.new_statement(rng(1, 0, 1, 5)), 0);
    assert_eq!(cov.new_statement(rng(2, 0, 2, 5)), 1);
    assert_eq!(cov.new_function(None, rng(3, 0, 3, 10), rng(3, 5, 4, 1)), 0);
    let b = cov.new_branch(BranchKind::If, rng(5, 0, 6, 1));
    assert_eq!(b, 0);
    assert_eq!(cov.add_branch_path(b, rng(5, 0, 6, 1)), 0);
    assert_eq!(cov.add_branch_path(b, rng(5, 0, 6, 1)), 1);
    assert_eq!(cov.statements.len(), 2);
    assert_eq!(cov.functions.len(), 1);
    assert_eq!(cov.branches[0].locations.len(), 2);
    assert_eq!(cov.functions[0].line_count, 2);
}

#[test]
fn counter_statements_are_recognized() {
    let var = text("cov_1");
    let c = mk_counter_stmt(&var, mk_s_text(), 0, None);
    assert!(is_counter_stmt_exec(&var, &c));
    let cb = mk_counter_stmt(&var, mk_s_text(), 3, Some(1));
    assert!(is_counter_stmt_exec(&var, &cb));
    let other = plain_stmt(None, StmtKind::Debugger);
    assert!(!is_counter_stmt_exec(&var, &other));
    // A counter for another file's identifier is not ours.
    assert!(!is_counter_stmt_exec(&text("cov_2"), &c));
}

#[test]
fn declarator_initializer_is_wrapped() {
    // var x = 1;
    let init = plain_expr(Some(rng(1, 8, 1, 9)), ExprKind::Num(1));
    let decl = plain_stmt(
        Some(rng(1, 0, 1, 10)),
        StmtKind::VarDecl {
            kind: DeclKind::Var,
            decls: list1(Declarator { name: text("x"), init: Some(init) }),
        },
    );
    let mut cov = CoverageMap::new(b"a.js".to_vec());
    let var = text("cov_1");
    let out = stmts_pass(&mut cov, &var, &List::Nil, list1(decl));
    let stmts = to_vec(&out);
    // No statement counter before the declaration itself.
    assert_eq!(stmts.len(), 1);
    assert_eq!(cov.statements.len(), 1);
    match &stmts[0].kind {
        StmtKind::VarDecl { decls, .. } => match decls {
            List::Cons(d, _) => match d.init.as_ref().unwrap().kind {
                ExprKind::Paren(ref inner) => match inner.kind {
                    ExprKind::Comma(ref counter, ref orig) => {
                        match orig.kind {
                            ExprKind::Num(1) => {}
                            _ => panic!("initializer lost"),
                        }
                        match counter.kind {
                            ExprKind::Update(_) => {}
                            _ => panic!("no counter"),
                        }
                    }
                    _ => panic!("expected comma sequence"),
                },
                _ => panic!("expected paren wrap"),
            },
            _ => panic!("expected declarator"),
        },
        _ => panic!("expected var decl"),
    }
}

#[test]
fn function_declaration_gets_f_and_s_counters() {
    // function a() { return 1; }
    let ret = plain_stmt(
        Some(rng(1, 15, 1, 24)),
        StmtKind::Return(Some(plain_expr(Some(rng(1, 22, 1, 23)), ExprKind::Num(1)))),
    );
    let f = plain_stmt(
        Some(rng(1, 0, 1, 26)),
        StmtKind::FnDecl {
            name: text("a"),
            params: List::Nil,
            body_span: Some(rng(1, 13, 1, 26)),
            body: Box::new(list1(ret)),
        },
    );
    let mut cov = CoverageMap::new(b"a.js".to_vec());
    let var = text("cov_1");
    let out = stmts_pass(&mut cov, &var, &List::Nil, list1(f));
    let stmts = to_vec(&out);
    // The function declaration itself gets no statement counter.
    assert_eq!(stmts.len(), 1);
    assert_eq!(cov.functions.len(), 1);
    assert_eq!(cov.statements.len(), 1);
    match &stmts[0].kind {
        StmtKind::FnDecl { body, .. } => {
            let body_stmts = to_vec(body);
            assert_eq!(body_stmts.len(), 3);
            assert!(is_counter_stmt_exec(&var, body_stmts[0]));
            assert!(is_counter_stmt_exec(&var, body_stmts[1]));
            assert!(matches!(body_stmts[2].kind, StmtKind::Return(_)));
        }
        _ => panic!("expected function declaration"),
    }
}

#[test]
fn if_statement_gets_branch_with_two_paths() {
    // if (a) b(); else c();
    let call = |name: &str, lo: u32, hi: u32| {
        plain_stmt(
            Some(rng(1, lo, 1, hi)),
            StmtKind::Expr(plain_expr(
                Some(rng(1, lo, 1, hi)),
                ExprKind::Call {
                    callee: Box::new(plain_expr(Some(rng(1, lo, 1, hi - 2)), ExprKind::Ident(text(name)))),
                    args: Box::new(List::Nil),
                },
            )),
        )
    };
    let iff = plain_stmt(
        Some(rng(1, 0, 1, 21)),
        StmtKind::If {
            test: plain_expr(Some(rng(1, 4, 1, 5)), ExprKind::Ident(text("a"))),
            cons: Box::new(call("b", 7, 11)),
            alt: Some(Box::new(call("c", 17, 21))),
        },
    );
    let mut cov = CoverageMap::new(b"a.js".to_vec());
    let var = text("cov_1");
    let out = stmts_pass(&mut cov, &var, &List::Nil, list1(iff));
    let stmts = to_vec(&out);
    // A statement counter is prepended before the if.
    assert_eq!(stmts.len(), 2);
    assert!(is_counter_stmt_exec(&var, stmts[0]));
    assert_eq!(cov.branches.len(), 1);
    assert_eq!(cov.branches[0].kind, BranchKind::If);
    assert_eq!(cov.branches[0].locations.len(), 2);
    match &stmts[1].kind {
        StmtKind::If { cons, alt, .. } => {
            match &cons.kind {
                StmtKind::Block(inner) => {
                    let inner = to_vec(inner);
                    assert!(is_counter_stmt_exec(&var, inner[0]));
                }
                _ => panic!("consequent should be a block"),
            }
            match &alt.as_ref().unwrap().kind {
                StmtKind::Block(inner) => {
                    let inner = to_vec(inner);
                    assert!(is_counter_stmt_exec(&var, inner[0]));
                }
                _ => panic!("alternate should be a block"),
            }
        }
        _ => panic!("expected if"),
    }
}

#[test]
fn logical_chain_gets_one_branch_per_leaf() {
    // a || b || c  (left-associated)
    let ident = |n: &str, lo: u32| plain_expr(Some(rng(1, lo, 1, lo + 1)), ExprKind::Ident(text(n)));
    let inner = plain_expr(
        Some(rng(1, 0, 1, 6)),
        ExprKind::Bin {
            op: istanbul_oxi::ast::BinOp::Or,
            left: Box::new(ident("a", 0)),
            right: Box::new(ident("b", 5)),
        },
    );
    let chain = plain_expr(
        Some(rng(1, 0, 1, 11)),
        ExprKind::Bin {
            op: istanbul_oxi::ast::BinOp::Or,
            left: Box::new(inner),
            right: Box::new(ident("c", 10)),
        },
    );
    let stmt = plain_stmt(Some(rng(1, 0, 1, 12)), StmtKind::Expr(chain));
    let mut cov = CoverageMap::new(b"a.js".to_vec());
    let var = text("cov_1");
    let _out = stmts_pass(&mut cov, &var, &List::Nil, list1(stmt));
    assert_eq!(cov.branches.len(), 1);
    assert_eq!(cov.branches[0].kind, BranchKind::BinaryExpr);
    assert_eq!(cov.branches[0].locations.len(), 3);
}

#[test]
fn ignore_next_leaves_statement_untouched() {
    let hint = text("istanbul ignore next");
    let stmt = Stmt {
        span: Some(rng(1, 0, 1, 5)),
        leading: list1(hint),
        kind: StmtKind::Debugger,
    };
    let mut cov = CoverageMap::new(b"a.js".to_vec());
    let var = text("cov_1");
    let out = stmts_pass(&mut cov, &var, &List::Nil, list1(stmt));
    let stmts = to_vec(&out);
    assert_eq!(stmts.len(), 1);
    assert_eq!(cov.statements.len(), 0);
    assert!(matches!(stmts[0].kind, StmtKind::Debugger));
}

#[test]
fn freeze_hash_is_stable_and_maps_render_canonically() {
    let mut a = CoverageMap::new(b"a.js".to_vec());
    let mut b = CoverageMap::new(b"a.js".to_vec());
    assert_eq!(
        render_maps(&a),
        b"{\"statementMap\":{},\"fnMap\":{},\"branchMap\":{}}".to_vec()
    );
    a.new_statement(rng(1, 0, 1, 5));
    b.new_statement(rng(1, 0, 1, 5));
    assert_eq!(
        render_maps(&a),
        b"{\"statementMap\":{\"0\":{\"start\":{\"line\":1,\"column\":0},\"end\":{\"line\":1,\"column\":5}}},\"fnMap\":{},\"branchMap\":{}}"
            .to_vec()
    );
    freeze(&mut a);
    freeze(&mut b);
    assert!(a.frozen);
    assert_eq!(a.hash, b.hash);
}
