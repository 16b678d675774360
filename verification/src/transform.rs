//! The instrumentation pass over statements and expressions. Each rewrite
//! rule is stated once as a specification function over the coverage-map
//! model and the tree, and the executable pass is proved to return exactly
//! that value. Ids therefore follow the traversal order the specification
//! fixes, and two runs on equal inputs give equal outputs.
//!
//! The rules, in brief: every counted statement in a statement list gets a
//! fresh statement id and an `s` counter before it; variable-declarator
//! initializers are wrapped in `(F().s[i]++, init)` instead; functions and
//! arrows get an `f` counter at the head of their (possibly promoted) body;
//! `if` arms, logical-chain leaves, conditional arms, switch cases and
//! parameter defaults get branch paths and `b` counters. A node whose
//! leading comments say `istanbul ignore next` is left untouched, and an
//! injected counter is never instrumented again.

use vstd::prelude::*;
use crate::ast::{ArrowBody, BinOp, ClassMember, Comments, Declarator, Expr, ExprKind,
    MemberKind, Param, Prop, Stmt, StmtKind, SwitchCase, synth_expr, synth_stmt, mk_synth_expr,
    mk_synth_stmt};
use crate::counter::{b_text, counter_expr, counter_stmt, f_text, is_counter_expr,
    is_counter_expr_exec, is_counter_stmt, is_counter_stmt_exec, mk_counter_expr, mk_counter_stmt,
    s_text};
use crate::cov_map::{BranchKind, CoverageMap, CoverageModel};
use crate::hint::{spec_should_ignore, should_ignore, IgnoreScope};
use crate::list::{List, Text, text_clone, text_in, text_in_exec, append};
use crate::range::SourceRange;

verus! {

/// Builds the member name `s`.
pub fn mk_s_text() -> (t: Text)
    ensures
        t == s_text(),
{
    List::Cons(115u8, Box::new(List::Nil))
}

/// Builds the member name `f`.
pub fn mk_f_text() -> (t: Text)
    ensures
        t == f_text(),
{
    List::Cons(102u8, Box::new(List::Nil))
}

/// Builds the member name `b`.
pub fn mk_b_text() -> (t: Text)
    ensures
        t == b_text(),
{
    List::Cons(98u8, Box::new(List::Nil))
}

/// Statement kinds that receive a statement counter from the list rule.
/// Variable declarations are counted at their initializers instead, function
/// declarations are counted as functions, blocks and empty statements not at
/// all.
pub open spec fn counted_kind(k: StmtKind) -> bool {
    match k {
        StmtKind::VarDecl { .. } => false,
        StmtKind::FnDecl { .. } => false,
        StmtKind::ClassDecl { .. } => false,
        StmtKind::Block(..) => false,
        StmtKind::Empty => false,
        _ => true,
    }
}

/// Why a class member is exempt from instrumentation: an ignore-next hint
/// in its leading comments, or — for a method — a name the configuration
/// lists (the `ClassMethod` ignore scope).
pub open spec fn member_scope(mb: ClassMember, ign: List<Text>) -> Option<IgnoreScope> {
    if spec_should_ignore(mb.leading) == Some(IgnoreScope::Next) {
        Some(IgnoreScope::Next)
    } else if (mb.kind matches MemberKind::Method { .. }) && text_in(mb.name, ign) {
        Some(IgnoreScope::ClassMethod)
    } else {
        None
    }
}

/// `(F().b[bid][idx]++, inner)` as a parenthesized sequence.
pub open spec fn branch_wrap(var: Text, bid: int, idx: int, inner: Expr) -> Expr {
    synth_expr(
        ExprKind::Paren(
            Box::new(
                synth_expr(
                    ExprKind::Comma(
                        Box::new(counter_expr(var, b_text(), bid as u64, Some(idx as u64))),
                        Box::new(inner),
                    ),
                ),
            ),
        ),
    )
}

/// `(F().s[id]++, inner)` as a parenthesized sequence.
pub open spec fn stmt_wrap(var: Text, id: int, inner: Expr) -> Expr {
    synth_expr(
        ExprKind::Paren(
            Box::new(
                synth_expr(
                    ExprKind::Comma(
                        Box::new(counter_expr(var, s_text(), id as u64, None)),
                        Box::new(inner),
                    ),
                ),
            ),
        ),
    )
}

/// The statement-list rule: an injected counter is kept as it is; every
/// other statement yields its before-counters and its rewritten form.
#[verifier::opaque]
pub open spec fn tx_stmt_list(m: CoverageModel, var: Text, ign: List<Text>, l: List<Stmt>) -> (CoverageModel, List<
    Stmt,
>)
    decreases l, 0int,
{
    match l {
        List::Nil => (m, List::Nil),
        List::Cons(s, rest) => {
            let (m1, before, s1) = tx_stmt(m, var, ign, s);
            let (m2, rest1) = tx_stmt_list(m1, var, ign, *rest);
            (m2, before.append(List::Cons(s1, Box::new(rest1))))
        },
    }
}

/// One statement: decides the statement counter, then applies the per-kind
/// rule. Returns the map, the statements to splice before, and the rewrite.
#[verifier::opaque]
pub open spec fn tx_stmt(m: CoverageModel, var: Text, ign: List<Text>, s: Stmt) -> (CoverageModel, List<Stmt>, Stmt)
    decreases s, 1int,
{
    if is_counter_stmt(var, s) {
        (m, List::Nil, s)
    } else if spec_should_ignore(s.leading) == Some(IgnoreScope::Next) {
        (m, List::Nil, s)
    } else if counted_kind(s.kind) && s.span is Some {
        let r = s.span->0;
        let id = m.statements.len() as int;
        let m1 = m.add_statement(r);
        let before = List::Cons(
            counter_stmt(var, s_text(), id as u64, None),
            Box::new(List::Nil),
        );
        let (m2, s2) = tx_counted(m1, var, ign, s);
        (m2, before, s2)
    } else {
        let (m1, s1) = tx_counted(m, var, ign, s);
        (m1, List::Nil, s1)
    }
}

/// The per-kind statement rule, after the statement counter was decided.
#[verifier::opaque]
pub open spec fn tx_counted(m: CoverageModel, var: Text, ign: List<Text>, s: Stmt) -> (CoverageModel, Stmt)
    decreases s, 0int,
{
    match s.kind {
        StmtKind::Expr(e) => {
            let (m1, e1) = tx_expr(m, var, ign, e);
            (m1, Stmt { kind: StmtKind::Expr(e1), ..s })
        },
        StmtKind::Return(arg) => match arg {
            Some(e) => {
                let (m1, e1) = tx_expr(m, var, ign, e);
                (m1, Stmt { kind: StmtKind::Return(Some(e1)), ..s })
            },
            None => (m, s),
        },
        StmtKind::Throw(e) => {
            let (m1, e1) = tx_expr(m, var, ign, e);
            (m1, Stmt { kind: StmtKind::Throw(e1), ..s })
        },
        StmtKind::VarDecl { kind, decls } => {
            let (m1, d1) = tx_decls(m, var, ign, decls);
            (m1, Stmt { kind: StmtKind::VarDecl { kind, decls: d1 }, ..s })
        },
        StmtKind::Block(stmts) => {
            let (m1, l1) = tx_stmt_list(m, var, ign, *stmts);
            (m1, Stmt { kind: StmtKind::Block(Box::new(l1)), ..s })
        },
        StmtKind::FnDecl { name, params, body_span, body } => {
            if s.span is Some && body_span is Some {
                let fid = m.functions.len() as int;
                let m1 = m.add_function(Some(name), s.span->0, body_span->0);
                let (m2, params1) = tx_params(m1, var, ign, params);
                let (m3, body1) = tx_stmt_list(m2, var, ign, *body);
                let fc = counter_stmt(var, f_text(), fid as u64, None);
                (
                    m3,
                    Stmt {
                        kind: StmtKind::FnDecl {
                            name,
                            params: params1,
                            body_span,
                            body: Box::new(List::Cons(fc, Box::new(body1))),
                        },
                        ..s
                    },
                )
            } else {
                let (m1, params1) = tx_params(m, var, ign, params);
                let (m2, body1) = tx_stmt_list(m1, var, ign, *body);
                (
                    m2,
                    Stmt {
                        kind: StmtKind::FnDecl {
                            name,
                            params: params1,
                            body_span,
                            body: Box::new(body1),
                        },
                        ..s
                    },
                )
            }
        },
        StmtKind::If { test, cons, alt } => {
            if s.span is Some {
                let r = s.span->0;
                let hint = spec_should_ignore(s.leading);
                let bid = m.branches.len() as int;
                let m1 = m.add_branch(BranchKind::If, r);
                let (m2, cons1) = if hint == Some(IgnoreScope::If) {
                    (m1, *cons)
                } else {
                    tx_arm(m1, var, ign, bid, r, *cons)
                };
                let (m3, alt1) = if hint == Some(IgnoreScope::Else) {
                    (m2, alt)
                } else {
                    match alt {
                        Some(a) => {
                            let (m3a, a1) = tx_arm(m2, var, ign, bid, r, *a);
                            (m3a, Some(Box::new(a1)))
                        },
                        None => {
                            let idx = m2.branches[bid].locations.len() as int;
                            let m3a = m2.add_branch_path(bid, r);
                            let bc = counter_stmt(var, b_text(), bid as u64, Some(idx as u64));
                            let blk = synth_stmt(
                                StmtKind::Block(Box::new(List::Cons(bc, Box::new(List::Nil)))),
                            );
                            (m3a, Some(Box::new(blk)))
                        },
                    }
                };
                let (m4, test1) = tx_expr(m3, var, ign, test);
                (m4, Stmt { kind: StmtKind::If { test: test1, cons: Box::new(cons1), alt: alt1 }, ..s })
            } else {
                let (m1, cons1) = tx_counted(m, var, ign, *cons);
                let (m2, alt1) = match alt {
                    Some(a) => {
                        let (m2a, a1) = tx_counted(m1, var, ign, *a);
                        (m2a, Some(Box::new(a1)))
                    },
                    None => (m1, None::<Box<Stmt>>),
                };
                let (m3, test1) = tx_expr(m2, var, ign, test);
                (m3, Stmt { kind: StmtKind::If { test: test1, cons: Box::new(cons1), alt: alt1 }, ..s })
            }
        },
        StmtKind::While { test, body } => {
            let (m1, test1) = tx_expr(m, var, ign, test);
            let (m2, body1) = tx_loop_body(m1, var, ign, *body);
            (m2, Stmt { kind: StmtKind::While { test: test1, body: Box::new(body1) }, ..s })
        },
        StmtKind::DoWhile { test, body } => {
            let (m1, body1) = tx_loop_body(m, var, ign, *body);
            let (m2, test1) = tx_expr(m1, var, ign, test);
            (m2, Stmt { kind: StmtKind::DoWhile { test: test1, body: Box::new(body1) }, ..s })
        },
        StmtKind::For { init, test, update, body } => {
            let (m1, init1) = match init {
                Some(i) => {
                    let (m1a, i1) = tx_for_init(m, var, ign, *i);
                    (m1a, Some(Box::new(i1)))
                },
                None => (m, None::<Box<Stmt>>),
            };
            let (m2, test1) = tx_opt_expr(m1, var, ign, test);
            let (m3, update1) = tx_opt_expr(m2, var, ign, update);
            let (m4, body1) = tx_loop_body(m3, var, ign, *body);
            (
                m4,
                Stmt {
                    kind: StmtKind::For {
                        init: init1,
                        test: test1,
                        update: update1,
                        body: Box::new(body1),
                    },
                    ..s
                },
            )
        },
        StmtKind::Switch { disc, cases } => {
            let (m1, disc1) = tx_expr(m, var, ign, disc);
            if s.span is Some {
                let bid = m1.branches.len() as int;
                let m2 = m1.add_branch(BranchKind::Switch, s.span->0);
                let (m3, cases1) = tx_cases(m2, var, ign, bid, cases);
                (m3, Stmt { kind: StmtKind::Switch { disc: disc1, cases: cases1 }, ..s })
            } else {
                let (m2, cases1) = tx_cases_plain(m1, var, ign, cases);
                (m2, Stmt { kind: StmtKind::Switch { disc: disc1, cases: cases1 }, ..s })
            }
        },
        StmtKind::Labeled { label, body } => {
            let (m1, body1) = tx_counted(m, var, ign, *body);
            (m1, Stmt { kind: StmtKind::Labeled { label, body: Box::new(body1) }, ..s })
        },
        StmtKind::ClassDecl { name, members } => {
            let (m1, members1) = tx_members(m, var, ign, members);
            (m1, Stmt { kind: StmtKind::ClassDecl { name, members: members1 }, ..s })
        },
        StmtKind::Try { block, param, handler, finalizer } => {
            let (m1, block1) = tx_stmt_list(m, var, ign, *block);
            let (m2, handler1) = match handler {
                Some(h) => {
                    let (m2a, h1) = tx_stmt_list(m1, var, ign, *h);
                    (m2a, Some(Box::new(h1)))
                },
                None => (m1, None::<Box<List<Stmt>>>),
            };
            let (m3, finalizer1) = match finalizer {
                Some(f) => {
                    let (m3a, f1) = tx_stmt_list(m2, var, ign, *f);
                    (m3a, Some(Box::new(f1)))
                },
                None => (m2, None::<Box<List<Stmt>>>),
            };
            (
                m3,
                Stmt {
                    kind: StmtKind::Try {
                        block: Box::new(block1),
                        param,
                        handler: handler1,
                        finalizer: finalizer1,
                    },
                    ..s
                },
            )
        },
        StmtKind::With { obj, body } => {
            let (m1, obj1) = tx_expr(m, var, ign, obj);
            let (m2, body1) = tx_loop_body(m1, var, ign, *body);
            (m2, Stmt { kind: StmtKind::With { obj: obj1, body: Box::new(body1) }, ..s })
        },
        _ => (m, s),
    }
}

/// Class members in order; an exempt member is kept as it is.
#[verifier::opaque]
pub open spec fn tx_members(m: CoverageModel, var: Text, ign: List<Text>, l: List<ClassMember>)
    -> (CoverageModel, List<ClassMember>)
    decreases l, 1int,
{
    match l {
        List::Nil => (m, List::Nil),
        List::Cons(mb, rest) => {
            let (m1, mb1) = if member_scope(mb, ign) is Some {
                (m, mb)
            } else {
                tx_member(m, var, ign, mb)
            };
            let (m2, rest1) = tx_members(m1, var, ign, *rest);
            (m2, List::Cons(mb1, Box::new(rest1)))
        },
    }
}

/// One class member: a method is covered as a function (id from its own and
/// its body's ranges, `f` counter at the head of the body); a property or
/// private property value is wrapped like a declarator initializer.
#[verifier::opaque]
pub open spec fn tx_member(m: CoverageModel, var: Text, ign: List<Text>, mb: ClassMember) -> (
    CoverageModel,
    ClassMember,
)
    decreases mb, 0int,
{
    match mb.kind {
        MemberKind::Method { params, body_span, body } => {
            if mb.span is Some && body_span is Some {
                let fid = m.functions.len() as int;
                let m1 = m.add_function(Some(mb.name), mb.span->0, body_span->0);
                let (m2, params1) = tx_params(m1, var, ign, params);
                let (m3, body1) = tx_stmt_list(m2, var, ign, *body);
                let fc = counter_stmt(var, f_text(), fid as u64, None);
                (
                    m3,
                    ClassMember {
                        kind: MemberKind::Method {
                            params: params1,
                            body_span,
                            body: Box::new(List::Cons(fc, Box::new(body1))),
                        },
                        ..mb
                    },
                )
            } else {
                let (m1, params1) = tx_params(m, var, ign, params);
                let (m2, body1) = tx_stmt_list(m1, var, ign, *body);
                (
                    m2,
                    ClassMember {
                        kind: MemberKind::Method {
                            params: params1,
                            body_span,
                            body: Box::new(body1),
                        },
                        ..mb
                    },
                )
            }
        },
        MemberKind::Prop { value } => match value {
            Some(e) => {
                let (m1, e1) = tx_expr(m, var, ign, e);
                if e.span is Some {
                    let id = m1.statements.len() as int;
                    let m2 = m1.add_statement(e.span->0);
                    (m2, ClassMember { kind: MemberKind::Prop { value: Some(stmt_wrap(var, id, e1)) }, ..mb })
                } else {
                    (m1, ClassMember { kind: MemberKind::Prop { value: Some(e1) }, ..mb })
                }
            },
            None => (m, mb),
        },
        MemberKind::PrivateProp { value } => match value {
            Some(e) => {
                let (m1, e1) = tx_expr(m, var, ign, e);
                if e.span is Some {
                    let id = m1.statements.len() as int;
                    let m2 = m1.add_statement(e.span->0);
                    (
                        m2,
                        ClassMember {
                            kind: MemberKind::PrivateProp { value: Some(stmt_wrap(var, id, e1)) },
                            ..mb
                        },
                    )
                } else {
                    (m1, ClassMember { kind: MemberKind::PrivateProp { value: Some(e1) }, ..mb })
                }
            },
            None => (m, mb),
        },
    }
}

/// One arm of an `if`: allocate the next path of branch `bid`, prepend its
/// counter, and make the arm a block if it was not one.
#[verifier::opaque]
pub open spec fn tx_arm(m: CoverageModel, var: Text, ign: List<Text>, bid: int, r: SourceRange, arm: Stmt) -> (
    CoverageModel,
    Stmt,
)
    decreases arm, 2int,
{
    let idx = m.branches[bid].locations.len() as int;
    let m1 = m.add_branch_path(bid, r);
    let bc = counter_stmt(var, b_text(), bid as u64, Some(idx as u64));
    match arm.kind {
        StmtKind::Block(stmts) => {
            let (m2, l1) = tx_stmt_list(m1, var, ign, *stmts);
            (m2, Stmt { kind: StmtKind::Block(Box::new(List::Cons(bc, Box::new(l1)))), ..arm })
        },
        _ => {
            let (m2, before, a1) = tx_stmt(m1, var, ign, arm);
            let body = List::Cons(
                bc,
                Box::new(before.append(List::Cons(a1, Box::new(List::Nil)))),
            );
            (m2, synth_stmt(StmtKind::Block(Box::new(body))))
        },
    }
}

/// A loop (or `with`) body: a block descends by the list rule; a single
/// statement is promoted to a block around its counters and rewrite.
#[verifier::opaque]
pub open spec fn tx_loop_body(m: CoverageModel, var: Text, ign: List<Text>, body: Stmt) -> (CoverageModel, Stmt)
    decreases body, 2int,
{
    match body.kind {
        StmtKind::Block(stmts) => {
            let (m1, l1) = tx_stmt_list(m, var, ign, *stmts);
            (m1, Stmt { kind: StmtKind::Block(Box::new(l1)), ..body })
        },
        _ => {
            let (m1, before, b1) = tx_stmt(m, var, ign, body);
            (
                m1,
                synth_stmt(
                    StmtKind::Block(Box::new(before.append(List::Cons(b1, Box::new(List::Nil))))),
                ),
            )
        },
    }
}

/// A `for` initializer: declarators are wrapped, a bare expression descends;
/// no statement counter is allocated for it.
#[verifier::opaque]
pub open spec fn tx_for_init(m: CoverageModel, var: Text, ign: List<Text>, s: Stmt) -> (CoverageModel, Stmt)
    decreases s, 0int,
{
    match s.kind {
        StmtKind::VarDecl { kind, decls } => {
            let (m1, d1) = tx_decls(m, var, ign, decls);
            (m1, Stmt { kind: StmtKind::VarDecl { kind, decls: d1 }, ..s })
        },
        StmtKind::Expr(e) => {
            let (m1, e1) = tx_expr(m, var, ign, e);
            (m1, Stmt { kind: StmtKind::Expr(e1), ..s })
        },
        _ => (m, s),
    }
}

/// Declarators: a present initializer is rewritten, then wrapped in
/// `(F().s[id]++, init)` under a fresh statement id taken from its range.
#[verifier::opaque]
pub open spec fn tx_decls(m: CoverageModel, var: Text, ign: List<Text>, l: List<Declarator>) -> (CoverageModel, List<
    Declarator,
>)
    decreases l, 0int,
{
    match l {
        List::Nil => (m, List::Nil),
        List::Cons(d, rest) => {
            let (m1, d1) = match d.init {
                Some(e) => {
                    let (m1a, e1) = tx_expr(m, var, ign, e);
                    if e.span is Some {
                        let id = m1a.statements.len() as int;
                        let m1b = m1a.add_statement(e.span->0);
                        (m1b, Declarator { init: Some(stmt_wrap(var, id, e1)), ..d })
                    } else {
                        (m1a, Declarator { init: Some(e1), ..d })
                    }
                },
                None => (m, d),
            };
            let (m2, rest1) = tx_decls(m1, var, ign, *rest);
            (m2, List::Cons(d1, Box::new(rest1)))
        },
    }
}

/// Parameter defaults: each present default with a range gets its own
/// `DefaultArg` branch with a single path, and the default is wrapped.
#[verifier::opaque]
pub open spec fn tx_params(m: CoverageModel, var: Text, ign: List<Text>, l: List<Param>) -> (CoverageModel, List<
    Param,
>)
    decreases l, 0int,
{
    match l {
        List::Nil => (m, List::Nil),
        List::Cons(p, rest) => {
            let (m1, p1) = match p.default {
                Some(d) => {
                    if d.span is Some {
                        let bid = m.branches.len() as int;
                        let m1a = m.add_branch(BranchKind::DefaultArg, d.span->0);
                        let idx = m1a.branches[bid].locations.len() as int;
                        let m1b = m1a.add_branch_path(bid, d.span->0);
                        let (m1c, d1) = tx_expr(m1b, var, ign, d);
                        (m1c, Param { default: Some(branch_wrap(var, bid, idx, d1)), ..p })
                    } else {
                        let (m1a, d1) = tx_expr(m, var, ign, d);
                        (m1a, Param { default: Some(d1), ..p })
                    }
                },
                None => (m, p),
            };
            let (m2, rest1) = tx_params(m1, var, ign, *rest);
            (m2, List::Cons(p1, Box::new(rest1)))
        },
    }
}

/// Switch cases under branch `bid`: each case with a range becomes the next
/// path, its counter prepended to the case body; bodies descend by the list
/// rule, case tests descend as expressions.
#[verifier::opaque]
pub open spec fn tx_cases(m: CoverageModel, var: Text, ign: List<Text>, bid: int, l: List<SwitchCase>) -> (
    CoverageModel,
    List<SwitchCase>,
)
    decreases l, 0int,
{
    match l {
        List::Nil => (m, List::Nil),
        List::Cons(c, rest) => {
            let (m1, t1) = tx_opt_expr(m, var, ign, c.test);
            let (m2, body1) = tx_stmt_list(m1, var, ign, *c.body);
            let (m3, c1) = if c.span is Some {
                let idx = m2.branches[bid].locations.len() as int;
                let m3a = m2.add_branch_path(bid, c.span->0);
                let bc = counter_stmt(var, b_text(), bid as u64, Some(idx as u64));
                (
                    m3a,
                    SwitchCase {
                        test: t1,
                        body: Box::new(List::Cons(bc, Box::new(body1))),
                        ..c
                    },
                )
            } else {
                (m2, SwitchCase { test: t1, body: Box::new(body1), ..c })
            };
            let (m4, rest1) = tx_cases(m3, var, ign, bid, *rest);
            (m4, List::Cons(c1, Box::new(rest1)))
        },
    }
}

/// Switch cases when the `switch` itself has no range: descent only.
#[verifier::opaque]
pub open spec fn tx_cases_plain(m: CoverageModel, var: Text, ign: List<Text>, l: List<SwitchCase>) -> (
    CoverageModel,
    List<SwitchCase>,
)
    decreases l, 0int,
{
    match l {
        List::Nil => (m, List::Nil),
        List::Cons(c, rest) => {
            let (m1, t1) = tx_opt_expr(m, var, ign, c.test);
            let (m2, body1) = tx_stmt_list(m1, var, ign, *c.body);
            let (m3, rest1) = tx_cases_plain(m2, var, ign, *rest);
            (
                m3,
                List::Cons(
                    SwitchCase { test: t1, body: Box::new(body1), ..c },
                    Box::new(rest1),
                ),
            )
        },
    }
}

/// An optional expression, descended in place.
#[verifier::opaque]
pub open spec fn tx_opt_expr(m: CoverageModel, var: Text, ign: List<Text>, e: Option<Expr>) -> (
    CoverageModel,
    Option<Expr>,
)
    decreases e, 1int,
{
    match e {
        Some(e0) => {
            let (m1, e1) = tx_expr(m, var, ign, e0);
            (m1, Some(e1))
        },
        None => (m, None::<Expr>),
    }
}

/// A list of expressions, descended element by element.
#[verifier::opaque]
pub open spec fn tx_expr_list(m: CoverageModel, var: Text, ign: List<Text>, l: List<Expr>) -> (CoverageModel, List<
    Expr,
>)
    decreases l, 0int,
{
    match l {
        List::Nil => (m, List::Nil),
        List::Cons(e, rest) => {
            let (m1, e1) = tx_expr(m, var, ign, e);
            let (m2, rest1) = tx_expr_list(m1, var, ign, *rest);
            (m2, List::Cons(e1, Box::new(rest1)))
        },
    }
}

/// Object-literal properties, values descended in place.
#[verifier::opaque]
pub open spec fn tx_props(m: CoverageModel, var: Text, ign: List<Text>, l: List<Prop>) -> (CoverageModel, List<
    Prop,
>)
    decreases l, 0int,
{
    match l {
        List::Nil => (m, List::Nil),
        List::Cons(p, rest) => {
            let (m1, v1) = tx_expr(m, var, ign, p.value);
            let (m2, rest1) = tx_props(m1, var, ign, *rest);
            (m2, List::Cons(Prop { value: v1, ..p }, Box::new(rest1)))
        },
    }
}

/// Whether the operator heads a logical chain.
pub open spec fn is_logical(op: BinOp) -> bool {
    op == BinOp::Or || op == BinOp::And || op == BinOp::Coalesce
}

/// One operand of a logical chain under branch `bid`: an inner expression
/// with the same operator stays in the same branch; any other operand is a
/// leaf and, if it has a range, becomes the next path, wrapped in
/// `(F().b[bid][idx]++, leaf)`.
#[verifier::opaque]
pub open spec fn wrap_leaf(m: CoverageModel, var: Text, ign: List<Text>, bid: int, op: BinOp, x: Expr) -> (
    CoverageModel,
    Expr,
)
    decreases x, 1int,
{
    match x.kind {
        ExprKind::Bin { op: xop, left, right } => {
            if xop == op {
                let (m1, l1) = wrap_leaf(m, var, ign, bid, op, *left);
                let (m2, r1) = wrap_leaf(m1, var, ign, bid, op, *right);
                (
                    m2,
                    Expr {
                        kind: ExprKind::Bin { op, left: Box::new(l1), right: Box::new(r1) },
                        ..x
                    },
                )
            } else {
                leaf_wrap(m, var, ign, bid, x)
            }
        },
        _ => leaf_wrap(m, var, ign, bid, x),
    }
}

/// Wraps a single leaf operand; a leaf without a range is kept as it is.
#[verifier::opaque]
pub open spec fn leaf_wrap(m: CoverageModel, var: Text, ign: List<Text>, bid: int, x: Expr) -> (CoverageModel, Expr)
    decreases x, 0int,
{
    if x.span is Some {
        let idx = m.branches[bid].locations.len() as int;
        let m1 = m.add_branch_path(bid, x.span->0);
        (m1, branch_wrap(var, bid, idx, x))
    } else {
        (m, x)
    }
}

/// The expression rule. An injected counter is left untouched; an
/// `istanbul ignore next` hint leaves the node untouched, except on a
/// logical expression, where it only disables branch allocation.
#[verifier::opaque]
pub open spec fn tx_expr(m: CoverageModel, var: Text, ign: List<Text>, e: Expr) -> (CoverageModel, Expr)
    decreases e, 3int,
{
    if is_counter_expr(var, e) {
        (m, e)
    } else {
        let ignored = spec_should_ignore(e.leading) == Some(IgnoreScope::Next);
        match e.kind {
            ExprKind::Bin { op, left, right } => {
                if is_logical(op) && !ignored && e.span is Some {
                    let bid = m.branches.len() as int;
                    let m1 = m.add_branch(BranchKind::BinaryExpr, e.span->0);
                    let (m2, l1) = wrap_leaf(m1, var, ign, bid, op, *left);
                    let (m3, r1) = wrap_leaf(m2, var, ign, bid, op, *right);
                    (
                        m3,
                        Expr {
                            kind: ExprKind::Bin { op, left: Box::new(l1), right: Box::new(r1) },
                            ..e
                        },
                    )
                } else {
                    let (m1, l1) = tx_expr(m, var, ign, *left);
                    let (m2, r1) = tx_expr(m1, var, ign, *right);
                    (
                        m2,
                        Expr {
                            kind: ExprKind::Bin { op, left: Box::new(l1), right: Box::new(r1) },
                            ..e
                        },
                    )
                }
            },
            _ => {
                if ignored {
                    (m, e)
                } else {
                    tx_expr_kinds(m, var, ign, e)
                }
            },
        }
    }
}

/// The per-kind expression rules other than logical chains.
#[verifier::opaque]
pub open spec fn tx_expr_kinds(m: CoverageModel, var: Text, ign: List<Text>, e: Expr) -> (CoverageModel, Expr)
    decreases e, 2int,
{
    match e.kind {
        ExprKind::Not(inner) => {
            let (m1, i1) = tx_expr(m, var, ign, *inner);
            (m1, Expr { kind: ExprKind::Not(Box::new(i1)), ..e })
        },
        ExprKind::Paren(inner) => {
            let (m1, i1) = tx_expr(m, var, ign, *inner);
            (m1, Expr { kind: ExprKind::Paren(Box::new(i1)), ..e })
        },
        ExprKind::Update(inner) => {
            let (m1, i1) = tx_expr(m, var, ign, *inner);
            (m1, Expr { kind: ExprKind::Update(Box::new(i1)), ..e })
        },
        ExprKind::Comma(a, b) => {
            let (m1, a1) = tx_expr(m, var, ign, *a);
            let (m2, b1) = tx_expr(m1, var, ign, *b);
            (m2, Expr { kind: ExprKind::Comma(Box::new(a1), Box::new(b1)), ..e })
        },
        ExprKind::Member { obj, prop } => {
            let (m1, o1) = tx_expr(m, var, ign, *obj);
            (m1, Expr { kind: ExprKind::Member { obj: Box::new(o1), prop }, ..e })
        },
        ExprKind::Index { obj, index } => {
            let (m1, o1) = tx_expr(m, var, ign, *obj);
            let (m2, i1) = tx_expr(m1, var, ign, *index);
            (m2, Expr { kind: ExprKind::Index { obj: Box::new(o1), index: Box::new(i1) }, ..e })
        },
        ExprKind::Call { callee, args } => {
            let (m1, c1) = tx_expr(m, var, ign, *callee);
            let (m2, a1) = tx_expr_list(m1, var, ign, *args);
            (
                m2,
                Expr {
                    kind: ExprKind::Call { callee: Box::new(c1), args: Box::new(a1) },
                    ..e
                },
            )
        },
        ExprKind::Assign { target, value } => {
            let (m1, t1) = tx_expr(m, var, ign, *target);
            let (m2, v1) = tx_expr(m1, var, ign, *value);
            (
                m2,
                Expr { kind: ExprKind::Assign { target: Box::new(t1), value: Box::new(v1) }, ..e },
            )
        },
        ExprKind::Object(props) => {
            let (m1, p1) = tx_props(m, var, ign, *props);
            (m1, Expr { kind: ExprKind::Object(Box::new(p1)), ..e })
        },
        ExprKind::Array(items) => {
            let (m1, i1) = tx_expr_list(m, var, ign, *items);
            (m1, Expr { kind: ExprKind::Array(Box::new(i1)), ..e })
        },
        ExprKind::Cond { test, cons, alt } => {
            if e.span is Some {
                let bid = m.branches.len() as int;
                let m1 = m.add_branch(BranchKind::CondExpr, e.span->0);
                let (m2, t1) = tx_expr(m1, var, ign, *test);
                let (m3, c1) = cond_arm(m2, var, ign, bid, *cons);
                let (m4, a1) = cond_arm(m3, var, ign, bid, *alt);
                (
                    m4,
                    Expr {
                        kind: ExprKind::Cond {
                            test: Box::new(t1),
                            cons: Box::new(c1),
                            alt: Box::new(a1),
                        },
                        ..e
                    },
                )
            } else {
                let (m1, t1) = tx_expr(m, var, ign, *test);
                let (m2, c1) = tx_expr(m1, var, ign, *cons);
                let (m3, a1) = tx_expr(m2, var, ign, *alt);
                (
                    m3,
                    Expr {
                        kind: ExprKind::Cond {
                            test: Box::new(t1),
                            cons: Box::new(c1),
                            alt: Box::new(a1),
                        },
                        ..e
                    },
                )
            }
        },
        ExprKind::Arrow { .. } => tx_arrow(m, var, ign, e),
        ExprKind::FnExpr { name, params, body_span, body } => {
            if e.span is Some && body_span is Some {
                let fid = m.functions.len() as int;
                let m1 = m.add_function(name, e.span->0, body_span->0);
                let (m2, params1) = tx_params(m1, var, ign, *params);
                let (m3, body1) = tx_stmt_list(m2, var, ign, *body);
                let fc = counter_stmt(var, f_text(), fid as u64, None);
                (
                    m3,
                    Expr {
                        kind: ExprKind::FnExpr {
                            name,
                            params: Box::new(params1),
                            body_span,
                            body: Box::new(List::Cons(fc, Box::new(body1))),
                        },
                        ..e
                    },
                )
            } else {
                let (m1, params1) = tx_params(m, var, ign, *params);
                let (m2, body1) = tx_stmt_list(m1, var, ign, *body);
                (
                    m2,
                    Expr {
                        kind: ExprKind::FnExpr {
                            name,
                            params: Box::new(params1),
                            body_span,
                            body: Box::new(body1),
                        },
                        ..e
                    },
                )
            }
        },
        _ => (m, e),
    }
}

/// One arm of a conditional expression: next path, wrapped; an arm without a
/// range only descends.
#[verifier::opaque]
pub open spec fn cond_arm(m: CoverageModel, var: Text, ign: List<Text>, bid: int, arm: Expr) -> (CoverageModel, Expr)
    decreases arm, 4int,
{
    if arm.span is Some {
        let idx = m.branches[bid].locations.len() as int;
        let m1 = m.add_branch_path(bid, arm.span->0);
        let (m2, a1) = tx_expr(m1, var, ign, arm);
        (m2, branch_wrap(var, bid, idx, a1))
    } else {
        tx_expr(m, var, ign, arm)
    }
}

/// The arrow rule: allocate a function id from the arrow and body ranges;
/// a block body keeps its statements behind the `f` counter, a bare
/// expression body is promoted to `{ f-counter; s-counter; return expr; }`
/// with the return keeping the expression's range.
#[verifier::opaque]
pub open spec fn tx_arrow(m: CoverageModel, var: Text, ign: List<Text>, e: Expr) -> (CoverageModel, Expr)
    decreases e, 1int,
{
    let span = e.span;
    let leading = e.leading;
    match e.kind {
        ExprKind::Arrow { params, body: ArrowBody::Block { span: bspan, stmts } } => {
            if span is Some && bspan is Some {
                let fid = m.functions.len() as int;
                let m1 = m.add_function(None, span->0, bspan->0);
                let (m2, params1) = tx_params(m1, var, ign, *params);
                let (m3, l1) = tx_stmt_list(m2, var, ign, *stmts);
                let fc = counter_stmt(var, f_text(), fid as u64, None);
                (
                    m3,
                    Expr {
                        span,
                        leading,
                        kind: ExprKind::Arrow {
                            params: Box::new(params1),
                            body: ArrowBody::Block {
                                span: bspan,
                                stmts: Box::new(List::Cons(fc, Box::new(l1))),
                            },
                        },
                    },
                )
            } else {
                let (m1, params1) = tx_params(m, var, ign, *params);
                let (m2, l1) = tx_stmt_list(m1, var, ign, *stmts);
                (
                    m2,
                    Expr {
                        span,
                        leading,
                        kind: ExprKind::Arrow {
                            params: Box::new(params1),
                            body: ArrowBody::Block { span: bspan, stmts: Box::new(l1) },
                        },
                    },
                )
            }
        },
        ExprKind::Arrow { params, body: ArrowBody::Expr(be) } => {
            if span is Some && be.span is Some {
                let fid = m.functions.len() as int;
                let m1 = m.add_function(None, span->0, be.span->0);
                let (m2, params1) = tx_params(m1, var, ign, *params);
                let sid = m2.statements.len() as int;
                let m3 = m2.add_statement(be.span->0);
                let (m4, be1) = tx_expr(m3, var, ign, *be);
                let fc = counter_stmt(var, f_text(), fid as u64, None);
                let sc = counter_stmt(var, s_text(), sid as u64, None);
                let ret = Stmt {
                    span: be1.span,
                    leading: List::Nil,
                    kind: StmtKind::Return(Some(be1)),
                };
                let stmts = List::Cons(
                    fc,
                    Box::new(List::Cons(sc, Box::new(List::Cons(ret, Box::new(List::Nil))))),
                );
                (
                    m4,
                    Expr {
                        span,
                        leading,
                        kind: ExprKind::Arrow {
                            params: Box::new(params1),
                            body: ArrowBody::Block { span: None, stmts: Box::new(stmts) },
                        },
                    },
                )
            } else {
                let (m1, params1) = tx_params(m, var, ign, *params);
                let (m2, be1) = tx_expr(m1, var, ign, *be);
                (
                    m2,
                    Expr {
                        span,
                        leading,
                        kind: ExprKind::Arrow {
                            params: Box::new(params1),
                            body: ArrowBody::Expr(Box::new(be1)),
                        },
                    },
                )
            }
        },
        _ => (m, e),
    }
}

/// Decides `counted_kind` executably.
fn counted_kind_exec(k: &StmtKind) -> (r: bool)
    ensures
        r == counted_kind(*k),
{
    match k {
        StmtKind::VarDecl { .. } => false,
        StmtKind::FnDecl { .. } => false,
        StmtKind::ClassDecl { .. } => false,
        StmtKind::Block(..) => false,
        StmtKind::Empty => false,
        _ => true,
    }
}

fn is_logical_exec(op: BinOp) -> (r: bool)
    ensures
        r == is_logical(op),
{
    match op {
        BinOp::Or => true,
        BinOp::And => true,
        BinOp::Coalesce => true,
        _ => false,
    }
}

/// Builds `(F().b[bid][idx]++, inner)`.
fn mk_branch_wrap(var: &Text, bid: u64, idx: u64, inner: Expr) -> (e: Expr)
    ensures
        e == branch_wrap(*var, bid as int, idx as int, inner),
{
    mk_synth_expr(
        ExprKind::Paren(
            Box::new(
                mk_synth_expr(
                    ExprKind::Comma(
                        Box::new(mk_counter_expr(var, mk_b_text(), bid, Some(idx))),
                        Box::new(inner),
                    ),
                ),
            ),
        ),
    )
}

/// Builds `(F().s[id]++, inner)`.
fn mk_stmt_wrap(var: &Text, id: u64, inner: Expr) -> (e: Expr)
    ensures
        e == stmt_wrap(*var, id as int, inner),
{
    mk_synth_expr(
        ExprKind::Paren(
            Box::new(
                mk_synth_expr(
                    ExprKind::Comma(
                        Box::new(mk_counter_expr(var, mk_s_text(), id, None)),
                        Box::new(inner),
                    ),
                ),
            ),
        ),
    )
}

/// Runs the statement-list rule; returns exactly what `tx_stmt_list` states.
#[verifier::rlimit(100)]
#[verifier::spinoff_prover]
pub fn stmts_pass(cov: &mut CoverageMap, var: &Text, ign: &List<Text>, l: List<Stmt>) -> (r: List<Stmt>)
    requires
        !old(cov)@.frozen,
    ensures
        final(cov)@ == tx_stmt_list(old(cov)@, *var, *ign, l).0,
        r == tx_stmt_list(old(cov)@, *var, *ign, l).1,
        final(cov)@.frozen == old(cov)@.frozen,
        final(cov)@.branches.len() >= old(cov)@.branches.len(),
    decreases l, 0int,
{
    proof { reveal_with_fuel(tx_stmt_list, 1); }
    match l {
        List::Nil => List::Nil,
        List::Cons(s, rest) => {
            let (before, s1) = stmt_pass(cov, var, ign, s);
            let rest1 = stmts_pass(cov, var, ign, *rest);
            append(before, List::Cons(s1, Box::new(rest1)))
        },
    }
}

/// Runs the per-statement rule; returns exactly what `tx_stmt` states.
#[verifier::rlimit(100)]
#[verifier::spinoff_prover]
pub fn stmt_pass(cov: &mut CoverageMap, var: &Text, ign: &List<Text>, s: Stmt) -> (r: (List<Stmt>, Stmt))
    requires
        !old(cov)@.frozen,
    ensures
        final(cov)@ == tx_stmt(old(cov)@, *var, *ign, s).0,
        r.0 == tx_stmt(old(cov)@, *var, *ign, s).1,
        r.1 == tx_stmt(old(cov)@, *var, *ign, s).2,
        final(cov)@.frozen == old(cov)@.frozen,
        final(cov)@.branches.len() >= old(cov)@.branches.len(),
    decreases s, 1int,
{
    proof { reveal_with_fuel(tx_stmt, 1); }
    if is_counter_stmt_exec(var, &s) {
        return (List::Nil, s);
    }
    let hint = should_ignore(&s.leading);
    if matches!(hint, Some(IgnoreScope::Next)) {
        return (List::Nil, s);
    }
    let counted = counted_kind_exec(&s.kind);
    if counted && s.span.is_some() {
        let r = s.span.unwrap();
        let id = cov.new_statement(r);
        let before = List::Cons(
            mk_counter_stmt(var, mk_s_text(), id as u64, None),
            Box::new(List::Nil),
        );
        let s2 = counted_pass(cov, var, ign, s);
        (before, s2)
    } else {
        let s1 = counted_pass(cov, var, ign, s);
        (List::Nil, s1)
    }
}

/// Runs the per-kind statement rule; returns exactly what `tx_counted` states.
#[verifier::rlimit(100)]
#[verifier::spinoff_prover]
pub fn counted_pass(cov: &mut CoverageMap, var: &Text, ign: &List<Text>, s: Stmt) -> (r: Stmt)
    requires
        !old(cov)@.frozen,
    ensures
        final(cov)@ == tx_counted(old(cov)@, *var, *ign, s).0,
        r == tx_counted(old(cov)@, *var, *ign, s).1,
        final(cov)@.frozen == old(cov)@.frozen,
        final(cov)@.branches.len() >= old(cov)@.branches.len(),
    decreases s, 0int,
{
    proof { reveal_with_fuel(tx_counted, 1); }
    let ghost s0 = s;
    let hint = should_ignore(&s.leading);
    let Stmt { span, leading, kind } = s;
    match kind {
        StmtKind::Expr(e) => {
            let e1 = expr_pass(cov, var, ign, e);
            Stmt { span, leading, kind: StmtKind::Expr(e1) }
        },
        StmtKind::Return(arg) => match arg {
            Some(e) => {
                let e1 = expr_pass(cov, var, ign, e);
                Stmt { span, leading, kind: StmtKind::Return(Some(e1)) }
            },
            None => Stmt { span, leading, kind: StmtKind::Return(None) },
        },
        StmtKind::Throw(e) => {
            let e1 = expr_pass(cov, var, ign, e);
            Stmt { span, leading, kind: StmtKind::Throw(e1) }
        },
        StmtKind::VarDecl { kind: dk, decls } => {
            let d1 = decls_pass(cov, var, ign, decls);
            Stmt { span, leading, kind: StmtKind::VarDecl { kind: dk, decls: d1 } }
        },
        StmtKind::Block(stmts) => {
            let l1 = stmts_pass(cov, var, ign, *stmts);
            Stmt { span, leading, kind: StmtKind::Block(Box::new(l1)) }
        },
        StmtKind::FnDecl { name, params, body_span, body } => {
            if span.is_some() && body_span.is_some() {
                let fid = cov.new_function(Some(text_clone(&name)), span.unwrap(), body_span.unwrap());
                let params1 = params_pass(cov, var, ign, params);
                let body1 = stmts_pass(cov, var, ign, *body);
                let fc = mk_counter_stmt(var, mk_f_text(), fid as u64, None);
                Stmt {
                    span,
                    leading,
                    kind: StmtKind::FnDecl {
                        name,
                        params: params1,
                        body_span,
                        body: Box::new(List::Cons(fc, Box::new(body1))),
                    },
                }
            } else {
                let params1 = params_pass(cov, var, ign, params);
                let body1 = stmts_pass(cov, var, ign, *body);
                Stmt {
                    span,
                    leading,
                    kind: StmtKind::FnDecl { name, params: params1, body_span, body: Box::new(body1) },
                }
            }
        },
        StmtKind::If { test, cons, alt } => {
            if span.is_some() {
                let r = span.unwrap();
                let bid = cov.new_branch(BranchKind::If, r);
                let cons1 = if matches!(hint, Some(IgnoreScope::If)) {
                    *cons
                } else {
                    arm_pass(cov, var, ign, bid, r, *cons)
                };
                let alt1 = if matches!(hint, Some(IgnoreScope::Else)) {
                    alt
                } else {
                    match alt {
                        Some(a) => {
                            let a1 = arm_pass(cov, var, ign, bid, r, *a);
                            Some(Box::new(a1))
                        },
                        None => {
                            let idx = cov.add_branch_path(bid, r);
                            let bc = mk_counter_stmt(var, mk_b_text(), bid as u64, Some(idx as u64));
                            let blk = mk_synth_stmt(
                                StmtKind::Block(Box::new(List::Cons(bc, Box::new(List::Nil)))),
                            );
                            Some(Box::new(blk))
                        },
                    }
                };
                let test1 = expr_pass(cov, var, ign, test);
                Stmt { span, leading, kind: StmtKind::If { test: test1, cons: Box::new(cons1), alt: alt1 } }
            } else {
                let cons1 = counted_pass(cov, var, ign, *cons);
                let alt1 = match alt {
                    Some(a) => Some(Box::new(counted_pass(cov, var, ign, *a))),
                    None => None,
                };
                let test1 = expr_pass(cov, var, ign, test);
                Stmt { span, leading, kind: StmtKind::If { test: test1, cons: Box::new(cons1), alt: alt1 } }
            }
        },
        StmtKind::While { test, body } => {
            let test1 = expr_pass(cov, var, ign, test);
            let body1 = loop_body_pass(cov, var, ign, *body);
            Stmt { span, leading, kind: StmtKind::While { test: test1, body: Box::new(body1) } }
        },
        StmtKind::DoWhile { test, body } => {
            let body1 = loop_body_pass(cov, var, ign, *body);
            let test1 = expr_pass(cov, var, ign, test);
            Stmt { span, leading, kind: StmtKind::DoWhile { test: test1, body: Box::new(body1) } }
        },
        StmtKind::For { init, test, update, body } => {
            let init1 = match init {
                Some(i) => {
                    let i1 = for_init_pass(cov, var, ign, *i);
                    Some(Box::new(i1))
                },
                None => None,
            };
            let test1 = opt_expr_pass(cov, var, ign, test);
            let update1 = opt_expr_pass(cov, var, ign, update);
            let body1 = loop_body_pass(cov, var, ign, *body);
            Stmt {
                span,
                leading,
                kind: StmtKind::For {
                    init: init1,
                    test: test1,
                    update: update1,
                    body: Box::new(body1),
                },
            }
        },
        StmtKind::Switch { disc, cases } => {
            let disc1 = expr_pass(cov, var, ign, disc);
            if span.is_some() {
                let bid = cov.new_branch(BranchKind::Switch, span.unwrap());
                let cases1 = cases_pass(cov, var, ign, bid, cases);
                Stmt { span, leading, kind: StmtKind::Switch { disc: disc1, cases: cases1 } }
            } else {
                let cases1 = cases_plain_pass(cov, var, ign, cases);
                Stmt { span, leading, kind: StmtKind::Switch { disc: disc1, cases: cases1 } }
            }
        },
        StmtKind::Labeled { label, body } => {
            let body1 = counted_pass(cov, var, ign, *body);
            Stmt { span, leading, kind: StmtKind::Labeled { label, body: Box::new(body1) } }
        },
        StmtKind::ClassDecl { name, members } => {
            let members1 = members_pass(cov, var, ign, members);
            Stmt { span, leading, kind: StmtKind::ClassDecl { name, members: members1 } }
        },
        StmtKind::Try { block, param, handler, finalizer } => {
            let block1 = stmts_pass(cov, var, ign, *block);
            let handler1 = match handler {
                Some(h) => Some(Box::new(stmts_pass(cov, var, ign, *h))),
                None => None,
            };
            let finalizer1 = match finalizer {
                Some(f) => Some(Box::new(stmts_pass(cov, var, ign, *f))),
                None => None,
            };
            Stmt {
                span,
                leading,
                kind: StmtKind::Try {
                    block: Box::new(block1),
                    param,
                    handler: handler1,
                    finalizer: finalizer1,
                },
            }
        },
        StmtKind::With { obj, body } => {
            let obj1 = expr_pass(cov, var, ign, obj);
            let body1 = loop_body_pass(cov, var, ign, *body);
            Stmt { span, leading, kind: StmtKind::With { obj: obj1, body: Box::new(body1) } }
        },
        k => {
            let out = Stmt { span, leading, kind: k };
            assert(out == s0);
            out
        },
    }
}

/// Runs the `if`-arm rule; returns exactly what `tx_arm` states.
#[verifier::rlimit(100)]
#[verifier::spinoff_prover]
pub fn arm_pass(cov: &mut CoverageMap, var: &Text, ign: &List<Text>, bid: usize, r: SourceRange, arm: Stmt) -> (out:
    Stmt)
    requires
        !old(cov)@.frozen,
        bid < old(cov)@.branches.len(),
    ensures
        final(cov)@ == tx_arm(old(cov)@, *var, *ign, bid as int, r, arm).0,
        out == tx_arm(old(cov)@, *var, *ign, bid as int, r, arm).1,
        final(cov)@.frozen == old(cov)@.frozen,
        final(cov)@.branches.len() >= old(cov)@.branches.len(),
    decreases arm, 2int,
{
    proof { reveal_with_fuel(tx_arm, 1); }
    let idx = cov.add_branch_path(bid, r);
    let bc = mk_counter_stmt(var, mk_b_text(), bid as u64, Some(idx as u64));
    let ghost arm0 = arm;
    let Stmt { span, leading, kind } = arm;
    match kind {
        StmtKind::Block(stmts) => {
            let l1 = stmts_pass(cov, var, ign, *stmts);
            Stmt { span, leading, kind: StmtKind::Block(Box::new(List::Cons(bc, Box::new(l1)))) }
        },
        k => {
            let whole = Stmt { span, leading, kind: k };
            assert(whole == arm0);
            let (before, a1) = stmt_pass(cov, var, ign, whole);
            let body = List::Cons(
                bc,
                Box::new(append(before, List::Cons(a1, Box::new(List::Nil)))),
            );
            mk_synth_stmt(StmtKind::Block(Box::new(body)))
        },
    }
}

/// Runs the loop-body rule; returns exactly what `tx_loop_body` states.
#[verifier::rlimit(100)]
#[verifier::spinoff_prover]
pub fn loop_body_pass(cov: &mut CoverageMap, var: &Text, ign: &List<Text>, body: Stmt) -> (out: Stmt)
    requires
        !old(cov)@.frozen,
    ensures
        final(cov)@ == tx_loop_body(old(cov)@, *var, *ign, body).0,
        out == tx_loop_body(old(cov)@, *var, *ign, body).1,
        final(cov)@.frozen == old(cov)@.frozen,
        final(cov)@.branches.len() >= old(cov)@.branches.len(),
    decreases body, 2int,
{
    proof { reveal_with_fuel(tx_loop_body, 1); }
    let ghost b0 = body;
    let Stmt { span, leading, kind } = body;
    match kind {
        StmtKind::Block(stmts) => {
            let l1 = stmts_pass(cov, var, ign, *stmts);
            Stmt { span, leading, kind: StmtKind::Block(Box::new(l1)) }
        },
        k => {
            let whole = Stmt { span, leading, kind: k };
            assert(whole == b0);
            let (before, b1) = stmt_pass(cov, var, ign, whole);
            mk_synth_stmt(
                StmtKind::Block(Box::new(append(before, List::Cons(b1, Box::new(List::Nil))))),
            )
        },
    }
}

/// Runs the `for`-initializer rule; returns exactly what `tx_for_init` states.
#[verifier::rlimit(100)]
#[verifier::spinoff_prover]
pub fn for_init_pass(cov: &mut CoverageMap, var: &Text, ign: &List<Text>, s: Stmt) -> (out: Stmt)
    requires
        !old(cov)@.frozen,
    ensures
        final(cov)@ == tx_for_init(old(cov)@, *var, *ign, s).0,
        out == tx_for_init(old(cov)@, *var, *ign, s).1,
        final(cov)@.frozen == old(cov)@.frozen,
        final(cov)@.branches.len() >= old(cov)@.branches.len(),
    decreases s, 0int,
{
    proof { reveal_with_fuel(tx_for_init, 1); }
    let ghost s0 = s;
    let Stmt { span, leading, kind } = s;
    match kind {
        StmtKind::VarDecl { kind: dk, decls } => {
            let d1 = decls_pass(cov, var, ign, decls);
            Stmt { span, leading, kind: StmtKind::VarDecl { kind: dk, decls: d1 } }
        },
        StmtKind::Expr(e) => {
            let e1 = expr_pass(cov, var, ign, e);
            Stmt { span, leading, kind: StmtKind::Expr(e1) }
        },
        k => {
            let out = Stmt { span, leading, kind: k };
            assert(out == s0);
            out
        },
    }
}

/// Runs the declarator rule; returns exactly what `tx_decls` states.
#[verifier::rlimit(100)]
#[verifier::spinoff_prover]
pub fn decls_pass(cov: &mut CoverageMap, var: &Text, ign: &List<Text>, l: List<Declarator>) -> (out: List<Declarator>)
    requires
        !old(cov)@.frozen,
    ensures
        final(cov)@ == tx_decls(old(cov)@, *var, *ign, l).0,
        out == tx_decls(old(cov)@, *var, *ign, l).1,
        final(cov)@.frozen == old(cov)@.frozen,
        final(cov)@.branches.len() >= old(cov)@.branches.len(),
    decreases l, 0int,
{
    proof { reveal_with_fuel(tx_decls, 1); }
    match l {
        List::Nil => List::Nil,
        List::Cons(d, rest) => {
            let Declarator { name, init } = d;
            let d1 = match init {
                Some(e) => {
                    let sp = e.span;
                    let e1 = expr_pass(cov, var, ign, e);
                    if sp.is_some() {
                        let id = cov.new_statement(sp.unwrap());
                        Declarator { name, init: Some(mk_stmt_wrap(var, id as u64, e1)) }
                    } else {
                        Declarator { name, init: Some(e1) }
                    }
                },
                None => Declarator { name, init: None },
            };
            let rest1 = decls_pass(cov, var, ign, *rest);
            List::Cons(d1, Box::new(rest1))
        },
    }
}

/// Runs the parameter-default rule; returns exactly what `tx_params` states.
#[verifier::rlimit(100)]
#[verifier::spinoff_prover]
pub fn params_pass(cov: &mut CoverageMap, var: &Text, ign: &List<Text>, l: List<Param>) -> (out: List<Param>)
    requires
        !old(cov)@.frozen,
    ensures
        final(cov)@ == tx_params(old(cov)@, *var, *ign, l).0,
        out == tx_params(old(cov)@, *var, *ign, l).1,
        final(cov)@.frozen == old(cov)@.frozen,
        final(cov)@.branches.len() >= old(cov)@.branches.len(),
    decreases l, 0int,
{
    proof { reveal_with_fuel(tx_params, 1); }
    match l {
        List::Nil => List::Nil,
        List::Cons(p, rest) => {
            let Param { span, name, default } = p;
            let p1 = match default {
                Some(d) => {
                    if d.span.is_some() {
                        let dr = d.span.unwrap();
                        let bid = cov.new_branch(BranchKind::DefaultArg, dr);
                        let idx = cov.add_branch_path(bid, dr);
                        let d1 = expr_pass(cov, var, ign, d);
                        Param {
                            span,
                            name,
                            default: Some(mk_branch_wrap(var, bid as u64, idx as u64, d1)),
                        }
                    } else {
                        let d1 = expr_pass(cov, var, ign, d);
                        Param { span, name, default: Some(d1) }
                    }
                },
                None => Param { span, name, default: None },
            };
            let rest1 = params_pass(cov, var, ign, *rest);
            List::Cons(p1, Box::new(rest1))
        },
    }
}

/// Runs the switch-case rule; returns exactly what `tx_cases` states.
#[verifier::rlimit(100)]
#[verifier::spinoff_prover]
pub fn cases_pass(cov: &mut CoverageMap, var: &Text, ign: &List<Text>, bid: usize, l: List<SwitchCase>) -> (out: List<
    SwitchCase,
>)
    requires
        !old(cov)@.frozen,
        bid < old(cov)@.branches.len(),
    ensures
        final(cov)@ == tx_cases(old(cov)@, *var, *ign, bid as int, l).0,
        out == tx_cases(old(cov)@, *var, *ign, bid as int, l).1,
        final(cov)@.frozen == old(cov)@.frozen,
        final(cov)@.branches.len() >= old(cov)@.branches.len(),
    decreases l, 0int,
{
    proof { reveal_with_fuel(tx_cases, 1); }
    match l {
        List::Nil => List::Nil,
        List::Cons(c, rest) => {
            let SwitchCase { span, test, body } = c;
            let t1 = opt_expr_pass(cov, var, ign, test);
            let body1 = stmts_pass(cov, var, ign, *body);
            let c1 = if span.is_some() {
                let idx = cov.add_branch_path(bid, span.unwrap());
                let bc = mk_counter_stmt(var, mk_b_text(), bid as u64, Some(idx as u64));
                SwitchCase { span, test: t1, body: Box::new(List::Cons(bc, Box::new(body1))) }
            } else {
                SwitchCase { span, test: t1, body: Box::new(body1) }
            };
            let rest1 = cases_pass(cov, var, ign, bid, *rest);
            List::Cons(c1, Box::new(rest1))
        },
    }
}

/// Case descent when the `switch` has no range.
#[verifier::rlimit(100)]
#[verifier::spinoff_prover]
pub fn cases_plain_pass(cov: &mut CoverageMap, var: &Text, ign: &List<Text>, l: List<SwitchCase>) -> (out: List<
    SwitchCase,
>)
    requires
        !old(cov)@.frozen,
    ensures
        final(cov)@ == tx_cases_plain(old(cov)@, *var, *ign, l).0,
        out == tx_cases_plain(old(cov)@, *var, *ign, l).1,
        final(cov)@.frozen == old(cov)@.frozen,
        final(cov)@.branches.len() >= old(cov)@.branches.len(),
    decreases l, 0int,
{
    proof { reveal_with_fuel(tx_cases_plain, 1); }
    match l {
        List::Nil => List::Nil,
        List::Cons(c, rest) => {
            let SwitchCase { span, test, body } = c;
            let t1 = opt_expr_pass(cov, var, ign, test);
            let body1 = stmts_pass(cov, var, ign, *body);
            let rest1 = cases_plain_pass(cov, var, ign, *rest);
            List::Cons(
                SwitchCase { span, test: t1, body: Box::new(body1) },
                Box::new(rest1),
            )
        },
    }
}

/// An optional expression, descended in place.
#[verifier::rlimit(100)]
#[verifier::spinoff_prover]
pub fn opt_expr_pass(cov: &mut CoverageMap, var: &Text, ign: &List<Text>, e: Option<Expr>) -> (out: Option<Expr>)
    requires
        !old(cov)@.frozen,
    ensures
        final(cov)@ == tx_opt_expr(old(cov)@, *var, *ign, e).0,
        out == tx_opt_expr(old(cov)@, *var, *ign, e).1,
        final(cov)@.frozen == old(cov)@.frozen,
        final(cov)@.branches.len() >= old(cov)@.branches.len(),
    decreases e, 1int,
{
    proof { reveal_with_fuel(tx_opt_expr, 1); }
    match e {
        Some(e0) => {
            let e1 = expr_pass(cov, var, ign, e0);
            Some(e1)
        },
        None => None,
    }
}

/// A list of expressions, descended element by element.
#[verifier::rlimit(100)]
#[verifier::spinoff_prover]
pub fn expr_list_pass(cov: &mut CoverageMap, var: &Text, ign: &List<Text>, l: List<Expr>) -> (out: List<Expr>)
    requires
        !old(cov)@.frozen,
    ensures
        final(cov)@ == tx_expr_list(old(cov)@, *var, *ign, l).0,
        out == tx_expr_list(old(cov)@, *var, *ign, l).1,
        final(cov)@.frozen == old(cov)@.frozen,
        final(cov)@.branches.len() >= old(cov)@.branches.len(),
    decreases l, 0int,
{
    proof { reveal_with_fuel(tx_expr_list, 1); }
    match l {
        List::Nil => List::Nil,
        List::Cons(e, rest) => {
            let e1 = expr_pass(cov, var, ign, e);
            let rest1 = expr_list_pass(cov, var, ign, *rest);
            List::Cons(e1, Box::new(rest1))
        },
    }
}

/// Object properties, values descended in place.
#[verifier::rlimit(100)]
#[verifier::spinoff_prover]
pub fn props_pass(cov: &mut CoverageMap, var: &Text, ign: &List<Text>, l: List<Prop>) -> (out: List<Prop>)
    requires
        !old(cov)@.frozen,
    ensures
        final(cov)@ == tx_props(old(cov)@, *var, *ign, l).0,
        out == tx_props(old(cov)@, *var, *ign, l).1,
        final(cov)@.frozen == old(cov)@.frozen,
        final(cov)@.branches.len() >= old(cov)@.branches.len(),
    decreases l, 0int,
{
    proof { reveal_with_fuel(tx_props, 1); }
    match l {
        List::Nil => List::Nil,
        List::Cons(p, rest) => {
            let Prop { key, value } = p;
            let v1 = expr_pass(cov, var, ign, value);
            let rest1 = props_pass(cov, var, ign, *rest);
            List::Cons(Prop { key, value: v1 }, Box::new(rest1))
        },
    }
}

/// One logical-chain operand; returns exactly what `wrap_leaf` states.
#[verifier::rlimit(100)]
#[verifier::spinoff_prover]
pub fn wrap_leaf_pass(cov: &mut CoverageMap, var: &Text, ign: &List<Text>, bid: usize, op: BinOp, x: Expr) -> (out:
    Expr)
    requires
        !old(cov)@.frozen,
        bid < old(cov)@.branches.len(),
    ensures
        final(cov)@ == wrap_leaf(old(cov)@, *var, *ign, bid as int, op, x).0,
        out == wrap_leaf(old(cov)@, *var, *ign, bid as int, op, x).1,
        final(cov)@.frozen == old(cov)@.frozen,
        final(cov)@.branches.len() >= old(cov)@.branches.len(),
    decreases x, 1int,
{
    proof { reveal_with_fuel(wrap_leaf, 1); }
    let ghost x0 = x;
    let is_same_op = match &x.kind {
        ExprKind::Bin { op: xop, .. } => {
            let same = *xop == op;
            same
        },
        _ => false,
    };
    if is_same_op {
        let Expr { span, leading, kind } = x;
        match kind {
            ExprKind::Bin { op: xop, left, right } => {
                let l1 = wrap_leaf_pass(cov, var, ign, bid, op, *left);
                let r1 = wrap_leaf_pass(cov, var, ign, bid, op, *right);
                Expr {
                    span,
                    leading,
                    kind: ExprKind::Bin { op, left: Box::new(l1), right: Box::new(r1) },
                }
            },
            k => {
                let out = Expr { span, leading, kind: k };
                assert(false);
                out
            },
        }
    } else {
        leaf_wrap_pass(cov, var, ign, bid, x)
    }
}

/// Wraps a single leaf; returns exactly what `leaf_wrap` states.
#[verifier::rlimit(100)]
#[verifier::spinoff_prover]
fn leaf_wrap_pass(cov: &mut CoverageMap, var: &Text, ign: &List<Text>, bid: usize, x: Expr) -> (out: Expr)
    requires
        !old(cov)@.frozen,
        bid < old(cov)@.branches.len(),
    ensures
        final(cov)@ == leaf_wrap(old(cov)@, *var, *ign, bid as int, x).0,
        out == leaf_wrap(old(cov)@, *var, *ign, bid as int, x).1,
        final(cov)@.frozen == old(cov)@.frozen,
        final(cov)@.branches.len() >= old(cov)@.branches.len(),
    decreases x, 0int,
{
    proof { reveal_with_fuel(leaf_wrap, 1); }
    if x.span.is_some() {
        let r = x.span.unwrap();
        let idx = cov.add_branch_path(bid, r);
        mk_branch_wrap(var, bid as u64, idx as u64, x)
    } else {
        x
    }
}

/// Runs the expression rule; returns exactly what `tx_expr` states.
#[verifier::rlimit(100)]
#[verifier::spinoff_prover]
pub fn expr_pass(cov: &mut CoverageMap, var: &Text, ign: &List<Text>, e: Expr) -> (out: Expr)
    requires
        !old(cov)@.frozen,
    ensures
        final(cov)@ == tx_expr(old(cov)@, *var, *ign, e).0,
        out == tx_expr(old(cov)@, *var, *ign, e).1,
        final(cov)@.frozen == old(cov)@.frozen,
        final(cov)@.branches.len() >= old(cov)@.branches.len(),
    decreases e, 3int,
{
    proof { reveal_with_fuel(tx_expr, 1); }
    let ghost e0 = e;
    if is_counter_expr_exec(var, &e) {
        return e;
    }
    let ignored = matches!(should_ignore(&e.leading), Some(IgnoreScope::Next));
    let is_bin = matches!(&e.kind, ExprKind::Bin { .. });
    if is_bin {
        let Expr { span, leading, kind } = e;
        match kind {
            ExprKind::Bin { op, left, right } => {
                if is_logical_exec(op) && !ignored && span.is_some() {
                    let bid = cov.new_branch(BranchKind::BinaryExpr, span.unwrap());
                    let l1 = wrap_leaf_pass(cov, var, ign, bid, op, *left);
                    let r1 = wrap_leaf_pass(cov, var, ign, bid, op, *right);
                    Expr {
                        span,
                        leading,
                        kind: ExprKind::Bin { op, left: Box::new(l1), right: Box::new(r1) },
                    }
                } else {
                    let l1 = expr_pass(cov, var, ign, *left);
                    let r1 = expr_pass(cov, var, ign, *right);
                    Expr {
                        span,
                        leading,
                        kind: ExprKind::Bin { op, left: Box::new(l1), right: Box::new(r1) },
                    }
                }
            },
            k => {
                let out = Expr { span, leading, kind: k };
                assert(false);
                out
            },
        }
    } else if ignored {
        e
    } else {
        expr_kinds_pass(cov, var, ign, e)
    }
}

/// Runs the remaining expression rules; returns exactly what
/// `tx_expr_kinds` states.
#[verifier::rlimit(100)]
#[verifier::spinoff_prover]
pub fn expr_kinds_pass(cov: &mut CoverageMap, var: &Text, ign: &List<Text>, e: Expr) -> (out: Expr)
    requires
        !old(cov)@.frozen,
    ensures
        final(cov)@ == tx_expr_kinds(old(cov)@, *var, *ign, e).0,
        out == tx_expr_kinds(old(cov)@, *var, *ign, e).1,
        final(cov)@.frozen == old(cov)@.frozen,
        final(cov)@.branches.len() >= old(cov)@.branches.len(),
    decreases e, 2int,
{
    proof { reveal_with_fuel(tx_expr_kinds, 1); }
    let ghost e0 = e;
    let is_arrow = matches!(&e.kind, ExprKind::Arrow { .. });
    if is_arrow {
        return arrow_pass(cov, var, ign, e);
    }
    let Expr { span, leading, kind } = e;
    match kind {
        ExprKind::Not(inner) => {
            let i1 = expr_pass(cov, var, ign, *inner);
            Expr { span, leading, kind: ExprKind::Not(Box::new(i1)) }
        },
        ExprKind::Paren(inner) => {
            let i1 = expr_pass(cov, var, ign, *inner);
            Expr { span, leading, kind: ExprKind::Paren(Box::new(i1)) }
        },
        ExprKind::Update(inner) => {
            let i1 = expr_pass(cov, var, ign, *inner);
            Expr { span, leading, kind: ExprKind::Update(Box::new(i1)) }
        },
        ExprKind::Comma(a, b) => {
            let a1 = expr_pass(cov, var, ign, *a);
            let b1 = expr_pass(cov, var, ign, *b);
            Expr { span, leading, kind: ExprKind::Comma(Box::new(a1), Box::new(b1)) }
        },
        ExprKind::Member { obj, prop } => {
            let o1 = expr_pass(cov, var, ign, *obj);
            Expr { span, leading, kind: ExprKind::Member { obj: Box::new(o1), prop } }
        },
        ExprKind::Index { obj, index } => {
            let o1 = expr_pass(cov, var, ign, *obj);
            let i1 = expr_pass(cov, var, ign, *index);
            Expr { span, leading, kind: ExprKind::Index { obj: Box::new(o1), index: Box::new(i1) } }
        },
        ExprKind::Call { callee, args } => {
            let c1 = expr_pass(cov, var, ign, *callee);
            let a1 = expr_list_pass(cov, var, ign, *args);
            Expr { span, leading, kind: ExprKind::Call { callee: Box::new(c1), args: Box::new(a1) } }
        },
        ExprKind::Assign { target, value } => {
            let t1 = expr_pass(cov, var, ign, *target);
            let v1 = expr_pass(cov, var, ign, *value);
            Expr {
                span,
                leading,
                kind: ExprKind::Assign { target: Box::new(t1), value: Box::new(v1) },
            }
        },
        ExprKind::Object(props) => {
            let p1 = props_pass(cov, var, ign, *props);
            Expr { span, leading, kind: ExprKind::Object(Box::new(p1)) }
        },
        ExprKind::Array(items) => {
            let i1 = expr_list_pass(cov, var, ign, *items);
            Expr { span, leading, kind: ExprKind::Array(Box::new(i1)) }
        },
        ExprKind::Cond { test, cons, alt } => {
            if span.is_some() {
                let bid = cov.new_branch(BranchKind::CondExpr, span.unwrap());
                let t1 = expr_pass(cov, var, ign, *test);
                let c1 = cond_arm_pass(cov, var, ign, bid, *cons);
                let a1 = cond_arm_pass(cov, var, ign, bid, *alt);
                Expr {
                    span,
                    leading,
                    kind: ExprKind::Cond {
                        test: Box::new(t1),
                        cons: Box::new(c1),
                        alt: Box::new(a1),
                    },
                }
            } else {
                let t1 = expr_pass(cov, var, ign, *test);
                let c1 = expr_pass(cov, var, ign, *cons);
                let a1 = expr_pass(cov, var, ign, *alt);
                Expr {
                    span,
                    leading,
                    kind: ExprKind::Cond {
                        test: Box::new(t1),
                        cons: Box::new(c1),
                        alt: Box::new(a1),
                    },
                }
            }
        },
        ExprKind::FnExpr { name, params, body_span, body } => {
            if span.is_some() && body_span.is_some() {
                let name_copy = match &name {
                    Some(n) => Some(text_clone(n)),
                    None => None,
                };
                let fid = cov.new_function(name_copy, span.unwrap(), body_span.unwrap());
                let params1 = params_pass(cov, var, ign, *params);
                let body1 = stmts_pass(cov, var, ign, *body);
                let fc = mk_counter_stmt(var, mk_f_text(), fid as u64, None);
                Expr {
                    span,
                    leading,
                    kind: ExprKind::FnExpr {
                        name,
                        params: Box::new(params1),
                        body_span,
                        body: Box::new(List::Cons(fc, Box::new(body1))),
                    },
                }
            } else {
                let params1 = params_pass(cov, var, ign, *params);
                let body1 = stmts_pass(cov, var, ign, *body);
                Expr {
                    span,
                    leading,
                    kind: ExprKind::FnExpr {
                        name,
                        params: Box::new(params1),
                        body_span,
                        body: Box::new(body1),
                    },
                }
            }
        },
        k => {
            let out = Expr { span, leading, kind: k };
            assert(out == e0);
            out
        },
    }
}

/// One conditional arm; returns exactly what `cond_arm` states.
#[verifier::rlimit(100)]
#[verifier::spinoff_prover]
pub fn cond_arm_pass(cov: &mut CoverageMap, var: &Text, ign: &List<Text>, bid: usize, arm: Expr) -> (out: Expr)
    requires
        !old(cov)@.frozen,
        bid < old(cov)@.branches.len(),
    ensures
        final(cov)@ == cond_arm(old(cov)@, *var, *ign, bid as int, arm).0,
        out == cond_arm(old(cov)@, *var, *ign, bid as int, arm).1,
        final(cov)@.frozen == old(cov)@.frozen,
        final(cov)@.branches.len() >= old(cov)@.branches.len(),
    decreases arm, 4int,
{
    proof { reveal_with_fuel(cond_arm, 1); }
    if arm.span.is_some() {
        let r = arm.span.unwrap();
        let idx = cov.add_branch_path(bid, r);
        let a1 = expr_pass(cov, var, ign, arm);
        mk_branch_wrap(var, bid as u64, idx as u64, a1)
    } else {
        expr_pass(cov, var, ign, arm)
    }
}

/// Runs the arrow rule; returns exactly what `tx_arrow` states.
#[verifier::rlimit(100)]
#[verifier::spinoff_prover]
pub fn arrow_pass(cov: &mut CoverageMap, var: &Text, ign: &List<Text>, e: Expr) -> (out: Expr)
    requires
        !old(cov)@.frozen,
    ensures
        final(cov)@ == tx_arrow(old(cov)@, *var, *ign, e).0,
        out == tx_arrow(old(cov)@, *var, *ign, e).1,
        final(cov)@.frozen == old(cov)@.frozen,
        final(cov)@.branches.len() >= old(cov)@.branches.len(),
    decreases e, 1int,
{
    proof { reveal_with_fuel(tx_arrow, 1); }
    let ghost e0 = e;
    let Expr { span, leading, kind } = e;
    match kind {
        ExprKind::Arrow { params, body: ArrowBody::Block { span: bspan, stmts } } => {
            if span.is_some() && bspan.is_some() {
                let fid = cov.new_function(None, span.unwrap(), bspan.unwrap());
                let params1 = params_pass(cov, var, ign, *params);
                let l1 = stmts_pass(cov, var, ign, *stmts);
                let fc = mk_counter_stmt(var, mk_f_text(), fid as u64, None);
                Expr {
                    span,
                    leading,
                    kind: ExprKind::Arrow {
                        params: Box::new(params1),
                        body: ArrowBody::Block {
                            span: bspan,
                            stmts: Box::new(List::Cons(fc, Box::new(l1))),
                        },
                    },
                }
            } else {
                let params1 = params_pass(cov, var, ign, *params);
                let l1 = stmts_pass(cov, var, ign, *stmts);
                Expr {
                    span,
                    leading,
                    kind: ExprKind::Arrow {
                        params: Box::new(params1),
                        body: ArrowBody::Block { span: bspan, stmts: Box::new(l1) },
                    },
                }
            }
        },
        ExprKind::Arrow { params, body: ArrowBody::Expr(be) } => {
            if span.is_some() && be.span.is_some() {
                let fid = cov.new_function(None, span.unwrap(), be.span.unwrap());
                let params1 = params_pass(cov, var, ign, *params);
                let sid = cov.new_statement(be.span.unwrap());
                let be1 = expr_pass(cov, var, ign, *be);
                let fc = mk_counter_stmt(var, mk_f_text(), fid as u64, None);
                let sc = mk_counter_stmt(var, mk_s_text(), sid as u64, None);
                let ghost be1g = be1;
                let ret_span = be1.span;
                let ret = Stmt { span: ret_span, leading: List::Nil, kind: StmtKind::Return(Some(be1)) };
                let stmts = List::Cons(
                    fc,
                    Box::new(List::Cons(sc, Box::new(List::Cons(ret, Box::new(List::Nil))))),
                );
                Expr {
                    span,
                    leading,
                    kind: ExprKind::Arrow {
                        params: Box::new(params1),
                        body: ArrowBody::Block { span: None, stmts: Box::new(stmts) },
                    },
                }
            } else {
                let params1 = params_pass(cov, var, ign, *params);
                let be1 = expr_pass(cov, var, ign, *be);
                Expr {
                    span,
                    leading,
                    kind: ExprKind::Arrow {
                        params: Box::new(params1),
                        body: ArrowBody::Expr(Box::new(be1)),
                    },
                }
            }
        },
        k => {
            let out = Expr { span, leading, kind: k };
            assert(out == e0);
            out
        },
    }
}

fn member_scope_exec(mb: &ClassMember, ign: &List<Text>) -> (r: Option<IgnoreScope>)
    ensures
        r == member_scope(*mb, *ign),
{
    match should_ignore(&mb.leading) {
        Some(IgnoreScope::Next) => Some(IgnoreScope::Next),
        _ => {
            let is_method = matches!(&mb.kind, MemberKind::Method { .. });
            if is_method && text_in_exec(&mb.name, ign) {
                Some(IgnoreScope::ClassMethod)
            } else {
                None
            }
        },
    }
}

/// Runs the class-member rule on a member list; mirrors `tx_members`.
#[verifier::rlimit(100)]
#[verifier::spinoff_prover]
pub fn members_pass(cov: &mut CoverageMap, var: &Text, ign: &List<Text>, l: List<ClassMember>)
    -> (out: List<ClassMember>)
    requires
        !old(cov)@.frozen,
    ensures
        final(cov)@ == tx_members(old(cov)@, *var, *ign, l).0,
        out == tx_members(old(cov)@, *var, *ign, l).1,
        final(cov)@.frozen == old(cov)@.frozen,
        final(cov)@.branches.len() >= old(cov)@.branches.len(),
    decreases l, 1int,
{
    proof { reveal_with_fuel(tx_members, 1); }
    match l {
        List::Nil => List::Nil,
        List::Cons(mb, rest) => {
            let skip = member_scope_exec(&mb, ign);
            let mb1 = if skip.is_some() {
                mb
            } else {
                member_pass(cov, var, ign, mb)
            };
            let rest1 = members_pass(cov, var, ign, *rest);
            List::Cons(mb1, Box::new(rest1))
        },
    }
}

/// Runs the rule for one class member; mirrors `tx_member`.
#[verifier::rlimit(100)]
#[verifier::spinoff_prover]
pub fn member_pass(cov: &mut CoverageMap, var: &Text, ign: &List<Text>, mb: ClassMember) -> (out:
    ClassMember)
    requires
        !old(cov)@.frozen,
    ensures
        final(cov)@ == tx_member(old(cov)@, *var, *ign, mb).0,
        out == tx_member(old(cov)@, *var, *ign, mb).1,
        final(cov)@.frozen == old(cov)@.frozen,
        final(cov)@.branches.len() >= old(cov)@.branches.len(),
    decreases mb, 0int,
{
    proof { reveal_with_fuel(tx_member, 1); }
    let ghost mb0 = mb;
    let ClassMember { span, leading, name, kind } = mb;
    match kind {
        MemberKind::Method { params, body_span, body } => {
            if span.is_some() && body_span.is_some() {
                let fid = cov.new_function(
                    Some(text_clone(&name)),
                    span.unwrap(),
                    body_span.unwrap(),
                );
                let params1 = params_pass(cov, var, ign, params);
                let body1 = stmts_pass(cov, var, ign, *body);
                let fc = mk_counter_stmt(var, mk_f_text(), fid as u64, None);
                ClassMember {
                    span,
                    leading,
                    name,
                    kind: MemberKind::Method {
                        params: params1,
                        body_span,
                        body: Box::new(List::Cons(fc, Box::new(body1))),
                    },
                }
            } else {
                let params1 = params_pass(cov, var, ign, params);
                let body1 = stmts_pass(cov, var, ign, *body);
                ClassMember {
                    span,
                    leading,
                    name,
                    kind: MemberKind::Method { params: params1, body_span, body: Box::new(body1) },
                }
            }
        },
        MemberKind::Prop { value } => match value {
            Some(e) => {
                let sp = e.span;
                let e1 = expr_pass(cov, var, ign, e);
                if sp.is_some() {
                    let id = cov.new_statement(sp.unwrap());
                    ClassMember {
                        span,
                        leading,
                        name,
                        kind: MemberKind::Prop {
                            value: Some(mk_stmt_wrap(var, id as u64, e1)),
                        },
                    }
                } else {
                    ClassMember { span, leading, name, kind: MemberKind::Prop { value: Some(e1) } }
                }
            },
            None => ClassMember { span, leading, name, kind: MemberKind::Prop { value: None } },
        },
        MemberKind::PrivateProp { value } => match value {
            Some(e) => {
                let sp = e.span;
                let e1 = expr_pass(cov, var, ign, e);
                if sp.is_some() {
                    let id = cov.new_statement(sp.unwrap());
                    ClassMember {
                        span,
                        leading,
                        name,
                        kind: MemberKind::PrivateProp {
                            value: Some(mk_stmt_wrap(var, id as u64, e1)),
                        },
                    }
                } else {
                    ClassMember {
                        span,
                        leading,
                        name,
                        kind: MemberKind::PrivateProp { value: Some(e1) },
                    }
                }
            },
            None => ClassMember {
                span,
                leading,
                name,
                kind: MemberKind::PrivateProp { value: None },
            },
        },
    }
}

} // verus!
