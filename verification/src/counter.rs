//! The counter-expression builder and the injected-counter detector. A
//! counter always has the exact shape `F().<member>[n]++`, optionally
//! `F().<member>[n][m]++`, where `F` is the file's coverage identifier. The
//! detector recognizes exactly that shape, which is what makes recursive
//! descent over already-instrumented trees safe.

use vstd::prelude::*;
use crate::ast::{Expr, ExprKind, Stmt, StmtKind, synth_expr, synth_stmt, mk_synth_expr,
    mk_synth_stmt};
use crate::list::{List, Text, text_clone, text_eq};

verus! {

/// The member name `s` (statement counters).
pub open spec fn s_text() -> Text {
    List::Cons(115u8, Box::new(List::Nil))
}

/// The member name `f` (function counters).
pub open spec fn f_text() -> Text {
    List::Cons(102u8, Box::new(List::Nil))
}

/// The member name `b` (branch counters).
pub open spec fn b_text() -> Text {
    List::Cons(98u8, Box::new(List::Nil))
}

/// The call `F()` on the coverage identifier.
pub open spec fn cov_call(var: Text) -> Expr {
    synth_expr(
        ExprKind::Call {
            callee: Box::new(synth_expr(ExprKind::Ident(var))),
            args: Box::new(List::Nil),
        },
    )
}

/// `F().<prop>[id]++`, or `F().<prop>[id][idx]++` with a second index.
pub open spec fn counter_expr(var: Text, prop: Text, id: u64, idx: Option<u64>) -> Expr {
    let member = synth_expr(ExprKind::Member { obj: Box::new(cov_call(var)), prop });
    let first = synth_expr(
        ExprKind::Index {
            obj: Box::new(member),
            index: Box::new(synth_expr(ExprKind::Num(id))),
        },
    );
    let target = match idx {
        None => first,
        Some(j) => synth_expr(
            ExprKind::Index {
                obj: Box::new(first),
                index: Box::new(synth_expr(ExprKind::Num(j))),
            },
        ),
    };
    synth_expr(ExprKind::Update(Box::new(target)))
}

/// The counter as an expression statement.
pub open spec fn counter_stmt(var: Text, prop: Text, id: u64, idx: Option<u64>) -> Stmt {
    synth_stmt(StmtKind::Expr(counter_expr(var, prop, id, idx)))
}

/// Builds the counter expression.
pub fn mk_counter_expr(var: &Text, prop: Text, id: u64, idx: Option<u64>) -> (e: Expr)
    ensures
        e == counter_expr(*var, prop, id, idx),
{
    let call = mk_synth_expr(
        ExprKind::Call {
            callee: Box::new(mk_synth_expr(ExprKind::Ident(text_clone(var)))),
            args: Box::new(List::Nil),
        },
    );
    let member = mk_synth_expr(ExprKind::Member { obj: Box::new(call), prop });
    let first = mk_synth_expr(
        ExprKind::Index {
            obj: Box::new(member),
            index: Box::new(mk_synth_expr(ExprKind::Num(id))),
        },
    );
    let target = match idx {
        None => first,
        Some(j) => mk_synth_expr(
            ExprKind::Index {
                obj: Box::new(first),
                index: Box::new(mk_synth_expr(ExprKind::Num(j))),
            },
        ),
    };
    mk_synth_expr(ExprKind::Update(Box::new(target)))
}

/// Builds the counter statement.
pub fn mk_counter_stmt(var: &Text, prop: Text, id: u64, idx: Option<u64>) -> (s: Stmt)
    ensures
        s == counter_stmt(*var, prop, id, idx),
{
    mk_synth_stmt(StmtKind::Expr(mk_counter_expr(var, prop, id, idx)))
}

/// Whether `e` is the call `F()` with `F` the coverage identifier.
pub open spec fn is_cov_call(var: Text, e: Expr) -> bool {
    match e.kind {
        ExprKind::Call { callee, args } => (*args is Nil) && match callee.kind {
            ExprKind::Ident(name) => name == var,
            _ => false,
        },
        _ => false,
    }
}

/// Whether `e` is `F().<member>[lit]` for the coverage identifier `F`.
pub open spec fn is_counter_base(var: Text, e: Expr) -> bool {
    match e.kind {
        ExprKind::Index { obj, index } => (index.kind matches ExprKind::Num(_)) && match obj.kind {
            ExprKind::Member { obj: inner, prop: _ } => is_cov_call(var, *inner),
            _ => false,
        },
        _ => false,
    }
}

/// The injected-counter shape: `F().<member>[lit]++`, with an optional second
/// literal index.
pub open spec fn is_counter_expr(var: Text, e: Expr) -> bool {
    match e.kind {
        ExprKind::Update(arg) => is_counter_base(var, *arg) || match arg.kind {
            ExprKind::Index { obj, index } => (index.kind matches ExprKind::Num(_))
                && is_counter_base(var, *obj),
            _ => false,
        },
        _ => false,
    }
}

/// An expression statement holding an injected counter.
pub open spec fn is_counter_stmt(var: Text, s: Stmt) -> bool {
    match s.kind {
        StmtKind::Expr(e) => is_counter_expr(var, e),
        _ => false,
    }
}

fn is_cov_call_exec(var: &Text, e: &Expr) -> (r: bool)
    ensures
        r == is_cov_call(*var, *e),
{
    match &e.kind {
        ExprKind::Call { callee, args } => match (&callee.kind, &**args) {
            (ExprKind::Ident(name), List::Nil) => text_eq(name, var),
            _ => false,
        },
        _ => false,
    }
}

fn is_counter_base_exec(var: &Text, e: &Expr) -> (r: bool)
    ensures
        r == is_counter_base(*var, *e),
{
    match &e.kind {
        ExprKind::Index { obj, index } => match (&obj.kind, &index.kind) {
            (ExprKind::Member { obj: inner, prop: _ }, ExprKind::Num(_)) => is_cov_call_exec(
                var,
                inner,
            ),
            _ => false,
        },
        _ => false,
    }
}

/// Decides the injected-counter shape.
pub fn is_counter_expr_exec(var: &Text, e: &Expr) -> (r: bool)
    ensures
        r == is_counter_expr(*var, *e),
{
    match &e.kind {
        ExprKind::Update(arg) => {
            if is_counter_base_exec(var, arg) {
                true
            } else {
                match &arg.kind {
                    ExprKind::Index { obj, index } => match &index.kind {
                        ExprKind::Num(_) => is_counter_base_exec(var, obj),
                        _ => false,
                    },
                    _ => false,
                }
            }
        },
        _ => false,
    }
}

/// Decides whether a statement is an injected counter.
pub fn is_counter_stmt_exec(var: &Text, s: &Stmt) -> (r: bool)
    ensures
        r == is_counter_stmt(*var, *s),
{
    match &s.kind {
        StmtKind::Expr(e) => is_counter_expr_exec(var, e),
        _ => false,
    }
}

/// The detector catches every shape the builder emits: an injected counter,
/// whatever its member, ids and optional second index, is recognized and so
/// is never instrumented again.
pub proof fn lemma_detector_catches_builder(var: Text, prop: Text, id: u64, idx: Option<u64>)
    ensures
        is_counter_expr(var, counter_expr(var, prop, id, idx)),
        is_counter_stmt(var, counter_stmt(var, prop, id, idx)),
{
}

} // verus!
