//! Library-wide laws, stated and proved over the specification functions
//! that the executable pass is pinned to.

use vstd::prelude::*;
use crate::ast::{BinOp, ClassMember, Declarator, Expr, ExprKind, Param, Prop, Stmt, StmtKind,
    SwitchCase};
use crate::counter::{is_counter_expr, is_counter_stmt};
use crate::cov_map::{BranchKind, BranchModel, CoverageModel};
use crate::hashing::spec_var_name;
use crate::hint::{spec_should_ignore, IgnoreScope};
use crate::json::{json_record, spec_comment_text};
use crate::list::{List, Text};
use crate::range::SourceRange;
use crate::transform::{cond_arm, is_logical, leaf_wrap, member_scope, tx_arm, tx_arrow,
    tx_cases, tx_cases_plain, tx_counted, tx_decls, tx_expr, tx_expr_kinds, tx_expr_list,
    tx_for_init, tx_loop_body, tx_member, tx_members, tx_opt_expr, tx_params, tx_props, tx_stmt,
    tx_stmt_list, wrap_leaf};

verus! {

/// Determinism of the pass: on equal inputs the emitted identifier, the
/// whole rewritten tree with the final map, and the serialized record are
/// equal. The executable pass returns exactly `tx_stmt_list`,
/// `spec_var_name` and `json_record` of its inputs, so two runs on
/// byte-identical inputs give byte-identical output.
pub proof fn lemma_output_stability(
    p1: Seq<u8>,
    p2: Seq<u8>,
    m1: CoverageModel,
    m2: CoverageModel,
    var: Text,
    ign: List<Text>,
    l1: List<Stmt>,
    l2: List<Stmt>,
    ism: Option<Seq<u8>>,
)
    requires
        p1 == p2,
        m1 == m2,
        l1 == l2,
    ensures
        spec_var_name(p1) == spec_var_name(p2),
        tx_stmt_list(m1, var, ign, l1) == tx_stmt_list(m2, var, ign, l2),
        json_record(m1, ism) == json_record(m2, ism),
        spec_comment_text(m1, ism) == spec_comment_text(m2, ism),
{
}

/// Id density: every allocation hands out the next index of its category,
/// keeps all earlier entries, and grows the category by one — so after any
/// sequence of allocations the used ids are exactly 0 up to the length.
pub proof fn lemma_id_density(m: CoverageModel, r: SourceRange, kind: BranchKind)
    ensures
        m.add_statement(r).statements.len() == m.statements.len() + 1,
        m.add_statement(r).statements[m.statements.len() as int] == r,
        forall|i: int|
            0 <= i < m.statements.len() ==> m.add_statement(r).statements[i] == m.statements[i],
        m.add_branch(kind, r).branches.len() == m.branches.len() + 1,
        forall|i: int|
            0 <= i < m.branches.len() ==> m.add_branch(kind, r).branches[i] == m.branches[i],
{
}

/// Id density over a whole run of the pass: in the map the pass returns,
/// the statement, function and branch id sets are exactly the integers from
/// 0 up to each category's length — dense, no gaps. Ids are sequence
/// positions and every allocator returns the previous length, so density is
/// forced by the representation for every reachable map.
pub proof fn lemma_pass_id_density(m: CoverageModel, var: Text, ign: List<Text>, l: List<Stmt>)
    ensures
        tx_stmt_list(m, var, ign, l).0.stmt_ids() =~= Set::new(
            |i: int| 0 <= i < tx_stmt_list(m, var, ign, l).0.statements.len(),
        ),
        tx_stmt_list(m, var, ign, l).0.fn_ids() =~= Set::new(
            |i: int| 0 <= i < tx_stmt_list(m, var, ign, l).0.functions.len(),
        ),
        tx_stmt_list(m, var, ign, l).0.branch_ids() =~= Set::new(
            |i: int| 0 <= i < tx_stmt_list(m, var, ign, l).0.branches.len(),
        ),
{
}

/// An injected counter statement passes through the statement rule
/// untouched and allocates nothing: this is what makes a second pass leave
/// counter-bearing subtrees as they are.
pub proof fn lemma_counter_stmt_untouched(m: CoverageModel, var: Text, ign: List<Text>, s: Stmt)
    requires
        is_counter_stmt(var, s),
    ensures
        tx_stmt(m, var, ign, s) == (m, List::Nil::<Stmt>, s),
{
    reveal_with_fuel(tx_stmt, 1);
}

/// An injected counter expression passes through the expression rule
/// untouched and allocates nothing.
pub proof fn lemma_counter_expr_untouched(m: CoverageModel, var: Text, ign: List<Text>, e: Expr)
    requires
        is_counter_expr(var, e),
    ensures
        tx_expr(m, var, ign, e) == (m, e),
{
    reveal_with_fuel(tx_expr, 1);
}

/// The path ranges a logical-chain operand contributes: one per leaf with a
/// range, left to right; an operand headed by the same operator contributes
/// the ranges of both its sides.
pub open spec fn leaf_ranges(op: BinOp, x: Expr) -> Seq<SourceRange>
    decreases x,
{
    match x.kind {
        ExprKind::Bin { op: xop, left, right } => if xop == op {
            leaf_ranges(op, *left).add(leaf_ranges(op, *right))
        } else if x.span is Some {
            seq![x.span->0]
        } else {
            Seq::empty()
        },
        _ => if x.span is Some {
            seq![x.span->0]
        } else {
            Seq::empty()
        },
    }
}

/// Wrapping one operand of a logical chain appends exactly its leaf ranges
/// to branch `bid`, in left-to-right order, and touches nothing else in the
/// map.
pub proof fn lemma_wrap_leaf_paths(m: CoverageModel, var: Text, ign: List<Text>, bid: int, op: BinOp, x: Expr)
    requires
        0 <= bid < m.branches.len(),
    ensures
        wrap_leaf(m, var, ign, bid, op, x).0.branches.len() == m.branches.len(),
        wrap_leaf(m, var, ign, bid, op, x).0.branches[bid].locations == m.branches[bid].locations.add(
            leaf_ranges(op, x),
        ),
        wrap_leaf(m, var, ign, bid, op, x).0.branches[bid].kind == m.branches[bid].kind,
        wrap_leaf(m, var, ign, bid, op, x).0.branches[bid].loc == m.branches[bid].loc,
        wrap_leaf(m, var, ign, bid, op, x).0.statements == m.statements,
        wrap_leaf(m, var, ign, bid, op, x).0.functions == m.functions,
        forall|j: int|
            0 <= j < m.branches.len() && j != bid ==> wrap_leaf(m, var, ign, bid, op, x).0.branches[j]
                == m.branches[j],
    decreases x,
{
    reveal_with_fuel(wrap_leaf, 1);
    reveal_with_fuel(leaf_wrap, 1);
    match x.kind {
        ExprKind::Bin { op: xop, left, right } => {
            if xop == op {
                lemma_wrap_leaf_paths(m, var, ign, bid, op, *left);
                let m1 = wrap_leaf(m, var, ign, bid, op, *left).0;
                lemma_wrap_leaf_paths(m1, var, ign, bid, op, *right);
                assert(m.branches[bid].locations.add(leaf_ranges(op, *left)).add(
                    leaf_ranges(op, *right),
                ) =~= m.branches[bid].locations.add(
                    leaf_ranges(op, *left).add(leaf_ranges(op, *right)),
                ));
            } else {
                lemma_leaf_wrap_paths(m, var, ign, bid, x);
            }
        },
        _ => {
            lemma_leaf_wrap_paths(m, var, ign, bid, x);
        },
    }
}

proof fn lemma_leaf_wrap_paths(m: CoverageModel, var: Text, ign: List<Text>, bid: int, x: Expr)
    requires
        0 <= bid < m.branches.len(),
    ensures
        leaf_wrap(m, var, ign, bid, x).0.branches.len() == m.branches.len(),
        leaf_wrap(m, var, ign, bid, x).0.branches[bid].locations == m.branches[bid].locations.add(
            if x.span is Some {
                seq![x.span->0]
            } else {
                Seq::empty()
            },
        ),
        leaf_wrap(m, var, ign, bid, x).0.branches[bid].kind == m.branches[bid].kind,
        leaf_wrap(m, var, ign, bid, x).0.branches[bid].loc == m.branches[bid].loc,
        leaf_wrap(m, var, ign, bid, x).0.statements == m.statements,
        leaf_wrap(m, var, ign, bid, x).0.functions == m.functions,
        forall|j: int|
            0 <= j < m.branches.len() && j != bid ==> leaf_wrap(m, var, ign, bid, x).0.branches[j]
                == m.branches[j],
{
    reveal_with_fuel(leaf_wrap, 1);
    if x.span is Some {
        assert(m.branches[bid].locations.push(x.span->0) =~= m.branches[bid].locations.add(
            seq![x.span->0],
        ));
    } else {
        assert(m.branches[bid].locations.add(Seq::<SourceRange>::empty())
            =~= m.branches[bid].locations);
    }
}

/// Branch paths of a logical chain: instrumenting a logical expression with
/// a range allocates one branch of kind `BinaryExpr` at the next id, whose
/// recorded paths are exactly the leaf ranges of the chain, left to right.
pub proof fn lemma_logical_branch_paths(m: CoverageModel, var: Text, ign: List<Text>, e: Expr)
    requires
        !is_counter_expr(var, e),
        spec_should_ignore(e.leading) != Some(IgnoreScope::Next),
        e.span is Some,
        e.kind matches ExprKind::Bin { op, .. } && is_logical(op),
    ensures
        ({
            let r = tx_expr(m, var, ign, e);
            let bid = m.branches.len() as int;
            match e.kind {
                ExprKind::Bin { op, left, right } => {
                    &&& r.0.branches.len() == m.branches.len() + 1
                    &&& r.0.branches[bid].kind == BranchKind::BinaryExpr
                    &&& r.0.branches[bid].loc == e.span->0
                    &&& r.0.branches[bid].locations == leaf_ranges(op, *left).add(
                        leaf_ranges(op, *right),
                    )
                },
                _ => false,
            }
        }),
{
    reveal_with_fuel(tx_expr, 1);
    match e.kind {
        ExprKind::Bin { op, left, right } => {
            let bid = m.branches.len() as int;
            let m1 = m.add_branch(BranchKind::BinaryExpr, e.span->0);
            assert(m1.branches[bid] == (BranchModel {
                kind: BranchKind::BinaryExpr,
                loc: e.span->0,
                locations: Seq::<SourceRange>::empty(),
            }));
            lemma_wrap_leaf_paths(m1, var, ign, bid, op, *left);
            let m2 = wrap_leaf(m1, var, ign, bid, op, *left).0;
            assert(m2.branches[bid].locations =~= leaf_ranges(op, *left));
            lemma_wrap_leaf_paths(m2, var, ign, bid, op, *right);
            let m3 = wrap_leaf(m2, var, ign, bid, op, *right).0;
            assert(m3.branches[bid].locations =~= leaf_ranges(op, *left).add(
                leaf_ranges(op, *right),
            ));
            assert(tx_expr(m, var, ign, e).0 == m3);
            assert(m3.branches[bid].kind == BranchKind::BinaryExpr);
            assert(m3.branches[bid].loc == e.span->0);
            assert(m3.branches.len() == m.branches.len() + 1);
        },
        _ => {},
    }
}

/// The branch entries that already existed are kept: descent only appends
/// new branches and never rewrites an old one.
pub open spec fn keeps_branches(m0: CoverageModel, m1: CoverageModel) -> bool {
    &&& m1.branches.len() >= m0.branches.len()
    &&& forall|j: int| 0 <= j < m0.branches.len() ==> #[trigger] m1.branches[j] == m0.branches[j]
}

/// As `keeps_branches`, except that the entry `bid` itself may change.
pub open spec fn keeps_branches_but(m0: CoverageModel, m1: CoverageModel, bid: int) -> bool {
    &&& m1.branches.len() >= m0.branches.len()
    &&& forall|j: int|
        0 <= j < m0.branches.len() && j != bid ==> #[trigger] m1.branches[j] == m0.branches[j]
}

proof fn keeps_trans(a: CoverageModel, b: CoverageModel, c: CoverageModel)
    requires
        keeps_branches(a, b),
        keeps_branches(b, c),
    ensures
        keeps_branches(a, c),
{
    assert forall|j: int| 0 <= j < a.branches.len() implies #[trigger] c.branches[j]
        == a.branches[j] by {
        assert(b.branches[j] == a.branches[j]);
        assert(c.branches[j] == b.branches[j]);
    }
}

proof fn keeps_trans_but(a: CoverageModel, b: CoverageModel, c: CoverageModel, bid: int)
    requires
        keeps_branches_but(a, b, bid),
        keeps_branches_but(b, c, bid),
    ensures
        keeps_branches_but(a, c, bid),
{
    assert forall|j: int| 0 <= j < a.branches.len() && j != bid implies #[trigger] c.branches[j]
        == a.branches[j] by {
        assert(b.branches[j] == a.branches[j]);
        assert(c.branches[j] == b.branches[j]);
    }
}

proof fn keeps_weaken(a: CoverageModel, b: CoverageModel, bid: int)
    requires
        keeps_branches(a, b),
    ensures
        keeps_branches_but(a, b, bid),
{
}

/// A change confined to an entry that did not exist in `a` keeps all of
/// `a`'s entries.
proof fn keeps_compose_new(a: CoverageModel, b: CoverageModel, c: CoverageModel, bid: int)
    requires
        keeps_branches(a, b),
        keeps_branches_but(b, c, bid),
        bid >= a.branches.len(),
    ensures
        keeps_branches(a, c),
{
    assert forall|j: int| 0 <= j < a.branches.len() implies #[trigger] c.branches[j]
        == a.branches[j] by {
        assert(b.branches[j] == a.branches[j]);
        assert(c.branches[j] == b.branches[j]);
    }
}

proof fn keeps_add_statement(m: CoverageModel, r: SourceRange)
    ensures
        keeps_branches(m, m.add_statement(r)),
{
}

proof fn keeps_add_function(
    m: CoverageModel,
    name: Option<Text>,
    d: SourceRange,
    lo: SourceRange,
)
    ensures
        keeps_branches(m, m.add_function(name, d, lo)),
{
}

proof fn keeps_add_branch(m: CoverageModel, k: BranchKind, r: SourceRange)
    ensures
        keeps_branches(m, m.add_branch(k, r)),
{
}

proof fn keeps_add_path(m: CoverageModel, bid: int, r: SourceRange)
    requires
        0 <= bid < m.branches.len(),
    ensures
        keeps_branches_but(m, m.add_branch_path(bid, r), bid),
{
}

#[verifier::rlimit(100)]
#[verifier::spinoff_prover]
proof fn br_stmts(m: CoverageModel, var: Text, ign: List<Text>, l: List<Stmt>)
    ensures
        keeps_branches(m, tx_stmt_list(m, var, ign, l).0),
    decreases l, 0int,
{
    reveal_with_fuel(tx_stmt_list, 1);
    match l {
        List::Nil => {},
        List::Cons(s, rest) => {
            br_stmt(m, var, ign, s);
            let m1 = tx_stmt(m, var, ign, s).0;
            br_stmts(m1, var, ign, *rest);
            keeps_trans(m, m1, tx_stmt_list(m1, var, ign, *rest).0);
        },
    }
}

#[verifier::rlimit(100)]
#[verifier::spinoff_prover]
proof fn br_stmt(m: CoverageModel, var: Text, ign: List<Text>, s: Stmt)
    ensures
        keeps_branches(m, tx_stmt(m, var, ign, s).0),
    decreases s, 1int,
{
    reveal_with_fuel(tx_stmt, 1);
    if is_counter_stmt(var, s) {
    } else if spec_should_ignore(s.leading) == Some(IgnoreScope::Next) {
    } else if crate::transform::counted_kind(s.kind) && s.span is Some {
        let m1 = m.add_statement(s.span->0);
        keeps_add_statement(m, s.span->0);
        br_counted(m1, var, ign, s);
        keeps_trans(m, m1, tx_counted(m1, var, ign, s).0);
    } else {
        br_counted(m, var, ign, s);
    }
}

#[verifier::rlimit(100)]
#[verifier::spinoff_prover]
proof fn br_counted(m: CoverageModel, var: Text, ign: List<Text>, s: Stmt)
    ensures
        keeps_branches(m, tx_counted(m, var, ign, s).0),
    decreases s, 0int,
{
    reveal_with_fuel(tx_counted, 1);
    match s.kind {
        StmtKind::Expr(e) => {
            br_expr(m, var, ign, e);
        },
        StmtKind::Return(arg) => {
            match arg {
                Some(e) => {
                    br_expr(m, var, ign, e);
                },
                None => {},
            }
        },
        StmtKind::Throw(e) => {
            br_expr(m, var, ign, e);
        },
        StmtKind::VarDecl { kind, decls } => {
            br_decls(m, var, ign, decls);
        },
        StmtKind::Block(stmts) => {
            br_stmts(m, var, ign, *stmts);
        },
        StmtKind::FnDecl { name, params, body_span, body } => {
            if s.span is Some && body_span is Some {
                let m1 = m.add_function(Some(name), s.span->0, body_span->0);
                keeps_add_function(m, Some(name), s.span->0, body_span->0);
                br_params(m1, var, ign, params);
                let m2 = tx_params(m1, var, ign, params).0;
                br_stmts(m2, var, ign, *body);
                keeps_trans(m, m1, m2);
                keeps_trans(m, m2, tx_stmt_list(m2, var, ign, *body).0);
            } else {
                br_params(m, var, ign, params);
                let m1 = tx_params(m, var, ign, params).0;
                br_stmts(m1, var, ign, *body);
                keeps_trans(m, m1, tx_stmt_list(m1, var, ign, *body).0);
            }
        },
        StmtKind::If { test, cons, alt } => {
            if s.span is Some {
                let r = s.span->0;
                let hint = spec_should_ignore(s.leading);
                let bid = m.branches.len() as int;
                let m1 = m.add_branch(BranchKind::If, r);
                keeps_add_branch(m, BranchKind::If, r);
                let m2 = if hint == Some(IgnoreScope::If) {
                    m1
                } else {
                    br_arm(m1, var, ign, bid, r, *cons);
                    tx_arm(m1, var, ign, bid, r, *cons).0
                };
                keeps_weaken(m1, m1, bid);
                keeps_compose_new(m, m1, m2, bid);
                let m3 = if hint == Some(IgnoreScope::Else) {
                    m2
                } else {
                    match alt {
                        Some(a) => {
                            br_arm(m2, var, ign, bid, r, *a);
                            tx_arm(m2, var, ign, bid, r, *a).0
                        },
                        None => {
                            keeps_add_path(m2, bid, r);
                            m2.add_branch_path(bid, r)
                        },
                    }
                };
                keeps_weaken(m2, m2, bid);
                keeps_compose_new(m, m2, m3, bid);
                br_expr(m3, var, ign, test);
                keeps_trans(m, m3, tx_expr(m3, var, ign, test).0);
            } else {
                br_counted(m, var, ign, *cons);
                let m1 = tx_counted(m, var, ign, *cons).0;
                let m2 = match alt {
                    Some(a) => {
                        br_counted(m1, var, ign, *a);
                        tx_counted(m1, var, ign, *a).0
                    },
                    None => m1,
                };
                keeps_trans(m, m1, m2);
                br_expr(m2, var, ign, test);
                keeps_trans(m, m2, tx_expr(m2, var, ign, test).0);
            }
        },
        StmtKind::While { test, body } => {
            br_expr(m, var, ign, test);
            let m1 = tx_expr(m, var, ign, test).0;
            br_loop_body(m1, var, ign, *body);
            keeps_trans(m, m1, tx_loop_body(m1, var, ign, *body).0);
        },
        StmtKind::DoWhile { test, body } => {
            br_loop_body(m, var, ign, *body);
            let m1 = tx_loop_body(m, var, ign, *body).0;
            br_expr(m1, var, ign, test);
            keeps_trans(m, m1, tx_expr(m1, var, ign, test).0);
        },
        StmtKind::For { init, test, update, body } => {
            let m1 = match init {
                Some(i) => {
                    br_for_init(m, var, ign, *i);
                    tx_for_init(m, var, ign, *i).0
                },
                None => m,
            };
            br_opt_expr(m1, var, ign, test);
            let m2 = tx_opt_expr(m1, var, ign, test).0;
            keeps_trans(m, m1, m2);
            br_opt_expr(m2, var, ign, update);
            let m3 = tx_opt_expr(m2, var, ign, update).0;
            keeps_trans(m, m2, m3);
            br_loop_body(m3, var, ign, *body);
            keeps_trans(m, m3, tx_loop_body(m3, var, ign, *body).0);
        },
        StmtKind::Switch { disc, cases } => {
            br_expr(m, var, ign, disc);
            let m1 = tx_expr(m, var, ign, disc).0;
            if s.span is Some {
                let bid = m1.branches.len() as int;
                let m2 = m1.add_branch(BranchKind::Switch, s.span->0);
                keeps_add_branch(m1, BranchKind::Switch, s.span->0);
                keeps_trans(m, m1, m2);
                br_cases(m2, var, ign, bid, cases);
                keeps_compose_new(m, m2, tx_cases(m2, var, ign, bid, cases).0, bid);
            } else {
                br_cases_plain(m1, var, ign, cases);
                keeps_trans(m, m1, tx_cases_plain(m1, var, ign, cases).0);
            }
        },
        StmtKind::Labeled { label, body } => {
            br_counted(m, var, ign, *body);
        },
        StmtKind::ClassDecl { name, members } => {
            br_members(m, var, ign, members);
        },
        StmtKind::Try { block, param, handler, finalizer } => {
            br_stmts(m, var, ign, *block);
            let m1 = tx_stmt_list(m, var, ign, *block).0;
            let m2 = match handler {
                Some(h) => {
                    br_stmts(m1, var, ign, *h);
                    tx_stmt_list(m1, var, ign, *h).0
                },
                None => m1,
            };
            keeps_trans(m, m1, m2);
            match finalizer {
                Some(f) => {
                    br_stmts(m2, var, ign, *f);
                    keeps_trans(m, m2, tx_stmt_list(m2, var, ign, *f).0);
                },
                None => {},
            }
        },
        StmtKind::With { obj, body } => {
            br_expr(m, var, ign, obj);
            let m1 = tx_expr(m, var, ign, obj).0;
            br_loop_body(m1, var, ign, *body);
            keeps_trans(m, m1, tx_loop_body(m1, var, ign, *body).0);
        },
        _ => {},
    }
}

/// An `if` arm appends exactly one path, taken from `r`, to branch `bid`,
/// leaves every other existing branch as it was, and keeps the branch's
/// kind and loc.
#[verifier::rlimit(100)]
#[verifier::spinoff_prover]
proof fn br_arm(m: CoverageModel, var: Text, ign: List<Text>, bid: int, r: SourceRange, arm: Stmt)
    requires
        0 <= bid < m.branches.len(),
    ensures
        keeps_branches_but(m, tx_arm(m, var, ign, bid, r, arm).0, bid),
        tx_arm(m, var, ign, bid, r, arm).0.branches[bid].locations == m.branches[
            bid
        ].locations.push(r),
        tx_arm(m, var, ign, bid, r, arm).0.branches[bid].kind == m.branches[bid].kind,
        tx_arm(m, var, ign, bid, r, arm).0.branches[bid].loc == m.branches[bid].loc,
    decreases arm, 2int,
{
    reveal_with_fuel(tx_arm, 1);
    let m1 = m.add_branch_path(bid, r);
    keeps_add_path(m, bid, r);
    match arm.kind {
        StmtKind::Block(stmts) => {
            br_stmts(m1, var, ign, *stmts);
            let m2 = tx_stmt_list(m1, var, ign, *stmts).0;
            keeps_weaken(m1, m2, bid);
            keeps_trans_but(m, m1, m2, bid);
            assert(m2.branches[bid] == m1.branches[bid]);
        },
        _ => {
            br_stmt(m1, var, ign, arm);
            let m2 = tx_stmt(m1, var, ign, arm).0;
            keeps_weaken(m1, m2, bid);
            keeps_trans_but(m, m1, m2, bid);
            assert(m2.branches[bid] == m1.branches[bid]);
        },
    }
}

#[verifier::rlimit(100)]
#[verifier::spinoff_prover]
proof fn br_loop_body(m: CoverageModel, var: Text, ign: List<Text>, body: Stmt)
    ensures
        keeps_branches(m, tx_loop_body(m, var, ign, body).0),
    decreases body, 2int,
{
    reveal_with_fuel(tx_loop_body, 1);
    match body.kind {
        StmtKind::Block(stmts) => {
            br_stmts(m, var, ign, *stmts);
        },
        _ => {
            br_stmt(m, var, ign, body);
        },
    }
}

#[verifier::rlimit(100)]
#[verifier::spinoff_prover]
proof fn br_for_init(m: CoverageModel, var: Text, ign: List<Text>, s: Stmt)
    ensures
        keeps_branches(m, tx_for_init(m, var, ign, s).0),
    decreases s, 0int,
{
    reveal_with_fuel(tx_for_init, 1);
    match s.kind {
        StmtKind::VarDecl { kind, decls } => {
            br_decls(m, var, ign, decls);
        },
        StmtKind::Expr(e) => {
            br_expr(m, var, ign, e);
        },
        _ => {},
    }
}

#[verifier::rlimit(100)]
#[verifier::spinoff_prover]
proof fn br_decls(m: CoverageModel, var: Text, ign: List<Text>, l: List<Declarator>)
    ensures
        keeps_branches(m, tx_decls(m, var, ign, l).0),
    decreases l, 0int,
{
    reveal_with_fuel(tx_decls, 1);
    match l {
        List::Nil => {},
        List::Cons(d, rest) => {
            let m1 = match d.init {
                Some(e) => {
                    br_expr(m, var, ign, e);
                    let m1a = tx_expr(m, var, ign, e).0;
                    if e.span is Some {
                        keeps_add_statement(m1a, e.span->0);
                        keeps_trans(m, m1a, m1a.add_statement(e.span->0));
                        m1a.add_statement(e.span->0)
                    } else {
                        m1a
                    }
                },
                None => m,
            };
            br_decls(m1, var, ign, *rest);
            keeps_trans(m, m1, tx_decls(m1, var, ign, *rest).0);
        },
    }
}

/// Parameter defaults add fresh branches only: existing entries are kept.
#[verifier::rlimit(100)]
#[verifier::spinoff_prover]
proof fn br_params(m: CoverageModel, var: Text, ign: List<Text>, l: List<Param>)
    ensures
        keeps_branches(m, tx_params(m, var, ign, l).0),
    decreases l, 0int,
{
    reveal_with_fuel(tx_params, 1);
    match l {
        List::Nil => {},
        List::Cons(p, rest) => {
            let m1 = match p.default {
                Some(d) => {
                    if d.span is Some {
                        let bid = m.branches.len() as int;
                        let m1a = m.add_branch(BranchKind::DefaultArg, d.span->0);
                        keeps_add_branch(m, BranchKind::DefaultArg, d.span->0);
                        let m1b = m1a.add_branch_path(bid, d.span->0);
                        keeps_add_path(m1a, bid, d.span->0);
                        keeps_compose_new(m, m1a, m1b, bid);
                        br_expr(m1b, var, ign, d);
                        keeps_trans(m, m1b, tx_expr(m1b, var, ign, d).0);
                        tx_expr(m1b, var, ign, d).0
                    } else {
                        br_expr(m, var, ign, d);
                        tx_expr(m, var, ign, d).0
                    }
                },
                None => m,
            };
            br_params(m1, var, ign, *rest);
            keeps_trans(m, m1, tx_params(m1, var, ign, *rest).0);
        },
    }
}

#[verifier::rlimit(100)]
#[verifier::spinoff_prover]
proof fn br_cases(m: CoverageModel, var: Text, ign: List<Text>, bid: int, l: List<SwitchCase>)
    requires
        0 <= bid < m.branches.len(),
    ensures
        keeps_branches_but(m, tx_cases(m, var, ign, bid, l).0, bid),
    decreases l, 0int,
{
    reveal_with_fuel(tx_cases, 1);
    match l {
        List::Nil => {},
        List::Cons(c, rest) => {
            br_opt_expr(m, var, ign, c.test);
            let m1 = tx_opt_expr(m, var, ign, c.test).0;
            br_stmts(m1, var, ign, *c.body);
            let m2 = tx_stmt_list(m1, var, ign, *c.body).0;
            keeps_trans(m, m1, m2);
            keeps_weaken(m, m2, bid);
            let m3 = if c.span is Some {
                keeps_add_path(m2, bid, c.span->0);
                m2.add_branch_path(bid, c.span->0)
            } else {
                m2
            };
            assert(keeps_branches_but(m2, m3, bid));
            keeps_trans_but(m, m2, m3, bid);
            br_cases(m3, var, ign, bid, *rest);
            keeps_trans_but(m, m3, tx_cases(m3, var, ign, bid, *rest).0, bid);
        },
    }
}

#[verifier::rlimit(100)]
#[verifier::spinoff_prover]
proof fn br_cases_plain(m: CoverageModel, var: Text, ign: List<Text>, l: List<SwitchCase>)
    ensures
        keeps_branches(m, tx_cases_plain(m, var, ign, l).0),
    decreases l, 0int,
{
    reveal_with_fuel(tx_cases_plain, 1);
    match l {
        List::Nil => {},
        List::Cons(c, rest) => {
            br_opt_expr(m, var, ign, c.test);
            let m1 = tx_opt_expr(m, var, ign, c.test).0;
            br_stmts(m1, var, ign, *c.body);
            let m2 = tx_stmt_list(m1, var, ign, *c.body).0;
            keeps_trans(m, m1, m2);
            br_cases_plain(m2, var, ign, *rest);
            keeps_trans(m, m2, tx_cases_plain(m2, var, ign, *rest).0);
        },
    }
}

#[verifier::rlimit(100)]
#[verifier::spinoff_prover]
proof fn br_opt_expr(m: CoverageModel, var: Text, ign: List<Text>, e: Option<Expr>)
    ensures
        keeps_branches(m, tx_opt_expr(m, var, ign, e).0),
    decreases e, 1int,
{
    reveal_with_fuel(tx_opt_expr, 1);
    match e {
        Some(e0) => {
            br_expr(m, var, ign, e0);
        },
        None => {},
    }
}

#[verifier::rlimit(100)]
#[verifier::spinoff_prover]
proof fn br_expr_list(m: CoverageModel, var: Text, ign: List<Text>, l: List<Expr>)
    ensures
        keeps_branches(m, tx_expr_list(m, var, ign, l).0),
    decreases l, 0int,
{
    reveal_with_fuel(tx_expr_list, 1);
    match l {
        List::Nil => {},
        List::Cons(e, rest) => {
            br_expr(m, var, ign, e);
            let m1 = tx_expr(m, var, ign, e).0;
            br_expr_list(m1, var, ign, *rest);
            keeps_trans(m, m1, tx_expr_list(m1, var, ign, *rest).0);
        },
    }
}

#[verifier::rlimit(100)]
#[verifier::spinoff_prover]
proof fn br_props(m: CoverageModel, var: Text, ign: List<Text>, l: List<Prop>)
    ensures
        keeps_branches(m, tx_props(m, var, ign, l).0),
    decreases l, 0int,
{
    reveal_with_fuel(tx_props, 1);
    match l {
        List::Nil => {},
        List::Cons(p, rest) => {
            br_expr(m, var, ign, p.value);
            let m1 = tx_expr(m, var, ign, p.value).0;
            br_props(m1, var, ign, *rest);
            keeps_trans(m, m1, tx_props(m1, var, ign, *rest).0);
        },
    }
}

#[verifier::rlimit(100)]
#[verifier::spinoff_prover]
proof fn br_expr(m: CoverageModel, var: Text, ign: List<Text>, e: Expr)
    ensures
        keeps_branches(m, tx_expr(m, var, ign, e).0),
    decreases e, 3int,
{
    reveal_with_fuel(tx_expr, 1);
    if is_counter_expr(var, e) {
    } else {
        let ignored = spec_should_ignore(e.leading) == Some(IgnoreScope::Next);
        match e.kind {
            ExprKind::Bin { op, left, right } => {
                if is_logical(op) && !ignored && e.span is Some {
                    let bid = m.branches.len() as int;
                    let m1 = m.add_branch(BranchKind::BinaryExpr, e.span->0);
                    keeps_add_branch(m, BranchKind::BinaryExpr, e.span->0);
                    lemma_wrap_leaf_paths(m1, var, ign, bid, op, *left);
                    let m2 = wrap_leaf(m1, var, ign, bid, op, *left).0;
                    keeps_compose_new(m, m1, m2, bid);
                    lemma_wrap_leaf_paths(m2, var, ign, bid, op, *right);
                    let m3 = wrap_leaf(m2, var, ign, bid, op, *right).0;
                    keeps_compose_new(m, m2, m3, bid);
                } else {
                    br_expr(m, var, ign, *left);
                    let m1 = tx_expr(m, var, ign, *left).0;
                    br_expr(m1, var, ign, *right);
                    keeps_trans(m, m1, tx_expr(m1, var, ign, *right).0);
                }
            },
            _ => {
                if ignored {
                } else {
                    br_expr_kinds(m, var, ign, e);
                }
            },
        }
    }
}

#[verifier::rlimit(100)]
#[verifier::spinoff_prover]
proof fn br_expr_kinds(m: CoverageModel, var: Text, ign: List<Text>, e: Expr)
    ensures
        keeps_branches(m, tx_expr_kinds(m, var, ign, e).0),
    decreases e, 2int,
{
    reveal_with_fuel(tx_expr_kinds, 1);
    match e.kind {
        ExprKind::Not(inner) => {
            br_expr(m, var, ign, *inner);
        },
        ExprKind::Paren(inner) => {
            br_expr(m, var, ign, *inner);
        },
        ExprKind::Update(inner) => {
            br_expr(m, var, ign, *inner);
        },
        ExprKind::Comma(a, b) => {
            br_expr(m, var, ign, *a);
            let m1 = tx_expr(m, var, ign, *a).0;
            br_expr(m1, var, ign, *b);
            keeps_trans(m, m1, tx_expr(m1, var, ign, *b).0);
        },
        ExprKind::Member { obj, prop } => {
            br_expr(m, var, ign, *obj);
        },
        ExprKind::Index { obj, index } => {
            br_expr(m, var, ign, *obj);
            let m1 = tx_expr(m, var, ign, *obj).0;
            br_expr(m1, var, ign, *index);
            keeps_trans(m, m1, tx_expr(m1, var, ign, *index).0);
        },
        ExprKind::Call { callee, args } => {
            br_expr(m, var, ign, *callee);
            let m1 = tx_expr(m, var, ign, *callee).0;
            br_expr_list(m1, var, ign, *args);
            keeps_trans(m, m1, tx_expr_list(m1, var, ign, *args).0);
        },
        ExprKind::Assign { target, value } => {
            br_expr(m, var, ign, *target);
            let m1 = tx_expr(m, var, ign, *target).0;
            br_expr(m1, var, ign, *value);
            keeps_trans(m, m1, tx_expr(m1, var, ign, *value).0);
        },
        ExprKind::Object(props) => {
            br_props(m, var, ign, *props);
        },
        ExprKind::Array(items) => {
            br_expr_list(m, var, ign, *items);
        },
        ExprKind::Cond { test, cons, alt } => {
            if e.span is Some {
                let bid = m.branches.len() as int;
                let m1 = m.add_branch(BranchKind::CondExpr, e.span->0);
                keeps_add_branch(m, BranchKind::CondExpr, e.span->0);
                br_expr(m1, var, ign, *test);
                let m2 = tx_expr(m1, var, ign, *test).0;
                keeps_trans(m, m1, m2);
                br_cond_arm(m2, var, ign, bid, *cons);
                let m3 = cond_arm(m2, var, ign, bid, *cons).0;
                keeps_compose_new(m, m2, m3, bid);
                br_cond_arm(m3, var, ign, bid, *alt);
                keeps_compose_new(m, m3, cond_arm(m3, var, ign, bid, *alt).0, bid);
            } else {
                br_expr(m, var, ign, *test);
                let m1 = tx_expr(m, var, ign, *test).0;
                br_expr(m1, var, ign, *cons);
                let m2 = tx_expr(m1, var, ign, *cons).0;
                keeps_trans(m, m1, m2);
                br_expr(m2, var, ign, *alt);
                keeps_trans(m, m2, tx_expr(m2, var, ign, *alt).0);
            }
        },
        ExprKind::Arrow { .. } => {
            br_arrow(m, var, ign, e);
        },
        ExprKind::FnExpr { name, params, body_span, body } => {
            if e.span is Some && body_span is Some {
                let m1 = m.add_function(name, e.span->0, body_span->0);
                keeps_add_function(m, name, e.span->0, body_span->0);
                br_params(m1, var, ign, *params);
                let m2 = tx_params(m1, var, ign, *params).0;
                keeps_trans(m, m1, m2);
                br_stmts(m2, var, ign, *body);
                keeps_trans(m, m2, tx_stmt_list(m2, var, ign, *body).0);
            } else {
                br_params(m, var, ign, *params);
                let m1 = tx_params(m, var, ign, *params).0;
                br_stmts(m1, var, ign, *body);
                keeps_trans(m, m1, tx_stmt_list(m1, var, ign, *body).0);
            }
        },
        _ => {},
    }
}

/// A conditional arm may add one path to its own branch and fresh branches
/// below; every other existing branch is kept.
#[verifier::rlimit(100)]
#[verifier::spinoff_prover]
proof fn br_cond_arm(m: CoverageModel, var: Text, ign: List<Text>, bid: int, arm: Expr)
    requires
        0 <= bid < m.branches.len(),
    ensures
        keeps_branches_but(m, cond_arm(m, var, ign, bid, arm).0, bid),
    decreases arm, 4int,
{
    reveal_with_fuel(cond_arm, 1);
    if arm.span is Some {
        let m1 = m.add_branch_path(bid, arm.span->0);
        keeps_add_path(m, bid, arm.span->0);
        br_expr(m1, var, ign, arm);
        let m2 = tx_expr(m1, var, ign, arm).0;
        keeps_weaken(m1, m2, bid);
        keeps_trans_but(m, m1, m2, bid);
    } else {
        br_expr(m, var, ign, arm);
        keeps_weaken(m, tx_expr(m, var, ign, arm).0, bid);
    }
}

#[verifier::rlimit(100)]
#[verifier::spinoff_prover]
proof fn br_arrow(m: CoverageModel, var: Text, ign: List<Text>, e: Expr)
    ensures
        keeps_branches(m, tx_arrow(m, var, ign, e).0),
    decreases e, 1int,
{
    reveal_with_fuel(tx_arrow, 1);
    match e.kind {
        ExprKind::Arrow { params, body: crate::ast::ArrowBody::Block { span: bspan, stmts } } => {
            if e.span is Some && bspan is Some {
                let m1 = m.add_function(None, e.span->0, bspan->0);
                keeps_add_function(m, None, e.span->0, bspan->0);
                br_params(m1, var, ign, *params);
                let m2 = tx_params(m1, var, ign, *params).0;
                keeps_trans(m, m1, m2);
                br_stmts(m2, var, ign, *stmts);
                keeps_trans(m, m2, tx_stmt_list(m2, var, ign, *stmts).0);
            } else {
                br_params(m, var, ign, *params);
                let m1 = tx_params(m, var, ign, *params).0;
                br_stmts(m1, var, ign, *stmts);
                keeps_trans(m, m1, tx_stmt_list(m1, var, ign, *stmts).0);
            }
        },
        ExprKind::Arrow { params, body: crate::ast::ArrowBody::Expr(be) } => {
            if e.span is Some && be.span is Some {
                let m1 = m.add_function(None, e.span->0, be.span->0);
                keeps_add_function(m, None, e.span->0, be.span->0);
                br_params(m1, var, ign, *params);
                let m2 = tx_params(m1, var, ign, *params).0;
                keeps_trans(m, m1, m2);
                let m3 = m2.add_statement(be.span->0);
                keeps_add_statement(m2, be.span->0);
                keeps_trans(m, m2, m3);
                br_expr(m3, var, ign, *be);
                keeps_trans(m, m3, tx_expr(m3, var, ign, *be).0);
            } else {
                br_params(m, var, ign, *params);
                let m1 = tx_params(m, var, ign, *params).0;
                br_expr(m1, var, ign, *be);
                keeps_trans(m, m1, tx_expr(m1, var, ign, *be).0);
            }
        },
        _ => {},
    }
}

#[verifier::rlimit(100)]
#[verifier::spinoff_prover]
proof fn br_members(m: CoverageModel, var: Text, ign: List<Text>, l: List<ClassMember>)
    ensures
        keeps_branches(m, tx_members(m, var, ign, l).0),
    decreases l, 1int,
{
    reveal_with_fuel(tx_members, 1);
    match l {
        List::Nil => {},
        List::Cons(mb, rest) => {
            let m1 = if member_scope(mb, ign) is Some {
                m
            } else {
                br_member(m, var, ign, mb);
                tx_member(m, var, ign, mb).0
            };
            br_members(m1, var, ign, *rest);
            keeps_trans(m, m1, tx_members(m1, var, ign, *rest).0);
        },
    }
}

#[verifier::rlimit(100)]
#[verifier::spinoff_prover]
proof fn br_member(m: CoverageModel, var: Text, ign: List<Text>, mb: ClassMember)
    ensures
        keeps_branches(m, tx_member(m, var, ign, mb).0),
    decreases mb, 0int,
{
    reveal_with_fuel(tx_member, 1);
    match mb.kind {
        crate::ast::MemberKind::Method { params, body_span, body } => {
            if mb.span is Some && body_span is Some {
                let m1 = m.add_function(Some(mb.name), mb.span->0, body_span->0);
                keeps_add_function(m, Some(mb.name), mb.span->0, body_span->0);
                br_params(m1, var, ign, params);
                let m2 = tx_params(m1, var, ign, params).0;
                keeps_trans(m, m1, m2);
                br_stmts(m2, var, ign, *body);
                keeps_trans(m, m2, tx_stmt_list(m2, var, ign, *body).0);
            } else {
                br_params(m, var, ign, params);
                let m1 = tx_params(m, var, ign, params).0;
                br_stmts(m1, var, ign, *body);
                keeps_trans(m, m1, tx_stmt_list(m1, var, ign, *body).0);
            }
        },
        crate::ast::MemberKind::Prop { value } => {
            match value {
                Some(e) => {
                    br_expr(m, var, ign, e);
                    let m1 = tx_expr(m, var, ign, e).0;
                    if e.span is Some {
                        keeps_add_statement(m1, e.span->0);
                        keeps_trans(m, m1, m1.add_statement(e.span->0));
                    }
                },
                None => {},
            }
        },
        crate::ast::MemberKind::PrivateProp { value } => {
            match value {
                Some(e) => {
                    br_expr(m, var, ign, e);
                    let m1 = tx_expr(m, var, ign, e).0;
                    if e.span is Some {
                        keeps_add_statement(m1, e.span->0);
                        keeps_trans(m, m1, m1.add_statement(e.span->0));
                    }
                },
                None => {},
            }
        },
    }
}

/// Branch paths of an `if`: instrumenting an `if` with a range and no
/// ignore hint allocates one branch of kind `If` at the next id with
/// exactly two paths — one for the consequent, one for the (possibly
/// synthesized) alternate — whatever the arms and the test contain.
#[verifier::rlimit(100)]
#[verifier::spinoff_prover]
pub proof fn lemma_if_branch_two_paths(m: CoverageModel, var: Text, ign: List<Text>, s: Stmt)
    requires
        s.kind matches StmtKind::If { .. },
        s.span is Some,
        spec_should_ignore(s.leading) is None,
    ensures
        ({
            let r = tx_counted(m, var, ign, s);
            let bid = m.branches.len() as int;
            &&& r.0.branches.len() > bid
            &&& r.0.branches[bid].kind == BranchKind::If
            &&& r.0.branches[bid].loc == s.span->0
            &&& r.0.branches[bid].locations.len() == 2
        }),
    decreases s, 3int,
{
    reveal_with_fuel(tx_counted, 1);
    match s.kind {
        StmtKind::If { test, cons, alt } => {
            let rr = s.span->0;
            let bid = m.branches.len() as int;
            let m1 = m.add_branch(BranchKind::If, rr);
            assert(m1.branches[bid] == (BranchModel {
                kind: BranchKind::If,
                loc: rr,
                locations: Seq::<SourceRange>::empty(),
            }));
            br_arm(m1, var, ign, bid, rr, *cons);
            let m2 = tx_arm(m1, var, ign, bid, rr, *cons).0;
            assert(m2.branches[bid].locations.len() == 1);
            let m3 = match alt {
                Some(a) => {
                    br_arm(m2, var, ign, bid, rr, *a);
                    tx_arm(m2, var, ign, bid, rr, *a).0
                },
                None => m2.add_branch_path(bid, rr),
            };
            assert(m3.branches[bid].locations.len() == 2);
            br_expr(m3, var, ign, test);
            let m4 = tx_expr(m3, var, ign, test).0;
            assert(m4.branches[bid] == m3.branches[bid]);
        },
        _ => {},
    }
}

} // verus!
