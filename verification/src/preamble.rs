//! The preamble synthesizer. It produces the two module items prepended to
//! an instrumented file: the declaration of the coverage function `F`, whose
//! body resolves the global object, initializes the registry under the
//! configured coverage variable, stores the zero-initialized coverage record
//! literal under the file path, and returns that record; and the eager call
//! `F();` that forces initialization at load.

use vstd::prelude::*;
use crate::ast::{ArrowBody, Declarator, DeclKind, Expr, ExprKind, Prop, Stmt, StmtKind,
    mk_synth_expr, mk_synth_stmt, synth_expr, synth_stmt};
use crate::cov_map::{BranchEntry, BranchKind, BranchModel, CoverageMap, CoverageModel, FnEntry};
use crate::hashing::dec_digits;
use crate::json::kind_name;
use crate::list::{List, Text, text_clone, text_of_seq, text_of_vec};
use crate::range::SourceRange;

verus! {

/// The decimal digits of `n` as a `Text` key.
pub open spec fn dec_text(n: int) -> Text {
    text_of_seq(dec_digits(n as nat))
}

fn mk_dec_text(n: u64) -> (t: Text)
    ensures
        t == dec_text(n as int),
{
    let v = crate::hashing::u64_to_dec(n);
    text_of_vec(&v)
}

pub open spec fn k_line() -> Text {
    text_of_seq(seq![108u8, 105u8, 110u8, 101u8])
}

pub open spec fn k_column() -> Text {
    text_of_seq(seq![99u8, 111u8, 108u8, 117u8, 109u8, 110u8])
}

pub open spec fn k_start() -> Text {
    text_of_seq(seq![115u8, 116u8, 97u8, 114u8, 116u8])
}

pub open spec fn k_end() -> Text {
    text_of_seq(seq![101u8, 110u8, 100u8])
}

pub open spec fn k_name() -> Text {
    text_of_seq(seq![110u8, 97u8, 109u8, 101u8])
}

pub open spec fn k_decl() -> Text {
    text_of_seq(seq![100u8, 101u8, 99u8, 108u8])
}

pub open spec fn k_loc() -> Text {
    text_of_seq(seq![108u8, 111u8, 99u8])
}

pub open spec fn k_type() -> Text {
    text_of_seq(seq![116u8, 121u8, 112u8, 101u8])
}

pub open spec fn k_locations() -> Text {
    text_of_seq(seq![108u8, 111u8, 99u8, 97u8, 116u8, 105u8, 111u8, 110u8, 115u8])
}

pub open spec fn k_path() -> Text {
    text_of_seq(seq![112u8, 97u8, 116u8, 104u8])
}

pub open spec fn k_statement_map() -> Text {
    text_of_seq(
        seq![115u8, 116u8, 97u8, 116u8, 101u8, 109u8, 101u8, 110u8, 116u8, 77u8, 97u8, 112u8],
    )
}

pub open spec fn k_fn_map() -> Text {
    text_of_seq(seq![102u8, 110u8, 77u8, 97u8, 112u8])
}

pub open spec fn k_branch_map() -> Text {
    text_of_seq(seq![98u8, 114u8, 97u8, 110u8, 99u8, 104u8, 77u8, 97u8, 112u8])
}

pub open spec fn k_s() -> Text {
    text_of_seq(seq![115u8])
}

pub open spec fn k_f() -> Text {
    text_of_seq(seq![102u8])
}

pub open spec fn k_b() -> Text {
    text_of_seq(seq![98u8])
}

pub open spec fn k_hash() -> Text {
    text_of_seq(seq![104u8, 97u8, 115u8, 104u8])
}

pub open spec fn k_g() -> Text {
    text_of_seq(seq![103u8])
}

pub open spec fn this_word() -> Seq<u8> {
    seq![116u8, 104u8, 105u8, 115u8]
}

fn mk_k_line() -> (t: Text)
    ensures
        t == k_line(),
{
    let v: Vec<u8> = vec![108, 105, 110, 101];
    assert(v@ =~= seq![108u8, 105u8, 110u8, 101u8]);
    text_of_vec(&v)
}

fn mk_k_column() -> (t: Text)
    ensures
        t == k_column(),
{
    let v: Vec<u8> = vec![99, 111, 108, 117, 109, 110];
    assert(v@ =~= seq![99u8, 111u8, 108u8, 117u8, 109u8, 110u8]);
    text_of_vec(&v)
}

fn mk_k_start() -> (t: Text)
    ensures
        t == k_start(),
{
    let v: Vec<u8> = vec![115, 116, 97, 114, 116];
    assert(v@ =~= seq![115u8, 116u8, 97u8, 114u8, 116u8]);
    text_of_vec(&v)
}

fn mk_k_end() -> (t: Text)
    ensures
        t == k_end(),
{
    let v: Vec<u8> = vec![101, 110, 100];
    assert(v@ =~= seq![101u8, 110u8, 100u8]);
    text_of_vec(&v)
}

fn mk_k_name() -> (t: Text)
    ensures
        t == k_name(),
{
    let v: Vec<u8> = vec![110, 97, 109, 101];
    assert(v@ =~= seq![110u8, 97u8, 109u8, 101u8]);
    text_of_vec(&v)
}

fn mk_k_decl() -> (t: Text)
    ensures
        t == k_decl(),
{
    let v: Vec<u8> = vec![100, 101, 99, 108];
    assert(v@ =~= seq![100u8, 101u8, 99u8, 108u8]);
    text_of_vec(&v)
}

fn mk_k_loc() -> (t: Text)
    ensures
        t == k_loc(),
{
    let v: Vec<u8> = vec![108, 111, 99];
    assert(v@ =~= seq![108u8, 111u8, 99u8]);
    text_of_vec(&v)
}

fn mk_k_type() -> (t: Text)
    ensures
        t == k_type(),
{
    let v: Vec<u8> = vec![116, 121, 112, 101];
    assert(v@ =~= seq![116u8, 121u8, 112u8, 101u8]);
    text_of_vec(&v)
}

fn mk_k_locations() -> (t: Text)
    ensures
        t == k_locations(),
{
    let v: Vec<u8> = vec![108, 111, 99, 97, 116, 105, 111, 110, 115];
    assert(v@ =~= seq![108u8, 111u8, 99u8, 97u8, 116u8, 105u8, 111u8, 110u8, 115u8]);
    text_of_vec(&v)
}

fn mk_k_path() -> (t: Text)
    ensures
        t == k_path(),
{
    let v: Vec<u8> = vec![112, 97, 116, 104];
    assert(v@ =~= seq![112u8, 97u8, 116u8, 104u8]);
    text_of_vec(&v)
}

fn mk_k_statement_map() -> (t: Text)
    ensures
        t == k_statement_map(),
{
    let v: Vec<u8> = vec![115, 116, 97, 116, 101, 109, 101, 110, 116, 77, 97, 112];
    assert(v@ =~= seq![115u8, 116u8, 97u8, 116u8, 101u8, 109u8, 101u8, 110u8, 116u8, 77u8, 97u8, 112u8]);
    text_of_vec(&v)
}

fn mk_k_fn_map() -> (t: Text)
    ensures
        t == k_fn_map(),
{
    let v: Vec<u8> = vec![102, 110, 77, 97, 112];
    assert(v@ =~= seq![102u8, 110u8, 77u8, 97u8, 112u8]);
    text_of_vec(&v)
}

fn mk_k_branch_map() -> (t: Text)
    ensures
        t == k_branch_map(),
{
    let v: Vec<u8> = vec![98, 114, 97, 110, 99, 104, 77, 97, 112];
    assert(v@ =~= seq![98u8, 114u8, 97u8, 110u8, 99u8, 104u8, 77u8, 97u8, 112u8]);
    text_of_vec(&v)
}

fn mk_k_s() -> (t: Text)
    ensures
        t == k_s(),
{
    let v: Vec<u8> = vec![115];
    assert(v@ =~= seq![115u8]);
    text_of_vec(&v)
}

fn mk_k_f() -> (t: Text)
    ensures
        t == k_f(),
{
    let v: Vec<u8> = vec![102];
    assert(v@ =~= seq![102u8]);
    text_of_vec(&v)
}

fn mk_k_b() -> (t: Text)
    ensures
        t == k_b(),
{
    let v: Vec<u8> = vec![98];
    assert(v@ =~= seq![98u8]);
    text_of_vec(&v)
}

fn mk_k_hash() -> (t: Text)
    ensures
        t == k_hash(),
{
    let v: Vec<u8> = vec![104, 97, 115, 104];
    assert(v@ =~= seq![104u8, 97u8, 115u8, 104u8]);
    text_of_vec(&v)
}

fn mk_k_g() -> (t: Text)
    ensures
        t == k_g(),
{
    let v: Vec<u8> = vec![103];
    assert(v@ =~= seq![103u8]);
    text_of_vec(&v)
}

fn mk_this_text() -> (t: Text)
    ensures
        t == text_of_seq(this_word()),
{
    let v: Vec<u8> = vec![116, 104, 105, 115];
    assert(v@ =~= this_word());
    text_of_vec(&v)
}

/// `{line: l, column: c}`.
pub open spec fn pos_literal(l: u32, c: u32) -> Expr {
    synth_expr(
        ExprKind::Object(
            Box::new(
                List::Cons(
                    Prop { key: k_line(), value: synth_expr(ExprKind::Num(l as u64)) },
                    Box::new(
                        List::Cons(
                            Prop {
                                key: k_column(),
                                value: synth_expr(ExprKind::Num(c as u64)),
                            },
                            Box::new(List::Nil),
                        ),
                    ),
                ),
            ),
        ),
    )
}

/// `{start: {..}, end: {..}}`.
pub open spec fn range_literal(r: SourceRange) -> Expr {
    synth_expr(
        ExprKind::Object(
            Box::new(
                List::Cons(
                    Prop { key: k_start(), value: pos_literal(r.start_line, r.start_col) },
                    Box::new(
                        List::Cons(
                            Prop { key: k_end(), value: pos_literal(r.end_line, r.end_col) },
                            Box::new(List::Nil),
                        ),
                    ),
                ),
            ),
        ),
    )
}

fn mk_pos_literal(l: u32, c: u32) -> (e: Expr)
    ensures
        e == pos_literal(l, c),
{
    let kl = mk_k_line();
    let kc = mk_k_column();
    mk_synth_expr(
        ExprKind::Object(
            Box::new(
                List::Cons(
                    Prop { key: kl, value: mk_synth_expr(ExprKind::Num(l as u64)) },
                    Box::new(
                        List::Cons(
                            Prop { key: kc, value: mk_synth_expr(ExprKind::Num(c as u64)) },
                            Box::new(List::Nil),
                        ),
                    ),
                ),
            ),
        ),
    )
}

fn mk_range_literal(r: &SourceRange) -> (e: Expr)
    ensures
        e == range_literal(*r),
{
    let ks = mk_k_start();
    let ke = mk_k_end();
    mk_synth_expr(
        ExprKind::Object(
            Box::new(
                List::Cons(
                    Prop { key: ks, value: mk_pos_literal(r.start_line, r.start_col) },
                    Box::new(
                        List::Cons(
                            Prop { key: ke, value: mk_pos_literal(r.end_line, r.end_col) },
                            Box::new(List::Nil),
                        ),
                    ),
                ),
            ),
        ),
    )
}

/// The props `"i": {range}` of the statement-map literal, from `i` up.
pub open spec fn stmt_map_props(s: Seq<SourceRange>, i: int) -> List<Prop>
    decreases s.len() - i,
{
    if i < 0 || i >= s.len() {
        List::Nil
    } else {
        List::Cons(
            Prop { key: dec_text(i), value: range_literal(s[i]) },
            Box::new(stmt_map_props(s, i + 1)),
        )
    }
}

fn mk_stmt_map_props(s: &Vec<SourceRange>, i: usize) -> (l: List<Prop>)
    requires
        i <= s.len(),
    ensures
        l == stmt_map_props(s@, i as int),
    decreases s.len() - i,
{
    if i < s.len() {
        let rest = mk_stmt_map_props(s, i + 1);
        List::Cons(
            Prop { key: mk_dec_text(i as u64), value: mk_range_literal(&s[i]) },
            Box::new(rest),
        )
    } else {
        List::Nil
    }
}

/// `{name: <name or null>, decl: R, loc: R, line: N}`.
pub open spec fn fn_entry_literal(f: FnEntry) -> Expr {
    synth_expr(
        ExprKind::Object(
            Box::new(
                List::Cons(
                    Prop {
                        key: k_name(),
                        value: match f.name {
                            Some(n) => synth_expr(ExprKind::Str(n)),
                            None => synth_expr(ExprKind::Null),
                        },
                    },
                    Box::new(
                        List::Cons(
                            Prop { key: k_decl(), value: range_literal(f.decl) },
                            Box::new(
                                List::Cons(
                                    Prop { key: k_loc(), value: range_literal(f.loc) },
                                    Box::new(
                                        List::Cons(
                                            Prop {
                                                key: k_line(),
                                                value: synth_expr(
                                                    ExprKind::Num(f.line_count as u64),
                                                ),
                                            },
                                            Box::new(List::Nil),
                                        ),
                                    ),
                                ),
                            ),
                        ),
                    ),
                ),
            ),
        ),
    )
}

fn mk_fn_entry_literal(f: &FnEntry) -> (e: Expr)
    ensures
        e == fn_entry_literal(*f),
{
    let kn = mk_k_name();
    let kd = mk_k_decl();
    let kl = mk_k_loc();
    let ki = mk_k_line();
    let name_value = match &f.name {
        Some(n) => mk_synth_expr(ExprKind::Str(text_clone(n))),
        None => mk_synth_expr(ExprKind::Null),
    };
    mk_synth_expr(
        ExprKind::Object(
            Box::new(
                List::Cons(
                    Prop { key: kn, value: name_value },
                    Box::new(
                        List::Cons(
                            Prop { key: kd, value: mk_range_literal(&f.decl) },
                            Box::new(
                                List::Cons(
                                    Prop { key: kl, value: mk_range_literal(&f.loc) },
                                    Box::new(
                                        List::Cons(
                                            Prop {
                                                key: ki,
                                                value: mk_synth_expr(
                                                    ExprKind::Num(f.line_count as u64),
                                                ),
                                            },
                                            Box::new(List::Nil),
                                        ),
                                    ),
                                ),
                            ),
                        ),
                    ),
                ),
            ),
        ),
    )
}

/// The props `"i": {entry}` of the function-map literal.
pub open spec fn fn_map_props(s: Seq<FnEntry>, i: int) -> List<Prop>
    decreases s.len() - i,
{
    if i < 0 || i >= s.len() {
        List::Nil
    } else {
        List::Cons(
            Prop { key: dec_text(i), value: fn_entry_literal(s[i]) },
            Box::new(fn_map_props(s, i + 1)),
        )
    }
}

fn mk_fn_map_props(s: &Vec<FnEntry>, i: usize) -> (l: List<Prop>)
    requires
        i <= s.len(),
    ensures
        l == fn_map_props(s@, i as int),
    decreases s.len() - i,
{
    if i < s.len() {
        let rest = mk_fn_map_props(s, i + 1);
        List::Cons(
            Prop { key: mk_dec_text(i as u64), value: mk_fn_entry_literal(&s[i]) },
            Box::new(rest),
        )
    } else {
        List::Nil
    }
}

/// The array literal of a branch's path ranges.
pub open spec fn locs_literal(s: Seq<SourceRange>, i: int) -> List<Expr>
    decreases s.len() - i,
{
    if i < 0 || i >= s.len() {
        List::Nil
    } else {
        List::Cons(range_literal(s[i]), Box::new(locs_literal(s, i + 1)))
    }
}

fn mk_locs_literal(s: &Vec<SourceRange>, i: usize) -> (l: List<Expr>)
    requires
        i <= s.len(),
    ensures
        l == locs_literal(s@, i as int),
    decreases s.len() - i,
{
    if i < s.len() {
        let rest = mk_locs_literal(s, i + 1);
        List::Cons(mk_range_literal(&s[i]), Box::new(rest))
    } else {
        List::Nil
    }
}

/// `{loc: R, type: "<kind>", locations: [..]}`.
pub open spec fn branch_entry_literal(b: BranchModel) -> Expr {
    synth_expr(
        ExprKind::Object(
            Box::new(
                List::Cons(
                    Prop { key: k_loc(), value: range_literal(b.loc) },
                    Box::new(
                        List::Cons(
                            Prop {
                                key: k_type(),
                                value: synth_expr(ExprKind::Str(text_of_seq(kind_name(b.kind)))),
                            },
                            Box::new(
                                List::Cons(
                                    Prop {
                                        key: k_locations(),
                                        value: synth_expr(
                                            ExprKind::Array(
                                                Box::new(locs_literal(b.locations, 0)),
                                            ),
                                        ),
                                    },
                                    Box::new(List::Nil),
                                ),
                            ),
                        ),
                    ),
                ),
            ),
        ),
    )
}

fn mk_branch_entry_literal(b: &BranchEntry) -> (e: Expr)
    ensures
        e == branch_entry_literal(b@),
{
    let kl = mk_k_loc();
    let kt = mk_k_type();
    let ko = mk_k_locations();
    let kind_vec: Vec<u8> = match b.kind {
        BranchKind::If => vec![105, 102],
        BranchKind::BinaryExpr => vec![98, 105, 110, 97, 114, 121, 45, 101, 120, 112, 114],
        BranchKind::CondExpr => vec![99, 111, 110, 100, 45, 101, 120, 112, 114],
        BranchKind::Switch => vec![115, 119, 105, 116, 99, 104],
        BranchKind::DefaultArg => vec![100, 101, 102, 97, 117, 108, 116, 45, 97, 114, 103],
    };
    assert(kind_vec@ =~= kind_name(b.kind));
    let kindt = text_of_vec(&kind_vec);
    mk_synth_expr(
        ExprKind::Object(
            Box::new(
                List::Cons(
                    Prop { key: kl, value: mk_range_literal(&b.loc) },
                    Box::new(
                        List::Cons(
                            Prop { key: kt, value: mk_synth_expr(ExprKind::Str(kindt)) },
                            Box::new(
                                List::Cons(
                                    Prop {
                                        key: ko,
                                        value: mk_synth_expr(
                                            ExprKind::Array(
                                                Box::new(mk_locs_literal(&b.locations, 0)),
                                            ),
                                        ),
                                    },
                                    Box::new(List::Nil),
                                ),
                            ),
                        ),
                    ),
                ),
            ),
        ),
    )
}

/// The props `"i": {entry}` of the branch-map literal.
pub open spec fn branch_map_props(s: Seq<BranchModel>, i: int) -> List<Prop>
    decreases s.len() - i,
{
    if i < 0 || i >= s.len() {
        List::Nil
    } else {
        List::Cons(
            Prop { key: dec_text(i), value: branch_entry_literal(s[i]) },
            Box::new(branch_map_props(s, i + 1)),
        )
    }
}

fn mk_branch_map_props(s: &Vec<BranchEntry>, i: usize) -> (l: List<Prop>)
    requires
        i <= s.len(),
    ensures
        l == branch_map_props(s@.map_values(|b: BranchEntry| b@), i as int),
    decreases s.len() - i,
{
    let ghost model = s@.map_values(|b: BranchEntry| b@);
    if i < s.len() {
        let rest = mk_branch_map_props(s, i + 1);
        let l = List::Cons(
            Prop { key: mk_dec_text(i as u64), value: mk_branch_entry_literal(&s[i]) },
            Box::new(rest),
        );
        assert(model[i as int] == s@[i as int]@);
        l
    } else {
        List::Nil
    }
}

/// Zero-counter props `"i": 0`.
pub open spec fn zero_props(n: int, i: int) -> List<Prop>
    decreases n - i,
{
    if i < 0 || i >= n {
        List::Nil
    } else {
        List::Cons(
            Prop { key: dec_text(i), value: synth_expr(ExprKind::Num(0)) },
            Box::new(zero_props(n, i + 1)),
        )
    }
}

fn mk_zero_props(n: usize, i: usize) -> (l: List<Prop>)
    requires
        i <= n,
    ensures
        l == zero_props(n as int, i as int),
    decreases n - i,
{
    if i < n {
        let rest = mk_zero_props(n, i + 1);
        List::Cons(
            Prop { key: mk_dec_text(i as u64), value: mk_synth_expr(ExprKind::Num(0)) },
            Box::new(rest),
        )
    } else {
        List::Nil
    }
}

/// A zero array of length `n`.
pub open spec fn zero_array(n: int, i: int) -> List<Expr>
    decreases n - i,
{
    if i < 0 || i >= n {
        List::Nil
    } else {
        List::Cons(synth_expr(ExprKind::Num(0)), Box::new(zero_array(n, i + 1)))
    }
}

fn mk_zero_array(n: usize, i: usize) -> (l: List<Expr>)
    requires
        i <= n,
    ensures
        l == zero_array(n as int, i as int),
    decreases n - i,
{
    if i < n {
        let rest = mk_zero_array(n, i + 1);
        List::Cons(mk_synth_expr(ExprKind::Num(0)), Box::new(rest))
    } else {
        List::Nil
    }
}

/// Branch zero counters `"i": [0, ...]`, one zero per path.
pub open spec fn branch_zero_props(s: Seq<BranchModel>, i: int) -> List<Prop>
    decreases s.len() - i,
{
    if i < 0 || i >= s.len() {
        List::Nil
    } else {
        List::Cons(
            Prop {
                key: dec_text(i),
                value: synth_expr(
                    ExprKind::Array(Box::new(zero_array(s[i].locations.len() as int, 0))),
                ),
            },
            Box::new(branch_zero_props(s, i + 1)),
        )
    }
}

fn mk_branch_zero_props(s: &Vec<BranchEntry>, i: usize) -> (l: List<Prop>)
    requires
        i <= s.len(),
    ensures
        l == branch_zero_props(s@.map_values(|b: BranchEntry| b@), i as int),
    decreases s.len() - i,
{
    let ghost model = s@.map_values(|b: BranchEntry| b@);
    if i < s.len() {
        let rest = mk_branch_zero_props(s, i + 1);
        let n = s[i].locations.len();
        let l = List::Cons(
            Prop {
                key: mk_dec_text(i as u64),
                value: mk_synth_expr(ExprKind::Array(Box::new(mk_zero_array(n, 0)))),
            },
            Box::new(rest),
        );
        assert(model[i as int] == s@[i as int]@);
        l
    } else {
        List::Nil
    }
}

/// The coverage record literal: path, the three maps, zeroed counters and
/// the content hash rendered in decimal.
pub open spec fn record_literal(m: CoverageModel) -> Expr {
    synth_expr(
        ExprKind::Object(
            Box::new(
                List::Cons(
                    Prop {
                        key: k_path(),
                        value: synth_expr(ExprKind::Str(text_of_seq(m.path))),
                    },
                    Box::new(
                        List::Cons(
                            Prop {
                                key: k_statement_map(),
                                value: synth_expr(
                                    ExprKind::Object(Box::new(stmt_map_props(m.statements, 0))),
                                ),
                            },
                            Box::new(
                                List::Cons(
                                    Prop {
                                        key: k_fn_map(),
                                        value: synth_expr(
                                            ExprKind::Object(
                                                Box::new(fn_map_props(m.functions, 0)),
                                            ),
                                        ),
                                    },
                                    Box::new(
                                        List::Cons(
                                            Prop {
                                                key: k_branch_map(),
                                                value: synth_expr(
                                                    ExprKind::Object(
                                                        Box::new(branch_map_props(m.branches, 0)),
                                                    ),
                                                ),
                                            },
                                            Box::new(
                                                List::Cons(
                                                    Prop {
                                                        key: k_s(),
                                                        value: synth_expr(
                                                            ExprKind::Object(
                                                                Box::new(
                                                                    zero_props(
                                                                        m.statements.len() as int,
                                                                        0,
                                                                    ),
                                                                ),
                                                            ),
                                                        ),
                                                    },
                                                    Box::new(
                                                        List::Cons(
                                                            Prop {
                                                                key: k_f(),
                                                                value: synth_expr(
                                                                    ExprKind::Object(
                                                                        Box::new(
                                                                            zero_props(
                                                                                m.functions.len() as int,
                                                                                0,
                                                                            ),
                                                                        ),
                                                                    ),
                                                                ),
                                                            },
                                                            Box::new(
                                                                List::Cons(
                                                                    Prop {
                                                                        key: k_b(),
                                                                        value: synth_expr(
                                                                            ExprKind::Object(
                                                                                Box::new(
                                                                                    branch_zero_props(
                                                                                        m.branches,
                                                                                        0,
                                                                                    ),
                                                                                ),
                                                                            ),
                                                                        ),
                                                                    },
                                                                    Box::new(
                                                                        List::Cons(
                                                                            Prop {
                                                                                key: k_hash(),
                                                                                value: synth_expr(
                                                                                    ExprKind::Str(
                                                                                        dec_text(
                                                                                            m.hash as int,
                                                                                        ),
                                                                                    ),
                                                                                ),
                                                                            },
                                                                            Box::new(List::Nil),
                                                                        ),
                                                                    ),
                                                                ),
                                                            ),
                                                        ),
                                                    ),
                                                ),
                                            ),
                                        ),
                                    ),
                                ),
                            ),
                        ),
                    ),
                ),
            ),
        ),
    )
}

/// Builds the record literal from the frozen map.
pub fn mk_record_literal(cov: &CoverageMap) -> (e: Expr)
    ensures
        e == record_literal(cov@),
{
    let kp = mk_k_path();
    let ksm = mk_k_statement_map();
    let kfm = mk_k_fn_map();
    let kbm = mk_k_branch_map();
    let ks = mk_k_s();
    let kf = mk_k_f();
    let kb = mk_k_b();
    let kh = mk_k_hash();
    let path_text = text_of_vec(&cov.path);
    let props = List::Cons(
        Prop { key: kp, value: mk_synth_expr(ExprKind::Str(path_text)) },
        Box::new(
            List::Cons(
                Prop {
                    key: ksm,
                    value: mk_synth_expr(
                        ExprKind::Object(Box::new(mk_stmt_map_props(&cov.statements, 0))),
                    ),
                },
                Box::new(
                    List::Cons(
                        Prop {
                            key: kfm,
                            value: mk_synth_expr(
                                ExprKind::Object(Box::new(mk_fn_map_props(&cov.functions, 0))),
                            ),
                        },
                        Box::new(
                            List::Cons(
                                Prop {
                                    key: kbm,
                                    value: mk_synth_expr(
                                        ExprKind::Object(
                                            Box::new(mk_branch_map_props(&cov.branches, 0)),
                                        ),
                                    ),
                                },
                                Box::new(
                                    List::Cons(
                                        Prop {
                                            key: ks,
                                            value: mk_synth_expr(
                                                ExprKind::Object(
                                                    Box::new(
                                                        mk_zero_props(cov.statements.len(), 0),
                                                    ),
                                                ),
                                            ),
                                        },
                                        Box::new(
                                            List::Cons(
                                                Prop {
                                                    key: kf,
                                                    value: mk_synth_expr(
                                                        ExprKind::Object(
                                                            Box::new(
                                                                mk_zero_props(
                                                                    cov.functions.len(),
                                                                    0,
                                                                ),
                                                            ),
                                                        ),
                                                    ),
                                                },
                                                Box::new(
                                                    List::Cons(
                                                        Prop {
                                                            key: kb,
                                                            value: mk_synth_expr(
                                                                ExprKind::Object(
                                                                    Box::new(
                                                                        mk_branch_zero_props(
                                                                            &cov.branches,
                                                                            0,
                                                                        ),
                                                                    ),
                                                                ),
                                                            ),
                                                        },
                                                        Box::new(
                                                            List::Cons(
                                                                Prop {
                                                                    key: kh,
                                                                    value: mk_synth_expr(
                                                                        ExprKind::Str(
                                                                            mk_dec_text(cov.hash),
                                                                        ),
                                                                    ),
                                                                },
                                                                Box::new(List::Nil),
                                                            ),
                                                        ),
                                                    ),
                                                ),
                                            ),
                                        ),
                                    ),
                                ),
                            ),
                        ),
                    ),
                ),
            ),
        ),
    );
    mk_synth_expr(ExprKind::Object(Box::new(props)))
}

/// The expression that evaluates to the global object: the configured scope
/// expression (`this` by default), optionally computed inside a
/// self-invoked function expression.
pub open spec fn global_resolver(scope: Text, scope_func: bool) -> Expr {
    let scope_expr = if scope == text_of_seq(this_word()) {
        synth_expr(ExprKind::This)
    } else {
        synth_expr(ExprKind::Ident(scope))
    };
    if scope_func {
        synth_expr(
            ExprKind::Call {
                callee: Box::new(
                    synth_expr(
                        ExprKind::Paren(
                            Box::new(
                                synth_expr(
                                    ExprKind::FnExpr {
                                        name: None,
                                        params: Box::new(List::Nil),
                                        body_span: None,
                                        body: Box::new(
                                            List::Cons(
                                                synth_stmt(
                                                    StmtKind::Return(Some(scope_expr)),
                                                ),
                                                Box::new(List::Nil),
                                            ),
                                        ),
                                    },
                                ),
                            ),
                        ),
                    ),
                ),
                args: Box::new(List::Nil),
            },
        )
    } else {
        scope_expr
    }
}

fn mk_global_resolver(scope: &Text, scope_func: bool) -> (e: Expr)
    ensures
        e == global_resolver(*scope, scope_func),
{
    let tw = mk_this_text();
    let scope_expr = if crate::list::text_eq(scope, &tw) {
        mk_synth_expr(ExprKind::This)
    } else {
        mk_synth_expr(ExprKind::Ident(text_clone(scope)))
    };
    if scope_func {
        mk_synth_expr(
            ExprKind::Call {
                callee: Box::new(
                    mk_synth_expr(
                        ExprKind::Paren(
                            Box::new(
                                mk_synth_expr(
                                    ExprKind::FnExpr {
                                        name: None,
                                        params: Box::new(List::Nil),
                                        body_span: None,
                                        body: Box::new(
                                            List::Cons(
                                                mk_synth_stmt(
                                                    StmtKind::Return(Some(scope_expr)),
                                                ),
                                                Box::new(List::Nil),
                                            ),
                                        ),
                                    },
                                ),
                            ),
                        ),
                    ),
                ),
                args: Box::new(List::Nil),
            },
        )
    } else {
        scope_expr
    }
}

/// `g[cov_var]` or `g[cov_var][path]`.
pub open spec fn registry_ref(cov_var: Text) -> Expr {
    synth_expr(
        ExprKind::Index {
            obj: Box::new(synth_expr(ExprKind::Ident(k_g()))),
            index: Box::new(synth_expr(ExprKind::Str(cov_var))),
        },
    )
}

pub open spec fn record_ref(cov_var: Text, path: Text) -> Expr {
    synth_expr(
        ExprKind::Index {
            obj: Box::new(registry_ref(cov_var)),
            index: Box::new(synth_expr(ExprKind::Str(path))),
        },
    )
}

fn mk_registry_ref(cov_var: &Text) -> (e: Expr)
    ensures
        e == registry_ref(*cov_var),
{
    let g = mk_k_g();
    mk_synth_expr(
        ExprKind::Index {
            obj: Box::new(mk_synth_expr(ExprKind::Ident(g))),
            index: Box::new(mk_synth_expr(ExprKind::Str(text_clone(cov_var)))),
        },
    )
}

fn mk_record_ref(cov_var: &Text, path: &Text) -> (e: Expr)
    ensures
        e == record_ref(*cov_var, *path),
{
    mk_synth_expr(
        ExprKind::Index {
            obj: Box::new(mk_registry_ref(cov_var)),
            index: Box::new(mk_synth_expr(ExprKind::Str(text_clone(path)))),
        },
    )
}

/// `if (!target) { target = value; }`.
pub open spec fn init_if_absent(target: Expr, value: Expr) -> Stmt {
    synth_stmt(
        StmtKind::If {
            test: synth_expr(ExprKind::Not(Box::new(target))),
            cons: Box::new(
                synth_stmt(
                    StmtKind::Block(
                        Box::new(
                            List::Cons(
                                synth_stmt(
                                    StmtKind::Expr(
                                        synth_expr(
                                            ExprKind::Assign {
                                                target: Box::new(target),
                                                value: Box::new(value),
                                            },
                                        ),
                                    ),
                                ),
                                Box::new(List::Nil),
                            ),
                        ),
                    ),
                ),
            ),
            alt: None,
        },
    )
}

/// The declaration of the coverage function and the eager call `F();`.
pub open spec fn preamble_items(
    m: CoverageModel,
    var: Text,
    cov_var: Text,
    scope: Text,
    scope_func: bool,
) -> (Stmt, Stmt) {
    let path = text_of_seq(m.path);
    let decl_g = synth_stmt(
        StmtKind::VarDecl {
            kind: DeclKind::Var,
            decls: List::Cons(
                Declarator { name: k_g(), init: Some(global_resolver(scope, scope_func)) },
                Box::new(List::Nil),
            ),
        },
    );
    let init_registry = init_if_absent(
        registry_ref(cov_var),
        synth_expr(ExprKind::Object(Box::new(List::Nil))),
    );
    let init_record = init_if_absent(record_ref(cov_var, path), record_literal(m));
    let ret = synth_stmt(StmtKind::Return(Some(record_ref(cov_var, path))));
    let decl = synth_stmt(
        StmtKind::FnDecl {
            name: var,
            params: List::Nil,
            body_span: None,
            body: Box::new(
                List::Cons(
                    decl_g,
                    Box::new(
                        List::Cons(
                            init_registry,
                            Box::new(
                                List::Cons(
                                    init_record,
                                    Box::new(List::Cons(ret, Box::new(List::Nil))),
                                ),
                            ),
                        ),
                    ),
                ),
            ),
        },
    );
    let call = synth_stmt(
        StmtKind::Expr(
            synth_expr(
                ExprKind::Call {
                    callee: Box::new(synth_expr(ExprKind::Ident(var))),
                    args: Box::new(List::Nil),
                },
            ),
        ),
    );
    (decl, call)
}

/// Builds both preamble items from the frozen map.
pub fn mk_preamble_items(
    cov: &CoverageMap,
    var: &Text,
    cov_var: &Text,
    scope: &Text,
    scope_func: bool,
) -> (r: (Stmt, Stmt))
    requires
        cov@.frozen,
    ensures
        r.0 == preamble_items(cov@, *var, *cov_var, *scope, scope_func).0,
        r.1 == preamble_items(cov@, *var, *cov_var, *scope, scope_func).1,
{
    let g = mk_k_g();
    let path_text = text_of_vec(&cov.path);
    let decl_g = mk_synth_stmt(
        StmtKind::VarDecl {
            kind: DeclKind::Var,
            decls: List::Cons(
                Declarator { name: g, init: Some(mk_global_resolver(scope, scope_func)) },
                Box::new(List::Nil),
            ),
        },
    );
    let init_registry = {
        let target = mk_registry_ref(cov_var);
        let target2 = mk_registry_ref(cov_var);
        mk_synth_stmt(
            StmtKind::If {
                test: mk_synth_expr(ExprKind::Not(Box::new(target))),
                cons: Box::new(
                    mk_synth_stmt(
                        StmtKind::Block(
                            Box::new(
                                List::Cons(
                                    mk_synth_stmt(
                                        StmtKind::Expr(
                                            mk_synth_expr(
                                                ExprKind::Assign {
                                                    target: Box::new(target2),
                                                    value: Box::new(
                                                        mk_synth_expr(
                                                            ExprKind::Object(
                                                                Box::new(List::Nil),
                                                            ),
                                                        ),
                                                    ),
                                                },
                                            ),
                                        ),
                                    ),
                                    Box::new(List::Nil),
                                ),
                            ),
                        ),
                    ),
                ),
                alt: None,
            },
        )
    };
    let init_record = {
        let target = mk_record_ref(cov_var, &path_text);
        let target2 = mk_record_ref(cov_var, &path_text);
        mk_synth_stmt(
            StmtKind::If {
                test: mk_synth_expr(ExprKind::Not(Box::new(target))),
                cons: Box::new(
                    mk_synth_stmt(
                        StmtKind::Block(
                            Box::new(
                                List::Cons(
                                    mk_synth_stmt(
                                        StmtKind::Expr(
                                            mk_synth_expr(
                                                ExprKind::Assign {
                                                    target: Box::new(target2),
                                                    value: Box::new(mk_record_literal(cov)),
                                                },
                                            ),
                                        ),
                                    ),
                                    Box::new(List::Nil),
                                ),
                            ),
                        ),
                    ),
                ),
                alt: None,
            },
        )
    };
    let ret = mk_synth_stmt(
        StmtKind::Return(Some(mk_record_ref(cov_var, &path_text))),
    );
    let decl = mk_synth_stmt(
        StmtKind::FnDecl {
            name: text_clone(var),
            params: List::Nil,
            body_span: None,
            body: Box::new(
                List::Cons(
                    decl_g,
                    Box::new(
                        List::Cons(
                            init_registry,
                            Box::new(
                                List::Cons(
                                    init_record,
                                    Box::new(List::Cons(ret, Box::new(List::Nil))),
                                ),
                            ),
                        ),
                    ),
                ),
            ),
        },
    );
    let call = mk_synth_stmt(
        StmtKind::Expr(
            mk_synth_expr(
                ExprKind::Call {
                    callee: Box::new(mk_synth_expr(ExprKind::Ident(text_clone(var)))),
                    args: Box::new(List::Nil),
                },
            ),
        ),
    );
    (decl, call)
}

} // verus!
