//! Canonical JSON rendering of the coverage map, in the Istanbul shape, and
//! the freeze step: freezing computes the stable content hash over the
//! rendering of the three maps, after which mutation is forbidden. The
//! rendering is a function of the map value alone, so byte-identical inputs
//! give byte-identical serializations.

use vstd::prelude::*;
use crate::cov_map::{BranchEntry, BranchKind, BranchModel, CoverageMap, CoverageModel, FnEntry};
use crate::hashing::{dec_digits, fnv64, fnv64_of, u64_to_dec};
use crate::list::{List, Text};
use crate::range::SourceRange;

verus! {

/// One byte, escaped for a JSON string: quote and backslash get a backslash,
/// control bytes become `\u00XX`, anything else stands for itself.
pub open spec fn esc_byte(b: u8) -> Seq<u8> {
    if b == 34 || b == 92 {
        seq![92u8, b]
    } else if b < 32 {
        seq![92u8, 117u8, 48u8, 48u8, hex_digit(b / 16), hex_digit(b % 16)]
    } else {
        seq![b]
    }
}

/// The lower-case hex digit for a value below 16.
pub open spec fn hex_digit(v: u8) -> u8 {
    if v < 10 {
        (48 + v) as u8
    } else {
        (87 + v) as u8
    }
}

/// A byte sequence, escaped for a JSON string.
pub open spec fn escape(s: Seq<u8>) -> Seq<u8>
    decreases s.len(),
{
    if s.len() == 0 {
        Seq::empty()
    } else {
        esc_byte(s[0]).add(escape(s.skip(1)))
    }
}

fn hex_digit_exec(v: u8) -> (d: u8)
    requires
        v < 16,
    ensures
        d == hex_digit(v),
{
    if v < 10 {
        48 + v
    } else {
        87 + v
    }
}

fn push_esc_byte(out: &mut Vec<u8>, b: u8)
    ensures
        final(out)@ == old(out)@.add(esc_byte(b)),
{
    if b == 34 || b == 92 {
        out.push(92);
        out.push(b);
        assert(out@ =~= old(out)@.add(esc_byte(b)));
    } else if b < 32 {
        out.push(92);
        out.push(117);
        out.push(48);
        out.push(48);
        out.push(hex_digit_exec(b / 16));
        out.push(hex_digit_exec(b % 16));
        assert(out@ =~= old(out)@.add(esc_byte(b)));
    } else {
        out.push(b);
        assert(out@ =~= old(out)@.add(esc_byte(b)));
    }
}

/// Appends the escape of `v` to `out`.
pub fn push_escaped(out: &mut Vec<u8>, v: &Vec<u8>)
    ensures
        final(out)@ == old(out)@.add(escape(v@)),
{
    let mut i: usize = 0;
    assert(out@ =~= old(out)@.add(escape(v@.take(0))));
    while i < v.len()
        invariant
            i <= v.len(),
            out@ == old(out)@.add(escape(v@.take(i as int))),
        decreases v.len() - i,
    {
        push_esc_byte(out, v[i]);
        proof {
            lemma_escape_snoc(v@.take(i as int), v@[i as int]);
            assert(v@.take(i + 1) =~= v@.take(i as int).push(v@[i as int]));
        }
        i = i + 1;
    }
    assert(v@.take(v.len() as int) =~= v@);
}

/// Escaping distributes over appending one byte.
proof fn lemma_escape_snoc(s: Seq<u8>, b: u8)
    ensures
        escape(s.push(b)) == escape(s).add(esc_byte(b)),
    decreases s.len(),
{
    if s.len() == 0 {
        assert(s.push(b).skip(1) =~= Seq::<u8>::empty());
        assert(s.push(b)[0] == b);
        assert(escape(s.push(b)) == esc_byte(b).add(escape(Seq::<u8>::empty())));
        assert(escape(Seq::<u8>::empty()) =~= Seq::<u8>::empty());
        assert(esc_byte(b).add(Seq::<u8>::empty()) =~= esc_byte(b));
        assert(escape(s) =~= Seq::<u8>::empty());
        assert(escape(s).add(esc_byte(b)) =~= esc_byte(b));
        assert(escape(s.push(b)) =~= escape(s).add(esc_byte(b)));
    } else {
        assert(s.push(b).skip(1) =~= s.skip(1).push(b));
        lemma_escape_snoc(s.skip(1), b);
        assert(escape(s.push(b)) =~= escape(s).add(esc_byte(b)));
    }
}

/// Appends the escape of a `Text` to `out`.
pub fn push_escaped_text(out: &mut Vec<u8>, t: &Text)
    ensures
        final(out)@ == old(out)@.add(escape((*t).view_seq())),
    decreases *t,
{
    match t {
        List::Nil => {
            assert(out@ =~= old(out)@.add(escape(List::Nil.view_seq())));
        },
        List::Cons(b, rest) => {
            push_esc_byte(out, *b);
            push_escaped_text(out, rest);
            proof {
                assert((*t).view_seq() =~= seq![*b].add((**rest).view_seq()));
                lemma_escape_cons(*b, (**rest).view_seq());
                assert(out@ =~= old(out)@.add(escape((*t).view_seq())));
            }
        },
    }
}

proof fn lemma_escape_cons(b: u8, s: Seq<u8>)
    ensures
        escape(seq![b].add(s)) == esc_byte(b).add(escape(s)),
{
    assert(seq![b].add(s)[0] == b);
    assert(seq![b].add(s).skip(1) =~= s);
}

/// Decimal rendering of a sequence length or id.
pub open spec fn dec_of(n: int) -> Seq<u8> {
    dec_digits(n as nat)
}

/// `{"start":{"line":a,"column":b},"end":{"line":c,"column":d}}`.
pub open spec fn json_range(r: SourceRange) -> Seq<u8> {
    lit_start().add(dec_of(r.start_line as int)).add(lit_col()).add(
        dec_of(r.start_col as int),
    ).add(lit_end()).add(dec_of(r.end_line as int)).add(lit_col()).add(
        dec_of(r.end_col as int),
    ).add(lit_close2())
}

pub open spec fn lit_start() -> Seq<u8> {
    // {"start":{"line":
    seq![123u8, 34u8, 115u8, 116u8, 97u8, 114u8, 116u8, 34u8, 58u8, 123u8, 34u8, 108u8, 105u8,
        110u8, 101u8, 34u8, 58u8]
}

pub open spec fn lit_col() -> Seq<u8> {
    // ,"column":
    seq![44u8, 34u8, 99u8, 111u8, 108u8, 117u8, 109u8, 110u8, 34u8, 58u8]
}

pub open spec fn lit_end() -> Seq<u8> {
    // },"end":{"line":
    seq![125u8, 44u8, 34u8, 101u8, 110u8, 100u8, 34u8, 58u8, 123u8, 34u8, 108u8, 105u8, 110u8,
        101u8, 34u8, 58u8]
}

pub open spec fn lit_close2() -> Seq<u8> {
    // }}
    seq![125u8, 125u8]
}

fn push_dec(out: &mut Vec<u8>, n: u64)
    ensures
        final(out)@ == old(out)@.add(dec_of(n as int)),
{
    let mut d = u64_to_dec(n);
    out.append(&mut d);
}

/// Appends the JSON of a range.
#[verifier::rlimit(80)]
#[verifier::spinoff_prover]
pub fn push_range(out: &mut Vec<u8>, r: &SourceRange)
    ensures
        final(out)@ == old(out)@.add(json_range(*r)),
{
    let mut p: Vec<u8> = vec![123, 34, 115, 116, 97, 114, 116, 34, 58, 123, 34, 108, 105, 110,
        101, 34, 58];
    assert(p@ =~= lit_start());
    out.append(&mut p);
    push_dec(out, r.start_line as u64);
    let mut p2: Vec<u8> = vec![44, 34, 99, 111, 108, 117, 109, 110, 34, 58];
    assert(p2@ =~= lit_col());
    out.append(&mut p2);
    push_dec(out, r.start_col as u64);
    let mut p3: Vec<u8> = vec![125, 44, 34, 101, 110, 100, 34, 58, 123, 34, 108, 105, 110, 101,
        34, 58];
    assert(p3@ =~= lit_end());
    out.append(&mut p3);
    push_dec(out, r.end_line as u64);
    let mut p4: Vec<u8> = vec![44, 34, 99, 111, 108, 117, 109, 110, 34, 58];
    assert(p4@ =~= lit_col());
    out.append(&mut p4);
    push_dec(out, r.end_col as u64);
    let mut p5: Vec<u8> = vec![125, 125];
    assert(p5@ =~= lit_close2());
    out.append(&mut p5);
    assert(out@ =~= old(out)@.add(json_range(*r)));
}

/// Entries `"i":<item>` of a dense map, comma-separated, starting at `i`.
pub open spec fn json_stmt_entries(s: Seq<SourceRange>, i: int) -> Seq<u8>
    decreases s.len() - i,
{
    if i < 0 || i >= s.len() {
        Seq::empty()
    } else {
        let head = seq![34u8].add(dec_of(i)).add(seq![34u8, 58u8]).add(json_range(s[i]));
        if i + 1 < s.len() {
            head.add(seq![44u8]).add(json_stmt_entries(s, i + 1))
        } else {
            head
        }
    }
}

#[verifier::rlimit(80)]
#[verifier::spinoff_prover]
fn push_stmt_entries(out: &mut Vec<u8>, s: &Vec<SourceRange>, i: usize)
    requires
        i <= s.len(),
    ensures
        final(out)@ == old(out)@.add(json_stmt_entries(s@, i as int)),
    decreases s.len() - i,
{
    if i < s.len() {
        out.push(34);
        push_dec(out, i as u64);
        out.push(34);
        out.push(58);
        push_range(out, &s[i]);
        if i + 1 < s.len() {
            out.push(44);
            push_stmt_entries(out, s, i + 1);
        }
        assert(out@ =~= old(out)@.add(json_stmt_entries(s@, i as int)));
    } else {
        assert(out@ =~= old(out)@.add(json_stmt_entries(s@, i as int)));
    }
}

/// `{"name":<name>,"decl":R,"loc":R,"line":N}` for one function entry.
pub open spec fn json_fn_entry(f: FnEntry) -> Seq<u8> {
    lit_name().add(
        match f.name {
            Some(n) => seq![34u8].add(escape(n.view_seq())).add(seq![34u8]),
            None => seq![110u8, 117u8, 108u8, 108u8],
        },
    ).add(lit_decl()).add(json_range(f.decl)).add(lit_loc()).add(json_range(f.loc)).add(
        lit_line(),
    ).add(dec_of(f.line_count as int)).add(seq![125u8])
}

pub open spec fn lit_name() -> Seq<u8> {
    // {"name":
    seq![123u8, 34u8, 110u8, 97u8, 109u8, 101u8, 34u8, 58u8]
}

pub open spec fn lit_decl() -> Seq<u8> {
    // ,"decl":
    seq![44u8, 34u8, 100u8, 101u8, 99u8, 108u8, 34u8, 58u8]
}

pub open spec fn lit_loc() -> Seq<u8> {
    // ,"loc":
    seq![44u8, 34u8, 108u8, 111u8, 99u8, 34u8, 58u8]
}

pub open spec fn lit_line() -> Seq<u8> {
    // ,"line":
    seq![44u8, 34u8, 108u8, 105u8, 110u8, 101u8, 34u8, 58u8]
}

#[verifier::rlimit(80)]
#[verifier::spinoff_prover]
fn push_fn_entry(out: &mut Vec<u8>, f: &FnEntry)
    ensures
        final(out)@ == old(out)@.add(json_fn_entry(*f)),
{
    let mut p: Vec<u8> = vec![123, 34, 110, 97, 109, 101, 34, 58];
    assert(p@ =~= lit_name());
    out.append(&mut p);
    match &f.name {
        Some(n) => {
            out.push(34);
            push_escaped_text(out, n);
            out.push(34);
        },
        None => {
            let mut q: Vec<u8> = vec![110, 117, 108, 108];
            out.append(&mut q);
        },
    }
    let mut p2: Vec<u8> = vec![44, 34, 100, 101, 99, 108, 34, 58];
    assert(p2@ =~= lit_decl());
    out.append(&mut p2);
    push_range(out, &f.decl);
    let mut p3: Vec<u8> = vec![44, 34, 108, 111, 99, 34, 58];
    assert(p3@ =~= lit_loc());
    out.append(&mut p3);
    push_range(out, &f.loc);
    let mut p4: Vec<u8> = vec![44, 34, 108, 105, 110, 101, 34, 58];
    assert(p4@ =~= lit_line());
    out.append(&mut p4);
    push_dec(out, f.line_count as u64);
    out.push(125);
    assert(out@ =~= old(out)@.add(json_fn_entry(*f)));
}

/// Entries of `fnMap`, comma-separated, starting at `i`.
pub open spec fn json_fn_entries(s: Seq<FnEntry>, i: int) -> Seq<u8>
    decreases s.len() - i,
{
    if i < 0 || i >= s.len() {
        Seq::empty()
    } else {
        let head = seq![34u8].add(dec_of(i)).add(seq![34u8, 58u8]).add(json_fn_entry(s[i]));
        if i + 1 < s.len() {
            head.add(seq![44u8]).add(json_fn_entries(s, i + 1))
        } else {
            head
        }
    }
}

#[verifier::rlimit(80)]
#[verifier::spinoff_prover]
fn push_fn_entries(out: &mut Vec<u8>, s: &Vec<FnEntry>, i: usize)
    requires
        i <= s.len(),
    ensures
        final(out)@ == old(out)@.add(json_fn_entries(s@, i as int)),
    decreases s.len() - i,
{
    if i < s.len() {
        out.push(34);
        push_dec(out, i as u64);
        out.push(34);
        out.push(58);
        push_fn_entry(out, &s[i]);
        if i + 1 < s.len() {
            out.push(44);
            push_fn_entries(out, s, i + 1);
        }
        assert(out@ =~= old(out)@.add(json_fn_entries(s@, i as int)));
    } else {
        assert(out@ =~= old(out)@.add(json_fn_entries(s@, i as int)));
    }
}

/// The wire name of a branch kind.
pub open spec fn kind_name(k: BranchKind) -> Seq<u8> {
    match k {
        // if
        BranchKind::If => seq![105u8, 102u8],
        // binary-expr
        BranchKind::BinaryExpr => seq![98u8, 105u8, 110u8, 97u8, 114u8, 121u8, 45u8, 101u8, 120u8,
            112u8, 114u8],
        // cond-expr
        BranchKind::CondExpr => seq![99u8, 111u8, 110u8, 100u8, 45u8, 101u8, 120u8, 112u8, 114u8],
        // switch
        BranchKind::Switch => seq![115u8, 119u8, 105u8, 116u8, 99u8, 104u8],
        // default-arg
        BranchKind::DefaultArg => seq![100u8, 101u8, 102u8, 97u8, 117u8, 108u8, 116u8, 45u8, 97u8,
            114u8, 103u8],
    }
}

fn push_kind_name(out: &mut Vec<u8>, k: BranchKind)
    ensures
        final(out)@ == old(out)@.add(kind_name(k)),
{
    let mut p: Vec<u8> = match k {
        BranchKind::If => vec![105, 102],
        BranchKind::BinaryExpr => vec![98, 105, 110, 97, 114, 121, 45, 101, 120, 112, 114],
        BranchKind::CondExpr => vec![99, 111, 110, 100, 45, 101, 120, 112, 114],
        BranchKind::Switch => vec![115, 119, 105, 116, 99, 104],
        BranchKind::DefaultArg => vec![100, 101, 102, 97, 117, 108, 116, 45, 97, 114, 103],
    };
    assert(p@ =~= kind_name(k));
    out.append(&mut p);
}

/// The comma-separated ranges of a branch's paths, starting at `i`.
pub open spec fn json_locs(s: Seq<SourceRange>, i: int) -> Seq<u8>
    decreases s.len() - i,
{
    if i < 0 || i >= s.len() {
        Seq::empty()
    } else if i + 1 < s.len() {
        json_range(s[i]).add(seq![44u8]).add(json_locs(s, i + 1))
    } else {
        json_range(s[i])
    }
}

#[verifier::rlimit(80)]
#[verifier::spinoff_prover]
fn push_locs(out: &mut Vec<u8>, s: &Vec<SourceRange>, i: usize)
    requires
        i <= s.len(),
    ensures
        final(out)@ == old(out)@.add(json_locs(s@, i as int)),
    decreases s.len() - i,
{
    if i < s.len() {
        push_range(out, &s[i]);
        if i + 1 < s.len() {
            out.push(44);
            push_locs(out, s, i + 1);
        }
        assert(out@ =~= old(out)@.add(json_locs(s@, i as int)));
    } else {
        assert(out@ =~= old(out)@.add(json_locs(s@, i as int)));
    }
}

/// `{"loc":R,"type":"<kind>","locations":[R,...]}` for one branch entry.
pub open spec fn json_branch(b: BranchModel) -> Seq<u8> {
    lit_bloc().add(json_range(b.loc)).add(lit_type()).add(kind_name(b.kind)).add(
        lit_locations(),
    ).add(json_locs(b.locations, 0)).add(seq![93u8, 125u8])
}

pub open spec fn lit_bloc() -> Seq<u8> {
    // {"loc":
    seq![123u8, 34u8, 108u8, 111u8, 99u8, 34u8, 58u8]
}

pub open spec fn lit_type() -> Seq<u8> {
    // ,"type":"
    seq![44u8, 34u8, 116u8, 121u8, 112u8, 101u8, 34u8, 58u8, 34u8]
}

pub open spec fn lit_locations() -> Seq<u8> {
    // ","locations":[
    seq![34u8, 44u8, 34u8, 108u8, 111u8, 99u8, 97u8, 116u8, 105u8, 111u8, 110u8, 115u8, 34u8,
        58u8, 91u8]
}

#[verifier::rlimit(80)]
#[verifier::spinoff_prover]
fn push_branch(out: &mut Vec<u8>, b: &BranchEntry)
    ensures
        final(out)@ == old(out)@.add(json_branch(b@)),
{
    let mut p: Vec<u8> = vec![123, 34, 108, 111, 99, 34, 58];
    assert(p@ =~= lit_bloc());
    out.append(&mut p);
    push_range(out, &b.loc);
    let mut p2: Vec<u8> = vec![44, 34, 116, 121, 112, 101, 34, 58, 34];
    assert(p2@ =~= lit_type());
    out.append(&mut p2);
    push_kind_name(out, b.kind);
    let mut p3: Vec<u8> = vec![34, 44, 34, 108, 111, 99, 97, 116, 105, 111, 110, 115, 34, 58, 91];
    assert(p3@ =~= lit_locations());
    out.append(&mut p3);
    push_locs(out, &b.locations, 0);
    out.push(93);
    out.push(125);
    assert(out@ =~= old(out)@.add(json_branch(b@)));
}

/// Entries of `branchMap`, comma-separated, starting at `i`.
pub open spec fn json_branch_entries(s: Seq<BranchModel>, i: int) -> Seq<u8>
    decreases s.len() - i,
{
    if i < 0 || i >= s.len() {
        Seq::empty()
    } else {
        let head = seq![34u8].add(dec_of(i)).add(seq![34u8, 58u8]).add(json_branch(s[i]));
        if i + 1 < s.len() {
            head.add(seq![44u8]).add(json_branch_entries(s, i + 1))
        } else {
            head
        }
    }
}

#[verifier::rlimit(80)]
#[verifier::spinoff_prover]
fn push_branch_entries(out: &mut Vec<u8>, s: &Vec<BranchEntry>, i: usize)
    requires
        i <= s.len(),
    ensures
        final(out)@ == old(out)@.add(json_branch_entries(s@.map_values(|b: BranchEntry| b@), i as int)),
    decreases s.len() - i,
{
    let ghost model = s@.map_values(|b: BranchEntry| b@);
    if i < s.len() {
        out.push(34);
        push_dec(out, i as u64);
        out.push(34);
        out.push(58);
        push_branch(out, &s[i]);
        if i + 1 < s.len() {
            out.push(44);
            push_branch_entries(out, s, i + 1);
        }
        assert(out@ =~= old(out)@.add(json_branch_entries(model, i as int)));
    } else {
        assert(out@ =~= old(out)@.add(json_branch_entries(model, i as int)));
    }
}

/// The hash input: `{"statementMap":{...},"fnMap":{...},"branchMap":{...}}`.
pub open spec fn json_maps(m: CoverageModel) -> Seq<u8> {
    lit_smap().add(json_stmt_entries(m.statements, 0)).add(lit_fmap()).add(
        json_fn_entries(m.functions, 0),
    ).add(lit_bmap()).add(json_branch_entries(m.branches, 0)).add(lit_close2())
}

pub open spec fn lit_smap() -> Seq<u8> {
    // {"statementMap":{
    seq![123u8, 34u8, 115u8, 116u8, 97u8, 116u8, 101u8, 109u8, 101u8, 110u8, 116u8, 77u8, 97u8,
        112u8, 34u8, 58u8, 123u8]
}

pub open spec fn lit_fmap() -> Seq<u8> {
    // },"fnMap":{
    seq![125u8, 44u8, 34u8, 102u8, 110u8, 77u8, 97u8, 112u8, 34u8, 58u8, 123u8]
}

pub open spec fn lit_bmap() -> Seq<u8> {
    // },"branchMap":{
    seq![125u8, 44u8, 34u8, 98u8, 114u8, 97u8, 110u8, 99u8, 104u8, 77u8, 97u8, 112u8, 34u8, 58u8,
        123u8]
}

/// Renders the three maps; the hash input.
#[verifier::rlimit(80)]
#[verifier::spinoff_prover]
pub fn render_maps(cov: &CoverageMap) -> (out: Vec<u8>)
    ensures
        out@ == json_maps(cov@),
{
    let mut out: Vec<u8> = Vec::new();
    let mut p: Vec<u8> = vec![123, 34, 115, 116, 97, 116, 101, 109, 101, 110, 116, 77, 97, 112,
        34, 58, 123];
    assert(p@ =~= lit_smap());
    out.append(&mut p);
    push_stmt_entries(&mut out, &cov.statements, 0);
    let mut p2: Vec<u8> = vec![125, 44, 34, 102, 110, 77, 97, 112, 34, 58, 123];
    assert(p2@ =~= lit_fmap());
    out.append(&mut p2);
    push_fn_entries(&mut out, &cov.functions, 0);
    let mut p3: Vec<u8> = vec![125, 44, 34, 98, 114, 97, 110, 99, 104, 77, 97, 112, 34, 58, 123];
    assert(p3@ =~= lit_bmap());
    out.append(&mut p3);
    push_branch_entries(&mut out, &cov.branches, 0);
    out.push(125);
    out.push(125);
    assert(out@ =~= json_maps(cov@));
    out
}

/// The model after freezing: shape unchanged, hash fixed over the rendering
/// of the three maps.
pub open spec fn frozen_model(m: CoverageModel) -> CoverageModel {
    CoverageModel { frozen: true, hash: fnv64(json_maps(m)), ..m }
}

/// Freezes the map: computes the content hash; mutation is forbidden after.
pub fn freeze(cov: &mut CoverageMap)
    requires
        !old(cov)@.frozen,
    ensures
        final(cov)@ == frozen_model(old(cov)@),
{
    let rendered = render_maps(cov);
    let h = fnv64_of(&rendered);
    cov.hash = h;
    cov.frozen = true;
}

/// Zero-counter entries `"i":0`, comma-separated, starting at `i`.
pub open spec fn json_zero_entries(n: int, i: int) -> Seq<u8>
    decreases n - i,
{
    if i < 0 || i >= n {
        Seq::empty()
    } else {
        let head = seq![34u8].add(dec_of(i)).add(seq![34u8, 58u8, 48u8]);
        if i + 1 < n {
            head.add(seq![44u8]).add(json_zero_entries(n, i + 1))
        } else {
            head
        }
    }
}

fn push_zero_entries(out: &mut Vec<u8>, n: usize, i: usize)
    requires
        i <= n,
    ensures
        final(out)@ == old(out)@.add(json_zero_entries(n as int, i as int)),
    decreases n - i,
{
    if i < n {
        out.push(34);
        push_dec(out, i as u64);
        out.push(34);
        out.push(58);
        out.push(48);
        if i + 1 < n {
            out.push(44);
            push_zero_entries(out, n, i + 1);
        }
        assert(out@ =~= old(out)@.add(json_zero_entries(n as int, i as int)));
    } else {
        assert(out@ =~= old(out)@.add(json_zero_entries(n as int, i as int)));
    }
}

/// A zero vector `0,0,...` of length `n - i`.
pub open spec fn json_zero_array(n: int, i: int) -> Seq<u8>
    decreases n - i,
{
    if i < 0 || i >= n {
        Seq::empty()
    } else if i + 1 < n {
        seq![48u8, 44u8].add(json_zero_array(n, i + 1))
    } else {
        seq![48u8]
    }
}

fn push_zero_array(out: &mut Vec<u8>, n: usize, i: usize)
    requires
        i <= n,
    ensures
        final(out)@ == old(out)@.add(json_zero_array(n as int, i as int)),
    decreases n - i,
{
    if i < n {
        out.push(48);
        if i + 1 < n {
            out.push(44);
            push_zero_array(out, n, i + 1);
        }
        assert(out@ =~= old(out)@.add(json_zero_array(n as int, i as int)));
    } else {
        assert(out@ =~= old(out)@.add(json_zero_array(n as int, i as int)));
    }
}

/// Branch zero counters `"i":[0,...]`, one zero per recorded path.
pub open spec fn json_branch_zeros(s: Seq<BranchModel>, i: int) -> Seq<u8>
    decreases s.len() - i,
{
    if i < 0 || i >= s.len() {
        Seq::empty()
    } else {
        let head = seq![34u8].add(dec_of(i)).add(seq![34u8, 58u8, 91u8]).add(
            json_zero_array(s[i].locations.len() as int, 0),
        ).add(seq![93u8]);
        if i + 1 < s.len() {
            head.add(seq![44u8]).add(json_branch_zeros(s, i + 1))
        } else {
            head
        }
    }
}

#[verifier::rlimit(80)]
#[verifier::spinoff_prover]
fn push_branch_zeros(out: &mut Vec<u8>, s: &Vec<BranchEntry>, i: usize)
    requires
        i <= s.len(),
    ensures
        final(out)@ == old(out)@.add(
            json_branch_zeros(s@.map_values(|b: BranchEntry| b@), i as int),
        ),
    decreases s.len() - i,
{
    let ghost model = s@.map_values(|b: BranchEntry| b@);
    if i < s.len() {
        out.push(34);
        push_dec(out, i as u64);
        out.push(34);
        out.push(58);
        out.push(91);
        push_zero_array(out, s[i].locations.len(), 0);
        out.push(93);
        if i + 1 < s.len() {
            out.push(44);
            push_branch_zeros(out, s, i + 1);
        }
        proof {
            assert(model[i as int] == s@[i as int]@);
            assert(out@ =~= old(out)@.add(json_branch_zeros(model, i as int)));
        }
    } else {
        assert(out@ =~= old(out)@.add(json_branch_zeros(model, i as int)));
    }
}

pub open spec fn lit_path() -> Seq<u8> {
    // {"path":"
    seq![123u8, 34u8, 112u8, 97u8, 116u8, 104u8, 34u8, 58u8, 34u8]
}

pub open spec fn lit_smap_after_path() -> Seq<u8> {
    // ","statementMap":{
    seq![34u8, 44u8, 34u8, 115u8, 116u8, 97u8, 116u8, 101u8, 109u8, 101u8, 110u8, 116u8, 77u8,
        97u8, 112u8, 34u8, 58u8, 123u8]
}

pub open spec fn lit_s() -> Seq<u8> {
    // },"s":{
    seq![125u8, 44u8, 34u8, 115u8, 34u8, 58u8, 123u8]
}

pub open spec fn lit_f() -> Seq<u8> {
    // },"f":{
    seq![125u8, 44u8, 34u8, 102u8, 34u8, 58u8, 123u8]
}

pub open spec fn lit_b() -> Seq<u8> {
    // },"b":{
    seq![125u8, 44u8, 34u8, 98u8, 34u8, 58u8, 123u8]
}

pub open spec fn lit_input_source_map() -> Seq<u8> {
    // },"inputSourceMap":
    seq![125u8, 44u8, 34u8, 105u8, 110u8, 112u8, 117u8, 116u8, 83u8, 111u8, 117u8, 114u8, 99u8,
        101u8, 77u8, 97u8, 112u8, 34u8, 58u8]
}

pub open spec fn lit_hash() -> Seq<u8> {
    // ,"hash":"
    seq![44u8, 34u8, 104u8, 97u8, 115u8, 104u8, 34u8, 58u8, 34u8]
}

pub open spec fn lit_hash_after_b() -> Seq<u8> {
    // },"hash":"
    seq![125u8, 44u8, 34u8, 104u8, 97u8, 115u8, 104u8, 34u8, 58u8, 34u8]
}

pub open spec fn lit_end_str() -> Seq<u8> {
    // "}
    seq![34u8, 125u8]
}

/// The full coverage record, in the Istanbul wire shape: path, the three
/// maps, counters zeroed to the entry counts (each `b[i]` sized to its
/// paths), the input source map verbatim when present, and the content hash
/// rendered in decimal.
pub open spec fn json_record(m: CoverageModel, ism: Option<Seq<u8>>) -> Seq<u8> {
    let counters = lit_s().add(json_zero_entries(m.statements.len() as int, 0)).add(lit_f()).add(
        json_zero_entries(m.functions.len() as int, 0),
    ).add(lit_b()).add(json_branch_zeros(m.branches, 0));
    let tail = match ism {
        Some(v) => lit_input_source_map().add(v).add(lit_hash()),
        None => lit_hash_after_b(),
    };
    lit_path().add(escape(m.path)).add(lit_smap_after_path()).add(
        json_stmt_entries(m.statements, 0),
    ).add(lit_fmap()).add(json_fn_entries(m.functions, 0)).add(lit_bmap()).add(
        json_branch_entries(m.branches, 0),
    ).add(counters).add(tail).add(dec_of(m.hash as int)).add(lit_end_str())
}

/// Renders the full record.
#[verifier::rlimit(100)]
#[verifier::spinoff_prover]
pub fn render_record(cov: &CoverageMap, ism: &Option<Vec<u8>>) -> (out: Vec<u8>)
    ensures
        out@ == json_record(
            cov@,
            match ism {
                Some(v) => Some(v@),
                None => None,
            },
        ),
{
    let mut out: Vec<u8> = Vec::new();
    let mut p: Vec<u8> = vec![123, 34, 112, 97, 116, 104, 34, 58, 34];
    assert(p@ =~= lit_path());
    out.append(&mut p);
    push_escaped(&mut out, &cov.path);
    let mut p2: Vec<u8> = vec![34, 44, 34, 115, 116, 97, 116, 101, 109, 101, 110, 116, 77, 97,
        112, 34, 58, 123];
    assert(p2@ =~= lit_smap_after_path());
    out.append(&mut p2);
    push_stmt_entries(&mut out, &cov.statements, 0);
    let mut p3: Vec<u8> = vec![125, 44, 34, 102, 110, 77, 97, 112, 34, 58, 123];
    assert(p3@ =~= lit_fmap());
    out.append(&mut p3);
    push_fn_entries(&mut out, &cov.functions, 0);
    let mut p4: Vec<u8> = vec![125, 44, 34, 98, 114, 97, 110, 99, 104, 77, 97, 112, 34, 58, 123];
    assert(p4@ =~= lit_bmap());
    out.append(&mut p4);
    push_branch_entries(&mut out, &cov.branches, 0);
    let mut p5: Vec<u8> = vec![125, 44, 34, 115, 34, 58, 123];
    assert(p5@ =~= lit_s());
    out.append(&mut p5);
    push_zero_entries(&mut out, cov.statements.len(), 0);
    let mut p6: Vec<u8> = vec![125, 44, 34, 102, 34, 58, 123];
    assert(p6@ =~= lit_f());
    out.append(&mut p6);
    push_zero_entries(&mut out, cov.functions.len(), 0);
    let mut p7: Vec<u8> = vec![125, 44, 34, 98, 34, 58, 123];
    assert(p7@ =~= lit_b());
    out.append(&mut p7);
    push_branch_zeros(&mut out, &cov.branches, 0);
    match ism {
        Some(v) => {
            let mut p8: Vec<u8> = vec![125, 44, 34, 105, 110, 112, 117, 116, 83, 111, 117, 114,
                99, 101, 77, 97, 112, 34, 58];
            assert(p8@ =~= lit_input_source_map());
            out.append(&mut p8);
            let mut vcopy: Vec<u8> = Vec::new();
            let mut j: usize = 0;
            assert(vcopy@ =~= v@.take(0));
            while j < v.len()
                invariant
                    j <= v.len(),
                    vcopy@ == v@.take(j as int),
                decreases v.len() - j,
            {
                vcopy.push(v[j]);
                assert(vcopy@ =~= v@.take(j + 1));
                j = j + 1;
            }
            assert(vcopy@ =~= v@);
            out.append(&mut vcopy);
            let mut p9: Vec<u8> = vec![44, 34, 104, 97, 115, 104, 34, 58, 34];
            assert(p9@ =~= lit_hash());
            out.append(&mut p9);
        },
        None => {
            let mut p8: Vec<u8> = vec![125, 44, 34, 104, 97, 115, 104, 34, 58, 34];
            assert(p8@ =~= lit_hash_after_b());
            out.append(&mut p8);
        },
    }
    push_dec(&mut out, cov.hash);
    out.push(34);
    out.push(125);
    assert(out@ =~= json_record(
        cov@,
        match ism {
            Some(v) => Some(v@),
            None => None,
        },
    ));
    out
}

pub open spec fn comment_marker() -> Seq<u8> {
    // __coverage_data_json_comment__::
    seq![95u8, 95u8, 99u8, 111u8, 118u8, 101u8, 114u8, 97u8, 103u8, 101u8, 95u8, 100u8, 97u8,
        116u8, 97u8, 95u8, 106u8, 115u8, 111u8, 110u8, 95u8, 99u8, 111u8, 109u8, 109u8, 101u8,
        110u8, 116u8, 95u8, 95u8, 58u8, 58u8]
}

/// The out-of-band channel: the trailing block comment's text is the marker
/// followed by the serialized record.
pub open spec fn spec_comment_text(m: CoverageModel, ism: Option<Seq<u8>>) -> Seq<u8> {
    comment_marker().add(json_record(m, ism))
}

/// Renders the trailing coverage comment's text.
pub fn coverage_comment_text(cov: &CoverageMap, ism: &Option<Vec<u8>>) -> (out: Vec<u8>)
    ensures
        out@ == spec_comment_text(
            cov@,
            match ism {
                Some(v) => Some(v@),
                None => None,
            },
        ),
{
    let mut out: Vec<u8> = vec![95, 95, 99, 111, 118, 101, 114, 97, 103, 101, 95, 100, 97, 116,
        97, 95, 106, 115, 111, 110, 95, 99, 111, 109, 109, 101, 110, 116, 95, 95, 58, 58];
    assert(out@ =~= comment_marker());
    let mut rec = render_record(cov, ism);
    out.append(&mut rec);
    out
}

} // verus!
