//! The module rule and the entry. A whole file is instrumented in one call:
//! if any comment at the module boundary is a file-level ignore directive
//! the program is returned unchanged, with no preamble and no coverage
//! record; otherwise the body is rewritten, the map frozen, the two preamble
//! items prepended, and the serialized record attached as the text of a
//! trailing comment behind a well-known marker.

use vstd::prelude::*;
use crate::ast::{Comments, Stmt};
use crate::cov_map::{BranchModel, CoverageMap, CoverageModel, FnEntry};
use crate::hashing::{spec_var_name, var_name_of};
use crate::hint::{has_file_ignore, spec_has_file_ignore};
use crate::json::{coverage_comment_text, freeze, frozen_model, spec_comment_text};
use crate::list::{List, Text, text_of_seq, text_of_vec};
use crate::preamble::{mk_preamble_items, preamble_items};
use crate::range::SourceRange;
use crate::transform::{stmts_pass, tx_stmt_list};

verus! {

/// A whole file: the module span, the comments attached at its two ends
/// (leading and trailing at each — the four positions the file directive is
/// looked for), and the body.
#[derive(Debug, PartialEq, Eq)]
pub struct Program {
    pub span: Option<SourceRange>,
    pub leading_lo: Comments,
    pub leading_hi: Comments,
    pub trailing_lo: Comments,
    pub trailing_hi: Comments,
    pub body: List<Stmt>,
}

/// The recognized configuration, decoded to plain values by the host.
#[derive(Debug)]
pub struct InstrumentOptions {
    pub coverage_variable: Vec<u8>,
    pub compact: bool,
    pub report_logic: bool,
    pub coverage_global_scope: Vec<u8>,
    pub coverage_global_scope_func: bool,
    pub ignore_class_methods: Vec<Vec<u8>>,
    pub input_source_map: Option<Vec<u8>>,
}

/// A recognized construct whose support is not wired in; the pass refuses
/// rather than silently miscounting.
#[derive(Clone, Copy, PartialEq, Eq, Structural, Debug)]
pub enum TransformError {
    UnsupportedConstruct,
}

/// What one invocation returns: the rewritten program, the frozen map, and
/// the trailing-comment text carrying the serialized record. On a file-level
/// ignore the program comes back unchanged and the other two are absent.
#[derive(Debug)]
pub struct TransformOutput {
    pub program: Program,
    pub coverage: Option<CoverageMap>,
    pub trailing_comment: Option<Vec<u8>>,
}

/// The default name of the global property holding the records.
pub open spec fn default_coverage_variable() -> Seq<u8> {
    // __coverage__
    seq![95u8, 95u8, 99u8, 111u8, 118u8, 101u8, 114u8, 97u8, 103u8, 101u8, 95u8, 95u8]
}

/// The default global-scope expression.
pub open spec fn default_global_scope() -> Seq<u8> {
    // this
    seq![116u8, 104u8, 105u8, 115u8]
}

/// Fills the configuration from what the host decoded, with the documented
/// defaults: `__coverage__`, `compact = false`, `reportLogic = false`,
/// scope `this` inside a self-invoked function, no ignored method names, no
/// input source map.
pub fn default_options(
    coverage_variable: Option<Vec<u8>>,
    compact: Option<bool>,
    report_logic: Option<bool>,
    coverage_global_scope: Option<Vec<u8>>,
    coverage_global_scope_func: Option<bool>,
    ignore_class_methods: Option<Vec<Vec<u8>>>,
    input_source_map: Option<Vec<u8>>,
) -> (o: InstrumentOptions)
    ensures
        o.coverage_variable@ == match coverage_variable {
            Some(v) => v@,
            None => default_coverage_variable(),
        },
        o.compact == compact.unwrap_or(false),
        o.report_logic == report_logic.unwrap_or(false),
        o.coverage_global_scope@ == match coverage_global_scope {
            Some(v) => v@,
            None => default_global_scope(),
        },
        o.coverage_global_scope_func == coverage_global_scope_func.unwrap_or(true),
        o.ignore_class_methods@ == match ignore_class_methods {
            Some(v) => v@,
            None => Seq::<Vec<u8>>::empty(),
        },
        o.input_source_map == input_source_map,
{
    let cv = match coverage_variable {
        Some(v) => v,
        None => {
            let d: Vec<u8> = vec![95, 95, 99, 111, 118, 101, 114, 97, 103, 101, 95, 95];
            assert(d@ =~= default_coverage_variable());
            d
        },
    };
    let gs = match coverage_global_scope {
        Some(v) => v,
        None => {
            let d: Vec<u8> = vec![116, 104, 105, 115];
            assert(d@ =~= default_global_scope());
            d
        },
    };
    InstrumentOptions {
        coverage_variable: cv,
        compact: match compact {
            Some(b) => b,
            None => false,
        },
        report_logic: match report_logic {
            Some(b) => b,
            None => false,
        },
        coverage_global_scope: gs,
        coverage_global_scope_func: match coverage_global_scope_func {
            Some(b) => b,
            None => true,
        },
        ignore_class_methods: match ignore_class_methods {
            Some(v) => v,
            None => Vec::new(),
        },
        input_source_map,
    }
}

/// The configured method names as identifier texts.
pub open spec fn texts_of(s: Seq<Vec<u8>>) -> List<Text>
    decreases s.len(),
{
    if s.len() == 0 {
        List::Nil
    } else {
        List::Cons(text_of_seq(s[0]@), Box::new(texts_of(s.skip(1))))
    }
}

fn mk_texts_from(v: &Vec<Vec<u8>>, i: usize) -> (l: List<Text>)
    requires
        i <= v.len(),
    ensures
        l == texts_of(v@.skip(i as int)),
    decreases v.len() - i,
{
    if i == v.len() {
        assert(v@.skip(i as int) =~= Seq::<Vec<u8>>::empty());
        List::Nil
    } else {
        let rest = mk_texts_from(v, i + 1);
        let t = text_of_vec(&v[i]);
        proof {
            assert(v@.skip(i as int)[0] == v@[i as int]);
            assert(v@.skip(i as int).skip(1) =~= v@.skip(i + 1));
        }
        List::Cons(t, Box::new(rest))
    }
}

/// Builds the ignore list from the configured names.
fn mk_texts(v: &Vec<Vec<u8>>) -> (l: List<Text>)
    ensures
        l == texts_of(v@),
{
    let l = mk_texts_from(v, 0);
    assert(v@.skip(0) =~= v@);
    l
}

/// Whether a file-level ignore directive stands at any of the four comment
/// positions of the module span.
pub open spec fn spec_file_ignored(p: Program) -> bool {
    spec_has_file_ignore(p.leading_lo) || spec_has_file_ignore(p.leading_hi)
        || spec_has_file_ignore(p.trailing_lo) || spec_has_file_ignore(p.trailing_hi)
}

/// The empty, unfrozen map for a file.
pub open spec fn init_model(path: Seq<u8>) -> CoverageModel {
    CoverageModel {
        path,
        statements: Seq::<SourceRange>::empty(),
        functions: Seq::<FnEntry>::empty(),
        branches: Seq::<BranchModel>::empty(),
        frozen: false,
        hash: 0,
    }
}

/// The coverage identifier for a path, as an identifier text.
pub open spec fn spec_var_text(path: Seq<u8>) -> Text {
    text_of_seq(spec_var_name(path))
}

/// Runs the whole pass on one file. `reportLogic` is recognized but its
/// paired truthy/falsy counters are not wired in, so enabling it refuses
/// with `UnsupportedConstruct` instead of silently degrading.
pub fn transform_program(p: Program, path: Vec<u8>, opts: &InstrumentOptions) -> (r: Result<
    TransformOutput,
    TransformError,
>)
    ensures
        opts.report_logic ==> r == Err::<TransformOutput, TransformError>(
            TransformError::UnsupportedConstruct,
        ),
        !opts.report_logic && spec_file_ignored(p) ==> (r matches Ok(out) && out.program == p
            && out.coverage is None && out.trailing_comment is None),
        !opts.report_logic && !spec_file_ignored(p) ==> (r matches Ok(out) && {
            let var = spec_var_text(path@);
            let tx = tx_stmt_list(init_model(path@), var, texts_of(opts.ignore_class_methods@), p.body);
            let fm = frozen_model(tx.0);
            let pre = preamble_items(
                fm,
                var,
                text_of_seq(opts.coverage_variable@),
                text_of_seq(opts.coverage_global_scope@),
                opts.coverage_global_scope_func,
            );
            &&& out.program.span == p.span
            &&& out.program.leading_lo == p.leading_lo
            &&& out.program.leading_hi == p.leading_hi
            &&& out.program.trailing_lo == p.trailing_lo
            &&& out.program.trailing_hi == p.trailing_hi
            &&& out.program.body == List::Cons(
                pre.0,
                Box::new(List::Cons(pre.1, Box::new(tx.1))),
            )
            &&& out.coverage matches Some(c) && c@ == fm
            &&& out.trailing_comment matches Some(t) && t@ == spec_comment_text(
                fm,
                match opts.input_source_map {
                    Some(v) => Some(v@),
                    None => None,
                },
            )
        }),
{
    if opts.report_logic {
        return Err(TransformError::UnsupportedConstruct);
    }
    let ignored = has_file_ignore(&p.leading_lo) || has_file_ignore(&p.leading_hi)
        || has_file_ignore(&p.trailing_lo) || has_file_ignore(&p.trailing_hi);
    if ignored {
        return Ok(TransformOutput { program: p, coverage: None, trailing_comment: None });
    }
    let var_bytes = var_name_of(&path);
    let var = text_of_vec(&var_bytes);
    let ghost path_view = path@;
    let mut cov = CoverageMap::new(path);
    proof {
        assert(cov@ == init_model(path_view));
    }
    let Program { span, leading_lo, leading_hi, trailing_lo, trailing_hi, body } = p;
    let ign = mk_texts(&opts.ignore_class_methods);
    let body1 = stmts_pass(&mut cov, &var, &ign, body);
    freeze(&mut cov);
    let cov_var = text_of_vec(&opts.coverage_variable);
    let scope = text_of_vec(&opts.coverage_global_scope);
    let (decl, call) = mk_preamble_items(
        &cov,
        &var,
        &cov_var,
        &scope,
        opts.coverage_global_scope_func,
    );
    let comment = coverage_comment_text(&cov, &opts.input_source_map);
    let body2 = List::Cons(decl, Box::new(List::Cons(call, Box::new(body1))));
    Ok(
        TransformOutput {
            program: Program {
                span,
                leading_lo,
                leading_hi,
                trailing_lo,
                trailing_hi,
                body: body2,
            },
            coverage: Some(cov),
            trailing_comment: Some(comment),
        },
    )
}

} // verus!
