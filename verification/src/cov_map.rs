//! The per-file coverage map: statement, function and branch entries keyed by
//! dense integer ids in allocation order. Mutation is forbidden after the map
//! is frozen; freezing computes the stable content hash (see `json`).

use vstd::prelude::*;
use crate::list::Text;
use crate::range::SourceRange;

verus! {

/// The divergence-point kinds the transformer records.
#[derive(Clone, Copy, PartialEq, Eq, Structural, Debug)]
pub enum BranchKind {
    If,
    BinaryExpr,
    CondExpr,
    Switch,
    DefaultArg,
}

/// One function entry: declaration range, body range and body line count.
#[derive(Debug, PartialEq, Eq)]
pub struct FnEntry {
    pub name: Option<Text>,
    pub decl: SourceRange,
    pub loc: SourceRange,
    pub line_count: u32,
}

/// One branch entry with the ranges of its paths, in path order.
#[derive(Debug, PartialEq, Eq)]
pub struct BranchEntry {
    pub kind: BranchKind,
    pub loc: SourceRange,
    pub locations: Vec<SourceRange>,
}

/// Mathematical model of a branch entry.
pub struct BranchModel {
    pub kind: BranchKind,
    pub loc: SourceRange,
    pub locations: Seq<SourceRange>,
}

impl View for BranchEntry {
    type V = BranchModel;

    open spec fn view(&self) -> BranchModel {
        BranchModel { kind: self.kind, loc: self.loc, locations: self.locations@ }
    }
}

/// Mathematical model of the whole coverage map.
pub struct CoverageModel {
    pub path: Seq<u8>,
    pub statements: Seq<SourceRange>,
    pub functions: Seq<FnEntry>,
    pub branches: Seq<BranchModel>,
    pub frozen: bool,
    pub hash: u64,
}

/// The number of lines a body range spans; total on every range.
pub open spec fn line_count_of(loc: SourceRange) -> u32 {
    if loc.end_line >= loc.start_line {
        if loc.end_line - loc.start_line == u32::MAX {
            u32::MAX
        } else {
            (loc.end_line - loc.start_line + 1) as u32
        }
    } else {
        0
    }
}

impl CoverageModel {
    /// Appends a statement entry; its id is the previous length.
    pub open spec fn add_statement(self, r: SourceRange) -> CoverageModel {
        CoverageModel { statements: self.statements.push(r), ..self }
    }

    /// Appends a function entry; its id is the previous length.
    pub open spec fn add_function(self, name: Option<Text>, decl: SourceRange, loc: SourceRange)
        -> CoverageModel {
        CoverageModel {
            functions: self.functions.push(
                FnEntry { name, decl, loc, line_count: line_count_of(loc) },
            ),
            ..self
        }
    }

    /// Appends a branch entry with no paths yet; its id is the previous length.
    pub open spec fn add_branch(self, kind: BranchKind, loc: SourceRange) -> CoverageModel {
        CoverageModel {
            branches: self.branches.push(
                BranchModel { kind, loc, locations: Seq::empty() },
            ),
            ..self
        }
    }

    /// The set of valid statement ids: the positions of `statements`.
    pub open spec fn stmt_ids(self) -> Set<int> {
        Set::new(|i: int| 0 <= i < self.statements.len())
    }

    /// The set of valid function ids.
    pub open spec fn fn_ids(self) -> Set<int> {
        Set::new(|i: int| 0 <= i < self.functions.len())
    }

    /// The set of valid branch ids.
    pub open spec fn branch_ids(self) -> Set<int> {
        Set::new(|i: int| 0 <= i < self.branches.len())
    }

    /// Appends a path range to branch `bid`; the path index is the previous
    /// number of paths of that branch.
    pub open spec fn add_branch_path(self, bid: int, r: SourceRange) -> CoverageModel {
        CoverageModel {
            branches: self.branches.update(
                bid,
                BranchModel {
                    locations: self.branches[bid].locations.push(r),
                    ..self.branches[bid]
                },
            ),
            ..self
        }
    }
}

/// The coverage map as the transformer mutates it.
#[derive(Debug)]
pub struct CoverageMap {
    pub path: Vec<u8>,
    pub statements: Vec<SourceRange>,
    pub functions: Vec<FnEntry>,
    pub branches: Vec<BranchEntry>,
    pub frozen: bool,
    pub hash: u64,
}

impl View for CoverageMap {
    type V = CoverageModel;

    open spec fn view(&self) -> CoverageModel {
        CoverageModel {
            path: self.path@,
            statements: self.statements@,
            functions: self.functions@,
            branches: self.branches@.map_values(|b: BranchEntry| b@),
            frozen: self.frozen,
            hash: self.hash,
        }
    }
}

impl CoverageMap {
    /// An empty, unfrozen map for one file.
    pub fn new(path: Vec<u8>) -> (m: CoverageMap)
        ensures
            m@.path == path@,
            m@.statements == Seq::<SourceRange>::empty(),
            m@.functions == Seq::<FnEntry>::empty(),
            m@.branches == Seq::<BranchModel>::empty(),
            !m@.frozen,
            m@.hash == 0,
    {
        let m = CoverageMap {
            path,
            statements: Vec::new(),
            functions: Vec::new(),
            branches: Vec::new(),
            frozen: false,
            hash: 0,
        };
        assert(m.branches@.map_values(|b: BranchEntry| b@) =~= Seq::<BranchModel>::empty());
        m
    }

    /// Allocates the next statement id for `r`.
    pub fn new_statement(&mut self, r: SourceRange) -> (id: usize)
        requires
            !old(self)@.frozen,
        ensures
            final(self)@ == old(self)@.add_statement(r),
            id == old(self)@.statements.len(),
    {
        let id = self.statements.len();
        self.statements.push(r);
        id
    }

    /// Allocates the next function id; `line_count` is derived from `loc`.
    pub fn new_function(&mut self, name: Option<Text>, decl: SourceRange, loc: SourceRange) -> (id:
        usize)
        requires
            !old(self)@.frozen,
        ensures
            final(self)@ == old(self)@.add_function(name, decl, loc),
            id == old(self)@.functions.len(),
    {
        let id = self.functions.len();
        let line_count: u32 = if loc.end_line >= loc.start_line {
            let d = loc.end_line - loc.start_line;
            if d == u32::MAX {
                u32::MAX
            } else {
                d + 1
            }
        } else {
            0
        };
        self.functions.push(FnEntry { name, decl, loc, line_count });
        id
    }

    /// Allocates the next branch id, with no paths yet.
    pub fn new_branch(&mut self, kind: BranchKind, loc: SourceRange) -> (id: usize)
        requires
            !old(self)@.frozen,
        ensures
            final(self)@ == old(self)@.add_branch(kind, loc),
            id == old(self)@.branches.len(),
    {
        let id = self.branches.len();
        self.branches.push(BranchEntry { kind, loc, locations: Vec::new() });
        proof {
            assert(self.branches@.map_values(|b: BranchEntry| b@) =~= old(
                self,
            ).branches@.map_values(|b: BranchEntry| b@).push(
                BranchModel { kind, loc, locations: Seq::empty() },
            ));
        }
        id
    }

    /// Appends a path range to branch `bid`; returns the path index.
    pub fn add_branch_path(&mut self, bid: usize, r: SourceRange) -> (idx: usize)
        requires
            !old(self)@.frozen,
            bid < old(self)@.branches.len(),
        ensures
            final(self)@ == old(self)@.add_branch_path(bid as int, r),
            idx == old(self)@.branches[bid as int].locations.len(),
    {
        let idx = self.branches[bid].locations.len();
        let entry = &mut self.branches[bid];
        entry.locations.push(r);
        proof {
            assert(self.branches@.map_values(|b: BranchEntry| b@) =~= old(
                self,
            )@.branches.update(
                bid as int,
                BranchModel {
                    locations: old(self)@.branches[bid as int].locations.push(r),
                    ..old(self)@.branches[bid as int]
                },
            ));
        }
        idx
    }
}

} // verus!
