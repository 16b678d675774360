//! The hint-comment scanner. It recognizes `istanbul ignore file`,
//! `istanbul ignore next`, `istanbul ignore if` and `istanbul ignore else`
//! directives in comment text: anchored at the start of the comment,
//! whitespace-tolerant, and followed by a non-word byte or end-of-text.

use vstd::prelude::*;
use crate::list::{List, Text};

verus! {

/// The scope a recognized directive applies to.
#[derive(Clone, Copy, PartialEq, Eq, Structural, Debug)]
pub enum IgnoreScope {
    /// Skip the whole file.
    File,
    /// Skip the next construct and its descendants.
    Next,
    /// Skip the consequent arm of the closest `if`.
    If,
    /// Skip the alternate arm of the closest `if`.
    Else,
    /// Skip a class method named by configuration.
    ClassMethod,
}

/// Whitespace, as the directive grammar tolerates it.
pub open spec fn is_ws(b: u8) -> bool {
    b == 32 || b == 9 || b == 10 || b == 13 || b == 11 || b == 12
}

/// A word byte: letter, digit or underscore.
pub open spec fn is_word_byte(b: u8) -> bool {
    (48 <= b && b <= 57) || (65 <= b && b <= 90) || (97 <= b && b <= 122) || b == 95
}

/// Drops leading whitespace.
pub open spec fn skip_ws(t: Text) -> Text
    decreases t,
{
    match t {
        List::Cons(b, rest) => if is_ws(b) {
            skip_ws(*rest)
        } else {
            t
        },
        List::Nil => t,
    }
}

/// Consumes the literal word `w`; yields the rest of the text.
pub open spec fn eat_word(t: Text, w: Seq<u8>) -> Option<Text>
    decreases w.len(),
{
    if w.len() == 0 {
        Some(t)
    } else {
        match t {
            List::Cons(b, rest) => if b == w[0] {
                eat_word(*rest, w.skip(1))
            } else {
                None
            },
            List::Nil => None,
        }
    }
}

/// Consumes at least one whitespace byte, then any further whitespace.
pub open spec fn eat_ws1(t: Text) -> Option<Text> {
    match t {
        List::Cons(b, rest) => if is_ws(b) {
            Some(skip_ws(*rest))
        } else {
            None
        },
        List::Nil => None,
    }
}

/// After a keyword the directive must end or continue with a non-word byte.
pub open spec fn boundary_ok(t: Text) -> bool {
    match t {
        List::Nil => true,
        List::Cons(b, _) => !is_word_byte(b),
    }
}

pub open spec fn istanbul_word() -> Seq<u8> {
    seq![105u8, 115u8, 116u8, 97u8, 110u8, 98u8, 117u8, 108u8]
}

pub open spec fn ignore_word() -> Seq<u8> {
    seq![105u8, 103u8, 110u8, 111u8, 114u8, 101u8]
}

pub open spec fn file_word() -> Seq<u8> {
    seq![102u8, 105u8, 108u8, 101u8]
}

pub open spec fn next_word() -> Seq<u8> {
    seq![110u8, 101u8, 120u8, 116u8]
}

pub open spec fn if_word() -> Seq<u8> {
    seq![105u8, 102u8]
}

pub open spec fn else_word() -> Seq<u8> {
    seq![101u8, 108u8, 115u8, 101u8]
}

/// Tries one keyword at the tail position of the directive.
pub open spec fn keyword_scope(t: Text) -> Option<IgnoreScope> {
    if eat_word(t, file_word()) matches Some(r) && boundary_ok(r) {
        Some(IgnoreScope::File)
    } else if eat_word(t, next_word()) matches Some(r) && boundary_ok(r) {
        Some(IgnoreScope::Next)
    } else if eat_word(t, if_word()) matches Some(r) && boundary_ok(r) {
        Some(IgnoreScope::If)
    } else if eat_word(t, else_word()) matches Some(r) && boundary_ok(r) {
        Some(IgnoreScope::Else)
    } else {
        None
    }
}

/// Parses one comment text against the directive grammar.
pub open spec fn parse_hint(t: Text) -> Option<IgnoreScope> {
    match eat_word(skip_ws(t), istanbul_word()) {
        None => None,
        Some(t1) => match eat_ws1(t1) {
            None => None,
            Some(t2) => match eat_word(t2, ignore_word()) {
                None => None,
                Some(t3) => match eat_ws1(t3) {
                    None => None,
                    Some(t4) => keyword_scope(t4),
                },
            },
        },
    }
}

/// The first directive found in a list of leading comments.
pub open spec fn spec_should_ignore(comments: List<Text>) -> Option<IgnoreScope>
    decreases comments,
{
    match comments {
        List::Nil => None,
        List::Cons(c, rest) => match parse_hint(c) {
            Some(s) => Some(s),
            None => spec_should_ignore(*rest),
        },
    }
}

/// Whether some comment in the list is a file-level ignore directive.
pub open spec fn spec_has_file_ignore(comments: List<Text>) -> bool
    decreases comments,
{
    match comments {
        List::Nil => false,
        List::Cons(c, rest) => parse_hint(c) == Some(IgnoreScope::File) || spec_has_file_ignore(
            *rest,
        ),
    }
}

fn skip_ws_exec(t: &Text) -> (r: &Text)
    ensures
        *r == skip_ws(*t),
    decreases *t,
{
    match t {
        List::Cons(b, rest) => {
            let c = *b;
            if c == 32 || c == 9 || c == 10 || c == 13 || c == 11 || c == 12 {
                skip_ws_exec(rest)
            } else {
                t
            }
        },
        List::Nil => t,
    }
}

fn eat_word_exec<'a>(t: &'a Text, w: &Vec<u8>, i: usize) -> (r: Option<&'a Text>)
    requires
        i <= w.len(),
    ensures
        match r {
            Some(rt) => eat_word(*t, w@.skip(i as int)) == Some(*rt),
            None => eat_word(*t, w@.skip(i as int)) is None,
        },
    decreases w.len() - i,
{
    if i == w.len() {
        assert(w@.skip(i as int) =~= Seq::<u8>::empty());
        Some(t)
    } else {
        assert(w@.skip(i as int)[0] == w@[i as int]);
        assert(w@.skip(i as int).skip(1) =~= w@.skip(i + 1));
        match t {
            List::Cons(b, rest) => {
                if *b == w[i] {
                    eat_word_exec(rest, w, i + 1)
                } else {
                    None
                }
            },
            List::Nil => None,
        }
    }
}

fn eat_ws1_exec(t: &Text) -> (r: Option<&Text>)
    ensures
        match r {
            Some(rt) => eat_ws1(*t) == Some(*rt),
            None => eat_ws1(*t) is None,
        },
{
    match t {
        List::Cons(b, rest) => {
            let c = *b;
            if c == 32 || c == 9 || c == 10 || c == 13 || c == 11 || c == 12 {
                Some(skip_ws_exec(rest))
            } else {
                None
            }
        },
        List::Nil => None,
    }
}

fn boundary_ok_exec(t: &Text) -> (r: bool)
    ensures
        r == boundary_ok(*t),
{
    match t {
        List::Nil => true,
        List::Cons(b, _) => {
            let c = *b;
            !((48 <= c && c <= 57) || (65 <= c && c <= 90) || (97 <= c && c <= 122) || c == 95)
        },
    }
}

fn keyword_scope_exec(t: &Text) -> (r: Option<IgnoreScope>)
    ensures
        r == keyword_scope(*t),
{
    let fw: Vec<u8> = vec![102, 105, 108, 101];
    let nw: Vec<u8> = vec![110, 101, 120, 116];
    let iw: Vec<u8> = vec![105, 102];
    let ew: Vec<u8> = vec![101, 108, 115, 101];
    assert(fw@.skip(0) =~= file_word());
    assert(nw@.skip(0) =~= next_word());
    assert(iw@.skip(0) =~= if_word());
    assert(ew@.skip(0) =~= else_word());
    if let Some(rest) = eat_word_exec(t, &fw, 0) {
        if boundary_ok_exec(rest) {
            return Some(IgnoreScope::File);
        }
    }
    if let Some(rest) = eat_word_exec(t, &nw, 0) {
        if boundary_ok_exec(rest) {
            return Some(IgnoreScope::Next);
        }
    }
    if let Some(rest) = eat_word_exec(t, &iw, 0) {
        if boundary_ok_exec(rest) {
            return Some(IgnoreScope::If);
        }
    }
    if let Some(rest) = eat_word_exec(t, &ew, 0) {
        if boundary_ok_exec(rest) {
            return Some(IgnoreScope::Else);
        }
    }
    None
}

/// Parses one comment text; mirrors `parse_hint`.
pub fn parse_hint_exec(t: &Text) -> (r: Option<IgnoreScope>)
    ensures
        r == parse_hint(*t),
{
    let sw: Vec<u8> = vec![105, 115, 116, 97, 110, 98, 117, 108];
    let gw: Vec<u8> = vec![105, 103, 110, 111, 114, 101];
    assert(sw@.skip(0) =~= istanbul_word());
    assert(gw@.skip(0) =~= ignore_word());
    let t0 = skip_ws_exec(t);
    match eat_word_exec(t0, &sw, 0) {
        None => None,
        Some(t1) => match eat_ws1_exec(t1) {
            None => None,
            Some(t2) => match eat_word_exec(t2, &gw, 0) {
                None => None,
                Some(t3) => match eat_ws1_exec(t3) {
                    None => None,
                    Some(t4) => keyword_scope_exec(t4),
                },
            },
        },
    }
}

/// The first directive among the leading comments of a node.
pub fn should_ignore(comments: &List<Text>) -> (r: Option<IgnoreScope>)
    ensures
        r == spec_should_ignore(*comments),
    decreases *comments,
{
    match comments {
        List::Nil => None,
        List::Cons(c, rest) => match parse_hint_exec(c) {
            Some(s) => Some(s),
            None => should_ignore(rest),
        },
    }
}

/// Whether some comment of the list is `istanbul ignore file`.
pub fn has_file_ignore(comments: &List<Text>) -> (r: bool)
    ensures
        r == spec_has_file_ignore(*comments),
    decreases *comments,
{
    match comments {
        List::Nil => false,
        List::Cons(c, rest) => {
            match parse_hint_exec(c) {
                Some(IgnoreScope::File) => true,
                _ => has_file_ignore(rest),
            }
        },
    }
}

} // verus!
