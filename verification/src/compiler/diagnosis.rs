//! The finding of the place at which the reading of a script stopped.

use vstd::prelude::*;
use crate::compiler::frontend::{
    read_assignment,
    read_evaluation,
    read_for_close,
    read_for_condition,
    read_for_head,
    read_members,
    read_prefixed,
    read_source,
    read_statements,
    read_tops,
};
use crate::compiler::grammar::{
    Expected,
    ParseError,
    body_head,
    brace,
    class_head,
    control_head,
    else_head,
    for_counted_head,
    for_each_head,
    if_head,
    method_head,
    stuck,
    stuck_in_block,
    stuck_in_class,
    while_head,
};
use crate::compiler::lexer::{
    is_ahead,
    looking_at,
    read_identifier,
    read_parameters,
    skip_blank,
    skip_space,
    starts,
};
use crate::compiler::token::{Token, lemma_views_empty};

verus! {

/// Whether a finder gave the position that a rule of the grammar gives.
pub open spec fn finds(out: Option<usize>, rule: Option<nat>, input: Seq<char>) -> bool {
    match rule {
        Some(expected) => out == Some(expected as usize) && expected <= input.len(),
        None => out is None,
    }
}

/// Whether a diagnosis is what the grammar says of where the reading
/// stopped.
pub open spec fn diagnoses(out: ParseError, rule: (Expected, nat), input: Seq<char>) -> bool {
    out.expected == rule.0 && out.position == rule.1 && rule.1 <= input.len()
}

/// The position behind a brace that opens a block.
pub(crate) fn find_brace(input: &Vec<char>, pos: usize) -> (out: Option<usize>)
    requires
        pos <= input.len(),
    ensures
        finds(out, brace(input@, pos as nat), input@),
{
    let open = skip_space(input, pos);
    if looking_at(input, open, '{') {
        Some(open + 1)
    } else {
        None
    }
}

/// The position behind the brace that opens a class.
pub(crate) fn find_class_head(input: &Vec<char>, pos: usize) -> (out: Option<usize>)
    requires
        pos <= input.len(),
    ensures
        finds(out, class_head(input@, pos as nat), input@),
{
    proof {
        reveal_strlit("class");
    }
    if starts(input, pos, "class") {
        match read_identifier(input, skip_space(input, pos + 5)) {
            Some((_, end)) => find_brace(input, end),
            None => None,
        }
    } else {
        None
    }
}

/// The position behind the brace that opens a body.
pub(crate) fn find_body_head(input: &Vec<char>, pos: usize) -> (out: Option<usize>)
    requires
        pos <= input.len(),
    ensures
        finds(out, body_head(input@, pos as nat), input@),
{
    if looking_at(input, pos, '(') {
        let (_, end) = read_parameters(input, pos + 1);
        let close = skip_blank(input, end);
        if looking_at(input, close, ')') {
            find_brace(input, close + 1)
        } else {
            None
        }
    } else {
        None
    }
}

/// The position behind the brace that opens the body of a method or of a
/// constructor.
pub(crate) fn find_method_head(input: &Vec<char>, pos: usize) -> (out: Option<usize>)
    requires
        pos <= input.len(),
    ensures
        finds(out, method_head(input@, pos as nat), input@),
{
    proof {
        reveal_strlit("function");
        reveal_strlit("constructor");
    }
    if starts(input, pos, "function") {
        match read_identifier(input, skip_blank(input, pos + 8)) {
            Some((_, end)) => find_body_head(input, skip_blank(input, end)),
            None => None,
        }
    } else if starts(input, pos, "constructor") {
        find_body_head(input, skip_blank(input, pos + 11))
    } else {
        None
    }
}

/// The position behind the brace that opens the block under `else`.
pub(crate) fn find_else_head(input: &Vec<char>, pos: usize) -> (out: Option<usize>)
    requires
        pos <= input.len(),
    ensures
        finds(out, else_head(input@, pos as nat), input@),
{
    proof {
        reveal_strlit("else");
    }
    if starts(input, pos, "else") {
        find_brace(input, skip_blank(input, pos + 4))
    } else {
        None
    }
}

/// The position behind the brace that opens the first block of an `if`.
pub(crate) fn find_if_head(input: &Vec<char>, pos: usize) -> (out: Option<usize>)
    requires
        pos <= input.len(),
    ensures
        finds(out, if_head(input@, pos as nat), input@),
{
    match read_prefixed(input, pos, "if") {
        Some((_, end)) => find_brace(input, end),
        None => None,
    }
}

/// The position behind the brace that opens the block of a `while`.
pub(crate) fn find_while_head(input: &Vec<char>, pos: usize) -> (out: Option<usize>)
    requires
        pos <= input.len(),
    ensures
        finds(out, while_head(input@, pos as nat), input@),
{
    proof {
        reveal_strlit("while");
    }
    if starts(input, pos, "while") {
        match read_evaluation(input, skip_blank(input, pos + 5)) {
            Some((_, end)) => find_brace(input, end),
            None => None,
        }
    } else {
        None
    }
}

/// The position behind the brace that opens the block of a `for` over an
/// array.
pub(crate) fn find_for_each_head(input: &Vec<char>, pos: usize) -> (out: Option<usize>)
    requires
        pos <= input.len(),
    ensures
        finds(out, for_each_head(input@, pos as nat), input@),
{
    proof {
        reveal_strlit("in");
    }
    let ghost rule = for_each_head(input@, pos as nat);
    match read_for_head(input, pos) {
        Some(start) => {
            match read_identifier(input, start) {
                Some((_, end)) => {
                    let word = skip_blank(input, end);
                    if starts(input, word, "in") {
                        match read_source(input, skip_blank(input, word + 2)) {
                            Some((_, after)) => {
                                let close = skip_blank(input, after);
                                if looking_at(input, close, ')') {
                                    let out = find_brace(input, close + 1);
                                    assert(finds(out, rule, input@));
                                    out
                                } else {
                                    assert(rule is None);
                                    None
                                }
                            },
                            None => {
                                assert(rule is None);
                                None
                            },
                        }
                    } else {
                        assert(rule is None);
                        None
                    }
                },
                None => {
                    assert(rule is None);
                    None
                },
            }
        },
        None => {
            assert(rule is None);
            None
        },
    }
}

/// The position behind the brace that opens the block of a `for` with a
/// counter.
pub(crate) fn find_for_counted_head(input: &Vec<char>, pos: usize) -> (out: Option<usize>)
    requires
        pos <= input.len(),
    ensures
        finds(out, for_counted_head(input@, pos as nat), input@),
{
    let ghost rule = for_counted_head(input@, pos as nat);
    match read_for_condition(input, pos) {
        Some((_, _, third)) => {
            match read_assignment(input, third) {
                Some((_, last)) => {
                    match read_for_close(input, last) {
                        Some(open) => {
                            let out = find_brace(input, open);
                            assert(finds(out, rule, input@));
                            out
                        },
                        None => {
                            assert(rule is None);
                            None
                        },
                    }
                },
                None => {
                    assert(rule is None);
                    None
                },
            }
        },
        None => {
            assert(rule is None);
            None
        },
    }
}

/// The position behind the brace of the block in which the reading of a
/// statement stopped.
pub(crate) fn find_control_head(input: &Vec<char>, pos: usize) -> (out: Option<usize>)
    requires
        pos <= input.len(),
    ensures
        finds(out, control_head(input@, pos as nat), input@),
{
    match find_if_head(input, pos) {
        Some(inner) => {
            return Some(inner);
        },
        None => {},
    }
    match find_else_head(input, pos) {
        Some(inner) => {
            return Some(inner);
        },
        None => {},
    }
    match find_while_head(input, pos) {
        Some(inner) => {
            return Some(inner);
        },
        None => {},
    }
    match find_for_each_head(input, pos) {
        Some(inner) => {
            return Some(inner);
        },
        None => {},
    }
    find_for_counted_head(input, pos)
}

/// Finds where the reading of a block stopped.
pub(crate) fn diagnose_block(input: &Vec<char>, pos: usize) -> (out: ParseError)
    requires
        pos <= input.len(),
    ensures
        diagnoses(out, stuck_in_block(input@, pos as nat), input@),
    decreases input.len() - pos,
{
    let none: Vec<Token> = Vec::new();
    proof {
        lemma_views_empty();
    }
    let (_, end) = read_statements(input, pos, none);
    let here = skip_space(input, end);
    match find_control_head(input, here) {
        Some(inner) => {
            if is_ahead(input, pos, inner) {
                diagnose_block(input, inner)
            } else {
                ParseError { expected: Expected::Statement, position: here }
            }
        },
        None => ParseError { expected: Expected::Statement, position: here },
    }
}

/// Finds where the reading of a class stopped.
pub(crate) fn diagnose_class(input: &Vec<char>, pos: usize) -> (out: ParseError)
    requires
        pos <= input.len(),
    ensures
        diagnoses(out, stuck_in_class(input@, pos as nat), input@),
{
    let (_, end) = read_members(input, pos);
    let here = skip_space(input, end);
    match find_method_head(input, here) {
        Some(inner) => diagnose_block(input, inner),
        None => ParseError { expected: Expected::Member, position: here },
    }
}

/// Finds where the reading of a script stopped.
pub(crate) fn diagnose(input: &Vec<char>) -> (out: ParseError)
    ensures
        diagnoses(out, stuck(input@), input@),
{
    let (_, end) = read_tops(input);
    let here = skip_space(input, end);
    match find_class_head(input, here) {
        Some(inner) => diagnose_class(input, inner),
        None => ParseError { expected: Expected::Item, position: here },
    }
}

} // verus!
