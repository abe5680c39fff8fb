//! The readers of expressions.

use vstd::prelude::*;
use crate::compiler::frontend::read_block;
use crate::compiler::grammar::{
    arguments,
    array_index,
    atom,
    call,
    chain,
    chain_item,
    dictionary,
    expression,
    function_literal,
    level,
    links,
    list,
    more_arguments,
    more_pairs,
    new_object,
    pair,
    pairs,
};
use crate::compiler::lexer::{
    infix_token,
    is_ahead,
    looking_at,
    read_float,
    read_infix,
    read_integer,
    read_name,
    read_parameters,
    read_string,
    reads,
    reads_all,
    skip_blank,
    skip_space,
    starts,
    starts_word,
};
use crate::compiler::token::{Token, lemma_views_empty, lemma_views_push, token_views};

verus! {

/// Reads an expression.
pub(crate) fn read_expression(input: &Vec<char>, pos: usize) -> (out: Option<(Token, usize)>)
    requires
        pos <= input.len(),
    ensures
        reads(out, expression(input@, pos as nat), input@),
    decreases input.len() - pos, 20nat,
{
    read_level(input, pos, 1)
}

/// Reads an expression with operators of `rank` and tighter.
pub(crate) fn read_level(input: &Vec<char>, pos: usize, rank: usize) -> (out: Option<(Token, usize)>)
    requires
        pos <= input.len(),
    ensures
        reads(out, level(input@, pos as nat, rank as nat), input@),
    decreases input.len() - pos, 19 - rank,
{
    if rank < 1 || rank > 3 {
        return None;
    }
    let first = if rank == 3 {
        read_atom(input, pos)
    } else {
        read_level(input, pos, rank + 1)
    };
    match first {
        None => None,
        Some((left, end)) => {
            match read_infix(input, skip_blank(input, end), rank) {
                None => Some((left, end)),
                Some((operator, after)) => {
                    let start = skip_blank(input, after);
                    if is_ahead(input, pos, start) {
                        match read_level(input, start, rank) {
                            Some((right, done)) => Some((infix_token(operator, left, right), done)),
                            None => Some((left, end)),
                        }
                    } else {
                        Some((left, end))
                    }
                },
            }
        },
    }
}

/// Reads an operand.
pub(crate) fn read_atom(input: &Vec<char>, pos: usize) -> (out: Option<(Token, usize)>)
    requires
        pos <= input.len(),
    ensures
        reads(out, atom(input@, pos as nat), input@),
    decreases input.len() - pos, 15nat,
{
    proof {
        reveal_strlit("null");
        reveal_strlit("true");
        reveal_strlit("false");
    }
    match read_float(input, pos) {
        Some((text, end)) => {
            return Some((Token::make_float(text), end));
        },
        None => {},
    }
    match read_integer(input, pos) {
        Some((value, end)) => {
            return Some((Token::make_integer(value), end));
        },
        None => {},
    }
    match read_function_literal(input, pos) {
        Some(found) => {
            return Some(found);
        },
        None => {},
    }
    match read_array_index(input, pos) {
        Some(found) => {
            return Some(found);
        },
        None => {},
    }
    match read_dictionary(input, pos) {
        Some(found) => {
            return Some(found);
        },
        None => {},
    }
    match read_list(input, pos) {
        Some(found) => {
            return Some(found);
        },
        None => {},
    }
    match read_call(input, pos) {
        Some(found) => {
            return Some(found);
        },
        None => {},
    }
    match read_chain(input, pos) {
        Some(found) => {
            return Some(found);
        },
        None => {},
    }
    match read_new_object(input, pos) {
        Some(found) => {
            return Some(found);
        },
        None => {},
    }
    if starts_word(input, pos, "null") {
        return Some((Token::make_null(), pos + 4));
    }
    if starts_word(input, pos, "true") {
        return Some((Token::make_bool(true), pos + 4));
    }
    if starts_word(input, pos, "false") {
        return Some((Token::make_bool(false), pos + 5));
    }
    match read_name(input, pos) {
        Some(found) => {
            return Some(found);
        },
        None => {},
    }
    match read_string(input, pos) {
        Some((text, end)) => Some((Token::make_string(text), end)),
        None => None,
    }
}

/// Reads a function without a name.
pub(crate) fn read_function_literal(input: &Vec<char>, pos: usize) -> (out: Option<(Token, usize)>)
    requires
        pos <= input.len(),
    ensures
        reads(out, function_literal(input@, pos as nat), input@),
    decreases input.len() - pos, 12nat,
{
    proof {
        reveal_strlit("function(");
    }
    if starts(input, pos, "function(") {
        let (names, end) = read_parameters(input, pos + 9);
        if looking_at(input, end, ')') && is_ahead(input, pos, end + 1) {
            match read_block(input, end + 1) {
                Some((statements, done)) => Some((Token::make_anon_function(names, statements), done)),
                None => None,
            }
        } else {
            None
        }
    } else {
        None
    }
}

/// Reads `name[index]`.
pub(crate) fn read_array_index(input: &Vec<char>, pos: usize) -> (out: Option<(Token, usize)>)
    requires
        pos <= input.len(),
    ensures
        reads(out, array_index(input@, pos as nat), input@),
    decreases input.len() - pos, 12nat,
{
    match read_name(input, pos) {
        Some((name, end)) => {
            if looking_at(input, end, '[') && is_ahead(input, pos, skip_space(input, end + 1)) {
                match read_expression(input, skip_space(input, end + 1)) {
                    Some((index, after)) => {
                        let close = skip_space(input, after);
                        if looking_at(input, close, ']') {
                            Some((Token::make_array_index(name, index), close + 1))
                        } else {
                            None
                        }
                    },
                    None => None,
                }
            } else {
                None
            }
        },
        None => None,
    }
}

/// Reads expressions between commas.
pub(crate) fn read_arguments(input: &Vec<char>, pos: usize, wide: bool) -> (out: (Vec<Token>, usize))
    requires
        pos <= input.len(),
    ensures
        reads_all(out, arguments(input@, pos as nat, wide), input@),
    decreases input.len() - pos, 26nat,
{
    let mut found: Vec<Token> = Vec::new();
    proof {
        lemma_views_empty();
    }
    let start = if wide {
        skip_space(input, pos)
    } else {
        skip_blank(input, pos)
    };
    match read_expression(input, start) {
        Some((item, end)) => {
            let next = skip_blank(input, end);
            if is_ahead(input, pos, next) {
                let ghost first = item@;
                proof {
                    lemma_views_push(found@, item);
                }
                found.push(item);
                read_more_arguments(input, next, wide, found)
            } else {
                (found, pos)
            }
        },
        None => (found, pos),
    }
}

/// Reads the expressions after the first, each behind a comma.
pub(crate) fn read_more_arguments(input: &Vec<char>, pos: usize, wide: bool, so_far: Vec<Token>) -> (out: (
    Vec<Token>,
    usize,
))
    requires
        pos <= input.len(),
    ensures
        reads_all(out, more_arguments(input@, pos as nat, wide, token_views(so_far@)), input@),
    decreases input.len() - pos, 25nat,
{
    let mut found = so_far;
    let mut here: usize = pos;
    loop
        invariant
            pos <= here <= input.len(),
            more_arguments(input@, pos as nat, wide, token_views(so_far@)) == more_arguments(
                input@,
                here as nat,
                wide,
                token_views(found@),
            ),
        ensures
            reads_all(
                (found, here),
                more_arguments(input@, pos as nat, wide, token_views(so_far@)),
                input@,
            ),
        decreases input.len() - here,
    {
        if !looking_at(input, here, ',') {
            break ;
        }
        let start = if wide {
            skip_space(input, here + 1)
        } else {
            skip_blank(input, here + 1)
        };
        if !is_ahead(input, here, start) {
            break ;
        }
        match read_expression(input, start) {
            Some((item, end)) => {
                let next = skip_blank(input, end);
                if !is_ahead(input, here, next) {
                    break ;
                }
                proof {
                    lemma_views_push(found@, item);
                }
                found.push(item);
                here = next;
            },
            None => {
                break ;
            },
        }
    }
    (found, here)
}

/// Reads a pair of a dictionary literal.
pub(crate) fn read_pair(input: &Vec<char>, pos: usize) -> (out: Option<(Token, usize)>)
    requires
        pos <= input.len(),
    ensures
        reads(out, pair(input@, pos as nat), input@),
    decreases input.len() - pos, 24nat,
{
    match read_string(input, skip_space(input, pos)) {
        Some((key, end)) => {
            let colon = skip_space(input, end);
            if looking_at(input, colon, ':') && is_ahead(input, pos, skip_space(input, colon + 1)) {
                match read_expression(input, skip_space(input, colon + 1)) {
                    Some((value, after)) => Some(
                        (Token::make_key_value_pair(key, value), skip_space(input, after)),
                    ),
                    None => None,
                }
            } else {
                None
            }
        },
        None => None,
    }
}

/// Reads pairs between commas.
pub(crate) fn read_pairs(input: &Vec<char>, pos: usize) -> (out: (Vec<Token>, usize))
    requires
        pos <= input.len(),
    ensures
        reads_all(out, pairs(input@, pos as nat), input@),
    decreases input.len() - pos, 26nat,
{
    let mut found: Vec<Token> = Vec::new();
    proof {
        lemma_views_empty();
    }
    match read_pair(input, pos) {
        Some((first, end)) => {
            if is_ahead(input, pos, end) {
                proof {
                    lemma_views_push(found@, first);
                }
                found.push(first);
                read_more_pairs(input, end, found)
            } else {
                (found, pos)
            }
        },
        None => (found, pos),
    }
}

/// Reads the pairs after the first, each behind a comma.
pub(crate) fn read_more_pairs(input: &Vec<char>, pos: usize, so_far: Vec<Token>) -> (out: (
    Vec<Token>,
    usize,
))
    requires
        pos <= input.len(),
    ensures
        reads_all(out, more_pairs(input@, pos as nat, token_views(so_far@)), input@),
    decreases input.len() - pos, 25nat,
{
    let mut found = so_far;
    let mut here: usize = pos;
    loop
        invariant
            pos <= here <= input.len(),
            more_pairs(input@, pos as nat, token_views(so_far@)) == more_pairs(
                input@,
                here as nat,
                token_views(found@),
            ),
        ensures
            reads_all((found, here), more_pairs(input@, pos as nat, token_views(so_far@)), input@),
        decreases input.len() - here,
    {
        if !looking_at(input, here, ',') {
            break ;
        }
        match read_pair(input, here + 1) {
            Some((next, end)) => {
                if !is_ahead(input, here, end) {
                    break ;
                }
                proof {
                    lemma_views_push(found@, next);
                }
                found.push(next);
                here = end;
            },
            None => {
                break ;
            },
        }
    }
    (found, here)
}

/// Reads a dictionary literal.
pub(crate) fn read_dictionary(input: &Vec<char>, pos: usize) -> (out: Option<(Token, usize)>)
    requires
        pos <= input.len(),
    ensures
        reads(out, dictionary(input@, pos as nat), input@),
    decreases input.len() - pos, 12nat,
{
    if looking_at(input, pos, '{') && is_ahead(input, pos, skip_space(input, pos + 1)) {
        let (found, end) = read_pairs(input, skip_space(input, pos + 1));
        let close = skip_space(input, end);
        if looking_at(input, close, '}') {
            Some((Token::make_dictionary(found), close + 1))
        } else {
            None
        }
    } else {
        None
    }
}

/// Reads an array literal.
pub(crate) fn read_list(input: &Vec<char>, pos: usize) -> (out: Option<(Token, usize)>)
    requires
        pos <= input.len(),
    ensures
        reads(out, list(input@, pos as nat), input@),
    decreases input.len() - pos, 12nat,
{
    if looking_at(input, pos, '[') && is_ahead(input, pos, skip_space(input, pos + 1)) {
        let (found, end) = read_arguments(input, skip_space(input, pos + 1), true);
        let close = skip_space(input, end);
        if looking_at(input, close, ']') {
            Some((Token::make_array(found), close + 1))
        } else {
            None
        }
    } else {
        None
    }
}

/// Reads a call.
pub(crate) fn read_call(input: &Vec<char>, pos: usize) -> (out: Option<(Token, usize)>)
    requires
        pos <= input.len(),
    ensures
        reads(out, call(input@, pos as nat), input@),
    decreases input.len() - pos, 12nat,
{
    match read_name(input, pos) {
        Some((name, end)) => {
            if looking_at(input, end, '(') && is_ahead(input, pos, end + 1) {
                let (found, after) = read_arguments(input, end + 1, false);
                let close = skip_blank(input, after);
                if looking_at(input, close, ')') {
                    Some((Token::make_call(name, found), close + 1))
                } else {
                    None
                }
            } else {
                None
            }
        },
        None => None,
    }
}

/// Reads `new Class(arguments)`.
pub(crate) fn read_new_object(input: &Vec<char>, pos: usize) -> (out: Option<(Token, usize)>)
    requires
        pos <= input.len(),
    ensures
        reads(out, new_object(input@, pos as nat), input@),
    decreases input.len() - pos, 12nat,
{
    proof {
        reveal_strlit("new");
    }
    if starts(input, pos, "new") {
        match read_name(input, skip_blank(input, pos + 3)) {
            Some((name, end)) => {
                if looking_at(input, end, '(') && is_ahead(input, pos, end + 1) {
                    let (found, after) = read_arguments(input, end + 1, false);
                    let close = skip_blank(input, after);
                    if looking_at(input, close, ')') {
                        Some((Token::make_object(name, found), close + 1))
                    } else {
                        None
                    }
                } else {
                    None
                }
            },
            None => None,
        }
    } else {
        None
    }
}

/// Reads what can stand between the dots of a chain.
pub(crate) fn read_chain_item(input: &Vec<char>, pos: usize) -> (out: Option<(Token, usize)>)
    requires
        pos <= input.len(),
    ensures
        reads(out, chain_item(input@, pos as nat), input@),
    decreases input.len() - pos, 13nat,
{
    match read_call(input, pos) {
        Some(found) => {
            return Some(found);
        },
        None => {},
    }
    match read_array_index(input, pos) {
        Some(found) => {
            return Some(found);
        },
        None => {},
    }
    read_name(input, pos)
}

/// Reads the links of a chain, each behind a dot.
pub(crate) fn read_links(input: &Vec<char>, pos: usize, so_far: Vec<Token>) -> (out: (Vec<Token>, usize))
    requires
        pos <= input.len(),
    ensures
        reads_all(out, links(input@, pos as nat, token_views(so_far@)), input@),
    decreases input.len() - pos, 25nat,
{
    let mut found = so_far;
    let mut here: usize = pos;
    loop
        invariant
            pos <= here <= input.len(),
            links(input@, pos as nat, token_views(so_far@)) == links(
                input@,
                here as nat,
                token_views(found@),
            ),
        ensures
            reads_all((found, here), links(input@, pos as nat, token_views(so_far@)), input@),
        decreases input.len() - here,
    {
        if !looking_at(input, here, '.') {
            break ;
        }
        match read_chain_item(input, here + 1) {
            Some((item, end)) => {
                if !is_ahead(input, here, end) {
                    break ;
                }
                proof {
                    lemma_views_push(found@, item);
                }
                found.push(item);
                here = end;
            },
            None => {
                break ;
            },
        }
    }
    (found, here)
}

/// Reads a chain.
pub(crate) fn read_chain(input: &Vec<char>, pos: usize) -> (out: Option<(Token, usize)>)
    requires
        pos <= input.len(),
    ensures
        reads(out, chain(input@, pos as nat), input@),
    decreases input.len() - pos, 14nat,
{
    match read_chain_item(input, pos) {
        Some((root, end)) => {
            if is_ahead(input, pos, end) {
                let start: Vec<Token> = Vec::new();
                proof {
                    lemma_views_empty();
                }
                let (rest, after) = read_links(input, end, start);
                if rest.len() > 0 {
                    Some((Token::make_chain(root, rest), after))
                } else {
                    None
                }
            } else {
                None
            }
        },
        None => None,
    }
}

} // verus!
