//! The readers of statements, of classes and of scripts.

use vstd::prelude::*;
use crate::compiler::diagnosis::{diagnose, diagnoses};
use crate::compiler::grammar::{
    ParseError,
    Run,
    assignment,
    at,
    block,
    class,
    comment,
    constructor,
    control,
    ended,
    evaluation,
    expression,
    field,
    for_close,
    for_condition,
    for_counted,
    for_each,
    for_head,
    for_separator,
    for_start,
    function,
    if_else,
    member,
    members,
    otherwise,
    prefixed,
    script,
    signature,
    simple,
    single,
    source,
    statement,
    statements,
    target,
    top,
    tops,
    variable,
    while_loop,
};
use crate::compiler::lexer::{
    is_ahead,
    looking_at,
    read_comment,
    read_identifier,
    read_import,
    read_name,
    read_parameters,
    reads,
    reads_all,
    reads_list,
    skip,
    skip_blank,
    skip_space,
    starts,
};
use crate::compiler::parser::{read_array_index, read_call, read_chain, read_expression, read_list};
use crate::compiler::token::{Token, TokenView, lemma_views_empty, lemma_views_push, token_views};
use crate::text::chars_of;

verus! {

/// Reads a keyword, blanks, and an expression.
pub(crate) fn read_prefixed(input: &Vec<char>, pos: usize, word: &str) -> (out: Option<(Token, usize)>)
    requires
        pos <= input.len(),
    ensures
        reads(out, prefixed(input@, pos as nat, word@), input@),
    decreases input.len() - pos, 21nat,
{
    if starts(input, pos, word) {
        let start = skip_blank(input, pos + word.unicode_len());
        read_expression(input, start)
    } else {
        None
    }
}

/// Reads `var name`, with `= value` or without.
pub(crate) fn read_variable(input: &Vec<char>, pos: usize) -> (out: Option<(Token, usize)>)
    requires
        pos <= input.len(),
    ensures
        reads(out, variable(input@, pos as nat), input@),
    decreases input.len() - pos, 24nat,
{
    proof {
        reveal_strlit("var");
    }
    let ghost rule = variable(input@, pos as nat);
    if starts(input, pos, "var") {
        match read_name(input, skip_blank(input, pos + 3)) {
            Some((name, end)) => {
                let equals = skip_space(input, end);
                let value = if looking_at(input, equals, '=') && is_ahead(
                    input,
                    pos,
                    skip_space(input, equals + 1),
                ) {
                    read_expression(input, skip_space(input, equals + 1))
                } else {
                    None
                };
                match value {
                    Some((value, after)) => {
                        let ghost expected = TokenView::Variable(
                            Box::new(name@),
                            Box::new(value@),
                        );
                        let token = Token::make_variable(name, value);
                        assert(rule == Some((expected, after as nat)));
                        Some((token, after))
                    },
                    None => {
                        let ghost expected = TokenView::Variable(
                            Box::new(name@),
                            Box::new(TokenView::Null),
                        );
                        let nothing = Token::make_null();
                        assert(nothing@ == TokenView::Null);
                        let token = Token::make_variable(name, nothing);
                        assert(rule == Some((expected, end as nat)));
                        Some((token, end))
                    },
                }
            },
            None => {
                assert(rule is None);
                None
            },
        }
    } else {
        assert(rule is None);
        None
    }
}

/// Reads what can stand left of `=`.
pub(crate) fn read_target(input: &Vec<char>, pos: usize) -> (out: Option<(Token, usize)>)
    requires
        pos <= input.len(),
    ensures
        reads(out, target(input@, pos as nat), input@),
    decreases input.len() - pos, 23nat,
{
    match read_array_index(input, pos) {
        Some(found) => {
            return Some(found);
        },
        None => {},
    }
    match read_chain(input, pos) {
        Some(found) => {
            return Some(found);
        },
        None => {},
    }
    read_name(input, pos)
}

/// Reads `target = value`.
pub(crate) fn read_assignment(input: &Vec<char>, pos: usize) -> (out: Option<(Token, usize)>)
    requires
        pos <= input.len(),
    ensures
        reads(out, assignment(input@, pos as nat), input@),
    decreases input.len() - pos, 24nat,
{
    let ghost rule = assignment(input@, pos as nat);
    match read_target(input, pos) {
        Some((left, end)) => {
            let equals = skip_space(input, end);
            if looking_at(input, equals, '=') && is_ahead(input, pos, skip_space(input, equals + 1)) {
                match read_expression(input, skip_space(input, equals + 1)) {
                    Some((value, after)) => {
                        let ghost expected = TokenView::Assign(Box::new(left@), Box::new(value@));
                        let token = Token::make_assign(left, value);
                        assert(rule == Some((expected, after as nat)));
                        Some((token, after))
                    },
                    None => {
                        assert(rule is None);
                        None
                    },
                }
            } else {
                assert(rule is None);
                None
            }
        },
        None => {
            assert(rule is None);
            None
        },
    }
}

/// Reads what stands before the semicolon of a plain statement.
pub(crate) fn read_simple(input: &Vec<char>, pos: usize) -> (out: Option<(Token, usize)>)
    requires
        pos <= input.len(),
    ensures
        reads(out, simple(input@, pos as nat), input@),
    decreases input.len() - pos, 26nat,
{
    match read_prefixed(input, pos, "assert") {
        Some((value, end)) => {
            return Some((Token::make_assert(value), end));
        },
        None => {},
    }
    match read_prefixed(input, pos, "print ") {
        Some((value, end)) => {
            return Some((Token::make_print(value), end));
        },
        None => {},
    }
    match read_variable(input, pos) {
        Some(found) => {
            return Some(found);
        },
        None => {},
    }
    match read_assignment(input, pos) {
        Some(found) => {
            return Some(found);
        },
        None => {},
    }
    match read_call(input, pos) {
        Some(found) => {
            return Some(found);
        },
        None => {},
    }
    match read_chain(input, pos) {
        Some(found) => {
            return Some(found);
        },
        None => {},
    }
    match read_prefixed(input, pos, "return") {
        Some((value, end)) => Some((Token::make_returning(value), end)),
        None => None,
    }
}

/// The position after the semicolons that end a statement.
pub(crate) fn read_end(input: &Vec<char>, pos: usize) -> (out: Option<usize>)
    requires
        pos <= input.len(),
    ensures
        match ended(input@, pos as nat) {
            Some(after) => out == Some(after as usize) && after <= input.len(),
            None => out is None,
        },
{
    let semi = skip_space(input, pos);
    if looking_at(input, semi, ';') {
        Some(skip_space(input, skip(input, semi, Run::Semicolons)))
    } else {
        None
    }
}

/// Reads a plain statement.
pub(crate) fn read_single(input: &Vec<char>, pos: usize) -> (out: Option<(Token, usize)>)
    requires
        pos <= input.len(),
    ensures
        reads(out, single(input@, pos as nat), input@),
    decreases input.len() - pos, 27nat,
{
    match read_simple(input, pos) {
        Some((found, end)) => {
            match read_end(input, end) {
                Some(after) => Some((found, after)),
                None => None,
            }
        },
        None => None,
    }
}

/// Reads statements between braces.
pub(crate) fn read_block(input: &Vec<char>, pos: usize) -> (out: Option<(Vec<Token>, usize)>)
    requires
        pos <= input.len(),
    ensures
        reads_list(out, block(input@, pos as nat), input@),
    decreases input.len() - pos, 31nat,
{
    let open = skip_space(input, pos);
    if looking_at(input, open, '{') {
        let start: Vec<Token> = Vec::new();
        proof {
            lemma_views_empty();
        }
        let (found, end) = read_statements(input, open + 1, start);
        let close = skip_space(input, end);
        if looking_at(input, close, '}') {
            Some((found, close + 1))
        } else {
            None
        }
    } else {
        None
    }
}

/// Reads statements one after the other.
pub(crate) fn read_statements(input: &Vec<char>, pos: usize, so_far: Vec<Token>) -> (out: (
    Vec<Token>,
    usize,
))
    requires
        pos <= input.len(),
    ensures
        reads_all(out, statements(input@, pos as nat, token_views(so_far@)), input@),
    decreases input.len() - pos, 30nat,
{
    let mut found = so_far;
    let mut here: usize = pos;
    loop
        invariant
            pos <= here <= input.len(),
            statements(input@, pos as nat, token_views(so_far@)) == statements(
                input@,
                here as nat,
                token_views(found@),
            ),
        ensures
            reads_all((found, here), statements(input@, pos as nat, token_views(so_far@)), input@),
        decreases input.len() - here,
    {
        match read_statement(input, skip_space(input, here)) {
            Some((next, end)) => {
                if !is_ahead(input, here, end) {
                    break ;
                }
                proof {
                    lemma_views_push(found@, next);
                }
                found.push(next);
                here = end;
            },
            None => {
                break ;
            },
        }
    }
    (found, here)
}

/// Reads a statement.
pub(crate) fn read_statement(input: &Vec<char>, pos: usize) -> (out: Option<(Token, usize)>)
    requires
        pos <= input.len(),
    ensures
        reads(out, statement(input@, pos as nat), input@),
    decreases input.len() - pos, 29nat,
{
    match read_comment(input, pos) {
        Some(found) => {
            return Some(found);
        },
        None => {},
    }
    match read_single(input, pos) {
        Some(found) => {
            return Some(found);
        },
        None => {},
    }
    match read_control(input, pos) {
        Some((found, end)) => Some((found, skip_space(input, end))),
        None => None,
    }
}

/// Reads a statement with a block.
pub(crate) fn read_control(input: &Vec<char>, pos: usize) -> (out: Option<(Token, usize)>)
    requires
        pos <= input.len(),
    ensures
        reads(out, control(input@, pos as nat), input@),
    decreases input.len() - pos, 28nat,
{
    match read_if_else(input, pos) {
        Some(found) => {
            return Some(found);
        },
        None => {},
    }
    match read_while_loop(input, pos) {
        Some(found) => {
            return Some(found);
        },
        None => {},
    }
    match read_for_each(input, pos) {
        Some(found) => {
            return Some(found);
        },
        None => {},
    }
    read_for_counted(input, pos)
}

/// Reads `else` and its block.
pub(crate) fn read_otherwise(input: &Vec<char>, origin: usize, pos: usize) -> (out: Option<(
    Vec<Token>,
    usize,
)>)
    requires
        origin <= input.len(),
    ensures
        reads_list(out, otherwise(input@, origin as nat, pos as nat), input@),
    decreases input.len() - origin, 25nat,
{
    proof {
        reveal_strlit("else");
    }
    if starts(input, pos, "else") && is_ahead(input, origin, skip_blank(input, pos + 4)) {
        read_block(input, skip_blank(input, pos + 4))
    } else {
        None
    }
}

/// Reads `if`.
pub(crate) fn read_if_else(input: &Vec<char>, pos: usize) -> (out: Option<(Token, usize)>)
    requires
        pos <= input.len(),
    ensures
        reads(out, if_else(input@, pos as nat), input@),
    decreases input.len() - pos, 27nat,
{
    let ghost rule = if_else(input@, pos as nat);
    match read_prefixed(input, pos, "if") {
        Some((condition, end)) => {
            if is_ahead(input, pos, end) {
                match read_block(input, end) {
                    Some((first, after)) => {
                        let next = skip_space(input, after);
                        match read_otherwise(input, pos, next) {
                            Some((second, done)) => {
                                let ghost expected = TokenView::IfElse(
                                    Box::new(condition@),
                                    token_views(first@),
                                    Some(token_views(second@)),
                                );
                                let token = Token::make_if_else(condition, first, Some(second));
                                assert(rule == Some((expected, done as nat)));
                                Some((token, done))
                            },
                            None => {
                                let ghost expected = TokenView::IfElse(
                                    Box::new(condition@),
                                    token_views(first@),
                                    None,
                                );
                                let token = Token::make_if_else(condition, first, None);
                                assert(rule == Some((expected, next as nat)));
                                Some((token, next))
                            },
                        }
                    },
                    None => {
                        assert(rule is None);
                        None
                    },
                }
            } else {
                assert(rule is None);
                None
            }
        },
        None => {
            assert(rule is None);
            None
        },
    }
}

/// Reads the condition of a `while`.
pub(crate) fn read_evaluation(input: &Vec<char>, pos: usize) -> (out: Option<(Token, usize)>)
    requires
        pos <= input.len(),
    ensures
        reads(out, evaluation(input@, pos as nat), input@),
    decreases input.len() - pos, 26nat,
{
    if looking_at(input, pos, '(') {
        match read_expression(input, pos + 1) {
            Some((condition, end)) => {
                if looking_at(input, end, ')') {
                    return Some((condition, end + 1));
                }
            },
            None => {},
        }
    }
    read_expression(input, pos)
}

/// Reads `while`.
pub(crate) fn read_while_loop(input: &Vec<char>, pos: usize) -> (out: Option<(Token, usize)>)
    requires
        pos <= input.len(),
    ensures
        reads(out, while_loop(input@, pos as nat), input@),
    decreases input.len() - pos, 27nat,
{
    proof {
        reveal_strlit("while");
    }
    let ghost rule = while_loop(input@, pos as nat);
    if starts(input, pos, "while") && is_ahead(input, pos, skip_blank(input, pos + 5)) {
        match read_evaluation(input, skip_blank(input, pos + 5)) {
            Some((condition, end)) => {
                if is_ahead(input, pos, end) {
                    match read_block(input, end) {
                        Some((body, after)) => {
                            let ghost expected = TokenView::WhileLoop(
                                Box::new(condition@),
                                token_views(body@),
                            );
                            let token = Token::make_while_loop(condition, body);
                            assert(rule == Some((expected, after as nat)));
                            Some((token, after))
                        },
                        None => {
                            assert(rule is None);
                            None
                        },
                    }
                } else {
                    assert(rule is None);
                    None
                }
            },
            None => {
                assert(rule is None);
                None
            },
        }
    } else {
        assert(rule is None);
        None
    }
}

/// The position after `for (`.
pub(crate) fn read_for_head(input: &Vec<char>, pos: usize) -> (out: Option<usize>)
    requires
        pos <= input.len(),
    ensures
        match for_head(input@, pos as nat) {
            Some(after) => out == Some(after as usize) && after <= input.len(),
            None => out is None,
        },
{
    proof {
        reveal_strlit("for");
    }
    if starts(input, pos, "for") {
        let open = skip_blank(input, pos + 3);
        if looking_at(input, open, '(') {
            return Some(skip_blank(input, open + 1));
        }
    }
    None
}

/// Reads what a `for (item in ..)` runs over.
pub(crate) fn read_source(input: &Vec<char>, pos: usize) -> (out: Option<(Token, usize)>)
    requires
        pos <= input.len(),
    ensures
        reads(out, source(input@, pos as nat), input@),
    decreases input.len() - pos, 26nat,
{
    match read_name(input, pos) {
        Some(found) => Some(found),
        None => read_list(input, pos),
    }
}

/// Reads `for (item in array)`.
pub(crate) fn read_for_each(input: &Vec<char>, pos: usize) -> (out: Option<(Token, usize)>)
    requires
        pos <= input.len(),
    ensures
        reads(out, for_each(input@, pos as nat), input@),
    decreases input.len() - pos, 27nat,
{
    proof {
        reveal_strlit("in");
    }
    let ghost rule = for_each(input@, pos as nat);
    match read_for_head(input, pos) {
        Some(start) => {
            match read_name(input, start) {
                Some((item, end)) => {
                    let word = skip_blank(input, end);
                    if starts(input, word, "in") && is_ahead(
                        input,
                        pos,
                        skip_blank(input, word + 2),
                    ) {
                        match read_source(input, skip_blank(input, word + 2)) {
                            Some((array, after)) => {
                                let close = skip_blank(input, after);
                                if looking_at(input, close, ')') && is_ahead(
                                    input,
                                    pos,
                                    close + 1,
                                ) {
                                    match read_block(input, close + 1) {
                                        Some((body, done)) => {
                                            let ghost expected = TokenView::ForEach(
                                                Box::new(item@),
                                                Box::new(array@),
                                                token_views(body@),
                                            );
                                            let token = Token::make_for_each(item, array, body);
                                            assert(rule == Some((expected, done as nat)));
                                            Some((token, done))
                                        },
                                        None => {
                                            assert(rule is None);
                                            None
                                        },
                                    }
                                } else {
                                    assert(rule is None);
                                    None
                                }
                            },
                            None => {
                                assert(rule is None);
                                None
                            },
                        }
                    } else {
                        assert(rule is None);
                        None
                    }
                },
                None => {
                    assert(rule is None);
                    None
                },
            }
        },
        None => {
            assert(rule is None);
            None
        },
    }
}

/// Reads the first part of a `for` with a counter.
pub(crate) fn read_for_start(input: &Vec<char>, pos: usize) -> (out: Option<(Token, usize)>)
    requires
        pos <= input.len(),
    ensures
        reads(out, for_start(input@, pos as nat), input@),
    decreases input.len() - pos, 26nat,
{
    match read_variable(input, pos) {
        Some(found) => Some(found),
        None => read_assignment(input, pos),
    }
}

/// The position after a semicolon and the blanks around it.
pub(crate) fn read_for_separator(input: &Vec<char>, pos: usize) -> (out: Option<usize>)
    requires
        pos <= input.len(),
    ensures
        match for_separator(input@, pos as nat) {
            Some(after) => out == Some(after as usize) && after <= input.len(),
            None => out is None,
        },
{
    let semi = skip_blank(input, pos);
    if looking_at(input, semi, ';') {
        Some(skip_blank(input, semi + 1))
    } else {
        None
    }
}

/// The position after the parenthesis that closes the head of a `for`.
pub(crate) fn read_for_close(input: &Vec<char>, pos: usize) -> (out: Option<usize>)
    requires
        pos <= input.len(),
    ensures
        match for_close(input@, pos as nat) {
            Some(after) => out == Some(after as usize) && after <= input.len(),
            None => out is None,
        },
{
    let here = match read_for_separator(input, pos) {
        Some(after) => after,
        None => skip_blank(input, pos),
    };
    if looking_at(input, here, ')') {
        Some(here + 1)
    } else {
        None
    }
}

/// Reads the head of a `for` with a counter up to its condition, and
/// gives the position after the semicolon behind the condition.
pub(crate) fn read_for_condition(input: &Vec<char>, pos: usize) -> (out: Option<(Token, Token, usize)>)
    requires
        pos <= input.len(),
    ensures
        match for_condition(input@, pos as nat) {
            Some((start, condition, end)) => out matches Some((first, second, after)) && first@
                == start && second@ == condition && after == end && pos < after <= input.len(),
            None => out is None,
        },
    decreases input.len() - pos, 26nat,
{
    let ghost rule = for_condition(input@, pos as nat);
    match read_for_head(input, pos) {
        Some(start) => {
            if is_ahead(input, pos, start) {
                match read_for_start(input, start) {
                    Some((first, end)) => {
                        match read_for_separator(input, end) {
                            Some(second) => {
                                if is_ahead(input, pos, second) {
                                    match read_expression(input, second) {
                                        Some((condition, after)) => {
                                            match read_for_separator(input, after) {
                                                Some(third) => {
                                                    if is_ahead(input, pos, third) {
                                                        assert(rule == Some(
                                                            (first@, condition@, third as nat),
                                                        ));
                                                        Some((first, condition, third))
                                                    } else {
                                                        assert(rule is None);
                                                        None
                                                    }
                                                },
                                                None => {
                                                    assert(rule is None);
                                                    None
                                                },
                                            }
                                        },
                                        None => {
                                            assert(rule is None);
                                            None
                                        },
                                    }
                                } else {
                                    assert(rule is None);
                                    None
                                }
                            },
                            None => {
                                assert(rule is None);
                                None
                            },
                        }
                    },
                    None => {
                        assert(rule is None);
                        None
                    },
                }
            } else {
                assert(rule is None);
                None
            }
        },
        None => {
            assert(rule is None);
            None
        },
    }
}

/// Reads `for (start; condition; step)`.
pub(crate) fn read_for_counted(input: &Vec<char>, pos: usize) -> (out: Option<(Token, usize)>)
    requires
        pos <= input.len(),
    ensures
        reads(out, for_counted(input@, pos as nat), input@),
    decreases input.len() - pos, 27nat,
{
    let ghost rule = for_counted(input@, pos as nat);
    match read_for_condition(input, pos) {
        Some((first, condition, third)) => {
            match read_assignment(input, third) {
                Some((step, last)) => {
                    match read_for_close(input, last) {
                        Some(open) => {
                            if is_ahead(input, pos, open) {
                                match read_block(input, open) {
                                    Some((body, done)) => {
                                        let ghost expected = TokenView::ForI(
                                            Box::new(first@),
                                            Box::new(condition@),
                                            Box::new(step@),
                                            token_views(body@),
                                        );
                                        let token = Token::make_for_i(first, condition, step, body);
                                        assert(rule == Some((expected, done as nat)));
                                        Some((token, done))
                                    },
                                    None => {
                                        assert(rule is None);
                                        None
                                    },
                                }
                            } else {
                                assert(rule is None);
                                None
                            }
                        },
                        None => {
                            assert(rule is None);
                            None
                        },
                    }
                },
                None => {
                    assert(rule is None);
                    None
                },
            }
        },
        None => {
            assert(rule is None);
            None
        },
    }
}

/// Reads the names between the parentheses of a declaration, and the block
/// after them.
pub(crate) fn read_signature(input: &Vec<char>, pos: usize) -> (out: Option<(Vec<Token>, Vec<Token>, usize)>)
    requires
        pos <= input.len(),
    ensures
        match signature(input@, pos as nat) {
            Some((names, body, end)) => out matches Some((found, statements, after))
                && token_views(found@) == names && token_views(statements@) == body && after
                == end && after <= input.len(),
            None => out is None,
        },
{
    if looking_at(input, pos, '(') {
        let (names, end) = read_parameters(input, pos + 1);
        let close = skip_blank(input, end);
        if looking_at(input, close, ')') {
            match read_block(input, close + 1) {
                Some((body, after)) => Some((names, body, after)),
                None => None,
            }
        } else {
            None
        }
    } else {
        None
    }
}

/// Reads a method.
pub(crate) fn read_function(input: &Vec<char>, pos: usize) -> (out: Option<(Token, usize)>)
    requires
        pos <= input.len(),
    ensures
        reads(out, function(input@, pos as nat), input@),
{
    proof {
        reveal_strlit("function");
    }
    if starts(input, pos, "function") {
        match read_identifier(input, skip_blank(input, pos + 8)) {
            Some((name, end)) => {
                match read_signature(input, skip_blank(input, end)) {
                    Some((names, body, after)) => Some(
                        (Token::make_function(name, names, body), skip_space(input, after)),
                    ),
                    None => None,
                }
            },
            None => None,
        }
    } else {
        None
    }
}

/// Reads a constructor.
pub(crate) fn read_constructor(input: &Vec<char>, pos: usize) -> (out: Option<(Token, usize)>)
    requires
        pos <= input.len(),
    ensures
        reads(out, constructor(input@, pos as nat), input@),
{
    proof {
        reveal_strlit("constructor");
    }
    if starts(input, pos, "constructor") {
        match read_signature(input, skip_blank(input, pos + 11)) {
            Some((names, body, after)) => Some((Token::make_constructor(names, body), after)),
            None => None,
        }
    } else {
        None
    }
}

/// Reads a field.
pub(crate) fn read_field(input: &Vec<char>, pos: usize) -> (out: Option<(Token, usize)>)
    requires
        pos <= input.len(),
    ensures
        reads(out, field(input@, pos as nat), input@),
{
    match read_variable(input, pos) {
        Some((found, end)) => {
            match read_end(input, end) {
                Some(after) => Some((found, after)),
                None => None,
            }
        },
        None => None,
    }
}

/// Reads a member of a class.
pub(crate) fn read_member(input: &Vec<char>, pos: usize) -> (out: Option<(Token, usize)>)
    requires
        pos <= input.len(),
    ensures
        reads(out, member(input@, pos as nat), input@),
{
    match read_field(input, pos) {
        Some(found) => {
            return Some(found);
        },
        None => {},
    }
    match read_constructor(input, pos) {
        Some(found) => {
            return Some(found);
        },
        None => {},
    }
    read_function(input, pos)
}

/// Reads members one after the other.
pub(crate) fn read_members(input: &Vec<char>, pos: usize) -> (out: (Vec<Token>, usize))
    requires
        pos <= input.len(),
    ensures
        reads_all(out, members(input@, pos as nat, Seq::empty()), input@),
{
    let mut found: Vec<Token> = Vec::new();
    let mut here: usize = pos;
    proof {
        lemma_views_empty();
    }
    loop
        invariant
            here <= input.len(),
            members(input@, pos as nat, Seq::empty()) == members(
                input@,
                here as nat,
                token_views(found@),
            ),
        ensures
            reads_all((found, here), members(input@, pos as nat, Seq::empty()), input@),
        decreases input.len() - here,
    {
        match read_member(input, skip_space(input, here)) {
            Some((next, end)) => {
                if !is_ahead(input, here, end) {
                    break ;
                }
                proof {
                    lemma_views_push(found@, next);
                }
                found.push(next);
                here = end;
            },
            None => {
                break ;
            },
        }
    }
    (found, here)
}

/// Reads a class.
pub(crate) fn read_class(input: &Vec<char>, pos: usize) -> (out: Option<(Token, usize)>)
    requires
        pos <= input.len(),
    ensures
        reads(out, class(input@, pos as nat), input@),
{
    proof {
        reveal_strlit("class");
    }
    if starts(input, pos, "class") {
        match read_identifier(input, skip_space(input, pos + 5)) {
            Some((name, end)) => {
                let open = skip_space(input, end);
                if looking_at(input, open, '{') {
                    let (found, after) = read_members(input, open + 1);
                    let close = skip_space(input, after);
                    if looking_at(input, close, '}') {
                        Some((Token::make_class(name, found), close + 1))
                    } else {
                        None
                    }
                } else {
                    None
                }
            },
            None => None,
        }
    } else {
        None
    }
}

/// Reads what can stand at the top of a script.
pub(crate) fn read_top(input: &Vec<char>, pos: usize) -> (out: Option<(Token, usize)>)
    requires
        pos <= input.len(),
    ensures
        reads(out, top(input@, pos as nat), input@),
{
    match read_import(input, pos) {
        Some(found) => {
            return Some(found);
        },
        None => {},
    }
    match read_class(input, pos) {
        Some(found) => {
            return Some(found);
        },
        None => {},
    }
    read_comment(input, pos)
}

/// Reads imports, classes and comments one after the other.
pub(crate) fn read_tops(input: &Vec<char>) -> (out: (Vec<Token>, usize))
    ensures
        reads_all(out, tops(input@, 0, Seq::empty()), input@),
{
    let mut found: Vec<Token> = Vec::new();
    let mut here: usize = 0;
    proof {
        lemma_views_empty();
    }
    loop
        invariant
            here <= input.len(),
            tops(input@, 0, Seq::empty()) == tops(input@, here as nat, token_views(found@)),
        ensures
            reads_all((found, here), tops(input@, 0, Seq::empty()), input@),
        decreases input.len() - here,
    {
        match read_top(input, skip_space(input, here)) {
            Some((next, end)) => {
                if !is_ahead(input, here, end) {
                    break ;
                }
                proof {
                    lemma_views_push(found@, next);
                }
                found.push(next);
                here = end;
            },
            None => {
                break ;
            },
        }
    }
    (found, here)
}

/// Reads a script from its characters.
pub fn parse_chars(input: &Vec<char>) -> (out: Result<Vec<Token>, ParseError>)
    ensures
        match script(input@) {
            Ok(expected) => out matches Ok(tokens) && token_views(tokens@) == expected,
            Err(stopped) => out matches Err(error) && diagnoses(error, stopped, input@),
        },
{
    let (found, end) = read_tops(input);
    let rest = skip_space(input, end);
    if rest >= input.len() {
        Ok(found)
    } else {
        Err(diagnose(input))
    }
}

/// Reads a script.
pub fn parse(source: &str) -> (out: Result<Vec<Token>, ParseError>)
    ensures
        match script(source@) {
            Ok(expected) => out matches Ok(tokens) && token_views(tokens@) == expected,
            Err(stopped) => out matches Err(error) && diagnoses(error, stopped, source@),
        },
{
    let input = chars_of(source);
    parse_chars(&input)
}

} // verus!
