//! The grammar of the language.
//!
//! Each rule reads the source text from a position on and either fails or
//! gives what it read and the position after it. A choice takes the first
//! alternative that reads something and never comes back to it; a repetition
//! reads as much as it can.

use vstd::prelude::*;
use crate::compiler::token::TokenView;

verus! {

/// A token that was read, and the position after it.
pub type Parsed = Option<(TokenView, nat)>;

/// Tokens that were read, and the position after them.
pub type ParsedList = Option<(Seq<TokenView>, nat)>;

/// The binary operators.
#[derive(Clone, Copy, Debug, PartialEq, Eq, Structural)]
pub enum Infix {
    Eq,
    Ne,
    Lt,
    Le,
    Gt,
    Ge,
    Add,
    Sub,
    Mul,
    Div,
    Pow,
}

/// A space or a tab.
pub open spec fn is_blank(c: char) -> bool {
    c == ' ' || c == '\t'
}

/// A space, a tab or a line end.
pub open spec fn is_space(c: char) -> bool {
    c == ' ' || c == '\t' || c == '\n' || c == '\r'
}

/// A line end.
pub open spec fn is_newline(c: char) -> bool {
    c == '\n' || c == '\r'
}

/// A decimal digit.
pub open spec fn is_digit(c: char) -> bool {
    '0' <= c <= '9'
}

/// A letter of the alphabet or an underscore.
pub open spec fn is_letter(c: char) -> bool {
    ('a' <= c <= 'z') || ('A' <= c <= 'Z') || c == '_'
}

/// A character that can stand inside a name.
pub open spec fn is_word(c: char) -> bool {
    is_letter(c) || is_digit(c)
}

/// The kinds of character that a run can be made of.
#[derive(Clone, Copy, Debug, PartialEq, Eq, Structural)]
pub enum Run {
    /// Spaces and tabs.
    Blank,
    /// Spaces, tabs and line ends.
    Space,
    /// Letters, digits and underscores.
    Word,
    /// Digits.
    Digits,
    /// Anything but a double quote.
    Quoted,
    /// Anything but a line end.
    Line,
    /// Semicolons.
    Semicolons,
}

/// Whether a character belongs to a kind of run.
pub open spec fn belongs(run: Run, c: char) -> bool {
    match run {
        Run::Blank => is_blank(c),
        Run::Space => is_space(c),
        Run::Word => is_word(c),
        Run::Digits => is_digit(c),
        Run::Quoted => c != '"',
        Run::Line => !is_newline(c),
        Run::Semicolons => c == ';',
    }
}

/// The end of the longest run of the kind that starts at `pos`.
pub open spec fn run_end(s: Seq<char>, pos: nat, run: Run) -> nat
    decreases s.len() - pos,
{
    if pos < s.len() && belongs(run, s[pos as int]) {
        run_end(s, pos + 1, run)
    } else {
        pos
    }
}

/// The position after spaces and tabs.
pub open spec fn blank(s: Seq<char>, pos: nat) -> nat {
    run_end(s, pos, Run::Blank)
}

/// The position after spaces, tabs and line ends.
pub open spec fn space(s: Seq<char>, pos: nat) -> nat {
    run_end(s, pos, Run::Space)
}

/// Whether `text` stands at `pos`.
pub open spec fn at(s: Seq<char>, pos: nat, text: Seq<char>) -> bool {
    pos + text.len() <= s.len() && s.subrange(pos as int, (pos + text.len()) as int) == text
}

/// Whether the character `c` stands at `pos`.
pub open spec fn has(s: Seq<char>, pos: nat, c: char) -> bool {
    pos < s.len() && s[pos as int] == c
}

/// Whether `q` is a position of the text after `pos`.
pub open spec fn ahead(s: Seq<char>, pos: nat, q: nat) -> bool {
    pos < q <= s.len()
}

/// Whether `q` is a position of the text at or after `pos`.
pub open spec fn onward(s: Seq<char>, pos: nat, q: nat) -> bool {
    pos <= q <= s.len()
}

/// Whether the word `text` stands at `pos` and ends there.
pub open spec fn keyword(s: Seq<char>, pos: nat, text: Seq<char>) -> bool {
    at(s, pos, text) && !(pos + text.len() < s.len() && is_word(s[(pos + text.len()) as int]))
}

/// A name: a letter or an underscore, then letters, digits and underscores.
pub open spec fn identifier(s: Seq<char>, pos: nat) -> Option<(Seq<char>, nat)> {
    if pos < s.len() && is_letter(s[pos as int]) {
        let end = run_end(s, pos + 1, Run::Word);
        Some((s.subrange(pos as int, end as int), end))
    } else {
        None
    }
}

/// A text between double quotes.
pub open spec fn string(s: Seq<char>, pos: nat) -> Option<(Seq<char>, nat)> {
    if has(s, pos, '"') {
        let end = run_end(s, pos + 1, Run::Quoted);
        if end < s.len() {
            Some((s.subrange((pos + 1) as int, end as int), end + 1))
        } else {
            None
        }
    } else {
        None
    }
}

/// The position after a minus sign, if one stands at `pos`.
pub open spec fn after_sign(s: Seq<char>, pos: nat) -> nat {
    if has(s, pos, '-') {
        pos + 1
    } else {
        pos
    }
}

/// A float literal: an optional minus sign, digits, a point, digits. It is
/// read as text.
pub open spec fn float(s: Seq<char>, pos: nat) -> Option<(Seq<char>, nat)> {
    let start = after_sign(s, pos);
    let point = run_end(s, start, Run::Digits);
    let end = run_end(s, point + 1, Run::Digits);
    if point > start && has(s, point, '.') && end > point + 1 {
        Some((s.subrange(pos as int, end as int), end))
    } else {
        None
    }
}

/// The number that the digits from `from` up to `to` write after the digits
/// that gave `so_far`; `None` once it is above 2^31.
pub open spec fn magnitude(s: Seq<char>, from: nat, to: nat, so_far: int) -> Option<int>
    decreases to - from,
{
    if from >= to || from >= s.len() {
        Some(so_far)
    } else {
        let next = so_far * 10 + (s[from as int] as int - '0' as int);
        if next > 0x8000_0000 {
            None
        } else {
            magnitude(s, from + 1, to, next)
        }
    }
}

/// An integer literal: an optional minus sign and digits that write a
/// 32-bit signed integer.
pub open spec fn integer(s: Seq<char>, pos: nat) -> Option<(i32, nat)> {
    let start = after_sign(s, pos);
    let end = run_end(s, start, Run::Digits);
    if end > start {
        match magnitude(s, start, end, 0) {
            Some(m) => {
                let value = if start > pos {
                    -m
                } else {
                    m
                };
                if i32::MIN <= value <= i32::MAX {
                    Some((value as i32, end))
                } else {
                    None
                }
            },
            None => None,
        }
    } else {
        None
    }
}

/// A comment: two slashes and the rest of the line, which has to end.
pub open spec fn comment(s: Seq<char>, pos: nat) -> Parsed {
    if at(s, pos, "//"@) {
        let end = run_end(s, pos + 2, Run::Line);
        if end < s.len() {
            Some((TokenView::Comment(s.subrange((pos + 2) as int, end as int)), end + 1))
        } else {
            None
        }
    } else {
        None
    }
}

/// An import: the word, a text, semicolons.
pub open spec fn import(s: Seq<char>, pos: nat) -> Parsed {
    if at(s, pos, "import"@) {
        match string(s, blank(s, pos + 6)) {
            Some((path, end)) => {
                let semi = blank(s, end);
                if has(s, semi, ';') {
                    Some((TokenView::Import(path), run_end(s, semi, Run::Semicolons)))
                } else {
                    None
                }
            },
            None => None,
        }
    } else {
        None
    }
}

/// The operator of a level of precedence that stands at `pos`: comparisons
/// at level 1, sums at level 2, products at level 3.
pub open spec fn infix(s: Seq<char>, pos: nat, level: nat) -> Option<(Infix, nat)> {
    if level == 1 {
        if at(s, pos, "=="@) {
            Some((Infix::Eq, pos + 2))
        } else if at(s, pos, "!="@) {
            Some((Infix::Ne, pos + 2))
        } else if at(s, pos, "<="@) {
            Some((Infix::Le, pos + 2))
        } else if at(s, pos, ">="@) {
            Some((Infix::Ge, pos + 2))
        } else if has(s, pos, '<') {
            Some((Infix::Lt, pos + 1))
        } else if has(s, pos, '>') {
            Some((Infix::Gt, pos + 1))
        } else {
            None
        }
    } else if level == 2 {
        if has(s, pos, '+') {
            Some((Infix::Add, pos + 1))
        } else if has(s, pos, '-') {
            Some((Infix::Sub, pos + 1))
        } else {
            None
        }
    } else {
        if has(s, pos, '*') {
            Some((Infix::Mul, pos + 1))
        } else if has(s, pos, '/') {
            Some((Infix::Div, pos + 1))
        } else if has(s, pos, '^') {
            Some((Infix::Pow, pos + 1))
        } else {
            None
        }
    }
}

/// The node of a binary operator.
pub open spec fn infix_node(operator: Infix, left: TokenView, right: TokenView) -> TokenView {
    match operator {
        Infix::Eq => TokenView::Eq(Box::new(left), Box::new(right)),
        Infix::Ne => TokenView::Ne(Box::new(left), Box::new(right)),
        Infix::Lt => TokenView::Lt(Box::new(left), Box::new(right)),
        Infix::Le => TokenView::Le(Box::new(left), Box::new(right)),
        Infix::Gt => TokenView::Gt(Box::new(left), Box::new(right)),
        Infix::Ge => TokenView::Ge(Box::new(left), Box::new(right)),
        Infix::Add => TokenView::Add(Box::new(left), Box::new(right)),
        Infix::Sub => TokenView::Sub(Box::new(left), Box::new(right)),
        Infix::Mul => TokenView::Mul(Box::new(left), Box::new(right)),
        Infix::Div => TokenView::Div(Box::new(left), Box::new(right)),
        Infix::Pow => TokenView::Pow(Box::new(left), Box::new(right)),
    }
}

/// A float literal as a token.
pub open spec fn as_float(found: Option<(Seq<char>, nat)>) -> Parsed {
    match found {
        Some((text, end)) => Some((TokenView::Float(text), end)),
        None => None,
    }
}

/// An integer literal as a token.
pub open spec fn as_integer(found: Option<(i32, nat)>) -> Parsed {
    match found {
        Some((value, end)) => Some((TokenView::Integer(value), end)),
        None => None,
    }
}

/// A name as a token.
pub open spec fn as_identifier(found: Option<(Seq<char>, nat)>) -> Parsed {
    match found {
        Some((name, end)) => Some((TokenView::Identifier(name), end)),
        None => None,
    }
}

/// A text as a token.
pub open spec fn as_string(found: Option<(Seq<char>, nat)>) -> Parsed {
    match found {
        Some((text, end)) => Some((TokenView::String(text), end)),
        None => None,
    }
}

/// An expression as the operand of `assert`.
pub open spec fn as_assert(found: Parsed) -> Parsed {
    match found {
        Some((value, end)) => Some((TokenView::Assert(Box::new(value)), end)),
        None => None,
    }
}

/// An expression as the operand of `print`.
pub open spec fn as_print(found: Parsed) -> Parsed {
    match found {
        Some((value, end)) => Some((TokenView::Print(Box::new(value)), end)),
        None => None,
    }
}

/// An expression as the operand of `return`.
pub open spec fn as_return(found: Parsed) -> Parsed {
    match found {
        Some((value, end)) => Some((TokenView::Return(Box::new(value)), end)),
        None => None,
    }
}

/// Names between commas, each with blanks around it.
pub open spec fn parameters(s: Seq<char>, pos: nat) -> (Seq<TokenView>, nat) {
    match identifier(s, blank(s, pos)) {
        Some((name, end)) => more_parameters(s, blank(s, end), seq![TokenView::Identifier(name)]),
        None => (Seq::empty(), pos),
    }
}

/// The names after the first, each behind a comma.
pub open spec fn more_parameters(s: Seq<char>, pos: nat, so_far: Seq<TokenView>) -> (
    Seq<TokenView>,
    nat,
)
    decreases s.len() - pos,
{
    if has(s, pos, ',') {
        match identifier(s, blank(s, pos + 1)) {
            Some((name, end)) => if ahead(s, pos, blank(s, end)) {
                more_parameters(s, blank(s, end), so_far.push(TokenView::Identifier(name)))
            } else {
                (so_far, pos)
            },
            None => (so_far, pos),
        }
    } else {
        (so_far, pos)
    }
}

/// An expression: operands joined by operators. Products bind tighter than
/// sums, sums tighter than comparisons, and of two operators of one level
/// the right one binds tighter.
pub open spec fn expression(s: Seq<char>, pos: nat) -> Parsed
    decreases s.len() - pos, 20nat,
{
    level(s, pos, 1)
}

/// An expression with operators of `rank` and tighter.
pub open spec fn level(s: Seq<char>, pos: nat, rank: nat) -> Parsed
    decreases s.len() - pos, 19nat - rank,
{
    if rank < 1 || rank > 3 {
        None
    } else {
        let first = if rank == 3 {
            atom(s, pos)
        } else {
            level(s, pos, rank + 1)
        };
        match first {
            None => None,
            Some((left, end)) => match infix(s, blank(s, end), rank) {
                None => Some((left, end)),
                Some((operator, after)) => if ahead(s, pos, blank(s, after)) {
                    match level(s, blank(s, after), rank) {
                        Some((right, done)) => Some((infix_node(operator, left, right), done)),
                        None => Some((left, end)),
                    }
                } else {
                    Some((left, end))
                },
            },
        }
    }
}

/// An operand.
pub open spec fn atom(s: Seq<char>, pos: nat) -> Parsed
    decreases s.len() - pos, 15nat,
{
    if float(s, pos) is Some {
        as_float(float(s, pos))
    } else if integer(s, pos) is Some {
        as_integer(integer(s, pos))
    } else if function_literal(s, pos) is Some {
        function_literal(s, pos)
    } else if array_index(s, pos) is Some {
        array_index(s, pos)
    } else if dictionary(s, pos) is Some {
        dictionary(s, pos)
    } else if list(s, pos) is Some {
        list(s, pos)
    } else if call(s, pos) is Some {
        call(s, pos)
    } else if chain(s, pos) is Some {
        chain(s, pos)
    } else if new_object(s, pos) is Some {
        new_object(s, pos)
    } else if keyword(s, pos, "null"@) {
        Some((TokenView::Null, pos + 4))
    } else if keyword(s, pos, "true"@) {
        Some((TokenView::Bool(true), pos + 4))
    } else if keyword(s, pos, "false"@) {
        Some((TokenView::Bool(false), pos + 5))
    } else if identifier(s, pos) is Some {
        as_identifier(identifier(s, pos))
    } else if string(s, pos) is Some {
        as_string(string(s, pos))
    } else {
        None
    }
}

/// A function without a name: `function(`, names, `)`, a block.
pub open spec fn function_literal(s: Seq<char>, pos: nat) -> Parsed
    decreases s.len() - pos, 12nat,
{
    if at(s, pos, "function("@) {
        let (names, end) = parameters(s, pos + 9);
        if has(s, end, ')') && ahead(s, pos, end + 1) {
            match block(s, end + 1) {
                Some((statements, done)) => Some((TokenView::AnonFunction(names, statements), done)),
                None => None,
            }
        } else {
            None
        }
    } else {
        None
    }
}

/// `name[index]`.
pub open spec fn array_index(s: Seq<char>, pos: nat) -> Parsed
    decreases s.len() - pos, 12nat,
{
    match identifier(s, pos) {
        Some((name, end)) => if has(s, end, '[') && ahead(s, pos, space(s, end + 1)) {
            match expression(s, space(s, end + 1)) {
                Some((index, after)) => if has(s, space(s, after), ']') {
                    Some(
                        (
                            TokenView::ArrayIndex(
                                Box::new(TokenView::Identifier(name)),
                                Box::new(index),
                            ),
                            space(s, after) + 1,
                        ),
                    )
                } else {
                    None
                },
                None => None,
            }
        } else {
            None
        },
        None => None,
    }
}

/// Expressions between commas. Blanks may stand around each; where `wide`
/// holds, line ends may stand before each too.
pub open spec fn arguments(s: Seq<char>, pos: nat, wide: bool) -> (Seq<TokenView>, nat)
    decreases s.len() - pos, 26nat,
{
    let start = if wide {
        space(s, pos)
    } else {
        blank(s, pos)
    };
    if onward(s, pos, start) {
        match expression(s, start) {
            Some((item, end)) => if ahead(s, pos, blank(s, end)) {
                more_arguments(s, blank(s, end), wide, seq![item])
            } else {
                (Seq::empty(), pos)
            },
            None => (Seq::empty(), pos),
        }
    } else {
        (Seq::empty(), pos)
    }
}

/// The expressions after the first, each behind a comma.
pub open spec fn more_arguments(s: Seq<char>, pos: nat, wide: bool, so_far: Seq<TokenView>) -> (
    Seq<TokenView>,
    nat,
)
    decreases s.len() - pos, 25nat,
{
    let start = if wide {
        space(s, pos + 1)
    } else {
        blank(s, pos + 1)
    };
    if has(s, pos, ',') && ahead(s, pos, start) {
        match expression(s, start) {
            Some((item, end)) => if ahead(s, pos, blank(s, end)) {
                more_arguments(s, blank(s, end), wide, so_far.push(item))
            } else {
                (so_far, pos)
            },
            None => (so_far, pos),
        }
    } else {
        (so_far, pos)
    }
}

/// A pair of a dictionary literal: a text, a colon, an expression.
pub open spec fn pair(s: Seq<char>, pos: nat) -> Parsed
    decreases s.len() - pos, 24nat,
{
    match string(s, space(s, pos)) {
        Some((key, end)) => if has(s, space(s, end), ':') && ahead(
            s,
            pos,
            space(s, space(s, end) + 1),
        ) {
            match expression(s, space(s, space(s, end) + 1)) {
                Some((value, after)) => Some(
                    (TokenView::KeyValuePair(key, Box::new(value)), space(s, after)),
                ),
                None => None,
            }
        } else {
            None
        },
        None => None,
    }
}

/// Pairs between commas.
pub open spec fn pairs(s: Seq<char>, pos: nat) -> (Seq<TokenView>, nat)
    decreases s.len() - pos, 26nat,
{
    match pair(s, pos) {
        Some((first, end)) => if ahead(s, pos, end) {
            more_pairs(s, end, seq![first])
        } else {
            (Seq::empty(), pos)
        },
        None => (Seq::empty(), pos),
    }
}

/// The pairs after the first, each behind a comma.
pub open spec fn more_pairs(s: Seq<char>, pos: nat, so_far: Seq<TokenView>) -> (
    Seq<TokenView>,
    nat,
)
    decreases s.len() - pos, 25nat,
{
    if has(s, pos, ',') {
        match pair(s, pos + 1) {
            Some((next, end)) => if ahead(s, pos, end) {
                more_pairs(s, end, so_far.push(next))
            } else {
                (so_far, pos)
            },
            None => (so_far, pos),
        }
    } else {
        (so_far, pos)
    }
}

/// A dictionary literal: pairs between braces.
pub open spec fn dictionary(s: Seq<char>, pos: nat) -> Parsed
    decreases s.len() - pos, 12nat,
{
    if has(s, pos, '{') && ahead(s, pos, space(s, pos + 1)) {
        let (found, end) = pairs(s, space(s, pos + 1));
        if has(s, space(s, end), '}') {
            Some((TokenView::Dictionary(found), space(s, end) + 1))
        } else {
            None
        }
    } else {
        None
    }
}

/// An array literal: expressions between brackets.
pub open spec fn list(s: Seq<char>, pos: nat) -> Parsed
    decreases s.len() - pos, 12nat,
{
    if has(s, pos, '[') && ahead(s, pos, space(s, pos + 1)) {
        let (found, end) = arguments(s, space(s, pos + 1), true);
        if has(s, space(s, end), ']') {
            Some((TokenView::Array(found), space(s, end) + 1))
        } else {
            None
        }
    } else {
        None
    }
}

/// A call: a name, and expressions between parentheses.
pub open spec fn call(s: Seq<char>, pos: nat) -> Parsed
    decreases s.len() - pos, 12nat,
{
    match identifier(s, pos) {
        Some((name, end)) => if has(s, end, '(') && ahead(s, pos, end + 1) {
            let (found, after) = arguments(s, end + 1, false);
            if has(s, blank(s, after), ')') {
                Some(
                    (
                        TokenView::Call(Box::new(TokenView::Identifier(name)), found),
                        blank(s, after) + 1,
                    ),
                )
            } else {
                None
            }
        } else {
            None
        },
        None => None,
    }
}

/// `new`, the name of a class, and expressions between parentheses.
pub open spec fn new_object(s: Seq<char>, pos: nat) -> Parsed
    decreases s.len() - pos, 12nat,
{
    if at(s, pos, "new"@) {
        match identifier(s, blank(s, pos + 3)) {
            Some((name, end)) => if has(s, end, '(') && ahead(s, pos, end + 1) {
                let (found, after) = arguments(s, end + 1, false);
                if has(s, blank(s, after), ')') {
                    Some(
                        (
                            TokenView::Object(Box::new(TokenView::Identifier(name)), found),
                            blank(s, after) + 1,
                        ),
                    )
                } else {
                    None
                }
            } else {
                None
            },
            None => None,
        }
    } else {
        None
    }
}

/// What can stand between the dots of a chain: a call, an indexed name, or
/// a name.
pub open spec fn chain_item(s: Seq<char>, pos: nat) -> Parsed
    decreases s.len() - pos, 13nat,
{
    if call(s, pos) is Some {
        call(s, pos)
    } else if array_index(s, pos) is Some {
        array_index(s, pos)
    } else {
        as_identifier(identifier(s, pos))
    }
}

/// The links of a chain, each behind a dot, added to `so_far`.
pub open spec fn links(s: Seq<char>, pos: nat, so_far: Seq<TokenView>) -> (Seq<TokenView>, nat)
    decreases s.len() - pos, 25nat,
{
    if has(s, pos, '.') {
        match chain_item(s, pos + 1) {
            Some((item, end)) => if ahead(s, pos, end) {
                links(s, end, so_far.push(item))
            } else {
                (so_far, pos)
            },
            None => (so_far, pos),
        }
    } else {
        (so_far, pos)
    }
}

/// A chain: an item, and at least one more behind a dot.
pub open spec fn chain(s: Seq<char>, pos: nat) -> Parsed
    decreases s.len() - pos, 14nat,
{
    match chain_item(s, pos) {
        Some((root, end)) => if ahead(s, pos, end) {
            let (rest, after) = links(s, end, Seq::empty());
            if rest.len() > 0 {
                Some((TokenView::Chain(Box::new(root), rest), after))
            } else {
                None
            }
        } else {
            None
        },
        None => None,
    }
}

/// A keyword, blanks, and an expression.
pub open spec fn prefixed(s: Seq<char>, pos: nat, word: Seq<char>) -> Parsed
    decreases s.len() - pos, 21nat,
{
    if at(s, pos, word) && onward(s, pos, blank(s, pos + word.len())) {
        expression(s, blank(s, pos + word.len()))
    } else {
        None
    }
}

/// `var name`, with `= value` or without.
pub open spec fn variable(s: Seq<char>, pos: nat) -> Parsed
    decreases s.len() - pos, 24nat,
{
    if at(s, pos, "var"@) {
        match identifier(s, blank(s, pos + 3)) {
            Some((name, end)) => {
                let bare = Some(
                    (
                        TokenView::Variable(
                            Box::new(TokenView::Identifier(name)),
                            Box::new(TokenView::Null),
                        ),
                        end,
                    ),
                );
                if has(s, space(s, end), '=') && ahead(s, pos, space(s, space(s, end) + 1)) {
                    match expression(s, space(s, space(s, end) + 1)) {
                        Some((value, after)) => Some(
                            (
                                TokenView::Variable(
                                    Box::new(TokenView::Identifier(name)),
                                    Box::new(value),
                                ),
                                after,
                            ),
                        ),
                        None => bare,
                    }
                } else {
                    bare
                }
            },
            None => None,
        }
    } else {
        None
    }
}

/// What can stand left of `=`: an indexed name, a chain, or a name.
pub open spec fn target(s: Seq<char>, pos: nat) -> Parsed
    decreases s.len() - pos, 23nat,
{
    if array_index(s, pos) is Some {
        array_index(s, pos)
    } else if chain(s, pos) is Some {
        chain(s, pos)
    } else {
        as_identifier(identifier(s, pos))
    }
}

/// `target = value`.
pub open spec fn assignment(s: Seq<char>, pos: nat) -> Parsed
    decreases s.len() - pos, 24nat,
{
    match target(s, pos) {
        Some((left, end)) => if has(s, space(s, end), '=') && ahead(
            s,
            pos,
            space(s, space(s, end) + 1),
        ) {
            match expression(s, space(s, space(s, end) + 1)) {
                Some((value, after)) => Some(
                    (TokenView::Assign(Box::new(left), Box::new(value)), after),
                ),
                None => None,
            }
        } else {
            None
        },
        None => None,
    }
}

/// What stands before the semicolon of a plain statement.
pub open spec fn simple(s: Seq<char>, pos: nat) -> Parsed
    decreases s.len() - pos, 26nat,
{
    if prefixed(s, pos, "assert"@) is Some {
        as_assert(prefixed(s, pos, "assert"@))
    } else if prefixed(s, pos, "print "@) is Some {
        as_print(prefixed(s, pos, "print "@))
    } else if variable(s, pos) is Some {
        variable(s, pos)
    } else if assignment(s, pos) is Some {
        assignment(s, pos)
    } else if call(s, pos) is Some {
        call(s, pos)
    } else if chain(s, pos) is Some {
        chain(s, pos)
    } else if prefixed(s, pos, "return"@) is Some {
        as_return(prefixed(s, pos, "return"@))
    } else {
        None
    }
}

/// The position after the semicolons that end a statement, and the space
/// around them; `None` where no semicolon stands.
pub open spec fn ended(s: Seq<char>, pos: nat) -> Option<nat> {
    if has(s, space(s, pos), ';') {
        Some(space(s, run_end(s, space(s, pos), Run::Semicolons)))
    } else {
        None
    }
}

/// A plain statement: what `simple` reads, and semicolons.
pub open spec fn single(s: Seq<char>, pos: nat) -> Parsed
    decreases s.len() - pos, 27nat,
{
    match simple(s, pos) {
        Some((statement, end)) => match ended(s, end) {
            Some(after) => Some((statement, after)),
            None => None,
        },
        None => None,
    }
}

/// Statements between braces, with space before the opening one.
pub open spec fn block(s: Seq<char>, pos: nat) -> ParsedList
    decreases s.len() - pos, 31nat,
{
    if has(s, space(s, pos), '{') && onward(s, pos, space(s, pos) + 1) {
        let (found, end) = statements(s, space(s, pos) + 1, Seq::empty());
        if has(s, space(s, end), '}') {
            Some((found, space(s, end) + 1))
        } else {
            None
        }
    } else {
        None
    }
}

/// Statements one after the other, added to `so_far`, with space before
/// each.
pub open spec fn statements(s: Seq<char>, pos: nat, so_far: Seq<TokenView>) -> (
    Seq<TokenView>,
    nat,
)
    decreases s.len() - pos, 30nat,
{
    if onward(s, pos, space(s, pos)) {
        match statement(s, space(s, pos)) {
            Some((found, end)) => if ahead(s, pos, end) {
                statements(s, end, so_far.push(found))
            } else {
                (so_far, pos)
            },
            None => (so_far, pos),
        }
    } else {
        (so_far, pos)
    }
}

/// A statement: a comment, a plain statement, or one with a block.
pub open spec fn statement(s: Seq<char>, pos: nat) -> Parsed
    decreases s.len() - pos, 29nat,
{
    if comment(s, pos) is Some {
        comment(s, pos)
    } else if single(s, pos) is Some {
        single(s, pos)
    } else {
        match control(s, pos) {
            Some((found, end)) => Some((found, space(s, end))),
            None => None,
        }
    }
}

/// A statement with a block.
pub open spec fn control(s: Seq<char>, pos: nat) -> Parsed
    decreases s.len() - pos, 28nat,
{
    if if_else(s, pos) is Some {
        if_else(s, pos)
    } else if while_loop(s, pos) is Some {
        while_loop(s, pos)
    } else if for_each(s, pos) is Some {
        for_each(s, pos)
    } else {
        for_counted(s, pos)
    }
}

/// The statements under `else`, and the position after them; `None` where
/// no `else` with its block stands at `pos`.
pub open spec fn otherwise(s: Seq<char>, origin: nat, pos: nat) -> ParsedList
    decreases s.len() - origin, 25nat,
{
    if at(s, pos, "else"@) && ahead(s, origin, blank(s, pos + 4)) {
        block(s, blank(s, pos + 4))
    } else {
        None
    }
}

/// `if`, a condition, a block, and perhaps `else` and a block.
pub open spec fn if_else(s: Seq<char>, pos: nat) -> Parsed
    decreases s.len() - pos, 27nat,
{
    match prefixed(s, pos, "if"@) {
        Some((condition, end)) => if ahead(s, pos, end) {
            match block(s, end) {
                Some((first, after)) => match otherwise(s, pos, space(s, after)) {
                    Some((second, done)) => Some(
                        (TokenView::IfElse(Box::new(condition), first, Some(second)), done),
                    ),
                    None => Some(
                        (TokenView::IfElse(Box::new(condition), first, None), space(s, after)),
                    ),
                },
                None => None,
            }
        } else {
            None
        },
        None => None,
    }
}

/// The condition of a `while`: an expression, between parentheses or bare.
pub open spec fn evaluation(s: Seq<char>, pos: nat) -> Parsed
    decreases s.len() - pos, 26nat,
{
    let inner = if has(s, pos, '(') {
        expression(s, pos + 1)
    } else {
        None
    };
    match inner {
        Some((condition, end)) => if has(s, end, ')') {
            Some((condition, end + 1))
        } else {
            expression(s, pos)
        },
        None => expression(s, pos),
    }
}

/// `while`, a condition, a block.
pub open spec fn while_loop(s: Seq<char>, pos: nat) -> Parsed
    decreases s.len() - pos, 27nat,
{
    if at(s, pos, "while"@) && ahead(s, pos, blank(s, pos + 5)) {
        match evaluation(s, blank(s, pos + 5)) {
            Some((condition, end)) => if ahead(s, pos, end) {
                match block(s, end) {
                    Some((body, after)) => Some(
                        (TokenView::WhileLoop(Box::new(condition), body), after),
                    ),
                    None => None,
                }
            } else {
                None
            },
            None => None,
        }
    } else {
        None
    }
}

/// The position after `for (` and the blanks around the parenthesis.
pub open spec fn for_head(s: Seq<char>, pos: nat) -> Option<nat> {
    if at(s, pos, "for"@) && has(s, blank(s, pos + 3), '(') {
        Some(blank(s, blank(s, pos + 3) + 1))
    } else {
        None
    }
}

/// What a `for (item in ..)` runs over: a name or an array literal.
pub open spec fn source(s: Seq<char>, pos: nat) -> Parsed
    decreases s.len() - pos, 26nat,
{
    match identifier(s, pos) {
        Some((name, end)) => Some((TokenView::Identifier(name), end)),
        None => list(s, pos),
    }
}

/// `for (item in array)` and a block.
pub open spec fn for_each(s: Seq<char>, pos: nat) -> Parsed
    decreases s.len() - pos, 27nat,
{
    match for_head(s, pos) {
        Some(start) => match identifier(s, start) {
            Some((item, end)) => if at(s, blank(s, end), "in"@) && ahead(
                s,
                pos,
                blank(s, blank(s, end) + 2),
            ) {
                match source(s, blank(s, blank(s, end) + 2)) {
                    Some((array, after)) => if has(s, blank(s, after), ')') && ahead(
                        s,
                        pos,
                        blank(s, after) + 1,
                    ) {
                        match block(s, blank(s, after) + 1) {
                            Some((body, done)) => Some(
                                (
                                    TokenView::ForEach(
                                        Box::new(TokenView::Identifier(item)),
                                        Box::new(array),
                                        body,
                                    ),
                                    done,
                                ),
                            ),
                            None => None,
                        }
                    } else {
                        None
                    },
                    None => None,
                }
            } else {
                None
            },
            None => None,
        },
        None => None,
    }
}

/// The first part of a `for` with a counter: a declaration or an
/// assignment.
pub open spec fn for_start(s: Seq<char>, pos: nat) -> Parsed
    decreases s.len() - pos, 26nat,
{
    if variable(s, pos) is Some {
        variable(s, pos)
    } else {
        assignment(s, pos)
    }
}

/// The position after a semicolon and the blanks around it.
pub open spec fn for_separator(s: Seq<char>, pos: nat) -> Option<nat> {
    if has(s, blank(s, pos), ';') {
        Some(blank(s, blank(s, pos) + 1))
    } else {
        None
    }
}

/// The position after the parenthesis that closes the head of a `for` with
/// a counter; a semicolon may stand before it.
pub open spec fn for_close(s: Seq<char>, pos: nat) -> Option<nat> {
    let here = match for_separator(s, pos) {
        Some(after) => after,
        None => blank(s, pos),
    };
    if has(s, here, ')') {
        Some(here + 1)
    } else {
        None
    }
}

/// The head of a `for` with a counter up to its condition: the first part,
/// the condition, and the position after the semicolon behind it.
pub open spec fn for_condition(s: Seq<char>, pos: nat) -> Option<(TokenView, TokenView, nat)>
    decreases s.len() - pos, 26nat,
{
    match for_head(s, pos) {
        Some(start) => if ahead(s, pos, start) {
            match for_start(s, start) {
                Some((first, end)) => match for_separator(s, end) {
                    Some(second) => if ahead(s, pos, second) {
                        match expression(s, second) {
                            Some((condition, after)) => match for_separator(s, after) {
                                Some(third) => if ahead(s, pos, third) {
                                    Some((first, condition, third))
                                } else {
                                    None
                                },
                                None => None,
                            },
                            None => None,
                        }
                    } else {
                        None
                    },
                    None => None,
                },
                None => None,
            }
        } else {
            None
        },
        None => None,
    }
}

/// `for (start; condition; step)` and a block.
pub open spec fn for_counted(s: Seq<char>, pos: nat) -> Parsed
    decreases s.len() - pos, 27nat,
{
    match for_condition(s, pos) {
        Some((first, condition, third)) => if ahead(s, pos, third) {
            match assignment(s, third) {
                Some((step, last)) => match for_close(s, last) {
                    Some(open) => if ahead(s, pos, open) {
                        match block(s, open) {
                            Some((body, done)) => Some(
                                (
                                    TokenView::ForI(
                                        Box::new(first),
                                        Box::new(condition),
                                        Box::new(step),
                                        body,
                                    ),
                                    done,
                                ),
                            ),
                            None => None,
                        }
                    } else {
                        None
                    },
                    None => None,
                },
                None => None,
            }
        } else {
            None
        },
        None => None,
    }
}

/// The names between the parentheses of a declaration, and the block after
/// them. `pos` is where the opening parenthesis has to stand.
pub open spec fn signature(s: Seq<char>, pos: nat) -> Option<(Seq<TokenView>, Seq<TokenView>, nat)> {
    if has(s, pos, '(') {
        let (names, end) = parameters(s, pos + 1);
        if has(s, blank(s, end), ')') {
            match block(s, blank(s, end) + 1) {
                Some((body, after)) => Some((names, body, after)),
                None => None,
            }
        } else {
            None
        }
    } else {
        None
    }
}

/// A method: `function`, a name, names between parentheses, a block.
pub open spec fn function(s: Seq<char>, pos: nat) -> Parsed {
    if at(s, pos, "function"@) {
        match identifier(s, blank(s, pos + 8)) {
            Some((name, end)) => match signature(s, blank(s, end)) {
                Some((names, body, after)) => Some(
                    (TokenView::Function(name, names, body), space(s, after)),
                ),
                None => None,
            },
            None => None,
        }
    } else {
        None
    }
}

/// A constructor: the word, names between parentheses, a block.
pub open spec fn constructor(s: Seq<char>, pos: nat) -> Parsed {
    if at(s, pos, "constructor"@) {
        match signature(s, blank(s, pos + 11)) {
            Some((names, body, after)) => Some((TokenView::Constructor(names, body), after)),
            None => None,
        }
    } else {
        None
    }
}

/// A field: a declaration and semicolons.
pub open spec fn field(s: Seq<char>, pos: nat) -> Parsed {
    match variable(s, pos) {
        Some((found, end)) => match ended(s, end) {
            Some(after) => Some((found, after)),
            None => None,
        },
        None => None,
    }
}

/// A member of a class: a field, a constructor, or a method.
pub open spec fn member(s: Seq<char>, pos: nat) -> Parsed {
    if field(s, pos) is Some {
        field(s, pos)
    } else if constructor(s, pos) is Some {
        constructor(s, pos)
    } else {
        function(s, pos)
    }
}

/// Members one after the other, added to `so_far`, with space before each.
pub open spec fn members(s: Seq<char>, pos: nat, so_far: Seq<TokenView>) -> (Seq<TokenView>, nat)
    decreases s.len() - pos,
{
    match member(s, space(s, pos)) {
        Some((found, end)) => if ahead(s, pos, end) {
            members(s, end, so_far.push(found))
        } else {
            (so_far, pos)
        },
        None => (so_far, pos),
    }
}

/// A class: the word, a name, members between braces.
pub open spec fn class(s: Seq<char>, pos: nat) -> Parsed {
    if at(s, pos, "class"@) {
        match identifier(s, space(s, pos + 5)) {
            Some((name, end)) => if has(s, space(s, end), '{') {
                let (found, after) = members(s, space(s, end) + 1, Seq::empty());
                if has(s, space(s, after), '}') {
                    Some((TokenView::Class(name, found), space(s, after) + 1))
                } else {
                    None
                }
            } else {
                None
            },
            None => None,
        }
    } else {
        None
    }
}

/// What can stand at the top of a script: an import, a class, or a comment.
pub open spec fn top(s: Seq<char>, pos: nat) -> Parsed {
    if import(s, pos) is Some {
        import(s, pos)
    } else if class(s, pos) is Some {
        class(s, pos)
    } else {
        comment(s, pos)
    }
}

/// Imports, classes and comments one after the other, added to `so_far`,
/// with space before each.
pub open spec fn tops(s: Seq<char>, pos: nat, so_far: Seq<TokenView>) -> (Seq<TokenView>, nat)
    decreases s.len() - pos,
{
    match top(s, space(s, pos)) {
        Some((found, end)) => if ahead(s, pos, end) {
            tops(s, end, so_far.push(found))
        } else {
            (so_far, pos)
        },
        None => (so_far, pos),
    }
}

/// What was expected where the reading of a script stopped.
#[derive(Clone, Copy, Debug, PartialEq, Eq, Structural)]
pub enum Expected {
    /// An import, a class or a comment.
    Item,
    /// A field, a constructor or a method of a class, or the brace that
    /// closes the class.
    Member,
    /// A statement, or the brace that closes the block.
    Statement,
}

/// Why a text is no script: the rule that read nothing, and the position at
/// which it read nothing.
#[derive(Clone, Copy, Debug, PartialEq, Eq, Structural)]
pub struct ParseError {
    pub expected: Expected,
    pub position: usize,
}

/// The position behind a brace that opens a block, with space before it.
pub open spec fn brace(s: Seq<char>, pos: nat) -> Option<nat> {
    if has(s, space(s, pos), '{') {
        Some(space(s, pos) + 1)
    } else {
        None
    }
}

/// The position behind the brace that opens a class, where the head of a
/// class stands at `pos`.
pub open spec fn class_head(s: Seq<char>, pos: nat) -> Option<nat> {
    if at(s, pos, "class"@) {
        match identifier(s, space(s, pos + 5)) {
            Some((_, end)) => brace(s, end),
            None => None,
        }
    } else {
        None
    }
}

/// The position behind the brace that opens a body, where names between
/// parentheses stand at `pos`.
pub open spec fn body_head(s: Seq<char>, pos: nat) -> Option<nat> {
    if has(s, pos, '(') {
        let (_, end) = parameters(s, pos + 1);
        if has(s, blank(s, end), ')') {
            brace(s, blank(s, end) + 1)
        } else {
            None
        }
    } else {
        None
    }
}

/// The position behind the brace that opens the body of a method or of a
/// constructor, where the head of one stands at `pos`.
pub open spec fn method_head(s: Seq<char>, pos: nat) -> Option<nat> {
    if at(s, pos, "function"@) {
        match identifier(s, blank(s, pos + 8)) {
            Some((_, end)) => body_head(s, blank(s, end)),
            None => None,
        }
    } else if at(s, pos, "constructor"@) {
        body_head(s, blank(s, pos + 11))
    } else {
        None
    }
}

/// The position behind the brace that opens the block under `else`.
pub open spec fn else_head(s: Seq<char>, pos: nat) -> Option<nat> {
    if at(s, pos, "else"@) {
        brace(s, blank(s, pos + 4))
    } else {
        None
    }
}

/// The position behind the brace that opens the first block of an `if` at
/// `pos`.
pub open spec fn if_head(s: Seq<char>, pos: nat) -> Option<nat> {
    match prefixed(s, pos, "if"@) {
        Some((_, end)) => brace(s, end),
        None => None,
    }
}

/// The position behind the brace that opens the block of a `while` at
/// `pos`.
pub open spec fn while_head(s: Seq<char>, pos: nat) -> Option<nat> {
    if at(s, pos, "while"@) {
        match evaluation(s, blank(s, pos + 5)) {
            Some((_, end)) => brace(s, end),
            None => None,
        }
    } else {
        None
    }
}

/// The position behind the brace that opens the block of a `for` over an
/// array at `pos`.
pub open spec fn for_each_head(s: Seq<char>, pos: nat) -> Option<nat> {
    match for_head(s, pos) {
        Some(start) => match identifier(s, start) {
            Some((_, end)) => if at(s, blank(s, end), "in"@) {
                match source(s, blank(s, blank(s, end) + 2)) {
                    Some((_, after)) => if has(s, blank(s, after), ')') {
                        brace(s, blank(s, after) + 1)
                    } else {
                        None
                    },
                    None => None,
                }
            } else {
                None
            },
            None => None,
        },
        None => None,
    }
}

/// The position behind the brace that opens the block of a `for` with a
/// counter at `pos`.
pub open spec fn for_counted_head(s: Seq<char>, pos: nat) -> Option<nat> {
    match for_condition(s, pos) {
        Some((_, _, third)) => match assignment(s, third) {
            Some((_, last)) => match for_close(s, last) {
                Some(open) => brace(s, open),
                None => None,
            },
            None => None,
        },
        None => None,
    }
}

/// The position behind the brace of the block in which the reading of the
/// statement at `pos` stopped, where the head of a statement with a block
/// stands there. An `else` stands there where the `if` before it was read
/// and the block under the `else` was not.
pub open spec fn control_head(s: Seq<char>, pos: nat) -> Option<nat> {
    if if_head(s, pos) is Some {
        if_head(s, pos)
    } else if else_head(s, pos) is Some {
        else_head(s, pos)
    } else if while_head(s, pos) is Some {
        while_head(s, pos)
    } else if for_each_head(s, pos) is Some {
        for_each_head(s, pos)
    } else {
        for_counted_head(s, pos)
    }
}

/// Where the reading of a block stopped, and what was expected there. `pos`
/// is the position behind the brace that opens the block. Where the
/// statement that was not read opens a block of its own, the reading stopped
/// in that block.
pub open spec fn stuck_in_block(s: Seq<char>, pos: nat) -> (Expected, nat)
    decreases s.len() - pos,
{
    let (_, end) = statements(s, pos, Seq::empty());
    let here = space(s, end);
    match control_head(s, here) {
        Some(inner) => if ahead(s, pos, inner) {
            stuck_in_block(s, inner)
        } else {
            (Expected::Statement, here)
        },
        None => (Expected::Statement, here),
    }
}

/// Where the reading of a class stopped, and what was expected there. `pos`
/// is the position behind the brace that opens the class.
pub open spec fn stuck_in_class(s: Seq<char>, pos: nat) -> (Expected, nat) {
    let (_, end) = members(s, pos, Seq::empty());
    let here = space(s, end);
    match method_head(s, here) {
        Some(inner) => stuck_in_block(s, inner),
        None => (Expected::Member, here),
    }
}

/// Where the reading of a script stopped, and what was expected there: the
/// innermost class, method and block that were opened are followed to the
/// first place at which nothing could be read.
pub open spec fn stuck(s: Seq<char>) -> (Expected, nat) {
    let (_, end) = tops(s, 0, Seq::empty());
    let here = space(s, end);
    match class_head(s, here) {
        Some(inner) => stuck_in_class(s, inner),
        None => (Expected::Item, here),
    }
}

/// A script: imports, classes and comments up to the end of the text. Where
/// something else stands, the error says where the reading stopped and what
/// was expected there.
pub open spec fn script(s: Seq<char>) -> Result<Seq<TokenView>, (Expected, nat)> {
    let (found, end) = tops(s, 0, Seq::empty());
    if space(s, end) >= s.len() {
        Ok(found)
    } else {
        Err(stuck(s))
    }
}

} // verus!
