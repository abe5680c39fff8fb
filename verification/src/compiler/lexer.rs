//! The readers of the smallest parts of the grammar.

use vstd::prelude::*;
use vstd::string::StrSliceExecFns;
use crate::compiler::grammar::{
    Infix,
    Parsed,
    ParsedList,
    Run,
    after_sign,
    ahead,
    as_identifier,
    at,
    belongs,
    blank,
    comment,
    float,
    has,
    identifier,
    import,
    infix,
    infix_node,
    integer,
    keyword,
    magnitude,
    more_parameters,
    parameters,
    run_end,
    space,
    string,
};
use crate::compiler::token::{Token, TokenView, lemma_views_empty, lemma_views_push, token_views};
use crate::text::string_of;

verus! {

/// Whether a reader gave what a rule of the grammar reads.
pub open spec fn reads(out: Option<(Token, usize)>, rule: Parsed, input: Seq<char>) -> bool {
    match rule {
        Some((expected, end)) => out matches Some((token, after)) && token@ == expected && after
            == end && after <= input.len(),
        None => out is None,
    }
}

/// Whether a reader gave the tokens that a rule of the grammar reads.
pub open spec fn reads_list(out: Option<(Vec<Token>, usize)>, rule: ParsedList, input: Seq<char>) -> bool {
    match rule {
        Some((expected, end)) => out matches Some((tokens, after)) && token_views(tokens@)
            == expected && after == end && after <= input.len(),
        None => out is None,
    }
}

/// Whether a reader gave the tokens that a repetition of the grammar reads.
pub open spec fn reads_all(out: (Vec<Token>, usize), rule: (Seq<TokenView>, nat), input: Seq<char>) -> bool {
    let (tokens, after) = out;
    let (expected, end) = rule;
    token_views(tokens@) == expected && after == end && after <= input.len()
}

/// Whether a reader gave the text that a rule of the grammar reads.
pub open spec fn reads_text(
    out: Option<(String, usize)>,
    rule: Option<(Seq<char>, nat)>,
    input: Seq<char>,
) -> bool {
    match rule {
        Some((expected, end)) => out matches Some((text, after)) && text@ == expected && after
            == end && after <= input.len(),
        None => out is None,
    }
}

/// Whether a character belongs to a kind of run.
pub(crate) fn in_run(run: Run, c: char) -> (out: bool)
    ensures
        out == belongs(run, c),
{
    match run {
        Run::Blank => c == ' ' || c == '\t',
        Run::Space => c == ' ' || c == '\t' || c == '\n' || c == '\r',
        Run::Word => ('a' <= c && c <= 'z') || ('A' <= c && c <= 'Z') || c == '_' || ('0' <= c
            && c <= '9'),
        Run::Digits => '0' <= c && c <= '9',
        Run::Quoted => c != '"',
        Run::Line => !(c == '\n' || c == '\r'),
        Run::Semicolons => c == ';',
    }
}

/// The end of the longest run of a kind that starts at `pos`.
pub(crate) fn skip(input: &Vec<char>, pos: usize, run: Run) -> (out: usize)
    ensures
        out == run_end(input@, pos as nat, run),
        pos <= out,
        pos <= input.len() ==> out <= input.len(),
{
    let mut i: usize = pos;
    while i < input.len() && in_run(run, input[i])
        invariant
            pos <= i,
            pos <= input.len() ==> i <= input.len(),
            run_end(input@, pos as nat, run) == run_end(input@, i as nat, run),
        decreases input.len() - i,
    {
        i += 1;
    }
    i
}

/// The position after spaces and tabs.
pub(crate) fn skip_blank(input: &Vec<char>, pos: usize) -> (out: usize)
    ensures
        out == blank(input@, pos as nat),
        pos <= out,
        pos <= input.len() ==> out <= input.len(),
{
    skip(input, pos, Run::Blank)
}

/// The position after spaces, tabs and line ends.
pub(crate) fn skip_space(input: &Vec<char>, pos: usize) -> (out: usize)
    ensures
        out == space(input@, pos as nat),
        pos <= out,
        pos <= input.len() ==> out <= input.len(),
{
    skip(input, pos, Run::Space)
}

/// Whether the character `c` stands at `pos`.
pub(crate) fn looking_at(input: &Vec<char>, pos: usize, c: char) -> (out: bool)
    ensures
        out == has(input@, pos as nat, c),
        out ==> pos < input.len(),
{
    pos < input.len() && input[pos] == c
}

/// Whether `text` stands at `pos`.
pub(crate) fn starts(input: &Vec<char>, pos: usize, text: &str) -> (out: bool)
    ensures
        out == at(input@, pos as nat, text@),
        out ==> pos + text@.len() <= input.len(),
{
    let length = text.unicode_len();
    if pos > input.len() || length > input.len() - pos {
        return false;
    }
    let mut i: usize = 0;
    while i < length
        invariant
            i <= length,
            length == text@.len(),
            pos + length <= input.len(),
            input@.subrange(pos as int, pos + i) == text@.take(i as int),
        decreases length - i,
    {
        if input[pos + i] != text.get_char(i) {
            assert(input@.subrange(pos as int, pos + length)[i as int] != text@[i as int]);
            return false;
        }
        assert(input@.subrange(pos as int, pos + i + 1) =~= input@.subrange(
            pos as int,
            pos + i,
        ).push(input@[pos + i]));
        assert(text@.take(i + 1) =~= text@.take(i as int).push(text@[i as int]));
        i += 1;
    }
    assert(text@.take(length as int) =~= text@);
    true
}

/// Whether the word `text` stands at `pos` and ends there.
pub(crate) fn starts_word(input: &Vec<char>, pos: usize, text: &str) -> (out: bool)
    ensures
        out == keyword(input@, pos as nat, text@),
{
    if !starts(input, pos, text) {
        return false;
    }
    let end = pos + text.unicode_len();
    assert(end == pos + text@.len());
    !(end < input.len() && in_run(Run::Word, input[end]))
}

/// Whether `q` is a position of the text after `pos`.
pub(crate) fn is_ahead(input: &Vec<char>, pos: usize, q: usize) -> (out: bool)
    ensures
        out == ahead(input@, pos as nat, q as nat),
{
    pos < q && q <= input.len()
}

/// Reads a name.
pub(crate) fn read_identifier(input: &Vec<char>, pos: usize) -> (out: Option<(String, usize)>)
    ensures
        reads_text(out, identifier(input@, pos as nat), input@),
        out matches Some((_, after)) ==> pos < after,
{
    if pos < input.len() && in_run(Run::Word, input[pos]) && !in_run(Run::Digits, input[pos]) {
        let end = skip(input, pos + 1, Run::Word);
        Some((string_of(input, pos, end), end))
    } else {
        None
    }
}

/// Reads a name as a token.
pub(crate) fn read_name(input: &Vec<char>, pos: usize) -> (out: Option<(Token, usize)>)
    ensures
        reads(out, as_identifier(identifier(input@, pos as nat)), input@),
        out matches Some((_, after)) ==> pos < after,
{
    match read_identifier(input, pos) {
        Some((name, end)) => Some((Token::make_identifier(name), end)),
        None => None,
    }
}

/// Reads a text between double quotes.
pub(crate) fn read_string(input: &Vec<char>, pos: usize) -> (out: Option<(String, usize)>)
    ensures
        reads_text(out, string(input@, pos as nat), input@),
        out matches Some((_, after)) ==> pos < after,
{
    if looking_at(input, pos, '"') {
        let end = skip(input, pos + 1, Run::Quoted);
        if end < input.len() {
            Some((string_of(input, pos + 1, end), end + 1))
        } else {
            None
        }
    } else {
        None
    }
}

/// The position after a minus sign, if one stands at `pos`.
fn skip_sign(input: &Vec<char>, pos: usize) -> (out: usize)
    ensures
        out == after_sign(input@, pos as nat),
        pos <= out,
        pos <= input.len() ==> out <= input.len(),
{
    if looking_at(input, pos, '-') {
        pos + 1
    } else {
        pos
    }
}

/// Reads a float literal as text.
pub(crate) fn read_float(input: &Vec<char>, pos: usize) -> (out: Option<(String, usize)>)
    requires
        pos <= input.len(),
    ensures
        reads_text(out, float(input@, pos as nat), input@),
        out matches Some((_, after)) ==> pos < after,
{
    let start = skip_sign(input, pos);
    let point = skip(input, start, Run::Digits);
    if point > start && looking_at(input, point, '.') {
        let end = skip(input, point + 1, Run::Digits);
        if end > point + 1 {
            return Some((string_of(input, pos, end), end));
        }
    }
    None
}

/// The number that the digits from `from` up to `to` write.
pub(crate) fn read_magnitude(input: &Vec<char>, from: usize, to: usize) -> (out: Option<i64>)
    requires
        from <= to <= input.len(),
        forall|i: int| from <= i < to ==> belongs(Run::Digits, #[trigger] input@[i]),
    ensures
        match magnitude(input@, from as nat, to as nat, 0) {
            Some(m) => out == Some(m as i64) && 0 <= m <= 0x8000_0000,
            None => out is None,
        },
{
    let mut value: i64 = 0;
    let mut i: usize = from;
    while i < to
        invariant
            from <= i <= to <= input.len(),
            0 <= value <= 0x8000_0000,
            forall|k: int| from <= k < to ==> belongs(Run::Digits, #[trigger] input@[k]),
            magnitude(input@, from as nat, to as nat, 0) == magnitude(
                input@,
                i as nat,
                to as nat,
                value as int,
            ),
        decreases to - i,
    {
        let c = input[i];
        assert(belongs(Run::Digits, input@[i as int]));
        let digit: i64 = (c as u32 - '0' as u32) as i64;
        let next: i64 = value * 10 + digit;
        if next > 0x8000_0000 {
            return None;
        }
        value = next;
        i += 1;
    }
    Some(value)
}

/// What `skip` passed over belongs to the run.
pub proof fn lemma_run(s: Seq<char>, pos: nat, run: Run)
    ensures
        forall|i: int| pos <= i < run_end(s, pos, run) ==> belongs(run, #[trigger] s[i]),
    decreases s.len() - pos,
{
    if pos < s.len() && belongs(run, s[pos as int]) {
        lemma_run(s, pos + 1, run);
    }
}

/// Reads an integer literal.
pub(crate) fn read_integer(input: &Vec<char>, pos: usize) -> (out: Option<(i32, usize)>)
    requires
        pos <= input.len(),
    ensures
        match integer(input@, pos as nat) {
            Some((value, end)) => out == Some((value, end as usize)) && end <= input.len(),
            None => out is None,
        },
        out matches Some((_, after)) ==> pos < after,
{
    let start = skip_sign(input, pos);
    let end = skip(input, start, Run::Digits);
    if end > start {
        proof {
            lemma_run(input@, start as nat, Run::Digits);
        }
        match read_magnitude(input, start, end) {
            Some(m) => {
                let value: i64 = if start > pos {
                    -m
                } else {
                    m
                };
                if value < -2147483648 || value > 2147483647 {
                    None
                } else {
                    Some((value as i32, end))
                }
            },
            None => None,
        }
    } else {
        None
    }
}

/// Reads a comment.
pub(crate) fn read_comment(input: &Vec<char>, pos: usize) -> (out: Option<(Token, usize)>)
    ensures
        reads(out, comment(input@, pos as nat), input@),
        out matches Some((_, after)) ==> pos < after,
{
    proof {
        reveal_strlit("//");
    }
    if starts(input, pos, "//") {
        let end = skip(input, pos + 2, Run::Line);
        if end < input.len() {
            Some((Token::make_comment(string_of(input, pos + 2, end)), end + 1))
        } else {
            None
        }
    } else {
        None
    }
}

/// Reads an import.
pub(crate) fn read_import(input: &Vec<char>, pos: usize) -> (out: Option<(Token, usize)>)
    ensures
        reads(out, import(input@, pos as nat), input@),
        out matches Some((_, after)) ==> pos < after,
{
    proof {
        reveal_strlit("import");
    }
    if starts(input, pos, "import") {
        match read_string(input, skip_blank(input, pos + 6)) {
            Some((path, end)) => {
                let semi = skip_blank(input, end);
                if looking_at(input, semi, ';') {
                    Some((Token::make_import(path), skip(input, semi, Run::Semicolons)))
                } else {
                    None
                }
            },
            None => None,
        }
    } else {
        None
    }
}

/// Reads the operator of a level of precedence.
pub(crate) fn read_infix(input: &Vec<char>, pos: usize, level: usize) -> (out: Option<(Infix, usize)>)
    ensures
        match infix(input@, pos as nat, level as nat) {
            Some((operator, end)) => out == Some((operator, end as usize)) && end
                <= input.len(),
            None => out is None,
        },
        out matches Some((_, after)) ==> pos < after,
{
    proof {
        reveal_strlit("==");
        reveal_strlit("!=");
        reveal_strlit("<=");
        reveal_strlit(">=");
    }
    if level == 1 {
        if starts(input, pos, "==") {
            Some((Infix::Eq, pos + 2))
        } else if starts(input, pos, "!=") {
            Some((Infix::Ne, pos + 2))
        } else if starts(input, pos, "<=") {
            Some((Infix::Le, pos + 2))
        } else if starts(input, pos, ">=") {
            Some((Infix::Ge, pos + 2))
        } else if looking_at(input, pos, '<') {
            Some((Infix::Lt, pos + 1))
        } else if looking_at(input, pos, '>') {
            Some((Infix::Gt, pos + 1))
        } else {
            None
        }
    } else if level == 2 {
        if looking_at(input, pos, '+') {
            Some((Infix::Add, pos + 1))
        } else if looking_at(input, pos, '-') {
            Some((Infix::Sub, pos + 1))
        } else {
            None
        }
    } else {
        if looking_at(input, pos, '*') {
            Some((Infix::Mul, pos + 1))
        } else if looking_at(input, pos, '/') {
            Some((Infix::Div, pos + 1))
        } else if looking_at(input, pos, '^') {
            Some((Infix::Pow, pos + 1))
        } else {
            None
        }
    }
}

/// Makes the node of a binary operator.
pub(crate) fn infix_token(operator: Infix, left: Token, right: Token) -> (out: Token)
    ensures
        out@ == infix_node(operator, left@, right@),
{
    match operator {
        Infix::Eq => Token::make_eq_of(left, right),
        Infix::Ne => Token::make_ne_of(left, right),
        Infix::Lt => Token::make_lt_of(left, right),
        Infix::Le => Token::make_le_of(left, right),
        Infix::Gt => Token::make_gt_of(left, right),
        Infix::Ge => Token::make_ge_of(left, right),
        Infix::Add => Token::make_add_of(left, right),
        Infix::Sub => Token::make_sub_of(left, right),
        Infix::Mul => Token::make_mul_of(left, right),
        Infix::Div => Token::make_div_of(left, right),
        Infix::Pow => Token::make_pow_of(left, right),
    }
}

/// Reads names between commas.
pub(crate) fn read_parameters(input: &Vec<char>, pos: usize) -> (out: (Vec<Token>, usize))
    requires
        pos <= input.len(),
    ensures
        reads_all(out, parameters(input@, pos as nat), input@),
{
    let mut names: Vec<Token> = Vec::new();
    let mut here: usize = match read_identifier(input, skip_blank(input, pos)) {
        Some((name, end)) => {
            let token = Token::make_identifier(name);
            proof {
                lemma_views_empty();
                lemma_views_push(names@, token);
            }
            names.push(token);
            skip_blank(input, end)
        },
        None => {
            proof {
                lemma_views_empty();
            }
            return (names, pos);
        },
    };
    loop
        invariant
            here <= input.len(),
            parameters(input@, pos as nat) == more_parameters(
                input@,
                here as nat,
                token_views(names@),
            ),
        ensures
            reads_all((names, here), parameters(input@, pos as nat), input@),
        decreases input.len() - here,
    {
        if !looking_at(input, here, ',') {
            break ;
        }
        match read_identifier(input, skip_blank(input, here + 1)) {
            Some((name, end)) => {
                let next = skip_blank(input, end);
                if !is_ahead(input, here, next) {
                    break ;
                }
                let token = Token::make_identifier(name);
                proof {
                    lemma_views_push(names@, token);
                }
                names.push(token);
                here = next;
            },
            None => {
                break ;
            },
        }
    }
    (names, here)
}

} // verus!
