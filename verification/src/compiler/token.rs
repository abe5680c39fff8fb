//! The syntax tree.

use vstd::prelude::*;

verus! {

/// A node of the syntax tree.
///
/// A float literal is kept as it was written, in decimal.
#[derive(Debug, PartialEq)]
pub enum Token {
    Comment(String),
    Assert(Box<Token>),
    Import(String),
    Print(Box<Token>),
    /// A method: its name, its parameters and its statements.
    Function(String, Vec<Token>, Vec<Token>),
    /// A function without a name: its parameters and its statements.
    AnonFunction(Vec<Token>, Vec<Token>),
    /// A class: its name and its members.
    Class(String, Vec<Token>),
    /// A constructor: its parameters and its statements.
    Constructor(Vec<Token>, Vec<Token>),
    /// A chain `a.b.c`: its root and what follows the dots.
    Chain(Box<Token>, Vec<Token>),
    Identifier(String),
    /// A declaration `var name = value`.
    Variable(Box<Token>, Box<Token>),
    /// An assignment `target = value`.
    Assign(Box<Token>, Box<Token>),
    Null,
    Integer(i32),
    Float(String),
    Bool(bool),
    String(String),
    Array(Vec<Token>),
    /// `new Class(arguments)`.
    Object(Box<Token>, Vec<Token>),
    Dictionary(Vec<Token>),
    KeyValuePair(String, Box<Token>),
    /// `name[index]`.
    ArrayIndex(Box<Token>, Box<Token>),
    Eq(Box<Token>, Box<Token>),
    Ne(Box<Token>, Box<Token>),
    Lt(Box<Token>, Box<Token>),
    Le(Box<Token>, Box<Token>),
    Gt(Box<Token>, Box<Token>),
    Ge(Box<Token>, Box<Token>),
    Add(Box<Token>, Box<Token>),
    Sub(Box<Token>, Box<Token>),
    Mul(Box<Token>, Box<Token>),
    Div(Box<Token>, Box<Token>),
    Pow(Box<Token>, Box<Token>),
    /// A condition, the statements under it, and those under `else`.
    IfElse(Box<Token>, Vec<Token>, Option<Vec<Token>>),
    WhileLoop(Box<Token>, Vec<Token>),
    /// `for (item in array) { .. }`.
    ForEach(Box<Token>, Box<Token>, Vec<Token>),
    /// `for (start; condition; step) { .. }`.
    ForI(Box<Token>, Box<Token>, Box<Token>, Vec<Token>),
    /// A call: the callee and the arguments.
    Call(Box<Token>, Vec<Token>),
    Return(Box<Token>),
}

/// The model of a [`Token`].
pub enum TokenView {
    Comment(Seq<char>),
    Assert(Box<TokenView>),
    Import(Seq<char>),
    Print(Box<TokenView>),
    Function(Seq<char>, Seq<TokenView>, Seq<TokenView>),
    AnonFunction(Seq<TokenView>, Seq<TokenView>),
    Class(Seq<char>, Seq<TokenView>),
    Constructor(Seq<TokenView>, Seq<TokenView>),
    Chain(Box<TokenView>, Seq<TokenView>),
    Identifier(Seq<char>),
    Variable(Box<TokenView>, Box<TokenView>),
    Assign(Box<TokenView>, Box<TokenView>),
    Null,
    Integer(i32),
    Float(Seq<char>),
    Bool(bool),
    String(Seq<char>),
    Array(Seq<TokenView>),
    Object(Box<TokenView>, Seq<TokenView>),
    Dictionary(Seq<TokenView>),
    KeyValuePair(Seq<char>, Box<TokenView>),
    ArrayIndex(Box<TokenView>, Box<TokenView>),
    Eq(Box<TokenView>, Box<TokenView>),
    Ne(Box<TokenView>, Box<TokenView>),
    Lt(Box<TokenView>, Box<TokenView>),
    Le(Box<TokenView>, Box<TokenView>),
    Gt(Box<TokenView>, Box<TokenView>),
    Ge(Box<TokenView>, Box<TokenView>),
    Add(Box<TokenView>, Box<TokenView>),
    Sub(Box<TokenView>, Box<TokenView>),
    Mul(Box<TokenView>, Box<TokenView>),
    Div(Box<TokenView>, Box<TokenView>),
    Pow(Box<TokenView>, Box<TokenView>),
    IfElse(Box<TokenView>, Seq<TokenView>, Option<Seq<TokenView>>),
    WhileLoop(Box<TokenView>, Seq<TokenView>),
    ForEach(Box<TokenView>, Box<TokenView>, Seq<TokenView>),
    ForI(Box<TokenView>, Box<TokenView>, Box<TokenView>, Seq<TokenView>),
    Call(Box<TokenView>, Seq<TokenView>),
    Return(Box<TokenView>),
}

/// The models of a sequence of tokens, one by one.
pub open spec fn token_views(tokens: Seq<Token>) -> Seq<TokenView>
    decreases tokens, 0int,
{
    Seq::new(
        tokens.len(),
        |i: int|
            if 0 <= i < tokens.len() {
                token_view(tokens[i])
            } else {
                TokenView::Null
            },
    )
}

/// The model of a token.
#[verifier::opaque]
pub open spec fn token_view(token: Token) -> TokenView
    decreases token, 1int,
{
    match token {
        Token::Comment(s) => TokenView::Comment(s@),
        Token::Import(s) => TokenView::Import(s@),
        Token::Identifier(s) => TokenView::Identifier(s@),
        Token::Float(s) => TokenView::Float(s@),
        Token::String(s) => TokenView::String(s@),
        Token::Null => TokenView::Null,
        Token::Integer(i) => TokenView::Integer(i),
        Token::Bool(b) => TokenView::Bool(b),
        Token::Assert(a) => TokenView::Assert(Box::new(token_view(*a))),
        Token::Print(a) => TokenView::Print(Box::new(token_view(*a))),
        Token::Return(a) => TokenView::Return(Box::new(token_view(*a))),
        Token::Variable(a, b) => TokenView::Variable(Box::new(token_view(*a)), Box::new(token_view(*b))),
        Token::Assign(a, b) => TokenView::Assign(Box::new(token_view(*a)), Box::new(token_view(*b))),
        Token::ArrayIndex(a, b) => TokenView::ArrayIndex(Box::new(token_view(*a)), Box::new(token_view(*b))),
        Token::Eq(a, b) => TokenView::Eq(Box::new(token_view(*a)), Box::new(token_view(*b))),
        Token::Ne(a, b) => TokenView::Ne(Box::new(token_view(*a)), Box::new(token_view(*b))),
        Token::Lt(a, b) => TokenView::Lt(Box::new(token_view(*a)), Box::new(token_view(*b))),
        Token::Le(a, b) => TokenView::Le(Box::new(token_view(*a)), Box::new(token_view(*b))),
        Token::Gt(a, b) => TokenView::Gt(Box::new(token_view(*a)), Box::new(token_view(*b))),
        Token::Ge(a, b) => TokenView::Ge(Box::new(token_view(*a)), Box::new(token_view(*b))),
        Token::Add(a, b) => TokenView::Add(Box::new(token_view(*a)), Box::new(token_view(*b))),
        Token::Sub(a, b) => TokenView::Sub(Box::new(token_view(*a)), Box::new(token_view(*b))),
        Token::Mul(a, b) => TokenView::Mul(Box::new(token_view(*a)), Box::new(token_view(*b))),
        Token::Div(a, b) => TokenView::Div(Box::new(token_view(*a)), Box::new(token_view(*b))),
        Token::Pow(a, b) => TokenView::Pow(Box::new(token_view(*a)), Box::new(token_view(*b))),
        Token::Function(name, parameters, statements) => TokenView::Function(
            name@,
            token_views(parameters@),
            token_views(statements@),
        ),
        Token::AnonFunction(parameters, statements) => TokenView::AnonFunction(
            token_views(parameters@),
            token_views(statements@),
        ),
        Token::Class(name, members) => TokenView::Class(name@, token_views(members@)),
        Token::Constructor(parameters, statements) => TokenView::Constructor(
            token_views(parameters@),
            token_views(statements@),
        ),
        Token::Chain(root, rest) => TokenView::Chain(
            Box::new(token_view(*root)),
            token_views(rest@),
        ),
        Token::Array(items) => TokenView::Array(token_views(items@)),
        Token::Object(class, arguments) => TokenView::Object(
            Box::new(token_view(*class)),
            token_views(arguments@),
        ),
        Token::Dictionary(pairs) => TokenView::Dictionary(token_views(pairs@)),
        Token::KeyValuePair(key, value) => TokenView::KeyValuePair(
            key@,
            Box::new(token_view(*value)),
        ),
        Token::IfElse(condition, then_body, else_body) => TokenView::IfElse(
            Box::new(token_view(*condition)),
            token_views(then_body@),
            match else_body {
                Some(body) => Some(token_views(body@)),
                None => None,
            },
        ),
        Token::WhileLoop(condition, body) => TokenView::WhileLoop(
            Box::new(token_view(*condition)),
            token_views(body@),
        ),
        Token::ForEach(item, array, body) => TokenView::ForEach(
            Box::new(token_view(*item)),
            Box::new(token_view(*array)),
            token_views(body@),
        ),
        Token::ForI(start, condition, step, body) => TokenView::ForI(
            Box::new(token_view(*start)),
            Box::new(token_view(*condition)),
            Box::new(token_view(*step)),
            token_views(body@),
        ),
        Token::Call(callee, arguments) => TokenView::Call(
            Box::new(token_view(*callee)),
            token_views(arguments@),
        ),
    }
}

impl View for Token {
    type V = TokenView;

    open spec fn view(&self) -> TokenView {
        token_view(*self)
    }
}

/// The name that a token carries: that of a method or an identifier, or the
/// text of a string literal; the empty text for every other token.
pub open spec fn name_of(token: TokenView) -> Seq<char> {
    match token {
        TokenView::Function(name, _, _) => name,
        TokenView::Identifier(name) => name,
        TokenView::String(text) => text,
        _ => Seq::empty(),
    }
}

/// A token is an identifier where its model is one.
pub proof fn lemma_identifier(token: Token)
    ensures
        token@ is Identifier <==> token is Identifier,
{
    reveal(token_view);
}

/// The models of no tokens are no models.
pub proof fn lemma_views_empty()
    ensures
        token_views(Seq::<Token>::empty()) == Seq::<TokenView>::empty(),
{
    assert(token_views(Seq::<Token>::empty()) =~= Seq::<TokenView>::empty());
}

/// The models of tokens with one more are the models with one more.
pub proof fn lemma_views_push(tokens: Seq<Token>, token: Token)
    ensures
        token_views(tokens.push(token)) == token_views(tokens).push(token@),
{
    reveal(token_view);
    assert(token_views(tokens.push(token)) =~= token_views(tokens).push(token@));
}

/// The model at a position is the model of the token at that position.
pub proof fn lemma_views_index(tokens: Seq<Token>, i: int)
    requires
        0 <= i < tokens.len(),
    ensures
        token_views(tokens)[i] == tokens[i]@,
{
    reveal(token_view);
}

/// Tokens with the same models, one by one, have the same models.
pub proof fn lemma_views_equal(first: Seq<Token>, second: Seq<Token>)
    requires
        first.len() == second.len(),
        forall|i: int| 0 <= i < first.len() ==> first[i]@ == second[i]@,
    ensures
        token_views(first) == token_views(second),
{
    reveal(token_view);
    assert(token_views(first) =~= token_views(second));
}

/// Copies a sequence of tokens.
pub fn clone_tokens(tokens: &Vec<Token>) -> (out: Vec<Token>)
    ensures
        token_views(out@) == token_views(tokens@),
    decreases tokens, 0int,
{
    let mut out: Vec<Token> = Vec::new();
    let mut i: usize = 0;
    while i < tokens.len()
        invariant
            i <= tokens.len(),
            out.len() == i,
            forall|j: int| 0 <= j < i ==> out[j]@ == tokens[j]@,
        decreases tokens.len() - i,
    {
        out.push(tokens[i].clone());
        i += 1;
    }
    proof {
        lemma_views_equal(out@, tokens@);
    }
    out
}

impl Clone for Token {
    fn clone(&self) -> (out: Self)
        ensures
            out@ == self@,
        decreases self, 1int,
    {
        proof {
            reveal(token_view);
        }
        match self {
            Token::Comment(s) => Token::Comment(s.clone()),
            Token::Import(s) => Token::Import(s.clone()),
            Token::Identifier(s) => Token::Identifier(s.clone()),
            Token::Float(s) => Token::Float(s.clone()),
            Token::String(s) => Token::String(s.clone()),
            Token::Null => Token::Null,
            Token::Integer(i) => Token::Integer(*i),
            Token::Bool(b) => Token::Bool(*b),
            Token::Assert(a) => Token::Assert(Box::new((**a).clone())),
            Token::Print(a) => Token::Print(Box::new((**a).clone())),
            Token::Return(a) => Token::Return(Box::new((**a).clone())),
            Token::Variable(a, b) => Token::Variable(Box::new((**a).clone()), Box::new((**b).clone())),
            Token::Assign(a, b) => Token::Assign(Box::new((**a).clone()), Box::new((**b).clone())),
            Token::ArrayIndex(a, b) => Token::ArrayIndex(Box::new((**a).clone()), Box::new((**b).clone())),
            Token::Eq(a, b) => Token::Eq(Box::new((**a).clone()), Box::new((**b).clone())),
            Token::Ne(a, b) => Token::Ne(Box::new((**a).clone()), Box::new((**b).clone())),
            Token::Lt(a, b) => Token::Lt(Box::new((**a).clone()), Box::new((**b).clone())),
            Token::Le(a, b) => Token::Le(Box::new((**a).clone()), Box::new((**b).clone())),
            Token::Gt(a, b) => Token::Gt(Box::new((**a).clone()), Box::new((**b).clone())),
            Token::Ge(a, b) => Token::Ge(Box::new((**a).clone()), Box::new((**b).clone())),
            Token::Add(a, b) => Token::Add(Box::new((**a).clone()), Box::new((**b).clone())),
            Token::Sub(a, b) => Token::Sub(Box::new((**a).clone()), Box::new((**b).clone())),
            Token::Mul(a, b) => Token::Mul(Box::new((**a).clone()), Box::new((**b).clone())),
            Token::Div(a, b) => Token::Div(Box::new((**a).clone()), Box::new((**b).clone())),
            Token::Pow(a, b) => Token::Pow(Box::new((**a).clone()), Box::new((**b).clone())),
            Token::Function(name, parameters, statements) => Token::Function(
                name.clone(),
                clone_tokens(parameters),
                clone_tokens(statements),
            ),
            Token::AnonFunction(parameters, statements) => Token::AnonFunction(
                clone_tokens(parameters),
                clone_tokens(statements),
            ),
            Token::Class(name, members) => Token::Class(name.clone(), clone_tokens(members)),
            Token::Constructor(parameters, statements) => Token::Constructor(
                clone_tokens(parameters),
                clone_tokens(statements),
            ),
            Token::Chain(root, rest) => Token::Chain(
                Box::new((**root).clone()),
                clone_tokens(rest),
            ),
            Token::Array(items) => Token::Array(clone_tokens(items)),
            Token::Object(class, arguments) => Token::Object(
                Box::new((**class).clone()),
                clone_tokens(arguments),
            ),
            Token::Dictionary(pairs) => Token::Dictionary(clone_tokens(pairs)),
            Token::KeyValuePair(key, value) => Token::KeyValuePair(
                key.clone(),
                Box::new((**value).clone()),
            ),
            Token::IfElse(condition, then_body, else_body) => Token::IfElse(
                Box::new((**condition).clone()),
                clone_tokens(then_body),
                match else_body {
                    Some(body) => Some(clone_tokens(body)),
                    None => None,
                },
            ),
            Token::WhileLoop(condition, body) => Token::WhileLoop(
                Box::new((**condition).clone()),
                clone_tokens(body),
            ),
            Token::ForEach(item, array, body) => Token::ForEach(
                Box::new((**item).clone()),
                Box::new((**array).clone()),
                clone_tokens(body),
            ),
            Token::ForI(start, condition, step, body) => Token::ForI(
                Box::new((**start).clone()),
                Box::new((**condition).clone()),
                Box::new((**step).clone()),
                clone_tokens(body),
            ),
            Token::Call(callee, arguments) => Token::Call(
                Box::new((**callee).clone()),
                clone_tokens(arguments),
            ),
        }
    }
}

impl Token {
    /// The name that the token carries.
    pub fn to_string(&self) -> (out: String)
        ensures
            out@ == name_of(self@),
    {
        proof {
            reveal(token_view);
        }
        match self {
            Token::Function(name, _, _) => name.clone(),
            Token::Identifier(name) => name.clone(),
            Token::String(text) => text.clone(),
            _ => String::new(),
        }
    }
}

impl Token {
    /// The node `Comment` of the given parts.
    pub fn make_comment(text: String) -> (out: Token)
        ensures
            out@ == TokenView::Comment(text@),
    {
        proof {
            reveal(token_view);
        }
        Token::Comment(text)
    }

    /// The node `Assert` of the given parts.
    pub fn make_assert(value: Token) -> (out: Token)
        ensures
            out@ == TokenView::Assert(Box::new(value@)),
    {
        proof {
            reveal(token_view);
        }
        Token::Assert(Box::new(value))
    }

    /// The node `Import` of the given parts.
    pub fn make_import(path: String) -> (out: Token)
        ensures
            out@ == TokenView::Import(path@),
    {
        proof {
            reveal(token_view);
        }
        Token::Import(path)
    }

    /// The node `Print` of the given parts.
    pub fn make_print(value: Token) -> (out: Token)
        ensures
            out@ == TokenView::Print(Box::new(value@)),
    {
        proof {
            reveal(token_view);
        }
        Token::Print(Box::new(value))
    }

    /// The node `Function` of the given parts.
    pub fn make_function(name: String, parameters: Vec<Token>, statements: Vec<Token>) -> (out: Token)
        ensures
            out@ == TokenView::Function(name@, token_views(parameters@), token_views(statements@)),
    {
        proof {
            reveal(token_view);
        }
        Token::Function(name, parameters, statements)
    }

    /// The node `AnonFunction` of the given parts.
    pub fn make_anon_function(parameters: Vec<Token>, statements: Vec<Token>) -> (out: Token)
        ensures
            out@ == TokenView::AnonFunction(token_views(parameters@), token_views(statements@)),
    {
        proof {
            reveal(token_view);
        }
        Token::AnonFunction(parameters, statements)
    }

    /// The node `Class` of the given parts.
    pub fn make_class(name: String, members: Vec<Token>) -> (out: Token)
        ensures
            out@ == TokenView::Class(name@, token_views(members@)),
    {
        proof {
            reveal(token_view);
        }
        Token::Class(name, members)
    }

    /// The node `Constructor` of the given parts.
    pub fn make_constructor(parameters: Vec<Token>, statements: Vec<Token>) -> (out: Token)
        ensures
            out@ == TokenView::Constructor(token_views(parameters@), token_views(statements@)),
    {
        proof {
            reveal(token_view);
        }
        Token::Constructor(parameters, statements)
    }

    /// The node `Chain` of the given parts.
    pub fn make_chain(root: Token, rest: Vec<Token>) -> (out: Token)
        ensures
            out@ == TokenView::Chain(Box::new(root@), token_views(rest@)),
    {
        proof {
            reveal(token_view);
        }
        Token::Chain(Box::new(root), rest)
    }

    /// The node `Identifier` of the given parts.
    pub fn make_identifier(name: String) -> (out: Token)
        ensures
            out@ == TokenView::Identifier(name@),
    {
        proof {
            reveal(token_view);
        }
        Token::Identifier(name)
    }

    /// The node `Variable` of the given parts.
    pub fn make_variable(name: Token, value: Token) -> (out: Token)
        ensures
            out@ == TokenView::Variable(Box::new(name@), Box::new(value@)),
    {
        proof {
            reveal(token_view);
        }
        Token::Variable(Box::new(name), Box::new(value))
    }

    /// The node `Assign` of the given parts.
    pub fn make_assign(target: Token, value: Token) -> (out: Token)
        ensures
            out@ == TokenView::Assign(Box::new(target@), Box::new(value@)),
    {
        proof {
            reveal(token_view);
        }
        Token::Assign(Box::new(target), Box::new(value))
    }

    /// The node `Null` of the given parts.
    pub fn make_null() -> (out: Token)
        ensures
            out@ == TokenView::Null,
    {
        proof {
            reveal(token_view);
        }
        Token::Null
    }

    /// The node `Integer` of the given parts.
    pub fn make_integer(value: i32) -> (out: Token)
        ensures
            out@ == TokenView::Integer(value),
    {
        proof {
            reveal(token_view);
        }
        Token::Integer(value)
    }

    /// The node `Float` of the given parts.
    pub fn make_float(text: String) -> (out: Token)
        ensures
            out@ == TokenView::Float(text@),
    {
        proof {
            reveal(token_view);
        }
        Token::Float(text)
    }

    /// The node `Bool` of the given parts.
    pub fn make_bool(value: bool) -> (out: Token)
        ensures
            out@ == TokenView::Bool(value),
    {
        proof {
            reveal(token_view);
        }
        Token::Bool(value)
    }

    /// The node `String` of the given parts.
    pub fn make_string(text: String) -> (out: Token)
        ensures
            out@ == TokenView::String(text@),
    {
        proof {
            reveal(token_view);
        }
        Token::String(text)
    }

    /// The node `Array` of the given parts.
    pub fn make_array(items: Vec<Token>) -> (out: Token)
        ensures
            out@ == TokenView::Array(token_views(items@)),
    {
        proof {
            reveal(token_view);
        }
        Token::Array(items)
    }

    /// The node `Object` of the given parts.
    pub fn make_object(class: Token, arguments: Vec<Token>) -> (out: Token)
        ensures
            out@ == TokenView::Object(Box::new(class@), token_views(arguments@)),
    {
        proof {
            reveal(token_view);
        }
        Token::Object(Box::new(class), arguments)
    }

    /// The node `Dictionary` of the given parts.
    pub fn make_dictionary(pairs: Vec<Token>) -> (out: Token)
        ensures
            out@ == TokenView::Dictionary(token_views(pairs@)),
    {
        proof {
            reveal(token_view);
        }
        Token::Dictionary(pairs)
    }

    /// The node `KeyValuePair` of the given parts.
    pub fn make_key_value_pair(key: String, value: Token) -> (out: Token)
        ensures
            out@ == TokenView::KeyValuePair(key@, Box::new(value@)),
    {
        proof {
            reveal(token_view);
        }
        Token::KeyValuePair(key, Box::new(value))
    }

    /// The node `ArrayIndex` of the given parts.
    pub fn make_array_index(array: Token, index: Token) -> (out: Token)
        ensures
            out@ == TokenView::ArrayIndex(Box::new(array@), Box::new(index@)),
    {
        proof {
            reveal(token_view);
        }
        Token::ArrayIndex(Box::new(array), Box::new(index))
    }

    /// The node `WhileLoop` of the given parts.
    pub fn make_while_loop(condition: Token, body: Vec<Token>) -> (out: Token)
        ensures
            out@ == TokenView::WhileLoop(Box::new(condition@), token_views(body@)),
    {
        proof {
            reveal(token_view);
        }
        Token::WhileLoop(Box::new(condition), body)
    }

    /// The node `ForEach` of the given parts.
    pub fn make_for_each(item: Token, array: Token, body: Vec<Token>) -> (out: Token)
        ensures
            out@ == TokenView::ForEach(Box::new(item@), Box::new(array@), token_views(body@)),
    {
        proof {
            reveal(token_view);
        }
        Token::ForEach(Box::new(item), Box::new(array), body)
    }

    /// The node `ForI` of the given parts.
    pub fn make_for_i(start: Token, condition: Token, step: Token, body: Vec<Token>) -> (out: Token)
        ensures
            out@ == TokenView::ForI(Box::new(start@), Box::new(condition@), Box::new(step@), token_views(body@)),
    {
        proof {
            reveal(token_view);
        }
        Token::ForI(Box::new(start), Box::new(condition), Box::new(step), body)
    }

    /// The node `Call` of the given parts.
    pub fn make_call(callee: Token, arguments: Vec<Token>) -> (out: Token)
        ensures
            out@ == TokenView::Call(Box::new(callee@), token_views(arguments@)),
    {
        proof {
            reveal(token_view);
        }
        Token::Call(Box::new(callee), arguments)
    }

    /// The node `Return` of the given parts.
    pub fn make_returning(value: Token) -> (out: Token)
        ensures
            out@ == TokenView::Return(Box::new(value@)),
    {
        proof {
            reveal(token_view);
        }
        Token::Return(Box::new(value))
    }

    /// The node `Eq` of the given parts.
    pub fn make_eq_of(left: Token, right: Token) -> (out: Token)
        ensures
            out@ == TokenView::Eq(Box::new(left@), Box::new(right@)),
    {
        proof {
            reveal(token_view);
        }
        Token::Eq(Box::new(left), Box::new(right))
    }

    /// The node `Ne` of the given parts.
    pub fn make_ne_of(left: Token, right: Token) -> (out: Token)
        ensures
            out@ == TokenView::Ne(Box::new(left@), Box::new(right@)),
    {
        proof {
            reveal(token_view);
        }
        Token::Ne(Box::new(left), Box::new(right))
    }

    /// The node `Lt` of the given parts.
    pub fn make_lt_of(left: Token, right: Token) -> (out: Token)
        ensures
            out@ == TokenView::Lt(Box::new(left@), Box::new(right@)),
    {
        proof {
            reveal(token_view);
        }
        Token::Lt(Box::new(left), Box::new(right))
    }

    /// The node `Le` of the given parts.
    pub fn make_le_of(left: Token, right: Token) -> (out: Token)
        ensures
            out@ == TokenView::Le(Box::new(left@), Box::new(right@)),
    {
        proof {
            reveal(token_view);
        }
        Token::Le(Box::new(left), Box::new(right))
    }

    /// The node `Gt` of the given parts.
    pub fn make_gt_of(left: Token, right: Token) -> (out: Token)
        ensures
            out@ == TokenView::Gt(Box::new(left@), Box::new(right@)),
    {
        proof {
            reveal(token_view);
        }
        Token::Gt(Box::new(left), Box::new(right))
    }

    /// The node `Ge` of the given parts.
    pub fn make_ge_of(left: Token, right: Token) -> (out: Token)
        ensures
            out@ == TokenView::Ge(Box::new(left@), Box::new(right@)),
    {
        proof {
            reveal(token_view);
        }
        Token::Ge(Box::new(left), Box::new(right))
    }

    /// The node `Add` of the given parts.
    pub fn make_add_of(left: Token, right: Token) -> (out: Token)
        ensures
            out@ == TokenView::Add(Box::new(left@), Box::new(right@)),
    {
        proof {
            reveal(token_view);
        }
        Token::Add(Box::new(left), Box::new(right))
    }

    /// The node `Sub` of the given parts.
    pub fn make_sub_of(left: Token, right: Token) -> (out: Token)
        ensures
            out@ == TokenView::Sub(Box::new(left@), Box::new(right@)),
    {
        proof {
            reveal(token_view);
        }
        Token::Sub(Box::new(left), Box::new(right))
    }

    /// The node `Mul` of the given parts.
    pub fn make_mul_of(left: Token, right: Token) -> (out: Token)
        ensures
            out@ == TokenView::Mul(Box::new(left@), Box::new(right@)),
    {
        proof {
            reveal(token_view);
        }
        Token::Mul(Box::new(left), Box::new(right))
    }

    /// The node `Div` of the given parts.
    pub fn make_div_of(left: Token, right: Token) -> (out: Token)
        ensures
            out@ == TokenView::Div(Box::new(left@), Box::new(right@)),
    {
        proof {
            reveal(token_view);
        }
        Token::Div(Box::new(left), Box::new(right))
    }

    /// The node `Pow` of the given parts.
    pub fn make_pow_of(left: Token, right: Token) -> (out: Token)
        ensures
            out@ == TokenView::Pow(Box::new(left@), Box::new(right@)),
    {
        proof {
            reveal(token_view);
        }
        Token::Pow(Box::new(left), Box::new(right))
    }

    /// The node `IfElse` of the given parts.
    pub fn make_if_else(condition: Token, then_body: Vec<Token>, else_body: Option<Vec<Token>>) -> (out:
        Token)
        ensures
            out@ == TokenView::IfElse(
                Box::new(condition@),
                token_views(then_body@),
                match else_body {
                    Some(body) => Some(token_views(body@)),
                    None => None,
                },
            ),
    {
        proof {
            reveal(token_view);
        }
        Token::IfElse(Box::new(condition), then_body, else_body)
    }
}

} // verus!
