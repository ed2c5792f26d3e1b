//! Tokens of an attribute's argument list.

use vstd::prelude::*;

verus! {

/// One token, as the compiler's front end hands it over.
#[derive(Debug, PartialEq, Eq)]
pub enum Token {
    /// A word such as `code`.
    Ident(String),
    /// A single punctuation character such as `=`.
    Punct(char),
    /// A literal as it is written, quotes, escapes and suffix included.
    Literal(String),
    /// A delimited group, as it is written.
    Group(String),
}

/// The mathematical value of a [`Token`].
pub enum TokenView {
    Ident(Seq<char>),
    Punct(char),
    Literal(Seq<char>),
    Group(Seq<char>),
}

impl View for Token {
    type V = TokenView;

    open spec fn view(&self) -> TokenView {
        match self {
            Token::Ident(s) => TokenView::Ident(s@),
            Token::Punct(c) => TokenView::Punct(*c),
            Token::Literal(s) => TokenView::Literal(s@),
            Token::Group(s) => TokenView::Group(s@),
        }
    }
}

impl DeepView for Token {
    type V = TokenView;

    open spec fn deep_view(&self) -> TokenView {
        self@
    }
}

impl TokenView {
    /// The token as it is written.
    pub open spec fn text(self) -> Seq<char> {
        match self {
            TokenView::Ident(s) => s,
            TokenView::Punct(c) => seq![c],
            TokenView::Literal(s) => s,
            TokenView::Group(s) => s,
        }
    }
}

impl Clone for Token {
    fn clone(&self) -> (r: Self)
        ensures
            r == *self,
    {
        match self {
            Token::Ident(s) => Token::Ident(s.clone()),
            Token::Punct(c) => Token::Punct(*c),
            Token::Literal(s) => Token::Literal(s.clone()),
            Token::Group(s) => Token::Group(s.clone()),
        }
    }
}

impl Token {
    /// The token as it is written.
    pub fn text(&self) -> (r: String)
        ensures
            r@ == self@.text(),
    {
        match self {
            Token::Ident(s) => s.clone(),
            Token::Punct(c) => {
                let mut r = String::new();
                r.push(*c);
                r
            },
            Token::Literal(s) => s.clone(),
            Token::Group(s) => s.clone(),
        }
    }
}

} // verus!
