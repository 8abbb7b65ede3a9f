use vstd::prelude::*;

verus! {

/// The lexical category of a token.
#[derive(Debug, Clone, Copy, PartialEq, Eq, Structural)]
pub enum TokenType {
    // single-character punctuation
    LeftParen,
    RightParen,
    LeftBrace,
    RightBrace,
    Comma,
    Dot,
    Minus,
    Plus,
    Semicolon,
    Slash,
    Star,
    // one or two characters
    Bang,
    BangEqual,
    Equal,
    EqualEqual,
    Greater,
    GreaterEqual,
    Less,
    LessEqual,
    // literals
    Identifier,
    String,
    Number,
    // keywords
    And,
    Class,
    Else,
    False,
    Fun,
    For,
    If,
    Nil,
    Or,
    Print,
    Return,
    Super,
    This,
    True,
    Var,
    While,
    // a line comment, kept for diagnostics; never handed to the parser
    Comment,
    // end of input
    Eof,
}

/// The decoded payload of a literal-bearing token.
#[derive(Debug, Clone, PartialEq)]
pub enum Literal {
    /// The characters between the quotes, verbatim.
    String(String),
    /// A decimal numeral as written: digits with at most one decimal point.
    Numeric(String),
    /// The name of an identifier.
    Identifier(String),
}

/// A classified lexical unit with its optional payload.
#[derive(Debug, Clone, PartialEq)]
pub struct Token {
    pub token_type: TokenType,
    pub literal: Option<Literal>,
}

/// The mathematical content of a literal payload.
pub enum LiteralView {
    String(Seq<char>),
    Numeric(Seq<char>),
    Identifier(Seq<char>),
}

/// The mathematical content of a token.
pub struct TokenView {
    pub token_type: TokenType,
    pub literal: Option<LiteralView>,
}

impl View for Literal {
    type V = LiteralView;

    open spec fn view(&self) -> LiteralView {
        match self {
            Literal::String(s) => LiteralView::String(s@),
            Literal::Numeric(s) => LiteralView::Numeric(s@),
            Literal::Identifier(s) => LiteralView::Identifier(s@),
        }
    }
}

impl View for Token {
    type V = TokenView;

    open spec fn view(&self) -> TokenView {
        TokenView {
            token_type: self.token_type,
            literal: match self.literal {
                Some(l) => Some(l@),
                None => None,
            },
        }
    }
}

impl Literal {
    /// A copy equal to `self`.
    pub fn duplicate(&self) -> (r: Literal)
        ensures
            r == *self,
    {
        match self {
            Literal::String(s) => Literal::String(s.clone()),
            Literal::Numeric(s) => Literal::Numeric(s.clone()),
            Literal::Identifier(s) => Literal::Identifier(s.clone()),
        }
    }
}

impl Token {
    /// A token of a kind that carries no payload.
    pub fn simple(token_type: TokenType) -> (r: Token)
        ensures
            r == (Token { token_type, literal: None }),
    {
        Token { token_type, literal: None }
    }

    /// A copy equal to `self`.
    pub fn duplicate(&self) -> (r: Token)
        ensures
            r == *self,
    {
        let literal = match &self.literal {
            Some(l) => Some(l.duplicate()),
            None => None,
        };
        Token { token_type: self.token_type, literal }
    }
}

} // verus!
