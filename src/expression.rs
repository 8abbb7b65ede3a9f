use vstd::prelude::*;

use crate::token::{Literal, Token, TokenType};

verus! {

/// An expression tree. Each node owns its children.
#[derive(Debug, PartialEq)]
pub enum Expression {
    Unary { operator: Token, right: Box<Expression> },
    Binary { left: Box<Expression>, operator: Token, right: Box<Expression> },
    Literal(Token),
    Grouping(Box<Expression>),
}

/// The kinds of parse error.
#[derive(Debug, Clone, Copy, PartialEq, Eq, Structural)]
pub enum ParseErrorKind {
    /// No expression starts at the offending token.
    ExpectedExpression,
    /// A `(` whose expression is not followed by `)`.
    MissingClosingParen,
    /// A complete expression followed by more tokens.
    UnexpectedToken,
}

/// A parse error and the token at which it was found.
#[derive(Debug, Clone, PartialEq)]
pub struct ParseError {
    pub kind: ParseErrorKind,
    pub token: Token,
}

/// A cursor over a token sequence.
pub struct Parser {
    pub current: usize,
    pub tokens: Vec<Token>,
}

// ---------------------------------------------------------------------------
// Well-formed trees
// ---------------------------------------------------------------------------

/// A token that can stand as a leaf: `true`, `false`, `nil`, or a number or
/// string with its payload.
pub open spec fn is_literal_token(t: Token) -> bool {
    ||| t.token_type == TokenType::True
    ||| t.token_type == TokenType::False
    ||| t.token_type == TokenType::Nil
    ||| t.token_type == TokenType::Number && t.literal matches Some(Literal::Numeric(_))
    ||| t.token_type == TokenType::String && t.literal matches Some(Literal::String(_))
}

/// The operators of the four binary levels, from the loosest: equality,
/// comparison, term and factor.
pub open spec fn level_operator(level: nat, k: TokenType) -> bool {
    if level == 0 {
        k == TokenType::BangEqual || k == TokenType::EqualEqual
    } else if level == 1 {
        k == TokenType::Greater || k == TokenType::GreaterEqual || k == TokenType::Less || k
            == TokenType::LessEqual
    } else if level == 2 {
        k == TokenType::Minus || k == TokenType::Plus
    } else {
        k == TokenType::Slash || k == TokenType::Star
    }
}

pub open spec fn is_binary_operator(k: TokenType) -> bool {
    exists|level: nat| level <= 3 && #[trigger] level_operator(level, k)
}

pub open spec fn is_unary_operator(k: TokenType) -> bool {
    k == TokenType::Bang || k == TokenType::Minus
}

impl Expression {
    /// Leaves are literal tokens and each operator fits its node.
    pub open spec fn well_formed(self) -> bool
        decreases self,
    {
        match self {
            Expression::Literal(t) => is_literal_token(t),
            Expression::Grouping(inner) => inner.well_formed(),
            Expression::Unary { operator, right } => is_unary_operator(operator.token_type)
                && right.well_formed(),
            Expression::Binary { left, operator, right } => is_binary_operator(operator.token_type)
                && left.well_formed() && right.well_formed(),
        }
    }
}

fn is_literal(t: &Token) -> (r: bool)
    ensures
        r == is_literal_token(*t),
{
    match t.token_type {
        TokenType::True | TokenType::False | TokenType::Nil => true,
        TokenType::Number => match &t.literal {
            Some(Literal::Numeric(_)) => true,
            _ => false,
        },
        TokenType::String => match &t.literal {
            Some(Literal::String(_)) => true,
            _ => false,
        },
        _ => false,
    }
}

fn is_level_operator(level: u8, k: TokenType) -> (r: bool)
    ensures
        r == level_operator(level as nat, k),
{
    if level == 0 {
        k == TokenType::BangEqual || k == TokenType::EqualEqual
    } else if level == 1 {
        k == TokenType::Greater || k == TokenType::GreaterEqual || k == TokenType::Less || k
            == TokenType::LessEqual
    } else if level == 2 {
        k == TokenType::Minus || k == TokenType::Plus
    } else {
        k == TokenType::Slash || k == TokenType::Star
    }
}

fn is_operator_of_some_level(k: TokenType) -> (r: bool)
    ensures
        r == is_binary_operator(k),
{
    let r = is_level_operator(0, k) || is_level_operator(1, k) || is_level_operator(2, k)
        || is_level_operator(3, k);
    proof {
        if r {
            if level_operator(0, k) {
                assert(level_operator(0nat, k));
            } else if level_operator(1, k) {
                assert(level_operator(1nat, k));
            } else if level_operator(2, k) {
                assert(level_operator(2nat, k));
            } else {
                assert(level_operator(3nat, k));
            }
        }
    }
    r
}

impl Expression {
    /// Whether the tree is well formed, as every tree the parser builds is.
    pub fn is_well_formed(&self) -> (r: bool)
        ensures
            r == self.well_formed(),
        decreases self,
    {
        match self {
            Expression::Literal(t) => is_literal(t),
            Expression::Grouping(inner) => inner.is_well_formed(),
            Expression::Unary { operator, right } => (operator.token_type == TokenType::Bang
                || operator.token_type == TokenType::Minus) && right.is_well_formed(),
            Expression::Binary { left, operator, right } => is_operator_of_some_level(
                operator.token_type,
            ) && left.is_well_formed() && right.is_well_formed(),
        }
    }
}

// ---------------------------------------------------------------------------
// The grammar
// ---------------------------------------------------------------------------

pub open spec fn remaining(toks: Seq<Token>, pos: int) -> nat {
    if pos < toks.len() {
        (toks.len() - pos) as nat
    } else {
        0
    }
}

/// The kind at `pos`; past the end, `Eof`.
pub open spec fn kind_at(toks: Seq<Token>, pos: int) -> TokenType {
    if 0 <= pos < toks.len() {
        toks[pos].token_type
    } else {
        TokenType::Eof
    }
}

/// The token at `pos`; past the end, an `Eof` token.
pub open spec fn token_at(toks: Seq<Token>, pos: int) -> Token {
    if 0 <= pos < toks.len() {
        toks[pos]
    } else {
        Token { token_type: TokenType::Eof, literal: None }
    }
}

/// Whether `pos` holds an operator of `level`.
pub open spec fn at_operator(toks: Seq<Token>, pos: int, level: nat) -> bool {
    0 <= pos < toks.len() && level_operator(level, toks[pos].token_type)
}

pub open spec fn binary_rank(level: nat) -> nat {
    if level >= 3 {
        4
    } else {
        (16 - 4 * level) as nat
    }
}

/// `expression → equality`: the tree that starts at `pos` and the position
/// after it.
pub open spec fn parse_expression(toks: Seq<Token>, pos: int) -> Result<
    (Expression, int),
    ParseError,
>
    decreases remaining(toks, pos), 20nat,
{
    parse_binary(toks, pos, 0)
}

/// One binary level: `operand ( op operand )*`, folded to the left. The
/// operand is the next level, or `unary` below the factor level.
pub open spec fn parse_binary(toks: Seq<Token>, pos: int, level: nat) -> Result<
    (Expression, int),
    ParseError,
>
    decreases remaining(toks, pos), binary_rank(level),
{
    let first = if level >= 3 {
        parse_unary(toks, pos)
    } else {
        parse_binary(toks, pos, level + 1)
    };
    match first {
        Err(e) => Err(e),
        Ok((left, p)) => if pos <= p {
            binary_rest(toks, level, left, p)
        } else {
            // never taken: the cursor only moves forward
            Ok((left, p))
        },
    }
}

/// The `( op operand )*` tail of a binary level after `left`.
pub open spec fn binary_rest(toks: Seq<Token>, level: nat, left: Expression, pos: int) -> Result<
    (Expression, int),
    ParseError,
>
    decreases remaining(toks, pos), (binary_rank(level) - 1) as nat,
{
    if at_operator(toks, pos, level) {
        let right = if level >= 3 {
            parse_unary(toks, pos + 1)
        } else {
            parse_binary(toks, pos + 1, level + 1)
        };
        match right {
            Err(e) => Err(e),
            Ok((r, p)) => if pos < p {
                binary_rest(
                    toks,
                    level,
                    Expression::Binary {
                        left: Box::new(left),
                        operator: toks[pos],
                        right: Box::new(r),
                    },
                    p,
                )
            } else {
                // never taken: the cursor only moves forward
                Ok((left, pos))
            },
        }
    } else {
        Ok((left, pos))
    }
}

/// `unary → ( "!" | "-" ) unary | primary`.
pub open spec fn parse_unary(toks: Seq<Token>, pos: int) -> Result<(Expression, int), ParseError>
    decreases remaining(toks, pos), 2nat,
{
    if 0 <= pos < toks.len() && is_unary_operator(toks[pos].token_type) {
        match parse_unary(toks, pos + 1) {
            Err(e) => Err(e),
            Ok((r, p)) => Ok((Expression::Unary { operator: toks[pos], right: Box::new(r) }, p)),
        }
    } else {
        parse_primary(toks, pos)
    }
}

/// `primary → NUMBER | STRING | "true" | "false" | "nil" | "(" expression ")"`.
pub open spec fn parse_primary(toks: Seq<Token>, pos: int) -> Result<
    (Expression, int),
    ParseError,
>
    decreases remaining(toks, pos), 1nat,
{
    if 0 <= pos < toks.len() && is_literal_token(toks[pos]) {
        Ok((Expression::Literal(toks[pos]), pos + 1))
    } else if kind_at(toks, pos) == TokenType::LeftParen {
        match parse_expression(toks, pos + 1) {
            Err(e) => Err(e),
            Ok((inner, p)) => if kind_at(toks, p) == TokenType::RightParen {
                Ok((Expression::Grouping(Box::new(inner)), p + 1))
            } else {
                Err(
                    ParseError { kind: ParseErrorKind::MissingClosingParen, token: token_at(toks, p) },
                )
            },
        }
    } else {
        Err(ParseError { kind: ParseErrorKind::ExpectedExpression, token: token_at(toks, pos) })
    }
}

/// The tokens without the comments, in order.
pub open spec fn without_comments(toks: Seq<Token>) -> Seq<Token>
    decreases toks.len(),
{
    if toks.len() == 0 {
        toks
    } else {
        let rest = without_comments(toks.drop_last());
        if toks.last().token_type == TokenType::Comment {
            rest
        } else {
            rest.push(toks.last())
        }
    }
}

/// The tree of a whole token sequence: one expression, then the end.
pub open spec fn parse_spec(tokens: Seq<Token>) -> Result<Expression, ParseError> {
    let toks = without_comments(tokens);
    match parse_expression(toks, 0) {
        Err(e) => Err(e),
        Ok((e, p)) => if kind_at(toks, p) == TokenType::Eof {
            Ok(e)
        } else {
            Err(ParseError { kind: ParseErrorKind::UnexpectedToken, token: token_at(toks, p) })
        },
    }
}

/// No token from `from` up to `to` is the end-of-input marker.
pub open spec fn no_eof_between(toks: Seq<Token>, from: int, to: int) -> bool {
    forall|i: int| from <= i < to ==> #[trigger] toks[i].token_type != TokenType::Eof
}

/// Where a parse step leaves the cursor: on success just past what it
/// parsed, having stepped over no end-of-input marker; on failure where it
/// started.
pub open spec fn cursor_after(toks: Seq<Token>, start: int, end: int, ok: bool) -> bool {
    if ok {
        start < end <= toks.len() && no_eof_between(toks, start, end)
    } else {
        end == start
    }
}

/// `r` and the cursor `pos` after the call are what `expected` says.
pub open spec fn agrees(
    r: Result<Expression, ParseError>,
    pos: int,
    expected: Result<(Expression, int), ParseError>,
) -> bool {
    match expected {
        Ok((e, p)) => r == Ok::<Expression, ParseError>(e) && pos == p,
        Err(err) => r == Err::<Expression, ParseError>(err),
    }
}

// ---------------------------------------------------------------------------
// The parser
// ---------------------------------------------------------------------------

/// The human-readable expectation that a parse error reports.
pub open spec fn parse_message(kind: ParseErrorKind) -> Seq<char> {
    match kind {
        ParseErrorKind::ExpectedExpression => "Expect expression."@,
        ParseErrorKind::MissingClosingParen => "Expect ')' after expression."@,
        ParseErrorKind::UnexpectedToken => "Expect end of expression."@,
    }
}

impl ParseError {
    /// What was expected where the error was found.
    pub fn message(&self) -> (r: &'static str)
        ensures
            r@ == parse_message(self.kind),
    {
        match self.kind {
            ParseErrorKind::ExpectedExpression => "Expect expression.",
            ParseErrorKind::MissingClosingParen => "Expect ')' after expression.",
            ParseErrorKind::UnexpectedToken => "Expect end of expression.",
        }
    }
}

impl Parser {
    /// A parser at the start of `tokens`, with the comments left out.
    pub fn new(tokens: Vec<Token>) -> (p: Parser)
        ensures
            p.current == 0,
            p.tokens@ == without_comments(tokens@),
    {
        let mut kept: Vec<Token> = Vec::new();
        let mut i: usize = 0;
        while i < tokens.len()
            invariant
                i <= tokens.len(),
                kept@ == without_comments(tokens@.take(i as int)),
            decreases tokens.len() - i,
        {
            assert(tokens@.take(i + 1).drop_last() =~= tokens@.take(i as int));
            if tokens[i].token_type != TokenType::Comment {
                kept.push(tokens[i].duplicate());
            }
            i += 1;
        }
        assert(tokens@.take(tokens.len() as int) =~= tokens@);
        Parser { current: 0, tokens: kept }
    }

    fn peek_kind(&self) -> (k: TokenType)
        ensures
            k == kind_at(self.tokens@, self.current as int),
    {
        if self.current < self.tokens.len() {
            self.tokens[self.current].token_type
        } else {
            TokenType::Eof
        }
    }

    fn peek(&self) -> (t: Token)
        ensures
            t == token_at(self.tokens@, self.current as int),
    {
        if self.current < self.tokens.len() {
            self.tokens[self.current].duplicate()
        } else {
            Token::simple(TokenType::Eof)
        }
    }

    /// Whether the cursor stands on the end of the input.
    fn is_at_end(&self) -> (r: bool)
        ensures
            r == (kind_at(self.tokens@, self.current as int) == TokenType::Eof),
    {
        self.peek_kind() == TokenType::Eof
    }

    /// Whether the cursor stands on a token of kind `k` before the end.
    fn check(&self, k: TokenType) -> (r: bool)
        ensures
            r == (kind_at(self.tokens@, self.current as int) != TokenType::Eof && kind_at(
                self.tokens@,
                self.current as int,
            ) == k),
    {
        if self.is_at_end() {
            return false;
        }
        self.peek_kind() == k
    }

    /// Steps past the current token; at the end of the input the cursor
    /// stays where it is.
    fn advance(&mut self)
        ensures
            final(self).tokens == old(self).tokens,
            kind_at(old(self).tokens@, old(self).current as int) == TokenType::Eof
                ==> final(self).current == old(self).current,
            kind_at(old(self).tokens@, old(self).current as int) != TokenType::Eof
                ==> final(self).current == old(self).current + 1,
    {
        if self.current < self.tokens.len() && self.tokens[self.current].token_type
            != TokenType::Eof {
            self.current = self.current + 1;
        }
    }

    /// The token just before the cursor.
    fn previous(&self) -> (t: Token)
        requires
            0 < self.current <= self.tokens.len(),
        ensures
            t == self.tokens@[self.current - 1],
    {
        self.tokens[self.current - 1].duplicate()
    }

    fn at_level_operator(&self, level: u8) -> (r: bool)
        ensures
            r == at_operator(self.tokens@, self.current as int, level as nat),
    {
        self.current < self.tokens.len() && is_level_operator(
            level,
            self.tokens[self.current].token_type,
        )
    }

    fn at_literal(&self) -> (r: bool)
        ensures
            r == (self.current < self.tokens.len() && is_literal_token(
                self.tokens@[self.current as int],
            )),
    {
        self.current < self.tokens.len() && is_literal(&self.tokens[self.current])
    }

    /// Steps past a token of kind `k`, or fails with `kind` at the current
    /// token and leaves the cursor where it is. The end of the input is never
    /// stepped past, so asking for `Eof` fails.
    fn consume(&mut self, k: TokenType, kind: ParseErrorKind) -> (r: Result<(), ParseError>)
        ensures
            final(self).tokens == old(self).tokens,
            ({
                let here = kind_at(old(self).tokens@, old(self).current as int);
                if here != TokenType::Eof && here == k {
                    r is Ok && final(self).current == old(self).current + 1
                } else {
                    r == Err::<(), ParseError>(
                        ParseError { kind, token: token_at(old(self).tokens@, old(self).current as int) },
                    ) && final(self).current == old(self).current
                }
            }),
    {
        if self.check(k) {
            self.advance();
            Ok(())
        } else {
            Err(ParseError { kind, token: self.peek() })
        }
    }

    /// Parses one expression from the cursor on. On success the cursor
    /// stands just past it; on failure it is left where it was.
    pub fn expression(&mut self) -> (r: Result<Expression, ParseError>)
        requires
            old(self).current <= old(self).tokens.len(),
        ensures
            final(self).tokens == old(self).tokens,
            cursor_after(
                old(self).tokens@,
                old(self).current as int,
                final(self).current as int,
                r is Ok,
            ),
            r is Ok ==> r->Ok_0.well_formed(),
            agrees(
                r,
                final(self).current as int,
                parse_expression(old(self).tokens@, old(self).current as int),
            ),
        decreases remaining(old(self).tokens@, old(self).current as int), 20nat,
    {
        self.binary(0)
    }

    /// One binary level; `level` 0 to 3 is equality, comparison, term and
    /// factor. Operands are parsed one level tighter and folded to the left.
    fn binary(&mut self, level: u8) -> (r: Result<Expression, ParseError>)
        requires
            level <= 3,
            old(self).current <= old(self).tokens.len(),
        ensures
            final(self).tokens == old(self).tokens,
            cursor_after(
                old(self).tokens@,
                old(self).current as int,
                final(self).current as int,
                r is Ok,
            ),
            r is Ok ==> r->Ok_0.well_formed(),
            agrees(
                r,
                final(self).current as int,
                parse_binary(old(self).tokens@, old(self).current as int, level as nat),
            ),
        decreases remaining(old(self).tokens@, old(self).current as int), binary_rank(level as nat),
    {
        let ghost toks = self.tokens@;
        let start = self.current;
        let first = if level >= 3 {
            self.unary()
        } else {
            self.binary(level + 1)
        };
        let mut expr = match first {
            Ok(e) => e,
            Err(e) => return Err(e),
        };
        loop
            invariant
                self.tokens@ == toks,
                self.tokens == old(self).tokens,
                start == old(self).current,
                toks == old(self).tokens@,
                start < self.current <= self.tokens.len(),
                no_eof_between(toks, start as int, self.current as int),
                level <= 3,
                expr.well_formed(),
                binary_rest(toks, level as nat, expr, self.current as int) == parse_binary(
                    toks,
                    start as int,
                    level as nat,
                ),
            decreases self.tokens.len() - self.current,
        {
            if !self.at_level_operator(level) {
                return Ok(expr);
            }
            self.advance();
            let operator = self.previous();
            let ghost middle = self.current as int;
            let next = if level >= 3 {
                self.unary()
            } else {
                self.binary(level + 1)
            };
            match next {
                Ok(right) => {
                    expr = Expression::Binary { left: Box::new(expr), operator, right: Box::new(right) };
                    assert(no_eof_between(toks, start as int, self.current as int)) by {
                        assert forall|i: int| start <= i < self.current implies #[trigger] toks[i].token_type
                            != TokenType::Eof by {
                            if i >= middle {
                                assert(no_eof_between(toks, middle, self.current as int));
                            }
                        }
                    }
                },
                Err(e) => {
                    self.current = start;
                    return Err(e);
                },
            }
        }
    }

    /// `unary → ( "!" | "-" ) unary | primary`.
    fn unary(&mut self) -> (r: Result<Expression, ParseError>)
        requires
            old(self).current <= old(self).tokens.len(),
        ensures
            final(self).tokens == old(self).tokens,
            cursor_after(
                old(self).tokens@,
                old(self).current as int,
                final(self).current as int,
                r is Ok,
            ),
            r is Ok ==> r->Ok_0.well_formed(),
            agrees(
                r,
                final(self).current as int,
                parse_unary(old(self).tokens@, old(self).current as int),
            ),
        decreases remaining(old(self).tokens@, old(self).current as int), 2nat,
    {
        let start = self.current;
        if self.check(TokenType::Bang) || self.check(TokenType::Minus) {
            self.advance();
            let operator = self.previous();
            match self.unary() {
                Ok(right) => Ok(Expression::Unary { operator, right: Box::new(right) }),
                Err(e) => {
                    self.current = start;
                    Err(e)
                },
            }
        } else {
            self.primary()
        }
    }

    /// `primary → NUMBER | STRING | "true" | "false" | "nil" | "(" expression ")"`.
    fn primary(&mut self) -> (r: Result<Expression, ParseError>)
        requires
            old(self).current <= old(self).tokens.len(),
        ensures
            final(self).tokens == old(self).tokens,
            cursor_after(
                old(self).tokens@,
                old(self).current as int,
                final(self).current as int,
                r is Ok,
            ),
            r is Ok ==> r->Ok_0.well_formed(),
            agrees(
                r,
                final(self).current as int,
                parse_primary(old(self).tokens@, old(self).current as int),
            ),
        decreases remaining(old(self).tokens@, old(self).current as int), 1nat,
    {
        let start = self.current;
        if self.at_literal() {
            self.advance();
            return Ok(Expression::Literal(self.previous()));
        }
        if self.check(TokenType::LeftParen) {
            self.advance();
            let inner = match self.expression() {
                Ok(e) => e,
                Err(e) => {
                    self.current = start;
                    return Err(e);
                },
            };
            match self.consume(TokenType::RightParen, ParseErrorKind::MissingClosingParen) {
                Ok(()) => Ok(Expression::Grouping(Box::new(inner))),
                Err(e) => {
                    self.current = start;
                    Err(e)
                },
            }
        } else {
            Err(ParseError { kind: ParseErrorKind::ExpectedExpression, token: self.peek() })
        }
    }
}

/// Parses a whole token sequence, comments left out: one expression, then
/// the end of the input.
pub fn parse(tokens: Vec<Token>) -> (r: Result<Expression, ParseError>)
    ensures
        r == parse_spec(tokens@),
        r is Ok ==> r->Ok_0.well_formed(),
{
    let mut parser = Parser::new(tokens);
    let e = match parser.expression() {
        Ok(e) => e,
        Err(e) => return Err(e),
    };
    if parser.is_at_end() {
        Ok(e)
    } else {
        Err(ParseError { kind: ParseErrorKind::UnexpectedToken, token: parser.peek() })
    }
}

} // verus!
