use vstd::prelude::*;

use vstd::string::{StrSliceExecFns, StringExecFns};

use crate::token::{Literal, LiteralView, Token, TokenType, TokenView};

verus! {

/// The kinds of lexical error.
#[derive(Debug, Clone, Copy, PartialEq, Eq, Structural)]
pub enum LexErrorKind {
    UnrecognizedCharacter,
    UnterminatedString,
    MalformedNumber,
}

/// A lexical error over the characters `start..end` of the source.
#[derive(Debug, Clone, Copy, PartialEq, Eq, Structural)]
pub struct LexError {
    pub kind: LexErrorKind,
    pub start: usize,
    pub end: usize,
}

/// The outcome of one pass over a source: every token that was recognised,
/// in order, and every lexical error, in order.
pub struct Scan {
    pub tokens: Vec<Token>,
    pub errors: Vec<LexError>,
}

// ---------------------------------------------------------------------------
// Character classes
// ---------------------------------------------------------------------------

/// The characters with the Unicode `White_Space` property.
pub open spec fn is_whitespace(c: char) -> bool {
    let n = c as u32;
    ||| 0x9 <= n <= 0xd
    ||| n == 0x20
    ||| n == 0x85
    ||| n == 0xa0
    ||| n == 0x1680
    ||| 0x2000 <= n <= 0x200a
    ||| n == 0x2028
    ||| n == 0x2029
    ||| n == 0x202f
    ||| n == 0x205f
    ||| n == 0x3000
}

pub open spec fn is_digit(c: char) -> bool {
    '0' <= c <= '9'
}

/// Whether `c` has the Unicode `Alphabetic` property.
pub uninterp spec fn alphabetic(c: char) -> bool;

/// A character that may stand in an identifier or keyword: an alphabetic
/// character or `_`.
pub open spec fn is_word_char(c: char) -> bool {
    alphabetic(c) || c == '_'
}

/// A character that may stand in a numeral.
pub open spec fn is_numeral_char(c: char) -> bool {
    is_digit(c) || c == '.'
}

/// The kind of a single-character punctuation token.
pub open spec fn single_kind(c: char) -> Option<TokenType> {
    if c == '(' {
        Some(TokenType::LeftParen)
    } else if c == ')' {
        Some(TokenType::RightParen)
    } else if c == '{' {
        Some(TokenType::LeftBrace)
    } else if c == '}' {
        Some(TokenType::RightBrace)
    } else if c == ',' {
        Some(TokenType::Comma)
    } else if c == '.' {
        Some(TokenType::Dot)
    } else if c == '-' {
        Some(TokenType::Minus)
    } else if c == '+' {
        Some(TokenType::Plus)
    } else if c == ';' {
        Some(TokenType::Semicolon)
    } else if c == '*' {
        Some(TokenType::Star)
    } else {
        None
    }
}

/// For a character that may be followed by `=`: the kind alone and the kind
/// with `=`.
pub open spec fn pair_kinds(c: char) -> Option<(TokenType, TokenType)> {
    if c == '!' {
        Some((TokenType::Bang, TokenType::BangEqual))
    } else if c == '=' {
        Some((TokenType::Equal, TokenType::EqualEqual))
    } else if c == '<' {
        Some((TokenType::Less, TokenType::LessEqual))
    } else if c == '>' {
        Some((TokenType::Greater, TokenType::GreaterEqual))
    } else {
        None
    }
}

/// The keyword spelled by `t`, or `Identifier` for any other word.
pub open spec fn keyword_kind(t: Seq<char>) -> TokenType {
    if t == "and"@ {
        TokenType::And
    } else if t == "class"@ {
        TokenType::Class
    } else if t == "else"@ {
        TokenType::Else
    } else if t == "fun"@ {
        TokenType::Fun
    } else if t == "for"@ {
        TokenType::For
    } else if t == "if"@ {
        TokenType::If
    } else if t == "nil"@ {
        TokenType::Nil
    } else if t == "or"@ {
        TokenType::Or
    } else if t == "print"@ {
        TokenType::Print
    } else if t == "return"@ {
        TokenType::Return
    } else if t == "super"@ {
        TokenType::Super
    } else if t == "this"@ {
        TokenType::This
    } else if t == "true"@ {
        TokenType::True
    } else if t == "var"@ {
        TokenType::Var
    } else if t == "while"@ {
        TokenType::While
    } else {
        TokenType::Identifier
    }
}

// ---------------------------------------------------------------------------
// Lexemes
// ---------------------------------------------------------------------------

/// The first index at or after `i` that is the end of `s` or holds `stop`.
pub open spec fn find_char(s: Seq<char>, i: int, stop: char) -> int
    decreases s.len() - i,
{
    if 0 <= i < s.len() && s[i] != stop {
        find_char(s, i + 1, stop)
    } else {
        i
    }
}

/// The end of the run of numeral characters that starts at `i`.
pub open spec fn numeral_end(s: Seq<char>, i: int) -> int
    decreases s.len() - i,
{
    if 0 <= i < s.len() && is_numeral_char(s[i]) {
        numeral_end(s, i + 1)
    } else {
        i
    }
}

/// The end of the run of word characters that starts at `i`.
pub open spec fn word_end(s: Seq<char>, i: int) -> int
    decreases s.len() - i,
{
    if 0 <= i < s.len() && is_word_char(s[i]) {
        word_end(s, i + 1)
    } else {
        i
    }
}

/// The number of decimal points in `t`.
pub open spec fn dot_count(t: Seq<char>) -> nat
    decreases t.len(),
{
    if t.len() == 0 {
        0
    } else {
        dot_count(t.drop_last()) + if t.last() == '.' {
            1nat
        } else {
            0nat
        }
    }
}

pub open spec fn plain(token_type: TokenType) -> TokenView {
    TokenView { token_type, literal: None }
}

/// What the lexeme that starts at `i` yields (nothing for whitespace, a
/// token, or an error), and the index just past it.
pub open spec fn lexeme_at(s: Seq<char>, i: int) -> (Option<Result<TokenView, LexErrorKind>>, int) {
    let c = s[i];
    let next_is_eq = i + 1 < s.len() && s[i + 1] == '=';
    if is_whitespace(c) {
        (None, i + 1)
    } else if single_kind(c) is Some {
        (Some(Ok(plain(single_kind(c)->0))), i + 1)
    } else if pair_kinds(c) is Some {
        let (alone, with_eq) = pair_kinds(c)->0;
        if next_is_eq {
            (Some(Ok(plain(with_eq))), i + 2)
        } else {
            (Some(Ok(plain(alone))), i + 1)
        }
    } else if c == '/' {
        if i + 1 < s.len() && s[i + 1] == '/' {
            (Some(Ok(plain(TokenType::Comment))), find_char(s, i + 2, '\n'))
        } else {
            (Some(Ok(plain(TokenType::Slash))), i + 1)
        }
    } else if c == '"' {
        let close = find_char(s, i + 1, '"');
        if close < s.len() {
            let text = s.subrange(i + 1, close);
            (
                Some(
                    Ok(
                        TokenView {
                            token_type: TokenType::String,
                            literal: Some(LiteralView::String(text)),
                        },
                    ),
                ),
                close + 1,
            )
        } else {
            (Some(Err(LexErrorKind::UnterminatedString)), close)
        }
    } else if is_digit(c) {
        let end = numeral_end(s, i);
        let text = s.subrange(i, end);
        if dot_count(text) <= 1 {
            (
                Some(
                    Ok(
                        TokenView {
                            token_type: TokenType::Number,
                            literal: Some(LiteralView::Numeric(text)),
                        },
                    ),
                ),
                end,
            )
        } else {
            (Some(Err(LexErrorKind::MalformedNumber)), end)
        }
    } else if is_word_char(c) {
        let end = word_end(s, i);
        let text = s.subrange(i, end);
        let kind = keyword_kind(text);
        if kind == TokenType::Identifier {
            (
                Some(
                    Ok(
                        TokenView {
                            token_type: kind,
                            literal: Some(LiteralView::Identifier(text)),
                        },
                    ),
                ),
                end,
            )
        } else {
            (Some(Ok(plain(kind))), end)
        }
    } else {
        (Some(Err(LexErrorKind::UnrecognizedCharacter)), i + 1)
    }
}

/// The tokens and errors of `s` from index `i` on, each lexeme in turn.
pub open spec fn scan_from(s: Seq<char>, i: int) -> (Seq<TokenView>, Seq<LexError>)
    decreases s.len() - i,
{
    if 0 <= i < s.len() {
        let (outcome, end) = lexeme_at(s, i);
        if i < end <= s.len() {
            let (tokens, errors) = scan_from(s, end);
            match outcome {
                None => (tokens, errors),
                Some(Ok(t)) => (seq![t] + tokens, errors),
                Some(Err(kind)) => (
                    tokens,
                    seq![LexError { kind, start: i as usize, end: end as usize }] + errors,
                ),
            }
        } else {
            // never taken: every lexeme covers at least one character
            (Seq::empty(), Seq::empty())
        }
    } else {
        (Seq::empty(), Seq::empty())
    }
}

/// The tokens and errors of a whole source.
pub open spec fn scan_spec(s: Seq<char>) -> (Seq<TokenView>, Seq<LexError>) {
    scan_from(s, 0)
}

pub open spec fn token_views(tokens: Seq<Token>) -> Seq<TokenView> {
    tokens.map_values(|t: Token| t@)
}

pub open spec fn outcome_view(o: Option<Result<Token, LexErrorKind>>) -> Option<
    Result<TokenView, LexErrorKind>,
> {
    match o {
        None => None,
        Some(Ok(t)) => Some(Ok(t@)),
        Some(Err(k)) => Some(Err(k)),
    }
}


/// Relies on `FromIterator<char>` for `String`: the string holds the
/// collected characters, in order.
#[verifier::external_body]
fn text_between(chars: &Vec<char>, start: usize, end: usize) -> (r: String)
    requires
        start <= end <= chars@.len(),
    ensures
        r@ == chars@.subrange(start as int, end as int),
{
    chars[start..end].iter().collect()
}

/// The characters of `source`, in order.
fn chars_of(source: &str) -> (r: Vec<char>)
    ensures
        r@ == source@,
{
    broadcast use vstd::string::axiom_spec_iter;
    let mut r: Vec<char> = Vec::new();
    for c in it: source.chars()
        invariant
            it.seq() == source@,
            r@ == source@.take(it.index()),
    {
        r.push(c);
        assert(r@ =~= source@.take(it.index() + 1));
    }
    assert(r@ =~= source@);
    r
}

/// Relies on `char::is_alphabetic`: whether `c` has the Unicode
/// `Alphabetic` property, which depends on `c` alone.
#[verifier::external_body]
fn is_alphabetic(c: char) -> (r: bool)
    ensures
        r == alphabetic(c),
{
    c.is_alphabetic()
}

fn is_space(c: char) -> (r: bool)
    ensures
        r == is_whitespace(c),
{
    let n = c as u32;
    (0x9 <= n && n <= 0xd) || n == 0x20 || n == 0x85 || n == 0xa0 || n == 0x1680 || (0x2000 <= n
        && n <= 0x200a) || n == 0x2028 || n == 0x2029 || n == 0x202f || n == 0x205f || n == 0x3000
}

/// The index of the first `stop` at or after `i`, or the length.
fn skip_to(chars: &Vec<char>, i: usize, stop: char) -> (r: usize)
    requires
        i <= chars.len(),
    ensures
        r == find_char(chars@, i as int, stop),
        i <= r <= chars.len(),
{
    let mut k = i;
    while k < chars.len() && chars[k] != stop
        invariant
            i <= k <= chars.len(),
            find_char(chars@, k as int, stop) == find_char(chars@, i as int, stop),
        decreases chars.len() - k,
    {
        k += 1;
    }
    k
}

/// The end of the numeral run that starts at `i`, and how many decimal
/// points it holds.
fn numeral_run(chars: &Vec<char>, i: usize) -> (r: (usize, usize))
    requires
        i <= chars.len(),
    ensures
        r.0 == numeral_end(chars@, i as int),
        i <= r.0 <= chars.len(),
        i < chars.len() && is_numeral_char(chars@[i as int]) ==> i < r.0,
        r.1 == dot_count(chars@.subrange(i as int, r.0 as int)),
{
    let mut k = i;
    let mut dots: usize = 0;
    while k < chars.len() && (chars[k] == '.' || ('0' <= chars[k] && chars[k] <= '9'))
        invariant
            i <= k <= chars.len(),
            numeral_end(chars@, k as int) == numeral_end(chars@, i as int),
            dots == dot_count(chars@.subrange(i as int, k as int)),
            dots <= k - i,
        decreases chars.len() - k,
    {
        assert(chars@.subrange(i as int, k + 1).drop_last() =~= chars@.subrange(i as int, k as int));
        if chars[k] == '.' {
            dots += 1;
        }
        k += 1;
    }
    (k, dots)
}

/// The end of the word that starts at `i`.
fn word_run(chars: &Vec<char>, i: usize) -> (r: usize)
    requires
        i <= chars.len(),
    ensures
        r == word_end(chars@, i as int),
        i <= r <= chars.len(),
        i < chars.len() && is_word_char(chars@[i as int]) ==> i < r,
{
    let mut k = i;
    while k < chars.len() && (is_alphabetic(chars[k]) || chars[k] == '_')
        invariant
            i <= k <= chars.len(),
            word_end(chars@, k as int) == word_end(chars@, i as int),
        decreases chars.len() - k,
    {
        k += 1;
    }
    k
}

/// Whether the characters `start..end` spell `word`.
fn spells(chars: &Vec<char>, start: usize, end: usize, word: &str) -> (r: bool)
    requires
        start <= end <= chars.len(),
    ensures
        r == (chars@.subrange(start as int, end as int) == word@),
{
    let n = word.unicode_len();
    if end - start != n {
        assert(chars@.subrange(start as int, end as int).len() != word@.len());
        return false;
    }
    let mut k: usize = 0;
    while k < n
        invariant
            n == word@.len(),
            start <= end <= chars.len(),
            end - start == n,
            k <= n,
            forall|m: int| 0 <= m < k ==> chars@[start + m] == word@[m],
        decreases n - k,
    {
        if chars[start + k] != word.get_char(k) {
            assert(chars@.subrange(start as int, end as int)[k as int] != word@[k as int]);
            return false;
        }
        k += 1;
    }
    assert(chars@.subrange(start as int, end as int) =~= word@);
    true
}

/// The keyword spelled by the characters `start..end`, or `Identifier`.
fn keyword_of(chars: &Vec<char>, start: usize, end: usize) -> (r: TokenType)
    requires
        start <= end <= chars.len(),
    ensures
        r == keyword_kind(chars@.subrange(start as int, end as int)),
{
    if spells(chars, start, end, "and") {
        TokenType::And
    } else if spells(chars, start, end, "class") {
        TokenType::Class
    } else if spells(chars, start, end, "else") {
        TokenType::Else
    } else if spells(chars, start, end, "fun") {
        TokenType::Fun
    } else if spells(chars, start, end, "for") {
        TokenType::For
    } else if spells(chars, start, end, "if") {
        TokenType::If
    } else if spells(chars, start, end, "nil") {
        TokenType::Nil
    } else if spells(chars, start, end, "or") {
        TokenType::Or
    } else if spells(chars, start, end, "print") {
        TokenType::Print
    } else if spells(chars, start, end, "return") {
        TokenType::Return
    } else if spells(chars, start, end, "super") {
        TokenType::Super
    } else if spells(chars, start, end, "this") {
        TokenType::This
    } else if spells(chars, start, end, "true") {
        TokenType::True
    } else if spells(chars, start, end, "var") {
        TokenType::Var
    } else if spells(chars, start, end, "while") {
        TokenType::While
    } else {
        TokenType::Identifier
    }
}

/// A token that is `alone` by itself and `with_eq` when an `=` follows.
fn double_lexeme(
    chars: &Vec<char>,
    i: usize,
    alone: TokenType,
    with_eq: TokenType,
) -> (r: (Option<Result<Token, LexErrorKind>>, usize))
    requires
        i < chars.len(),
    ensures
        r.0 == Some(
            Ok::<Token, LexErrorKind>(
                (Token {
                    token_type: if i + 1 < chars.len() && chars@[i + 1] == '=' {
                        with_eq
                    } else {
                        alone
                    },
                    literal: None,
                }),
            ),
        ),
        r.1 == if i + 1 < chars.len() && chars@[i + 1] == '=' {
            i + 2
        } else {
            i + 1
        },
{
    if i + 1 < chars.len() && chars[i + 1] == '=' {
        (Some(Ok(Token::simple(with_eq))), i + 2)
    } else {
        (Some(Ok(Token::simple(alone))), i + 1)
    }
}

/// The lexeme that starts at `i`: what it yields and the index past it.
fn next_lexeme(chars: &Vec<char>, i: usize) -> (r: (Option<Result<Token, LexErrorKind>>, usize))
    requires
        i < chars.len(),
    ensures
        outcome_view(r.0) == lexeme_at(chars@, i as int).0,
        r.1 == lexeme_at(chars@, i as int).1,
        i < r.1 <= chars.len(),
{
    let c = chars[i];
    if is_space(c) {
        return (None, i + 1);
    }
    match c {
        '(' => (Some(Ok(Token::simple(TokenType::LeftParen))), i + 1),
        ')' => (Some(Ok(Token::simple(TokenType::RightParen))), i + 1),
        '{' => (Some(Ok(Token::simple(TokenType::LeftBrace))), i + 1),
        '}' => (Some(Ok(Token::simple(TokenType::RightBrace))), i + 1),
        ',' => (Some(Ok(Token::simple(TokenType::Comma))), i + 1),
        '.' => (Some(Ok(Token::simple(TokenType::Dot))), i + 1),
        '-' => (Some(Ok(Token::simple(TokenType::Minus))), i + 1),
        '+' => (Some(Ok(Token::simple(TokenType::Plus))), i + 1),
        ';' => (Some(Ok(Token::simple(TokenType::Semicolon))), i + 1),
        '*' => (Some(Ok(Token::simple(TokenType::Star))), i + 1),
        '!' => double_lexeme(chars, i, TokenType::Bang, TokenType::BangEqual),
        '=' => double_lexeme(chars, i, TokenType::Equal, TokenType::EqualEqual),
        '<' => double_lexeme(chars, i, TokenType::Less, TokenType::LessEqual),
        '>' => double_lexeme(chars, i, TokenType::Greater, TokenType::GreaterEqual),
        '/' => {
            if i + 1 < chars.len() && chars[i + 1] == '/' {
                let end = skip_to(chars, i + 2, '\n');
                (Some(Ok(Token::simple(TokenType::Comment))), end)
            } else {
                (Some(Ok(Token::simple(TokenType::Slash))), i + 1)
            }
        },
        '"' => {
            let close = skip_to(chars, i + 1, '"');
            if close < chars.len() {
                let text = text_between(chars, i + 1, close);
                let token = Token { token_type: TokenType::String, literal: Some(Literal::String(text)) };
                (Some(Ok(token)), close + 1)
            } else {
                (Some(Err(LexErrorKind::UnterminatedString)), close)
            }
        },
        '0'..='9' => {
            let (end, dots) = numeral_run(chars, i);
            if dots <= 1 {
                let text = text_between(chars, i, end);
                let token = Token { token_type: TokenType::Number, literal: Some(Literal::Numeric(text)) };
                (Some(Ok(token)), end)
            } else {
                (Some(Err(LexErrorKind::MalformedNumber)), end)
            }
        },
        _ => {
            if c == '_' || is_alphabetic(c) {
                let end = word_run(chars, i);
                let kind = keyword_of(chars, i, end);
                if kind == TokenType::Identifier {
                    let text = text_between(chars, i, end);
                    let token = Token { token_type: kind, literal: Some(Literal::Identifier(text)) };
                    (Some(Ok(token)), end)
                } else {
                    (Some(Ok(Token::simple(kind))), end)
                }
            } else {
                (Some(Err(LexErrorKind::UnrecognizedCharacter)), i + 1)
            }
        },
    }
}

/// Scans `source` in one left-to-right pass. Every lexical error is
/// reported, in order, and scanning goes on after it; every token that was
/// recognised is kept, in order.
pub fn scan(source: &str) -> (r: Scan)
    ensures
        token_views(r.tokens@) == scan_spec(source@).0,
        r.errors@ == scan_spec(source@).1,
        forall|k: int|
            0 <= k < r.errors@.len() ==> #[trigger] r.errors@[k].start <= r.errors@[k].end
                <= source@.len(),
{
    let chars = chars_of(source);
    let ghost s = chars@;
    let mut tokens: Vec<Token> = Vec::new();
    let mut errors: Vec<LexError> = Vec::new();
    let mut i: usize = 0;
    while i < chars.len()
        invariant
            s == chars@,
            i <= chars.len(),
            token_views(tokens@) + scan_from(s, i as int).0 == scan_spec(s).0,
            errors@ + scan_from(s, i as int).1 == scan_spec(s).1,
            forall|k: int|
                0 <= k < errors@.len() ==> #[trigger] errors@[k].start <= errors@[k].end <= s.len(),
        decreases chars.len() - i,
    {
        let ghost before_tokens = token_views(tokens@);
        let ghost before_errors = errors@;
        let (outcome, end) = next_lexeme(&chars, i);
        let ghost rest = scan_from(s, end as int);
        match outcome {
            None => {},
            Some(Ok(t)) => {
                tokens.push(t);
                assert(token_views(tokens@) =~= before_tokens.push(t@));
                assert(token_views(tokens@) + rest.0 =~= before_tokens + (seq![t@] + rest.0));
            },
            Some(Err(kind)) => {
                let e = LexError { kind, start: i, end };
                errors.push(e);
                assert(errors@ + rest.1 =~= before_errors + (seq![e] + rest.1));
            },
        }
        i = end;
    }
    Scan { tokens, errors }
}

/// The message that describes a lexical error of `source`.
pub open spec fn error_message(source: Seq<char>, e: LexError) -> Seq<char> {
    let text = source.subrange(e.start as int, e.end as int);
    match e.kind {
        LexErrorKind::UnrecognizedCharacter => "unrecognized character '"@ + text + "'"@,
        LexErrorKind::UnterminatedString => "Unterminated string"@,
        LexErrorKind::MalformedNumber => "malformed number '"@ + text + "'"@,
    }
}

impl LexError {
    /// A message that names the error and quotes what it covers.
    pub fn describe(&self, source: &str) -> (r: String)
        requires
            self.start <= self.end <= source@.len(),
        ensures
            r@ == error_message(source@, *self),
    {
        match self.kind {
            LexErrorKind::UnrecognizedCharacter => {
                let text = source.substring_char(self.start, self.end);
                String::from_str("unrecognized character '").concat(text).concat("'")
            },
            LexErrorKind::UnterminatedString => String::from_str("Unterminated string"),
            LexErrorKind::MalformedNumber => {
                let text = source.substring_char(self.start, self.end);
                String::from_str("malformed number '").concat(text).concat("'")
            },
        }
    }
}

/// The messages of `errors`, one per line, in order.
pub open spec fn all_messages(source: Seq<char>, errors: Seq<LexError>) -> Seq<char>
    decreases errors.len(),
{
    if errors.len() == 0 {
        Seq::empty()
    } else if errors.len() == 1 {
        error_message(source, errors[0])
    } else {
        all_messages(source, errors.drop_last()) + "\n"@ + error_message(source, errors.last())
    }
}

/// Scans `source`: the tokens when there is no lexical error, else the
/// message of every error, one per line, in order. (`scan` keeps the
/// tokens alongside the errors.)
pub fn scan_tokens(source: String) -> (r: Result<Vec<Token>, String>)
    ensures
        match r {
            Ok(tokens) => scan_spec(source@).1.len() == 0 && token_views(tokens@) == scan_spec(
                source@,
            ).0,
            Err(message) => scan_spec(source@).1.len() > 0 && message@ == all_messages(
                source@,
                scan_spec(source@).1,
            ),
        },
{
    let text = source.as_str();
    let outcome = scan(text);
    let errors = &outcome.errors;
    if errors.len() == 0 {
        return Ok(outcome.tokens);
    }
    let mut message = errors[0].describe(text);
    assert(errors@.take(1) =~= seq![errors@[0]]);
    let mut k: usize = 1;
    while k < errors.len()
        invariant
            1 <= k <= errors.len(),
            errors@ == scan_spec(source@).1,
            text@ == source@,
            forall|m: int|
                0 <= m < errors@.len() ==> #[trigger] errors@[m].start <= errors@[m].end
                    <= source@.len(),
            message@ == all_messages(source@, errors@.take(k as int)),
        decreases errors.len() - k,
    {
        assert(errors@.take(k + 1).drop_last() =~= errors@.take(k as int));
        let line = errors[k].describe(text);
        message = message.concat("\n").concat(line.as_str());
        k += 1;
    }
    assert(errors@.take(errors.len() as int) =~= errors@);
    Err(message)
}

/// A source that is one single-character punctuation mark scans to exactly
/// one token of the matching kind, with no error.
pub proof fn lemma_single_punctuation(c: char)
    requires
        single_kind(c) is Some,
    ensures
        scan_spec(seq![c]) == (seq![plain(single_kind(c)->0)], Seq::<LexError>::empty()),
{
    let s = seq![c];
    assert(scan_from(s, 1) == (Seq::<TokenView>::empty(), Seq::<LexError>::empty()));
    assert(seq![plain(single_kind(c)->0)] + Seq::<TokenView>::empty() =~= seq![
        plain(single_kind(c)->0),
    ]);
}

/// The kind of the token that `c` followed by `=` makes.
pub open spec fn combined_kind(c: char) -> TokenType {
    let (_, with_eq) = pair_kinds(c)->0;
    with_eq
}

/// `!=`, `==`, `<=` and `>=` each scan to exactly one combined token, with
/// no error.
pub proof fn lemma_combined_operator(c: char)
    requires
        pair_kinds(c) is Some,
    ensures
        scan_spec(seq![c, '=']) == (seq![plain(combined_kind(c))], Seq::<LexError>::empty()),
{
    let s = seq![c, '='];
    assert(scan_from(s, 2) == (Seq::<TokenView>::empty(), Seq::<LexError>::empty()));
    assert(seq![plain(combined_kind(c))] + Seq::<TokenView>::empty() =~= seq![
        plain(combined_kind(c)),
    ]);
}

} // verus!
