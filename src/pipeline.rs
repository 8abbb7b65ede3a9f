use vstd::prelude::*;

use crate::expression::{
    at_operator, binary_rest, kind_at, parse, parse_binary, parse_expression,
    parse_primary, parse_spec, parse_unary, without_comments, Expression, ParseError,
};
use crate::interpreter::{eval, interpret, NumTerm, RuntimeError, Value, ValueView};
use crate::lexer::{
    dot_count, is_digit, is_numeral_char, lexeme_at, numeral_end, scan, scan_from, scan_spec,
    token_views, LexError,
};
use crate::token::{Literal, LiteralView, Token, TokenType, TokenView};

verus! {

/// Why a source produced no value: the stage that failed and its errors.
#[derive(Debug)]
pub enum Failure {
    Lex(Vec<LexError>),
    Parse(ParseError),
    Runtime(RuntimeError),
}

/// `r` is what parsing `toks` and evaluating the tree give.
pub open spec fn pipeline_agrees(toks: Seq<Token>, r: Result<Value, Failure>) -> bool {
    match parse_spec(toks) {
        Err(e) => r == Err::<Value, Failure>(Failure::Parse(e)),
        Ok(tree) => match eval(tree) {
            Err(x) => r == Err::<Value, Failure>(Failure::Runtime(x)),
            Ok(v) => r matches Ok(value) && value@ == v,
        },
    }
}

/// Runs the three stages on `source`: scanning (every lexical error is
/// reported), parsing and evaluation (each stops at its first error).
pub fn evaluate_source(source: &str) -> (r: Result<Value, Failure>)
    ensures
        scan_spec(source@).1.len() > 0 <==> r matches Err(Failure::Lex(_)),
        r matches Err(Failure::Lex(errors)) ==> errors@ == scan_spec(source@).1,
        scan_spec(source@).1.len() == 0 ==> exists|toks: Seq<Token>|
            token_views(toks) == scan_spec(source@).0 && #[trigger] pipeline_agrees(toks, r),
{
    let scanned = scan(source);
    if scanned.errors.len() > 0 {
        return Err(Failure::Lex(scanned.errors));
    }
    let ghost toks = scanned.tokens@;
    let tree = match parse(scanned.tokens) {
        Ok(tree) => tree,
        Err(e) => {
            let r = Err(Failure::Parse(e));
            assert(pipeline_agrees(toks, r));
            return r;
        },
    };
    let r = match interpret(&tree) {
        Ok(v) => Ok(v),
        Err(x) => Err(Failure::Runtime(x)),
    };
    assert(pipeline_agrees(toks, r));
    r
}

// ---------------------------------------------------------------------------
// Laws
// ---------------------------------------------------------------------------

/// A numeral: a digit, then digits with at most one decimal point.
pub open spec fn is_decimal_numeral(n: Seq<char>) -> bool {
    &&& n.len() > 0
    &&& is_digit(n[0])
    &&& forall|k: int| 0 <= k < n.len() ==> is_numeral_char(#[trigger] n[k])
    &&& dot_count(n) <= 1
}

proof fn lemma_numeral_run_to_end(n: Seq<char>, i: int)
    requires
        0 <= i <= n.len(),
        forall|k: int| 0 <= k < n.len() ==> is_numeral_char(#[trigger] n[k]),
    ensures
        numeral_end(n, i) == n.len(),
    decreases n.len() - i,
{
    if i < n.len() {
        lemma_numeral_run_to_end(n, i + 1);
    }
}

/// A numeral on its own scans to one number token that holds it as
/// written, parses to a leaf, and evaluates to that very numeral: the value
/// is what a float parser reads from the numeral itself.
pub proof fn lemma_numeral_round_trip(n: Seq<char>, toks: Seq<Token>)
    requires
        is_decimal_numeral(n),
    ensures
        scan_spec(n) == (
            seq![TokenView { token_type: TokenType::Number, literal: Some(LiteralView::Numeric(n)) }],
            Seq::<LexError>::empty(),
        ),
        token_views(toks) == scan_spec(n).0 ==> (parse_spec(toks) matches Ok(tree) && (eval(
            tree,
        ) matches Ok(ValueView::Number(NumTerm::Numeral(s))) && s@ == n)),
{
    let tv = TokenView { token_type: TokenType::Number, literal: Some(LiteralView::Numeric(n)) };
    lemma_numeral_run_to_end(n, 0);
    assert(n.subrange(0, n.len() as int) =~= n);
    assert(lexeme_at(n, 0) == (Some(Ok::<TokenView, crate::lexer::LexErrorKind>(tv)), n.len() as int));
    assert(scan_from(n, n.len() as int) == (Seq::<TokenView>::empty(), Seq::<LexError>::empty()));
    assert(seq![tv] + Seq::<TokenView>::empty() =~= seq![tv]);
    if token_views(toks) == scan_spec(n).0 {
        assert(scan_spec(n).0 == seq![tv]);
        assert(toks.len() == 1);
        assert(token_views(toks)[0] == toks[0]@);
        assert(toks[0]@ == tv);
        let t = toks[0];
        let s = match t.literal {
            Some(Literal::Numeric(s)) => s,
            _ => arbitrary(),
        };
        assert(t.literal == Some(Literal::Numeric(s)));
        assert(toks.drop_last() =~= Seq::<Token>::empty());
        assert(without_comments(toks.drop_last()) == Seq::<Token>::empty());
        assert(without_comments(toks) =~= toks);
        let leaf = Expression::Literal(t);
        assert(parse_primary(toks, 0) == Ok::<(Expression, int), ParseError>((leaf, 1)));
        assert(parse_unary(toks, 0) == Ok::<(Expression, int), ParseError>((leaf, 1)));
        assert(!at_operator(toks, 1, 3));
        assert(binary_rest(toks, 3, leaf, 1) == Ok::<(Expression, int), ParseError>((leaf, 1)));
        assert(parse_binary(toks, 0, 3) == Ok::<(Expression, int), ParseError>((leaf, 1)));
        assert(binary_rest(toks, 2, leaf, 1) == Ok::<(Expression, int), ParseError>((leaf, 1)));
        assert(parse_binary(toks, 0, 2) == Ok::<(Expression, int), ParseError>((leaf, 1)));
        assert(binary_rest(toks, 1, leaf, 1) == Ok::<(Expression, int), ParseError>((leaf, 1)));
        assert(parse_binary(toks, 0, 1) == Ok::<(Expression, int), ParseError>((leaf, 1)));
        assert(binary_rest(toks, 0, leaf, 1) == Ok::<(Expression, int), ParseError>((leaf, 1)));
        assert(parse_expression(toks, 0) == Ok::<(Expression, int), ParseError>((leaf, 1)));
        assert(kind_at(toks, 1) == TokenType::Eof);
        assert(parse_spec(toks) == Ok::<Expression, ParseError>(leaf));
        assert(eval(leaf) == Ok::<ValueView, RuntimeError>(ValueView::Number(NumTerm::Numeral(s))));
    }
}

} // verus!
