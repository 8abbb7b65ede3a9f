use vstd::prelude::*;
use vstd::string::StringExecFns;

use crate::expression::Expression;
use crate::token::{Literal, Token, TokenType};

verus! {

/// An arithmetic operator.
#[derive(Debug, Clone, Copy, PartialEq, Eq, Structural)]
pub enum ArithOp {
    Add,
    Subtract,
    Multiply,
    Divide,
}

/// An ordering comparison.
#[derive(Debug, Clone, Copy, PartialEq, Eq, Structural)]
pub enum CompareOp {
    Greater,
    GreaterEqual,
    Less,
    LessEqual,
}

/// A number, as the exact arithmetic over numerals that yields it. A host
/// reads each numeral as a 64-bit float and applies the operators with
/// IEEE-754 semantics.
#[derive(Debug, PartialEq)]
pub enum NumTerm {
    Numeral(String),
    Negate(Box<NumTerm>),
    Arith { op: ArithOp, left: Box<NumTerm>, right: Box<NumTerm> },
}

/// A truth value: known outright, or the outcome of comparing numbers.
#[derive(Debug, PartialEq)]
pub enum BoolTerm {
    Known(bool),
    Compare { op: CompareOp, left: Box<NumTerm>, right: Box<NumTerm> },
    /// Float equality of two numbers.
    NumEqual(Box<NumTerm>, Box<NumTerm>),
    Not(Box<BoolTerm>),
    /// Whether two truth values are the same.
    Same(Box<BoolTerm>, Box<BoolTerm>),
}

/// A runtime value.
#[derive(Debug, PartialEq)]
pub enum Value {
    Number(NumTerm),
    String(String),
    Boolean(BoolTerm),
    Nil,
}

/// The mathematical content of a value.
pub enum ValueView {
    Number(NumTerm),
    String(Seq<char>),
    Boolean(BoolTerm),
    Nil,
}

impl View for Value {
    type V = ValueView;

    open spec fn view(&self) -> ValueView {
        match self {
            Value::Number(n) => ValueView::Number(*n),
            Value::String(s) => ValueView::String(s@),
            Value::Boolean(b) => ValueView::Boolean(*b),
            Value::Nil => ValueView::Nil,
        }
    }
}

/// The operand types that an operator asked for and did not get.
#[derive(Debug, Clone, Copy, PartialEq, Eq, Structural)]
pub enum Requirement {
    Number,
    TwoNumbers,
    TwoNumbersOrStrings,
}

/// The one runtime error: an operator applied to operands of the wrong type.
#[derive(Debug, Clone, Copy, PartialEq, Eq, Structural)]
pub enum RuntimeError {
    TypeMismatch { operator: TokenType, requirement: Requirement },
}

// ---------------------------------------------------------------------------
// Semantics
// ---------------------------------------------------------------------------

/// The negation of a truth value; a known one is negated outright.
pub open spec fn negate(b: BoolTerm) -> BoolTerm {
    match b {
        BoolTerm::Known(x) => BoolTerm::Known(!x),
        _ => BoolTerm::Not(Box::new(b)),
    }
}

/// Truthiness: `nil` and `false` are falsy, every other value is truthy.
pub open spec fn truth(v: ValueView) -> BoolTerm {
    match v {
        ValueView::Nil => BoolTerm::Known(false),
        ValueView::Boolean(b) => b,
        _ => BoolTerm::Known(true),
    }
}

/// Equality of two values: values of different kinds are never equal.
pub open spec fn equality(l: ValueView, r: ValueView) -> BoolTerm {
    match (l, r) {
        (ValueView::Number(a), ValueView::Number(b)) => BoolTerm::NumEqual(Box::new(a), Box::new(b)),
        (ValueView::String(a), ValueView::String(b)) => BoolTerm::Known(a == b),
        (ValueView::Boolean(a), ValueView::Boolean(b)) => match (a, b) {
            (BoolTerm::Known(x), BoolTerm::Known(y)) => BoolTerm::Known(x == y),
            _ => BoolTerm::Same(Box::new(a), Box::new(b)),
        },
        (ValueView::Nil, ValueView::Nil) => BoolTerm::Known(true),
        _ => BoolTerm::Known(false),
    }
}

pub open spec fn mismatch(operator: TokenType, requirement: Requirement) -> Result<
    ValueView,
    RuntimeError,
> {
    Err(RuntimeError::TypeMismatch { operator, requirement })
}

pub open spec fn arith_op(k: TokenType) -> ArithOp {
    if k == TokenType::Plus {
        ArithOp::Add
    } else if k == TokenType::Minus {
        ArithOp::Subtract
    } else if k == TokenType::Star {
        ArithOp::Multiply
    } else {
        ArithOp::Divide
    }
}

pub open spec fn compare_op(k: TokenType) -> CompareOp {
    if k == TokenType::Greater {
        CompareOp::Greater
    } else if k == TokenType::GreaterEqual {
        CompareOp::GreaterEqual
    } else if k == TokenType::Less {
        CompareOp::Less
    } else {
        CompareOp::LessEqual
    }
}

/// The value of a literal token.
pub open spec fn literal_value(t: Token) -> ValueView {
    match t.literal {
        Some(Literal::Numeric(s)) if t.token_type == TokenType::Number => ValueView::Number(
            NumTerm::Numeral(s),
        ),
        Some(Literal::String(s)) if t.token_type == TokenType::String => ValueView::String(s@),
        _ => if t.token_type == TokenType::True {
            ValueView::Boolean(BoolTerm::Known(true))
        } else if t.token_type == TokenType::False {
            ValueView::Boolean(BoolTerm::Known(false))
        } else {
            ValueView::Nil
        },
    }
}

/// A unary operator applied to the value of its operand.
pub open spec fn apply_unary(op: TokenType, v: ValueView) -> Result<ValueView, RuntimeError> {
    if op == TokenType::Minus {
        match v {
            ValueView::Number(n) => Ok(ValueView::Number(NumTerm::Negate(Box::new(n)))),
            _ => mismatch(op, Requirement::Number),
        }
    } else {
        Ok(ValueView::Boolean(negate(truth(v))))
    }
}

/// A binary operator applied to the values of its operands.
pub open spec fn apply_binary(op: TokenType, l: ValueView, r: ValueView) -> Result<
    ValueView,
    RuntimeError,
> {
    if op == TokenType::EqualEqual {
        Ok(ValueView::Boolean(equality(l, r)))
    } else if op == TokenType::BangEqual {
        Ok(ValueView::Boolean(negate(equality(l, r))))
    } else if op == TokenType::Plus {
        match (l, r) {
            (ValueView::Number(a), ValueView::Number(b)) => Ok(
                ValueView::Number(
                    NumTerm::Arith { op: ArithOp::Add, left: Box::new(a), right: Box::new(b) },
                ),
            ),
            (ValueView::String(a), ValueView::String(b)) => Ok(ValueView::String(a + b)),
            _ => mismatch(op, Requirement::TwoNumbersOrStrings),
        }
    } else if op == TokenType::Minus || op == TokenType::Star || op == TokenType::Slash {
        match (l, r) {
            (ValueView::Number(a), ValueView::Number(b)) => Ok(
                ValueView::Number(
                    NumTerm::Arith { op: arith_op(op), left: Box::new(a), right: Box::new(b) },
                ),
            ),
            _ => mismatch(op, Requirement::TwoNumbers),
        }
    } else {
        match (l, r) {
            (ValueView::Number(a), ValueView::Number(b)) => Ok(
                ValueView::Boolean(
                    BoolTerm::Compare { op: compare_op(op), left: Box::new(a), right: Box::new(b) },
                ),
            ),
            _ => mismatch(op, Requirement::TwoNumbers),
        }
    }
}

/// The value of a tree: children first, left before right, and the first
/// error ends the walk.
pub open spec fn eval(e: Expression) -> Result<ValueView, RuntimeError>
    decreases e,
{
    match e {
        Expression::Literal(t) => Ok(literal_value(t)),
        Expression::Grouping(inner) => eval(*inner),
        Expression::Unary { operator, right } => match eval(*right) {
            Err(x) => Err(x),
            Ok(v) => apply_unary(operator.token_type, v),
        },
        Expression::Binary { left, operator, right } => match eval(*left) {
            Err(x) => Err(x),
            Ok(l) => match eval(*right) {
                Err(x) => Err(x),
                Ok(r) => apply_binary(operator.token_type, l, r),
            },
        },
    }
}

/// Evaluation has no hidden state: two evaluations of the same tree, each
/// meeting the contract of `interpret`, give the same result.
pub proof fn lemma_evaluation_repeatable(
    tree: Expression,
    first: Result<Value, RuntimeError>,
    second: Result<Value, RuntimeError>,
)
    requires
        result_view(first) == eval(tree),
        result_view(second) == eval(tree),
    ensures
        result_view(first) == result_view(second),
{
}

pub open spec fn result_view(r: Result<Value, RuntimeError>) -> Result<ValueView, RuntimeError> {
    match r {
        Ok(v) => Ok(v@),
        Err(x) => Err(x),
    }
}

// ---------------------------------------------------------------------------
// Evaluation
// ---------------------------------------------------------------------------

fn negate_term(b: BoolTerm) -> (r: BoolTerm)
    ensures
        r == negate(b),
{
    match b {
        BoolTerm::Known(x) => BoolTerm::Known(!x),
        other => BoolTerm::Not(Box::new(other)),
    }
}

fn truth_of(v: Value) -> (r: BoolTerm)
    ensures
        r == truth(v@),
{
    match v {
        Value::Nil => BoolTerm::Known(false),
        Value::Boolean(b) => b,
        _ => BoolTerm::Known(true),
    }
}

fn equality_of(l: Value, r: Value) -> (b: BoolTerm)
    ensures
        b == equality(l@, r@),
{
    match (l, r) {
        (Value::Number(a), Value::Number(b)) => BoolTerm::NumEqual(Box::new(a), Box::new(b)),
        (Value::String(a), Value::String(b)) => BoolTerm::Known(a == b),
        (Value::Boolean(a), Value::Boolean(b)) => match (a, b) {
            (BoolTerm::Known(x), BoolTerm::Known(y)) => BoolTerm::Known(x == y),
            (a, b) => BoolTerm::Same(Box::new(a), Box::new(b)),
        },
        (Value::Nil, Value::Nil) => BoolTerm::Known(true),
        _ => BoolTerm::Known(false),
    }
}

fn literal_of(t: &Token) -> (v: Value)
    ensures
        v@ == literal_value(*t),
{
    match &t.literal {
        Some(Literal::Numeric(s)) if t.token_type == TokenType::Number => Value::Number(
            NumTerm::Numeral(s.clone()),
        ),
        Some(Literal::String(s)) if t.token_type == TokenType::String => Value::String(s.clone()),
        _ => if t.token_type == TokenType::True {
            Value::Boolean(BoolTerm::Known(true))
        } else if t.token_type == TokenType::False {
            Value::Boolean(BoolTerm::Known(false))
        } else {
            Value::Nil
        },
    }
}

fn unary_value(op: TokenType, v: Value) -> (r: Result<Value, RuntimeError>)
    ensures
        result_view(r) == apply_unary(op, v@),
{
    if op == TokenType::Minus {
        match v {
            Value::Number(n) => Ok(Value::Number(NumTerm::Negate(Box::new(n)))),
            _ => Err(RuntimeError::TypeMismatch { operator: op, requirement: Requirement::Number }),
        }
    } else {
        Ok(Value::Boolean(negate_term(truth_of(v))))
    }
}

fn binary_value(op: TokenType, l: Value, r: Value) -> (res: Result<Value, RuntimeError>)
    ensures
        result_view(res) == apply_binary(op, l@, r@),
{
    if op == TokenType::EqualEqual {
        Ok(Value::Boolean(equality_of(l, r)))
    } else if op == TokenType::BangEqual {
        Ok(Value::Boolean(negate_term(equality_of(l, r))))
    } else if op == TokenType::Plus {
        match (l, r) {
            (Value::Number(a), Value::Number(b)) => Ok(
                Value::Number(
                    NumTerm::Arith { op: ArithOp::Add, left: Box::new(a), right: Box::new(b) },
                ),
            ),
            (Value::String(a), Value::String(b)) => Ok(Value::String(a.concat(b.as_str()))),
            _ => Err(
                RuntimeError::TypeMismatch {
                    operator: op,
                    requirement: Requirement::TwoNumbersOrStrings,
                },
            ),
        }
    } else if op == TokenType::Minus || op == TokenType::Star || op == TokenType::Slash {
        let arith = if op == TokenType::Minus {
            ArithOp::Subtract
        } else if op == TokenType::Star {
            ArithOp::Multiply
        } else {
            ArithOp::Divide
        };
        match (l, r) {
            (Value::Number(a), Value::Number(b)) => Ok(
                Value::Number(NumTerm::Arith { op: arith, left: Box::new(a), right: Box::new(b) }),
            ),
            _ => Err(
                RuntimeError::TypeMismatch { operator: op, requirement: Requirement::TwoNumbers },
            ),
        }
    } else {
        let compare = if op == TokenType::Greater {
            CompareOp::Greater
        } else if op == TokenType::GreaterEqual {
            CompareOp::GreaterEqual
        } else if op == TokenType::Less {
            CompareOp::Less
        } else {
            CompareOp::LessEqual
        };
        match (l, r) {
            (Value::Number(a), Value::Number(b)) => Ok(
                Value::Boolean(
                    BoolTerm::Compare { op: compare, left: Box::new(a), right: Box::new(b) },
                ),
            ),
            _ => Err(
                RuntimeError::TypeMismatch { operator: op, requirement: Requirement::TwoNumbers },
            ),
        }
    }
}

/// Evaluates a well-formed tree (as the parser builds them): children
/// first, the left operand before the right, and the first type mismatch
/// ends the walk.
pub fn interpret(tree: &Expression) -> (r: Result<Value, RuntimeError>)
    requires
        tree.well_formed(),
    ensures
        result_view(r) == eval(*tree),
    decreases tree,
{
    match tree {
        Expression::Literal(t) => Ok(literal_of(t)),
        Expression::Grouping(inner) => interpret(inner),
        Expression::Unary { operator, right } => match interpret(right) {
            Ok(v) => unary_value(operator.token_type, v),
            Err(x) => Err(x),
        },
        Expression::Binary { left, operator, right } => {
            let l = match interpret(left) {
                Ok(v) => v,
                Err(x) => return Err(x),
            };
            match interpret(right) {
                Ok(r) => binary_value(operator.token_type, l, r),
                Err(x) => Err(x),
            }
        },
    }
}

// ---------------------------------------------------------------------------
// Messages
// ---------------------------------------------------------------------------

/// How an operator is written.
pub open spec fn operator_text(k: TokenType) -> Seq<char> {
    match k {
        TokenType::Minus => "-"@,
        TokenType::Plus => "+"@,
        TokenType::Star => "*"@,
        TokenType::Slash => "/"@,
        TokenType::Bang => "!"@,
        TokenType::BangEqual => "!="@,
        TokenType::EqualEqual => "=="@,
        TokenType::Greater => ">"@,
        TokenType::GreaterEqual => ">="@,
        TokenType::Less => "<"@,
        TokenType::LessEqual => "<="@,
        _ => "operator"@,
    }
}

pub open spec fn requirement_text(r: Requirement) -> Seq<char> {
    match r {
        Requirement::Number => " requires a number"@,
        Requirement::TwoNumbers => " requires two numbers"@,
        Requirement::TwoNumbersOrStrings => " requires two numbers or two strings"@,
    }
}

fn operator_str(k: TokenType) -> (r: &'static str)
    ensures
        r@ == operator_text(k),
{
    match k {
        TokenType::Minus => "-",
        TokenType::Plus => "+",
        TokenType::Star => "*",
        TokenType::Slash => "/",
        TokenType::Bang => "!",
        TokenType::BangEqual => "!=",
        TokenType::EqualEqual => "==",
        TokenType::Greater => ">",
        TokenType::GreaterEqual => ">=",
        TokenType::Less => "<",
        TokenType::LessEqual => "<=",
        _ => "operator",
    }
}

impl RuntimeError {
    /// The operator and the type constraint it needed, such as
    /// `- requires a number`.
    pub fn message(&self) -> (r: String)
        ensures
            match *self {
                RuntimeError::TypeMismatch { operator, requirement } => r@ == operator_text(operator)
                    + requirement_text(requirement),
            },
    {
        match self {
            RuntimeError::TypeMismatch { operator, requirement } => {
                let tail = match requirement {
                    Requirement::Number => " requires a number",
                    Requirement::TwoNumbers => " requires two numbers",
                    Requirement::TwoNumbersOrStrings => " requires two numbers or two strings",
                };
                String::from_str(operator_str(*operator)).concat(tail)
            },
        }
    }
}

} // verus!
