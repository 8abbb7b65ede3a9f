use lox::{
    evaluate_source, interpret, parse, scan_tokens, ArithOp, BoolTerm, CompareOp, Failure,
    LexErrorKind, NumTerm, ParseErrorKind, Requirement, RuntimeError, TokenType, Value,
};

/// The float that a numeric term denotes.
fn number(t: &NumTerm) -> f64 {
    match t {
        NumTerm::Numeral(text) => text.parse::<f64>().unwrap(),
        NumTerm::Negate(inner) => -number(inner),
        NumTerm::Arith { op, left, right } => {
            let (a, b) = (number(left), number(right));
            match op {
                ArithOp::Add => a + b,
                ArithOp::Subtract => a - b,
                ArithOp::Multiply => a * b,
                ArithOp::Divide => a / b,
            }
        }
    }
}

/// The truth value that a boolean term denotes.
fn truth(t: &BoolTerm) -> bool {
    match t {
        BoolTerm::Known(b) => *b,
        BoolTerm::Compare { op, left, right } => {
            let (a, b) = (number(left), number(right));
            match op {
                CompareOp::Greater => a > b,
                CompareOp::GreaterEqual => a >= b,
                CompareOp::Less => a < b,
                CompareOp::LessEqual => a <= b,
            }
        }
        BoolTerm::NumEqual(left, right) => number(left) == number(right),
        BoolTerm::Not(inner) => !truth(inner),
        BoolTerm::Same(left, right) => truth(left) == truth(right),
    }
}

fn eval(source: &str) -> Result<Value, RuntimeError> {
    let tree = parse(scan_tokens(String::from(source)).unwrap()).unwrap();
    interpret(&tree)
}

fn eval_number(source: &str) -> f64 {
    match eval(source) {
        Ok(Value::Number(n)) => number(&n),
        other => panic!("not a number: {:?}", other),
    }
}

fn eval_bool(source: &str) -> bool {
    match eval(source) {
        Ok(Value::Boolean(b)) => truth(&b),
        other => panic!("not a boolean: {:?}", other),
    }
}

fn mismatch(source: &str) -> RuntimeError {
    eval(source).unwrap_err()
}

#[test]
fn one_plus_two_is_three() {
    assert_eq!(eval_number("1 + 2"), 3.0);
}

#[test]
fn grouping_overrides_precedence() {
    assert_eq!(eval_number("2 * (3 + 4)"), 14.0);
    assert_eq!(eval_number("2 * 3 + 4"), 10.0);
}

#[test]
fn strings_concatenate() {
    assert_eq!(eval("\"a\" + \"b\""), Ok(Value::String(String::from("ab"))));
}

#[test]
fn string_plus_number_is_a_type_mismatch() {
    let err = mismatch("\"a\" + 1");
    assert_eq!(
        err,
        RuntimeError::TypeMismatch {
            operator: TokenType::Plus,
            requirement: Requirement::TwoNumbersOrStrings
        }
    );
    assert_eq!(err.message(), "+ requires two numbers or two strings");
}

#[test]
fn negation_and_not() {
    assert_eq!(eval_number("-5"), -5.0);
    assert_eq!(eval("!true"), Ok(Value::Boolean(BoolTerm::Known(false))));
    assert_eq!(eval("!nil"), Ok(Value::Boolean(BoolTerm::Known(true))));
    assert_eq!(eval("--5").map(|v| matches!(v, Value::Number(_))), Ok(true));
    assert_eq!(eval_number("--5"), 5.0);
}

#[test]
fn truthiness_of_numbers_and_strings() {
    assert_eq!(eval("!0"), Ok(Value::Boolean(BoolTerm::Known(false))));
    assert_eq!(eval("!\"\""), Ok(Value::Boolean(BoolTerm::Known(false))));
    assert!(!eval_bool("!(1 < 2)"));
    assert!(eval_bool("!!(1 < 2)"));
}

#[test]
fn negating_a_non_number_is_a_type_mismatch() {
    let err = mismatch("-\"a\"");
    assert_eq!(
        err,
        RuntimeError::TypeMismatch {
            operator: TokenType::Minus,
            requirement: Requirement::Number
        }
    );
    assert_eq!(err.message(), "- requires a number");
    assert_eq!(mismatch("-nil").message(), "- requires a number");
}

#[test]
fn arithmetic_and_comparison_need_numbers() {
    for (source, operator, text) in [
        ("1 - \"a\"", TokenType::Minus, "- requires two numbers"),
        ("true * 2", TokenType::Star, "* requires two numbers"),
        ("nil / 2", TokenType::Slash, "/ requires two numbers"),
        ("1 > \"a\"", TokenType::Greater, "> requires two numbers"),
        ("1 >= nil", TokenType::GreaterEqual, ">= requires two numbers"),
        ("\"a\" < \"b\"", TokenType::Less, "< requires two numbers"),
        ("true <= 1", TokenType::LessEqual, "<= requires two numbers"),
    ] {
        let err = mismatch(source);
        assert_eq!(
            err,
            RuntimeError::TypeMismatch {
                operator,
                requirement: Requirement::TwoNumbers
            }
        );
        assert_eq!(err.message(), text);
    }
}

#[test]
fn arithmetic_results() {
    assert_eq!(eval_number("7 - 2 - 1"), 4.0);
    assert_eq!(eval_number("8 / 2 / 2"), 2.0);
    assert_eq!(eval_number("1.5 * 4"), 6.0);
}

#[test]
fn division_by_zero_follows_ieee() {
    assert_eq!(eval_number("1 / 0"), f64::INFINITY);
    assert_eq!(eval_number("-1 / 0"), f64::NEG_INFINITY);
    assert!(eval_number("0 / 0").is_nan());
    assert!(!eval_bool("0 / 0 == 0 / 0"));
}

#[test]
fn comparisons() {
    assert!(eval_bool("1 < 2"));
    assert!(eval_bool("2 <= 2"));
    assert!(!eval_bool("1 > 2"));
    assert!(eval_bool("3 >= 2.5"));
}

#[test]
fn equality_across_kinds() {
    assert!(eval_bool("1 == 1.0"));
    assert_eq!(eval("1 == \"1\""), Ok(Value::Boolean(BoolTerm::Known(false))));
    assert_eq!(eval("nil == nil"), Ok(Value::Boolean(BoolTerm::Known(true))));
    assert_eq!(eval("nil == true"), Ok(Value::Boolean(BoolTerm::Known(false))));
    assert_eq!(eval("\"a\" == \"a\""), Ok(Value::Boolean(BoolTerm::Known(true))));
    assert_eq!(eval("\"a\" != \"b\""), Ok(Value::Boolean(BoolTerm::Known(true))));
    assert_eq!(eval("true == true"), Ok(Value::Boolean(BoolTerm::Known(true))));
    assert!(eval_bool("(1 < 2) == true"));
    assert!(eval_bool("1 != 2"));
}

#[test]
fn the_left_operand_fails_first() {
    assert_eq!(
        mismatch("-nil + (1 < \"a\")"),
        RuntimeError::TypeMismatch {
            operator: TokenType::Minus,
            requirement: Requirement::Number
        }
    );
}

#[test]
fn evaluating_twice_gives_the_same_value() {
    let tree = parse(scan_tokens(String::from("(1 + 2) * 3 == 9 != !nil")).unwrap()).unwrap();
    let first = interpret(&tree);
    let second = interpret(&tree);
    assert_eq!(first, second);
    let tree = parse(scan_tokens(String::from("\"x\" + \"y\"")).unwrap()).unwrap();
    assert_eq!(interpret(&tree), interpret(&tree));
}

#[test]
fn numerals_round_trip_to_the_float_parser() {
    for text in ["0", "7", "42", "3.25", "6.78", "0.1", "2348923409", "23433434.1233456"] {
        assert_eq!(eval_number(text).to_bits(), text.parse::<f64>().unwrap().to_bits());
        assert_eq!(
            eval(text),
            Ok(Value::Number(NumTerm::Numeral(String::from(text))))
        );
    }
}

#[test]
fn the_pipeline_reports_each_stage() {
    match evaluate_source("1 + 2") {
        Ok(Value::Number(n)) => assert_eq!(number(&n), 3.0),
        other => panic!("unexpected: {:?}", other),
    }
    match evaluate_source("1 ? 2 @") {
        Err(Failure::Lex(errors)) => {
            assert_eq!(errors.len(), 2);
            assert!(errors.iter().all(|e| e.kind == LexErrorKind::UnrecognizedCharacter));
        }
        other => panic!("unexpected: {:?}", other),
    }
    match evaluate_source("(1 + 2") {
        Err(Failure::Parse(e)) => assert_eq!(e.kind, ParseErrorKind::MissingClosingParen),
        other => panic!("unexpected: {:?}", other),
    }
    match evaluate_source("\"a\" + 1") {
        Err(Failure::Runtime(e)) => assert_eq!(
            e,
            RuntimeError::TypeMismatch {
                operator: TokenType::Plus,
                requirement: Requirement::TwoNumbersOrStrings
            }
        ),
        other => panic!("unexpected: {:?}", other),
    }
}
