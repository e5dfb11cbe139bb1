use std::collections::VecDeque;
use easy_prog::parser::{parse, parse_func_call, parse_expression, ParserErrorCode, Vector};
use easy_prog::types::{NodeType, Token, TokenType};

#[test]
fn test_hello_world() {
    let node = parse("print(\"Hello, World!\")").unwrap();
    assert_eq!(node.body.len(), 1);
    assert_eq!(node.body[0].as_call_func().name, "print");
    assert_eq!(node.body[0].as_call_func().args.len(), 1);
    assert_eq!(
        node.body[0].as_call_func().args[0]
            .as_str_const()
            .value
            .text,
        "Hello, World!"
    );
}

#[test]
fn test_nested_calls_round_trip() {
    let node = parse("set(\"x\", add(1, 2)), print(x)").unwrap();
    assert_eq!(node.body.len(), 2);
    let set_call = node.body[0].as_call_func();
    assert_eq!(set_call.name, "set");
    assert_eq!(set_call.args.len(), 2);
    assert_eq!(set_call.args[0].as_str_const().value.text, "x");
    let add_call = set_call.args[1].as_call_func();
    assert_eq!(add_call.name, "add");
    assert_eq!(add_call.args[0].as_int_const().value.number, 1);
    assert_eq!(add_call.args[1].as_int_const().value.number, 2);
    let print_call = node.body[1].as_call_func();
    assert_eq!(print_call.name, "print");
    assert_eq!(print_call.args[0].as_variable().name, "x");
}

#[test]
fn test_lambda_bodies() {
    let node = parse("if(1, {print(\"y\")})").unwrap();
    let if_call = node.body[0].as_call_func();
    assert_eq!(if_call.name, "if");
    assert_eq!(if_call.args[0].as_int_const().value.number, 1);
    assert_eq!(if_call.args[1].get_type(), NodeType::Sequence);
    let body = if_call.args[1].as_sequence();
    assert_eq!(body.body.len(), 1);
    assert_eq!(body.body[0].as_call_func().name, "print");
}

#[test]
fn test_node_positions_are_stamped() {
    let node = parse("print(\n  42)").unwrap();
    let call = node.body[0].as_call_func();
    assert_eq!((call.line, call.column), (1, 1));
    let arg = call.args[0].as_int_const();
    assert_eq!((arg.line, arg.column), (2, 3));
}

#[test]
fn test_empty_source_is_empty_token_list() {
    let error = parse("").unwrap_err();
    assert_eq!(error.code, ParserErrorCode::EmptyTokenList);
}

#[test]
fn test_lexer_failure_is_wrapped() {
    let error = parse("pri nt()").unwrap_err();
    assert_eq!(error.code, ParserErrorCode::Lexer);
    assert_eq!(error.line, 1);
    assert_eq!(error.column, 1);
    assert_eq!(error.description, "Unexpected type after identifier");
}

#[test]
fn test_integer_overflow_is_invalid_value() {
    let error = parse("f(99999999999999999999)").unwrap_err();
    assert_eq!(error.code, ParserErrorCode::InvalidValue);
    assert_eq!(error.description, "Integer value overflowed");
}

#[test]
fn test_minimum_integer_parses() {
    let node = parse("f(-9223372036854775808)").unwrap();
    let arg = node.body[0].as_call_func().args[0].as_int_const();
    assert_eq!(arg.value.number, i64::MIN);
}

#[test]
fn test_short_token_list() {
    let tokens = VecDeque::from(vec![Token::new(TokenType::Identifier, 1, 1, "f")]);
    let mut vector = Vector::new(tokens);
    let error = parse_func_call(&mut vector).unwrap_err();
    assert_eq!(error.code, ParserErrorCode::ShortTokenList);
}

#[test]
fn test_unexpected_token_type() {
    let tokens = VecDeque::from(vec![Token::new(TokenType::Comma, 1, 1, ",")]);
    let mut vector = Vector::new(tokens);
    let error = parse_expression(&mut vector).unwrap_err();
    assert_eq!(error.code, ParserErrorCode::UnexpectedType);
    assert_eq!(error.description, "Unexpected token type, expected expression");
}

#[test]
fn test_variable_versus_call_disambiguation() {
    let node = parse("f(x, g())").unwrap();
    let call = node.body[0].as_call_func();
    assert_eq!(call.args[0].get_type(), NodeType::Identifier);
    assert_eq!(call.args[1].get_type(), NodeType::CallFunc);
}
