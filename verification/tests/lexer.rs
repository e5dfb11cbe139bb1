use easy_prog::lexer::{to_tokens, LexerError};
use easy_prog::types::{Token, TokenType};

fn vec_cmp<T: std::cmp::PartialEq>(vec1: &Vec<T>, vec2: &Vec<T>) -> bool {
    let len = vec1.len();

    if len != vec2.len() {
        return false;
    }

    let mut i: usize = 0;

    while i < len {
        if vec1[i] != vec2[i] {
            return false;
        }

        i += 1;
    }

    return true;
}

fn check_tokens(code: &str, expected: Vec<Token>) {
    let tokens = to_tokens(code).unwrap();
    let result = vec_cmp(&tokens, &expected);

    if !result {
        println!("{:?}", tokens);
    }

    assert!(result);
}

#[test]
fn test_print() {
    check_tokens(
        "print()",
        vec![
            Token::new(TokenType::Identifier, 1, 1, "print"),
            Token::new(TokenType::Lparen, 1, 6, "("),
            Token::new(TokenType::Rparen, 1, 7, ")"),
        ],
    );
    check_tokens(
        "print(123)",
        vec![
            Token::new(TokenType::Identifier, 1, 1, "print"),
            Token::new(TokenType::Lparen, 1, 6, "("),
            Token::new(TokenType::Number, 1, 7, "123"),
            Token::new(TokenType::Rparen, 1, 10, ")"),
        ],
    );
    check_tokens(
        "print(\"Hello, World!\")",
        vec![
            Token::new(TokenType::Identifier, 1, 1, "print"),
            Token::new(TokenType::Lparen, 1, 6, "("),
            Token::new(TokenType::String, 1, 7, "Hello, World!"),
            Token::new(TokenType::Rparen, 1, 22, ")"),
        ],
    );
    check_tokens(
        "print  \t\n ( 5,4,  1     ,print\t)\n",
        vec![
            Token::new(TokenType::Identifier, 1, 1, "print"),
            Token::new(TokenType::Lparen, 2, 2, "("),
            Token::new(TokenType::Number, 2, 4, "5"),
            Token::new(TokenType::Comma, 2, 5, ","),
            Token::new(TokenType::Number, 2, 6, "4"),
            Token::new(TokenType::Comma, 2, 7, ","),
            Token::new(TokenType::Number, 2, 10, "1"),
            Token::new(TokenType::Comma, 2, 16, ","),
            Token::new(TokenType::Identifier, 2, 17, "print"),
            Token::new(TokenType::Rparen, 2, 23, ")"),
        ],
    );
}

#[test]
fn test_print_error() {
    let error = to_tokens("pri nt()").unwrap_err();
    assert_eq!(
        error,
        LexerError {
            line: 1,
            column: 1,
            description: "Unexpected type after identifier".to_string(),
        }
    );
}

#[test]
fn test_comments() {
    check_tokens(
        "print() # Does nothing",
        vec![
            Token::new(TokenType::Identifier, 1, 1, "print"),
            Token::new(TokenType::Lparen, 1, 6, "("),
            Token::new(TokenType::Rparen, 1, 7, ")"),
        ],
    );
    check_tokens(
        "## print() ## print()",
        vec![
            Token::new(TokenType::Identifier, 1, 15, "print"),
            Token::new(TokenType::Lparen, 1, 20, "("),
            Token::new(TokenType::Rparen, 1, 21, ")"),
        ],
    );
    check_tokens(
        "# Comment\nprint()",
        vec![
            Token::new(TokenType::Identifier, 2, 1, "print"),
            Token::new(TokenType::Lparen, 2, 6, "("),
            Token::new(TokenType::Rparen, 2, 7, ")"),
        ],
    );
    check_tokens(
        "## Comment\nprint() ##print()",
        vec![
            Token::new(TokenType::Identifier, 2, 11, "print"),
            Token::new(TokenType::Lparen, 2, 16, "("),
            Token::new(TokenType::Rparen, 2, 17, ")"),
        ],
    );
}

#[test]
fn test_lexing_twice_is_identical() {
    let first = to_tokens("set(\"x\", add(1, 2)), print(x)").unwrap();
    let second = to_tokens("set(\"x\", add(1, 2)), print(x)").unwrap();
    assert_eq!(first, second);
}

#[test]
fn test_mismatched_brackets_rejected() {
    let error = to_tokens("f(}").unwrap_err();
    assert_eq!(error.line, 1);
    assert_eq!(error.column, 3);
    assert_eq!(error.description, "Unclosed bracket in line 1 column 2");
}

#[test]
fn test_unbalanced_closer_rejected() {
    let error = to_tokens("f),").unwrap_err();
    assert_eq!(error.description, "Unexpected closing bracket");
}

#[test]
fn test_unterminated_paren_names_opener() {
    let error = to_tokens("print(").unwrap_err();
    assert_eq!(error.line, 1);
    assert_eq!(error.column, 6);
    assert_eq!(error.description, "Unterminated left parentheses (')')");
}

#[test]
fn test_number_adjacency_rejected() {
    let error = to_tokens("f(1 2)").unwrap_err();
    assert_eq!(error.description, "Unexpected type after number");
}

#[test]
fn test_string_adjacency_rejected() {
    let error = to_tokens("f(\"a\" x)").unwrap_err();
    assert_eq!(error.description, "Unexpected type after string");
}

#[test]
fn test_unterminated_string() {
    let error = to_tokens("print(\"oops)").unwrap_err();
    assert_eq!(error.line, 1);
    assert_eq!(error.column, 7);
    assert_eq!(error.description, "Unterminated string literal");
}

#[test]
fn test_first_token_must_be_identifier() {
    let error = to_tokens("5()").unwrap_err();
    assert_eq!(error.line, 1);
    assert_eq!(error.column, 1);
    assert_eq!(error.description, "First element should be identifier");
}

#[test]
fn test_negative_number_token() {
    let tokens = to_tokens("f(-42)").unwrap();
    assert_eq!(tokens[2], Token::new(TokenType::Number, 1, 3, "-42"));
}
