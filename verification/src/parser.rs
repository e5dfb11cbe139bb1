//! The parser: recursive descent over the validated token list with one
//! token of lookahead, building the AST through mutually recursive
//! productions for expression, expression list, call and lambda body.
//! The `sp_parse_*` spec functions give each production its functional
//! meaning; the executable parser is proved to implement them.

use vstd::prelude::*;
use vstd::pervasive::cloned;
use vstd::string::*;
use std::collections::VecDeque;
use crate::lexer::{spec_checked_tokens, to_tokens};
use crate::numbers::spec_parse_i64;
use crate::numbers::parse_i64;
use crate::types::{
    ast_views, AstNode, AstView, CallFuncNode, ConstIntNode, ConstStrNode, Int, SequenceNode, Str,
    Token, TokenType, TokenV, VariableNode, tokens_view,
};

verus! {

/// The discriminable cause of a parse failure.
#[derive(Debug, Eq, PartialEq, Clone, Copy, Structural)]
pub enum ParserErrorCode {
    EmptyTokenList,
    Lexer,
    UnexpectedType,
    ShortTokenList,
    InvalidValue,
}

/// A grammatically invalid token stream or literal-conversion failure.
#[derive(Debug)]
pub struct ParserError {
    pub line: u32,
    pub column: u32,
    pub description: String,
    pub code: ParserErrorCode,
}

/// The mathematical value of a parser error.
pub struct PErrV {
    pub line: int,
    pub column: int,
    pub message: Seq<char>,
    pub code: ParserErrorCode,
}

impl View for ParserError {
    type V = PErrV;

    open spec fn view(&self) -> PErrV {
        PErrV {
            line: self.line as int,
            column: self.column as int,
            message: self.description@,
            code: self.code,
        }
    }
}

impl Clone for ParserError {
    fn clone(&self) -> (res: Self)
        ensures
            res == *self,
    {
        ParserError {
            line: self.line,
            column: self.column,
            description: self.description.clone(),
            code: self.code,
        }
    }
}

impl ParserError {
    pub fn new(line: u32, column: u32, description: &str, code: ParserErrorCode) -> (res:
        ParserError)
        ensures
            res@ == (PErrV {
                line: line as int,
                column: column as int,
                message: description@,
                code,
            }),
    {
        ParserError { line, column, description: description.to_owned(), code }
    }
}

/// A front-consumable token list: the parser's working state.
pub struct Vector<T: Clone> {
    mut_vec: VecDeque<T>,
}

impl<T: Clone> View for Vector<T> {
    type V = Seq<T>;

    closed spec fn view(&self) -> Seq<T> {
        self.mut_vec@
    }
}

impl<T: Clone> Vector<T> {
    pub fn new(mut_vec: VecDeque<T>) -> (r: Vector<T>)
        ensures
            r@ == mut_vec@,
    {
        Vector { mut_vec }
    }

    pub fn pop_back(&mut self) -> (r: Option<T>)
        ensures
            old(self)@.len() == 0 ==> r is None && final(self)@ == old(self)@,
            old(self)@.len() > 0 ==> r == Some(old(self)@.last()) && final(self)@ == old(
                self,
            )@.drop_last(),
    {
        self.mut_vec.pop_back()
    }

    pub fn pop_front(&mut self) -> (r: Option<T>)
        ensures
            old(self)@.len() == 0 ==> r is None && final(self)@ == old(self)@,
            old(self)@.len() > 0 ==> r == Some(old(self)@[0]) && final(self)@ == old(
                self,
            )@.drop_first(),
    {
        self.mut_vec.pop_front()
    }

    pub fn len(&self) -> (r: usize)
        ensures
            r == self@.len(),
    {
        self.mut_vec.len()
    }

    /// A copy of the element at `index`, if the index is in range.
    pub fn get(&self, index: usize) -> (r: Option<T>)
        ensures
            index < self@.len() ==> r is Some && cloned::<T>(self@[index as int], r->0),
            index >= self@.len() ==> r is None,
    {
        if index < self.mut_vec.len() {
            Some(self.mut_vec[index].clone())
        } else {
            None
        }
    }

    pub fn is_empty(&self) -> (r: bool)
        ensures
            r == (self@.len() == 0),
    {
        self.mut_vec.len() == 0
    }
}

// ---------------------------------------------------------------------------
// The grammar, as spec functions
// ---------------------------------------------------------------------------

/// A placeholder error for spec branches that cannot occur: every successful
/// expression parse consumes at least one token (`lemma_parse_consumes`), so
/// the guarded recursions below always take their guarded branch.
pub open spec fn sp_stuck() -> PErrV {
    PErrV { line: 0, column: 0, message: Seq::empty(), code: ParserErrorCode::UnexpectedType }
}

/// `expression = STRING | NUMBER | lambda | call | variable`; an identifier
/// parses as a call exactly when the next token is a left parenthesis.
pub open spec fn sp_parse_expression(toks: Seq<TokenV>) -> Result<(AstView, Seq<TokenV>), PErrV>
    decreases toks.len(), 2int,
{
    if toks.len() == 0 {
        Err(
            PErrV {
                line: 0,
                column: 0,
                message: "Expected expression, but found end of file"@,
                code: ParserErrorCode::EmptyTokenList,
            },
        )
    } else {
        let t = toks[0];
        if t.kind == TokenType::String {
            Ok(
                (
                    AstView::ConstStr { line: t.line, column: t.column, value: t.text },
                    toks.drop_first(),
                ),
            )
        } else if t.kind == TokenType::Number {
            match spec_parse_i64(t.text) {
                Some(v) => Ok(
                    (
                        AstView::ConstInt { line: t.line, column: t.column, value: v },
                        toks.drop_first(),
                    ),
                ),
                None => Err(
                    PErrV {
                        line: t.line,
                        column: t.column,
                        message: "Integer value overflowed"@,
                        code: ParserErrorCode::InvalidValue,
                    },
                ),
            }
        } else if t.kind == TokenType::Identifier {
            if toks.len() >= 2 && toks[1].kind == TokenType::Lparen {
                sp_parse_func_call(toks)
            } else {
                Ok(
                    (
                        AstView::Variable { line: t.line, column: t.column, name: t.text },
                        toks.drop_first(),
                    ),
                )
            }
        } else if t.kind == TokenType::Lbrace {
            sp_parse_func_body(toks)
        } else {
            Err(
                PErrV {
                    line: t.line,
                    column: t.column,
                    message: "Unexpected token type, expected expression"@,
                    code: ParserErrorCode::UnexpectedType,
                },
            )
        }
    }
}

/// `call = IDENT "(" [ expression_list ] ")"`.
pub open spec fn sp_parse_func_call(toks: Seq<TokenV>) -> Result<(AstView, Seq<TokenV>), PErrV>
    decreases toks.len(), 1int,
{
    if toks.len() == 0 {
        Err(
            PErrV {
                line: 0,
                column: 0,
                message: "Expected function call, but found end of file"@,
                code: ParserErrorCode::EmptyTokenList,
            },
        )
    } else if toks[0].kind != TokenType::Identifier {
        Err(
            PErrV {
                line: toks[0].line,
                column: toks[0].column,
                message: "Unexpected token type, expected identifier"@,
                code: ParserErrorCode::UnexpectedType,
            },
        )
    } else if toks.len() == 1 {
        Err(
            PErrV {
                line: 0,
                column: 0,
                message: "Expected left parentheses ('('), but found end of file"@,
                code: ParserErrorCode::ShortTokenList,
            },
        )
    } else if toks[1].kind != TokenType::Lparen {
        Err(
            PErrV {
                line: toks[1].line,
                column: toks[1].column,
                message: "Unexpected token type, expected left parentheses ('(')"@,
                code: ParserErrorCode::UnexpectedType,
            },
        )
    } else if toks.len() == 2 {
        Err(
            PErrV {
                line: 0,
                column: 0,
                message: "Expected right parentheses (')'), but found end of file"@,
                code: ParserErrorCode::ShortTokenList,
            },
        )
    } else {
        let name = toks[0];
        let rest = toks.subrange(2, toks.len() as int);
        if rest[0].kind == TokenType::Rparen {
            Ok(
                (
                    AstView::CallFunc {
                        line: name.line,
                        column: name.column,
                        name: name.text,
                        args: Seq::empty(),
                    },
                    rest.drop_first(),
                ),
            )
        } else {
            match sp_parse_expression_list(rest, TokenType::Rparen) {
                Err(e) => Err(e),
                Ok((nodes, rest2)) => if rest2.len() == 0 {
                    Err(
                        PErrV {
                            line: rest[0].line,
                            column: rest[0].column,
                            message: "Expected right parentheses (')'), but found end of file"@,
                            code: ParserErrorCode::ShortTokenList,
                        },
                    )
                } else if rest2[0].kind == TokenType::Rparen {
                    Ok(
                        (
                            AstView::CallFunc {
                                line: name.line,
                                column: name.column,
                                name: name.text,
                                args: nodes,
                            },
                            rest2.drop_first(),
                        ),
                    )
                } else {
                    Err(
                        PErrV {
                            line: rest2[0].line,
                            column: rest2[0].column,
                            message: "Unexpected token type, expected right parentheses (')')"@,
                            code: ParserErrorCode::ShortTokenList,
                        },
                    )
                },
            }
        }
    }
}

/// `lambda = "{" [ expression_list ] "}"`.
pub open spec fn sp_parse_func_body(toks: Seq<TokenV>) -> Result<(AstView, Seq<TokenV>), PErrV>
    decreases toks.len(), 1int,
{
    if toks.len() < 2 {
        Err(
            PErrV {
                line: 0,
                column: 0,
                message: "Expected function body, but found end of file"@,
                code: ParserErrorCode::EmptyTokenList,
            },
        )
    } else if toks[0].kind != TokenType::Lbrace {
        Err(
            PErrV {
                line: toks[0].line,
                column: toks[0].column,
                message: "Unexpected token type, expected left brace ('{')"@,
                code: ParserErrorCode::UnexpectedType,
            },
        )
    } else {
        let opener = toks[0];
        let rest = toks.drop_first();
        match sp_parse_expression_list(rest, TokenType::Rbrace) {
            Err(e) => Err(e),
            Ok((nodes, rest2)) => if rest2.len() == 0 {
                Err(
                    PErrV {
                        line: 0,
                        column: 0,
                        message: "Expected right brace ('}'), but found end of file"@,
                        code: ParserErrorCode::ShortTokenList,
                    },
                )
            } else if rest2[0].kind == TokenType::Rbrace {
                Ok(
                    (
                        AstView::Sequence {
                            line: opener.line,
                            column: opener.column,
                            body: nodes,
                        },
                        rest2.drop_first(),
                    ),
                )
            } else {
                Err(
                    PErrV {
                        line: opener.line,
                        column: opener.column,
                        message: "Unexpected token type, expected right brace ('}')"@,
                        code: ParserErrorCode::UnexpectedType,
                    },
                )
            },
        }
    }
}

/// `expression_list = expression { "," expression }`, up to (but not
/// consuming) the given end token.
pub open spec fn sp_parse_expression_list(toks: Seq<TokenV>, end_token: TokenType) -> Result<
    (Seq<AstView>, Seq<TokenV>),
    PErrV,
>
    decreases toks.len(), 3int,
{
    match sp_parse_expression(toks) {
        Err(e) => Err(e),
        Ok((first, rest)) => if rest.len() < toks.len() {
            sp_list_rest(seq![first], rest, end_token)
        } else {
            Err(sp_stuck())
        },
    }
}

/// The tail of an expression list: either the end token or end of input
/// stops it, or a comma demands a further expression.
pub open spec fn sp_list_rest(acc: Seq<AstView>, toks: Seq<TokenV>, end_token: TokenType) -> Result<
    (Seq<AstView>, Seq<TokenV>),
    PErrV,
>
    decreases toks.len(), 4int,
{
    if toks.len() == 0 {
        Ok((acc, toks))
    } else {
        let t = toks[0];
        if t.kind == TokenType::Comma {
            let rest = toks.drop_first();
            if rest.len() == 0 {
                Ok((acc, rest))
            } else {
                match sp_parse_expression(rest) {
                    Err(e) => Err(e),
                    Ok((node, rest2)) => if rest2.len() < toks.len() {
                        sp_list_rest(acc.push(node), rest2, end_token)
                    } else {
                        Err(sp_stuck())
                    },
                }
            }
        } else if t.kind == end_token {
            Ok((acc, toks))
        } else {
            Err(
                PErrV {
                    line: t.line,
                    column: t.column,
                    message: "Unexpected token type, expected comma (',')"@,
                    code: ParserErrorCode::UnexpectedType,
                },
            )
        }
    }
}

/// `program = expression_list EOF`, stamped at line 1 column 1.
pub open spec fn sp_parse_program(toks: Seq<TokenV>) -> Result<AstView, PErrV> {
    match sp_parse_expression_list(toks, TokenType::Unknown) {
        Err(e) => Err(e),
        Ok((nodes, _)) => Ok(AstView::Sequence { line: 1, column: 1, body: nodes }),
    }
}

/// What parsing a source unit yields: the lexer's checked tokens fed to the
/// program production; a lexer failure is wrapped with the `Lexer` code.
pub open spec fn sp_parse(code: Seq<char>) -> Result<AstView, PErrV> {
    match spec_checked_tokens(code) {
        Err(le) => Err(
            PErrV {
                line: le.line,
                column: le.column,
                message: le.message,
                code: ParserErrorCode::Lexer,
            },
        ),
        Ok(toks) => sp_parse_program(toks),
    }
}

/// A successful expression parse consumes at least one token, and the other
/// productions consume theirs: the remainder is never longer than the input.
pub proof fn lemma_parse_consumes(toks: Seq<TokenV>, end_token: TokenType, which: int)
    ensures
        which == 0 ==> (sp_parse_expression(toks) matches Ok(p) ==> p.1.len() < toks.len()),
        which == 1 ==> (sp_parse_func_call(toks) matches Ok(p) ==> p.1.len() < toks.len()),
        which == 2 ==> (sp_parse_func_body(toks) matches Ok(p) ==> p.1.len() < toks.len()),
        which == 3 ==> (sp_parse_expression_list(toks, end_token) matches Ok(p) ==> p.1.len()
            < toks.len()),
        which == 4 ==> (sp_list_rest(Seq::empty(), toks, end_token) matches Ok(p) ==> p.1.len()
            <= toks.len()),
    decreases toks.len(),
        (if which == 4 {
            5int
        } else if which == 3 {
            3int
        } else if which == 0 {
            2int
        } else {
            1int
        }),
{
    if which == 0 {
        if toks.len() > 0 {
            let t = toks[0];
            if t.kind == TokenType::Identifier && toks.len() >= 2 && toks[1].kind
                == TokenType::Lparen {
                lemma_parse_consumes(toks, end_token, 1);
            } else if t.kind == TokenType::Lbrace {
                lemma_parse_consumes(toks, end_token, 2);
            }
        }
    } else if which == 1 {
        if toks.len() > 2 && toks[0].kind == TokenType::Identifier && toks[1].kind
            == TokenType::Lparen {
            let rest = toks.subrange(2, toks.len() as int);
            if rest[0].kind != TokenType::Rparen {
                lemma_parse_consumes(rest, TokenType::Rparen, 3);
            }
        }
    } else if which == 2 {
        if toks.len() >= 2 && toks[0].kind == TokenType::Lbrace {
            let rest = toks.drop_first();
            lemma_parse_consumes(rest, TokenType::Rbrace, 3);
        }
    } else if which == 3 {
        lemma_parse_consumes(toks, end_token, 0);
        match sp_parse_expression(toks) {
            Ok((first, rest)) => {
                if rest.len() < toks.len() {
                    lemma_list_rest_consumes(seq![first], rest, end_token);
                }
            },
            Err(_) => {},
        }
    } else if which == 4 {
        lemma_list_rest_consumes(Seq::empty(), toks, end_token);
    }
}

/// The list tail never lengthens the remainder.
pub proof fn lemma_list_rest_consumes(acc: Seq<AstView>, toks: Seq<TokenV>, end_token: TokenType)
    ensures
        sp_list_rest(acc, toks, end_token) matches Ok(p) ==> p.1.len() <= toks.len(),
    decreases toks.len(), 4int,
{
    if toks.len() > 0 && toks[0].kind == TokenType::Comma {
        let rest = toks.drop_first();
        if rest.len() > 0 {
            lemma_parse_consumes(rest, end_token, 0);
            match sp_parse_expression(rest) {
                Ok((node, rest2)) => {
                    if rest2.len() < toks.len() {
                        lemma_list_rest_consumes(acc.push(node), rest2, end_token);
                    }
                },
                Err(_) => {},
            }
        }
    }
}

} // verus!

verus! {

// ---------------------------------------------------------------------------
// The executable parser
// ---------------------------------------------------------------------------

/// Parses one expression off the front of the token list; implements
/// `sp_parse_expression`.
pub fn parse_expression(tokens: &mut Vector<Token>) -> (r: Result<AstNode, ParserError>)
    ensures
        match sp_parse_expression(tokens_view(old(tokens)@)) {
            Ok(p) => r matches Ok(node) && node@ == p.0 && tokens_view(final(tokens)@) == p.1,
            Err(e) => r matches Err(pe) && pe@ == e,
        },
    decreases old(tokens)@.len(), 2int,
{
    let ghost tv = tokens_view(old(tokens)@);
    if tokens.len() == 0 {
        return Err(
            ParserError::new(
                0,
                0,
                "Expected expression, but found end of file",
                ParserErrorCode::EmptyTokenList,
            ),
        );
    }
    let token = tokens.get(0).unwrap();
    proof {
        assert(token == old(tokens)@[0]);
        assert(token@ == tv[0]);
    }
    match token.token_type {
        TokenType::String => {
            tokens.pop_front();
            proof {
                assert(tokens_view(final(tokens)@) =~= tv.drop_first());
            }
            Ok(
                AstNode::ConstStr(
                    ConstStrNode::new(token.line, token.column, Str::new(token.content.as_str())),
                ),
            )
        },
        TokenType::Number => {
            tokens.pop_front();
            proof {
                assert(tokens_view(final(tokens)@) =~= tv.drop_first());
            }
            match parse_i64(token.content.as_str()) {
                None => Err(
                    ParserError::new(
                        token.line,
                        token.column,
                        "Integer value overflowed",
                        ParserErrorCode::InvalidValue,
                    ),
                ),
                Some(v) => Ok(
                    AstNode::ConstInt(ConstIntNode::new(token.line, token.column, Int::new(v))),
                ),
            }
        },
        TokenType::Identifier => {
            if tokens.len() >= 2 {
                let t1 = tokens.get(1).unwrap();
                proof {
                    assert(t1 == old(tokens)@[1]);
                    assert(t1@ == tv[1]);
                }
                if matches!(t1.token_type, TokenType::Lparen) {
                    return match parse_func_call(tokens) {
                        Ok(c) => Ok(AstNode::CallFunc(c)),
                        Err(e) => Err(e),
                    };
                }
            }
            tokens.pop_front();
            proof {
                assert(tokens_view(final(tokens)@) =~= tv.drop_first());
            }
            Ok(
                AstNode::Variable(
                    VariableNode::new(token.line, token.column, token.content.as_str()),
                ),
            )
        },
        TokenType::Lbrace => match parse_func_body(tokens) {
            Ok(s) => Ok(AstNode::Sequence(s)),
            Err(e) => Err(e),
        },
        _ => Err(
            ParserError::new(
                token.line,
                token.column,
                "Unexpected token type, expected expression",
                ParserErrorCode::UnexpectedType,
            ),
        ),
    }
}

/// Parses `IDENT "(" [ expression_list ] ")"`; implements
/// `sp_parse_func_call`.
pub fn parse_func_call(tokens: &mut Vector<Token>) -> (r: Result<CallFuncNode, ParserError>)
    ensures
        match sp_parse_func_call(tokens_view(old(tokens)@)) {
            Ok(p) => r matches Ok(node) && node@ == p.0 && tokens_view(final(tokens)@) == p.1,
            Err(e) => r matches Err(pe) && pe@ == e,
        },
    decreases old(tokens)@.len(), 1int,
{
    let ghost tv = tokens_view(old(tokens)@);
    if tokens.len() == 0 {
        return Err(
            ParserError::new(
                0,
                0,
                "Expected function call, but found end of file",
                ParserErrorCode::EmptyTokenList,
            ),
        );
    }
    let t0 = tokens.get(0).unwrap();
    proof {
        assert(t0 == old(tokens)@[0]);
        assert(t0@ == tv[0]);
    }
    if !matches!(t0.token_type, TokenType::Identifier) {
        return Err(
            ParserError::new(
                t0.line,
                t0.column,
                "Unexpected token type, expected identifier",
                ParserErrorCode::UnexpectedType,
            ),
        );
    }
    if tokens.len() == 1 {
        return Err(
            ParserError::new(
                0,
                0,
                "Expected left parentheses ('('), but found end of file",
                ParserErrorCode::ShortTokenList,
            ),
        );
    }
    let t1 = tokens.get(1).unwrap();
    proof {
        assert(t1 == old(tokens)@[1]);
        assert(t1@ == tv[1]);
    }
    if !matches!(t1.token_type, TokenType::Lparen) {
        return Err(
            ParserError::new(
                t1.line,
                t1.column,
                "Unexpected token type, expected left parentheses ('(')",
                ParserErrorCode::UnexpectedType,
            ),
        );
    }
    if tokens.len() == 2 {
        return Err(
            ParserError::new(
                0,
                0,
                "Expected right parentheses (')'), but found end of file",
                ParserErrorCode::ShortTokenList,
            ),
        );
    }
    let name_tok = tokens.pop_front().unwrap();
    tokens.pop_front();
    let ghost rest = tv.subrange(2, tv.len() as int);
    proof {
        assert(tokens_view(tokens@) =~= rest);
    }
    let first_after = tokens.get(0).unwrap();
    proof {
        assert(first_after == tokens@[0]);
        assert(first_after@ == rest[0]);
    }
    if matches!(first_after.token_type, TokenType::Rparen) {
        tokens.pop_front();
        proof {
            assert(tokens_view(final(tokens)@) =~= rest.drop_first());
            assert(ast_views(Seq::<AstNode>::empty()) =~= Seq::<AstView>::empty());
        }
        let node = CallFuncNode::new(name_tok.line, name_tok.column, name_tok.content, Vec::new());
        return Ok(node);
    }
    let nodes = match parse_expression_list(tokens, TokenType::Rparen) {
        Err(e) => {
            return Err(e);
        },
        Ok(n) => n,
    };
    if tokens.is_empty() {
        return Err(
            ParserError::new(
                first_after.line,
                first_after.column,
                "Expected right parentheses (')'), but found end of file",
                ParserErrorCode::ShortTokenList,
            ),
        );
    }
    let last = tokens.pop_front().unwrap();
    if matches!(last.token_type, TokenType::Rparen) {
        Ok(CallFuncNode::new(name_tok.line, name_tok.column, name_tok.content, nodes))
    } else {
        Err(
            ParserError::new(
                last.line,
                last.column,
                "Unexpected token type, expected right parentheses (')')",
                ParserErrorCode::ShortTokenList,
            ),
        )
    }
}

/// Parses `"{" [ expression_list ] "}"`; implements `sp_parse_func_body`.
pub fn parse_func_body(tokens: &mut Vector<Token>) -> (r: Result<SequenceNode, ParserError>)
    ensures
        match sp_parse_func_body(tokens_view(old(tokens)@)) {
            Ok(p) => r matches Ok(node) && node@ == p.0 && tokens_view(final(tokens)@) == p.1,
            Err(e) => r matches Err(pe) && pe@ == e,
        },
    decreases old(tokens)@.len(), 1int,
{
    let ghost tv = tokens_view(old(tokens)@);
    if tokens.len() < 2 {
        return Err(
            ParserError::new(
                0,
                0,
                "Expected function body, but found end of file",
                ParserErrorCode::EmptyTokenList,
            ),
        );
    }
    let opener = tokens.get(0).unwrap();
    proof {
        assert(opener == old(tokens)@[0]);
        assert(opener@ == tv[0]);
    }
    if !matches!(opener.token_type, TokenType::Lbrace) {
        return Err(
            ParserError::new(
                opener.line,
                opener.column,
                "Unexpected token type, expected left brace ('{')",
                ParserErrorCode::UnexpectedType,
            ),
        );
    }
    tokens.pop_front();
    proof {
        assert(tokens_view(tokens@) =~= tv.drop_first());
    }
    let nodes = match parse_expression_list(tokens, TokenType::Rbrace) {
        Err(e) => {
            return Err(e);
        },
        Ok(n) => n,
    };
    if tokens.is_empty() {
        return Err(
            ParserError::new(
                0,
                0,
                "Expected right brace ('}'), but found end of file",
                ParserErrorCode::ShortTokenList,
            ),
        );
    }
    let last = tokens.pop_front().unwrap();
    if !matches!(last.token_type, TokenType::Rbrace) {
        return Err(
            ParserError::new(
                opener.line,
                opener.column,
                "Unexpected token type, expected right brace ('}')",
                ParserErrorCode::UnexpectedType,
            ),
        );
    }
    Ok(SequenceNode::new(opener.line, opener.column, nodes))
}

/// Parses a comma-separated expression list up to (but not consuming) the
/// end token; implements `sp_parse_expression_list`.
#[verifier::loop_isolation(false)]
pub fn parse_expression_list(tokens: &mut Vector<Token>, end_token: TokenType) -> (r: Result<
    Vec<AstNode>,
    ParserError,
>)
    ensures
        match sp_parse_expression_list(tokens_view(old(tokens)@), end_token) {
            Ok(p) => r matches Ok(nodes) && ast_views(nodes@) == p.0 && tokens_view(final(tokens)@)
                == p.1,
            Err(e) => r matches Err(pe) && pe@ == e,
        },
    decreases old(tokens)@.len(), 3int,
{
    let ghost tv0 = tokens_view(old(tokens)@);
    let ghost entry_len = old(tokens)@.len();
    let mut nodes: Vec<AstNode> = Vec::new();
    let first = match parse_expression(tokens) {
        Err(e) => {
            return Err(e);
        },
        Ok(n) => n,
    };
    proof {
        lemma_parse_consumes(tv0, end_token, 0);
    }
    let ghost fv = first@;
    nodes.push(first);
    proof {
        crate::types::lemma_ast_views_index(nodes@, 0);
        assert(ast_views(nodes@) =~= seq![fv]);
    }
    loop
        invariant
            tokens@.len() < entry_len,
            sp_parse_expression_list(tv0, end_token) == sp_list_rest(
                ast_views(nodes@),
                tokens_view(tokens@),
                end_token,
            ),
        decreases tokens@.len(),
    {
        let ghost cur_acc = ast_views(nodes@);
        let ghost cur = tokens_view(tokens@);
        if tokens.is_empty() {
            proof {
                assert(cur =~= tokens_view(tokens@));
            }
            return Ok(nodes);
        }
        let next = tokens.get(0).unwrap();
        proof {
            assert(next == tokens@[0]);
            assert(next@ == cur[0]);
        }
        if matches!(next.token_type, TokenType::Comma) {
            tokens.pop_front();
            proof {
                assert(tokens_view(tokens@) =~= cur.drop_first());
            }
            if tokens.is_empty() {
                return Ok(nodes);
            }
            let ghost before = tokens_view(tokens@);
            match parse_expression(tokens) {
                Err(e) => {
                    return Err(e);
                },
                Ok(n) => {
                    proof {
                        lemma_parse_consumes(before, end_token, 0);
                    }
                    let ghost nv = n@;
                    let ghost old_nodes = nodes@;
                    nodes.push(n);
                    proof {
                        crate::types::lemma_ast_views_len(nodes@);
                        crate::types::lemma_ast_views_len(old_nodes);
                        assert forall|j: int| 0 <= j < nodes@.len() implies #[trigger] ast_views(
                            nodes@,
                        )[j] == cur_acc.push(nv)[j] by {
                            crate::types::lemma_ast_views_index(nodes@, j);
                            if j < old_nodes.len() {
                                crate::types::lemma_ast_views_index(old_nodes, j);
                                assert(nodes@[j] == old_nodes[j]);
                            } else {
                                assert(nodes@[j] == n);
                            }
                        }
                        assert(ast_views(nodes@) =~= cur_acc.push(nv));
                    }
                },
            }
        } else if next.token_type == end_token {
            return Ok(nodes);
        } else {
            return Err(
                ParserError::new(
                    next.line,
                    next.column,
                    "Unexpected token type, expected comma (',')",
                    ParserErrorCode::UnexpectedType,
                ),
            );
        }
    }
}

/// Parses a whole program: an expression list ending only at end of input;
/// implements `sp_parse_program`.
pub fn parse_program(tokens: &mut Vector<Token>) -> (r: Result<SequenceNode, ParserError>)
    ensures
        match sp_parse_program(tokens_view(old(tokens)@)) {
            Ok(av) => r matches Ok(node) && node@ == av,
            Err(e) => r matches Err(pe) && pe@ == e,
        },
{
    match parse_expression_list(tokens, TokenType::Unknown) {
        Err(e) => Err(e),
        Ok(nodes) => Ok(SequenceNode::new(1, 1, nodes)),
    }
}

/// Parses a source unit: lexing, validation, then the program production.
/// `sp_parse` says exactly which tree or which error comes back; no partial
/// tree is ever returned.
pub fn parse(code: &str) -> (r: Result<SequenceNode, ParserError>)
    requires
        code@.len() < 0xFFFF_FFFD,
    ensures
        match sp_parse(code@) {
            Ok(av) => r matches Ok(node) && node@ == av,
            Err(e) => r matches Err(pe) && pe@ == e,
        },
{
    let toks = match to_tokens(code) {
        Err(e) => {
            return Err(
                ParserError {
                    line: e.line,
                    column: e.column,
                    description: e.description,
                    code: ParserErrorCode::Lexer,
                },
            );
        },
        Ok(t) => t,
    };
    let mut dq: VecDeque<Token> = VecDeque::new();
    let mut i: usize = 0;
    while i < toks.len()
        invariant
            i <= toks@.len(),
            dq@.len() == i as nat,
            forall|j: int| 0 <= j < i ==> #[trigger] dq@[j] == toks@[j],
        decreases toks@.len() - i,
    {
        dq.push_back(toks[i].clone());
        i = i + 1;
    }
    proof {
        assert(tokens_view(dq@) =~= tokens_view(toks@));
    }
    let mut vec = Vector::new(dq);
    parse_program(&mut vec)
}

} // verus!

verus! {

/// Round-trip of the pipeline on a single call of one string literal:
/// lexing produced the four tokens, the validator passed them, and parsing
/// yields exactly the tree a reader would build by hand — one call node
/// carrying the identifier's text and one string argument, each stamped
/// with its token's position.
pub proof fn lemma_call_round_trip(name: TokenV, lp: TokenV, arg: TokenV, rp: TokenV)
    requires
        name.kind == TokenType::Identifier,
        lp.kind == TokenType::Lparen,
        arg.kind == TokenType::String,
        rp.kind == TokenType::Rparen,
    ensures
        sp_parse_program(seq![name, lp, arg, rp]) == Ok::<AstView, PErrV>(
            AstView::Sequence {
                line: 1,
                column: 1,
                body: seq![
                    AstView::CallFunc {
                        line: name.line,
                        column: name.column,
                        name: name.text,
                        args: seq![
                            AstView::ConstStr {
                                line: arg.line,
                                column: arg.column,
                                value: arg.text,
                            },
                        ],
                    },
                ],
            },
        ),
{
    let toks = seq![name, lp, arg, rp];
    let argnode = AstView::ConstStr { line: arg.line, column: arg.column, value: arg.text };
    let callnode = AstView::CallFunc {
        line: name.line,
        column: name.column,
        name: name.text,
        args: seq![argnode],
    };
    let rest = toks.subrange(2, 4);
    assert(rest =~= seq![arg, rp]);
    let after_arg = rest.drop_first();
    assert(after_arg =~= seq![rp]);
    assert(sp_parse_expression(rest) == Ok::<(AstView, Seq<TokenV>), PErrV>((argnode, after_arg)));
    assert(sp_list_rest(seq![argnode], after_arg, TokenType::Rparen) == Ok::<
        (Seq<AstView>, Seq<TokenV>),
        PErrV,
    >((seq![argnode], after_arg)));
    assert(sp_parse_expression_list(rest, TokenType::Rparen) == Ok::<
        (Seq<AstView>, Seq<TokenV>),
        PErrV,
    >((seq![argnode], after_arg)));
    let after_call = after_arg.drop_first();
    assert(after_call.len() == 0);
    assert(sp_parse_func_call(toks) == Ok::<(AstView, Seq<TokenV>), PErrV>(
        (callnode, after_call),
    ));
    assert(sp_parse_expression(toks) == Ok::<(AstView, Seq<TokenV>), PErrV>(
        (callnode, after_call),
    ));
    assert(sp_list_rest(seq![callnode], after_call, TokenType::Unknown) == Ok::<
        (Seq<AstView>, Seq<TokenV>),
        PErrV,
    >((seq![callnode], after_call)));
    assert(sp_parse_expression_list(toks, TokenType::Unknown) == Ok::<
        (Seq<AstView>, Seq<TokenV>),
        PErrV,
    >((seq![callnode], after_call)));
}

} // verus!
