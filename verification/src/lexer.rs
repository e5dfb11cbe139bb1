//! The lexer: a single left-to-right scan of the source into a flat token
//! sequence, recognizing identifiers, signed integers, double-quoted strings,
//! the four brackets, the comma, and line (`#`) and block (`##`) comments.
//! `lex_step`/`lex_fold` give the scan a functional meaning over the
//! character sequence; the scanning functions are proved to implement it.
//! A post-pass validator checks grammar shape (bracket matching and token
//! adjacency) without building a tree.

use vstd::prelude::*;
use vstd::string::*;
use crate::numbers::{dec_digits, is_digit, u32_to_string};
use crate::text::str_to_chars;
use crate::types::{Token, TokenType, TokenV, tokens_view};

verus! {

/// A malformed character stream, attributable to a concrete position.
#[derive(Debug, PartialEq, Eq)]
pub struct LexerError {
    pub line: u32,
    pub column: u32,
    pub description: String,
}

/// The mathematical value of a lexer error.
pub struct LexErrV {
    pub line: int,
    pub column: int,
    pub message: Seq<char>,
}

impl View for LexerError {
    type V = LexErrV;

    open spec fn view(&self) -> LexErrV {
        LexErrV {
            line: self.line as int,
            column: self.column as int,
            message: self.description@,
        }
    }
}

impl Clone for LexerError {
    fn clone(&self) -> (res: Self)
        ensures
            res == *self,
    {
        LexerError { line: self.line, column: self.column, description: self.description.clone() }
    }
}

// ---------------------------------------------------------------------------
// Character classes
// ---------------------------------------------------------------------------

pub open spec fn spec_is_letter(c: char) -> bool {
    (97 <= c as int <= 122) || (65 <= c as int <= 90)
}

/// The operator-style characters allowed in identifiers.
pub open spec fn spec_is_symbol_char(c: char) -> bool {
    c == '+' || c == '-' || c == '*' || c == '/' || c == '%' || c == '$' || c == '^' || c == '!'
        || c == '&' || c == '~' || c == '`' || c == '?' || c == ':' || c == '<' || c == '>'
}

pub open spec fn spec_is_number_char(c: char, is_first: bool) -> bool {
    if is_first {
        c == '-' || is_digit(c)
    } else {
        is_digit(c)
    }
}

pub open spec fn spec_is_identifier_char(c: char, is_first: bool) -> bool {
    spec_is_letter(c) || c == '_' || spec_is_symbol_char(c) || (!is_first && is_digit(c))
}

pub open spec fn spec_is_whitespace(c: char) -> bool {
    c == ' ' || c == '\t' || c == '\n'
}

/// Whether `chr` may stand at the given position of a number token.
pub fn is_number_char(chr: char, is_first: bool) -> (r: bool)
    ensures
        r == spec_is_number_char(chr, is_first),
{
    let u = chr as u32;
    let digit = 48 <= u && u <= 57;
    if is_first {
        chr == '-' || digit
    } else {
        digit
    }
}

/// Whether `chr` may stand at the given position of an identifier.
pub fn is_identifier_char(chr: char, is_first: bool) -> (r: bool)
    ensures
        r == spec_is_identifier_char(chr, is_first),
{
    let u = chr as u32;
    let letter = (97 <= u && u <= 122) || (65 <= u && u <= 90);
    let symbol = chr == '+' || chr == '-' || chr == '*' || chr == '/' || chr == '%' || chr == '$'
        || chr == '^' || chr == '!' || chr == '&' || chr == '~' || chr == '`' || chr == '?' || chr
        == ':' || chr == '<' || chr == '>';
    let digit = 48 <= u && u <= 57;
    letter || chr == '_' || symbol || (!is_first && digit)
}

pub fn is_string_start(chr: char) -> (r: bool)
    ensures
        r == (chr == '"'),
{
    chr == '"'
}

pub fn is_string_end(chr: char) -> (r: bool)
    ensures
        r == (chr == '"'),
{
    chr == '"'
}

pub fn is_lparen(chr: char) -> (r: bool)
    ensures
        r == (chr == '('),
{
    chr == '('
}

pub fn is_rparen(chr: char) -> (r: bool)
    ensures
        r == (chr == ')'),
{
    chr == ')'
}

pub fn is_lbrace(chr: char) -> (r: bool)
    ensures
        r == (chr == '{'),
{
    chr == '{'
}

pub fn is_rbrace(chr: char) -> (r: bool)
    ensures
        r == (chr == '}'),
{
    chr == '}'
}

pub fn is_comma(chr: char) -> (r: bool)
    ensures
        r == (chr == ','),
{
    chr == ','
}

pub fn is_comment_start(chr: char) -> (r: bool)
    ensures
        r == (chr == '#'),
{
    chr == '#'
}

/// Whether a comment opened by `chr` is a block comment: the opening `#` is
/// followed by a second `#`.
pub fn is_multiline_comment(chr: char, next_char: char) -> (r: bool)
    ensures
        r == (chr == '#' && next_char == '#'),
{
    chr == '#' && next_char == '#'
}

/// Whether a comment ends here: a block comment at a `##` pair, a line
/// comment at the end of the line.
pub fn is_comment_end(chr: char, next_char: char, multiline: bool) -> (r: bool)
    ensures
        r == if multiline {
            chr == '#' && next_char == '#'
        } else {
            chr == '\n'
        },
{
    if multiline {
        chr == '#' && next_char == '#'
    } else {
        chr == '\n'
    }
}

/// First-character classification, in priority order: numbers, then the five
/// punctuation characters, then identifiers.
pub open spec fn spec_get_token_type(chr: char) -> TokenType {
    if spec_is_number_char(chr, true) {
        TokenType::Number
    } else if chr == '(' {
        TokenType::Lparen
    } else if chr == ')' {
        TokenType::Rparen
    } else if chr == '{' {
        TokenType::Lbrace
    } else if chr == '}' {
        TokenType::Rbrace
    } else if chr == ',' {
        TokenType::Comma
    } else if spec_is_identifier_char(chr, true) {
        TokenType::Identifier
    } else {
        TokenType::Unknown
    }
}

/// See `spec_get_token_type`.
pub fn get_token_type(chr: char) -> (r: TokenType)
    ensures
        r == spec_get_token_type(chr),
{
    if is_number_char(chr, true) {
        TokenType::Number
    } else if is_lparen(chr) {
        TokenType::Lparen
    } else if is_rparen(chr) {
        TokenType::Rparen
    } else if is_lbrace(chr) {
        TokenType::Lbrace
    } else if is_rbrace(chr) {
        TokenType::Rbrace
    } else if is_comma(chr) {
        TokenType::Comma
    } else if is_identifier_char(chr, true) {
        TokenType::Identifier
    } else {
        TokenType::Unknown
    }
}

/// The delimited token kind that `chr` opens, if any: only strings.
pub fn get_type_start(chr: char) -> (r: Option<TokenType>)
    ensures
        r == if chr == '"' {
            Some(TokenType::String)
        } else {
            None::<TokenType>
        },
{
    if is_string_start(chr) {
        Some(TokenType::String)
    } else {
        None
    }
}

/// Whether `chr` closes a token of the given delimited kind.
pub fn is_type_end(chr: char, token_type: &TokenType) -> (r: bool)
    ensures
        r == (*token_type == TokenType::String && chr == '"'),
{
    match token_type {
        TokenType::String => is_string_end(chr),
        _ => false,
    }
}

pub open spec fn spec_is_still_type(chr: char, token_type: TokenType) -> bool {
    match token_type {
        TokenType::Number => spec_is_number_char(chr, false),
        TokenType::Identifier => spec_is_identifier_char(chr, false),
        TokenType::Lparen | TokenType::Rparen | TokenType::Lbrace | TokenType::Rbrace
            | TokenType::Comma => false,
        _ => true,
    }
}

/// Whether `chr` continues a token of the given kind.
pub fn is_still_type(chr: char, token_type: &TokenType) -> (r: bool)
    ensures
        r == spec_is_still_type(chr, *token_type),
{
    match token_type {
        TokenType::Number => is_number_char(chr, false),
        TokenType::Identifier => is_identifier_char(chr, false),
        TokenType::Lparen | TokenType::Rparen | TokenType::Lbrace | TokenType::Rbrace
            | TokenType::Comma => false,
        _ => true,
    }
}

/// After an identifier, number or string only a bracket or comma may follow;
/// this holds of the kinds that may not.
pub open spec fn spec_is_not_continuer(kind: TokenType) -> bool {
    kind != TokenType::Lbrace && kind != TokenType::Lparen && kind != TokenType::Rbrace && kind
        != TokenType::Rparen && kind != TokenType::Comma
}

/// See `spec_is_not_continuer`.
pub fn is_not_continuer(token: Token) -> (r: bool)
    ensures
        r == spec_is_not_continuer(token@.kind),
{
    token.token_type != TokenType::Lbrace && token.token_type != TokenType::Lparen
        && token.token_type != TokenType::Rbrace && token.token_type != TokenType::Rparen
        && token.token_type != TokenType::Comma
}

/// After a comma or an opening bracket only an expression starter or a closer
/// may follow; this holds of the kinds that may not.
pub open spec fn spec_is_not_after_continuer(kind: TokenType) -> bool {
    kind != TokenType::Rparen && kind != TokenType::Rbrace && kind != TokenType::Identifier && kind
        != TokenType::Number && kind != TokenType::String && kind != TokenType::Lbrace
}

/// See `spec_is_not_after_continuer`.
pub fn is_not_after_continuer(token: Token) -> (r: bool)
    ensures
        r == spec_is_not_after_continuer(token@.kind),
{
    token.token_type != TokenType::Rparen && token.token_type != TokenType::Rbrace
        && token.token_type != TokenType::Identifier && token.token_type != TokenType::Number
        && token.token_type != TokenType::String && token.token_type != TokenType::Lbrace
}

// ---------------------------------------------------------------------------
// The scanning state machine
// ---------------------------------------------------------------------------

/// What the scanner is in the middle of.
#[derive(Debug, PartialEq, Eq, Clone, Copy, Structural)]
pub enum LexMode {
    /// Between tokens.
    Idle,
    /// Inside a number token.
    InNumber,
    /// Inside an identifier token.
    InIdent,
    /// Inside a string literal.
    InString,
    /// Just after a `#`, before knowing which comment kind it opens.
    SawHash,
    /// Inside a line comment.
    LineComment,
    /// Inside a block comment.
    BlockComment,
}

/// The full scanner state: mode, position, the token under construction, and
/// the tokens emitted so far.
pub struct LexSt {
    pub mode: LexMode,
    /// Inside a block comment: whether the previous character was `#`.
    pub prev_hash: bool,
    pub line: int,
    pub col: int,
    /// Start position of the token under construction.
    pub tline: int,
    pub tcol: int,
    /// Text of the token under construction.
    pub text: Seq<char>,
    pub toks: Seq<TokenV>,
}

pub open spec fn lex_init() -> LexSt {
    LexSt {
        mode: LexMode::Idle,
        prev_hash: false,
        line: 1,
        col: 0,
        tline: 0,
        tcol: 0,
        text: Seq::empty(),
        toks: Seq::empty(),
    }
}

/// Emits the token under construction with the given kind.
pub open spec fn lex_emit(st: LexSt, kind: TokenType) -> LexSt {
    LexSt {
        mode: LexMode::Idle,
        text: Seq::empty(),
        toks: st.toks.push(
            TokenV { kind, text: st.text, line: st.tline, column: st.tcol },
        ),
        ..st
    }
}

/// Handles one character from between tokens; `st` already carries the
/// character's position.
pub open spec fn lex_idle_step(st: LexSt, c: char) -> LexSt {
    if spec_is_whitespace(c) {
        st
    } else if c == '#' {
        LexSt { mode: LexMode::SawHash, ..st }
    } else if c == '"' {
        LexSt {
            mode: LexMode::InString,
            text: Seq::empty(),
            tline: st.line,
            tcol: st.col,
            ..st
        }
    } else {
        let kind = spec_get_token_type(c);
        match kind {
            TokenType::Number => LexSt {
                mode: LexMode::InNumber,
                text: seq![c],
                tline: st.line,
                tcol: st.col,
                ..st
            },
            TokenType::Identifier => LexSt {
                mode: LexMode::InIdent,
                text: seq![c],
                tline: st.line,
                tcol: st.col,
                ..st
            },
            _ => LexSt {
                mode: LexMode::Idle,
                text: Seq::empty(),
                toks: st.toks.push(
                    TokenV { kind, text: seq![c], line: st.line, column: st.col },
                ),
                ..st
            },
        }
    }
}

/// One step of the scan: advances the position past `c`, then dispatches on
/// the mode. Closing a number or identifier re-examines `c` from between
/// tokens, which is the one character of lookahead.
pub open spec fn lex_step(st: LexSt, c: char) -> Result<LexSt, LexErrV> {
    let st1 = if c == '\n' {
        LexSt { line: st.line + 1, col: 0, ..st }
    } else {
        LexSt { col: st.col + 1, ..st }
    };
    match st.mode {
        LexMode::Idle => Ok(lex_idle_step(st1, c)),
        LexMode::SawHash => Ok(
            if c == '#' {
                LexSt { mode: LexMode::BlockComment, prev_hash: false, ..st1 }
            } else if c == '\n' {
                LexSt { mode: LexMode::Idle, ..st1 }
            } else {
                LexSt { mode: LexMode::LineComment, ..st1 }
            },
        ),
        LexMode::LineComment => Ok(
            if c == '\n' {
                LexSt { mode: LexMode::Idle, ..st1 }
            } else {
                st1
            },
        ),
        LexMode::BlockComment => Ok(
            if c == '#' {
                if st.prev_hash {
                    LexSt { mode: LexMode::Idle, prev_hash: false, ..st1 }
                } else {
                    LexSt { prev_hash: true, ..st1 }
                }
            } else {
                LexSt { prev_hash: false, ..st1 }
            },
        ),
        LexMode::InString => if c == '"' {
            Ok(lex_emit(st1, TokenType::String))
        } else if c == '\n' {
            Err(
                LexErrV {
                    line: st.tline,
                    column: st.tcol,
                    message: "Unterminated string literal"@,
                },
            )
        } else {
            Ok(LexSt { text: st.text.push(c), ..st1 })
        },
        LexMode::InNumber => if spec_is_number_char(c, false) {
            Ok(LexSt { text: st.text.push(c), ..st1 })
        } else {
            Ok(lex_idle_step(lex_emit(st1, TokenType::Number), c))
        },
        LexMode::InIdent => if spec_is_identifier_char(c, false) {
            Ok(LexSt { text: st.text.push(c), ..st1 })
        } else {
            Ok(lex_idle_step(lex_emit(st1, TokenType::Identifier), c))
        },
    }
}

/// The scan as a fold of `lex_step` over the characters.
pub open spec fn lex_fold(st: LexSt, chars: Seq<char>) -> Result<LexSt, LexErrV>
    decreases chars.len(),
{
    if chars.len() == 0 {
        Ok(st)
    } else {
        match lex_step(st, chars[0]) {
            Ok(st2) => lex_fold(st2, chars.subrange(1, chars.len() as int)),
            Err(e) => Err(e),
        }
    }
}

/// What scanning a whole character sequence yields: the emitted tokens, or
/// the first error. A string left open at end of input is an error at the
/// string's start.
pub open spec fn spec_scan(chars: Seq<char>) -> Result<Seq<TokenV>, LexErrV> {
    match lex_fold(lex_init(), chars) {
        Err(e) => Err(e),
        Ok(st) => if st.mode == LexMode::InString {
            Err(
                LexErrV {
                    line: st.tline,
                    column: st.tcol,
                    message: "Unterminated string literal"@,
                },
            )
        } else {
            Ok(st.toks)
        },
    }
}

proof fn lemma_lex_fold_snoc(st: LexSt, chars: Seq<char>, i: int)
    requires
        0 <= i < chars.len(),
    ensures
        lex_fold(st, chars.subrange(0, i + 1)) == (match lex_fold(st, chars.subrange(0, i)) {
            Ok(m) => lex_step(m, chars[i]),
            Err(e) => Err(e),
        }),
    decreases i,
{
    let pre = chars.subrange(0, i + 1);
    if i == 0 {
        assert(pre.len() == 1);
        assert(pre[0] == chars[0]);
        assert(chars.subrange(0, 0).len() == 0);
        match lex_step(st, chars[0]) {
            Ok(st2) => {
                assert(pre.subrange(1, 1).len() == 0);
                assert(lex_fold(st2, pre.subrange(1, 1)) == Ok::<LexSt, LexErrV>(st2));
            },
            Err(e) => {},
        }
    } else {
        let rest = chars.subrange(1, chars.len() as int);
        assert(pre[0] == chars[0]);
        match lex_step(st, chars[0]) {
            Ok(st2) => {
                lemma_lex_fold_snoc(st2, rest, i - 1);
                assert(pre.subrange(1, pre.len() as int) =~= rest.subrange(0, i));
                assert(chars.subrange(0, i).subrange(1, i) =~= rest.subrange(0, i - 1));
                assert(rest[i - 1] == chars[i]);
                assert(chars.subrange(0, i)[0] == chars[0]);
            },
            Err(e) => {},
        }
    }
}

proof fn lemma_lex_fold_prefix_err(st: LexSt, chars: Seq<char>, i: int)
    requires
        0 <= i <= chars.len(),
        lex_fold(st, chars.subrange(0, i)) is Err,
    ensures
        lex_fold(st, chars) == lex_fold(st, chars.subrange(0, i)),
    decreases chars.len(),
{
    assert(i != 0) by {
        if i == 0 {
            assert(chars.subrange(0, 0).len() == 0);
        }
    }
    let pre = chars.subrange(0, i);
    assert(pre[0] == chars[0]);
    match lex_step(st, chars[0]) {
        Ok(st2) => {
            let rest = chars.subrange(1, chars.len() as int);
            assert(pre.subrange(1, pre.len() as int) =~= rest.subrange(0, i - 1));
            lemma_lex_fold_prefix_err(st2, rest, i - 1);
        },
        Err(e) => {},
    }
}

// ---------------------------------------------------------------------------
// The scanner
// ---------------------------------------------------------------------------

/// Scans a character sequence into tokens, implementing `spec_scan` exactly.
#[verifier::loop_isolation(false)]
#[verifier::rlimit(60)]
fn scan_chars(chars: &Vec<char>) -> (r: Result<Vec<Token>, LexerError>)
    requires
        chars@.len() < 0xFFFF_FFFE,
    ensures
        match r {
            Ok(v) => spec_scan(chars@) == Ok::<Seq<TokenV>, LexErrV>(tokens_view(v@)),
            Err(e) => spec_scan(chars@) == Err::<Seq<TokenV>, LexErrV>(e@),
        },
{
    let n = chars.len();
    let mut mode = LexMode::Idle;
    let mut prev_hash = false;
    let mut line: u32 = 1;
    let mut col: u32 = 0;
    let mut tline: u32 = 0;
    let mut tcol: u32 = 0;
    let mut text = String::new();
    let mut toks: Vec<Token> = Vec::new();
    let mut i: usize = 0;
    proof {
        assert(chars@.subrange(0, 0).len() == 0);
        assert(tokens_view(toks@) =~= Seq::<TokenV>::empty());
    }
    while i < n
        invariant
            i <= n,
            line as int <= 1 + i,
            col as int <= i,
            (mode == LexMode::Idle || mode == LexMode::SawHash || mode == LexMode::LineComment
                || mode == LexMode::BlockComment) ==> text@.len() == 0,
            lex_fold(lex_init(), chars@.subrange(0, i as int)) == Ok::<LexSt, LexErrV>(
                LexSt {
                    mode: mode,
                    prev_hash: prev_hash,
                    line: line as int,
                    col: col as int,
                    tline: tline as int,
                    tcol: tcol as int,
                    text: text@,
                    toks: tokens_view(toks@),
                },
            ),
        decreases n - i,
    {
        let ghost st = LexSt {
            mode: mode,
            prev_hash: prev_hash,
            line: line as int,
            col: col as int,
            tline: tline as int,
            tcol: tcol as int,
            text: text@,
            toks: tokens_view(toks@),
        };
        proof {
            lemma_lex_fold_snoc(lex_init(), chars@, i as int);
        }
        let c = chars[i];
        if c == '\n' {
            line = line + 1;
            col = 0;
        } else {
            col = col + 1;
        }
        match mode {
            LexMode::Idle => {
                idle_dispatch(
                    c,
                    line,
                    col,
                    &mut mode,
                    &mut tline,
                    &mut tcol,
                    &mut text,
                    &mut toks,
                );
            },
            LexMode::SawHash => {
                if c == '#' {
                    mode = LexMode::BlockComment;
                    prev_hash = false;
                } else if c == '\n' {
                    mode = LexMode::Idle;
                } else {
                    mode = LexMode::LineComment;
                }
            },
            LexMode::LineComment => {
                if c == '\n' {
                    mode = LexMode::Idle;
                }
            },
            LexMode::BlockComment => {
                if c == '#' {
                    if prev_hash {
                        mode = LexMode::Idle;
                        prev_hash = false;
                    } else {
                        prev_hash = true;
                    }
                } else {
                    prev_hash = false;
                }
            },
            LexMode::InString => {
                if c == '"' {
                    let tok = Token { token_type: TokenType::String, content: text, line: tline, column: tcol };
                    let ghost tv = tok@;
                    let ghost prev_toks = tokens_view(toks@);
                    toks.push(tok);
                    proof {
                        assert(tokens_view(toks@) =~= prev_toks.push(tv));
                    }
                    text = String::new();
                    mode = LexMode::Idle;
                } else if c == '\n' {
                    let e = LexerError {
                        line: tline,
                        column: tcol,
                        description: "Unterminated string literal".to_owned(),
                    };
                    proof {
                        assert(lex_step(st, c) == Err::<LexSt, LexErrV>(e@));
                        lemma_lex_fold_prefix_err(lex_init(), chars@, i + 1);
                        assert(chars@.subrange(0, chars@.len() as int) =~= chars@);
                    }
                    return Err(e);
                } else {
                    text.push(c);
                }
            },
            LexMode::InNumber => {
                if is_number_char(c, false) {
                    text.push(c);
                } else {
                    let tok = Token { token_type: TokenType::Number, content: text, line: tline, column: tcol };
                    let ghost tv = tok@;
                    let ghost prev_toks = tokens_view(toks@);
                    toks.push(tok);
                    proof {
                        assert(tokens_view(toks@) =~= prev_toks.push(tv));
                    }
                    text = String::new();
                    mode = LexMode::Idle;
                    idle_dispatch(
                        c,
                        line,
                        col,
                        &mut mode,
                        &mut tline,
                        &mut tcol,
                        &mut text,
                        &mut toks,
                    );
                }
            },
            LexMode::InIdent => {
                if is_identifier_char(c, false) {
                    text.push(c);
                } else {
                    let tok = Token { token_type: TokenType::Identifier, content: text, line: tline, column: tcol };
                    let ghost tv = tok@;
                    let ghost prev_toks = tokens_view(toks@);
                    toks.push(tok);
                    proof {
                        assert(tokens_view(toks@) =~= prev_toks.push(tv));
                    }
                    text = String::new();
                    mode = LexMode::Idle;
                    idle_dispatch(
                        c,
                        line,
                        col,
                        &mut mode,
                        &mut tline,
                        &mut tcol,
                        &mut text,
                        &mut toks,
                    );
                }
            },
        }
        proof {
            let st2 = LexSt {
                mode: mode,
                prev_hash: prev_hash,
                line: line as int,
                col: col as int,
                tline: tline as int,
                tcol: tcol as int,
                text: text@,
                toks: tokens_view(toks@),
            };
            assert(lex_step(st, c) == Ok::<LexSt, LexErrV>(st2));
        }
        i = i + 1;
    }
    proof {
        assert(chars@.subrange(0, n as int) =~= chars@);
    }
    if matches!(mode, LexMode::InString) {
        let e = LexerError {
            line: tline,
            column: tcol,
            description: "Unterminated string literal".to_owned(),
        };
        return Err(e);
    }
    Ok(toks)
}

/// Starts whatever token (or comment) `c` opens, from between tokens; the
/// position `(line, col)` is that of `c`. Implements `lex_idle_step`.
#[verifier::loop_isolation(false)]
fn idle_dispatch(
    c: char,
    line: u32,
    col: u32,
    mode: &mut LexMode,
    tline: &mut u32,
    tcol: &mut u32,
    text: &mut String,
    toks: &mut Vec<Token>,
) -> (r: ())
    requires
        *old(mode) == LexMode::Idle,
        old(text)@.len() == 0,
    ensures
        ({
            let st = LexSt {
                mode: LexMode::Idle,
                prev_hash: false,
                line: line as int,
                col: col as int,
                tline: *old(tline) as int,
                tcol: *old(tcol) as int,
                text: old(text)@,
                toks: tokens_view(old(toks)@),
            };
            let st2 = lex_idle_step(st, c);
            &&& *final(mode) == st2.mode
            &&& *final(tline) as int == st2.tline
            &&& *final(tcol) as int == st2.tcol
            &&& final(text)@ == st2.text
            &&& tokens_view(final(toks)@) == st2.toks
        }),
{
    let ghost st = LexSt {
        mode: LexMode::Idle,
        prev_hash: false,
        line: line as int,
        col: col as int,
        tline: *tline as int,
        tcol: *tcol as int,
        text: text@,
        toks: tokens_view(toks@),
    };
    if c == ' ' || c == '\t' || c == '\n' {
        return ;
    }
    if c == '#' {
        *mode = LexMode::SawHash;
        return ;
    }
    if c == '"' {
        *mode = LexMode::InString;
        *tline = line;
        *tcol = col;
        return ;
    }
    let kind = get_token_type(c);
    match kind {
        TokenType::Number => {
            *mode = LexMode::InNumber;
            *tline = line;
            *tcol = col;
            text.push(c);
            proof {
                assert(final(text)@ =~= seq![c]);
            }
        },
        TokenType::Identifier => {
            *mode = LexMode::InIdent;
            *tline = line;
            *tcol = col;
            text.push(c);
            proof {
                assert(final(text)@ =~= seq![c]);
            }
        },
        _ => {
            let mut content = String::new();
            content.push(c);
            let tok = Token { token_type: kind, content, line, column: col };
            let ghost tv = tok@;
            toks.push(tok);
            proof {
                assert(tv.text =~= seq![c]);
                assert(tokens_view(final(toks)@) =~= tokens_view(old(toks)@).push(tv));
            }
        },
    }
}

} // verus!

verus! {

// ---------------------------------------------------------------------------
// The token-stream validator
// ---------------------------------------------------------------------------

/// The opener-position message of a mismatched closing bracket.
pub open spec fn spec_unclosed_msg(line: int, column: int) -> Seq<char> {
    "Unclosed bracket in line "@ + dec_digits(line as nat) + " column "@ + dec_digits(
        column as nat,
    )
}

fn unclosed_message(line: u32, column: u32) -> (r: String)
    ensures
        r@ == spec_unclosed_msg(line as int, column as int),
{
    let mut out = "Unclosed bracket in line ".to_owned();
    out.append(u32_to_string(line).as_str());
    out.append(" column ");
    out.append(u32_to_string(column).as_str());
    proof {
        assert(out@ =~= spec_unclosed_msg(line as int, column as int));
    }
    out
}

/// The bracket pass: every closing bracket must pop a same-kinded opener off
/// the stack. Openers left on the stack at the end are not this pass's
/// concern; the adjacency pass reports them.
pub open spec fn bracket_pass(toks: Seq<TokenV>, i: int, stack: Seq<TokenV>) -> Option<LexErrV>
    decreases toks.len() - i,
{
    if !(0 <= i < toks.len()) {
        None
    } else {
        let t = toks[i];
        match t.kind {
            TokenType::Lparen | TokenType::Lbrace => bracket_pass(toks, i + 1, stack.push(t)),
            TokenType::Rparen => if stack.len() == 0 {
                Some(
                    LexErrV {
                        line: t.line,
                        column: t.column,
                        message: "Unexpected closing bracket"@,
                    },
                )
            } else if stack.last().kind != TokenType::Lparen {
                Some(
                    LexErrV {
                        line: t.line,
                        column: t.column,
                        message: spec_unclosed_msg(stack.last().line, stack.last().column),
                    },
                )
            } else {
                bracket_pass(toks, i + 1, stack.drop_last())
            },
            TokenType::Rbrace => if stack.len() == 0 {
                Some(
                    LexErrV {
                        line: t.line,
                        column: t.column,
                        message: "Unexpected closing bracket"@,
                    },
                )
            } else if stack.last().kind != TokenType::Lbrace {
                Some(
                    LexErrV {
                        line: t.line,
                        column: t.column,
                        message: spec_unclosed_msg(stack.last().line, stack.last().column),
                    },
                )
            } else {
                bracket_pass(toks, i + 1, stack.drop_last())
            },
            _ => bracket_pass(toks, i + 1, stack),
        }
    }
}

/// The strict adjacency pass, tracking bracket depth. End of input is only
/// acceptable after a comma or closer at depth zero.
pub open spec fn adj_pass(toks: Seq<TokenV>, i: int, level: int) -> Option<LexErrV>
    decreases toks.len() - i,
{
    if !(0 <= i < toks.len()) {
        None
    } else {
        let t = toks[i];
        let unterminated = LexErrV {
            line: t.line,
            column: t.column,
            message: "Unterminated left parentheses (')')"@,
        };
        match t.kind {
            TokenType::Identifier => if i + 1 >= toks.len() {
                Some(unterminated)
            } else if spec_is_not_continuer(toks[i + 1].kind) {
                Some(
                    LexErrV {
                        line: t.line,
                        column: t.column,
                        message: "Unexpected type after identifier"@,
                    },
                )
            } else {
                adj_pass(toks, i + 1, level)
            },
            TokenType::Number => if i + 1 >= toks.len() {
                Some(unterminated)
            } else if spec_is_not_continuer(toks[i + 1].kind) {
                Some(
                    LexErrV {
                        line: t.line,
                        column: t.column,
                        message: "Unexpected type after number"@,
                    },
                )
            } else {
                adj_pass(toks, i + 1, level)
            },
            TokenType::String => if i + 1 >= toks.len() {
                Some(unterminated)
            } else if spec_is_not_continuer(toks[i + 1].kind) {
                Some(
                    LexErrV {
                        line: t.line,
                        column: t.column,
                        message: "Unexpected type after string"@,
                    },
                )
            } else {
                adj_pass(toks, i + 1, level)
            },
            TokenType::Comma => if i + 1 >= toks.len() {
                if level == 0 {
                    None
                } else {
                    Some(unterminated)
                }
            } else if spec_is_not_after_continuer(toks[i + 1].kind) {
                Some(
                    LexErrV {
                        line: t.line,
                        column: t.column,
                        message: "Unexpected type after comma (',')"@,
                    },
                )
            } else {
                adj_pass(toks, i + 1, level)
            },
            TokenType::Lparen => if i + 1 >= toks.len() {
                Some(unterminated)
            } else if toks[i + 1].kind != TokenType::Comma && spec_is_not_after_continuer(
                toks[i + 1].kind,
            ) {
                Some(
                    LexErrV {
                        line: t.line,
                        column: t.column,
                        message: "Unexpected type after left parentheses ('(')"@,
                    },
                )
            } else {
                adj_pass(toks, i + 1, level + 1)
            },
            TokenType::Rparen => if i + 1 >= toks.len() {
                if level - 1 == 0 {
                    None
                } else {
                    Some(unterminated)
                }
            } else if toks[i + 1].kind != TokenType::Comma && toks[i + 1].kind != TokenType::Rparen
                && toks[i + 1].kind != TokenType::Rbrace {
                Some(
                    LexErrV {
                        line: t.line,
                        column: t.column,
                        message: "Unexpected type after right parentheses (')')"@,
                    },
                )
            } else {
                adj_pass(toks, i + 1, level - 1)
            },
            TokenType::Lbrace => if i + 1 >= toks.len() {
                Some(unterminated)
            } else if toks[i + 1].kind != TokenType::Comma && spec_is_not_after_continuer(
                toks[i + 1].kind,
            ) {
                Some(
                    LexErrV {
                        line: t.line,
                        column: t.column,
                        message: "Unexpected type after left brace ('{')"@,
                    },
                )
            } else {
                adj_pass(toks, i + 1, level + 1)
            },
            TokenType::Rbrace => if i + 1 >= toks.len() {
                if level - 1 == 0 {
                    None
                } else {
                    Some(unterminated)
                }
            } else if toks[i + 1].kind != TokenType::Comma && toks[i + 1].kind != TokenType::Rparen
                && toks[i + 1].kind != TokenType::Rbrace {
                Some(
                    LexErrV {
                        line: t.line,
                        column: t.column,
                        message: "Unexpected type after right brace ('}')"@,
                    },
                )
            } else {
                adj_pass(toks, i + 1, level - 1)
            },
            TokenType::Unknown => Some(
                LexErrV { line: t.line, column: t.column, message: "Unexpected token type"@ },
            ),
        }
    }
}

/// The lenient adjacency pass for line-oriented input: the same pair rules,
/// but a statement may end abruptly at end of input.
pub open spec fn adj_line_pass(toks: Seq<TokenV>, i: int) -> Option<LexErrV>
    decreases toks.len() - i,
{
    if !(0 <= i < toks.len()) {
        None
    } else {
        let t = toks[i];
        if i + 1 >= toks.len() {
            match t.kind {
                TokenType::Unknown => Some(
                    LexErrV { line: t.line, column: t.column, message: "Unexpected token type"@ },
                ),
                _ => None,
            }
        } else {
            match t.kind {
                TokenType::Identifier => if spec_is_not_continuer(toks[i + 1].kind) {
                    Some(
                        LexErrV {
                            line: t.line,
                            column: t.column,
                            message: "Unexpected type after identifier"@,
                        },
                    )
                } else {
                    adj_line_pass(toks, i + 1)
                },
                TokenType::Number => if spec_is_not_continuer(toks[i + 1].kind) {
                    Some(
                        LexErrV {
                            line: t.line,
                            column: t.column,
                            message: "Unexpected type after number"@,
                        },
                    )
                } else {
                    adj_line_pass(toks, i + 1)
                },
                TokenType::String => if spec_is_not_continuer(toks[i + 1].kind) {
                    Some(
                        LexErrV {
                            line: t.line,
                            column: t.column,
                            message: "Unexpected type after string"@,
                        },
                    )
                } else {
                    adj_line_pass(toks, i + 1)
                },
                TokenType::Comma => if spec_is_not_after_continuer(toks[i + 1].kind) {
                    Some(
                        LexErrV {
                            line: t.line,
                            column: t.column,
                            message: "Unexpected type after comma (',')"@,
                        },
                    )
                } else {
                    adj_line_pass(toks, i + 1)
                },
                TokenType::Lparen => if toks[i + 1].kind != TokenType::Comma
                    && spec_is_not_after_continuer(toks[i + 1].kind) {
                    Some(
                        LexErrV {
                            line: t.line,
                            column: t.column,
                            message: "Unexpected type after left parentheses ('(')"@,
                        },
                    )
                } else {
                    adj_line_pass(toks, i + 1)
                },
                TokenType::Rparen => if toks[i + 1].kind != TokenType::Comma && toks[i + 1].kind
                    != TokenType::Rparen && toks[i + 1].kind != TokenType::Rbrace {
                    Some(
                        LexErrV {
                            line: t.line,
                            column: t.column,
                            message: "Unexpected type after right parentheses (')')"@,
                        },
                    )
                } else {
                    adj_line_pass(toks, i + 1)
                },
                TokenType::Lbrace => if toks[i + 1].kind != TokenType::Comma
                    && spec_is_not_after_continuer(toks[i + 1].kind) {
                    Some(
                        LexErrV {
                            line: t.line,
                            column: t.column,
                            message: "Unexpected type after left brace ('{')"@,
                        },
                    )
                } else {
                    adj_line_pass(toks, i + 1)
                },
                TokenType::Rbrace => if toks[i + 1].kind != TokenType::Comma && toks[i + 1].kind
                    != TokenType::Rparen && toks[i + 1].kind != TokenType::Rbrace {
                    Some(
                        LexErrV {
                            line: t.line,
                            column: t.column,
                            message: "Unexpected type after right brace ('}')"@,
                        },
                    )
                } else {
                    adj_line_pass(toks, i + 1)
                },
                TokenType::Unknown => Some(
                    LexErrV { line: t.line, column: t.column, message: "Unexpected token type"@ },
                ),
            }
        }
    }
}

/// What the strict validator reports of a token sequence: nothing for the
/// empty sequence; the stream must start with an identifier, brackets must
/// match, and adjacent tokens must be compatible, with end of input legal
/// only at bracket depth zero.
pub open spec fn spec_validate(toks: Seq<TokenV>) -> Option<LexErrV> {
    if toks.len() == 0 {
        None
    } else if toks[0].kind != TokenType::Identifier {
        Some(LexErrV { line: 1, column: 1, message: "First element should be identifier"@ })
    } else {
        match bracket_pass(toks, 0, Seq::empty()) {
            Some(e) => Some(e),
            None => adj_pass(toks, 0, 0),
        }
    }
}

/// What the lenient validator reports: as `spec_validate`, but one statement
/// may end abruptly, for line-oriented callers distinguishing "need more
/// input" from "malformed input".
pub open spec fn spec_validate_line(toks: Seq<TokenV>) -> Option<LexErrV> {
    if toks.len() == 0 {
        None
    } else if toks[0].kind != TokenType::Identifier {
        Some(LexErrV { line: 1, column: 1, message: "First element should be identifier"@ })
    } else {
        match bracket_pass(toks, 0, Seq::empty()) {
            Some(e) => Some(e),
            None => adj_line_pass(toks, 0),
        }
    }
}

/// The strict full-pass validator; `spec_validate` says exactly when it
/// accepts and which error it reports.
#[verifier::loop_isolation(false)]
#[verifier::rlimit(60)]
pub fn are_tokens_correct(tokens: &Vec<Token>) -> (r: Result<(), LexerError>)
    ensures
        match r {
            Ok(_) => spec_validate(tokens_view(tokens@)) is None,
            Err(e) => spec_validate(tokens_view(tokens@)) == Some(e@),
        },
{
    let ghost tv = tokens_view(tokens@);
    let n = tokens.len();
    if n == 0 {
        return Ok(());
    }
    if !matches!(tokens[0].token_type, TokenType::Identifier) {
        return Err(
            LexerError {
                line: 1,
                column: 1,
                description: "First element should be identifier".to_owned(),
            },
        );
    }
    let mut stack: Vec<Token> = Vec::new();
    let mut i: usize = 0;
    proof {
        assert(tokens_view(stack@) =~= Seq::<TokenV>::empty());
    }
    while i < n
        invariant
            i <= n,
            bracket_pass(tv, 0, Seq::empty()) == bracket_pass(tv, i as int, tokens_view(stack@)),
        decreases n - i,
    {
        let ghost sv = tokens_view(stack@);
        let t = &tokens[i];
        match t.token_type {
            TokenType::Lparen | TokenType::Lbrace => {
                stack.push(t.clone());
                proof {
                    assert(tokens_view(stack@) =~= sv.push(t@));
                }
            },
            TokenType::Rparen => {
                match stack.pop() {
                    None => {
                        return Err(
                            LexerError {
                                line: t.line,
                                column: t.column,
                                description: "Unexpected closing bracket".to_owned(),
                            },
                        );
                    },
                    Some(open) => {
                        proof {
                            assert(sv.last() == open@);
                        }
                        if !matches!(open.token_type, TokenType::Lparen) {
                            return Err(
                                LexerError {
                                    line: t.line,
                                    column: t.column,
                                    description: unclosed_message(open.line, open.column),
                                },
                            );
                        }
                        proof {
                            assert(tokens_view(stack@) =~= sv.drop_last());
                        }
                    },
                }
            },
            TokenType::Rbrace => {
                match stack.pop() {
                    None => {
                        return Err(
                            LexerError {
                                line: t.line,
                                column: t.column,
                                description: "Unexpected closing bracket".to_owned(),
                            },
                        );
                    },
                    Some(open) => {
                        proof {
                            assert(sv.last() == open@);
                        }
                        if !matches!(open.token_type, TokenType::Lbrace) {
                            return Err(
                                LexerError {
                                    line: t.line,
                                    column: t.column,
                                    description: unclosed_message(open.line, open.column),
                                },
                            );
                        }
                        proof {
                            assert(tokens_view(stack@) =~= sv.drop_last());
                        }
                    },
                }
            },
            _ => {},
        }
        i = i + 1;
    }
    proof {
        assert(bracket_pass(tv, 0, Seq::empty()) is None);
    }
    let mut level: i128 = 0;
    i = 0;
    while i < n
        invariant
            i <= n,
            -(i as int) <= level as int <= i as int,
            bracket_pass(tv, 0, Seq::empty()) is None,
            adj_pass(tv, 0, 0) == adj_pass(tv, i as int, level as int),
        decreases n - i,
    {
        let t = &tokens[i];
        let at_end = i + 1 >= n;
        match t.token_type {
            TokenType::Identifier => {
                if at_end {
                    return Err(
                        LexerError {
                            line: t.line,
                            column: t.column,
                            description: "Unterminated left parentheses (')')".to_owned(),
                        },
                    );
                }
                if is_not_continuer(tokens[i + 1].clone()) {
                    return Err(
                        LexerError {
                            line: t.line,
                            column: t.column,
                            description: "Unexpected type after identifier".to_owned(),
                        },
                    );
                }
            },
            TokenType::Number => {
                if at_end {
                    return Err(
                        LexerError {
                            line: t.line,
                            column: t.column,
                            description: "Unterminated left parentheses (')')".to_owned(),
                        },
                    );
                }
                if is_not_continuer(tokens[i + 1].clone()) {
                    return Err(
                        LexerError {
                            line: t.line,
                            column: t.column,
                            description: "Unexpected type after number".to_owned(),
                        },
                    );
                }
            },
            TokenType::String => {
                if at_end {
                    return Err(
                        LexerError {
                            line: t.line,
                            column: t.column,
                            description: "Unterminated left parentheses (')')".to_owned(),
                        },
                    );
                }
                if is_not_continuer(tokens[i + 1].clone()) {
                    return Err(
                        LexerError {
                            line: t.line,
                            column: t.column,
                            description: "Unexpected type after string".to_owned(),
                        },
                    );
                }
            },
            TokenType::Comma => {
                if at_end {
                    if level == 0 {
                        break ;
                    }
                    return Err(
                        LexerError {
                            line: t.line,
                            column: t.column,
                            description: "Unterminated left parentheses (')')".to_owned(),
                        },
                    );
                }
                if is_not_after_continuer(tokens[i + 1].clone()) {
                    return Err(
                        LexerError {
                            line: t.line,
                            column: t.column,
                            description: "Unexpected type after comma (',')".to_owned(),
                        },
                    );
                }
            },
            TokenType::Lparen => {
                level = level + 1;
                if at_end {
                    return Err(
                        LexerError {
                            line: t.line,
                            column: t.column,
                            description: "Unterminated left parentheses (')')".to_owned(),
                        },
                    );
                }
                let next = tokens[i + 1].clone();
                if !matches!(next.token_type, TokenType::Comma) && is_not_after_continuer(next) {
                    return Err(
                        LexerError {
                            line: t.line,
                            column: t.column,
                            description: "Unexpected type after left parentheses ('(')".to_owned(),
                        },
                    );
                }
            },
            TokenType::Rparen => {
                level = level - 1;
                if at_end {
                    if level == 0 {
                        break ;
                    }
                    return Err(
                        LexerError {
                            line: t.line,
                            column: t.column,
                            description: "Unterminated left parentheses (')')".to_owned(),
                        },
                    );
                }
                let next_kind = tokens[i + 1].token_type;
                if !matches!(next_kind, TokenType::Comma) && !matches!(
                    next_kind,
                    TokenType::Rparen,
                ) && !matches!(next_kind, TokenType::Rbrace) {
                    return Err(
                        LexerError {
                            line: t.line,
                            column: t.column,
                            description: "Unexpected type after right parentheses (')')".to_owned(),
                        },
                    );
                }
            },
            TokenType::Lbrace => {
                level = level + 1;
                if at_end {
                    return Err(
                        LexerError {
                            line: t.line,
                            column: t.column,
                            description: "Unterminated left parentheses (')')".to_owned(),
                        },
                    );
                }
                let next = tokens[i + 1].clone();
                if !matches!(next.token_type, TokenType::Comma) && is_not_after_continuer(next) {
                    return Err(
                        LexerError {
                            line: t.line,
                            column: t.column,
                            description: "Unexpected type after left brace ('{')".to_owned(),
                        },
                    );
                }
            },
            TokenType::Rbrace => {
                level = level - 1;
                if at_end {
                    if level == 0 {
                        break ;
                    }
                    return Err(
                        LexerError {
                            line: t.line,
                            column: t.column,
                            description: "Unterminated left parentheses (')')".to_owned(),
                        },
                    );
                }
                let next_kind = tokens[i + 1].token_type;
                if !matches!(next_kind, TokenType::Comma) && !matches!(
                    next_kind,
                    TokenType::Rparen,
                ) && !matches!(next_kind, TokenType::Rbrace) {
                    return Err(
                        LexerError {
                            line: t.line,
                            column: t.column,
                            description: "Unexpected type after right brace ('}')".to_owned(),
                        },
                    );
                }
            },
            TokenType::Unknown => {
                return Err(
                    LexerError {
                        line: t.line,
                        column: t.column,
                        description: "Unexpected token type".to_owned(),
                    },
                );
            },
        }
        i = i + 1;
    }
    Ok(())
}

/// The lenient full-pass validator for line-oriented input;
/// `spec_validate_line` says exactly when it accepts.
#[verifier::loop_isolation(false)]
#[verifier::rlimit(60)]
pub fn are_line_tokens_correct(tokens: &Vec<Token>) -> (r: Result<(), LexerError>)
    ensures
        match r {
            Ok(_) => spec_validate_line(tokens_view(tokens@)) is None,
            Err(e) => spec_validate_line(tokens_view(tokens@)) == Some(e@),
        },
{
    let ghost tv = tokens_view(tokens@);
    let n = tokens.len();
    if n == 0 {
        return Ok(());
    }
    if !matches!(tokens[0].token_type, TokenType::Identifier) {
        return Err(
            LexerError {
                line: 1,
                column: 1,
                description: "First element should be identifier".to_owned(),
            },
        );
    }
    let mut stack: Vec<Token> = Vec::new();
    let mut i: usize = 0;
    proof {
        assert(tokens_view(stack@) =~= Seq::<TokenV>::empty());
    }
    while i < n
        invariant
            i <= n,
            bracket_pass(tv, 0, Seq::empty()) == bracket_pass(tv, i as int, tokens_view(stack@)),
        decreases n - i,
    {
        let ghost sv = tokens_view(stack@);
        let t = &tokens[i];
        match t.token_type {
            TokenType::Lparen | TokenType::Lbrace => {
                stack.push(t.clone());
                proof {
                    assert(tokens_view(stack@) =~= sv.push(t@));
                }
            },
            TokenType::Rparen => {
                match stack.pop() {
                    None => {
                        return Err(
                            LexerError {
                                line: t.line,
                                column: t.column,
                                description: "Unexpected closing bracket".to_owned(),
                            },
                        );
                    },
                    Some(open) => {
                        proof {
                            assert(sv.last() == open@);
                        }
                        if !matches!(open.token_type, TokenType::Lparen) {
                            return Err(
                                LexerError {
                                    line: t.line,
                                    column: t.column,
                                    description: unclosed_message(open.line, open.column),
                                },
                            );
                        }
                        proof {
                            assert(tokens_view(stack@) =~= sv.drop_last());
                        }
                    },
                }
            },
            TokenType::Rbrace => {
                match stack.pop() {
                    None => {
                        return Err(
                            LexerError {
                                line: t.line,
                                column: t.column,
                                description: "Unexpected closing bracket".to_owned(),
                            },
                        );
                    },
                    Some(open) => {
                        proof {
                            assert(sv.last() == open@);
                        }
                        if !matches!(open.token_type, TokenType::Lbrace) {
                            return Err(
                                LexerError {
                                    line: t.line,
                                    column: t.column,
                                    description: unclosed_message(open.line, open.column),
                                },
                            );
                        }
                        proof {
                            assert(tokens_view(stack@) =~= sv.drop_last());
                        }
                    },
                }
            },
            _ => {},
        }
        i = i + 1;
    }
    proof {
        assert(bracket_pass(tv, 0, Seq::empty()) is None);
    }
    i = 0;
    while i < n
        invariant
            i <= n,
            bracket_pass(tv, 0, Seq::empty()) is None,
            adj_line_pass(tv, 0) == adj_line_pass(tv, i as int),
        decreases n - i,
    {
        let t = &tokens[i];
        if i + 1 >= n {
            match t.token_type {
                TokenType::Unknown => {
                    return Err(
                        LexerError {
                            line: t.line,
                            column: t.column,
                            description: "Unexpected token type".to_owned(),
                        },
                    );
                },
                _ => {
                    break ;
                },
            }
        }
        let next = tokens[i + 1].clone();
        match t.token_type {
            TokenType::Identifier => {
                if is_not_continuer(next) {
                    return Err(
                        LexerError {
                            line: t.line,
                            column: t.column,
                            description: "Unexpected type after identifier".to_owned(),
                        },
                    );
                }
            },
            TokenType::Number => {
                if is_not_continuer(next) {
                    return Err(
                        LexerError {
                            line: t.line,
                            column: t.column,
                            description: "Unexpected type after number".to_owned(),
                        },
                    );
                }
            },
            TokenType::String => {
                if is_not_continuer(next) {
                    return Err(
                        LexerError {
                            line: t.line,
                            column: t.column,
                            description: "Unexpected type after string".to_owned(),
                        },
                    );
                }
            },
            TokenType::Comma => {
                if is_not_after_continuer(next) {
                    return Err(
                        LexerError {
                            line: t.line,
                            column: t.column,
                            description: "Unexpected type after comma (',')".to_owned(),
                        },
                    );
                }
            },
            TokenType::Lparen => {
                if !matches!(next.token_type, TokenType::Comma) && is_not_after_continuer(next) {
                    return Err(
                        LexerError {
                            line: t.line,
                            column: t.column,
                            description: "Unexpected type after left parentheses ('(')".to_owned(),
                        },
                    );
                }
            },
            TokenType::Rparen => {
                if !matches!(next.token_type, TokenType::Comma) && !matches!(
                    next.token_type,
                    TokenType::Rparen,
                ) && !matches!(next.token_type, TokenType::Rbrace) {
                    return Err(
                        LexerError {
                            line: t.line,
                            column: t.column,
                            description: "Unexpected type after right parentheses (')')".to_owned(),
                        },
                    );
                }
            },
            TokenType::Lbrace => {
                if !matches!(next.token_type, TokenType::Comma) && is_not_after_continuer(next) {
                    return Err(
                        LexerError {
                            line: t.line,
                            column: t.column,
                            description: "Unexpected type after left brace ('{')".to_owned(),
                        },
                    );
                }
            },
            TokenType::Rbrace => {
                if !matches!(next.token_type, TokenType::Comma) && !matches!(
                    next.token_type,
                    TokenType::Rparen,
                ) && !matches!(next.token_type, TokenType::Rbrace) {
                    return Err(
                        LexerError {
                            line: t.line,
                            column: t.column,
                            description: "Unexpected type after right brace ('}')".to_owned(),
                        },
                    );
                }
            },
            TokenType::Unknown => {
                return Err(
                    LexerError {
                        line: t.line,
                        column: t.column,
                        description: "Unexpected token type".to_owned(),
                    },
                );
            },
        }
        i = i + 1;
    }
    Ok(())
}

// ---------------------------------------------------------------------------
// Entry points
// ---------------------------------------------------------------------------

/// What scanning a source unit yields: a newline is appended so that a token
/// in progress at end of input is closed, then the characters are scanned.
pub open spec fn spec_tokenize(code: Seq<char>) -> Result<Seq<TokenV>, LexErrV> {
    spec_scan(code.push('\n'))
}

/// Scanning followed by the strict validator: the tokens of a whole source
/// unit, or its first error.
pub open spec fn spec_checked_tokens(code: Seq<char>) -> Result<Seq<TokenV>, LexErrV> {
    match spec_tokenize(code) {
        Err(e) => Err(e),
        Ok(toks) => match spec_validate(toks) {
            Some(e) => Err(e),
            None => Ok(toks),
        },
    }
}

/// Scanning followed by the lenient validator, for line-oriented input.
pub open spec fn spec_line_checked_tokens(code: Seq<char>) -> Result<Seq<TokenV>, LexErrV> {
    match spec_tokenize(code) {
        Err(e) => Err(e),
        Ok(toks) => match spec_validate_line(toks) {
            Some(e) => Err(e),
            None => Ok(toks),
        },
    }
}

/// Scans a source unit and validates the result strictly.
pub fn to_tokens_rev(code: &str) -> (r: Result<Vec<Token>, LexerError>)
    requires
        code@.len() < 0xFFFF_FFFD,
    ensures
        match r {
            Ok(v) => spec_checked_tokens(code@) == Ok::<Seq<TokenV>, LexErrV>(tokens_view(v@)),
            Err(e) => spec_checked_tokens(code@) == Err::<Seq<TokenV>, LexErrV>(e@),
        },
{
    let mut chars = str_to_chars(code);
    chars.push('\n');
    proof {
        assert(chars@ =~= code@.push('\n'));
    }
    match scan_chars(&chars) {
        Err(e) => Err(e),
        Ok(v) => match are_tokens_correct(&v) {
            Ok(_) => Ok(v),
            Err(e) => Err(e),
        },
    }
}

/// Scans a source unit and validates the result strictly.
pub fn to_tokens(code: &str) -> (r: Result<Vec<Token>, LexerError>)
    requires
        code@.len() < 0xFFFF_FFFD,
    ensures
        match r {
            Ok(v) => spec_checked_tokens(code@) == Ok::<Seq<TokenV>, LexErrV>(tokens_view(v@)),
            Err(e) => spec_checked_tokens(code@) == Err::<Seq<TokenV>, LexErrV>(e@),
        },
{
    to_tokens_rev(code)
}

/// Scans one input line and validates it leniently.
pub fn get_checked_tokens(code: &str) -> (r: Result<Vec<Token>, LexerError>)
    requires
        code@.len() < 0xFFFF_FFFD,
    ensures
        match r {
            Ok(v) => spec_line_checked_tokens(code@) == Ok::<Seq<TokenV>, LexErrV>(
                tokens_view(v@),
            ),
            Err(e) => spec_line_checked_tokens(code@) == Err::<Seq<TokenV>, LexErrV>(e@),
        },
{
    let mut chars = str_to_chars(code);
    chars.push('\n');
    proof {
        assert(chars@ =~= code@.push('\n'));
    }
    match scan_chars(&chars) {
        Err(e) => Err(e),
        Ok(v) => match are_line_tokens_correct(&v) {
            Ok(_) => Ok(v),
            Err(e) => Err(e),
        },
    }
}

/// The error that one input line would get from the lenient check, if any.
pub fn check_line_error(code: &str) -> (r: Option<LexerError>)
    requires
        code@.len() < 0xFFFF_FFFD,
    ensures
        match r {
            Some(e) => spec_line_checked_tokens(code@) == Err::<Seq<TokenV>, LexErrV>(e@),
            None => spec_line_checked_tokens(code@) is Ok,
        },
{
    match get_checked_tokens(code) {
        Ok(_) => None,
        Err(e) => Some(e),
    }
}

} // verus!

verus! {

// ---------------------------------------------------------------------------
// Properties of the validator
// ---------------------------------------------------------------------------

/// Lexing depends on the character sequence alone: two sources with the same
/// characters yield the same checked token sequence (and the same error).
pub proof fn lemma_tokenize_deterministic(a: Seq<char>, b: Seq<char>)
    requires
        a == b,
    ensures
        spec_checked_tokens(a) == spec_checked_tokens(b),
{
}

/// Pushdown matching over bracket kinds alone: openers push their kind, each
/// closer must pop a same-kinded opener. Yields the kinds still open at the
/// end, or `None` on a mismatched closer.
pub open spec fn bracket_fold(kinds: Seq<TokenType>, i: int, stack: Seq<TokenType>) -> Option<
    Seq<TokenType>,
>
    decreases kinds.len() - i,
{
    if !(0 <= i < kinds.len()) {
        Some(stack)
    } else {
        match kinds[i] {
            TokenType::Lparen | TokenType::Lbrace => bracket_fold(
                kinds,
                i + 1,
                stack.push(kinds[i]),
            ),
            TokenType::Rparen => if stack.len() > 0 && stack.last() == TokenType::Lparen {
                bracket_fold(kinds, i + 1, stack.drop_last())
            } else {
                None
            },
            TokenType::Rbrace => if stack.len() > 0 && stack.last() == TokenType::Lbrace {
                bracket_fold(kinds, i + 1, stack.drop_last())
            } else {
                None
            },
            _ => bracket_fold(kinds, i + 1, stack),
        }
    }
}

pub open spec fn token_kinds(toks: Seq<TokenV>) -> Seq<TokenType> {
    toks.map_values(|t: TokenV| t.kind)
}

/// Openers minus closers in the suffix starting at `i`.
pub open spec fn bracket_net(kinds: Seq<TokenType>, i: int) -> int
    decreases kinds.len() - i,
{
    if !(0 <= i < kinds.len()) {
        0
    } else {
        let d: int = match kinds[i] {
            TokenType::Lparen | TokenType::Lbrace => 1,
            TokenType::Rparen | TokenType::Rbrace => -1,
            _ => 0,
        };
        d + bracket_net(kinds, i + 1)
    }
}

proof fn lemma_bracket_pass_fold(toks: Seq<TokenV>, i: int, stack: Seq<TokenV>)
    requires
        0 <= i <= toks.len(),
    ensures
        bracket_pass(toks, i, stack) is None <==> bracket_fold(
            token_kinds(toks),
            i,
            token_kinds(stack),
        ) is Some,
    decreases toks.len() - i,
{
    let kinds = token_kinds(toks);
    let ks = token_kinds(stack);
    if 0 <= i < toks.len() {
        assert(kinds[i] == toks[i].kind);
        match toks[i].kind {
            TokenType::Lparen | TokenType::Lbrace => {
                lemma_bracket_pass_fold(toks, i + 1, stack.push(toks[i]));
                assert(token_kinds(stack.push(toks[i])) =~= ks.push(kinds[i]));
            },
            TokenType::Rparen => {
                if stack.len() > 0 {
                    assert(ks.last() == stack.last().kind);
                    if stack.last().kind == TokenType::Lparen {
                        lemma_bracket_pass_fold(toks, i + 1, stack.drop_last());
                        assert(token_kinds(stack.drop_last()) =~= ks.drop_last());
                    }
                }
            },
            TokenType::Rbrace => {
                if stack.len() > 0 {
                    assert(ks.last() == stack.last().kind);
                    if stack.last().kind == TokenType::Lbrace {
                        lemma_bracket_pass_fold(toks, i + 1, stack.drop_last());
                        assert(token_kinds(stack.drop_last()) =~= ks.drop_last());
                    }
                }
            },
            _ => {
                lemma_bracket_pass_fold(toks, i + 1, stack);
            },
        }
    }
}

proof fn lemma_bracket_fold_depth(kinds: Seq<TokenType>, i: int, stack: Seq<TokenType>)
    requires
        0 <= i <= kinds.len(),
        bracket_fold(kinds, i, stack) is Some,
    ensures
        bracket_fold(kinds, i, stack)->0.len() == stack.len() + bracket_net(kinds, i),
    decreases kinds.len() - i,
{
    if 0 <= i < kinds.len() {
        match kinds[i] {
            TokenType::Lparen | TokenType::Lbrace => {
                lemma_bracket_fold_depth(kinds, i + 1, stack.push(kinds[i]));
            },
            TokenType::Rparen | TokenType::Rbrace => {
                lemma_bracket_fold_depth(kinds, i + 1, stack.drop_last());
            },
            _ => {
                lemma_bracket_fold_depth(kinds, i + 1, stack);
            },
        }
    }
}

proof fn lemma_adj_none_net(toks: Seq<TokenV>, i: int, level: int)
    requires
        0 <= i < toks.len(),
        adj_pass(toks, i, level) is None,
    ensures
        level + bracket_net(token_kinds(toks), i) == 0,
    decreases toks.len() - i,
{
    let kinds = token_kinds(toks);
    assert(kinds[i] == toks[i].kind);
    if i + 1 < toks.len() {
        assert(bracket_net(kinds, i + 1 as int) == bracket_net(kinds, i) - (match kinds[i] {
            TokenType::Lparen | TokenType::Lbrace => 1int,
            TokenType::Rparen | TokenType::Rbrace => -1int,
            _ => 0int,
        }));
        match toks[i].kind {
            TokenType::Identifier | TokenType::Number | TokenType::String | TokenType::Comma => {
                lemma_adj_none_net(toks, i + 1, level);
            },
            TokenType::Lparen | TokenType::Lbrace => {
                lemma_adj_none_net(toks, i + 1, level + 1);
            },
            TokenType::Rparen | TokenType::Rbrace => {
                lemma_adj_none_net(toks, i + 1, level - 1);
            },
            TokenType::Unknown => {},
        }
    } else {
        assert(bracket_net(kinds, i + 1 as int) == 0);
    }
}

/// The validator accepts only token sequences whose brackets fully match:
/// pushing every opener and popping each closer against a same-kinded opener
/// succeeds, and nothing remains open at end of input. (The converse does
/// not hold on its own: a sequence such as a lone number token has trivially
/// matched brackets but still fails the adjacency rules.)
pub proof fn lemma_validator_bracket_invariant(toks: Seq<TokenV>)
    requires
        spec_validate(toks) is None,
    ensures
        bracket_fold(token_kinds(toks), 0, Seq::empty()) == Some(Seq::<TokenType>::empty()),
{
    let kinds = token_kinds(toks);
    if toks.len() == 0 {
        assert(bracket_fold(kinds, 0, Seq::empty()) == Some(Seq::<TokenType>::empty()));
    } else {
        assert(bracket_pass(toks, 0, Seq::empty()) is None);
        lemma_bracket_pass_fold(toks, 0, Seq::empty());
        assert(token_kinds(Seq::<TokenV>::empty()) =~= Seq::<TokenType>::empty());
        lemma_bracket_fold_depth(kinds, 0, Seq::empty());
        assert(adj_pass(toks, 0, 0) is None);
        lemma_adj_none_net(toks, 0, 0);
        assert(bracket_fold(kinds, 0, Seq::empty())->0 =~= Seq::<TokenType>::empty());
    }
}

proof fn lemma_adj_none_pairs(toks: Seq<TokenV>, i: int, level: int, j: int)
    requires
        0 <= i <= j,
        j < toks.len() - 1,
        adj_pass(toks, i, level) is None,
        toks[j].kind == TokenType::Number || toks[j].kind == TokenType::String || toks[j].kind
            == TokenType::Identifier,
    ensures
        !spec_is_not_continuer(toks[j + 1].kind),
    decreases j - i,
{
    if i == j {
    } else {
        match toks[i].kind {
            TokenType::Identifier | TokenType::Number | TokenType::String | TokenType::Comma => {
                lemma_adj_none_pairs(toks, i + 1, level, j);
            },
            TokenType::Lparen | TokenType::Lbrace => {
                lemma_adj_none_pairs(toks, i + 1, level + 1, j);
            },
            TokenType::Rparen | TokenType::Rbrace => {
                lemma_adj_none_pairs(toks, i + 1, level - 1, j);
            },
            TokenType::Unknown => {},
        }
    }
}

/// In a token sequence the validator accepts, no number or string token is
/// immediately followed by a number, string or identifier: after such a
/// token only a bracket or a comma may stand.
pub proof fn lemma_validator_adjacency_invariant(toks: Seq<TokenV>, j: int)
    requires
        spec_validate(toks) is None,
        0 <= j < toks.len() - 1,
        toks[j].kind == TokenType::Number || toks[j].kind == TokenType::String,
    ensures
        toks[j + 1].kind != TokenType::Number,
        toks[j + 1].kind != TokenType::String,
        toks[j + 1].kind != TokenType::Identifier,
{
    assert(adj_pass(toks, 0, 0) is None);
    lemma_adj_none_pairs(toks, 0, 0, j);
}

} // verus!

verus! {

/// Whether token kind `b` may immediately follow token kind `a`: the
/// validator's adjacency table.
pub open spec fn pair_ok(a: TokenType, b: TokenType) -> bool {
    match a {
        TokenType::Identifier | TokenType::Number | TokenType::String => !spec_is_not_continuer(b),
        TokenType::Comma => !spec_is_not_after_continuer(b),
        TokenType::Lparen | TokenType::Lbrace => b == TokenType::Comma
            || !spec_is_not_after_continuer(b),
        TokenType::Rparen | TokenType::Rbrace => b == TokenType::Comma || b == TokenType::Rparen
            || b == TokenType::Rbrace,
        TokenType::Unknown => false,
    }
}

/// The adjacency table, over a whole sequence.
pub open spec fn pairs_ok(toks: Seq<TokenV>) -> bool {
    forall|j: int| 0 <= j < toks.len() - 1 ==> pair_ok((#[trigger] toks[j]).kind, toks[j + 1].kind)
}

/// The kinds on which a statement may end.
pub open spec fn closing_kind(k: TokenType) -> bool {
    k == TokenType::Comma || k == TokenType::Rparen || k == TokenType::Rbrace
}

proof fn lemma_adj_none_all_pairs(toks: Seq<TokenV>, i: int, level: int, j: int)
    requires
        0 <= i <= j,
        j < toks.len() - 1,
        adj_pass(toks, i, level) is None,
    ensures
        pair_ok(toks[j].kind, toks[j + 1].kind),
    decreases j - i,
{
    if i < j {
        match toks[i].kind {
            TokenType::Identifier | TokenType::Number | TokenType::String | TokenType::Comma => {
                lemma_adj_none_all_pairs(toks, i + 1, level, j);
            },
            TokenType::Lparen | TokenType::Lbrace => {
                lemma_adj_none_all_pairs(toks, i + 1, level + 1, j);
            },
            TokenType::Rparen | TokenType::Rbrace => {
                lemma_adj_none_all_pairs(toks, i + 1, level - 1, j);
            },
            TokenType::Unknown => {},
        }
    }
}

proof fn lemma_adj_none_ends(toks: Seq<TokenV>, i: int, level: int)
    requires
        0 <= i < toks.len(),
        adj_pass(toks, i, level) is None,
    ensures
        closing_kind(toks.last().kind),
    decreases toks.len() - i,
{
    if i + 1 < toks.len() {
        match toks[i].kind {
            TokenType::Identifier | TokenType::Number | TokenType::String | TokenType::Comma => {
                lemma_adj_none_ends(toks, i + 1, level);
            },
            TokenType::Lparen | TokenType::Lbrace => {
                lemma_adj_none_ends(toks, i + 1, level + 1);
            },
            TokenType::Rparen | TokenType::Rbrace => {
                lemma_adj_none_ends(toks, i + 1, level - 1);
            },
            TokenType::Unknown => {},
        }
    }
}

proof fn lemma_adj_accepts(toks: Seq<TokenV>, i: int, level: int)
    requires
        0 <= i < toks.len(),
        forall|j: int|
            i <= j < toks.len() - 1 ==> pair_ok((#[trigger] toks[j]).kind, toks[j + 1].kind),
        closing_kind(toks.last().kind),
        level + bracket_net(token_kinds(toks), i) == 0,
    ensures
        adj_pass(toks, i, level) is None,
    decreases toks.len() - i,
{
    let kinds = token_kinds(toks);
    assert(kinds[i] == toks[i].kind);
    if i + 1 >= toks.len() {
        assert(toks[i] == toks.last());
        assert(bracket_net(kinds, i + 1 as int) == 0);
    } else {
        assert(pair_ok(toks[i].kind, toks[i + 1].kind));
        assert(bracket_net(kinds, i + 1 as int) == bracket_net(kinds, i) - (match kinds[i] {
            TokenType::Lparen | TokenType::Lbrace => 1int,
            TokenType::Rparen | TokenType::Rbrace => -1int,
            _ => 0int,
        }));
        match toks[i].kind {
            TokenType::Identifier | TokenType::Number | TokenType::String | TokenType::Comma => {
                lemma_adj_accepts(toks, i + 1, level);
            },
            TokenType::Lparen | TokenType::Lbrace => {
                lemma_adj_accepts(toks, i + 1, level + 1);
            },
            TokenType::Rparen | TokenType::Rbrace => {
                lemma_adj_accepts(toks, i + 1, level - 1);
            },
            TokenType::Unknown => {},
        }
    }
}

/// The validator's acceptance, exactly: it accepts the empty stream, and
/// otherwise exactly the streams that start with an identifier, whose
/// brackets match completely (every closer pops a same-kinded opener and
/// none remains open at end of input), whose adjacent tokens are
/// compatible, and which end with a comma or a closer.
#[verifier::rlimit(100)]
pub proof fn lemma_validator_characterization(toks: Seq<TokenV>)
    ensures
        spec_validate(toks) is None <==> (toks.len() == 0 || (toks[0].kind
            == TokenType::Identifier && bracket_fold(token_kinds(toks), 0, Seq::empty()) == Some(
            Seq::<TokenType>::empty(),
        ) && pairs_ok(toks) && closing_kind(toks.last().kind))),
{
    let kinds = token_kinds(toks);
    if toks.len() == 0 {
        return ;
    }
    if spec_validate(toks) is None {
        lemma_validator_bracket_invariant(toks);
        assert(adj_pass(toks, 0, 0) is None);
        assert forall|j: int|
            0 <= j < toks.len() - 1 implies pair_ok(
            (#[trigger] toks[j]).kind,
            toks[j + 1].kind,
        ) by {
            lemma_adj_none_all_pairs(toks, 0, 0, j);
        }
        lemma_adj_none_ends(toks, 0, 0);
    }
    if toks[0].kind == TokenType::Identifier && bracket_fold(kinds, 0, Seq::empty()) == Some(
        Seq::<TokenType>::empty(),
    ) && pairs_ok(toks) && closing_kind(toks.last().kind) {
        lemma_bracket_pass_fold(toks, 0, Seq::empty());
        assert(token_kinds(Seq::<TokenV>::empty()) =~= Seq::<TokenType>::empty());
        assert(bracket_pass(toks, 0, Seq::empty()) is None);
        lemma_bracket_fold_depth(kinds, 0, Seq::empty());
        lemma_adj_accepts(toks, 0, 0);
    }
}

} // verus!
