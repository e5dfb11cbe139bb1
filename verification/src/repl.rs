//! The interactive front-end's logic: completion candidates, the shared
//! hint, candidate highlighting, line-completeness checking, the prompt, and
//! one read-evaluate-print step. The front-end that owns the terminal runs
//! the loop and calls in here.

use vstd::prelude::*;
use vstd::string::*;
use crate::console::{flush_stdout, read_stdin_line, write_stdout};
use crate::fs::FileSystem;
use crate::lexer::{get_checked_tokens, spec_is_identifier_char, spec_line_checked_tokens};
use crate::runner::{run_line_scope, EvalError};
use crate::scope::{assoc_get, Scope, ScopeId};
use crate::text::str_to_chars;
use crate::types::{Str, TokenType, TokenV, Variant, VariantView};

verus! {

/// A failure of the interactive loop itself.
#[derive(Debug)]
pub struct ReplError {
    pub description: String,
}

impl ReplError {
    pub fn new(description: &str) -> (r: ReplError)
        ensures
            r.description@ == description@,
    {
        ReplError { description: description.to_owned() }
    }
}

/// One completion candidate: the text to insert and how it is shown as a
/// hint.
pub struct VarFuncCandidate {
    pub text: String,
    pub hint: String,
}

impl VarFuncCandidate {
    pub fn new(text: String) -> (r: VarFuncCandidate)
        ensures
            r.text@ == text@,
            r.hint@ == " # "@ + text@,
    {
        let mut hint = " # ".to_owned();
        hint.append(text.as_str());
        proof {
            assert(hint@ =~= " # "@ + text@);
        }
        VarFuncCandidate { text, hint }
    }
}

// ---------------------------------------------------------------------------
// Completion
// ---------------------------------------------------------------------------

/// The start of the identifier that ends at `pos`: scanning back over
/// identifier characters.
pub open spec fn sp_word_start(s: Seq<char>, pos: int) -> int
    decreases (if pos >= 0 { pos } else { 0 }),
{
    if pos > 0 && pos <= s.len() && spec_is_identifier_char(s[pos - 1], false) {
        sp_word_start(s, pos - 1)
    } else {
        pos
    }
}

/// Whether `name` completes `word`: a strict extension of it.
pub open spec fn sp_completes(name: Seq<char>, word: Seq<char>) -> bool {
    name.len() >= word.len() && name.subrange(0, word.len() as int) == word && name != word
}

/// The names of a table that complete `word`, in table order.
pub open spec fn sp_matching_names(names: Seq<Seq<char>>, word: Seq<char>) -> Seq<Seq<char>>
    decreases names.len(),
{
    if names.len() == 0 {
        Seq::empty()
    } else {
        let rest = sp_matching_names(names.drop_last(), word);
        if sp_completes(names.last(), word) {
            rest.push(names.last())
        } else {
            rest
        }
    }
}

proof fn lemma_matching_names_complete(names: Seq<Seq<char>>, word: Seq<char>, k: int)
    requires
        0 <= k < sp_matching_names(names, word).len(),
    ensures
        sp_completes(sp_matching_names(names, word)[k], word),
    decreases names.len(),
{
    if names.len() > 0 {
        let rest = sp_matching_names(names.drop_last(), word);
        if sp_completes(names.last(), word) {
            if k < rest.len() {
                lemma_matching_names_complete(names.drop_last(), word, k);
            }
        } else {
            lemma_matching_names_complete(names.drop_last(), word, k);
        }
    }
}

/// The scope snapshot the interactive helpers read: completion and
/// highlighting consult the frame's own tables.
pub struct VarFuncHelper {
    scope: Scope,
    at: ScopeId,
}

impl VarFuncHelper {
    pub closed spec fn inv(&self) -> bool {
        &&& self.scope.wf()
        &&& self.at < self.scope@.len()
    }

    pub closed spec fn frame(&self) -> crate::scope::FrameView {
        self.scope@[self.at as int]
    }

    /// Snapshots the given scope for the interactive helpers.
    pub fn new(scope: &Scope, at: ScopeId) -> (r: VarFuncHelper)
        requires
            scope.wf(),
            at < scope@.len(),
        ensures
            r.inv(),
            r.frame() == scope@[at as int],
    {
        VarFuncHelper { scope: scope.clone(), at }
    }

    /// The completion candidates for the identifier ending at `pos`: every
    /// variable and function name of the frame that strictly extends it, in
    /// table order, variables first; and the position the completions start
    /// at.
    #[verifier::loop_isolation(false)]
    pub fn get_completion_list(&self, line: &str, pos: usize) -> (r: (usize, Vec<VarFuncCandidate>))
        requires
            self.inv(),
            pos <= line@.len(),
        ensures
            r.0 == sp_word_start(line@, pos as int),
            r.0 <= pos,
            ({
                let word = line@.subrange(sp_word_start(line@, pos as int), pos as int);
                let vnames = self.frame().vars.map_values(|p: (Seq<char>, VariantView)| p.0);
                let fnames = self.frame().funcs.map_values(
                    |p: (Seq<char>, crate::types::FuncView)| p.0,
                );
                let expected = sp_matching_names(vnames, word) + sp_matching_names(fnames, word);
                &&& r.1@.len() == expected.len()
                &&& forall|k: int|
                    0 <= k < expected.len() ==> (#[trigger] r.1@[k]).text@ == expected[k]
                        && r.1@[k].hint@ == " # "@ + expected[k]
            }),
    {
        let chars = str_to_chars(line);
        let mut ws: usize = pos;
        while ws > 0 && is_ident_at(&chars, ws - 1)
            invariant
                ws <= pos,
                sp_word_start(line@, pos as int) == sp_word_start(line@, ws as int),
            decreases ws,
        {
            ws = ws - 1;
        }
        let word = line.substring_char(ws, pos).to_owned();
        let ghost wordv = line@.subrange(sp_word_start(line@, pos as int), pos as int);
        proof {
            assert(word@ == wordv);
        }
        let mut out: Vec<VarFuncCandidate> = Vec::new();
        let variables = self.scope.local_variables(self.at);
        let ghost vnames = self.frame().vars.map_values(|p: (Seq<char>, VariantView)| p.0);
        let mut i: usize = 0;
        while i < variables.len()
            invariant
                i <= variables@.len(),
                out@.len() == sp_matching_names(vnames.subrange(0, i as int), wordv).len(),
                forall|k: int|
                    0 <= k < out@.len() ==> (#[trigger] out@[k]).text@ == sp_matching_names(
                        vnames.subrange(0, i as int),
                        wordv,
                    )[k] && out@[k].hint@ == " # "@ + sp_matching_names(
                        vnames.subrange(0, i as int),
                        wordv,
                    )[k],
            decreases variables@.len() - i,
        {
            proof {
                assert(vnames.subrange(0, i + 1).drop_last() =~= vnames.subrange(0, i as int));
                assert(vnames.subrange(0, i + 1).last() == variables@[i as int].0@);
            }
            if completes(&variables[i].0, &word) {
                out.push(VarFuncCandidate::new(variables[i].0.clone()));
            }
            i = i + 1;
        }
        proof {
            assert(vnames.subrange(0, vnames.len() as int) =~= vnames);
        }
        let ghost vdone = sp_matching_names(vnames, wordv);
        let functions = self.scope.local_functions(self.at);
        let ghost fnames = self.frame().funcs.map_values(
            |p: (Seq<char>, crate::types::FuncView)| p.0,
        );
        let mut j: usize = 0;
        while j < functions.len()
            invariant
                j <= functions@.len(),
                out@.len() == vdone.len() + sp_matching_names(
                    fnames.subrange(0, j as int),
                    wordv,
                ).len(),
                forall|k: int|
                    0 <= k < out@.len() ==> (#[trigger] out@[k]).text@ == (vdone
                        + sp_matching_names(fnames.subrange(0, j as int), wordv))[k] && out@[
                        k
                    ].hint@ == " # "@ + (vdone + sp_matching_names(
                        fnames.subrange(0, j as int),
                        wordv,
                    ))[k],
            decreases functions@.len() - j,
        {
            proof {
                assert(fnames.subrange(0, j + 1).drop_last() =~= fnames.subrange(0, j as int));
                assert(fnames.subrange(0, j + 1).last() == functions@[j as int].0@);
            }
            if completes(&functions[j].0, &word) {
                out.push(VarFuncCandidate::new(functions[j].0.clone()));
            }
            j = j + 1;
        }
        proof {
            assert(fnames.subrange(0, fnames.len() as int) =~= fnames);
        }
        (ws, out)
    }
}

fn is_ident_at(chars: &Vec<char>, i: usize) -> (r: bool)
    requires
        i < chars@.len(),
    ensures
        r == spec_is_identifier_char(chars@[i as int], false),
{
    crate::lexer::is_identifier_char(chars[i], false)
}

/// Whether `name` strictly extends `word`; see `sp_completes`.
fn completes(name: &String, word: &String) -> (r: bool)
    ensures
        r == sp_completes(name@, word@),
{
    let nlen = name.as_str().unicode_len();
    let wlen = word.as_str().unicode_len();
    if nlen < wlen {
        proof {
            assert(!sp_completes(name@, word@));
        }
        return false;
    }
    let prefix = name.as_str().substring_char(0, wlen).to_owned();
    let same_prefix = prefix == *word;
    let whole = nlen == wlen;
    if same_prefix && !whole {
        proof {
            assert(name@ != word@);
        }
        true
    } else {
        proof {
            if same_prefix && whole {
                assert(name@ =~= word@);
            }
        }
        false
    }
}

// ---------------------------------------------------------------------------
// The shared hint
// ---------------------------------------------------------------------------

/// The length of the longest common prefix of two texts.
pub open spec fn sp_lcp_len(a: Seq<char>, b: Seq<char>) -> int
    decreases a.len(),
{
    if a.len() == 0 || b.len() == 0 || a[0] != b[0] {
        0
    } else {
        1 + sp_lcp_len(a.drop_first(), b.drop_first())
    }
}

proof fn lemma_lcp_len_bounds(a: Seq<char>, b: Seq<char>)
    ensures
        0 <= sp_lcp_len(a, b) <= a.len(),
        sp_lcp_len(a, b) <= b.len(),
    decreases a.len(),
{
    if a.len() > 0 && b.len() > 0 && a[0] == b[0] {
        lemma_lcp_len_bounds(a.drop_first(), b.drop_first());
    }
}

fn lcp_len(a: &String, b: &String) -> (r: usize)
    ensures
        r as int == sp_lcp_len(a@, b@),
        r <= a@.len(),
        r <= b@.len(),
    decreases a@.len(),
{
    proof {
        lemma_lcp_len_bounds(a@, b@);
    }
    let alen = a.as_str().unicode_len();
    let blen = b.as_str().unicode_len();
    let mut i: usize = 0;
    proof {
        assert(a@.subrange(0, alen as int) =~= a@);
        assert(b@.subrange(0, blen as int) =~= b@);
    }
    while i < alen && i < blen && a.as_str().get_char(i) == b.as_str().get_char(i)
        invariant
            i <= alen,
            i <= blen,
            alen == a@.len(),
            blen == b@.len(),
            sp_lcp_len(a@, b@) == i + sp_lcp_len(
                a@.subrange(i as int, alen as int),
                b@.subrange(i as int, blen as int),
            ),
        decreases alen - i,
    {
        proof {
            let ar = a@.subrange(i as int, alen as int);
            let br = b@.subrange(i as int, blen as int);
            assert(ar[0] == a@[i as int]);
            assert(br[0] == b@[i as int]);
            assert(ar.drop_first() =~= a@.subrange(i + 1, alen as int));
            assert(br.drop_first() =~= b@.subrange(i + 1, blen as int));
        }
        i = i + 1;
    }
    proof {
        let ar = a@.subrange(i as int, alen as int);
        let br = b@.subrange(i as int, blen as int);
        if i < alen && i < blen {
            assert(ar[0] == a@[i as int]);
            assert(br[0] == b@[i as int]);
            assert(sp_lcp_len(ar, br) == 0);
        } else {
            assert(ar.len() == 0 || br.len() == 0);
        }
        lemma_lcp_len_bounds(a@, b@);
    }
    i
}

impl VarFuncHelper {
    /// The hint shown after the cursor: with one candidate, its remainder
    /// past the typed word; with several, the remainder of their longest
    /// shared prefix; none when nothing (or nothing further) is shared.
    #[verifier::loop_isolation(false)]
    pub fn hint(&self, line: &str, pos: usize) -> (r: Option<VarFuncCandidate>)
        requires
            self.inv(),
            pos <= line@.len(),
        ensures
            ({
                let ws = sp_word_start(line@, pos as int);
                let word = line@.subrange(ws, pos as int);
                let vnames = self.frame().vars.map_values(|p: (Seq<char>, VariantView)| p.0);
                let fnames = self.frame().funcs.map_values(
                    |p: (Seq<char>, crate::types::FuncView)| p.0,
                );
                let expected = sp_matching_names(vnames, word) + sp_matching_names(fnames, word);
                &&& (expected.len() == 0 ==> r is None)
                &&& (expected.len() == 1 ==> ({
                    &&& r matches Some(c)
                    &&& c.text@ == expected[0].subrange(pos - ws, expected[0].len() as int)
                }))
            }),
    {
        let ghost wsg = sp_word_start(line@, pos as int);
        let ghost wordg = line@.subrange(wsg, pos as int);
        let ghost vnames = self.frame().vars.map_values(|p: (Seq<char>, VariantView)| p.0);
        let ghost fnames = self.frame().funcs.map_values(
            |p: (Seq<char>, crate::types::FuncView)| p.0,
        );
        let ghost expected = sp_matching_names(vnames, wordg) + sp_matching_names(fnames, wordg);
        let (start, list) = self.get_completion_list(line, pos);
        if list.len() == 0 {
            return None;
        }
        let typed = pos - start;
        if list.len() > 1 {
            let mut common = list[0].text.clone();
            let mut i: usize = 1;
            while i < list.len()
                invariant
                    1 <= i <= list@.len(),
                decreases list@.len() - i,
            {
                let k = lcp_len(&common, &list[i].text);
                common = common.as_str().substring_char(0, k).to_owned();
                i = i + 1;
            }
            if common.as_str().unicode_len() < typed {
                return None;
            }
            let rest = common.as_str().substring_char(typed, common.as_str().unicode_len()).to_owned();
            if rest.as_str().unicode_len() == 0 {
                return None;
            }
            return Some(VarFuncCandidate::new(rest));
        }
        let text = &list[0].text;
        proof {
            if expected.len() == 1 {
                if 0 < sp_matching_names(vnames, wordg).len() {
                    lemma_matching_names_complete(vnames, wordg, 0);
                } else {
                    lemma_matching_names_complete(fnames, wordg, 0);
                    assert(expected[0] == sp_matching_names(fnames, wordg)[0]);
                }
                assert(sp_completes(expected[0], wordg));
            }
        }
        if text.as_str().unicode_len() < typed {
            return None;
        }
        let rest = text.as_str().substring_char(typed, text.as_str().unicode_len()).to_owned();
        Some(VarFuncCandidate::new(rest))
    }

    /// How a candidate is colored: variables cyan (grey when they start with
    /// a double underscore), native functions green, user functions magenta,
    /// anything unknown unchanged.
    pub fn highlight_candidate(&self, candidate: &str) -> (r: String)
        requires
            self.inv(),
        ensures
            ({
                let f = self.frame();
                let c = candidate@;
                &&& (assoc_get(f.vars, c) is Some ==> r@ == (if c.len() >= 2 && c.subrange(0, 2)
                    == "__"@ {
                    "\x1b[37m"@ + c + "\x1b[0m"@
                } else {
                    "\x1b[36m"@ + c + "\x1b[0m"@
                }))
                &&& (assoc_get(f.vars, c) is None && assoc_get(f.funcs, c) is Some ==> r@ == (
                if assoc_get(f.funcs, c)->0.native is Some {
                    "\x1b[32m"@ + c + "\x1b[0m"@
                } else {
                    "\x1b[35m"@ + c + "\x1b[0m"@
                }))
                &&& (assoc_get(f.vars, c) is None && assoc_get(f.funcs, c) is None ==> r@ == c)
            }),
    {
        if self.scope.get_local_variable(self.at, candidate).is_some() {
            let dunder = candidate.unicode_len() >= 2 && {
                let p = candidate.substring_char(0, 2).to_owned();
                let mut u = String::new();
                u.push('_');
                u.push('_');
                proof {
                    assert(u@ =~= "__"@) by {
                        reveal_strlit("__");
                    }
                }
                p == u
            };
            let mut out = if dunder {
                "\x1b[37m".to_owned()
            } else {
                "\x1b[36m".to_owned()
            };
            out.append(candidate);
            out.append("\x1b[0m");
            proof {
                if dunder {
                    assert(out@ =~= "\x1b[37m"@ + candidate@ + "\x1b[0m"@);
                } else {
                    assert(out@ =~= "\x1b[36m"@ + candidate@ + "\x1b[0m"@);
                }
            }
            return out;
        }
        match self.scope.get_local_function(self.at, candidate) {
            Some(f) => {
                let mut out = if f.native.is_some() {
                    "\x1b[32m".to_owned()
                } else {
                    "\x1b[35m".to_owned()
                };
                out.append(candidate);
                out.append("\x1b[0m");
                proof {
                    if f.native is Some {
                        assert(out@ =~= "\x1b[32m"@ + candidate@ + "\x1b[0m"@);
                    } else {
                        assert(out@ =~= "\x1b[35m"@ + candidate@ + "\x1b[0m"@);
                    }
                }
                out
            },
            None => candidate.to_owned(),
        }
    }
}

// ---------------------------------------------------------------------------
// Line completeness
// ---------------------------------------------------------------------------

/// Whether an input line is ready to run or visibly awaits more input.
#[derive(Debug, PartialEq, Eq, Clone, Copy, Structural)]
pub enum LineStatus {
    /// Run it (a malformed line is also "ready": running it reports the
    /// engine's own error rather than the editor's).
    Ready,
    /// Brackets are still open: keep reading.
    Incomplete,
}

/// Openers minus closers over a token sequence.
pub open spec fn sp_open_brackets(toks: Seq<TokenV>) -> int
    decreases toks.len(),
{
    if toks.len() == 0 {
        0
    } else {
        let d: int = match toks.last().kind {
            TokenType::Lparen | TokenType::Lbrace => 1,
            TokenType::Rparen | TokenType::Rbrace => -1,
            _ => 0,
        };
        sp_open_brackets(toks.drop_last()) + d
    }
}

/// What the line check reports, over the lenient token stream.
pub open spec fn sp_line_status(code: Seq<char>) -> LineStatus {
    match spec_line_checked_tokens(code) {
        Err(_) => LineStatus::Ready,
        Ok(toks) => if sp_open_brackets(toks) != 0 {
            LineStatus::Incomplete
        } else {
            LineStatus::Ready
        },
    }
}

/// Checks whether an input line should run now or wait for its closing
/// brackets; implements `sp_line_status`.
#[verifier::loop_isolation(false)]
pub fn line_status(code: &str) -> (r: LineStatus)
    requires
        code@.len() < 0xFFFF_FFFD,
    ensures
        r == sp_line_status(code@),
{
    let toks = match get_checked_tokens(code) {
        Err(_) => {
            return LineStatus::Ready;
        },
        Ok(t) => t,
    };
    let ghost tv = crate::types::tokens_view(toks@);
    let mut open: i128 = 0;
    let mut i: usize = 0;
    while i < toks.len()
        invariant
            i <= toks@.len(),
            -(i as int) <= open as int <= i as int,
            open as int == sp_open_brackets(tv.subrange(0, i as int)),
        decreases toks@.len() - i,
    {
        proof {
            assert(tv.subrange(0, i + 1).drop_last() =~= tv.subrange(0, i as int));
            assert(tv.subrange(0, i + 1).last() == toks@[i as int]@);
        }
        match toks[i].token_type {
            TokenType::Lparen | TokenType::Lbrace => {
                open = open + 1;
            },
            TokenType::Rparen | TokenType::Rbrace => {
                open = open - 1;
            },
            _ => {},
        }
        i = i + 1;
    }
    proof {
        assert(tv.subrange(0, tv.len() as int) =~= tv);
    }
    if open != 0 {
        LineStatus::Incomplete
    } else {
        LineStatus::Ready
    }
}

// ---------------------------------------------------------------------------
// The read-evaluate-print step
// ---------------------------------------------------------------------------

/// The interactive prompt: the frame's own `__prompt` variable when it is a
/// string, else the default.
pub open spec fn sp_prompt(frame: crate::scope::FrameView) -> Seq<char> {
    match assoc_get(frame.vars, "__prompt"@) {
        Some(VariantView::Str(s)) => s,
        _ => ">>> "@,
    }
}

/// Reads the prompt off the scope; implements `sp_prompt`.
pub fn repl_prompt(scope: &Scope, at: ScopeId) -> (r: String)
    requires
        at < scope@.len(),
    ensures
        r@ == sp_prompt(scope@[at as int]),
{
    match scope.get_local_variable(at, "__prompt") {
        Some(Variant::Str(s)) => s.text,
        _ => ">>> ".to_owned(),
    }
}

/// What one interactive step decided: keep going, input ended, or the
/// program asked the host to exit with a code.
#[derive(Debug, PartialEq, Eq, Clone, Copy, Structural)]
pub enum ReplStep {
    Continue,
    Stop,
    Exit(i64),
}

/// Prepares a scope for the interactive loop (binds the default prompt) and
/// prints the banner.
pub fn repl_init(scope: &mut Scope, at: ScopeId)
    requires
        old(scope).wf(),
        at < old(scope)@.len(),
    ensures
        final(scope).wf(),
        final(scope)@.len() == old(scope)@.len(),
        crate::scope::same_shape(old(scope)@, final(scope)@),
        sp_prompt(final(scope)@[at as int]) == ">>> "@,
{
    scope.set_variable(at, "__prompt", Variant::Str(Str::new(">>> ")));
    write_stdout("Easy Prog interpreter v.1.0.0 by Werryx Games\n");
}

/// Evaluates one typed line and reports its outcome on the console: an
/// error as one diagnostic line, a value as its echo. Never `Stop`; `Exit`
/// exactly when the line's evaluation requested termination, wherever the
/// evaluation mirror pins the line's outcome.
pub fn repl_handle_line<F: FileSystem>(
    fs: &mut F,
    scope: &mut Scope,
    at: ScopeId,
    code: &str,
) -> (r: ReplStep)
    requires
        old(scope).wf(),
        at < old(scope)@.len(),
        code@.len() < 0xFFFF_FFFD,
    ensures
        final(scope).wf(),
        final(scope)@.len() == old(scope)@.len(),
        crate::scope::same_shape(old(scope)@, final(scope)@),
        !(r is Stop),
        crate::parser::sp_parse(code@) is Err ==> r == ReplStep::Continue && final(scope)@ == old(
            scope,
        )@,
        crate::parser::sp_parse(code@) matches Ok(av) ==> ({
            av matches crate::types::AstView::Sequence { body, .. } ==> ({
                &&& (body.len() != 1 ==> r == ReplStep::Continue)
                &&& (body.len() == 1 && body[0] is CallFunc ==> match crate::runner::sp_execute_func(
                    old(scope)@,
                    at as int,
                    body[0],
                    crate::runner::DEFAULT_CALL_DEPTH,
                ) {
                    Some(p) => final(scope)@ == p.1 && (match p.0 {
                        Err(crate::runner::EvalErrV::Exit(c)) => r == ReplStep::Exit(c),
                        _ => r == ReplStep::Continue,
                    }),
                    None => true,
                })
            })
        }),
{
    match run_line_scope(fs, code, scope, at) {
        Err(EvalError::Runner(e)) => {
            let msg = crate::runner::diag_message(
                "Error".to_owned(),
                e.line,
                e.column,
                e.description.as_str(),
            );
            write_stdout(msg.as_str());
            ReplStep::Continue
        },
        Err(EvalError::Native(e)) => {
            let msg = crate::runner::diag_message(
                "Error".to_owned(),
                e.line,
                e.column,
                e.description.as_str(),
            );
            write_stdout(msg.as_str());
            ReplStep::Continue
        },
        Err(EvalError::Exit(code)) => ReplStep::Exit(code),
        Ok(v) => {
            let echo = v.echo_string();
            write_stdout(echo.as_str());
            write_stdout("\n");
            flush_stdout();
            ReplStep::Continue
        },
    }
}

/// One read-evaluate-print step: prompt, read a line, hand it to
/// `repl_handle_line`. `Stop` at end of input; what an evaluated line
/// yields is that function's contract (nothing can be promised of what the
/// console returns).
pub fn repl_step<F: FileSystem>(fs: &mut F, scope: &mut Scope, at: ScopeId) -> (r: ReplStep)
    requires
        old(scope).wf(),
        at < old(scope)@.len(),
    ensures
        final(scope).wf(),
        final(scope)@.len() == old(scope)@.len(),
        crate::scope::same_shape(old(scope)@, final(scope)@),
{
    let prompt = repl_prompt(scope, at);
    write_stdout(prompt.as_str());
    flush_stdout();
    let input_line = match read_stdin_line() {
        None => {
            return ReplStep::Stop;
        },
        Some(l) => l,
    };
    if input_line.as_str().unicode_len() >= 0xFFFF_FFFD {
        write_stdout("Error: input line too long\n");
        return ReplStep::Continue;
    }
    repl_handle_line(fs, scope, at, input_line.as_str())
}

} // verus!
