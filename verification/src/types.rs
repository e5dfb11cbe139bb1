//! The runtime data model: tokens, AST nodes, runtime values, functions and
//! the exception type. Each executable type has a mathematical view; deep
//! equality of nodes and values (which disregards source positions) is given
//! by the `*_similar` spec functions.

use vstd::prelude::*;
use vstd::pervasive::unreached;
use vstd::string::*;
use crate::numbers::{dec_digits, i64_dec, i64_to_string, usize_to_string};

verus! {

// ---------------------------------------------------------------------------
// Tokens
// ---------------------------------------------------------------------------

/// The kind of a lexical token. Comment state is internal to the lexer and is
/// never emitted, so no comment kinds appear here.
#[derive(Debug, PartialEq, Eq, Clone, Copy, Structural)]
pub enum TokenType {
    Unknown,
    Identifier,
    String,
    Number,
    Lparen,
    Rparen,
    Lbrace,
    Rbrace,
    Comma,
}

/// The mathematical value of a token: its kind, text and source position.
pub struct TokenV {
    pub kind: TokenType,
    pub text: Seq<char>,
    pub line: int,
    pub column: int,
}

/// An atomic lexical unit with kind, text, and one-based position.
#[derive(Debug, PartialEq, Eq)]
pub struct Token {
    pub token_type: TokenType,
    pub content: String,
    pub line: u32,
    pub column: u32,
}

impl View for Token {
    type V = TokenV;

    open spec fn view(&self) -> TokenV {
        TokenV {
            kind: self.token_type,
            text: self.content@,
            line: self.line as int,
            column: self.column as int,
        }
    }
}

impl Clone for Token {
    fn clone(&self) -> (res: Self)
        ensures
            res == *self,
    {
        Token {
            token_type: self.token_type,
            content: self.content.clone(),
            line: self.line,
            column: self.column,
        }
    }
}

impl Token {
    pub fn new(token_type: TokenType, line: u32, column: u32, content: &str) -> (res: Token)
        ensures
            res@ == (TokenV {
                kind: token_type,
                text: content@,
                line: line as int,
                column: column as int,
            }),
    {
        Token { token_type, content: content.to_owned(), line, column }
    }
}

/// The views of a token vector, in order.
pub open spec fn tokens_view(toks: Seq<Token>) -> Seq<TokenV> {
    toks.map_values(|t: Token| t@)
}

// ---------------------------------------------------------------------------
// AST nodes
// ---------------------------------------------------------------------------

/// The kind tag of an AST node.
#[derive(Debug, Eq, PartialEq, Clone, Copy, Structural)]
pub enum NodeType {
    Sequence,
    CallFunc,
    ConstInt,
    ConstStr,
    Identifier,
}

/// The mathematical value of an AST node.
pub enum AstView {
    Sequence { line: int, column: int, body: Seq<AstView> },
    CallFunc { line: int, column: int, name: Seq<char>, args: Seq<AstView> },
    ConstInt { line: int, column: int, value: i64 },
    ConstStr { line: int, column: int, value: Seq<char> },
    Variable { line: int, column: int, name: Seq<char> },
}

/// A program or lambda body: an ordered list of statements.
#[derive(Debug)]
pub struct SequenceNode {
    pub line: u32,
    pub column: u32,
    pub body: Vec<AstNode>,
}

/// A call of a named function with an ordered argument list.
#[derive(Debug)]
pub struct CallFuncNode {
    pub line: u32,
    pub column: u32,
    pub name: String,
    pub args: Vec<AstNode>,
}

/// A 64-bit signed integer literal.
#[derive(Debug, Clone, Copy)]
pub struct ConstIntNode {
    pub line: u32,
    pub column: u32,
    pub value: Int,
}

/// A string literal.
#[derive(Debug)]
pub struct ConstStrNode {
    pub line: u32,
    pub column: u32,
    pub value: Str,
}

/// A reference to a variable by name.
#[derive(Debug)]
pub struct VariableNode {
    pub line: u32,
    pub column: u32,
    pub name: String,
}

/// One node of the abstract syntax tree: a closed tagged union over the node
/// structs, matched exhaustively at every use site.
#[derive(Debug)]
pub enum AstNode {
    Sequence(SequenceNode),
    CallFunc(CallFuncNode),
    ConstInt(ConstIntNode),
    ConstStr(ConstStrNode),
    Variable(VariableNode),
}

pub open spec fn ast_view(n: AstNode) -> AstView
    decreases n,
{
    match n {
        AstNode::Sequence(s) => {
            proof {
                assert(decreases_to!(n => s));
                assert(decreases_to!(s => s.body));
                assert(decreases_to!(s.body => s.body@));
            }
            AstView::Sequence {
                line: s.line as int,
                column: s.column as int,
                body: ast_views(s.body@),
            }
        },
        AstNode::CallFunc(c) => {
            proof {
                assert(decreases_to!(n => c));
                assert(decreases_to!(c => c.args));
                assert(decreases_to!(c.args => c.args@));
            }
            AstView::CallFunc {
                line: c.line as int,
                column: c.column as int,
                name: c.name@,
                args: ast_views(c.args@),
            }
        },
        AstNode::ConstInt(k) => AstView::ConstInt {
            line: k.line as int,
            column: k.column as int,
            value: k.value.number,
        },
        AstNode::ConstStr(k) => AstView::ConstStr {
            line: k.line as int,
            column: k.column as int,
            value: k.value.text@,
        },
        AstNode::Variable(v) => AstView::Variable {
            line: v.line as int,
            column: v.column as int,
            name: v.name@,
        },
    }
}

pub open spec fn ast_views(s: Seq<AstNode>) -> Seq<AstView>
    decreases s,
{
    if s.len() == 0 {
        Seq::empty()
    } else {
        ast_views(s.subrange(0, s.len() - 1)).push(ast_view(s[s.len() - 1]))
    }
}

pub broadcast proof fn lemma_ast_views_index(s: Seq<AstNode>, i: int)
    requires
        0 <= i < s.len(),
    ensures
        ast_views(s).len() == s.len(),
        #[trigger] ast_views(s)[i] == ast_view(s[i]),
    decreases s.len(),
{
    lemma_ast_views_len(s);
    if s.len() > 0 && i < s.len() - 1 {
        lemma_ast_views_index(s.subrange(0, s.len() - 1), i);
    }
}

pub broadcast proof fn lemma_ast_views_len(s: Seq<AstNode>)
    ensures
        #[trigger] ast_views(s).len() == s.len(),
    decreases s.len(),
{
    if s.len() > 0 {
        lemma_ast_views_len(s.subrange(0, s.len() - 1));
    }
}

impl View for AstNode {
    type V = AstView;

    open spec fn view(&self) -> AstView {
        ast_view(*self)
    }
}

impl View for SequenceNode {
    type V = AstView;

    open spec fn view(&self) -> AstView {
        AstView::Sequence {
            line: self.line as int,
            column: self.column as int,
            body: ast_views(self.body@),
        }
    }
}

impl View for CallFuncNode {
    type V = AstView;

    open spec fn view(&self) -> AstView {
        AstView::CallFunc {
            line: self.line as int,
            column: self.column as int,
            name: self.name@,
            args: ast_views(self.args@),
        }
    }
}

impl View for ConstIntNode {
    type V = AstView;

    open spec fn view(&self) -> AstView {
        AstView::ConstInt {
            line: self.line as int,
            column: self.column as int,
            value: self.value.number,
        }
    }
}

impl View for ConstStrNode {
    type V = AstView;

    open spec fn view(&self) -> AstView {
        AstView::ConstStr {
            line: self.line as int,
            column: self.column as int,
            value: self.value.text@,
        }
    }
}

impl View for VariableNode {
    type V = AstView;

    open spec fn view(&self) -> AstView {
        AstView::Variable {
            line: self.line as int,
            column: self.column as int,
            name: self.name@,
        }
    }
}

/// The kind tag of an AST view.
pub open spec fn ast_kind(a: AstView) -> NodeType {
    match a {
        AstView::Sequence { .. } => NodeType::Sequence,
        AstView::CallFunc { .. } => NodeType::CallFunc,
        AstView::ConstInt { .. } => NodeType::ConstInt,
        AstView::ConstStr { .. } => NodeType::ConstStr,
        AstView::Variable { .. } => NodeType::Identifier,
    }
}

/// Deep structural equality of nodes, disregarding source positions:
/// kind tag, then the kind's own payload, with argument lists compared
/// element by element.
pub open spec fn ast_similar(a: AstView, b: AstView) -> bool
    decreases a,
{
    match (a, b) {
        (
            AstView::Sequence { body: ba, .. },
            AstView::Sequence { body: bb, .. },
        ) => {
            proof {
                assert(decreases_to!(a => ba));
            }
            asts_similar(ba, bb)
        },
        (
            AstView::CallFunc { name: na, args: aa, .. },
            AstView::CallFunc { name: nb, args: ab, .. },
        ) => {
            proof {
                assert(decreases_to!(a => aa));
            }
            na == nb && asts_similar(aa, ab)
        },
        (AstView::ConstInt { value: va, .. }, AstView::ConstInt { value: vb, .. }) => va == vb,
        (AstView::ConstStr { value: va, .. }, AstView::ConstStr { value: vb, .. }) => va == vb,
        (AstView::Variable { name: na, .. }, AstView::Variable { name: nb, .. }) => na == nb,
        _ => false,
    }
}

pub open spec fn asts_similar(a: Seq<AstView>, b: Seq<AstView>) -> bool
    decreases a,
{
    if a.len() != b.len() {
        false
    } else if a.len() == 0 {
        true
    } else {
        asts_similar(a.subrange(0, a.len() - 1), b.subrange(0, b.len() - 1)) && ast_similar(
            a[a.len() - 1],
            b[b.len() - 1],
        )
    }
}

pub proof fn lemma_asts_similar_iff(a: Seq<AstView>, b: Seq<AstView>)
    ensures
        asts_similar(a, b) <==> (a.len() == b.len() && forall|i: int|
            0 <= i < a.len() ==> ast_similar(#[trigger] a[i], b[i])),
    decreases a.len(),
{
    if a.len() == b.len() && a.len() > 0 {
        let a1 = a.subrange(0, a.len() - 1);
        let b1 = b.subrange(0, b.len() - 1);
        lemma_asts_similar_iff(a1, b1);
        if asts_similar(a, b) {
            assert forall|i: int| 0 <= i < a.len() implies ast_similar(
                #[trigger] a[i],
                b[i],
            ) by {
                if i < a.len() - 1 {
                    assert(a1[i] == a[i]);
                    assert(b1[i] == b[i]);
                    assert(ast_similar(a1[i], b1[i]));
                }
            }
        }
        if forall|i: int| 0 <= i < a.len() ==> ast_similar(#[trigger] a[i], b[i]) {
            assert forall|i: int| 0 <= i < a1.len() implies ast_similar(
                #[trigger] a1[i],
                b1[i],
            ) by {
                assert(a1[i] == a[i]);
                assert(b1[i] == b[i]);
                assert(ast_similar(a[i], b[i]));
            }
            assert(ast_similar(a[a.len() - 1], b[b.len() - 1]));
            assert(asts_similar(a, b));
        }
    }
}

impl Clone for AstNode {
    #[verifier::loop_isolation(false)]
    fn clone(&self) -> (res: Self)
        ensures
            res@ == self@,
        decreases *self,
    {
        match self {
            AstNode::Sequence(s) => {
                proof {
                    assert(decreases_to!(*self => (*self)->Sequence_0));
                }
                AstNode::Sequence(s.clone())
            },
            AstNode::CallFunc(c) => {
                proof {
                    assert(decreases_to!(*self => (*self)->CallFunc_0));
                }
                AstNode::CallFunc(c.clone())
            },
            AstNode::ConstInt(k) => AstNode::ConstInt(*k),
            AstNode::ConstStr(k) => AstNode::ConstStr(k.clone()),
            AstNode::Variable(v) => AstNode::Variable(v.clone()),
        }
    }
}

/// Clones every node of a list, preserving views.
#[verifier::loop_isolation(false)]
fn clone_nodes(nodes: &Vec<AstNode>) -> (res: Vec<AstNode>)
    ensures
        ast_views(res@) == ast_views(nodes@),
    decreases *nodes,
{
    let mut out: Vec<AstNode> = Vec::new();
    let mut i: usize = 0;
    while i < nodes.len()
        invariant
            i <= nodes@.len(),
            out@.len() == i as nat,
            forall|j: int| 0 <= j < i ==> ast_view(#[trigger] out@[j]) == ast_view(nodes@[j]),
        decreases nodes@.len() - i,
    {
        proof {
            assert(decreases_to!(*nodes => nodes@));
            assert(decreases_to!(nodes@ => nodes@[i as int]));
        }
        out.push(nodes[i].clone());
        i = i + 1;
    }
    proof {
        lemma_ast_views_len(out@);
        lemma_ast_views_len(nodes@);
        assert forall|j: int| 0 <= j < out@.len() implies ast_views(out@)[j] == ast_views(
            nodes@,
        )[j] by {
            lemma_ast_views_index(out@, j);
            lemma_ast_views_index(nodes@, j);
        }
        assert(ast_views(out@) =~= ast_views(nodes@));
    }
    out
}

impl Clone for SequenceNode {
    fn clone(&self) -> (res: Self)
        ensures
            res@ == self@,
        decreases *self,
    {
        proof {
            assert(decreases_to!(*self => self.body));
        }
        SequenceNode { line: self.line, column: self.column, body: clone_nodes(&self.body) }
    }
}

impl Clone for CallFuncNode {
    fn clone(&self) -> (res: Self)
        ensures
            res@ == self@,
        decreases *self,
    {
        proof {
            assert(decreases_to!(*self => self.args));
        }
        CallFuncNode {
            line: self.line,
            column: self.column,
            name: self.name.clone(),
            args: clone_nodes(&self.args),
        }
    }
}

impl Clone for ConstStrNode {
    fn clone(&self) -> (res: Self)
        ensures
            res == *self,
    {
        ConstStrNode { line: self.line, column: self.column, value: self.value.clone() }
    }
}

impl Clone for VariableNode {
    fn clone(&self) -> (res: Self)
        ensures
            res == *self,
    {
        VariableNode { line: self.line, column: self.column, name: self.name.clone() }
    }
}

impl SequenceNode {
    pub fn new(line: u32, column: u32, body: Vec<AstNode>) -> (res: SequenceNode)
        ensures
            res@ == (AstView::Sequence {
                line: line as int,
                column: column as int,
                body: ast_views(body@),
            }),
    {
        SequenceNode { line, column, body }
    }
}

impl CallFuncNode {
    pub fn new(line: u32, column: u32, name: String, args: Vec<AstNode>) -> (res: CallFuncNode)
        ensures
            res@ == (AstView::CallFunc {
                line: line as int,
                column: column as int,
                name: name@,
                args: ast_views(args@),
            }),
    {
        CallFuncNode { line, column, name, args }
    }
}

impl ConstIntNode {
    pub fn new(line: u32, column: u32, value: Int) -> (res: ConstIntNode)
        ensures
            res@ == (AstView::ConstInt {
                line: line as int,
                column: column as int,
                value: value.number,
            }),
    {
        ConstIntNode { line, column, value }
    }
}

impl ConstStrNode {
    pub fn new(line: u32, column: u32, value: Str) -> (res: ConstStrNode)
        ensures
            res@ == (AstView::ConstStr {
                line: line as int,
                column: column as int,
                value: value.text@,
            }),
    {
        ConstStrNode { line, column, value }
    }
}

impl VariableNode {
    pub fn new(line: u32, column: u32, name: &str) -> (res: VariableNode)
        ensures
            res@ == (AstView::Variable {
                line: line as int,
                column: column as int,
                name: name@,
            }),
    {
        VariableNode { line, column, name: name.to_owned() }
    }
}

impl AstNode {
    /// The kind tag of this node.
    pub fn get_type(&self) -> (r: NodeType)
        ensures
            r == ast_kind(self@),
    {
        match self {
            AstNode::Sequence(_) => NodeType::Sequence,
            AstNode::CallFunc(_) => NodeType::CallFunc,
            AstNode::ConstInt(_) => NodeType::ConstInt,
            AstNode::ConstStr(_) => NodeType::ConstStr,
            AstNode::Variable(_) => NodeType::Identifier,
        }
    }

    /// This node as a sequence; the node must be one.
    pub fn as_sequence(&self) -> (r: SequenceNode)
        requires
            self@ is Sequence,
        ensures
            r@ == self@,
    {
        match self {
            AstNode::Sequence(s) => s.clone(),
            _ => unreached(),
        }
    }

    /// This node as a call; the node must be one.
    pub fn as_call_func(&self) -> (r: CallFuncNode)
        requires
            self@ is CallFunc,
        ensures
            r@ == self@,
    {
        match self {
            AstNode::CallFunc(c) => c.clone(),
            _ => unreached(),
        }
    }

    /// This node as a string literal; the node must be one.
    pub fn as_str_const(&self) -> (r: ConstStrNode)
        requires
            self@ is ConstStr,
        ensures
            r@ == self@,
    {
        match self {
            AstNode::ConstStr(k) => k.clone(),
            _ => unreached(),
        }
    }

    /// This node as an integer literal; the node must be one.
    pub fn as_int_const(&self) -> (r: ConstIntNode)
        requires
            self@ is ConstInt,
        ensures
            r@ == self@,
    {
        match self {
            AstNode::ConstInt(k) => *k,
            _ => unreached(),
        }
    }

    /// This node as a variable reference; the node must be one.
    pub fn as_variable(&self) -> (r: VariableNode)
        requires
            self@ is Variable,
        ensures
            r@ == self@,
    {
        match self {
            AstNode::Variable(v) => v.clone(),
            _ => unreached(),
        }
    }

    /// Deep structural equality, disregarding source positions.
    #[verifier::loop_isolation(false)]
    pub fn equals(&self, other: &AstNode) -> (r: bool)
        ensures
            r == ast_similar(self@, other@),
        decreases *self, 1int,
    {
        match (self, other) {
            (AstNode::Sequence(a), AstNode::Sequence(b)) => {
                proof {
                    assert(decreases_to!(*self => (*self)->Sequence_0));
                }
                eq_node_lists(self, &a.body, &b.body)
            },
            (AstNode::CallFunc(a), AstNode::CallFunc(b)) => {
                proof {
                    assert(decreases_to!(*self => (*self)->CallFunc_0));
                }
                if !(a.name == b.name) {
                    false
                } else {
                    eq_node_lists(self, &a.args, &b.args)
                }
            },
            (AstNode::ConstInt(a), AstNode::ConstInt(b)) => a.value.number == b.value.number,
            (AstNode::ConstStr(a), AstNode::ConstStr(b)) => a.value.text == b.value.text,
            (AstNode::Variable(a), AstNode::Variable(b)) => a.name == b.name,
            _ => false,
        }
    }
}

/// Element-wise deep equality of node lists. The ghost `anchor` carries the
/// termination measure: it must be a node that the lists descend from.
#[verifier::loop_isolation(false)]
fn eq_node_lists(anchor: &AstNode, a: &Vec<AstNode>, b: &Vec<AstNode>) -> (r: bool)
    requires
        decreases_to!(*anchor => *a),
    ensures
        r == asts_similar(ast_views(a@), ast_views(b@)),
    decreases *anchor, 0int,
{
    proof {
        lemma_ast_views_len(a@);
        lemma_ast_views_len(b@);
    }
    if a.len() != b.len() {
        proof {
            lemma_asts_similar_iff(ast_views(a@), ast_views(b@));
        }
        return false;
    }
    let mut i: usize = 0;
    let mut ok = true;
    while i < a.len()
        invariant
            i <= a@.len(),
            a@.len() == b@.len(),
            ok == forall|j: int|
                0 <= j < i ==> ast_similar(ast_view(#[trigger] a@[j]), ast_view(b@[j])),
        decreases a@.len() - i,
    {
        proof {
            assert(decreases_to!(*a => a@));
            assert(decreases_to!(a@ => a@[i as int]));
            assert(decreases_to!(*anchor => a@[i as int]));
        }
        if !a[i].equals(&b[i]) {
            ok = false;
        }
        i = i + 1;
    }
    proof {
        lemma_asts_similar_iff(ast_views(a@), ast_views(b@));
        if ok {
            assert forall|j: int| 0 <= j < ast_views(a@).len() implies ast_similar(
                #[trigger] ast_views(a@)[j],
                ast_views(b@)[j],
            ) by {
                lemma_ast_views_index(a@, j);
                lemma_ast_views_index(b@, j);
                assert(ast_similar(ast_view(a@[j]), ast_view(b@[j])));
            }
            assert(asts_similar(ast_views(a@), ast_views(b@)));
        } else {
            let j = choose|j: int|
                0 <= j < a@.len() && !ast_similar(ast_view(#[trigger] a@[j]), ast_view(b@[j]));
            lemma_ast_views_index(a@, j);
            lemma_ast_views_index(b@, j);
            assert(!ast_similar(ast_views(a@)[j], ast_views(b@)[j]));
            assert(!asts_similar(ast_views(a@), ast_views(b@)));
        }
    }
    ok
}

// ---------------------------------------------------------------------------
// Runtime values
// ---------------------------------------------------------------------------

/// The kind tag of a runtime value.
#[derive(Debug, PartialEq, Eq, Clone, Copy, Structural)]
pub enum Type {
    Void,
    Int,
    Str,
    Func,
    Custom,
}

/// A 64-bit signed integer value.
#[derive(Debug, Clone, Copy, Eq, PartialEq, Structural)]
pub struct Int {
    pub number: i64,
}

impl Int {
    pub fn new(number: i64) -> (res: Int)
        ensures
            res.number == number,
    {
        Int { number }
    }
}

/// A UTF-8 string value.
#[derive(Debug, Eq, PartialEq)]
pub struct Str {
    pub text: String,
}

impl Str {
    pub fn new(text: &str) -> (res: Str)
        ensures
            res.text@ == text@,
    {
        Str { text: text.to_owned() }
    }
}

impl Clone for Str {
    fn clone(&self) -> (res: Self)
        ensures
            res == *self,
    {
        Str { text: self.text.clone() }
    }
}

/// The unit value.
#[derive(Debug, Clone, Copy)]
pub struct Void {}

impl Void {
    pub fn new() -> Void {
        Void {  }
    }
}

impl Default for Void {
    fn default() -> Void {
        Void {  }
    }
}

/// An opaque host-defined value: a host kind identifier together with a
/// handle whose meaning the host kind defines. Equality is identity of both.
#[derive(Debug, Clone, Copy, Eq, PartialEq, Structural)]
pub struct Custom {
    pub id: usize,
    pub handle: u64,
}

impl Custom {
    pub fn new(id: usize, handle: u64) -> (res: Custom)
        ensures
            res.id == id,
            res.handle == handle,
    {
        Custom { id, handle }
    }

    pub fn get_id(&self) -> (r: usize)
        ensures
            r == self.id,
    {
        self.id
    }

    /// Equality within the same host kind: the handles must coincide.
    pub fn custom_equals(&self, other: &Custom) -> (r: bool)
        ensures
            r == (self.id == other.id && self.handle == other.handle),
    {
        self.id == other.id && self.handle == other.handle
    }
}

/// The host-callable functions of the standard library, as a closed set.
/// Dispatch on this tag is what runs when a call resolves to a native
/// function. The set being a closed enumeration is a deliberate narrowing:
/// a host chooses which of these to register (and may bind user-defined
/// bodies under any name), rather than supplying arbitrary host function
/// pointers, which the verifier cannot call; host-side effects go through
/// the file-system and console interfaces instead.
#[derive(Debug, PartialEq, Eq, Clone, Copy, Structural)]
pub enum NativeFn {
    Print,
    FlushStdout,
    Printerr,
    Input,
    Fopen,
    Fread,
    Fwrite,
    Fclose,
    ParseInt,
    Lf,
    Cr,
    Declfunc,
    SetVar,
    Null,
    If,
    IfElse,
    Add,
    Subt,
    Mult,
    Idiv,
    And,
    Or,
    Eq,
    Neq,
    Exit,
    InspectScope,
}

/// The mathematical value of a function: a native tag, a user-defined body,
/// both absent, never both present.
pub struct FuncView {
    pub native: Option<NativeFn>,
    pub body: Option<AstView>,
}

/// A callable value: either a native function of the standard library or a
/// user-defined body (an anonymous sequence).
#[derive(Debug)]
pub struct Function {
    pub native: Option<NativeFn>,
    pub body: Option<SequenceNode>,
}

impl View for Function {
    type V = FuncView;

    open spec fn view(&self) -> FuncView {
        FuncView {
            native: self.native,
            body: match self.body {
                Some(s) => Some(s@),
                None => None,
            },
        }
    }
}

impl Clone for Function {
    fn clone(&self) -> (res: Self)
        ensures
            res@ == self@,
    {
        Function {
            native: self.native,
            body: match &self.body {
                Some(s) => Some(s.clone()),
                None => None,
            },
        }
    }
}

impl Function {
    pub fn new_native(func: NativeFn) -> (res: Function)
        ensures
            res@ == (FuncView { native: Some(func), body: None::<AstView> }),
    {
        Function { native: Some(func), body: None }
    }

    pub fn new(body: SequenceNode) -> (res: Function)
        ensures
            res@ == (FuncView { native: None::<NativeFn>, body: Some(body@) }),
    {
        Function { native: None, body: Some(body) }
    }
}

/// Equality of functions: the same native tag and, for user-defined bodies,
/// deep structural equality of the bodies.
pub open spec fn func_similar(a: FuncView, b: FuncView) -> bool {
    a.native == b.native && match (a.body, b.body) {
        (Some(x), Some(y)) => ast_similar(x, y),
        (None, None) => true,
        _ => false,
    }
}

/// The mathematical value of a runtime value.
pub enum VariantView {
    Void,
    Int(i64),
    Str(Seq<char>),
    Func(FuncView),
    Custom { id: int, handle: u64 },
}

/// A runtime value: a closed tagged union over the value kinds, matched
/// exhaustively at every use site.
#[derive(Debug)]
pub enum Variant {
    Void(Void),
    Int(Int),
    Str(Str),
    Func(Function),
    Custom(Custom),
}

impl View for Variant {
    type V = VariantView;

    open spec fn view(&self) -> VariantView {
        match self {
            Variant::Void(_) => VariantView::Void,
            Variant::Int(i) => VariantView::Int(i.number),
            Variant::Str(s) => VariantView::Str(s.text@),
            Variant::Func(f) => VariantView::Func(f@),
            Variant::Custom(c) => VariantView::Custom { id: c.id as int, handle: c.handle },
        }
    }
}

impl Clone for Variant {
    fn clone(&self) -> (res: Self)
        ensures
            res@ == self@,
    {
        match self {
            Variant::Void(_) => Variant::Void(Void {  }),
            Variant::Int(i) => Variant::Int(*i),
            Variant::Str(s) => Variant::Str(s.clone()),
            Variant::Func(f) => Variant::Func(f.clone()),
            Variant::Custom(c) => Variant::Custom(*c),
        }
    }
}

/// The kind tag of a value view.
pub open spec fn variant_kind(v: VariantView) -> Type {
    match v {
        VariantView::Void => Type::Void,
        VariantView::Int(_) => Type::Int,
        VariantView::Str(_) => Type::Str,
        VariantView::Func(_) => Type::Func,
        VariantView::Custom { .. } => Type::Custom,
    }
}

/// Kind-aware equality of values: cross-kind comparisons are always unequal;
/// custom values compare by host kind and handle.
pub open spec fn variant_similar(a: VariantView, b: VariantView) -> bool {
    match (a, b) {
        (VariantView::Void, VariantView::Void) => true,
        (VariantView::Int(x), VariantView::Int(y)) => x == y,
        (VariantView::Str(x), VariantView::Str(y)) => x == y,
        (VariantView::Func(x), VariantView::Func(y)) => func_similar(x, y),
        (
            VariantView::Custom { id: ia, handle: ha },
            VariantView::Custom { id: ib, handle: hb },
        ) => ia == ib && ha == hb,
        _ => false,
    }
}

impl Variant {
    /// The kind tag of this value.
    pub fn get_type(&self) -> (r: Type)
        ensures
            r == variant_kind(self@),
    {
        match self {
            Variant::Void(_) => Type::Void,
            Variant::Int(_) => Type::Int,
            Variant::Str(_) => Type::Str,
            Variant::Func(_) => Type::Func,
            Variant::Custom(_) => Type::Custom,
        }
    }

    /// This value as an integer; the value must be one.
    pub fn as_int(&self) -> (r: Int)
        requires
            self@ is Int,
        ensures
            r.number == self@->Int_0,
    {
        match self {
            Variant::Int(i) => *i,
            _ => unreached(),
        }
    }

    /// This value as a string; the value must be one.
    pub fn as_str(&self) -> (r: Str)
        requires
            self@ is Str,
        ensures
            r.text@ == self@->Str_0,
    {
        match self {
            Variant::Str(s) => s.clone(),
            _ => unreached(),
        }
    }

    /// This value as a function; the value must be one.
    pub fn as_func(&self) -> (r: Function)
        requires
            self@ is Func,
        ensures
            r@ == self@->Func_0,
    {
        match self {
            Variant::Func(f) => f.clone(),
            _ => unreached(),
        }
    }

    /// This value as a custom value; the value must be one.
    pub fn as_custom(&self) -> (r: Custom)
        requires
            self@ is Custom,
        ensures
            r.id as int == self@->Custom_id,
            r.handle == self@->Custom_handle,
    {
        match self {
            Variant::Custom(c) => *c,
            _ => unreached(),
        }
    }

    /// Kind-aware equality; see `variant_similar`.
    pub fn equals(&self, other: &Variant) -> (r: bool)
        ensures
            r == variant_similar(self@, other@),
    {
        match (self, other) {
            (Variant::Void(_), Variant::Void(_)) => true,
            (Variant::Int(a), Variant::Int(b)) => a.number == b.number,
            (Variant::Str(a), Variant::Str(b)) => a.text == b.text,
            (Variant::Func(a), Variant::Func(b)) => func_equals(a, b),
            (Variant::Custom(a), Variant::Custom(b)) => a.custom_equals(b),
            _ => false,
        }
    }
}

/// Equality of function values; see `func_similar`.
pub fn func_equals(a: &Function, b: &Function) -> (r: bool)
    ensures
        r == func_similar(a@, b@),
{
    let natives_eq = match (&a.native, &b.native) {
        (Some(x), Some(y)) => *x == *y,
        (None, None) => true,
        _ => false,
    };
    if !natives_eq {
        return false;
    }
    match (&a.body, &b.body) {
        (Some(x), Some(y)) => {
            let xn = AstNode::Sequence(x.clone());
            let yn = AstNode::Sequence(y.clone());
            xn.equals(&yn)
        },
        (None, None) => true,
        _ => false,
    }
}

// ---------------------------------------------------------------------------
// Rendering of values
// ---------------------------------------------------------------------------

/// How `print` renders a value.
pub open spec fn print_repr(v: VariantView) -> Seq<char> {
    match v {
        VariantView::Void => "<null>"@,
        VariantView::Int(n) => i64_dec(n as int),
        VariantView::Str(s) => s,
        VariantView::Func(_) => "<function>"@,
        VariantView::Custom { id, .. } => "<custom type "@ + dec_digits(id as nat) + ">"@,
    }
}

/// How the interactive loop echoes a value: integers in decimal, strings
/// quoted, the unit value as nothing, functions and custom values by tag.
pub open spec fn echo_repr(v: VariantView) -> Seq<char> {
    match v {
        VariantView::Void => Seq::empty(),
        VariantView::Int(n) => i64_dec(n as int),
        VariantView::Str(s) => seq!['"'] + s + seq!['"'],
        VariantView::Func(f) => if f.native is Some {
            "<NativeFunction>"@
        } else {
            "<Function>"@
        },
        VariantView::Custom { id, .. } => "<Custom id="@ + dec_digits(id as nat) + ">"@,
    }
}

impl Variant {
    /// The `print` rendering of this value.
    pub fn print_string(&self) -> (r: String)
        ensures
            r@ == print_repr(self@),
    {
        match self {
            Variant::Void(_) => "<null>".to_owned(),
            Variant::Int(i) => i64_to_string(i.number),
            Variant::Str(s) => s.text.clone(),
            Variant::Func(_) => "<function>".to_owned(),
            Variant::Custom(c) => {
                let mut out = "<custom type ".to_owned();
                out.append(usize_to_string(c.id).as_str());
                out.append(">");
                out
            },
        }
    }

    /// The interactive-echo rendering of this value.
    pub fn echo_string(&self) -> (r: String)
        ensures
            r@ == echo_repr(self@),
    {
        match self {
            Variant::Void(_) => {
                let r = String::new();
                proof {
                    assert(r@ =~= echo_repr(self@));
                }
                r
            },
            Variant::Int(i) => i64_to_string(i.number),
            Variant::Str(s) => {
                let mut out = String::new();
                out.push('"');
                out.append(s.text.as_str());
                out.push('"');
                proof {
                    assert(out@ =~= echo_repr(self@));
                }
                out
            },
            Variant::Func(f) => {
                if f.native.is_some() {
                    "<NativeFunction>".to_owned()
                } else {
                    "<Function>".to_owned()
                }
            },
            Variant::Custom(c) => {
                let mut out = "<Custom id=".to_owned();
                out.append(usize_to_string(c.id).as_str());
                out.append(">");
                out
            },
        }
    }
}

// ---------------------------------------------------------------------------
// Exceptions
// ---------------------------------------------------------------------------

/// The mathematical value of a native exception.
pub struct NatExcV {
    pub line: int,
    pub column: int,
    pub message: Seq<char>,
}

/// An error reported by a native function's own logic, with the position of
/// the call that raised it.
#[derive(Debug)]
pub struct NativeException {
    pub line: u32,
    pub column: u32,
    pub description: String,
}

impl View for NativeException {
    type V = NatExcV;

    open spec fn view(&self) -> NatExcV {
        NatExcV {
            line: self.line as int,
            column: self.column as int,
            message: self.description@,
        }
    }
}

impl Clone for NativeException {
    fn clone(&self) -> (res: Self)
        ensures
            res == *self,
    {
        NativeException {
            line: self.line,
            column: self.column,
            description: self.description.clone(),
        }
    }
}

impl NativeException {
    pub fn new(line: u32, column: u32, description: &str) -> (res: NativeException)
        ensures
            res.line == line,
            res.column == column,
            res.description@ == description@,
    {
        NativeException { line, column, description: description.to_owned() }
    }
}

} // verus!
