//! The evaluator: walks the AST, resolves names against the active scope,
//! marshals arguments left-to-right, dispatches to native or user-defined
//! bodies, and aggregates the failure channels into one result. A call's
//! depth is bounded by an explicit budget, standing in for the host stack
//! that bounded the recursion before.

use vstd::prelude::*;
use vstd::string::*;
use crate::console::write_stdout;
use crate::fs::{FileSystem, MemFileSystem};
use crate::numbers::{dec_digits, u32_to_string};
use crate::parser::{parse, sp_parse};
use crate::scope::{same_shape, scope_lookup_fn, scope_lookup_var, Destructor, FrameView, Scope, ScopeId};
use crate::stdlib::{destructor_close_files, dispatch_native, vals};
use crate::types::{
    ast_views, AstNode, AstView, CallFuncNode, Function, NativeException, SequenceNode,
    VariableNode, Variant, VariantView, Void,
};

verus! {

/// How deep calls may nest before the evaluator reports exhaustion; it
/// stands in for the host stack.
pub const DEFAULT_CALL_DEPTH: u32 = 1000;

/// A well-formed program referring to an absent name, or another structural
/// fault of the execution itself.
#[derive(Debug)]
pub struct RunnerError {
    pub line: u32,
    pub column: u32,
    pub description: String,
}

/// The mathematical value of a structural error.
pub struct RunErrV {
    pub line: int,
    pub column: int,
    pub message: Seq<char>,
}

impl View for RunnerError {
    type V = RunErrV;

    open spec fn view(&self) -> RunErrV {
        RunErrV {
            line: self.line as int,
            column: self.column as int,
            message: self.description@,
        }
    }
}

impl Clone for RunnerError {
    fn clone(&self) -> (res: Self)
        ensures
            res == *self,
    {
        RunnerError { line: self.line, column: self.column, description: self.description.clone() }
    }
}

impl RunnerError {
    pub fn new(line: u32, column: u32, description: &str) -> (res: RunnerError)
        ensures
            res@ == (RunErrV {
                line: line as int,
                column: column as int,
                message: description@,
            }),
    {
        RunnerError { line, column, description: description.to_owned() }
    }
}

/// Why an execution stopped: a structural error, a native function's own
/// exception, or an explicit termination request carrying the exit code.
#[derive(Debug)]
pub enum EvalError {
    Runner(RunnerError),
    Native(NativeException),
    Exit(i64),
}

/// The mathematical value of a stop cause.
pub enum EvalErrV {
    Runner(RunErrV),
    Native(crate::types::NatExcV),
    Exit(i64),
}

impl View for EvalError {
    type V = EvalErrV;

    open spec fn view(&self) -> EvalErrV {
        match self {
            EvalError::Runner(e) => EvalErrV::Runner(e@),
            EvalError::Native(e) => EvalErrV::Native(e@),
            EvalError::Exit(c) => EvalErrV::Exit(*c),
        }
    }
}

/// A call's result, at the level of views.
pub open spec fn eval_res_view(r: Result<Variant, EvalError>) -> Result<VariantView, EvalErrV> {
    match r {
        Ok(v) => Ok(v@),
        Err(e) => Err(e@),
    }
}

/// The source position a node is stamped with.
pub open spec fn ast_pos(a: AstView) -> (int, int) {
    match a {
        AstView::Sequence { line, column, .. } => (line, column),
        AstView::CallFunc { line, column, .. } => (line, column),
        AstView::ConstInt { line, column, .. } => (line, column),
        AstView::ConstStr { line, column, .. } => (line, column),
        AstView::Variable { line, column, .. } => (line, column),
    }
}

/// Prepends an evaluated argument to the outcome of evaluating the rest.
pub open spec fn sp_args_cons(
    v: VariantView,
    rest: Option<(Result<Seq<VariantView>, EvalErrV>, Seq<FrameView>)>,
) -> Option<(Result<Seq<VariantView>, EvalErrV>, Seq<FrameView>)> {
    match rest {
        None => None,
        Some((Ok(vs), sv)) => Some((Ok(seq![v] + vs), sv)),
        Some((Err(e), sv)) => Some((Err(e), sv)),
    }
}

/// Evaluated arguments collected so far, glued onto the outcome of
/// evaluating the rest.
pub open spec fn sp_args_compose(
    prefix: Seq<VariantView>,
    cont: (Result<Seq<VariantView>, EvalErrV>, Seq<FrameView>),
) -> (Result<Seq<VariantView>, EvalErrV>, Seq<FrameView>) {
    match cont.0 {
        Ok(vs) => (Ok(prefix + vs), cont.1),
        Err(_) => cont,
    }
}

proof fn lemma_compose_empty(cont: (Result<Seq<VariantView>, EvalErrV>, Seq<FrameView>))
    ensures
        sp_args_compose(Seq::empty(), cont) == cont,
{
    match cont.0 {
        Ok(vs) => {
            assert(Seq::<VariantView>::empty() + vs =~= vs);
        },
        Err(_) => {},
    }
}

proof fn lemma_compose_push(
    prefix: Seq<VariantView>,
    v: VariantView,
    cont: (Result<Seq<VariantView>, EvalErrV>, Seq<FrameView>),
)
    ensures
        sp_args_compose(prefix, sp_args_cons(v, Some(cont))->0) == sp_args_compose(
            prefix.push(v),
            cont,
        ),
{
    match cont.0 {
        Ok(vs) => {
            assert(prefix + (seq![v] + vs) =~= prefix.push(v) + vs);
        },
        Err(_) => {},
    }
}

/// Argument evaluation, left to right: a literal becomes its value, an
/// anonymous sequence a fresh function value capturing no environment, a
/// variable its chain lookup (an absent name the exact structural error,
/// later arguments unevaluated), a nested call a recursive evaluation whose
/// failure short-circuits. `None` means the outcome rests on the outside
/// world (a console or file native ran); from there nothing more is pinned.
pub open spec fn sp_eval_args(
    sv: Seq<FrameView>,
    at: int,
    args: Seq<AstView>,
    fuel: u32,
) -> Option<(Result<Seq<VariantView>, EvalErrV>, Seq<FrameView>)>
    decreases fuel, 2int, args.len(),
{
    if args.len() == 0 {
        Some((Ok(Seq::empty()), sv))
    } else {
        let rest = args.drop_first();
        match args[0] {
            AstView::Sequence { .. } => sp_args_cons(
                VariantView::Func(crate::types::FuncView { native: None, body: Some(args[0]) }),
                sp_eval_args(sv, at, rest, fuel),
            ),
            AstView::ConstInt { value, .. } => sp_args_cons(
                VariantView::Int(value),
                sp_eval_args(sv, at, rest, fuel),
            ),
            AstView::ConstStr { value, .. } => sp_args_cons(
                VariantView::Str(value),
                sp_eval_args(sv, at, rest, fuel),
            ),
            AstView::Variable { line, column, name } => match scope_lookup_var(sv, at, name) {
                Some(v) => sp_args_cons(v, sp_eval_args(sv, at, rest, fuel)),
                None => Some(
                    (
                        Err(
                            EvalErrV::Runner(
                                RunErrV {
                                    line,
                                    column,
                                    message: "No variable '"@ + name
                                        + "' in the current scope"@,
                                },
                            ),
                        ),
                        sv,
                    ),
                ),
            },
            AstView::CallFunc { .. } => {
                if fuel == 0 {
                    None
                } else {
                    match sp_execute_func(sv, at, args[0], (fuel - 1) as u32) {
                        None => None,
                        Some((Err(e), sv2)) => Some((Err(e), sv2)),
                        Some((Ok(v), sv2)) => sp_args_cons(v, sp_eval_args(sv2, at, rest, fuel)),
                    }
                }
            },
        }
    }
}

/// What one call computes, exactly, wherever the outcome does not rest on
/// the outside world: the name resolves in the function namespace of the
/// chain or gives the exact error; arguments evaluate per `sp_eval_args`;
/// a user body runs against the caller's own scope — dynamic scoping — and
/// the call's own result is the unit value; a native's outcome is
/// `sp_dispatch`'s. `None` stands for an outcome the outside world decides.
pub open spec fn sp_execute_func(
    sv: Seq<FrameView>,
    at: int,
    call: AstView,
    fuel: u32,
) -> Option<(Result<VariantView, EvalErrV>, Seq<FrameView>)>
    decreases fuel, 3int, 0int,
{
    match call {
        AstView::CallFunc { line, column, name, args } => {
            if fuel == 0 {
                Some(
                    (
                        Err(
                            EvalErrV::Runner(
                                RunErrV { line, column, message: "Call depth limit exceeded"@ },
                            ),
                        ),
                        sv,
                    ),
                )
            } else {
                match scope_lookup_fn(sv, at, name) {
                    None => Some(
                        (
                            Err(
                                EvalErrV::Runner(
                                    RunErrV {
                                        line,
                                        column,
                                        message: "No function '"@ + name
                                            + "' in the current scope"@,
                                    },
                                ),
                            ),
                            sv,
                        ),
                    ),
                    Some(f) => match sp_eval_args(sv, at, args, fuel) {
                        None => None,
                        Some((Err(e), sv2)) => Some((Err(e), sv2)),
                        Some((Ok(vals), sv2)) => match f.body {
                            Some(AstView::Sequence { body, .. }) => match sp_execute_sequence(
                                sv2,
                                at,
                                body,
                                (fuel - 1) as u32,
                            ) {
                                None => None,
                                Some((None, sv3)) => Some((Ok(VariantView::Void), sv3)),
                                Some((Some(e), sv3)) => Some((Err(e), sv3)),
                            },
                            Some(_) => None,
                            None => match f.native {
                                Some(nf) => crate::stdlib::sp_dispatch(
                                    sv2,
                                    at,
                                    nf,
                                    line,
                                    column,
                                    vals,
                                    fuel,
                                ),
                                None => Some(
                                    (
                                        Err(
                                            EvalErrV::Runner(
                                                RunErrV {
                                                    line,
                                                    column,
                                                    message: "Function '"@ + name
                                                        + "' defined in current scope, but neither native nor custom"@,
                                                },
                                            ),
                                        ),
                                        sv2,
                                    ),
                                ),
                            },
                        },
                    },
                }
            }
        },
        _ => None,
    }
}

/// What running a statement sequence computes, exactly, wherever the
/// outcome does not rest on the outside world: `None` (success) exactly
/// when every statement's call succeeded; otherwise the first failure, with
/// later statements unexecuted; a non-call statement is the exact
/// structural error at its own position.
pub open spec fn sp_execute_sequence(
    sv: Seq<FrameView>,
    at: int,
    body: Seq<AstView>,
    fuel: u32,
) -> Option<(Option<EvalErrV>, Seq<FrameView>)>
    decreases fuel, 4int, body.len(),
{
    if body.len() == 0 {
        Some((None, sv))
    } else {
        match body[0] {
            AstView::CallFunc { .. } => match sp_execute_func(sv, at, body[0], fuel) {
                None => None,
                Some((Err(e), sv2)) => Some((Some(e), sv2)),
                Some((Ok(_), sv2)) => sp_execute_sequence(sv2, at, body.drop_first(), fuel),
            },
            _ => Some(
                (
                    Some(
                        EvalErrV::Runner(
                            RunErrV {
                                line: ast_pos(body[0]).0,
                                column: ast_pos(body[0]).1,
                                message: "Statement is not a function call"@,
                            },
                        ),
                    ),
                    sv,
                ),
            ),
        }
    }
}

/// How running a unit ended: cleanly, with a reported failure, or with a
/// termination request for the host to honor.
#[derive(Debug, PartialEq, Eq, Clone, Copy, Structural)]
pub enum RunOutcome {
    Done,
    Failed,
    Exit(i64),
}

/// Resolves a variable node against the scope chain; an absent name is the
/// exact structural error.
pub fn get_variable(scope: &Scope, at: ScopeId, node: &VariableNode) -> (r: Result<
    Variant,
    RunnerError,
>)
    requires
        scope.wf(),
        at < scope@.len(),
    ensures
        match scope_lookup_var(scope@, at as int, node.name@) {
            Some(v) => r matches Ok(val) && val@ == v,
            None => r matches Err(e) && e@ == (RunErrV {
                line: node.line as int,
                column: node.column as int,
                message: "No variable '"@ + node.name@ + "' in the current scope"@,
            }),
        },
{
    match scope.get_variable(at, node.name.as_str()) {
        Some(v) => Ok(v),
        None => {
            let mut m = "No variable '".to_owned();
            m.append(node.name.as_str());
            m.append("' in the current scope");
            proof {
                assert(m@ =~= "No variable '"@ + node.name@ + "' in the current scope"@);
            }
            Err(RunnerError { line: node.line, column: node.column, description: m })
        },
    }
}

/// Evaluates one call: resolves the name in the function namespace,
/// evaluates the arguments left-to-right (a nested failure short-circuits),
/// then runs the body in the caller's own scope — dynamic scoping — or
/// dispatches the native. `sp_execute_func` says exactly what comes back
/// and how the scope ends up, wherever the outcome does not rest on the
/// outside world.
#[verifier::loop_isolation(false)]
#[verifier::rlimit(100)]
pub fn execute_func<F: FileSystem>(
    fs: &mut F,
    scope: &mut Scope,
    at: ScopeId,
    node: &CallFuncNode,
    fuel: u32,
) -> (r: Result<Variant, EvalError>)
    requires
        old(scope).wf(),
        at < old(scope)@.len(),
    ensures
        final(scope).wf(),
        final(scope)@.len() == old(scope)@.len(),
        same_shape(old(scope)@, final(scope)@),
        match sp_execute_func(old(scope)@, at as int, node@, fuel) {
            Some(p) => final(scope)@ == p.1 && eval_res_view(r) == p.0,
            None => true,
        },
        fuel == 0 ==> ({
            &&& r matches Err(e)
            &&& e matches EvalError::Runner(re)
            &&& re@ == (RunErrV {
                line: node.line as int,
                column: node.column as int,
                message: "Call depth limit exceeded"@,
            })
        }),
        fuel > 0 && scope_lookup_fn(old(scope)@, at as int, node.name@) is None ==> ({
            &&& r matches Err(e)
            &&& e matches EvalError::Runner(re)
            &&& re@ == (RunErrV {
                line: node.line as int,
                column: node.column as int,
                message: "No function '"@ + node.name@ + "' in the current scope"@,
            })
        }),
    decreases fuel, 2int,
{
    let ghost callv = node@;
    let ghost argviews = ast_views(node.args@);
    proof {
        crate::types::lemma_ast_views_len(node.args@);
    }
    if fuel == 0 {
        return Err(
            EvalError::Runner(
                RunnerError::new(node.line, node.column, "Call depth limit exceeded"),
            ),
        );
    }
    let func = match scope.get_function(at, node.name.as_str()) {
        Some(f) => f,
        None => {
            let mut m = "No function '".to_owned();
            m.append(node.name.as_str());
            m.append("' in the current scope");
            proof {
                assert(m@ =~= "No function '"@ + node.name@ + "' in the current scope"@);
            }
            return Err(
                EvalError::Runner(
                    RunnerError { line: node.line, column: node.column, description: m },
                ),
            );
        },
    };
    let ghost fv = func@;
    let ghost full = sp_eval_args(old(scope)@, at as int, argviews, fuel);
    let mut value_args: Vec<Variant> = Vec::new();
    let mut i: usize = 0;
    proof {
        assert(argviews.skip(0) =~= argviews);
        assert(vals(value_args@) =~= Seq::<VariantView>::empty());
        if full is Some {
            lemma_compose_empty(full->0);
        }
    }
    while i < node.args.len()
        invariant
            scope.wf(),
            scope@.len() == old(scope)@.len(),
            same_shape(old(scope)@, scope@),
            i <= node.args@.len(),
            full is Some ==> ({
                let q = sp_eval_args(scope@, at as int, argviews.skip(i as int), fuel);
                &&& q is Some
                &&& full->0 == sp_args_compose(vals(value_args@), q->0)
            }),
        decreases node.args@.len() - i,
    {
        let ghost mid = scope@;
        let ghost prefix = vals(value_args@);
        let ghost q = sp_eval_args(mid, at as int, argviews.skip(i as int), fuel);
        let ghost qnext = sp_eval_args(mid, at as int, argviews.skip(i + 1), fuel);
        proof {
            crate::types::lemma_ast_views_index(node.args@, i as int);
            assert(argviews.skip(i as int)[0] == argviews[i as int]);
            assert(argviews.skip(i as int).drop_first() =~= argviews.skip(i + 1));
        }
        match &node.args[i] {
            AstNode::Sequence(s) => {
                let ghost v_spec = VariantView::Func(
                    crate::types::FuncView { native: None, body: Some(argviews[i as int]) },
                );
                value_args.push(Variant::Func(Function::new(s.clone())));
                proof {
                    assert(vals(value_args@) =~= prefix.push(v_spec));
                    if full is Some {
                        assert(q == sp_args_cons(v_spec, qnext));
                        assert(qnext is Some);
                        assert(q == sp_args_cons(v_spec, Some(qnext->0)));
                        lemma_compose_push(prefix, v_spec, qnext->0);
                    }
                }
            },
            AstNode::CallFunc(c) => {
                proof {
                    if full is Some {
                        assert(sp_execute_func(mid, at as int, argviews[i as int], (fuel - 1) as u32)
                            is Some);
                    }
                }
                match execute_func(fs, scope, at, c, fuel - 1) {
                    Ok(v) => {
                        let ghost v_spec = v@;
                        value_args.push(v);
                        proof {
                            lemma_same_shape_trans(old(scope)@, mid, scope@);
                            assert(vals(value_args@) =~= prefix.push(v_spec));
                            if full is Some {
                                let nested = sp_execute_func(
                                    mid,
                                    at as int,
                                    argviews[i as int],
                                    (fuel - 1) as u32,
                                );
                                assert(nested == Some((Ok::<VariantView, EvalErrV>(v_spec), scope@)));
                                let q2 = sp_eval_args(scope@, at as int, argviews.skip(i + 1), fuel);
                                assert(q == sp_args_cons(v_spec, q2));
                                assert(q2 is Some);
                                assert(q == sp_args_cons(v_spec, Some(q2->0)));
                                lemma_compose_push(prefix, v_spec, q2->0);
                            }
                        }
                    },
                    Err(e) => {
                        proof {
                            lemma_same_shape_trans(old(scope)@, mid, scope@);
                            if full is Some {
                                let nested = sp_execute_func(
                                    mid,
                                    at as int,
                                    argviews[i as int],
                                    (fuel - 1) as u32,
                                );
                                assert(nested == Some((Err::<VariantView, EvalErrV>(e@), scope@)));
                                assert(q == Some(
                                    (Err::<Seq<VariantView>, EvalErrV>(e@), scope@),
                                ));
                                assert(full->0 == (Err::<Seq<VariantView>, EvalErrV>(e@), scope@));
                            }
                        }
                        return Err(e);
                    },
                }
            },
            AstNode::ConstInt(k) => {
                let ghost v_spec = VariantView::Int(k.value.number);
                value_args.push(Variant::Int(k.value));
                proof {
                    assert(vals(value_args@) =~= prefix.push(v_spec));
                    if full is Some {
                        assert(q == sp_args_cons(v_spec, qnext));
                        assert(qnext is Some);
                        assert(q == sp_args_cons(v_spec, Some(qnext->0)));
                        lemma_compose_push(prefix, v_spec, qnext->0);
                    }
                }
            },
            AstNode::ConstStr(k) => {
                let ghost v_spec = VariantView::Str(k.value.text@);
                value_args.push(Variant::Str(k.value.clone()));
                proof {
                    assert(vals(value_args@) =~= prefix.push(v_spec));
                    if full is Some {
                        assert(q == sp_args_cons(v_spec, qnext));
                        assert(qnext is Some);
                        assert(q == sp_args_cons(v_spec, Some(qnext->0)));
                        lemma_compose_push(prefix, v_spec, qnext->0);
                    }
                }
            },
            AstNode::Variable(v) => {
                match get_variable(scope, at, v) {
                    Ok(val) => {
                        let ghost v_spec = val@;
                        value_args.push(val);
                        proof {
                            assert(vals(value_args@) =~= prefix.push(v_spec));
                            if full is Some {
                                assert(q == sp_args_cons(v_spec, qnext));
                                assert(qnext is Some);
                                assert(q == sp_args_cons(v_spec, Some(qnext->0)));
                                lemma_compose_push(prefix, v_spec, qnext->0);
                            }
                        }
                    },
                    Err(e) => {
                        proof {
                            if full is Some {
                                assert(q == Some(
                                    (
                                        Err::<Seq<VariantView>, EvalErrV>(
                                            EvalErrV::Runner(e@),
                                        ),
                                        mid,
                                    ),
                                ));
                                assert(full->0 == (
                                    Err::<Seq<VariantView>, EvalErrV>(EvalErrV::Runner(e@)),
                                    mid,
                                ));
                            }
                        }
                        return Err(EvalError::Runner(e));
                    },
                }
            },
        }
        i = i + 1;
    }
    let ghost mid = scope@;
    proof {
        if full is Some {
            assert(argviews.skip(node.args@.len() as int).len() == 0);
            assert(sp_eval_args(mid, at as int, argviews.skip(node.args@.len() as int), fuel)
                == Some((Ok::<Seq<VariantView>, EvalErrV>(Seq::empty()), mid)));
            assert(vals(value_args@) + Seq::<VariantView>::empty() =~= vals(value_args@));
            assert(full == Some((Ok::<Seq<VariantView>, EvalErrV>(vals(value_args@)), mid)));
        }
    }
    match &func.body {
        Some(body) => {
            proof {
                assert(fv.body == Some(body@));
            }
            let res = execute_sequence(fs, scope, at, body, fuel - 1);
            proof {
                lemma_same_shape_trans(old(scope)@, mid, scope@);
            }
            match res {
                None => Ok(Variant::Void(Void::new())),
                Some(e) => Err(e),
            }
        },
        None => match func.native {
            Some(nf) => {
                let res = dispatch_native(fs, scope, at, nf, node.line, node.column, &value_args, fuel);
                proof {
                    lemma_same_shape_trans(old(scope)@, mid, scope@);
                }
                res
            },
            None => {
                let mut m = "Function '".to_owned();
                m.append(node.name.as_str());
                m.append("' defined in current scope, but neither native nor custom");
                proof {
                    assert(m@ =~= "Function '"@ + node.name@
                        + "' defined in current scope, but neither native nor custom"@);
                }
                Err(
                    EvalError::Runner(
                        RunnerError { line: node.line, column: node.column, description: m },
                    ),
                )
            },
        },
    }
}

/// Runs the statements of a sequence in order; every statement must be a
/// call, and the first failure aborts the rest, later statements
/// unexecuted. A non-call statement is a structural fault of the tree
/// itself. `sp_execute_sequence` says exactly what comes back wherever the
/// outcome does not rest on the outside world.
#[verifier::loop_isolation(false)]
#[verifier::rlimit(100)]
pub fn execute_sequence<F: FileSystem>(
    fs: &mut F,
    scope: &mut Scope,
    at: ScopeId,
    node: &SequenceNode,
    fuel: u32,
) -> (r: Option<EvalError>)
    requires
        old(scope).wf(),
        at < old(scope)@.len(),
    ensures
        final(scope).wf(),
        final(scope)@.len() == old(scope)@.len(),
        same_shape(old(scope)@, final(scope)@),
        match sp_execute_sequence(old(scope)@, at as int, ast_views(node.body@), fuel) {
            Some(p) => final(scope)@ == p.1 && (match (r, p.0) {
                (None, None) => true,
                (Some(e), Some(ev)) => e@ == ev,
                _ => false,
            }),
            None => true,
        },
        node.body@.len() == 0 ==> r is None && final(scope)@ == old(scope)@,
    decreases fuel, 3int,
{
    let ghost bodyviews = ast_views(node.body@);
    let ghost full = sp_execute_sequence(old(scope)@, at as int, bodyviews, fuel);
    proof {
        crate::types::lemma_ast_views_len(node.body@);
        assert(bodyviews.skip(0) =~= bodyviews);
    }
    if node.body.len() == 0 {
        return None;
    }
    let mut i: usize = 0;
    while i < node.body.len()
        invariant
            scope.wf(),
            scope@.len() == old(scope)@.len(),
            same_shape(old(scope)@, scope@),
            i <= node.body@.len(),
            full is Some ==> sp_execute_sequence(scope@, at as int, bodyviews.skip(i as int), fuel)
                == full,
        decreases node.body@.len() - i,
    {
        let ghost mid = scope@;
        proof {
            crate::types::lemma_ast_views_index(node.body@, i as int);
            assert(bodyviews.skip(i as int)[0] == bodyviews[i as int]);
            assert(bodyviews.skip(i as int).drop_first() =~= bodyviews.skip(i + 1));
        }
        match &node.body[i] {
            AstNode::CallFunc(c) => {
                proof {
                    if full is Some {
                        assert(sp_execute_func(mid, at as int, bodyviews[i as int], fuel) is Some);
                    }
                }
                match execute_func(fs, scope, at, c, fuel) {
                    Ok(v) => {
                        proof {
                            lemma_same_shape_trans(old(scope)@, mid, scope@);
                            if full is Some {
                                assert(sp_execute_func(mid, at as int, bodyviews[i as int], fuel)
                                    == Some((Ok::<VariantView, EvalErrV>(v@), scope@)));
                            }
                        }
                    },
                    Err(e) => {
                        proof {
                            lemma_same_shape_trans(old(scope)@, mid, scope@);
                            if full is Some {
                                assert(sp_execute_func(mid, at as int, bodyviews[i as int], fuel)
                                    == Some((Err::<VariantView, EvalErrV>(e@), scope@)));
                                assert(full == Some(
                                    (Some(e@), scope@),
                                ));
                            }
                        }
                        return Some(e);
                    },
                }
            },
            AstNode::Sequence(s) => {
                return Some(not_a_call(s.line, s.column));
            },
            AstNode::ConstInt(k) => {
                return Some(not_a_call(k.line, k.column));
            },
            AstNode::ConstStr(k) => {
                return Some(not_a_call(k.line, k.column));
            },
            AstNode::Variable(v) => {
                return Some(not_a_call(v.line, v.column));
            },
        }
        i = i + 1;
    }
    proof {
        if full is Some {
            assert(bodyviews.skip(node.body@.len() as int).len() == 0);
        }
    }
    None
}

/// The structural error for a top-level statement that is not a call.
fn not_a_call(line: u32, column: u32) -> (r: EvalError)
    ensures
        r matches EvalError::Runner(re) && re@ == (RunErrV {
            line: line as int,
            column: column as int,
            message: "Statement is not a function call"@,
        }),
{
    EvalError::Runner(RunnerError::new(line, column, "Statement is not a function call"))
}

proof fn lemma_same_shape_trans(a: Seq<crate::scope::FrameView>, b: Seq<crate::scope::FrameView>, c: Seq<crate::scope::FrameView>)
    requires
        same_shape(a, b),
        same_shape(b, c),
    ensures
        same_shape(a, c),
{
}

// ---------------------------------------------------------------------------
// Cleanup
// ---------------------------------------------------------------------------

/// Registers a cleanup action on the given scope frame; actions run once
/// each, in registration order, at teardown.
pub fn add_cleanup_destructor(scope: &mut Scope, at: ScopeId, destructor: Destructor) -> (r: bool)
    requires
        old(scope).wf(),
        at < old(scope)@.len(),
    ensures
        r,
        final(scope).wf(),
        final(scope)@[at as int].destructors == old(scope)@[at as int].destructors.push(
            destructor,
        ),
{
    scope.add_destructor(at, destructor);
    true
}

/// Runs every cleanup action registered on the frame, once each, in
/// registration order; actions tolerate resources already released.
#[verifier::loop_isolation(false)]
pub fn cleanup<F: FileSystem>(fs: &mut F, scope: &Scope, at: ScopeId) -> (r: bool)
    requires
        at < scope@.len(),
    ensures
        r,
{
    let destructors = scope.destructors(at);
    let mut i: usize = 0;
    while i < destructors.len()
        decreases destructors@.len() - i,
    {
        match destructors[i] {
            Destructor::CloseFiles => {
                destructor_close_files(fs, scope, at);
            },
        }
        i = i + 1;
    }
    true
}

// ---------------------------------------------------------------------------
// Running whole units
// ---------------------------------------------------------------------------

/// How a run ends for each way its statement sequence can stop.
pub open spec fn sp_run_outcome(o: Option<EvalErrV>) -> RunOutcome {
    match o {
        None => RunOutcome::Done,
        Some(EvalErrV::Exit(c)) => RunOutcome::Exit(c),
        Some(_) => RunOutcome::Failed,
    }
}

/// `"<head> on line <l> column <c>: <msg>"`, with a trailing line break.
pub open spec fn sp_diag(head: Seq<char>, line: int, column: int, msg: Seq<char>) -> Seq<char> {
    head + " on line "@ + dec_digits(line as nat) + " column "@ + dec_digits(column as nat)
        + ": "@ + msg + "\n"@
}

pub fn diag_message(head: String, line: u32, column: u32, msg: &str) -> (r: String)
    ensures
        r@ == sp_diag(head@, line as int, column as int, msg@),
{
    let ghost h0 = head@;
    let mut out = head;
    out.append(" on line ");
    out.append(u32_to_string(line).as_str());
    out.append(" column ");
    out.append(u32_to_string(column).as_str());
    out.append(": ");
    out.append(msg);
    out.append("\n");
    proof {
        assert(out@ =~= sp_diag(h0, line as int, column as int, msg@));
    }
    out
}

/// Executes a parsed program against the given scope, printing one
/// diagnostic line on failure. The cleanup actions run at teardown, once
/// each, whether the run completed or failed; only a termination request
/// skips them, as an exiting process would.
pub fn execute<F: FileSystem>(
    fs: &mut F,
    scope: &mut Scope,
    at: ScopeId,
    ast: &SequenceNode,
    path: &str,
) -> (r: RunOutcome)
    requires
        old(scope).wf(),
        at < old(scope)@.len(),
    ensures
        final(scope).wf(),
        final(scope)@.len() == old(scope)@.len(),
        same_shape(old(scope)@, final(scope)@),
        match sp_execute_sequence(
            old(scope)@,
            at as int,
            ast_views(ast.body@),
            DEFAULT_CALL_DEPTH,
        ) {
            Some(p) => final(scope)@ == p.1 && r == sp_run_outcome(p.0),
            None => true,
        },
{
    match execute_sequence(fs, scope, at, ast, DEFAULT_CALL_DEPTH) {
        None => {
            cleanup(fs, scope, at);
            RunOutcome::Done
        },
        Some(EvalError::Runner(e)) => {
            let mut head = path.to_owned();
            head.append(": Runtime error");
            let msg = diag_message(head, e.line, e.column, e.description.as_str());
            write_stdout(msg.as_str());
            cleanup(fs, scope, at);
            RunOutcome::Failed
        },
        Some(EvalError::Native(e)) => {
            let mut head = path.to_owned();
            head.append(": Native function exception");
            let msg = diag_message(head, e.line, e.column, e.description.as_str());
            write_stdout(msg.as_str());
            cleanup(fs, scope, at);
            RunOutcome::Failed
        },
        Some(EvalError::Exit(code)) => RunOutcome::Exit(code),
    }
}

/// Parses and executes a source unit against the given scope; a parse
/// failure prints one diagnostic line and nothing runs.
pub fn run_code_scope<F: FileSystem>(
    fs: &mut F,
    code: &str,
    scope: &mut Scope,
    at: ScopeId,
) -> (r: RunOutcome)
    requires
        old(scope).wf(),
        at < old(scope)@.len(),
        code@.len() < 0xFFFF_FFFD,
    ensures
        final(scope).wf(),
        final(scope)@.len() == old(scope)@.len(),
        same_shape(old(scope)@, final(scope)@),
        sp_parse(code@) is Err ==> r == RunOutcome::Failed && final(scope)@ == old(scope)@,
        sp_parse(code@) matches Ok(av) ==> ({
            av matches AstView::Sequence { body, .. } ==> match sp_execute_sequence(
                old(scope)@,
                at as int,
                body,
                DEFAULT_CALL_DEPTH,
            ) {
                Some(p) => final(scope)@ == p.1 && r == sp_run_outcome(p.0),
                None => true,
            }
        }),
{
    let ast = match parse(code) {
        Err(e) => {
            let msg = diag_message(
                "Error".to_owned(),
                e.line,
                e.column,
                e.description.as_str(),
            );
            write_stdout(msg.as_str());
            return RunOutcome::Failed;
        },
        Ok(ast) => ast,
    };
    execute(fs, scope, at, &ast, "Code")
}

/// Parses and executes a source unit in a fresh scope seeded with the
/// standard library and the engine's in-memory file system; whether it ran
/// to completion (a termination request counts as completion). The mirror
/// over `stdlib_frame` says exactly which programs succeed.
pub fn run_code(code: &str) -> (r: bool)
    requires
        code@.len() < 0xFFFF_FFFD,
    ensures
        sp_parse(code@) is Err ==> !r,
        sp_parse(code@) matches Ok(av) ==> ({
            av matches AstView::Sequence { body, .. } ==> match sp_execute_sequence(
                seq![crate::stdlib::stdlib_frame()],
                0,
                body,
                DEFAULT_CALL_DEPTH,
            ) {
                Some(p) => r == (sp_run_outcome(p.0) != RunOutcome::Failed),
                None => true,
            }
        }),
{
    let mut scope = Scope::with_stdlib();
    let mut fs = MemFileSystem::new();
    match run_code_scope(&mut fs, code, &mut scope, 0) {
        RunOutcome::Failed => false,
        _ => true,
    }
}

/// Runs already-loaded source text against the given scope, printing
/// `<path>:`-prefixed diagnostic lines: the compute half of running a file,
/// once the host file system has handed the text over. `sp_parse` and the
/// evaluation mirror say exactly which outcome comes back.
pub fn run_loaded_source<F: FileSystem>(
    fs: &mut F,
    code: &str,
    scope: &mut Scope,
    at: ScopeId,
    path: &str,
) -> (r: RunOutcome)
    requires
        old(scope).wf(),
        at < old(scope)@.len(),
        code@.len() < 0xFFFF_FFFD,
    ensures
        final(scope).wf(),
        final(scope)@.len() == old(scope)@.len(),
        same_shape(old(scope)@, final(scope)@),
        sp_parse(code@) is Err ==> r == RunOutcome::Failed && final(scope)@ == old(scope)@,
        sp_parse(code@) matches Ok(av) ==> ({
            av matches AstView::Sequence { body, .. } ==> match sp_execute_sequence(
                old(scope)@,
                at as int,
                body,
                DEFAULT_CALL_DEPTH,
            ) {
                Some(p) => final(scope)@ == p.1 && r == sp_run_outcome(p.0),
                None => true,
            }
        }),
{
    let ast = match parse(code) {
        Err(e) => {
            let mut head = path.to_owned();
            head.append(": Error");
            let msg = diag_message(head, e.line, e.column, e.description.as_str());
            write_stdout(msg.as_str());
            return RunOutcome::Failed;
        },
        Ok(ast) => ast,
    };
    execute(fs, scope, at, &ast, path)
}

/// Loads a file through the host file system and runs it against the given
/// scope, printing one `<path>:`-prefixed diagnostic line per failure and
/// never aborting the host. An unreadable (or oversized) file is reported
/// and nothing runs; what the loaded text does is `run_loaded_source`'s
/// exact contract.
pub fn run_file_scope<F: FileSystem>(
    fs: &mut F,
    path: &str,
    scope: &mut Scope,
    at: ScopeId,
) -> (r: RunOutcome)
    requires
        old(scope).wf(),
        at < old(scope)@.len(),
    ensures
        final(scope).wf(),
        final(scope)@.len() == old(scope)@.len(),
        same_shape(old(scope)@, final(scope)@),
{
    let key = path.to_owned();
    let code = match fs.read_file(&key) {
        None => {
            let mut msg = path.to_owned();
            msg.append(": File error\n");
            write_stdout(msg.as_str());
            return RunOutcome::Failed;
        },
        Some(c) => c,
    };
    if code.as_str().unicode_len() >= 0xFFFF_FFFD {
        let mut msg = path.to_owned();
        msg.append(": File error\n");
        write_stdout(msg.as_str());
        return RunOutcome::Failed;
    }
    run_loaded_source(fs, code.as_str(), scope, at, path)
}

/// Runs a file in a fresh scope seeded with the standard library, against
/// the engine's in-memory file system — which starts empty, so as shipped
/// this reports a file error for every path; a host front-end that wants
/// the real file system supplies its own through `run_file_scope`, and the
/// compute half carries its exact contract in `run_loaded_source`.
pub fn run_file(path: &str) -> (r: bool) {
    let mut scope = Scope::with_stdlib();
    let mut fs = MemFileSystem::new();
    match run_file_scope(&mut fs, path, &mut scope, 0) {
        RunOutcome::Failed => false,
        _ => true,
    }
}

/// Runs one interactive line against the given scope: a single call
/// statement evaluates to its value (for echoing); anything else accepted
/// by the grammar evaluates to the unit value. A parse failure is reported
/// as a structural error prefixed `Parser: `.
pub fn run_line_scope<F: FileSystem>(
    fs: &mut F,
    code: &str,
    scope: &mut Scope,
    at: ScopeId,
) -> (r: Result<Variant, EvalError>)
    requires
        old(scope).wf(),
        at < old(scope)@.len(),
        code@.len() < 0xFFFF_FFFD,
    ensures
        final(scope).wf(),
        final(scope)@.len() == old(scope)@.len(),
        same_shape(old(scope)@, final(scope)@),
        sp_parse(code@) matches Err(pe) ==> ({
            &&& r matches Err(e)
            &&& e matches EvalError::Runner(re)
            &&& re@ == (RunErrV {
                line: pe.line,
                column: pe.column,
                message: "Parser: "@ + pe.message,
            })
            &&& final(scope)@ == old(scope)@
        }),
        sp_parse(code@) matches Ok(av) ==> ({
            av matches AstView::Sequence { body, .. } && body.len() != 1 ==> ({
                &&& r matches Ok(v)
                &&& v@ is Void
                &&& final(scope)@ == old(scope)@
            })
        }),
        sp_parse(code@) matches Ok(av) ==> ({
            av matches AstView::Sequence { body, .. } ==> ({
                &&& (body.len() == 1 && body[0] is CallFunc ==> match sp_execute_func(
                    old(scope)@,
                    at as int,
                    body[0],
                    DEFAULT_CALL_DEPTH,
                ) {
                    Some(p) => final(scope)@ == p.1 && eval_res_view(r) == p.0,
                    None => true,
                })
                &&& (body.len() == 1 && !(body[0] is CallFunc) ==> ({
                    &&& r matches Err(e)
                    &&& e matches EvalError::Runner(re)
                    &&& re@ == (RunErrV {
                        line: ast_pos(body[0]).0,
                        column: ast_pos(body[0]).1,
                        message: "Statement is not a function call"@,
                    })
                    &&& final(scope)@ == old(scope)@
                }))
            })
        }),
{
    let ast = match parse(code) {
        Err(e) => {
            let mut m = "Parser: ".to_owned();
            m.append(e.description.as_str());
            proof {
                assert(m@ =~= "Parser: "@ + e.description@);
            }
            return Err(
                EvalError::Runner(
                    RunnerError { line: e.line, column: e.column, description: m },
                ),
            );
        },
        Ok(ast) => ast,
    };
    proof {
        crate::types::lemma_ast_views_len(ast.body@);
        if ast.body@.len() > 0 {
            crate::types::lemma_ast_views_index(ast.body@, 0);
        }
    }
    if ast.body.len() == 1 {
        match &ast.body[0] {
            AstNode::CallFunc(c) => {
                return execute_func(fs, scope, at, c, DEFAULT_CALL_DEPTH);
            },
            AstNode::Sequence(s) => {
                return Err(not_a_call(s.line, s.column));
            },
            AstNode::ConstInt(k) => {
                return Err(not_a_call(k.line, k.column));
            },
            AstNode::ConstStr(k) => {
                return Err(not_a_call(k.line, k.column));
            },
            AstNode::Variable(v) => {
                return Err(not_a_call(v.line, v.column));
            },
        }
    }
    Ok(Variant::Void(Void::new()))
}

/// Runs one line in a fresh scope seeded with the standard library and the
/// engine's in-memory file system: the exact contract of `run_line_scope`,
/// over `stdlib_frame`.
pub fn run_line(code: &str) -> (r: Result<Variant, EvalError>)
    requires
        code@.len() < 0xFFFF_FFFD,
    ensures
        sp_parse(code@) matches Err(pe) ==> ({
            &&& r matches Err(e)
            &&& e matches EvalError::Runner(re)
            &&& re@ == (RunErrV {
                line: pe.line,
                column: pe.column,
                message: "Parser: "@ + pe.message,
            })
        }),
        sp_parse(code@) matches Ok(av) ==> ({
            av matches AstView::Sequence { body, .. } ==> ({
                &&& (body.len() != 1 ==> ({
                    &&& r matches Ok(v)
                    &&& v@ is Void
                }))
                &&& (body.len() == 1 && body[0] is CallFunc ==> match sp_execute_func(
                    seq![crate::stdlib::stdlib_frame()],
                    0,
                    body[0],
                    DEFAULT_CALL_DEPTH,
                ) {
                    Some(p) => eval_res_view(r) == p.0,
                    None => true,
                })
                &&& (body.len() == 1 && !(body[0] is CallFunc) ==> ({
                    &&& r matches Err(e)
                    &&& e matches EvalError::Runner(re)
                    &&& re@ == (RunErrV {
                        line: ast_pos(body[0]).0,
                        column: ast_pos(body[0]).1,
                        message: "Statement is not a function call"@,
                    })
                }))
            })
        }),
{
    let mut scope = Scope::with_stdlib();
    let mut fs = MemFileSystem::new();
    run_line_scope(&mut fs, code, &mut scope, 0)
}

} // verus!
