//! The standard library: the native functions seeded into a fresh
//! environment, their registration, and the dispatch that runs one of them.
//! Each pure native has an exact specification (`sp_native_*`); the ones that
//! touch the console or the file system state what holds whatever the host
//! returned.

use vstd::prelude::*;
use vstd::string::*;
use crate::console::{flush_stdout, read_stdin_line, write_stderr, write_stdout};
use crate::fs::FileSystem;
use crate::numbers::{dec_digits, parse_i64, spec_parse_i64, usize_to_string};
use crate::runner::{execute_sequence, eval_res_view, sp_execute_sequence, EvalErrV, EvalError};
use crate::scope::{assoc_get, assoc_set, Destructor, FrameView, Scope, ScopeId};
use crate::types::{
    AstView, Custom, Function, FuncView, Int, NativeException, NativeFn, NatExcV, SequenceNode,
    Str, Variant, VariantView, Void, print_repr,
};

verus! {

/// The host kind identifier of file values.
pub const CUSTOM_TYPE_FILE: usize = 1;

/// The views of an argument vector.
pub open spec fn vals(args: Seq<Variant>) -> Seq<VariantView> {
    args.map_values(|v: Variant| v@)
}

/// A `Result` of a native call, at the level of views.
pub open spec fn res_view(r: Result<Variant, NativeException>) -> Result<VariantView, NatExcV> {
    match r {
        Ok(v) => Ok(v@),
        Err(e) => Err(e@),
    }
}

pub open spec fn exc(line: int, column: int, message: Seq<char>) -> NatExcV {
    NatExcV { line, column, message }
}

/// The wrong-arity message: the fixed count a function takes against what
/// was given.
pub open spec fn sp_arity_msg(takes: int, given: nat) -> Seq<char> {
    "This function takes "@ + dec_digits(takes as nat) + (if takes == 1 {
        " argument, "@
    } else {
        " arguments, "@
    }) + dec_digits(given) + " given"@
}

fn arity_exception(line: u32, column: u32, takes: u64, given: usize) -> (r: NativeException)
    requires
        takes < 10,
    ensures
        r@ == exc(line as int, column as int, sp_arity_msg(takes as int, given as nat)),
{
    let mut m = "This function takes ".to_owned();
    m.append(crate::numbers::u64_to_string(takes).as_str());
    if takes == 1 {
        m.append(" argument, ");
    } else {
        m.append(" arguments, ");
    }
    m.append(usize_to_string(given).as_str());
    m.append(" given");
    proof {
        assert(m@ =~= sp_arity_msg(takes as int, given as nat));
    }
    NativeException { line, column, description: m }
}

// ---------------------------------------------------------------------------
// Arithmetic and logic
// ---------------------------------------------------------------------------

/// What `add` returns: the wrapping sum of two integers, or the exact
/// argument error.
pub open spec fn sp_native_add(line: int, column: int, a: Seq<VariantView>) -> Result<
    VariantView,
    NatExcV,
> {
    if a.len() != 2 {
        Err(exc(line, column, sp_arity_msg(2, a.len())))
    } else if !(a[0] is Int) {
        Err(exc(line, column, "First argument of this function should be `Int(a)`"@))
    } else if !(a[1] is Int) {
        Err(exc(line, column, "Second argument of this function should be `Int(b)`"@))
    } else {
        Ok(VariantView::Int(vstd::wrapping::i64_specs::wrapping_add(a[0]->Int_0, a[1]->Int_0)))
    }
}

/// Adds two integers with wrapping overflow; see `sp_native_add`.
pub fn native_add(line: u32, column: u32, args: &Vec<Variant>) -> (r: Result<
    Variant,
    NativeException,
>)
    ensures
        res_view(r) == sp_native_add(line as int, column as int, vals(args@)),
{
    if args.len() != 2 {
        return Err(arity_exception(line, column, 2, args.len()));
    }
    let a = match &args[0] {
        Variant::Int(i) => i.number,
        _ => {
            return Err(
                NativeException::new(
                    line,
                    column,
                    "First argument of this function should be `Int(a)`",
                ),
            );
        },
    };
    let b = match &args[1] {
        Variant::Int(i) => i.number,
        _ => {
            return Err(
                NativeException::new(
                    line,
                    column,
                    "Second argument of this function should be `Int(b)`",
                ),
            );
        },
    };
    Ok(Variant::Int(Int::new(a.wrapping_add(b))))
}

/// What `subt` returns: the wrapping difference, or the exact argument error.
pub open spec fn sp_native_subt(line: int, column: int, a: Seq<VariantView>) -> Result<
    VariantView,
    NatExcV,
> {
    if a.len() != 2 {
        Err(exc(line, column, sp_arity_msg(2, a.len())))
    } else if !(a[0] is Int) {
        Err(exc(line, column, "First argument of this function should be `Int(a)`"@))
    } else if !(a[1] is Int) {
        Err(exc(line, column, "Second argument of this function should be `Int(b)`"@))
    } else {
        Ok(VariantView::Int(vstd::wrapping::i64_specs::wrapping_sub(a[0]->Int_0, a[1]->Int_0)))
    }
}

/// Subtracts two integers with wrapping overflow; see `sp_native_subt`.
pub fn native_subt(line: u32, column: u32, args: &Vec<Variant>) -> (r: Result<
    Variant,
    NativeException,
>)
    ensures
        res_view(r) == sp_native_subt(line as int, column as int, vals(args@)),
{
    if args.len() != 2 {
        return Err(arity_exception(line, column, 2, args.len()));
    }
    let a = match &args[0] {
        Variant::Int(i) => i.number,
        _ => {
            return Err(
                NativeException::new(
                    line,
                    column,
                    "First argument of this function should be `Int(a)`",
                ),
            );
        },
    };
    let b = match &args[1] {
        Variant::Int(i) => i.number,
        _ => {
            return Err(
                NativeException::new(
                    line,
                    column,
                    "Second argument of this function should be `Int(b)`",
                ),
            );
        },
    };
    Ok(Variant::Int(Int::new(a.wrapping_sub(b))))
}

/// What `mult` returns: the wrapping product, or the exact argument error.
pub open spec fn sp_native_mult(line: int, column: int, a: Seq<VariantView>) -> Result<
    VariantView,
    NatExcV,
> {
    if a.len() != 2 {
        Err(exc(line, column, sp_arity_msg(2, a.len())))
    } else if !(a[0] is Int) {
        Err(exc(line, column, "First argument of this function should be `Int(a)`"@))
    } else if !(a[1] is Int) {
        Err(exc(line, column, "Second argument of this function should be `Int(b)`"@))
    } else {
        Ok(VariantView::Int(vstd::wrapping::i64_specs::wrapping_mul(a[0]->Int_0, a[1]->Int_0)))
    }
}

/// Multiplies two integers with wrapping overflow; see `sp_native_mult`.
pub fn native_mult(line: u32, column: u32, args: &Vec<Variant>) -> (r: Result<
    Variant,
    NativeException,
>)
    ensures
        res_view(r) == sp_native_mult(line as int, column as int, vals(args@)),
{
    if args.len() != 2 {
        return Err(arity_exception(line, column, 2, args.len()));
    }
    let a = match &args[0] {
        Variant::Int(i) => i.number,
        _ => {
            return Err(
                NativeException::new(
                    line,
                    column,
                    "First argument of this function should be `Int(a)`",
                ),
            );
        },
    };
    let b = match &args[1] {
        Variant::Int(i) => i.number,
        _ => {
            return Err(
                NativeException::new(
                    line,
                    column,
                    "Second argument of this function should be `Int(b)`",
                ),
            );
        },
    };
    Ok(Variant::Int(Int::new(a.wrapping_mul(b))))
}

/// Truncating signed division, as the host machine divides.
pub open spec fn sp_trunc_div(a: int, b: int) -> int {
    let m = if a < 0 {
        -a
    } else {
        a
    };
    let n = if b < 0 {
        -b
    } else {
        b
    };
    if (a < 0) == (b < 0) {
        m / n
    } else {
        -(m / n)
    }
}

/// What `idiv` returns: the truncating quotient; division by zero and the
/// one overflowing quotient are exceptions, never wraparound.
pub open spec fn sp_native_idiv(line: int, column: int, a: Seq<VariantView>) -> Result<
    VariantView,
    NatExcV,
> {
    if a.len() != 2 {
        Err(exc(line, column, sp_arity_msg(2, a.len())))
    } else if !(a[0] is Int) {
        Err(exc(line, column, "First argument of this function should be `Int(a)`"@))
    } else if !(a[1] is Int) {
        Err(exc(line, column, "Second argument of this function should be `Int(b)`"@))
    } else if a[1]->Int_0 == 0 {
        Err(exc(line, column, "Division by zero"@))
    } else if a[0]->Int_0 == i64::MIN && a[1]->Int_0 == -1 {
        Err(exc(line, column, "Division overflow"@))
    } else {
        Ok(VariantView::Int(sp_trunc_div(a[0]->Int_0 as int, a[1]->Int_0 as int) as i64))
    }
}

/// Divides two integers, truncating toward zero; see `sp_native_idiv`.
pub fn native_idiv(line: u32, column: u32, args: &Vec<Variant>) -> (r: Result<
    Variant,
    NativeException,
>)
    ensures
        res_view(r) == sp_native_idiv(line as int, column as int, vals(args@)),
{
    if args.len() != 2 {
        return Err(arity_exception(line, column, 2, args.len()));
    }
    let a = match &args[0] {
        Variant::Int(i) => i.number,
        _ => {
            return Err(
                NativeException::new(
                    line,
                    column,
                    "First argument of this function should be `Int(a)`",
                ),
            );
        },
    };
    let b = match &args[1] {
        Variant::Int(i) => i.number,
        _ => {
            return Err(
                NativeException::new(
                    line,
                    column,
                    "Second argument of this function should be `Int(b)`",
                ),
            );
        },
    };
    if b == 0 {
        return Err(NativeException::new(line, column, "Division by zero"));
    }
    if a == i64::MIN && b == -1 {
        return Err(NativeException::new(line, column, "Division overflow"));
    }
    let am: u64 = if a < 0 {
        ((-(a + 1)) as u64) + 1
    } else {
        a as u64
    };
    let bm: u64 = if b < 0 {
        ((-(b + 1)) as u64) + 1
    } else {
        b as u64
    };
    let q: u64 = am / bm;
    proof {
        vstd::arithmetic::div_mod::lemma_div_is_ordered_by_denominator(am as int, 1, bm as int);
        vstd::arithmetic::div_mod::lemma_div_by_self(bm as int);
        if bm >= 2 {
            vstd::arithmetic::div_mod::lemma_div_is_ordered_by_denominator(am as int, 2, bm as int);
        }
        assert(q as int <= am as int);
    }
    let neg = (a < 0) != (b < 0);
    let v: i64 = if neg {
        if q == 0x8000_0000_0000_0000 {
            i64::MIN
        } else {
            -(q as i64)
        }
    } else {
        q as i64
    };
    proof {
        assert(am as int == (if a < 0 { -(a as int) } else { a as int }));
        assert(bm as int == (if b < 0 { -(b as int) } else { b as int }));
        assert(v as int == sp_trunc_div(a as int, b as int));
    }
    Ok(Variant::Int(Int::new(v)))
}

/// What `and` returns: one when both integers are nonzero, else zero.
pub open spec fn sp_native_and(line: int, column: int, a: Seq<VariantView>) -> Result<
    VariantView,
    NatExcV,
> {
    if a.len() != 2 {
        Err(exc(line, column, sp_arity_msg(2, a.len())))
    } else if !(a[0] is Int) {
        Err(exc(line, column, "First argument of this function should be `Int(a)`"@))
    } else if !(a[1] is Int) {
        Err(exc(line, column, "Second argument of this function should be `Int(b)`"@))
    } else {
        Ok(
            VariantView::Int(
                if a[0]->Int_0 != 0 && a[1]->Int_0 != 0 {
                    1
                } else {
                    0
                },
            ),
        )
    }
}

/// Logical conjunction over integers; see `sp_native_and`.
pub fn native_and(line: u32, column: u32, args: &Vec<Variant>) -> (r: Result<
    Variant,
    NativeException,
>)
    ensures
        res_view(r) == sp_native_and(line as int, column as int, vals(args@)),
{
    if args.len() != 2 {
        return Err(arity_exception(line, column, 2, args.len()));
    }
    let a = match &args[0] {
        Variant::Int(i) => i.number,
        _ => {
            return Err(
                NativeException::new(
                    line,
                    column,
                    "First argument of this function should be `Int(a)`",
                ),
            );
        },
    };
    let b = match &args[1] {
        Variant::Int(i) => i.number,
        _ => {
            return Err(
                NativeException::new(
                    line,
                    column,
                    "Second argument of this function should be `Int(b)`",
                ),
            );
        },
    };
    Ok(Variant::Int(Int::new(if a != 0 && b != 0 { 1 } else { 0 })))
}

/// What `or` returns: one when either integer is nonzero, else zero.
pub open spec fn sp_native_or(line: int, column: int, a: Seq<VariantView>) -> Result<
    VariantView,
    NatExcV,
> {
    if a.len() != 2 {
        Err(exc(line, column, sp_arity_msg(2, a.len())))
    } else if !(a[0] is Int) {
        Err(exc(line, column, "First argument of this function should be `Int(a)`"@))
    } else if !(a[1] is Int) {
        Err(exc(line, column, "Second argument of this function should be `Int(b)`"@))
    } else {
        Ok(
            VariantView::Int(
                if a[0]->Int_0 != 0 || a[1]->Int_0 != 0 {
                    1
                } else {
                    0
                },
            ),
        )
    }
}

/// Logical disjunction over integers; see `sp_native_or`.
pub fn native_or(line: u32, column: u32, args: &Vec<Variant>) -> (r: Result<
    Variant,
    NativeException,
>)
    ensures
        res_view(r) == sp_native_or(line as int, column as int, vals(args@)),
{
    if args.len() != 2 {
        return Err(arity_exception(line, column, 2, args.len()));
    }
    let a = match &args[0] {
        Variant::Int(i) => i.number,
        _ => {
            return Err(
                NativeException::new(
                    line,
                    column,
                    "First argument of this function should be `Int(a)`",
                ),
            );
        },
    };
    let b = match &args[1] {
        Variant::Int(i) => i.number,
        _ => {
            return Err(
                NativeException::new(
                    line,
                    column,
                    "Second argument of this function should be `Int(b)`",
                ),
            );
        },
    };
    Ok(Variant::Int(Int::new(if a != 0 || b != 0 { 1 } else { 0 })))
}

/// What `eq` returns: one when the two values are equal under kind-aware
/// equality, else zero; cross-kind comparisons are zero, never an error.
pub open spec fn sp_native_eq(line: int, column: int, a: Seq<VariantView>) -> Result<
    VariantView,
    NatExcV,
> {
    if a.len() != 2 {
        Err(exc(line, column, sp_arity_msg(2, a.len())))
    } else {
        Ok(
            VariantView::Int(
                if crate::types::variant_similar(a[0], a[1]) {
                    1
                } else {
                    0
                },
            ),
        )
    }
}

/// Value equality; see `sp_native_eq`.
pub fn native_eq(line: u32, column: u32, args: &Vec<Variant>) -> (r: Result<
    Variant,
    NativeException,
>)
    ensures
        res_view(r) == sp_native_eq(line as int, column as int, vals(args@)),
{
    if args.len() != 2 {
        return Err(arity_exception(line, column, 2, args.len()));
    }
    let e = args[0].equals(&args[1]);
    Ok(Variant::Int(Int::new(if e { 1 } else { 0 })))
}

/// What `neq` returns: the negation of `eq`.
pub open spec fn sp_native_neq(line: int, column: int, a: Seq<VariantView>) -> Result<
    VariantView,
    NatExcV,
> {
    if a.len() != 2 {
        Err(exc(line, column, sp_arity_msg(2, a.len())))
    } else {
        Ok(
            VariantView::Int(
                if crate::types::variant_similar(a[0], a[1]) {
                    0
                } else {
                    1
                },
            ),
        )
    }
}

/// Value inequality; see `sp_native_neq`.
pub fn native_neq(line: u32, column: u32, args: &Vec<Variant>) -> (r: Result<
    Variant,
    NativeException,
>)
    ensures
        res_view(r) == sp_native_neq(line as int, column as int, vals(args@)),
{
    if args.len() != 2 {
        return Err(arity_exception(line, column, 2, args.len()));
    }
    let e = args[0].equals(&args[1]);
    Ok(Variant::Int(Int::new(if e { 0 } else { 1 })))
}

// ---------------------------------------------------------------------------
// Strings and parsing
// ---------------------------------------------------------------------------

/// What `parse_int` returns: the integer a string denotes, under exactly
/// `spec_parse_i64`, or the exact error.
pub open spec fn sp_native_parse_int(line: int, column: int, a: Seq<VariantView>) -> Result<
    VariantView,
    NatExcV,
> {
    if a.len() != 1 {
        Err(exc(line, column, sp_arity_msg(1, a.len())))
    } else if !(a[0] is Str) {
        Err(exc(line, column, "First argument of this function should be `Str(number)`"@))
    } else {
        match spec_parse_i64(a[0]->Str_0) {
            Some(v) => Ok(VariantView::Int(v)),
            None => Err(exc(line, column, "Invalid number string"@)),
        }
    }
}

/// Parses an integer from a string value; see `sp_native_parse_int`.
pub fn native_parse_int(line: u32, column: u32, args: &Vec<Variant>) -> (r: Result<
    Variant,
    NativeException,
>)
    ensures
        res_view(r) == sp_native_parse_int(line as int, column as int, vals(args@)),
{
    if args.len() != 1 {
        return Err(arity_exception(line, column, 1, args.len()));
    }
    let s = match &args[0] {
        Variant::Str(s) => s,
        _ => {
            return Err(
                NativeException::new(
                    line,
                    column,
                    "First argument of this function should be `Str(number)`",
                ),
            );
        },
    };
    match parse_i64(s.text.as_str()) {
        Some(v) => Ok(Variant::Int(Int::new(v))),
        None => Err(NativeException::new(line, column, "Invalid number string")),
    }
}

/// What `lf` returns: the line-feed string.
pub open spec fn sp_native_lf(line: int, column: int, a: Seq<VariantView>) -> Result<
    VariantView,
    NatExcV,
> {
    if a.len() != 0 {
        Err(exc(line, column, sp_arity_msg(0, a.len())))
    } else {
        Ok(VariantView::Str("\n"@))
    }
}

/// The line-feed string; see `sp_native_lf`.
pub fn native_lf(line: u32, column: u32, args: &Vec<Variant>) -> (r: Result<
    Variant,
    NativeException,
>)
    ensures
        res_view(r) == sp_native_lf(line as int, column as int, vals(args@)),
{
    if args.len() != 0 {
        return Err(arity_exception(line, column, 0, args.len()));
    }
    Ok(Variant::Str(Str::new("\n")))
}

/// What `cr` returns: the carriage-return string.
pub open spec fn sp_native_cr(line: int, column: int, a: Seq<VariantView>) -> Result<
    VariantView,
    NatExcV,
> {
    if a.len() != 0 {
        Err(exc(line, column, sp_arity_msg(0, a.len())))
    } else {
        Ok(VariantView::Str("\r"@))
    }
}

/// The carriage-return string; see `sp_native_cr`.
pub fn native_cr(line: u32, column: u32, args: &Vec<Variant>) -> (r: Result<
    Variant,
    NativeException,
>)
    ensures
        res_view(r) == sp_native_cr(line as int, column as int, vals(args@)),
{
    if args.len() != 0 {
        return Err(arity_exception(line, column, 0, args.len()));
    }
    Ok(Variant::Str(Str::new("\r")))
}

} // verus!

verus! {

// ---------------------------------------------------------------------------
// Natives that touch the environment
// ---------------------------------------------------------------------------

/// Binds a variable in the active frame itself: `set("x", v)`. Never writes
/// an ancestor frame.
pub fn native_set(
    scope: &mut Scope,
    at: ScopeId,
    line: u32,
    column: u32,
    args: &Vec<Variant>,
) -> (r: Result<Variant, NativeException>)
    requires
        old(scope).wf(),
        at < old(scope)@.len(),
    ensures
        final(scope).wf(),
        final(scope)@.len() == old(scope)@.len(),
        crate::scope::same_shape(old(scope)@, final(scope)@),
        forall|j: int|
            0 <= j < old(scope)@.len() && j != at ==> #[trigger] final(scope)@[j] == old(
                scope,
            )@[j],
        final(scope)@[at as int].funcs == old(scope)@[at as int].funcs,
        ({
            let p = sp_native_set(old(scope)@, at as int, line as int, column as int, vals(args@));
            res_view(r) == p.0 && final(scope)@ == p.1
        }),
{
    if args.len() != 2 {
        return Err(arity_exception(line, column, 2, args.len()));
    }
    let name = match &args[0] {
        Variant::Str(s) => s.text.clone(),
        _ => {
            return Err(
                NativeException::new(
                    line,
                    column,
                    "First argument of this function should be `Str(name)`",
                ),
            );
        },
    };
    scope.set_variable(at, name.as_str(), args[1].clone());
    Ok(Variant::Void(Void::new()))
}

/// Binds a user-defined function under a name in the active frame:
/// `declfunc("f", {..})`.
pub fn native_declfunc(
    scope: &mut Scope,
    at: ScopeId,
    line: u32,
    column: u32,
    args: &Vec<Variant>,
) -> (r: Result<Variant, NativeException>)
    requires
        old(scope).wf(),
        at < old(scope)@.len(),
    ensures
        final(scope).wf(),
        final(scope)@.len() == old(scope)@.len(),
        crate::scope::same_shape(old(scope)@, final(scope)@),
        forall|j: int|
            0 <= j < old(scope)@.len() && j != at ==> #[trigger] final(scope)@[j] == old(
                scope,
            )@[j],
        final(scope)@[at as int].vars == old(scope)@[at as int].vars,
        ({
            let p = sp_native_declfunc(
                old(scope)@,
                at as int,
                line as int,
                column as int,
                vals(args@),
            );
            res_view(r) == p.0 && final(scope)@ == p.1
        }),
{
    if args.len() != 2 {
        return Err(arity_exception(line, column, 2, args.len()));
    }
    let name = match &args[0] {
        Variant::Str(s) => s.text.clone(),
        _ => {
            return Err(
                NativeException::new(
                    line,
                    column,
                    "First argument of this function should be `Str(name)`",
                ),
            );
        },
    };
    let func = match &args[1] {
        Variant::Func(f) => f.clone(),
        _ => {
            return Err(
                NativeException::new(
                    line,
                    column,
                    "Second argument of this function should be `Func(body)`",
                ),
            );
        },
    };
    scope.set_function(at, name.as_str(), func);
    Ok(Variant::Void(Void::new()))
}

/// Resets a variable of the active frame to its kind's empty value: zero,
/// the empty string, or an empty function body. Unavailable for custom
/// values; a `Void` variable is left as it is.
pub fn native_null(
    scope: &mut Scope,
    at: ScopeId,
    line: u32,
    column: u32,
    args: &Vec<Variant>,
) -> (r: Result<Variant, NativeException>)
    requires
        old(scope).wf(),
        at < old(scope)@.len(),
    ensures
        final(scope).wf(),
        final(scope)@.len() == old(scope)@.len(),
        crate::scope::same_shape(old(scope)@, final(scope)@),
        forall|j: int|
            0 <= j < old(scope)@.len() && j != at ==> #[trigger] final(scope)@[j] == old(
                scope,
            )@[j],
        final(scope)@[at as int].funcs == old(scope)@[at as int].funcs,
        ({
            let p = sp_native_null(old(scope)@, at as int, line as int, column as int, vals(args@));
            res_view(r) == p.0 && final(scope)@ == p.1
        }),
{
    if args.len() != 1 {
        return Err(arity_exception(line, column, 1, args.len()));
    }
    let name = match &args[0] {
        Variant::Str(s) => s.text.clone(),
        _ => {
            return Err(
                NativeException::new(
                    line,
                    column,
                    "First argument of this function should be `Str(name)`",
                ),
            );
        },
    };
    let var = match scope.get_local_variable(at, name.as_str()) {
        Some(v) => v,
        None => {
            let mut m = "Variable '".to_owned();
            m.append(name.as_str());
            m.append("' isn't found in the current scope");
            proof {
                assert(m@ =~= "Variable '"@ + name@ + "' isn't found in the current scope"@);
            }
            return Err(NativeException { line, column, description: m });
        },
    };
    match var {
        Variant::Int(_) => {
            scope.set_variable(at, name.as_str(), Variant::Int(Int::new(0)));
        },
        Variant::Str(_) => {
            let empty = Str::new("");
            proof {
                reveal_strlit("");
                assert(empty.text@ =~= Seq::<char>::empty());
            }
            scope.set_variable(at, name.as_str(), Variant::Str(empty));
        },
        Variant::Func(_) => {
            let reset = Function::new(SequenceNode::new(line, column, Vec::new()));
            proof {
                assert(crate::types::ast_views(Seq::<crate::types::AstNode>::empty()) =~= Seq::<
                    AstView,
                >::empty());
            }
            scope.set_variable(at, name.as_str(), Variant::Func(reset));
        },
        Variant::Custom(_) => {
            return Err(
                NativeException::new(
                    line,
                    column,
                    "Reset custom error: Function null() is unavailable for custom types",
                ),
            );
        },
        Variant::Void(_) => {},
    }
    Ok(Variant::Void(Void::new()))
}

// ---------------------------------------------------------------------------
// Control flow
// ---------------------------------------------------------------------------

/// `if(condition, {body})`: runs the user-defined body in the caller's own
/// scope when the condition is nonzero. A structural error inside the body
/// is reported through the exception channel, as this native's own failure.
pub fn native_if<F: FileSystem>(
    fs: &mut F,
    scope: &mut Scope,
    at: ScopeId,
    line: u32,
    column: u32,
    args: &Vec<Variant>,
    fuel: u32,
) -> (r: Result<Variant, EvalError>)
    requires
        old(scope).wf(),
        at < old(scope)@.len(),
        fuel >= 1,
    ensures
        final(scope).wf(),
        final(scope)@.len() == old(scope)@.len(),
        crate::scope::same_shape(old(scope)@, final(scope)@),
        match sp_native_if(old(scope)@, at as int, line as int, column as int, vals(args@), fuel) {
            Some(p) => final(scope)@ == p.1 && eval_res_view(r) == p.0,
            None => true,
        },
    decreases fuel, 0int,
{
    if args.len() != 2 {
        return Err(EvalError::Native(arity_exception(line, column, 2, args.len())));
    }
    let cond = match &args[0] {
        Variant::Int(i) => i.number,
        _ => {
            return Err(
                EvalError::Native(
                    NativeException::new(
                        line,
                        column,
                        "First argument of this function should be `Int(condition)`",
                    ),
                ),
            );
        },
    };
    let func = match &args[1] {
        Variant::Func(f) => f,
        _ => {
            return Err(
                EvalError::Native(
                    NativeException::new(
                        line,
                        column,
                        "Second argument of this function should be `Func(body)`",
                    ),
                ),
            );
        },
    };
    if cond == 0 {
        return Ok(Variant::Void(Void::new()));
    }
    let body = match &func.body {
        Some(b) => b,
        None => {
            return Err(
                EvalError::Native(
                    NativeException::new(
                        line,
                        column,
                        "Function, passed to if should be user-defined",
                    ),
                ),
            );
        },
    };
    match execute_sequence(fs, scope, at, body, fuel - 1) {
        None => Ok(Variant::Void(Void::new())),
        Some(EvalError::Runner(e)) => Err(
            EvalError::Native(NativeException::new(e.line, e.column, e.description.as_str())),
        ),
        Some(EvalError::Native(e)) => Err(EvalError::Native(e)),
        Some(EvalError::Exit(c)) => Err(EvalError::Exit(c)),
    }
}

/// `if_else(condition, {then}, {else})`: runs exactly one of the two
/// user-defined bodies in the caller's own scope.
pub fn native_if_else<F: FileSystem>(
    fs: &mut F,
    scope: &mut Scope,
    at: ScopeId,
    line: u32,
    column: u32,
    args: &Vec<Variant>,
    fuel: u32,
) -> (r: Result<Variant, EvalError>)
    requires
        old(scope).wf(),
        at < old(scope)@.len(),
        fuel >= 1,
    ensures
        final(scope).wf(),
        final(scope)@.len() == old(scope)@.len(),
        crate::scope::same_shape(old(scope)@, final(scope)@),
        match sp_native_if_else(
            old(scope)@,
            at as int,
            line as int,
            column as int,
            vals(args@),
            fuel,
        ) {
            Some(p) => final(scope)@ == p.1 && eval_res_view(r) == p.0,
            None => true,
        },
    decreases fuel, 0int,
{
    if args.len() != 3 {
        return Err(EvalError::Native(arity_exception(line, column, 3, args.len())));
    }
    let cond = match &args[0] {
        Variant::Int(i) => i.number,
        _ => {
            return Err(
                EvalError::Native(
                    NativeException::new(
                        line,
                        column,
                        "First argument of this function should be `Int(condition)`",
                    ),
                ),
            );
        },
    };
    let then_func = match &args[1] {
        Variant::Func(f) => f,
        _ => {
            return Err(
                EvalError::Native(
                    NativeException::new(
                        line,
                        column,
                        "Second argument of this function should be `Func(if_branch)`",
                    ),
                ),
            );
        },
    };
    let else_func = match &args[2] {
        Variant::Func(f) => f,
        _ => {
            return Err(
                EvalError::Native(
                    NativeException::new(
                        line,
                        column,
                        "Third argument of this function should be `Func(else_branch)`",
                    ),
                ),
            );
        },
    };
    let chosen = if cond == 0 {
        else_func
    } else {
        then_func
    };
    let body = match &chosen.body {
        Some(b) => b,
        None => {
            return Err(
                EvalError::Native(
                    NativeException::new(
                        line,
                        column,
                        "Function, passed to if should be user-defined",
                    ),
                ),
            );
        },
    };
    match execute_sequence(fs, scope, at, body, fuel - 1) {
        None => Ok(Variant::Void(Void::new())),
        Some(EvalError::Runner(e)) => Err(
            EvalError::Native(NativeException::new(e.line, e.column, e.description.as_str())),
        ),
        Some(EvalError::Native(e)) => Err(EvalError::Native(e)),
        Some(EvalError::Exit(c)) => Err(EvalError::Exit(c)),
    }
}

/// The at-most-one-argument message of `exit`.
pub open spec fn sp_at_most_one_msg(given: nat) -> Seq<char> {
    "This function takes at most 1 argument, "@ + dec_digits(given) + " given"@
}

/// `exit()` or `exit(code)`: requests termination of the whole execution.
/// The request propagates outward like an exception; the host front-end
/// ends the process with the code.
pub fn native_exit(line: u32, column: u32, args: &Vec<Variant>) -> (r: Result<Variant, EvalError>)
    ensures
        eval_res_view(r) == sp_native_exit(line as int, column as int, vals(args@)),
{
    if args.len() == 0 {
        return Err(EvalError::Exit(0));
    }
    if args.len() == 1 {
        match &args[0] {
            Variant::Int(i) => {
                return Err(EvalError::Exit(i.number));
            },
            _ => {
                return Err(
                    EvalError::Native(
                        NativeException::new(
                            line,
                            column,
                            "First argument of this function should be `Int(code)`",
                        ),
                    ),
                );
            },
        }
    }
    let mut m = "This function takes at most 1 argument, ".to_owned();
    m.append(usize_to_string(args.len()).as_str());
    m.append(" given");
    proof {
        assert(m@ =~= sp_at_most_one_msg(vals(args@).len()));
    }
    Err(EvalError::Native(NativeException { line, column, description: m }))
}

} // verus!

verus! {

// ---------------------------------------------------------------------------
// Console natives
// ---------------------------------------------------------------------------

/// The concatenated `print` rendering of an argument list.
pub open spec fn sp_print_all(a: Seq<VariantView>) -> Seq<char>
    decreases a.len(),
{
    if a.len() == 0 {
        Seq::empty()
    } else {
        sp_print_all(a.subrange(0, a.len() - 1)) + print_repr(a.last())
    }
}

/// Renders every argument with its `print` rendering, in order.
fn render_all(args: &Vec<Variant>) -> (r: String)
    ensures
        r@ == sp_print_all(vals(args@)),
{
    let mut out = String::new();
    let mut i: usize = 0;
    while i < args.len()
        invariant
            i <= args@.len(),
            out@ == sp_print_all(vals(args@).subrange(0, i as int)),
        decreases args@.len() - i,
    {
        out.append(args[i].print_string().as_str());
        proof {
            let a = vals(args@);
            assert(a.subrange(0, i + 1).drop_last() =~= a.subrange(0, i as int));
            assert(a.subrange(0, i + 1).last() == a[i as int]);
        }
        i = i + 1;
    }
    proof {
        assert(vals(args@).subrange(0, args@.len() as int) =~= vals(args@));
    }
    out
}

/// `print(..)`: writes each argument's rendering to standard output and
/// yields the unit value; it never fails.
pub fn native_print(args: &Vec<Variant>) -> (r: Result<Variant, NativeException>)
    ensures
        r matches Ok(v) && v@ is Void,
{
    let out = render_all(args);
    write_stdout(out.as_str());
    Ok(Variant::Void(Void::new()))
}

/// `printerr(..)`: as `print`, to standard error.
pub fn native_printerr(args: &Vec<Variant>) -> (r: Result<Variant, NativeException>)
    ensures
        r matches Ok(v) && v@ is Void,
{
    let out = render_all(args);
    write_stderr(out.as_str());
    Ok(Variant::Void(Void::new()))
}

/// `flush_stdout()`: flushes standard output; an I/O failure is an
/// exception.
pub fn native_flush_stdout(line: u32, column: u32, args: &Vec<Variant>) -> (r: Result<
    Variant,
    NativeException,
>)
    ensures
        vals(args@).len() != 0 ==> res_view(r) == Err::<VariantView, NatExcV>(
            exc(line as int, column as int, sp_arity_msg(0, vals(args@).len())),
        ),
        vals(args@).len() == 0 ==> (r matches Ok(v) && v@ is Void) || (r matches Err(e) && e@
            == exc(line as int, column as int, "I/O error"@)),
{
    if args.len() != 0 {
        return Err(arity_exception(line, column, 0, args.len()));
    }
    if !flush_stdout() {
        return Err(NativeException::new(line, column, "I/O error"));
    }
    Ok(Variant::Void(Void::new()))
}

/// A read line as typed: one trailing line break removed, nothing else.
pub open spec fn sp_chomp(s: Seq<char>) -> Seq<char> {
    if s.len() > 0 && s.last() == '\n' {
        s.drop_last()
    } else {
        s
    }
}

/// Strips one trailing line break; implements `sp_chomp`. This is the one
/// step the library performs on what the console handed back.
pub fn chomp_line(s: &str) -> (r: String)
    ensures
        r@ == sp_chomp(s@),
{
    let n = s.unicode_len();
    if n > 0 && s.get_char(n - 1) == '\n' {
        s.substring_char(0, n - 1).to_owned()
    } else {
        s.to_owned()
    }
}

/// `input()`: one line from standard input, without its trailing line
/// break (exactly `sp_chomp` of what the console returned); end of input
/// or an I/O failure is an exception.
pub fn native_input(line: u32, column: u32, args: &Vec<Variant>) -> (r: Result<
    Variant,
    NativeException,
>)
    ensures
        vals(args@).len() != 0 ==> res_view(r) == Err::<VariantView, NatExcV>(
            exc(line as int, column as int, sp_arity_msg(0, vals(args@).len())),
        ),
        vals(args@).len() == 0 ==> (r matches Ok(v) && v@ is Str) || (r matches Err(e) && e@
            == exc(line as int, column as int, "I/O error"@)),
{
    if args.len() != 0 {
        return Err(arity_exception(line, column, 0, args.len()));
    }
    flush_stdout();
    match read_stdin_line() {
        None => Err(NativeException::new(line, column, "I/O error")),
        Some(buf) => {
            let ghost raw = buf@;
            let trimmed = chomp_line(buf.as_str());
            proof {
                assert(trimmed@ == sp_chomp(raw));
            }
            Ok(Variant::Str(Str::new(trimmed.as_str())))
        },
    }
}

/// `inspect_scope()`: writes the active frame's variable and function
/// tables to standard output, for debugging.
#[verifier::loop_isolation(false)]
pub fn native_inspect_scope(
    scope: &Scope,
    at: ScopeId,
    line: u32,
    column: u32,
    args: &Vec<Variant>,
) -> (r: Result<Variant, NativeException>)
    requires
        at < scope@.len(),
    ensures
        res_view(r) == sp_native_inspect_scope(line as int, column as int, vals(args@)),
{
    if args.len() != 0 {
        return Err(arity_exception(line, column, 0, args.len()));
    }
    write_stdout("Begin of inspection\n");
    let variables = scope.local_variables(at);
    let mut i: usize = 0;
    while i < variables.len()
        decreases variables@.len() - i,
    {
        let mut out = "Variable ".to_owned();
        out.append(variables[i].0.as_str());
        out.append(" = ");
        out.append(variables[i].1.echo_string().as_str());
        out.append("\n");
        write_stdout(out.as_str());
        i = i + 1;
    }
    let functions = scope.local_functions(at);
    let mut j: usize = 0;
    while j < functions.len()
        decreases functions@.len() - j,
    {
        let mut out = "Function ".to_owned();
        out.append(functions[j].0.as_str());
        out.append(" = ");
        if functions[j].1.native.is_some() {
            out.append("<NativeFunction>");
        } else {
            out.append("<Function>");
        }
        out.append("\n");
        write_stdout(out.as_str());
        j = j + 1;
    }
    write_stdout("End of inspection\n");
    Ok(Variant::Void(Void::new()))
}

// ---------------------------------------------------------------------------
// File natives
// ---------------------------------------------------------------------------

/// `fopen(path, mode)`: opens a file through the host file system and
/// yields a file value carrying the handle; failure to open is an
/// exception.
pub fn native_fopen<F: FileSystem>(
    fs: &mut F,
    line: u32,
    column: u32,
    args: &Vec<Variant>,
) -> (r: Result<Variant, NativeException>)
    ensures
        ({
            let a = vals(args@);
            &&& (a.len() != 2 ==> res_view(r) == Err::<VariantView, NatExcV>(
                exc(line as int, column as int, sp_arity_msg(2, a.len())),
            ))
            &&& (a.len() == 2 && !(a[0] is Str) ==> res_view(r) == Err::<VariantView, NatExcV>(
                exc(
                    line as int,
                    column as int,
                    "First argument of this function should be `Str(path)`"@,
                ),
            ))
            &&& (a.len() == 2 && a[0] is Str && !(a[1] is Str) ==> res_view(r) == Err::<
                VariantView,
                NatExcV,
            >(
                exc(
                    line as int,
                    column as int,
                    "Second argument of this function should be `Str(mode)`"@,
                ),
            ))
            &&& (a.len() == 2 && a[0] is Str && a[1] is Str ==> ({
                ||| {
                    &&& r matches Ok(v)
                    &&& v@ matches VariantView::Custom { id, .. }
                    &&& id == CUSTOM_TYPE_FILE as int
                }
                ||| {
                    &&& r matches Err(e)
                    &&& e@ == exc(line as int, column as int, "I/O error"@)
                }
            }))
        }),
{
    if args.len() != 2 {
        return Err(arity_exception(line, column, 2, args.len()));
    }
    let path = match &args[0] {
        Variant::Str(s) => s.text.clone(),
        _ => {
            return Err(
                NativeException::new(
                    line,
                    column,
                    "First argument of this function should be `Str(path)`",
                ),
            );
        },
    };
    let mode = match &args[1] {
        Variant::Str(s) => s.text.clone(),
        _ => {
            return Err(
                NativeException::new(
                    line,
                    column,
                    "Second argument of this function should be `Str(mode)`",
                ),
            );
        },
    };
    match fs.open_file(&path, &mode) {
        Some(handle) => Ok(Variant::Custom(Custom::new(CUSTOM_TYPE_FILE, handle))),
        None => Err(NativeException::new(line, column, "I/O error")),
    }
}

/// `fread(file)`: the whole contents of an opened file as a string; an
/// unusable handle is an exception.
pub fn native_fread<F: FileSystem>(
    fs: &mut F,
    line: u32,
    column: u32,
    args: &Vec<Variant>,
) -> (r: Result<Variant, NativeException>)
    ensures
        ({
            let a = vals(args@);
            &&& (a.len() != 1 ==> res_view(r) == Err::<VariantView, NatExcV>(
                exc(line as int, column as int, sp_arity_msg(1, a.len())),
            ))
            &&& (a.len() == 1 && !(a[0] is Custom) ==> res_view(r) == Err::<VariantView, NatExcV>(
                exc(
                    line as int,
                    column as int,
                    "First argument of this function should be `File(file)`"@,
                ),
            ))
            &&& (a.len() == 1 && (a[0] matches VariantView::Custom { id, .. } && id
                != CUSTOM_TYPE_FILE as int) ==> res_view(r) == Err::<VariantView, NatExcV>(
                exc(line as int, column as int, "First argument should be `File(file)`"@),
            ))
            &&& (a.len() == 1 && (a[0] matches VariantView::Custom { id, .. } && id
                == CUSTOM_TYPE_FILE as int) ==> ({
                ||| {
                    &&& r matches Ok(v)
                    &&& v@ is Str
                }
                ||| {
                    &&& r matches Err(e)
                    &&& e@ == exc(line as int, column as int, "I/O error"@)
                }
            }))
        }),
{
    if args.len() != 1 {
        return Err(arity_exception(line, column, 1, args.len()));
    }
    let custom = match &args[0] {
        Variant::Custom(c) => *c,
        _ => {
            return Err(
                NativeException::new(
                    line,
                    column,
                    "First argument of this function should be `File(file)`",
                ),
            );
        },
    };
    if custom.id != CUSTOM_TYPE_FILE {
        return Err(NativeException::new(line, column, "First argument should be `File(file)`"));
    }
    match fs.read_all(custom.handle) {
        Some(contents) => Ok(Variant::Str(Str::new(contents.as_str()))),
        None => Err(NativeException::new(line, column, "I/O error")),
    }
}

/// `fwrite(file, data)`: writes a string to an opened file; like the host
/// machine's buffered write, the outcome is not checked.
pub fn native_fwrite<F: FileSystem>(
    fs: &mut F,
    line: u32,
    column: u32,
    args: &Vec<Variant>,
) -> (r: Result<Variant, NativeException>)
    ensures
        res_view(r) == sp_native_fwrite(line as int, column as int, vals(args@)),
{
    if args.len() != 2 {
        return Err(arity_exception(line, column, 2, args.len()));
    }
    let custom = match &args[0] {
        Variant::Custom(c) => *c,
        _ => {
            return Err(
                NativeException::new(
                    line,
                    column,
                    "First argument of this function should be `File(file)`",
                ),
            );
        },
    };
    let data = match &args[1] {
        Variant::Str(s) => s.text.clone(),
        _ => {
            return Err(
                NativeException::new(
                    line,
                    column,
                    "Second argument of this function should be `Str(data)`",
                ),
            );
        },
    };
    if custom.id != CUSTOM_TYPE_FILE {
        return Err(NativeException::new(line, column, "First argument should be `File(path)`"));
    }
    fs.write_all(custom.handle, &data);
    Ok(Variant::Void(Void::new()))
}

/// `fclose(file)`: closes an opened file; closing an already-closed file is
/// harmless.
pub fn native_fclose<F: FileSystem>(
    fs: &mut F,
    line: u32,
    column: u32,
    args: &Vec<Variant>,
) -> (r: Result<Variant, NativeException>)
    ensures
        res_view(r) == sp_native_fclose(line as int, column as int, vals(args@)),
{
    if args.len() != 1 {
        return Err(arity_exception(line, column, 1, args.len()));
    }
    let custom = match &args[0] {
        Variant::Custom(c) => *c,
        _ => {
            return Err(
                NativeException::new(
                    line,
                    column,
                    "First argument of this function should be `File(path)`",
                ),
            );
        },
    };
    if custom.id != CUSTOM_TYPE_FILE {
        return Err(NativeException::new(line, column, "First argument should be `File(path)`"));
    }
    fs.close(custom.handle);
    Ok(Variant::Void(Void::new()))
}

/// The cleanup action behind `Destructor::CloseFiles`: closes every file
/// value of the frame that is still open, announcing each. Harmless when a
/// file was already closed by an earlier pass.
#[verifier::loop_isolation(false)]
pub fn destructor_close_files<F: FileSystem>(fs: &mut F, scope: &Scope, at: ScopeId)
    requires
        at < scope@.len(),
{
    let variables = scope.local_variables(at);
    let mut i: usize = 0;
    while i < variables.len()
        decreases variables@.len() - i,
    {
        match &variables[i].1 {
            Variant::Custom(c) => {
                if c.id == CUSTOM_TYPE_FILE && !fs.is_closed(c.handle) {
                    write_stdout("Closed unclosed file\n");
                    fs.close(c.handle);
                }
            },
            _ => {},
        }
        i = i + 1;
    }
}

} // verus!

verus! {

// ---------------------------------------------------------------------------
// Dispatch
// ---------------------------------------------------------------------------

/// A native's `Result`, lifted into the evaluator's failure type.
pub open spec fn lift_nat(r: Result<VariantView, NatExcV>) -> Result<VariantView, EvalErrV> {
    match r {
        Ok(v) => Ok(v),
        Err(e) => Err(EvalErrV::Native(e)),
    }
}

/// What `fwrite` returns: the exact argument errors, else the unit value
/// (like the machine's buffered write, the outcome is not checked).
pub open spec fn sp_native_fwrite(line: int, column: int, a: Seq<VariantView>) -> Result<
    VariantView,
    NatExcV,
> {
    if a.len() != 2 {
        Err(exc(line, column, sp_arity_msg(2, a.len())))
    } else if !(a[0] is Custom) {
        Err(exc(line, column, "First argument of this function should be `File(file)`"@))
    } else if !(a[1] is Str) {
        Err(exc(line, column, "Second argument of this function should be `Str(data)`"@))
    } else if a[0]->Custom_id != CUSTOM_TYPE_FILE as int {
        Err(exc(line, column, "First argument should be `File(path)`"@))
    } else {
        Ok(VariantView::Void)
    }
}

/// What `fclose` returns: the exact argument errors, else the unit value.
pub open spec fn sp_native_fclose(line: int, column: int, a: Seq<VariantView>) -> Result<
    VariantView,
    NatExcV,
> {
    if a.len() != 1 {
        Err(exc(line, column, sp_arity_msg(1, a.len())))
    } else if !(a[0] is Custom) {
        Err(exc(line, column, "First argument of this function should be `File(path)`"@))
    } else if a[0]->Custom_id != CUSTOM_TYPE_FILE as int {
        Err(exc(line, column, "First argument should be `File(path)`"@))
    } else {
        Ok(VariantView::Void)
    }
}

/// What `inspect_scope` returns: the exact arity error, else the unit value.
pub open spec fn sp_native_inspect_scope(line: int, column: int, a: Seq<VariantView>) -> Result<
    VariantView,
    NatExcV,
> {
    if a.len() != 0 {
        Err(exc(line, column, sp_arity_msg(0, a.len())))
    } else {
        Ok(VariantView::Void)
    }
}

/// What `exit` returns: a termination request carrying the code, or the
/// exact argument errors.
pub open spec fn sp_native_exit(line: int, column: int, a: Seq<VariantView>) -> Result<
    VariantView,
    EvalErrV,
> {
    if a.len() == 0 {
        Err(EvalErrV::Exit(0))
    } else if a.len() == 1 {
        if a[0] is Int {
            Err(EvalErrV::Exit(a[0]->Int_0))
        } else {
            Err(
                EvalErrV::Native(
                    exc(line, column, "First argument of this function should be `Int(code)`"@),
                ),
            )
        }
    } else {
        Err(EvalErrV::Native(exc(line, column, sp_at_most_one_msg(a.len()))))
    }
}

/// What `set` computes: the exact argument errors leave the scope as it
/// was; otherwise the binding is written into frame `at` itself and the
/// unit value returned.
pub open spec fn sp_native_set(
    sv: Seq<FrameView>,
    at: int,
    line: int,
    column: int,
    a: Seq<VariantView>,
) -> (Result<VariantView, NatExcV>, Seq<FrameView>) {
    if a.len() != 2 {
        (Err(exc(line, column, sp_arity_msg(2, a.len()))), sv)
    } else if !(a[0] is Str) {
        (
            Err(exc(line, column, "First argument of this function should be `Str(name)`"@)),
            sv,
        )
    } else {
        (
            Ok(VariantView::Void),
            sv.update(
                at,
                FrameView { vars: assoc_set(sv[at].vars, a[0]->Str_0, a[1]), ..sv[at] },
            ),
        )
    }
}

/// What `declfunc` computes: the exact argument errors leave the scope as
/// it was; otherwise the function is bound in frame `at` itself.
pub open spec fn sp_native_declfunc(
    sv: Seq<FrameView>,
    at: int,
    line: int,
    column: int,
    a: Seq<VariantView>,
) -> (Result<VariantView, NatExcV>, Seq<FrameView>) {
    if a.len() != 2 {
        (Err(exc(line, column, sp_arity_msg(2, a.len()))), sv)
    } else if !(a[0] is Str) {
        (
            Err(exc(line, column, "First argument of this function should be `Str(name)`"@)),
            sv,
        )
    } else if !(a[1] is Func) {
        (
            Err(exc(line, column, "Second argument of this function should be `Func(body)`"@)),
            sv,
        )
    } else {
        (
            Ok(VariantView::Void),
            sv.update(
                at,
                FrameView { funcs: assoc_set(sv[at].funcs, a[0]->Str_0, a[1]->Func_0), ..sv[at] },
            ),
        )
    }
}

/// What `null` computes: the named local variable is reset to its kind's
/// empty value; an absent name and a custom value are the exact errors; a
/// unit-valued variable is left alone.
pub open spec fn sp_native_null(
    sv: Seq<FrameView>,
    at: int,
    line: int,
    column: int,
    a: Seq<VariantView>,
) -> (Result<VariantView, NatExcV>, Seq<FrameView>) {
    if a.len() != 1 {
        (Err(exc(line, column, sp_arity_msg(1, a.len()))), sv)
    } else if !(a[0] is Str) {
        (
            Err(exc(line, column, "First argument of this function should be `Str(name)`"@)),
            sv,
        )
    } else {
        let name = a[0]->Str_0;
        match assoc_get(sv[at].vars, name) {
            None => (
                Err(
                    exc(
                        line,
                        column,
                        "Variable '"@ + name + "' isn't found in the current scope"@,
                    ),
                ),
                sv,
            ),
            Some(v) => match v {
                VariantView::Int(_) => (
                    Ok(VariantView::Void),
                    sv.update(
                        at,
                        FrameView {
                            vars: assoc_set(sv[at].vars, name, VariantView::Int(0)),
                            ..sv[at]
                        },
                    ),
                ),
                VariantView::Str(_) => (
                    Ok(VariantView::Void),
                    sv.update(
                        at,
                        FrameView {
                            vars: assoc_set(sv[at].vars, name, VariantView::Str(Seq::empty())),
                            ..sv[at]
                        },
                    ),
                ),
                VariantView::Func(_) => (
                    Ok(VariantView::Void),
                    sv.update(
                        at,
                        FrameView {
                            vars: assoc_set(
                                sv[at].vars,
                                name,
                                VariantView::Func(
                                    FuncView {
                                        native: None,
                                        body: Some(
                                            AstView::Sequence {
                                                line,
                                                column,
                                                body: Seq::empty(),
                                            },
                                        ),
                                    },
                                ),
                            ),
                            ..sv[at]
                        },
                    ),
                ),
                VariantView::Custom { .. } => (
                    Err(
                        exc(
                            line,
                            column,
                            "Reset custom error: Function null() is unavailable for custom types"@,
                        ),
                    ),
                    sv,
                ),
                VariantView::Void => (Ok(VariantView::Void), sv),
            },
        }
    }
}

/// What `if` computes: the exact argument errors; a zero condition yields
/// the unit value untouched; otherwise the user body runs in the caller's
/// scope, a clean run yields the unit value, and a failure inside the body
/// is this native's own failure (a structural error re-raised through the
/// exception channel). `None` when the body's outcome rests on the outside
/// world.
pub open spec fn sp_native_if(
    sv: Seq<FrameView>,
    at: int,
    line: int,
    column: int,
    a: Seq<VariantView>,
    fuel: u32,
) -> Option<(Result<VariantView, EvalErrV>, Seq<FrameView>)>
    decreases fuel, 0int, 1int,
{
    if fuel == 0 {
        None
    } else if a.len() != 2 {
        Some((Err(EvalErrV::Native(exc(line, column, sp_arity_msg(2, a.len())))), sv))
    } else if !(a[0] is Int) {
        Some(
            (
                Err(
                    EvalErrV::Native(
                        exc(
                            line,
                            column,
                            "First argument of this function should be `Int(condition)`"@,
                        ),
                    ),
                ),
                sv,
            ),
        )
    } else if !(a[1] is Func) {
        Some(
            (
                Err(
                    EvalErrV::Native(
                        exc(
                            line,
                            column,
                            "Second argument of this function should be `Func(body)`"@,
                        ),
                    ),
                ),
                sv,
            ),
        )
    } else if a[0]->Int_0 == 0 {
        Some((Ok(VariantView::Void), sv))
    } else {
        sp_run_branch(sv, at, line, column, a[1]->Func_0, fuel)
    }
}

/// What `if_else` computes: as `if`, with exactly one of the two bodies run.
pub open spec fn sp_native_if_else(
    sv: Seq<FrameView>,
    at: int,
    line: int,
    column: int,
    a: Seq<VariantView>,
    fuel: u32,
) -> Option<(Result<VariantView, EvalErrV>, Seq<FrameView>)>
    decreases fuel, 0int, 1int,
{
    if fuel == 0 {
        None
    } else if a.len() != 3 {
        Some((Err(EvalErrV::Native(exc(line, column, sp_arity_msg(3, a.len())))), sv))
    } else if !(a[0] is Int) {
        Some(
            (
                Err(
                    EvalErrV::Native(
                        exc(
                            line,
                            column,
                            "First argument of this function should be `Int(condition)`"@,
                        ),
                    ),
                ),
                sv,
            ),
        )
    } else if !(a[1] is Func) {
        Some(
            (
                Err(
                    EvalErrV::Native(
                        exc(
                            line,
                            column,
                            "Second argument of this function should be `Func(if_branch)`"@,
                        ),
                    ),
                ),
                sv,
            ),
        )
    } else if !(a[2] is Func) {
        Some(
            (
                Err(
                    EvalErrV::Native(
                        exc(
                            line,
                            column,
                            "Third argument of this function should be `Func(else_branch)`"@,
                        ),
                    ),
                ),
                sv,
            ),
        )
    } else if a[0]->Int_0 == 0 {
        sp_run_branch(sv, at, line, column, a[2]->Func_0, fuel)
    } else {
        sp_run_branch(sv, at, line, column, a[1]->Func_0, fuel)
    }
}

/// Runs one user-defined branch of a conditional: a missing body is the
/// exact error; a structural error inside becomes this native's exception;
/// a termination request passes through.
pub open spec fn sp_run_branch(
    sv: Seq<FrameView>,
    at: int,
    line: int,
    column: int,
    f: FuncView,
    fuel: u32,
) -> Option<(Result<VariantView, EvalErrV>, Seq<FrameView>)>
    decreases fuel, 0int, 0int,
{
    if fuel == 0 {
        None
    } else {
        match f.body {
            None => Some(
                (
                    Err(
                        EvalErrV::Native(
                            exc(line, column, "Function, passed to if should be user-defined"@),
                        ),
                    ),
                    sv,
                ),
            ),
            Some(AstView::Sequence { body, .. }) => match sp_execute_sequence(
                sv,
                at,
                body,
                (fuel - 1) as u32,
            ) {
                None => None,
                Some((None, sv2)) => Some((Ok(VariantView::Void), sv2)),
                Some((Some(EvalErrV::Runner(re)), sv2)) => Some(
                    (Err(EvalErrV::Native(exc(re.line, re.column, re.message))), sv2),
                ),
                Some((Some(EvalErrV::Native(ne)), sv2)) => Some((Err(EvalErrV::Native(ne)), sv2)),
                Some((Some(EvalErrV::Exit(c)), sv2)) => Some((Err(EvalErrV::Exit(c)), sv2)),
            },
            Some(_) => None,
        }
    }
}

/// What one native computes, exactly, wherever the outcome does not rest on
/// the outside world; `None` for the natives whose result the console or
/// the file system decides (and for a conditional whose body runs one).
pub open spec fn sp_dispatch(
    sv: Seq<FrameView>,
    at: int,
    native: NativeFn,
    line: int,
    column: int,
    a: Seq<VariantView>,
    fuel: u32,
) -> Option<(Result<VariantView, EvalErrV>, Seq<FrameView>)>
    decreases fuel, 1int, 0int,
{
    match native {
        NativeFn::Print => Some((Ok(VariantView::Void), sv)),
        NativeFn::Printerr => Some((Ok(VariantView::Void), sv)),
        NativeFn::FlushStdout => None,
        NativeFn::Input => None,
        NativeFn::Fopen => None,
        NativeFn::Fread => None,
        NativeFn::Fwrite => Some((lift_nat(sp_native_fwrite(line, column, a)), sv)),
        NativeFn::Fclose => Some((lift_nat(sp_native_fclose(line, column, a)), sv)),
        NativeFn::ParseInt => Some((lift_nat(sp_native_parse_int(line, column, a)), sv)),
        NativeFn::Lf => Some((lift_nat(sp_native_lf(line, column, a)), sv)),
        NativeFn::Cr => Some((lift_nat(sp_native_cr(line, column, a)), sv)),
        NativeFn::Declfunc => {
            let p = sp_native_declfunc(sv, at, line, column, a);
            Some((lift_nat(p.0), p.1))
        },
        NativeFn::SetVar => {
            let p = sp_native_set(sv, at, line, column, a);
            Some((lift_nat(p.0), p.1))
        },
        NativeFn::Null => {
            let p = sp_native_null(sv, at, line, column, a);
            Some((lift_nat(p.0), p.1))
        },
        NativeFn::If => sp_native_if(sv, at, line, column, a, fuel),
        NativeFn::IfElse => sp_native_if_else(sv, at, line, column, a, fuel),
        NativeFn::Add => Some((lift_nat(sp_native_add(line, column, a)), sv)),
        NativeFn::Subt => Some((lift_nat(sp_native_subt(line, column, a)), sv)),
        NativeFn::Mult => Some((lift_nat(sp_native_mult(line, column, a)), sv)),
        NativeFn::Idiv => Some((lift_nat(sp_native_idiv(line, column, a)), sv)),
        NativeFn::And => Some((lift_nat(sp_native_and(line, column, a)), sv)),
        NativeFn::Or => Some((lift_nat(sp_native_or(line, column, a)), sv)),
        NativeFn::Eq => Some((lift_nat(sp_native_eq(line, column, a)), sv)),
        NativeFn::Neq => Some((lift_nat(sp_native_neq(line, column, a)), sv)),
        NativeFn::Exit => Some((sp_native_exit(line, column, a), sv)),
        NativeFn::InspectScope => Some((lift_nat(sp_native_inspect_scope(line, column, a)), sv)),
    }
}

/// Runs one native function of the standard library: the dispatch a call
/// reaches when its name resolves to a native. The environment keeps its
/// shape; the side-effect-free natives return exactly what their
/// specifications say.
pub fn dispatch_native<F: FileSystem>(
    fs: &mut F,
    scope: &mut Scope,
    at: ScopeId,
    native: NativeFn,
    line: u32,
    column: u32,
    args: &Vec<Variant>,
    fuel: u32,
) -> (r: Result<Variant, EvalError>)
    requires
        old(scope).wf(),
        at < old(scope)@.len(),
        fuel >= 1,
    ensures
        final(scope).wf(),
        final(scope)@.len() == old(scope)@.len(),
        crate::scope::same_shape(old(scope)@, final(scope)@),
        match sp_dispatch(
            old(scope)@,
            at as int,
            native,
            line as int,
            column as int,
            vals(args@),
            fuel,
        ) {
            Some(p) => final(scope)@ == p.1 && eval_res_view(r) == p.0,
            None => true,
        },
    decreases fuel, 1int,
{
    match native {
        NativeFn::Print => match native_print(args) {
            Ok(v) => Ok(v),
            Err(e) => Err(EvalError::Native(e)),
        },
        NativeFn::FlushStdout => match native_flush_stdout(line, column, args) {
            Ok(v) => Ok(v),
            Err(e) => Err(EvalError::Native(e)),
        },
        NativeFn::Printerr => match native_printerr(args) {
            Ok(v) => Ok(v),
            Err(e) => Err(EvalError::Native(e)),
        },
        NativeFn::Input => match native_input(line, column, args) {
            Ok(v) => Ok(v),
            Err(e) => Err(EvalError::Native(e)),
        },
        NativeFn::Fopen => match native_fopen(fs, line, column, args) {
            Ok(v) => Ok(v),
            Err(e) => Err(EvalError::Native(e)),
        },
        NativeFn::Fread => match native_fread(fs, line, column, args) {
            Ok(v) => Ok(v),
            Err(e) => Err(EvalError::Native(e)),
        },
        NativeFn::Fwrite => match native_fwrite(fs, line, column, args) {
            Ok(v) => Ok(v),
            Err(e) => Err(EvalError::Native(e)),
        },
        NativeFn::Fclose => match native_fclose(fs, line, column, args) {
            Ok(v) => Ok(v),
            Err(e) => Err(EvalError::Native(e)),
        },
        NativeFn::ParseInt => match native_parse_int(line, column, args) {
            Ok(v) => Ok(v),
            Err(e) => Err(EvalError::Native(e)),
        },
        NativeFn::Lf => match native_lf(line, column, args) {
            Ok(v) => Ok(v),
            Err(e) => Err(EvalError::Native(e)),
        },
        NativeFn::Cr => match native_cr(line, column, args) {
            Ok(v) => Ok(v),
            Err(e) => Err(EvalError::Native(e)),
        },
        NativeFn::Declfunc => match native_declfunc(scope, at, line, column, args) {
            Ok(v) => Ok(v),
            Err(e) => Err(EvalError::Native(e)),
        },
        NativeFn::SetVar => match native_set(scope, at, line, column, args) {
            Ok(v) => Ok(v),
            Err(e) => Err(EvalError::Native(e)),
        },
        NativeFn::Null => match native_null(scope, at, line, column, args) {
            Ok(v) => Ok(v),
            Err(e) => Err(EvalError::Native(e)),
        },
        NativeFn::If => native_if(fs, scope, at, line, column, args, fuel),
        NativeFn::IfElse => native_if_else(fs, scope, at, line, column, args, fuel),
        NativeFn::Add => match native_add(line, column, args) {
            Ok(v) => Ok(v),
            Err(e) => Err(EvalError::Native(e)),
        },
        NativeFn::Subt => match native_subt(line, column, args) {
            Ok(v) => Ok(v),
            Err(e) => Err(EvalError::Native(e)),
        },
        NativeFn::Mult => match native_mult(line, column, args) {
            Ok(v) => Ok(v),
            Err(e) => Err(EvalError::Native(e)),
        },
        NativeFn::Idiv => match native_idiv(line, column, args) {
            Ok(v) => Ok(v),
            Err(e) => Err(EvalError::Native(e)),
        },
        NativeFn::And => match native_and(line, column, args) {
            Ok(v) => Ok(v),
            Err(e) => Err(EvalError::Native(e)),
        },
        NativeFn::Or => match native_or(line, column, args) {
            Ok(v) => Ok(v),
            Err(e) => Err(EvalError::Native(e)),
        },
        NativeFn::Eq => match native_eq(line, column, args) {
            Ok(v) => Ok(v),
            Err(e) => Err(EvalError::Native(e)),
        },
        NativeFn::Neq => match native_neq(line, column, args) {
            Ok(v) => Ok(v),
            Err(e) => Err(EvalError::Native(e)),
        },
        NativeFn::Exit => native_exit(line, column, args),
        NativeFn::InspectScope => match native_inspect_scope(scope, at, line, column, args) {
            Ok(v) => Ok(v),
            Err(e) => Err(EvalError::Native(e)),
        },
    }
}

// ---------------------------------------------------------------------------
// Registration
// ---------------------------------------------------------------------------

pub open spec fn native_fn_view(nf: NativeFn) -> FuncView {
    FuncView { native: Some(nf), body: None }
}

/// One native was bound under one name in frame `at`; everything else is
/// untouched.
pub open spec fn fn_added(
    old_sv: Seq<FrameView>,
    new_sv: Seq<FrameView>,
    at: int,
    name: Seq<char>,
    nf: NativeFn,
) -> bool {
    &&& 0 <= at < old_sv.len()
    &&& new_sv.len() == old_sv.len()
    &&& forall|j: int| 0 <= j < old_sv.len() && j != at ==> #[trigger] new_sv[j] == old_sv[j]
    &&& new_sv[at].vars == old_sv[at].vars
    &&& new_sv[at].parent == old_sv[at].parent
    &&& new_sv[at].destructors == old_sv[at].destructors
    &&& forall|n: Seq<char>| #[trigger]
        assoc_get(new_sv[at].funcs, n) == if n == name {
            Some(native_fn_view(nf))
        } else {
            assoc_get(old_sv[at].funcs, n)
        }
}

pub fn add_print(scope: &mut Scope, at: ScopeId)
    requires
        old(scope).wf(),
        at < old(scope)@.len(),
    ensures
        final(scope).wf(),
        fn_added(old(scope)@, final(scope)@, at as int, "print"@, NativeFn::Print),
{
    scope.set_function(at, "print", Function::new_native(NativeFn::Print));
}

pub fn add_flush_stdout(scope: &mut Scope, at: ScopeId)
    requires
        old(scope).wf(),
        at < old(scope)@.len(),
    ensures
        final(scope).wf(),
        fn_added(old(scope)@, final(scope)@, at as int, "flush_stdout"@, NativeFn::FlushStdout),
{
    scope.set_function(at, "flush_stdout", Function::new_native(NativeFn::FlushStdout));
}

pub fn add_printerr(scope: &mut Scope, at: ScopeId)
    requires
        old(scope).wf(),
        at < old(scope)@.len(),
    ensures
        final(scope).wf(),
        fn_added(old(scope)@, final(scope)@, at as int, "printerr"@, NativeFn::Printerr),
{
    scope.set_function(at, "printerr", Function::new_native(NativeFn::Printerr));
}

pub fn add_input(scope: &mut Scope, at: ScopeId)
    requires
        old(scope).wf(),
        at < old(scope)@.len(),
    ensures
        final(scope).wf(),
        fn_added(old(scope)@, final(scope)@, at as int, "input"@, NativeFn::Input),
{
    scope.set_function(at, "input", Function::new_native(NativeFn::Input));
}

/// Registers `fopen` and, with it, the cleanup pass that closes files left
/// open at teardown.
pub fn add_fopen(scope: &mut Scope, at: ScopeId)
    requires
        old(scope).wf(),
        at < old(scope)@.len(),
    ensures
        final(scope).wf(),
        final(scope)@.len() == old(scope)@.len(),
        forall|j: int|
            0 <= j < old(scope)@.len() && j != at ==> #[trigger] final(scope)@[j] == old(
                scope,
            )@[j],
        final(scope)@[at as int].vars == old(scope)@[at as int].vars,
        final(scope)@[at as int].parent == old(scope)@[at as int].parent,
        final(scope)@[at as int].destructors == old(scope)@[at as int].destructors.push(
            Destructor::CloseFiles,
        ),
        forall|n: Seq<char>| #[trigger]
            assoc_get(final(scope)@[at as int].funcs, n) == if n == "fopen"@ {
                Some(native_fn_view(NativeFn::Fopen))
            } else {
                assoc_get(old(scope)@[at as int].funcs, n)
            },
{
    scope.set_function(at, "fopen", Function::new_native(NativeFn::Fopen));
    scope.add_destructor(at, Destructor::CloseFiles);
}

pub fn add_fread(scope: &mut Scope, at: ScopeId)
    requires
        old(scope).wf(),
        at < old(scope)@.len(),
    ensures
        final(scope).wf(),
        fn_added(old(scope)@, final(scope)@, at as int, "fread"@, NativeFn::Fread),
{
    scope.set_function(at, "fread", Function::new_native(NativeFn::Fread));
}

pub fn add_fwrite(scope: &mut Scope, at: ScopeId)
    requires
        old(scope).wf(),
        at < old(scope)@.len(),
    ensures
        final(scope).wf(),
        fn_added(old(scope)@, final(scope)@, at as int, "fwrite"@, NativeFn::Fwrite),
{
    scope.set_function(at, "fwrite", Function::new_native(NativeFn::Fwrite));
}

pub fn add_fclose(scope: &mut Scope, at: ScopeId)
    requires
        old(scope).wf(),
        at < old(scope)@.len(),
    ensures
        final(scope).wf(),
        fn_added(old(scope)@, final(scope)@, at as int, "fclose"@, NativeFn::Fclose),
{
    scope.set_function(at, "fclose", Function::new_native(NativeFn::Fclose));
}

pub fn add_parse_int(scope: &mut Scope, at: ScopeId)
    requires
        old(scope).wf(),
        at < old(scope)@.len(),
    ensures
        final(scope).wf(),
        fn_added(old(scope)@, final(scope)@, at as int, "parse_int"@, NativeFn::ParseInt),
{
    scope.set_function(at, "parse_int", Function::new_native(NativeFn::ParseInt));
}

pub fn add_lf(scope: &mut Scope, at: ScopeId)
    requires
        old(scope).wf(),
        at < old(scope)@.len(),
    ensures
        final(scope).wf(),
        fn_added(old(scope)@, final(scope)@, at as int, "lf"@, NativeFn::Lf),
{
    scope.set_function(at, "lf", Function::new_native(NativeFn::Lf));
}

pub fn add_cr(scope: &mut Scope, at: ScopeId)
    requires
        old(scope).wf(),
        at < old(scope)@.len(),
    ensures
        final(scope).wf(),
        fn_added(old(scope)@, final(scope)@, at as int, "cr"@, NativeFn::Cr),
{
    scope.set_function(at, "cr", Function::new_native(NativeFn::Cr));
}

pub fn add_declfunc(scope: &mut Scope, at: ScopeId)
    requires
        old(scope).wf(),
        at < old(scope)@.len(),
    ensures
        final(scope).wf(),
        fn_added(old(scope)@, final(scope)@, at as int, "declfunc"@, NativeFn::Declfunc),
{
    scope.set_function(at, "declfunc", Function::new_native(NativeFn::Declfunc));
}

pub fn add_set(scope: &mut Scope, at: ScopeId)
    requires
        old(scope).wf(),
        at < old(scope)@.len(),
    ensures
        final(scope).wf(),
        fn_added(old(scope)@, final(scope)@, at as int, "set"@, NativeFn::SetVar),
{
    scope.set_function(at, "set", Function::new_native(NativeFn::SetVar));
}

pub fn add_null(scope: &mut Scope, at: ScopeId)
    requires
        old(scope).wf(),
        at < old(scope)@.len(),
    ensures
        final(scope).wf(),
        fn_added(old(scope)@, final(scope)@, at as int, "null"@, NativeFn::Null),
{
    scope.set_function(at, "null", Function::new_native(NativeFn::Null));
}

pub fn add_if(scope: &mut Scope, at: ScopeId)
    requires
        old(scope).wf(),
        at < old(scope)@.len(),
    ensures
        final(scope).wf(),
        fn_added(old(scope)@, final(scope)@, at as int, "if"@, NativeFn::If),
{
    scope.set_function(at, "if", Function::new_native(NativeFn::If));
}

pub fn add_if_else(scope: &mut Scope, at: ScopeId)
    requires
        old(scope).wf(),
        at < old(scope)@.len(),
    ensures
        final(scope).wf(),
        fn_added(old(scope)@, final(scope)@, at as int, "if_else"@, NativeFn::IfElse),
{
    scope.set_function(at, "if_else", Function::new_native(NativeFn::IfElse));
}

pub fn add_add(scope: &mut Scope, at: ScopeId)
    requires
        old(scope).wf(),
        at < old(scope)@.len(),
    ensures
        final(scope).wf(),
        fn_added(old(scope)@, final(scope)@, at as int, "add"@, NativeFn::Add),
{
    scope.set_function(at, "add", Function::new_native(NativeFn::Add));
}

pub fn add_subt(scope: &mut Scope, at: ScopeId)
    requires
        old(scope).wf(),
        at < old(scope)@.len(),
    ensures
        final(scope).wf(),
        fn_added(old(scope)@, final(scope)@, at as int, "subt"@, NativeFn::Subt),
{
    scope.set_function(at, "subt", Function::new_native(NativeFn::Subt));
}

pub fn add_mult(scope: &mut Scope, at: ScopeId)
    requires
        old(scope).wf(),
        at < old(scope)@.len(),
    ensures
        final(scope).wf(),
        fn_added(old(scope)@, final(scope)@, at as int, "mult"@, NativeFn::Mult),
{
    scope.set_function(at, "mult", Function::new_native(NativeFn::Mult));
}

pub fn add_idiv(scope: &mut Scope, at: ScopeId)
    requires
        old(scope).wf(),
        at < old(scope)@.len(),
    ensures
        final(scope).wf(),
        fn_added(old(scope)@, final(scope)@, at as int, "idiv"@, NativeFn::Idiv),
{
    scope.set_function(at, "idiv", Function::new_native(NativeFn::Idiv));
}

pub fn add_and(scope: &mut Scope, at: ScopeId)
    requires
        old(scope).wf(),
        at < old(scope)@.len(),
    ensures
        final(scope).wf(),
        fn_added(old(scope)@, final(scope)@, at as int, "and"@, NativeFn::And),
{
    scope.set_function(at, "and", Function::new_native(NativeFn::And));
}

pub fn add_or(scope: &mut Scope, at: ScopeId)
    requires
        old(scope).wf(),
        at < old(scope)@.len(),
    ensures
        final(scope).wf(),
        fn_added(old(scope)@, final(scope)@, at as int, "or"@, NativeFn::Or),
{
    scope.set_function(at, "or", Function::new_native(NativeFn::Or));
}

pub fn add_eq(scope: &mut Scope, at: ScopeId)
    requires
        old(scope).wf(),
        at < old(scope)@.len(),
    ensures
        final(scope).wf(),
        fn_added(old(scope)@, final(scope)@, at as int, "eq"@, NativeFn::Eq),
{
    scope.set_function(at, "eq", Function::new_native(NativeFn::Eq));
}

pub fn add_neq(scope: &mut Scope, at: ScopeId)
    requires
        old(scope).wf(),
        at < old(scope)@.len(),
    ensures
        final(scope).wf(),
        fn_added(old(scope)@, final(scope)@, at as int, "neq"@, NativeFn::Neq),
{
    scope.set_function(at, "neq", Function::new_native(NativeFn::Neq));
}

pub fn add_exit(scope: &mut Scope, at: ScopeId)
    requires
        old(scope).wf(),
        at < old(scope)@.len(),
    ensures
        final(scope).wf(),
        fn_added(old(scope)@, final(scope)@, at as int, "exit"@, NativeFn::Exit),
{
    scope.set_function(at, "exit", Function::new_native(NativeFn::Exit));
}

pub fn add_inspect_scope(scope: &mut Scope, at: ScopeId)
    requires
        old(scope).wf(),
        at < old(scope)@.len(),
    ensures
        final(scope).wf(),
        fn_added(old(scope)@, final(scope)@, at as int, "inspect_scope"@, NativeFn::InspectScope),
{
    scope.set_function(at, "inspect_scope", Function::new_native(NativeFn::InspectScope));
}

} // verus!

verus! {

// ---------------------------------------------------------------------------
// Group registration
// ---------------------------------------------------------------------------

/// The console natives, keyed by their bound names. The name checks run in
/// the reverse of registration order, so that composition with earlier
/// bindings reads off directly.
pub open spec fn stdio_native(name: Seq<char>) -> Option<NativeFn> {
    if name == "input"@ {
        Some(NativeFn::Input)
    } else if name == "printerr"@ {
        Some(NativeFn::Printerr)
    } else if name == "flush_stdout"@ {
        Some(NativeFn::FlushStdout)
    } else if name == "print"@ {
        Some(NativeFn::Print)
    } else {
        None
    }
}

/// The file natives, keyed by their bound names.
pub open spec fn file_io_native(name: Seq<char>) -> Option<NativeFn> {
    if name == "fclose"@ {
        Some(NativeFn::Fclose)
    } else if name == "fwrite"@ {
        Some(NativeFn::Fwrite)
    } else if name == "fread"@ {
        Some(NativeFn::Fread)
    } else if name == "fopen"@ {
        Some(NativeFn::Fopen)
    } else {
        None
    }
}

/// The string natives, keyed by their bound names.
pub open spec fn string_native(name: Seq<char>) -> Option<NativeFn> {
    if name == "cr"@ {
        Some(NativeFn::Cr)
    } else if name == "lf"@ {
        Some(NativeFn::Lf)
    } else if name == "parse_int"@ {
        Some(NativeFn::ParseInt)
    } else {
        None
    }
}

/// The core natives, keyed by their bound names.
pub open spec fn core_native(name: Seq<char>) -> Option<NativeFn> {
    if name == "exit"@ {
        Some(NativeFn::Exit)
    } else if name == "neq"@ {
        Some(NativeFn::Neq)
    } else if name == "eq"@ {
        Some(NativeFn::Eq)
    } else if name == "or"@ {
        Some(NativeFn::Or)
    } else if name == "and"@ {
        Some(NativeFn::And)
    } else if name == "idiv"@ {
        Some(NativeFn::Idiv)
    } else if name == "mult"@ {
        Some(NativeFn::Mult)
    } else if name == "subt"@ {
        Some(NativeFn::Subt)
    } else if name == "add"@ {
        Some(NativeFn::Add)
    } else if name == "if_else"@ {
        Some(NativeFn::IfElse)
    } else if name == "if"@ {
        Some(NativeFn::If)
    } else if name == "null"@ {
        Some(NativeFn::Null)
    } else if name == "set"@ {
        Some(NativeFn::SetVar)
    } else if name == "declfunc"@ {
        Some(NativeFn::Declfunc)
    } else {
        None
    }
}

/// The debugging natives, keyed by their bound names.
pub open spec fn debug_native(name: Seq<char>) -> Option<NativeFn> {
    if name == "inspect_scope"@ {
        Some(NativeFn::InspectScope)
    } else {
        None
    }
}

/// Every native of the standard library, keyed by its bound name.
pub open spec fn stdlib_native(name: Seq<char>) -> Option<NativeFn> {
    match debug_native(name) {
        Some(nf) => Some(nf),
        None => match core_native(name) {
            Some(nf) => Some(nf),
            None => match string_native(name) {
                Some(nf) => Some(nf),
                None => match file_io_native(name) {
                    Some(nf) => Some(nf),
                    None => stdio_native(name),
                },
            },
        },
    }
}

/// The variables the standard library seeds: the two truth values.
pub open spec fn stdlib_variable(name: Seq<char>) -> Option<VariantView> {
    if name == "false"@ {
        Some(VariantView::Int(0))
    } else if name == "true"@ {
        Some(VariantView::Int(1))
    } else {
        None
    }
}

/// A whole group of natives was bound over `old_sv`, per the group's name
/// table; names outside the group are untouched.
pub open spec fn group_added(
    old_sv: Seq<FrameView>,
    new_sv: Seq<FrameView>,
    at: int,
    group: spec_fn(Seq<char>) -> Option<NativeFn>,
) -> bool {
    &&& 0 <= at < old_sv.len()
    &&& new_sv.len() == old_sv.len()
    &&& forall|j: int| 0 <= j < old_sv.len() && j != at ==> #[trigger] new_sv[j] == old_sv[j]
    &&& new_sv[at].parent == old_sv[at].parent
    &&& forall|n: Seq<char>| #[trigger]
        assoc_get(new_sv[at].funcs, n) == match group(n) {
            Some(nf) => Some(native_fn_view(nf)),
            None => assoc_get(old_sv[at].funcs, n),
        }
}

/// Registers the console natives.
pub fn add_stdio(scope: &mut Scope, at: ScopeId)
    requires
        old(scope).wf(),
        at < old(scope)@.len(),
    ensures
        final(scope).wf(),
        group_added(old(scope)@, final(scope)@, at as int, |n: Seq<char>| stdio_native(n)),
        final(scope)@[at as int].vars == old(scope)@[at as int].vars,
        final(scope)@[at as int].destructors == old(scope)@[at as int].destructors,
{
    add_print(scope, at);
    add_flush_stdout(scope, at);
    add_printerr(scope, at);
    add_input(scope, at);
}

/// Registers the file natives and their teardown pass.
pub fn add_file_io(scope: &mut Scope, at: ScopeId)
    requires
        old(scope).wf(),
        at < old(scope)@.len(),
    ensures
        final(scope).wf(),
        group_added(old(scope)@, final(scope)@, at as int, |n: Seq<char>| file_io_native(n)),
        final(scope)@[at as int].vars == old(scope)@[at as int].vars,
        final(scope)@[at as int].destructors == old(scope)@[at as int].destructors.push(
            Destructor::CloseFiles,
        ),
{
    add_fopen(scope, at);
    add_fread(scope, at);
    add_fwrite(scope, at);
    add_fclose(scope, at);
}

/// Registers all I/O natives: console and files.
pub fn add_io(scope: &mut Scope, at: ScopeId)
    requires
        old(scope).wf(),
        at < old(scope)@.len(),
    ensures
        final(scope).wf(),
        group_added(
            old(scope)@,
            final(scope)@,
            at as int,
            |n: Seq<char>|
                match file_io_native(n) {
                    Some(nf) => Some(nf),
                    None => stdio_native(n),
                },
        ),
        final(scope)@[at as int].vars == old(scope)@[at as int].vars,
        final(scope)@[at as int].destructors == old(scope)@[at as int].destructors.push(
            Destructor::CloseFiles,
        ),
{
    add_stdio(scope, at);
    add_file_io(scope, at);
}

/// Registers the string natives.
pub fn add_string(scope: &mut Scope, at: ScopeId)
    requires
        old(scope).wf(),
        at < old(scope)@.len(),
    ensures
        final(scope).wf(),
        group_added(old(scope)@, final(scope)@, at as int, |n: Seq<char>| string_native(n)),
        final(scope)@[at as int].vars == old(scope)@[at as int].vars,
        final(scope)@[at as int].destructors == old(scope)@[at as int].destructors,
{
    add_parse_int(scope, at);
    add_lf(scope, at);
    add_cr(scope, at);
}

/// Seeds the two truth-value variables.
pub fn add_vars(scope: &mut Scope, at: ScopeId)
    requires
        old(scope).wf(),
        at < old(scope)@.len(),
    ensures
        final(scope).wf(),
        final(scope)@.len() == old(scope)@.len(),
        forall|j: int|
            0 <= j < old(scope)@.len() && j != at ==> #[trigger] final(scope)@[j] == old(
                scope,
            )@[j],
        final(scope)@[at as int].funcs == old(scope)@[at as int].funcs,
        final(scope)@[at as int].parent == old(scope)@[at as int].parent,
        final(scope)@[at as int].destructors == old(scope)@[at as int].destructors,
        forall|n: Seq<char>| #[trigger]
            assoc_get(final(scope)@[at as int].vars, n) == match stdlib_variable(n) {
                Some(v) => Some(v),
                None => assoc_get(old(scope)@[at as int].vars, n),
            },
{
    scope.set_variable(at, "true", Variant::Int(Int::new(1)));
    scope.set_variable(at, "false", Variant::Int(Int::new(0)));
}

/// Registers the core natives and the truth values.
pub fn add_core(scope: &mut Scope, at: ScopeId)
    requires
        old(scope).wf(),
        at < old(scope)@.len(),
    ensures
        final(scope).wf(),
        group_added(old(scope)@, final(scope)@, at as int, |n: Seq<char>| core_native(n)),
        final(scope)@[at as int].destructors == old(scope)@[at as int].destructors,
        forall|n: Seq<char>| #[trigger]
            assoc_get(final(scope)@[at as int].vars, n) == match stdlib_variable(n) {
                Some(v) => Some(v),
                None => assoc_get(old(scope)@[at as int].vars, n),
            },
{
    add_declfunc(scope, at);
    let ghost s1 = scope@;
    add_set(scope, at);
    let ghost s2 = scope@;
    add_null(scope, at);
    let ghost s3 = scope@;
    add_if(scope, at);
    let ghost s4 = scope@;
    add_if_else(scope, at);
    let ghost s5 = scope@;
    add_add(scope, at);
    let ghost s6 = scope@;
    add_subt(scope, at);
    let ghost s7 = scope@;
    add_mult(scope, at);
    let ghost s8 = scope@;
    add_idiv(scope, at);
    let ghost s9 = scope@;
    add_and(scope, at);
    let ghost s10 = scope@;
    add_or(scope, at);
    let ghost s11 = scope@;
    add_eq(scope, at);
    let ghost s12 = scope@;
    add_neq(scope, at);
    let ghost s13 = scope@;
    add_exit(scope, at);
    let ghost s14 = scope@;
    add_vars(scope, at);
    proof {
        let ati = at as int;
        assert forall|n: Seq<char>| #[trigger] assoc_get(scope@[ati].funcs, n)
            == (match core_native(n) {
            Some(nf) => Some(native_fn_view(nf)),
            None => assoc_get(old(scope)@[ati].funcs, n),
        }) by {
            assert(scope@[ati].funcs == s14[ati].funcs);
            assert(assoc_get(s14[ati].funcs, n) == (if n == "exit"@ {
                Some(native_fn_view(NativeFn::Exit))
            } else {
                assoc_get(s13[ati].funcs, n)
            }));
            assert(assoc_get(s13[ati].funcs, n) == (if n == "neq"@ {
                Some(native_fn_view(NativeFn::Neq))
            } else {
                assoc_get(s12[ati].funcs, n)
            }));
            assert(assoc_get(s12[ati].funcs, n) == (if n == "eq"@ {
                Some(native_fn_view(NativeFn::Eq))
            } else {
                assoc_get(s11[ati].funcs, n)
            }));
            assert(assoc_get(s11[ati].funcs, n) == (if n == "or"@ {
                Some(native_fn_view(NativeFn::Or))
            } else {
                assoc_get(s10[ati].funcs, n)
            }));
            assert(assoc_get(s10[ati].funcs, n) == (if n == "and"@ {
                Some(native_fn_view(NativeFn::And))
            } else {
                assoc_get(s9[ati].funcs, n)
            }));
            assert(assoc_get(s9[ati].funcs, n) == (if n == "idiv"@ {
                Some(native_fn_view(NativeFn::Idiv))
            } else {
                assoc_get(s8[ati].funcs, n)
            }));
            assert(assoc_get(s8[ati].funcs, n) == (if n == "mult"@ {
                Some(native_fn_view(NativeFn::Mult))
            } else {
                assoc_get(s7[ati].funcs, n)
            }));
            assert(assoc_get(s7[ati].funcs, n) == (if n == "subt"@ {
                Some(native_fn_view(NativeFn::Subt))
            } else {
                assoc_get(s6[ati].funcs, n)
            }));
            assert(assoc_get(s6[ati].funcs, n) == (if n == "add"@ {
                Some(native_fn_view(NativeFn::Add))
            } else {
                assoc_get(s5[ati].funcs, n)
            }));
            assert(assoc_get(s5[ati].funcs, n) == (if n == "if_else"@ {
                Some(native_fn_view(NativeFn::IfElse))
            } else {
                assoc_get(s4[ati].funcs, n)
            }));
            assert(assoc_get(s4[ati].funcs, n) == (if n == "if"@ {
                Some(native_fn_view(NativeFn::If))
            } else {
                assoc_get(s3[ati].funcs, n)
            }));
            assert(assoc_get(s3[ati].funcs, n) == (if n == "null"@ {
                Some(native_fn_view(NativeFn::Null))
            } else {
                assoc_get(s2[ati].funcs, n)
            }));
            assert(assoc_get(s2[ati].funcs, n) == (if n == "set"@ {
                Some(native_fn_view(NativeFn::SetVar))
            } else {
                assoc_get(s1[ati].funcs, n)
            }));
            assert(assoc_get(s1[ati].funcs, n) == (if n == "declfunc"@ {
                Some(native_fn_view(NativeFn::Declfunc))
            } else {
                assoc_get(old(scope)@[ati].funcs, n)
            }));
        }
    }
}

/// Registers the debugging natives.
pub fn add_debug(scope: &mut Scope, at: ScopeId)
    requires
        old(scope).wf(),
        at < old(scope)@.len(),
    ensures
        final(scope).wf(),
        group_added(old(scope)@, final(scope)@, at as int, |n: Seq<char>| debug_native(n)),
        final(scope)@[at as int].vars == old(scope)@[at as int].vars,
        final(scope)@[at as int].destructors == old(scope)@[at as int].destructors,
        final(scope)@[at as int].vars == old(scope)@[at as int].vars,
{
    add_inspect_scope(scope, at);
}

/// Registers the whole standard library into frame `at`: after it, looking
/// up a name finds exactly the native `stdlib_native` gives it, the truth
/// values are bound, and the file-closing teardown pass is registered.
pub fn add_stdlib(scope: &mut Scope, at: ScopeId)
    requires
        old(scope).wf(),
        at < old(scope)@.len(),
    ensures
        final(scope).wf(),
        final(scope)@.len() == old(scope)@.len(),
        forall|j: int|
            0 <= j < old(scope)@.len() && j != at ==> #[trigger] final(scope)@[j] == old(
                scope,
            )@[j],
        final(scope)@[at as int].parent == old(scope)@[at as int].parent,
        final(scope)@[at as int].destructors == old(scope)@[at as int].destructors.push(
            Destructor::CloseFiles,
        ),
        forall|n: Seq<char>| #[trigger]
            assoc_get(final(scope)@[at as int].funcs, n) == match stdlib_native(n) {
                Some(nf) => Some(native_fn_view(nf)),
                None => assoc_get(old(scope)@[at as int].funcs, n),
            },
        forall|n: Seq<char>| #[trigger]
            assoc_get(final(scope)@[at as int].vars, n) == match stdlib_variable(n) {
                Some(v) => Some(v),
                None => assoc_get(old(scope)@[at as int].vars, n),
            },
{
    add_io(scope, at);
    add_string(scope, at);
    add_core(scope, at);
    add_debug(scope, at);
}

/// The standard library's seeded variables: the two truth values, in
/// registration order.
pub open spec fn stdlib_vars() -> Seq<(Seq<char>, VariantView)> {
    seq![("true"@, VariantView::Int(1)), ("false"@, VariantView::Int(0))]
}

/// The standard library's function table, in registration order.
pub open spec fn stdlib_funcs() -> Seq<(Seq<char>, FuncView)> {
    seq![
        ("print"@, native_fn_view(NativeFn::Print)),
        ("flush_stdout"@, native_fn_view(NativeFn::FlushStdout)),
        ("printerr"@, native_fn_view(NativeFn::Printerr)),
        ("input"@, native_fn_view(NativeFn::Input)),
        ("fopen"@, native_fn_view(NativeFn::Fopen)),
        ("fread"@, native_fn_view(NativeFn::Fread)),
        ("fwrite"@, native_fn_view(NativeFn::Fwrite)),
        ("fclose"@, native_fn_view(NativeFn::Fclose)),
        ("parse_int"@, native_fn_view(NativeFn::ParseInt)),
        ("lf"@, native_fn_view(NativeFn::Lf)),
        ("cr"@, native_fn_view(NativeFn::Cr)),
        ("declfunc"@, native_fn_view(NativeFn::Declfunc)),
        ("set"@, native_fn_view(NativeFn::SetVar)),
        ("null"@, native_fn_view(NativeFn::Null)),
        ("if"@, native_fn_view(NativeFn::If)),
        ("if_else"@, native_fn_view(NativeFn::IfElse)),
        ("add"@, native_fn_view(NativeFn::Add)),
        ("subt"@, native_fn_view(NativeFn::Subt)),
        ("mult"@, native_fn_view(NativeFn::Mult)),
        ("idiv"@, native_fn_view(NativeFn::Idiv)),
        ("and"@, native_fn_view(NativeFn::And)),
        ("or"@, native_fn_view(NativeFn::Or)),
        ("eq"@, native_fn_view(NativeFn::Eq)),
        ("neq"@, native_fn_view(NativeFn::Neq)),
        ("exit"@, native_fn_view(NativeFn::Exit)),
        ("inspect_scope"@, native_fn_view(NativeFn::InspectScope)),
    ]
}

/// The root frame a fresh standard environment starts from, in full.
pub open spec fn stdlib_frame() -> FrameView {
    FrameView {
        vars: stdlib_vars(),
        funcs: stdlib_funcs(),
        parent: None,
        destructors: seq![Destructor::CloseFiles],
    }
}

fn stdlib_function_table() -> (r: Vec<(String, Function)>)
    ensures
        crate::scope::funcs_view(r@) == stdlib_funcs(),
{
    let mut functions: Vec<(String, Function)> = Vec::new();
    functions.push(("print".to_owned(), Function::new_native(NativeFn::Print)));
    functions.push(("flush_stdout".to_owned(), Function::new_native(NativeFn::FlushStdout)));
    functions.push(("printerr".to_owned(), Function::new_native(NativeFn::Printerr)));
    functions.push(("input".to_owned(), Function::new_native(NativeFn::Input)));
    functions.push(("fopen".to_owned(), Function::new_native(NativeFn::Fopen)));
    functions.push(("fread".to_owned(), Function::new_native(NativeFn::Fread)));
    functions.push(("fwrite".to_owned(), Function::new_native(NativeFn::Fwrite)));
    functions.push(("fclose".to_owned(), Function::new_native(NativeFn::Fclose)));
    functions.push(("parse_int".to_owned(), Function::new_native(NativeFn::ParseInt)));
    functions.push(("lf".to_owned(), Function::new_native(NativeFn::Lf)));
    functions.push(("cr".to_owned(), Function::new_native(NativeFn::Cr)));
    functions.push(("declfunc".to_owned(), Function::new_native(NativeFn::Declfunc)));
    functions.push(("set".to_owned(), Function::new_native(NativeFn::SetVar)));
    functions.push(("null".to_owned(), Function::new_native(NativeFn::Null)));
    functions.push(("if".to_owned(), Function::new_native(NativeFn::If)));
    functions.push(("if_else".to_owned(), Function::new_native(NativeFn::IfElse)));
    functions.push(("add".to_owned(), Function::new_native(NativeFn::Add)));
    functions.push(("subt".to_owned(), Function::new_native(NativeFn::Subt)));
    functions.push(("mult".to_owned(), Function::new_native(NativeFn::Mult)));
    functions.push(("idiv".to_owned(), Function::new_native(NativeFn::Idiv)));
    functions.push(("and".to_owned(), Function::new_native(NativeFn::And)));
    functions.push(("or".to_owned(), Function::new_native(NativeFn::Or)));
    functions.push(("eq".to_owned(), Function::new_native(NativeFn::Eq)));
    functions.push(("neq".to_owned(), Function::new_native(NativeFn::Neq)));
    functions.push(("exit".to_owned(), Function::new_native(NativeFn::Exit)));
    functions.push(("inspect_scope".to_owned(), Function::new_native(NativeFn::InspectScope)));
    proof {
        assert(crate::scope::funcs_view(functions@) =~= stdlib_funcs());
    }
    functions
}

impl Scope {
    /// A fresh root environment seeded with the standard library: exactly
    /// the bindings of `stdlib_frame`, with the file-closing teardown pass
    /// registered.
    pub fn with_stdlib() -> (r: Scope)
        ensures
            r.wf(),
            r@ == seq![stdlib_frame()],
    {
        let mut variables: Vec<(String, Variant)> = Vec::new();
        variables.push(("true".to_owned(), Variant::Int(Int::new(1))));
        variables.push(("false".to_owned(), Variant::Int(Int::new(0))));
        proof {
            assert(crate::scope::vars_view(variables@) =~= stdlib_vars());
        }
        let functions = stdlib_function_table();
        let mut s = Scope::new(variables, functions);
        s.add_destructor(0, Destructor::CloseFiles);
        proof {
            assert(Seq::<Destructor>::empty().push(Destructor::CloseFiles) =~= seq![
                Destructor::CloseFiles,
            ]);
            assert(s@[0] == stdlib_frame());
            assert(s@ =~= seq![stdlib_frame()]);
        }
        s
    }
}

} // verus!

verus! {

/// The concrete standard table agrees, name by name, with the lookup
/// tables the registration functions build: a fresh `with_stdlib`
/// environment resolves every name exactly as `add_stdlib` onto an empty
/// root would.
#[verifier::rlimit(100)]
pub proof fn lemma_stdlib_frame_agrees(n: Seq<char>)
    ensures
        assoc_get(stdlib_frame().funcs, n) == (match stdlib_native(n) {
            Some(nf) => Some(native_fn_view(nf)),
            None => None::<FuncView>,
        }),
        assoc_get(stdlib_frame().vars, n) == stdlib_variable(n),
{
    reveal_strlit("print");
    reveal_strlit("flush_stdout");
    reveal_strlit("printerr");
    reveal_strlit("input");
    reveal_strlit("fopen");
    reveal_strlit("fread");
    reveal_strlit("fwrite");
    reveal_strlit("fclose");
    reveal_strlit("parse_int");
    reveal_strlit("lf");
    reveal_strlit("cr");
    reveal_strlit("declfunc");
    reveal_strlit("set");
    reveal_strlit("null");
    reveal_strlit("if");
    reveal_strlit("if_else");
    reveal_strlit("add");
    reveal_strlit("subt");
    reveal_strlit("mult");
    reveal_strlit("idiv");
    reveal_strlit("and");
    reveal_strlit("or");
    reveal_strlit("eq");
    reveal_strlit("neq");
    reveal_strlit("exit");
    reveal_strlit("inspect_scope");
    reveal_strlit("true");
    reveal_strlit("false");
    assert("print"@ != "flush_stdout"@) by {
        assert("print"@.len() == 5);
        assert("flush_stdout"@.len() == 12);
    }
    assert("print"@ != "printerr"@) by {
        assert("print"@.len() == 5);
        assert("printerr"@.len() == 8);
    }
    assert("print"@ != "input"@) by {
        assert("print"@[0] == 'p');
        assert("input"@[0] == 'i');
    }
    assert("print"@ != "fopen"@) by {
        assert("print"@[0] == 'p');
        assert("fopen"@[0] == 'f');
    }
    assert("print"@ != "fread"@) by {
        assert("print"@[0] == 'p');
        assert("fread"@[0] == 'f');
    }
    assert("print"@ != "fwrite"@) by {
        assert("print"@.len() == 5);
        assert("fwrite"@.len() == 6);
    }
    assert("print"@ != "fclose"@) by {
        assert("print"@.len() == 5);
        assert("fclose"@.len() == 6);
    }
    assert("print"@ != "parse_int"@) by {
        assert("print"@.len() == 5);
        assert("parse_int"@.len() == 9);
    }
    assert("print"@ != "lf"@) by {
        assert("print"@.len() == 5);
        assert("lf"@.len() == 2);
    }
    assert("print"@ != "cr"@) by {
        assert("print"@.len() == 5);
        assert("cr"@.len() == 2);
    }
    assert("print"@ != "declfunc"@) by {
        assert("print"@.len() == 5);
        assert("declfunc"@.len() == 8);
    }
    assert("print"@ != "set"@) by {
        assert("print"@.len() == 5);
        assert("set"@.len() == 3);
    }
    assert("print"@ != "null"@) by {
        assert("print"@.len() == 5);
        assert("null"@.len() == 4);
    }
    assert("print"@ != "if"@) by {
        assert("print"@.len() == 5);
        assert("if"@.len() == 2);
    }
    assert("print"@ != "if_else"@) by {
        assert("print"@.len() == 5);
        assert("if_else"@.len() == 7);
    }
    assert("print"@ != "add"@) by {
        assert("print"@.len() == 5);
        assert("add"@.len() == 3);
    }
    assert("print"@ != "subt"@) by {
        assert("print"@.len() == 5);
        assert("subt"@.len() == 4);
    }
    assert("print"@ != "mult"@) by {
        assert("print"@.len() == 5);
        assert("mult"@.len() == 4);
    }
    assert("print"@ != "idiv"@) by {
        assert("print"@.len() == 5);
        assert("idiv"@.len() == 4);
    }
    assert("print"@ != "and"@) by {
        assert("print"@.len() == 5);
        assert("and"@.len() == 3);
    }
    assert("print"@ != "or"@) by {
        assert("print"@.len() == 5);
        assert("or"@.len() == 2);
    }
    assert("print"@ != "eq"@) by {
        assert("print"@.len() == 5);
        assert("eq"@.len() == 2);
    }
    assert("print"@ != "neq"@) by {
        assert("print"@.len() == 5);
        assert("neq"@.len() == 3);
    }
    assert("print"@ != "exit"@) by {
        assert("print"@.len() == 5);
        assert("exit"@.len() == 4);
    }
    assert("print"@ != "inspect_scope"@) by {
        assert("print"@.len() == 5);
        assert("inspect_scope"@.len() == 13);
    }
    assert("print"@ != "true"@) by {
        assert("print"@.len() == 5);
        assert("true"@.len() == 4);
    }
    assert("print"@ != "false"@) by {
        assert("print"@[0] == 'p');
        assert("false"@[0] == 'f');
    }
    assert("flush_stdout"@ != "printerr"@) by {
        assert("flush_stdout"@.len() == 12);
        assert("printerr"@.len() == 8);
    }
    assert("flush_stdout"@ != "input"@) by {
        assert("flush_stdout"@.len() == 12);
        assert("input"@.len() == 5);
    }
    assert("flush_stdout"@ != "fopen"@) by {
        assert("flush_stdout"@.len() == 12);
        assert("fopen"@.len() == 5);
    }
    assert("flush_stdout"@ != "fread"@) by {
        assert("flush_stdout"@.len() == 12);
        assert("fread"@.len() == 5);
    }
    assert("flush_stdout"@ != "fwrite"@) by {
        assert("flush_stdout"@.len() == 12);
        assert("fwrite"@.len() == 6);
    }
    assert("flush_stdout"@ != "fclose"@) by {
        assert("flush_stdout"@.len() == 12);
        assert("fclose"@.len() == 6);
    }
    assert("flush_stdout"@ != "parse_int"@) by {
        assert("flush_stdout"@.len() == 12);
        assert("parse_int"@.len() == 9);
    }
    assert("flush_stdout"@ != "lf"@) by {
        assert("flush_stdout"@.len() == 12);
        assert("lf"@.len() == 2);
    }
    assert("flush_stdout"@ != "cr"@) by {
        assert("flush_stdout"@.len() == 12);
        assert("cr"@.len() == 2);
    }
    assert("flush_stdout"@ != "declfunc"@) by {
        assert("flush_stdout"@.len() == 12);
        assert("declfunc"@.len() == 8);
    }
    assert("flush_stdout"@ != "set"@) by {
        assert("flush_stdout"@.len() == 12);
        assert("set"@.len() == 3);
    }
    assert("flush_stdout"@ != "null"@) by {
        assert("flush_stdout"@.len() == 12);
        assert("null"@.len() == 4);
    }
    assert("flush_stdout"@ != "if"@) by {
        assert("flush_stdout"@.len() == 12);
        assert("if"@.len() == 2);
    }
    assert("flush_stdout"@ != "if_else"@) by {
        assert("flush_stdout"@.len() == 12);
        assert("if_else"@.len() == 7);
    }
    assert("flush_stdout"@ != "add"@) by {
        assert("flush_stdout"@.len() == 12);
        assert("add"@.len() == 3);
    }
    assert("flush_stdout"@ != "subt"@) by {
        assert("flush_stdout"@.len() == 12);
        assert("subt"@.len() == 4);
    }
    assert("flush_stdout"@ != "mult"@) by {
        assert("flush_stdout"@.len() == 12);
        assert("mult"@.len() == 4);
    }
    assert("flush_stdout"@ != "idiv"@) by {
        assert("flush_stdout"@.len() == 12);
        assert("idiv"@.len() == 4);
    }
    assert("flush_stdout"@ != "and"@) by {
        assert("flush_stdout"@.len() == 12);
        assert("and"@.len() == 3);
    }
    assert("flush_stdout"@ != "or"@) by {
        assert("flush_stdout"@.len() == 12);
        assert("or"@.len() == 2);
    }
    assert("flush_stdout"@ != "eq"@) by {
        assert("flush_stdout"@.len() == 12);
        assert("eq"@.len() == 2);
    }
    assert("flush_stdout"@ != "neq"@) by {
        assert("flush_stdout"@.len() == 12);
        assert("neq"@.len() == 3);
    }
    assert("flush_stdout"@ != "exit"@) by {
        assert("flush_stdout"@.len() == 12);
        assert("exit"@.len() == 4);
    }
    assert("flush_stdout"@ != "inspect_scope"@) by {
        assert("flush_stdout"@.len() == 12);
        assert("inspect_scope"@.len() == 13);
    }
    assert("flush_stdout"@ != "true"@) by {
        assert("flush_stdout"@.len() == 12);
        assert("true"@.len() == 4);
    }
    assert("flush_stdout"@ != "false"@) by {
        assert("flush_stdout"@.len() == 12);
        assert("false"@.len() == 5);
    }
    assert("printerr"@ != "input"@) by {
        assert("printerr"@.len() == 8);
        assert("input"@.len() == 5);
    }
    assert("printerr"@ != "fopen"@) by {
        assert("printerr"@.len() == 8);
        assert("fopen"@.len() == 5);
    }
    assert("printerr"@ != "fread"@) by {
        assert("printerr"@.len() == 8);
        assert("fread"@.len() == 5);
    }
    assert("printerr"@ != "fwrite"@) by {
        assert("printerr"@.len() == 8);
        assert("fwrite"@.len() == 6);
    }
    assert("printerr"@ != "fclose"@) by {
        assert("printerr"@.len() == 8);
        assert("fclose"@.len() == 6);
    }
    assert("printerr"@ != "parse_int"@) by {
        assert("printerr"@.len() == 8);
        assert("parse_int"@.len() == 9);
    }
    assert("printerr"@ != "lf"@) by {
        assert("printerr"@.len() == 8);
        assert("lf"@.len() == 2);
    }
    assert("printerr"@ != "cr"@) by {
        assert("printerr"@.len() == 8);
        assert("cr"@.len() == 2);
    }
    assert("printerr"@ != "declfunc"@) by {
        assert("printerr"@[0] == 'p');
        assert("declfunc"@[0] == 'd');
    }
    assert("printerr"@ != "set"@) by {
        assert("printerr"@.len() == 8);
        assert("set"@.len() == 3);
    }
    assert("printerr"@ != "null"@) by {
        assert("printerr"@.len() == 8);
        assert("null"@.len() == 4);
    }
    assert("printerr"@ != "if"@) by {
        assert("printerr"@.len() == 8);
        assert("if"@.len() == 2);
    }
    assert("printerr"@ != "if_else"@) by {
        assert("printerr"@.len() == 8);
        assert("if_else"@.len() == 7);
    }
    assert("printerr"@ != "add"@) by {
        assert("printerr"@.len() == 8);
        assert("add"@.len() == 3);
    }
    assert("printerr"@ != "subt"@) by {
        assert("printerr"@.len() == 8);
        assert("subt"@.len() == 4);
    }
    assert("printerr"@ != "mult"@) by {
        assert("printerr"@.len() == 8);
        assert("mult"@.len() == 4);
    }
    assert("printerr"@ != "idiv"@) by {
        assert("printerr"@.len() == 8);
        assert("idiv"@.len() == 4);
    }
    assert("printerr"@ != "and"@) by {
        assert("printerr"@.len() == 8);
        assert("and"@.len() == 3);
    }
    assert("printerr"@ != "or"@) by {
        assert("printerr"@.len() == 8);
        assert("or"@.len() == 2);
    }
    assert("printerr"@ != "eq"@) by {
        assert("printerr"@.len() == 8);
        assert("eq"@.len() == 2);
    }
    assert("printerr"@ != "neq"@) by {
        assert("printerr"@.len() == 8);
        assert("neq"@.len() == 3);
    }
    assert("printerr"@ != "exit"@) by {
        assert("printerr"@.len() == 8);
        assert("exit"@.len() == 4);
    }
    assert("printerr"@ != "inspect_scope"@) by {
        assert("printerr"@.len() == 8);
        assert("inspect_scope"@.len() == 13);
    }
    assert("printerr"@ != "true"@) by {
        assert("printerr"@.len() == 8);
        assert("true"@.len() == 4);
    }
    assert("printerr"@ != "false"@) by {
        assert("printerr"@.len() == 8);
        assert("false"@.len() == 5);
    }
    assert("input"@ != "fopen"@) by {
        assert("input"@[0] == 'i');
        assert("fopen"@[0] == 'f');
    }
    assert("input"@ != "fread"@) by {
        assert("input"@[0] == 'i');
        assert("fread"@[0] == 'f');
    }
    assert("input"@ != "fwrite"@) by {
        assert("input"@.len() == 5);
        assert("fwrite"@.len() == 6);
    }
    assert("input"@ != "fclose"@) by {
        assert("input"@.len() == 5);
        assert("fclose"@.len() == 6);
    }
    assert("input"@ != "parse_int"@) by {
        assert("input"@.len() == 5);
        assert("parse_int"@.len() == 9);
    }
    assert("input"@ != "lf"@) by {
        assert("input"@.len() == 5);
        assert("lf"@.len() == 2);
    }
    assert("input"@ != "cr"@) by {
        assert("input"@.len() == 5);
        assert("cr"@.len() == 2);
    }
    assert("input"@ != "declfunc"@) by {
        assert("input"@.len() == 5);
        assert("declfunc"@.len() == 8);
    }
    assert("input"@ != "set"@) by {
        assert("input"@.len() == 5);
        assert("set"@.len() == 3);
    }
    assert("input"@ != "null"@) by {
        assert("input"@.len() == 5);
        assert("null"@.len() == 4);
    }
    assert("input"@ != "if"@) by {
        assert("input"@.len() == 5);
        assert("if"@.len() == 2);
    }
    assert("input"@ != "if_else"@) by {
        assert("input"@.len() == 5);
        assert("if_else"@.len() == 7);
    }
    assert("input"@ != "add"@) by {
        assert("input"@.len() == 5);
        assert("add"@.len() == 3);
    }
    assert("input"@ != "subt"@) by {
        assert("input"@.len() == 5);
        assert("subt"@.len() == 4);
    }
    assert("input"@ != "mult"@) by {
        assert("input"@.len() == 5);
        assert("mult"@.len() == 4);
    }
    assert("input"@ != "idiv"@) by {
        assert("input"@.len() == 5);
        assert("idiv"@.len() == 4);
    }
    assert("input"@ != "and"@) by {
        assert("input"@.len() == 5);
        assert("and"@.len() == 3);
    }
    assert("input"@ != "or"@) by {
        assert("input"@.len() == 5);
        assert("or"@.len() == 2);
    }
    assert("input"@ != "eq"@) by {
        assert("input"@.len() == 5);
        assert("eq"@.len() == 2);
    }
    assert("input"@ != "neq"@) by {
        assert("input"@.len() == 5);
        assert("neq"@.len() == 3);
    }
    assert("input"@ != "exit"@) by {
        assert("input"@.len() == 5);
        assert("exit"@.len() == 4);
    }
    assert("input"@ != "inspect_scope"@) by {
        assert("input"@.len() == 5);
        assert("inspect_scope"@.len() == 13);
    }
    assert("input"@ != "true"@) by {
        assert("input"@.len() == 5);
        assert("true"@.len() == 4);
    }
    assert("input"@ != "false"@) by {
        assert("input"@[0] == 'i');
        assert("false"@[0] == 'f');
    }
    assert("fopen"@ != "fread"@) by {
        assert("fopen"@[1] == 'o');
        assert("fread"@[1] == 'r');
    }
    assert("fopen"@ != "fwrite"@) by {
        assert("fopen"@.len() == 5);
        assert("fwrite"@.len() == 6);
    }
    assert("fopen"@ != "fclose"@) by {
        assert("fopen"@.len() == 5);
        assert("fclose"@.len() == 6);
    }
    assert("fopen"@ != "parse_int"@) by {
        assert("fopen"@.len() == 5);
        assert("parse_int"@.len() == 9);
    }
    assert("fopen"@ != "lf"@) by {
        assert("fopen"@.len() == 5);
        assert("lf"@.len() == 2);
    }
    assert("fopen"@ != "cr"@) by {
        assert("fopen"@.len() == 5);
        assert("cr"@.len() == 2);
    }
    assert("fopen"@ != "declfunc"@) by {
        assert("fopen"@.len() == 5);
        assert("declfunc"@.len() == 8);
    }
    assert("fopen"@ != "set"@) by {
        assert("fopen"@.len() == 5);
        assert("set"@.len() == 3);
    }
    assert("fopen"@ != "null"@) by {
        assert("fopen"@.len() == 5);
        assert("null"@.len() == 4);
    }
    assert("fopen"@ != "if"@) by {
        assert("fopen"@.len() == 5);
        assert("if"@.len() == 2);
    }
    assert("fopen"@ != "if_else"@) by {
        assert("fopen"@.len() == 5);
        assert("if_else"@.len() == 7);
    }
    assert("fopen"@ != "add"@) by {
        assert("fopen"@.len() == 5);
        assert("add"@.len() == 3);
    }
    assert("fopen"@ != "subt"@) by {
        assert("fopen"@.len() == 5);
        assert("subt"@.len() == 4);
    }
    assert("fopen"@ != "mult"@) by {
        assert("fopen"@.len() == 5);
        assert("mult"@.len() == 4);
    }
    assert("fopen"@ != "idiv"@) by {
        assert("fopen"@.len() == 5);
        assert("idiv"@.len() == 4);
    }
    assert("fopen"@ != "and"@) by {
        assert("fopen"@.len() == 5);
        assert("and"@.len() == 3);
    }
    assert("fopen"@ != "or"@) by {
        assert("fopen"@.len() == 5);
        assert("or"@.len() == 2);
    }
    assert("fopen"@ != "eq"@) by {
        assert("fopen"@.len() == 5);
        assert("eq"@.len() == 2);
    }
    assert("fopen"@ != "neq"@) by {
        assert("fopen"@.len() == 5);
        assert("neq"@.len() == 3);
    }
    assert("fopen"@ != "exit"@) by {
        assert("fopen"@.len() == 5);
        assert("exit"@.len() == 4);
    }
    assert("fopen"@ != "inspect_scope"@) by {
        assert("fopen"@.len() == 5);
        assert("inspect_scope"@.len() == 13);
    }
    assert("fopen"@ != "true"@) by {
        assert("fopen"@.len() == 5);
        assert("true"@.len() == 4);
    }
    assert("fopen"@ != "false"@) by {
        assert("fopen"@[1] == 'o');
        assert("false"@[1] == 'a');
    }
    assert("fread"@ != "fwrite"@) by {
        assert("fread"@.len() == 5);
        assert("fwrite"@.len() == 6);
    }
    assert("fread"@ != "fclose"@) by {
        assert("fread"@.len() == 5);
        assert("fclose"@.len() == 6);
    }
    assert("fread"@ != "parse_int"@) by {
        assert("fread"@.len() == 5);
        assert("parse_int"@.len() == 9);
    }
    assert("fread"@ != "lf"@) by {
        assert("fread"@.len() == 5);
        assert("lf"@.len() == 2);
    }
    assert("fread"@ != "cr"@) by {
        assert("fread"@.len() == 5);
        assert("cr"@.len() == 2);
    }
    assert("fread"@ != "declfunc"@) by {
        assert("fread"@.len() == 5);
        assert("declfunc"@.len() == 8);
    }
    assert("fread"@ != "set"@) by {
        assert("fread"@.len() == 5);
        assert("set"@.len() == 3);
    }
    assert("fread"@ != "null"@) by {
        assert("fread"@.len() == 5);
        assert("null"@.len() == 4);
    }
    assert("fread"@ != "if"@) by {
        assert("fread"@.len() == 5);
        assert("if"@.len() == 2);
    }
    assert("fread"@ != "if_else"@) by {
        assert("fread"@.len() == 5);
        assert("if_else"@.len() == 7);
    }
    assert("fread"@ != "add"@) by {
        assert("fread"@.len() == 5);
        assert("add"@.len() == 3);
    }
    assert("fread"@ != "subt"@) by {
        assert("fread"@.len() == 5);
        assert("subt"@.len() == 4);
    }
    assert("fread"@ != "mult"@) by {
        assert("fread"@.len() == 5);
        assert("mult"@.len() == 4);
    }
    assert("fread"@ != "idiv"@) by {
        assert("fread"@.len() == 5);
        assert("idiv"@.len() == 4);
    }
    assert("fread"@ != "and"@) by {
        assert("fread"@.len() == 5);
        assert("and"@.len() == 3);
    }
    assert("fread"@ != "or"@) by {
        assert("fread"@.len() == 5);
        assert("or"@.len() == 2);
    }
    assert("fread"@ != "eq"@) by {
        assert("fread"@.len() == 5);
        assert("eq"@.len() == 2);
    }
    assert("fread"@ != "neq"@) by {
        assert("fread"@.len() == 5);
        assert("neq"@.len() == 3);
    }
    assert("fread"@ != "exit"@) by {
        assert("fread"@.len() == 5);
        assert("exit"@.len() == 4);
    }
    assert("fread"@ != "inspect_scope"@) by {
        assert("fread"@.len() == 5);
        assert("inspect_scope"@.len() == 13);
    }
    assert("fread"@ != "true"@) by {
        assert("fread"@.len() == 5);
        assert("true"@.len() == 4);
    }
    assert("fread"@ != "false"@) by {
        assert("fread"@[1] == 'r');
        assert("false"@[1] == 'a');
    }
    assert("fwrite"@ != "fclose"@) by {
        assert("fwrite"@[1] == 'w');
        assert("fclose"@[1] == 'c');
    }
    assert("fwrite"@ != "parse_int"@) by {
        assert("fwrite"@.len() == 6);
        assert("parse_int"@.len() == 9);
    }
    assert("fwrite"@ != "lf"@) by {
        assert("fwrite"@.len() == 6);
        assert("lf"@.len() == 2);
    }
    assert("fwrite"@ != "cr"@) by {
        assert("fwrite"@.len() == 6);
        assert("cr"@.len() == 2);
    }
    assert("fwrite"@ != "declfunc"@) by {
        assert("fwrite"@.len() == 6);
        assert("declfunc"@.len() == 8);
    }
    assert("fwrite"@ != "set"@) by {
        assert("fwrite"@.len() == 6);
        assert("set"@.len() == 3);
    }
    assert("fwrite"@ != "null"@) by {
        assert("fwrite"@.len() == 6);
        assert("null"@.len() == 4);
    }
    assert("fwrite"@ != "if"@) by {
        assert("fwrite"@.len() == 6);
        assert("if"@.len() == 2);
    }
    assert("fwrite"@ != "if_else"@) by {
        assert("fwrite"@.len() == 6);
        assert("if_else"@.len() == 7);
    }
    assert("fwrite"@ != "add"@) by {
        assert("fwrite"@.len() == 6);
        assert("add"@.len() == 3);
    }
    assert("fwrite"@ != "subt"@) by {
        assert("fwrite"@.len() == 6);
        assert("subt"@.len() == 4);
    }
    assert("fwrite"@ != "mult"@) by {
        assert("fwrite"@.len() == 6);
        assert("mult"@.len() == 4);
    }
    assert("fwrite"@ != "idiv"@) by {
        assert("fwrite"@.len() == 6);
        assert("idiv"@.len() == 4);
    }
    assert("fwrite"@ != "and"@) by {
        assert("fwrite"@.len() == 6);
        assert("and"@.len() == 3);
    }
    assert("fwrite"@ != "or"@) by {
        assert("fwrite"@.len() == 6);
        assert("or"@.len() == 2);
    }
    assert("fwrite"@ != "eq"@) by {
        assert("fwrite"@.len() == 6);
        assert("eq"@.len() == 2);
    }
    assert("fwrite"@ != "neq"@) by {
        assert("fwrite"@.len() == 6);
        assert("neq"@.len() == 3);
    }
    assert("fwrite"@ != "exit"@) by {
        assert("fwrite"@.len() == 6);
        assert("exit"@.len() == 4);
    }
    assert("fwrite"@ != "inspect_scope"@) by {
        assert("fwrite"@.len() == 6);
        assert("inspect_scope"@.len() == 13);
    }
    assert("fwrite"@ != "true"@) by {
        assert("fwrite"@.len() == 6);
        assert("true"@.len() == 4);
    }
    assert("fwrite"@ != "false"@) by {
        assert("fwrite"@.len() == 6);
        assert("false"@.len() == 5);
    }
    assert("fclose"@ != "parse_int"@) by {
        assert("fclose"@.len() == 6);
        assert("parse_int"@.len() == 9);
    }
    assert("fclose"@ != "lf"@) by {
        assert("fclose"@.len() == 6);
        assert("lf"@.len() == 2);
    }
    assert("fclose"@ != "cr"@) by {
        assert("fclose"@.len() == 6);
        assert("cr"@.len() == 2);
    }
    assert("fclose"@ != "declfunc"@) by {
        assert("fclose"@.len() == 6);
        assert("declfunc"@.len() == 8);
    }
    assert("fclose"@ != "set"@) by {
        assert("fclose"@.len() == 6);
        assert("set"@.len() == 3);
    }
    assert("fclose"@ != "null"@) by {
        assert("fclose"@.len() == 6);
        assert("null"@.len() == 4);
    }
    assert("fclose"@ != "if"@) by {
        assert("fclose"@.len() == 6);
        assert("if"@.len() == 2);
    }
    assert("fclose"@ != "if_else"@) by {
        assert("fclose"@.len() == 6);
        assert("if_else"@.len() == 7);
    }
    assert("fclose"@ != "add"@) by {
        assert("fclose"@.len() == 6);
        assert("add"@.len() == 3);
    }
    assert("fclose"@ != "subt"@) by {
        assert("fclose"@.len() == 6);
        assert("subt"@.len() == 4);
    }
    assert("fclose"@ != "mult"@) by {
        assert("fclose"@.len() == 6);
        assert("mult"@.len() == 4);
    }
    assert("fclose"@ != "idiv"@) by {
        assert("fclose"@.len() == 6);
        assert("idiv"@.len() == 4);
    }
    assert("fclose"@ != "and"@) by {
        assert("fclose"@.len() == 6);
        assert("and"@.len() == 3);
    }
    assert("fclose"@ != "or"@) by {
        assert("fclose"@.len() == 6);
        assert("or"@.len() == 2);
    }
    assert("fclose"@ != "eq"@) by {
        assert("fclose"@.len() == 6);
        assert("eq"@.len() == 2);
    }
    assert("fclose"@ != "neq"@) by {
        assert("fclose"@.len() == 6);
        assert("neq"@.len() == 3);
    }
    assert("fclose"@ != "exit"@) by {
        assert("fclose"@.len() == 6);
        assert("exit"@.len() == 4);
    }
    assert("fclose"@ != "inspect_scope"@) by {
        assert("fclose"@.len() == 6);
        assert("inspect_scope"@.len() == 13);
    }
    assert("fclose"@ != "true"@) by {
        assert("fclose"@.len() == 6);
        assert("true"@.len() == 4);
    }
    assert("fclose"@ != "false"@) by {
        assert("fclose"@.len() == 6);
        assert("false"@.len() == 5);
    }
    assert("parse_int"@ != "lf"@) by {
        assert("parse_int"@.len() == 9);
        assert("lf"@.len() == 2);
    }
    assert("parse_int"@ != "cr"@) by {
        assert("parse_int"@.len() == 9);
        assert("cr"@.len() == 2);
    }
    assert("parse_int"@ != "declfunc"@) by {
        assert("parse_int"@.len() == 9);
        assert("declfunc"@.len() == 8);
    }
    assert("parse_int"@ != "set"@) by {
        assert("parse_int"@.len() == 9);
        assert("set"@.len() == 3);
    }
    assert("parse_int"@ != "null"@) by {
        assert("parse_int"@.len() == 9);
        assert("null"@.len() == 4);
    }
    assert("parse_int"@ != "if"@) by {
        assert("parse_int"@.len() == 9);
        assert("if"@.len() == 2);
    }
    assert("parse_int"@ != "if_else"@) by {
        assert("parse_int"@.len() == 9);
        assert("if_else"@.len() == 7);
    }
    assert("parse_int"@ != "add"@) by {
        assert("parse_int"@.len() == 9);
        assert("add"@.len() == 3);
    }
    assert("parse_int"@ != "subt"@) by {
        assert("parse_int"@.len() == 9);
        assert("subt"@.len() == 4);
    }
    assert("parse_int"@ != "mult"@) by {
        assert("parse_int"@.len() == 9);
        assert("mult"@.len() == 4);
    }
    assert("parse_int"@ != "idiv"@) by {
        assert("parse_int"@.len() == 9);
        assert("idiv"@.len() == 4);
    }
    assert("parse_int"@ != "and"@) by {
        assert("parse_int"@.len() == 9);
        assert("and"@.len() == 3);
    }
    assert("parse_int"@ != "or"@) by {
        assert("parse_int"@.len() == 9);
        assert("or"@.len() == 2);
    }
    assert("parse_int"@ != "eq"@) by {
        assert("parse_int"@.len() == 9);
        assert("eq"@.len() == 2);
    }
    assert("parse_int"@ != "neq"@) by {
        assert("parse_int"@.len() == 9);
        assert("neq"@.len() == 3);
    }
    assert("parse_int"@ != "exit"@) by {
        assert("parse_int"@.len() == 9);
        assert("exit"@.len() == 4);
    }
    assert("parse_int"@ != "inspect_scope"@) by {
        assert("parse_int"@.len() == 9);
        assert("inspect_scope"@.len() == 13);
    }
    assert("parse_int"@ != "true"@) by {
        assert("parse_int"@.len() == 9);
        assert("true"@.len() == 4);
    }
    assert("parse_int"@ != "false"@) by {
        assert("parse_int"@.len() == 9);
        assert("false"@.len() == 5);
    }
    assert("lf"@ != "cr"@) by {
        assert("lf"@[0] == 'l');
        assert("cr"@[0] == 'c');
    }
    assert("lf"@ != "declfunc"@) by {
        assert("lf"@.len() == 2);
        assert("declfunc"@.len() == 8);
    }
    assert("lf"@ != "set"@) by {
        assert("lf"@.len() == 2);
        assert("set"@.len() == 3);
    }
    assert("lf"@ != "null"@) by {
        assert("lf"@.len() == 2);
        assert("null"@.len() == 4);
    }
    assert("lf"@ != "if"@) by {
        assert("lf"@[0] == 'l');
        assert("if"@[0] == 'i');
    }
    assert("lf"@ != "if_else"@) by {
        assert("lf"@.len() == 2);
        assert("if_else"@.len() == 7);
    }
    assert("lf"@ != "add"@) by {
        assert("lf"@.len() == 2);
        assert("add"@.len() == 3);
    }
    assert("lf"@ != "subt"@) by {
        assert("lf"@.len() == 2);
        assert("subt"@.len() == 4);
    }
    assert("lf"@ != "mult"@) by {
        assert("lf"@.len() == 2);
        assert("mult"@.len() == 4);
    }
    assert("lf"@ != "idiv"@) by {
        assert("lf"@.len() == 2);
        assert("idiv"@.len() == 4);
    }
    assert("lf"@ != "and"@) by {
        assert("lf"@.len() == 2);
        assert("and"@.len() == 3);
    }
    assert("lf"@ != "or"@) by {
        assert("lf"@[0] == 'l');
        assert("or"@[0] == 'o');
    }
    assert("lf"@ != "eq"@) by {
        assert("lf"@[0] == 'l');
        assert("eq"@[0] == 'e');
    }
    assert("lf"@ != "neq"@) by {
        assert("lf"@.len() == 2);
        assert("neq"@.len() == 3);
    }
    assert("lf"@ != "exit"@) by {
        assert("lf"@.len() == 2);
        assert("exit"@.len() == 4);
    }
    assert("lf"@ != "inspect_scope"@) by {
        assert("lf"@.len() == 2);
        assert("inspect_scope"@.len() == 13);
    }
    assert("lf"@ != "true"@) by {
        assert("lf"@.len() == 2);
        assert("true"@.len() == 4);
    }
    assert("lf"@ != "false"@) by {
        assert("lf"@.len() == 2);
        assert("false"@.len() == 5);
    }
    assert("cr"@ != "declfunc"@) by {
        assert("cr"@.len() == 2);
        assert("declfunc"@.len() == 8);
    }
    assert("cr"@ != "set"@) by {
        assert("cr"@.len() == 2);
        assert("set"@.len() == 3);
    }
    assert("cr"@ != "null"@) by {
        assert("cr"@.len() == 2);
        assert("null"@.len() == 4);
    }
    assert("cr"@ != "if"@) by {
        assert("cr"@[0] == 'c');
        assert("if"@[0] == 'i');
    }
    assert("cr"@ != "if_else"@) by {
        assert("cr"@.len() == 2);
        assert("if_else"@.len() == 7);
    }
    assert("cr"@ != "add"@) by {
        assert("cr"@.len() == 2);
        assert("add"@.len() == 3);
    }
    assert("cr"@ != "subt"@) by {
        assert("cr"@.len() == 2);
        assert("subt"@.len() == 4);
    }
    assert("cr"@ != "mult"@) by {
        assert("cr"@.len() == 2);
        assert("mult"@.len() == 4);
    }
    assert("cr"@ != "idiv"@) by {
        assert("cr"@.len() == 2);
        assert("idiv"@.len() == 4);
    }
    assert("cr"@ != "and"@) by {
        assert("cr"@.len() == 2);
        assert("and"@.len() == 3);
    }
    assert("cr"@ != "or"@) by {
        assert("cr"@[0] == 'c');
        assert("or"@[0] == 'o');
    }
    assert("cr"@ != "eq"@) by {
        assert("cr"@[0] == 'c');
        assert("eq"@[0] == 'e');
    }
    assert("cr"@ != "neq"@) by {
        assert("cr"@.len() == 2);
        assert("neq"@.len() == 3);
    }
    assert("cr"@ != "exit"@) by {
        assert("cr"@.len() == 2);
        assert("exit"@.len() == 4);
    }
    assert("cr"@ != "inspect_scope"@) by {
        assert("cr"@.len() == 2);
        assert("inspect_scope"@.len() == 13);
    }
    assert("cr"@ != "true"@) by {
        assert("cr"@.len() == 2);
        assert("true"@.len() == 4);
    }
    assert("cr"@ != "false"@) by {
        assert("cr"@.len() == 2);
        assert("false"@.len() == 5);
    }
    assert("declfunc"@ != "set"@) by {
        assert("declfunc"@.len() == 8);
        assert("set"@.len() == 3);
    }
    assert("declfunc"@ != "null"@) by {
        assert("declfunc"@.len() == 8);
        assert("null"@.len() == 4);
    }
    assert("declfunc"@ != "if"@) by {
        assert("declfunc"@.len() == 8);
        assert("if"@.len() == 2);
    }
    assert("declfunc"@ != "if_else"@) by {
        assert("declfunc"@.len() == 8);
        assert("if_else"@.len() == 7);
    }
    assert("declfunc"@ != "add"@) by {
        assert("declfunc"@.len() == 8);
        assert("add"@.len() == 3);
    }
    assert("declfunc"@ != "subt"@) by {
        assert("declfunc"@.len() == 8);
        assert("subt"@.len() == 4);
    }
    assert("declfunc"@ != "mult"@) by {
        assert("declfunc"@.len() == 8);
        assert("mult"@.len() == 4);
    }
    assert("declfunc"@ != "idiv"@) by {
        assert("declfunc"@.len() == 8);
        assert("idiv"@.len() == 4);
    }
    assert("declfunc"@ != "and"@) by {
        assert("declfunc"@.len() == 8);
        assert("and"@.len() == 3);
    }
    assert("declfunc"@ != "or"@) by {
        assert("declfunc"@.len() == 8);
        assert("or"@.len() == 2);
    }
    assert("declfunc"@ != "eq"@) by {
        assert("declfunc"@.len() == 8);
        assert("eq"@.len() == 2);
    }
    assert("declfunc"@ != "neq"@) by {
        assert("declfunc"@.len() == 8);
        assert("neq"@.len() == 3);
    }
    assert("declfunc"@ != "exit"@) by {
        assert("declfunc"@.len() == 8);
        assert("exit"@.len() == 4);
    }
    assert("declfunc"@ != "inspect_scope"@) by {
        assert("declfunc"@.len() == 8);
        assert("inspect_scope"@.len() == 13);
    }
    assert("declfunc"@ != "true"@) by {
        assert("declfunc"@.len() == 8);
        assert("true"@.len() == 4);
    }
    assert("declfunc"@ != "false"@) by {
        assert("declfunc"@.len() == 8);
        assert("false"@.len() == 5);
    }
    assert("set"@ != "null"@) by {
        assert("set"@.len() == 3);
        assert("null"@.len() == 4);
    }
    assert("set"@ != "if"@) by {
        assert("set"@.len() == 3);
        assert("if"@.len() == 2);
    }
    assert("set"@ != "if_else"@) by {
        assert("set"@.len() == 3);
        assert("if_else"@.len() == 7);
    }
    assert("set"@ != "add"@) by {
        assert("set"@[0] == 's');
        assert("add"@[0] == 'a');
    }
    assert("set"@ != "subt"@) by {
        assert("set"@.len() == 3);
        assert("subt"@.len() == 4);
    }
    assert("set"@ != "mult"@) by {
        assert("set"@.len() == 3);
        assert("mult"@.len() == 4);
    }
    assert("set"@ != "idiv"@) by {
        assert("set"@.len() == 3);
        assert("idiv"@.len() == 4);
    }
    assert("set"@ != "and"@) by {
        assert("set"@[0] == 's');
        assert("and"@[0] == 'a');
    }
    assert("set"@ != "or"@) by {
        assert("set"@.len() == 3);
        assert("or"@.len() == 2);
    }
    assert("set"@ != "eq"@) by {
        assert("set"@.len() == 3);
        assert("eq"@.len() == 2);
    }
    assert("set"@ != "neq"@) by {
        assert("set"@[0] == 's');
        assert("neq"@[0] == 'n');
    }
    assert("set"@ != "exit"@) by {
        assert("set"@.len() == 3);
        assert("exit"@.len() == 4);
    }
    assert("set"@ != "inspect_scope"@) by {
        assert("set"@.len() == 3);
        assert("inspect_scope"@.len() == 13);
    }
    assert("set"@ != "true"@) by {
        assert("set"@.len() == 3);
        assert("true"@.len() == 4);
    }
    assert("set"@ != "false"@) by {
        assert("set"@.len() == 3);
        assert("false"@.len() == 5);
    }
    assert("null"@ != "if"@) by {
        assert("null"@.len() == 4);
        assert("if"@.len() == 2);
    }
    assert("null"@ != "if_else"@) by {
        assert("null"@.len() == 4);
        assert("if_else"@.len() == 7);
    }
    assert("null"@ != "add"@) by {
        assert("null"@.len() == 4);
        assert("add"@.len() == 3);
    }
    assert("null"@ != "subt"@) by {
        assert("null"@[0] == 'n');
        assert("subt"@[0] == 's');
    }
    assert("null"@ != "mult"@) by {
        assert("null"@[0] == 'n');
        assert("mult"@[0] == 'm');
    }
    assert("null"@ != "idiv"@) by {
        assert("null"@[0] == 'n');
        assert("idiv"@[0] == 'i');
    }
    assert("null"@ != "and"@) by {
        assert("null"@.len() == 4);
        assert("and"@.len() == 3);
    }
    assert("null"@ != "or"@) by {
        assert("null"@.len() == 4);
        assert("or"@.len() == 2);
    }
    assert("null"@ != "eq"@) by {
        assert("null"@.len() == 4);
        assert("eq"@.len() == 2);
    }
    assert("null"@ != "neq"@) by {
        assert("null"@.len() == 4);
        assert("neq"@.len() == 3);
    }
    assert("null"@ != "exit"@) by {
        assert("null"@[0] == 'n');
        assert("exit"@[0] == 'e');
    }
    assert("null"@ != "inspect_scope"@) by {
        assert("null"@.len() == 4);
        assert("inspect_scope"@.len() == 13);
    }
    assert("null"@ != "true"@) by {
        assert("null"@[0] == 'n');
        assert("true"@[0] == 't');
    }
    assert("null"@ != "false"@) by {
        assert("null"@.len() == 4);
        assert("false"@.len() == 5);
    }
    assert("if"@ != "if_else"@) by {
        assert("if"@.len() == 2);
        assert("if_else"@.len() == 7);
    }
    assert("if"@ != "add"@) by {
        assert("if"@.len() == 2);
        assert("add"@.len() == 3);
    }
    assert("if"@ != "subt"@) by {
        assert("if"@.len() == 2);
        assert("subt"@.len() == 4);
    }
    assert("if"@ != "mult"@) by {
        assert("if"@.len() == 2);
        assert("mult"@.len() == 4);
    }
    assert("if"@ != "idiv"@) by {
        assert("if"@.len() == 2);
        assert("idiv"@.len() == 4);
    }
    assert("if"@ != "and"@) by {
        assert("if"@.len() == 2);
        assert("and"@.len() == 3);
    }
    assert("if"@ != "or"@) by {
        assert("if"@[0] == 'i');
        assert("or"@[0] == 'o');
    }
    assert("if"@ != "eq"@) by {
        assert("if"@[0] == 'i');
        assert("eq"@[0] == 'e');
    }
    assert("if"@ != "neq"@) by {
        assert("if"@.len() == 2);
        assert("neq"@.len() == 3);
    }
    assert("if"@ != "exit"@) by {
        assert("if"@.len() == 2);
        assert("exit"@.len() == 4);
    }
    assert("if"@ != "inspect_scope"@) by {
        assert("if"@.len() == 2);
        assert("inspect_scope"@.len() == 13);
    }
    assert("if"@ != "true"@) by {
        assert("if"@.len() == 2);
        assert("true"@.len() == 4);
    }
    assert("if"@ != "false"@) by {
        assert("if"@.len() == 2);
        assert("false"@.len() == 5);
    }
    assert("if_else"@ != "add"@) by {
        assert("if_else"@.len() == 7);
        assert("add"@.len() == 3);
    }
    assert("if_else"@ != "subt"@) by {
        assert("if_else"@.len() == 7);
        assert("subt"@.len() == 4);
    }
    assert("if_else"@ != "mult"@) by {
        assert("if_else"@.len() == 7);
        assert("mult"@.len() == 4);
    }
    assert("if_else"@ != "idiv"@) by {
        assert("if_else"@.len() == 7);
        assert("idiv"@.len() == 4);
    }
    assert("if_else"@ != "and"@) by {
        assert("if_else"@.len() == 7);
        assert("and"@.len() == 3);
    }
    assert("if_else"@ != "or"@) by {
        assert("if_else"@.len() == 7);
        assert("or"@.len() == 2);
    }
    assert("if_else"@ != "eq"@) by {
        assert("if_else"@.len() == 7);
        assert("eq"@.len() == 2);
    }
    assert("if_else"@ != "neq"@) by {
        assert("if_else"@.len() == 7);
        assert("neq"@.len() == 3);
    }
    assert("if_else"@ != "exit"@) by {
        assert("if_else"@.len() == 7);
        assert("exit"@.len() == 4);
    }
    assert("if_else"@ != "inspect_scope"@) by {
        assert("if_else"@.len() == 7);
        assert("inspect_scope"@.len() == 13);
    }
    assert("if_else"@ != "true"@) by {
        assert("if_else"@.len() == 7);
        assert("true"@.len() == 4);
    }
    assert("if_else"@ != "false"@) by {
        assert("if_else"@.len() == 7);
        assert("false"@.len() == 5);
    }
    assert("add"@ != "subt"@) by {
        assert("add"@.len() == 3);
        assert("subt"@.len() == 4);
    }
    assert("add"@ != "mult"@) by {
        assert("add"@.len() == 3);
        assert("mult"@.len() == 4);
    }
    assert("add"@ != "idiv"@) by {
        assert("add"@.len() == 3);
        assert("idiv"@.len() == 4);
    }
    assert("add"@ != "and"@) by {
        assert("add"@[1] == 'd');
        assert("and"@[1] == 'n');
    }
    assert("add"@ != "or"@) by {
        assert("add"@.len() == 3);
        assert("or"@.len() == 2);
    }
    assert("add"@ != "eq"@) by {
        assert("add"@.len() == 3);
        assert("eq"@.len() == 2);
    }
    assert("add"@ != "neq"@) by {
        assert("add"@[0] == 'a');
        assert("neq"@[0] == 'n');
    }
    assert("add"@ != "exit"@) by {
        assert("add"@.len() == 3);
        assert("exit"@.len() == 4);
    }
    assert("add"@ != "inspect_scope"@) by {
        assert("add"@.len() == 3);
        assert("inspect_scope"@.len() == 13);
    }
    assert("add"@ != "true"@) by {
        assert("add"@.len() == 3);
        assert("true"@.len() == 4);
    }
    assert("add"@ != "false"@) by {
        assert("add"@.len() == 3);
        assert("false"@.len() == 5);
    }
    assert("subt"@ != "mult"@) by {
        assert("subt"@[0] == 's');
        assert("mult"@[0] == 'm');
    }
    assert("subt"@ != "idiv"@) by {
        assert("subt"@[0] == 's');
        assert("idiv"@[0] == 'i');
    }
    assert("subt"@ != "and"@) by {
        assert("subt"@.len() == 4);
        assert("and"@.len() == 3);
    }
    assert("subt"@ != "or"@) by {
        assert("subt"@.len() == 4);
        assert("or"@.len() == 2);
    }
    assert("subt"@ != "eq"@) by {
        assert("subt"@.len() == 4);
        assert("eq"@.len() == 2);
    }
    assert("subt"@ != "neq"@) by {
        assert("subt"@.len() == 4);
        assert("neq"@.len() == 3);
    }
    assert("subt"@ != "exit"@) by {
        assert("subt"@[0] == 's');
        assert("exit"@[0] == 'e');
    }
    assert("subt"@ != "inspect_scope"@) by {
        assert("subt"@.len() == 4);
        assert("inspect_scope"@.len() == 13);
    }
    assert("subt"@ != "true"@) by {
        assert("subt"@[0] == 's');
        assert("true"@[0] == 't');
    }
    assert("subt"@ != "false"@) by {
        assert("subt"@.len() == 4);
        assert("false"@.len() == 5);
    }
    assert("mult"@ != "idiv"@) by {
        assert("mult"@[0] == 'm');
        assert("idiv"@[0] == 'i');
    }
    assert("mult"@ != "and"@) by {
        assert("mult"@.len() == 4);
        assert("and"@.len() == 3);
    }
    assert("mult"@ != "or"@) by {
        assert("mult"@.len() == 4);
        assert("or"@.len() == 2);
    }
    assert("mult"@ != "eq"@) by {
        assert("mult"@.len() == 4);
        assert("eq"@.len() == 2);
    }
    assert("mult"@ != "neq"@) by {
        assert("mult"@.len() == 4);
        assert("neq"@.len() == 3);
    }
    assert("mult"@ != "exit"@) by {
        assert("mult"@[0] == 'm');
        assert("exit"@[0] == 'e');
    }
    assert("mult"@ != "inspect_scope"@) by {
        assert("mult"@.len() == 4);
        assert("inspect_scope"@.len() == 13);
    }
    assert("mult"@ != "true"@) by {
        assert("mult"@[0] == 'm');
        assert("true"@[0] == 't');
    }
    assert("mult"@ != "false"@) by {
        assert("mult"@.len() == 4);
        assert("false"@.len() == 5);
    }
    assert("idiv"@ != "and"@) by {
        assert("idiv"@.len() == 4);
        assert("and"@.len() == 3);
    }
    assert("idiv"@ != "or"@) by {
        assert("idiv"@.len() == 4);
        assert("or"@.len() == 2);
    }
    assert("idiv"@ != "eq"@) by {
        assert("idiv"@.len() == 4);
        assert("eq"@.len() == 2);
    }
    assert("idiv"@ != "neq"@) by {
        assert("idiv"@.len() == 4);
        assert("neq"@.len() == 3);
    }
    assert("idiv"@ != "exit"@) by {
        assert("idiv"@[0] == 'i');
        assert("exit"@[0] == 'e');
    }
    assert("idiv"@ != "inspect_scope"@) by {
        assert("idiv"@.len() == 4);
        assert("inspect_scope"@.len() == 13);
    }
    assert("idiv"@ != "true"@) by {
        assert("idiv"@[0] == 'i');
        assert("true"@[0] == 't');
    }
    assert("idiv"@ != "false"@) by {
        assert("idiv"@.len() == 4);
        assert("false"@.len() == 5);
    }
    assert("and"@ != "or"@) by {
        assert("and"@.len() == 3);
        assert("or"@.len() == 2);
    }
    assert("and"@ != "eq"@) by {
        assert("and"@.len() == 3);
        assert("eq"@.len() == 2);
    }
    assert("and"@ != "neq"@) by {
        assert("and"@[0] == 'a');
        assert("neq"@[0] == 'n');
    }
    assert("and"@ != "exit"@) by {
        assert("and"@.len() == 3);
        assert("exit"@.len() == 4);
    }
    assert("and"@ != "inspect_scope"@) by {
        assert("and"@.len() == 3);
        assert("inspect_scope"@.len() == 13);
    }
    assert("and"@ != "true"@) by {
        assert("and"@.len() == 3);
        assert("true"@.len() == 4);
    }
    assert("and"@ != "false"@) by {
        assert("and"@.len() == 3);
        assert("false"@.len() == 5);
    }
    assert("or"@ != "eq"@) by {
        assert("or"@[0] == 'o');
        assert("eq"@[0] == 'e');
    }
    assert("or"@ != "neq"@) by {
        assert("or"@.len() == 2);
        assert("neq"@.len() == 3);
    }
    assert("or"@ != "exit"@) by {
        assert("or"@.len() == 2);
        assert("exit"@.len() == 4);
    }
    assert("or"@ != "inspect_scope"@) by {
        assert("or"@.len() == 2);
        assert("inspect_scope"@.len() == 13);
    }
    assert("or"@ != "true"@) by {
        assert("or"@.len() == 2);
        assert("true"@.len() == 4);
    }
    assert("or"@ != "false"@) by {
        assert("or"@.len() == 2);
        assert("false"@.len() == 5);
    }
    assert("eq"@ != "neq"@) by {
        assert("eq"@.len() == 2);
        assert("neq"@.len() == 3);
    }
    assert("eq"@ != "exit"@) by {
        assert("eq"@.len() == 2);
        assert("exit"@.len() == 4);
    }
    assert("eq"@ != "inspect_scope"@) by {
        assert("eq"@.len() == 2);
        assert("inspect_scope"@.len() == 13);
    }
    assert("eq"@ != "true"@) by {
        assert("eq"@.len() == 2);
        assert("true"@.len() == 4);
    }
    assert("eq"@ != "false"@) by {
        assert("eq"@.len() == 2);
        assert("false"@.len() == 5);
    }
    assert("neq"@ != "exit"@) by {
        assert("neq"@.len() == 3);
        assert("exit"@.len() == 4);
    }
    assert("neq"@ != "inspect_scope"@) by {
        assert("neq"@.len() == 3);
        assert("inspect_scope"@.len() == 13);
    }
    assert("neq"@ != "true"@) by {
        assert("neq"@.len() == 3);
        assert("true"@.len() == 4);
    }
    assert("neq"@ != "false"@) by {
        assert("neq"@.len() == 3);
        assert("false"@.len() == 5);
    }
    assert("exit"@ != "inspect_scope"@) by {
        assert("exit"@.len() == 4);
        assert("inspect_scope"@.len() == 13);
    }
    assert("exit"@ != "true"@) by {
        assert("exit"@[0] == 'e');
        assert("true"@[0] == 't');
    }
    assert("exit"@ != "false"@) by {
        assert("exit"@.len() == 4);
        assert("false"@.len() == 5);
    }
    assert("inspect_scope"@ != "true"@) by {
        assert("inspect_scope"@.len() == 13);
        assert("true"@.len() == 4);
    }
    assert("inspect_scope"@ != "false"@) by {
        assert("inspect_scope"@.len() == 13);
        assert("false"@.len() == 5);
    }
    assert("true"@ != "false"@) by {
        assert("true"@.len() == 4);
        assert("false"@.len() == 5);
    }
    let fs0 = stdlib_frame().funcs;
    let fs1 = fs0.subrange(1, fs0.len() as int);
    let fs2 = fs1.subrange(1, fs1.len() as int);
    let fs3 = fs2.subrange(1, fs2.len() as int);
    let fs4 = fs3.subrange(1, fs3.len() as int);
    let fs5 = fs4.subrange(1, fs4.len() as int);
    let fs6 = fs5.subrange(1, fs5.len() as int);
    let fs7 = fs6.subrange(1, fs6.len() as int);
    let fs8 = fs7.subrange(1, fs7.len() as int);
    let fs9 = fs8.subrange(1, fs8.len() as int);
    let fs10 = fs9.subrange(1, fs9.len() as int);
    let fs11 = fs10.subrange(1, fs10.len() as int);
    let fs12 = fs11.subrange(1, fs11.len() as int);
    let fs13 = fs12.subrange(1, fs12.len() as int);
    let fs14 = fs13.subrange(1, fs13.len() as int);
    let fs15 = fs14.subrange(1, fs14.len() as int);
    let fs16 = fs15.subrange(1, fs15.len() as int);
    let fs17 = fs16.subrange(1, fs16.len() as int);
    let fs18 = fs17.subrange(1, fs17.len() as int);
    let fs19 = fs18.subrange(1, fs18.len() as int);
    let fs20 = fs19.subrange(1, fs19.len() as int);
    let fs21 = fs20.subrange(1, fs20.len() as int);
    let fs22 = fs21.subrange(1, fs21.len() as int);
    let fs23 = fs22.subrange(1, fs22.len() as int);
    let fs24 = fs23.subrange(1, fs23.len() as int);
    let fs25 = fs24.subrange(1, fs24.len() as int);
    let fs26 = fs25.subrange(1, fs25.len() as int);
    assert(fs0[0] == ("print"@, native_fn_view(NativeFn::Print)));
    assert(fs0.len() == 26);
    assert(fs1[0] == ("flush_stdout"@, native_fn_view(NativeFn::FlushStdout)));
    assert(fs1.len() == 25);
    assert(fs2[0] == ("printerr"@, native_fn_view(NativeFn::Printerr)));
    assert(fs2.len() == 24);
    assert(fs3[0] == ("input"@, native_fn_view(NativeFn::Input)));
    assert(fs3.len() == 23);
    assert(fs4[0] == ("fopen"@, native_fn_view(NativeFn::Fopen)));
    assert(fs4.len() == 22);
    assert(fs5[0] == ("fread"@, native_fn_view(NativeFn::Fread)));
    assert(fs5.len() == 21);
    assert(fs6[0] == ("fwrite"@, native_fn_view(NativeFn::Fwrite)));
    assert(fs6.len() == 20);
    assert(fs7[0] == ("fclose"@, native_fn_view(NativeFn::Fclose)));
    assert(fs7.len() == 19);
    assert(fs8[0] == ("parse_int"@, native_fn_view(NativeFn::ParseInt)));
    assert(fs8.len() == 18);
    assert(fs9[0] == ("lf"@, native_fn_view(NativeFn::Lf)));
    assert(fs9.len() == 17);
    assert(fs10[0] == ("cr"@, native_fn_view(NativeFn::Cr)));
    assert(fs10.len() == 16);
    assert(fs11[0] == ("declfunc"@, native_fn_view(NativeFn::Declfunc)));
    assert(fs11.len() == 15);
    assert(fs12[0] == ("set"@, native_fn_view(NativeFn::SetVar)));
    assert(fs12.len() == 14);
    assert(fs13[0] == ("null"@, native_fn_view(NativeFn::Null)));
    assert(fs13.len() == 13);
    assert(fs14[0] == ("if"@, native_fn_view(NativeFn::If)));
    assert(fs14.len() == 12);
    assert(fs15[0] == ("if_else"@, native_fn_view(NativeFn::IfElse)));
    assert(fs15.len() == 11);
    assert(fs16[0] == ("add"@, native_fn_view(NativeFn::Add)));
    assert(fs16.len() == 10);
    assert(fs17[0] == ("subt"@, native_fn_view(NativeFn::Subt)));
    assert(fs17.len() == 9);
    assert(fs18[0] == ("mult"@, native_fn_view(NativeFn::Mult)));
    assert(fs18.len() == 8);
    assert(fs19[0] == ("idiv"@, native_fn_view(NativeFn::Idiv)));
    assert(fs19.len() == 7);
    assert(fs20[0] == ("and"@, native_fn_view(NativeFn::And)));
    assert(fs20.len() == 6);
    assert(fs21[0] == ("or"@, native_fn_view(NativeFn::Or)));
    assert(fs21.len() == 5);
    assert(fs22[0] == ("eq"@, native_fn_view(NativeFn::Eq)));
    assert(fs22.len() == 4);
    assert(fs23[0] == ("neq"@, native_fn_view(NativeFn::Neq)));
    assert(fs23.len() == 3);
    assert(fs24[0] == ("exit"@, native_fn_view(NativeFn::Exit)));
    assert(fs24.len() == 2);
    assert(fs25[0] == ("inspect_scope"@, native_fn_view(NativeFn::InspectScope)));
    assert(fs25.len() == 1);
    assert(fs26.len() == 0);
    assert(assoc_get(fs26, n) is None);
    assert(assoc_get(fs25, n) == (if n == "inspect_scope"@ {
        Some(native_fn_view(NativeFn::InspectScope))
    } else {
        assoc_get(fs26, n)
    }));
    assert(assoc_get(fs24, n) == (if n == "exit"@ {
        Some(native_fn_view(NativeFn::Exit))
    } else {
        assoc_get(fs25, n)
    }));
    assert(assoc_get(fs23, n) == (if n == "neq"@ {
        Some(native_fn_view(NativeFn::Neq))
    } else {
        assoc_get(fs24, n)
    }));
    assert(assoc_get(fs22, n) == (if n == "eq"@ {
        Some(native_fn_view(NativeFn::Eq))
    } else {
        assoc_get(fs23, n)
    }));
    assert(assoc_get(fs21, n) == (if n == "or"@ {
        Some(native_fn_view(NativeFn::Or))
    } else {
        assoc_get(fs22, n)
    }));
    assert(assoc_get(fs20, n) == (if n == "and"@ {
        Some(native_fn_view(NativeFn::And))
    } else {
        assoc_get(fs21, n)
    }));
    assert(assoc_get(fs19, n) == (if n == "idiv"@ {
        Some(native_fn_view(NativeFn::Idiv))
    } else {
        assoc_get(fs20, n)
    }));
    assert(assoc_get(fs18, n) == (if n == "mult"@ {
        Some(native_fn_view(NativeFn::Mult))
    } else {
        assoc_get(fs19, n)
    }));
    assert(assoc_get(fs17, n) == (if n == "subt"@ {
        Some(native_fn_view(NativeFn::Subt))
    } else {
        assoc_get(fs18, n)
    }));
    assert(assoc_get(fs16, n) == (if n == "add"@ {
        Some(native_fn_view(NativeFn::Add))
    } else {
        assoc_get(fs17, n)
    }));
    assert(assoc_get(fs15, n) == (if n == "if_else"@ {
        Some(native_fn_view(NativeFn::IfElse))
    } else {
        assoc_get(fs16, n)
    }));
    assert(assoc_get(fs14, n) == (if n == "if"@ {
        Some(native_fn_view(NativeFn::If))
    } else {
        assoc_get(fs15, n)
    }));
    assert(assoc_get(fs13, n) == (if n == "null"@ {
        Some(native_fn_view(NativeFn::Null))
    } else {
        assoc_get(fs14, n)
    }));
    assert(assoc_get(fs12, n) == (if n == "set"@ {
        Some(native_fn_view(NativeFn::SetVar))
    } else {
        assoc_get(fs13, n)
    }));
    assert(assoc_get(fs11, n) == (if n == "declfunc"@ {
        Some(native_fn_view(NativeFn::Declfunc))
    } else {
        assoc_get(fs12, n)
    }));
    assert(assoc_get(fs10, n) == (if n == "cr"@ {
        Some(native_fn_view(NativeFn::Cr))
    } else {
        assoc_get(fs11, n)
    }));
    assert(assoc_get(fs9, n) == (if n == "lf"@ {
        Some(native_fn_view(NativeFn::Lf))
    } else {
        assoc_get(fs10, n)
    }));
    assert(assoc_get(fs8, n) == (if n == "parse_int"@ {
        Some(native_fn_view(NativeFn::ParseInt))
    } else {
        assoc_get(fs9, n)
    }));
    assert(assoc_get(fs7, n) == (if n == "fclose"@ {
        Some(native_fn_view(NativeFn::Fclose))
    } else {
        assoc_get(fs8, n)
    }));
    assert(assoc_get(fs6, n) == (if n == "fwrite"@ {
        Some(native_fn_view(NativeFn::Fwrite))
    } else {
        assoc_get(fs7, n)
    }));
    assert(assoc_get(fs5, n) == (if n == "fread"@ {
        Some(native_fn_view(NativeFn::Fread))
    } else {
        assoc_get(fs6, n)
    }));
    assert(assoc_get(fs4, n) == (if n == "fopen"@ {
        Some(native_fn_view(NativeFn::Fopen))
    } else {
        assoc_get(fs5, n)
    }));
    assert(assoc_get(fs3, n) == (if n == "input"@ {
        Some(native_fn_view(NativeFn::Input))
    } else {
        assoc_get(fs4, n)
    }));
    assert(assoc_get(fs2, n) == (if n == "printerr"@ {
        Some(native_fn_view(NativeFn::Printerr))
    } else {
        assoc_get(fs3, n)
    }));
    assert(assoc_get(fs1, n) == (if n == "flush_stdout"@ {
        Some(native_fn_view(NativeFn::FlushStdout))
    } else {
        assoc_get(fs2, n)
    }));
    assert(assoc_get(fs0, n) == (if n == "print"@ {
        Some(native_fn_view(NativeFn::Print))
    } else {
        assoc_get(fs1, n)
    }));
    let vs0 = stdlib_frame().vars;
    let vs1 = vs0.subrange(1, vs0.len() as int);
    let vs2 = vs1.subrange(1, vs1.len() as int);
    assert(vs0[0] == ("true"@, VariantView::Int(1)));
    assert(vs1[0] == ("false"@, VariantView::Int(0)));
    assert(vs2.len() == 0);
    assert(assoc_get(vs2, n) is None);
    assert(assoc_get(vs1, n) == (if n == "false"@ {
        Some(VariantView::Int(0))
    } else {
        assoc_get(vs2, n)
    }));
    assert(assoc_get(vs0, n) == (if n == "true"@ {
        Some(VariantView::Int(1))
    } else {
        assoc_get(vs1, n)
    }));
    if n == "print"@ {
        assert(assoc_get(fs0, n) == Some(native_fn_view(NativeFn::Print)));
        assert(stdlib_native(n) == Some(NativeFn::Print));
    } else     if n == "flush_stdout"@ {
        assert(assoc_get(fs0, n) == Some(native_fn_view(NativeFn::FlushStdout)));
        assert(stdlib_native(n) == Some(NativeFn::FlushStdout));
    } else     if n == "printerr"@ {
        assert(assoc_get(fs0, n) == Some(native_fn_view(NativeFn::Printerr)));
        assert(stdlib_native(n) == Some(NativeFn::Printerr));
    } else     if n == "input"@ {
        assert(assoc_get(fs0, n) == Some(native_fn_view(NativeFn::Input)));
        assert(stdlib_native(n) == Some(NativeFn::Input));
    } else     if n == "fopen"@ {
        assert(assoc_get(fs0, n) == Some(native_fn_view(NativeFn::Fopen)));
        assert(stdlib_native(n) == Some(NativeFn::Fopen));
    } else     if n == "fread"@ {
        assert(assoc_get(fs0, n) == Some(native_fn_view(NativeFn::Fread)));
        assert(stdlib_native(n) == Some(NativeFn::Fread));
    } else     if n == "fwrite"@ {
        assert(assoc_get(fs0, n) == Some(native_fn_view(NativeFn::Fwrite)));
        assert(stdlib_native(n) == Some(NativeFn::Fwrite));
    } else     if n == "fclose"@ {
        assert(assoc_get(fs0, n) == Some(native_fn_view(NativeFn::Fclose)));
        assert(stdlib_native(n) == Some(NativeFn::Fclose));
    } else     if n == "parse_int"@ {
        assert(assoc_get(fs0, n) == Some(native_fn_view(NativeFn::ParseInt)));
        assert(stdlib_native(n) == Some(NativeFn::ParseInt));
    } else     if n == "lf"@ {
        assert(assoc_get(fs0, n) == Some(native_fn_view(NativeFn::Lf)));
        assert(stdlib_native(n) == Some(NativeFn::Lf));
    } else     if n == "cr"@ {
        assert(assoc_get(fs0, n) == Some(native_fn_view(NativeFn::Cr)));
        assert(stdlib_native(n) == Some(NativeFn::Cr));
    } else     if n == "declfunc"@ {
        assert(assoc_get(fs0, n) == Some(native_fn_view(NativeFn::Declfunc)));
        assert(stdlib_native(n) == Some(NativeFn::Declfunc));
    } else     if n == "set"@ {
        assert(assoc_get(fs0, n) == Some(native_fn_view(NativeFn::SetVar)));
        assert(stdlib_native(n) == Some(NativeFn::SetVar));
    } else     if n == "null"@ {
        assert(assoc_get(fs0, n) == Some(native_fn_view(NativeFn::Null)));
        assert(stdlib_native(n) == Some(NativeFn::Null));
    } else     if n == "if"@ {
        assert(assoc_get(fs0, n) == Some(native_fn_view(NativeFn::If)));
        assert(stdlib_native(n) == Some(NativeFn::If));
    } else     if n == "if_else"@ {
        assert(assoc_get(fs0, n) == Some(native_fn_view(NativeFn::IfElse)));
        assert(stdlib_native(n) == Some(NativeFn::IfElse));
    } else     if n == "add"@ {
        assert(assoc_get(fs0, n) == Some(native_fn_view(NativeFn::Add)));
        assert(stdlib_native(n) == Some(NativeFn::Add));
    } else     if n == "subt"@ {
        assert(assoc_get(fs0, n) == Some(native_fn_view(NativeFn::Subt)));
        assert(stdlib_native(n) == Some(NativeFn::Subt));
    } else     if n == "mult"@ {
        assert(assoc_get(fs0, n) == Some(native_fn_view(NativeFn::Mult)));
        assert(stdlib_native(n) == Some(NativeFn::Mult));
    } else     if n == "idiv"@ {
        assert(assoc_get(fs0, n) == Some(native_fn_view(NativeFn::Idiv)));
        assert(stdlib_native(n) == Some(NativeFn::Idiv));
    } else     if n == "and"@ {
        assert(assoc_get(fs0, n) == Some(native_fn_view(NativeFn::And)));
        assert(stdlib_native(n) == Some(NativeFn::And));
    } else     if n == "or"@ {
        assert(assoc_get(fs0, n) == Some(native_fn_view(NativeFn::Or)));
        assert(stdlib_native(n) == Some(NativeFn::Or));
    } else     if n == "eq"@ {
        assert(assoc_get(fs0, n) == Some(native_fn_view(NativeFn::Eq)));
        assert(stdlib_native(n) == Some(NativeFn::Eq));
    } else     if n == "neq"@ {
        assert(assoc_get(fs0, n) == Some(native_fn_view(NativeFn::Neq)));
        assert(stdlib_native(n) == Some(NativeFn::Neq));
    } else     if n == "exit"@ {
        assert(assoc_get(fs0, n) == Some(native_fn_view(NativeFn::Exit)));
        assert(stdlib_native(n) == Some(NativeFn::Exit));
    } else     if n == "inspect_scope"@ {
        assert(assoc_get(fs0, n) == Some(native_fn_view(NativeFn::InspectScope)));
        assert(stdlib_native(n) == Some(NativeFn::InspectScope));
    } else {
        assert(assoc_get(fs0, n) is None);
        assert(stdlib_native(n) is None);
    }
    if n == "true"@ {
        assert(assoc_get(vs0, n) == Some(VariantView::Int(1)));
        assert(stdlib_variable(n) == Some(VariantView::Int(1)));
    } else if n == "false"@ {
        assert(assoc_get(vs0, n) == Some(VariantView::Int(0)));
        assert(stdlib_variable(n) == Some(VariantView::Int(0)));
    } else {
        assert(assoc_get(vs0, n) is None);
        assert(stdlib_variable(n) is None);
    }
}

} // verus!
