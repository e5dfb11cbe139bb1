//! Decimal rendering and parsing of integers, with exact specifications:
//! `dec_digits` gives the decimal digit sequence of a natural number, and
//! `spec_parse_i64` the meaning of parsing a signed 64-bit integer from text.

use vstd::prelude::*;
use crate::text::{chars_to_string, str_to_chars};

verus! {

pub open spec fn is_digit(c: char) -> bool {
    48 <= c as int <= 57
}

pub open spec fn char_digit(c: char) -> int {
    c as int - 48
}

pub open spec fn digit_char(d: int) -> char {
    if d == 0 {
        '0'
    } else if d == 1 {
        '1'
    } else if d == 2 {
        '2'
    } else if d == 3 {
        '3'
    } else if d == 4 {
        '4'
    } else if d == 5 {
        '5'
    } else if d == 6 {
        '6'
    } else if d == 7 {
        '7'
    } else if d == 8 {
        '8'
    } else {
        '9'
    }
}

/// The decimal digits of `n`, most significant first.
pub open spec fn dec_digits(n: nat) -> Seq<char>
    decreases n,
{
    if n < 10 {
        seq![digit_char(n as int)]
    } else {
        dec_digits(n / 10).push(digit_char((n % 10) as int))
    }
}

/// The decimal rendering of a signed number: a minus sign followed by the
/// digits of its magnitude, or just the digits.
pub open spec fn i64_dec(n: int) -> Seq<char> {
    if n < 0 {
        seq!['-'] + dec_digits((-n) as nat)
    } else {
        dec_digits(n as nat)
    }
}

pub open spec fn all_digits(s: Seq<char>) -> bool {
    forall|i: int| 0 <= i < s.len() ==> is_digit(#[trigger] s[i])
}

/// The value of a digit sequence read in base ten.
pub open spec fn digits_val(s: Seq<char>) -> int
    decreases s.len(),
{
    if s.len() == 0 {
        0
    } else {
        digits_val(s.drop_last()) * 10 + char_digit(s.last())
    }
}

/// What `str::parse::<i64>` accepts: an optional sign followed by at least
/// one digit, with the value in range for `i64`.
pub open spec fn spec_parse_i64(s: Seq<char>) -> Option<i64> {
    let neg = s.len() > 0 && s[0] == '-';
    let signed = s.len() > 0 && (s[0] == '-' || s[0] == '+');
    let ds = if signed {
        s.drop_first()
    } else {
        s
    };
    if ds.len() == 0 || !all_digits(ds) {
        None
    } else {
        let v = digits_val(ds);
        if neg {
            if v <= 0x8000_0000_0000_0000 {
                Some((-v) as i64)
            } else {
                None
            }
        } else {
            if v <= i64::MAX as int {
                Some(v as i64)
            } else {
                None
            }
        }
    }
}

pub open spec fn rev_seq<A>(s: Seq<A>) -> Seq<A> {
    Seq::new(s.len(), |k: int| s[s.len() - 1 - k])
}

proof fn lemma_rev_push<A>(s: Seq<A>, c: A)
    ensures
        rev_seq(s.push(c)) =~= seq![c] + rev_seq(s),
{
}

proof fn lemma_digits_val_nonneg(s: Seq<char>)
    requires
        all_digits(s),
    ensures
        digits_val(s) >= 0,
    decreases s.len(),
{
    if s.len() > 0 {
        assert(all_digits(s.drop_last())) by {
            assert(forall|i: int|
                0 <= i < s.len() - 1 ==> #[trigger] s.drop_last()[i] == s[i]);
        }
        lemma_digits_val_nonneg(s.drop_last());
        assert(digits_val(s.drop_last()) * 10 >= 0) by (nonlinear_arith)
            requires
                digits_val(s.drop_last()) >= 0,
        ;
    }
}

fn digit_to_char(d: u64) -> (c: char)
    requires
        d < 10,
    ensures
        c == digit_char(d as int),
{
    if d == 0 {
        '0'
    } else if d == 1 {
        '1'
    } else if d == 2 {
        '2'
    } else if d == 3 {
        '3'
    } else if d == 4 {
        '4'
    } else if d == 5 {
        '5'
    } else if d == 6 {
        '6'
    } else if d == 7 {
        '7'
    } else if d == 8 {
        '8'
    } else {
        '9'
    }
}

/// The decimal rendering of an unsigned number.
#[verifier::loop_isolation(false)]
pub fn u64_to_string(n: u64) -> (r: String)
    ensures
        r@ == dec_digits(n as nat),
{
    let mut digits: Vec<char> = Vec::new();
    let mut m: u64 = n;
    digits.push(digit_to_char(m % 10));
    proof {
        lemma_rev_push(Seq::<char>::empty(), digit_char((n % 10) as int));
    }
    m = m / 10;
    while m > 0
        invariant
            dec_digits(n as nat) == if m > 0 {
                dec_digits(m as nat) + rev_seq(digits@)
            } else {
                rev_seq(digits@)
            },
            digits@.len() >= 1,
        decreases m,
    {
        let d = m % 10;
        proof {
            lemma_rev_push(digits@, digit_char(d as int));
            if m >= 10 {
                assert(dec_digits(m as nat) == dec_digits((m / 10) as nat).push(
                    digit_char((m % 10) as int),
                ));
                assert(dec_digits((m / 10) as nat).push(digit_char(d as int)) + rev_seq(digits@)
                    =~= dec_digits((m / 10) as nat) + rev_seq(digits@.push(digit_char(d as int))));
            } else {
                assert(dec_digits(m as nat) =~= seq![digit_char(d as int)]);
                assert(seq![digit_char(d as int)] + rev_seq(digits@) =~= rev_seq(
                    digits@.push(digit_char(d as int)),
                ));
            }
        }
        digits.push(digit_to_char(d));
        m = m / 10;
    }
    let ghost target = dec_digits(n as nat);
    let mut out: Vec<char> = Vec::new();
    let mut i: usize = digits.len();
    while i > 0
        invariant
            i <= digits@.len(),
            target == rev_seq(digits@),
            out@ =~= target.subrange(0, digits@.len() - i),
        decreases i,
    {
        out.push(digits[i - 1]);
        proof {
            assert(target[digits@.len() - i] == digits@[i - 1]);
            assert(out@ =~= target.subrange(0, digits@.len() - (i - 1)));
        }
        i = i - 1;
    }
    proof {
        assert(target.subrange(0, target.len() as int) =~= target);
    }
    chars_to_string(&out)
}

/// The decimal rendering of a signed number.
pub fn i64_to_string(n: i64) -> (r: String)
    ensures
        r@ == i64_dec(n as int),
{
    if n >= 0 {
        u64_to_string(n as u64)
    } else {
        let m: u64 = ((-(n + 1)) as u64) + 1;
        proof {
            assert(m as int == -(n as int));
        }
        let digits = u64_to_string(m);
        let mut out = String::new();
        out.push('-');
        let r = out.concat(digits.as_str());
        proof {
            assert(r@ =~= seq!['-'] + dec_digits((-(n as int)) as nat));
        }
        r
    }
}

pub fn u32_to_string(n: u32) -> (r: String)
    ensures
        r@ == dec_digits(n as nat),
{
    u64_to_string(n as u64)
}

pub fn usize_to_string(n: usize) -> (r: String)
    ensures
        r@ == dec_digits(n as nat),
{
    u64_to_string(n as u64)
}

fn exec_is_digit(c: char) -> (r: bool)
    ensures
        r == is_digit(c),
{
    let u = c as u32;
    48 <= u && u <= 57
}

proof fn lemma_digits_val_step(ds: Seq<char>, j: int)
    requires
        0 <= j < ds.len(),
    ensures
        digits_val(ds.subrange(0, j + 1)) == digits_val(ds.subrange(0, j)) * 10 + char_digit(
            ds[j],
        ),
{
    let p = ds.subrange(0, j + 1);
    assert(p.drop_last() =~= ds.subrange(0, j));
    assert(p.last() == ds[j]);
}

proof fn lemma_digits_val_grows(ds: Seq<char>, j: int, bound: int)
    requires
        0 <= j <= ds.len(),
        all_digits(ds),
        digits_val(ds.subrange(0, j)) > bound,
        bound >= 0,
    ensures
        digits_val(ds) > bound,
    decreases ds.len() - j,
{
    if j < ds.len() {
        lemma_digits_val_step(ds, j);
        let v = digits_val(ds.subrange(0, j));
        assert(v * 10 >= v) by (nonlinear_arith)
            requires
                v >= 0,
        ;
        assert(is_digit(ds[j]));
        lemma_digits_val_grows(ds, j + 1, bound);
    } else {
        assert(ds.subrange(0, j) =~= ds);
    }
}

/// Parses a signed 64-bit integer from text, exactly as `spec_parse_i64`
/// describes: an optional sign, then digits, rejecting overflow.
#[verifier::loop_isolation(false)]
pub fn parse_i64(s: &str) -> (r: Option<i64>)
    ensures
        r == spec_parse_i64(s@),
{
    let chars = str_to_chars(s);
    let n = chars.len();
    let ghost signed = s@.len() > 0 && (s@[0] == '-' || s@[0] == '+');
    let mut start: usize = 0;
    let mut neg = false;
    if n > 0 && (chars[0] == '-' || chars[0] == '+') {
        start = 1;
        neg = chars[0] == '-';
    }
    let ghost ds = if signed {
        s@.drop_first()
    } else {
        s@
    };
    proof {
        assert(ds =~= s@.subrange(start as int, n as int));
    }
    if start >= n {
        return None;
    }
    let bound: u64 = 0x8000_0000_0000_0000;
    let mut acc: u64 = 0;
    let mut big = false;
    let mut i: usize = start;
    while i < n
        invariant
            start <= i <= n,
            n == chars@.len(),
            ds =~= chars@.subrange(start as int, n as int),
            all_digits(ds.subrange(0, i - start)),
            !big ==> acc <= bound && acc as int == digits_val(ds.subrange(0, i - start)),
            big ==> digits_val(ds.subrange(0, i - start)) > bound as int,
        decreases n - i,
    {
        let c = chars[i];
        let ghost j = i - start;
        proof {
            assert(ds[j] == c);
        }
        if !exec_is_digit(c) {
            return None;
        }
        let d: u64 = ((c as u32) - 48) as u64;
        proof {
            assert(d as int == char_digit(c));
            assert(all_digits(ds.subrange(0, j + 1))) by {
                assert(forall|k: int|
                    0 <= k < j + 1 ==> #[trigger] ds.subrange(0, j + 1)[k] == ds.subrange(
                        0,
                        j,
                    ).push(ds[j])[k]);
                assert(ds.subrange(0, j + 1) =~= ds.subrange(0, j).push(ds[j]));
            }
            lemma_digits_val_step(ds, j);
        }
        if big {
            proof {
                let v = digits_val(ds.subrange(0, j));
                assert(v * 10 >= v) by (nonlinear_arith)
                    requires
                        v >= 0,
                ;
                assert(v >= 0) by {
                    lemma_digits_val_nonneg(ds.subrange(0, j));
                }
            }
        } else {
            let wide: u128 = (acc as u128) * 10 + (d as u128);
            proof {
                assert((acc as u128) * 10 == (acc as int) * 10) by (nonlinear_arith)
                    requires
                        acc <= 0x8000_0000_0000_0000u64,
                ;
            }
            if wide > bound as u128 {
                big = true;
            } else {
                acc = wide as u64;
            }
        }
        i = i + 1;
    }
    proof {
        assert(ds.subrange(0, n - start) =~= ds);
        if big {
            lemma_digits_val_nonneg(ds);
        }
    }
    if big {
        return None;
    }
    if neg {
        if acc == bound {
            Some(i64::MIN)
        } else {
            Some(-(acc as i64))
        }
    } else {
        if acc <= i64::MAX as u64 {
            Some(acc as i64)
        } else {
            None
        }
    }
}

} // verus!
