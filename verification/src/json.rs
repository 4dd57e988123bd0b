//! A verified JSON reader.
//!
//! The device's telemetry pages arrive as JSON text. This module scans that
//! text into a float-free document tree: numbers keep their decimal shape as
//! a sign, mantissa and power-of-ten exponent, so `12.5` is carried exactly
//! as `125 * 10^-1`. The grammar is standard JSON with two stated bounds:
//! string escapes are the simple ones (`\" \\ \/ \b \f \n \r \t`; `\u` is
//! refused), and digit runs longer than 37 digits are refused.

use vstd::prelude::*;

verus! {

/// A JSON number: sign, decimal mantissa and power-of-ten exponent; the
/// value is `(-1)^neg * mant * 10^exp`. `12.5` scans as `125 * 10^-1`.
#[derive(Clone, Copy, PartialEq, Eq, Structural, Debug)]
pub struct Number {
    pub neg: bool,
    pub mant: u64,
    pub exp: i32,
}

/// A decoded JSON document.
pub enum Json {
    Null,
    Bool(bool),
    Num(Number),
    Str(Vec<char>),
    Arr(Vec<Json>),
    Obj(Vec<(Vec<char>, Json)>),
}

/// Mathematical mirror of `Json`, used in specifications.
pub ghost enum JsonV {
    Null,
    Bool(bool),
    Num(Number),
    Str(Seq<char>),
    Arr(Seq<JsonV>),
    Obj(Seq<(Seq<char>, JsonV)>),
}

impl Json {
    /// The mathematical value of this document.
    pub open spec fn dv(self) -> JsonV
        decreases self,
    {
        match self {
            Json::Null => JsonV::Null,
            Json::Bool(b) => JsonV::Bool(b),
            Json::Num(n) => JsonV::Num(n),
            Json::Str(s) => JsonV::Str(s@),
            Json::Arr(items) => JsonV::Arr(dv_arr(items@)),
            Json::Obj(fields) => JsonV::Obj(dv_obj(fields@)),
        }
    }
}

/// The mathematical values of a sequence of documents.
pub open spec fn dv_arr(items: Seq<Json>) -> Seq<JsonV>
    decreases items,
{
    if items.len() == 0 {
        Seq::empty()
    } else {
        seq![items[0].dv()] + dv_arr(items.drop_first())
    }
}

/// The mathematical values of a sequence of object members.
pub open spec fn dv_obj(fields: Seq<(Vec<char>, Json)>) -> Seq<(Seq<char>, JsonV)>
    decreases fields,
{
    if fields.len() == 0 {
        Seq::empty()
    } else {
        seq![(fields[0].0@, fields[0].1.dv())] + dv_obj(fields.drop_first())
    }
}

/// `dv_arr` maps the sequence element by element.
pub proof fn lemma_dv_arr_props(items: Seq<Json>)
    ensures
        dv_arr(items).len() == items.len(),
        forall|k: int| 0 <= k < items.len() ==> dv_arr(items)[k] == items[k].dv(),
    decreases items.len(),
{
    if items.len() > 0 {
        lemma_dv_arr_props(items.drop_first());
    }
}

/// JSON whitespace.
pub open spec fn is_ws(c: char) -> bool {
    c == ' ' || c == '\t' || c == '\n' || c == '\r'
}

/// The first non-whitespace position at or after `i`.
pub open spec fn sp_ws(s: Seq<char>, i: int) -> int
    decreases s.len() - i,
    when 0 <= i <= s.len()
{
    if i < s.len() && is_ws(s[i]) {
        sp_ws(s, i + 1)
    } else {
        i
    }
}

/// An ASCII decimal digit.
pub open spec fn is_digit(c: char) -> bool {
    48 <= c as u32 <= 57
}

/// The value of a decimal digit character.
pub open spec fn digit_val(c: char) -> int {
    c as u32 - 48
}

/// The first non-digit position at or after `i`.
pub open spec fn sp_digits_end(s: Seq<char>, i: int) -> int
    decreases s.len() - i,
    when 0 <= i <= s.len()
{
    if i < s.len() && is_digit(s[i]) {
        sp_digits_end(s, i + 1)
    } else {
        i
    }
}

/// The value of a digit sequence read in base ten, most significant first.
pub open spec fn sp_digits_seq_val(ds: Seq<char>) -> int
    decreases ds.len(),
{
    if ds.len() == 0 {
        0
    } else {
        sp_digits_seq_val(ds.drop_last()) * 10 + digit_val(ds.last())
    }
}

/// Ten to the power `n`.
pub open spec fn pow10(n: nat) -> int
    decreases n,
{
    if n == 0 {
        1
    } else {
        10 * pow10((n - 1) as nat)
    }
}

pub proof fn lemma_pow10_pos(n: nat)
    ensures
        pow10(n) >= 1,
    decreases n,
{
    if n > 0 {
        lemma_pow10_pos((n - 1) as nat);
    }
}

pub proof fn lemma_pow10_mono(a: nat, b: nat)
    requires
        a <= b,
    ensures
        pow10(a) <= pow10(b),
    decreases b,
{
    if a < b {
        lemma_pow10_mono(a, (b - 1) as nat);
        lemma_pow10_pos((b - 1) as nat);
    }
}

pub proof fn lemma_pow10_37()
    ensures
        pow10(37) == 10000000000000000000000000000000000000int,
        pow10(36) == 1000000000000000000000000000000000000int,
        pow10(20) == 100000000000000000000int,
        pow10(19) == 10000000000000000000int,
        pow10(18) == 1000000000000000000int,
{
    reveal_with_fuel(pow10, 40);
}

/// A digit sequence's value lies below ten to its length.
pub proof fn lemma_digits_seq_val_bounds(ds: Seq<char>)
    requires
        forall|k: int| 0 <= k < ds.len() ==> is_digit(ds[k]),
    ensures
        0 <= sp_digits_seq_val(ds) < pow10(ds.len() as nat),
    decreases ds.len(),
{
    if ds.len() > 0 {
        lemma_digits_seq_val_bounds(ds.drop_last());
        assert(is_digit(ds.last()));
    }
}

/// What one string-escape character stands for, if it is accepted.
pub open spec fn sp_escape(c: char) -> Option<char> {
    if c == '"' {
        Some('"')
    } else if c == '\\' {
        Some('\\')
    } else if c == '/' {
        Some('/')
    } else if c == 'n' {
        Some('\n')
    } else if c == 't' {
        Some('\t')
    } else if c == 'r' {
        Some('\r')
    } else if c == 'b' {
        Some('\u{8}')
    } else if c == 'f' {
        Some('\u{c}')
    } else {
        None
    }
}

/// Scans a string body starting just after the opening quote; yields the
/// unescaped contents and the position just after the closing quote.
pub open spec fn sp_string_body(s: Seq<char>, i: int) -> Option<(Seq<char>, int)>
    decreases s.len() - i,
    when 0 <= i <= s.len()
{
    if i >= s.len() {
        None
    } else if s[i] == '"' {
        Some((Seq::empty(), i + 1))
    } else if s[i] == '\\' {
        if i + 1 >= s.len() {
            None
        } else {
            match sp_escape(s[i + 1]) {
                None => None,
                Some(e) => match sp_string_body(s, i + 2) {
                    None => None,
                    Some(p) => Some((seq![e] + p.0, p.1)),
                },
            }
        }
    } else if (s[i] as u32) < 32 {
        None
    } else {
        match sp_string_body(s, i + 1) {
            None => None,
            Some(p) => Some((seq![s[i]] + p.0, p.1)),
        }
    }
}

/// Scans a number starting at `i`: optional minus, an integer digit run,
/// an optional fraction run, an optional exponent. Digit runs longer than
/// 37 digits, mantissas above `u64::MAX` and exponents outside `i32` are
/// refused.
pub open spec fn sp_number(s: Seq<char>, i: int) -> Option<(Number, int)> {
    if !(0 <= i <= s.len()) {
        None
    } else {
        let neg = i < s.len() && s[i] == '-';
        let i1 = if neg {
            i + 1
        } else {
            i
        };
        let int_end = sp_digits_end(s, i1);
        if int_end == i1 {
            None
        } else {
            let has_frac = int_end < s.len() && s[int_end] == '.';
            let frac_end = if has_frac {
                sp_digits_end(s, int_end + 1)
            } else {
                int_end
            };
            if has_frac && frac_end == int_end + 1 {
                None
            } else {
                let frac_digits: int = if has_frac {
                    frac_end - (int_end + 1)
                } else {
                    0
                };
                if (int_end - i1) + frac_digits > 37 {
                    None
                } else {
                    let mant_digits = if has_frac {
                        s.subrange(i1, int_end) + s.subrange(int_end + 1, frac_end)
                    } else {
                        s.subrange(i1, int_end)
                    };
                    let mant_val = sp_digits_seq_val(mant_digits);
                    if mant_val > u64::MAX {
                        None
                    } else {
                        sp_number_exp(s, frac_end, neg, mant_val as u64, frac_digits)
                    }
                }
            }
        }
    }
}

/// The exponent part of a number scan, continuing at `pos1` after the
/// mantissa; `frac_digits` fraction digits have been folded into `mant`.
pub open spec fn sp_number_exp(
    s: Seq<char>,
    pos1: int,
    neg: bool,
    mant: u64,
    frac_digits: int,
) -> Option<(Number, int)> {
    if !(0 <= pos1 <= s.len() && 0 <= frac_digits <= 37) {
        None
    } else {
        let has_exp = pos1 < s.len() && (s[pos1] == 'e' || s[pos1] == 'E');
        if !has_exp {
            Some((Number { neg, mant, exp: (0 - frac_digits) as i32 }, pos1))
        } else {
            let exp_neg = pos1 + 1 < s.len() && s[pos1 + 1] == '-';
            let es = if pos1 + 1 < s.len() && (s[pos1 + 1] == '-' || s[pos1 + 1] == '+') {
                pos1 + 2
            } else {
                pos1 + 1
            };
            let ee = sp_digits_end(s, es);
            if ee == es {
                None
            } else if ee - es > 37 {
                None
            } else {
                let e_val = sp_digits_seq_val(s.subrange(es, ee));
                let exp_total = (if exp_neg {
                    0 - e_val
                } else {
                    e_val
                }) - frac_digits;
                if exp_total < i32::MIN || exp_total > i32::MAX {
                    None
                } else {
                    Some((Number { neg, mant, exp: exp_total as i32 }, ee))
                }
            }
        }
    }
}

/// Scans one JSON value starting exactly at `i` (no leading whitespace).
pub open spec fn sp_value(s: Seq<char>, i: int) -> Option<(JsonV, int)>
    decreases s.len() - i, 0int,
    when 0 <= i <= s.len()
{
    if i >= s.len() {
        None
    } else if s[i] == 'n' {
        if i + 4 <= s.len() && s[i + 1] == 'u' && s[i + 2] == 'l' && s[i + 3] == 'l' {
            Some((JsonV::Null, i + 4))
        } else {
            None
        }
    } else if s[i] == 't' {
        if i + 4 <= s.len() && s[i + 1] == 'r' && s[i + 2] == 'u' && s[i + 3] == 'e' {
            Some((JsonV::Bool(true), i + 4))
        } else {
            None
        }
    } else if s[i] == 'f' {
        if i + 5 <= s.len() && s[i + 1] == 'a' && s[i + 2] == 'l' && s[i + 3] == 's' && s[i + 4]
            == 'e' {
            Some((JsonV::Bool(false), i + 5))
        } else {
            None
        }
    } else if s[i] == '"' {
        match sp_string_body(s, i + 1) {
            None => None,
            Some(p) => if i + 1 <= p.1 <= s.len() {
                Some((JsonV::Str(p.0), p.1))
            } else {
                None
            },
        }
    } else if s[i] == '[' {
        let j = sp_ws(s, i + 1);
        if !(i + 1 <= j <= s.len()) {
            None
        } else if j < s.len() && s[j] == ']' {
            Some((JsonV::Arr(Seq::empty()), j + 1))
        } else {
            match sp_elems(s, j) {
                None => None,
                Some(p) => Some((JsonV::Arr(p.0), p.1)),
            }
        }
    } else if s[i] == '{' {
        let j = sp_ws(s, i + 1);
        if !(i + 1 <= j <= s.len()) {
            None
        } else if j < s.len() && s[j] == '}' {
            Some((JsonV::Obj(Seq::empty()), j + 1))
        } else {
            match sp_members(s, j) {
                None => None,
                Some(p) => Some((JsonV::Obj(p.0), p.1)),
            }
        }
    } else {
        match sp_number(s, i) {
            None => None,
            Some(p) => if i < p.1 <= s.len() {
                Some((JsonV::Num(p.0), p.1))
            } else {
                None
            },
        }
    }
}

/// Scans the elements of a non-empty array, starting at the first value,
/// through the closing bracket.
pub open spec fn sp_elems(s: Seq<char>, i: int) -> Option<(Seq<JsonV>, int)>
    decreases s.len() - i, 1int,
    when 0 <= i <= s.len()
{
    match sp_value(s, i) {
        None => None,
        Some(p) => if !(i < p.1 <= s.len()) {
            None
        } else {
            let j = sp_ws(s, p.1);
            if !(p.1 <= j <= s.len()) {
                None
            } else if j < s.len() && s[j] == ',' {
                let k = sp_ws(s, j + 1);
                if !(j + 1 <= k <= s.len()) {
                    None
                } else {
                    match sp_elems(s, k) {
                        None => None,
                        Some(q) => Some((seq![p.0] + q.0, q.1)),
                    }
                }
            } else if j < s.len() && s[j] == ']' {
                Some((seq![p.0], j + 1))
            } else {
                None
            }
        },
    }
}

/// Scans the members of a non-empty object, starting at the first key,
/// through the closing brace.
pub open spec fn sp_members(s: Seq<char>, i: int) -> Option<(Seq<(Seq<char>, JsonV)>, int)>
    decreases s.len() - i, 1int,
    when 0 <= i <= s.len()
{
    if !(i < s.len() && s[i] == '"') {
        None
    } else {
        match sp_string_body(s, i + 1) {
            None => None,
            Some(kp) => if !(i + 1 <= kp.1 <= s.len()) {
                None
            } else {
                let j = sp_ws(s, kp.1);
                if !(kp.1 <= j <= s.len() && j < s.len() && s[j] == ':') {
                    None
                } else {
                    let k = sp_ws(s, j + 1);
                    if !(j + 1 <= k <= s.len()) {
                        None
                    } else {
                        match sp_value(s, k) {
                            None => None,
                            Some(vp) => if !(k < vp.1 <= s.len()) {
                                None
                            } else {
                                let j2 = sp_ws(s, vp.1);
                                if !(vp.1 <= j2 <= s.len()) {
                                    None
                                } else if j2 < s.len() && s[j2] == ',' {
                                    let k2 = sp_ws(s, j2 + 1);
                                    if !(j2 + 1 <= k2 <= s.len()) {
                                        None
                                    } else {
                                        match sp_members(s, k2) {
                                            None => None,
                                            Some(q) => Some(
                                                (seq![(kp.0, vp.0)] + q.0, q.1),
                                            ),
                                        }
                                    }
                                } else if j2 < s.len() && s[j2] == '}' {
                                    Some((seq![(kp.0, vp.0)], j2 + 1))
                                } else {
                                    None
                                }
                            },
                        }
                    }
                }
            },
        }
    }
}

fn is_ws_c(c: char) -> (r: bool)
    ensures
        r == is_ws(c),
{
    c == ' ' || c == '\t' || c == '\n' || c == '\r'
}

fn is_digit_c(c: char) -> (r: bool)
    ensures
        r == is_digit(c),
{
    let u = c as u32;
    48 <= u && u <= 57
}

/// Advances past JSON whitespace.
fn skip_ws(s: &Vec<char>, i: usize) -> (r: usize)
    requires
        i <= s@.len(),
    ensures
        r as int == sp_ws(s@, i as int),
        i <= r <= s@.len(),
{
    let n = s.len();
    let mut j = i;
    while j < n && is_ws_c(s[j])
        invariant
            i <= j <= n,
            n == s@.len(),
            sp_ws(s@, i as int) == sp_ws(s@, j as int),
        decreases n - j,
    {
        j = j + 1;
    }
    j
}

/// Advances past decimal digits.
fn skip_digits(s: &Vec<char>, i: usize) -> (r: usize)
    requires
        i <= s@.len(),
    ensures
        r as int == sp_digits_end(s@, i as int),
        i <= r <= s@.len(),
        forall|k: int| i <= k < r ==> is_digit(s@[k]),
    decreases s@.len() - i,
{
    let n = s.len();
    let mut j = i;
    while j < n && is_digit_c(s[j])
        invariant
            i <= j <= n,
            n == s@.len(),
            sp_digits_end(s@, i as int) == sp_digits_end(s@, j as int),
            forall|k: int| i <= k < j ==> is_digit(s@[k]),
        decreases n - j,
    {
        j = j + 1;
    }
    j
}

/// Folds the digit run `s[a..b]` onto an accumulator that already holds the
/// value of the digits `ds0`.
fn fold_digits(s: &Vec<char>, a: usize, b: usize, acc0: u128, Ghost(ds0): Ghost<Seq<char>>) -> (r:
    u128)
    requires
        a <= b <= s@.len(),
        forall|k: int| a <= k < b ==> is_digit(s@[k]),
        forall|k: int| 0 <= k < ds0.len() ==> is_digit(ds0[k]),
        acc0 == sp_digits_seq_val(ds0),
        ds0.len() + (b - a) <= 37,
    ensures
        r == sp_digits_seq_val(ds0 + s@.subrange(a as int, b as int)),
{
    let mut acc = acc0;
    let mut j = a;
    proof {
        assert(ds0 + s@.subrange(a as int, a as int) =~= ds0);
    }
    while j < b
        invariant
            a <= j <= b <= s@.len(),
            forall|k: int| a <= k < b ==> is_digit(s@[k]),
            forall|k: int| 0 <= k < ds0.len() ==> is_digit(ds0[k]),
            ds0.len() + (b - a) <= 37,
            acc == sp_digits_seq_val(ds0 + s@.subrange(a as int, j as int)),
        decreases b - j,
    {
        proof {
            let ds = ds0 + s@.subrange(a as int, j as int);
            assert(forall|k: int| 0 <= k < ds.len() ==> is_digit(ds[k]));
            lemma_digits_seq_val_bounds(ds);
            lemma_pow10_mono(ds.len() as nat, 36);
            lemma_pow10_37();
        }
        let d = (s[j] as u32) - 48;
        acc = acc * 10 + (d as u128);
        proof {
            let ds_new = ds0 + s@.subrange(a as int, j + 1 as int);
            assert(ds_new.drop_last() =~= ds0 + s@.subrange(a as int, j as int));
            assert(ds_new.last() == s@[j as int]);
        }
        j = j + 1;
    }
    acc
}

/// Scans a number starting at `i`.
#[verifier::rlimit(60)]
fn parse_number(s: &Vec<char>, i: usize) -> (r: Option<(Number, usize)>)
    requires
        i <= s@.len(),
    ensures
        match r {
            Some(p) => sp_number(s@, i as int) == Some((p.0, p.1 as int)) && i < p.1 <= s@.len(),
            None => sp_number(s@, i as int) is None,
        },
{
    let n = s.len();
    let neg = i < n && s[i] == '-';
    let i1 = if neg {
        i + 1
    } else {
        i
    };
    let int_end = skip_digits(s, i1);
    if int_end == i1 {
        return None;
    }
    let has_frac = int_end < n && s[int_end] == '.';
    let frac_end = if has_frac {
        skip_digits(s, int_end + 1)
    } else {
        int_end
    };
    if has_frac && frac_end == int_end + 1 {
        return None;
    }
    let frac_digits: usize = if has_frac {
        frac_end - (int_end + 1)
    } else {
        0
    };
    let int_digits: usize = int_end - i1;
    proof {
        assert(int_digits + frac_digits <= n);
    }
    if int_digits + frac_digits > 37 {
        return None;
    }
    let ghost ids = s@.subrange(i1 as int, int_end as int);
    let ghost mant_ds = if has_frac {
        ids + s@.subrange(int_end + 1 as int, frac_end as int)
    } else {
        ids
    };
    let acc1 = fold_digits(s, i1, int_end, 0u128, Ghost(Seq::<char>::empty()));
    proof {
        assert(Seq::<char>::empty() + ids =~= ids);
    }
    let mant128 = if has_frac {
        fold_digits(s, int_end + 1, frac_end, acc1, Ghost(ids))
    } else {
        acc1
    };
    proof {
        assert(mant128 == sp_digits_seq_val(mant_ds));
    }
    if mant128 > 0xFFFF_FFFF_FFFF_FFFFu128 {
        return None;
    }
    let mant = mant128 as u64;
    let pos1 = frac_end;
    let has_exp = pos1 < n && (s[pos1] == 'e' || s[pos1] == 'E');
    if !has_exp {
        let ex: i32 = 0 - (frac_digits as i32);
        return Some((Number { neg, mant, exp: ex }, pos1));
    }
    let mut es: usize = pos1 + 1;
    let mut exp_neg = false;
    if pos1 + 1 < n && s[pos1 + 1] == '-' {
        exp_neg = true;
        es = pos1 + 2;
    } else if pos1 + 1 < n && s[pos1 + 1] == '+' {
        es = pos1 + 2;
    }
    let ee = skip_digits(s, es);
    if ee == es {
        return None;
    }
    if ee - es > 37 {
        return None;
    }
    let e128 = fold_digits(s, es, ee, 0u128, Ghost(Seq::<char>::empty()));
    proof {
        assert(Seq::<char>::empty() + s@.subrange(es as int, ee as int) =~= s@.subrange(
            es as int,
            ee as int,
        ));
        lemma_digits_seq_val_bounds(s@.subrange(es as int, ee as int));
        lemma_pow10_mono((ee - es) as nat, 37);
        lemma_pow10_37();
    }
    let e_i: i128 = e128 as i128;
    let exp_total: i128 = (if exp_neg {
        -e_i
    } else {
        e_i
    }) - (frac_digits as i128);
    if exp_total < -2147483648i128 || exp_total > 2147483647i128 {
        return None;
    }
    Some((Number { neg, mant, exp: exp_total as i32 }, ee))
}

/// Scans a string body just after the opening quote.
fn parse_string_body(s: &Vec<char>, i: usize) -> (r: Option<(Vec<char>, usize)>)
    requires
        i <= s@.len(),
    ensures
        match r {
            Some(p) => sp_string_body(s@, i as int) == Some((p.0@, p.1 as int)) && i < p.1
                <= s@.len(),
            None => sp_string_body(s@, i as int) is None,
        },
    decreases s@.len() - i,
{
    let n = s.len();
    if i >= n {
        return None;
    }
    let c = s[i];
    if c == '"' {
        let v: Vec<char> = Vec::new();
        proof {
            assert(v@ =~= Seq::<char>::empty());
        }
        return Some((v, i + 1));
    }
    if c == '\\' {
        if i + 1 >= n {
            return None;
        }
        let e = s[i + 1];
        let ec: char;
        if e == '"' {
            ec = '"';
        } else if e == '\\' {
            ec = '\\';
        } else if e == '/' {
            ec = '/';
        } else if e == 'n' {
            ec = '\n';
        } else if e == 't' {
            ec = '\t';
        } else if e == 'r' {
            ec = '\r';
        } else if e == 'b' {
            ec = '\u{8}';
        } else if e == 'f' {
            ec = '\u{c}';
        } else {
            return None;
        }
        match parse_string_body(s, i + 2) {
            None => return None,
            Some(p) => {
                let mut v: Vec<char> = Vec::new();
                v.push(ec);
                let mut rest = p.0;
                v.append(&mut rest);
                proof {
                    assert(v@ =~= seq![ec] + sp_string_body(s@, i + 2 as int)->Some_0.0);
                }
                return Some((v, p.1));
            },
        }
    }
    if (c as u32) < 32 {
        return None;
    }
    match parse_string_body(s, i + 1) {
        None => None,
        Some(p) => {
            let mut v: Vec<char> = Vec::new();
            v.push(c);
            let mut rest = p.0;
            v.append(&mut rest);
            proof {
                assert(v@ =~= seq![c] + sp_string_body(s@, i + 1 as int)->Some_0.0);
            }
            Some((v, p.1))
        },
    }
}

/// Scans one JSON value starting exactly at `i`.
fn parse_value(s: &Vec<char>, i: usize) -> (r: Option<(Json, usize)>)
    requires
        i <= s@.len(),
    ensures
        match r {
            Some(p) => sp_value(s@, i as int) == Some((p.0.dv(), p.1 as int)) && i < p.1
                <= s@.len(),
            None => sp_value(s@, i as int) is None,
        },
    decreases s@.len() - i, 0int,
{
    let n = s.len();
    if i >= n {
        return None;
    }
    let c = s[i];
    if c == 'n' {
        if n - i >= 4 && s[i + 1] == 'u' && s[i + 2] == 'l' && s[i + 3] == 'l' {
            return Some((Json::Null, i + 4));
        }
        return None;
    }
    if c == 't' {
        if n - i >= 4 && s[i + 1] == 'r' && s[i + 2] == 'u' && s[i + 3] == 'e' {
            return Some((Json::Bool(true), i + 4));
        }
        return None;
    }
    if c == 'f' {
        if n - i >= 5 && s[i + 1] == 'a' && s[i + 2] == 'l' && s[i + 3] == 's' && s[i + 4] == 'e' {
            return Some((Json::Bool(false), i + 5));
        }
        return None;
    }
    if c == '"' {
        match parse_string_body(s, i + 1) {
            None => return None,
            Some(p) => {
                return Some((Json::Str(p.0), p.1));
            },
        }
    }
    if c == '[' {
        let j = skip_ws(s, i + 1);
        if j < n && s[j] == ']' {
            let v: Vec<Json> = Vec::new();
            proof {
                assert(dv_arr(v@) =~= Seq::<JsonV>::empty());
            }
            return Some((Json::Arr(v), j + 1));
        }
        match parse_elems(s, j) {
            None => return None,
            Some(p) => {
                return Some((Json::Arr(p.0), p.1));
            },
        }
    }
    if c == '{' {
        let j = skip_ws(s, i + 1);
        if j < n && s[j] == '}' {
            let v: Vec<(Vec<char>, Json)> = Vec::new();
            proof {
                assert(dv_obj(v@) =~= Seq::<(Seq<char>, JsonV)>::empty());
            }
            return Some((Json::Obj(v), j + 1));
        }
        match parse_members(s, j) {
            None => return None,
            Some(p) => {
                return Some((Json::Obj(p.0), p.1));
            },
        }
    }
    match parse_number(s, i) {
        None => None,
        Some(p) => Some((Json::Num(p.0), p.1)),
    }
}

/// Scans the elements of a non-empty array through the closing bracket.
fn parse_elems(s: &Vec<char>, i: usize) -> (r: Option<(Vec<Json>, usize)>)
    requires
        i <= s@.len(),
    ensures
        match r {
            Some(p) => sp_elems(s@, i as int) == Some((dv_arr(p.0@), p.1 as int)) && i < p.1
                <= s@.len(),
            None => sp_elems(s@, i as int) is None,
        },
    decreases s@.len() - i, 1int,
{
    let n = s.len();
    match parse_value(s, i) {
        None => return None,
        Some(vp) => {
            let (v, pos) = vp;
            let j = skip_ws(s, pos);
            if j < n && s[j] == ',' {
                let k = skip_ws(s, j + 1);
                match parse_elems(s, k) {
                    None => return None,
                    Some(q) => {
                        let (rest, m) = q;
                        let ghost restv = rest@;
                        let mut vs: Vec<Json> = Vec::new();
                        vs.push(v);
                        let mut rest2 = rest;
                        vs.append(&mut rest2);
                        proof {
                            assert(vs@.drop_first() =~= restv);
                            assert(dv_arr(vs@) == seq![v.dv()] + dv_arr(restv));
                        }
                        return Some((vs, m));
                    },
                }
            }
            if j < n && s[j] == ']' {
                let mut vs: Vec<Json> = Vec::new();
                vs.push(v);
                proof {
                    assert(vs@.drop_first() =~= Seq::<Json>::empty());
                    assert(vs@[0] == v);
                    assert(dv_arr(vs@) == seq![v.dv()] + dv_arr(vs@.drop_first()));
                    assert(seq![v.dv()] + Seq::<JsonV>::empty() =~= seq![v.dv()]);
                }
                return Some((vs, j + 1));
            }
            None
        },
    }
}

/// Scans the members of a non-empty object through the closing brace.
fn parse_members(s: &Vec<char>, i: usize) -> (r: Option<(Vec<(Vec<char>, Json)>, usize)>)
    requires
        i <= s@.len(),
    ensures
        match r {
            Some(p) => sp_members(s@, i as int) == Some((dv_obj(p.0@), p.1 as int)) && i < p.1
                <= s@.len(),
            None => sp_members(s@, i as int) is None,
        },
    decreases s@.len() - i, 1int,
{
    let n = s.len();
    if !(i < n && s[i] == '"') {
        return None;
    }
    match parse_string_body(s, i + 1) {
        None => return None,
        Some(kp) => {
            let (key, kpos) = kp;
            let j = skip_ws(s, kpos);
            if !(j < n && s[j] == ':') {
                return None;
            }
            let k = skip_ws(s, j + 1);
            match parse_value(s, k) {
                None => return None,
                Some(vp) => {
                    let (v, vpos) = vp;
                    let j2 = skip_ws(s, vpos);
                    if j2 < n && s[j2] == ',' {
                        let k2 = skip_ws(s, j2 + 1);
                        match parse_members(s, k2) {
                            None => return None,
                            Some(q) => {
                                let (rest, m) = q;
                                let ghost restv = rest@;
                                let mut vs: Vec<(Vec<char>, Json)> = Vec::new();
                                vs.push((key, v));
                                let mut rest2 = rest;
                                vs.append(&mut rest2);
                                proof {
                                    assert(vs@.drop_first() =~= restv);
                                    assert(dv_obj(vs@) == seq![(vs@[0].0@, vs@[0].1.dv())]
                                        + dv_obj(restv));
                                }
                                return Some((vs, m));
                            },
                        }
                    }
                    if j2 < n && s[j2] == '}' {
                        let mut vs: Vec<(Vec<char>, Json)> = Vec::new();
                        vs.push((key, v));
                        proof {
                            assert(vs@.drop_first() =~= Seq::<(Vec<char>, Json)>::empty());
                            assert(dv_obj(vs@) == seq![(vs@[0].0@, vs@[0].1.dv())] + dv_obj(
                                vs@.drop_first(),
                            ));
                            assert(seq![(vs@[0].0@, vs@[0].1.dv())] + Seq::<
                                (Seq<char>, JsonV),
                            >::empty() =~= seq![(vs@[0].0@, vs@[0].1.dv())]);
                        }
                        return Some((vs, j2 + 1));
                    }
                    None
                },
            }
        },
    }
}

/// Scans a whole document: one value, surrounded by whitespace only.
pub open spec fn sp_json(s: Seq<char>) -> Option<JsonV> {
    let i = sp_ws(s, 0);
    if !(0 <= i <= s.len()) {
        None
    } else {
        match sp_value(s, i) {
            None => None,
            Some(p) => if !(i < p.1 <= s.len()) {
                None
            } else {
                if sp_ws(s, p.1) == s.len() {
                    Some(p.0)
                } else {
                    None
                }
            },
        }
    }
}

/// The first value bound to `key` among an object's members, if any.
pub open spec fn sp_lookup(fields: Seq<(Seq<char>, JsonV)>, key: Seq<char>) -> Option<JsonV>
    decreases fields.len(),
{
    if fields.len() == 0 {
        None
    } else if fields[0].0 == key {
        Some(fields[0].1)
    } else {
        sp_lookup(fields.drop_first(), key)
    }
}

/// Finds the first member named `key` in an object's member list.
pub fn lookup<'a>(fields: &'a Vec<(Vec<char>, Json)>, key: &str) -> (r: Option<&'a Json>)
    ensures
        match r {
            Some(v) => sp_lookup(dv_obj(fields@), key@) == Some(v.dv()),
            None => sp_lookup(dv_obj(fields@), key@) is None,
        },
{
    let n = fields.len();
    proof {
        assert(fields@.skip(0) =~= fields@);
    }
    let mut idx: usize = 0;
    while idx < n
        invariant
            idx <= n,
            n == fields@.len(),
            sp_lookup(dv_obj(fields@), key@) == sp_lookup(
                dv_obj(fields@.skip(idx as int)),
                key@,
            ),
        decreases n - idx,
    {
        proof {
            let tail = fields@.skip(idx as int);
            assert(tail[0] == fields@[idx as int]);
            assert(tail.drop_first() =~= fields@.skip(idx as int + 1));
            assert(dv_obj(tail) == seq![(tail[0].0@, tail[0].1.dv())] + dv_obj(
                tail.drop_first(),
            ));
            assert(dv_obj(tail).drop_first() =~= dv_obj(tail.drop_first()));
        }
        let hit = crate::text::chars_eq_str(&fields[idx].0, key);
        if hit {
            return Some(&fields[idx].1);
        }
        idx = idx + 1;
    }
    proof {
        assert(fields@.skip(n as int) =~= Seq::<(Vec<char>, Json)>::empty());
    }
    None
}

/// Permissive numeric reading: a number stands as itself; a string whose
/// whole text scans as a JSON number stands for that number; anything else
/// is refused.
pub open spec fn sp_as_num(v: JsonV) -> Option<Number> {
    match v {
        JsonV::Num(m) => Some(m),
        JsonV::Str(t) => match sp_number(t, 0) {
            Some(p) => if p.1 == t.len() {
                Some(p.0)
            } else {
                None
            },
            None => None,
        },
        _ => None,
    }
}

/// Reads a field that may arrive as a native number or as a numeric string.
pub fn as_num(v: &Json) -> (r: Option<Number>)
    ensures
        r == sp_as_num(v.dv()),
{
    match v {
        Json::Num(m) => Some(*m),
        Json::Str(t) => match parse_number(t, 0) {
            Some(p) => if p.1 == t.len() {
                Some(p.0)
            } else {
                None
            },
            None => None,
        },
        _ => None,
    }
}

/// The exact `u64` value of a number, if it has one: the mantissa scaled by
/// the exponent must be a non-negative integer in range (a zero mantissa is
/// zero whatever the sign and exponent).
pub open spec fn sp_num_u64(m: Number) -> Option<u64> {
    if m.mant == 0 {
        Some(0u64)
    } else if m.neg {
        None
    } else if m.exp >= 0 {
        let v = m.mant * pow10(m.exp as nat);
        if v <= u64::MAX {
            Some(v as u64)
        } else {
            None
        }
    } else {
        let p = pow10((-m.exp) as nat);
        if m.mant as int % p == 0 {
            Some((m.mant as int / p) as u64)
        } else {
            None
        }
    }
}

fn pow10_u128(e: u32) -> (r: u128)
    requires
        e <= 19,
    ensures
        r == pow10(e as nat),
{
    let mut p: u128 = 1;
    let mut k: u32 = 0;
    while k < e
        invariant
            k <= e <= 19,
            p == pow10(k as nat),
        decreases e - k,
    {
        proof {
            lemma_pow10_mono(k as nat, 18);
            lemma_pow10_37();
        }
        p = p * 10;
        k = k + 1;
    }
    p
}

/// The `u64` value of a scanned number, if it denotes one.
pub fn num_u64(m: &Number) -> (r: Option<u64>)
    ensures
        r == sp_num_u64(*m),
{
    if m.mant == 0 {
        return Some(0);
    }
    if m.neg {
        return None;
    }
    if m.exp >= 0 {
        let e = m.exp as u32;
        if e > 19 {
            proof {
                lemma_pow10_mono(20, e as nat);
                lemma_pow10_37();
                assert(m.mant * pow10(e as nat) >= pow10(e as nat)) by (nonlinear_arith)
                    requires
                        m.mant >= 1,
                        pow10(e as nat) >= 1,
                ;
            }
            return None;
        }
        let p = pow10_u128(e);
        proof {
            lemma_pow10_mono(e as nat, 19);
            lemma_pow10_pos(e as nat);
            lemma_pow10_37();
            assert((m.mant as u128) * p <= 0xFFFF_FFFF_FFFF_FFFFu128
                * 10000000000000000000u128) by (nonlinear_arith)
                requires
                    0 <= m.mant as u128 <= 0xFFFF_FFFF_FFFF_FFFFu128,
                    0 <= p <= 10000000000000000000u128,
            ;
        }
        let v = (m.mant as u128) * p;
        if v > 0xFFFF_FFFF_FFFF_FFFFu128 {
            None
        } else {
            Some(v as u64)
        }
    } else {
        let me: i64 = -(m.exp as i64);
        if me > 19 {
            proof {
                lemma_pow10_mono(20, me as nat);
                lemma_pow10_37();
                assert(m.mant as int % pow10(me as nat) == m.mant as int) by {
                    vstd::arithmetic::div_mod::lemma_small_mod(
                        m.mant as nat,
                        pow10(me as nat) as nat,
                    );
                }
            }
            return None;
        }
        let p = pow10_u128(me as u32);
        proof {
            lemma_pow10_pos(me as nat);
        }
        let v = m.mant as u128;
        if v % p == 0 {
            Some((v / p) as u64)
        } else {
            None
        }
    }
}

/// Permissive `u64` reading: a native number or a numeric string whose value
/// is a non-negative integer in range.
pub open spec fn sp_coerce_u64(v: JsonV) -> Option<u64> {
    match sp_as_num(v) {
        Some(m) => sp_num_u64(m),
        None => None,
    }
}

/// Reads an integer field that may arrive as a number or a numeric string.
pub fn coerce_u64(v: &Json) -> (r: Option<u64>)
    ensures
        r == sp_coerce_u64(v.dv()),
{
    match as_num(v) {
        Some(m) => num_u64(&m),
        None => None,
    }
}

/// A native integer field: a JSON number written without fraction or
/// exponent digits (a zero mantissa passes whatever its sign).
pub open spec fn sp_strict_u64(v: JsonV) -> Option<u64> {
    match v {
        JsonV::Num(m) => if m.exp == 0 && (!m.neg || m.mant == 0) {
            Some(m.mant)
        } else {
            None
        },
        _ => None,
    }
}

/// Reads an integer field that must arrive as a native JSON integer.
pub fn strict_u64(v: &Json) -> (r: Option<u64>)
    ensures
        r == sp_strict_u64(v.dv()),
{
    match v {
        Json::Num(m) => if m.exp == 0 && (!m.neg || m.mant == 0) {
            Some(m.mant)
        } else {
            None
        },
        _ => None,
    }
}

/// Reads a whole JSON document out of a string.
pub fn parse_json(text: &str) -> (r: Option<Json>)
    ensures
        match r {
            Some(v) => sp_json(text@) == Some(v.dv()),
            None => sp_json(text@) is None,
        },
{
    let cs = crate::text::chars_vec(text);
    let i = skip_ws(&cs, 0);
    match parse_value(&cs, i) {
        None => None,
        Some(p) => {
            let j = skip_ws(&cs, p.1);
            if j == cs.len() {
                Some(p.0)
            } else {
                None
            }
        },
    }
}

} // verus!
