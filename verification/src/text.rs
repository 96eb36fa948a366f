//! Plain-text coercions used by the record decoder: decimal integers and
//! booleans as they are stored by the string-valued key-value layer.
use vstd::arithmetic::div_mod::lemma_fundamental_div_mod;
use vstd::prelude::*;
use vstd::string::StrSliceExecFns;

verus! {

/// A decimal digit, `'0'` through `'9'`.
pub open spec fn is_dec_digit(c: char) -> bool {
    48 <= c as u32 && c as u32 <= 57
}

/// The numeric value of a decimal digit.
pub open spec fn digit_val(c: char) -> nat
    recommends
        is_dec_digit(c),
{
    (c as u32 - 48) as nat
}

pub open spec fn all_dec_digits(s: Seq<char>) -> bool {
    forall|i: int| 0 <= i < s.len() ==> is_dec_digit(#[trigger] s[i])
}

/// The number denoted by a digit string, most significant digit first.
pub open spec fn dec_val(s: Seq<char>) -> nat
    decreases s.len(),
{
    if s.len() == 0 {
        0
    } else {
        dec_val(s.drop_last()) * 10 + digit_val(s.last())
    }
}

/// What a stored text coerces to as an unsigned 128-bit integer: a non-empty
/// all-digit string whose value fits; anything else is malformed.
pub open spec fn parse_u128_spec(s: Seq<char>) -> Option<u128> {
    if s.len() == 0 || !all_dec_digits(s) {
        None
    } else if dec_val(s) <= u128::MAX {
        Some(dec_val(s) as u128)
    } else {
        None
    }
}

/// What a stored text coerces to as a `usize`.
pub open spec fn parse_usize_spec(s: Seq<char>) -> Option<usize> {
    if s.len() == 0 || !all_dec_digits(s) {
        None
    } else if dec_val(s) <= usize::MAX {
        Some(dec_val(s) as usize)
    } else {
        None
    }
}

/// What a stored text coerces to as a boolean: exactly `"true"` or `"false"`.
pub open spec fn parse_bool_spec(s: Seq<char>) -> Option<bool> {
    if s == "true"@ {
        Some(true)
    } else if s == "false"@ {
        Some(false)
    } else {
        None
    }
}

pub proof fn lemma_dec_val_take_step(s: Seq<char>, i: int)
    requires
        0 <= i < s.len(),
    ensures
        dec_val(s.take(i + 1)) == dec_val(s.take(i)) * 10 + digit_val(s[i]),
{
    assert(s.take(i + 1).drop_last() =~= s.take(i));
    assert(s.take(i + 1).last() == s[i]);
}

pub proof fn lemma_dec_val_take_le(s: Seq<char>, i: int)
    requires
        0 <= i <= s.len(),
    ensures
        dec_val(s.take(i)) <= dec_val(s),
    decreases s.len() - i,
{
    if i == s.len() {
        assert(s.take(i) =~= s);
    } else {
        lemma_dec_val_take_step(s, i);
        lemma_dec_val_take_le(s, i + 1);
    }
}

/// Character-by-character string equality, proved equivalent to view equality.
pub fn str_eq(a: &str, b: &str) -> (r: bool)
    ensures
        r == (a@ == b@),
{
    let alen = a.unicode_len();
    let blen = b.unicode_len();
    if alen != blen {
        return false;
    }
    let mut i: usize = 0;
    while i < alen
        invariant
            alen == a@.len(),
            blen == b@.len(),
            alen == blen,
            0 <= i <= alen,
            forall|j: int| 0 <= j < i ==> a@[j] == b@[j],
        decreases alen - i,
    {
        if a.get_char(i) != b.get_char(i) {
            return false;
        }
        i += 1;
    }
    proof {
        assert(a@ =~= b@);
    }
    true
}

/// Decimal coercion of a stored text to `u128`, per `parse_u128_spec`.
pub fn parse_u128(s: &str) -> (r: Option<u128>)
    ensures
        r == parse_u128_spec(s@),
{
    let n = s.unicode_len();
    if n == 0 {
        return None;
    }
    let mut acc: u128 = 0;
    let mut i: usize = 0;
    while i < n
        invariant
            n == s@.len(),
            0 <= i <= n,
            all_dec_digits(s@.take(i as int)),
            acc == dec_val(s@.take(i as int)),
        decreases n - i,
    {
        let c = s.get_char(i);
        let cv = c as u32;
        if cv < 48 || cv > 57 {
            proof {
                assert(!is_dec_digit(s@[i as int]));
            }
            return None;
        }
        let d: u128 = (cv - 48) as u128;
        if acc > (u128::MAX - d) / 10 {
            proof {
                lemma_dec_val_take_step(s@, i as int);
                let ghost m = (u128::MAX - d) as int;
                lemma_fundamental_div_mod(m, 10);
                assert(acc * 10 + d > u128::MAX) by {
                    assert(acc >= m / 10 + 1);
                    assert(m == 10 * (m / 10) + m % 10);
                    assert(m % 10 <= 9);
                    assert(acc * 10 >= (m / 10 + 1) * 10) by (nonlinear_arith)
                        requires
                            acc >= m / 10 + 1,
                    ;
                    assert((m / 10 + 1) * 10 == (m / 10) * 10 + 10);
                    assert((m / 10) * 10 + 10 >= m + 1);
                };
                assert(dec_val(s@.take(i + 1)) > u128::MAX);
                lemma_dec_val_take_le(s@, i + 1);
                assert(dec_val(s@) > u128::MAX);
            }
            return None;
        }
        proof {
            lemma_dec_val_take_step(s@, i as int);
            assert(forall|j: int|
                0 <= j < i + 1 ==> is_dec_digit(#[trigger] s@.take(i + 1)[j]));
        }
        acc = acc * 10 + d;
        i += 1;
    }
    proof {
        assert(s@.take(n as int) =~= s@);
    }
    Some(acc)
}

/// Decimal coercion of a stored text to `usize`, per `parse_usize_spec`.
pub fn parse_usize(s: &str) -> (r: Option<usize>)
    ensures
        r == parse_usize_spec(s@),
{
    match parse_u128(s) {
        Some(v) => {
            if v <= usize::MAX as u128 {
                Some(v as usize)
            } else {
                None
            }
        },
        None => {
            proof {
                if s@.len() > 0 && all_dec_digits(s@) {
                    assert(dec_val(s@) > u128::MAX);
                    assert(usize::MAX <= u128::MAX);
                }
            }
            None
        },
    }
}

/// The character for one decimal digit value.
pub open spec fn digit_char(d: nat) -> char {
    if d == 0 {
        '0'
    } else if d == 1 {
        '1'
    } else if d == 2 {
        '2'
    } else if d == 3 {
        '3'
    } else if d == 4 {
        '4'
    } else if d == 5 {
        '5'
    } else if d == 6 {
        '6'
    } else if d == 7 {
        '7'
    } else if d == 8 {
        '8'
    } else {
        '9'
    }
}

/// The canonical decimal rendering of a number, most significant digit first.
pub open spec fn dec_digits(n: nat) -> Seq<char>
    decreases n,
{
    if n < 10 {
        seq![digit_char(n)]
    } else {
        dec_digits(n / 10).push(digit_char(n % 10))
    }
}

pub proof fn lemma_digit_char_val(d: nat)
    requires
        d < 10,
    ensures
        is_dec_digit(digit_char(d)),
        digit_val(digit_char(d)) == d,
{
}

pub proof fn lemma_dec_digits_val(n: nat)
    ensures
        dec_digits(n).len() >= 1,
        all_dec_digits(dec_digits(n)),
        dec_val(dec_digits(n)) == n,
    decreases n,
{
    if n < 10 {
        lemma_digit_char_val(n);
        assert(dec_digits(n) =~= seq![digit_char(n)]);
        assert(dec_digits(n).drop_last() =~= Seq::<char>::empty());
        assert(dec_digits(n).last() == digit_char(n));
        assert(dec_digits(n).len() == 1);
        assert(dec_val(Seq::<char>::empty()) == 0);
        assert(dec_val(dec_digits(n)) == digit_val(digit_char(n)));
        assert(forall|i: int|
            0 <= i < dec_digits(n).len() ==> is_dec_digit(#[trigger] dec_digits(n)[i]));
    } else {
        lemma_dec_digits_val(n / 10);
        lemma_digit_char_val(n % 10);
        lemma_fundamental_div_mod(n as int, 10);
        assert(dec_digits(n).drop_last() =~= dec_digits(n / 10));
        assert(dec_digits(n).last() == digit_char(n % 10));
        assert(forall|i: int|
            0 <= i < dec_digits(n).len() ==> is_dec_digit(#[trigger] dec_digits(n)[i]));
    }
}

/// Rendering an unsigned 128-bit value in decimal and coercing it back is the
/// identity.
pub proof fn lemma_u128_round_trip(v: u128)
    ensures
        parse_u128_spec(dec_digits(v as nat)) == Some(v),
{
    lemma_dec_digits_val(v as nat);
}

/// Rendering a `usize` value in decimal and coercing it back is the identity.
pub proof fn lemma_usize_round_trip(v: usize)
    ensures
        parse_usize_spec(dec_digits(v as nat)) == Some(v),
{
    lemma_dec_digits_val(v as nat);
    assert(usize::MAX <= u128::MAX);
}

/// The stored rendering of a boolean.
pub open spec fn bool_text(b: bool) -> Seq<char> {
    if b {
        "true"@
    } else {
        "false"@
    }
}

/// Rendering a boolean and coercing it back is the identity.
pub proof fn lemma_bool_round_trip(b: bool)
    ensures
        parse_bool_spec(bool_text(b)) == Some(b),
{
    reveal_strlit("true");
    reveal_strlit("false");
    assert("true"@.len() == 4);
    assert("false"@.len() == 5);
    if b {
        assert(bool_text(b) == "true"@);
    } else {
        assert(bool_text(b) == "false"@);
        assert("false"@ != "true"@);
    }
}

/// Boolean coercion of a stored text, per `parse_bool_spec`.
pub fn parse_bool(s: &str) -> (r: Option<bool>)
    ensures
        r == parse_bool_spec(s@),
{
    if str_eq(s, "true") {
        Some(true)
    } else if str_eq(s, "false") {
        Some(false)
    } else {
        None
    }
}

} // verus!
