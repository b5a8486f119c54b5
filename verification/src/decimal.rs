//! Verified range checking of decimal number text.
//!
//! Volume and chat-mix values travel inside request paths as decimal
//! text (`0.5`, `-0.25`, `1`). This module gives that text a meaning —
//! a signed numerator over a power-of-ten denominator — and decides the
//! two range checks the service's operations need: volume in [0, 1] and
//! chat-mix balance in [-1, 1], both inclusive.

use vstd::prelude::*;
use vstd::string::StrSliceExecFns;

verus! {

/// `c` is one of the ten decimal digit characters.
pub open spec fn is_dec_digit(c: char) -> bool {
    '0' <= c && c <= '9'
}

/// Every character of `s` is a decimal digit.
pub open spec fn all_dec_digits(s: Seq<char>) -> bool {
    forall|i: int| 0 <= i < s.len() ==> is_dec_digit(#[trigger] s[i])
}

/// The numeric value of one digit character.
pub open spec fn digit_value(c: char) -> int {
    c as int - '0' as int
}

/// The integer denoted by a digit string, most significant digit first.
pub open spec fn digits_value(s: Seq<char>) -> int
    decreases s.len(),
{
    if s.len() == 0 {
        0
    } else {
        digits_value(s.drop_last()) * 10 + digit_value(s.last())
    }
}

/// Ten to the `n`th power.
pub open spec fn pow10(n: nat) -> int
    decreases n,
{
    if n == 0 {
        1
    } else {
        10 * pow10((n - 1) as nat)
    }
}

/// Index of the first `'.'` in `u`, or `u.len()` if there is none.
pub open spec fn dot_index(u: Seq<char>) -> int
    decreases u.len(),
{
    if u.len() == 0 {
        0
    } else if u[0] == '.' {
        0
    } else {
        1 + dot_index(u.skip(1))
    }
}

/// `u` is an unsigned decimal: one or more digits, optionally followed
/// by a point and one or more digits.
pub open spec fn is_unsigned_decimal(u: Seq<char>) -> bool {
    let d = dot_index(u);
    &&& 0 < d
    &&& all_dec_digits(u.take(d))
    &&& (d < u.len() ==> d + 1 < u.len() && all_dec_digits(u.skip(d + 1)))
}

/// The digits before the point.
pub open spec fn int_digits(u: Seq<char>) -> Seq<char> {
    u.take(dot_index(u))
}

/// The digits after the point, empty when there is no point.
pub open spec fn frac_digits(u: Seq<char>) -> Seq<char> {
    if dot_index(u) == u.len() {
        Seq::empty()
    } else {
        u.skip(dot_index(u) + 1)
    }
}

/// The text starts with a minus sign.
pub open spec fn has_minus(s: Seq<char>) -> bool {
    s.len() > 0 && s[0] == '-'
}

/// The text with any leading minus sign removed.
pub open spec fn unsigned_part(s: Seq<char>) -> Seq<char> {
    if has_minus(s) {
        s.skip(1)
    } else {
        s
    }
}

/// `s` is decimal number text: an optional minus sign, then an
/// unsigned decimal.
pub open spec fn is_decimal_text(s: Seq<char>) -> bool {
    is_unsigned_decimal(unsigned_part(s))
}

/// The number of digits after the point; the text denotes
/// `dec_num(s) / pow10(dec_scale(s))`.
pub open spec fn dec_scale(s: Seq<char>) -> nat {
    frac_digits(unsigned_part(s)).len()
}

/// The signed numerator of the text over `pow10(dec_scale(s))`.
pub open spec fn dec_num(s: Seq<char>) -> int {
    let u = unsigned_part(s);
    let m = digits_value(int_digits(u)) * pow10(frac_digits(u).len()) + digits_value(
        frac_digits(u),
    );
    if has_minus(s) {
        -m
    } else {
        m
    }
}

/// The text denotes a number in [0, 1], inclusive.
pub open spec fn in_unit_range(s: Seq<char>) -> bool {
    &&& is_decimal_text(s)
    &&& 0 <= dec_num(s)
    &&& dec_num(s) <= pow10(dec_scale(s))
}

/// The text denotes a number in [-1, 1], inclusive.
pub open spec fn in_balance_range(s: Seq<char>) -> bool {
    &&& is_decimal_text(s)
    &&& -pow10(dec_scale(s)) <= dec_num(s)
    &&& dec_num(s) <= pow10(dec_scale(s))
}

proof fn lemma_pow10_pos(n: nat)
    ensures
        pow10(n) >= 1,
    decreases n,
{
    if n > 0 {
        lemma_pow10_pos((n - 1) as nat);
    }
}

proof fn lemma_digits_value_bounds(s: Seq<char>)
    requires
        all_dec_digits(s),
    ensures
        0 <= digits_value(s) < pow10(s.len()),
    decreases s.len(),
{
    if s.len() > 0 {
        assert(all_dec_digits(s.drop_last())) by {
            assert(forall|i: int|
                0 <= i < s.len() - 1 ==> #[trigger] s.drop_last()[i] == s[i]);
        }
        lemma_digits_value_bounds(s.drop_last());
        assert(is_dec_digit(s.last()));
        assert(0 <= digit_value(s.last()) <= 9);
    }
}

proof fn lemma_digits_value_zero(s: Seq<char>)
    requires
        all_dec_digits(s),
    ensures
        (digits_value(s) == 0) <==> (forall|i: int| 0 <= i < s.len() ==> s[i] == '0'),
    decreases s.len(),
{
    if s.len() > 0 {
        assert(all_dec_digits(s.drop_last())) by {
            assert(forall|i: int|
                0 <= i < s.len() - 1 ==> #[trigger] s.drop_last()[i] == s[i]);
        }
        lemma_digits_value_bounds(s.drop_last());
        lemma_digits_value_zero(s.drop_last());
        assert(is_dec_digit(s.last()));
        assert(digit_value(s.last()) == 0 <==> s.last() == '0');
        if digits_value(s) == 0 {
            assert(digits_value(s.drop_last()) == 0 && digit_value(s.last()) == 0);
            assert forall|i: int| 0 <= i < s.len() implies s[i] == '0' by {
                if i < s.len() - 1 {
                    assert(s.drop_last()[i] == s[i]);
                } else {
                    assert(s[i] == s.last());
                }
            }
        } else {
            if forall|i: int| 0 <= i < s.len() ==> s[i] == '0' {
                assert forall|i: int| 0 <= i < s.len() - 1 implies s.drop_last()[i] == '0' by {
                    assert(s.drop_last()[i] == s[i]);
                }
                assert(s.last() == s[s.len() - 1]);
                assert(false);
            }
        }
    }
}

proof fn lemma_digits_value_one(s: Seq<char>)
    requires
        all_dec_digits(s),
    ensures
        (digits_value(s) == 1) <==> (s.len() > 0 && s.last() == '1' && (forall|i: int|
            0 <= i < s.len() - 1 ==> s[i] == '0')),
    decreases s.len(),
{
    if s.len() > 0 {
        assert(all_dec_digits(s.drop_last())) by {
            assert(forall|i: int|
                0 <= i < s.len() - 1 ==> #[trigger] s.drop_last()[i] == s[i]);
        }
        lemma_digits_value_bounds(s.drop_last());
        lemma_digits_value_zero(s.drop_last());
        assert(is_dec_digit(s.last()));
        assert(digit_value(s.last()) == 1 <==> s.last() == '1');
        assert(digits_value(s) == 1 <==> (digits_value(s.drop_last()) == 0 && digit_value(
            s.last(),
        ) == 1));
        if digits_value(s) == 1 {
            assert forall|i: int| 0 <= i < s.len() - 1 implies s[i] == '0' by {
                assert(s.drop_last()[i] == s[i]);
            }
        } else {
            if s.len() > 0 && s.last() == '1' && (forall|i: int|
                0 <= i < s.len() - 1 ==> s[i] == '0') {
                assert forall|i: int| 0 <= i < s.len() - 1 implies s.drop_last()[i] == '0' by {
                    assert(s.drop_last()[i] == s[i]);
                }
                assert(digits_value(s.drop_last()) == 0);
                assert(false);
            }
        }
    }
}

proof fn lemma_dot_index_is(u: Seq<char>, k: int)
    requires
        0 <= k <= u.len(),
        forall|i: int| 0 <= i < k ==> u[i] != '.',
        k < u.len() ==> u[k] == '.',
    ensures
        dot_index(u) == k,
    decreases u.len(),
{
    if u.len() == 0 {
    } else if u[0] == '.' {
        assert(k == 0);
    } else {
        assert(k >= 1);
        assert(forall|i: int| 0 <= i < k - 1 ==> #[trigger] u.skip(1)[i] == u[i + 1]);
        if k - 1 < u.len() - 1 {
            assert(u.skip(1)[k - 1] == u[k]);
        }
        lemma_dot_index_is(u.skip(1), k - 1);
    }
}

/// One scan of the text, classifying it for both range checks.
///
/// Returns `(shape, neg, mag_zero, mag_le_one)`: whether the text is
/// decimal number text at all, whether it carries a minus sign, whether
/// its magnitude is zero, and whether its magnitude is at most one.
#[verifier::loop_isolation(false)]
#[verifier::rlimit(60)]
fn scan_decimal(s: &str) -> (r: (bool, bool, bool, bool))
    ensures
        r.0 == is_decimal_text(s@),
        r.1 == has_minus(s@),
        r.0 ==> (r.2 == (dec_num(s@) == 0)),
        r.0 ==> (r.3 == (-pow10(dec_scale(s@)) <= dec_num(s@) <= pow10(dec_scale(s@)))),
        r.0 && r.1 ==> dec_num(s@) <= 0,
        r.0 && !r.1 ==> dec_num(s@) >= 0,
        r.0 ==> pow10(dec_scale(s@)) >= 1,
{
    let n = s.unicode_len();
    let neg = if n > 0 {
        s.get_char(0) == '-'
    } else {
        false
    };
    let start: usize = if neg {
        1
    } else {
        0
    };
    let ghost u = s@.skip(start as int);
    proof {
        if !neg {
            assert(s@.skip(0) =~= s@);
        }
        assert(u == unsigned_part(s@));
    }
    // Find the first point, if any.
    let mut d: usize = start;
    let mut found = false;
    while d < n && !found
        invariant
            start <= d <= n,
            forall|j: int| start <= j < d ==> s@[j] != '.',
            found ==> d < n && s@[d as int] == '.',
        decreases n - d, (if found { 0int } else { 1int }),
    {
        if s.get_char(d) == '.' {
            found = true;
        } else {
            d += 1;
        }
    }
    proof {
        assert forall|i: int| 0 <= i < d - start implies u[i] != '.' by {
            assert(u[i] == s@[i + start]);
        }
        if d < n {
            assert(u[d - start] == s@[d as int]);
        }
        lemma_dot_index_is(u, d - start);
    }
    // Check the integer digits and classify their value.
    let mut ok = d > start;
    let mut int_zero = true;
    let mut int_one = false;
    let mut i = start;
    proof {
        if !ok {
            assert(!is_unsigned_decimal(u));
        }
    }
    while i < d && ok
        invariant
            start <= i <= d,
            ok ==> d > start,
            ok ==> forall|j: int| start <= j < i ==> is_dec_digit(s@[j]),
            ok ==> (int_zero <==> (forall|j: int| start <= j < i ==> s@[j] == '0')),
            ok ==> (int_one <==> (i > start && s@[i - 1] == '1' && (forall|j: int|
                start <= j < i - 1 ==> s@[j] == '0'))),
            !ok ==> !is_unsigned_decimal(u),
        decreases d - i, (if ok { 1int } else { 0int }),
    {
        let c = s.get_char(i);
        if '0' <= c && c <= '9' {
            let step_one = int_zero && c == '1';
            int_zero = int_zero && c == '0';
            int_one = step_one;
            i += 1;
        } else {
            proof {
                assert(int_digits(u)[i - start] == s@[i as int]);
                assert(!all_dec_digits(int_digits(u)));
            }
            ok = false;
        }
    }
    // Check the fraction digits, when a point was found.
    let mut frac_zero = true;
    if ok && found {
        if d + 1 >= n {
            proof {
                assert(!is_unsigned_decimal(u));
            }
            ok = false;
        } else {
            let mut j = d + 1;
            while j < n && ok
                invariant
                    d + 1 <= j <= n,
                    ok ==> forall|t: int| d + 1 <= t < j ==> is_dec_digit(s@[t]),
                    ok ==> (frac_zero <==> (forall|t: int| d + 1 <= t < j ==> s@[t] == '0')),
                    !ok ==> !is_unsigned_decimal(u),
                decreases n - j, (if ok { 1int } else { 0int }),
            {
                let c = s.get_char(j);
                if '0' <= c && c <= '9' {
                    frac_zero = frac_zero && c == '0';
                    j += 1;
                } else {
                    proof {
                        assert(frac_digits(u)[j - d - 1] == s@[j as int]);
                        assert(!all_dec_digits(frac_digits(u)));
                    }
                    ok = false;
                }
            }
        }
    }
    if !ok {
        return (false, neg, false, false);
    }
    proof {
        let k = d - start;
        assert forall|t: int| 0 <= t < int_digits(u).len() implies is_dec_digit(
            #[trigger] int_digits(u)[t],
        ) by {
            assert(int_digits(u)[t] == s@[t + start]);
        }
        if found {
            assert forall|t: int| 0 <= t < frac_digits(u).len() implies is_dec_digit(
                #[trigger] frac_digits(u)[t],
            ) by {
                assert(frac_digits(u)[t] == s@[t + d + 1]);
            }
        }
        assert(is_unsigned_decimal(u));
        lemma_digits_value_bounds(int_digits(u));
        lemma_digits_value_zero(int_digits(u));
        lemma_digits_value_one(int_digits(u));
        lemma_digits_value_bounds(frac_digits(u));
        lemma_digits_value_zero(frac_digits(u));
        lemma_pow10_pos(frac_digits(u).len());
        let iv = digits_value(int_digits(u));
        let fv = digits_value(frac_digits(u));
        let p = pow10(frac_digits(u).len());
        // Bridge the scanned flags to the digit values.
        assert(int_zero <==> iv == 0) by {
            if int_zero {
                assert forall|t: int| 0 <= t < int_digits(u).len() implies int_digits(u)[t]
                    == '0' by {
                    assert(int_digits(u)[t] == s@[t + start]);
                }
            } else {
                if forall|t: int| 0 <= t < int_digits(u).len() ==> int_digits(u)[t] == '0' {
                    assert forall|j2: int| start <= j2 < d implies s@[j2] == '0' by {
                        assert(int_digits(u)[j2 - start] == s@[j2]);
                    }
                    assert(false);
                }
            }
        }
        assert(int_one <==> iv == 1) by {
            assert(int_digits(u).last() == s@[d - 1]);
            if int_one {
                assert forall|t: int| 0 <= t < int_digits(u).len() - 1 implies int_digits(u)[t]
                    == '0' by {
                    assert(int_digits(u)[t] == s@[t + start]);
                }
            } else {
                if iv == 1 {
                    assert forall|j2: int| start <= j2 < d - 1 implies s@[j2] == '0' by {
                        assert(int_digits(u)[j2 - start] == s@[j2]);
                    }
                    assert(false);
                }
            }
        }
        assert(frac_zero <==> fv == 0) by {
            if found {
                if frac_zero {
                    assert forall|t: int| 0 <= t < frac_digits(u).len() implies frac_digits(u)[t]
                        == '0' by {
                        assert(frac_digits(u)[t] == s@[t + d + 1]);
                    }
                } else {
                    if forall|t: int| 0 <= t < frac_digits(u).len() ==> frac_digits(u)[t] == '0' {
                        assert forall|t2: int| d + 1 <= t2 < n implies s@[t2] == '0' by {
                            assert(frac_digits(u)[t2 - d - 1] == s@[t2]);
                        }
                        assert(false);
                    }
                }
            } else {
                assert(frac_digits(u).len() == 0);
            }
        }
        // Relate the magnitude to the flags.
        let m = iv * p + fv;
        assert(iv >= 1 ==> m >= 1) by {
            if iv >= 1 {
                assert(iv * p >= p) by (nonlinear_arith)
                    requires
                        iv >= 1,
                        p >= 1,
                ;
            }
        }
        assert(iv == 0 ==> m == fv);
        assert((m == 0) <==> (iv == 0 && fv == 0));
        assert((m <= p) <==> (iv == 0 || (iv == 1 && fv == 0))) by {
            if iv == 0 {
                assert(m == fv <= p);
            } else if iv == 1 {
                assert(iv * p == p);
            } else {
                assert(iv * p >= 2 * p) by (nonlinear_arith)
                    requires
                        iv >= 2,
                        p >= 0,
                ;
                assert(m > p);
            }
        }
        assert(dec_num(s@) == if has_minus(s@) {
            -m
        } else {
            m
        });
        assert(dec_scale(s@) == frac_digits(u).len());
    }
    (true, neg, int_zero && frac_zero, int_zero || (int_one && frac_zero))
}

/// Decide whether `s` denotes a volume in [0, 1], inclusive.
pub fn volume_text_in_range(s: &str) -> (r: bool)
    ensures
        r == in_unit_range(s@),
{
    let (shape, neg, mag_zero, mag_le_one) = scan_decimal(s);
    shape && (!neg || mag_zero) && mag_le_one
}

/// Decide whether `s` denotes a chat-mix balance in [-1, 1], inclusive.
pub fn balance_text_in_range(s: &str) -> (r: bool)
    ensures
        r == in_balance_range(s@),
{
    let (shape, _neg, _mag_zero, mag_le_one) = scan_decimal(s);
    shape && mag_le_one
}

} // verus!

