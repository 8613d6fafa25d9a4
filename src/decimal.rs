use vstd::prelude::*;

verus! {

pub open spec fn is_digit(c: char) -> bool {
    '0' <= c && c <= '9'
}

pub open spec fn all_digits(s: Seq<char>) -> bool {
    forall|i: int| 0 <= i < s.len() ==> is_digit(#[trigger] s[i])
}

pub open spec fn digit_value(c: char) -> int {
    c as int - '0' as int
}

/// The number that a run of decimal digits spells, most significant first.
pub open spec fn digits_value(s: Seq<char>) -> int
    decreases s.len(),
{
    if s.len() == 0 {
        0
    } else {
        digits_value(s.drop_last()) * 10 + digit_value(s.last())
    }
}

/// The number that `s` spells when it is a nonempty run of ASCII digits whose
/// value is at most `max`.
pub open spec fn parse_decimal(s: Seq<char>, max: int) -> Option<int> {
    if s.len() > 0 && all_digits(s) && digits_value(s) <= max {
        Some(digits_value(s))
    } else {
        None
    }
}

proof fn lemma_digits_value_nonneg(s: Seq<char>)
    requires
        all_digits(s),
    ensures
        digits_value(s) >= 0,
    decreases s.len(),
{
    if s.len() > 0 {
        assert(all_digits(s.drop_last())) by {
            assert forall|i: int| 0 <= i < s.drop_last().len() implies is_digit(
                #[trigger] s.drop_last()[i],
            ) by {
                assert(s.drop_last()[i] == s[i]);
            }
        }
        lemma_digits_value_nonneg(s.drop_last());
        assert(is_digit(s[s.len() - 1]));
    }
}

/// Reads a nonempty run of ASCII digits as a number no larger than `max`.
pub fn parse_decimal_digits(s: &[char], max: u64) -> (r: Option<u64>)
    ensures
        match parse_decimal(s@, max as int) {
            Some(v) => r == Some(v as u64) && 0 <= v <= max,
            None => r is None,
        },
{
    proof {
        if all_digits(s@) {
            lemma_digits_value_nonneg(s@);
        }
    }
    if s.len() == 0 {
        return None;
    }
    let mut value: u64 = 0;
    let mut too_big = false;
    let mut i: usize = 0;
    while i < s.len()
        invariant
            i <= s@.len(),
            all_digits(s@.subrange(0, i as int)),
            !too_big ==> value as int == digits_value(s@.subrange(0, i as int)) && value <= max,
            too_big ==> digits_value(s@.subrange(0, i as int)) > max,
        decreases s@.len() - i,
    {
        let c = s[i];
        if c < '0' || c > '9' {
            assert(!all_digits(s@)) by {
                assert(!is_digit(s@[i as int]));
            }
            return None;
        }
        let d = (c as u32 - '0' as u32) as u64;
        let ghost prefix = s@.subrange(0, i as int);
        let ghost next = s@.subrange(0, i as int + 1);
        proof {
            assert(next.drop_last() =~= prefix);
            assert(next.last() == c);
            assert(all_digits(next)) by {
                assert forall|k: int| 0 <= k < next.len() implies is_digit(#[trigger] next[k]) by {
                    if k < i {
                        assert(next[k] == prefix[k]);
                    }
                }
            }
            lemma_digits_value_nonneg(prefix);
        }
        if !too_big {
            if d > max || value > (max - d) / 10 {
                too_big = true;
                assert(value * 10 + d > max) by (nonlinear_arith)
                    requires
                        d > max || value > (max - d) / 10,
                        value >= 0,
                ;
            } else {
                assert(value * 10 + d <= max) by (nonlinear_arith)
                    requires
                        d <= max,
                        value <= (max - d) / 10,
                ;
                value = value * 10 + d;
            }
        }
        i = i + 1;
    }
    assert(s@.subrange(0, s@.len() as int) =~= s@);
    if too_big {
        None
    } else {
        Some(value)
    }
}


pub open spec fn pow10(n: nat) -> int
    decreases n,
{
    if n == 0 {
        1
    } else {
        10 * pow10((n - 1) as nat)
    }
}

proof fn lemma_all_digits_prefix(s: Seq<char>, n: int)
    requires
        all_digits(s),
        0 <= n <= s.len(),
    ensures
        all_digits(s.take(n)),
{
    assert forall|i: int| 0 <= i < s.take(n).len() implies is_digit(#[trigger] s.take(n)[i]) by {
        assert(s.take(n)[i] == s[i]);
    }
}

/// A run of `n` digits spells a number below `10^n`.
proof fn lemma_digits_value_bound(s: Seq<char>)
    requires
        all_digits(s),
    ensures
        0 <= digits_value(s) < pow10(s.len()),
    decreases s.len(),
{
    if s.len() > 0 {
        lemma_all_digits_prefix(s, s.len() - 1);
        assert(s.drop_last() =~= s.take(s.len() - 1));
        lemma_digits_value_bound(s.drop_last());
        assert(is_digit(s[s.len() - 1]));
    }
}

proof fn lemma_pow10_positive(n: nat)
    ensures
        pow10(n) > 0,
    decreases n,
{
    if n > 0 {
        lemma_pow10_positive((n - 1) as nat);
    }
}

/// `s[d]` is the point of a decimal number `whole.fraction`, where both parts
/// are nonempty runs of digits.
pub open spec fn is_decimal_point_at(s: Seq<char>, d: int) -> bool {
    &&& 0 < d < s.len() - 1
    &&& s[d] == '.'
    &&& all_digits(s.take(d))
    &&& all_digits(s.skip(d + 1))
}

/// Nanometres in the fraction of a millimetre that the digits after the
/// point spell; digits past the sixth are dropped.
pub open spec fn fraction_nanometres(frac: Seq<char>) -> int {
    let f = if frac.len() <= 6 {
        frac
    } else {
        frac.take(6)
    };
    digits_value(f) * pow10((6 - f.len()) as nat)
}

/// The positive length, in nanometres, that a decimal number of millimetres
/// `whole.fraction` stands for, when it fits in a `u32`.
pub open spec fn millimetres_in_nanometres(s: Seq<char>) -> Option<int> {
    if exists|d: int| is_decimal_point_at(s, d) {
        let d = choose|d: int| is_decimal_point_at(s, d);
        let nm = digits_value(s.take(d)) * 1000000 + fraction_nanometres(s.skip(d + 1));
        if 0 < nm <= u32::MAX {
            Some(nm)
        } else {
            None
        }
    } else {
        None
    }
}

fn all_ascii_digits(s: &[char]) -> (r: bool)
    ensures
        r == all_digits(s@),
{
    let mut i: usize = 0;
    while i < s.len()
        invariant
            i <= s@.len(),
            forall|k: int| 0 <= k < i ==> is_digit(#[trigger] s@[k]),
        decreases s@.len() - i,
    {
        if s[i] < '0' || s[i] > '9' {
            assert(!is_digit(s@[i as int]));
            return false;
        }
        i = i + 1;
    }
    true
}

/// Reads a decimal number of millimetres, `whole.fraction`, as a positive
/// whole number of nanometres.
pub fn parse_millimetres(s: &[char]) -> (r: Option<u32>)
    ensures
        match millimetres_in_nanometres(s@) {
            Some(v) => r == Some(v as u32),
            None => r is None,
        },
{
    let n = s.len();
    let mut d: usize = 0;
    while d < n && s[d] >= '0' && s[d] <= '9'
        invariant
            n == s@.len(),
            d <= n,
            all_digits(s@.take(d as int)),
        decreases n - d,
    {
        proof {
            assert forall|i: int| 0 <= i < d + 1 implies is_digit(#[trigger] s@.take(d + 1)[i]) by {
                if i < d {
                    assert(s@.take(d + 1)[i] == s@.take(d as int)[i]);
                }
            }
        }
        d = d + 1;
    }
    // `d` is the first place that holds no digit: the only place a point can be.
    proof {
        assert forall|d2: int| #[trigger] is_decimal_point_at(s@, d2) implies d2 == d by {
            if d2 < d {
                assert(s@.take(d as int)[d2] == s@[d2]);
                assert(is_digit(s@.take(d as int)[d2]));
            } else if d2 > d {
                assert(s@.take(d2)[d as int] == s@[d as int]);
                assert(is_digit(s@.take(d2)[d as int]));
            }
        }
    }
    if d == 0 || n - d < 2 || s[d] != '.' {
        return None;
    }
    let frac = vstd::slice::slice_subrange(s, d + 1, n);
    assert(frac@ =~= s@.skip(d + 1));
    if !all_ascii_digits(frac) {
        return None;
    }
    assert(is_decimal_point_at(s@, d as int));
    let whole_digits = vstd::slice::slice_subrange(s, 0, d);
    assert(whole_digits@ =~= s@.take(d as int));
    proof {
        lemma_digits_value_nonneg(whole_digits@);
    }
    let whole = match parse_decimal_digits(whole_digits, 4294) {
        Some(w) => w,
        None => {
            proof {
                let fr = frac@;
                let ff = if fr.len() <= 6 {
                    fr
                } else {
                    fr.take(6)
                };
                lemma_all_digits_prefix(fr, ff.len() as int);
                if fr.len() <= 6 {
                    assert(ff =~= fr.take(fr.len() as int));
                }
                lemma_digits_value_bound(ff);
                lemma_pow10_positive((6 - ff.len()) as nat);
                assert(fraction_nanometres(fr) >= 0) by (nonlinear_arith)
                    requires
                        fraction_nanometres(fr) == digits_value(ff) * pow10((6 - ff.len()) as nat),
                        digits_value(ff) >= 0,
                        pow10((6 - ff.len()) as nat) > 0,
                ;
                let w = digits_value(s@.take(d as int));
                assert(w > 4294);
                let c = choose|d2: int| is_decimal_point_at(s@, d2);
                assert(c == d);
            }
            return None;
        },
    };
    let f_len: usize = if frac.len() <= 6 {
        frac.len()
    } else {
        6
    };
    let f = vstd::slice::slice_subrange(frac, 0, f_len);
    proof {
        if frac@.len() <= 6 {
            assert(f@ =~= frac@);
        } else {
            assert(f@ =~= frac@.take(6));
        }
        lemma_all_digits_prefix(frac@, f_len as int);
        lemma_digits_value_bound(f@);
        assert(pow10(6) == 1000000) by {
                reveal_with_fuel(pow10, 7);
            }
        assert(f_len <= 6 ==> pow10(f_len as nat) <= 1000000) by {
            assert(pow10(0) == 1 && pow10(1) == 10 && pow10(2) == 100 && pow10(3) == 1000
                && pow10(4) == 10000 && pow10(5) == 100000) by {
                reveal_with_fuel(pow10, 7);
            }
        }
    }
    proof {
        lemma_digits_value_nonneg(f@);
    }
    let fv = match parse_decimal_digits(f, 999999) {
        Some(v) => v,
        None => {
            return None;
        },
    };
    let mut scale: u64 = 1;
    let mut k: usize = f_len;
    while k < 6
        invariant
            f_len <= k <= 6,
            scale as int == pow10((k - f_len) as nat),
            scale <= 1000000,
        decreases 6 - k,
    {
        proof {
            assert(pow10((k + 1 - f_len) as nat) == 10 * pow10((k - f_len) as nat));
            assert(pow10(0) == 1 && pow10(1) == 10 && pow10(2) == 100 && pow10(3) == 1000
                && pow10(4) == 10000 && pow10(5) == 100000 && pow10(6) == 1000000) by {
                reveal_with_fuel(pow10, 7);
            }
            assert(k - f_len <= 5);
        }
        scale = scale * 10;
        k = k + 1;
    }
    assert(fv * scale <= 999999 * 1000000) by (nonlinear_arith)
        requires
            fv <= 999999,
            scale <= 1000000,
    ;
    let nm = whole * 1000000 + fv * scale;
    proof {
        let c = choose|d2: int| is_decimal_point_at(s@, d2);
        assert(c == d);
        assert(fv * scale == fraction_nanometres(frac@));
    }
    if nm == 0 || nm > 0xffff_ffff {
        None
    } else {
        Some(nm as u32)
    }
}

} // verus!
