//! Parsing of custom coefficient strings.
//!
//! A coefficient string is a comma-separated list of decimal numbers, for
//! example `2.4,1.05,0.38`. A number is an optional minus sign, one to
//! fourteen integer digits, and optionally a point followed by one to four
//! fraction digits, so every accepted number is an exact [`Fixed`] value.

use vstd::prelude::*;

use crate::error::CocomoError;
use crate::fixed::Fixed;
use crate::text::chars_of;

verus! {

/// Most integer digits a coefficient token may carry; keeps every accepted
/// value within the fixed-point range.
pub const MAX_INT_DIGITS: usize = 14;

/// Whether `c` is a decimal digit.
pub open spec fn is_digit(c: char) -> bool {
    '0' <= c && c <= '9'
}

/// The numeric value of the digit `c`.
pub open spec fn digit_val(c: char) -> int {
    c as int - '0' as int
}

/// Whether every character of `s` is a decimal digit.
pub open spec fn all_digits(s: Seq<char>) -> bool {
    forall|k: int| 0 <= k < s.len() ==> is_digit(#[trigger] s[k])
}

/// Ten to the power `n`.
pub open spec fn pow10(n: nat) -> int
    decreases n,
{
    if n == 0 {
        1
    } else {
        10 * pow10((n - 1) as nat)
    }
}

/// The value of the digit string `s`, read in base ten.
pub open spec fn digits_value(s: Seq<char>) -> int
    decreases s.len(),
{
    if s.len() == 0 {
        0
    } else {
        digits_value(s.drop_last()) * 10 + digit_val(s.last())
    }
}

/// `s` split at every occurrence of `sep`. Empty pieces are kept, so the
/// result has exactly one piece more than `s` has separators.
pub open spec fn split_on(s: Seq<char>, sep: char) -> Seq<Seq<char>>
    decreases s.len(),
{
    if s.len() == 0 {
        seq![Seq::<char>::empty()]
    } else {
        let r = split_on(s.drop_last(), sep);
        if s.last() == sep {
            r.push(Seq::<char>::empty())
        } else {
            r.update(r.len() - 1, r.last().push(s.last()))
        }
    }
}

/// The views of a sequence of character vectors.
pub open spec fn views_of(vs: Seq<Vec<char>>) -> Seq<Seq<char>> {
    vs.map_values(|t: Vec<char>| t@)
}

/// Whether `s` is an unsigned decimal numeral: one to fourteen integer
/// digits, optionally followed by a point and one to four fraction digits.
pub open spec fn unsigned_shape(s: Seq<char>) -> bool {
    let parts = split_on(s, '.');
    if parts.len() == 1 {
        1 <= parts[0].len() <= MAX_INT_DIGITS && all_digits(parts[0])
    } else if parts.len() == 2 {
        &&& 1 <= parts[0].len() <= MAX_INT_DIGITS
        &&& all_digits(parts[0])
        &&& 1 <= parts[1].len() <= 4
        &&& all_digits(parts[1])
    } else {
        false
    }
}

/// The value of an unsigned decimal numeral, in fixed-point units of
/// one ten-thousandth.
pub open spec fn unsigned_units(s: Seq<char>) -> int {
    let parts = split_on(s, '.');
    if parts.len() == 1 {
        digits_value(parts[0]) * 10000
    } else {
        digits_value(parts[0]) * 10000 + digits_value(parts[1]) * pow10(
            (4 - parts[1].len()) as nat,
        )
    }
}

/// Whether `s` is a decimal numeral: an optional minus sign before an
/// unsigned numeral.
pub open spec fn decimal_shape(s: Seq<char>) -> bool {
    if s.len() > 0 && s[0] == '-' {
        unsigned_shape(s.skip(1))
    } else {
        unsigned_shape(s)
    }
}

/// The value of a decimal numeral, in fixed-point units.
pub open spec fn decimal_units(s: Seq<char>) -> int {
    if s.len() > 0 && s[0] == '-' {
        -unsigned_units(s.skip(1))
    } else {
        unsigned_units(s)
    }
}

/// What parsing a custom coefficient string yields: the `(a, b, c)` triple
/// exactly when the text is three comma-separated decimal numerals, and a
/// `MalformedCoefficients` error otherwise.
pub open spec fn spec_parse_coefficients(s: Seq<char>) -> Result<
    (Fixed, Fixed, Fixed),
    CocomoError,
> {
    let toks = split_on(s, ',');
    if toks.len() == 3 && decimal_shape(toks[0]) && decimal_shape(toks[1]) && decimal_shape(
        toks[2],
    ) {
        Ok(
            (
                Fixed { units: decimal_units(toks[0]) as i64 },
                Fixed { units: decimal_units(toks[1]) as i64 },
                Fixed { units: decimal_units(toks[2]) as i64 },
            ),
        )
    } else {
        Err(CocomoError::MalformedCoefficients)
    }
}

/// What parsing a four-tuple coefficient string yields: `(a, b, d, c)` with
/// the development-time constant `d` in third place, exactly when the text is
/// four comma-separated decimal numerals.
pub open spec fn spec_parse_coefficients_quad(s: Seq<char>) -> Result<
    (Fixed, Fixed, Fixed, Fixed),
    CocomoError,
> {
    let toks = split_on(s, ',');
    if toks.len() == 4 && decimal_shape(toks[0]) && decimal_shape(toks[1]) && decimal_shape(
        toks[2],
    ) && decimal_shape(toks[3]) {
        Ok(
            (
                Fixed { units: decimal_units(toks[0]) as i64 },
                Fixed { units: decimal_units(toks[1]) as i64 },
                Fixed { units: decimal_units(toks[2]) as i64 },
                Fixed { units: decimal_units(toks[3]) as i64 },
            ),
        )
    } else {
        Err(CocomoError::MalformedCoefficients)
    }
}

proof fn lemma_pow10_pos(n: nat)
    ensures
        pow10(n) >= 1,
    decreases n,
{
    if n > 0 {
        lemma_pow10_pos((n - 1) as nat);
    }
}

proof fn lemma_pow10_mono(a: nat, b: nat)
    requires
        a <= b,
    ensures
        pow10(a) <= pow10(b),
    decreases b,
{
    if a < b {
        lemma_pow10_mono(a, (b - 1) as nat);
        lemma_pow10_pos((b - 1) as nat);
    }
}

proof fn lemma_pow10_values()
    ensures
        pow10(0) == 1,
        pow10(1) == 10,
        pow10(2) == 100,
        pow10(3) == 1000,
        pow10(4) == 10000,
        pow10(14) == 100_000_000_000_000,
{
    reveal_with_fuel(pow10, 15);
}

/// The value of a digit string is nonnegative and below ten to its length.
proof fn lemma_digits_value_bound(s: Seq<char>)
    requires
        all_digits(s),
    ensures
        0 <= digits_value(s) < pow10(s.len()),
    decreases s.len(),
{
    if s.len() > 0 {
        assert forall|k: int| 0 <= k < s.drop_last().len() implies is_digit(
            #[trigger] s.drop_last()[k],
        ) by {
            assert(s.drop_last()[k] == s[k]);
        }
        lemma_digits_value_bound(s.drop_last());
        assert(is_digit(s.last()));
        assert(pow10(s.len()) == 10 * pow10((s.len() - 1) as nat));
    }
}

/// Every accepted decimal numeral fits comfortably in a signed 64-bit
/// count of fixed-point units.
proof fn lemma_unsigned_units_range(s: Seq<char>)
    requires
        unsigned_shape(s),
    ensures
        0 <= unsigned_units(s) < 1_000_000_000_000_000_000,
{
    let parts = split_on(s, '.');
    lemma_pow10_values();
    lemma_digits_value_bound(parts[0]);
    lemma_pow10_mono(parts[0].len(), 14);
    if parts.len() == 2 {
        lemma_digits_value_bound(parts[1]);
        lemma_pow10_pos((4 - parts[1].len()) as nat);
        lemma_pow10_add(parts[1].len(), (4 - parts[1].len()) as nat);
        assert(pow10(parts[1].len()) * pow10((4 - parts[1].len()) as nat) == 10000);
        assert(digits_value(parts[1]) * pow10((4 - parts[1].len()) as nat) < 10000) by (
        nonlinear_arith)
            requires
                0 <= digits_value(parts[1]) < pow10(parts[1].len()),
                pow10(parts[1].len()) * pow10((4 - parts[1].len()) as nat) == 10000,
                pow10((4 - parts[1].len()) as nat) >= 1,
        ;
        assert(digits_value(parts[1]) * pow10((4 - parts[1].len()) as nat) >= 0) by (
        nonlinear_arith)
            requires
                digits_value(parts[1]) >= 0,
                pow10((4 - parts[1].len()) as nat) >= 1,
        ;
    }
}

proof fn lemma_pow10_add(a: nat, b: nat)
    ensures
        pow10(a + b) == pow10(a) * pow10(b),
    decreases a,
{
    if a == 0 {
    } else {
        lemma_pow10_add((a - 1) as nat, b);
        assert(pow10(a + b) == 10 * pow10((a + b - 1) as nat));
        assert(10 * (pow10((a - 1) as nat) * pow10(b)) == (10 * pow10((a - 1) as nat)) * pow10(b))
            by (nonlinear_arith);
    }
}

/// The decimal value of `v[from..to]`, when that range is one to fourteen
/// digits; `None` otherwise.
fn parse_digits(v: &Vec<char>, from: usize, to: usize) -> (r: Option<u64>)
    requires
        from <= to <= v@.len(),
    ensures
        r is Some <==> (1 <= to - from <= MAX_INT_DIGITS && all_digits(
            v@.subrange(from as int, to as int),
        )),
        r matches Some(u) ==> u == digits_value(v@.subrange(from as int, to as int)),
        r matches Some(u) ==> u < pow10((to - from) as nat),
{
    if to - from < 1 || to - from > MAX_INT_DIGITS {
        return None;
    }
    let mut acc: u64 = 0;
    let mut i: usize = from;
    while i < to
        invariant
            from <= i <= to <= v@.len(),
            to - from <= MAX_INT_DIGITS,
            all_digits(v@.subrange(from as int, i as int)),
            acc == digits_value(v@.subrange(from as int, i as int)),
            acc < pow10((i - from) as nat),
        decreases to - i,
    {
        let c = v[i];
        if c < '0' || c > '9' {
            proof {
                assert(v@.subrange(from as int, to as int)[i - from] == v@[i as int]);
                assert(!is_digit(v@[i as int]));
            }
            return None;
        }
        let d = c as u32;
        proof {
            lemma_pow10_values();
            lemma_pow10_mono((i - from + 1) as nat, 14);
            assert(pow10((i - from + 1) as nat) == 10 * pow10((i - from) as nat));
        }
        acc = acc * 10 + (d - 48) as u64;
        proof {
            let pre = v@.subrange(from as int, i as int);
            let post = v@.subrange(from as int, i + 1 as int);
            assert(is_digit(v@[i as int]));
            assert(post.drop_last() =~= pre);
            assert(post.last() == v@[i as int]);
            assert forall|k: int| 0 <= k < post.len() implies is_digit(#[trigger] post[k]) by {
                if k < post.len() - 1 {
                    assert(post[k] == pre[k]);
                } else {
                    assert(post[k] == v@[i as int]);
                }
            }
            assert(digits_value(post) == digits_value(pre) * 10 + digit_val(v@[i as int]));
        }
        i = i + 1;
    }
    proof {
        assert(v@.subrange(from as int, i as int) == v@.subrange(from as int, to as int));
    }
    Some(acc)
}

/// `v` split at every occurrence of `sep`, empty pieces kept.
fn split_vec(v: &Vec<char>, sep: char) -> (r: Vec<Vec<char>>)
    ensures
        views_of(r@) == split_on(v@, sep),
{
    let mut done: Vec<Vec<char>> = Vec::new();
    let mut cur: Vec<char> = Vec::new();
    let n = v.len();
    let mut i: usize = 0;
    while i < n
        invariant
            i <= n,
            n == v@.len(),
            views_of(done@).push(cur@) == split_on(v@.take(i as int), sep),
        decreases n - i,
    {
        let c = v[i];
        proof {
            assert(v@.take(i + 1 as int).drop_last() =~= v@.take(i as int));
            assert(v@.take(i + 1 as int).last() == v@[i as int]);
        }
        if c == sep {
            let ghost prev_done = done@;
            let ghost prev_cur = cur@;
            done.push(cur);
            cur = Vec::new();
            proof {
                assert(views_of(done@) =~= views_of(prev_done).push(prev_cur));
                assert(views_of(done@).push(cur@) =~= split_on(v@.take(i + 1 as int), sep));
            }
        } else {
            let ghost prev_cur = cur@;
            cur.push(c);
            proof {
                let r = views_of(done@).push(prev_cur);
                assert(r.len() >= 1);
                assert(r.last() == prev_cur);
                assert(views_of(done@).push(cur@) =~= r.update(r.len() - 1, r.last().push(c)));
            }
        }
        i = i + 1;
    }
    proof {
        assert(v@.take(n as int) =~= v@);
    }
    let ghost prev_done = done@;
    let ghost prev_cur = cur@;
    done.push(cur);
    proof {
        assert(views_of(done@) =~= views_of(prev_done).push(prev_cur));
    }
    done
}

/// The characters of `v` from `start` on.
fn tail_from(v: &Vec<char>, start: usize) -> (r: Vec<char>)
    requires
        start <= v@.len(),
    ensures
        r@ == v@.skip(start as int),
{
    let mut r: Vec<char> = Vec::new();
    let mut i: usize = start;
    while i < v.len()
        invariant
            start <= i <= v@.len(),
            r@ == v@.subrange(start as int, i as int),
        decreases v@.len() - i,
    {
        r.push(v[i]);
        proof {
            assert(v@.subrange(start as int, i + 1 as int) =~= v@.subrange(
                start as int,
                i as int,
            ).push(v@[i as int]));
        }
        i = i + 1;
    }
    r
}

/// Parses one decimal numeral into a fixed-point value; yields `None`
/// exactly on tokens that are not numerals of the accepted shape.
fn parse_decimal(token: &Vec<char>) -> (r: Option<Fixed>)
    ensures
        r is Some <==> decimal_shape(token@),
        r matches Some(f) ==> f.units == decimal_units(token@),
{
    let negative = token.len() > 0 && *(&token[0]) == '-';
    let body = if negative {
        tail_from(token, 1)
    } else {
        tail_from(token, 0)
    };
    proof {
        if !negative {
            assert(body@ =~= token@);
        }
    }
    let parts = split_vec(&body, '.');
    let ghost spec_parts = split_on(body@, '.');
    if parts.len() != 1 && parts.len() != 2 {
        return None;
    }
    let int_part = &parts[0];
    let int_value = match parse_digits(int_part, 0, int_part.len()) {
        Some(u) => u,
        None => {
            proof {
                assert(int_part@.subrange(0, int_part@.len() as int) =~= spec_parts[0]);
            }
            return None;
        },
    };
    proof {
        assert(int_part@.subrange(0, int_part@.len() as int) =~= spec_parts[0]);
        lemma_pow10_values();
        lemma_pow10_mono(int_part@.len() as nat, 14);
    }
    let scaled: u64;
    if parts.len() == 2 {
        let frac_part = &parts[1];
        let fl = frac_part.len();
        if fl < 1 || fl > 4 {
            return None;
        }
        let frac_value = match parse_digits(frac_part, 0, fl) {
            Some(u) => u,
            None => {
                proof {
                    assert(frac_part@.subrange(0, frac_part@.len() as int) =~= spec_parts[1]);
                }
                return None;
            },
        };
        proof {
            assert(frac_part@.subrange(0, frac_part@.len() as int) =~= spec_parts[1]);
            lemma_pow10_values();
        }
        let scaled_frac: u64 = if fl == 1 {
            frac_value * 1000
        } else if fl == 2 {
            frac_value * 100
        } else if fl == 3 {
            frac_value * 10
        } else {
            frac_value
        };
        proof {
            assert(scaled_frac == digits_value(spec_parts[1]) * pow10(
                (4 - spec_parts[1].len()) as nat,
            ));
        }
        scaled = int_value * 10000 + scaled_frac;
    } else {
        scaled = int_value * 10000;
    }
    proof {
        assert(unsigned_shape(body@));
        assert(scaled == unsigned_units(body@));
        lemma_unsigned_units_range(body@);
    }
    if negative {
        proof {
            assert(body@ =~= token@.skip(1));
        }
        Some(Fixed { units: -(scaled as i64) })
    } else {
        Some(Fixed { units: scaled as i64 })
    }
}

/// Parses a custom coefficient string of the three-tuple model: exactly
/// three comma-separated decimal numerals `a,b,c`. Any other token count,
/// and any token that is not a numeral the fixed-point range can hold,
/// is reported as `MalformedCoefficients`.
pub fn parse_coefficients(text: &str) -> (r: Result<(Fixed, Fixed, Fixed), CocomoError>)
    ensures
        r == spec_parse_coefficients(text@),
        r is Ok <==> (split_on(text@, ',').len() == 3 && forall|k: int|
            0 <= k < 3 ==> decimal_shape(#[trigger] split_on(text@, ',')[k])),
{
    let chars = chars_of(text);
    let toks = split_vec(&chars, ',');
    let ghost spec_toks = split_on(text@, ',');
    if toks.len() != 3 {
        return Err(CocomoError::MalformedCoefficients);
    }
    let a = match parse_decimal(&toks[0]) {
        Some(f) => f,
        None => {
            return Err(CocomoError::MalformedCoefficients);
        },
    };
    let b = match parse_decimal(&toks[1]) {
        Some(f) => f,
        None => {
            return Err(CocomoError::MalformedCoefficients);
        },
    };
    let c = match parse_decimal(&toks[2]) {
        Some(f) => f,
        None => {
            return Err(CocomoError::MalformedCoefficients);
        },
    };
    Ok((a, b, c))
}

/// Parses a custom coefficient string of the four-tuple model: exactly four
/// comma-separated decimal numerals `a,b,d,c`, with the development-time
/// constant `d` in third place.
pub fn parse_coefficients_quad(text: &str) -> (r: Result<
    (Fixed, Fixed, Fixed, Fixed),
    CocomoError,
>)
    ensures
        r == spec_parse_coefficients_quad(text@),
        r is Ok <==> (split_on(text@, ',').len() == 4 && forall|k: int|
            0 <= k < 4 ==> decimal_shape(#[trigger] split_on(text@, ',')[k])),
{
    let chars = chars_of(text);
    let toks = split_vec(&chars, ',');
    if toks.len() != 4 {
        return Err(CocomoError::MalformedCoefficients);
    }
    let a = match parse_decimal(&toks[0]) {
        Some(f) => f,
        None => {
            return Err(CocomoError::MalformedCoefficients);
        },
    };
    let b = match parse_decimal(&toks[1]) {
        Some(f) => f,
        None => {
            return Err(CocomoError::MalformedCoefficients);
        },
    };
    let d = match parse_decimal(&toks[2]) {
        Some(f) => f,
        None => {
            return Err(CocomoError::MalformedCoefficients);
        },
    };
    let c = match parse_decimal(&toks[3]) {
        Some(f) => f,
        None => {
            return Err(CocomoError::MalformedCoefficients);
        },
    };
    Ok((a, b, d, c))
}

} // verus!
