//! Parser for configured expiry durations.
//!
//! The accepted grammar is `<integer><unit>` with unit `m` (minutes),
//! `h` (hours) or `d` (days), case-insensitive, with surrounding ASCII
//! whitespace ignored. Empty strings, non-integer magnitudes, signed
//! magnitudes and unknown units are rejected; so is any value whose
//! total in seconds does not fit an `i64`.

use vstd::prelude::*;

use crate::errors::AuthError;

verus! {

/// ASCII whitespace that may surround a duration string.
pub open spec fn is_space_char(c: char) -> bool {
    c == ' ' || c == '\t' || c == '\n' || c == '\r'
}

/// A decimal digit.
pub open spec fn is_digit_char(c: char) -> bool {
    48 <= c as int && c as int <= 57
}

/// The numeric value of one decimal digit.
pub open spec fn digit_value(c: char) -> int
    recommends
        is_digit_char(c),
{
    c as int - 48
}

/// The numeric value of a decimal digit string, most significant first.
pub open spec fn digits_value(s: Seq<char>) -> int
    decreases s.len(),
{
    if s.len() == 0 {
        0
    } else {
        digits_value(s.drop_last()) * 10 + digit_value(s.last())
    }
}

/// Whether every character of `s` is a decimal digit.
pub open spec fn all_digit_chars(s: Seq<char>) -> bool {
    forall|i: int| 0 <= i < s.len() ==> is_digit_char(s[i])
}

/// Seconds denoted by a unit suffix, or `None` for an unknown unit.
pub open spec fn unit_seconds(c: char) -> Option<int> {
    if c == 'm' || c == 'M' {
        Some(60)
    } else if c == 'h' || c == 'H' {
        Some(3600)
    } else if c == 'd' || c == 'D' {
        Some(86400)
    } else {
        None
    }
}

/// `s` with leading ASCII whitespace removed.
pub open spec fn trim_start_spec(s: Seq<char>) -> Seq<char>
    decreases s.len(),
{
    if s.len() > 0 && is_space_char(s.first()) {
        trim_start_spec(s.drop_first())
    } else {
        s
    }
}

/// `s` with trailing ASCII whitespace removed.
pub open spec fn trim_end_spec(s: Seq<char>) -> Seq<char>
    decreases s.len(),
{
    if s.len() > 0 && is_space_char(s.last()) {
        trim_end_spec(s.drop_last())
    } else {
        s
    }
}

/// `s` with surrounding ASCII whitespace removed.
pub open spec fn trim_spec(s: Seq<char>) -> Seq<char> {
    trim_end_spec(trim_start_spec(s))
}

/// The number of seconds a duration string denotes, or `None` when the
/// string is not of the form `<digits><unit>` once trimmed.
pub open spec fn duration_seconds_spec(s: Seq<char>) -> Option<int> {
    let t = trim_spec(s);
    if t.len() >= 2 && all_digit_chars(t.drop_last()) && unit_seconds(t.last()) is Some {
        Some(digits_value(t.drop_last()) * unit_seconds(t.last())->Some_0)
    } else {
        None
    }
}

proof fn lemma_trim_start_subrange(s: Seq<char>, i: int)
    requires
        0 <= i <= s.len(),
        forall|k: int| 0 <= k < i ==> is_space_char(s[k]),
        i == s.len() || !is_space_char(s[i]),
    ensures
        trim_start_spec(s) == s.subrange(i, s.len() as int),
    decreases i,
{
    if i == 0 {
        assert(trim_start_spec(s) =~= s.subrange(0, s.len() as int));
    } else {
        assert(is_space_char(s.first()));
        lemma_trim_start_subrange(s.drop_first(), i - 1);
        assert(s.drop_first().subrange(i - 1, s.drop_first().len() as int) =~= s.subrange(
            i,
            s.len() as int,
        ));
    }
}

proof fn lemma_trim_end_subrange(s: Seq<char>, j: int)
    requires
        0 <= j <= s.len(),
        forall|k: int| j <= k < s.len() ==> is_space_char(s[k]),
        j == 0 || !is_space_char(s[j - 1]),
    ensures
        trim_end_spec(s) == s.subrange(0, j),
    decreases s.len() - j,
{
    if j == s.len() {
        assert(trim_end_spec(s) =~= s.subrange(0, j));
    } else {
        assert(is_space_char(s.last()));
        lemma_trim_end_subrange(s.drop_last(), j);
        assert(s.drop_last().subrange(0, j) =~= s.subrange(0, j));
    }
}

proof fn lemma_digits_value_nonneg(s: Seq<char>)
    requires
        all_digit_chars(s),
    ensures
        digits_value(s) >= 0,
    decreases s.len(),
{
    if s.len() > 0 {
        assert forall|i: int| 0 <= i < s.drop_last().len() implies is_digit_char(
            #[trigger] s.drop_last()[i],
        ) by {
            assert(s.drop_last()[i] == s[i]);
        }
        lemma_digits_value_nonneg(s.drop_last());
    }
}

proof fn lemma_digits_value_prefix_le(s: Seq<char>, m: int)
    requires
        all_digit_chars(s),
        0 <= m <= s.len(),
    ensures
        digits_value(s.subrange(0, m)) <= digits_value(s),
    decreases s.len() - m,
{
    if m == s.len() {
        assert(s.subrange(0, m) =~= s);
    } else {
        lemma_digits_value_prefix_le(s, m + 1);
        let p = s.subrange(0, m + 1);
        assert(p.drop_last() =~= s.subrange(0, m));
        assert forall|i: int| 0 <= i < s.subrange(0, m).len() implies is_digit_char(
            #[trigger] s.subrange(0, m)[i],
        ) by {
            assert(s.subrange(0, m)[i] == s[i]);
        }
        lemma_digits_value_nonneg(s.subrange(0, m));
        assert(digits_value(p) == digits_value(s.subrange(0, m)) * 10 + digit_value(s[m]));
    }
}

proof fn lemma_nonneg_times_unit(v: int, u: int)
    requires
        0 <= v,
        1 <= u,
    ensures
        v <= v * u,
{
    assert(v <= v * u) by (nonlinear_arith)
        requires
            0 <= v,
            1 <= u,
    ;
}

/// Whether a character is ASCII whitespace; the executable twin of
/// [`is_space_char`].
fn is_space(c: char) -> (r: bool)
    ensures
        r == is_space_char(c),
{
    c == ' ' || c == '\t' || c == '\n' || c == '\r'
}

/// Parses a duration string into whole seconds.
///
/// Returns `Ok` exactly when the trimmed string matches
/// `<digits><m|h|d>` (unit case-insensitive) and the denoted number of
/// seconds fits an `i64`; the result is that number. Every rejection is
/// a `ConfigError`.
pub fn parse_duration(s: &str) -> (r: Result<i64, AuthError>)
    ensures
        r matches Ok(d) ==> duration_seconds_spec(s@) == Some(d as int) && 0 <= d,
        r is Err ==> !(duration_seconds_spec(s@) matches Some(v) && v <= i64::MAX),
        r matches Err(e) ==> e == AuthError::ConfigError,
{
    let n = s.unicode_len();
    let mut i: usize = 0;
    while i < n && is_space(s.get_char(i))
        invariant
            0 <= i <= n,
            n == s@.len(),
            forall|k: int| 0 <= k < i ==> is_space_char(s@[k]),
        decreases n - i,
    {
        i = i + 1;
    }
    let mut j: usize = n;
    while j > i && is_space(s.get_char(j - 1))
        invariant
            i <= j <= n,
            n == s@.len(),
            forall|k: int| j <= k < n ==> is_space_char(s@[k]),
        decreases j,
    {
        j = j - 1;
    }
    proof {
        lemma_trim_start_subrange(s@, i as int);
        lemma_trim_end_subrange(s@.subrange(i as int, n as int), j - i);
        assert(s@.subrange(i as int, n as int).subrange(0, j - i) =~= s@.subrange(
            i as int,
            j as int,
        ));
        assert(trim_spec(s@) == s@.subrange(i as int, j as int));
    }
    let ghost t = s@.subrange(i as int, j as int);
    if j - i < 2 {
        return Err(AuthError::ConfigError);
    }
    let unit_char = s.get_char(j - 1);
    proof {
        assert(unit_char == t.last());
    }
    let unit: i64 = if unit_char == 'm' || unit_char == 'M' {
        60
    } else if unit_char == 'h' || unit_char == 'H' {
        3600
    } else if unit_char == 'd' || unit_char == 'D' {
        86400
    } else {
        return Err(AuthError::ConfigError);
    };
    proof {
        assert(unit_seconds(t.last()) == Some(unit as int));
    }
    let ghost mag = t.drop_last();
    proof {
        assert(mag =~= s@.subrange(i as int, j - 1));
    }
    let mut acc: i64 = 0;
    let mut k: usize = i;
    while k < j - 1
        invariant
            i <= k <= j - 1,
            i + 2 <= j <= n,
            n == s@.len(),
            t == s@.subrange(i as int, j as int),
            trim_spec(s@) == t,
            mag == t.drop_last(),
            mag == s@.subrange(i as int, j - 1),
            unit_seconds(t.last()) == Some(unit as int),
            forall|p: int| i <= p < k ==> is_digit_char(s@[p]),
            0 <= acc,
            acc == digits_value(s@.subrange(i as int, k as int)),
        decreases j - 1 - k,
    {
        let c = s.get_char(k);
        let u = c as u32;
        if !(48 <= u && u <= 57) {
            proof {
                assert(mag[k - i] == s@[k as int]);
                assert(!all_digit_chars(mag));
            }
            return Err(AuthError::ConfigError);
        }
        let d: i64 = (u - 48) as i64;
        proof {
            let p = s@.subrange(i as int, k + 1);
            assert(p.drop_last() =~= s@.subrange(i as int, k as int));
            assert(digits_value(p) == acc * 10 + d);
        }
        let next = match acc.checked_mul(10) {
            Some(a) => a.checked_add(d),
            None => None,
        };
        match next {
            Some(a) => {
                acc = a;
            },
            None => {
                proof {
                    let pref = s@.subrange(i as int, k + 1);
                    assert(digits_value(pref) > i64::MAX);
                    if all_digit_chars(mag) {
                        assert(pref =~= mag.subrange(0, k + 1 - i));
                        lemma_digits_value_prefix_le(mag, k + 1 - i);
                        lemma_digits_value_nonneg(mag);
                        lemma_nonneg_times_unit(digits_value(mag), unit as int);
                        assert(digits_value(mag) * (unit as int) > i64::MAX);
                    }
                }
                return Err(AuthError::ConfigError);
            },
        }
        k = k + 1;
    }
    proof {
        assert(s@.subrange(i as int, k as int) =~= mag);
        assert forall|q: int| 0 <= q < mag.len() implies is_digit_char(#[trigger] mag[q]) by {
            assert(mag[q] == s@[i + q]);
        }
    }
    match acc.checked_mul(unit) {
        Some(v) => {
            proof {
                lemma_nonneg_times_unit(acc as int, unit as int);
                assert(duration_seconds_spec(s@) == Some(v as int));
            }
            Ok(v)
        },
        None => {
            proof {
                lemma_nonneg_times_unit(acc as int, unit as int);
            }
            Err(AuthError::ConfigError)
        },
    }
}

} // verus!
