//! Relative start dates of a digest: `7d` is seven days ago, `2w` two weeks
//! ago; anything else is taken as a date as it stands.
use vstd::prelude::*;
use vstd::string::StringExecFns;
use crate::text::{chars_of, string_of};

verus! {

pub open spec fn is_digit(c: char) -> bool {
    '0' <= c && c <= '9'
}

pub open spec fn all_digits(s: Seq<char>) -> bool {
    forall|i: int| 0 <= i < s.len() ==> is_digit(#[trigger] s[i])
}

/// The value of a string of decimal digits.
pub open spec fn digits_value(s: Seq<char>) -> int
    decreases s.len(),
{
    if s.len() == 0 {
        0
    } else {
        digits_value(s.drop_last()) * 10 + (s.last() as int - '0' as int)
    }
}

/// The integer that a text writes: an optional `+` or `-` followed by at
/// least one decimal digit, and nothing else.
pub open spec fn decimal_value(s: Seq<char>) -> Option<int> {
    if s.len() > 0 && (s[0] == '+' || s[0] == '-') {
        let d = s.drop_first();
        if d.len() > 0 && all_digits(d) {
            Some(if s[0] == '-' { -digits_value(d) } else { digits_value(d) })
        } else {
            None
        }
    } else if s.len() > 0 && all_digits(s) {
        Some(digits_value(s))
    } else {
        None
    }
}

/// What `str::parse::<i64>` gives: the integer that the text writes, where
/// it fits in an `i64`.
pub open spec fn parsed_i64(s: Seq<char>) -> Option<i64> {
    match decimal_value(s) {
        Some(v) => if i64::MIN <= v <= i64::MAX {
            Some(v as i64)
        } else {
            None
        },
        None => None,
    }
}

/// Relies on `str::parse::<i64>`, which accepts an optional sign followed by
/// decimal digits and fails on anything else or on overflow.
#[verifier::external_body]
fn parse_i64(s: &str) -> (r: Option<i64>)
    ensures
        r == parsed_i64(s@),
{
    s.parse::<i64>().ok()
}

/// Relies on `chrono::Local::now`, `TimeDelta::try_days`,
/// `DateTime::checked_sub_signed` and `format("%Y-%m-%d")`: the local date
/// `days` days ago, or `None` where it is out of chrono's range. It depends on
/// the clock, so nothing is promised of the text.
#[verifier::external_body]
fn local_date_days_ago(days: i64) -> (r: Option<String>) {
    let delta = chrono::TimeDelta::try_days(days)?;
    chrono::Local::now().checked_sub_signed(delta).map(|d| d.format("%Y-%m-%d").to_string())
}

/// `s` without the copies of `c` at its end.
pub open spec fn strip_trailing(s: Seq<char>, c: char) -> Seq<char>
    decreases s.len(),
{
    if s.len() > 0 && s.last() == c {
        strip_trailing(s.drop_last(), c)
    } else {
        s
    }
}

/// How many days back a relative start goes: `<n>d` is `n` days and `<n>w`
/// is `7 * n` days; `None` for any other text, or where the count does not
/// fit in an `i64`.
pub open spec fn relative_days_of(s: Seq<char>) -> Option<i64> {
    if s.len() > 0 && s.last() == 'd' {
        parsed_i64(strip_trailing(s, 'd'))
    } else if s.len() > 0 && s.last() == 'w' {
        match parsed_i64(strip_trailing(s, 'w')) {
            Some(n) => if i64::MIN <= 7 * n <= i64::MAX {
                Some((7 * n) as i64)
            } else {
                None
            },
            None => None,
        }
    } else {
        None
    }
}

fn strip_trailing_chars(c: &Vec<char>, x: char) -> (r: Vec<char>)
    ensures
        r@ == strip_trailing(c@, x),
{
    let mut j: usize = c.len();
    assert(c@.take(j as int) =~= c@);
    while j > 0 && c[j - 1] == x
        invariant
            j <= c.len(),
            strip_trailing(c@, x) == strip_trailing(c@.take(j as int), x),
        decreases j,
    {
        assert(c@.take(j as int).drop_last() =~= c@.take(j - 1));
        j = j - 1;
    }
    let mut out: Vec<char> = Vec::new();
    let mut k: usize = 0;
    while k < j
        invariant
            k <= j <= c.len(),
            out@ == c@.take(k as int),
        decreases j - k,
    {
        out.push(c[k]);
        assert(out@ =~= c@.take(k + 1));
        k = k + 1;
    }
    out
}

/// How many days back a relative start such as `7d` or `2w` goes.
pub fn relative_days(since: &str) -> (r: Option<i64>)
    ensures
        r == relative_days_of(since@),
{
    let c = chars_of(since);
    assert(c@.take(c.len() as int) =~= c@);
    if c.len() > 0 && c[c.len() - 1] == 'd' {
        let p = string_of(&strip_trailing_chars(&c, 'd'));
        parse_i64(p.as_str())
    } else if c.len() > 0 && c[c.len() - 1] == 'w' {
        let p = string_of(&strip_trailing_chars(&c, 'w'));
        match parse_i64(p.as_str()) {
            Some(n) => n.checked_mul(7),
            None => None,
        }
    } else {
        None
    }
}

/// The effective start date given the date that a relative start resolved
/// to (`None` when it could not be resolved): that date for a relative
/// start, the text as it stands otherwise.
pub fn resolve_since(since: &str, resolved: Option<String>) -> (r: String)
    ensures
        r@ == match (relative_days_of(since@), resolved) {
            (Some(_), Some(d)) => d@,
            _ => since@,
        },
{
    match relative_days(since) {
        Some(_) => match resolved {
            Some(d) => d,
            None => String::from_str(since),
        },
        None => String::from_str(since),
    }
}

/// The effective start date of a digest: a relative start is resolved
/// against the local clock; any other text stands as it is.
pub fn parse_since_date(since: &str) -> (r: String)
    ensures
        relative_days_of(since@) is None ==> r@ == since@,
{
    match relative_days(since) {
        Some(days) => {
            let date = local_date_days_ago(days);
            resolve_since(since, date)
        },
        None => String::from_str(since),
    }
}

} // verus!
