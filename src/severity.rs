//! Ranks of severities and of proof-of-concept risk labels.
use vstd::prelude::*;
use vstd::string::StringExecFns;
use crate::text::{same_text, to_upper, trim_chars, string_of, trimmed, upper_of};

verus! {

/// Priority of a proof-of-concept risk label: `verified_exploit` beats
/// `trusted`, which beats `unverified_exploit`, which beats `unknown`; any
/// other label ranks lowest.
pub open spec fn risk_priority_of(label: Seq<char>) -> i32 {
    if label == "verified_exploit"@ {
        4
    } else if label == "trusted"@ {
        3
    } else if label == "unverified_exploit"@ {
        2
    } else if label == "unknown"@ {
        1
    } else {
        0
    }
}

/// Rank of an upper-case severity name; unrecognised names rank 0.
pub open spec fn rank_of_name(name: Seq<char>) -> i32 {
    if name == "CRITICAL"@ {
        4
    } else if name == "HIGH"@ {
        3
    } else if name == "MEDIUM"@ {
        2
    } else if name == "LOW"@ {
        1
    } else {
        0
    }
}

/// Rank of a severity as written by a feed or a user: trimmed, then upper-cased.
pub open spec fn severity_rank_of(sev: Seq<char>) -> i32 {
    rank_of_name(upper_of(trimmed(sev)))
}

/// The severity names, lowest first.
pub open spec fn severity_names() -> Seq<Seq<char>> {
    seq!["LOW"@, "MEDIUM"@, "HIGH"@, "CRITICAL"@]
}

/// The severity names whose rank is at least `min_rank`, lowest first; none
/// when no floor is set (`min_rank <= 0`).
pub open spec fn severities_at_or_above(min_rank: i32) -> Seq<Seq<char>> {
    if min_rank <= 0 {
        Seq::empty()
    } else if min_rank > 4 {
        Seq::empty()
    } else {
        severity_names().subrange(min_rank - 1, 4)
    }
}

/// Priority of a proof-of-concept risk label.
pub fn get_risk_priority(label: &str) -> (r: i32)
    ensures
        r == risk_priority_of(label@),
{
    if same_text(label, "verified_exploit") {
        4
    } else if same_text(label, "trusted") {
        3
    } else if same_text(label, "unverified_exploit") {
        2
    } else if same_text(label, "unknown") {
        1
    } else {
        0
    }
}

/// Rank of a severity name that is already trimmed and upper-cased.
pub fn rank_of_upper(name: &str) -> (r: i32)
    ensures
        r == rank_of_name(name@),
{
    if same_text(name, "CRITICAL") {
        4
    } else if same_text(name, "HIGH") {
        3
    } else if same_text(name, "MEDIUM") {
        2
    } else if same_text(name, "LOW") {
        1
    } else {
        0
    }
}

/// Rank of a severity: LOW=1, MEDIUM=2, HIGH=3, CRITICAL=4, regardless of
/// case and surrounding white space; anything else ranks 0.
pub fn severity_to_rank(sev: &str) -> (r: i32)
    ensures
        r == severity_rank_of(sev@),
{
    let t = string_of(&trim_chars(sev));
    let u = to_upper(t.as_str());
    rank_of_upper(u.as_str())
}

proof fn lemma_names_ranked()
    ensures
        rank_of_name("LOW"@) == 1,
        rank_of_name("MEDIUM"@) == 2,
        rank_of_name("HIGH"@) == 3,
        rank_of_name("CRITICAL"@) == 4,
{
    reveal_strlit("LOW");
    reveal_strlit("MEDIUM");
    reveal_strlit("HIGH");
    reveal_strlit("CRITICAL");
    assert("LOW"@.len() == 3);
    assert("HIGH"@.len() == 4);
    assert("MEDIUM"@.len() == 6);
    assert("CRITICAL"@.len() == 8);
    assert("MEDIUM"@[0] != "HIGH"@[0]);
}

/// The severity names at or above a minimum rank, for an `IN (...)` clause.
pub fn severities_from_rank(min_rank: i32) -> (r: Vec<String>)
    ensures
        crate::text::texts(r@) == severities_at_or_above(min_rank),
        forall|i: int| 0 <= i < r@.len() ==> rank_of_name(#[trigger] r@[i]@) >= min_rank,
{
    proof {
        lemma_names_ranked();
    }
    let mut out: Vec<String> = Vec::new();
    if min_rank <= 0 || min_rank > 4 {
        assert(crate::text::texts(out@) =~= severities_at_or_above(min_rank));
        return out;
    }
    if min_rank <= 1 {
        out.push(String::from_str("LOW"));
    }
    if min_rank <= 2 {
        out.push(String::from_str("MEDIUM"));
    }
    if min_rank <= 3 {
        out.push(String::from_str("HIGH"));
    }
    out.push(String::from_str("CRITICAL"));
    assert(crate::text::texts(out@) =~= severities_at_or_above(min_rank));
    out
}

/// Whether a stored severity (absent counts as `UNKNOWN`) reaches `min_rank`.
pub fn meets_severity_floor(severity: Option<&str>, min_rank: i32) -> (r: bool)
    ensures
        r == (severity_rank_of(
            match severity {
                Some(s) => s@,
                None => "UNKNOWN"@,
            },
        ) >= min_rank),
{
    let s = match severity {
        Some(s) => s,
        None => "UNKNOWN",
    };
    severity_to_rank(s) >= min_rank
}

} // verus!
