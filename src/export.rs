//! Cells of the delimited-text export. A free-text cell that a spreadsheet
//! would read as a formula gets a leading apostrophe.
use vstd::prelude::*;
use crate::text::{chars_of, string_of};

verus! {

/// The form of an export.
#[derive(Clone, Copy, Debug, PartialEq, Eq, Structural)]
pub enum ExportFormat {
    Json,
    Csv,
}

/// The header line of the delimited-text export.
pub fn csv_header() -> (r: &'static str)
    ensures
        r@ == "cve_id,severity,cvss_v3_score,epss_score,publish_date,title"@,
{
    "cve_id,severity,cvss_v3_score,epss_score,publish_date,title"
}

/// Whether a spreadsheet would read `s` as a formula: it starts with `=`,
/// `+`, `-` or `@`.
pub open spec fn starts_formula(s: Seq<char>) -> bool {
    s.len() > 0 && (s[0] == '=' || s[0] == '+' || s[0] == '-' || s[0] == '@')
}

/// `s` with a leading apostrophe when it starts like a formula.
pub open spec fn neutralized(s: Seq<char>) -> Seq<char> {
    if starts_formula(s) {
        seq!['\''] + s
    } else {
        s
    }
}

/// `s` with each double quote doubled.
pub open spec fn doubled_quotes(s: Seq<char>) -> Seq<char>
    decreases s.len(),
{
    if s.len() == 0 {
        Seq::empty()
    } else if s.last() == '"' {
        doubled_quotes(s.drop_last()) + seq!['"', '"']
    } else {
        doubled_quotes(s.drop_last()).push(s.last())
    }
}

/// The quoted cell of a free-text field.
pub open spec fn text_cell(s: Seq<char>) -> Seq<char> {
    seq!['"'] + doubled_quotes(neutralized(s)) + seq!['"']
}

/// The quoted cell of a free-text field: neutralised when it starts like a
/// formula, inner quotes doubled.
pub fn csv_text_cell(s: &str) -> (r: String)
    ensures
        r@ == text_cell(s@),
{
    let c = chars_of(s);
    let mut src: Vec<char> = Vec::new();
    if c.len() > 0 && (c[0] == '=' || c[0] == '+' || c[0] == '-' || c[0] == '@') {
        src.push('\'');
    }
    let mut k: usize = 0;
    let ghost pre = src@;
    while k < c.len()
        invariant
            k <= c.len(),
            c@ == s@,
            src@ == pre + c@.take(k as int),
        decreases c.len() - k,
    {
        src.push(c[k]);
        assert(src@ =~= pre + c@.take(k + 1));
        k = k + 1;
    }
    assert(src@ =~= neutralized(s@));
    let mut out: Vec<char> = Vec::new();
    out.push('"');
    let mut i: usize = 0;
    while i < src.len()
        invariant
            i <= src.len(),
            src@ == neutralized(s@),
            out@ == seq!['"'] + doubled_quotes(src@.take(i as int)),
        decreases src.len() - i,
    {
        assert(src@.take(i + 1).drop_last() =~= src@.take(i as int));
        let ch = src[i];
        if ch == '"' {
            out.push('"');
        }
        out.push(ch);
        assert(out@ =~= seq!['"'] + doubled_quotes(src@.take(i + 1)));
        i = i + 1;
    }
    assert(src@.take(src.len() as int) =~= src@);
    out.push('"');
    string_of(&out)
}

} // verus!
