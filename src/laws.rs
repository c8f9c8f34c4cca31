//! Properties that hold over every input: of the merge rules, and of the
//! query texts that the filter builder produces.
use vstd::prelude::*;
use crate::record::{
    CveModel, PartialModel, merged_model, accepted_extra, bounded_extra, higher_label,
    max_count, MAX_EXTRA_KEYS,
};
use crate::severity::risk_priority_of;
use crate::filter::{
    FilterCriteria, ParamModel, list_sql, list_params, contains_pattern, clause, text_param,
    pattern_param, escape_like, is_like_special, like_tokens, literals, LikeToken,
};

verus! {

broadcast use vstd::seq_lib::group_seq_properties;

/// Ingesting the same record again from the same feed changes nothing: the
/// state after two ingestions equals the state after one, whatever state the
/// identifier had before. In particular `sources` holds that feed once.
pub proof fn lemma_reingest_is_noop(existing: Option<CveModel>, p: PartialModel, source: Seq<char>)
    ensures
        merged_model(Some(merged_model(existing, p, source)), p, source) == merged_model(
            existing,
            p,
            source,
        ),
{
    let once = merged_model(existing, p, source);
    let twice = merged_model(Some(once), p, source);
    let acc = accepted_extra(p.extra);
    assert(once.extra.union_prefer_right(acc) =~= once.extra);
    assert(twice.vendors =~= once.vendors);
    assert(twice.products =~= once.products);
    assert(twice.references =~= once.references);
    assert(twice.sources =~= once.sources);
    assert(twice.cwe_ids =~= once.cwe_ids);
    assert(twice.poc_sources =~= once.poc_sources);
    if once.extra == acc {
        assert(acc.union_prefer_right(acc) =~= acc);
    }
    assert(twice.extra =~= once.extra);
}

/// A merge never loses ground: the flags stay set, every set keeps what it
/// held, the feed joins the sources, the PoC count does not fall and the risk
/// label does not drop in priority.
pub proof fn lemma_merge_is_monotone(b: CveModel, p: PartialModel, source: Seq<char>)
    ensures
        ({
            let r = merged_model(Some(b), p, source);
            &&& b.is_in_kev ==> r.is_in_kev
            &&& b.exploit_exists ==> r.exploit_exists
            &&& b.vendors.subset_of(r.vendors)
            &&& b.products.subset_of(r.products)
            &&& b.references.subset_of(r.references)
            &&& b.cwe_ids.subset_of(r.cwe_ids)
            &&& b.poc_sources.subset_of(r.poc_sources)
            &&& b.sources.subset_of(r.sources)
            &&& r.sources.contains(source)
            &&& b.poc_repo_count is Some ==> (r.poc_repo_count is Some && r.poc_repo_count->0
                >= b.poc_repo_count->0)
            &&& b.poc_repo_count is Some && p.poc_repo_count is Some ==> r.poc_repo_count->0
                >= p.poc_repo_count->0
            &&& b.poc_risk_label is Some ==> (r.poc_risk_label is Some && risk_priority_of(
                r.poc_risk_label->0,
            ) >= risk_priority_of(b.poc_risk_label->0))
        }),
{
}

/// Whatever order two feeds arrive in, the risk label ends the same, unless
/// the two supply different labels of equal priority (then the first stays).
pub proof fn lemma_label_order_independent(
    existing: Option<CveModel>,
    a: PartialModel,
    b: PartialModel,
    sa: Seq<char>,
    sb: Seq<char>,
)
    requires
        a.poc_risk_label is None || b.poc_risk_label is None || a.poc_risk_label
            == b.poc_risk_label || risk_priority_of(a.poc_risk_label->0) != risk_priority_of(
            b.poc_risk_label->0,
        ),
    ensures
        merged_model(Some(merged_model(existing, a, sa)), b, sb).poc_risk_label == merged_model(
            Some(merged_model(existing, b, sb)),
            a,
            sa,
        ).poc_risk_label,
{
}

/// The label that the higher-priority rule keeps from any two labels.
pub proof fn lemma_higher_label_wins(old: Seq<char>, new: Seq<char>)
    requires
        risk_priority_of(new) > risk_priority_of(old),
    ensures
        higher_label(Some(old), Some(new)) == Some(new),
        higher_label(Some(new), Some(old)) == Some(new),
{
}

/// The PoC count keeps the larger value in either order.
pub proof fn lemma_count_order_independent(a: i64, b: i64)
    ensures
        max_count(Some(a), Some(b)) == max_count(Some(b), Some(a)),
        max_count(Some(a), Some(b)) == Some(if a >= b { a } else { b }),
        max_count(Some(a), None) == Some(a),
{
}

proof fn lemma_accepted_finite(s: Seq<(Seq<char>, Seq<char>)>)
    ensures
        accepted_extra(s).dom().finite(),
    decreases s.len(),
{
    if s.len() > 0 {
        lemma_accepted_finite(s.drop_last());
    }
}

/// When the bag holds `MAX_EXTRA_KEYS` keys and a record brings an accepted
/// key that it lacks, the bag is cleared and rebuilt from that record alone.
pub proof fn lemma_extra_overflow_restarts(
    b: CveModel,
    p: PartialModel,
    source: Seq<char>,
    k: Seq<char>,
)
    requires
        b.extra.dom().finite(),
        b.extra.dom().len() == MAX_EXTRA_KEYS,
        accepted_extra(p.extra).dom().contains(k),
        !b.extra.dom().contains(k),
    ensures
        merged_model(Some(b), p, source).extra == accepted_extra(p.extra),
{
    let acc = accepted_extra(p.extra);
    lemma_accepted_finite(p.extra);
    let u = b.extra.union_prefer_right(acc);
    assert(u.dom() =~= b.extra.dom() + acc.dom());
    assert(b.extra.dom().insert(k).subset_of(u.dom()));
    vstd::set_lib::lemma_len_subset(b.extra.dom().insert(k), u.dom());
    assert(bounded_extra(b.extra, acc) == acc);
}

/// The extra bag stays within `MAX_EXTRA_KEYS` keys whenever the incoming
/// record brings no more than that many accepted keys.
pub proof fn lemma_extra_stays_bounded(existing: Option<CveModel>, p: PartialModel, source: Seq<char>)
    requires
        accepted_extra(p.extra).dom().len() <= MAX_EXTRA_KEYS,
    ensures
        merged_model(existing, p, source).extra.dom().len() <= MAX_EXTRA_KEYS,
{
}

/// The query text of a listing depends only on which criteria are present,
/// never on their values: two criteria with the same criteria present give
/// the same text, whatever quotes or SQL a value holds. The values reach the
/// store only as bound parameters.
pub proof fn lemma_query_text_ignores_values(c1: FilterCriteria, c2: FilterCriteria)
    requires
        c1.since is Some <==> c2.since is Some,
        c1.until is Some <==> c2.until is Some,
        c1.severity is Some <==> c2.severity is Some,
        c1.keyword is Some <==> c2.keyword is Some,
        c1.cwe is Some <==> c2.cwe is Some,
        c1.attack_vector is Some <==> c2.attack_vector is Some,
        c1.in_kev == c2.in_kev,
        c1.source is Some <==> c2.source is Some,
        c1.vendor is Some <==> c2.vendor is Some,
        c1.product is Some <==> c2.product is Some,
    ensures
        list_sql(c1) == list_sql(c2),
{
    let (a, b) = (c1, c2);
    assert(clause(a.since is Some, " AND publish_date >= ?"@) == clause(b.since is Some, " AND publish_date >= ?"@));
    assert(clause(a.until is Some, " AND publish_date <= ?"@) == clause(b.until is Some, " AND publish_date <= ?"@));
    assert(clause(a.severity is Some, " AND severity = ?"@) == clause(b.severity is Some, " AND severity = ?"@));
    assert(clause(a.keyword is Some, " AND (title LIKE ? ESCAPE '\\' OR description LIKE ? ESCAPE '\\')"@)
        == clause(b.keyword is Some, " AND (title LIKE ? ESCAPE '\\' OR description LIKE ? ESCAPE '\\')"@));
    assert(clause(a.cwe is Some, " AND cwe_ids LIKE ? ESCAPE '\\'"@) == clause(b.cwe is Some, " AND cwe_ids LIKE ? ESCAPE '\\'"@));
    assert(clause(a.attack_vector is Some, " AND attack_vector = ?"@) == clause(b.attack_vector is Some, " AND attack_vector = ?"@));
    assert(clause(a.source is Some, " AND sources LIKE ? ESCAPE '\\'"@) == clause(b.source is Some, " AND sources LIKE ? ESCAPE '\\'"@));
    assert(clause(a.vendor is Some, " AND vendors LIKE ? ESCAPE '\\'"@) == clause(b.vendor is Some, " AND vendors LIKE ? ESCAPE '\\'"@));
    assert(clause(a.product is Some, " AND products LIKE ? ESCAPE '\\'"@) == clause(b.product is Some, " AND products LIKE ? ESCAPE '\\'"@));
}

/// A vendor value is bound as the substring pattern of that value, whatever
/// it holds.
pub proof fn lemma_vendor_is_bound(c: FilterCriteria)
    requires
        c.vendor is Some,
    ensures
        list_params(c).contains(ParamModel::Text(contains_pattern(c.vendor->0@))),
{
    let v = ParamModel::Text(contains_pattern(c.vendor->0@));
    let pre = text_param(c.since) + text_param(c.until) + text_param(c.severity) + pattern_param(
        c.keyword,
    ) + pattern_param(c.keyword) + pattern_param(c.cwe) + text_param(c.attack_vector)
        + pattern_param(c.source);
    let post = pattern_param(c.product) + seq![ParamModel::Int(c.limit)];
    assert(list_params(c) =~= pre + seq![v] + post);
    assert((pre + seq![v] + post)[pre.len() as int] == v);
}

/// With no criteria a listing is the whole table, newest publish date first,
/// at most `limit` rows.
pub proof fn lemma_no_criteria_lists_all(c: FilterCriteria)
    requires
        c.since is None,
        c.until is None,
        c.severity is None,
        c.keyword is None,
        c.cwe is None,
        c.attack_vector is None,
        !c.in_kev,
        c.source is None,
        c.vendor is None,
        c.product is None,
    ensures
        list_sql(c) == "SELECT * FROM cve_records WHERE 1=1"@
            + " ORDER BY publish_date DESC LIMIT ?"@,
        list_params(c) == seq![ParamModel::Int(c.limit)],
{
    assert(list_sql(c) =~= "SELECT * FROM cve_records WHERE 1=1"@
        + " ORDER BY publish_date DESC LIMIT ?"@);
    assert(list_params(c) =~= seq![ParamModel::Int(c.limit)]);
}

/// A severity criterion and the KEV flag together give a conjunction of the
/// two: a record is listed only if it matches both.
pub proof fn lemma_severity_and_kev_conjoin(c: FilterCriteria)
    requires
        c.since is None,
        c.until is None,
        c.severity is Some,
        c.keyword is None,
        c.cwe is None,
        c.attack_vector is None,
        c.in_kev,
        c.source is None,
        c.vendor is None,
        c.product is None,
    ensures
        list_sql(c) == "SELECT * FROM cve_records WHERE 1=1"@ + " AND severity = ?"@
            + " AND is_in_kev = 1"@ + " ORDER BY publish_date DESC LIMIT ?"@,
        list_params(c) == seq![ParamModel::Text(c.severity->0@), ParamModel::Int(c.limit)],
{
    assert(list_sql(c) =~= "SELECT * FROM cve_records WHERE 1=1"@ + " AND severity = ?"@
        + " AND is_in_kev = 1"@ + " ORDER BY publish_date DESC LIMIT ?"@);
    assert(list_params(c) =~= seq![ParamModel::Text(c.severity->0@), ParamModel::Int(c.limit)]);
}

spec fn escaped_char(c: char) -> Seq<char> {
    if is_like_special(c) {
        seq!['\\', c]
    } else {
        seq![c]
    }
}

proof fn lemma_escape_front(x: Seq<char>)
    requires
        x.len() > 0,
    ensures
        escape_like(x) == escaped_char(x[0]) + escape_like(x.drop_first()),
    decreases x.len(),
{
    if x.len() == 1 {
        assert(x.drop_last() =~= Seq::<char>::empty());
        assert(x.drop_first() =~= Seq::<char>::empty());
        assert(escape_like(x) =~= escaped_char(x[0]) + escape_like(x.drop_first()));
    } else {
        let d = x.drop_last();
        lemma_escape_front(d);
        assert(d.drop_first() =~= x.drop_first().drop_last());
        assert(x.drop_first().last() == x.last());
        assert(escape_like(x) =~= escaped_char(x[0]) + escape_like(x.drop_first()));
    }
}

proof fn lemma_plain_char_reads_literally(p: Seq<char>)
    requires
        p.len() >= 1,
        !is_like_special(p[0]),
    ensures
        like_tokens(p) == seq![LikeToken::Exact(p[0] as u32)] + like_tokens(p.drop_first()),
{
    assert(!(p[0] == '\\' && p.len() >= 2));
    assert(p[0] != '%');
    assert(p[0] != '_');
    assert(like_tokens(p) == seq![LikeToken::Exact(p[0] as u32)] + like_tokens(p.subrange(1, p.len() as int)));
    assert(p.subrange(1, p.len() as int) =~= p.drop_first());
}

proof fn lemma_escape_reads_literally(x: Seq<char>, y: Seq<char>)
    ensures
        like_tokens(escape_like(x) + y) == literals(x) + like_tokens(y),
    decreases x.len(),
{
    if x.len() == 0 {
        assert(escape_like(x) + y =~= y);
        assert(literals(x) + like_tokens(y) =~= like_tokens(y));
    } else {
        lemma_escape_front(x);
        let z = escape_like(x.drop_first()) + y;
        let p = escape_like(x) + y;
        assert(p =~= escaped_char(x[0]) + z);
        lemma_escape_reads_literally(x.drop_first(), y);
        if is_like_special(x[0]) {
            assert(p[0] == '\\' && p[1] == x[0] && p.len() >= 2);
            assert(p.subrange(2, p.len() as int) =~= z);
            assert(like_tokens(p) == seq![LikeToken::Exact(p[1] as u32)] + like_tokens(p.subrange(2, p.len() as int)));
        } else {
            assert(p.len() >= 1 && p[0] == x[0]);
            assert(p.drop_first() =~= z);
            lemma_plain_char_reads_literally(p);
        }
        let head = seq![LikeToken::Exact(x[0] as u32)];
        assert(like_tokens(p) == head + like_tokens(z));
        assert(like_tokens(p) =~= literals(x) + like_tokens(y));
    }
}

/// A substring criterion is matched literally: whatever quotes, wildcards or
/// backslashes the value holds, its pattern reads as any run, then each
/// character of the value as itself, then any run.
pub proof fn lemma_substring_pattern_is_literal(v: Seq<char>)
    ensures
        like_tokens(contains_pattern(v)) == seq![LikeToken::AnyRun] + literals(v) + seq![
            LikeToken::AnyRun,
        ],
{
    let p = contains_pattern(v);
    let tail = seq!['%'];
    assert(p.subrange(1, p.len() as int) =~= escape_like(v) + tail);
    lemma_escape_reads_literally(v, tail);
    assert(tail.drop_first() =~= Seq::<char>::empty());
    assert(like_tokens(Seq::<char>::empty()) =~= Seq::empty());
    assert(tail[0] == '%');
    assert(tail.subrange(1, 1) =~= Seq::<char>::empty());
    assert(like_tokens(tail) =~= seq![LikeToken::AnyRun]);
    assert(like_tokens(p) =~= seq![LikeToken::AnyRun] + literals(v) + seq![LikeToken::AnyRun]);
}

} // verus!
