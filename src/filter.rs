//! The filter predicate builder: turns optional criteria into a query text
//! with `?` placeholders and the values bound to them, in order. The query text
//! depends only on which criteria are present; every value supplied by a user
//! travels as a bound parameter, and substring criteria escape the LIKE
//! wildcards so that they match literally.
use vstd::prelude::*;
use vstd::string::StringExecFns;
use crate::text::{chars_of, string_of, texts};
use crate::severity::{severity_to_rank, severity_rank_of, severities_from_rank, severities_at_or_above};

verus! {

broadcast use vstd::seq_lib::group_seq_properties;

/// Optional criteria of a listing; each one present adds one conjunct.
#[derive(Clone, Debug)]
pub struct FilterCriteria {
    pub since: Option<String>,
    pub until: Option<String>,
    pub severity: Option<String>,
    pub keyword: Option<String>,
    pub cwe: Option<String>,
    pub attack_vector: Option<String>,
    pub in_kev: bool,
    pub source: Option<String>,
    pub vendor: Option<String>,
    pub product: Option<String>,
    pub limit: i64,
}

/// A value bound to a placeholder.
#[derive(Clone, Debug)]
pub enum SqlParam {
    Text(String),
    Int(i64),
}

/// A bound value, as what it holds.
pub ghost enum ParamModel {
    Text(Seq<char>),
    Int(i64),
}

impl View for SqlParam {
    type V = ParamModel;

    open spec fn view(&self) -> ParamModel {
        match self {
            SqlParam::Text(s) => ParamModel::Text(s@),
            SqlParam::Int(n) => ParamModel::Int(*n),
        }
    }
}

/// A query text with its parameters, in placeholder order.
#[derive(Clone, Debug)]
pub struct SqlQuery {
    pub sql: String,
    pub params: Vec<SqlParam>,
}

pub open spec fn param_views(ps: Seq<SqlParam>) -> Seq<ParamModel> {
    ps.map_values(|p: SqlParam| p@)
}

/// One item of a watchlist: the records it follows.
#[derive(Clone, Debug)]
pub struct WatchlistItem {
    pub name: String,
    pub keywords: Option<Vec<String>>,
    pub vendors: Option<Vec<String>>,
    pub products: Option<Vec<String>>,
    pub severity_min: Option<String>,
}

/// A named set of watchlist items.
#[derive(Clone, Debug)]
pub struct WatchlistConfig {
    pub items: Vec<WatchlistItem>,
}

/// The characters that LIKE treats specially: the two wildcards and the
/// escape character itself.
pub open spec fn is_like_special(c: char) -> bool {
    c == '%' || c == '_' || c == '\\'
}

/// `s` with each LIKE special character preceded by a backslash.
pub open spec fn escape_like(s: Seq<char>) -> Seq<char>
    decreases s.len(),
{
    if s.len() == 0 {
        Seq::empty()
    } else if is_like_special(s.last()) {
        escape_like(s.drop_last()) + seq!['\\', s.last()]
    } else {
        escape_like(s.drop_last()).push(s.last())
    }
}

/// One element of a LIKE pattern as the store reads it with `\` as the
/// escape character.
pub ghost enum LikeToken {
    /// `%`: any run of characters.
    AnyRun,
    /// `_`: any one character.
    AnyOne,
    /// A character, by its code point, that matches itself.
    Exact(u32),
}

/// How a LIKE pattern with escape character `\` reads: an escaped character
/// is literal, `%` and `_` are wildcards, any other character is literal.
pub open spec fn like_tokens(p: Seq<char>) -> Seq<LikeToken>
    decreases p.len(),
{
    if p.len() == 0 {
        Seq::empty()
    } else if p[0] == '\\' && p.len() >= 2 {
        seq![LikeToken::Exact(p[1] as u32)] + like_tokens(p.subrange(2, p.len() as int))
    } else if p[0] == '%' {
        seq![LikeToken::AnyRun] + like_tokens(p.subrange(1, p.len() as int))
    } else if p[0] == '_' {
        seq![LikeToken::AnyOne] + like_tokens(p.subrange(1, p.len() as int))
    } else {
        seq![LikeToken::Exact(p[0] as u32)] + like_tokens(p.subrange(1, p.len() as int))
    }
}

/// Each character of `s` as a literal.
pub open spec fn literals(s: Seq<char>) -> Seq<LikeToken>
    decreases s.len(),
{
    if s.len() == 0 {
        Seq::empty()
    } else {
        seq![LikeToken::Exact(s[0] as u32)] + literals(s.drop_first())
    }
}

/// The LIKE pattern that matches any text holding `s` as a substring.
pub open spec fn contains_pattern(s: Seq<char>) -> Seq<char> {
    seq!['%'] + escape_like(s) + seq!['%']
}

pub open spec fn clause(present: bool, text: Seq<char>) -> Seq<char> {
    if present {
        text
    } else {
        Seq::empty()
    }
}

pub open spec fn text_param(o: Option<String>) -> Seq<ParamModel> {
    match o {
        Some(s) => seq![ParamModel::Text(s@)],
        None => Seq::empty(),
    }
}

pub open spec fn pattern_param(o: Option<String>) -> Seq<ParamModel> {
    match o {
        Some(s) => seq![ParamModel::Text(contains_pattern(s@))],
        None => Seq::empty(),
    }
}

/// The query text of a listing: one conjunct per criterion present, newest
/// publish date first, at most `limit` rows.
pub open spec fn list_sql(c: FilterCriteria) -> Seq<char> {
    "SELECT * FROM cve_records WHERE 1=1"@ + clause(c.since is Some, " AND publish_date >= ?"@)
        + clause(c.until is Some, " AND publish_date <= ?"@) + clause(
        c.severity is Some,
        " AND severity = ?"@,
    ) + clause(
        c.keyword is Some,
        " AND (title LIKE ? ESCAPE '\\' OR description LIKE ? ESCAPE '\\')"@,
    ) + clause(c.cwe is Some, " AND cwe_ids LIKE ? ESCAPE '\\'"@) + clause(
        c.attack_vector is Some,
        " AND attack_vector = ?"@,
    ) + clause(c.in_kev, " AND is_in_kev = 1"@) + clause(
        c.source is Some,
        " AND sources LIKE ? ESCAPE '\\'"@,
    ) + clause(c.vendor is Some, " AND vendors LIKE ? ESCAPE '\\'"@) + clause(
        c.product is Some,
        " AND products LIKE ? ESCAPE '\\'"@,
    ) + " ORDER BY publish_date DESC LIMIT ?"@
}

/// The values bound to the placeholders of `list_sql(c)`, in order.
pub open spec fn list_params(c: FilterCriteria) -> Seq<ParamModel> {
    text_param(c.since) + text_param(c.until) + text_param(c.severity) + pattern_param(c.keyword)
        + pattern_param(c.keyword) + pattern_param(c.cwe) + text_param(c.attack_vector)
        + pattern_param(c.source) + pattern_param(c.vendor) + pattern_param(c.product) + seq![
        ParamModel::Int(c.limit),
    ]
}

/// The query text of an export: records published since a date and of a
/// severity, each when given.
pub open spec fn export_sql(since: bool, severity: bool) -> Seq<char> {
    "SELECT * FROM cve_records WHERE 1=1"@ + clause(since, " AND publish_date >= ?"@) + clause(
        severity,
        " AND severity = ?"@,
    )
}

/// The LIKE pattern that matches `s` as a substring, escaped.
pub fn like_contains(s: &str) -> (r: String)
    ensures
        r@ == contains_pattern(s@),
{
    let c = chars_of(s);
    let mut out: Vec<char> = Vec::new();
    out.push('%');
    let mut i: usize = 0;
    while i < c.len()
        invariant
            i <= c.len(),
            c@ == s@,
            out@ == seq!['%'] + escape_like(c@.take(i as int)),
        decreases c.len() - i,
    {
        let ch = c[i];
        assert(c@.take(i + 1).drop_last() =~= c@.take(i as int));
        if ch == '%' || ch == '_' || ch == '\\' {
            out.push('\\');
        }
        out.push(ch);
        assert(out@ =~= seq!['%'] + escape_like(c@.take(i + 1)));
        i = i + 1;
    }
    assert(c@.take(c.len() as int) =~= s@);
    out.push('%');
    string_of(&out)
}

fn push_clause(sql: &mut String, present: bool, text: &str)
    ensures
        final(sql)@ == old(sql)@ + clause(present, text@),
{
    if present {
        sql.append(text);
    } else {
        assert(sql@ =~= old(sql)@ + Seq::empty());
    }
}

fn push_text(ps: &mut Vec<SqlParam>, o: &Option<String>)
    ensures
        param_views(final(ps)@) == param_views(old(ps)@) + text_param(*o),
{
    match o {
        Some(s) => {
            ps.push(SqlParam::Text(s.clone()));
            assert(param_views(ps@) =~= param_views(old(ps)@) + text_param(*o));
        },
        None => {
            assert(param_views(ps@) =~= param_views(old(ps)@) + text_param(*o));
        },
    }
}

fn push_pattern(ps: &mut Vec<SqlParam>, o: &Option<String>)
    ensures
        param_views(final(ps)@) == param_views(old(ps)@) + pattern_param(*o),
{
    match o {
        Some(s) => {
            ps.push(SqlParam::Text(like_contains(s.as_str())));
            assert(param_views(ps@) =~= param_views(old(ps)@) + pattern_param(*o));
        },
        None => {
            assert(param_views(ps@) =~= param_views(old(ps)@) + pattern_param(*o));
        },
    }
}

/// The query of a listing under `c`.
#[verifier::rlimit(40)]
pub fn build_list_query(c: &FilterCriteria) -> (r: SqlQuery)
    ensures
        r.sql@ == list_sql(*c),
        param_views(r.params@) == list_params(*c),
{
    let mut sql = String::from_str("SELECT * FROM cve_records WHERE 1=1");
    push_clause(&mut sql, c.since.is_some(), " AND publish_date >= ?");
    push_clause(&mut sql, c.until.is_some(), " AND publish_date <= ?");
    push_clause(&mut sql, c.severity.is_some(), " AND severity = ?");
    push_clause(
        &mut sql,
        c.keyword.is_some(),
        " AND (title LIKE ? ESCAPE '\\' OR description LIKE ? ESCAPE '\\')",
    );
    push_clause(&mut sql, c.cwe.is_some(), " AND cwe_ids LIKE ? ESCAPE '\\'");
    push_clause(&mut sql, c.attack_vector.is_some(), " AND attack_vector = ?");
    push_clause(&mut sql, c.in_kev, " AND is_in_kev = 1");
    push_clause(&mut sql, c.source.is_some(), " AND sources LIKE ? ESCAPE '\\'");
    push_clause(&mut sql, c.vendor.is_some(), " AND vendors LIKE ? ESCAPE '\\'");
    push_clause(&mut sql, c.product.is_some(), " AND products LIKE ? ESCAPE '\\'");
    sql.append(" ORDER BY publish_date DESC LIMIT ?");
    let mut ps: Vec<SqlParam> = Vec::new();
    assert(param_views(ps@) =~= Seq::empty());
    push_text(&mut ps, &c.since);
    push_text(&mut ps, &c.until);
    push_text(&mut ps, &c.severity);
    push_pattern(&mut ps, &c.keyword);
    push_pattern(&mut ps, &c.keyword);
    push_pattern(&mut ps, &c.cwe);
    push_text(&mut ps, &c.attack_vector);
    push_pattern(&mut ps, &c.source);
    push_pattern(&mut ps, &c.vendor);
    push_pattern(&mut ps, &c.product);
    let ghost before = param_views(ps@);
    ps.push(SqlParam::Int(c.limit));
    assert(param_views(ps@) =~= before + seq![ParamModel::Int(c.limit)]);
    assert(param_views(ps@) =~= list_params(*c));
    SqlQuery { sql, params: ps }
}

/// The query of an export: records published since `since` and of severity
/// `severity`, each when given.
pub fn build_export_query(since: &Option<String>, severity: &Option<String>) -> (r: SqlQuery)
    ensures
        r.sql@ == export_sql(since is Some, severity is Some),
        param_views(r.params@) == text_param(*since) + text_param(*severity),
{
    let mut sql = String::from_str("SELECT * FROM cve_records WHERE 1=1");
    push_clause(&mut sql, since.is_some(), " AND publish_date >= ?");
    push_clause(&mut sql, severity.is_some(), " AND severity = ?");
    let mut ps: Vec<SqlParam> = Vec::new();
    assert(param_views(ps@) =~= Seq::empty());
    push_text(&mut ps, since);
    push_text(&mut ps, severity);
    assert(param_views(ps@) =~= text_param(*since) + text_param(*severity));
    SqlQuery { sql, params: ps }
}

/// The query of a lookup by exact identifier.
pub fn build_show_query(cve_id: &str) -> (r: SqlQuery)
    ensures
        r.sql@ == "SELECT * FROM cve_records WHERE cve_id = ?"@,
        param_views(r.params@) == seq![ParamModel::Text(cve_id@)],
{
    let mut ps: Vec<SqlParam> = Vec::new();
    ps.push(SqlParam::Text(String::from_str(cve_id)));
    assert(param_views(ps@) =~= seq![ParamModel::Text(cve_id@)]);
    SqlQuery { sql: String::from_str("SELECT * FROM cve_records WHERE cve_id = ?"), params: ps }
}

/// `n` copies of `unit` separated by `sep`.
pub open spec fn repeat_joined(unit: Seq<char>, sep: Seq<char>, n: nat) -> Seq<char>
    decreases n,
{
    if n == 0 {
        Seq::empty()
    } else if n == 1 {
        unit
    } else {
        repeat_joined(unit, sep, (n - 1) as nat) + sep + unit
    }
}

/// The parts separated by `sep`.
pub open spec fn joined(parts: Seq<Seq<char>>, sep: Seq<char>) -> Seq<char>
    decreases parts.len(),
{
    if parts.len() == 0 {
        Seq::empty()
    } else if parts.len() == 1 {
        parts[0]
    } else {
        joined(parts.drop_last(), sep) + sep + parts.last()
    }
}

/// A disjunction of `n` copies of `unit`, in parentheses.
pub open spec fn or_group(unit: Seq<char>, n: nat) -> Seq<char> {
    "("@ + repeat_joined(unit, " OR "@, n) + ")"@
}

pub open spec fn list_items(o: Option<Vec<String>>) -> Seq<Seq<char>> {
    match o {
        Some(v) => texts(v@),
        None => Seq::empty(),
    }
}

pub open spec fn group_if_any(unit: Seq<char>, n: nat) -> Seq<Seq<char>> {
    if n > 0 {
        seq![or_group(unit, n)]
    } else {
        Seq::empty()
    }
}

pub open spec fn keyword_unit() -> Seq<char> {
    "(title LIKE ? ESCAPE '\\' OR description LIKE ? ESCAPE '\\')"@
}

pub open spec fn vendor_unit() -> Seq<char> {
    "vendors LIKE ? ESCAPE '\\'"@
}

pub open spec fn product_unit() -> Seq<char> {
    "products LIKE ? ESCAPE '\\'"@
}

/// One disjunction for each non-empty list of the item.
pub open spec fn watch_groups(item: WatchlistItem) -> Seq<Seq<char>> {
    group_if_any(keyword_unit(), list_items(item.keywords).len()) + group_if_any(
        vendor_unit(),
        list_items(item.vendors).len(),
    ) + group_if_any(product_unit(), list_items(item.products).len())
}

/// The severity floor of an item; none (0) when it sets none.
pub open spec fn watch_min_rank_of(item: WatchlistItem) -> i32 {
    match item.severity_min {
        Some(s) => severity_rank_of(s@),
        None => 0,
    }
}

/// The query text of a watchlist item: records published since a date,
/// matching each non-empty list, matching the identifier pattern when one is
/// given, and of a severity at or above the item's floor.
pub open spec fn digest_sql(item: WatchlistItem, has_pattern: bool) -> Seq<char> {
    let groups = watch_groups(item);
    let sevs = severities_at_or_above(watch_min_rank_of(item));
    "SELECT * FROM cve_records WHERE publish_date >= ?"@ + clause(
        groups.len() > 0,
        " AND ("@ + joined(groups, " AND "@) + ")"@,
    ) + clause(has_pattern, " AND cve_id LIKE ?"@) + clause(
        sevs.len() > 0,
        " AND severity IN ("@ + repeat_joined("?"@, ", "@, sevs.len()) + ")"@,
    ) + " ORDER BY publish_date DESC"@
}

pub open spec fn doubled_patterns(s: Seq<Seq<char>>) -> Seq<ParamModel>
    decreases s.len(),
{
    if s.len() == 0 {
        Seq::empty()
    } else {
        doubled_patterns(s.drop_last()) + seq![
            ParamModel::Text(contains_pattern(s.last())),
            ParamModel::Text(contains_pattern(s.last())),
        ]
    }
}

pub open spec fn patterns(s: Seq<Seq<char>>) -> Seq<ParamModel> {
    s.map_values(|v: Seq<char>| ParamModel::Text(contains_pattern(v)))
}

pub open spec fn plain_texts(s: Seq<Seq<char>>) -> Seq<ParamModel> {
    s.map_values(|v: Seq<char>| ParamModel::Text(v))
}

/// An identifier pattern as bound: a trailing `%` is added when it has no
/// wildcard `%`, so that a plain prefix matches.
pub open spec fn id_pattern(p: Seq<char>) -> Seq<char> {
    if p.contains('%') {
        p
    } else {
        p.push('%')
    }
}

/// The values bound to the placeholders of `digest_sql`, in order.
pub open spec fn digest_params(item: WatchlistItem, since: Seq<char>, pattern: Option<Seq<char>>) -> Seq<
    ParamModel,
> {
    seq![ParamModel::Text(since)] + doubled_patterns(list_items(item.keywords)) + patterns(
        list_items(item.vendors),
    ) + patterns(list_items(item.products)) + match pattern {
        Some(p) => seq![ParamModel::Text(id_pattern(p))],
        None => Seq::empty(),
    } + plain_texts(severities_at_or_above(watch_min_rank_of(item)))
}

/// `n` copies of `unit` separated by `sep`.
pub fn repeat_join(unit: &str, sep: &str, n: usize) -> (r: String)
    ensures
        r@ == repeat_joined(unit@, sep@, n as nat),
{
    let mut out = String::new();
    let mut i: usize = 0;
    while i < n
        invariant
            i <= n,
            out@ == repeat_joined(unit@, sep@, i as nat),
        decreases n - i,
    {
        if i > 0 {
            out.append(sep);
        }
        out.append(unit);
        i = i + 1;
    }
    out
}

/// The parts separated by `sep`.
pub fn join_all(parts: &Vec<String>, sep: &str) -> (r: String)
    ensures
        r@ == joined(texts(parts@), sep@),
{
    let mut out = String::new();
    let mut i: usize = 0;
    while i < parts.len()
        invariant
            i <= parts.len(),
            out@ == joined(texts(parts@).take(i as int), sep@),
        decreases parts.len() - i,
    {
        let ghost t = texts(parts@).take(i + 1);
        assert(t.drop_last() =~= texts(parts@).take(i as int));
        if i > 0 {
            out.append(sep);
        }
        out.append(parts[i].as_str());
        if i == 0 {
            assert(out@ =~= t[0]);
        }
        i = i + 1;
    }
    assert(texts(parts@).take(parts.len() as int) =~= texts(parts@));
    out
}

fn opt_len(o: &Option<Vec<String>>) -> (r: usize)
    ensures
        r == list_items(*o).len(),
{
    match o {
        Some(v) => v.len(),
        None => 0,
    }
}

fn push_group(groups: &mut Vec<String>, unit: &str, n: usize)
    ensures
        texts(final(groups)@) == texts(old(groups)@) + group_if_any(unit@, n as nat),
{
    if n > 0 {
        let mut g = String::from_str("(");
        let body = repeat_join(unit, " OR ", n);
        g.append(body.as_str());
        g.append(")");
        groups.push(g);
        assert(texts(groups@) =~= texts(old(groups)@) + group_if_any(unit@, n as nat));
    } else {
        assert(texts(groups@) =~= texts(old(groups)@) + group_if_any(unit@, n as nat));
    }
}

fn push_patterns(ps: &mut Vec<SqlParam>, o: &Option<Vec<String>>, twice: bool)
    ensures
        param_views(final(ps)@) == param_views(old(ps)@) + (if twice {
            doubled_patterns(list_items(*o))
        } else {
            patterns(list_items(*o))
        }),
{
    let empty: Vec<String> = Vec::new();
    let items = match o {
        Some(v) => v,
        None => &empty,
    };
    assert(texts(items@) == list_items(*o));
    let ghost base = param_views(ps@);
    let ghost l = texts(items@);
    let mut i: usize = 0;
    assert(doubled_patterns(l.take(0)) =~= Seq::empty());
    assert(patterns(l.take(0)) =~= Seq::empty());
    assert(param_views(ps@) =~= base + Seq::empty());
    while i < items.len()
        invariant
            i <= items.len(),
            l == texts(items@),
            param_views(ps@) == base + (if twice {
                doubled_patterns(l.take(i as int))
            } else {
                patterns(l.take(i as int))
            }),
        decreases items.len() - i,
    {
        assert(l.take(i + 1).drop_last() =~= l.take(i as int));
        let p = like_contains(items[i].as_str());
        let ghost pv = ParamModel::Text(p@);
        let ghost before = param_views(ps@);
        assert(l.take(i + 1).last() == l[i as int]);
        assert(pv == ParamModel::Text(contains_pattern(l[i as int])));
        if twice {
            ps.push(SqlParam::Text(p.clone()));
            assert(param_views(ps@) =~= before.push(pv));
        }
        let ghost mid = param_views(ps@);
        ps.push(SqlParam::Text(p));
        assert(param_views(ps@) =~= mid.push(pv));
        if twice {
            assert(doubled_patterns(l.take(i + 1)) =~= doubled_patterns(l.take(i as int)) + seq![pv, pv]);
            assert(param_views(ps@) =~= base + doubled_patterns(l.take(i + 1)));
        } else {
            assert(patterns(l.take(i + 1)) =~= patterns(l.take(i as int)).push(pv));
            assert(param_views(ps@) =~= base + patterns(l.take(i + 1)));
        }
        i = i + 1;
    }
    assert(l.take(items.len() as int) =~= l);
}

/// `p` with a trailing `%` added when it holds no `%`.
pub fn id_like_pattern(p: &str) -> (r: String)
    ensures
        r@ == id_pattern(p@),
{
    let c = chars_of(p);
    let mut i: usize = 0;
    while i < c.len()
        invariant
            i <= c.len(),
            c@ == p@,
            forall|k: int| 0 <= k < i ==> c@[k] != '%',
        decreases c.len() - i,
    {
        if c[i] == '%' {
            assert(p@.contains('%')) by {
                assert(p@[i as int] == '%');
            }
            return String::from_str(p);
        }
        i = i + 1;
    }
    let mut out = c;
    out.push('%');
    string_of(&out)
}

/// The severity floor of a watchlist item; 0 when it sets none.
pub fn watch_min_rank(item: &WatchlistItem) -> (r: i32)
    ensures
        r == watch_min_rank_of(*item),
{
    match &item.severity_min {
        Some(s) => severity_to_rank(s.as_str()),
        None => 0,
    }
}

/// The query of a watchlist item: records published since `since`, matching
/// each of its non-empty lists, matching `cve_pattern` when given, and at or
/// above its severity floor; newest first.
#[verifier::rlimit(60)]
pub fn build_digest_query(item: &WatchlistItem, since: &str, cve_pattern: Option<&str>) -> (r:
    SqlQuery)
    ensures
        r.sql@ == digest_sql(*item, cve_pattern is Some),
        param_views(r.params@) == digest_params(
            *item,
            since@,
            match cve_pattern {
                Some(p) => Some(p@),
                None => None,
            },
        ),
{
    let mut groups: Vec<String> = Vec::new();
    assert(texts(groups@) =~= Seq::empty());
    push_group(&mut groups, "(title LIKE ? ESCAPE '\\' OR description LIKE ? ESCAPE '\\')", opt_len(&item.keywords));
    push_group(&mut groups, "vendors LIKE ? ESCAPE '\\'", opt_len(&item.vendors));
    push_group(&mut groups, "products LIKE ? ESCAPE '\\'", opt_len(&item.products));
    assert(texts(groups@) =~= watch_groups(*item));
    let mut sql = String::from_str("SELECT * FROM cve_records WHERE publish_date >= ?");
    let ghost s0 = sql@;
    if groups.len() > 0 {
        sql.append(" AND (");
        let j = join_all(&groups, " AND ");
        sql.append(j.as_str());
        sql.append(")");
    }
    assert(sql@ =~= s0 + clause(
        watch_groups(*item).len() > 0,
        " AND ("@ + joined(watch_groups(*item), " AND "@) + ")"@,
    ));
    push_clause(&mut sql, cve_pattern.is_some(), " AND cve_id LIKE ?");
    let min_rank = watch_min_rank(item);
    let sevs = severities_from_rank(min_rank);
    let ghost s1 = sql@;
    if sevs.len() > 0 {
        sql.append(" AND severity IN (");
        let marks = repeat_join("?", ", ", sevs.len());
        sql.append(marks.as_str());
        sql.append(")");
    }
    assert(sql@ =~= s1 + clause(
        sevs.len() > 0,
        " AND severity IN ("@ + repeat_joined("?"@, ", "@, sevs.len() as nat) + ")"@,
    ));
    sql.append(" ORDER BY publish_date DESC");
    let mut ps: Vec<SqlParam> = Vec::new();
    ps.push(SqlParam::Text(String::from_str(since)));
    assert(param_views(ps@) =~= seq![ParamModel::Text(since@)]);
    push_patterns(&mut ps, &item.keywords, true);
    push_patterns(&mut ps, &item.vendors, false);
    push_patterns(&mut ps, &item.products, false);
    let ghost p0 = param_views(ps@);
    match cve_pattern {
        Some(p) => {
            ps.push(SqlParam::Text(id_like_pattern(p)));
        },
        None => {},
    }
    let ghost pat = match cve_pattern {
        Some(p) => Some(p@),
        None => None,
    };
    assert(param_views(ps@) =~= p0 + match pat {
        Some(p) => seq![ParamModel::Text(id_pattern(p))],
        None => Seq::empty(),
    });
    let ghost p1 = param_views(ps@);
    let mut i: usize = 0;
    assert(plain_texts(texts(sevs@).take(0)) =~= Seq::empty());
    while i < sevs.len()
        invariant
            i <= sevs.len(),
            param_views(ps@) == p1 + plain_texts(texts(sevs@).take(i as int)),
        decreases sevs.len() - i,
    {
        let ghost before = param_views(ps@);
        ps.push(SqlParam::Text(sevs[i].clone()));
        assert(param_views(ps@) =~= before.push(ParamModel::Text(sevs@[i as int]@)));
        assert(plain_texts(texts(sevs@).take(i + 1)) =~= plain_texts(texts(sevs@).take(i as int)).push(
            ParamModel::Text(sevs@[i as int]@),
        ));
        assert(param_views(ps@) =~= p1 + plain_texts(texts(sevs@).take(i + 1)));
        i = i + 1;
    }
    assert(texts(sevs@).take(sevs.len() as int) =~= texts(sevs@));
    SqlQuery { sql, params: ps }
}

} // verus!
