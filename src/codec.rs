//! The stored form of a record: set fields and the extra bag as JSON text.
//! Decoding turns a stored row into a `CveState` (a corrupt set reads as
//! empty and is reported); encoding turns a `CveState` back into a row.
use vstd::prelude::*;
use vstd::string::StringExecFns;
use crate::text::{texts, byte_len};
use crate::record::{
    CveModel, CveState, ExtraEntry, Score, opt_text, text_set, entry_pairs, pairs_map,
    distinct_keys, union_texts, upsert_entry,
};

verus! {

broadcast use vstd::seq_lib::group_seq_properties;

/// Largest serialized extra bag, in bytes, that a row stores; a larger one is
/// stored as the empty object.
pub const MAX_EXTRA_TOTAL_BYTES: usize = 5 * 1024 * 1024;

/// A record as the store holds it: the set fields as JSON arrays of strings,
/// the extra bag as a JSON object in `raw_data`.
#[derive(Clone, Debug)]
pub struct CveRecord {
    pub cve_id: String,
    pub title: Option<String>,
    pub description: Option<String>,
    pub severity: Option<String>,
    pub cvss_v2_score: Option<Score>,
    pub cvss_v3_score: Option<Score>,
    pub publish_date: Option<String>,
    pub update_date: Option<String>,
    pub vendors: String,
    pub products: String,
    pub references: String,
    pub sources: String,
    pub raw_data: Option<String>,
    pub cwe_ids: Option<String>,
    pub attack_vector: Option<String>,
    pub privileges_required: Option<String>,
    pub user_interaction: Option<String>,
    pub confidentiality_impact: Option<String>,
    pub integrity_impact: Option<String>,
    pub availability_impact: Option<String>,
    pub is_in_kev: Option<bool>,
    pub exploit_exists: Option<bool>,
    pub poc_sources: Option<String>,
    pub poc_repo_count: Option<i64>,
    pub poc_risk_label: Option<String>,
    pub feed_version: Option<String>,
    pub epss_score: Option<Score>,
    pub epss_percentile: Option<Score>,
}

/// A name for what `serde_json::from_str::<Vec<String>>` gives for a text:
/// the strings of a JSON array, or `None` where the text is not one.
pub uninterp spec fn json_string_list(t: Seq<char>) -> Option<Seq<Seq<char>>>;

/// A name for the text that `serde_json::to_string` gives for a list of strings.
pub uninterp spec fn json_list_text(items: Seq<Seq<char>>) -> Seq<char>;

/// A name for the text that `serde_json::to_string` gives for one string: the
/// string quoted and escaped.
pub uninterp spec fn json_string_text(s: Seq<char>) -> Seq<char>;

/// A name for what `serde_json::from_str::<serde_json::Map<String, Value>>`
/// gives for a text: its members, each value as compact JSON text, or `None`
/// where the text is not a JSON object.
pub uninterp spec fn json_object_members(t: Seq<char>) -> Option<Seq<(Seq<char>, Seq<char>)>>;

/// Relies on `serde_json::from_str` into `Vec<String>`, whose result depends
/// on the text alone.
#[verifier::external_body]
fn parse_string_list(t: &str) -> (r: Option<Vec<String>>)
    ensures
        match json_string_list(t@) {
            Some(l) => r is Some && texts(r->0@) == l,
            None => r is None,
        },
{
    serde_json::from_str::<Vec<String>>(t).ok()
}

/// Relies on `serde_json::to_string` on a list of strings.
#[verifier::external_body]
fn string_list_json(items: &Vec<String>) -> (r: String)
    ensures
        r@ == json_list_text(texts(items@)),
{
    serde_json::to_string(items).unwrap_or_default()
}

/// Relies on `serde_json::to_string` on one string.
#[verifier::external_body]
fn quote_json(s: &str) -> (r: String)
    ensures
        r@ == json_string_text(s@),
{
    serde_json::to_string(s).unwrap_or_default()
}

/// Relies on `serde_json::from_str` into `serde_json::Map<String, Value>` and
/// on `Value`'s compact `to_string`.
#[verifier::external_body]
fn parse_object(t: &str) -> (r: Option<Vec<ExtraEntry>>)
    ensures
        match json_object_members(t@) {
            Some(ps) => r is Some && entry_pairs(r->0@) == ps,
            None => r is None,
        },
{
    serde_json::from_str::<serde_json::Map<String, serde_json::Value>>(t).ok().map(
        |m| m.into_iter().map(|(k, v)| ExtraEntry { key: k, value: v.to_string() }).collect(),
    )
}

/// The set that a stored JSON array holds; a corrupt one holds nothing.
pub open spec fn decoded_set(t: Seq<char>) -> Set<Seq<char>> {
    match json_string_list(t) {
        Some(l) => l.to_set(),
        None => Set::empty(),
    }
}

/// The set that an optional stored array holds.
pub open spec fn decoded_opt_set(t: Option<String>) -> Set<Seq<char>> {
    match t {
        Some(s) => decoded_set(s@),
        None => Set::empty(),
    }
}

/// A stored array is corrupt when it is not empty and does not parse.
pub open spec fn corrupt_list(t: Seq<char>) -> bool {
    t.len() > 0 && json_string_list(t) is None
}

pub open spec fn corrupt_opt_list(t: Option<String>) -> bool {
    match t {
        Some(s) => corrupt_list(s@),
        None => false,
    }
}

/// The extra bag that a stored object holds; a corrupt one holds nothing.
pub open spec fn decoded_extra(t: Option<String>) -> Map<Seq<char>, Seq<char>> {
    match t {
        Some(s) => match json_object_members(s@) {
            Some(ps) => pairs_map(ps),
            None => Map::empty(),
        },
        None => Map::empty(),
    }
}

pub open spec fn corrupt_extra(t: Option<String>) -> bool {
    match t {
        Some(s) => s@.len() > 0 && json_object_members(s@) is None,
        None => false,
    }
}

/// The state that a stored row describes.
pub open spec fn row_model(row: CveRecord) -> CveModel {
    CveModel {
        cve_id: row.cve_id@,
        title: opt_text(row.title),
        description: opt_text(row.description),
        severity: opt_text(row.severity),
        cvss_v2_score: row.cvss_v2_score,
        cvss_v3_score: row.cvss_v3_score,
        publish_date: opt_text(row.publish_date),
        update_date: opt_text(row.update_date),
        vendors: decoded_set(row.vendors@),
        products: decoded_set(row.products@),
        references: decoded_set(row.references@),
        sources: decoded_set(row.sources@),
        cwe_ids: decoded_opt_set(row.cwe_ids),
        attack_vector: opt_text(row.attack_vector),
        privileges_required: opt_text(row.privileges_required),
        user_interaction: opt_text(row.user_interaction),
        confidentiality_impact: opt_text(row.confidentiality_impact),
        integrity_impact: opt_text(row.integrity_impact),
        availability_impact: opt_text(row.availability_impact),
        is_in_kev: row.is_in_kev == Some(true),
        exploit_exists: row.exploit_exists == Some(true),
        poc_sources: decoded_opt_set(row.poc_sources),
        poc_repo_count: row.poc_repo_count,
        poc_risk_label: opt_text(row.poc_risk_label),
        feed_version: opt_text(row.feed_version),
        epss_score: row.epss_score,
        epss_percentile: row.epss_percentile,
        extra: decoded_extra(row.raw_data),
    }
}

pub open spec fn flag(b: bool, name: Seq<char>) -> Seq<Seq<char>> {
    if b {
        seq![name]
    } else {
        Seq::empty()
    }
}

/// The names of the fields of a row that are corrupt, in column order.
pub open spec fn row_warnings(row: CveRecord) -> Seq<Seq<char>> {
    flag(corrupt_list(row.vendors@), "vendors"@) + flag(corrupt_list(row.products@), "products"@)
        + flag(corrupt_list(row.references@), "references"@) + flag(
        corrupt_list(row.sources@),
        "sources"@,
    ) + flag(corrupt_extra(row.raw_data), "raw_data"@) + flag(
        corrupt_opt_list(row.cwe_ids),
        "cwe_ids"@,
    ) + flag(corrupt_opt_list(row.poc_sources), "poc_sources"@)
}

/// The text of one member of a JSON object.
pub open spec fn member_text(p: (Seq<char>, Seq<char>)) -> Seq<char> {
    json_string_text(p.0) + ":"@ + p.1
}

/// The members of a JSON object, comma-separated.
pub open spec fn members_text(ps: Seq<(Seq<char>, Seq<char>)>) -> Seq<char>
    decreases ps.len(),
{
    if ps.len() == 0 {
        Seq::empty()
    } else if ps.len() == 1 {
        member_text(ps[0])
    } else {
        members_text(ps.drop_last()) + ","@ + member_text(ps.last())
    }
}

/// The JSON object text of an extra bag.
pub open spec fn bag_text(ps: Seq<(Seq<char>, Seq<char>)>) -> Seq<char> {
    "{"@ + members_text(ps) + "}"@
}

/// What a row stores for an extra bag: its text, or the empty object when
/// the text exceeds `MAX_EXTRA_TOTAL_BYTES` bytes.
pub open spec fn stored_bag(ps: Seq<(Seq<char>, Seq<char>)>) -> Seq<char> {
    if byte_len(bag_text(ps)) > MAX_EXTRA_TOTAL_BYTES {
        "{}"@
    } else {
        bag_text(ps)
    }
}

/// `row` is the stored form of `s`.
pub open spec fn encodes(row: CveRecord, s: CveState) -> bool {
    &&& row.cve_id@ == s.cve_id@
    &&& opt_text(row.title) == opt_text(s.title)
    &&& opt_text(row.description) == opt_text(s.description)
    &&& opt_text(row.severity) == opt_text(s.severity)
    &&& row.cvss_v2_score == s.cvss_v2_score
    &&& row.cvss_v3_score == s.cvss_v3_score
    &&& opt_text(row.publish_date) == opt_text(s.publish_date)
    &&& opt_text(row.update_date) == opt_text(s.update_date)
    &&& row.vendors@ == json_list_text(texts(s.vendors@))
    &&& row.products@ == json_list_text(texts(s.products@))
    &&& row.references@ == json_list_text(texts(s.references@))
    &&& row.sources@ == json_list_text(texts(s.sources@))
    &&& row.raw_data is Some && row.raw_data->0@ == stored_bag(entry_pairs(s.extra@))
    &&& row.cwe_ids is Some && row.cwe_ids->0@ == json_list_text(texts(s.cwe_ids@))
    &&& opt_text(row.attack_vector) == opt_text(s.attack_vector)
    &&& opt_text(row.privileges_required) == opt_text(s.privileges_required)
    &&& opt_text(row.user_interaction) == opt_text(s.user_interaction)
    &&& opt_text(row.confidentiality_impact) == opt_text(s.confidentiality_impact)
    &&& opt_text(row.integrity_impact) == opt_text(s.integrity_impact)
    &&& opt_text(row.availability_impact) == opt_text(s.availability_impact)
    &&& row.is_in_kev == Some(s.is_in_kev)
    &&& row.exploit_exists == Some(s.exploit_exists)
    &&& row.poc_sources is Some && row.poc_sources->0@ == json_list_text(texts(s.poc_sources@))
    &&& row.poc_repo_count == s.poc_repo_count
    &&& opt_text(row.poc_risk_label) == opt_text(s.poc_risk_label)
    &&& opt_text(row.feed_version) == opt_text(s.feed_version)
    &&& row.epss_score == s.epss_score
    &&& row.epss_percentile == s.epss_percentile
}

/// The distinct texts of a stored JSON array, and whether it was corrupt.
pub fn decode_set(t: &str) -> (r: (Vec<String>, bool))
    ensures
        texts(r.0@).no_duplicates(),
        text_set(r.0@) == decoded_set(t@),
        r.1 == corrupt_list(t@),
{
    let empty: Vec<String> = Vec::new();
    assert(texts(empty@) =~= Seq::empty());
    assert(text_set(empty@) =~= Set::empty());
    match parse_string_list(t) {
        Some(v) => {
            let r = union_texts(empty, &v);
            assert(Set::<Seq<char>>::empty() + text_set(v@) =~= text_set(v@));
            (r, false)
        },
        None => (empty, !t.is_empty()),
    }
}

/// `decode_set` on an optional stored array; an absent one holds nothing.
pub fn decode_opt_set(t: &Option<String>) -> (r: (Vec<String>, bool))
    ensures
        texts(r.0@).no_duplicates(),
        text_set(r.0@) == decoded_opt_set(*t),
        r.1 == corrupt_opt_list(*t),
{
    match t {
        Some(s) => decode_set(s.as_str()),
        None => {
            let empty: Vec<String> = Vec::new();
            assert(texts(empty@) =~= Seq::empty());
            assert(text_set(empty@) =~= Set::empty());
            (empty, false)
        },
    }
}

/// The entries of a list with one entry per key; a later entry replaces an
/// earlier one with the same key.
fn collect_entries(v: &Vec<ExtraEntry>) -> (r: Vec<ExtraEntry>)
    ensures
        distinct_keys(r@),
        pairs_map(entry_pairs(r@)) == pairs_map(entry_pairs(v@)),
{
    let ghost ps = entry_pairs(v@);
    let mut acc: Vec<ExtraEntry> = Vec::new();
    assert(entry_pairs(acc@) =~= Seq::empty());
    assert(ps.take(0) =~= Seq::empty());
    let mut i: usize = 0;
    while i < v.len()
        invariant
            i <= v.len(),
            ps == entry_pairs(v@),
            distinct_keys(acc@),
            pairs_map(entry_pairs(acc@)) == pairs_map(ps.take(i as int)),
        decreases v.len() - i,
    {
        assert(ps.take(i + 1).drop_last() =~= ps.take(i as int));
        upsert_entry(&mut acc, v[i].clone_entry());
        i = i + 1;
    }
    assert(ps.take(v.len() as int) =~= ps);
    acc
}

/// The extra bag of a stored object, and whether it was corrupt.
pub fn decode_extra(t: &Option<String>) -> (r: (Vec<ExtraEntry>, bool))
    ensures
        distinct_keys(r.0@),
        pairs_map(entry_pairs(r.0@)) == decoded_extra(*t),
        r.1 == corrupt_extra(*t),
{
    let empty: Vec<ExtraEntry> = Vec::new();
    assert(entry_pairs(empty@) =~= Seq::empty());
    assert(pairs_map(entry_pairs(empty@)) =~= Map::empty());
    match t {
        Some(s) => match parse_object(s.as_str()) {
            Some(v) => (collect_entries(&v), false),
            None => (empty, !s.as_str().is_empty()),
        },
        None => (empty, false),
    }
}

fn copy_text(o: &Option<String>) -> (r: Option<String>)
    ensures
        opt_text(r) == opt_text(*o),
{
    match o {
        Some(s) => Some(s.clone()),
        None => None,
    }
}

/// Appends `name` to the warnings when `corrupt` holds.
fn note_warning(w: &mut Vec<String>, corrupt: bool, name: &str)
    ensures
        texts(final(w)@) == texts(old(w)@) + flag(corrupt, name@),
{
    if corrupt {
        w.push(String::from_str(name));
        assert(texts(w@) =~= texts(old(w)@) + seq![name@]);
    } else {
        assert(texts(w@) =~= texts(old(w)@) + Seq::empty());
    }
}

/// The state that a stored row describes, and the names of its corrupt
/// fields, which read as empty.
#[verifier::rlimit(40)]
pub fn decode_row(row: &CveRecord) -> (r: (CveState, Vec<String>))
    ensures
        r.0.wf(),
        r.0@ == row_model(*row),
        texts(r.1@) == row_warnings(*row),
{
    let mut w: Vec<String> = Vec::new();
    assert(texts(w@) =~= Seq::empty());
    let (vendors, c1) = decode_set(row.vendors.as_str());
    note_warning(&mut w, c1, "vendors");
    assert(texts(w@) =~= flag(c1, "vendors"@));
    let (products, c2) = decode_set(row.products.as_str());
    note_warning(&mut w, c2, "products");
    let (references, c3) = decode_set(row.references.as_str());
    note_warning(&mut w, c3, "references");
    let (sources, c4) = decode_set(row.sources.as_str());
    note_warning(&mut w, c4, "sources");
    let (extra, c5) = decode_extra(&row.raw_data);
    note_warning(&mut w, c5, "raw_data");
    let (cwe_ids, c6) = decode_opt_set(&row.cwe_ids);
    note_warning(&mut w, c6, "cwe_ids");
    let (poc_sources, c7) = decode_opt_set(&row.poc_sources);
    note_warning(&mut w, c7, "poc_sources");
    let s = CveState {
        cve_id: row.cve_id.clone(),
        title: copy_text(&row.title),
        description: copy_text(&row.description),
        severity: copy_text(&row.severity),
        cvss_v2_score: row.cvss_v2_score,
        cvss_v3_score: row.cvss_v3_score,
        publish_date: copy_text(&row.publish_date),
        update_date: copy_text(&row.update_date),
        vendors,
        products,
        references,
        sources,
        cwe_ids,
        attack_vector: copy_text(&row.attack_vector),
        privileges_required: copy_text(&row.privileges_required),
        user_interaction: copy_text(&row.user_interaction),
        confidentiality_impact: copy_text(&row.confidentiality_impact),
        integrity_impact: copy_text(&row.integrity_impact),
        availability_impact: copy_text(&row.availability_impact),
        is_in_kev: match row.is_in_kev {
            Some(true) => true,
            _ => false,
        },
        exploit_exists: match row.exploit_exists {
            Some(true) => true,
            _ => false,
        },
        poc_sources,
        poc_repo_count: row.poc_repo_count,
        poc_risk_label: copy_text(&row.poc_risk_label),
        feed_version: copy_text(&row.feed_version),
        epss_score: row.epss_score,
        epss_percentile: row.epss_percentile,
        extra,
    };
    (s, w)
}

/// The text that a row stores for an extra bag.
pub fn encode_extra(entries: &Vec<ExtraEntry>) -> (r: String)
    ensures
        r@ == stored_bag(entry_pairs(entries@)),
{
    let ghost ps = entry_pairs(entries@);
    let mut out = String::from_str("{");
    assert(ps.take(0) =~= Seq::empty());
    assert(out@ =~= "{"@ + members_text(ps.take(0)));
    let mut i: usize = 0;
    while i < entries.len()
        invariant
            i <= entries.len(),
            ps == entry_pairs(entries@),
            out@ == "{"@ + members_text(ps.take(i as int)),
        decreases entries.len() - i,
    {
        let ghost before = out@;
        let ghost t = ps.take(i + 1);
        assert(t.drop_last() =~= ps.take(i as int));
        assert(t.last() == ps[i as int]);
        if i > 0 {
            out.append(",");
        }
        let q = quote_json(entries[i].key.as_str());
        out.append(q.as_str());
        out.append(":");
        out.append(entries[i].value.as_str());
        if i == 0 {
            assert(t =~= seq![ps[0]]);
            assert(out@ =~= "{"@ + members_text(t));
        } else {
            assert(out@ =~= "{"@ + members_text(t));
        }
        i = i + 1;
    }
    out.append("}");
    assert(ps.take(entries.len() as int) =~= ps);
    assert(out@ =~= bag_text(ps));
    if out.as_str().len() > MAX_EXTRA_TOTAL_BYTES {
        String::from_str("{}")
    } else {
        out
    }
}

/// The stored form of a record.
#[verifier::rlimit(40)]
pub fn encode_row(s: &CveState) -> (r: CveRecord)
    ensures
        encodes(r, *s),
{
    CveRecord {
        cve_id: s.cve_id.clone(),
        title: copy_text(&s.title),
        description: copy_text(&s.description),
        severity: copy_text(&s.severity),
        cvss_v2_score: s.cvss_v2_score,
        cvss_v3_score: s.cvss_v3_score,
        publish_date: copy_text(&s.publish_date),
        update_date: copy_text(&s.update_date),
        vendors: string_list_json(&s.vendors),
        products: string_list_json(&s.products),
        references: string_list_json(&s.references),
        sources: string_list_json(&s.sources),
        raw_data: Some(encode_extra(&s.extra)),
        cwe_ids: Some(string_list_json(&s.cwe_ids)),
        attack_vector: copy_text(&s.attack_vector),
        privileges_required: copy_text(&s.privileges_required),
        user_interaction: copy_text(&s.user_interaction),
        confidentiality_impact: copy_text(&s.confidentiality_impact),
        integrity_impact: copy_text(&s.integrity_impact),
        availability_impact: copy_text(&s.availability_impact),
        is_in_kev: Some(s.is_in_kev),
        exploit_exists: Some(s.exploit_exists),
        poc_sources: Some(string_list_json(&s.poc_sources)),
        poc_repo_count: s.poc_repo_count,
        poc_risk_label: copy_text(&s.poc_risk_label),
        feed_version: copy_text(&s.feed_version),
        epss_score: s.epss_score,
        epss_percentile: s.epss_percentile,
    }
}

} // verus!
