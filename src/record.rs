//! The record consolidation engine: folds an incoming partial record into the
//! stored state of its identifier under per-field merge rules.
use vstd::prelude::*;
use vstd::string::StringExecFns;
use crate::text::{texts, byte_len, contains_text};
use crate::severity::{get_risk_priority, risk_priority_of};

verus! {

broadcast use vstd::seq_lib::group_seq_properties;

/// Most keys the extra bag may hold after a merge.
pub const MAX_EXTRA_KEYS: usize = 50;

/// Largest serialized value, in bytes, that the extra bag accepts.
pub const MAX_EXTRA_VALUE_BYTES: usize = 10240;

/// A floating-point score (CVSS, EPSS), held as the bit pattern of its
/// IEEE-754 double so that it passes through unchanged.
#[derive(Clone, Copy, Debug, PartialEq, Eq, Structural)]
pub struct Score {
    pub bits: u64,
}

/// One key of the extra bag with its value as compact JSON text.
#[derive(Clone, Debug)]
pub struct ExtraEntry {
    pub key: String,
    pub value: String,
}

/// An incoming partial record as one feed supplies it. `None` means that the
/// feed did not supply the field; empty lists add nothing.
#[derive(Clone, Debug)]
pub struct NormalizedCVE {
    pub cve_id: String,
    pub title: Option<String>,
    pub description: Option<String>,
    pub severity: Option<String>,
    pub cvss_v2_score: Option<Score>,
    pub cvss_v3_score: Option<Score>,
    pub publish_date: Option<String>,
    pub update_date: Option<String>,
    pub vendors: Vec<String>,
    pub products: Vec<String>,
    pub references: Vec<String>,
    pub cwe_ids: Option<Vec<String>>,
    pub attack_vector: Option<String>,
    pub privileges_required: Option<String>,
    pub user_interaction: Option<String>,
    pub confidentiality_impact: Option<String>,
    pub integrity_impact: Option<String>,
    pub availability_impact: Option<String>,
    pub is_in_kev: Option<bool>,
    pub exploit_exists: Option<bool>,
    pub poc_sources: Option<Vec<String>>,
    pub poc_repo_count: Option<i64>,
    pub poc_risk_label: Option<String>,
    pub feed_version: Option<String>,
    pub epss_score: Option<Score>,
    pub epss_percentile: Option<Score>,
    pub extra: Vec<ExtraEntry>,
}

/// The consolidated state of one identifier. Each list holds distinct texts
/// and the extra bag holds distinct keys (see `wf`).
#[derive(Clone, Debug)]
pub struct CveState {
    pub cve_id: String,
    pub title: Option<String>,
    pub description: Option<String>,
    pub severity: Option<String>,
    pub cvss_v2_score: Option<Score>,
    pub cvss_v3_score: Option<Score>,
    pub publish_date: Option<String>,
    pub update_date: Option<String>,
    pub vendors: Vec<String>,
    pub products: Vec<String>,
    pub references: Vec<String>,
    pub sources: Vec<String>,
    pub cwe_ids: Vec<String>,
    pub attack_vector: Option<String>,
    pub privileges_required: Option<String>,
    pub user_interaction: Option<String>,
    pub confidentiality_impact: Option<String>,
    pub integrity_impact: Option<String>,
    pub availability_impact: Option<String>,
    pub is_in_kev: bool,
    pub exploit_exists: bool,
    pub poc_sources: Vec<String>,
    pub poc_repo_count: Option<i64>,
    pub poc_risk_label: Option<String>,
    pub feed_version: Option<String>,
    pub epss_score: Option<Score>,
    pub epss_percentile: Option<Score>,
    pub extra: Vec<ExtraEntry>,
}

/// What a consolidated record means: scalars, sets of texts, flags and the
/// extra bag as a map.
pub ghost struct CveModel {
    pub cve_id: Seq<char>,
    pub title: Option<Seq<char>>,
    pub description: Option<Seq<char>>,
    pub severity: Option<Seq<char>>,
    pub cvss_v2_score: Option<Score>,
    pub cvss_v3_score: Option<Score>,
    pub publish_date: Option<Seq<char>>,
    pub update_date: Option<Seq<char>>,
    pub vendors: Set<Seq<char>>,
    pub products: Set<Seq<char>>,
    pub references: Set<Seq<char>>,
    pub sources: Set<Seq<char>>,
    pub cwe_ids: Set<Seq<char>>,
    pub attack_vector: Option<Seq<char>>,
    pub privileges_required: Option<Seq<char>>,
    pub user_interaction: Option<Seq<char>>,
    pub confidentiality_impact: Option<Seq<char>>,
    pub integrity_impact: Option<Seq<char>>,
    pub availability_impact: Option<Seq<char>>,
    pub is_in_kev: bool,
    pub exploit_exists: bool,
    pub poc_sources: Set<Seq<char>>,
    pub poc_repo_count: Option<i64>,
    pub poc_risk_label: Option<Seq<char>>,
    pub feed_version: Option<Seq<char>>,
    pub epss_score: Option<Score>,
    pub epss_percentile: Option<Score>,
    pub extra: Map<Seq<char>, Seq<char>>,
}

/// What an incoming record contributes: absent lists count as empty and
/// absent flags as false; the extra entries keep their order.
pub ghost struct PartialModel {
    pub cve_id: Seq<char>,
    pub title: Option<Seq<char>>,
    pub description: Option<Seq<char>>,
    pub severity: Option<Seq<char>>,
    pub cvss_v2_score: Option<Score>,
    pub cvss_v3_score: Option<Score>,
    pub publish_date: Option<Seq<char>>,
    pub update_date: Option<Seq<char>>,
    pub vendors: Set<Seq<char>>,
    pub products: Set<Seq<char>>,
    pub references: Set<Seq<char>>,
    pub cwe_ids: Set<Seq<char>>,
    pub attack_vector: Option<Seq<char>>,
    pub privileges_required: Option<Seq<char>>,
    pub user_interaction: Option<Seq<char>>,
    pub confidentiality_impact: Option<Seq<char>>,
    pub integrity_impact: Option<Seq<char>>,
    pub availability_impact: Option<Seq<char>>,
    pub is_in_kev: bool,
    pub exploit_exists: bool,
    pub poc_sources: Set<Seq<char>>,
    pub poc_repo_count: Option<i64>,
    pub poc_risk_label: Option<Seq<char>>,
    pub feed_version: Option<Seq<char>>,
    pub epss_score: Option<Score>,
    pub epss_percentile: Option<Score>,
    pub extra: Seq<(Seq<char>, Seq<char>)>,
}

pub open spec fn opt_text(o: Option<String>) -> Option<Seq<char>> {
    match o {
        Some(s) => Some(s@),
        None => None,
    }
}

/// The set of texts that a list holds.
pub open spec fn text_set(v: Seq<String>) -> Set<Seq<char>> {
    texts(v).to_set()
}

/// The set of texts of an optional list; an absent list holds none.
pub open spec fn opt_text_set(o: Option<Vec<String>>) -> Set<Seq<char>> {
    match o {
        Some(v) => text_set(v@),
        None => Set::empty(),
    }
}

pub open spec fn entry_pairs(s: Seq<ExtraEntry>) -> Seq<(Seq<char>, Seq<char>)> {
    s.map_values(|e: ExtraEntry| (e.key@, e.value@))
}

pub open spec fn pair_keys(s: Seq<(Seq<char>, Seq<char>)>) -> Seq<Seq<char>> {
    s.map_values(|p: (Seq<char>, Seq<char>)| p.0)
}

/// The keys of a list of entries are distinct.
pub open spec fn distinct_keys(s: Seq<ExtraEntry>) -> bool {
    pair_keys(entry_pairs(s)).no_duplicates()
}

/// The map that a list of entries describes; a later entry replaces an
/// earlier one with the same key.
pub open spec fn pairs_map(s: Seq<(Seq<char>, Seq<char>)>) -> Map<Seq<char>, Seq<char>>
    decreases s.len(),
{
    if s.len() == 0 {
        Map::empty()
    } else {
        pairs_map(s.drop_last()).insert(s.last().0, s.last().1)
    }
}

/// The incoming extra entries that the bag takes: those whose value is at most
/// `MAX_EXTRA_VALUE_BYTES` bytes long; later entries replace earlier ones.
pub open spec fn accepted_extra(s: Seq<(Seq<char>, Seq<char>)>) -> Map<Seq<char>, Seq<char>>
    decreases s.len(),
{
    if s.len() == 0 {
        Map::empty()
    } else if byte_len(s.last().1) <= MAX_EXTRA_VALUE_BYTES {
        accepted_extra(s.drop_last()).insert(s.last().0, s.last().1)
    } else {
        accepted_extra(s.drop_last())
    }
}

/// The bag after a merge: the old bag overlaid with the accepted entries, or,
/// when that would exceed `MAX_EXTRA_KEYS` keys, the accepted entries alone.
pub open spec fn bounded_extra(
    old: Map<Seq<char>, Seq<char>>,
    acc: Map<Seq<char>, Seq<char>>,
) -> Map<Seq<char>, Seq<char>> {
    let m = old.union_prefer_right(acc);
    if m.dom().len() > MAX_EXTRA_KEYS {
        acc
    } else {
        m
    }
}

/// A field that is overwritten when supplied and kept otherwise.
pub open spec fn supplied_or<T>(new: Option<T>, old: Option<T>) -> Option<T> {
    if new is Some {
        new
    } else {
        old
    }
}

/// The larger of two optional counts; an absent count never lowers the other.
pub open spec fn max_count(old: Option<i64>, new: Option<i64>) -> Option<i64> {
    match (old, new) {
        (Some(a), Some(b)) => Some(if a >= b { a } else { b }),
        (Some(a), None) => Some(a),
        (None, b) => b,
    }
}

/// The label of higher priority; on equal priority the existing label stays,
/// and any label beats an absent one.
pub open spec fn higher_label(old: Option<Seq<char>>, new: Option<Seq<char>>) -> Option<
    Seq<char>,
> {
    match (old, new) {
        (Some(o), Some(n)) => if risk_priority_of(n) > risk_priority_of(o) {
            Some(n)
        } else {
            Some(o)
        },
        (Some(o), None) => Some(o),
        (None, n) => n,
    }
}

/// The state of an identifier that nothing has been ingested for yet.
pub open spec fn empty_model(id: Seq<char>) -> CveModel {
    CveModel {
        cve_id: id,
        title: None,
        description: None,
        severity: None,
        cvss_v2_score: None,
        cvss_v3_score: None,
        publish_date: None,
        update_date: None,
        vendors: Set::empty(),
        products: Set::empty(),
        references: Set::empty(),
        sources: Set::empty(),
        cwe_ids: Set::empty(),
        attack_vector: None,
        privileges_required: None,
        user_interaction: None,
        confidentiality_impact: None,
        integrity_impact: None,
        availability_impact: None,
        is_in_kev: false,
        exploit_exists: false,
        poc_sources: Set::empty(),
        poc_repo_count: None,
        poc_risk_label: None,
        feed_version: None,
        epss_score: None,
        epss_percentile: None,
        extra: Map::empty(),
    }
}

/// The field rules applied to a state `b` and an incoming record `p` from
/// feed `source`.
pub open spec fn combine(b: CveModel, p: PartialModel, source: Seq<char>) -> CveModel {
    CveModel {
        cve_id: b.cve_id,
        title: supplied_or(p.title, b.title),
        description: supplied_or(p.description, b.description),
        severity: supplied_or(p.severity, b.severity),
        cvss_v2_score: supplied_or(p.cvss_v2_score, b.cvss_v2_score),
        cvss_v3_score: supplied_or(p.cvss_v3_score, b.cvss_v3_score),
        publish_date: supplied_or(p.publish_date, b.publish_date),
        update_date: supplied_or(p.update_date, b.update_date),
        vendors: b.vendors + p.vendors,
        products: b.products + p.products,
        references: b.references + p.references,
        sources: b.sources.insert(source),
        cwe_ids: b.cwe_ids + p.cwe_ids,
        attack_vector: supplied_or(p.attack_vector, b.attack_vector),
        privileges_required: supplied_or(p.privileges_required, b.privileges_required),
        user_interaction: supplied_or(p.user_interaction, b.user_interaction),
        confidentiality_impact: supplied_or(p.confidentiality_impact, b.confidentiality_impact),
        integrity_impact: supplied_or(p.integrity_impact, b.integrity_impact),
        availability_impact: supplied_or(p.availability_impact, b.availability_impact),
        is_in_kev: b.is_in_kev || p.is_in_kev,
        exploit_exists: b.exploit_exists || p.exploit_exists,
        poc_sources: b.poc_sources + p.poc_sources,
        poc_repo_count: max_count(b.poc_repo_count, p.poc_repo_count),
        poc_risk_label: higher_label(b.poc_risk_label, p.poc_risk_label),
        feed_version: supplied_or(p.feed_version, b.feed_version),
        epss_score: supplied_or(p.epss_score, b.epss_score),
        epss_percentile: supplied_or(p.epss_percentile, b.epss_percentile),
        extra: bounded_extra(b.extra, accepted_extra(p.extra)),
    }
}

/// The state after ingesting `p` from `source` into `existing` (or into a new
/// record when the identifier has no state yet).
pub open spec fn merged_model(existing: Option<CveModel>, p: PartialModel, source: Seq<char>) -> CveModel {
    match existing {
        Some(b) => combine(b, p, source),
        None => combine(empty_model(p.cve_id), p, source),
    }
}

impl View for NormalizedCVE {
    type V = PartialModel;

    open spec fn view(&self) -> PartialModel {
        PartialModel {
            cve_id: self.cve_id@,
            title: opt_text(self.title),
            description: opt_text(self.description),
            severity: opt_text(self.severity),
            cvss_v2_score: self.cvss_v2_score,
            cvss_v3_score: self.cvss_v3_score,
            publish_date: opt_text(self.publish_date),
            update_date: opt_text(self.update_date),
            vendors: text_set(self.vendors@),
            products: text_set(self.products@),
            references: text_set(self.references@),
            cwe_ids: opt_text_set(self.cwe_ids),
            attack_vector: opt_text(self.attack_vector),
            privileges_required: opt_text(self.privileges_required),
            user_interaction: opt_text(self.user_interaction),
            confidentiality_impact: opt_text(self.confidentiality_impact),
            integrity_impact: opt_text(self.integrity_impact),
            availability_impact: opt_text(self.availability_impact),
            is_in_kev: self.is_in_kev == Some(true),
            exploit_exists: self.exploit_exists == Some(true),
            poc_sources: opt_text_set(self.poc_sources),
            poc_repo_count: self.poc_repo_count,
            poc_risk_label: opt_text(self.poc_risk_label),
            feed_version: opt_text(self.feed_version),
            epss_score: self.epss_score,
            epss_percentile: self.epss_percentile,
            extra: entry_pairs(self.extra@),
        }
    }
}

impl View for CveState {
    type V = CveModel;

    open spec fn view(&self) -> CveModel {
        CveModel {
            cve_id: self.cve_id@,
            title: opt_text(self.title),
            description: opt_text(self.description),
            severity: opt_text(self.severity),
            cvss_v2_score: self.cvss_v2_score,
            cvss_v3_score: self.cvss_v3_score,
            publish_date: opt_text(self.publish_date),
            update_date: opt_text(self.update_date),
            vendors: text_set(self.vendors@),
            products: text_set(self.products@),
            references: text_set(self.references@),
            sources: text_set(self.sources@),
            cwe_ids: text_set(self.cwe_ids@),
            attack_vector: opt_text(self.attack_vector),
            privileges_required: opt_text(self.privileges_required),
            user_interaction: opt_text(self.user_interaction),
            confidentiality_impact: opt_text(self.confidentiality_impact),
            integrity_impact: opt_text(self.integrity_impact),
            availability_impact: opt_text(self.availability_impact),
            is_in_kev: self.is_in_kev,
            exploit_exists: self.exploit_exists,
            poc_sources: text_set(self.poc_sources@),
            poc_repo_count: self.poc_repo_count,
            poc_risk_label: opt_text(self.poc_risk_label),
            feed_version: opt_text(self.feed_version),
            epss_score: self.epss_score,
            epss_percentile: self.epss_percentile,
            extra: pairs_map(entry_pairs(self.extra@)),
        }
    }
}

pub open spec fn opt_model(o: Option<CveState>) -> Option<CveModel> {
    match o {
        Some(s) => Some(s@),
        None => None,
    }
}

impl CveState {
    /// Every list holds distinct texts and the extra bag distinct keys.
    pub open spec fn wf(&self) -> bool {
        &&& texts(self.vendors@).no_duplicates()
        &&& texts(self.products@).no_duplicates()
        &&& texts(self.references@).no_duplicates()
        &&& texts(self.sources@).no_duplicates()
        &&& texts(self.cwe_ids@).no_duplicates()
        &&& texts(self.poc_sources@).no_duplicates()
        &&& distinct_keys(self.extra@)
    }

    /// A record for `id` that holds nothing yet.
    pub fn empty(id: String) -> (r: CveState)
        ensures
            r.wf(),
            r@ == empty_model(id@),
    {
        let r = CveState {
            cve_id: id,
            title: None,
            description: None,
            severity: None,
            cvss_v2_score: None,
            cvss_v3_score: None,
            publish_date: None,
            update_date: None,
            vendors: Vec::new(),
            products: Vec::new(),
            references: Vec::new(),
            sources: Vec::new(),
            cwe_ids: Vec::new(),
            attack_vector: None,
            privileges_required: None,
            user_interaction: None,
            confidentiality_impact: None,
            integrity_impact: None,
            availability_impact: None,
            is_in_kev: false,
            exploit_exists: false,
            poc_sources: Vec::new(),
            poc_repo_count: None,
            poc_risk_label: None,
            feed_version: None,
            epss_score: None,
            epss_percentile: None,
            extra: Vec::new(),
        };
        assert(text_set(r.vendors@) =~= Set::empty());
        assert(r@.extra =~= Map::empty());
        assert(r@ =~= empty_model(id@));
        r
    }
}

proof fn lemma_pairs_map_dom(ps: Seq<(Seq<char>, Seq<char>)>)
    requires
        pair_keys(ps).no_duplicates(),
    ensures
        pairs_map(ps).dom() == pair_keys(ps).to_set(),
        pairs_map(ps).dom().len() == ps.len(),
    decreases ps.len(),
{
    if ps.len() == 0 {
        assert(pair_keys(ps).to_set() =~= Set::empty());
    } else {
        let d = ps.drop_last();
        assert(pair_keys(d) =~= pair_keys(ps).drop_last());
        assert(pair_keys(ps) =~= pair_keys(d).push(ps.last().0));
        lemma_pairs_map_dom(d);
        assert(!pair_keys(d).contains(ps.last().0)) by {
            if pair_keys(d).contains(ps.last().0) {
                let k = choose|k: int| 0 <= k < pair_keys(d).len() && pair_keys(d)[k] == ps.last().0;
                assert(pair_keys(ps)[k] == pair_keys(ps)[ps.len() - 1]);
            }
        }
        assert(pairs_map(ps).dom() =~= pairs_map(d).dom().insert(ps.last().0));
    }
}

proof fn lemma_pairs_map_update(ps: Seq<(Seq<char>, Seq<char>)>, i: int, v: Seq<char>)
    requires
        pair_keys(ps).no_duplicates(),
        0 <= i < ps.len(),
    ensures
        pairs_map(ps.update(i, (ps[i].0, v))) == pairs_map(ps).insert(ps[i].0, v),
    decreases ps.len(),
{
    let k = ps[i].0;
    let qs = ps.update(i, (k, v));
    let n = ps.len() - 1;
    let d = ps.drop_last();
    if i == n {
        assert(qs.drop_last() =~= d);
        assert(pairs_map(qs) =~= pairs_map(ps).insert(k, v));
    } else {
        assert(qs.drop_last() =~= d.update(i, (k, v)));
        assert(pair_keys(d) =~= pair_keys(ps).drop_last());
        lemma_pairs_map_update(d, i, v);
        assert(pair_keys(ps)[i] != pair_keys(ps)[n]);
        assert(pairs_map(qs) =~= pairs_map(ps).insert(k, v));
    }
}

/// Sets the value of `e.key` in a list of entries with distinct keys.
pub(crate) fn upsert_entry(v: &mut Vec<ExtraEntry>, e: ExtraEntry)
    requires
        distinct_keys(old(v)@),
    ensures
        distinct_keys(final(v)@),
        pairs_map(entry_pairs(final(v)@)) == pairs_map(entry_pairs(old(v)@)).insert(e.key@, e.value@),
{
    let ghost ps = entry_pairs(v@);
    let mut i: usize = 0;
    while i < v.len()
        invariant
            i <= v.len(),
            v@ == old(v)@,
            ps == entry_pairs(v@),
            pair_keys(ps).no_duplicates(),
            forall|k: int| 0 <= k < i ==> v@[k].key@ != e.key@,
        decreases v.len() - i,
    {
        if v[i].key == e.key {
            let ghost val = e.value@;
            v.set(i, e);
            proof {
                assert(entry_pairs(v@) =~= ps.update(i as int, (ps[i as int].0, val)));
                lemma_pairs_map_update(ps, i as int, val);
                assert(pair_keys(entry_pairs(v@)) =~= pair_keys(ps));
            }
            return;
        }
        i = i + 1;
    }
    let ghost kv = (e.key@, e.value@);
    v.push(e);
    proof {
        assert(entry_pairs(v@) =~= ps.push(kv));
        assert(pair_keys(entry_pairs(v@)) =~= pair_keys(ps).push(kv.0));
        assert(entry_pairs(v@).drop_last() =~= ps);
        assert forall|a: int, b: int|
            0 <= a < b < pair_keys(entry_pairs(v@)).len() implies
            pair_keys(entry_pairs(v@))[a] != pair_keys(entry_pairs(v@))[b] by {
            if b == ps.len() {
                assert(pair_keys(entry_pairs(v@))[a] == v@[a].key@);
            }
        }
    }
}

/// Overlays the accepted entries of `incoming` on the bag `base`.
fn absorb_extra(base: Vec<ExtraEntry>, incoming: &Vec<ExtraEntry>) -> (r: Vec<ExtraEntry>)
    requires
        distinct_keys(base@),
    ensures
        distinct_keys(r@),
        pairs_map(entry_pairs(r@)) == pairs_map(entry_pairs(base@)).union_prefer_right(
            accepted_extra(entry_pairs(incoming@)),
        ),
{
    let ghost b = pairs_map(entry_pairs(base@));
    let ghost ins = entry_pairs(incoming@);
    let mut acc = base;
    let mut i: usize = 0;
    assert(accepted_extra(ins.take(0)) =~= Map::empty());
    assert(b.union_prefer_right(Map::empty()) =~= b);
    while i < incoming.len()
        invariant
            i <= incoming.len(),
            ins == entry_pairs(incoming@),
            distinct_keys(acc@),
            pairs_map(entry_pairs(acc@)) == b.union_prefer_right(accepted_extra(ins.take(i as int))),
        decreases incoming.len() - i,
    {
        assert(ins.take(i + 1).drop_last() =~= ins.take(i as int));
        let e = &incoming[i];
        if e.value.as_str().len() <= MAX_EXTRA_VALUE_BYTES {
            let ghost a = accepted_extra(ins.take(i as int));
            upsert_entry(&mut acc, e.clone_entry());
            assert(b.union_prefer_right(a.insert(e.key@, e.value@)) =~= b.union_prefer_right(a).insert(
                e.key@,
                e.value@,
            ));
        }
        i = i + 1;
    }
    assert(ins.take(incoming.len() as int) =~= ins);
    acc
}

/// Adds to `acc` each text of `items` that it does not hold yet.
pub(crate) fn union_texts(acc: Vec<String>, items: &Vec<String>) -> (r: Vec<String>)
    requires
        texts(acc@).no_duplicates(),
    ensures
        texts(r@).no_duplicates(),
        text_set(r@) == text_set(acc@) + text_set(items@),
{
    let ghost a0 = text_set(acc@);
    let mut out = acc;
    let mut i: usize = 0;
    assert(texts(items@).take(0).to_set() =~= Set::empty());
    assert(a0 + Set::empty() =~= a0);
    while i < items.len()
        invariant
            i <= items.len(),
            texts(out@).no_duplicates(),
            text_set(out@) == a0 + texts(items@).take(i as int).to_set(),
        decreases items.len() - i,
    {
        let ghost pre = texts(items@).take(i as int);
        let ghost x = items@[i as int]@;
        assert(texts(items@).take(i + 1) =~= pre.push(x));
        proof {
            pre.lemma_push_to_set_commute(x);
        }
        if !contains_text(&out, &items[i]) {
            let ghost o = texts(out@);
            out.push(items[i].clone());
            assert(texts(out@) =~= o.push(x));
            proof {
                o.lemma_push_to_set_commute(x);
            }
        } else {
            assert(text_set(out@).contains(x));
        }
        assert(text_set(out@) =~= a0 + texts(items@).take(i + 1).to_set());
        i = i + 1;
    }
    assert(texts(items@).take(items.len() as int) =~= texts(items@));
    out
}

impl ExtraEntry {
    /// A copy of the entry.
    pub fn clone_entry(&self) -> (r: ExtraEntry)
        ensures
            r.key@ == self.key@,
            r.value@ == self.value@,
    {
        ExtraEntry { key: self.key.clone(), value: self.value.clone() }
    }
}

/// A field that is overwritten when supplied and kept otherwise.
fn supplied_or_keep<T>(new: Option<T>, old: Option<T>) -> (r: Option<T>)
    ensures
        r == supplied_or(new, old),
{
    match new {
        Some(x) => Some(x),
        None => old,
    }
}

/// The larger of two optional counts.
pub fn larger_count(old: Option<i64>, new: Option<i64>) -> (r: Option<i64>)
    ensures
        r == max_count(old, new),
{
    match (old, new) {
        (Some(a), Some(b)) => Some(if a >= b { a } else { b }),
        (Some(a), None) => Some(a),
        (None, b) => b,
    }
}

/// The risk label of higher priority; the existing one stays on a tie.
pub fn higher_risk_label(old: Option<String>, new: Option<String>) -> (r: Option<String>)
    ensures
        opt_text(r) == higher_label(opt_text(old), opt_text(new)),
{
    match (old, new) {
        (Some(o), Some(n)) => {
            if get_risk_priority(n.as_str()) > get_risk_priority(o.as_str()) {
                Some(n)
            } else {
                Some(o)
            }
        },
        (Some(o), None) => Some(o),
        (None, n) => n,
    }
}

/// The extra bag after a merge: `old` overlaid with the accepted entries of
/// `incoming`, or those entries alone when the overlay would hold more than
/// `MAX_EXTRA_KEYS` keys.
pub fn merge_extra(old: Vec<ExtraEntry>, incoming: &Vec<ExtraEntry>) -> (r: Vec<ExtraEntry>)
    requires
        distinct_keys(old@),
    ensures
        distinct_keys(r@),
        pairs_map(entry_pairs(r@)) == bounded_extra(
            pairs_map(entry_pairs(old@)),
            accepted_extra(entry_pairs(incoming@)),
        ),
{
    let merged = absorb_extra(old, incoming);
    proof {
        lemma_pairs_map_dom(entry_pairs(merged@));
    }
    if merged.len() > MAX_EXTRA_KEYS {
        let fresh: Vec<ExtraEntry> = Vec::new();
        assert(pair_keys(entry_pairs(fresh@)) =~= Seq::empty());
        assert(pairs_map(entry_pairs(fresh@)) =~= Map::empty());
        let r = absorb_extra(fresh, incoming);
        assert(Map::<Seq<char>, Seq<char>>::empty().union_prefer_right(
            accepted_extra(entry_pairs(incoming@)),
        ) =~= accepted_extra(entry_pairs(incoming@)));
        r
    } else {
        merged
    }
}

/// Folds `incoming`, supplied by feed `source`, into the state of its
/// identifier (`None` when the identifier has no state yet). Scalars are
/// overwritten when supplied, sets are united, flags are or-ed, the PoC count
/// takes the maximum, the risk label the higher priority, `source` joins the
/// sources, and the extra bag stays bounded.
#[verifier::rlimit(60)]
pub fn merge(existing: Option<CveState>, incoming: NormalizedCVE, source: &str) -> (r: CveState)
    requires
        match existing {
            Some(s) => s.wf(),
            None => true,
        },
    ensures
        r.wf(),
        r@ == merged_model(opt_model(existing), incoming@, source@),
{
    let ghost p = incoming@;
    let b = match existing {
        Some(s) => s,
        None => CveState::empty(incoming.cve_id.clone()),
    };
    let ghost bm = b@;
    assert(merged_model(opt_model(existing), p, source@) == combine(bm, p, source@));
    let mut one: Vec<String> = Vec::new();
    one.push(String::from_str(source));
    assert(texts(one@) =~= seq![source@]);
    assert(text_set(one@) =~= set![source@]);
    let sources = union_texts(b.sources, &one);
    assert(bm.sources + set![source@] =~= bm.sources.insert(source@));
    let vendors = union_texts(b.vendors, &incoming.vendors);
    let products = union_texts(b.products, &incoming.products);
    let references = union_texts(b.references, &incoming.references);
    let cwe_ids = match &incoming.cwe_ids {
        Some(v) => union_texts(b.cwe_ids, v),
        None => {
            assert(bm.cwe_ids + Set::empty() =~= bm.cwe_ids);
            b.cwe_ids
        },
    };
    let poc_sources = match &incoming.poc_sources {
        Some(v) => union_texts(b.poc_sources, v),
        None => {
            assert(bm.poc_sources + Set::empty() =~= bm.poc_sources);
            b.poc_sources
        },
    };
    let extra = merge_extra(b.extra, &incoming.extra);
    let is_in_kev = match incoming.is_in_kev {
        Some(true) => true,
        _ => b.is_in_kev,
    };
    let exploit_exists = match incoming.exploit_exists {
        Some(true) => true,
        _ => b.exploit_exists,
    };
    CveState {
        cve_id: b.cve_id,
        title: supplied_or_keep(incoming.title, b.title),
        description: supplied_or_keep(incoming.description, b.description),
        severity: supplied_or_keep(incoming.severity, b.severity),
        cvss_v2_score: supplied_or_keep(incoming.cvss_v2_score, b.cvss_v2_score),
        cvss_v3_score: supplied_or_keep(incoming.cvss_v3_score, b.cvss_v3_score),
        publish_date: supplied_or_keep(incoming.publish_date, b.publish_date),
        update_date: supplied_or_keep(incoming.update_date, b.update_date),
        vendors,
        products,
        references,
        sources,
        cwe_ids,
        attack_vector: supplied_or_keep(incoming.attack_vector, b.attack_vector),
        privileges_required: supplied_or_keep(incoming.privileges_required, b.privileges_required),
        user_interaction: supplied_or_keep(incoming.user_interaction, b.user_interaction),
        confidentiality_impact: supplied_or_keep(
            incoming.confidentiality_impact,
            b.confidentiality_impact,
        ),
        integrity_impact: supplied_or_keep(incoming.integrity_impact, b.integrity_impact),
        availability_impact: supplied_or_keep(incoming.availability_impact, b.availability_impact),
        is_in_kev,
        exploit_exists,
        poc_sources,
        poc_repo_count: larger_count(b.poc_repo_count, incoming.poc_repo_count),
        poc_risk_label: higher_risk_label(b.poc_risk_label, incoming.poc_risk_label),
        feed_version: supplied_or_keep(incoming.feed_version, b.feed_version),
        epss_score: supplied_or_keep(incoming.epss_score, b.epss_score),
        epss_percentile: supplied_or_keep(incoming.epss_percentile, b.epss_percentile),
        extra,
    }
}

} // verus!
