use tianlu_intel_core::ingest::{normalize_cve_id, normalize_record};
use tianlu_intel_core::record::{
    higher_risk_label, larger_count, merge, merge_extra, CveState, ExtraEntry, NormalizedCVE,
    Score,
};
use tianlu_intel_core::severity::get_risk_priority;

fn blank(id: &str) -> NormalizedCVE {
    NormalizedCVE {
        cve_id: id.to_string(),
        title: None,
        description: None,
        severity: None,
        cvss_v2_score: None,
        cvss_v3_score: None,
        publish_date: None,
        update_date: None,
        vendors: Vec::new(),
        products: Vec::new(),
        references: Vec::new(),
        cwe_ids: None,
        attack_vector: None,
        privileges_required: None,
        user_interaction: None,
        confidentiality_impact: None,
        integrity_impact: None,
        availability_impact: None,
        is_in_kev: None,
        exploit_exists: None,
        poc_sources: None,
        poc_repo_count: None,
        poc_risk_label: None,
        feed_version: None,
        epss_score: None,
        epss_percentile: None,
        extra: Vec::new(),
    }
}

fn sorted(v: &[String]) -> Vec<String> {
    let mut v = v.to_vec();
    v.sort();
    v
}

fn strs(v: &[&str]) -> Vec<String> {
    v.iter().map(|s| s.to_string()).collect()
}

fn entry(k: &str, v: &str) -> ExtraEntry {
    ExtraEntry { key: k.to_string(), value: v.to_string() }
}

fn extra_keys(s: &CveState) -> Vec<String> {
    let mut v: Vec<String> = s.extra.iter().map(|e| e.key.clone()).collect();
    v.sort();
    v
}

#[test]
fn scenario_two_feeds_consolidate() {
    let mut a = blank("CVE-2024-0001");
    a.severity = Some("HIGH".to_string());
    a.vendors = strs(&["acme"]);
    let mut b = blank("cve-2024-0001");
    b.is_in_kev = Some(true);
    b.vendors = strs(&["acme-labs"]);
    let a = normalize_record(a);
    let b = normalize_record(b);
    assert_eq!(a.cve_id, b.cve_id);
    let s1 = merge(None, a, "nvd");
    let s2 = merge(Some(s1), b, "kev");
    assert_eq!(s2.cve_id, "CVE-2024-0001");
    assert_eq!(s2.severity.as_deref(), Some("HIGH"));
    assert_eq!(sorted(&s2.vendors), strs(&["acme", "acme-labs"]));
    assert!(s2.is_in_kev);
    assert_eq!(sorted(&s2.sources), strs(&["kev", "nvd"]));
}

#[test]
fn case_variants_share_one_identifier() {
    assert_eq!(normalize_cve_id("cve-2024-1234"), "CVE-2024-1234");
    assert_eq!(normalize_cve_id("CVE-2024-1234"), "CVE-2024-1234");
    let a = normalize_record(blank("cve-2024-1234"));
    let b = normalize_record(blank("CVE-2024-1234"));
    let s = merge(Some(merge(None, a, "nvd")), b, "osv");
    assert_eq!(s.cve_id, "CVE-2024-1234");
    assert_eq!(sorted(&s.sources), strs(&["nvd", "osv"]));
}

#[test]
fn reingesting_same_record_changes_nothing() {
    let mut a = blank("CVE-2024-0002");
    a.title = Some("t".to_string());
    a.vendors = strs(&["acme", "acme"]);
    a.is_in_kev = Some(true);
    a.poc_repo_count = Some(4);
    a.poc_risk_label = Some("trusted".to_string());
    a.extra = vec![entry("k", "1")];
    let once = merge(None, a.clone(), "nvd");
    let twice = merge(Some(once.clone()), a, "nvd");
    assert_eq!(twice.sources, strs(&["nvd"]));
    assert_eq!(sorted(&twice.vendors), sorted(&once.vendors));
    assert_eq!(twice.vendors.len(), 1);
    assert_eq!(twice.is_in_kev, once.is_in_kev);
    assert_eq!(twice.poc_repo_count, once.poc_repo_count);
    assert_eq!(twice.poc_risk_label, once.poc_risk_label);
    assert_eq!(twice.title, once.title);
    assert_eq!(extra_keys(&twice), extra_keys(&once));
}

#[test]
fn kev_flag_never_resets() {
    let mut a = blank("CVE-2024-0003");
    a.is_in_kev = Some(true);
    let s = merge(None, a, "kev");
    let mut b = blank("CVE-2024-0003");
    b.is_in_kev = Some(false);
    let s = merge(Some(s), b, "nvd");
    assert!(s.is_in_kev);
    let s = merge(Some(s), blank("CVE-2024-0003"), "osv");
    assert!(s.is_in_kev);
}

#[test]
fn exploit_flag_never_resets() {
    let mut a = blank("CVE-2024-0013");
    a.exploit_exists = Some(true);
    let s = merge(None, a, "x");
    let mut b = blank("CVE-2024-0013");
    b.exploit_exists = Some(false);
    let s = merge(Some(s), b, "y");
    assert!(s.exploit_exists);
}

#[test]
fn repo_count_keeps_maximum() {
    let mut a = blank("CVE-2024-0004");
    a.poc_repo_count = Some(3);
    let mut b = blank("CVE-2024-0004");
    b.poc_repo_count = Some(1);
    let s = merge(Some(merge(None, a, "x")), b, "y");
    assert_eq!(s.poc_repo_count, Some(3));
    let s = merge(Some(s), blank("CVE-2024-0004"), "z");
    assert_eq!(s.poc_repo_count, Some(3));
    assert_eq!(larger_count(Some(3), Some(7)), Some(7));
    assert_eq!(larger_count(None, Some(1)), Some(1));
    assert_eq!(larger_count(None, None), None);
}

#[test]
fn risk_label_takes_priority_in_either_order() {
    let mut low = blank("CVE-2024-0005");
    low.poc_risk_label = Some("unknown".to_string());
    let mut high = blank("CVE-2024-0005");
    high.poc_risk_label = Some("verified_exploit".to_string());
    let s = merge(Some(merge(None, low.clone(), "a")), high.clone(), "b");
    assert_eq!(s.poc_risk_label.as_deref(), Some("verified_exploit"));
    let s = merge(Some(merge(None, high, "b")), low, "a");
    assert_eq!(s.poc_risk_label.as_deref(), Some("verified_exploit"));
}

#[test]
fn risk_label_tie_keeps_existing() {
    let r = higher_risk_label(Some("foo".to_string()), Some("bar".to_string()));
    assert_eq!(r.as_deref(), Some("foo"));
    let r = higher_risk_label(None, Some("bar".to_string()));
    assert_eq!(r.as_deref(), Some("bar"));
    let r = higher_risk_label(Some("trusted".to_string()), None);
    assert_eq!(r.as_deref(), Some("trusted"));
}

#[test]
fn risk_priorities() {
    assert_eq!(get_risk_priority("verified_exploit"), 4);
    assert_eq!(get_risk_priority("trusted"), 3);
    assert_eq!(get_risk_priority("unverified_exploit"), 2);
    assert_eq!(get_risk_priority("unknown"), 1);
    assert_eq!(get_risk_priority("Trusted"), 0);
    assert_eq!(get_risk_priority(""), 0);
}

#[test]
fn extra_bag_restarts_on_fifty_first_key() {
    let mut a = blank("CVE-2024-0006");
    a.extra = (0..50).map(|i| entry(&format!("k{}", i), "1")).collect();
    let s = merge(None, a, "x");
    assert_eq!(s.extra.len(), 50);
    let mut b = blank("CVE-2024-0006");
    b.extra = vec![entry("new", "2")];
    let s = merge(Some(s), b, "y");
    assert_eq!(extra_keys(&s), strs(&["new"]));
}

#[test]
fn extra_bag_overlays_below_cap() {
    let old = vec![entry("a", "1"), entry("b", "2")];
    let r = merge_extra(old, &vec![entry("b", "3"), entry("c", "4")]);
    let mut pairs: Vec<(String, String)> = r.iter().map(|e| (e.key.clone(), e.value.clone())).collect();
    pairs.sort();
    assert_eq!(
        pairs,
        vec![
            ("a".to_string(), "1".to_string()),
            ("b".to_string(), "3".to_string()),
            ("c".to_string(), "4".to_string())
        ]
    );
}

#[test]
fn extra_bag_drops_oversized_values() {
    let big = "x".repeat(10241);
    let ok = "y".repeat(10240);
    let r = merge_extra(Vec::new(), &vec![entry("big", &big), entry("ok", &ok)]);
    assert_eq!(r.len(), 1);
    assert_eq!(r[0].key, "ok");
}

#[test]
fn scalars_overwrite_when_supplied() {
    let mut a = blank("CVE-2024-0007");
    a.title = Some("old".to_string());
    a.description = Some("desc".to_string());
    a.cvss_v3_score = Some(Score { bits: 7.5f64.to_bits() });
    let mut b = blank("CVE-2024-0007");
    b.title = Some("new".to_string());
    let s = merge(Some(merge(None, a, "x")), b, "y");
    assert_eq!(s.title.as_deref(), Some("new"));
    assert_eq!(s.description.as_deref(), Some("desc"));
    assert_eq!(s.cvss_v3_score.map(|x| f64::from_bits(x.bits)), Some(7.5));
}

#[test]
fn fresh_record_defaults() {
    let mut a = blank("CVE-2024-0008");
    a.cwe_ids = Some(strs(&["CWE-79", "CWE-79"]));
    let s = merge(None, a, "nvd");
    assert_eq!(s.cwe_ids, strs(&["CWE-79"]));
    assert!(!s.is_in_kev);
    assert!(!s.exploit_exists);
    assert!(s.poc_sources.is_empty());
    assert_eq!(s.sources, strs(&["nvd"]));
}

#[test]
fn sets_only_grow() {
    let mut a = blank("CVE-2024-0009");
    a.products = strs(&["p1"]);
    a.references = strs(&["r1"]);
    a.poc_sources = Some(strs(&["gh"]));
    let mut b = blank("CVE-2024-0009");
    b.products = strs(&["p2", "p1"]);
    let s = merge(Some(merge(None, a, "x")), b, "y");
    assert_eq!(sorted(&s.products), strs(&["p1", "p2"]));
    assert_eq!(s.references, strs(&["r1"]));
    assert_eq!(s.poc_sources, strs(&["gh"]));
}

#[test]
fn empty_state_holds_nothing() {
    let s = CveState::empty("CVE-1".to_string());
    assert_eq!(s.cve_id, "CVE-1");
    assert!(s.sources.is_empty() && s.extra.is_empty() && s.title.is_none());
}
