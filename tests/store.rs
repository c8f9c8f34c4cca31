use tianlu_intel_core::codec::{
    decode_extra, decode_opt_set, decode_row, decode_set, encode_extra, encode_row, CveRecord,
};
use tianlu_intel_core::ingest::{
    ingest_row, log_needs_rotation, IngestSummary, LineOutcome, Step,
};
use tianlu_intel_core::record::{merge, ExtraEntry, NormalizedCVE};
use tianlu_intel_core::text::is_blank;

fn blank(id: &str) -> NormalizedCVE {
    NormalizedCVE {
        cve_id: id.to_string(),
        title: None,
        description: None,
        severity: None,
        cvss_v2_score: None,
        cvss_v3_score: None,
        publish_date: None,
        update_date: None,
        vendors: Vec::new(),
        products: Vec::new(),
        references: Vec::new(),
        cwe_ids: None,
        attack_vector: None,
        privileges_required: None,
        user_interaction: None,
        confidentiality_impact: None,
        integrity_impact: None,
        availability_impact: None,
        is_in_kev: None,
        exploit_exists: None,
        poc_sources: None,
        poc_repo_count: None,
        poc_risk_label: None,
        feed_version: None,
        epss_score: None,
        epss_percentile: None,
        extra: Vec::new(),
    }
}

fn row(id: &str) -> CveRecord {
    CveRecord {
        cve_id: id.to_string(),
        title: None,
        description: None,
        severity: None,
        cvss_v2_score: None,
        cvss_v3_score: None,
        publish_date: None,
        update_date: None,
        vendors: "[]".to_string(),
        products: "[]".to_string(),
        references: "[]".to_string(),
        sources: "[]".to_string(),
        raw_data: None,
        cwe_ids: None,
        attack_vector: None,
        privileges_required: None,
        user_interaction: None,
        confidentiality_impact: None,
        integrity_impact: None,
        availability_impact: None,
        is_in_kev: None,
        exploit_exists: None,
        poc_sources: None,
        poc_repo_count: None,
        poc_risk_label: None,
        feed_version: None,
        epss_score: None,
        epss_percentile: None,
    }
}

#[test]
fn stored_array_decodes_to_distinct_texts() {
    let (v, bad) = decode_set("[\"a\",\"b\",\"a\"]");
    assert_eq!(v, vec!["a".to_string(), "b".to_string()]);
    assert!(!bad);
}

#[test]
fn corrupt_array_reads_empty_with_warning() {
    let (v, bad) = decode_set("not json");
    assert!(v.is_empty());
    assert!(bad);
    let (v, bad) = decode_set("");
    assert!(v.is_empty());
    assert!(!bad);
    let (v, bad) = decode_opt_set(&None);
    assert!(v.is_empty());
    assert!(!bad);
}

#[test]
fn stored_object_decodes_to_entries() {
    let (v, bad) = decode_extra(&Some("{\"a\":1,\"b\":\"x\"}".to_string()));
    assert!(!bad);
    let mut pairs: Vec<(String, String)> = v.iter().map(|e| (e.key.clone(), e.value.clone())).collect();
    pairs.sort();
    assert_eq!(
        pairs,
        vec![("a".to_string(), "1".to_string()), ("b".to_string(), "\"x\"".to_string())]
    );
    let (v, bad) = decode_extra(&Some("[1]".to_string()));
    assert!(v.is_empty());
    assert!(bad);
}

#[test]
fn row_with_corrupt_fields_reports_them() {
    let mut r = row("CVE-1");
    r.vendors = "{oops".to_string();
    r.poc_sources = Some("nope".to_string());
    r.sources = "[\"nvd\"]".to_string();
    r.is_in_kev = Some(true);
    let (s, w) = decode_row(&r);
    assert_eq!(w, vec!["vendors".to_string(), "poc_sources".to_string()]);
    assert!(s.vendors.is_empty());
    assert_eq!(s.sources, vec!["nvd".to_string()]);
    assert!(s.is_in_kev);
}

#[test]
fn state_encodes_to_json_text() {
    let mut a = blank("CVE-2");
    a.vendors = vec!["acme".to_string()];
    a.extra = vec![ExtraEntry { key: "k\"q".to_string(), value: "[1,2]".to_string() }];
    let s = merge(None, a, "nvd");
    let r = encode_row(&s);
    assert_eq!(r.vendors, "[\"acme\"]");
    assert_eq!(r.sources, "[\"nvd\"]");
    assert_eq!(r.products, "[]");
    assert_eq!(r.cwe_ids.as_deref(), Some("[]"));
    assert_eq!(r.raw_data.as_deref(), Some("{\"k\\\"q\":[1,2]}"));
    assert_eq!(r.is_in_kev, Some(false));
}

#[test]
fn extra_bag_text_joins_members() {
    let e = vec![
        ExtraEntry { key: "a".to_string(), value: "1".to_string() },
        ExtraEntry { key: "b".to_string(), value: "true".to_string() },
    ];
    assert_eq!(encode_extra(&e), "{\"a\":1,\"b\":true}");
    assert_eq!(encode_extra(&Vec::new()), "{}");
}

#[test]
fn oversized_extra_bag_is_stored_empty() {
    let big = format!("\"{}\"", "x".repeat(10000));
    let e: Vec<ExtraEntry> = (0..600)
        .map(|i| ExtraEntry { key: format!("k{}", i), value: big.clone() })
        .collect();
    assert_eq!(encode_extra(&e), "{}");
}

#[test]
fn ingest_row_merges_with_stored_row() {
    let mut r = row("CVE-2024-0001");
    r.vendors = "[\"acme\"]".to_string();
    r.sources = "[\"nvd\"]".to_string();
    r.severity = Some("HIGH".to_string());
    let mut inc = blank("CVE-2024-0001");
    inc.vendors = vec!["acme-labs".to_string()];
    inc.is_in_kev = Some(true);
    let out = ingest_row(Some(&r), inc, "kev");
    assert!(out.warnings.is_empty());
    assert_eq!(out.row.vendors, "[\"acme\",\"acme-labs\"]");
    assert_eq!(out.row.sources, "[\"nvd\",\"kev\"]");
    assert_eq!(out.row.severity.as_deref(), Some("HIGH"));
    assert_eq!(out.row.is_in_kev, Some(true));
    let (back, w) = decode_row(&out.row);
    assert!(w.is_empty());
    assert_eq!(back.vendors, out.state.vendors);
}

#[test]
fn ingest_row_without_stored_row() {
    let out = ingest_row(None, blank("CVE-9"), "nvd");
    assert!(out.warnings.is_empty());
    assert_eq!(out.row.cve_id, "CVE-9");
    assert_eq!(out.row.sources, "[\"nvd\"]");
    assert_eq!(out.row.raw_data.as_deref(), Some("{}"));
}

#[test]
fn batch_commits_every_five_hundred() {
    let mut s = IngestSummary::new();
    let mut commits = 0;
    for _ in 0..1000 {
        if s.step(LineOutcome::Applied) == Step::Commit {
            commits += 1;
        }
    }
    assert_eq!(commits, 2);
    assert_eq!(s.applied, 1000);
    let mut s = IngestSummary::new();
    for _ in 0..499 {
        assert_eq!(s.step(LineOutcome::Applied), Step::Continue);
    }
    assert_eq!(s.step(LineOutcome::Applied), Step::Commit);
}

#[test]
fn failures_are_logged_and_counted() {
    let mut s = IngestSummary::new();
    assert_eq!(s.step(LineOutcome::ParseFailed), Step::LogError);
    assert_eq!(s.step(LineOutcome::ProcessFailed), Step::LogError);
    assert_eq!(s.step(LineOutcome::Blank), Step::Continue);
    assert_eq!(s.parse_failures, 1);
    assert_eq!(s.process_failures, 1);
    assert_eq!(s.applied, 0);
}

#[test]
fn log_rotates_beyond_five_megabytes() {
    assert!(!log_needs_rotation(5 * 1024 * 1024));
    assert!(log_needs_rotation(5 * 1024 * 1024 + 1));
    assert!(!log_needs_rotation(0));
}

#[test]
fn blank_lines_are_recognised() {
    assert!(is_blank(""));
    assert!(is_blank("  \t \u{3000}"));
    assert!(!is_blank(" {} "));
}
