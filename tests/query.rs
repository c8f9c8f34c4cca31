use tianlu_intel_core::digest::{parse_since_date, relative_days, resolve_since};
use tianlu_intel_core::errors::AppError;
use tianlu_intel_core::export::{csv_header, csv_text_cell};
use tianlu_intel_core::filter::{
    build_digest_query, build_export_query, build_list_query, build_show_query, id_like_pattern,
    like_contains, watch_min_rank, FilterCriteria, SqlParam, WatchlistItem,
};
use tianlu_intel_core::severity::{
    meets_severity_floor, rank_of_upper, severities_from_rank, severity_to_rank,
};

fn none() -> FilterCriteria {
    FilterCriteria {
        since: None,
        until: None,
        severity: None,
        keyword: None,
        cwe: None,
        attack_vector: None,
        in_kev: false,
        source: None,
        vendor: None,
        product: None,
        limit: 50,
    }
}

fn texts(ps: &[SqlParam]) -> Vec<String> {
    ps.iter()
        .map(|p| match p {
            SqlParam::Text(s) => s.clone(),
            SqlParam::Int(n) => format!("#{}", n),
        })
        .collect()
}

#[test]
fn no_criteria_lists_newest_first() {
    let q = build_list_query(&none());
    assert_eq!(q.sql, "SELECT * FROM cve_records WHERE 1=1 ORDER BY publish_date DESC LIMIT ?");
    assert_eq!(texts(&q.params), vec!["#50".to_string()]);
}

#[test]
fn severity_and_kev_are_conjoined() {
    let mut c = none();
    c.severity = Some("HIGH".to_string());
    c.in_kev = true;
    c.limit = 10;
    let q = build_list_query(&c);
    assert_eq!(
        q.sql,
        "SELECT * FROM cve_records WHERE 1=1 AND severity = ? AND is_in_kev = 1 ORDER BY publish_date DESC LIMIT ?"
    );
    assert_eq!(texts(&q.params), vec!["HIGH".to_string(), "#10".to_string()]);
}

#[test]
fn vendor_with_quote_is_bound_not_spliced() {
    let mut c = none();
    c.vendor = Some("o'reilly'; DROP TABLE cve_records; --".to_string());
    let q = build_list_query(&c);
    let mut d = none();
    d.vendor = Some("acme".to_string());
    assert_eq!(q.sql, build_list_query(&d).sql);
    assert!(!q.sql.contains("reilly"));
    assert_eq!(
        texts(&q.params),
        vec!["%o'reilly'; DROP TABLE cve\\_records; --%".to_string(), "#50".to_string()]
    );
}

#[test]
fn all_criteria_in_order() {
    let c = FilterCriteria {
        since: Some("2024-01-01".to_string()),
        until: Some("2024-12-31".to_string()),
        severity: Some("LOW".to_string()),
        keyword: Some("rce".to_string()),
        cwe: Some("CWE-79".to_string()),
        attack_vector: Some("NETWORK".to_string()),
        in_kev: true,
        source: Some("nvd".to_string()),
        vendor: Some("acme".to_string()),
        product: Some("widget".to_string()),
        limit: 5,
    };
    let q = build_list_query(&c);
    assert_eq!(
        q.sql,
        "SELECT * FROM cve_records WHERE 1=1 AND publish_date >= ? AND publish_date <= ? AND severity = ? AND (title LIKE ? ESCAPE '\\' OR description LIKE ? ESCAPE '\\') AND cwe_ids LIKE ? ESCAPE '\\' AND attack_vector = ? AND is_in_kev = 1 AND sources LIKE ? ESCAPE '\\' AND vendors LIKE ? ESCAPE '\\' AND products LIKE ? ESCAPE '\\' ORDER BY publish_date DESC LIMIT ?"
    );
    assert_eq!(
        texts(&q.params),
        vec!["2024-01-01", "2024-12-31", "LOW", "%rce%", "%rce%", "%CWE-79%", "NETWORK", "%nvd%", "%acme%", "%widget%", "#5"]
            .into_iter()
            .map(|s| s.to_string())
            .collect::<Vec<_>>()
    );
}

#[test]
fn like_wildcards_are_escaped() {
    assert_eq!(like_contains("50%_off\\"), "%50\\%\\_off\\\\%");
    assert_eq!(like_contains(""), "%%");
}

#[test]
fn export_and_show_queries() {
    let q = build_export_query(&Some("2024-01-01".to_string()), &None);
    assert_eq!(q.sql, "SELECT * FROM cve_records WHERE 1=1 AND publish_date >= ?");
    assert_eq!(texts(&q.params), vec!["2024-01-01".to_string()]);
    let q = build_export_query(&None, &None);
    assert_eq!(q.sql, "SELECT * FROM cve_records WHERE 1=1");
    assert!(q.params.is_empty());
    let q = build_show_query("CVE-1");
    assert_eq!(q.sql, "SELECT * FROM cve_records WHERE cve_id = ?");
    assert_eq!(texts(&q.params), vec!["CVE-1".to_string()]);
}

#[test]
fn digest_query_expands_lists_and_floor() {
    let item = WatchlistItem {
        name: "web".to_string(),
        keywords: Some(vec!["xss".to_string(), "csrf".to_string()]),
        vendors: Some(vec!["acme".to_string()]),
        products: Some(Vec::new()),
        severity_min: Some(" high ".to_string()),
    };
    let q = build_digest_query(&item, "2024-01-01", Some("CVE-2024"));
    assert_eq!(
        q.sql,
        "SELECT * FROM cve_records WHERE publish_date >= ? AND (((title LIKE ? ESCAPE '\\' OR description LIKE ? ESCAPE '\\') OR (title LIKE ? ESCAPE '\\' OR description LIKE ? ESCAPE '\\')) AND (vendors LIKE ? ESCAPE '\\')) AND cve_id LIKE ? AND severity IN (?, ?) ORDER BY publish_date DESC"
    );
    assert_eq!(
        texts(&q.params),
        vec!["2024-01-01", "%xss%", "%xss%", "%csrf%", "%csrf%", "%acme%", "CVE-2024%", "HIGH", "CRITICAL"]
            .into_iter()
            .map(|s| s.to_string())
            .collect::<Vec<_>>()
    );
    assert_eq!(watch_min_rank(&item), 3);
}

#[test]
fn digest_query_without_filters() {
    let item = WatchlistItem {
        name: "all".to_string(),
        keywords: None,
        vendors: None,
        products: None,
        severity_min: None,
    };
    let q = build_digest_query(&item, "2024-01-01", None);
    assert_eq!(q.sql, "SELECT * FROM cve_records WHERE publish_date >= ? ORDER BY publish_date DESC");
    assert_eq!(texts(&q.params), vec!["2024-01-01".to_string()]);
}

#[test]
fn id_pattern_gets_trailing_wildcard() {
    assert_eq!(id_like_pattern("CVE-2024"), "CVE-2024%");
    assert_eq!(id_like_pattern("CVE-%-1"), "CVE-%-1");
}

#[test]
fn severity_ranks() {
    assert_eq!(severity_to_rank("critical"), 4);
    assert_eq!(severity_to_rank(" High\n"), 3);
    assert_eq!(severity_to_rank("MEDIUM"), 2);
    assert_eq!(severity_to_rank("low"), 1);
    assert_eq!(severity_to_rank("severe"), 0);
    assert_eq!(rank_of_upper("high"), 0);
    assert_eq!(rank_of_upper("HIGH"), 3);
}

#[test]
fn severities_at_or_above_a_floor() {
    assert_eq!(severities_from_rank(0), Vec::<String>::new());
    assert_eq!(severities_from_rank(1), vec!["LOW", "MEDIUM", "HIGH", "CRITICAL"]);
    assert_eq!(severities_from_rank(3), vec!["HIGH", "CRITICAL"]);
    assert_eq!(severities_from_rank(4), vec!["CRITICAL"]);
    assert_eq!(severities_from_rank(5), Vec::<String>::new());
}

#[test]
fn severity_floor_of_rows() {
    assert!(meets_severity_floor(Some("HIGH"), 3));
    assert!(!meets_severity_floor(Some("medium"), 3));
    assert!(!meets_severity_floor(None, 1));
    assert!(meets_severity_floor(None, 0));
}

#[test]
fn formula_title_is_neutralised() {
    assert_eq!(csv_text_cell("=SUM(A1)"), "\"'=SUM(A1)\"");
    assert_eq!(csv_text_cell("+1"), "\"'+1\"");
    assert_eq!(csv_text_cell("-x"), "\"'-x\"");
    assert_eq!(csv_text_cell("@cmd"), "\"'@cmd\"");
    assert_eq!(csv_text_cell("plain"), "\"plain\"");
    assert_eq!(csv_text_cell("say \"hi\""), "\"say \"\"hi\"\"\"");
    assert_eq!(csv_text_cell(""), "\"\"");
    assert_eq!(csv_header(), "cve_id,severity,cvss_v3_score,epss_score,publish_date,title");
}

#[test]
fn relative_start_dates() {
    assert_eq!(relative_days("7d"), Some(7));
    assert_eq!(relative_days("2w"), Some(14));
    assert_eq!(relative_days("5dd"), Some(5));
    assert_eq!(relative_days("-3d"), Some(-3));
    assert_eq!(relative_days("xd"), None);
    assert_eq!(relative_days("2024-01-01"), None);
    assert_eq!(relative_days("d"), None);
    assert_eq!(relative_days("9223372036854775807w"), None);
}

#[test]
fn start_date_resolution() {
    assert_eq!(parse_since_date("2024-01-01"), "2024-01-01");
    assert_eq!(resolve_since("7d", Some("2024-05-01".to_string())), "2024-05-01");
    assert_eq!(resolve_since("7d", None), "7d");
    assert_eq!(resolve_since("2024-01-01", Some("2024-05-01".to_string())), "2024-01-01");
    let d = parse_since_date("1d");
    assert_eq!(d.len(), 10);
    assert_ne!(d, "1d");
}

#[test]
fn error_codes() {
    assert_eq!(AppError::ConfigError("x".to_string()).code(), "E002");
    assert_eq!(AppError::Unknown("x".to_string()).code(), "E999");
    let io = std::io::Error::new(std::io::ErrorKind::Other, "x");
    assert_eq!(AppError::IoError(io).code(), "E003");
    assert_eq!(AppError::DatabaseError(sqlx::Error::RowNotFound).code(), "E001");
    let yaml = serde_yaml::from_str::<i32>("not a number").unwrap_err();
    assert_eq!(AppError::SerializationError(yaml).code(), "E004");
}
