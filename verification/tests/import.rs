use linkly_tui::import::{
    failure_records, parse_bool, parse_csv, set_field, success_records, template_records, write_failures,
    write_success, write_template, NewLink, SUPPORTED,
};
use linkly_tui::models::CreateLinkRequest;

#[test]
fn parses_valid_invalid_and_unknown_columns() {
    let data = "url,slug,enabled,bogus\nhttps://a.com,promo,yes,x\n,blank,no,y\nhttps://b.com,,,\n";
    let parsed = parse_csv("/tmp/t.csv".to_string(), data.as_bytes(), 42).unwrap();

    assert_eq!(parsed.total(), 3);
    assert_eq!(parsed.valid(), 2);
    assert_eq!(parsed.invalid(), 1);
    assert!(parsed.warnings.iter().any(|w| w.contains("bogus")));

    let reqs = parsed.valid_requests();
    // First valid row: url + slug + enabled=true.
    let (line, r0) = &reqs[0];
    assert_eq!(*line, 2);
    assert_eq!(r0.url, "https://a.com");
    assert_eq!(r0.slug.as_deref(), Some("promo"));
    assert_eq!(r0.enabled, Some(true));
    assert_eq!(r0.workspace_id, 42);

    // Third row (line 4): blank slug stays None.
    let (line, r1) = &reqs[1];
    assert_eq!(*line, 4);
    assert_eq!(r1.url, "https://b.com");
    assert_eq!(r1.slug, None);
}

#[test]
fn bool_and_field_mapping() {
    assert_eq!(parse_bool("YES"), Some(true));
    assert_eq!(parse_bool("0"), Some(false));
    assert_eq!(parse_bool("maybe"), None);

    let mut req = CreateLinkRequest::default();
    assert!(set_field(&mut req, "URL", "https://x.com"));
    assert!(set_field(&mut req, "cloaking", "on"));
    assert!(!set_field(&mut req, "nope", "v"));
    assert_eq!(req.url, "https://x.com");
    assert_eq!(req.cloaking, Some(true));
}

#[test]
fn template_has_all_columns() {
    let (path, bytes) = write_template("/tmp/dir").unwrap();
    assert_eq!(path, "/tmp/dir/linkly-import-template.csv");
    let text = String::from_utf8(bytes).unwrap();
    let header = text.lines().next().unwrap();
    assert!(header.starts_with("url,slug,name"));
    assert_eq!(header.split(',').count(), SUPPORTED.len());
    assert!(text.contains("https://example.com/landing"));
}

#[test]
fn writes_result_csvs() {
    let links = vec![NewLink {
        id: Some(7),
        slug: Some("/promo".to_string()),
        name: Some("Promo".to_string()),
        full_url: Some("https://go.me/promo".to_string()),
        url: Some("https://a.com".to_string()),
    }];
    let (sp, s) = write_success("/out", &links).unwrap();
    assert_eq!(sp, "/out/linkly-import-success.csv");
    let s = String::from_utf8(s).unwrap();
    assert!(s.contains("id,slug,name,full_url,url"));
    assert!(s.contains("https://go.me/promo"));

    let (fp, f) = write_failures("/out", &[(5, "boom".to_string())]).unwrap();
    assert_eq!(fp, "/out/linkly-import-failures.csv");
    let f = String::from_utf8(f).unwrap();
    assert!(f.contains("line,reason"));
    assert!(f.contains("5,boom"));
}

#[test]
fn malformed_and_missing_rows_are_reported() {
    // The second record has too many cells for the header.
    let data = "url,slug\nhttps://a.com,a\nhttps://b.com,b,extra\n,c\n";
    let parsed = parse_csv("x.csv".to_string(), data.as_bytes(), 1).unwrap();
    assert_eq!(parsed.total(), 3);
    assert_eq!(parsed.valid(), 1);
    assert!(parsed.rows[1].error.as_deref().unwrap().starts_with("malformed row: "));
    assert_eq!(parsed.rows[2].error.as_deref(), Some("missing url"));
    assert_eq!(parsed.rows[2].line, 4);
    assert_eq!(parsed.valid_requests().len(), parsed.valid());
}

#[test]
fn header_cells_are_trimmed_and_case_insensitive() {
    let data = " URL , Name \n  https://a.com  , Hello \n";
    let parsed = parse_csv("x.csv".to_string(), data.as_bytes(), 3).unwrap();
    assert!(parsed.warnings.is_empty());
    let reqs = parsed.valid_requests();
    assert_eq!(reqs[0].1.url, "https://a.com");
    assert_eq!(reqs[0].1.name.as_deref(), Some("Hello"));
}

#[test]
fn record_lists_match_the_files() {
    let t = template_records();
    assert_eq!(t.len(), 2);
    assert_eq!(t[0].len(), SUPPORTED.len());
    let s = success_records(&[NewLink { id: None, slug: None, name: None, full_url: None, url: None }]);
    assert_eq!(s[1], vec!["", "", "", "", ""]);
    let f = failure_records(&[(12, "bad".to_string())]);
    assert_eq!(f[1], vec!["12", "bad"]);
}

#[test]
fn blank_values_leave_the_request_as_it_was() {
    let mut req = CreateLinkRequest::default();
    assert!(set_field(&mut req, "url", "https://x.com"));
    assert!(set_field(&mut req, " url ", "   "));
    assert_eq!(req.url, "https://x.com");
    assert!(set_field(&mut req, "slug", ""));
    assert_eq!(req.slug, None);
    assert!(!set_field(&mut req, "nope", " "));
}
