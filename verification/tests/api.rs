use linkly_tui::api::{
    click_points, get_clicks_request, get_link_request, http_error_message, list_domains_request,
    list_links_request, list_workspaces_request, save_link_request,
};

fn query(r: &linkly_tui::api::ApiRequest) -> Vec<(String, String)> {
    r.query.clone()
}

#[test]
fn list_links_request_carries_paging_and_sort() {
    let r = list_links_request("k", 42, 2, 100, "", "name", "asc");
    assert_eq!(r.url, "https://api.linklyhq.com/api/v1/workspace/42/list_links");
    let q = query(&r);
    assert!(q.contains(&("api_key".to_string(), "k".to_string())));
    assert!(q.contains(&("page".to_string(), "2".to_string())));
    assert!(q.contains(&("page_size".to_string(), "100".to_string())));
    assert!(q.contains(&("sort_by".to_string(), "name".to_string())));
    assert!(q.contains(&("sort_dir".to_string(), "asc".to_string())));
    assert!(!q.iter().any(|(k, _)| k == "search"));
    let r = list_links_request("k", 42, 1, 100, "promo", "id", "desc");
    assert!(query(&r).contains(&("search".to_string(), "promo".to_string())));
}

#[test]
fn other_requests() {
    assert_eq!(get_link_request("k", 30, 42).url, "https://api.linklyhq.com/api/v1/link/30");
    assert_eq!(save_link_request("k").url, "https://api.linklyhq.com/api/v1/link");
    assert_eq!(list_workspaces_request("k").url, "https://api.linklyhq.com/api/v1/workspaces");
    assert_eq!(list_domains_request("k", 5).url, "https://api.linklyhq.com/api/v1/workspace/5/domains");
}

#[test]
fn error_messages_carry_the_body_when_there_is_one() {
    assert_eq!(http_error_message("401 Unauthorized", "  "), "HTTP 401 Unauthorized");
    assert_eq!(http_error_message("400 Bad Request", " bad url \n"), "HTTP 400 Bad Request: bad url");
}

#[test]
fn clicks_request_asks_for_daily_counts() {
    let r = get_clicks_request("k", 42, 30, "2026-01-01", "2026-01-31");
    assert_eq!(r.url, "https://api.linklyhq.com/api/v1/workspace/42/clicks");
    let expected: Vec<(String, String)> = [
        ("api_key", "k"),
        ("link_id", "30"),
        ("start", "2026-01-01"),
        ("end", "2026-01-31"),
        ("frequency", "day"),
    ]
    .iter()
    .map(|(a, b)| (a.to_string(), b.to_string()))
    .collect();
    assert_eq!(query(&r), expected);
}

#[test]
fn click_points_default_missing_values() {
    let traffic = vec![(Some("2026-01-01".to_string()), Some(7)), (None, None)];
    assert_eq!(click_points(&traffic), vec![("2026-01-01".to_string(), 7), (String::new(), 0)]);
}
