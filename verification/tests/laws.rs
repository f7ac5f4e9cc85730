use linkly_tui::app::workers::{contains, next_export_page, retry_delay, ImportRun};
use linkly_tui::app::AsyncMsg;
use linkly_tui::json::{json_field, JsonValue};

#[test]
fn retries_only_rate_limits_three_times() {
    assert_eq!(retry_delay(0, "HTTP 429 Too Many Requests"), Some(1));
    assert_eq!(retry_delay(1, "HTTP 429 Too Many Requests"), Some(2));
    assert_eq!(retry_delay(2, "HTTP 429 Too Many Requests"), Some(4));
    assert_eq!(retry_delay(3, "HTTP 429 Too Many Requests"), None);
    assert_eq!(retry_delay(0, "HTTP 500"), None);
}

#[test]
fn substring_search() {
    assert!(contains("abc429def", "429"));
    assert!(contains("429", "429"));
    assert!(!contains("42", "429"));
    assert!(contains("anything", ""));
}

#[test]
fn export_pages_until_the_last() {
    assert_eq!(next_export_page(1, 3), Some(2));
    assert_eq!(next_export_page(3, 3), None);
    assert_eq!(next_export_page(1, 0), None);
}

#[test]
fn import_run_tallies_outcomes() {
    let mut run = ImportRun::new();
    let created = JsonValue::Object(vec![
        json_field("id", JsonValue::Integer(9)),
        json_field("full_url", JsonValue::String("https://go.me/x".to_string())),
    ]);
    let p1 = run.record(1, 2, Ok(created));
    assert!(matches!(p1, AsyncMsg::ImportProgress { done: 1, ok: 1, failed: 0 }));
    let p2 = run.record(2, 3, Err("HTTP 400".to_string()));
    assert!(matches!(p2, AsyncMsg::ImportProgress { done: 2, ok: 1, failed: 1 }));
    assert!(run.wants_success_file());
    assert!(run.wants_failure_file());
    assert_eq!(run.new_links[0].id, Some(9));
    assert_eq!(run.failures[0], (3, "HTTP 400".to_string()));
    let done = run.finish(Some("s.csv".to_string()), None);
    assert!(matches!(done, AsyncMsg::ImportDone { ok: 1, failed: 1, .. }));
}
