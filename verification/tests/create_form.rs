use linkly_tui::create_form::CreateForm;
use linkly_tui::input::TextInput;
use linkly_tui::json::JsonValue;

fn key_of(obj: &JsonValue, key: &str) -> bool {
    obj.get(key).is_some()
}

#[test]
fn minimal_form_serializes_only_required_and_enabled() {
    let mut form = CreateForm::new();
    form.url = TextInput::new("https://example.com".to_string());
    let body = form.build(42);
    let obj = body.to_json();

    assert_eq!(obj.get("url").and_then(|v| v.as_str()), Some("https://example.com"));
    assert_eq!(obj.get("workspace_id").and_then(|v| v.as_i64()), Some(42));
    assert_eq!(obj.get("enabled").and_then(|v| v.as_bool()), Some(true)); // default enabled
    // Empty optional fields are omitted entirely.
    assert!(!key_of(&obj, "slug"));
    assert!(!key_of(&obj, "domain"));
    assert!(!key_of(&obj, "utm_source"));
    // Off-by-default booleans are omitted, not sent as false.
    assert!(!key_of(&obj, "cloaking"));
    assert!(!key_of(&obj, "block_bots"));
}

#[test]
fn populated_fields_and_domain_are_sent() {
    let mut form = CreateForm::new();
    form.url = TextInput::new("https://example.com".to_string());
    form.slug = TextInput::new("  promo  ".to_string()); // trimmed
    form.utm_source = TextInput::new("newsletter".to_string());
    form.cloaking = true;
    form.domain = Some("go.example.com".to_string());

    let obj = form.build(7).to_json();

    assert_eq!(obj.get("slug").and_then(|v| v.as_str()), Some("promo"));
    assert_eq!(obj.get("utm_source").and_then(|v| v.as_str()), Some("newsletter"));
    assert_eq!(obj.get("cloaking").and_then(|v| v.as_bool()), Some(true));
    assert_eq!(obj.get("domain").and_then(|v| v.as_str()), Some("go.example.com"));
}

#[test]
fn validate_requires_url() {
    let form = CreateForm::new();
    assert!(form.validate().is_err());
}

#[test]
fn advanced_toggle_changes_focusable_fields() {
    let mut form = CreateForm::new();
    let core = form.fields().len();
    form.toggle_advanced();
    assert!(form.fields().len() > core);
}

#[test]
fn validate_error_names_the_url() {
    let mut form = CreateForm::new();
    form.url = TextInput::new("   ".to_string());
    assert_eq!(form.validate().unwrap_err(), "URL is required");
    form.url = TextInput::new(" https://x.com ".to_string());
    assert!(form.validate().is_ok());
    assert_eq!(form.build(1).url, "https://x.com");
}

#[test]
fn focus_wraps_both_ways() {
    let mut form = CreateForm::new();
    let n = form.fields().len();
    form.focus_prev();
    assert_eq!(form.focus, n - 1);
    form.focus_next();
    assert_eq!(form.focus, 0);
    form.focus_next();
    form.focus_prev();
    assert_eq!(form.focus, 0);
}

#[test]
fn toggling_advanced_back_keeps_focus_in_range() {
    let mut form = CreateForm::new();
    form.toggle_advanced();
    let n = form.fields().len();
    for _ in 0..(n - 1) {
        form.focus_next();
    }
    assert_eq!(form.focus, n - 1);
    form.toggle_advanced();
    assert_eq!(form.focus, form.fields().len() - 1);
}
