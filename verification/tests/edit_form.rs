use linkly_tui::edit_form::{EditField, LinkEditor};
use linkly_tui::input::TextInput;
use linkly_tui::json::{json_field, JsonValue};

fn sample() -> LinkEditor {
    let v = JsonValue::Object(vec![
        json_field("id", JsonValue::Integer(30)),
        json_field("workspace_id", JsonValue::Integer(42)),
        json_field("full_url", JsonValue::String("https://go.example.com/promo".to_string())),
        json_field("name", JsonValue::String("Promo".to_string())),
        json_field("url", JsonValue::String("https://example.com".to_string())),
        json_field("enabled", JsonValue::Bool(true)),
    ]);
    LinkEditor::from_value(&v, 0)
}

fn field_mut<'a>(e: &'a mut LinkEditor, key: &str) -> &'a mut EditField {
    e.fields.iter_mut().find(|f| f.key == key).unwrap()
}

#[test]
fn freshly_loaded_editor_is_not_dirty() {
    let e = sample();
    assert_eq!(e.id, 30);
    assert_eq!(e.workspace_id, 42);
    assert!(!e.dirty());
}

#[test]
fn editing_a_field_makes_it_dirty_and_appears_in_update() {
    let mut e = sample();
    field_mut(&mut e, "name").input = TextInput::new("Renamed".to_string());
    assert!(e.dirty());

    let obj = e.update_body();
    assert_eq!(obj.get("id").and_then(|v| v.as_i64()), Some(30));
    assert_eq!(obj.get("workspace_id").and_then(|v| v.as_i64()), Some(42));
    assert_eq!(obj.get("name").and_then(|v| v.as_str()), Some("Renamed"));
    // Untouched fields are not sent.
    assert!(obj.get("url").is_none());
}

#[test]
fn toggling_a_bool_is_tracked() {
    let mut e = sample();
    field_mut(&mut e, "enabled").bool_val = false;
    let body = e.update_body();
    assert_eq!(body.get("enabled").and_then(|v| v.as_bool()), Some(false));
}

#[test]
fn mark_saved_clears_dirty() {
    let mut e = sample();
    field_mut(&mut e, "name").input = TextInput::new("Renamed".to_string());
    assert!(e.dirty());
    e.mark_saved();
    assert!(!e.dirty());
    // After saving, an unchanged update body carries only id + workspace_id.
    let obj = e.update_body();
    assert_eq!(obj.object_len(), 2);
}

#[test]
fn missing_record_values_fall_back() {
    let e = LinkEditor::from_value(&JsonValue::Object(vec![]), 9);
    assert_eq!(e.id, 0);
    assert_eq!(e.workspace_id, 9);
    assert_eq!(e.full_url, "");
    assert_eq!(e.fields.len(), 25);
    assert!(e.fields.iter().all(|f| f.input.value().is_empty() && !f.bool_val));
}

#[test]
fn cursor_stays_on_the_fields() {
    let mut e = sample();
    e.move_up();
    assert_eq!(e.cursor, 0);
    for _ in 0..40 {
        e.move_down();
    }
    assert_eq!(e.cursor, 24);
}

#[test]
fn toggle_current_flips_only_the_current_field() {
    let mut e = sample();
    while e.current().key != "enabled" {
        e.move_down();
    }
    e.toggle_current();
    assert!(e.dirty());
    e.toggle_current();
    assert!(!e.dirty());
}
