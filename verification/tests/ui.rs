use linkly_tui::app::{App, AsyncMsg};
use linkly_tui::edit_form::LinkEditor;
use linkly_tui::import::{parse_csv, Summary};
use linkly_tui::input::{EditRequest, KeyCode, KeyInput};
use linkly_tui::json::{json_field, JsonValue};
use linkly_tui::models::{LinkSummary, ListLinksResponse};
use linkly_tui::qr::QrSettings;
use linkly_tui::ui::{caret_parts, done_note, pad_right, preview_sample, shown, DoneNote, SampleLine};

fn key(code: KeyCode) -> KeyInput {
    KeyInput { code, ctrl: false, edit: None }
}

fn ch(c: char) -> KeyInput {
    KeyInput { code: KeyCode::Char(c), ctrl: false, edit: Some(EditRequest::InsertChar(c)) }
}

fn listed_app(total_pages: i64, total_entries: i64) -> App {
    let mut app = App::new("secret".to_string(), "42".to_string(), Vec::new(), QrSettings::defaults());
    app.on_event(key(KeyCode::Enter));
    let links = vec![LinkSummary {
        id: Some(1),
        name: Some("One".to_string()),
        slug: Some("one".to_string()),
        domain: None,
        url: Some("https://example.com".to_string()),
        full_url: Some("https://go.example.com/one".to_string()),
        enabled: Some(true),
        clicks_today: 0,
        clicks_thirty_days: 0,
        clicks_total: 0,
    }];
    app.on_async(AsyncMsg::LinksLoaded(ListLinksResponse {
        links,
        page_number: 1,
        page_size: 100,
        total_pages,
        total_entries,
    }));
    app.on_event(key(KeyCode::Esc)); // the store prompt: not now
    app
}

#[test]
fn list_title_shows_sort_and_page() {
    let app = listed_app(3, 240);
    assert_eq!(app.list_title(), "Workspace 42 · Links · Sorted by: Created ↓ · page 1/3 · 240 total");
}

#[test]
fn list_title_names_the_search() {
    let mut app = listed_app(1, 1);
    app.on_event(ch('/'));
    for c in "promo".chars() {
        app.on_event(ch(c));
    }
    app.on_event(key(KeyCode::Enter));
    assert_eq!(app.list_title(), "Workspace 42 · Links · Sorted by: Created ↓ · page 1/1 · 1 total · search “promo”");
}

#[test]
fn labels_are_padded_to_a_column() {
    assert_eq!(pad_right("Size:", 8), "Size:   ");
    assert_eq!(pad_right("Format:", 8), "Format: ");
    assert_eq!(pad_right("a longer label", 8), "a longer label");
    assert_eq!(pad_right("", 3), "   ");
}

#[test]
fn caret_splits_the_text() {
    let p = caret_parts("hello", 1, false);
    assert_eq!((p.before.as_str(), p.at.as_str(), p.after.as_str()), ("h", "e", "llo"));
    let p = caret_parts("hello", 5, false);
    assert_eq!((p.before.as_str(), p.at.as_str(), p.after.as_str()), ("hello", " ", ""));
    let p = caret_parts("hi", 9, false);
    assert_eq!((p.before.as_str(), p.at.as_str(), p.after.as_str()), ("hi", " ", ""));
    let p = caret_parts("key", 0, true);
    assert_eq!((p.before.as_str(), p.at.as_str(), p.after.as_str()), ("", "•", "••"));
}

#[test]
fn preview_lists_at_most_eight_rows() {
    let mut data = String::from("url,slug\n");
    for i in 0..10 {
        if i == 1 {
            data.push_str(",nourl\n");
        } else if i == 2 {
            data.push_str("https://b.com,\n");
        } else {
            data.push_str(&format!("https://a{i}.com,s{i}\n"));
        }
    }
    let parsed = parse_csv("/tmp/t.csv".to_string(), data.as_bytes(), 1).unwrap();
    let sample = preview_sample(&parsed);
    assert_eq!(sample.lines.len(), 8);
    assert_eq!(sample.more, 2);
    assert!(matches!(&sample.lines[0], SampleLine::Valid { url, slug_note } if url == "https://a0.com" && slug_note == "  (s0)"));
    assert!(matches!(&sample.lines[1], SampleLine::Invalid { line: 3, .. }));
    assert!(matches!(&sample.lines[2], SampleLine::Valid { url, slug_note } if url == "https://b.com" && slug_note.is_empty()));
}

fn summary(qr_done: Option<usize>, new_links: usize) -> Summary {
    Summary {
        ok: new_links,
        failed: 0,
        success_path: None,
        failure_path: None,
        new_links: (0..new_links)
            .map(|i| linkly_tui::import::NewLink {
                id: Some(i as i64),
                slug: None,
                name: None,
                full_url: Some(format!("https://go.me/{i}")),
                url: None,
            })
            .collect(),
        qr_done,
        qr_dir: qr_done.map(|_| "linkly-qr/1".to_string()),
    }
}

#[test]
fn import_end_offers_qr_codes_for_new_links() {
    assert!(matches!(done_note(&summary(None, 3)), DoneNote::Offer { count: 3 }));
    assert!(matches!(done_note(&summary(None, 0)), DoneNote::Back));
    assert!(matches!(done_note(&summary(Some(3), 3)), DoneNote::Generated { count: 3, dir } if dir == "linkly-qr/1"));
}

#[test]
fn qr_dialog_names_what_it_exports() {
    let mut app = listed_app(1, 1);
    app.on_event(ch('o'));
    assert_eq!(app.qr_dialog_title(), "QR settings");
    assert!(app.qr_dialog_hint().contains("Enter save"));
    app.on_event(key(KeyCode::Esc));
    app.on_event(ch('Q'));
    assert_eq!(app.qr_dialog_title(), "Export QR · workspace");
    assert!(app.qr_dialog_hint().contains("Enter export"));
}

#[test]
fn editor_title_notes_unsaved_changes() {
    let record = JsonValue::Object(vec![
        json_field("id", JsonValue::Integer(30)),
        json_field("full_url", JsonValue::String("https://go.me/promo".to_string())),
        json_field("name", JsonValue::String("Promo".to_string())),
    ]);
    let mut e = LinkEditor::from_value(&record, 42);
    assert_eq!(e.title(), "Link #30 · https://go.me/promo");
    e.fields.iter_mut().find(|f| f.key == "name").unwrap().input =
        linkly_tui::input::TextInput::new("Renamed".to_string());
    assert_eq!(e.title(), "Link #30 · https://go.me/promo · unsaved changes");
}

#[test]
fn masked_inputs_show_bullets_only() {
    assert_eq!(shown("sk_live", true), "•••••••");
    assert_eq!(shown("sk_live", false), "sk_live");
    assert_eq!(shown("", true), "");
}
