use linkly_tui::app::{App, AsyncMsg, CachedWorkspace, Command, Screen};
use linkly_tui::browser::DirItem;
use linkly_tui::edit_form::DetailMode;
use linkly_tui::import::{parse_csv, ImportStage};
use linkly_tui::input::{EditRequest, KeyCode, KeyInput};
use linkly_tui::json::{json_field, JsonValue};
use linkly_tui::models::{LinkSummary, ListLinksResponse};
use linkly_tui::qr::{file_name, normalize_color, QrSettings};

fn key(code: KeyCode) -> KeyInput {
    KeyInput { code, ctrl: false, edit: None }
}

fn ch(c: char) -> KeyInput {
    KeyInput { code: KeyCode::Char(c), ctrl: false, edit: Some(EditRequest::InsertChar(c)) }
}

fn one_link_page() -> ListLinksResponse {
    ListLinksResponse {
        links: vec![LinkSummary {
            id: Some(30),
            name: Some("Promo".to_string()),
            slug: Some("promo".to_string()),
            domain: None,
            url: Some("https://example.com".to_string()),
            full_url: Some("https://go.example.com/promo".to_string()),
            enabled: Some(true),
            clicks_today: 0,
            clicks_thirty_days: 0,
            clicks_total: 0,
        }],
        page_number: 1,
        page_size: 100,
        total_pages: 1,
        total_entries: 1,
    }
}

fn on_list() -> App {
    let mut app = App::new("secret".to_string(), "42".to_string(), Vec::new(), QrSettings::defaults());
    app.on_event(key(KeyCode::Enter));
    app.on_async(AsyncMsg::LinksLoaded(one_link_page()));
    app.on_event(key(KeyCode::Esc)); // the store prompt: not now
    app
}

#[test]
fn leaving_with_unsaved_changes_asks_first() {
    let mut app = on_list();
    app.on_event(key(KeyCode::Enter));
    let record = JsonValue::Object(vec![
        json_field("id", JsonValue::Integer(30)),
        json_field("url", JsonValue::String("https://example.com".to_string())),
    ]);
    app.on_async(AsyncMsg::LinkDetailLoaded(record));
    app.on_event(key(KeyCode::Enter)); // edit the URL
    app.on_event(ch('x'));
    app.on_event(key(KeyCode::Enter)); // done editing
    assert!(app.editor.as_ref().unwrap().dirty());
    let cmds = app.on_event(key(KeyCode::Esc));
    assert!(cmds.is_empty());
    assert_eq!(app.screen, Screen::LinkDetail);
    assert_eq!(app.editor.as_ref().unwrap().mode, DetailMode::ConfirmSave);
}

#[test]
fn blank_url_is_not_sent() {
    let mut app = on_list();
    app.on_event(ch('c'));
    app.on_event(key(KeyCode::Up)); // wraps to Submit
    let cmds = app.on_event(key(KeyCode::Enter));
    assert!(cmds.is_empty());
    assert_eq!(app.status, "Cannot submit: URL is required");
    assert_eq!(app.screen, Screen::CreateLink);
}

#[test]
fn running_import_ignores_keys() {
    let mut app = on_list();
    let cmds = app.on_event(ch('i'));
    assert!(matches!(&cmds[0], Command::OpenImport));
    let items = vec![DirItem { name: "links.csv".to_string(), path: "/w/links.csv".to_string(), is_dir: false }];
    app.import_opened("/w".to_string(), None, items);
    let parsed = parse_csv("/w/links.csv".to_string(), b"url\nhttps://a.com\n", 42);
    app.csv_parsed(parsed);
    let cmds = app.on_event(key(KeyCode::Enter));
    assert!(matches!(&cmds[0], Command::RunImport { .. }));
    assert!(matches!(app.import.as_ref().unwrap().stage, ImportStage::Running(_)));
    for k in [key(KeyCode::Esc), ch('q'), key(KeyCode::Enter)] {
        assert!(app.on_event(k).is_empty());
        assert_eq!(app.screen, Screen::Import);
        assert!(matches!(app.import.as_ref().unwrap().stage, ImportStage::Running(_)));
    }
}

#[test]
fn the_workspace_used_goes_first() {
    let cached = vec![
        CachedWorkspace { id: 1, name: "One".to_string(), api_key: None },
        CachedWorkspace { id: 2, name: "Two".to_string(), api_key: Some("k2".to_string()) },
    ];
    let mut app = App::new(String::new(), String::new(), cached, QrSettings::defaults());
    app.on_event(key(KeyCode::Down));
    app.on_event(key(KeyCode::Enter));
    assert_eq!(app.auth.api_key.value(), "k2");
    app.on_event(key(KeyCode::Enter));
    let cmds = app.on_async(AsyncMsg::LinksLoaded(one_link_page()));
    let ids: Vec<i64> = app.session.cached_workspaces.iter().map(|w| w.id).collect();
    assert_eq!(ids, vec![2, 1]);
    assert_eq!(app.session.cached_workspaces[0].api_key.as_deref(), Some("k2"));
    assert!(matches!(&cmds[0], Command::SaveWorkspaces { .. }));
    // The key was stored already, so it is not offered again.
    assert!(!app.session.store_prompt);
}

#[test]
fn normal_colours_stay_as_they_are() {
    for c in ["#A0B1C2", "ffffff", "  #00ff7f "] {
        let once = normalize_color(c).unwrap();
        assert_eq!(normalize_color(&once), Some(once.clone()));
        assert_eq!(once.len(), 7);
    }
}

#[test]
fn sanitized_names_stay_the_same() {
    let once = file_name(Some(7), Some("/sale?x=1"), None);
    assert_eq!(once, "7-sale-x-1.png");
    let again = file_name(Some(7), Some("sale-x-1"), None);
    assert_eq!(again, once);
}
