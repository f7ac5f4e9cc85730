use linkly_tui::app::{App, AsyncMsg, CachedWorkspace, Command, Screen, SortField};
use linkly_tui::input::{EditRequest, KeyCode, KeyInput};
use linkly_tui::json::{json_field, JsonValue};
use linkly_tui::models::{LinkSummary, ListLinksResponse};
use linkly_tui::qr::{QrFormat, QrSettings};

fn key(code: KeyCode) -> KeyInput {
    KeyInput { code, ctrl: false, edit: None }
}

fn ch(c: char) -> KeyInput {
    KeyInput { code: KeyCode::Char(c), ctrl: false, edit: Some(EditRequest::InsertChar(c)) }
}

fn link(id: i64, slug: &str) -> LinkSummary {
    LinkSummary {
        id: Some(id),
        name: Some(format!("Link {id}")),
        slug: Some(slug.to_string()),
        domain: None,
        url: Some("https://example.com".to_string()),
        full_url: Some(format!("https://go.example.com/{slug}")),
        enabled: Some(true),
        clicks_today: 0,
        clicks_thirty_days: 0,
        clicks_total: 0,
    }
}

fn page(links: Vec<LinkSummary>, page_number: i64, total_pages: i64) -> ListLinksResponse {
    let n = links.len() as i64;
    ListLinksResponse { links, page_number, page_size: 100, total_pages, total_entries: n }
}

fn signed_in() -> App {
    let mut app = App::new("secret".to_string(), "42".to_string(), Vec::new(), QrSettings::defaults());
    let cmds = app.on_event(key(KeyCode::Enter));
    assert_eq!(cmds.len(), 4);
    app
}

#[test]
fn starts_on_sign_in_without_cached_workspaces() {
    let app = App::new("k".to_string(), "7".to_string(), Vec::new(), QrSettings::defaults());
    assert_eq!(app.screen, Screen::Auth);
    assert_eq!(app.auth.api_key.value(), "k");
    assert_eq!(app.auth.workspace_id.value(), "7");
    let cached = vec![CachedWorkspace { id: 1, name: "One".to_string(), api_key: None }];
    let app = App::new(String::new(), String::new(), cached, QrSettings::defaults());
    assert_eq!(app.screen, Screen::WorkspacePicker);
}

#[test]
fn sign_in_requires_key_and_numeric_workspace() {
    let mut app = App::new(String::new(), "42".to_string(), Vec::new(), QrSettings::defaults());
    assert!(app.on_event(key(KeyCode::Enter)).is_empty());
    assert_eq!(app.auth.error.as_deref(), Some("API key is required"));
    let mut app = App::new("k".to_string(), "forty".to_string(), Vec::new(), QrSettings::defaults());
    assert!(app.on_event(key(KeyCode::Enter)).is_empty());
    assert_eq!(app.auth.error.as_deref(), Some("Workspace ID must be a number"));
    assert_eq!(app.screen, Screen::Auth);
}

#[test]
fn sign_in_requests_links_domains_and_workspaces() {
    let mut app = App::new(" secret ".to_string(), " 42 ".to_string(), Vec::new(), QrSettings::defaults());
    let cmds = app.on_event(key(KeyCode::Enter));
    assert!(matches!(&cmds[0], Command::Connect { api_key } if api_key == "secret"));
    assert!(matches!(&cmds[1], Command::LoadLinks { workspace_id: 42, page: 1, sort_by: "id", sort_dir: "desc", .. }));
    assert!(matches!(&cmds[2], Command::LoadDomains { workspace_id: 42 }));
    assert!(matches!(&cmds[3], Command::LoadWorkspaces));
    assert_eq!(app.screen, Screen::LinkList);
    assert_eq!(app.status, "Loading links…");
    // Nothing is cached before the key is verified.
    assert!(app.session.cached_workspaces.is_empty());
}

#[test]
fn first_page_caches_workspace_and_offers_key_storage() {
    let mut app = signed_in();
    let cmds = app.on_async(AsyncMsg::LinksLoaded(page(vec![link(1, "a"), link(2, "b")], 1, 3)));
    assert_eq!(app.session.cached_workspaces.len(), 1);
    assert_eq!(app.session.cached_workspaces[0].id, 42);
    assert_eq!(app.session.cached_workspaces[0].name, "Workspace 42");
    assert!(matches!(&cmds[0], Command::SaveWorkspaces { workspaces } if workspaces.len() == 1));
    assert!(app.session.store_prompt);
    assert_eq!(app.status, "2 links (page 1/3)");
    assert_eq!(app.list.selected, Some(0));

    let cmds = app.on_event(ch('s'));
    assert_eq!(app.session.cached_workspaces[0].api_key.as_deref(), Some("secret"));
    assert!(matches!(&cmds[0], Command::SaveWorkspaces { .. }));
    assert!(!app.session.store_prompt);
    assert_eq!(app.status, "API key stored for this workspace");
}

#[test]
fn workspace_name_waits_for_verification() {
    let mut app = signed_in();
    let ws = vec![linkly_tui::models::Workspace { id: 42, name: "Acme".to_string() }];
    assert!(app.on_async(AsyncMsg::WorkspacesLoaded(ws)).is_empty());
    assert_eq!(app.session.pending_ws_name.as_deref(), Some("Acme"));
    app.on_async(AsyncMsg::LinksLoaded(page(vec![], 1, 1)));
    assert_eq!(app.session.cached_workspaces[0].name, "Acme");
    assert_eq!(app.list.selected, None);
}

#[test]
fn paging_waits_for_the_page_to_load() {
    let mut app = signed_in();
    app.on_async(AsyncMsg::LinksLoaded(page(vec![link(1, "a")], 1, 2)));
    app.on_event(ch('n')); // answers the store prompt: not stored
    assert!(!app.session.store_prompt);
    let cmds = app.on_event(ch('n'));
    assert!(matches!(&cmds[0], Command::LoadLinks { page: 2, .. }));
    assert_eq!(app.list.page, 1);
    app.on_async(AsyncMsg::LinksLoaded(page(vec![link(3, "c")], 2, 2)));
    assert_eq!(app.list.page, 2);
    assert!(app.on_event(ch('n')).is_empty());
    let cmds = app.on_event(ch('p'));
    assert!(matches!(&cmds[0], Command::LoadLinks { page: 1, .. }));
}

#[test]
fn sort_picker_reloads_the_first_page() {
    let mut app = signed_in();
    app.on_async(AsyncMsg::LinksLoaded(page(vec![link(1, "a")], 1, 1)));
    app.on_event(key(KeyCode::Esc)); // answer the store prompt: not stored
    app.on_event(ch('s'));
    assert!(app.list.sort_open);
    app.on_event(key(KeyCode::Down));
    app.on_event(key(KeyCode::Tab));
    let cmds = app.on_event(key(KeyCode::Enter));
    assert_eq!(app.list.sort_field, SortField::Name);
    assert!(!app.list.sort_desc);
    assert!(matches!(&cmds[0], Command::LoadLinks { page: 1, sort_by: "name", sort_dir: "asc", .. }));
    assert_eq!(app.status, "Sorting…");
}

#[test]
fn search_is_trimmed() {
    let mut app = signed_in();
    app.on_async(AsyncMsg::LinksLoaded(page(vec![], 1, 1)));
    app.on_event(key(KeyCode::Esc));
    app.on_event(ch('/'));
    for c in " promo ".chars() {
        app.on_event(ch(c));
    }
    let cmds = app.on_event(key(KeyCode::Enter));
    assert_eq!(app.list.search, "promo");
    assert!(matches!(&cmds[0], Command::LoadLinks { search, .. } if search == "promo"));
}

#[test]
fn help_opens_except_while_typing() {
    let mut app = App::new(String::new(), String::new(), Vec::new(), QrSettings::defaults());
    app.on_event(ch('?'));
    assert!(!app.help_open);
    assert_eq!(app.auth.api_key.value(), "?");
    let mut app = signed_in();
    app.on_async(AsyncMsg::LinksLoaded(page(vec![], 1, 1)));
    app.on_event(key(KeyCode::Esc));
    app.on_event(ch('?'));
    assert!(app.help_open);
    app.on_event(ch('x'));
    assert!(app.help_open);
    app.on_event(ch('h'));
    assert!(!app.help_open);
}

#[test]
fn qr_dialog_saves_settings_and_exports_the_link() {
    let mut app = signed_in();
    app.on_async(AsyncMsg::LinksLoaded(page(vec![link(30, "promo")], 1, 1)));
    app.on_event(key(KeyCode::Esc));
    let cmds = app.on_event(key(KeyCode::Enter)); // open the detail screen
    assert!(matches!(&cmds[0], Command::LoadLink { id: 30, workspace_id: 42 }));
    assert_eq!(app.screen, Screen::LinkDetail);
    let record = JsonValue::Object(vec![json_field("id", JsonValue::Integer(30))]);
    app.on_async(AsyncMsg::LinkDetailLoaded(record));
    assert!(app.editor.is_some());
    app.on_event(ch('Q'));
    assert!(app.qr.open);
    app.on_event(key(KeyCode::Right)); // PNG -> SVG
    app.on_event(key(KeyCode::Down)); // size
    for _ in 0..3 {
        app.on_event(KeyInput { code: KeyCode::Backspace, ctrl: false, edit: Some(EditRequest::DeletePrevChar) });
    }
    for c in "9".chars() {
        app.on_event(ch(c));
    }
    let cmds = app.on_event(key(KeyCode::Enter));
    assert!(!app.qr.open);
    assert_eq!(app.qr.settings.format, QrFormat::Svg);
    assert_eq!(app.qr.settings.size, 64); // clamped
    assert!(matches!(&cmds[0], Command::SaveQrSettings { .. }));
    assert!(matches!(&cmds[1], Command::WriteQr { url, path, .. }
        if url == "https://go.example.com/promo" && path == "linkly-qr/42/30-promo.svg"));
}

#[test]
fn qr_dialog_cancel_keeps_settings() {
    let mut app = signed_in();
    app.on_event(ch('o'));
    assert!(app.qr.open);
    app.on_event(key(KeyCode::Right));
    let cmds = app.on_event(key(KeyCode::Esc));
    assert!(cmds.is_empty());
    assert_eq!(app.status, "QR export cancelled");
    // The format was cycled live but nothing was saved.
    assert!(!app.qr.open);
}

#[test]
fn settings_only_dialog_reports_what_was_saved() {
    let mut app = signed_in();
    app.on_event(ch('o'));
    let cmds = app.on_event(key(KeyCode::Enter));
    assert_eq!(cmds.len(), 1);
    assert_eq!(app.status, "QR settings saved · PNG · 320px · #000000 on #ffffff");
}

#[test]
fn errors_show_on_the_sign_in_prompt() {
    let mut app = App::new("k".to_string(), "1".to_string(), Vec::new(), QrSettings::defaults());
    app.on_async(AsyncMsg::Error("HTTP 401".to_string()));
    assert_eq!(app.auth.error.as_deref(), Some("HTTP 401"));
    assert_eq!(app.status, "Error: HTTP 401");
}

#[test]
fn picker_forgets_and_picks_workspaces() {
    let cached = vec![
        CachedWorkspace { id: 1, name: "One".to_string(), api_key: Some("k1".to_string()) },
        CachedWorkspace { id: 2, name: "Two".to_string(), api_key: None },
    ];
    let mut app = App::new("env".to_string(), String::new(), cached, QrSettings::defaults());
    app.on_event(key(KeyCode::Down));
    let cmds = app.on_event(ch('d'));
    assert!(matches!(&cmds[0], Command::SaveWorkspaces { workspaces } if workspaces.len() == 1));
    assert_eq!(app.session.picker_cursor, 0);
    app.on_event(key(KeyCode::Enter));
    assert_eq!(app.screen, Screen::Auth);
    assert!(app.auth.ws_locked);
    assert_eq!(app.auth.api_key.value(), "k1");
    assert_eq!(app.auth.workspace_id.value(), "1");
}

#[test]
fn forgetting_a_workspace_drops_its_stored_key() {
    let cached = vec![
        CachedWorkspace { id: 1, name: "One".to_string(), api_key: Some("k1".to_string()) },
        CachedWorkspace { id: 2, name: "Two".to_string(), api_key: None },
    ];
    let mut app = App::new(String::new(), String::new(), cached, QrSettings::defaults());
    let cmds = app.on_event(ch('d'));
    assert_eq!(app.session.cached_workspaces.len(), 1);
    assert_eq!(app.session.cached_workspaces[0].id, 2);
    assert!(app.session.cached_workspaces.iter().all(|w| w.id != 1 && w.api_key.is_none()));
    assert!(matches!(&cmds[0], Command::SaveWorkspaces { workspaces }
        if workspaces.len() == 1 && workspaces[0].id == 2));
}

#[test]
fn created_link_reloads_the_current_page() {
    let mut app = signed_in();
    app.on_async(AsyncMsg::LinksLoaded(page(vec![link(1, "a")], 2, 3)));
    app.on_event(key(KeyCode::Esc));
    app.on_event(ch('c'));
    assert_eq!(app.screen, Screen::CreateLink);
    let created = linkly_tui::import::NewLink {
        id: Some(5),
        slug: Some("new".to_string()),
        name: None,
        full_url: None,
        url: Some("https://example.com".to_string()),
    };
    let cmds = app.on_async(AsyncMsg::LinkCreated(created));
    assert_eq!(app.screen, Screen::LinkList);
    assert_eq!(app.list.page, 2);
    assert!(matches!(&cmds[0], Command::LoadLinks { workspace_id: 42, page: 2, sort_by: "id", sort_dir: "desc", .. }));
    assert_eq!(app.status, "Link created — refreshing…");
}
