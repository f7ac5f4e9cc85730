//! The application state machine: screens, key handling, and what is asked
//! of the outside world (API calls, files) as [`Command`]s.
//!
//! The terminal front end reads keys and API results, hands them to
//! [`App::on_event`] and [`App::on_async`], and performs the commands these
//! return; the answers of file operations come back through the `on_*`
//! methods. Every decision lives here.

use vstd::prelude::*;

pub mod create;
pub mod detail;
pub mod import_flow;
pub mod list;
pub mod qr_dialog;
pub mod replies;
pub mod events;
pub mod session;
pub mod workers;

use crate::create_form::{is_blank_form, CreateForm};
use crate::edit_form::LinkEditor;
use crate::import::{ImportState, NewLink};
use crate::input::{EditRequest, KeyCode, KeyInput, TextInput};
use crate::json::{JsonScalar, JsonValue, entries_view};
use crate::models::{CreateLinkRequest, LinkSummary, ListLinksResponse, RequestView, Workspace};
use crate::qr::{QrFormat, QrSettings};
use crate::text::to_owned_string;

verus! {

/// Links requested per page.
pub const PAGE_SIZE: i64 = 100;

/// Which screen is currently active.
#[derive(Debug, Clone, Copy, PartialEq, Eq, Structural)]
pub enum Screen {
    WorkspacePicker,
    Auth,
    LinkList,
    LinkDetail,
    CreateLink,
    Import,
}

/// The columns the link list can be sorted by. Each maps to an API
/// `sort_by` field that matches a visible table column.
#[derive(Debug, Clone, Copy, PartialEq, Eq, Structural)]
pub enum SortField {
    Created,
    Name,
    Slug,
    ClicksTotal,
    ClicksThirtyDays,
    ClicksToday,
}

/// The sort fields in picker order.
pub open spec fn sort_fields() -> Seq<SortField> {
    seq![
        SortField::Created,
        SortField::Name,
        SortField::Slug,
        SortField::ClicksTotal,
        SortField::ClicksThirtyDays,
        SortField::ClicksToday,
    ]
}

/// The API `sort_by` value of a sort field.
pub open spec fn api_field_spec(f: SortField) -> Seq<char> {
    match f {
        SortField::Created => "id"@,
        SortField::Name => "name"@,
        SortField::Slug => "slug"@,
        SortField::ClicksTotal => "clicks_total"@,
        SortField::ClicksThirtyDays => "clicks_thirty_days"@,
        SortField::ClicksToday => "clicks_today"@,
    }
}

/// The label of a sort field.
pub open spec fn sort_label_spec(f: SortField) -> Seq<char> {
    match f {
        SortField::Created => "Created"@,
        SortField::Name => "Name"@,
        SortField::Slug => "Slug"@,
        SortField::ClicksTotal => "Total clicks"@,
        SortField::ClicksThirtyDays => "Clicks (30d)"@,
        SortField::ClicksToday => "Clicks (today)"@,
    }
}

/// The position of a sort field in [`sort_fields`].
pub open spec fn sort_index(f: SortField) -> nat {
    match f {
        SortField::Created => 0,
        SortField::Name => 1,
        SortField::Slug => 2,
        SortField::ClicksTotal => 3,
        SortField::ClicksThirtyDays => 4,
        SortField::ClicksToday => 5,
    }
}

impl SortField {
    /// Every sort field, in picker order.
    pub fn all() -> (r: [SortField; 6])
        ensures
            r@ == sort_fields(),
    {
        let r = [
            SortField::Created,
            SortField::Name,
            SortField::Slug,
            SortField::ClicksTotal,
            SortField::ClicksThirtyDays,
            SortField::ClicksToday,
        ];
        assert(r@ =~= sort_fields());
        r
    }

    /// The sort field at a picker position.
    pub fn at(i: usize) -> (r: SortField)
        requires
            i < 6,
        ensures
            r == sort_fields()[i as int],
    {
        if i == 0 {
            SortField::Created
        } else if i == 1 {
            SortField::Name
        } else if i == 2 {
            SortField::Slug
        } else if i == 3 {
            SortField::ClicksTotal
        } else if i == 4 {
            SortField::ClicksThirtyDays
        } else {
            SortField::ClicksToday
        }
    }

    /// The picker position of this sort field.
    pub fn position(self) -> (r: usize)
        ensures
            r == sort_index(self),
            r < 6,
            sort_fields()[r as int] == self,
    {
        match self {
            SortField::Created => 0,
            SortField::Name => 1,
            SortField::Slug => 2,
            SortField::ClicksTotal => 3,
            SortField::ClicksThirtyDays => 4,
            SortField::ClicksToday => 5,
        }
    }

    /// The API `sort_by` value.
    pub fn api_field(self) -> (r: &'static str)
        ensures
            r@ == api_field_spec(self),
    {
        match self {
            SortField::Created => "id",
            SortField::Name => "name",
            SortField::Slug => "slug",
            SortField::ClicksTotal => "clicks_total",
            SortField::ClicksThirtyDays => "clicks_thirty_days",
            SortField::ClicksToday => "clicks_today",
        }
    }

    /// The label shown in the sort picker and the list title.
    pub fn label(self) -> (r: &'static str)
        ensures
            r@ == sort_label_spec(self),
    {
        match self {
            SortField::Created => "Created",
            SortField::Name => "Name",
            SortField::Slug => "Slug",
            SortField::ClicksTotal => "Total clicks",
            SortField::ClicksThirtyDays => "Clicks (30d)",
            SortField::ClicksToday => "Clicks (today)",
        }
    }
}

/// The API `sort_dir` value.
pub open spec fn sort_dir_spec(desc: bool) -> Seq<char> {
    if desc {
        "desc"@
    } else {
        "asc"@
    }
}

pub(crate) fn sort_dir(desc: bool) -> (r: &'static str)
    ensures
        r@ == sort_dir_spec(desc),
{
    if desc {
        "desc"
    } else {
        "asc"
    }
}

/// A remembered workspace: id, name, and the API key when the user chose to
/// store it.
pub struct CachedWorkspace {
    pub id: i64,
    pub name: String,
    pub api_key: Option<String>,
}

/// The value of a [`CachedWorkspace`].
pub struct CachedView {
    pub id: i64,
    pub name: Seq<char>,
    pub api_key: Option<Seq<char>>,
}

pub open spec fn cached_view(w: CachedWorkspace) -> CachedView {
    CachedView { id: w.id, name: w.name@, api_key: w.api_key.deep_view() }
}

pub open spec fn opt_cached_view(w: Option<CachedWorkspace>) -> Option<CachedView> {
    match w {
        Some(w) => Some(cached_view(w)),
        None => None,
    }
}

pub open spec fn cached_views(ws: Seq<CachedWorkspace>) -> Seq<CachedView> {
    ws.map_values(|w: CachedWorkspace| cached_view(w))
}

impl CachedWorkspace {
    /// A field-by-field copy.
    pub fn duplicate(&self) -> (r: Self)
        ensures
            cached_view(r) == cached_view(*self),
    {
        CachedWorkspace {
            id: self.id,
            name: self.name.clone(),
            api_key: crate::models::clone_opt_string(&self.api_key),
        }
    }
}

pub(crate) fn copy_workspaces(ws: &Vec<CachedWorkspace>) -> (r: Vec<CachedWorkspace>)
    ensures
        cached_views(r@) == cached_views(ws@),
{
    let mut r: Vec<CachedWorkspace> = Vec::new();
    let mut i: usize = 0;
    while i < ws.len()
        invariant
            i <= ws@.len(),
            cached_views(r@) == cached_views(ws@.take(i as int)),
        decreases ws.len() - i,
    {
        let ghost prev = cached_views(r@);
        r.push(ws[i].duplicate());
        assert(cached_views(r@) =~= prev.push(cached_view(ws@[i as int])));
        assert(cached_views(ws@.take(i + 1)) =~= cached_views(ws@.take(i as int)).push(
            cached_view(ws@[i as int]),
        ));
        i = i + 1;
    }
    assert(ws@.take(i as int) == ws@);
    r
}

/// The value of QR settings: (format, size, fg, bg).
pub open spec fn settings_view(s: QrSettings) -> (QrFormat, u32, Seq<char>, Seq<char>) {
    (s.format, s.size, s.fg@, s.bg@)
}

/// A link captured for a single QR export.
pub struct QrSingle {
    pub id: Option<i64>,
    pub slug: Option<String>,
    pub name: Option<String>,
    pub url: String,
}

/// What the QR dialog exports once confirmed.
pub enum QrExportTarget {
    Single(QrSingle),
    Workspace,
}

/// The credential prompt.
pub struct AuthState {
    pub api_key: TextInput,
    pub workspace_id: TextInput,
    /// 0 = API key, 1 = workspace id.
    pub focus: usize,
    pub error: Option<String>,
    /// The workspace was chosen from the cache: only the key is asked for,
    /// and `ws_name` is shown for context.
    pub ws_locked: bool,
    pub ws_name: String,
}

/// Results delivered back to the state machine from API work.
pub enum AsyncMsg {
    LinksLoaded(ListLinksResponse),
    LinkDetailLoaded(JsonValue),
    DomainsLoaded(Vec<String>),
    LinkCreated(NewLink),
    LinkUpdated,
    WorkspacesLoaded(Vec<Workspace>),
    QrExported { count: usize, dir: String },
    ImportProgress { done: usize, ok: usize, failed: usize },
    ImportDone {
        ok: usize,
        failed: usize,
        success_path: Option<String>,
        failure_path: Option<String>,
        new_links: Vec<NewLink>,
    },
    Error(String),
}

/// What the state machine asks of the outside world.
pub enum Command {
    /// Start an API session with this key.
    Connect { api_key: String },
    /// Fetch one page of links (of [`PAGE_SIZE`] links).
    LoadLinks {
        workspace_id: i64,
        page: i64,
        search: String,
        sort_by: &'static str,
        sort_dir: &'static str,
    },
    LoadDomains { workspace_id: i64 },
    LoadWorkspaces,
    LoadLink { id: i64, workspace_id: i64 },
    CreateLink { body: CreateLinkRequest },
    UpdateLink { body: JsonValue },
    /// Persist the workspace cache.
    SaveWorkspaces { workspaces: Vec<CachedWorkspace> },
    /// Persist the QR defaults.
    SaveQrSettings { settings: QrSettings },
    /// Render `url` as a QR code into `path`; answer with [`App::qr_written`].
    WriteQr { url: String, path: String, settings: QrSettings },
    /// Page through every link of the workspace, writing a QR code for each
    /// (see [`workers::page_jobs`]); answer with [`AsyncMsg::QrExported`].
    ExportWorkspaceQr {
        workspace_id: i64,
        search: String,
        sort_by: &'static str,
        sort_dir: &'static str,
        settings: QrSettings,
    },
    /// List the working directory; answer with [`App::import_opened`].
    OpenImport,
    /// List a directory; answer with [`App::dir_listed`].
    ListDir { dir: String },
    /// Read a CSV file; answer with [`App::csv_parsed`].
    ParseCsv { path: String, workspace_id: i64 },
    /// Write the template file into `dir` (see [`crate::import::write_template`]);
    /// answer with [`App::template_written`].
    WriteTemplate { dir: String },
    /// Submit the requests one by one (see [`workers::ImportRun`]), then write the
    /// result files next to `csv_path`.
    RunImport { requests: Vec<(u64, CreateLinkRequest)>, csv_path: String },
    /// Write each (url, path) QR code; answer with [`AsyncMsg::QrExported`].
    GenerateQr { jobs: Vec<(String, String)>, dir: String, settings: QrSettings },
}

/// The value of a [`Command`].
pub enum CommandView {
    Connect { api_key: Seq<char> },
    LoadLinks { workspace_id: i64, page: i64, search: Seq<char>, sort_by: Seq<char>, sort_dir: Seq<char> },
    LoadDomains { workspace_id: i64 },
    LoadWorkspaces,
    LoadLink { id: i64, workspace_id: i64 },
    CreateLink { body: RequestView },
    UpdateLink { json: JsonScalar, entries: Seq<(Seq<char>, JsonScalar)> },
    SaveWorkspaces { workspaces: Seq<CachedView> },
    SaveQrSettings { settings: (QrFormat, u32, Seq<char>, Seq<char>) },
    WriteQr { url: Seq<char>, path: Seq<char>, settings: (QrFormat, u32, Seq<char>, Seq<char>) },
    ExportWorkspaceQr {
        workspace_id: i64,
        search: Seq<char>,
        sort_by: Seq<char>,
        sort_dir: Seq<char>,
        settings: (QrFormat, u32, Seq<char>, Seq<char>),
    },
    OpenImport,
    ListDir { dir: Seq<char> },
    ParseCsv { path: Seq<char>, workspace_id: i64 },
    WriteTemplate { dir: Seq<char> },
    RunImport { requests: Seq<(u64, RequestView)>, csv_path: Seq<char> },
    GenerateQr { jobs: Seq<(Seq<char>, Seq<char>)>, dir: Seq<char>, settings: (QrFormat, u32, Seq<char>, Seq<char>) },
}

#[verifier::opaque]
pub open spec fn command_view(c: Command) -> CommandView {
    match c {
        Command::Connect { api_key } => CommandView::Connect { api_key: api_key@ },
        Command::LoadLinks { workspace_id, page, search, sort_by, sort_dir } => CommandView::LoadLinks {
            workspace_id,
            page,
            search: search@,
            sort_by: sort_by@,
            sort_dir: sort_dir@,
        },
        Command::LoadDomains { workspace_id } => CommandView::LoadDomains { workspace_id },
        Command::LoadWorkspaces => CommandView::LoadWorkspaces,
        Command::LoadLink { id, workspace_id } => CommandView::LoadLink { id, workspace_id },
        Command::CreateLink { body } => CommandView::CreateLink { body: body@ },
        Command::UpdateLink { body } => CommandView::UpdateLink {
            json: crate::json::scalar_of(body),
            entries: match body {
                JsonValue::Object(es) => entries_view(es@),
                _ => seq![],
            },
        },
        Command::SaveWorkspaces { workspaces } => CommandView::SaveWorkspaces {
            workspaces: cached_views(workspaces@),
        },
        Command::SaveQrSettings { settings } => CommandView::SaveQrSettings {
            settings: settings_view(settings),
        },
        Command::WriteQr { url, path, settings } => CommandView::WriteQr {
            url: url@,
            path: path@,
            settings: settings_view(settings),
        },
        Command::ExportWorkspaceQr { workspace_id, search, sort_by, sort_dir, settings } =>
            CommandView::ExportWorkspaceQr {
            workspace_id,
            search: search@,
            sort_by: sort_by@,
            sort_dir: sort_dir@,
            settings: settings_view(settings),
        },
        Command::OpenImport => CommandView::OpenImport,
        Command::ListDir { dir } => CommandView::ListDir { dir: dir@ },
        Command::ParseCsv { path, workspace_id } => CommandView::ParseCsv { path: path@, workspace_id },
        Command::WriteTemplate { dir } => CommandView::WriteTemplate { dir: dir@ },
        Command::RunImport { requests, csv_path } => CommandView::RunImport {
            requests: requests@.map_values(|p: (u64, CreateLinkRequest)| (p.0, p.1@)),
            csv_path: csv_path@,
        },
        Command::GenerateQr { jobs, dir, settings } => CommandView::GenerateQr {
            jobs: jobs@.map_values(|j: (String, String)| (j.0@, j.1@)),
            dir: dir@,
            settings: settings_view(settings),
        },
    }
}

pub open spec fn cmds_view(c: Seq<Command>) -> Seq<CommandView> {
    c.map_values(|x: Command| command_view(x))
}

/// The session: credentials, the workspace in use and the workspace cache.
pub struct Session {
    /// An API session exists.
    pub connected: bool,
    pub workspace_id: i64,
    /// The sign-in prefill read from the environment: (API key, workspace id).
    pub env_key: String,
    pub env_ws: String,
    /// The API key of the current session.
    pub current_key: String,
    /// Set when signing in; the first successful link load clears it and
    /// caches the (now verified) workspace.
    pub verify_pending: bool,
    /// A workspace name fetched while verification is pending.
    pub pending_ws_name: Option<String>,
    /// Whether the "store this API key?" prompt is showing.
    pub store_prompt: bool,
    /// Remembered workspaces, most recently used first.
    pub cached_workspaces: Vec<CachedWorkspace>,
    /// The highlighted row of the workspace picker (the row after the last
    /// workspace is "add a new one").
    pub picker_cursor: usize,
}

/// The QR dialog and the QR export defaults.
pub struct QrDialog {
    pub settings: QrSettings,
    pub open: bool,
    /// 0 = format, 1 = size, 2 = foreground, 3 = background.
    pub focus: usize,
    pub size_input: TextInput,
    pub fg_input: TextInput,
    pub bg_input: TextInput,
    /// What to export once the dialog is confirmed (`None` = settings only).
    pub pending: Option<QrExportTarget>,
}

/// The link list: the current page, search and sort.
pub struct LinkList {
    pub links: Vec<LinkSummary>,
    /// The highlighted row.
    pub selected: Option<usize>,
    pub page: i64,
    pub total_pages: i64,
    pub total_entries: i64,
    pub search: String,
    pub search_input: TextInput,
    pub searching: bool,
    pub sort_field: SortField,
    pub sort_desc: bool,
    /// The sort picker: whether it is open, its highlighted field and
    /// direction.
    pub sort_open: bool,
    pub sort_cursor: usize,
    pub sort_cursor_desc: bool,
}

/// The whole application state.
pub struct App {
    pub screen: Screen,
    pub should_quit: bool,
    pub status: String,
    pub loading: bool,
    /// Whether the keybindings help overlay is showing.
    pub help_open: bool,
    pub session: Session,
    pub auth: AuthState,
    pub qr: QrDialog,
    pub list: LinkList,
    pub editor: Option<LinkEditor>,
    pub create_form: CreateForm,
    pub domains: Vec<String>,
    /// The CSV import flow, when it is open.
    pub import: Option<ImportState>,
}

/// The state invariant the key handlers keep.
pub open spec fn app_wf(a: App) -> bool {
    &&& a.list.sort_cursor < 6
    &&& a.auth.focus < 2
    &&& a.qr.focus < 4
    &&& (a.editor matches Some(e) ==> e.fields@.len() == 25 && e.cursor < 25)
}

/// The command loading page `page` of the links, when there is a session.
pub open spec fn load_links_spec(a: App, page: i64) -> Seq<CommandView> {
    if a.session.connected {
        seq![CommandView::LoadLinks {
            workspace_id: a.session.workspace_id,
            page,
            search: a.list.search@,
            sort_by: api_field_spec(a.list.sort_field),
            sort_dir: sort_dir_spec(a.list.sort_desc),
        }]
    } else {
        seq![]
    }
}

/// The command loading the domains, when there is a session.
pub open spec fn load_domains_spec(a: App) -> Seq<CommandView> {
    if a.session.connected {
        seq![CommandView::LoadDomains { workspace_id: a.session.workspace_id }]
    } else {
        seq![]
    }
}

/// `b` is `a` after `reload(msg, page)`: the status shows `msg`, loading is
/// on, and page `page` is requested.
#[verifier::opaque]
pub open spec fn reloaded(a: App, b: App, c: Seq<CommandView>, msg: Seq<char>, page: i64) -> bool {
    &&& b == App { status: b.status, loading: true, ..a }
    &&& b.status@ == msg
    &&& c == load_links_spec(a, page)
}

/// No command.
pub(crate) fn no_commands() -> (r: Vec<Command>)
    ensures
        cmds_view(r@) == Seq::<CommandView>::empty(),
{
    let r: Vec<Command> = Vec::new();
    assert(cmds_view(r@) =~= Seq::<CommandView>::empty());
    r
}

/// `b` is `a` with nothing changed and no command.
pub open spec fn unchanged(a: App, b: App, c: Seq<CommandView>) -> bool {
    b == a && c == Seq::<CommandView>::empty()
}

impl App {
    /// The state at startup: the workspace picker when workspaces are
    /// remembered, else the sign-in prompt prefilled from `env_key` and
    /// `env_ws`.
    pub fn new(env_key: String, env_ws: String, cached_workspaces: Vec<CachedWorkspace>, qr_settings: QrSettings) -> (r: Self)
        ensures
            r.screen == if cached_workspaces@.len() == 0 { Screen::Auth } else { Screen::WorkspacePicker },
            fresh_input(r.auth.api_key, env_key@),
            fresh_input(r.auth.workspace_id, env_ws@),
            r.auth.focus == 0 && r.auth.error is None && !r.auth.ws_locked && r.auth.ws_name@.len() == 0,
            r.session.env_key@ == env_key@ && r.session.env_ws@ == env_ws@,
            r.session.workspace_id == 0 && r.session.current_key@.len() == 0 && r.session.pending_ws_name is None,
            r.session.cached_workspaces == cached_workspaces,
            r.qr.settings == qr_settings,
            !r.should_quit && !r.loading && !r.session.connected && r.status@.len() == 0,
            r.session.picker_cursor == 0 && !r.session.store_prompt && !r.session.verify_pending,
            r.list.page == 1 && r.list.total_pages == 1 && r.list.total_entries == 0,
            r.list.sort_field == SortField::Created && r.list.sort_desc && !r.list.sort_open,
            r.list.sort_cursor == 0 && r.list.sort_cursor_desc,
            r.list.links@.len() == 0 && r.list.selected is None,
            r.list.search@.len() == 0 && fresh_input(r.list.search_input, Seq::empty()) && !r.list.searching,
            r.editor is None && r.import is None,
            is_blank_form(r.create_form) && r.domains@.len() == 0,
            !r.help_open && !r.qr.open && r.qr.pending is None && r.qr.focus == 0,
            fresh_input(r.qr.size_input, Seq::empty()) && fresh_input(r.qr.fg_input, Seq::empty()),
            fresh_input(r.qr.bg_input, Seq::empty()),
            app_wf(r),
    {
        let screen = if cached_workspaces.len() == 0 { Screen::Auth } else { Screen::WorkspacePicker };
        let auth = AuthState {
            api_key: TextInput::new(env_key.clone()),
            workspace_id: TextInput::new(env_ws.clone()),
            focus: 0,
            error: None,
            ws_locked: false,
            ws_name: String::new(),
        };
        let session = Session {
            connected: false,
            workspace_id: 0,
            env_key,
            env_ws,
            current_key: String::new(),
            verify_pending: false,
            pending_ws_name: None,
            store_prompt: false,
            cached_workspaces,
            picker_cursor: 0,
        };
        let qr = QrDialog {
            settings: qr_settings,
            open: false,
            focus: 0,
            size_input: TextInput::empty(),
            fg_input: TextInput::empty(),
            bg_input: TextInput::empty(),
            pending: None,
        };
        let list = LinkList {
            links: Vec::new(),
            selected: None,
            page: 1,
            total_pages: 1,
            total_entries: 0,
            search: String::new(),
            search_input: TextInput::empty(),
            searching: false,
            sort_field: SortField::Created,
            sort_desc: true,
            sort_open: false,
            sort_cursor: 0,
            sort_cursor_desc: true,
        };
        App {
            screen,
            should_quit: false,
            status: String::new(),
            loading: false,
            help_open: false,
            session,
            auth,
            qr,
            list,
            editor: None,
            create_form: CreateForm::new(),
            domains: Vec::new(),
            import: None,
        }
    }

    pub(crate) fn load_links(&self, page: i64) -> (r: Vec<Command>)
        ensures
            cmds_view(r@) == load_links_spec(*self, page),
    {
        let mut r: Vec<Command> = Vec::new();
        if self.session.connected {
            r.push(Command::LoadLinks {
                workspace_id: self.session.workspace_id,
                page,
                search: self.list.search.clone(),
                sort_by: self.list.sort_field.api_field(),
                sort_dir: sort_dir(self.list.sort_desc),
            });
        }
        reveal(command_view);
        assert(cmds_view(r@) =~= load_links_spec(*self, page));
        r
    }

    pub(crate) fn load_domains(&self) -> (r: Vec<Command>)
        ensures
            cmds_view(r@) == load_domains_spec(*self),
    {
        let mut r: Vec<Command> = Vec::new();
        if self.session.connected {
            r.push(Command::LoadDomains { workspace_id: self.session.workspace_id });
        }
        reveal(command_view);
        assert(cmds_view(r@) =~= load_domains_spec(*self));
        r
    }

    pub(crate) fn reload(&mut self, msg: &str, page: i64) -> (r: Vec<Command>)
        ensures
            reloaded(*old(self), *final(self), cmds_view(r@), msg@, page),
    {
        reveal(reloaded);
        self.status = to_owned_string(msg);
        self.loading = true;
        self.load_links(page)
    }
}

/// `i` holds `v`, with the cursor at its end.
pub open spec fn fresh_input(i: TextInput, v: Seq<char>) -> bool {
    i.text() == v && i.pos() == v.len()
}

/// `n` is `o` after the editing request `req`.
pub open spec fn edited(o: TextInput, n: TextInput, req: EditRequest) -> bool {
    (n.text(), n.pos()) == crate::input::tui_handle(o.text(), o.pos(), req)
}

/// The key is the character `c`.
pub open spec fn is_char(k: KeyInput, c: char) -> bool {
    k.code == KeyCode::Char(c)
}

} // verus!
