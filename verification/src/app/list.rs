//! The link list: row selection, paging, search, the sort picker and the
//! "store this API key?" prompt.

use vstd::prelude::*;

use crate::app::qr_dialog::{qr_opened, QrTargetView};
use crate::app::{
    Session, LinkList, app_wf, cached_views, cmds_view, command_view, edited, fresh_input, is_char,
    load_domains_spec, load_links_spec, no_commands, reloaded, sort_fields, sort_index, unchanged,
    App, CachedView, CachedWorkspace, Command, CommandView, QrExportTarget, Screen, SortField,
    sort_label_spec,
};
use crate::create_form::{is_blank_form, CreateForm};
use crate::input::{KeyCode, KeyInput, TextInput};
use crate::models::LinkSummary;
use crate::text::{int_decimal, push_i64, push_str, to_owned_string, trim, trim_string};

verus! {

/// The position of the first cached workspace with id `id`.
pub open spec fn ws_index(ws: Seq<CachedView>, id: i64) -> Option<int>
    decreases ws.len(),
{
    if ws.len() == 0 {
        None
    } else if ws[0].id == id {
        Some(0)
    } else {
        match ws_index(ws.drop_first(), id) {
            Some(i) => Some(i + 1),
            None => None,
        }
    }
}

pub proof fn lemma_ws_index(ws: Seq<CachedView>, id: i64)
    ensures
        match ws_index(ws, id) {
            Some(i) => 0 <= i < ws.len() && ws[i].id == id && forall|j: int| 0 <= j < i ==> ws[j].id != id,
            None => forall|j: int| 0 <= j < ws.len() ==> ws[j].id != id,
        },
    decreases ws.len(),
{
    if ws.len() > 0 {
        lemma_ws_index(ws.drop_first(), id);
        assert forall|j: int| 1 <= j < ws.len() implies ws[j] == ws.drop_first()[j - 1] by {}
    }
}

/// Where the first cached workspace with id `id` is.
pub fn find_workspace(ws: &Vec<CachedWorkspace>, id: i64) -> (r: Option<usize>)
    ensures
        match r {
            Some(i) => ws_index(cached_views(ws@), id) == Some(i as int) && i < ws@.len(),
            None => ws_index(cached_views(ws@), id) is None,
        },
{
    proof {
        lemma_ws_index(cached_views(ws@), id);
    }
    let mut i: usize = 0;
    assert(cached_views(ws@).skip(0) =~= cached_views(ws@));
    while i < ws.len()
        invariant
            i <= ws@.len(),
            ws_index(cached_views(ws@), id) == match ws_index(cached_views(ws@).skip(i as int), id) {
                Some(k) => Some(k + i),
                None => None::<int>,
            },
        decreases ws.len() - i,
    {
        if ws[i].id == id {
            return Some(i);
        }
        assert(cached_views(ws@).skip(i as int).drop_first() =~= cached_views(ws@).skip(i + 1));
        i = i + 1;
    }
    None
}

/// The cache with the session's key stored on the workspace at `i`.
pub open spec fn with_key(ws: Seq<CachedView>, i: int, key: Seq<char>) -> Seq<CachedView> {
    ws.update(i, CachedView { api_key: Some(key), ..ws[i] })
}

/// `b` is `a` with the session's key stored on the active workspace, when
/// it is cached, and the cache saved.
#[verifier::opaque]
pub open spec fn key_stored(a: App, b: App, c: Seq<CommandView>) -> bool {
    match ws_index(cached_views(a.session.cached_workspaces@), a.session.workspace_id) {
        Some(i) => {
            let ws = with_key(cached_views(a.session.cached_workspaces@), i, a.session.current_key@);
            &&& b == App { session: Session { cached_workspaces: b.session.cached_workspaces, ..a.session }, ..a }
            &&& cached_views(b.session.cached_workspaces@) == ws
            &&& c == seq![CommandView::SaveWorkspaces { workspaces: ws }]
        },
        None => b == a && c.len() == 0,
    }
}

/// `b` is `a` after answering the store prompt: with `store`, the session's
/// key is stored (see [`key_stored`]); either way the prompt closes and
/// says what happened.
pub open spec fn store_answered(a: App, b: App, c: Seq<CommandView>, store: bool) -> bool {
    &&& !b.session.store_prompt
    &&& b.status@ == if store {
        "API key stored for this workspace"@
    } else {
        "API key not stored"@
    }
    &&& if store {
        key_stored(a, App { status: a.status, session: Session { store_prompt: a.session.store_prompt, ..b.session }, ..b }, c)
    } else {
        b == App { status: b.status, session: Session { store_prompt: false, ..a.session }, ..a } && c.len() == 0
    }
}

/// One key while the store prompt shows.
pub open spec fn store_step(a: App, b: App, c: Seq<CommandView>, k: KeyInput) -> bool {
    if is_char(k, 's') || is_char(k, 'y') {
        store_answered(a, b, c, true)
    } else if is_char(k, 'n') || k.code == KeyCode::Esc {
        store_answered(a, b, c, false)
    } else {
        unchanged(a, b, c)
    }
}

/// `b` is `a` with the links reloaded: status `msg`, loading, page `page` of
/// the (possibly new) search and sort of `b` requested.
pub open spec fn reload_requested(b: App, c: Seq<CommandView>, msg: Seq<char>, page: i64) -> bool {
    &&& b.loading
    &&& b.status@ == msg
    &&& c == load_links_spec(b, page)
}

/// `b` is `a` with the sort under the picker adopted and the first page
/// reloaded.
#[verifier::opaque]
pub open spec fn sort_applied(a: App, b: App, c: Seq<CommandView>) -> bool {
    &&& b == App { status: b.status, loading: true, list: LinkList { sort_field: sort_fields()[a.list.sort_cursor as int], sort_desc: a.list.sort_cursor_desc, sort_open: false, page: 1, ..a.list }, ..a }
    &&& reload_requested(b, c, "Sorting\u{2026}"@, 1)
}

/// `b` is `a` with the typed search adopted (trimmed) and the first page
/// reloaded.
#[verifier::opaque]
pub open spec fn search_applied(a: App, b: App, c: Seq<CommandView>) -> bool {
    &&& b == App { status: b.status, loading: true, list: LinkList { search: b.list.search, searching: false, page: 1, ..a.list }, ..a }
    &&& b.list.search@ == trim(a.list.search_input.text())
    &&& reload_requested(b, c, "Searching\u{2026}"@, 1)
}

/// `b` is `a` and the import screen is asked for.
#[verifier::opaque]
pub open spec fn import_requested(a: App, b: App, c: Seq<CommandView>) -> bool {
    b == a && c == seq![CommandView::OpenImport]
}

/// One key while the sort picker is open.
pub open spec fn sort_step(a: App, b: App, c: Seq<CommandView>, k: KeyInput) -> bool {
    let cur = a.list.sort_cursor;
    if k.code == KeyCode::Esc {
        b == App { list: LinkList { sort_open: false, ..a.list }, ..a } && c.len() == 0
    } else if k.code == KeyCode::Up || is_char(k, 'k') {
        b == App { list: LinkList { sort_cursor: if cur == 0 { 0 } else { (cur - 1) as usize }, ..a.list }, ..a } && c.len() == 0
    } else if k.code == KeyCode::Down || is_char(k, 'j') {
        b == App { list: LinkList { sort_cursor: if cur < 5 { (cur + 1) as usize } else { 5 }, ..a.list }, ..a } && c.len() == 0
    } else if k.code == KeyCode::Left || k.code == KeyCode::Right || is_char(k, 'h') || is_char(k, 'l')
        || is_char(k, 'd') || k.code == KeyCode::Tab {
        b == App { list: LinkList { sort_cursor_desc: !a.list.sort_cursor_desc, ..a.list }, ..a } && c.len() == 0
    } else if k.code == KeyCode::Enter {
        sort_applied(a, b, c)
    } else {
        unchanged(a, b, c)
    }
}

/// One key while a search is typed.
pub open spec fn search_step(a: App, b: App, c: Seq<CommandView>, k: KeyInput) -> bool {
    if k.code == KeyCode::Enter {
        search_applied(a, b, c)
    } else if k.code == KeyCode::Esc {
        &&& b == App { list: LinkList { searching: false, search_input: b.list.search_input, ..a.list }, ..a }
        &&& fresh_input(b.list.search_input, Seq::empty())
        &&& c.len() == 0
    } else {
        match k.edit {
            Some(req) => b == App { list: LinkList { search_input: b.list.search_input, ..a.list }, ..a } && edited(
                a.list.search_input,
                b.list.search_input,
                req,
            ) && c.len() == 0,
            None => unchanged(a, b, c),
        }
    }
}

/// The highlighted link, if the highlight is on a row.
pub open spec fn selected_link_spec(a: App) -> Option<LinkSummary> {
    match a.list.selected {
        Some(i) => if i < a.list.links@.len() {
            Some(a.list.links@[i as int])
        } else {
            None
        },
        None => None,
    }
}

/// The row highlighted after moving down: the next one (staying on the
/// last), or the first when none is.
pub open spec fn next_row(sel: Option<usize>, len: nat) -> Option<usize> {
    match sel {
        Some(i) => Some(if i + 1 < len { (i + 1) as usize } else { (len - 1) as usize }),
        None => Some(0),
    }
}

/// The row highlighted after moving up (staying on the first).
pub open spec fn prev_row(sel: Option<usize>) -> Option<usize> {
    let i = match sel {
        Some(i) => i,
        None => 0,
    };
    Some(if i == 0 { 0 } else { (i - 1) as usize })
}

/// `b` is `a` after `Enter` on the list: the highlighted link's record is
/// requested when it has an id and there is a session.
#[verifier::opaque]
pub open spec fn detail_opened(a: App, b: App, c: Seq<CommandView>) -> bool {
    match selected_link_spec(a) {
        Some(l) => match l.id {
            Some(id) => if a.session.connected {
                &&& b == App { screen: Screen::LinkDetail, editor: None, status: b.status, loading: true, ..a }
                &&& b.status@ == "Loading link details\u{2026}"@
                &&& c == seq![CommandView::LoadLink { id, workspace_id: a.session.workspace_id }]
            } else {
                unchanged(a, b, c)
            },
            None => unchanged(a, b, c),
        },
        None => unchanged(a, b, c),
    }
}

/// `b` is `a` with a blank create form shown (the domains requested when
/// none are known yet).
#[verifier::opaque]
pub open spec fn create_opened(a: App, b: App, c: Seq<CommandView>) -> bool {
    &&& b == App { create_form: b.create_form, screen: Screen::CreateLink, status: b.status, ..a }
    &&& is_blank_form(b.create_form)
    &&& b.status@ == "New link \u{2014} fill in the URL and press Enter on Submit"@
    &&& c == if a.domains@.len() == 0 {
        load_domains_spec(a)
    } else {
        Seq::empty()
    }
}

/// One key on the list itself (no prompt, picker or search open).
pub open spec fn list_main_step(a: App, b: App, c: Seq<CommandView>, k: KeyInput) -> bool {
    let n = a.list.links@.len();
    if is_char(k, 'q') {
        b == App { should_quit: true, ..a } && c.len() == 0
    } else if k.code == KeyCode::Esc {
        b == App { screen: Screen::WorkspacePicker, session: Session { picker_cursor: 0, ..a.session }, ..a } && c.len() == 0
    } else if k.code == KeyCode::Down || is_char(k, 'j') {
        c.len() == 0 && if n == 0 {
            b == a
        } else {
            b == App { list: LinkList { selected: next_row(a.list.selected, n), ..a.list }, ..a }
        }
    } else if k.code == KeyCode::Up || is_char(k, 'k') {
        c.len() == 0 && if n == 0 {
            b == a
        } else {
            b == App { list: LinkList { selected: prev_row(a.list.selected), ..a.list }, ..a }
        }
    } else if k.code == KeyCode::Enter {
        detail_opened(a, b, c)
    } else if is_char(k, '/') {
        &&& b == App { list: LinkList { searching: true, search_input: b.list.search_input, ..a.list }, ..a }
        &&& fresh_input(b.list.search_input, a.list.search@)
        &&& c.len() == 0
    } else if is_char(k, 's') {
        b == App { list: LinkList { sort_open: true, sort_cursor: sort_index(a.list.sort_field) as usize, sort_cursor_desc: a.list.sort_desc, ..a.list }, ..a } && c.len() == 0
    } else {
        list_action_step(a, b, c, k)
    }
}

/// The keys on the list that act on it: create, QR, import, refresh and
/// paging.
pub open spec fn list_action_step(a: App, b: App, c: Seq<CommandView>, k: KeyInput) -> bool {
    if is_char(k, 'c') {
        create_opened(a, b, c)
    } else if is_char(k, 'Q') {
        qr_opened(a, b, Some(QrTargetView::Workspace)) && c.len() == 0
    } else if is_char(k, 'o') {
        qr_opened(a, b, None) && c.len() == 0
    } else if is_char(k, 'i') {
        import_requested(a, b, c)
    } else if is_char(k, 'r') {
        reloaded(a, b, c, "Refreshing\u{2026}"@, a.list.page)
    } else if is_char(k, 'n') {
        if a.list.page < a.list.total_pages {
            reloaded(a, b, c, "Loading\u{2026}"@, (a.list.page + 1) as i64)
        } else {
            unchanged(a, b, c)
        }
    } else if is_char(k, 'p') {
        if a.list.page > 1 {
            reloaded(a, b, c, "Loading\u{2026}"@, (a.list.page - 1) as i64)
        } else {
            unchanged(a, b, c)
        }
    } else {
        unchanged(a, b, c)
    }
}

/// One key on the link list screen: the store prompt comes first, then the
/// sort picker, then the search line, then the list.
pub open spec fn list_step(a: App, b: App, c: Seq<CommandView>, k: KeyInput) -> bool {
    if a.session.store_prompt {
        store_step(a, b, c, k)
    } else if a.list.sort_open {
        sort_step(a, b, c, k)
    } else if a.list.searching {
        search_step(a, b, c, k)
    } else {
        list_main_step(a, b, c, k)
    }
}

/// Every key on the list keeps the state invariant.
proof fn lemma_list_wf(a: App, b: App, c: Seq<CommandView>, k: KeyInput)
    requires
        app_wf(a),
        list_step(a, b, c, k),
    ensures
        app_wf(b),
{
    reveal(key_stored);
    reveal(sort_applied);
    reveal(search_applied);
    reveal(import_requested);
    reveal(detail_opened);
    reveal(create_opened);
    reveal(qr_opened);
    reveal(reloaded);
    if a.session.store_prompt && (is_char(k, 's') || is_char(k, 'y')) {
        lemma_with_key_len(a);
    }
}

proof fn lemma_with_key_len(a: App)
    ensures
        ws_index(cached_views(a.session.cached_workspaces@), a.session.workspace_id) matches Some(i) ==> with_key(
            cached_views(a.session.cached_workspaces@),
            i,
            a.session.current_key@,
        ).len() == a.session.cached_workspaces@.len(),
{
    lemma_ws_index(cached_views(a.session.cached_workspaces@), a.session.workspace_id);
}

fn copy_views_update(ws: &mut Vec<CachedWorkspace>, i: usize, key: String)
    requires
        i < old(ws)@.len(),
    ensures
        final(ws)@.len() == old(ws)@.len(),
        cached_views(final(ws)@) == with_key(cached_views(old(ws)@), i as int, key@),
{
    let ghost before = cached_views(ws@);
    let mut w = ws[i].duplicate();
    w.api_key = Some(key);
    ws.set(i, w);
    assert(cached_views(ws@) =~= with_key(before, i as int, key@));
}

fn request_import() -> (r: Vec<Command>)
    ensures
        forall|a: App| import_requested(a, a, cmds_view(r@)),
{
    reveal(import_requested);
    let mut r: Vec<Command> = Vec::new();
    r.push(Command::OpenImport);
    reveal(command_view);
    assert(cmds_view(r@) =~= seq![CommandView::OpenImport]);
    r
}

/// The name the active workspace goes by: its cached name, else
/// `workspace {id}`.
pub open spec fn active_workspace_name(a: App) -> Seq<char> {
    let ws = cached_views(a.session.cached_workspaces@);
    match ws_index(ws, a.session.workspace_id) {
        Some(i) => ws[i].name,
        None => "workspace "@ + crate::text::int_decimal(a.session.workspace_id as int),
    }
}

/// The title of the link table: the workspace, the sort field and
/// direction, the page out of the pages, the number of links, and the
/// search when there is one.
pub open spec fn list_title_spec(a: App) -> Seq<char> {
    active_workspace_name(a) + " \u{b7} Links \u{b7} Sorted by: "@ + sort_label_spec(a.list.sort_field) + " "@
        + (if a.list.sort_desc { "\u{2193}"@ } else { "\u{2191}"@ }) + " \u{b7} page "@
        + int_decimal(a.list.page as int) + "/"@ + int_decimal(a.list.total_pages as int) + " \u{b7} "@
        + int_decimal(a.list.total_entries as int) + " total"@ + (if a.list.search@.len() == 0 {
        Seq::empty()
    } else {
        " \u{b7} search \u{201c}"@ + a.list.search@ + "\u{201d}"@
    })
}

impl App {
    /// The name the active workspace goes by (see [`active_workspace_name`]).
    pub fn workspace_label(&self) -> (r: String)
        ensures
            r@ == active_workspace_name(*self),
    {
        match find_workspace(&self.session.cached_workspaces, self.session.workspace_id) {
            Some(i) => {
                proof {
                    lemma_ws_index(cached_views(self.session.cached_workspaces@), self.session.workspace_id);
                }
                self.session.cached_workspaces[i].name.clone()
            },
            None => {
                let mut s = to_owned_string("workspace ");
                crate::text::push_i64(&mut s, self.session.workspace_id);
                s
            },
        }
    }

    /// The question of the store prompt, naming the active workspace.
    pub fn store_prompt_question(&self) -> (r: String)
        ensures
            r@ == "Save this API key for \u{201c}"@ + active_workspace_name(*self)
                + "\u{201d} so you won't re-enter it?"@,
    {
        let mut s = to_owned_string("Save this API key for \u{201c}");
        let name = self.workspace_label();
        crate::text::push_str(&mut s, name.as_str());
        crate::text::push_str(&mut s, "\u{201d} so you won't re-enter it?");
        s
    }

    /// The title of the link table: workspace, sort, page, total and the
    /// active search.
    pub fn list_title(&self) -> (r: String)
        ensures
            r@ == list_title_spec(*self),
    {
        let mut s = self.workspace_label();
        push_str(&mut s, " \u{b7} Links \u{b7} Sorted by: ");
        push_str(&mut s, self.list.sort_field.label());
        push_str(&mut s, " ");
        push_str(&mut s, if self.list.sort_desc { "\u{2193}" } else { "\u{2191}" });
        push_str(&mut s, " \u{b7} page ");
        push_i64(&mut s, self.list.page);
        push_str(&mut s, "/");
        push_i64(&mut s, self.list.total_pages);
        push_str(&mut s, " \u{b7} ");
        push_i64(&mut s, self.list.total_entries);
        push_str(&mut s, " total");
        if self.list.search.unicode_len() > 0 {
            push_str(&mut s, " \u{b7} search \u{201c}");
            push_str(&mut s, self.list.search.as_str());
            push_str(&mut s, "\u{201d}");
        }
        s
    }

    fn apply_sort(&mut self) -> (r: Vec<Command>)
        requires
            old(self).list.sort_cursor < 6,
        ensures
            sort_applied(*old(self), *final(self), cmds_view(r@)),
    {
        reveal(sort_applied);
        reveal(reloaded);
        self.list.sort_field = SortField::at(self.list.sort_cursor);
        self.list.sort_desc = self.list.sort_cursor_desc;
        self.list.sort_open = false;
        self.list.page = 1;
        self.reload("Sorting\u{2026}", 1)
    }

    fn apply_search(&mut self) -> (r: Vec<Command>)
        ensures
            search_applied(*old(self), *final(self), cmds_view(r@)),
    {
        reveal(search_applied);
        reveal(reloaded);
        self.list.search = trim_string(self.list.search_input.value());
        self.list.searching = false;
        self.list.page = 1;
        self.reload("Searching\u{2026}", 1)
    }

    /// The highlighted link, if any.
    pub fn selected_link(&self) -> (r: Option<&LinkSummary>)
        ensures
            match r {
                Some(l) => selected_link_spec(*self) == Some(*l),
                None => selected_link_spec(*self) is None,
            },
    {
        match self.list.selected {
            Some(i) => if i < self.list.links.len() {
                Some(&self.list.links[i])
            } else {
                None
            },
            None => None,
        }
    }

    /// Store the session's key on the active workspace, when it is cached,
    /// and save the cache.
    pub(crate) fn store_active_key(&mut self) -> (r: Vec<Command>)
        ensures
            key_stored(*old(self), *final(self), cmds_view(r@)),
            final(self).session.store_prompt == old(self).session.store_prompt,
            final(self).status == old(self).status,
    {
        reveal(key_stored);
        match find_workspace(&self.session.cached_workspaces, self.session.workspace_id) {
            Some(i) => {
                copy_views_update(&mut self.session.cached_workspaces, i, self.session.current_key.clone());
                let mut r: Vec<Command> = Vec::new();
                r.push(Command::SaveWorkspaces { workspaces: crate::app::copy_workspaces(&self.session.cached_workspaces) });
                reveal(command_view);
                assert(cmds_view(r@) =~= seq![
                    CommandView::SaveWorkspaces { workspaces: cached_views(self.session.cached_workspaces@) },
                ]);
                r
            },
            None => no_commands(),
        }
    }

    /// Answer the store prompt; with `store`, store the session's key on the
    /// active workspace and save the cache.
    pub(crate) fn answer_store_prompt(&mut self, store: bool) -> (r: Vec<Command>)
        ensures
            store_answered(*old(self), *final(self), cmds_view(r@), store),
    {
        let r = if store {
            self.store_active_key()
        } else {
            no_commands()
        };
        self.session.store_prompt = false;
        self.status = if store {
            to_owned_string("API key stored for this workspace")
        } else {
            to_owned_string("API key not stored")
        };
        r
    }

    fn on_store_prompt_key(&mut self, key: KeyInput) -> (r: Vec<Command>)
        ensures
            store_step(*old(self), *final(self), cmds_view(r@), key),
    {
        match key.code {
            KeyCode::Char('s') | KeyCode::Char('y') => self.answer_store_prompt(true),
            KeyCode::Char('n') | KeyCode::Esc => self.answer_store_prompt(false),
            _ => no_commands(),
        }
    }

    fn on_sort_key(&mut self, key: KeyInput) -> (r: Vec<Command>)
        requires
            old(self).list.sort_cursor < 6,
        ensures
            sort_step(*old(self), *final(self), cmds_view(r@), key),
    {
        match key.code {
            KeyCode::Esc => {
                self.list.sort_open = false;
                no_commands()
            },
            KeyCode::Up | KeyCode::Char('k') => {
                self.list.sort_cursor = if self.list.sort_cursor == 0 { 0 } else { self.list.sort_cursor - 1 };
                no_commands()
            },
            KeyCode::Down | KeyCode::Char('j') => {
                self.list.sort_cursor = if self.list.sort_cursor < 5 { self.list.sort_cursor + 1 } else { 5 };
                no_commands()
            },
            KeyCode::Left | KeyCode::Right | KeyCode::Char('h') | KeyCode::Char('l') | KeyCode::Char('d')
            | KeyCode::Tab => {
                self.list.sort_cursor_desc = !self.list.sort_cursor_desc;
                no_commands()
            },
            KeyCode::Enter => self.apply_sort(),
            _ => no_commands(),
        }
    }

    fn on_search_key(&mut self, key: KeyInput) -> (r: Vec<Command>)
        ensures
            search_step(*old(self), *final(self), cmds_view(r@), key),
    {
        match key.code {
            KeyCode::Enter => self.apply_search(),
            KeyCode::Esc => {
                self.list.searching = false;
                self.list.search_input = TextInput::empty();
                no_commands()
            },
            _ => {
                match key.edit {
                    Some(req) => self.list.search_input.handle(req),
                    None => {},
                }
                no_commands()
            },
        }
    }

    fn select_next(&mut self)
        ensures
            old(self).list.links@.len() == 0 ==> *final(self) == *old(self),
            old(self).list.links@.len() > 0 ==> *final(self) == (App { list: LinkList { selected: next_row(old(self).list.selected, old(self).list.links@.len()), ..old(self).list }, ..*old(self) }),
    {
        if self.list.links.len() == 0 {
            return;
        }
        let i = match self.list.selected {
            Some(i) => if i < self.list.links.len() - 1 {
                i + 1
            } else {
                self.list.links.len() - 1
            },
            None => 0,
        };
        self.list.selected = Some(i);
    }

    fn select_prev(&mut self)
        ensures
            old(self).list.links@.len() == 0 ==> *final(self) == *old(self),
            old(self).list.links@.len() > 0 ==> *final(self) == (App { list: LinkList { selected: prev_row(old(self).list.selected), ..old(self).list }, ..*old(self) }),
    {
        if self.list.links.len() == 0 {
            return;
        }
        let i = match self.list.selected {
            Some(i) => i,
            None => 0,
        };
        self.list.selected = Some(if i == 0 { 0 } else { i - 1 });
    }

    fn open_detail(&mut self) -> (r: Vec<Command>)
        ensures
            detail_opened(*old(self), *final(self), cmds_view(r@)),
    {
        reveal(detail_opened);
        let id = match self.selected_link() {
            Some(link) => match link.id {
                Some(id) => id,
                None => return no_commands(),
            },
            None => return no_commands(),
        };
        if !self.session.connected {
            return no_commands();
        }
        self.screen = Screen::LinkDetail;
        self.editor = None;
        self.status = to_owned_string("Loading link details\u{2026}");
        self.loading = true;
        let mut r: Vec<Command> = Vec::new();
        r.push(Command::LoadLink { id, workspace_id: self.session.workspace_id });
        reveal(command_view);
        assert(cmds_view(r@) =~= seq![CommandView::LoadLink { id, workspace_id: self.session.workspace_id }]);
        r
    }

    fn open_create(&mut self) -> (r: Vec<Command>)
        ensures
            create_opened(*old(self), *final(self), cmds_view(r@)),
    {
        reveal(create_opened);
        self.create_form = CreateForm::new();
        self.screen = Screen::CreateLink;
        self.status = to_owned_string("New link \u{2014} fill in the URL and press Enter on Submit");
        if self.domains.len() == 0 {
            self.load_domains()
        } else {
            no_commands()
        }
    }

    fn on_list_main_key(&mut self, key: KeyInput) -> (r: Vec<Command>)
        ensures
            list_main_step(*old(self), *final(self), cmds_view(r@), key),
    {
        match key.code {
            KeyCode::Char('q') => {
                self.should_quit = true;
                no_commands()
            },
            KeyCode::Esc => {
                self.screen = Screen::WorkspacePicker;
                self.session.picker_cursor = 0;
                no_commands()
            },
            KeyCode::Down | KeyCode::Char('j') => {
                self.select_next();
                no_commands()
            },
            KeyCode::Up | KeyCode::Char('k') => {
                self.select_prev();
                no_commands()
            },
            KeyCode::Enter => self.open_detail(),
            KeyCode::Char('/') => {
                self.list.searching = true;
                self.list.search_input = TextInput::new(self.list.search.clone());
                no_commands()
            },
            KeyCode::Char('s') => {
                self.list.sort_open = true;
                self.list.sort_cursor = self.list.sort_field.position();
                self.list.sort_cursor_desc = self.list.sort_desc;
                no_commands()
            },
            _ => self.on_list_action_key(key),
        }
    }

    fn on_list_action_key(&mut self, key: KeyInput) -> (r: Vec<Command>)
        ensures
            list_action_step(*old(self), *final(self), cmds_view(r@), key),
    {
        match key.code {
            KeyCode::Char('c') => self.open_create(),
            KeyCode::Char('Q') => {
                self.open_qr_settings(Some(QrExportTarget::Workspace));
                no_commands()
            },
            KeyCode::Char('o') => {
                self.open_qr_settings(None);
                no_commands()
            },
            KeyCode::Char('i') => request_import(),
            KeyCode::Char('r') => {
                let page = self.list.page;
                self.reload("Refreshing\u{2026}", page)
            },
            KeyCode::Char('n') => {
                // Request the next page; the counter only moves once it loads.
                if self.list.page < self.list.total_pages {
                    let page = self.list.page + 1;
                    self.reload("Loading\u{2026}", page)
                } else {
                    no_commands()
                }
            },
            KeyCode::Char('p') => {
                if self.list.page > 1 {
                    let page = self.list.page - 1;
                    self.reload("Loading\u{2026}", page)
                } else {
                    no_commands()
                }
            },
            _ => no_commands(),
        }
    }

    /// One key on the link list screen.
    pub(crate) fn on_list_key(&mut self, key: KeyInput) -> (r: Vec<Command>)
        requires
            app_wf(*old(self)),
        ensures
            list_step(*old(self), *final(self), cmds_view(r@), key),
            app_wf(*final(self)),
    {
        let ghost a = *self;
        let r = self.on_list_key_inner(key);
        proof {
            lemma_list_wf(a, *self, cmds_view(r@), key);
        }
        r
    }

    fn on_list_key_inner(&mut self, key: KeyInput) -> (r: Vec<Command>)
        requires
            app_wf(*old(self)),
        ensures
            list_step(*old(self), *final(self), cmds_view(r@), key),
    {
        if self.session.store_prompt {
            self.on_store_prompt_key(key)
        } else if self.list.sort_open {
            self.on_sort_key(key)
        } else if self.list.searching {
            self.on_search_key(key)
        } else {
            self.on_list_main_key(key)
        }
    }
}

} // verus!
