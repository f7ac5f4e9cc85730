//! The workspace picker and the sign-in prompt.

use vstd::prelude::*;

use crate::app::{
    Session, LinkList, api_field_spec, cached_view, cached_views, cmds_view, copy_workspaces,
    edited, fresh_input, is_char, command_view, no_commands, opt_cached_view, sort_dir,
    sort_dir_spec, unchanged, App, AuthState, CachedView, CachedWorkspace, Command, CommandView,
    Screen, app_wf,
};
use crate::input::{EditRequest, KeyCode, KeyInput, TextInput};
use crate::text::{
    int_decimal, parse_i64, parse_i64_spec, to_owned_string, trim, trim_string, i64_to_string,
};

verus! {

/// `p` is the sign-in prompt for the cached workspace `ws` (locked to it,
/// its stored key, else `env_key`, prefilled), or, for `None`, the prompt
/// asking for key and workspace id prefilled from `env_key` and `env_ws`.
pub open spec fn auth_prompt(p: AuthState, ws: Option<CachedView>, env_key: Seq<char>, env_ws: Seq<char>) -> bool {
    &&& p.error is None
    &&& p.focus == 0
    &&& match ws {
        Some(w) => {
            &&& p.ws_locked
            &&& p.ws_name@ == w.name
            &&& fresh_input(p.workspace_id, int_decimal(w.id as int))
            &&& fresh_input(
                p.api_key,
                match w.api_key {
                    Some(k) => k,
                    None => env_key,
                },
            )
        },
        None => {
            &&& !p.ws_locked
            &&& p.ws_name@.len() == 0
            &&& fresh_input(p.workspace_id, env_ws)
            &&& fresh_input(p.api_key, env_key)
        },
    }
}

/// `b` is `a` after moving to the sign-in prompt for `ws`.
#[verifier::opaque]
pub open spec fn start_auth_post(a: App, b: App, ws: Option<CachedView>) -> bool {
    let id = match ws {
        Some(w) => w.id,
        None => a.session.workspace_id,
    };
    &&& b == App { screen: Screen::Auth, auth: b.auth, session: Session { workspace_id: id, ..a.session }, ..a }
    &&& auth_prompt(b.auth, ws, a.session.env_key@, a.session.env_ws@)
}

/// `b` is `a` after removing the workspace under the picker cursor from the
/// cache: the cursor stays on the same row, or on the last one, and the
/// shortened cache is saved.
#[verifier::opaque]
pub open spec fn forget_post(a: App, b: App, c: Seq<CommandView>) -> bool {
    let cur = a.session.picker_cursor;
    let rest = a.session.cached_workspaces@.remove(cur as int);
    &&& b == App { session: Session { cached_workspaces: b.session.cached_workspaces, picker_cursor: b.session.picker_cursor, ..a.session }, ..a }
    &&& b.session.cached_workspaces@ == rest
    &&& b.session.picker_cursor == if rest.len() == 0 {
        0
    } else if cur < rest.len() - 1 {
        cur as int
    } else {
        rest.len() - 1
    }
    &&& c == seq![CommandView::SaveWorkspaces { workspaces: cached_views(rest) }]
}

/// One key on the workspace picker.
pub open spec fn picker_step(a: App, b: App, c: Seq<CommandView>, k: KeyInput) -> bool {
    let n = a.session.cached_workspaces@.len();
    let cur = a.session.picker_cursor;
    if k.code == KeyCode::Esc || is_char(k, 'q') {
        b == App { should_quit: true, ..a } && c.len() == 0
    } else if k.code == KeyCode::Up || is_char(k, 'k') {
        b == App { session: Session { picker_cursor: if cur == 0 { 0 } else { (cur - 1) as usize }, ..a.session }, ..a } && c.len() == 0
    } else if k.code == KeyCode::Down || is_char(k, 'j') {
        b == App { session: Session { picker_cursor: if cur < n { (cur + 1) as usize } else { n as usize }, ..a.session }, ..a }
            && c.len() == 0
    } else if is_char(k, 'd') && cur < n {
        forget_post(a, b, c)
    } else if k.code == KeyCode::Enter {
        &&& c.len() == 0
        &&& start_auth_post(
            a,
            b,
            if cur >= n {
                None
            } else {
                Some(cached_view(a.session.cached_workspaces@[cur as int]))
            },
        )
    } else {
        unchanged(a, b, c)
    }
}

/// `b` is `a` after starting a session with `key` on workspace `ws`: the
/// link list is shown, the first page, the domains and the workspaces are
/// requested, and the workspace awaits verification by the first page.
pub open spec fn session_started(a: App, b: App, c: Seq<CommandView>, key: Seq<char>, ws: i64) -> bool {
    &&& b == App { auth: AuthState { error: None, ..a.auth }, screen: Screen::LinkList, status: b.status, loading: true, session: Session { connected: true, workspace_id: ws, current_key: b.session.current_key, pending_ws_name: None, verify_pending: true, ..a.session }, list: LinkList { page: 1, ..a.list }, ..a }
    &&& b.session.current_key@ == key
    &&& b.status@ == "Loading links\u{2026}"@
    &&& c == seq![
        CommandView::Connect { api_key: key },
        CommandView::LoadLinks {
            workspace_id: ws,
            page: 1,
            search: a.list.search@,
            sort_by: api_field_spec(a.list.sort_field),
            sort_dir: sort_dir_spec(a.list.sort_desc),
        },
        CommandView::LoadDomains { workspace_id: ws },
        CommandView::LoadWorkspaces,
    ]
}

/// `b` is `a` with only the sign-in error changed, to `msg`; no command.
pub open spec fn auth_error_set(a: App, b: App, c: Seq<CommandView>, msg: Seq<char>) -> bool {
    &&& b == App { auth: AuthState { error: b.auth.error, ..a.auth }, ..a }
    &&& b.auth.error.deep_view() == Some(msg)
    &&& c.len() == 0
}

/// `b` is `a` after `Enter` on the sign-in prompt: the trimmed key must be
/// non-empty and, unless the workspace is locked, the trimmed workspace id
/// must parse as an `i64`.
#[verifier::opaque]
pub open spec fn try_auth_post(a: App, b: App, c: Seq<CommandView>) -> bool {
    let key = trim(a.auth.api_key.text());
    let parsed = parse_i64_spec(trim(a.auth.workspace_id.text()));
    if key.len() == 0 {
        auth_error_set(a, b, c, "API key is required"@)
    } else if !a.auth.ws_locked && parsed is None {
        auth_error_set(a, b, c, "Workspace ID must be a number"@)
    } else {
        session_started(a, b, c, key, if a.auth.ws_locked { a.session.workspace_id } else { parsed->0 })
    }
}

/// The prompt's focus after moving to the next or previous field, cycling
/// over its fields: the key alone when the workspace is locked, else key
/// and id (so either move reaches the other one).
pub open spec fn focus_after(p: AuthState) -> usize {
    if p.ws_locked || p.focus != 0 {
        0
    } else {
        1
    }
}

proof fn lemma_cycle(focus: usize, fields: usize)
    requires
        focus < 2,
        fields == 1 || fields == 2,
    ensures
        (focus + 1) % (fields as int) == if fields == 1 || focus != 0 { 0int } else { 1int },
        (focus + fields - 1) % (fields as int) == if fields == 1 || focus != 0 { 0int } else { 1int },
{
    if fields == 1 {
        assert((focus + 1) % 1 == 0) by (nonlinear_arith);
        assert((focus + 1 - 1) % 1 == 0) by (nonlinear_arith);
    } else if focus == 0 {
        assert((0 + 1) % 2 == 1int);
        assert((0 + 2 - 1) % 2 == 1int);
    } else {
        assert((1 + 1) % 2 == 0int);
        assert((1 + 2 - 1) % 2 == 0int);
    }
}

/// One key on the sign-in prompt.
pub open spec fn auth_step(a: App, b: App, c: Seq<CommandView>, k: KeyInput) -> bool {
    if k.code == KeyCode::Esc {
        c.len() == 0 && if a.session.cached_workspaces@.len() == 0 {
            b == App { should_quit: true, ..a }
        } else {
            b == App { screen: Screen::WorkspacePicker, ..a }
        }
    } else if k.code == KeyCode::Tab || k.code == KeyCode::Down {
        b == App { auth: AuthState { focus: focus_after(a.auth), ..a.auth }, ..a } && c.len() == 0
    } else if k.code == KeyCode::Up || k.code == KeyCode::BackTab {
        b == App { auth: AuthState { focus: focus_after(a.auth), ..a.auth }, ..a } && c.len() == 0
    } else if k.code == KeyCode::Enter {
        try_auth_post(a, b, c)
    } else {
        match k.edit {
            Some(req) => {
                &&& c.len() == 0
                &&& if a.auth.focus == 0 {
                    b == App { auth: AuthState { api_key: b.auth.api_key, ..a.auth }, ..a }
                        && edited(a.auth.api_key, b.auth.api_key, req)
                } else {
                    b == App { auth: AuthState { workspace_id: b.auth.workspace_id, ..a.auth }, ..a }
                        && edited(a.auth.workspace_id, b.auth.workspace_id, req)
                }
            },
            None => unchanged(a, b, c),
        }
    }
}

fn prompt_for(ws: Option<CachedWorkspace>, env_key: &String, env_ws: &String) -> (p: AuthState)
    ensures
        auth_prompt(p, opt_cached_view(ws), env_key@, env_ws@),
{
    match ws {
        Some(w) => {
            let key = match w.api_key {
                Some(k) => k,
                None => env_key.clone(),
            };
            AuthState {
                api_key: TextInput::new(key),
                workspace_id: TextInput::new(i64_to_string(w.id)),
                focus: 0,
                error: None,
                ws_locked: true,
                ws_name: w.name,
            }
        },
        None => AuthState {
            api_key: TextInput::new(env_key.clone()),
            workspace_id: TextInput::new(env_ws.clone()),
            focus: 0,
            error: None,
            ws_locked: false,
            ws_name: String::new(),
        },
    }
}

impl App {
    pub(crate) fn start_auth(&mut self, ws: Option<CachedWorkspace>)
        requires
            app_wf(*old(self)),
        ensures
            app_wf(*final(self)),
            start_auth_post(*old(self), *final(self), opt_cached_view(ws)),
    {
        let id = match &ws {
            Some(w) => w.id,
            None => self.session.workspace_id,
        };
        reveal(start_auth_post);
        let p = prompt_for(ws, &self.session.env_key, &self.session.env_ws);
        self.auth = p;
        self.session.workspace_id = id;
        self.screen = Screen::Auth;
    }

    /// Remove the workspace under the picker cursor from the cache.
    pub(crate) fn forget_selected_workspace(&mut self) -> (r: Vec<Command>)
        requires
            app_wf(*old(self)),
            old(self).session.picker_cursor < old(self).session.cached_workspaces@.len(),
        ensures
            app_wf(*final(self)),
            forget_post(*old(self), *final(self), cmds_view(r@)),
    {
        reveal(forget_post);
        let cur = self.session.picker_cursor;
        self.session.cached_workspaces.remove(cur);
        let m = self.session.cached_workspaces.len();
        self.session.picker_cursor = if m == 0 {
            0
        } else if cur < m - 1 {
            cur
        } else {
            m - 1
        };
        let mut r: Vec<Command> = Vec::new();
        r.push(Command::SaveWorkspaces { workspaces: copy_workspaces(&self.session.cached_workspaces) });
        reveal(command_view);
        assert(cmds_view(r@) =~= seq![
            CommandView::SaveWorkspaces { workspaces: cached_views(self.session.cached_workspaces@) },
        ]);
        r
    }

    /// Sign in to the workspace under the picker cursor, or to a new one on
    /// the trailing "add" row.
    pub(crate) fn picker_enter(&mut self)
        requires
            app_wf(*old(self)),
        ensures
            app_wf(*final(self)),
            start_auth_post(
                *old(self),
                *final(self),
                if old(self).session.picker_cursor >= old(self).session.cached_workspaces@.len() {
                    None
                } else {
                    Some(cached_view(old(self).session.cached_workspaces@[old(self).session.picker_cursor as int]))
                },
            ),
    {
        if self.session.picker_cursor >= self.session.cached_workspaces.len() {
            self.start_auth(None);
        } else {
            let w = self.session.cached_workspaces[self.session.picker_cursor].duplicate();
            self.start_auth(Some(w));
        }
    }

    pub(crate) fn on_picker_key(&mut self, key: KeyInput) -> (r: Vec<Command>)
        requires
            app_wf(*old(self)),
        ensures
            picker_step(*old(self), *final(self), cmds_view(r@), key),
            app_wf(*final(self)),
    {
        let n = self.session.cached_workspaces.len();
        match key.code {
            KeyCode::Esc | KeyCode::Char('q') => {
                self.should_quit = true;
                no_commands()
            },
            KeyCode::Up | KeyCode::Char('k') => {
                self.session.picker_cursor = if self.session.picker_cursor == 0 { 0 } else { self.session.picker_cursor - 1 };
                no_commands()
            },
            KeyCode::Down | KeyCode::Char('j') => {
                self.session.picker_cursor = if self.session.picker_cursor < n { self.session.picker_cursor + 1 } else { n };
                no_commands()
            },
            KeyCode::Char('d') => {
                if self.session.picker_cursor < n {
                    self.forget_selected_workspace()
                } else {
                    no_commands()
                }
            },
            KeyCode::Enter => {
                self.picker_enter();
                no_commands()
            },
            _ => no_commands(),
        }
    }

    pub(crate) fn begin_session(&mut self, key: String, ws_id: i64) -> (r: Vec<Command>)
        ensures
            session_started(*old(self), *final(self), cmds_view(r@), key@, ws_id),
    {
        let mut r: Vec<Command> = Vec::new();
        self.auth.error = None;
        self.session.connected = true;
        self.session.workspace_id = ws_id;
        r.push(Command::Connect { api_key: key.clone() });
        self.session.current_key = key;
        self.session.pending_ws_name = None;
        self.session.verify_pending = true;
        self.screen = Screen::LinkList;
        self.list.page = 1;
        self.status = to_owned_string("Loading links\u{2026}");
        self.loading = true;
        r.push(Command::LoadLinks {
            workspace_id: ws_id,
            page: 1,
            search: self.list.search.clone(),
            sort_by: self.list.sort_field.api_field(),
            sort_dir: sort_dir(self.list.sort_desc),
        });
        r.push(Command::LoadDomains { workspace_id: ws_id });
        r.push(Command::LoadWorkspaces);
        reveal(command_view);
        assert(cmds_view(r@) =~= seq![
            CommandView::Connect { api_key: self.session.current_key@ },
            CommandView::LoadLinks {
                workspace_id: ws_id,
                page: 1,
                search: self.list.search@,
                sort_by: api_field_spec(self.list.sort_field),
                sort_dir: sort_dir_spec(self.list.sort_desc),
            },
            CommandView::LoadDomains { workspace_id: ws_id },
            CommandView::LoadWorkspaces,
        ]);
        r
    }

    pub(crate) fn set_auth_error(&mut self, msg: &str) -> (r: Vec<Command>)
        ensures
            auth_error_set(*old(self), *final(self), cmds_view(r@), msg@),
    {
        self.auth.error = Some(to_owned_string(msg));
        let r: Vec<Command> = Vec::new();
        assert(cmds_view(r@) =~= Seq::<CommandView>::empty());
        r
    }

    pub(crate) fn try_authenticate(&mut self) -> (r: Vec<Command>)
        requires
            app_wf(*old(self)),
        ensures
            app_wf(*final(self)),
            try_auth_post(*old(self), *final(self), cmds_view(r@)),
    {
        reveal(try_auth_post);
        let key = trim_string(self.auth.api_key.value());
        if key.unicode_len() == 0 {
            return self.set_auth_error("API key is required");
        }
        let ws_id = if self.auth.ws_locked {
            self.session.workspace_id
        } else {
            let ws = trim_string(self.auth.workspace_id.value());
            match parse_i64(ws.as_str()) {
                Some(id) => id,
                None => {
                    return self.set_auth_error("Workspace ID must be a number");
                },
            }
        };
        self.begin_session(key, ws_id)
    }

    /// Apply an editing request to the focused sign-in field.
    pub(crate) fn auth_edit(&mut self, req: EditRequest)
        ensures
            old(self).auth.focus == 0 ==> *final(self) == (App { auth: AuthState { api_key: final(self).auth.api_key, ..old(self).auth }, ..*old(self) }) && edited(old(self).auth.api_key, final(self).auth.api_key, req),
            old(self).auth.focus != 0 ==> *final(self) == (App { auth: AuthState { workspace_id: final(self).auth.workspace_id, ..old(self).auth }, ..*old(self) }) && edited(old(self).auth.workspace_id, final(self).auth.workspace_id, req),
    {
        if self.auth.focus == 0 {
            self.auth.api_key.handle(req);
        } else {
            self.auth.workspace_id.handle(req);
        }
    }

    pub(crate) fn on_auth_key(&mut self, key: KeyInput) -> (r: Vec<Command>)
        requires
            app_wf(*old(self)),
        ensures
            auth_step(*old(self), *final(self), cmds_view(r@), key),
            app_wf(*final(self)),
    {
        // Number of focusable fields: 1 when the workspace is locked, else 2.
        let fields: usize = if self.auth.ws_locked { 1 } else { 2 };
        match key.code {
            KeyCode::Esc => {
                if self.session.cached_workspaces.len() == 0 {
                    self.should_quit = true;
                } else {
                    self.screen = Screen::WorkspacePicker;
                }
                no_commands()
            },
            KeyCode::Tab | KeyCode::Down => {
                proof {
                    lemma_cycle(self.auth.focus, fields);
                }
                self.auth.focus = (self.auth.focus + 1) % fields;
                no_commands()
            },
            KeyCode::Up | KeyCode::BackTab => {
                proof {
                    lemma_cycle(self.auth.focus, fields);
                }
                self.auth.focus = (self.auth.focus + fields - 1) % fields;
                no_commands()
            },
            KeyCode::Enter => self.try_authenticate(),
            _ => {
                match key.edit {
                    Some(req) => self.auth_edit(req),
                    None => {},
                }
                no_commands()
            },
        }
    }
}

} // verus!
