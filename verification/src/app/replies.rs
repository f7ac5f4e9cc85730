//! What the state machine does with the results of API work
//! ([`AsyncMsg`]), and the workspace cache it keeps along the way.

use vstd::prelude::*;

use crate::app::detail::detail_left;
use crate::app::list::{find_workspace, lemma_ws_index, ws_index};
use crate::app::qr_dialog::{qr_opened, QrTargetView};
use crate::app::{
    cached_view, cached_views, cmds_view, command_view, copy_workspaces, load_links_spec,
    no_commands, AsyncMsg, App, CachedView, CachedWorkspace, Command, CommandView, LinkList,
    QrExportTarget, QrSingle, Screen, Session,
};
use crate::edit_form::{editor_from, editor_saved, LinkEditor};
use crate::import::{ImportStage, ImportState, NewLink, Progress, Summary};

use crate::models::{clone_opt_string, ListLinksResponse, Workspace};
use crate::text::{
    int_decimal, i64_to_string, nat_decimal, push_i64, push_str, push_u64, str_eq, to_owned_string,
};

verus! {

/// Keeps the cached workspaces whose id is not `id`.
pub open spec fn other_ws(id: i64) -> spec_fn(CachedView) -> bool {
    |w: CachedView| w.id != id
}

/// The cache after using workspace `id`: it moves to the front, named
/// `hint` when known, else by its cached name, else `Workspace {id}`, with
/// any stored key kept.
pub open spec fn recorded_cache(ws: Seq<CachedView>, id: i64, hint: Option<Seq<char>>) -> Seq<CachedView> {
    let existing = match ws_index(ws, id) {
        Some(i) => Some(ws[i]),
        None => None,
    };
    let name = match hint {
        Some(n) => n,
        None => match existing {
            Some(w) => w.name,
            None => "Workspace "@ + int_decimal(id as int),
        },
    };
    let key = match existing {
        Some(w) => w.api_key,
        None => None,
    };
    seq![CachedView { id, name, api_key: key }] + ws.filter(other_ws(id))
}

/// Whether the cache holds `key` for workspace `id`.
pub open spec fn key_stored_for(ws: Seq<CachedView>, id: i64, key: Seq<char>) -> bool {
    match ws_index(ws, id) {
        Some(i) => ws[i].api_key == Some(key),
        None => false,
    }
}

/// `b` is `a` after recording the use of the active workspace under
/// `hint`: the cache changes as [`recorded_cache`] says and is saved.
#[verifier::opaque]
pub open spec fn workspace_recorded(a: App, b: App, c: Seq<CommandView>, hint: Option<Seq<char>>) -> bool {
    let cache = recorded_cache(cached_views(a.session.cached_workspaces@), a.session.workspace_id, hint);
    &&& b == App { session: Session { cached_workspaces: b.session.cached_workspaces, ..a.session }, ..a }
    &&& cached_views(b.session.cached_workspaces@) == cache
    &&& c == seq![CommandView::SaveWorkspaces { workspaces: cache }]
}

/// The total number of pages shown: at least one.
pub open spec fn shown_pages(resp: ListLinksResponse) -> i64 {
    if resp.total_pages > 1 {
        resp.total_pages
    } else {
        1
    }
}

/// The page shown after a load: the one reported, when it is positive.
pub open spec fn shown_page(a: App, resp: ListLinksResponse) -> i64 {
    if resp.page_number > 0 {
        resp.page_number
    } else {
        a.list.page
    }
}

/// The highlighted row after a load: kept when still on the page (else the
/// last row), the first when none was; none on an empty page.
pub open spec fn kept_row(sel: Option<usize>, n: nat) -> Option<usize> {
    if n == 0 {
        None
    } else {
        let i: int = match sel {
            Some(i) => i as int,
            None => 0,
        };
        Some(if i < n - 1 { i as usize } else { (n - 1) as usize })
    }
}

/// `b` is `a` with the loaded page `resp` shown.
pub open spec fn page_shown(a: App, b: App, resp: ListLinksResponse) -> bool {
    let page = shown_page(a, resp);
    let pages = shown_pages(resp);
    &&& b == App {
        list: LinkList {
            links: resp.links,
            selected: kept_row(a.list.selected, resp.links@.len()),
            page,
            total_pages: pages,
            total_entries: resp.total_entries,
            ..a.list
        },
        loading: false,
        status: b.status,
        ..a
    }
    &&& b.status@ == int_decimal(resp.total_entries as int) + " links (page "@ + int_decimal(page as int) + "/"@
        + int_decimal(pages as int) + ")"@
}

/// `b` is `a` after a page of links arrived. The first page after signing
/// in also verifies the workspace: it is recorded in the cache (under the
/// name fetched meanwhile, if any), and storing the key is offered unless
/// the key is stored for it already.
#[verifier::opaque]
pub open spec fn links_loaded(a: App, b: App, c: Seq<CommandView>, resp: ListLinksResponse) -> bool {
    if !a.session.verify_pending {
        page_shown(a, b, resp) && c.len() == 0
    } else {
        let id = a.session.workspace_id;
        let cache = recorded_cache(cached_views(a.session.cached_workspaces@), id, a.session.pending_ws_name.deep_view());
        &&& page_shown(a, App { session: a.session, ..b }, resp)
        &&& b.session == Session {
            verify_pending: false,
            pending_ws_name: None,
            cached_workspaces: b.session.cached_workspaces,
            store_prompt: b.session.store_prompt,
            ..a.session
        }
        &&& cached_views(b.session.cached_workspaces@) == cache
        &&& b.session.store_prompt == (a.session.store_prompt || (a.session.current_key@.len() > 0
            && !key_stored_for(cache, id, a.session.current_key@)))
        &&& c == seq![CommandView::SaveWorkspaces { workspaces: cache }]
    }
}

/// The name of workspace `id` in the list: that of the first entry with
/// this id, when it is not empty.
pub open spec fn listed_name(ws: Seq<Workspace>, id: i64) -> Option<Seq<char>>
    decreases ws.len(),
{
    if ws.len() == 0 {
        None
    } else if ws[0].id == id {
        if ws[0].name@.len() > 0 {
            Some(ws[0].name@)
        } else {
            None
        }
    } else {
        listed_name(ws.drop_first(), id)
    }
}

/// `b` is `a` after the workspace list arrived: a cached workspace gets its
/// name refreshed (and moves to the front); otherwise the name waits for
/// the workspace to be verified.
#[verifier::opaque]
pub open spec fn workspaces_loaded(a: App, b: App, c: Seq<CommandView>, ws: Seq<Workspace>) -> bool {
    let name = listed_name(ws, a.session.workspace_id);
    if ws_index(cached_views(a.session.cached_workspaces@), a.session.workspace_id) is Some {
        workspace_recorded(a, b, c, name)
    } else {
        &&& b == App { session: Session { pending_ws_name: b.session.pending_ws_name, ..a.session }, ..a }
        &&& b.session.pending_ws_name.deep_view() == name
        &&& c.len() == 0
    }
}

/// `b` is `a` after a link was created: back on the list, which is
/// reloaded, and the QR dialog offered for the new link when it has a short
/// URL.
#[verifier::opaque]
pub open spec fn link_created(a: App, b: App, c: Seq<CommandView>, new: NewLink) -> bool {
    let back = App { screen: Screen::LinkList, status: b.status, loading: true, ..a };
    &&& b.status@ == "Link created \u{2014} refreshing\u{2026}"@
    &&& c == load_links_spec(a, a.list.page)
    &&& match new.full_url {
        Some(u) if u@.len() > 0 => qr_opened(
            back,
            b,
            Some(QrTargetView::Single { id: new.id, slug: new.slug.deep_view(), name: new.name.deep_view(), url: u@ }),
        ),
        _ => b == back,
    }
}

/// `b` is `a` after the edited link was saved: the editor's values become
/// the saved ones; when leaving was asked for, the screen is left.
#[verifier::opaque]
pub open spec fn link_updated(a: App, b: App, c: Seq<CommandView>) -> bool {
    match a.editor {
        Some(e) => if e.exit_after_save {
            detail_left(App { loading: false, ..a }, b, c)
        } else {
            &&& b == App { loading: false, editor: b.editor, status: b.status, ..a }
            &&& b.editor matches Some(n) && editor_saved(e, n)
            &&& b.status@ == "Link saved \u{2713}"@
            &&& c.len() == 0
        },
        None => {
            &&& b == App { loading: false, status: b.status, ..a }
            &&& b.status@ == "Link saved \u{2713}"@
            &&& c.len() == 0
        },
    }
}

/// The import state with `f` applied to its stage.
pub open spec fn import_with_stage(i: Option<ImportState>, st: ImportStage) -> Option<ImportState> {
    match i {
        Some(s) => Some(ImportState { stage: st, ..s }),
        None => None,
    }
}

/// One result of API work.
pub open spec fn async_step(a: App, b: App, c: Seq<CommandView>, msg: AsyncMsg) -> bool {
    match msg {
        AsyncMsg::LinksLoaded(resp) => links_loaded(a, b, c, resp),
        AsyncMsg::LinkDetailLoaded(v) => {
            &&& b == App { editor: b.editor, loading: false, status: b.status, ..a }
            &&& b.editor matches Some(e) && editor_from(e, v, a.session.workspace_id)
            &&& b.status@.len() == 0
            &&& c.len() == 0
        },
        AsyncMsg::DomainsLoaded(d) => b == App { domains: d, ..a } && c.len() == 0,
        AsyncMsg::WorkspacesLoaded(ws) => workspaces_loaded(a, b, c, ws@),
        AsyncMsg::LinkCreated(new) => link_created(a, b, c, new),
        AsyncMsg::LinkUpdated => link_updated(a, b, c),
        AsyncMsg::QrExported { count, dir } => {
            &&& b == App {
                loading: false,
                status: b.status,
                import: match a.import {
                    Some(s) => match s.stage {
                        ImportStage::Done(sum) => Some(
                            ImportState {
                                stage: ImportStage::Done(Summary { qr_done: Some(count), qr_dir: Some(dir), ..sum }),
                                ..s
                            },
                        ),
                        _ => a.import,
                    },
                    None => None,
                },
                ..a
            }
            &&& b.status@ == "Exported "@ + nat_decimal(count as nat) + " QR code(s) to "@ + dir@ + "/"@
            &&& c.len() == 0
        },
        AsyncMsg::ImportProgress { done, ok, failed } => {
            &&& b == App {
                import: match a.import {
                    Some(s) => match s.stage {
                        ImportStage::Running(p) => Some(
                            ImportState { stage: ImportStage::Running(Progress { done, ok, failed, ..p }), ..s },
                        ),
                        _ => a.import,
                    },
                    None => None,
                },
                ..a
            }
            &&& c.len() == 0
        },
        AsyncMsg::ImportDone { ok, failed, success_path, failure_path, new_links } => {
            &&& b == App {
                loading: false,
                status: b.status,
                import: import_with_stage(
                    a.import,
                    ImportStage::Done(
                        Summary { ok, failed, success_path, failure_path, new_links, qr_done: None, qr_dir: None },
                    ),
                ),
                ..a
            }
            &&& b.status@ == "Imported "@ + nat_decimal(ok as nat) + " link(s), "@ + nat_decimal(failed as nat)
                + " failed"@
            &&& c.len() == 0
        },
        AsyncMsg::Error(e) => {
            &&& b == App { loading: false, auth: b.auth, status: b.status, ..a }
            &&& if a.screen == Screen::Auth {
                b.auth == (crate::app::AuthState { error: b.auth.error, ..a.auth }) && b.auth.error.deep_view()
                    == Some(e@)
            } else {
                b.auth == a.auth
            }
            &&& b.status@ == "Error: "@ + e@
            &&& c.len() == 0
        },
    }
}

/// The cached workspaces other than `id`, in order.
fn others(ws: &Vec<CachedWorkspace>, id: i64, out: &mut Vec<CachedWorkspace>)
    ensures
        cached_views(final(out)@) == cached_views(old(out)@) + cached_views(ws@).filter(other_ws(id)),
{
    let ghost start = cached_views(out@);
    let mut i: usize = 0;
    assert(cached_views(ws@).take(0).filter(other_ws(id)) =~= Seq::<CachedView>::empty()) by {
        reveal(Seq::filter);
    }
    while i < ws.len()
        invariant
            i <= ws@.len(),
            cached_views(out@) == start + cached_views(ws@).take(i as int).filter(other_ws(id)),
        decreases ws.len() - i,
    {
        let ghost prev = cached_views(out@);
        proof {
            reveal(Seq::filter);
            assert(cached_views(ws@).take(i + 1).drop_last() =~= cached_views(ws@).take(i as int));
            assert(cached_views(ws@).take(i + 1).last() == cached_view(ws@[i as int]));
        }
        if ws[i].id != id {
            out.push(ws[i].duplicate());
            assert(cached_views(out@) =~= prev.push(cached_view(ws@[i as int])));
        }
        assert(cached_views(out@) =~= start + cached_views(ws@).take(i + 1).filter(other_ws(id)));
        i = i + 1;
    }
    assert(cached_views(ws@).take(i as int) =~= cached_views(ws@));
}

impl App {
    /// Record that the active workspace was just used: move it to the front
    /// of the cache (most recently used first), named `name_hint` when known,
    /// keeping any stored key, and save the cache.
    pub(crate) fn record_workspace_use(&mut self, name_hint: Option<String>) -> (r: Vec<Command>)
        ensures
            workspace_recorded(*old(self), *final(self), cmds_view(r@), name_hint.deep_view()),
    {
        reveal(workspace_recorded);
        let id = self.session.workspace_id;
        let found = find_workspace(&self.session.cached_workspaces, id);
        let name = match name_hint {
            Some(n) => n,
            None => match found {
                Some(i) => self.session.cached_workspaces[i].name.clone(),
                None => {
                    let mut s = to_owned_string("Workspace ");
                    push_i64(&mut s, id);
                    s
                },
            },
        };
        let api_key = match found {
            Some(i) => clone_opt_string(&self.session.cached_workspaces[i].api_key),
            None => None,
        };
        let ghost ws = cached_views(self.session.cached_workspaces@);
        let ghost entry = CachedView { id, name: name@, api_key: api_key.deep_view() };
        proof {
            lemma_ws_index(ws, id);
            assert(recorded_cache(ws, id, name_hint.deep_view()) == seq![entry] + ws.filter(other_ws(id)));
        }
        let mut out: Vec<CachedWorkspace> = Vec::new();
        out.push(CachedWorkspace { id, name, api_key });
        assert(cached_views(out@) =~= seq![entry]);
        others(&self.session.cached_workspaces, id, &mut out);
        self.session.cached_workspaces = out;
        let mut r: Vec<Command> = Vec::new();
        r.push(Command::SaveWorkspaces { workspaces: copy_workspaces(&self.session.cached_workspaces) });
        reveal(command_view);
        assert(cmds_view(r@) =~= seq![
            CommandView::SaveWorkspaces { workspaces: cached_views(self.session.cached_workspaces@) },
        ]);
        r
    }

    /// Whether the active workspace has the session's key stored.
    fn active_key_stored(&self) -> (r: bool)
        ensures
            r == key_stored_for(
                cached_views(self.session.cached_workspaces@),
                self.session.workspace_id,
                self.session.current_key@,
            ),
    {
        match find_workspace(&self.session.cached_workspaces, self.session.workspace_id) {
            Some(i) => match &self.session.cached_workspaces[i].api_key {
                Some(k) => str_eq(k.as_str(), self.session.current_key.as_str()),
                None => false,
            },
            None => false,
        }
    }

    fn show_page(&mut self, resp: ListLinksResponse)
        ensures
            page_shown(*old(self), *final(self), resp),
    {
        let n = resp.links.len();
        let pages = if resp.total_pages > 1 { resp.total_pages } else { 1 };
        self.list.links = resp.links;
        self.list.total_pages = pages;
        self.list.total_entries = resp.total_entries;
        if resp.page_number > 0 {
            self.list.page = resp.page_number;
        }
        self.loading = false;
        let mut s = i64_to_string(self.list.total_entries);
        push_str(&mut s, " links (page ");
        push_i64(&mut s, self.list.page);
        push_str(&mut s, "/");
        push_i64(&mut s, self.list.total_pages);
        push_str(&mut s, ")");
        self.status = s;
        self.list.selected = if n == 0 {
            None
        } else {
            let i = match self.list.selected {
                Some(i) => i,
                None => 0,
            };
            Some(if i < n - 1 { i } else { n - 1 })
        };
    }

    fn verify_workspace(&mut self) -> (r: Vec<Command>)
        ensures
            ({
                let a = *old(self);
                let b = *final(self);
                let id = a.session.workspace_id;
                let cache = recorded_cache(
                    cached_views(a.session.cached_workspaces@),
                    id,
                    a.session.pending_ws_name.deep_view(),
                );
                &&& b == App { session: b.session, ..a }
                &&& b.session == Session {
                    verify_pending: false,
                    pending_ws_name: None,
                    cached_workspaces: b.session.cached_workspaces,
                    store_prompt: b.session.store_prompt,
                    ..a.session
                }
                &&& cached_views(b.session.cached_workspaces@) == cache
                &&& b.session.store_prompt == (a.session.store_prompt || (a.session.current_key@.len() > 0
                    && !key_stored_for(cache, id, a.session.current_key@)))
                &&& cmds_view(r@) == seq![CommandView::SaveWorkspaces { workspaces: cache }]
            }),
    {
        reveal(workspace_recorded);
        self.session.verify_pending = false;
        let hint = match &self.session.pending_ws_name {
            Some(n) => Some(n.clone()),
            None => None,
        };
        self.session.pending_ws_name = None;
        let r = self.record_workspace_use(hint);
        if self.session.current_key.unicode_len() > 0 && !self.active_key_stored() {
            self.session.store_prompt = true;
        }
        r
    }

    fn on_links_loaded(&mut self, resp: ListLinksResponse) -> (r: Vec<Command>)
        ensures
            links_loaded(*old(self), *final(self), cmds_view(r@), resp),
    {
        reveal(links_loaded);
        self.show_page(resp);
        if self.session.verify_pending {
            self.verify_workspace()
        } else {
            no_commands()
        }
    }

    fn on_workspaces_loaded(&mut self, workspaces: Vec<Workspace>) -> (r: Vec<Command>)
        ensures
            workspaces_loaded(*old(self), *final(self), cmds_view(r@), workspaces@),
    {
        reveal(workspaces_loaded);
        let id = self.session.workspace_id;
        let name = listed_workspace_name(&workspaces, id);
        if find_workspace(&self.session.cached_workspaces, id).is_some() {
            // Already cached (verified): refresh its name.
            self.record_workspace_use(name)
        } else {
            // Not verified yet: the name waits for the first page.
            self.session.pending_ws_name = name;
            no_commands()
        }
    }

    fn on_link_created(&mut self, new: NewLink) -> (r: Vec<Command>)
        ensures
            link_created(*old(self), *final(self), cmds_view(r@), new),
    {
        reveal(link_created);
        let page = self.list.page;
        self.screen = Screen::LinkList;
        self.status = to_owned_string("Link created \u{2014} refreshing\u{2026}");
        self.loading = true;
        let r = self.load_links(page);
        // Offer a QR code for the new link (Enter exports, Esc skips).
        match new.full_url {
            Some(url) => {
                if url.unicode_len() > 0 {
                    self.open_qr_settings(
                        Some(QrExportTarget::Single(QrSingle { id: new.id, slug: new.slug, name: new.name, url })),
                    );
                }
            },
            None => {},
        }
        r
    }

    fn on_link_updated(&mut self) -> (r: Vec<Command>)
        ensures
            link_updated(*old(self), *final(self), cmds_view(r@)),
    {
        reveal(link_updated);
        reveal(detail_left);
        self.loading = false;
        // The saved values become the baseline, so leaving no longer asks.
        let exit = match &mut self.editor {
            Some(e) => {
                e.mark_saved();
                e.exit_after_save
            },
            None => false,
        };
        if exit {
            self.exit_detail()
        } else {
            self.status = to_owned_string("Link saved \u{2713}");
            no_commands()
        }
    }

    fn on_qr_exported(&mut self, count: usize, dir: String)
        ensures
            async_step(*old(self), *final(self), Seq::empty(), AsyncMsg::QrExported { count, dir }),
    {
        self.loading = false;
        let mut s = to_owned_string("Exported ");
        push_u64(&mut s, count as u64);
        push_str(&mut s, " QR code(s) to ");
        push_str(&mut s, dir.as_str());
        push_str(&mut s, "/");
        self.status = s;
        // After the post-import QR run, the summary records it.
        match &mut self.import {
            Some(st) => match &mut st.stage {
                ImportStage::Done(sum) => {
                    sum.qr_done = Some(count);
                    sum.qr_dir = Some(dir);
                },
                _ => {},
            },
            None => {},
        }
    }

    fn on_import_progress(&mut self, done: usize, ok: usize, failed: usize)
        ensures
            async_step(*old(self), *final(self), Seq::empty(), AsyncMsg::ImportProgress { done, ok, failed }),
    {
        match &mut self.import {
            Some(st) => match &mut st.stage {
                ImportStage::Running(p) => {
                    p.done = done;
                    p.ok = ok;
                    p.failed = failed;
                },
                _ => {},
            },
            None => {},
        }
    }

    fn on_import_done(
        &mut self,
        ok: usize,
        failed: usize,
        success_path: Option<String>,
        failure_path: Option<String>,
        new_links: Vec<NewLink>,
    )
        ensures
            async_step(
                *old(self),
                *final(self),
                Seq::empty(),
                AsyncMsg::ImportDone { ok, failed, success_path, failure_path, new_links },
            ),
    {
        self.loading = false;
        let mut s = to_owned_string("Imported ");
        push_u64(&mut s, ok as u64);
        push_str(&mut s, " link(s), ");
        push_u64(&mut s, failed as u64);
        push_str(&mut s, " failed");
        self.status = s;
        match &mut self.import {
            Some(st) => {
                st.stage =
                    ImportStage::Done(
                        Summary { ok, failed, success_path, failure_path, new_links, qr_done: None, qr_dir: None },
                    );
            },
            None => {},
        }
    }

    fn on_error(&mut self, e: String)
        ensures
            async_step(*old(self), *final(self), Seq::empty(), AsyncMsg::Error(e)),
    {
        self.loading = false;
        if self.screen == Screen::Auth {
            self.auth.error = Some(e.clone());
        }
        let mut s = to_owned_string("Error: ");
        push_str(&mut s, e.as_str());
        self.status = s;
    }

    /// Take in one result of API work.
    pub(crate) fn apply_reply(&mut self, msg: AsyncMsg) -> (r: Vec<Command>)
        ensures
            async_step(*old(self), *final(self), cmds_view(r@), msg),
    {
        match msg {
            AsyncMsg::LinksLoaded(resp) => self.on_links_loaded(resp),
            AsyncMsg::LinkDetailLoaded(v) => {
                self.editor = Some(LinkEditor::from_value(&v, self.session.workspace_id));
                self.loading = false;
                self.status = String::new();
                no_commands()
            },
            AsyncMsg::DomainsLoaded(domains) => {
                self.domains = domains;
                no_commands()
            },
            AsyncMsg::WorkspacesLoaded(workspaces) => self.on_workspaces_loaded(workspaces),
            AsyncMsg::LinkCreated(new) => self.on_link_created(new),
            AsyncMsg::LinkUpdated => self.on_link_updated(),
            AsyncMsg::QrExported { count, dir } => {
                self.on_qr_exported(count, dir);
                no_commands()
            },
            AsyncMsg::ImportProgress { done, ok, failed } => {
                self.on_import_progress(done, ok, failed);
                no_commands()
            },
            AsyncMsg::ImportDone { ok, failed, success_path, failure_path, new_links } => {
                self.on_import_done(ok, failed, success_path, failure_path, new_links);
                no_commands()
            },
            AsyncMsg::Error(e) => {
                self.on_error(e);
                no_commands()
            },
        }
    }
}

/// The name of workspace `id` in a workspace list (see [`listed_name`]).
fn listed_workspace_name(ws: &Vec<Workspace>, id: i64) -> (r: Option<String>)
    ensures
        r.deep_view() == listed_name(ws@, id),
{
    let mut i: usize = 0;
    assert(ws@.skip(0) =~= ws@);
    while i < ws.len()
        invariant
            i <= ws@.len(),
            listed_name(ws@, id) == listed_name(ws@.skip(i as int), id),
        decreases ws.len() - i,
    {
        if ws[i].id == id {
            assert(ws@.skip(i as int)[0] == ws@[i as int]);
            return if ws[i].name.unicode_len() > 0 {
                Some(ws[i].name.clone())
            } else {
                None
            };
        }
        assert(ws@.skip(i as int).drop_first() =~= ws@.skip(i + 1));
        i = i + 1;
    }
    None
}

} // verus!
