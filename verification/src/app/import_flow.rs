//! The CSV import screen: browsing for a file, the preview, the run and its
//! summary, and the QR codes of the links it created.

use vstd::prelude::*;

use crate::app::qr_dialog::qr_path_spec;
use crate::app::{
    cmds_view, command_view, is_char, no_commands, reloaded, settings_view, unchanged, App,
    Command, CommandView, Screen,
};
use crate::browser::{entry_view, item_view, listing_spec, selected_entry, DirItem, FileBrowser};
use crate::import::{
    requests_of, rows_view, ImportStage, ImportState, NewLink, ParsedImport, Progress, Summary,
};
use crate::input::{KeyCode, KeyInput};
use crate::qr::workspace_output_dir;
use crate::text::{int_decimal, push_str, to_owned_string};

verus! {

/// `b` is `a` after closing the import screen: back on the list, which is
/// reloaded.
#[verifier::opaque]
pub open spec fn import_closed(a: App, b: App, c: Seq<CommandView>) -> bool {
    reloaded(App { import: None, screen: Screen::LinkList, ..a }, b, c, "Refreshing\u{2026}"@, a.list.page)
}

/// `b` is `a` with the import state replaced by `s`.
pub open spec fn with_import(a: App, b: App, s: ImportState) -> bool {
    b == App { import: Some(s), ..a }
}

/// The QR jobs (short URL, file path) for the created links that have a
/// short URL, in order.
pub open spec fn qr_jobs_spec(links: Seq<NewLink>, workspace_id: i64, f: crate::qr::QrFormat) -> Seq<(Seq<char>, Seq<char>)>
    decreases links.len(),
{
    if links.len() == 0 {
        seq![]
    } else {
        let prev = qr_jobs_spec(links.drop_last(), workspace_id, f);
        let l = links.last();
        match l.full_url {
            Some(u) if u@.len() > 0 => prev.push(
                (u@, qr_path_spec(workspace_id, l.id, l.slug.deep_view(), l.name.deep_view(), f)),
            ),
            _ => prev,
        }
    }
}

/// One key while browsing for a file.
pub open spec fn browse_step(a: App, b: App, c: Seq<CommandView>, k: KeyInput, s: ImportState) -> bool {
    let br = s.browser;
    if k.code == KeyCode::Esc {
        import_closed(a, b, c)
    } else if k.code == KeyCode::Up || is_char(k, 'k') {
        c.len() == 0 && with_import(
            a,
            b,
            ImportState {
                browser: FileBrowser {
                    selected: Some(
                        (match br.selected {
                            Some(i) => if i == 0 { 0 } else { i - 1 },
                            None => 0,
                        }) as usize,
                    ),
                    ..br
                },
                ..s
            },
        )
    } else if k.code == KeyCode::Down || is_char(k, 'j') {
        c.len() == 0 && with_import(
            a,
            b,
            ImportState {
                browser: FileBrowser {
                    selected: Some(
                        ({
                            let i: int = match br.selected {
                                Some(i) => i as int,
                                None => 0,
                            };
                            let last: int = if br.entries@.len() == 0 { 0 } else { br.entries@.len() - 1 };
                            if i < last {
                                i + 1
                            } else {
                                last
                            }
                        }) as usize,
                    ),
                    ..br
                },
                ..s
            },
        )
    } else if k.code == KeyCode::Left || k.code == KeyCode::Backspace {
        b == a && c == match br.parent {
            Some(p) => seq![CommandView::ListDir { dir: p@ }],
            None => seq![],
        }
    } else if is_char(k, 't') {
        b == a && c == seq![CommandView::WriteTemplate { dir: br.dir@ }]
    } else if k.code == KeyCode::Enter {
        b == a && c == match selected_entry(br) {
            Some(e) => if e.is_dir {
                seq![CommandView::ListDir { dir: e.path@ }]
            } else {
                seq![CommandView::ParseCsv { path: e.path@, workspace_id: a.session.workspace_id }]
            },
            None => seq![],
        }
    } else {
        unchanged(a, b, c)
    }
}

/// `b` is `a` after confirming the preview `p`: the run starts (progress
/// at zero over the valid rows) and, with a session, the valid rows are
/// submitted.
#[verifier::opaque]
pub open spec fn import_started(a: App, b: App, c: Seq<CommandView>, s: ImportState, p: ParsedImport) -> bool {
    let reqs = requests_of(rows_view(p.rows@));
    let running = ImportState { stage: ImportStage::Running(Progress { total: reqs.len() as usize, done: 0, ok: 0, failed: 0 }), ..s };
    if a.session.connected {
        &&& b == App { import: Some(running), status: b.status, loading: true, ..a }
        &&& b.status@ == "Importing\u{2026}"@
        &&& c == seq![CommandView::RunImport { requests: reqs, csv_path: p.path@ }]
    } else {
        with_import(a, b, running) && c.len() == 0
    }
}

/// One key on the preview of `p`.
pub open spec fn preview_step(a: App, b: App, c: Seq<CommandView>, k: KeyInput, s: ImportState, p: ParsedImport) -> bool {
    if k.code == KeyCode::Enter || is_char(k, 'y') {
        import_started(a, b, c, s, p)
    } else if k.code == KeyCode::Esc || is_char(k, 'n') {
        c.len() == 0 && with_import(a, b, ImportState { stage: ImportStage::Browse, ..s })
    } else {
        unchanged(a, b, c)
    }
}

/// The summary still offers QR codes: none were made yet and links were
/// created.
pub open spec fn awaiting_qr(sum: Summary) -> bool {
    sum.qr_done is None && sum.new_links@.len() > 0
}

/// `b` is `a` after accepting QR codes for the created links: one QR job
/// per link with a short URL, into the workspace's QR directory.
#[verifier::opaque]
pub open spec fn qr_generation_started(a: App, b: App, c: Seq<CommandView>, sum: Summary) -> bool {
    &&& b == App { status: b.status, loading: true, ..a }
    &&& b.status@ == "Generating QR codes\u{2026}"@
    &&& c == seq![
        CommandView::GenerateQr {
            jobs: qr_jobs_spec(sum.new_links@, a.session.workspace_id, a.qr.settings.format),
            dir: "linkly-qr/"@ + int_decimal(a.session.workspace_id as int),
            settings: settings_view(a.qr.settings),
        },
    ]
}

/// One key on the summary `sum`.
pub open spec fn done_step(a: App, b: App, c: Seq<CommandView>, k: KeyInput, sum: Summary) -> bool {
    if is_char(k, 'y') && awaiting_qr(sum) {
        qr_generation_started(a, b, c, sum)
    } else if k.code == KeyCode::Esc || k.code == KeyCode::Enter || is_char(k, 'q') || is_char(k, 'n') {
        import_closed(a, b, c)
    } else {
        unchanged(a, b, c)
    }
}

/// One key on the import screen; keys are ignored while the run is in
/// progress.
pub open spec fn import_step(a: App, b: App, c: Seq<CommandView>, k: KeyInput) -> bool {
    match a.import {
        None => unchanged(a, b, c),
        Some(s) => match s.stage {
            ImportStage::Browse => browse_step(a, b, c, k, s),
            ImportStage::Preview(p) => preview_step(a, b, c, k, s, p),
            ImportStage::Running(_) => unchanged(a, b, c),
            ImportStage::Done(sum) => done_step(a, b, c, k, sum),
        },
    }
}

fn one_command(c: Command) -> (r: Vec<Command>)
    ensures
        cmds_view(r@) == seq![command_view(c)],
{
    let mut r: Vec<Command> = Vec::new();
    r.push(c);
    assert(cmds_view(r@) =~= seq![command_view(c)]);
    r
}

/// The QR jobs for the created links that have a short URL.
pub fn qr_jobs(links: &Vec<NewLink>, workspace_id: i64, f: crate::qr::QrFormat) -> (r: Vec<(String, String)>)
    ensures
        r@.map_values(|j: (String, String)| (j.0@, j.1@)) == qr_jobs_spec(links@, workspace_id, f),
{
    let mut r: Vec<(String, String)> = Vec::new();
    let mut i: usize = 0;
    while i < links.len()
        invariant
            i <= links@.len(),
            r@.map_values(|j: (String, String)| (j.0@, j.1@)) == qr_jobs_spec(links@.take(i as int), workspace_id, f),
        decreases links.len() - i,
    {
        let l = &links[i];
        proof {
            assert(links@.take(i + 1).drop_last() =~= links@.take(i as int));
            assert(links@.take(i + 1).last() == *l);
        }
        match &l.full_url {
            Some(u) => {
                if u.unicode_len() > 0 {
                    let q = crate::app::QrSingle {
                        id: l.id,
                        slug: crate::models::clone_opt_string(&l.slug),
                        name: crate::models::clone_opt_string(&l.name),
                        url: u.clone(),
                    };
                    let path = crate::app::qr_dialog::qr_path(workspace_id, &q, f);
                    r.push((u.clone(), path));
                }
            },
            None => {},
        }
        assert(r@.map_values(|j: (String, String)| (j.0@, j.1@)) =~= qr_jobs_spec(links@.take(i + 1), workspace_id, f));
        i = i + 1;
    }
    assert(links@.take(i as int) =~= links@);
    r
}

impl App {
    fn close_import(&mut self) -> (r: Vec<Command>)
        ensures
            import_closed(*old(self), *final(self), cmds_view(r@)),
    {
        reveal(import_closed);
        let page = self.list.page;
        self.import = None;
        self.screen = Screen::LinkList;
        self.reload("Refreshing\u{2026}", page)
    }

    fn import_browse_key(&mut self, key: KeyInput) -> (r: Vec<Command>)
        requires
            old(self).import matches Some(s) && s.stage is Browse,
        ensures
            browse_step(*old(self), *final(self), cmds_view(r@), key, old(self).import->0),
    {
        reveal(command_view);
        match key.code {
            KeyCode::Esc => self.close_import(),
            KeyCode::Up | KeyCode::Char('k') => {
                match &mut self.import {
                    Some(s) => s.browser.move_up(),
                    None => {},
                }
                no_commands()
            },
            KeyCode::Down | KeyCode::Char('j') => {
                match &mut self.import {
                    Some(s) => s.browser.move_down(),
                    None => {},
                }
                no_commands()
            },
            KeyCode::Left | KeyCode::Backspace => {
                match &self.import {
                    Some(s) => match &s.browser.parent {
                        Some(p) => one_command(Command::ListDir { dir: p.clone() }),
                        None => no_commands(),
                    },
                    None => no_commands(),
                }
            },
            KeyCode::Char('t') => {
                match &self.import {
                    Some(s) => one_command(Command::WriteTemplate { dir: s.browser.dir.clone() }),
                    None => no_commands(),
                }
            },
            KeyCode::Enter => {
                let ws = self.session.workspace_id;
                match &self.import {
                    Some(s) => match s.browser.selected() {
                        Some(e) => if e.is_dir {
                            one_command(Command::ListDir { dir: e.path.clone() })
                        } else {
                            one_command(Command::ParseCsv { path: e.path.clone(), workspace_id: ws })
                        },
                        None => no_commands(),
                    },
                    None => no_commands(),
                }
            },
            _ => no_commands(),
        }
    }

    fn import_confirm(&mut self) -> (r: Vec<Command>)
        requires
            old(self).import matches Some(s) && s.stage is Preview,
        ensures
            import_started(
                *old(self),
                *final(self),
                cmds_view(r@),
                old(self).import->0,
                old(self).import->0.stage->Preview_0,
            ),
    {
        reveal(import_started);
        let ghost s0 = self.import->0;
        let (reqs, path) = match &self.import {
            Some(s) => match &s.stage {
                ImportStage::Preview(parsed) => (parsed.valid_requests(), parsed.path.clone()),
                _ => return no_commands(),
            },
            None => return no_commands(),
        };
        let total = reqs.len();
        match &mut self.import {
            Some(s) => {
                s.stage = ImportStage::Running(Progress { total, done: 0, ok: 0, failed: 0 });
            },
            None => {},
        }
        if !self.session.connected {
            return no_commands();
        }
        self.status = to_owned_string("Importing\u{2026}");
        self.loading = true;
        reveal(command_view);
        one_command(Command::RunImport { requests: reqs, csv_path: path })
    }

    fn import_preview_key(&mut self, key: KeyInput) -> (r: Vec<Command>)
        requires
            old(self).import matches Some(s) && s.stage is Preview,
        ensures
            preview_step(
                *old(self),
                *final(self),
                cmds_view(r@),
                key,
                old(self).import->0,
                old(self).import->0.stage->Preview_0,
            ),
    {
        match key.code {
            KeyCode::Enter | KeyCode::Char('y') => self.import_confirm(),
            KeyCode::Esc | KeyCode::Char('n') => {
                match &mut self.import {
                    Some(s) => {
                        s.stage = ImportStage::Browse;
                    },
                    None => {},
                }
                no_commands()
            },
            _ => no_commands(),
        }
    }

    fn import_generate_qr(&mut self) -> (r: Vec<Command>)
        requires
            old(self).import matches Some(s) && s.stage is Done,
        ensures
            qr_generation_started(*old(self), *final(self), cmds_view(r@), old(self).import->0.stage->Done_0),
    {
        reveal(qr_generation_started);
        let ws = self.session.workspace_id;
        let jobs = match &self.import {
            Some(s) => match &s.stage {
                ImportStage::Done(sum) => qr_jobs(&sum.new_links, ws, self.qr.settings.format),
                _ => return no_commands(),
            },
            None => return no_commands(),
        };
        self.status = to_owned_string("Generating QR codes\u{2026}");
        self.loading = true;
        reveal(command_view);
        one_command(
            Command::GenerateQr { jobs, dir: workspace_output_dir(ws), settings: self.qr.settings.duplicate() },
        )
    }

    fn import_done_key(&mut self, key: KeyInput) -> (r: Vec<Command>)
        requires
            old(self).import matches Some(s) && s.stage is Done,
        ensures
            done_step(*old(self), *final(self), cmds_view(r@), key, old(self).import->0.stage->Done_0),
    {
        let awaiting = match &self.import {
            Some(s) => match &s.stage {
                ImportStage::Done(sum) => sum.qr_done.is_none() && sum.new_links.len() > 0,
                _ => false,
            },
            None => false,
        };
        match key.code {
            KeyCode::Char('y') if awaiting => self.import_generate_qr(),
            KeyCode::Esc | KeyCode::Enter | KeyCode::Char('q') | KeyCode::Char('n') => self.close_import(),
            _ => no_commands(),
        }
    }

    /// One key on the import screen.
    pub(crate) fn on_import_key(&mut self, key: KeyInput) -> (r: Vec<Command>)
        ensures
            import_step(*old(self), *final(self), cmds_view(r@), key),
    {
        let stage: u8 = match &self.import {
            Some(s) => match &s.stage {
                ImportStage::Browse => 0,
                ImportStage::Preview(_) => 1,
                ImportStage::Running(_) => 2,
                ImportStage::Done(_) => 3,
            },
            None => return no_commands(),
        };
        if stage == 0 {
            self.import_browse_key(key)
        } else if stage == 1 {
            self.import_preview_key(key)
        } else if stage == 2 {
            no_commands()
        } else {
            self.import_done_key(key)
        }
    }

    /// The answer to [`Command::OpenImport`]: the working directory `dir`
    /// (with parent `parent`) and its entries; the import screen opens on it.
    pub fn import_opened(&mut self, dir: String, parent: Option<String>, items: Vec<DirItem>)
        ensures
            final(self).import matches Some(s) && s.stage is Browse && s.message is None && s.browser.dir@ == dir@
                && s.browser.parent.deep_view() == parent.deep_view() && listing_spec(
                parent.deep_view(),
                items@.map_values(|e: DirItem| item_view(e)),
                s.browser.entries@.map_values(|e: crate::browser::BrowserEntry| entry_view(e)),
            ),
            *final(self) == (App {
                import: final(self).import,
                screen: Screen::Import,
                status: final(self).status,
                ..*old(self)
            }),
            final(self).status@.len() == 0,
    {
        self.import = Some(ImportState::new(dir, parent, &items));
        self.screen = Screen::Import;
        self.status = String::new();
    }

    /// The answer to [`Command::ListDir`]: the browser moves into `dir` (with
    /// parent `parent`), listing `items`, with the first row highlighted.
    pub fn dir_listed(&mut self, dir: String, parent: Option<String>, items: Vec<DirItem>)
        ensures
            old(self).import is None ==> *final(self) == *old(self),
            old(self).import matches Some(s) ==> (final(self).import matches Some(n) && n.stage == s.stage
                && n.message == s.message && n.browser.dir@ == dir@ && n.browser.parent.deep_view()
                == parent.deep_view() && listing_spec(
                parent.deep_view(),
                items@.map_values(|e: DirItem| item_view(e)),
                n.browser.entries@.map_values(|e: crate::browser::BrowserEntry| entry_view(e)),
            ) && n.browser.selected == if n.browser.entries@.len() == 0 {
                None
            } else {
                Some(0usize)
            }),
            *final(self) == (App { import: final(self).import, ..*old(self) }),
    {
        match &mut self.import {
            Some(s) => s.browser.open_dir(dir, parent, &items),
            None => {},
        }
    }

    /// The answer to [`Command::ParseCsv`]: the preview of the parse, or the
    /// error as the browser's message.
    pub fn csv_parsed(&mut self, result: Result<ParsedImport, String>)
        ensures
            old(self).import is None ==> *final(self) == *old(self),
            old(self).import matches Some(s) ==> (final(self).import matches Some(n) && n.browser == s.browser
                && match result {
                Ok(p) => n.stage == ImportStage::Preview(p) && n.message is None,
                Err(e) => n.stage == s.stage && n.message.deep_view() == Some("Parse error: "@ + e@),
            }),
            *final(self) == (App { import: final(self).import, ..*old(self) }),
    {
        match &mut self.import {
            Some(s) => match result {
                Ok(parsed) => {
                    s.message = None;
                    s.stage = ImportStage::Preview(parsed);
                },
                Err(e) => {
                    let mut m = to_owned_string("Parse error: ");
                    push_str(&mut m, e.as_str());
                    s.message = Some(m);
                },
            },
            None => {},
        }
    }

    /// The answer to [`Command::WriteTemplate`]: the browser's message says
    /// where the template went, or why it did not; the directory is listed
    /// again.
    pub fn template_written(&mut self, path: String, result: Result<(), String>) -> (r: Vec<Command>)
        ensures
            old(self).import is None ==> *final(self) == *old(self) && cmds_view(r@).len() == 0,
            old(self).import matches Some(s) ==> (final(self).import matches Some(n) && n.browser == s.browser
                && n.stage == s.stage && n.message.deep_view() == Some(
                match result {
                    Ok(()) => "Wrote template to "@ + path@,
                    Err(e) => "Template error: "@ + e@,
                },
            ) && cmds_view(r@) == seq![CommandView::ListDir { dir: s.browser.dir@ }]),
            *final(self) == (App { import: final(self).import, ..*old(self) }),
    {
        reveal(command_view);
        match &mut self.import {
            Some(s) => {
                let mut m = match &result {
                    Ok(()) => to_owned_string("Wrote template to "),
                    Err(_) => to_owned_string("Template error: "),
                };
                match &result {
                    Ok(()) => push_str(&mut m, path.as_str()),
                    Err(e) => push_str(&mut m, e.as_str()),
                }
                s.message = Some(m);
                one_command(Command::ListDir { dir: s.browser.dir.clone() })
            },
            None => no_commands(),
        }
    }
}

} // verus!
