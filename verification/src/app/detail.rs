//! The link detail screen: field navigation, editing, saving, and the QR
//! export of the highlighted link.

use vstd::prelude::*;

use crate::app::list::selected_link_spec;
use crate::app::qr_dialog::{qr_opened, QrTargetView};
use crate::app::{
    app_wf, cmds_view, command_view, is_char, no_commands, reloaded, unchanged, App, Command,
    CommandView, QrExportTarget, QrSingle, Screen,
};
use crate::edit_form::{
    any_changed, current_edited, current_toggled, update_entries, DetailMode, EditKind, LinkEditor,
};
use crate::input::{KeyCode, KeyInput};
use crate::json::JsonScalar;
use crate::text::to_owned_string;

verus! {

/// `b` is `a` after leaving the detail screen: back on the list, the
/// editor dropped, the current page reloaded.
#[verifier::opaque]
pub open spec fn detail_left(a: App, b: App, c: Seq<CommandView>) -> bool {
    reloaded(App { screen: Screen::LinkList, editor: None, ..a }, b, c, "Refreshing\u{2026}"@, a.list.page)
}

/// `b` is `a` with the editor replaced by `e`.
pub open spec fn with_editor(a: App, b: App, e: LinkEditor) -> bool {
    b == App { editor: Some(e), ..a }
}

/// `b` is `a` after asking to save the editor: nothing changed and no
/// pending exit, nothing happens; nothing changed but an exit pending, the
/// screen is left; changes and a session, the update is sent (back in
/// navigation mode).
#[verifier::opaque]
pub open spec fn save_requested(a: App, b: App, c: Seq<CommandView>) -> bool {
    match a.editor {
        None => unchanged(a, b, c),
        Some(e) => if !any_changed(e.fields@) {
            if e.exit_after_save {
                detail_left(a, b, c)
            } else {
                unchanged(a, b, c)
            }
        } else if !a.session.connected {
            unchanged(a, b, c)
        } else {
            &&& b == App {
                editor: Some(LinkEditor { mode: DetailMode::Nav, ..e }),
                status: b.status,
                loading: true,
                ..a
            }
            &&& b.status@ == "Saving link\u{2026}"@
            &&& c == seq![CommandView::UpdateLink { json: JsonScalar::Object, entries: update_entries(e) }]
        },
    }
}

/// `b` is `a` after asking for the QR code of the highlighted link: the
/// dialog opens for it when it has a short URL; otherwise the status says
/// there is none.
#[verifier::opaque]
pub open spec fn qr_for_selected(a: App, b: App, c: Seq<CommandView>) -> bool {
    match selected_link_spec(a) {
        Some(l) => match l.full_url {
            Some(u) if u@.len() > 0 => c.len() == 0 && qr_opened(
                a,
                b,
                Some(QrTargetView::Single { id: l.id, slug: l.slug.deep_view(), name: l.name.deep_view(), url: u@ }),
            ),
            _ => {
                &&& b == App { status: b.status, ..a }
                &&& b.status@ == "No short URL to encode for this link"@
                &&& c.len() == 0
            },
        },
        None => unchanged(a, b, c),
    }
}

/// One key in navigation mode on editor `e`.
pub open spec fn nav_step(a: App, b: App, c: Seq<CommandView>, k: KeyInput, e: LinkEditor) -> bool {
    let n = e.fields@.len();
    if k.code == KeyCode::Up || is_char(k, 'k') {
        c.len() == 0 && with_editor(a, b, LinkEditor { cursor: if e.cursor == 0 { 0 } else { (e.cursor - 1) as usize }, ..e })
    } else if k.code == KeyCode::Down || is_char(k, 'j') {
        c.len() == 0 && with_editor(
            a,
            b,
            LinkEditor { cursor: if e.cursor + 1 < n { (e.cursor + 1) as usize } else { (n - 1) as usize }, ..e },
        )
    } else if k.code == KeyCode::Enter {
        c.len() == 0 && if e.fields@[e.cursor as int].kind == EditKind::Bool {
            b == App { editor: b.editor, ..a } && (b.editor matches Some(ne) && current_toggled(e, ne))
        } else {
            with_editor(a, b, LinkEditor { mode: DetailMode::Edit, ..e })
        }
    } else if is_char(k, 'Q') {
        qr_for_selected(a, b, c)
    } else if is_char(k, 's') {
        save_requested(App { editor: Some(LinkEditor { exit_after_save: false, ..e }), ..a }, b, c)
    } else if k.code == KeyCode::Esc || is_char(k, 'q') {
        if any_changed(e.fields@) {
            c.len() == 0 && with_editor(a, b, LinkEditor { mode: DetailMode::ConfirmSave, ..e })
        } else {
            detail_left(a, b, c)
        }
    } else {
        unchanged(a, b, c)
    }
}

/// One key in edit mode on editor `e`: `Enter` and `Esc` both keep the edit
/// (it is already live) and return to navigation; an editing key edits the
/// field under the cursor.
pub open spec fn edit_step(a: App, b: App, c: Seq<CommandView>, k: KeyInput, e: LinkEditor) -> bool {
    if k.code == KeyCode::Enter || k.code == KeyCode::Esc {
        c.len() == 0 && with_editor(a, b, LinkEditor { mode: DetailMode::Nav, ..e })
    } else {
        match k.edit {
            Some(req) => c.len() == 0 && b == App { editor: b.editor, ..a } && (b.editor matches Some(ne)
                && current_edited(e, ne, req)),
            None => unchanged(a, b, c),
        }
    }
}

/// One key while asked whether to save before leaving.
pub open spec fn confirm_step(a: App, b: App, c: Seq<CommandView>, k: KeyInput, e: LinkEditor) -> bool {
    if is_char(k, 's') || is_char(k, 'y') {
        save_requested(App { editor: Some(LinkEditor { exit_after_save: true, ..e }), ..a }, b, c)
    } else if is_char(k, 'd') {
        detail_left(a, b, c)
    } else if k.code == KeyCode::Esc || is_char(k, 'n') {
        c.len() == 0 && with_editor(a, b, LinkEditor { mode: DetailMode::Nav, ..e })
    } else {
        unchanged(a, b, c)
    }
}

/// One key on the detail screen. Before the record has loaded only leaving
/// (`Esc`, `q`) does anything.
pub open spec fn detail_step(a: App, b: App, c: Seq<CommandView>, k: KeyInput) -> bool {
    match a.editor {
        None => if k.code == KeyCode::Esc || is_char(k, 'q') {
            detail_left(a, b, c)
        } else {
            unchanged(a, b, c)
        },
        Some(e) => match e.mode {
            DetailMode::Nav => nav_step(a, b, c, k, e),
            DetailMode::Edit => edit_step(a, b, c, k, e),
            DetailMode::ConfirmSave => confirm_step(a, b, c, k, e),
        },
    }
}

impl App {
    /// Leave the detail screen and refresh the list (so edits show).
    pub(crate) fn exit_detail(&mut self) -> (r: Vec<Command>)
        ensures
            detail_left(*old(self), *final(self), cmds_view(r@)),
    {
        reveal(detail_left);
        let page = self.list.page;
        self.screen = Screen::LinkList;
        self.editor = None;
        self.reload("Refreshing\u{2026}", page)
    }

    /// Save the editor: send the changed fields, or leave when nothing
    /// changed and an exit was asked for.
    pub(crate) fn save_edit(&mut self) -> (r: Vec<Command>)
        ensures
            save_requested(*old(self), *final(self), cmds_view(r@)),
    {
        reveal(save_requested);
        let (dirty, exit) = match &self.editor {
            Some(e) => (e.dirty(), e.exit_after_save),
            None => return no_commands(),
        };
        if !dirty {
            if exit {
                return self.exit_detail();
            }
            return no_commands();
        }
        if !self.session.connected {
            return no_commands();
        }
        let body = match &self.editor {
            Some(e) => e.update_body(),
            None => return no_commands(),
        };
        let ghost e0 = self.editor->0;
        self.set_editor_mode(DetailMode::Nav);
        self.status = to_owned_string("Saving link\u{2026}");
        self.loading = true;
        let mut r: Vec<Command> = Vec::new();
        r.push(Command::UpdateLink { body });
        reveal(command_view);
        assert(cmds_view(r@) =~= seq![CommandView::UpdateLink { json: JsonScalar::Object, entries: update_entries(e0) }]);
        r
    }

    fn set_editor_mode(&mut self, mode: DetailMode)
        requires
            old(self).editor is Some,
        ensures
            *final(self) == (App { editor: Some(LinkEditor { mode, ..old(self).editor->0 }), ..*old(self) }),
    {
        match &mut self.editor {
            Some(e) => {
                e.mode = mode;
            },
            None => {},
        }
    }

    fn set_exit_after_save(&mut self, exit: bool)
        requires
            old(self).editor is Some,
        ensures
            *final(self) == (App {
                editor: Some(LinkEditor { exit_after_save: exit, ..old(self).editor->0 }),
                ..*old(self)
            }),
    {
        match &mut self.editor {
            Some(e) => {
                e.exit_after_save = exit;
            },
            None => {},
        }
    }

    /// Open the QR dialog for the highlighted link.
    pub(crate) fn begin_export_current_qr(&mut self) -> (r: Vec<Command>)
        ensures
            qr_for_selected(*old(self), *final(self), cmds_view(r@)),
    {
        reveal(qr_for_selected);
        let target = match self.selected_link() {
            Some(link) => match &link.full_url {
                Some(u) => if u.unicode_len() > 0 {
                    Some(
                        QrSingle {
                            id: link.id,
                            slug: crate::models::clone_opt_string(&link.slug),
                            name: crate::models::clone_opt_string(&link.name),
                            url: u.clone(),
                        },
                    )
                } else {
                    None
                },
                None => None,
            },
            None => return no_commands(),
        };
        match target {
            Some(q) => {
                self.open_qr_settings(Some(QrExportTarget::Single(q)));
            },
            None => {
                self.status = to_owned_string("No short URL to encode for this link");
            },
        }
        no_commands()
    }

    fn detail_nav_key(&mut self, key: KeyInput) -> (r: Vec<Command>)
        requires
            old(self).editor matches Some(e) && e.cursor < e.fields@.len(),
        ensures
            nav_step(*old(self), *final(self), cmds_view(r@), key, old(self).editor->0),
    {
        match key.code {
            KeyCode::Up | KeyCode::Char('k') => {
                match &mut self.editor {
                    Some(e) => e.move_up(),
                    None => {},
                }
                no_commands()
            },
            KeyCode::Down | KeyCode::Char('j') => {
                match &mut self.editor {
                    Some(e) => e.move_down(),
                    None => {},
                }
                no_commands()
            },
            KeyCode::Enter => {
                match &mut self.editor {
                    Some(e) => {
                        if e.current().kind == EditKind::Bool {
                            e.toggle_current();
                        } else {
                            e.mode = DetailMode::Edit;
                        }
                    },
                    None => {},
                }
                no_commands()
            },
            KeyCode::Char('Q') => self.begin_export_current_qr(),
            KeyCode::Char('s') => {
                self.set_exit_after_save(false);
                self.save_edit()
            },
            KeyCode::Esc | KeyCode::Char('q') => {
                let dirty = match &self.editor {
                    Some(e) => e.dirty(),
                    None => false,
                };
                if dirty {
                    self.set_editor_mode(DetailMode::ConfirmSave);
                    no_commands()
                } else {
                    self.exit_detail()
                }
            },
            _ => no_commands(),
        }
    }

    fn detail_edit_key(&mut self, key: KeyInput) -> (r: Vec<Command>)
        requires
            old(self).editor matches Some(e) && e.cursor < e.fields@.len(),
        ensures
            edit_step(*old(self), *final(self), cmds_view(r@), key, old(self).editor->0),
    {
        match key.code {
            KeyCode::Enter | KeyCode::Esc => self.set_editor_mode(DetailMode::Nav),
            _ => match key.edit {
                Some(req) => match &mut self.editor {
                    Some(e) => e.edit_current(req),
                    None => {},
                },
                None => {},
            },
        }
        no_commands()
    }

    fn detail_confirm_key(&mut self, key: KeyInput) -> (r: Vec<Command>)
        requires
            old(self).editor is Some,
        ensures
            confirm_step(*old(self), *final(self), cmds_view(r@), key, old(self).editor->0),
    {
        match key.code {
            KeyCode::Char('s') | KeyCode::Char('y') => {
                self.set_exit_after_save(true);
                self.save_edit()
            },
            KeyCode::Char('d') => self.exit_detail(),
            KeyCode::Esc | KeyCode::Char('n') => {
                self.set_editor_mode(DetailMode::Nav);
                no_commands()
            },
            _ => no_commands(),
        }
    }

    /// One key on the detail screen.
    pub(crate) fn on_detail_key(&mut self, key: KeyInput) -> (r: Vec<Command>)
        requires
            app_wf(*old(self)),
        ensures
            detail_step(*old(self), *final(self), cmds_view(r@), key),
    {
        let mode = match &self.editor {
            Some(e) => e.mode,
            None => {
                return match key.code {
                    KeyCode::Esc | KeyCode::Char('q') => self.exit_detail(),
                    _ => no_commands(),
                };
            },
        };
        match mode {
            DetailMode::Nav => self.detail_nav_key(key),
            DetailMode::Edit => self.detail_edit_key(key),
            DetailMode::ConfirmSave => self.detail_confirm_key(key),
        }
    }
}

} // verus!
