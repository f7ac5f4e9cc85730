//! Key dispatch: the QR dialog and the help overlay first, then the active
//! screen; and the state invariant every key and every reply keeps.

use vstd::prelude::*;

use crate::app::create::{create_entered, create_step, form_typed, submitted};
use crate::app::detail::{detail_left, detail_step, qr_for_selected, save_requested};
use crate::app::import_flow::{import_closed, import_started, import_step, qr_generation_started};
use crate::app::list::list_step;
use crate::app::qr_dialog::{qr_opened, qr_step};
use crate::app::replies::{
    async_step, link_created, link_updated, links_loaded, workspace_recorded, workspaces_loaded,
};
use crate::app::session::{auth_step, picker_step};
use crate::app::{
    app_wf, cmds_view, is_char, no_commands, reloaded, AsyncMsg, App, Command, CommandView, Screen,
};
use crate::create_form::current_field;
use crate::edit_form::DetailMode;
use crate::input::{KeyCode, KeyInput};

verus! {

/// Whether `?` opens the help overlay: not where a text field has the
/// focus, so that `?` can be typed there.
pub open spec fn question_opens_help_spec(a: App) -> bool {
    match a.screen {
        Screen::Auth => false,
        Screen::WorkspacePicker => true,
        Screen::Import => true,
        Screen::LinkList => !a.list.searching && !a.list.sort_open && !a.session.store_prompt,
        Screen::LinkDetail => match a.editor {
            Some(e) => e.mode == DetailMode::Nav,
            None => true,
        },
        Screen::CreateLink => a.create_form.domain_selector is None && a.create_form.text_of(
            current_field(a.create_form),
        ) is None,
    }
}

/// One key: the QR dialog takes every key while open; the help overlay
/// takes every key while open and closes on `Esc`, `Enter`, `?`, `q` or
/// `h`; `?` opens it where no text field has the focus; otherwise the
/// active screen handles the key.
pub open spec fn event_step(a: App, b: App, c: Seq<CommandView>, k: KeyInput) -> bool {
    if a.qr.open {
        qr_step(a, b, c, k)
    } else if a.help_open {
        c.len() == 0 && if k.code == KeyCode::Esc || k.code == KeyCode::Enter || is_char(k, '?') || is_char(k, 'q')
            || is_char(k, 'h') {
            b == App { help_open: false, ..a }
        } else {
            b == a
        }
    } else if is_char(k, '?') && question_opens_help_spec(a) {
        b == App { help_open: true, ..a } && c.len() == 0
    } else {
        match a.screen {
            Screen::WorkspacePicker => picker_step(a, b, c, k),
            Screen::Auth => auth_step(a, b, c, k),
            Screen::LinkList => list_step(a, b, c, k),
            Screen::LinkDetail => detail_step(a, b, c, k),
            Screen::CreateLink => create_step(a, b, c, k),
            Screen::Import => import_step(a, b, c, k),
        }
    }
}

proof fn lemma_detail_wf(a: App, b: App, c: Seq<CommandView>, k: KeyInput)
    requires
        app_wf(a),
        detail_step(a, b, c, k),
    ensures
        app_wf(b),
{
    reveal(detail_left);
    reveal(reloaded);
    reveal(save_requested);
    reveal(qr_for_selected);
    reveal(qr_opened);
}

proof fn lemma_create_wf(a: App, b: App, c: Seq<CommandView>, k: KeyInput)
    requires
        app_wf(a),
        create_step(a, b, c, k),
    ensures
        app_wf(b),
{
    reveal(create_entered);
    reveal(submitted);
    reveal(form_typed);
}

proof fn lemma_import_wf(a: App, b: App, c: Seq<CommandView>, k: KeyInput)
    requires
        app_wf(a),
        import_step(a, b, c, k),
    ensures
        app_wf(b),
{
    reveal(import_closed);
    reveal(reloaded);
    reveal(import_started);
    reveal(qr_generation_started);
}

/// Every reply keeps the state invariant.
pub proof fn lemma_async_wf(a: App, b: App, c: Seq<CommandView>, msg: AsyncMsg)
    requires
        app_wf(a),
        async_step(a, b, c, msg),
    ensures
        app_wf(b),
{
    reveal(links_loaded);
    reveal(workspaces_loaded);
    reveal(workspace_recorded);
    reveal(link_created);
    reveal(link_updated);
    reveal(qr_opened);
    reveal(detail_left);
    reveal(reloaded);
}

impl App {
    /// Whether `?` opens the help overlay on the current screen.
    pub(crate) fn question_opens_help(&self) -> (r: bool)
        ensures
            r == question_opens_help_spec(*self),
    {
        match self.screen {
            Screen::Auth => false,
            Screen::WorkspacePicker => true,
            // No import stage has a text field.
            Screen::Import => true,
            Screen::LinkList => !self.list.searching && !self.list.sort_open && !self.session.store_prompt,
            Screen::LinkDetail => match &self.editor {
                Some(e) => e.mode == DetailMode::Nav,
                None => true,
            },
            Screen::CreateLink => {
                self.create_form.domain_selector.is_none() && self.create_form.input(self.create_form.current()).is_none()
            },
        }
    }

    fn on_screen_key(&mut self, key: KeyInput) -> (r: Vec<Command>)
        requires
            app_wf(*old(self)),
        ensures
            match old(self).screen {
                Screen::WorkspacePicker => picker_step(*old(self), *final(self), cmds_view(r@), key),
                Screen::Auth => auth_step(*old(self), *final(self), cmds_view(r@), key),
                Screen::LinkList => list_step(*old(self), *final(self), cmds_view(r@), key),
                Screen::LinkDetail => detail_step(*old(self), *final(self), cmds_view(r@), key),
                Screen::CreateLink => create_step(*old(self), *final(self), cmds_view(r@), key),
                Screen::Import => import_step(*old(self), *final(self), cmds_view(r@), key),
            },
            app_wf(*final(self)),
    {
        let ghost a = *self;
        match self.screen {
            Screen::WorkspacePicker => self.on_picker_key(key),
            Screen::Auth => self.on_auth_key(key),
            Screen::LinkList => self.on_list_key(key),
            Screen::LinkDetail => {
                let r = self.on_detail_key(key);
                proof {
                    lemma_detail_wf(a, *self, cmds_view(r@), key);
                }
                r
            },
            Screen::CreateLink => {
                let r = self.on_create_key(key);
                proof {
                    lemma_create_wf(a, *self, cmds_view(r@), key);
                }
                r
            },
            Screen::Import => {
                let r = self.on_import_key(key);
                proof {
                    lemma_import_wf(a, *self, cmds_view(r@), key);
                }
                r
            },
        }
    }

    /// Handle one key press; returns what the outside world is asked to do.
    pub fn on_event(&mut self, key: KeyInput) -> (r: Vec<Command>)
        requires
            app_wf(*old(self)),
        ensures
            event_step(*old(self), *final(self), cmds_view(r@), key),
            app_wf(*final(self)),
    {
        // The QR dialog is a global overlay; it takes keys on any screen.
        if self.qr.open {
            return self.on_qr_settings_key(key);
        }
        // The help overlay swallows keys; the obvious ones dismiss it.
        if self.help_open {
            match key.code {
                KeyCode::Esc | KeyCode::Enter | KeyCode::Char('?') | KeyCode::Char('q') | KeyCode::Char('h') => {
                    self.help_open = false;
                },
                _ => {},
            }
            return no_commands();
        }
        // `?` opens help, except where a text field has the focus.
        if key.code == KeyCode::Char('?') && self.question_opens_help() {
            self.help_open = true;
            return no_commands();
        }
        self.on_screen_key(key)
    }

    /// Take in one result of API work; returns what the outside world is
    /// asked to do next.
    pub fn on_async(&mut self, msg: AsyncMsg) -> (r: Vec<Command>)
        requires
            app_wf(*old(self)),
        ensures
            async_step(*old(self), *final(self), cmds_view(r@), msg),
            app_wf(*final(self)),
    {
        let ghost a = *self;
        let ghost m = msg;
        let r = self.apply_reply(msg);
        proof {
            lemma_async_wf(a, *self, cmds_view(r@), m);
        }
        r
    }
}

} // verus!
