//! The create-link screen: field focus, editing, the domain picker and
//! submission.

use vstd::prelude::*;

use crate::app::{
    cmds_view, command_view, is_char, no_commands, unchanged, App, Command, CommandView, Screen,
};
use crate::create_form::{
    current_field, field_list, form_edited, form_toggled, selected_domain, CreateForm,
    DomainSelector, Field,
};
use crate::input::{KeyCode, KeyInput};
use crate::text::{push_str, to_owned_string, trim};

verus! {

/// `b` is `a` with only the create form changed, to one that `rel` relates
/// to the old one.
pub open spec fn form_changed(a: App, b: App, rel: spec_fn(CreateForm, CreateForm) -> bool) -> bool {
    b == App { create_form: b.create_form, ..a } && rel(a.create_form, b.create_form)
}

/// `b` is `a` after submitting the form: a blank URL is refused (the status
/// says why); with a session, the request built from the form is sent.
#[verifier::opaque]
pub open spec fn submitted(a: App, b: App, c: Seq<CommandView>) -> bool {
    if trim(a.create_form.url.text()).len() == 0 {
        &&& b == App { status: b.status, ..a }
        &&& b.status@ == "Cannot submit: "@ + "URL is required"@
        &&& c.len() == 0
    } else if !a.session.connected {
        unchanged(a, b, c)
    } else {
        &&& b == App { status: b.status, loading: true, ..a }
        &&& b.status@ == "Creating link\u{2026}"@
        &&& c == seq![CommandView::CreateLink { body: a.create_form.build_spec(a.session.workspace_id) }]
    }
}

/// One key while the domain picker `s` is open.
pub open spec fn domain_picker_step(a: App, b: App, c: Seq<CommandView>, k: KeyInput, s: DomainSelector) -> bool {
    let f = a.create_form;
    &&& c.len() == 0
    &&& if k.code == KeyCode::Esc {
        b == App { create_form: CreateForm { domain_selector: None, ..f }, ..a }
    } else if k.code == KeyCode::Up || is_char(k, 'k') {
        b == App {
            create_form: CreateForm {
                domain_selector: Some(
                    DomainSelector {
                        selected: Some(
                            (match s.selected {
                                Some(i) => if i == 0 { 0 } else { i - 1 },
                                None => 0,
                            }) as usize,
                        ),
                        ..s
                    },
                ),
                ..f
            },
            ..a
        }
    } else if k.code == KeyCode::Down || is_char(k, 'j') {
        b == App {
            create_form: CreateForm {
                domain_selector: Some(
                    DomainSelector {
                        selected: Some(
                            ({
                                let i: int = match s.selected {
                                    Some(i) => i as int,
                                    None => 0,
                                };
                                let last: int = if s.options@.len() == 0 { 0 } else { s.options@.len() - 1 };
                                if i < last {
                                    i + 1
                                } else {
                                    last
                                }
                            }) as usize,
                        ),
                        ..s
                    },
                ),
                ..f
            },
            ..a
        }
    } else if k.code == KeyCode::Enter {
        &&& b == App {
            create_form: CreateForm { domain: b.create_form.domain, domain_selector: None, ..f },
            ..a
        }
        &&& b.create_form.domain.deep_view() == selected_domain(s)
    } else {
        b == a
    }
}

/// `b` is `a` after `Enter` on the focused field: the domain picker opens
/// (default domain first, then the workspace's domains), the form is
/// submitted, a boolean flips, or the focus moves on.
#[verifier::opaque]
pub open spec fn create_entered(a: App, b: App, c: Seq<CommandView>) -> bool {
    let f = a.create_form;
    let cur = current_field(f);
    if cur == Field::Domain {
        &&& b == App { create_form: CreateForm { domain_selector: b.create_form.domain_selector, ..f }, ..a }
        &&& b.create_form.domain_selector matches Some(s) && s.selected == Some(0usize)
            && s.options.deep_view() == seq![None::<Seq<char>>] + a.domains@.map_values(|d: String| Some(d@))
        &&& c.len() == 0
    } else if cur == Field::Submit {
        submitted(a, b, c)
    } else if f.bool_of(cur) is Some {
        form_changed(a, b, |o: CreateForm, n: CreateForm| form_toggled(o, n, cur)) && c.len() == 0
    } else {
        c.len() == 0 && b == App {
            create_form: CreateForm {
                focus: ((f.focus + 1) % (field_list(f.show_advanced).len() as int)) as usize,
                ..f
            },
            ..a
        }
    }
}

/// One key on the create screen: the domain picker comes first, then
/// Control-A (advanced fields), then the form.
pub open spec fn create_step(a: App, b: App, c: Seq<CommandView>, k: KeyInput) -> bool {
    let f = a.create_form;
    let n = field_list(f.show_advanced).len() as int;
    match f.domain_selector {
        Some(s) => domain_picker_step(a, b, c, k, s),
        None => if is_char(k, 'a') && k.ctrl {
            c.len() == 0 && b == App {
                create_form: CreateForm {
                    show_advanced: !f.show_advanced,
                    focus: if f.focus < field_list(!f.show_advanced).len() {
                        f.focus
                    } else {
                        (field_list(!f.show_advanced).len() - 1) as usize
                    },
                    ..f
                },
                ..a
            }
        } else {
            form_key_step(a, b, c, k)
        }
    }
}

/// One key on the form itself.
pub open spec fn form_key_step(a: App, b: App, c: Seq<CommandView>, k: KeyInput) -> bool {
    let f = a.create_form;
    let n = field_list(f.show_advanced).len() as int;
    if k.code == KeyCode::Esc {
        b == App { screen: Screen::LinkList, ..a } && c.len() == 0
    } else if k.code == KeyCode::Tab || k.code == KeyCode::Down {
        c.len() == 0 && b == App { create_form: CreateForm { focus: ((f.focus + 1) % n) as usize, ..f }, ..a }
    } else if k.code == KeyCode::BackTab || k.code == KeyCode::Up {
        c.len() == 0 && b == App { create_form: CreateForm { focus: ((f.focus + n - 1) % n) as usize, ..f }, ..a }
    } else if k.code == KeyCode::Enter {
        create_entered(a, b, c)
    } else {
        form_typed(a, b, c, k)
    }
}

/// A key typed into the focused field: space flips a boolean field, an
/// editing key edits a text field.
#[verifier::opaque]
pub open spec fn form_typed(a: App, b: App, c: Seq<CommandView>, k: KeyInput) -> bool {
    let f = a.create_form;
    let cur = current_field(f);
    if is_char(k, ' ') && f.bool_of(cur) is Some {
        form_changed(a, b, |o: CreateForm, n: CreateForm| form_toggled(o, n, cur)) && c.len() == 0
    } else {
        match k.edit {
            Some(req) => form_changed(a, b, |o: CreateForm, n: CreateForm| form_edited(o, n, cur, req)) && c.len()
                == 0,
            None => unchanged(a, b, c),
        }
    }
}

impl App {
    fn submit_create(&mut self) -> (r: Vec<Command>)
        ensures
            submitted(*old(self), *final(self), cmds_view(r@)),
    {
        reveal(submitted);
        match self.create_form.validate() {
            Err(e) => {
                let mut s = to_owned_string("Cannot submit: ");
                push_str(&mut s, e.as_str());
                self.status = s;
                return no_commands();
            },
            Ok(()) => {},
        }
        if !self.session.connected {
            return no_commands();
        }
        let body = self.create_form.build(self.session.workspace_id);
        self.status = to_owned_string("Creating link\u{2026}");
        self.loading = true;
        let mut r: Vec<Command> = Vec::new();
        let ghost bv = body@;
        r.push(Command::CreateLink { body });
        reveal(command_view);
        assert(cmds_view(r@) =~= seq![CommandView::CreateLink { body: bv }]);
        r
    }

    fn on_create_enter(&mut self) -> (r: Vec<Command>)
        ensures
            create_entered(*old(self), *final(self), cmds_view(r@)),
    {
        reveal(create_entered);
        let f = self.create_form.current();
        if f == Field::Domain {
            self.create_form.domain_selector = Some(DomainSelector::new(self.domains.as_slice()));
            no_commands()
        } else if f == Field::Submit {
            self.submit_create()
        } else if self.create_form.bool_value(f).is_some() {
            self.create_form.toggle_bool(f);
            no_commands()
        } else {
            self.create_form.focus_next();
            no_commands()
        }
    }

    fn on_domain_picker_key(&mut self, key: KeyInput) -> (r: Vec<Command>)
        requires
            old(self).create_form.domain_selector is Some,
        ensures
            domain_picker_step(*old(self), *final(self), cmds_view(r@), key, old(self).create_form.domain_selector->0),
    {
        match key.code {
            KeyCode::Esc => {
                self.create_form.domain_selector = None;
            },
            KeyCode::Up | KeyCode::Char('k') => {
                match &mut self.create_form.domain_selector {
                    Some(s) => s.move_up(),
                    None => {},
                }
            },
            KeyCode::Down | KeyCode::Char('j') => {
                match &mut self.create_form.domain_selector {
                    Some(s) => s.move_down(),
                    None => {},
                }
            },
            KeyCode::Enter => {
                let chosen = match &self.create_form.domain_selector {
                    Some(s) => s.selected(),
                    None => None,
                };
                self.create_form.domain = chosen;
                self.create_form.domain_selector = None;
            },
            _ => {},
        }
        no_commands()
    }

    /// One key on the create screen.
    pub(crate) fn on_create_key(&mut self, key: KeyInput) -> (r: Vec<Command>)
        ensures
            create_step(*old(self), *final(self), cmds_view(r@), key),
    {
        if self.create_form.domain_selector.is_some() {
            return self.on_domain_picker_key(key);
        }
        // Control-A toggles the advanced fields whatever is focused.
        if key.code == KeyCode::Char('a') && key.ctrl {
            self.create_form.toggle_advanced();
            return no_commands();
        }
        self.on_form_key(key)
    }

    fn on_form_key(&mut self, key: KeyInput) -> (r: Vec<Command>)
        ensures
            form_key_step(*old(self), *final(self), cmds_view(r@), key),
    {
        match key.code {
            KeyCode::Esc => {
                self.screen = Screen::LinkList;
                no_commands()
            },
            KeyCode::Tab | KeyCode::Down => {
                self.create_form.focus_next();
                no_commands()
            },
            KeyCode::BackTab | KeyCode::Up => {
                self.create_form.focus_prev();
                no_commands()
            },
            KeyCode::Enter => self.on_create_enter(),
            _ => self.type_into_form(key),
        }
    }

    fn type_into_form(&mut self, key: KeyInput) -> (r: Vec<Command>)
        ensures
            form_typed(*old(self), *final(self), cmds_view(r@), key),
    {
        reveal(form_typed);
        let f = self.create_form.current();
        if key.code == KeyCode::Char(' ') && self.create_form.bool_value(f).is_some() {
            self.create_form.toggle_bool(f);
        } else {
            match key.edit {
                Some(req) => {
                    self.create_form.edit(f, req);
                },
                None => {},
            }
        }
        no_commands()
    }
}

} // verus!
