//! The QR dialog: format, size and colours, then the export it was opened
//! for (one link, or the whole workspace), or just the saved defaults.

use vstd::prelude::*;

use crate::app::{
    QrDialog, api_field_spec, app_wf, cmds_view, command_view, edited, fresh_input, is_char,
    no_commands, settings_view, sort_dir, sort_dir_spec, unchanged, App, Command, CommandView,
    QrExportTarget, QrSingle,
};
use crate::input::{EditRequest, KeyCode, KeyInput, TextInput};
use crate::qr::{
    file_name_ext, file_name_ext_spec, join_path, normalize_color, normalize_color_spec,
    workspace_output_dir, QrFormat, QrSettings,
};
use crate::text::{
    int_decimal, nat_decimal, parse_u32, parse_u32_spec, push_str, push_u64, to_owned_string, trim,
    trim_string, u64_to_string,
};

verus! {

/// The value of an export target.
pub enum QrTargetView {
    Single { id: Option<i64>, slug: Option<Seq<char>>, name: Option<Seq<char>>, url: Seq<char> },
    Workspace,
}

pub open spec fn qr_target_view(t: QrExportTarget) -> QrTargetView {
    match t {
        QrExportTarget::Single(q) => QrTargetView::Single {
            id: q.id,
            slug: q.slug.deep_view(),
            name: q.name.deep_view(),
            url: q.url@,
        },
        QrExportTarget::Workspace => QrTargetView::Workspace,
    }
}

pub open spec fn opt_qr_target_view(t: Option<QrExportTarget>) -> Option<QrTargetView> {
    match t {
        Some(t) => Some(qr_target_view(t)),
        None => None,
    }
}

/// The file extension of a format.
pub open spec fn format_ext(f: QrFormat) -> Seq<char> {
    match f {
        QrFormat::Png => "png"@,
        QrFormat::Svg => "svg"@,
        QrFormat::Jpeg => "jpg"@,
    }
}

/// The name of a format shown in the dialog.
pub open spec fn format_label(f: QrFormat) -> Seq<char> {
    match f {
        QrFormat::Png => "PNG"@,
        QrFormat::Svg => "SVG"@,
        QrFormat::Jpeg => "JPEG"@,
    }
}

/// Where the QR code of a link goes: `linkly-qr/{workspace}/{file name}`.
pub open spec fn qr_path_spec(
    workspace_id: i64,
    id: Option<i64>,
    slug: Option<Seq<char>>,
    name: Option<Seq<char>>,
    f: QrFormat,
) -> Seq<char> {
    "linkly-qr/"@ + int_decimal(workspace_id as int) + "/"@ + file_name_ext_spec(id, slug, name, format_ext(f))
}

/// `b` is `a` with the QR dialog opened for `pending`: focus on the format,
/// the inputs holding the current size and colours.
#[verifier::opaque]
pub open spec fn qr_opened(a: App, b: App, pending: Option<QrTargetView>) -> bool {
    &&& b == App { qr: QrDialog { pending: b.qr.pending, focus: 0, size_input: b.qr.size_input, fg_input: b.qr.fg_input, bg_input: b.qr.bg_input, open: true, ..a.qr }, ..a }
    &&& opt_qr_target_view(b.qr.pending) == pending
    &&& fresh_input(b.qr.size_input, nat_decimal(a.qr.settings.size as nat))
    &&& fresh_input(b.qr.fg_input, a.qr.settings.fg@)
    &&& fresh_input(b.qr.bg_input, a.qr.settings.bg@)
}

/// The size typed in the dialog, kept within 64..=4096; the current size
/// when it is not a number.
pub open spec fn typed_size(a: App) -> u32 {
    match parse_u32_spec(trim(a.qr.size_input.text())) {
        Some(v) => if v < 64 {
            64
        } else if v > 4096 {
            4096
        } else {
            v
        },
        None => a.qr.settings.size,
    }
}

/// A typed colour in `#rrggbb` form, or `current` when it is not one.
pub open spec fn typed_color(typed: Seq<char>, current: Seq<char>) -> Seq<char> {
    match normalize_color_spec(typed) {
        Some(c) => c,
        None => current,
    }
}

/// The settings the confirmed dialog saves.
pub open spec fn committed_settings(a: App) -> (QrFormat, u32, Seq<char>, Seq<char>) {
    (
        a.qr.settings.format,
        typed_size(a),
        typed_color(a.qr.fg_input.text(), a.qr.settings.fg@),
        typed_color(a.qr.bg_input.text(), a.qr.settings.bg@),
    )
}

/// The status line after saving settings without an export.
pub open spec fn saved_settings_status(s: (QrFormat, u32, Seq<char>, Seq<char>)) -> Seq<char> {
    "QR settings saved \u{b7} "@ + format_label(s.0) + " \u{b7} "@ + nat_decimal(s.1 as nat) + "px \u{b7} "@ + s.2
        + " on "@ + s.3
}

/// `b` is `a` after the dialog is closed: cancelled (`confirmed` false),
/// nothing is saved or exported; confirmed, the typed settings are adopted
/// and saved, then the pending export is asked for (a single link's file,
/// or every link of the workspace when there is a session), or, with
/// nothing pending, the saved settings are shown.
#[verifier::opaque]
pub open spec fn commit_post(a: App, b: App, c: Seq<CommandView>, confirmed: bool) -> bool {
    if !confirmed {
        &&& b == App { status: b.status, qr: QrDialog { open: false, pending: None, ..a.qr }, ..a }
        &&& b.status@ == "QR export cancelled"@
        &&& c.len() == 0
    } else {
        let s = committed_settings(a);
        let save = CommandView::SaveQrSettings { settings: s };
        &&& settings_view(b.qr.settings) == s
        &&& match a.qr.pending {
            Some(QrExportTarget::Single(q)) => {
                &&& b == App { qr: QrDialog { open: false, pending: None, settings: b.qr.settings, ..a.qr }, ..a }
                &&& c == seq![
                    save,
                    CommandView::WriteQr {
                        url: q.url@,
                        path: qr_path_spec(a.session.workspace_id, q.id, q.slug.deep_view(), q.name.deep_view(), s.0),
                        settings: s,
                    },
                ]
            },
            Some(QrExportTarget::Workspace) => if a.session.connected {
                &&& b == App { status: b.status, loading: true, qr: QrDialog { open: false, pending: None, settings: b.qr.settings, ..a.qr }, ..a }
                &&& b.status@ == "Exporting QR codes\u{2026}"@
                &&& c == seq![
                    save,
                    CommandView::ExportWorkspaceQr {
                        workspace_id: a.session.workspace_id,
                        search: a.list.search@,
                        sort_by: api_field_spec(a.list.sort_field),
                        sort_dir: sort_dir_spec(a.list.sort_desc),
                        settings: s,
                    },
                ]
            } else {
                &&& b == App { qr: QrDialog { open: false, pending: None, settings: b.qr.settings, ..a.qr }, ..a }
                &&& c == seq![save]
            },
            None => {
                &&& b == App { status: b.status, qr: QrDialog { open: false, pending: None, settings: b.qr.settings, ..a.qr }, ..a }
                &&& b.status@ == saved_settings_status(s)
                &&& c == seq![save]
            },
        }
    }
}

/// One key in the QR dialog.
pub open spec fn qr_step(a: App, b: App, c: Seq<CommandView>, k: KeyInput) -> bool {
    let f = a.qr.focus;
    if k.code == KeyCode::Enter {
        commit_post(a, b, c, true)
    } else if k.code == KeyCode::Esc {
        commit_post(a, b, c, false)
    } else if k.code == KeyCode::Up || k.code == KeyCode::BackTab {
        b == App { qr: QrDialog { focus: ((f + 3) % 4) as usize, ..a.qr }, ..a } && c.len() == 0
    } else if k.code == KeyCode::Down || k.code == KeyCode::Tab {
        b == App { qr: QrDialog { focus: ((f + 1) % 4) as usize, ..a.qr }, ..a } && c.len() == 0
    } else if (k.code == KeyCode::Left || is_char(k, 'h')) && f == 0 {
        b == App { qr: QrDialog { settings: QrSettings { format: prev_format(a.qr.settings.format), ..a.qr.settings }, ..a.qr }, ..a }
            && c.len() == 0
    } else if (k.code == KeyCode::Right || is_char(k, 'l') || is_char(k, ' ')) && f == 0 {
        b == App { qr: QrDialog { settings: QrSettings { format: next_format(a.qr.settings.format), ..a.qr.settings }, ..a.qr }, ..a }
            && c.len() == 0
    } else {
        match k.edit {
            Some(req) => c.len() == 0 && if f == 1 {
                b == App { qr: QrDialog { size_input: b.qr.size_input, ..a.qr }, ..a } && edited(a.qr.size_input, b.qr.size_input, req)
            } else if f == 2 {
                b == App { qr: QrDialog { fg_input: b.qr.fg_input, ..a.qr }, ..a } && edited(a.qr.fg_input, b.qr.fg_input, req)
            } else if f == 3 {
                b == App { qr: QrDialog { bg_input: b.qr.bg_input, ..a.qr }, ..a } && edited(a.qr.bg_input, b.qr.bg_input, req)
            } else {
                b == a
            },
            None => unchanged(a, b, c),
        }
    }
}

pub open spec fn next_format(f: QrFormat) -> QrFormat {
    match f {
        QrFormat::Png => QrFormat::Svg,
        QrFormat::Svg => QrFormat::Jpeg,
        QrFormat::Jpeg => QrFormat::Png,
    }
}

pub open spec fn prev_format(f: QrFormat) -> QrFormat {
    match f {
        QrFormat::Png => QrFormat::Jpeg,
        QrFormat::Svg => QrFormat::Png,
        QrFormat::Jpeg => QrFormat::Svg,
    }
}

fn copy_target(t: &QrExportTarget) -> (r: QrExportTarget)
    ensures
        qr_target_view(r) == qr_target_view(*t),
{
    match t {
        QrExportTarget::Single(q) => QrExportTarget::Single(QrSingle {
            id: q.id,
            slug: crate::models::clone_opt_string(&q.slug),
            name: crate::models::clone_opt_string(&q.name),
            url: q.url.clone(),
        }),
        QrExportTarget::Workspace => QrExportTarget::Workspace,
    }
}

/// The status line for saved settings.
fn saved_settings_line(s: &QrSettings) -> (r: String)
    ensures
        r@ == saved_settings_status(settings_view(*s)),
{
    let mut r = to_owned_string("QR settings saved \u{b7} ");
    push_str(&mut r, s.format.label());
    push_str(&mut r, " \u{b7} ");
    push_u64(&mut r, s.size as u64);
    push_str(&mut r, "px \u{b7} ");
    push_str(&mut r, s.fg.as_str());
    push_str(&mut r, " on ");
    push_str(&mut r, s.bg.as_str());
    r
}

/// The path of the QR file of a captured link.
pub fn qr_path(workspace_id: i64, q: &QrSingle, f: QrFormat) -> (r: String)
    ensures
        r@ == qr_path_spec(workspace_id, q.id, q.slug.deep_view(), q.name.deep_view(), f),
{
    let name = file_name_ext(
        q.id,
        match &q.slug {
            Some(s) => Some(s.as_str()),
            None => None,
        },
        match &q.name {
            Some(s) => Some(s.as_str()),
            None => None,
        },
        f.extension(),
    );
    let dir = workspace_output_dir(workspace_id);
    join_path(dir.as_str(), name.as_str())
}

/// The settings `s` with the size and colours typed in the dialog adopted
/// where they are valid (the size kept within 64..=4096).
fn typed_settings(s: &QrSettings, size: &TextInput, fg: &TextInput, bg: &TextInput) -> (r: QrSettings)
    ensures
        r.format == s.format,
        r.size == match parse_u32_spec(trim(size.text())) {
            Some(v) => if v < 64 {
                64
            } else if v > 4096 {
                4096
            } else {
                v
            },
            None => s.size,
        },
        r.fg@ == typed_color(fg.text(), s.fg@),
        r.bg@ == typed_color(bg.text(), s.bg@),
{
    let typed = trim_string(size.value());
    let size = match parse_u32(typed.as_str()) {
        Some(sz) => if sz < 64 {
            64
        } else if sz > 4096 {
            4096
        } else {
            sz
        },
        None => s.size,
    };
    let fg = match normalize_color(fg.value()) {
        Some(c) => c,
        None => s.fg.clone(),
    };
    let bg = match normalize_color(bg.value()) {
        Some(c) => c,
        None => s.bg.clone(),
    };
    QrSettings { format: s.format, size, fg, bg }
}

/// How the QR dialog names what it exports.
pub open spec fn qr_export_label_spec(t: QrExportTarget) -> Seq<char> {
    match t {
        QrExportTarget::Single(_) => "link"@,
        QrExportTarget::Workspace => "workspace"@,
    }
}

impl App {
    /// What the open QR dialog will export, for its title: one link, the
    /// whole workspace, or nothing (settings only).
    pub fn qr_export_label(&self) -> (r: Option<&'static str>)
        ensures
            r matches Some(l) ==> (self.qr.pending matches Some(t) && l@ == qr_export_label_spec(t)),
            r is None <==> self.qr.pending is None,
    {
        match &self.qr.pending {
            Some(QrExportTarget::Single(_)) => Some("link"),
            Some(QrExportTarget::Workspace) => Some("workspace"),
            None => None,
        }
    }

    /// Open the QR dialog for `pending` (`None`: the defaults alone).
    pub(crate) fn open_qr_settings(&mut self, pending: Option<QrExportTarget>)
        ensures
            qr_opened(*old(self), *final(self), opt_qr_target_view(pending)),
            final(self).status == old(self).status,
    {
        reveal(qr_opened);
        self.qr.pending = pending;
        self.qr.focus = 0;
        self.qr.size_input = TextInput::new(u64_to_string(self.qr.settings.size as u64));
        self.qr.fg_input = TextInput::new(self.qr.settings.fg.clone());
        self.qr.bg_input = TextInput::new(self.qr.settings.bg.clone());
        self.qr.open = true;
    }

    fn adopt_typed_settings(&mut self)
        ensures
            settings_view(final(self).qr.settings) == committed_settings(*old(self)),
            *final(self) == (App { qr: QrDialog { settings: final(self).qr.settings, ..old(self).qr }, ..*old(self) }),
    {
        let s = typed_settings(&self.qr.settings, &self.qr.size_input, &self.qr.fg_input, &self.qr.bg_input);
        self.qr.settings = s;
    }

    /// Close the dialog: when `confirmed`, adopt and save the typed
    /// settings and run the pending export; when cancelled, do neither.
    pub(crate) fn commit_qr_settings(&mut self, confirmed: bool) -> (r: Vec<Command>)
        requires
            app_wf(*old(self)),
        ensures
            commit_post(*old(self), *final(self), cmds_view(r@), confirmed),
            app_wf(*final(self)),
    {
        reveal(commit_post);
        reveal(command_view);
        let ghost a = *self;
        self.qr.open = false;
        let pending = match &self.qr.pending {
            Some(t) => Some(copy_target(t)),
            None => None,
        };
        self.qr.pending = None;
        if !confirmed {
            self.status = to_owned_string("QR export cancelled");
            return no_commands();
        }
        self.adopt_typed_settings();
        let mut r: Vec<Command> = Vec::new();
        r.push(Command::SaveQrSettings { settings: self.qr.settings.duplicate() });
        match pending {
            Some(QrExportTarget::Single(q)) => {
                let path = qr_path(self.session.workspace_id, &q, self.qr.settings.format);
                r.push(Command::WriteQr { url: q.url, path, settings: self.qr.settings.duplicate() });
            },
            Some(QrExportTarget::Workspace) => {
                if self.session.connected {
                    self.status = to_owned_string("Exporting QR codes\u{2026}");
                    self.loading = true;
                    r.push(Command::ExportWorkspaceQr {
                        workspace_id: self.session.workspace_id,
                        search: self.list.search.clone(),
                        sort_by: self.list.sort_field.api_field(),
                        sort_dir: sort_dir(self.list.sort_desc),
                        settings: self.qr.settings.duplicate(),
                    });
                }
            },
            None => {
                self.status = saved_settings_line(&self.qr.settings);
            },
        }
        proof {
            let s = committed_settings(a);
            match a.qr.pending {
                Some(QrExportTarget::Single(q)) => {
                    assert(cmds_view(r@) =~= seq![
                        CommandView::SaveQrSettings { settings: s },
                        CommandView::WriteQr {
                            url: q.url@,
                            path: qr_path_spec(a.session.workspace_id, q.id, q.slug.deep_view(), q.name.deep_view(), s.0),
                            settings: s,
                        },
                    ]);
                },
                Some(QrExportTarget::Workspace) => {
                    if a.session.connected {
                        assert(cmds_view(r@) =~= seq![
                            CommandView::SaveQrSettings { settings: s },
                            CommandView::ExportWorkspaceQr {
                                workspace_id: a.session.workspace_id,
                                search: a.list.search@,
                                sort_by: api_field_spec(a.list.sort_field),
                                sort_dir: sort_dir_spec(a.list.sort_desc),
                                settings: s,
                            },
                        ]);
                    } else {
                        assert(cmds_view(r@) =~= seq![CommandView::SaveQrSettings { settings: s }]);
                    }
                },
                None => {
                    assert(cmds_view(r@) =~= seq![CommandView::SaveQrSettings { settings: s }]);
                },
            }
        }
        r
    }

    /// One key in the QR dialog.
    pub(crate) fn on_qr_settings_key(&mut self, key: KeyInput) -> (r: Vec<Command>)
        requires
            app_wf(*old(self)),
        ensures
            qr_step(*old(self), *final(self), cmds_view(r@), key),
            app_wf(*final(self)),
    {
        let fields: usize = 4;
        match key.code {
            KeyCode::Enter => self.commit_qr_settings(true),
            KeyCode::Esc => self.commit_qr_settings(false),
            KeyCode::Up | KeyCode::BackTab => {
                self.qr.focus = (self.qr.focus + fields - 1) % fields;
                no_commands()
            },
            KeyCode::Down | KeyCode::Tab => {
                self.qr.focus = (self.qr.focus + 1) % fields;
                no_commands()
            },
            _ => {
                let left = key.code == KeyCode::Left || key.code == KeyCode::Char('h');
                let right = key.code == KeyCode::Right || key.code == KeyCode::Char('l') || key.code
                    == KeyCode::Char(' ');
                if left && self.qr.focus == 0 {
                    self.qr.settings.format = self.qr.settings.format.prev();
                } else if right && self.qr.focus == 0 {
                    self.qr.settings.format = self.qr.settings.format.next();
                } else {
                    match key.edit {
                        Some(req) => self.qr_edit(req),
                        None => {},
                    }
                }
                no_commands()
            },
        }
    }

    fn qr_edit(&mut self, req: EditRequest)
        ensures
            old(self).qr.focus == 1 ==> *final(self) == (App { qr: QrDialog { size_input: final(self).qr.size_input, ..old(self).qr }, ..*old(self) })
                && edited(old(self).qr.size_input, final(self).qr.size_input, req),
            old(self).qr.focus == 2 ==> *final(self) == (App { qr: QrDialog { fg_input: final(self).qr.fg_input, ..old(self).qr }, ..*old(self) })
                && edited(old(self).qr.fg_input, final(self).qr.fg_input, req),
            old(self).qr.focus == 3 ==> *final(self) == (App { qr: QrDialog { bg_input: final(self).qr.bg_input, ..old(self).qr }, ..*old(self) })
                && edited(old(self).qr.bg_input, final(self).qr.bg_input, req),
            !(1 <= old(self).qr.focus <= 3) ==> *final(self) == *old(self),
    {
        if self.qr.focus == 1 {
            self.qr.size_input.handle(req);
        } else if self.qr.focus == 2 {
            self.qr.fg_input.handle(req);
        } else if self.qr.focus == 3 {
            self.qr.bg_input.handle(req);
        }
    }

    /// The answer to [`Command::WriteQr`]: where the file went, or why not.
    pub fn qr_written(&mut self, path: String, result: Result<(), String>)
        ensures
            *final(self) == (App { status: final(self).status, ..*old(self) }),
            final(self).status@ == match result {
                Ok(()) => "Saved QR to "@ + path@,
                Err(e) => "Error: "@ + e@,
            },
    {
        let mut s = match &result {
            Ok(()) => to_owned_string("Saved QR to "),
            Err(_) => to_owned_string("Error: "),
        };
        match &result {
            Ok(()) => push_str(&mut s, path.as_str()),
            Err(e) => push_str(&mut s, e.as_str()),
        }
        self.status = s;
    }
}

} // verus!
