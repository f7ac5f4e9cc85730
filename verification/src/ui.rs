//! Decisions of the rendering layer that do not depend on the terminal:
//! cutting long values to a column width, the key help of each screen, and
//! the text the screens show.

use vstd::prelude::*;

use crate::app::qr_dialog::qr_export_label_spec;
use crate::app::{App, Screen};
use crate::import::{ParsedImport, RowView, Summary};
use crate::text::{chars_of, push_char, push_str, string_of, to_owned_string};

verus! {

/// `s` cut to at most `max` characters, ending in `…` when it was cut.
pub open spec fn truncate_spec(s: Seq<char>, max: nat) -> Seq<char> {
    if s.len() <= max {
        s
    } else if max == 0 {
        Seq::empty()
    } else {
        s.take(max - 1).push('\u{2026}')
    }
}

/// Truncate `s` to at most `max` display columns, appending `…` when it is
/// cut so it is clear the value is incomplete.
pub fn truncate_ellipsis(s: &str, max: usize) -> (r: String)
    ensures
        r@ == truncate_spec(s@, max as nat),
{
    let v = chars_of(s);
    if v.len() <= max {
        return to_owned_string(s);
    }
    if max == 0 {
        return String::new();
    }
    let mut kept = string_of(v.as_slice(), 0, max - 1);
    push_char(&mut kept, '\u{2026}');
    kept
}

/// The key bindings listed in the help overlay of each screen, as
/// (keys, description).
pub open spec fn keybinds_spec(screen: Screen) -> Seq<(Seq<char>, Seq<char>)> {
    match screen {
        Screen::LinkList => seq![
            ("\u{2191}/\u{2193}  j/k"@, "move selection"@),
            ("Enter"@, "open link details"@),
            ("c"@, "create a link"@),
            ("i"@, "import links from CSV"@),
            ("Q"@, "export QR codes (whole workspace)"@),
            ("o"@, "edit QR defaults"@),
            ("/"@, "search"@),
            ("s"@, "sort"@),
            ("n / p"@, "next / previous page"@),
            ("r"@, "refresh"@),
            ("Esc"@, "back to workspaces"@),
            ("q"@, "quit"@),
        ],
        Screen::LinkDetail => seq![
            ("\u{2191}/\u{2193}"@, "move between fields"@),
            ("Enter"@, "edit field / toggle"@),
            ("s"@, "save changes"@),
            ("Q"@, "export QR for this link"@),
            ("Esc"@, "back (prompts if unsaved)"@),
        ],
        Screen::WorkspacePicker => seq![
            ("\u{2191}/\u{2193}"@, "select workspace"@),
            ("Enter"@, "continue"@),
            ("d"@, "forget workspace (+ stored key)"@),
            ("Esc / q"@, "quit"@),
        ],
        _ => seq![],
    }
}

/// The key bindings shown in the help overlay for a screen.
pub fn screen_keybinds(screen: Screen) -> (r: Vec<(&'static str, &'static str)>)
    ensures
        r@.map_values(|p: (&'static str, &'static str)| (p.0@, p.1@)) == keybinds_spec(screen),
{
    let mut v: Vec<(&'static str, &'static str)> = Vec::new();
    match screen {
        Screen::LinkList => {
            v.push(("\u{2191}/\u{2193}  j/k", "move selection"));
            v.push(("Enter", "open link details"));
            v.push(("c", "create a link"));
            v.push(("i", "import links from CSV"));
            v.push(("Q", "export QR codes (whole workspace)"));
            v.push(("o", "edit QR defaults"));
            v.push(("/", "search"));
            v.push(("s", "sort"));
            v.push(("n / p", "next / previous page"));
            v.push(("r", "refresh"));
            v.push(("Esc", "back to workspaces"));
            v.push(("q", "quit"));
        },
        Screen::LinkDetail => {
            v.push(("\u{2191}/\u{2193}", "move between fields"));
            v.push(("Enter", "edit field / toggle"));
            v.push(("s", "save changes"));
            v.push(("Q", "export QR for this link"));
            v.push(("Esc", "back (prompts if unsaved)"));
        },
        Screen::WorkspacePicker => {
            v.push(("\u{2191}/\u{2193}", "select workspace"));
            v.push(("Enter", "continue"));
            v.push(("d", "forget workspace (+ stored key)"));
            v.push(("Esc / q", "quit"));
        },
        _ => {},
    }
    assert(v@.map_values(|p: (&'static str, &'static str)| (p.0@, p.1@)) =~= keybinds_spec(screen));
    v
}

/// The glyph that leads the status line: a spinner while loading, a cross
/// for errors, a chevron for other messages, nothing when there is none.
pub enum StatusKind {
    Loading,
    Error,
    Info,
    Empty,
}

/// Which glyph the status line gets.
pub fn status_kind(loading: bool, status: &str) -> (r: StatusKind)
    ensures
        r == if loading {
            StatusKind::Loading
        } else if status@.len() >= 5 && status@.take(5) == "Error"@ {
            StatusKind::Error
        } else if status@.len() == 0 {
            StatusKind::Empty
        } else {
            StatusKind::Info
        },
{
    if loading {
        return StatusKind::Loading;
    }
    let v = chars_of(status);
    if v.len() >= 5 {
        let head = string_of(v.as_slice(), 0, 5);
        if crate::text::str_eq(head.as_str(), "Error") {
            return StatusKind::Error;
        }
    }
    if v.len() == 0 {
        StatusKind::Empty
    } else {
        StatusKind::Info
    }
}

/// `s` followed by spaces up to `width` characters; `s` itself when it is
/// that long already.
pub open spec fn pad_spec(s: Seq<char>, width: nat) -> Seq<char> {
    if s.len() >= width {
        s
    } else {
        s + Seq::new((width - s.len()) as nat, |i: int| ' ')
    }
}

/// `s` padded with spaces to `width` characters, so that a column of
/// labels lines up.
pub fn pad_right(s: &str, width: usize) -> (r: String)
    ensures
        r@ == pad_spec(s@, width as nat),
{
    let mut r = to_owned_string(s);
    let n = s.unicode_len();
    let mut i = n;
    while i < width
        invariant
            n == s@.len(),
            n <= i <= width || (i == n && n >= width),
            r@ == s@ + Seq::new((i - n) as nat, |j: int| ' '),
        decreases width - i,
    {
        push_char(&mut r, ' ');
        i = i + 1;
        assert(r@ =~= s@ + Seq::new((i - n) as nat, |j: int| ' '));
    }
    assert(n >= width ==> r@ =~= s@);
    r
}

/// What an input shows: its text, or one bullet per character when
/// masked.
pub open spec fn shown_text(value: Seq<char>, masked: bool) -> Seq<char> {
    if masked {
        Seq::new(value.len(), |i: int| '\u{2022}')
    } else {
        value
    }
}

/// What an input shows when it does not have the focus: its text, or as
/// many bullets as it has characters when masked, so that a secret is
/// never drawn.
pub fn shown(value: &str, masked: bool) -> (r: String)
    ensures
        r@ == shown_text(value@, masked),
        masked ==> r@.len() == value@.len() && forall|i: int| 0 <= i < r@.len() ==> r@[i] == '\u{2022}',
{
    if !masked {
        return to_owned_string(value);
    }
    let n = value.unicode_len();
    let mut r = String::new();
    let mut i: usize = 0;
    while i < n
        invariant
            n == value@.len(),
            i <= n,
            r@ == Seq::new(i as nat, |j: int| '\u{2022}'),
        decreases n - i,
    {
        push_char(&mut r, '\u{2022}');
        i = i + 1;
        assert(r@ =~= Seq::new(i as nat, |j: int| '\u{2022}'));
    }
    r
}

/// An input's text split around its caret, to draw the caret as a block.
pub struct CaretParts {
    /// The text before the caret.
    pub before: String,
    /// The character under the caret; a space when the caret is at the end.
    pub at: String,
    /// The text after the caret.
    pub after: String,
}

/// The shown text of an input split around the caret at `cursor` (past
/// the end counts as the end).
pub fn caret_parts(value: &str, cursor: usize, masked: bool) -> (r: CaretParts)
    ensures
        ({
            let t = shown_text(value@, masked);
            let c = if cursor < t.len() { cursor as int } else { t.len() as int };
            &&& r.before@ == t.take(c)
            &&& r.at@ == if c < t.len() { seq![t[c]] } else { seq![' '] }
            &&& r.after@ == if c < t.len() { t.skip(c + 1) } else { Seq::empty() }
        }),
{
    let v = chars_of(value);
    let mut shown: Vec<char> = Vec::new();
    if masked {
        let mut i: usize = 0;
        while i < v.len()
            invariant
                i <= v@.len(),
                shown@ == Seq::new(i as nat, |j: int| '\u{2022}'),
            decreases v.len() - i,
        {
            shown.push('\u{2022}');
            i = i + 1;
            assert(shown@ =~= Seq::new(i as nat, |j: int| '\u{2022}'));
        }
    } else {
        shown = v;
    }
    let ghost t = shown_text(value@, masked);
    assert(shown@ =~= t);
    let n = shown.len();
    let c = if cursor < n { cursor } else { n };
    let before = string_of(shown.as_slice(), 0, c);
    assert(shown@.subrange(0, c as int) =~= t.take(c as int));
    if c < n {
        let at = string_of(shown.as_slice(), c, c + 1);
        let after = string_of(shown.as_slice(), c + 1, n);
        assert(shown@.subrange(c as int, c + 1) =~= seq![t[c as int]]);
        assert(shown@.subrange(c + 1, n as int) =~= t.skip(c + 1));
        CaretParts { before, at, after }
    } else {
        let at = to_owned_string(" ");
        proof {
            reveal_strlit(" ");
        }
        CaretParts { before, at, after: String::new() }
    }
}

/// At most this many rows are listed in the import preview.
pub const PREVIEW_ROWS: usize = 8;

/// One row of the import preview.
pub enum SampleLine {
    /// A row that will be created: its URL, and `  (slug)` when it has a
    /// slug.
    Valid { url: String, slug_note: String },
    /// A row that is skipped: its line in the file and why.
    Invalid { line: u64, reason: String },
}

/// `l` shows the row `r`.
pub open spec fn shows_row(l: SampleLine, r: RowView) -> bool {
    match r.error {
        Some(e) => l matches SampleLine::Invalid { line, reason } && line == r.line && reason@ == e,
        None => l matches SampleLine::Valid { url, slug_note } && url@ == r.url_display && slug_note@ == if r.slug_display.len() == 0 {
            Seq::<char>::empty()
        } else {
            "  ("@ + r.slug_display + ")"@
        },
    }
}

/// The rows the import preview lists, and how many more there are.
pub struct PreviewSample {
    pub lines: Vec<SampleLine>,
    pub more: usize,
}

/// The first [`PREVIEW_ROWS`] rows of a parse, each as the preview shows
/// it, and the number of rows left out.
pub fn preview_sample(p: &ParsedImport) -> (r: PreviewSample)
    ensures
        r.lines@.len() == if p.rows@.len() < PREVIEW_ROWS { p.rows@.len() } else { PREVIEW_ROWS as nat },
        forall|i: int| 0 <= i < r.lines@.len() ==> shows_row(#[trigger] r.lines@[i], p.rows@[i]@),
        r.more == p.rows@.len() - r.lines@.len(),
{
    let n = p.rows.len();
    let k = if n < PREVIEW_ROWS { n } else { PREVIEW_ROWS };
    let mut lines: Vec<SampleLine> = Vec::new();
    let mut i: usize = 0;
    while i < k
        invariant
            k <= n == p.rows@.len(),
            i <= k,
            lines@.len() == i,
            forall|j: int| 0 <= j < i ==> shows_row(#[trigger] lines@[j], p.rows@[j]@),
        decreases k - i,
    {
        let row = &p.rows[i];
        let line = match &row.error {
            Some(e) => SampleLine::Invalid { line: row.line, reason: e.clone() },
            None => {
                let mut note = String::new();
                if row.slug_display.unicode_len() > 0 {
                    push_str(&mut note, "  (");
                    push_str(&mut note, row.slug_display.as_str());
                    push_str(&mut note, ")");
                }
                proof {
                    assert(note@ =~= if row.slug_display@.len() == 0 {
                        Seq::<char>::empty()
                    } else {
                        "  ("@ + row.slug_display@ + ")"@
                    });
                }
                SampleLine::Valid { url: row.url_display.clone(), slug_note: note }
            },
        };
        lines.push(line);
        i = i + 1;
    }
    PreviewSample { lines, more: n - k }
}

/// What the end of an import offers.
pub enum DoneNote {
    /// QR codes were generated: how many, and in which directory.
    Generated { count: usize, dir: String },
    /// QR codes can be generated for the new links, of which there are
    /// `count`.
    Offer { count: usize },
    /// Nothing more: back to the list.
    Back,
}

/// What the end of the import `s` says last.
pub fn done_note(s: &Summary) -> (r: DoneNote)
    ensures
        match s.qr_done {
            Some(n) => r matches DoneNote::Generated { count, dir } && count == n && dir@ == match s.qr_dir {
                Some(d) => d@,
                None => Seq::<char>::empty(),
            },
            None => if s.new_links@.len() > 0 {
                r matches DoneNote::Offer { count } && count == s.new_links@.len()
            } else {
                r is Back
            },
        },
{
    match s.qr_done {
        Some(n) => {
            let dir = match &s.qr_dir {
                Some(d) => d.clone(),
                None => String::new(),
            };
            DoneNote::Generated { count: n, dir }
        },
        None => if s.new_links.len() > 0 {
            DoneNote::Offer { count: s.new_links.len() }
        } else {
            DoneNote::Back
        },
    }
}

impl App {
    /// The title of the QR dialog: what it exports, or that it edits the
    /// settings alone.
    pub fn qr_dialog_title(&self) -> (r: String)
        ensures
            r@ == match self.qr.pending {
                Some(t) => "Export QR \u{b7} "@ + qr_export_label_spec(t),
                None => "QR settings"@,
            },
    {
        match self.qr_export_label() {
            Some(what) => {
                let mut s = to_owned_string("Export QR \u{b7} ");
                push_str(&mut s, what);
                s
            },
            None => to_owned_string("QR settings"),
        }
    }

    /// The key hint of the QR dialog, which names what `Enter` does.
    pub fn qr_dialog_hint(&self) -> (r: &'static str)
        ensures
            r@ == if self.qr.pending is Some {
                "\u{2191}\u{2193} field \u{b7} \u{2190}\u{2192} format \u{b7} type to edit \u{b7} Enter export \u{b7} Esc cancel"@
            } else {
                "\u{2191}\u{2193} field \u{b7} \u{2190}\u{2192} format \u{b7} type to edit \u{b7} Enter save \u{b7} Esc cancel"@
            },
    {
        if self.qr_export_label().is_some() {
            "\u{2191}\u{2193} field \u{b7} \u{2190}\u{2192} format \u{b7} type to edit \u{b7} Enter export \u{b7} Esc cancel"
        } else {
            "\u{2191}\u{2193} field \u{b7} \u{2190}\u{2192} format \u{b7} type to edit \u{b7} Enter save \u{b7} Esc cancel"
        }
    }
}

} // verus!
