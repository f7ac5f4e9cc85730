//! State for viewing and editing an existing link in the detail screen.
//!
//! A [`LinkEditor`] is built from the link record returned by the API. It
//! holds one entry per editable field with both the live value and the value
//! as last saved, so "dirty" is "some field differs from its saved value".
//! After a successful save, [`LinkEditor::mark_saved`] takes the live values
//! as the new saved baseline.

use vstd::prelude::*;

use crate::input::TextInput;
use crate::json::{
    JsonScalar, JsonValue, bool_at, entries_view, json_key, scalar_of, str_at, i64_at,
};
use crate::text::{int_decimal, push_i64, push_str, str_eq, to_owned_string};

verus! {

#[derive(Debug, Clone, Copy, PartialEq, Eq, Structural)]
pub enum EditKind {
    Text,
    Bool,
}

/// Sub-mode of the detail screen.
#[derive(Debug, Clone, Copy, PartialEq, Eq, Structural)]
pub enum DetailMode {
    /// Moving between fields.
    Nav,
    /// Editing the current text field.
    Edit,
    /// The "save before leaving?" prompt.
    ConfirmSave,
}

/// The fields a user can edit: the writable fields of the create endpoint,
/// as (key, label, kind).
pub const EDITABLE: [(&'static str, &'static str, EditKind); 25] = [
    ("url", "URL", EditKind::Text),
    ("name", "Name", EditKind::Text),
    ("slug", "Slug", EditKind::Text),
    ("domain", "Domain", EditKind::Text),
    ("note", "Note", EditKind::Text),
    ("enabled", "Enabled", EditKind::Bool),
    ("forward_params", "Forward params", EditKind::Bool),
    ("cloaking", "Cloaking", EditKind::Bool),
    ("block_bots", "Block bots", EditKind::Bool),
    ("hide_referrer", "Hide referrer", EditKind::Bool),
    ("og_title", "OG title", EditKind::Text),
    ("og_description", "OG description", EditKind::Text),
    ("og_image", "OG image", EditKind::Text),
    ("utm_source", "UTM source", EditKind::Text),
    ("utm_medium", "UTM medium", EditKind::Text),
    ("utm_campaign", "UTM campaign", EditKind::Text),
    ("utm_term", "UTM term", EditKind::Text),
    ("utm_content", "UTM content", EditKind::Text),
    ("fb_pixel_id", "Facebook pixel", EditKind::Text),
    ("tiktok_pixel_id", "TikTok pixel", EditKind::Text),
    ("gtm_id", "GTM id", EditKind::Text),
    ("ga4_tag_id", "GA4 tag id", EditKind::Text),
    ("head_tags", "Head tags", EditKind::Text),
    ("body_tags", "Body tags", EditKind::Text),
    ("linkify_words", "Linkify words", EditKind::Text),
];

/// The key of editable field `i`.
pub open spec fn editable_key(i: int) -> Seq<char> {
    EDITABLE@[i].0@
}

/// The kind of editable field `i`.
pub open spec fn editable_kind(i: int) -> EditKind {
    EDITABLE@[i].2
}

pub struct EditField {
    pub key: &'static str,
    pub label: &'static str,
    pub kind: EditKind,
    pub input: TextInput,
    pub bool_val: bool,
    /// The text value as last saved.
    pub saved_text: String,
    /// The boolean value as last saved.
    pub saved_bool: bool,
}

impl EditField {
    /// Whether the live value differs from the saved one.
    pub open spec fn changed_spec(self) -> bool {
        match self.kind {
            EditKind::Text => self.input.text() != self.saved_text@,
            EditKind::Bool => self.bool_val != self.saved_bool,
        }
    }

    /// Whether the live value differs from the saved one.
    pub fn changed(&self) -> (r: bool)
        ensures
            r == self.changed_spec(),
    {
        match self.kind {
            EditKind::Text => !str_eq(self.input.value(), self.saved_text.as_str()),
            EditKind::Bool => self.bool_val != self.saved_bool,
        }
    }
}

/// The entry an edited field contributes to the update body.
pub open spec fn field_entry(f: EditField) -> (Seq<char>, JsonScalar) {
    (f.key@, match f.kind {
        EditKind::Text => JsonScalar::Str(f.input.text()),
        EditKind::Bool => JsonScalar::Bool(f.bool_val),
    })
}

/// The entries of the changed fields, in field order.
pub open spec fn changed_entries(fields: Seq<EditField>) -> Seq<(Seq<char>, JsonScalar)>
    decreases fields.len(),
{
    if fields.len() == 0 {
        seq![]
    } else {
        let prev = changed_entries(fields.drop_last());
        if fields.last().changed_spec() {
            prev.push(field_entry(fields.last()))
        } else {
            prev
        }
    }
}

/// Whether some field differs from its saved value.
pub open spec fn any_changed(fields: Seq<EditField>) -> bool {
    exists|i: int| 0 <= i < fields.len() && #[trigger] fields[i].changed_spec()
}

/// Field `f` at position `i` was loaded from `v`.
pub open spec fn loaded_from(f: EditField, i: int, v: JsonValue) -> bool {
    &&& f.key@ == editable_key(i)
    &&& f.label@ == EDITABLE@[i].1@
    &&& f.kind == editable_kind(i)
    &&& !f.changed_spec()
    &&& match f.kind {
        EditKind::Text => f.input.text() == (match str_at(v, editable_key(i)) {
            Some(s) => s,
            None => Seq::<char>::empty(),
        }),
        EditKind::Bool => f.bool_val == (match bool_at(v, editable_key(i)) {
            Some(b) => b,
            None => false,
        }),
    }
}

/// `n` is `o` with the field under the cursor changed by `step` (given the
/// old and new field), every other field and every other part kept.
pub open spec fn current_changed(o: LinkEditor, n: LinkEditor, step: spec_fn(EditField, EditField) -> bool) -> bool {
    &&& n == LinkEditor { fields: n.fields, ..o }
    &&& n.fields@.len() == o.fields@.len()
    &&& forall|j: int| 0 <= j < o.fields@.len() && j != o.cursor ==> n.fields@[j] == o.fields@[j]
    &&& ({
        let of = o.fields@[o.cursor as int];
        let nf = n.fields@[o.cursor as int];
        &&& nf.key == of.key && nf.label == of.label && nf.kind == of.kind
        &&& nf.saved_text@ == of.saved_text@ && nf.saved_bool == of.saved_bool
        &&& step(of, nf)
    })
}

/// `n` is `o` with the text of the field under the cursor edited by `req`.
pub open spec fn current_edited(o: LinkEditor, n: LinkEditor, req: crate::input::EditRequest) -> bool {
    current_changed(
        o,
        n,
        |of: EditField, nf: EditField|
            nf.bool_val == of.bool_val && (nf.input.text(), nf.input.pos()) == crate::input::tui_handle(
                of.input.text(),
                of.input.pos(),
                req,
            ),
    )
}

/// `n` is `o` with the boolean of the field under the cursor flipped.
pub open spec fn current_toggled(o: LinkEditor, n: LinkEditor) -> bool {
    current_changed(
        o,
        n,
        |of: EditField, nf: EditField|
            nf.bool_val == !of.bool_val && nf.input.text() == of.input.text() && nf.input.pos() == of.input.pos(),
    )
}

/// The entries of the update payload of `e`: `id`, `workspace_id`, then the
/// changed fields.
pub open spec fn update_entries(e: LinkEditor) -> Seq<(Seq<char>, JsonScalar)> {
    seq![("id"@, JsonScalar::Integer(e.id)), ("workspace_id"@, JsonScalar::Integer(e.workspace_id))]
        + changed_entries(e.fields@)
}

/// `r` is the editor built from the link record `v`: id (0 when absent),
/// workspace id (`fallback_ws` when absent), short URL, and one field per
/// editable key loaded from `v`, on the first field in navigation mode.
pub open spec fn editor_from(r: LinkEditor, v: JsonValue, fallback_ws: i64) -> bool {
    &&& r.id == (match i64_at(v, "id"@) {
        Some(n) => n,
        None => 0,
    })
    &&& r.workspace_id == (match i64_at(v, "workspace_id"@) {
        Some(n) => n,
        None => fallback_ws,
    })
    &&& r.full_url@ == (match str_at(v, "full_url"@) {
        Some(s) => s,
        None => Seq::<char>::empty(),
    })
    &&& r.fields@.len() == 25
    &&& forall|i: int| 0 <= i < 25 ==> loaded_from(#[trigger] r.fields@[i], i, v)
    &&& r.cursor == 0
    &&& r.mode == DetailMode::Nav
    &&& !r.exit_after_save
}

/// `n` is `o` with the live values adopted as the saved ones: every live
/// value stays, no field is changed any more, nothing else moves.
pub open spec fn editor_saved(o: LinkEditor, n: LinkEditor) -> bool {
    &&& n.fields@.len() == o.fields@.len()
    &&& forall|j: int| 0 <= j < o.fields@.len() ==> {
        let of = #[trigger] o.fields@[j];
        let nf = n.fields@[j];
        &&& nf.key == of.key && nf.label == of.label && nf.kind == of.kind
        &&& nf.input.text() == of.input.text() && nf.input.pos() == of.input.pos()
        &&& nf.bool_val == of.bool_val
        &&& nf.saved_text@ == of.input.text()
        &&& nf.saved_bool == of.bool_val
    }
    &&& !any_changed(n.fields@)
    &&& n.id == o.id
    &&& n.workspace_id == o.workspace_id
    &&& n.cursor == o.cursor
    &&& n.mode == o.mode
    &&& n.exit_after_save == o.exit_after_save
    &&& n.full_url@ == o.full_url@
}

pub struct LinkEditor {
    pub id: i64,
    pub workspace_id: i64,
    pub full_url: String,
    pub fields: Vec<EditField>,
    pub cursor: usize,
    pub mode: DetailMode,
    /// Set when the user saved while trying to leave, so the screen is left
    /// once the save succeeds.
    pub exit_after_save: bool,
}

impl LinkEditor {
    /// Build the editor from a link record: id (0 when absent), workspace id
    /// (`fallback_ws` when absent), short URL, and one field per editable
    /// key, with text fields empty and boolean fields off when absent. Every
    /// field starts equal to its saved value.
    pub fn from_value(v: &JsonValue, fallback_ws: i64) -> (r: Self)
        ensures
            editor_from(r, *v, fallback_ws),
    {
        let id = match v.i64_field("id") {
            Some(n) => n,
            None => 0,
        };
        let workspace_id = match v.i64_field("workspace_id") {
            Some(n) => n,
            None => fallback_ws,
        };
        let full_url = match v.str_field("full_url") {
            Some(s) => s,
            None => String::new(),
        };
        let mut fields: Vec<EditField> = Vec::new();
        let mut i: usize = 0;
        while i < 25
            invariant
                i <= 25,
                fields@.len() == i,
                forall|j: int| 0 <= j < i ==> loaded_from(#[trigger] fields@[j], j, *v),
            decreases 25 - i,
        {
            let (key, label, kind) = EDITABLE[i];
            let f = match kind {
                EditKind::Text => {
                    let s = match v.str_field(key) {
                        Some(s) => s,
                        None => String::new(),
                    };
                    let saved = s.clone();
                    EditField {
                        key,
                        label,
                        kind,
                        input: TextInput::new(s),
                        bool_val: false,
                        saved_text: saved,
                        saved_bool: false,
                    }
                },
                EditKind::Bool => {
                    let b = match v.bool_field(key) {
                        Some(b) => b,
                        None => false,
                    };
                    EditField {
                        key,
                        label,
                        kind,
                        input: TextInput::empty(),
                        bool_val: b,
                        saved_text: String::new(),
                        saved_bool: b,
                    }
                },
            };
            assert(loaded_from(f, i as int, *v));
            fields.push(f);
            i = i + 1;
        }
        LinkEditor {
            id,
            workspace_id,
            full_url,
            fields,
            cursor: 0,
            mode: DetailMode::Nav,
            exit_after_save: false,
        }
    }

    /// The title of the detail screen: the link's id and short URL, and a
    /// note when there are unsaved changes.
    pub fn title(&self) -> (r: String)
        ensures
            r@ == "Link #"@ + int_decimal(self.id as int) + " \u{b7} "@ + self.full_url@ + if any_changed(
                self.fields@,
            ) {
                " \u{b7} unsaved changes"@
            } else {
                Seq::empty()
            },
    {
        let mut s = to_owned_string("Link #");
        push_i64(&mut s, self.id);
        push_str(&mut s, " \u{b7} ");
        push_str(&mut s, self.full_url.as_str());
        if self.dirty() {
            push_str(&mut s, " \u{b7} unsaved changes");
        }
        s
    }

    /// Whether any field differs from its saved value.
    pub fn dirty(&self) -> (r: bool)
        ensures
            r == any_changed(self.fields@),
    {
        let mut i: usize = 0;
        while i < self.fields.len()
            invariant
                i <= self.fields@.len(),
                forall|j: int| 0 <= j < i ==> !(#[trigger] self.fields@[j].changed_spec()),
            decreases self.fields.len() - i,
        {
            if self.fields[i].changed() {
                return true;
            }
            i = i + 1;
        }
        false
    }

    /// The field under the cursor.
    pub fn current(&self) -> (r: &EditField)
        requires
            self.cursor < self.fields@.len(),
        ensures
            *r == self.fields@[self.cursor as int],
    {
        &self.fields[self.cursor]
    }

    /// Move the cursor up (staying on the first field).
    pub fn move_up(&mut self)
        ensures
            *final(self) == (LinkEditor {
                cursor: if old(self).cursor == 0 { 0 } else { (old(self).cursor - 1) as usize },
                ..*old(self)
            }),
    {
        if self.cursor > 0 {
            self.cursor = self.cursor - 1;
        }
    }

    /// Move the cursor down (staying on the last field).
    pub fn move_down(&mut self)
        requires
            old(self).fields@.len() > 0,
        ensures
            *final(self) == (LinkEditor {
                cursor: if old(self).cursor + 1 < old(self).fields@.len() {
                    (old(self).cursor + 1) as usize
                } else {
                    (old(self).fields@.len() - 1) as usize
                },
                ..*old(self)
            }),
    {
        let last = self.fields.len() - 1;
        self.cursor = if self.cursor < last { self.cursor + 1 } else { last };
    }

    /// Set the live text of the field under the cursor with an editing
    /// request (the saved value stays).
    pub fn edit_current(&mut self, req: crate::input::EditRequest)
        requires
            old(self).cursor < old(self).fields@.len(),
        ensures
            current_edited(*old(self), *final(self), req),
    {
        let c = self.cursor;
        let mut input = self.fields[c].input.duplicate();
        input.handle(req);
        let f = EditField {
            key: self.fields[c].key,
            label: self.fields[c].label,
            kind: self.fields[c].kind,
            input,
            bool_val: self.fields[c].bool_val,
            saved_text: self.fields[c].saved_text.clone(),
            saved_bool: self.fields[c].saved_bool,
        };
        self.fields.set(c, f);
    }

    /// Flip the boolean value of the field under the cursor.
    pub fn toggle_current(&mut self)
        requires
            old(self).cursor < old(self).fields@.len(),
        ensures
            current_toggled(*old(self), *final(self)),
    {
        let c = self.cursor;
        let f = EditField {
            key: self.fields[c].key,
            label: self.fields[c].label,
            kind: self.fields[c].kind,
            input: self.fields[c].input.duplicate(),
            bool_val: !self.fields[c].bool_val,
            saved_text: self.fields[c].saved_text.clone(),
            saved_bool: self.fields[c].saved_bool,
        };
        self.fields.set(c, f);
    }

    /// The update payload: `id` and `workspace_id`, then only the changed
    /// fields, so unchanged fields are left untouched on the server.
    pub fn update_body(&self) -> (r: JsonValue)
        ensures
            r matches JsonValue::Object(es) && entries_view(es@) == update_entries(*self),
    {
        let mut es: Vec<(String, JsonValue)> = Vec::new();
        es.push((json_key("id"), JsonValue::Integer(self.id)));
        es.push((json_key("workspace_id"), JsonValue::Integer(self.workspace_id)));
        let ghost head = seq![
            ("id"@, JsonScalar::Integer(self.id)),
            ("workspace_id"@, JsonScalar::Integer(self.workspace_id)),
        ];
        assert(entries_view(es@) =~= head);
        let mut i: usize = 0;
        while i < self.fields.len()
            invariant
                i <= self.fields@.len(),
                entries_view(es@) == head + changed_entries(self.fields@.subrange(0, i as int)),
            decreases self.fields.len() - i,
        {
            let f = &self.fields[i];
            let ghost prev = entries_view(es@);
            proof {
                assert(self.fields@.subrange(0, i + 1).drop_last() == self.fields@.subrange(0, i as int));
                assert(self.fields@.subrange(0, i + 1).last() == *f);
            }
            if f.changed() {
                let value = match f.kind {
                    EditKind::Text => JsonValue::String(to_owned_string(f.input.value())),
                    EditKind::Bool => JsonValue::Bool(f.bool_val),
                };
                let key = to_owned_string(f.key);
                assert((key@, scalar_of(value)) == field_entry(*f));
                es.push((key, value));
                assert(entries_view(es@) =~= prev.push(field_entry(*f)));
            }
            assert(entries_view(es@) =~= head + changed_entries(self.fields@.subrange(0, i + 1)));
            i = i + 1;
        }
        assert(self.fields@.subrange(0, i as int) == self.fields@);
        JsonValue::Object(es)
    }

    /// Adopt the live values as the new saved baseline (after a successful
    /// save): no field is changed afterwards, and every live value stays.
    pub fn mark_saved(&mut self)
        ensures
            editor_saved(*old(self), *final(self)),
    {
        let n = self.fields.len();
        let ghost orig = self.fields@;
        let mut i: usize = 0;
        while i < n
            invariant
                n == self.fields@.len(),
                n == orig.len(),
                i <= n,
                self.id == old(self).id,
                self.workspace_id == old(self).workspace_id,
                self.cursor == old(self).cursor,
                self.mode == old(self).mode,
                self.exit_after_save == old(self).exit_after_save,
                self.full_url == old(self).full_url,
                forall|j: int| i <= j < n ==> self.fields@[j] == orig[j],
                forall|j: int| 0 <= j < i ==> {
                    let o = #[trigger] orig[j];
                    let m = self.fields@[j];
                    &&& m.key == o.key && m.label == o.label && m.kind == o.kind
                    &&& m.input.text() == o.input.text() && m.input.pos() == o.input.pos()
                    &&& m.bool_val == o.bool_val
                    &&& m.saved_text@ == o.input.text()
                    &&& m.saved_bool == o.bool_val
                },
            decreases n - i,
        {
            let f = EditField {
                key: self.fields[i].key,
                label: self.fields[i].label,
                kind: self.fields[i].kind,
                input: self.fields[i].input.duplicate(),
                bool_val: self.fields[i].bool_val,
                saved_text: to_owned_string(self.fields[i].input.value()),
                saved_bool: self.fields[i].bool_val,
            };
            self.fields.set(i, f);
            i = i + 1;
        }
        assert forall|j: int| 0 <= j < self.fields@.len() implies !(#[trigger] self.fields@[j].changed_spec()) by {
            let o = orig[j];
        }
    }
}

} // verus!
