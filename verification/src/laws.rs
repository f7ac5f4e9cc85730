//! Properties of the library as a whole, each stated over the spec
//! functions the operations' contracts use, and proved.

use vstd::prelude::*;

use crate::app::events::question_opens_help_spec;
use crate::app::create::submitted;
use crate::app::detail::detail_step;
use crate::app::import_flow::import_step;
use crate::app::list::{key_stored, lemma_ws_index, list_step, store_answered, with_key, ws_index};
use crate::app::qr_dialog::{commit_post, next_format, prev_format, typed_size};
use crate::app::replies::{kept_row, key_stored_for, link_created, links_loaded, other_ws, recorded_cache};
use crate::app::session::{forget_post, picker_step, start_auth_post, try_auth_post};
use crate::app::workers::retry_delay_spec;
use crate::app::{
    api_field_spec, sort_label_spec, SortField, cached_views, is_char, reloaded, sort_dir_spec, App, CachedView, CommandView, Screen,
};
use crate::edit_form::{
    any_changed, changed_entries, editor_from, editor_saved, update_entries, DetailMode, EditField,
    EditKind, LinkEditor,
};
use crate::create_form::CreateForm;
use crate::import::{parse_bool_spec, requests_of, row_of_record, valid_count, NewLink, RowView};
use crate::input::{KeyCode, KeyInput};
use crate::json::{JsonScalar, JsonValue};
use crate::models::{request_entries, RequestView};
use crate::qr::{
    clamp_size_spec, color_digits, is_hex_digit, normalize_color_spec, qr_encodable, qr_jpeg, qr_png, qr_svg,
    render_qr_spec, rgb_spec, is_safe_char, safe_char, sanitize_spec,
    strip_end, strip_start, QrFormat,
};
use crate::text::{ascii_lower, is_ws, trim, trim_end, trim_start};
use crate::ui::truncate_spec;

verus! {

/// Moving to the next QR format and back, or back and on, returns to the
/// same format; three steps forward go round.
pub proof fn law_format_cycle(f: QrFormat)
    ensures
        next_format(prev_format(f)) == f,
        prev_format(next_format(f)) == f,
        next_format(next_format(next_format(f))) == f,
{
}

/// A truncated value fits its width: it is the value itself when that
/// fits, and otherwise the value's start followed by `…`.
pub proof fn law_truncate_fits(s: Seq<char>, max: nat)
    ensures
        truncate_spec(s, max).len() <= max,
        s.len() <= max ==> truncate_spec(s, max) == s,
        s.len() > max && max > 0 ==> truncate_spec(s, max).last() == '\u{2026}' && truncate_spec(s, max).drop_last()
            == s.take(max - 1),
{
    if s.len() > max && max > 0 {
        assert(s.take(max - 1).push('\u{2026}').drop_last() == s.take(max - 1));
    }
}

proof fn lemma_no_change_no_entries(fields: Seq<EditField>)
    ensures
        any_changed(fields) <==> changed_entries(fields).len() > 0,
    decreases fields.len(),
{
    if fields.len() > 0 {
        lemma_no_change_no_entries(fields.drop_last());
        let init = fields.drop_last();
        if any_changed(fields) {
            let i = choose|i: int| 0 <= i < fields.len() && #[trigger] fields[i].changed_spec();
            if i < fields.len() - 1 {
                assert(init[i] == fields[i]);
            }
        }
        if any_changed(init) {
            let i = choose|i: int| 0 <= i < init.len() && #[trigger] init[i].changed_spec();
            assert(fields[i] == init[i]);
        }
    }
}

/// The editor has unsaved changes exactly when its update payload carries
/// some field besides `id` and `workspace_id`.
pub proof fn law_dirty_iff_payload_has_changes(e: LinkEditor)
    ensures
        any_changed(e.fields@) <==> update_entries(e).len() > 2,
{
    lemma_no_change_no_entries(e.fields@);
}

/// An editor freshly loaded from a link record has no unsaved changes, so
/// its update payload is `id` and `workspace_id` alone.
pub proof fn law_fresh_editor_is_clean(e: LinkEditor, v: JsonValue, fallback_ws: i64)
    requires
        editor_from(e, v, fallback_ws),
    ensures
        !any_changed(e.fields@),
        update_entries(e).len() == 2,
{
    assert forall|i: int| 0 <= i < e.fields@.len() implies !(#[trigger] e.fields@[i].changed_spec()) by {
        assert(crate::edit_form::loaded_from(e.fields@[i], i, v));
    }
    lemma_no_change_no_entries(e.fields@);
}

/// Once saved, the editor has no unsaved changes and its payload is `id`
/// and `workspace_id` alone; every live value stays.
pub proof fn law_saved_editor_is_clean(o: LinkEditor, n: LinkEditor)
    requires
        editor_saved(o, n),
    ensures
        !any_changed(n.fields@),
        update_entries(n).len() == 2,
        forall|j: int| 0 <= j < o.fields@.len() ==> (#[trigger] n.fields@[j]).input.text() == o.fields@[j].input.text(),
{
    lemma_no_change_no_entries(n.fields@);
}

/// Moving the form's focus forward and then back returns to the same
/// field; both moves stay within the visible fields.
pub proof fn law_focus_round_trip(focus: int, n: int)
    requires
        0 <= focus < n,
    ensures
        0 <= (focus + 1) % n < n,
        ((focus + 1) % n + n - 1) % n == focus,
        ((focus + n - 1) % n + 1) % n == focus,
{
    crate::create_form::lemma_mod_shift(focus + 1, n - 1, n);
    crate::create_form::lemma_mod_shift(focus + n - 1, 1, n);
    assert((n + focus) % n == focus) by {
        vstd::arithmetic::div_mod::lemma_mod_add_multiples_vanish(focus, n);
        vstd::arithmetic::div_mod::lemma_small_mod(focus as nat, n as nat);
    }
    assert(focus + 1 + (n - 1) == n + focus);
    assert(focus + n - 1 + 1 == n + focus);
    assert(0 <= (focus + 1) % n < n) by {
        vstd::arithmetic::div_mod::lemma_mod_bound(focus + 1, n);
    }
}

/// Asking for the next page on the list leaves the page counter where it
/// is: it only moves once the page arrives.
pub proof fn law_page_moves_on_load(a: App, b: App, c: Seq<CommandView>, k: KeyInput)
    requires
        !a.session.store_prompt && !a.list.sort_open && !a.list.searching,
        is_char(k, 'n') || is_char(k, 'p') || is_char(k, 'r'),
        list_step(a, b, c, k),
    ensures
        b.list.page == a.list.page,
        b.list.links == a.list.links,
{
    reveal(reloaded);
}

/// A loaded page keeps the highlight on a row of it (or none when it is
/// empty).
pub proof fn law_highlight_on_page(sel: Option<usize>, n: nat)
    ensures
        kept_row(sel, n) matches Some(i) ==> i < n,
        kept_row(sel, n) is None <==> n == 0,
{
}

/// Using a workspace puts it first in the cache, once: no other entry has
/// its id afterwards, and a key stored for it is kept.
pub proof fn law_used_workspace_first(ws: Seq<CachedView>, id: i64, hint: Option<Seq<char>>)
    ensures
        recorded_cache(ws, id, hint).len() >= 1,
        recorded_cache(ws, id, hint)[0].id == id,
        forall|i: int| 1 <= i < recorded_cache(ws, id, hint).len() ==> (#[trigger] recorded_cache(ws, id, hint)[i]).id != id,
        ws_index(ws, id) matches Some(j) ==> recorded_cache(ws, id, hint)[0].api_key == ws[j].api_key,
        hint matches Some(n) ==> recorded_cache(ws, id, hint)[0].name == n,
{
    let r = recorded_cache(ws, id, hint);
    let rest = ws.filter(other_ws(id));
    assert forall|i: int| 1 <= i < r.len() implies (#[trigger] r[i]).id != id by {
        assert(r[i] == rest[i - 1]);
        ws.lemma_filter_pred(other_ws(id), i - 1);
    }
}

/// Signing in does not cache the workspace: the cache is untouched until
/// the first page of links arrives.
pub proof fn law_sign_in_caches_nothing(a: App, b: App, c: Seq<CommandView>)
    requires
        try_auth_post(a, b, c),
    ensures
        b.session.cached_workspaces == a.session.cached_workspaces,
        b.session.verify_pending || b == a || b.auth.error is Some,
{
    reveal(try_auth_post);
}

/// The first page after signing in caches the workspace (first in the
/// cache), and offers to store the key only when it is not stored for it
/// already.
pub proof fn law_first_page_caches_workspace(a: App, b: App, c: Seq<CommandView>, resp: crate::models::ListLinksResponse)
    requires
        a.session.verify_pending,
        !a.session.store_prompt,
        links_loaded(a, b, c, resp),
    ensures
        cached_views(b.session.cached_workspaces@)[0].id == a.session.workspace_id,
        !b.session.verify_pending,
        b.session.store_prompt ==> !key_stored_for(
            cached_views(b.session.cached_workspaces@),
            a.session.workspace_id,
            a.session.current_key@,
        ),
{
    reveal(links_loaded);
    law_used_workspace_first(
        cached_views(a.session.cached_workspaces@),
        a.session.workspace_id,
        a.session.pending_ws_name.deep_view(),
    );
}

/// Cancelling the QR dialog saves and exports nothing.
pub proof fn law_qr_cancel_keeps_settings(a: App, b: App, c: Seq<CommandView>)
    requires
        commit_post(a, b, c, false),
    ensures
        b.qr.settings == a.qr.settings,
        c.len() == 0,
        !b.qr.open,
{
    reveal(commit_post);
}

/// The size the QR dialog adopts is within 64..=4096 pixels, or the size
/// already set.
pub proof fn law_qr_size_in_range(a: App)
    ensures
        (64 <= typed_size(a) <= 4096) || typed_size(a) == a.qr.settings.size,
{
}

/// `?` never opens the help overlay on the sign-in prompt, where it can
/// be part of what is typed.
pub proof fn law_question_types_on_sign_in(a: App)
    requires
        a.screen == Screen::Auth,
    ensures
        !question_opens_help_spec(a),
{
}

/// A rate-limited create is retried at most three times, after 1, 2 and 4
/// seconds.
pub proof fn law_retry_bounded(attempt: u32, error: Seq<char>)
    ensures
        retry_delay_spec(attempt, error) matches Some(d) ==> attempt < 3 && d == if attempt == 0 {
            1u64
        } else if attempt == 1 {
            2
        } else {
            4
        },
        attempt >= 3 ==> retry_delay_spec(attempt, error) is None,
{
}

/// Rows carry a request exactly when they have no error.
pub open spec fn rows_consistent(rows: Seq<RowView>) -> bool {
    forall|i: int| 0 <= i < rows.len() ==> ((#[trigger] rows[i]).request is Some <==> rows[i].error is None)
}

/// Every row the CSV parse makes carries a request exactly when it has no
/// error.
pub proof fn law_parsed_rows_consistent(
    i: int,
    headers: Seq<Seq<char>>,
    rec: Result<Seq<Seq<char>>, Seq<char>>,
    workspace_id: i64,
)
    ensures
        (row_of_record(i, headers, rec, workspace_id).request is Some) <==> (row_of_record(
            i,
            headers,
            rec,
            workspace_id,
        ).error is None),
{
}

/// Of consistent rows, as many requests are submitted as rows are valid.
pub proof fn law_requests_match_valid_rows(rows: Seq<RowView>)
    requires
        rows_consistent(rows),
    ensures
        requests_of(rows).len() == valid_count(rows),
    decreases rows.len(),
{
    if rows.len() > 0 {
        assert(rows_consistent(rows.drop_last())) by {
            assert forall|i: int| 0 <= i < rows.drop_last().len() implies ((#[trigger] rows.drop_last()[i]).request is Some
                <==> rows.drop_last()[i].error is None) by {
                assert(rows.drop_last()[i] == rows[i]);
            }
        }
        law_requests_match_valid_rows(rows.drop_last());
        assert(rows[rows.len() - 1] == rows.last());
    }
}

proof fn lemma_strip_start(s: Seq<char>, c: char) -> (k: int)
    ensures
        0 <= k <= s.len(),
        strip_start(s, c) == s.skip(k),
        strip_start(s, c).len() > 0 ==> strip_start(s, c)[0] != c,
    decreases s.len(),
{
    if s.len() > 0 && s[0] == c {
        let k = lemma_strip_start(s.drop_first(), c);
        assert(s.drop_first().skip(k) =~= s.skip(k + 1));
        k + 1
    } else {
        assert(s.skip(0) =~= s);
        0
    }
}

proof fn lemma_strip_end(s: Seq<char>, c: char) -> (k: int)
    ensures
        0 <= k <= s.len(),
        strip_end(s, c) == s.take(k),
        strip_end(s, c).len() > 0 ==> strip_end(s, c).last() != c,
    decreases s.len(),
{
    if s.len() > 0 && s.last() == c {
        let k = lemma_strip_end(s.drop_last(), c);
        assert(s.drop_last().take(k) =~= s.take(k));
        k
    } else {
        assert(s.take(s.len() as int) =~= s);
        s.len() as int
    }
}

/// A sanitized slug or name is safe in a file name: only alphanumeric
/// characters, `-` and `_`, and no `-` at either end.
pub proof fn law_sanitized_is_safe(s: Seq<char>)
    ensures
        forall|i: int| 0 <= i < sanitize_spec(s).len() ==> is_safe_char(#[trigger] sanitize_spec(s)[i]),
        sanitize_spec(s).len() > 0 ==> sanitize_spec(s)[0] != '-' && sanitize_spec(s).last() != '-',
{
    let m = strip_start(s, '/').map_values(|c: char| safe_char(c));
    assert forall|i: int| 0 <= i < m.len() implies is_safe_char(#[trigger] m[i]) by {}
    let k1 = lemma_strip_start(m, '-');
    let t = strip_start(m, '-');
    let k2 = lemma_strip_end(t, '-');
    let r = strip_end(t, '-');
    assert(r == sanitize_spec(s));
    assert forall|i: int| 0 <= i < r.len() implies is_safe_char(#[trigger] r[i]) by {
        assert(r[i] == t[i]);
        assert(t[i] == m[i + k1]);
    }
    if r.len() > 0 {
        assert(r[0] == t[0]);
    }
}

/// Sanitizing is idempotent: a sanitized fragment sanitizes to itself, so
/// a file name made from it stays the same when made again.
pub proof fn law_sanitize_idempotent(s: Seq<char>)
    ensures
        sanitize_spec(sanitize_spec(s)) == sanitize_spec(s),
{
    let t = sanitize_spec(s);
    law_sanitized_is_safe(s);
    // No leading `/`: the first character is safe, and `/` is not.
    assert(strip_start(t, '/') == t) by {
        if t.len() > 0 {
            assert(is_safe_char(t[0]));
            assert(t[0] != '/');
        }
    }
    let m = t.map_values(|c: char| safe_char(c));
    assert(m =~= t) by {
        assert forall|i: int| 0 <= i < t.len() implies m[i] == t[i] by {
            assert(is_safe_char(t[i]));
        }
    }
    assert(strip_start(t, '-') == t);
    assert(strip_end(t, '-') == t);
}

proof fn lemma_ws_index_ids(s1: Seq<CachedView>, s2: Seq<CachedView>, id: i64)
    requires
        s1.len() == s2.len(),
        forall|i: int| 0 <= i < s1.len() ==> (#[trigger] s1[i]).id == s2[i].id,
    ensures
        ws_index(s1, id) == ws_index(s2, id),
    decreases s1.len(),
{
    if s1.len() > 0 {
        assert forall|i: int| 0 <= i < s1.drop_first().len() implies (#[trigger] s1.drop_first()[i]).id == s2.drop_first()[i].id by {
            assert(s1.drop_first()[i] == s1[i + 1]);
            assert(s2.drop_first()[i] == s2[i + 1]);
        }
        lemma_ws_index_ids(s1.drop_first(), s2.drop_first(), id);
        assert(s1[0].id == s2[0].id);
    }
}

/// Storing the key at the store prompt stores it for the active workspace
/// when that workspace is cached, and saves the cache; the prompt closes.
pub proof fn law_stored_key_is_found(a: App, b: App, c: Seq<CommandView>)
    requires
        store_answered(a, b, c, true),
        ws_index(cached_views(a.session.cached_workspaces@), a.session.workspace_id) is Some,
    ensures
        key_stored_for(cached_views(b.session.cached_workspaces@), a.session.workspace_id, a.session.current_key@),
        !b.session.store_prompt,
        c.len() == 1,
{
    reveal(key_stored);
    let ws = cached_views(a.session.cached_workspaces@);
    let id = a.session.workspace_id;
    let i = ws_index(ws, id)->0;
    lemma_ws_index(ws, id);
    let n = with_key(ws, i, a.session.current_key@);
    assert forall|j: int| 0 <= j < ws.len() implies (#[trigger] ws[j]).id == n[j].id by {}
    lemma_ws_index_ids(ws, n, id);
}

/// Leaving the detail screen with unsaved changes asks first: nothing is
/// sent and the screen stays.
pub proof fn law_leaving_with_changes_asks(a: App, b: App, c: Seq<CommandView>, k: KeyInput, e: LinkEditor)
    requires
        a.editor == Some(e),
        e.mode == DetailMode::Nav,
        any_changed(e.fields@),
        k.code == KeyCode::Esc,
        detail_step(a, b, c, k),
    ensures
        c.len() == 0,
        b.screen == a.screen,
        b.editor matches Some(n) && n.mode == DetailMode::ConfirmSave && n.fields == e.fields,
{
}

/// A form whose URL is blank is not sent; the status says why.
pub proof fn law_blank_url_not_sent(a: App, b: App, c: Seq<CommandView>)
    requires
        trim(a.create_form.url.text()).len() == 0,
        submitted(a, b, c),
    ensures
        c.len() == 0,
        b.status@ == "Cannot submit: "@ + "URL is required"@,
{
    reveal(submitted);
}

/// While an import runs, keys do nothing.
pub proof fn law_running_import_ignores_keys(a: App, b: App, c: Seq<CommandView>, k: KeyInput)
    requires
        a.import matches Some(s) && s.stage is Running,
        import_step(a, b, c, k),
    ensures
        b == a,
        c.len() == 0,
{
}

/// A colour in normal form normalises to itself: `#` and six lower-case
/// hexadecimal digits.
pub proof fn law_normalized_color_is_stable(s: Seq<char>)
    ensures
        normalize_color_spec(s) matches Some(c) ==> c.len() == 7 && c[0] == '#' && normalize_color_spec(c) == Some(
            c,
        ),
{
    if let Some(c) = normalize_color_spec(s) {
        let h = color_digits(s);
        let l = ascii_lower(h);
        assert(c == seq!['#'] + l);
        assert(!is_ws(c[0]));
        assert(c.last() == l[5]);
        assert(is_hex_digit(h[5]));
        assert(!is_ws(c.last()));
        assert(trim_start(c) == c);
        assert(trim_end(c) == c);
        assert(c.drop_first() =~= l);
        assert forall|i: int| 0 <= i < l.len() implies is_hex_digit(#[trigger] l[i]) by {
            assert(is_hex_digit(h[i]));
        }
        assert(ascii_lower(l) =~= l);
    }
}

/// A request with no optional field set is sent as `workspace_id` and
/// `url` alone: unset fields are omitted, never sent empty.
pub proof fn law_unset_fields_are_omitted(r: RequestView)
    requires
        r.domain is None && r.slug is None && r.name is None && r.note is None,
        r.enabled is None && r.forward_params is None && r.cloaking is None,
        r.block_bots is None && r.hide_referrer is None,
        r.og_title is None && r.og_description is None && r.og_image is None,
        r.utm_source is None && r.utm_medium is None && r.utm_campaign is None,
        r.utm_term is None && r.utm_content is None,
        r.fb_pixel_id is None && r.tiktok_pixel_id is None && r.gtm_id is None && r.ga4_tag_id is None,
        r.head_tags is None && r.body_tags is None && r.linkify_words is None,
    ensures
        request_entries(r) == seq![("workspace_id"@, JsonScalar::Integer(r.workspace_id)), ("url"@, JsonScalar::Str(r.url))],
{
    assert(request_entries(r) =~= seq![
        ("workspace_id"@, JsonScalar::Integer(r.workspace_id)),
        ("url"@, JsonScalar::Str(r.url)),
    ]);
}

/// Forgetting the highlighted workspace drops it from the cache, and with
/// it any key stored for it; the other entries keep their order, and the
/// shortened cache is saved.
pub proof fn law_forget_drops_workspace(a: App, b: App, c: Seq<CommandView>)
    requires
        forget_post(a, b, c),
        a.session.picker_cursor < a.session.cached_workspaces@.len(),
        forall|i: int, j: int|
            0 <= i < j < a.session.cached_workspaces@.len() ==> (#[trigger] a.session.cached_workspaces@[i]).id
                != (#[trigger] a.session.cached_workspaces@[j]).id,
    ensures
        cached_views(b.session.cached_workspaces@) == cached_views(a.session.cached_workspaces@).remove(
            a.session.picker_cursor as int,
        ),
        ws_index(
            cached_views(b.session.cached_workspaces@),
            a.session.cached_workspaces@[a.session.picker_cursor as int].id,
        ) is None,
        c == seq![CommandView::SaveWorkspaces { workspaces: cached_views(b.session.cached_workspaces@) }],
{
    reveal(forget_post);
    let old_ws = a.session.cached_workspaces@;
    let cur = a.session.picker_cursor as int;
    let id = old_ws[cur].id;
    let rest = old_ws.remove(cur);
    assert(cached_views(rest) =~= cached_views(old_ws).remove(cur));
    lemma_ws_index(cached_views(rest), id);
    if let Some(j) = ws_index(cached_views(rest), id) {
        if j < cur {
            assert(rest[j] == old_ws[j]);
        } else {
            assert(rest[j] == old_ws[j + 1]);
        }
    }
}

/// A created link sends the list back to the page it was on, reloaded
/// with the current search and sort.
pub proof fn law_created_link_reloads_list(a: App, b: App, c: Seq<CommandView>, new: NewLink)
    requires
        link_created(a, b, c, new),
        a.session.connected,
    ensures
        c == seq![CommandView::LoadLinks {
            workspace_id: a.session.workspace_id,
            page: a.list.page,
            search: a.list.search@,
            sort_by: api_field_spec(a.list.sort_field),
            sort_dir: sort_dir_spec(a.list.sort_desc),
        }],
        b.screen == Screen::LinkList,
        b.list == a.list,
{
    reveal(link_created);
    reveal(crate::app::qr_dialog::qr_opened);
}

/// Picking a cached workspace whose key was stored opens the sign-in prompt
/// locked to that workspace with the stored key filled in; nothing is sent
/// yet.
pub proof fn law_pick_prefills_stored_key(a: App, b: App, c: Seq<CommandView>, k: KeyInput, key: Seq<char>)
    requires
        picker_step(a, b, c, k),
        k.code == KeyCode::Enter,
        a.session.picker_cursor < a.session.cached_workspaces@.len(),
        a.session.cached_workspaces@[a.session.picker_cursor as int].api_key.deep_view() == Some(key),
    ensures
        b.screen == Screen::Auth,
        b.auth.ws_locked,
        b.auth.api_key.text() == key,
        b.session.workspace_id == a.session.cached_workspaces@[a.session.picker_cursor as int].id,
        c.len() == 0,
{
    reveal(start_auth_post);
}

/// The boolean cells of an import read by a fixed table, whatever the case
/// and the surrounding blanks: `true`, `1`, `yes`, `y`, `on` are true;
/// `false`, `0`, `no`, `n`, `off` are false.
pub proof fn law_parse_bool_tokens(v: Seq<char>)
    ensures
        ({
            let k = ascii_lower(trim(v));
            &&& (k == "true"@ || k == "1"@ || k == "yes"@ || k == "y"@ || k == "on"@) ==> parse_bool_spec(v) == Some(true)
            &&& k == "false"@ ==> parse_bool_spec(v) == Some(false)
            &&& k == "0"@ ==> parse_bool_spec(v) == Some(false)
            &&& k == "no"@ ==> parse_bool_spec(v) == Some(false)
            &&& k == "n"@ ==> parse_bool_spec(v) == Some(false)
            &&& k == "off"@ ==> parse_bool_spec(v) == Some(false)
        }),
{
    reveal_strlit("true");
    reveal_strlit("1");
    reveal_strlit("yes");
    reveal_strlit("y");
    reveal_strlit("on");
    reveal_strlit("false");
    reveal_strlit("0");
    reveal_strlit("no");
    reveal_strlit("n");
    reveal_strlit("off");
    assert("false"@ != "true"@) by {
        if "false"@.len() == "true"@.len() {
            assert("false"@[0] != "true"@[0]);
        }
    }
    assert("false"@ != "1"@) by {
        if "false"@.len() == "1"@.len() {
            assert("false"@[0] != "1"@[0]);
        }
    }
    assert("false"@ != "yes"@) by {
        if "false"@.len() == "yes"@.len() {
            assert("false"@[0] != "yes"@[0]);
        }
    }
    assert("false"@ != "y"@) by {
        if "false"@.len() == "y"@.len() {
            assert("false"@[0] != "y"@[0]);
        }
    }
    assert("false"@ != "on"@) by {
        if "false"@.len() == "on"@.len() {
            assert("false"@[0] != "on"@[0]);
        }
    }
    assert("0"@ != "true"@) by {
        if "0"@.len() == "true"@.len() {
            assert("0"@[0] != "true"@[0]);
        }
    }
    assert("0"@ != "1"@) by {
        if "0"@.len() == "1"@.len() {
            assert("0"@[0] != "1"@[0]);
        }
    }
    assert("0"@ != "yes"@) by {
        if "0"@.len() == "yes"@.len() {
            assert("0"@[0] != "yes"@[0]);
        }
    }
    assert("0"@ != "y"@) by {
        if "0"@.len() == "y"@.len() {
            assert("0"@[0] != "y"@[0]);
        }
    }
    assert("0"@ != "on"@) by {
        if "0"@.len() == "on"@.len() {
            assert("0"@[0] != "on"@[0]);
        }
    }
    assert("no"@ != "true"@) by {
        if "no"@.len() == "true"@.len() {
            assert("no"@[0] != "true"@[0]);
        }
    }
    assert("no"@ != "1"@) by {
        if "no"@.len() == "1"@.len() {
            assert("no"@[0] != "1"@[0]);
        }
    }
    assert("no"@ != "yes"@) by {
        if "no"@.len() == "yes"@.len() {
            assert("no"@[0] != "yes"@[0]);
        }
    }
    assert("no"@ != "y"@) by {
        if "no"@.len() == "y"@.len() {
            assert("no"@[0] != "y"@[0]);
        }
    }
    assert("no"@ != "on"@) by {
        if "no"@.len() == "on"@.len() {
            assert("no"@[0] != "on"@[0]);
        }
    }
    assert("n"@ != "true"@) by {
        if "n"@.len() == "true"@.len() {
            assert("n"@[0] != "true"@[0]);
        }
    }
    assert("n"@ != "1"@) by {
        if "n"@.len() == "1"@.len() {
            assert("n"@[0] != "1"@[0]);
        }
    }
    assert("n"@ != "yes"@) by {
        if "n"@.len() == "yes"@.len() {
            assert("n"@[0] != "yes"@[0]);
        }
    }
    assert("n"@ != "y"@) by {
        if "n"@.len() == "y"@.len() {
            assert("n"@[0] != "y"@[0]);
        }
    }
    assert("n"@ != "on"@) by {
        if "n"@.len() == "on"@.len() {
            assert("n"@[0] != "on"@[0]);
        }
    }
    assert("off"@ != "true"@) by {
        if "off"@.len() == "true"@.len() {
            assert("off"@[0] != "true"@[0]);
        }
    }
    assert("off"@ != "1"@) by {
        if "off"@.len() == "1"@.len() {
            assert("off"@[0] != "1"@[0]);
        }
    }
    assert("off"@ != "yes"@) by {
        if "off"@.len() == "yes"@.len() {
            assert("off"@[0] != "yes"@[0]);
        }
    }
    assert("off"@ != "y"@) by {
        if "off"@.len() == "y"@.len() {
            assert("off"@[0] != "y"@[0]);
        }
    }
    assert("off"@ != "on"@) by {
        if "off"@.len() == "on"@.len() {
            assert("off"@[0] != "on"@[0]);
        }
    }
}

/// The request built from the create form carries each input in the
/// request field of the same name: the trimmed text, or nothing when it is
/// blank; the URL trimmed; `enabled` as toggled; the other toggles only
/// when set; the chosen domain; the given workspace.
pub proof fn law_build_maps_each_input(form: CreateForm, ws: i64)
    ensures
        ({
            let r = form.build_spec(ws);
            &&& r.workspace_id == ws
            &&& r.url == trim(form.url.text())
            &&& r.domain == form.domain.deep_view()
            &&& r.enabled == Some(form.enabled)
            &&& r.forward_params == (if form.forward_params { Some(true) } else { None })
            &&& r.cloaking == (if form.cloaking { Some(true) } else { None })
            &&& r.block_bots == (if form.block_bots { Some(true) } else { None })
            &&& r.hide_referrer == (if form.hide_referrer { Some(true) } else { None })
            &&& r.slug == (if trim(form.slug.text()).len() == 0 { None } else { Some(trim(form.slug.text())) })
            &&& r.name == (if trim(form.name.text()).len() == 0 { None } else { Some(trim(form.name.text())) })
            &&& r.note == (if trim(form.note.text()).len() == 0 { None } else { Some(trim(form.note.text())) })
            &&& r.og_title == (if trim(form.og_title.text()).len() == 0 { None } else { Some(trim(form.og_title.text())) })
            &&& r.og_description == (if trim(form.og_description.text()).len() == 0 { None } else { Some(trim(form.og_description.text())) })
            &&& r.og_image == (if trim(form.og_image.text()).len() == 0 { None } else { Some(trim(form.og_image.text())) })
            &&& r.utm_source == (if trim(form.utm_source.text()).len() == 0 { None } else { Some(trim(form.utm_source.text())) })
            &&& r.utm_medium == (if trim(form.utm_medium.text()).len() == 0 { None } else { Some(trim(form.utm_medium.text())) })
            &&& r.utm_campaign == (if trim(form.utm_campaign.text()).len() == 0 { None } else { Some(trim(form.utm_campaign.text())) })
            &&& r.utm_term == (if trim(form.utm_term.text()).len() == 0 { None } else { Some(trim(form.utm_term.text())) })
            &&& r.utm_content == (if trim(form.utm_content.text()).len() == 0 { None } else { Some(trim(form.utm_content.text())) })
            &&& r.fb_pixel_id == (if trim(form.fb_pixel_id.text()).len() == 0 { None } else { Some(trim(form.fb_pixel_id.text())) })
            &&& r.tiktok_pixel_id == (if trim(form.tiktok_pixel_id.text()).len() == 0 { None } else { Some(trim(form.tiktok_pixel_id.text())) })
            &&& r.gtm_id == (if trim(form.gtm_id.text()).len() == 0 { None } else { Some(trim(form.gtm_id.text())) })
            &&& r.ga4_tag_id == (if trim(form.ga4_tag_id.text()).len() == 0 { None } else { Some(trim(form.ga4_tag_id.text())) })
            &&& r.head_tags == (if trim(form.head_tags.text()).len() == 0 { None } else { Some(trim(form.head_tags.text())) })
            &&& r.body_tags == (if trim(form.body_tags.text()).len() == 0 { None } else { Some(trim(form.body_tags.text())) })
            &&& r.linkify_words == (if trim(form.linkify_words.text()).len() == 0 { None } else { Some(trim(form.linkify_words.text())) })
        }),
{
}

/// The update payload sends every changed field with its live value, and
/// nothing else besides `id` and `workspace_id`: it has two entries more
/// than there are changed fields, and holds `(key, value)` of each of them.
pub proof fn law_update_sends_every_change(e: LinkEditor)
    ensures
        update_entries(e).len() == 2 + e.fields@.filter(|f: EditField| f.changed_spec()).len(),
        update_entries(e)[0] == ("id"@, JsonScalar::Integer(e.id)),
        update_entries(e)[1] == ("workspace_id"@, JsonScalar::Integer(e.workspace_id)),
        forall|i: int|
            0 <= i < e.fields@.len() && (#[trigger] e.fields@[i]).changed_spec() ==> update_entries(e).contains(
                (e.fields@[i].key@, match e.fields@[i].kind {
                    EditKind::Text => JsonScalar::Str(e.fields@[i].input.text()),
                    EditKind::Bool => JsonScalar::Bool(e.fields@[i].bool_val),
                }),
            ),
{
    let p = |f: EditField| f.changed_spec();
    lemma_changed_entries(e.fields@, p);
    let head = seq![("id"@, JsonScalar::Integer(e.id)), ("workspace_id"@, JsonScalar::Integer(e.workspace_id))];
    let ce = changed_entries(e.fields@);
    assert forall|i: int|
        0 <= i < e.fields@.len() && (#[trigger] e.fields@[i]).changed_spec() implies update_entries(e).contains(
            (e.fields@[i].key@, match e.fields@[i].kind {
                EditKind::Text => JsonScalar::Str(e.fields@[i].input.text()),
                EditKind::Bool => JsonScalar::Bool(e.fields@[i].bool_val),
            }),
        ) by {
        let x = (e.fields@[i].key@, match e.fields@[i].kind {
            EditKind::Text => JsonScalar::Str(e.fields@[i].input.text()),
            EditKind::Bool => JsonScalar::Bool(e.fields@[i].bool_val),
        });
        assert(ce.contains(x));
        let j = choose|j: int| 0 <= j < ce.len() && ce[j] == x;
        assert((head + ce)[j + 2] == x);
    }
}

proof fn lemma_changed_entries(fields: Seq<EditField>, p: spec_fn(EditField) -> bool)
    requires
        forall|f: EditField| #[trigger] p(f) == f.changed_spec(),
    ensures
        changed_entries(fields).len() == fields.filter(p).len(),
        forall|i: int|
            0 <= i < fields.len() && (#[trigger] fields[i]).changed_spec() ==> changed_entries(fields).contains(
                (fields[i].key@, match fields[i].kind {
                    EditKind::Text => JsonScalar::Str(fields[i].input.text()),
                    EditKind::Bool => JsonScalar::Bool(fields[i].bool_val),
                }),
            ),
    decreases fields.len(),
{
    reveal(Seq::filter);
    if fields.len() > 0 {
        let d = fields.drop_last();
        lemma_changed_entries(d, p);
        let prev = changed_entries(d);
        assert forall|i: int|
            0 <= i < fields.len() && (#[trigger] fields[i]).changed_spec() implies changed_entries(fields).contains(
                (fields[i].key@, match fields[i].kind {
                    EditKind::Text => JsonScalar::Str(fields[i].input.text()),
                    EditKind::Bool => JsonScalar::Bool(fields[i].bool_val),
                }),
            ) by {
            let x = (fields[i].key@, match fields[i].kind {
                EditKind::Text => JsonScalar::Str(fields[i].input.text()),
                EditKind::Bool => JsonScalar::Bool(fields[i].bool_val),
            });
            if i == fields.len() - 1 {
                assert(changed_entries(fields) == prev.push(crate::edit_form::field_entry(fields.last())));
                assert(changed_entries(fields)[prev.len() as int] == x);
            } else {
                assert(d[i] == fields[i]);
                assert(prev.contains(x));
                let j = choose|j: int| 0 <= j < prev.len() && prev[j] == x;
                if fields.last().changed_spec() {
                    assert(changed_entries(fields)[j] == x);
                } else {
                    assert(changed_entries(fields)[j] == x);
                }
            }
        }
    }
}

/// Each sort column sorts by the API field it names: `Created` by `id`,
/// `Name` by `name`, `Slug` by `slug`, `Total clicks` by `clicks_total`,
/// `Clicks (30d)` by `clicks_thirty_days`, `Clicks (today)` by
/// `clicks_today`.
pub proof fn law_sort_column_names_its_field(f: SortField)
    ensures
        f == SortField::Created ==> api_field_spec(f) == "id"@ && sort_label_spec(f) == "Created"@,
        f == SortField::Name ==> api_field_spec(f) == "name"@ && sort_label_spec(f) == "Name"@,
        f == SortField::Slug ==> api_field_spec(f) == "slug"@ && sort_label_spec(f) == "Slug"@,
        f == SortField::ClicksTotal ==> api_field_spec(f) == "clicks_total"@ && sort_label_spec(f) == "Total clicks"@,
        f == SortField::ClicksThirtyDays ==> api_field_spec(f) == "clicks_thirty_days"@ && sort_label_spec(f)
            == "Clicks (30d)"@,
        f == SortField::ClicksToday ==> api_field_spec(f) == "clicks_today"@ && sort_label_spec(f)
            == "Clicks (today)"@,
{
}

/// A rendered QR code draws its dark modules in the foreground colour and
/// its light ones in the background colour of the settings (each read as
/// `#rrggbb`), at the size kept within 64..=4096: the image is the one the
/// renderer makes with `fg` as its dark colour and `bg` as its light one.
pub proof fn law_qr_dark_is_foreground(
    url: Seq<char>,
    format: QrFormat,
    size: u32,
    fg: Seq<char>,
    bg: Seq<char>,
    r: Result<Vec<u8>, String>,
)
    requires
        render_qr_spec(url, (format, size, fg, bg), r),
        rgb_spec(fg) is Some,
        rgb_spec(bg) is Some,
    ensures
        r is Ok <==> qr_encodable(url),
        r matches Ok(b) ==> b@ == match format {
            QrFormat::Png => qr_png(url, clamp_size_spec(size), rgb_spec(fg)->0, rgb_spec(bg)->0),
            QrFormat::Jpeg => qr_jpeg(url, clamp_size_spec(size), rgb_spec(fg)->0, rgb_spec(bg)->0),
            QrFormat::Svg => qr_svg(url, clamp_size_spec(size), fg, bg),
        },
{
}

} // verus!
