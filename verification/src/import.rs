//! CSV bulk import: mapping of columns to request fields, the parse of a file
//! into rows, the template, the result files, and the import screen's state.
//!
//! Columns are link field names (header row). `url` is required; every other
//! field is optional and left unset when blank. Unknown columns are ignored
//! with a warning. Rows map to [`CreateLinkRequest`], the same write contract
//! as the single-create form.

use vstd::prelude::*;

use crate::browser::{DirItem, FileBrowser};
use crate::json::{JsonValue, str_at, i64_at};
use crate::models::{CreateLinkRequest, RequestView, empty_request_view, clone_opt_string};
use crate::text::{
    ascii_lower, ascii_lowercase, is_blank, nat_decimal, int_decimal, push_str, str_eq,
    to_owned_string, trim, trim_string, u64_to_string, i64_to_string,
};

verus! {

/// Every CSV-settable column, in template order. `workspace_id` is implicit
/// (the active workspace) and not importable.
pub const SUPPORTED: [&'static str; 25] = [
    "url",
    "slug",
    "name",
    "domain",
    "note",
    "enabled",
    "forward_params",
    "cloaking",
    "block_bots",
    "hide_referrer",
    "og_title",
    "og_description",
    "og_image",
    "utm_source",
    "utm_medium",
    "utm_campaign",
    "utm_term",
    "utm_content",
    "fb_pixel_id",
    "tiktok_pixel_id",
    "gtm_id",
    "ga4_tag_id",
    "head_tags",
    "body_tags",
    "linkify_words",
];

/// The tokens that read as `true` / `false` (after trimming and ASCII
/// lower-casing); anything else is no boolean.
pub open spec fn parse_bool_spec(v: Seq<char>) -> Option<bool> {
    let k = ascii_lower(trim(v));
    if k == "true"@ || k == "1"@ || k == "yes"@ || k == "y"@ || k == "on"@ {
        Some(true)
    } else if k == "false"@ || k == "0"@ || k == "no"@ || k == "n"@ || k == "off"@ {
        Some(false)
    } else {
        None
    }
}

/// A blank value leaves a string field as it was.
pub open spec fn set_str_spec(old: Option<Seq<char>>, v: Seq<char>) -> Option<Seq<char>> {
    if v.len() == 0 {
        old
    } else {
        Some(v)
    }
}

/// A value that is no boolean leaves a boolean field as it was.
pub open spec fn set_bool_spec(old: Option<bool>, v: Seq<char>) -> Option<bool> {
    match parse_bool_spec(v) {
        Some(b) => Some(b),
        None => old,
    }
}

/// Whether `k` names a settable column.
pub open spec fn is_column(k: Seq<char>) -> bool {
    k == "url"@
        || k == "slug"@
        || k == "name"@
        || k == "domain"@
        || k == "note"@
        || k == "enabled"@
        || k == "forward_params"@
        || k == "cloaking"@
        || k == "block_bots"@
        || k == "hide_referrer"@
        || k == "og_title"@
        || k == "og_description"@
        || k == "og_image"@
        || k == "utm_source"@
        || k == "utm_medium"@
        || k == "utm_campaign"@
        || k == "utm_term"@
        || k == "utm_content"@
        || k == "fb_pixel_id"@
        || k == "tiktok_pixel_id"@
        || k == "gtm_id"@
        || k == "ga4_tag_id"@
        || k == "head_tags"@
        || k == "body_tags"@
        || k == "linkify_words"@
}

/// The request after setting column `k` (already trimmed and lower-cased) to
/// the trimmed value `v`; a blank value leaves the request as it was.
pub open spec fn apply_column(r: RequestView, k: Seq<char>, v: Seq<char>) -> RequestView {
    if v.len() == 0 {
        r
    } else if k == "url"@ {
        RequestView { url: v, ..r }
    } else if k == "slug"@ {
        RequestView { slug: set_str_spec(r.slug, v), ..r }
    } else if k == "name"@ {
        RequestView { name: set_str_spec(r.name, v), ..r }
    } else if k == "domain"@ {
        RequestView { domain: set_str_spec(r.domain, v), ..r }
    } else if k == "note"@ {
        RequestView { note: set_str_spec(r.note, v), ..r }
    } else if k == "enabled"@ {
        RequestView { enabled: set_bool_spec(r.enabled, v), ..r }
    } else if k == "forward_params"@ {
        RequestView { forward_params: set_bool_spec(r.forward_params, v), ..r }
    } else if k == "cloaking"@ {
        RequestView { cloaking: set_bool_spec(r.cloaking, v), ..r }
    } else if k == "block_bots"@ {
        RequestView { block_bots: set_bool_spec(r.block_bots, v), ..r }
    } else if k == "hide_referrer"@ {
        RequestView { hide_referrer: set_bool_spec(r.hide_referrer, v), ..r }
    } else if k == "og_title"@ {
        RequestView { og_title: set_str_spec(r.og_title, v), ..r }
    } else if k == "og_description"@ {
        RequestView { og_description: set_str_spec(r.og_description, v), ..r }
    } else if k == "og_image"@ {
        RequestView { og_image: set_str_spec(r.og_image, v), ..r }
    } else if k == "utm_source"@ {
        RequestView { utm_source: set_str_spec(r.utm_source, v), ..r }
    } else if k == "utm_medium"@ {
        RequestView { utm_medium: set_str_spec(r.utm_medium, v), ..r }
    } else if k == "utm_campaign"@ {
        RequestView { utm_campaign: set_str_spec(r.utm_campaign, v), ..r }
    } else if k == "utm_term"@ {
        RequestView { utm_term: set_str_spec(r.utm_term, v), ..r }
    } else if k == "utm_content"@ {
        RequestView { utm_content: set_str_spec(r.utm_content, v), ..r }
    } else if k == "fb_pixel_id"@ {
        RequestView { fb_pixel_id: set_str_spec(r.fb_pixel_id, v), ..r }
    } else if k == "tiktok_pixel_id"@ {
        RequestView { tiktok_pixel_id: set_str_spec(r.tiktok_pixel_id, v), ..r }
    } else if k == "gtm_id"@ {
        RequestView { gtm_id: set_str_spec(r.gtm_id, v), ..r }
    } else if k == "ga4_tag_id"@ {
        RequestView { ga4_tag_id: set_str_spec(r.ga4_tag_id, v), ..r }
    } else if k == "head_tags"@ {
        RequestView { head_tags: set_str_spec(r.head_tags, v), ..r }
    } else if k == "body_tags"@ {
        RequestView { body_tags: set_str_spec(r.body_tags, v), ..r }
    } else if k == "linkify_words"@ {
        RequestView { linkify_words: set_str_spec(r.linkify_words, v), ..r }
    } else {
        r
    }
}

/// Read a CSV cell as a boolean: `true`, `1`, `yes`, `y`, `on` and their
/// `false`, `0`, `no`, `n`, `off` counterparts, in any ASCII case and with
/// surrounding whitespace.
pub fn parse_bool(v: &str) -> (r: Option<bool>)
    ensures
        r == parse_bool_spec(v@),
{
    let t = trim_string(v);
    let k = ascii_lowercase(t.as_str());
    let k = k.as_str();
    if str_eq(k, "true") || str_eq(k, "1") || str_eq(k, "yes") || str_eq(k, "y") || str_eq(k, "on") {
        Some(true)
    } else if str_eq(k, "false") || str_eq(k, "0") || str_eq(k, "no") || str_eq(k, "n") || str_eq(k, "off") {
        Some(false)
    } else {
        None
    }
}

/// Set a string field, unless the value is empty.
pub fn set_str(field: &mut Option<String>, v: &str)
    ensures
        final(field).deep_view() == set_str_spec(old(field).deep_view(), v@),
{
    if v.unicode_len() != 0 {
        *field = Some(to_owned_string(v));
    }
}

/// Set a boolean field, unless the value reads as no boolean.
pub fn set_bool(field: &mut Option<bool>, v: &str)
    ensures
        *final(field) == set_bool_spec(*old(field), v@),
{
    match parse_bool(v) {
        Some(b) => {
            *field = Some(b);
        },
        None => {},
    }
}

/// Apply one CSV cell to the request. Returns whether the header (trimmed,
/// in any ASCII case) is a known column; blank values and unknown headers
/// leave the request as it was.
pub fn set_field(req: &mut CreateLinkRequest, header: &str, value: &str) -> (known: bool)
    ensures
        known == is_column(ascii_lower(trim(header@))),
        final(req)@ == apply_column(old(req)@, ascii_lower(trim(header@)), trim(value@)),
{
    let vs = trim_string(value);
    let v = vs.as_str();
    let ht = trim_string(header);
    let hk = ascii_lowercase(ht.as_str());
    let k = hk.as_str();
    if v.unicode_len() == 0 {
        return is_supported(k);
    }
    if str_eq(k, "url") {
        req.url = to_owned_string(v);
    } else if str_eq(k, "slug") {
        set_str(&mut req.slug, v);
    } else if str_eq(k, "name") {
        set_str(&mut req.name, v);
    } else if str_eq(k, "domain") {
        set_str(&mut req.domain, v);
    } else if str_eq(k, "note") {
        set_str(&mut req.note, v);
    } else if str_eq(k, "enabled") {
        set_bool(&mut req.enabled, v);
    } else if str_eq(k, "forward_params") {
        set_bool(&mut req.forward_params, v);
    } else if str_eq(k, "cloaking") {
        set_bool(&mut req.cloaking, v);
    } else if str_eq(k, "block_bots") {
        set_bool(&mut req.block_bots, v);
    } else if str_eq(k, "hide_referrer") {
        set_bool(&mut req.hide_referrer, v);
    } else if str_eq(k, "og_title") {
        set_str(&mut req.og_title, v);
    } else if str_eq(k, "og_description") {
        set_str(&mut req.og_description, v);
    } else if str_eq(k, "og_image") {
        set_str(&mut req.og_image, v);
    } else if str_eq(k, "utm_source") {
        set_str(&mut req.utm_source, v);
    } else if str_eq(k, "utm_medium") {
        set_str(&mut req.utm_medium, v);
    } else if str_eq(k, "utm_campaign") {
        set_str(&mut req.utm_campaign, v);
    } else if str_eq(k, "utm_term") {
        set_str(&mut req.utm_term, v);
    } else if str_eq(k, "utm_content") {
        set_str(&mut req.utm_content, v);
    } else if str_eq(k, "fb_pixel_id") {
        set_str(&mut req.fb_pixel_id, v);
    } else if str_eq(k, "tiktok_pixel_id") {
        set_str(&mut req.tiktok_pixel_id, v);
    } else if str_eq(k, "gtm_id") {
        set_str(&mut req.gtm_id, v);
    } else if str_eq(k, "ga4_tag_id") {
        set_str(&mut req.ga4_tag_id, v);
    } else if str_eq(k, "head_tags") {
        set_str(&mut req.head_tags, v);
    } else if str_eq(k, "body_tags") {
        set_str(&mut req.body_tags, v);
    } else if str_eq(k, "linkify_words") {
        set_str(&mut req.linkify_words, v);
    } else {
        return false;
    }
    true
}

/// The supported columns as character sequences.
pub open spec fn supported_columns() -> Seq<Seq<char>> {
    SUPPORTED@.map_values(|c: &str| c@)
}

/// The settable columns are exactly those listed in [`SUPPORTED`].
pub proof fn lemma_supported_columns(k: Seq<char>)
    ensures
        is_column(k) <==> supported_columns().contains(k),
{
    let sc = supported_columns();
    assert(sc.len() == 25);
    assert(sc =~= seq!["url"@, "slug"@, "name"@, "domain"@, "note"@, "enabled"@, "forward_params"@, "cloaking"@, "block_bots"@, "hide_referrer"@, "og_title"@, "og_description"@, "og_image"@, "utm_source"@, "utm_medium"@, "utm_campaign"@, "utm_term"@, "utm_content"@, "fb_pixel_id"@, "tiktok_pixel_id"@, "gtm_id"@, "ga4_tag_id"@, "head_tags"@, "body_tags"@, "linkify_words"@]);
    if is_column(k) {
        if k == "url"@ {
            assert(sc[0] == k);
        }
        if k == "slug"@ {
            assert(sc[1] == k);
        }
        if k == "name"@ {
            assert(sc[2] == k);
        }
        if k == "domain"@ {
            assert(sc[3] == k);
        }
        if k == "note"@ {
            assert(sc[4] == k);
        }
        if k == "enabled"@ {
            assert(sc[5] == k);
        }
        if k == "forward_params"@ {
            assert(sc[6] == k);
        }
        if k == "cloaking"@ {
            assert(sc[7] == k);
        }
        if k == "block_bots"@ {
            assert(sc[8] == k);
        }
        if k == "hide_referrer"@ {
            assert(sc[9] == k);
        }
        if k == "og_title"@ {
            assert(sc[10] == k);
        }
        if k == "og_description"@ {
            assert(sc[11] == k);
        }
        if k == "og_image"@ {
            assert(sc[12] == k);
        }
        if k == "utm_source"@ {
            assert(sc[13] == k);
        }
        if k == "utm_medium"@ {
            assert(sc[14] == k);
        }
        if k == "utm_campaign"@ {
            assert(sc[15] == k);
        }
        if k == "utm_term"@ {
            assert(sc[16] == k);
        }
        if k == "utm_content"@ {
            assert(sc[17] == k);
        }
        if k == "fb_pixel_id"@ {
            assert(sc[18] == k);
        }
        if k == "tiktok_pixel_id"@ {
            assert(sc[19] == k);
        }
        if k == "gtm_id"@ {
            assert(sc[20] == k);
        }
        if k == "ga4_tag_id"@ {
            assert(sc[21] == k);
        }
        if k == "head_tags"@ {
            assert(sc[22] == k);
        }
        if k == "body_tags"@ {
            assert(sc[23] == k);
        }
        if k == "linkify_words"@ {
            assert(sc[24] == k);
        }
    }
    if sc.contains(k) {
        let i = choose|i: int| 0 <= i < sc.len() && sc[i] == k;
        assert(is_column(sc[i]));
    }
}

/// Whether `k` is one of the [`SUPPORTED`] columns (`SUPPORTED.contains`).
pub fn is_supported(k: &str) -> (r: bool)
    ensures
        r == is_column(k@),
{
    let mut i: usize = 0;
    while i < 25
        invariant
            i <= 25,
            forall|j: int| 0 <= j < i ==> supported_columns()[j] != k@,
        decreases 25 - i,
    {
        if str_eq(SUPPORTED[i], k) {
            proof {
                assert(supported_columns()[i as int] == k@);
                lemma_supported_columns(k@);
            }
            return true;
        }
        i = i + 1;
    }
    proof {
        lemma_supported_columns(k@);
    }
    false
}

/// One parsed CSV row.
pub struct ParsedRow {
    pub line: u64,
    pub request: Option<CreateLinkRequest>,
    pub url_display: String,
    pub slug_display: String,
    pub error: Option<String>,
}

/// The mathematical value of a [`ParsedRow`].
pub struct RowView {
    pub line: u64,
    pub request: Option<RequestView>,
    pub url_display: Seq<char>,
    pub slug_display: Seq<char>,
    pub error: Option<Seq<char>>,
}

pub open spec fn opt_request_view(o: Option<CreateLinkRequest>) -> Option<RequestView> {
    match o {
        Some(r) => Some(r@),
        None => None,
    }
}

impl View for ParsedRow {
    type V = RowView;

    open spec fn view(&self) -> RowView {
        RowView {
            line: self.line,
            request: opt_request_view(self.request),
            url_display: self.url_display@,
            slug_display: self.slug_display@,
            error: self.error.deep_view(),
        }
    }
}

/// The result of parsing a CSV file.
pub struct ParsedImport {
    pub path: String,
    pub rows: Vec<ParsedRow>,
    pub warnings: Vec<String>,
}

/// The rows of a parse, by value.
pub open spec fn rows_view(rows: Seq<ParsedRow>) -> Seq<RowView> {
    rows.map_values(|r: ParsedRow| r@)
}

/// Number of rows without an error.
pub open spec fn valid_count(rows: Seq<RowView>) -> nat
    decreases rows.len(),
{
    if rows.len() == 0 {
        0
    } else {
        valid_count(rows.drop_last()) + if rows.last().error is None {
            1nat
        } else {
            0nat
        }
    }
}

/// The (line, request) pairs of the rows that carry a request, in order.
pub open spec fn requests_of(rows: Seq<RowView>) -> Seq<(u64, RequestView)>
    decreases rows.len(),
{
    if rows.len() == 0 {
        seq![]
    } else {
        let prev = requests_of(rows.drop_last());
        match rows.last().request {
            Some(r) => prev.push((rows.last().line, r)),
            None => prev,
        }
    }
}

pub proof fn lemma_valid_count_le(rows: Seq<RowView>)
    ensures
        valid_count(rows) <= rows.len(),
    decreases rows.len(),
{
    if rows.len() > 0 {
        lemma_valid_count_le(rows.drop_last());
    }
}

impl ParsedImport {
    /// Number of rows.
    pub fn total(&self) -> (r: usize)
        ensures
            r == self.rows@.len(),
    {
        self.rows.len()
    }

    /// Number of rows without an error.
    pub fn valid(&self) -> (r: usize)
        ensures
            r == valid_count(rows_view(self.rows@)),
    {
        let mut n: usize = 0;
        let mut i: usize = 0;
        while i < self.rows.len()
            invariant
                i <= self.rows@.len(),
                n == valid_count(rows_view(self.rows@.subrange(0, i as int))),
                n <= i,
            decreases self.rows.len() - i,
        {
            proof {
                assert(rows_view(self.rows@.subrange(0, i + 1)).drop_last() == rows_view(
                    self.rows@.subrange(0, i as int),
                ));
            }
            if self.rows[i].error.is_none() {
                n = n + 1;
            }
            i = i + 1;
        }
        assert(self.rows@.subrange(0, i as int) == self.rows@);
        n
    }

    /// Number of rows with an error.
    pub fn invalid(&self) -> (r: usize)
        ensures
            r == self.rows@.len() - valid_count(rows_view(self.rows@)),
    {
        proof {
            lemma_valid_count_le(rows_view(self.rows@));
        }
        self.total() - self.valid()
    }

    /// (line, request) pairs for the rows that can be submitted.
    pub fn valid_requests(&self) -> (r: Vec<(u64, CreateLinkRequest)>)
        ensures
            r@.map_values(|p: (u64, CreateLinkRequest)| (p.0, p.1@)) == requests_of(
                rows_view(self.rows@),
            ),
    {
        let mut out: Vec<(u64, CreateLinkRequest)> = Vec::new();
        let mut i: usize = 0;
        while i < self.rows.len()
            invariant
                i <= self.rows@.len(),
                out@.map_values(|p: (u64, CreateLinkRequest)| (p.0, p.1@)) == requests_of(
                    rows_view(self.rows@.subrange(0, i as int)),
                ),
            decreases self.rows.len() - i,
        {
            proof {
                assert(rows_view(self.rows@.subrange(0, i + 1)).drop_last() == rows_view(
                    self.rows@.subrange(0, i as int),
                ));
            }
            match &self.rows[i].request {
                Some(req) => {
                    out.push((self.rows[i].line, req.duplicate()));
                },
                None => {},
            }
            assert(out@.map_values(|p: (u64, CreateLinkRequest)| (p.0, p.1@)) =~= requests_of(
                rows_view(self.rows@.subrange(0, i + 1)),
            ));
            i = i + 1;
        }
        assert(self.rows@.subrange(0, i as int) == self.rows@);
        out
    }
}

/// The request after applying each cell of `fields` under the header of the
/// same position (cells beyond the header row are ignored).
pub open spec fn fill_request(
    r: RequestView,
    headers: Seq<Seq<char>>,
    fields: Seq<Seq<char>>,
) -> RequestView
    decreases fields.len(),
{
    if fields.len() == 0 {
        r
    } else {
        let i = fields.len() - 1;
        let prev = fill_request(r, headers, fields.drop_last());
        if i < headers.len() {
            apply_column(prev, ascii_lower(trim(headers[i])), trim(fields[i]))
        } else {
            prev
        }
    }
}

/// The row that a well-formed record on `line` parses to: its request when
/// the URL is not blank, the error "missing url" otherwise.
pub open spec fn row_of_fields(
    line: u64,
    headers: Seq<Seq<char>>,
    fields: Seq<Seq<char>>,
    workspace_id: i64,
) -> RowView {
    let req = fill_request(empty_request_view(workspace_id), headers, fields);
    let missing = trim(req.url).len() == 0;
    RowView {
        line,
        request: if missing {
            None
        } else {
            Some(req)
        },
        url_display: req.url,
        slug_display: match req.slug {
            Some(s) => s,
            None => seq![],
        },
        error: if missing {
            Some("missing url"@)
        } else {
            None
        },
    }
}

/// The row for a record the CSV reader could not read.
pub open spec fn malformed_row(line: u64, e: Seq<char>) -> RowView {
    RowView {
        line,
        request: None,
        url_display: seq![],
        slug_display: seq![],
        error: Some("malformed row: "@ + e),
    }
}

/// A record as the CSV reader hands it over: its cells, or its error.
pub open spec fn record_view(r: Result<Vec<String>, String>) -> Result<Seq<Seq<char>>, Seq<char>> {
    match r {
        Ok(fields) => Ok(fields.deep_view()),
        Err(e) => Err(e@),
    }
}

/// The row of the record at position `i` (line `i + 2`: the header is line 1).
pub open spec fn row_of_record(
    i: int,
    headers: Seq<Seq<char>>,
    rec: Result<Seq<Seq<char>>, Seq<char>>,
    workspace_id: i64,
) -> RowView {
    match rec {
        Ok(fields) => row_of_fields((i + 2) as u64, headers, fields, workspace_id),
        Err(e) => malformed_row((i + 2) as u64, e),
    }
}

/// One warning per header that is no supported column (compared in ASCII
/// lower case), in header order.
pub open spec fn header_warnings(headers: Seq<Seq<char>>) -> Seq<Seq<char>>
    decreases headers.len(),
{
    if headers.len() == 0 {
        seq![]
    } else {
        let prev = header_warnings(headers.drop_last());
        if is_column(ascii_lower(headers.last())) {
            prev
        } else {
            prev.push("ignoring unknown column \u{201c}"@ + headers.last() + "\u{201d}"@)
        }
    }
}

fn fill_from_record(req: &mut CreateLinkRequest, headers: &Vec<String>, fields: &Vec<String>)
    ensures
        final(req)@ == fill_request(old(req)@, headers.deep_view(), fields.deep_view()),
{
    let ghost start = req@;
    let mut j: usize = 0;
    while j < fields.len()
        invariant
            j <= fields@.len(),
            req@ == fill_request(start, headers.deep_view(), fields.deep_view().subrange(0, j as int)),
        decreases fields.len() - j,
    {
        proof {
            assert(fields.deep_view().subrange(0, j + 1).drop_last() == fields.deep_view().subrange(
                0,
                j as int,
            ));
        }
        if j < headers.len() {
            set_field(req, headers[j].as_str(), fields[j].as_str());
        }
        j = j + 1;
    }
    assert(fields.deep_view().subrange(0, j as int) == fields.deep_view());
}

/// Parse the records of a CSV file (as the reader handed them over, headers
/// and cells already trimmed by it) into per-row requests for
/// `workspace_id`, with a warning for each unknown column.
pub fn parse_records(
    path: String,
    headers: &Vec<String>,
    records: &Vec<Result<Vec<String>, String>>,
    workspace_id: i64,
) -> (p: ParsedImport)
    requires
        records@.len() + 2 <= u64::MAX,
    ensures
        p.path@ == path@,
        p.warnings.deep_view() == header_warnings(headers.deep_view()),
        rows_view(p.rows@) == Seq::new(
            records@.len(),
            |i: int| row_of_record(i, headers.deep_view(), record_view(records@[i]), workspace_id),
        ),
{
    let mut warnings: Vec<String> = Vec::new();
    let mut h: usize = 0;
    while h < headers.len()
        invariant
            h <= headers@.len(),
            warnings.deep_view() == header_warnings(headers.deep_view().subrange(0, h as int)),
        decreases headers.len() - h,
    {
        proof {
            assert(headers.deep_view().subrange(0, h + 1).drop_last() == headers.deep_view().subrange(
                0,
                h as int,
            ));
        }
        let lower = ascii_lowercase(headers[h].as_str());
        if !is_supported(lower.as_str()) {
            let mut w = to_owned_string("ignoring unknown column \u{201c}");
            push_str(&mut w, headers[h].as_str());
            push_str(&mut w, "\u{201d}");
            warnings.push(w);
        }
        assert(warnings.deep_view() =~= header_warnings(headers.deep_view().subrange(0, h + 1)));
        h = h + 1;
    }
    assert(headers.deep_view().subrange(0, h as int) == headers.deep_view());

    let mut rows: Vec<ParsedRow> = Vec::new();
    let mut i: usize = 0;
    while i < records.len()
        invariant
            i <= records@.len(),
            records@.len() + 2 <= u64::MAX,
            rows_view(rows@) == Seq::new(
                i as nat,
                |k: int| row_of_record(k, headers.deep_view(), record_view(records@[k]), workspace_id),
            ),
        decreases records.len() - i,
    {
        let line: u64 = i as u64 + 2;
        let row = match &records[i] {
            Err(e) => {
                let mut msg = to_owned_string("malformed row: ");
                push_str(&mut msg, e.as_str());
                ParsedRow {
                    line,
                    request: None,
                    url_display: String::new(),
                    slug_display: String::new(),
                    error: Some(msg),
                }
            },
            Ok(fields) => {
                let mut req = CreateLinkRequest::for_workspace(workspace_id);
                fill_from_record(&mut req, headers, fields);
                let url_display = req.url.clone();
                let slug_display = match &req.slug {
                    Some(s) => s.clone(),
                    None => String::new(),
                };
                if is_blank(req.url.as_str()) {
                    ParsedRow {
                        line,
                        request: None,
                        url_display,
                        slug_display,
                        error: Some(to_owned_string("missing url")),
                    }
                } else {
                    ParsedRow { line, request: Some(req), url_display, slug_display, error: None }
                }
            },
        };
        assert(row@ == row_of_record(i as int, headers.deep_view(), record_view(records@[i as int]), workspace_id));
        let ghost prev = rows@;
        let ghost rv = row@;
        rows.push(row);
        assert(rows_view(rows@) =~= rows_view(prev).push(rv));
        assert(rows_view(rows@) =~= Seq::new(
            (i + 1) as nat,
            |k: int| row_of_record(k, headers.deep_view(), record_view(records@[k]), workspace_id),
        ));
        i = i + 1;
    }
    ParsedImport { path, rows, warnings }
}

/// The example cell for a column in the template file.
pub open spec fn example_spec(field: Seq<char>) -> Seq<char> {
    if field == "url"@ {
        "https://example.com/landing"@
    } else if field == "slug"@ {
        "spring-promo"@
    } else if field == "name"@ {
        "Spring promo"@
    } else if field == "enabled"@ {
        "true"@
    } else if field == "utm_source"@ {
        "newsletter"@
    } else if field == "utm_medium"@ {
        "email"@
    } else if field == "utm_campaign"@ {
        "spring"@
    } else {
        ""@
    }
}

fn example_value(field: &str) -> (r: &'static str)
    ensures
        r@ == example_spec(field@),
{
    if str_eq(field, "url") {
        "https://example.com/landing"
    } else if str_eq(field, "slug") {
        "spring-promo"
    } else if str_eq(field, "name") {
        "Spring promo"
    } else if str_eq(field, "enabled") {
        "true"
    } else if str_eq(field, "utm_source") {
        "newsletter"
    } else if str_eq(field, "utm_medium") {
        "email"
    } else if str_eq(field, "utm_campaign") {
        "spring"
    } else {
        ""
    }
}

/// The records of the template file: all supported columns, then one
/// example row.
pub fn template_records() -> (r: Vec<Vec<String>>)
    ensures
        r.deep_view() == seq![
            supported_columns(),
            supported_columns().map_values(|c: Seq<char>| example_spec(c)),
        ],
{
    let mut header: Vec<String> = Vec::new();
    let mut example: Vec<String> = Vec::new();
    let mut i: usize = 0;
    while i < 25
        invariant
            i <= 25,
            header.deep_view() == supported_columns().subrange(0, i as int),
            example.deep_view() == supported_columns().subrange(0, i as int).map_values(
                |c: Seq<char>| example_spec(c),
            ),
        decreases 25 - i,
    {
        let col = SUPPORTED[i];
        assert(supported_columns()[i as int] == col@);
        let ghost prev_ex = example.deep_view();
        header.push(to_owned_string(col));
        let ex = to_owned_string(example_value(col));
        example.push(ex);
        assert(header.deep_view() =~= supported_columns().subrange(0, i + 1));
        assert(example.deep_view() =~= prev_ex.push(example_spec(col@)));
        assert(supported_columns().subrange(0, i + 1).map_values(|c: Seq<char>| example_spec(c))
            =~= supported_columns().subrange(0, i as int).map_values(|c: Seq<char>| example_spec(c)).push(
            example_spec(col@),
        ));
        i = i + 1;
    }
    assert(supported_columns().subrange(0, 25) == supported_columns());
    let mut r: Vec<Vec<String>> = Vec::new();
    r.push(header);
    r.push(example);
    assert(r.deep_view() =~= seq![
        supported_columns(),
        supported_columns().map_values(|c: Seq<char>| example_spec(c)),
    ]);
    r
}

/// A link created during import, read from the API's create response.
pub struct NewLink {
    pub id: Option<i64>,
    pub slug: Option<String>,
    pub name: Option<String>,
    pub full_url: Option<String>,
    pub url: Option<String>,
}

impl NewLink {
    /// Read the fields of a create response; any that is missing or of
    /// another type is `None`.
    pub fn from_response(v: &JsonValue) -> (r: Self)
        ensures
            r.id == i64_at(*v, "id"@),
            r.slug.deep_view() == str_at(*v, "slug"@),
            r.name.deep_view() == str_at(*v, "name"@),
            r.full_url.deep_view() == str_at(*v, "full_url"@),
            r.url.deep_view() == str_at(*v, "url"@),
    {
        NewLink {
            id: v.i64_field("id"),
            slug: v.str_field("slug"),
            name: v.str_field("name"),
            full_url: v.str_field("full_url"),
            url: v.str_field("url"),
        }
    }

    /// A field-by-field copy.
    pub fn duplicate(&self) -> (r: Self)
        ensures
            r.id == self.id,
            r.slug.deep_view() == self.slug.deep_view(),
            r.name.deep_view() == self.name.deep_view(),
            r.full_url.deep_view() == self.full_url.deep_view(),
            r.url.deep_view() == self.url.deep_view(),
    {
        NewLink {
            id: self.id,
            slug: clone_opt_string(&self.slug),
            name: clone_opt_string(&self.name),
            full_url: clone_opt_string(&self.full_url),
            url: clone_opt_string(&self.url),
        }
    }
}

/// The text of an optional string, or nothing.
pub open spec fn or_empty(o: Option<Seq<char>>) -> Seq<char> {
    match o {
        Some(s) => s,
        None => seq![],
    }
}

/// The cells of a created link in the success file.
pub open spec fn success_row(l: NewLink) -> Seq<Seq<char>> {
    seq![
        match l.id {
            Some(i) => int_decimal(i as int),
            None => seq![],
        },
        or_empty(l.slug.deep_view()),
        or_empty(l.name.deep_view()),
        or_empty(l.full_url.deep_view()),
        or_empty(l.url.deep_view()),
    ]
}

fn opt_text(o: &Option<String>) -> (r: String)
    ensures
        r@ == or_empty(o.deep_view()),
{
    match o {
        Some(s) => s.clone(),
        None => String::new(),
    }
}

/// The records of the success file: a header, then one row per created link.
pub fn success_records(links: &[NewLink]) -> (r: Vec<Vec<String>>)
    ensures
        r.deep_view() == seq![seq!["id"@, "slug"@, "name"@, "full_url"@, "url"@]]
            + links@.map_values(|l: NewLink| success_row(l)),
{
    let mut r: Vec<Vec<String>> = Vec::new();
    let mut header: Vec<String> = Vec::new();
    header.push(to_owned_string("id"));
    header.push(to_owned_string("slug"));
    header.push(to_owned_string("name"));
    header.push(to_owned_string("full_url"));
    header.push(to_owned_string("url"));
    r.push(header);
    let ghost head = seq![seq!["id"@, "slug"@, "name"@, "full_url"@, "url"@]];
    assert(r.deep_view() =~~= head);
    let mut i: usize = 0;
    while i < links.len()
        invariant
            i <= links@.len(),
            r.deep_view() == head + links@.subrange(0, i as int).map_values(
                |l: NewLink| success_row(l),
            ),
        decreases links.len() - i,
    {
        let l = &links[i];
        let mut row: Vec<String> = Vec::new();
        row.push(
            match l.id {
                Some(n) => i64_to_string(n),
                None => String::new(),
            },
        );
        row.push(opt_text(&l.slug));
        row.push(opt_text(&l.name));
        row.push(opt_text(&l.full_url));
        row.push(opt_text(&l.url));
        assert(row.deep_view() =~= success_row(*l));
        let ghost prev = r.deep_view();
        let ghost rv = row.deep_view();
        r.push(row);
        assert(r.deep_view() =~= prev.push(rv));
        assert(links@.subrange(0, i + 1).map_values(|l: NewLink| success_row(l)) =~= links@.subrange(
            0,
            i as int,
        ).map_values(|l: NewLink| success_row(l)).push(success_row(links@[i as int])));
        assert(r.deep_view() =~= head + links@.subrange(0, i + 1).map_values(
            |l: NewLink| success_row(l),
        ));
        i = i + 1;
    }
    assert(links@.subrange(0, i as int) == links@);
    r
}

/// The records of the failures file: a header, then (line, reason) rows.
pub fn failure_records(failures: &[(u64, String)]) -> (r: Vec<Vec<String>>)
    ensures
        r.deep_view() == seq![seq!["line"@, "reason"@]] + failures@.map_values(
            |f: (u64, String)| seq![nat_decimal(f.0 as nat), f.1@],
        ),
{
    let mut r: Vec<Vec<String>> = Vec::new();
    let mut header: Vec<String> = Vec::new();
    header.push(to_owned_string("line"));
    header.push(to_owned_string("reason"));
    r.push(header);
    let ghost head = seq![seq!["line"@, "reason"@]];
    assert(r.deep_view() =~~= head);
    let mut i: usize = 0;
    while i < failures.len()
        invariant
            i <= failures@.len(),
            r.deep_view() == head + failures@.subrange(0, i as int).map_values(
                |f: (u64, String)| seq![nat_decimal(f.0 as nat), f.1@],
            ),
        decreases failures.len() - i,
    {
        let mut row: Vec<String> = Vec::new();
        row.push(u64_to_string(failures[i].0));
        row.push(failures[i].1.clone());
        let ghost f = failures@[i as int];
        assert(row.deep_view() =~= seq![nat_decimal(f.0 as nat), f.1@]);
        let ghost prev = r.deep_view();
        let ghost rv = row.deep_view();
        r.push(row);
        assert(r.deep_view() =~= prev.push(rv));
        assert(failures@.subrange(0, i + 1).map_values(
            |f: (u64, String)| seq![nat_decimal(f.0 as nat), f.1@],
        ) =~= failures@.subrange(0, i as int).map_values(
            |f: (u64, String)| seq![nat_decimal(f.0 as nat), f.1@],
        ).push(seq![nat_decimal(f.0 as nat), f.1@]));
        assert(r.deep_view() =~= head + failures@.subrange(0, i + 1).map_values(
            |f: (u64, String)| seq![nat_decimal(f.0 as nat), f.1@],
        ));
        i = i + 1;
    }
    assert(failures@.subrange(0, i as int) == failures@);
    r
}

/// Live progress while submitting.
pub struct Progress {
    pub total: usize,
    pub done: usize,
    pub ok: usize,
    pub failed: usize,
}

/// Final summary after submission.
pub struct Summary {
    pub ok: usize,
    pub failed: usize,
    pub success_path: Option<String>,
    pub failure_path: Option<String>,
    pub new_links: Vec<NewLink>,
    /// `None` while the QR decision is pending; `Some(n)` once `n` QR codes
    /// were generated.
    pub qr_done: Option<usize>,
    pub qr_dir: Option<String>,
}

/// The stage of the import screen.
pub enum ImportStage {
    Browse,
    Preview(ParsedImport),
    Running(Progress),
    Done(Summary),
}

/// The import screen: the file browser, the current stage, and the last
/// status or error line of the browser stage.
pub struct ImportState {
    pub browser: FileBrowser,
    pub stage: ImportStage,
    pub message: Option<String>,
}

impl ImportState {
    /// The import screen opened on `dir` (whose parent is `parent` and whose
    /// entries are `items`), in the browse stage with no message.
    pub fn new(dir: String, parent: Option<String>, items: &Vec<DirItem>) -> (r: Self)
        ensures
            r.browser.dir@ == dir@,
            r.browser.parent.deep_view() == parent.deep_view(),
            crate::browser::listing_spec(
                parent.deep_view(),
                items@.map_values(|e: DirItem| crate::browser::item_view(e)),
                r.browser.entries@.map_values(|e: crate::browser::BrowserEntry| crate::browser::entry_view(e)),
            ),
            r.stage is Browse,
            r.message is None,
    {
        ImportState { browser: FileBrowser::new(dir, parent, items), stage: ImportStage::Browse, message: None }
    }
}

/// What `csv` reads from `data` (headers on, fields trimmed): the header
/// row and each record (its cells, or the reader's error for it), or the
/// error that stopped it before the records.
pub uninterp spec fn csv_table(data: Seq<u8>) -> Result<(Seq<Seq<char>>, Seq<Result<Seq<Seq<char>>, Seq<char>>>), Seq<char>>;

/// The bytes `csv` writes for `rows` (one record per row).
pub uninterp spec fn csv_text(rows: Seq<Seq<Seq<char>>>) -> Seq<u8>;

/// `csv::ReaderBuilder` with every field trimmed, reading `data`: the
/// headers, then every record as its cells or its error's message. The
/// result is named ([`csv_table`]); it depends on `data` alone.
#[verifier::external_body]
fn read_csv_table(data: &[u8]) -> (r: Result<(Vec<String>, Vec<Result<Vec<String>, String>>), String>)
    ensures
        match r {
            Ok((h, recs)) => csv_table(data@) == Ok::<(Seq<Seq<char>>, Seq<Result<Seq<Seq<char>>, Seq<char>>>), Seq<char>>(
                (h.deep_view(), recs@.map_values(|x: Result<Vec<String>, String>| record_view(x))),
            ),
            Err(e) => csv_table(data@) == Err::<(Seq<Seq<char>>, Seq<Result<Seq<Seq<char>>, Seq<char>>>), Seq<char>>(e@),
        },
{
    let mut rdr = csv::ReaderBuilder::new().trim(csv::Trim::All).from_reader(data);
    let headers: Vec<String> = match rdr.headers() {
        Ok(h) => h.iter().map(|c| c.to_string()).collect(),
        Err(e) => return Err(e.to_string()),
    };
    let records = rdr.records().map(|r| r.map(|rec| rec.iter().map(|c| c.to_string()).collect()).map_err(|e| e.to_string())).collect();
    Ok((headers, records))
}

/// Every row has as many cells as the first.
pub open spec fn rows_of_equal_length(rows: Seq<Seq<Seq<char>>>) -> bool {
    forall|i: int| 0 <= i < rows.len() ==> (#[trigger] rows[i]).len() == rows[0].len()
}

/// `csv::Writer` writing `rows` into memory. When it succeeds the bytes are
/// named ([`csv_text`]); when it fails only the message is known. The
/// writer (not flexible) fails only on a record whose length differs from
/// the first record's, or on an error of the underlying writer, which a
/// `Vec<u8>` never gives: rows of equal length are always written.
#[verifier::external_body]
fn write_csv_table(rows: &Vec<Vec<String>>) -> (r: Result<Vec<u8>, String>)
    ensures
        r matches Ok(b) ==> b@ == csv_text(rows.deep_view()),
        rows_of_equal_length(rows.deep_view()) ==> r is Ok,
{
    let mut wtr = csv::Writer::from_writer(Vec::new());
    for row in rows {
        if let Err(e) = wtr.write_record(row) {
            return Err(e.to_string());
        }
    }
    wtr.into_inner().map_err(|e| e.to_string())
}

/// The parse of a CSV file at `path` whose content is `data` (see
/// [`parse_records`]); the reader's error when it cannot read the header.
pub open spec fn parse_csv_spec(path: Seq<char>, data: Seq<u8>, workspace_id: i64, r: Result<ParsedImport, String>) -> bool {
    match csv_table(data) {
        Err(e) => r matches Err(m) && m@ == e,
        Ok((h, recs)) => if recs.len() + 2 <= u64::MAX {
            r matches Ok(p) && p.path@ == path && p.warnings.deep_view() == header_warnings(h) && rows_view(p.rows@)
                == Seq::new(recs.len(), |i: int| row_of_record(i, h, recs[i], workspace_id))
        } else {
            r matches Err(m) && m@ == "too many rows"@
        },
    }
}

/// Parse the CSV file at `path`, whose content is `data`, into per-row
/// requests for `workspace_id`: one row per record (line numbers from 2,
/// the header being line 1), a warning per unknown column.
pub fn parse_csv(path: String, data: &[u8], workspace_id: i64) -> (r: Result<ParsedImport, String>)
    ensures
        parse_csv_spec(path@, data@, workspace_id, r),
{
    let (headers, records) = match read_csv_table(data) {
        Ok(t) => t,
        Err(e) => return Err(e),
    };
    if records.len() as u64 > u64::MAX - 2 {
        return Err(to_owned_string("too many rows"));
    }
    let p = parse_records(path, &headers, &records, workspace_id);
    proof {
        assert(Seq::new(records@.len(), |i: int| row_of_record(i, headers.deep_view(), record_view(records@[i]), workspace_id))
            =~= Seq::new(
            records@.len(),
            |i: int| row_of_record(i, headers.deep_view(), records@.map_values(|x: Result<Vec<String>, String>| record_view(x))[i], workspace_id),
        ));
    }
    Ok(p)
}

/// The template CSV for directory `dir`: where it goes, and its bytes
/// (the header of every supported column and one example row).
pub fn write_template(dir: &str) -> (r: Result<(String, Vec<u8>), String>)
    ensures
        r is Ok,
        r matches Ok((path, bytes)) ==> path@ == dir@ + "/"@ + "linkly-import-template.csv"@ && bytes@ == csv_text(
            seq![supported_columns(), supported_columns().map_values(|c: Seq<char>| example_spec(c))],
        ),
{
    let rows = template_records();
    proof {
        assert(rows_of_equal_length(rows.deep_view()));
    }
    let bytes = write_csv_table(&rows)?;
    Ok((crate::qr::join_path(dir, "linkly-import-template.csv"), bytes))
}

/// The success CSV of an import into directory `dir`: where it goes
/// (`linkly-import-success.csv`), and its bytes (a header, then one row per
/// created link).
pub fn write_success(dir: &str, links: &[NewLink]) -> (r: Result<(String, Vec<u8>), String>)
    ensures
        r is Ok,
        r matches Ok((path, bytes)) ==> path@ == dir@ + "/"@ + "linkly-import-success.csv"@ && bytes@ == csv_text(
            seq![seq!["id"@, "slug"@, "name"@, "full_url"@, "url"@]] + links@.map_values(|l: NewLink| success_row(l)),
        ),
{
    let rows = success_records(links);
    proof {
        assert forall|i: int| 0 <= i < rows.deep_view().len() implies (#[trigger] rows.deep_view()[i]).len()
            == rows.deep_view()[0].len() by {
            if i > 0 {
                assert(rows.deep_view()[i] == success_row(links@[i - 1]));
            }
        }
    }
    let bytes = write_csv_table(&rows)?;
    Ok((crate::qr::join_path(dir, "linkly-import-success.csv"), bytes))
}

/// The failure CSV of an import into directory `dir`: where it goes
/// (`linkly-import-failures.csv`), and its bytes (a header, then the line
/// and reason of each failed row).
pub fn write_failures(dir: &str, failures: &[(u64, String)]) -> (r: Result<(String, Vec<u8>), String>)
    ensures
        r is Ok,
        r matches Ok((path, bytes)) ==> path@ == dir@ + "/"@ + "linkly-import-failures.csv"@ && bytes@ == csv_text(
            seq![seq!["line"@, "reason"@]] + failures@.map_values(|f: (u64, String)| seq![nat_decimal(f.0 as nat), f.1@]),
        ),
{
    let rows = failure_records(failures);
    proof {
        assert forall|i: int| 0 <= i < rows.deep_view().len() implies (#[trigger] rows.deep_view()[i]).len()
            == rows.deep_view()[0].len() by {
            if i > 0 {
                let f = failures@[i - 1];
                assert(rows.deep_view()[i] == seq![nat_decimal(f.0 as nat), f.1@]);
            }
        }
    }
    let bytes = write_csv_table(&rows)?;
    Ok((crate::qr::join_path(dir, "linkly-import-failures.csv"), bytes))
}

} // verus!
