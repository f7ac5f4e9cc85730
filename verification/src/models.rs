//! Data models mirroring the Linkly API schemas.
//!
//! These are the plain types that the library's logic reads and writes. The
//! JSON wire form of a [`CreateLinkRequest`] is [`CreateLinkRequest::to_json`]:
//! only `workspace_id` and `url` are always present, every other field is
//! omitted when unset.

use vstd::prelude::*;

use crate::json::{JsonScalar, JsonValue, entries_view, json_key};


verus! {

/// A link with click statistics, as returned by the workspace list endpoint.
pub struct LinkSummary {
    pub id: Option<i64>,
    pub name: Option<String>,
    pub slug: Option<String>,
    pub domain: Option<String>,
    pub url: Option<String>,
    pub full_url: Option<String>,
    pub enabled: Option<bool>,
    pub clicks_today: i64,
    pub clicks_thirty_days: i64,
    pub clicks_total: i64,
}

/// Paginated response from the list-links endpoint.
pub struct ListLinksResponse {
    pub links: Vec<LinkSummary>,
    pub page_number: i64,
    pub page_size: i64,
    pub total_pages: i64,
    pub total_entries: i64,
}

/// Response wrapper for the workspace domains endpoint.
pub struct DomainList {
    pub domains: Vec<Domain>,
}

pub struct Domain {
    pub name: String,
}

/// An entry of the workspaces endpoint.
pub struct Workspace {
    pub id: i64,
    pub name: String,
}

/// Body of the create-link request. Only `workspace_id` and `url` are always
/// sent; every other field is omitted when `None`, so server defaults are
/// never overwritten.
pub struct CreateLinkRequest {
    pub workspace_id: i64,
    pub url: String,
    pub domain: Option<String>,
    pub slug: Option<String>,
    pub name: Option<String>,
    pub note: Option<String>,
    pub enabled: Option<bool>,
    pub forward_params: Option<bool>,
    pub cloaking: Option<bool>,
    pub block_bots: Option<bool>,
    pub hide_referrer: Option<bool>,
    pub og_title: Option<String>,
    pub og_description: Option<String>,
    pub og_image: Option<String>,
    pub utm_source: Option<String>,
    pub utm_medium: Option<String>,
    pub utm_campaign: Option<String>,
    pub utm_term: Option<String>,
    pub utm_content: Option<String>,
    pub fb_pixel_id: Option<String>,
    pub tiktok_pixel_id: Option<String>,
    pub gtm_id: Option<String>,
    pub ga4_tag_id: Option<String>,
    pub head_tags: Option<String>,
    pub body_tags: Option<String>,
    pub linkify_words: Option<String>,
}

/// The mathematical value of a [`CreateLinkRequest`]: its strings as
/// character sequences.
pub struct RequestView {
    pub workspace_id: i64,
    pub url: Seq<char>,
    pub domain: Option<Seq<char>>,
    pub slug: Option<Seq<char>>,
    pub name: Option<Seq<char>>,
    pub note: Option<Seq<char>>,
    pub enabled: Option<bool>,
    pub forward_params: Option<bool>,
    pub cloaking: Option<bool>,
    pub block_bots: Option<bool>,
    pub hide_referrer: Option<bool>,
    pub og_title: Option<Seq<char>>,
    pub og_description: Option<Seq<char>>,
    pub og_image: Option<Seq<char>>,
    pub utm_source: Option<Seq<char>>,
    pub utm_medium: Option<Seq<char>>,
    pub utm_campaign: Option<Seq<char>>,
    pub utm_term: Option<Seq<char>>,
    pub utm_content: Option<Seq<char>>,
    pub fb_pixel_id: Option<Seq<char>>,
    pub tiktok_pixel_id: Option<Seq<char>>,
    pub gtm_id: Option<Seq<char>>,
    pub ga4_tag_id: Option<Seq<char>>,
    pub head_tags: Option<Seq<char>>,
    pub body_tags: Option<Seq<char>>,
    pub linkify_words: Option<Seq<char>>,
}

impl View for CreateLinkRequest {
    type V = RequestView;

    open spec fn view(&self) -> RequestView {
        RequestView {
            workspace_id: self.workspace_id,
            url: self.url@,
            domain: self.domain.deep_view(),
            slug: self.slug.deep_view(),
            name: self.name.deep_view(),
            note: self.note.deep_view(),
            enabled: self.enabled,
            forward_params: self.forward_params,
            cloaking: self.cloaking,
            block_bots: self.block_bots,
            hide_referrer: self.hide_referrer,
            og_title: self.og_title.deep_view(),
            og_description: self.og_description.deep_view(),
            og_image: self.og_image.deep_view(),
            utm_source: self.utm_source.deep_view(),
            utm_medium: self.utm_medium.deep_view(),
            utm_campaign: self.utm_campaign.deep_view(),
            utm_term: self.utm_term.deep_view(),
            utm_content: self.utm_content.deep_view(),
            fb_pixel_id: self.fb_pixel_id.deep_view(),
            tiktok_pixel_id: self.tiktok_pixel_id.deep_view(),
            gtm_id: self.gtm_id.deep_view(),
            ga4_tag_id: self.ga4_tag_id.deep_view(),
            head_tags: self.head_tags.deep_view(),
            body_tags: self.body_tags.deep_view(),
            linkify_words: self.linkify_words.deep_view(),
        }
    }
}

/// The request of `workspace_id` with an empty `url` and every optional
/// field unset.
pub open spec fn empty_request_view(workspace_id: i64) -> RequestView {
    RequestView {
        workspace_id,
        url: Seq::empty(),
        domain: None,
        slug: None,
        name: None,
        note: None,
        enabled: None,
        forward_params: None,
        cloaking: None,
        block_bots: None,
        hide_referrer: None,
        og_title: None,
        og_description: None,
        og_image: None,
        utm_source: None,
        utm_medium: None,
        utm_campaign: None,
        utm_term: None,
        utm_content: None,
        fb_pixel_id: None,
        tiktok_pixel_id: None,
        gtm_id: None,
        ga4_tag_id: None,
        head_tags: None,
        body_tags: None,
        linkify_words: None,
    }
}

/// A copy of an optional string.
pub fn clone_opt_string(o: &Option<String>) -> (r: Option<String>)
    ensures
        r.deep_view() == o.deep_view(),
{
    match o {
        Some(s) => Some(s.clone()),
        None => None,
    }
}

impl CreateLinkRequest {
    /// The request for `workspace_id` with an empty URL and nothing else set
    /// (what `Default` gives, with the workspace filled in).
    pub fn for_workspace(workspace_id: i64) -> (r: Self)
        ensures
            r@ == empty_request_view(workspace_id),
    {
        CreateLinkRequest {
            workspace_id,
            url: String::new(),
            domain: None,
            slug: None,
            name: None,
            note: None,
            enabled: None,
            forward_params: None,
            cloaking: None,
            block_bots: None,
            hide_referrer: None,
            og_title: None,
            og_description: None,
            og_image: None,
            utm_source: None,
            utm_medium: None,
            utm_campaign: None,
            utm_term: None,
            utm_content: None,
            fb_pixel_id: None,
            tiktok_pixel_id: None,
            gtm_id: None,
            ga4_tag_id: None,
            head_tags: None,
            body_tags: None,
            linkify_words: None,
        }
    }

    /// A field-by-field copy.
    pub fn duplicate(&self) -> (r: Self)
        ensures
            r@ == self@,
    {
        CreateLinkRequest {
            workspace_id: self.workspace_id,
            url: self.url.clone(),
            domain: clone_opt_string(&self.domain),
            slug: clone_opt_string(&self.slug),
            name: clone_opt_string(&self.name),
            note: clone_opt_string(&self.note),
            enabled: self.enabled,
            forward_params: self.forward_params,
            cloaking: self.cloaking,
            block_bots: self.block_bots,
            hide_referrer: self.hide_referrer,
            og_title: clone_opt_string(&self.og_title),
            og_description: clone_opt_string(&self.og_description),
            og_image: clone_opt_string(&self.og_image),
            utm_source: clone_opt_string(&self.utm_source),
            utm_medium: clone_opt_string(&self.utm_medium),
            utm_campaign: clone_opt_string(&self.utm_campaign),
            utm_term: clone_opt_string(&self.utm_term),
            utm_content: clone_opt_string(&self.utm_content),
            fb_pixel_id: clone_opt_string(&self.fb_pixel_id),
            tiktok_pixel_id: clone_opt_string(&self.tiktok_pixel_id),
            gtm_id: clone_opt_string(&self.gtm_id),
            ga4_tag_id: clone_opt_string(&self.ga4_tag_id),
            head_tags: clone_opt_string(&self.head_tags),
            body_tags: clone_opt_string(&self.body_tags),
            linkify_words: clone_opt_string(&self.linkify_words),
        }
    }
}

/// The entry `key: s` when `o` is `Some(s)`, nothing otherwise.
pub open spec fn opt_str_entry(key: Seq<char>, o: Option<Seq<char>>) -> Seq<(Seq<char>, JsonScalar)> {
    match o {
        Some(s) => seq![(key, JsonScalar::Str(s))],
        None => seq![],
    }
}

/// The entry `key: b` when `o` is `Some(b)`, nothing otherwise.
pub open spec fn opt_bool_entry(key: Seq<char>, o: Option<bool>) -> Seq<(Seq<char>, JsonScalar)> {
    match o {
        Some(b) => seq![(key, JsonScalar::Bool(b))],
        None => seq![],
    }
}

/// The JSON object a request is sent as, field by field in declaration
/// order: `workspace_id` and `url` always, each other field only when set.
pub open spec fn request_entries(r: RequestView) -> Seq<(Seq<char>, JsonScalar)> {
    seq![("workspace_id"@, JsonScalar::Integer(r.workspace_id)), ("url"@, JsonScalar::Str(r.url))]
        + opt_str_entry("domain"@, r.domain)
        + opt_str_entry("slug"@, r.slug)
        + opt_str_entry("name"@, r.name)
        + opt_str_entry("note"@, r.note)
        + opt_bool_entry("enabled"@, r.enabled)
        + opt_bool_entry("forward_params"@, r.forward_params)
        + opt_bool_entry("cloaking"@, r.cloaking)
        + opt_bool_entry("block_bots"@, r.block_bots)
        + opt_bool_entry("hide_referrer"@, r.hide_referrer)
        + opt_str_entry("og_title"@, r.og_title)
        + opt_str_entry("og_description"@, r.og_description)
        + opt_str_entry("og_image"@, r.og_image)
        + opt_str_entry("utm_source"@, r.utm_source)
        + opt_str_entry("utm_medium"@, r.utm_medium)
        + opt_str_entry("utm_campaign"@, r.utm_campaign)
        + opt_str_entry("utm_term"@, r.utm_term)
        + opt_str_entry("utm_content"@, r.utm_content)
        + opt_str_entry("fb_pixel_id"@, r.fb_pixel_id)
        + opt_str_entry("tiktok_pixel_id"@, r.tiktok_pixel_id)
        + opt_str_entry("gtm_id"@, r.gtm_id)
        + opt_str_entry("ga4_tag_id"@, r.ga4_tag_id)
        + opt_str_entry("head_tags"@, r.head_tags)
        + opt_str_entry("body_tags"@, r.body_tags)
        + opt_str_entry("linkify_words"@, r.linkify_words)
}

fn push_opt_str(es: &mut Vec<(String, JsonValue)>, key: &str, o: &Option<String>)
    ensures
        entries_view(final(es)@) == entries_view(old(es)@) + opt_str_entry(key@, o.deep_view()),
{
    match o {
        Some(s) => {
            es.push((json_key(key), JsonValue::String(s.clone())));
        },
        None => {},
    }
    assert(entries_view(es@) =~= entries_view(old(es)@) + opt_str_entry(key@, o.deep_view()));
}

fn push_opt_bool(es: &mut Vec<(String, JsonValue)>, key: &str, o: Option<bool>)
    ensures
        entries_view(final(es)@) == entries_view(old(es)@) + opt_bool_entry(key@, o),
{
    match o {
        Some(b) => {
            es.push((json_key(key), JsonValue::Bool(b)));
        },
        None => {},
    }
    assert(entries_view(es@) =~= entries_view(old(es)@) + opt_bool_entry(key@, o));
}

impl CreateLinkRequest {
    /// The JSON body this request is sent as: `workspace_id` and `url`
    /// always, every other field only when it is set.
    pub fn to_json(&self) -> (r: JsonValue)
        ensures
            r matches JsonValue::Object(es) && entries_view(es@) == request_entries(self@),
    {
        let mut es: Vec<(String, JsonValue)> = Vec::new();
        es.push((json_key("workspace_id"), JsonValue::Integer(self.workspace_id)));
        es.push((json_key("url"), JsonValue::String(self.url.clone())));
        assert(entries_view(es@) =~= seq![
            ("workspace_id"@, JsonScalar::Integer(self.workspace_id)),
            ("url"@, JsonScalar::Str(self.url@)),
        ]);
        push_opt_str(&mut es, "domain", &self.domain);
        push_opt_str(&mut es, "slug", &self.slug);
        push_opt_str(&mut es, "name", &self.name);
        push_opt_str(&mut es, "note", &self.note);
        push_opt_bool(&mut es, "enabled", self.enabled);
        push_opt_bool(&mut es, "forward_params", self.forward_params);
        push_opt_bool(&mut es, "cloaking", self.cloaking);
        push_opt_bool(&mut es, "block_bots", self.block_bots);
        push_opt_bool(&mut es, "hide_referrer", self.hide_referrer);
        push_opt_str(&mut es, "og_title", &self.og_title);
        push_opt_str(&mut es, "og_description", &self.og_description);
        push_opt_str(&mut es, "og_image", &self.og_image);
        push_opt_str(&mut es, "utm_source", &self.utm_source);
        push_opt_str(&mut es, "utm_medium", &self.utm_medium);
        push_opt_str(&mut es, "utm_campaign", &self.utm_campaign);
        push_opt_str(&mut es, "utm_term", &self.utm_term);
        push_opt_str(&mut es, "utm_content", &self.utm_content);
        push_opt_str(&mut es, "fb_pixel_id", &self.fb_pixel_id);
        push_opt_str(&mut es, "tiktok_pixel_id", &self.tiktok_pixel_id);
        push_opt_str(&mut es, "gtm_id", &self.gtm_id);
        push_opt_str(&mut es, "ga4_tag_id", &self.ga4_tag_id);
        push_opt_str(&mut es, "head_tags", &self.head_tags);
        push_opt_str(&mut es, "body_tags", &self.body_tags);
        push_opt_str(&mut es, "linkify_words", &self.linkify_words);
        JsonValue::Object(es)
    }
}

impl Default for CreateLinkRequest {
    fn default() -> (r: Self)
        ensures
            r@ == empty_request_view(0),
    {
        CreateLinkRequest::for_workspace(0)
    }
}

} // verus!
