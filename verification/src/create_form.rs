//! State and request builder for the "create link" form.
//!
//! The form keeps one [`TextInput`] per text field plus a handful of boolean
//! toggles. [`CreateForm::build`] is a pure function from form state to a
//! [`CreateLinkRequest`].

use vstd::prelude::*;

use crate::input::{EditRequest, TextInput};
use crate::models::{CreateLinkRequest, RequestView};
use crate::text::{is_blank, to_owned_string, trim, trim_string};

verus! {

/// Every focusable element of the form. The visible and focusable subset,
/// in order, is [`CreateForm::fields`].
#[derive(Debug, Clone, Copy, PartialEq, Eq, Structural)]
pub enum Field {
    Url,
    Name,
    Slug,
    Domain,
    Note,
    Enabled,
    UtmSource,
    UtmMedium,
    UtmCampaign,
    UtmTerm,
    UtmContent,
    OgTitle,
    OgDescription,
    OgImage,
    FbPixel,
    TiktokPixel,
    Gtm,
    Ga4,
    HeadTags,
    BodyTags,
    LinkifyWords,
    ForwardParams,
    Cloaking,
    BlockBots,
    HideReferrer,
    Submit,
}

/// The fields always shown.
pub open spec fn core_fields() -> Seq<Field> {
    seq![Field::Url, Field::Name, Field::Slug, Field::Domain, Field::Note, Field::Enabled, Field::UtmSource, Field::UtmMedium, Field::UtmCampaign]
}

/// The fields shown only with the advanced section open.
pub open spec fn advanced_fields() -> Seq<Field> {
    seq![Field::UtmTerm, Field::UtmContent, Field::OgTitle, Field::OgDescription, Field::OgImage, Field::FbPixel, Field::TiktokPixel, Field::Gtm, Field::Ga4, Field::HeadTags, Field::BodyTags, Field::LinkifyWords, Field::ForwardParams, Field::Cloaking, Field::BlockBots, Field::HideReferrer]
}

/// The focusable fields, in order: the core fields, the advanced ones when
/// shown, then the submit button.
pub open spec fn field_list(show_advanced: bool) -> Seq<Field> {
    if show_advanced {
        core_fields() + advanced_fields() + seq![Field::Submit]
    } else {
        core_fields() + seq![Field::Submit]
    }
}

/// The label of a field.
pub open spec fn label_spec(f: Field) -> Seq<char> {
    match f {
        Field::Url => "URL *"@,
        Field::Name => "Name"@,
        Field::Slug => "Slug"@,
        Field::Domain => "Domain"@,
        Field::Note => "Note"@,
        Field::Enabled => "Enabled"@,
        Field::UtmSource => "UTM source"@,
        Field::UtmMedium => "UTM medium"@,
        Field::UtmCampaign => "UTM campaign"@,
        Field::UtmTerm => "UTM term"@,
        Field::UtmContent => "UTM content"@,
        Field::OgTitle => "OG title"@,
        Field::OgDescription => "OG description"@,
        Field::OgImage => "OG image"@,
        Field::FbPixel => "Facebook pixel"@,
        Field::TiktokPixel => "TikTok pixel"@,
        Field::Gtm => "GTM id"@,
        Field::Ga4 => "GA4 tag id"@,
        Field::HeadTags => "Head tags"@,
        Field::BodyTags => "Body tags"@,
        Field::LinkifyWords => "Linkify words"@,
        Field::ForwardParams => "Forward params"@,
        Field::Cloaking => "Cloaking"@,
        Field::BlockBots => "Block bots"@,
        Field::HideReferrer => "Hide referrer"@,
        Field::Submit => "Submit"@,
    }
}

/// Adding after reducing modulo `n` is adding before.
pub proof fn lemma_mod_shift(a: int, k: int, n: int)
    requires
        n > 0,
    ensures
        (a % n + k) % n == (a + k) % n,
{
    vstd::arithmetic::div_mod::lemma_add_mod_noop(a, k, n);
    vstd::arithmetic::div_mod::lemma_add_mod_noop(a % n, k, n);
    vstd::arithmetic::div_mod::lemma_mod_twice(a, n);
}

/// The highlighted domain of a selector (`None` for the default domain, or
/// when nothing valid is highlighted).
pub open spec fn selected_domain(s: DomainSelector) -> Option<Seq<char>> {
    match s.selected {
        Some(i) => if i < s.options@.len() {
            s.options@[i as int].deep_view()
        } else {
            None
        },
        None => None,
    }
}

/// The field a form has in focus (the last one when the focus is past the
/// end).
pub open spec fn current_field(f: CreateForm) -> Field {
    field_list(f.show_advanced)[if f.focus < field_list(f.show_advanced).len() {
        f.focus as int
    } else {
        field_list(f.show_advanced).len() - 1
    }]
}

/// `n` is `o` with the text field `f` edited by `req` (nothing else
/// changes; on a field that is not a text field nothing changes).
pub open spec fn form_edited(o: CreateForm, n: CreateForm, f: Field, req: EditRequest) -> bool {
    &&& forall|g: Field| g != f ==> n.text_of(g) == o.text_of(g)
    &&& forall|g: Field| n.bool_of(g) == o.bool_of(g)
    &&& n.domain == o.domain
    &&& n.show_advanced == o.show_advanced
    &&& n.focus == o.focus
    &&& n.domain_selector == o.domain_selector
    &&& (o.text_of(f) is Some ==> n.text_of(f) == Some(tui_handle_value(o, f, req)))
    &&& (o.text_of(f) is None ==> n.text_of(f) == o.text_of(f))
}

/// `n` is `o` with the boolean field `f` flipped (nothing changes on a field
/// that is not a boolean).
pub open spec fn form_toggled(o: CreateForm, n: CreateForm, f: Field) -> bool {
    &&& forall|g: Field| g != f ==> n.bool_of(g) == o.bool_of(g)
    &&& n.bool_of(f) == (match o.bool_of(f) {
        Some(b) => Some(!b),
        None => None,
    })
    &&& forall|g: Field| n.text_of(g) == o.text_of(g)
    &&& n.domain == o.domain
    &&& n.show_advanced == o.show_advanced
    &&& n.focus == o.focus
    &&& n.domain_selector == o.domain_selector
}

/// Popup state for selecting a custom domain.
pub struct DomainSelector {
    /// `None` stands for the workspace's default domain (no `domain` sent).
    pub options: Vec<Option<String>>,
    /// The highlighted option.
    pub selected: Option<usize>,
}

impl DomainSelector {
    /// The default domain, then every domain of the workspace, with the
    /// default highlighted.
    pub fn new(domains: &[String]) -> (r: Self)
        ensures
            r.options.deep_view() == seq![None::<Seq<char>>] + domains@.map_values(|d: String| Some(d@)),
            r.selected == Some(0usize),
    {
        let mut options: Vec<Option<String>> = Vec::new();
        options.push(None);
        let mut i: usize = 0;
        while i < domains.len()
            invariant
                i <= domains@.len(),
                options.deep_view() == seq![None::<Seq<char>>] + domains@.subrange(0, i as int).map_values(
                    |d: String| Some(d@),
                ),
            decreases domains.len() - i,
        {
            let ghost prev = options.deep_view();
            options.push(Some(domains[i].clone()));
            assert(options.deep_view() =~= prev.push(Some(domains@[i as int]@)));
            assert(domains@.subrange(0, i + 1).map_values(|d: String| Some(d@)) =~= domains@.subrange(
                0,
                i as int,
            ).map_values(|d: String| Some(d@)).push(Some(domains@[i as int]@)));
            i = i + 1;
        }
        assert(domains@.subrange(0, i as int) == domains@);
        DomainSelector { options, selected: Some(0) }
    }

    /// Highlight the previous option (staying on the first).
    pub fn move_up(&mut self)
        ensures
            *final(self) == (DomainSelector {
                selected: Some(
                    (match old(self).selected {
                        Some(i) => if i == 0 { 0 } else { i - 1 },
                        None => 0,
                    }) as usize,
                ),
                ..*old(self)
            }),
    {
        let i = match self.selected {
            Some(i) => i,
            None => 0,
        };
        self.selected = Some(if i == 0 { 0 } else { i - 1 });
    }

    /// Highlight the next option (staying on the last).
    pub fn move_down(&mut self)
        ensures
            *final(self) == (DomainSelector {
                selected: Some(
                    ({
                        let i: int = match old(self).selected {
                            Some(i) => i as int,
                            None => 0,
                        };
                        let last: int = if old(self).options@.len() == 0 {
                            0
                        } else {
                            old(self).options@.len() - 1
                        };
                        if i < last {
                            i + 1
                        } else {
                            last
                        }
                    }) as usize,
                ),
                ..*old(self)
            }),
    {
        let i = match self.selected {
            Some(i) => i,
            None => 0,
        };
        let n = self.options.len();
        let last = if n == 0 { 0 } else { n - 1 };
        self.selected = Some(if i < last { i + 1 } else { last });
    }

    /// The highlighted domain (`None` for the default domain, or when
    /// nothing valid is highlighted).
    pub fn selected(&self) -> (r: Option<String>)
        ensures
            r.deep_view() == selected_domain(*self),
    {
        match self.selected {
            Some(i) => if i < self.options.len() {
                match &self.options[i] {
                    Some(d) => Some(d.clone()),
                    None => None,
                }
            } else {
                None
            },
            None => None,
        }
    }
}

/// The state of the create-link form.
pub struct CreateForm {
    pub url: TextInput,
    pub name: TextInput,
    pub slug: TextInput,
    pub note: TextInput,
    pub utm_source: TextInput,
    pub utm_medium: TextInput,
    pub utm_campaign: TextInput,
    pub utm_term: TextInput,
    pub utm_content: TextInput,
    pub og_title: TextInput,
    pub og_description: TextInput,
    pub og_image: TextInput,
    pub fb_pixel_id: TextInput,
    pub tiktok_pixel_id: TextInput,
    pub gtm_id: TextInput,
    pub ga4_tag_id: TextInput,
    pub head_tags: TextInput,
    pub body_tags: TextInput,
    pub linkify_words: TextInput,

    pub enabled: bool,
    pub forward_params: bool,
    pub cloaking: bool,
    pub block_bots: bool,
    pub hide_referrer: bool,
    /// Selected custom domain (`None` = default domain).
    pub domain: Option<String>,
    pub show_advanced: bool,
    pub focus: usize,
    pub domain_selector: Option<DomainSelector>,
}

/// `f` is an empty form: every text field empty, `enabled` on, every other
/// toggle off, the default domain, core fields only, focus on the URL.
pub open spec fn is_blank_form(f: CreateForm) -> bool {
    &&& f.url.text().len() == 0 && f.name.text().len() == 0 && f.slug.text().len() == 0
    &&& f.note.text().len() == 0 && f.utm_source.text().len() == 0 && f.utm_medium.text().len() == 0
    &&& f.utm_campaign.text().len() == 0 && f.utm_term.text().len() == 0 && f.utm_content.text().len() == 0
    &&& f.og_title.text().len() == 0 && f.og_description.text().len() == 0 && f.og_image.text().len() == 0
    &&& f.fb_pixel_id.text().len() == 0 && f.tiktok_pixel_id.text().len() == 0 && f.gtm_id.text().len() == 0
    &&& f.ga4_tag_id.text().len() == 0 && f.head_tags.text().len() == 0 && f.body_tags.text().len() == 0
    &&& f.linkify_words.text().len() == 0
    &&& f.enabled
    &&& !f.forward_params && !f.cloaking && !f.block_bots && !f.hide_referrer
    &&& f.domain is None
    &&& !f.show_advanced
    &&& f.focus == 0
    &&& f.domain_selector is None
}

/// The trimmed value of an input, or `None` when it is blank.
pub open spec fn opt_spec(v: Seq<char>) -> Option<Seq<char>> {
    if trim(v).len() == 0 {
        None
    } else {
        Some(trim(v))
    }
}

/// `Some(true)` for a set toggle, `None` (not sent) otherwise.
pub open spec fn flag_spec(b: bool) -> Option<bool> {
    if b {
        Some(true)
    } else {
        None
    }
}

fn opt(input: &TextInput) -> (r: Option<String>)
    ensures
        r.deep_view() == opt_spec(input.text()),
{
    let v = trim_string(input.value());
    if v.unicode_len() == 0 {
        None
    } else {
        Some(v)
    }
}

fn flag(b: bool) -> (r: Option<bool>)
    ensures
        r == flag_spec(b),
{
    if b {
        Some(true)
    } else {
        None
    }
}

impl CreateForm {
    /// The value of a text field (`None` for the others).
    pub open spec fn text_of(self, f: Field) -> Option<Seq<char>> {
        match f {
            Field::Url => Some(self.url.text()),
            Field::Name => Some(self.name.text()),
            Field::Slug => Some(self.slug.text()),
            Field::Note => Some(self.note.text()),
            Field::UtmSource => Some(self.utm_source.text()),
            Field::UtmMedium => Some(self.utm_medium.text()),
            Field::UtmCampaign => Some(self.utm_campaign.text()),
            Field::UtmTerm => Some(self.utm_term.text()),
            Field::UtmContent => Some(self.utm_content.text()),
            Field::OgTitle => Some(self.og_title.text()),
            Field::OgDescription => Some(self.og_description.text()),
            Field::OgImage => Some(self.og_image.text()),
            Field::FbPixel => Some(self.fb_pixel_id.text()),
            Field::TiktokPixel => Some(self.tiktok_pixel_id.text()),
            Field::Gtm => Some(self.gtm_id.text()),
            Field::Ga4 => Some(self.ga4_tag_id.text()),
            Field::HeadTags => Some(self.head_tags.text()),
            Field::BodyTags => Some(self.body_tags.text()),
            Field::LinkifyWords => Some(self.linkify_words.text()),
            _ => None,
        }
    }

    /// The value of a boolean field (`None` for the others).
    pub open spec fn bool_of(self, f: Field) -> Option<bool> {
        match f {
            Field::Enabled => Some(self.enabled),
            Field::ForwardParams => Some(self.forward_params),
            Field::Cloaking => Some(self.cloaking),
            Field::BlockBots => Some(self.block_bots),
            Field::HideReferrer => Some(self.hide_referrer),
            _ => None,
        }
    }

    /// The request the form builds for `workspace_id`.
    pub open spec fn build_spec(self, workspace_id: i64) -> RequestView {
        RequestView {
            workspace_id,
            url: trim(self.url.text()),
            domain: self.domain.deep_view(),
            slug: opt_spec(self.slug.text()),
            name: opt_spec(self.name.text()),
            note: opt_spec(self.note.text()),
            enabled: Some(self.enabled),
            forward_params: flag_spec(self.forward_params),
            cloaking: flag_spec(self.cloaking),
            block_bots: flag_spec(self.block_bots),
            hide_referrer: flag_spec(self.hide_referrer),
            og_title: opt_spec(self.og_title.text()),
            og_description: opt_spec(self.og_description.text()),
            og_image: opt_spec(self.og_image.text()),
            utm_source: opt_spec(self.utm_source.text()),
            utm_medium: opt_spec(self.utm_medium.text()),
            utm_campaign: opt_spec(self.utm_campaign.text()),
            utm_term: opt_spec(self.utm_term.text()),
            utm_content: opt_spec(self.utm_content.text()),
            fb_pixel_id: opt_spec(self.fb_pixel_id.text()),
            tiktok_pixel_id: opt_spec(self.tiktok_pixel_id.text()),
            gtm_id: opt_spec(self.gtm_id.text()),
            ga4_tag_id: opt_spec(self.ga4_tag_id.text()),
            head_tags: opt_spec(self.head_tags.text()),
            body_tags: opt_spec(self.body_tags.text()),
            linkify_words: opt_spec(self.linkify_words.text()),
        }
    }

    /// An empty form: every text field empty, `enabled` on, every other
    /// toggle off, the default domain, core fields only, focus on the URL.
    pub fn new() -> (r: Self)
        ensures
            is_blank_form(r),
    {
        CreateForm {
            url: TextInput::empty(),
            name: TextInput::empty(),
            slug: TextInput::empty(),
            note: TextInput::empty(),
            utm_source: TextInput::empty(),
            utm_medium: TextInput::empty(),
            utm_campaign: TextInput::empty(),
            utm_term: TextInput::empty(),
            utm_content: TextInput::empty(),
            og_title: TextInput::empty(),
            og_description: TextInput::empty(),
            og_image: TextInput::empty(),
            fb_pixel_id: TextInput::empty(),
            tiktok_pixel_id: TextInput::empty(),
            gtm_id: TextInput::empty(),
            ga4_tag_id: TextInput::empty(),
            head_tags: TextInput::empty(),
            body_tags: TextInput::empty(),
            linkify_words: TextInput::empty(),
            enabled: true,
            forward_params: false,
            cloaking: false,
            block_bots: false,
            hide_referrer: false,
            domain: None,
            show_advanced: false,
            focus: 0,
            domain_selector: None,
        }
    }

    /// The ordered list of currently focusable fields.
    pub fn fields(&self) -> (r: Vec<Field>)
        ensures
            r@ == field_list(self.show_advanced),
    {
        let mut v: Vec<Field> = Vec::new();
        v.push(Field::Url);
        v.push(Field::Name);
        v.push(Field::Slug);
        v.push(Field::Domain);
        v.push(Field::Note);
        v.push(Field::Enabled);
        v.push(Field::UtmSource);
        v.push(Field::UtmMedium);
        v.push(Field::UtmCampaign);
        if self.show_advanced {
            v.push(Field::UtmTerm);
            v.push(Field::UtmContent);
            v.push(Field::OgTitle);
            v.push(Field::OgDescription);
            v.push(Field::OgImage);
            v.push(Field::FbPixel);
            v.push(Field::TiktokPixel);
            v.push(Field::Gtm);
            v.push(Field::Ga4);
            v.push(Field::HeadTags);
            v.push(Field::BodyTags);
            v.push(Field::LinkifyWords);
            v.push(Field::ForwardParams);
            v.push(Field::Cloaking);
            v.push(Field::BlockBots);
            v.push(Field::HideReferrer);
        }
        v.push(Field::Submit);
        assert(v@ =~= field_list(self.show_advanced));
        v
    }

    /// The focused field (the last one when the focus is past the end).
    pub fn current(&self) -> (r: Field)
        ensures
            r == current_field(*self),
    {
        let fields = self.fields();
        let last = fields.len() - 1;
        fields[if self.focus < last { self.focus } else { last }]
    }

    /// Move the focus to the next field, wrapping around.
    pub fn focus_next(&mut self)
        ensures
            *final(self) == (CreateForm {
                focus: ((old(self).focus + 1) % (field_list(old(self).show_advanced).len() as int)) as usize,
                ..*old(self)
            }),
    {
        let len = self.fields().len();
        proof {
            lemma_mod_shift(self.focus as int, 1, len as int);
        }
        self.focus = (self.focus % len + 1) % len;
    }

    /// Move the focus to the previous field, wrapping around.
    pub fn focus_prev(&mut self)
        ensures
            *final(self) == (CreateForm {
                focus: ((old(self).focus + field_list(old(self).show_advanced).len() - 1) % (field_list(
                    old(self).show_advanced,
                ).len() as int)) as usize,
                ..*old(self)
            }),
    {
        let len = self.fields().len();
        proof {
            lemma_mod_shift(self.focus as int, len - 1, len as int);
        }
        self.focus = (self.focus % len + len - 1) % len;
    }

    /// Show or hide the advanced fields, keeping the focus in range.
    pub fn toggle_advanced(&mut self)
        ensures
            *final(self) == (CreateForm {
                show_advanced: !old(self).show_advanced,
                focus: if old(self).focus < field_list(!old(self).show_advanced).len() {
                    old(self).focus
                } else {
                    (field_list(!old(self).show_advanced).len() - 1) as usize
                },
                ..*old(self)
            }),
    {
        self.show_advanced = !self.show_advanced;
        let len = self.fields().len();
        if self.focus >= len {
            self.focus = len - 1;
        }
    }

    /// The text input of a field, if it is a text field.
    pub fn input(&self, f: Field) -> (r: Option<&TextInput>)
        ensures
            r is Some <==> self.text_of(f) is Some,
            r matches Some(i) ==> self.text_of(f) == Some(i.text()),
    {
        match f {
            Field::Url => Some(&self.url),
            Field::Name => Some(&self.name),
            Field::Slug => Some(&self.slug),
            Field::Note => Some(&self.note),
            Field::UtmSource => Some(&self.utm_source),
            Field::UtmMedium => Some(&self.utm_medium),
            Field::UtmCampaign => Some(&self.utm_campaign),
            Field::UtmTerm => Some(&self.utm_term),
            Field::UtmContent => Some(&self.utm_content),
            Field::OgTitle => Some(&self.og_title),
            Field::OgDescription => Some(&self.og_description),
            Field::OgImage => Some(&self.og_image),
            Field::FbPixel => Some(&self.fb_pixel_id),
            Field::TiktokPixel => Some(&self.tiktok_pixel_id),
            Field::Gtm => Some(&self.gtm_id),
            Field::Ga4 => Some(&self.ga4_tag_id),
            Field::HeadTags => Some(&self.head_tags),
            Field::BodyTags => Some(&self.body_tags),
            Field::LinkifyWords => Some(&self.linkify_words),
            _ => None,
        }
    }

    /// Apply an editing request to a text field; other fields are left as
    /// they are. Returns whether `f` is a text field.
    pub fn edit(&mut self, f: Field, req: EditRequest) -> (r: bool)
        ensures
            r == (old(self).text_of(f) is Some),
            form_edited(*old(self), *final(self), f, req),
    {
        match f {
            Field::Url => {
                self.url.handle(req);
                true
            },
            Field::Name => {
                self.name.handle(req);
                true
            },
            Field::Slug => {
                self.slug.handle(req);
                true
            },
            Field::Note => {
                self.note.handle(req);
                true
            },
            Field::UtmSource => {
                self.utm_source.handle(req);
                true
            },
            Field::UtmMedium => {
                self.utm_medium.handle(req);
                true
            },
            Field::UtmCampaign => {
                self.utm_campaign.handle(req);
                true
            },
            Field::UtmTerm => {
                self.utm_term.handle(req);
                true
            },
            Field::UtmContent => {
                self.utm_content.handle(req);
                true
            },
            Field::OgTitle => {
                self.og_title.handle(req);
                true
            },
            Field::OgDescription => {
                self.og_description.handle(req);
                true
            },
            Field::OgImage => {
                self.og_image.handle(req);
                true
            },
            Field::FbPixel => {
                self.fb_pixel_id.handle(req);
                true
            },
            Field::TiktokPixel => {
                self.tiktok_pixel_id.handle(req);
                true
            },
            Field::Gtm => {
                self.gtm_id.handle(req);
                true
            },
            Field::Ga4 => {
                self.ga4_tag_id.handle(req);
                true
            },
            Field::HeadTags => {
                self.head_tags.handle(req);
                true
            },
            Field::BodyTags => {
                self.body_tags.handle(req);
                true
            },
            Field::LinkifyWords => {
                self.linkify_words.handle(req);
                true
            },
            _ => false,
        }
    }

    /// The value of a boolean field, `None` for the others.
    pub fn bool_value(&self, f: Field) -> (r: Option<bool>)
        ensures
            r == self.bool_of(f),
    {
        match f {
            Field::Enabled => Some(self.enabled),
            Field::ForwardParams => Some(self.forward_params),
            Field::Cloaking => Some(self.cloaking),
            Field::BlockBots => Some(self.block_bots),
            Field::HideReferrer => Some(self.hide_referrer),
            _ => None,
        }
    }

    /// Flip a boolean field; nothing happens for the others.
    pub fn toggle_bool(&mut self, f: Field)
        ensures
            form_toggled(*old(self), *final(self), f),
    {
        match f {
            Field::Enabled => self.enabled = !self.enabled,
            Field::ForwardParams => self.forward_params = !self.forward_params,
            Field::Cloaking => self.cloaking = !self.cloaking,
            Field::BlockBots => self.block_bots = !self.block_bots,
            Field::HideReferrer => self.hide_referrer = !self.hide_referrer,
            _ => {},
        }
    }

    /// The label of a field.
    pub fn label(f: Field) -> (r: &'static str)
        ensures
            r@ == label_spec(f),
    {
        match f {
            Field::Url => "URL *",
            Field::Name => "Name",
            Field::Slug => "Slug",
            Field::Domain => "Domain",
            Field::Note => "Note",
            Field::Enabled => "Enabled",
            Field::UtmSource => "UTM source",
            Field::UtmMedium => "UTM medium",
            Field::UtmCampaign => "UTM campaign",
            Field::UtmTerm => "UTM term",
            Field::UtmContent => "UTM content",
            Field::OgTitle => "OG title",
            Field::OgDescription => "OG description",
            Field::OgImage => "OG image",
            Field::FbPixel => "Facebook pixel",
            Field::TiktokPixel => "TikTok pixel",
            Field::Gtm => "GTM id",
            Field::Ga4 => "GA4 tag id",
            Field::HeadTags => "Head tags",
            Field::BodyTags => "Body tags",
            Field::LinkifyWords => "Linkify words",
            Field::ForwardParams => "Forward params",
            Field::Cloaking => "Cloaking",
            Field::BlockBots => "Block bots",
            Field::HideReferrer => "Hide referrer",
            Field::Submit => "Submit",
        }
    }

    /// What the domain field shows.
    pub fn domain_display(&self) -> (r: String)
        ensures
            r@ == (match self.domain.deep_view() {
                Some(d) => d,
                None => "(default domain)"@,
            }),
    {
        match &self.domain {
            Some(d) => d.clone(),
            None => to_owned_string("(default domain)"),
        }
    }

    /// A form can be submitted once its URL is not blank.
    pub fn validate(&self) -> (r: Result<(), String>)
        ensures
            r is Ok <==> trim(self.url.text()).len() != 0,
            r matches Err(e) ==> e@ == "URL is required"@,
    {
        if is_blank(self.url.value()) {
            return Err(to_owned_string("URL is required"));
        }
        Ok(())
    }

    /// The API request body for the current form state: trimmed values,
    /// blank fields left unset, `enabled` always sent, the other toggles
    /// sent only when on.
    pub fn build(&self, workspace_id: i64) -> (r: CreateLinkRequest)
        ensures
            r@ == self.build_spec(workspace_id),
    {
        CreateLinkRequest {
            workspace_id,
            url: trim_string(self.url.value()),
            domain: crate::models::clone_opt_string(&self.domain),
            slug: opt(&self.slug),
            name: opt(&self.name),
            note: opt(&self.note),
            enabled: Some(self.enabled),
            forward_params: flag(self.forward_params),
            cloaking: flag(self.cloaking),
            block_bots: flag(self.block_bots),
            hide_referrer: flag(self.hide_referrer),
            og_title: opt(&self.og_title),
            og_description: opt(&self.og_description),
            og_image: opt(&self.og_image),
            utm_source: opt(&self.utm_source),
            utm_medium: opt(&self.utm_medium),
            utm_campaign: opt(&self.utm_campaign),
            utm_term: opt(&self.utm_term),
            utm_content: opt(&self.utm_content),
            fb_pixel_id: opt(&self.fb_pixel_id),
            tiktok_pixel_id: opt(&self.tiktok_pixel_id),
            gtm_id: opt(&self.gtm_id),
            ga4_tag_id: opt(&self.ga4_tag_id),
            head_tags: opt(&self.head_tags),
            body_tags: opt(&self.body_tags),
            linkify_words: opt(&self.linkify_words),
        }
    }
}

/// The value a text field of `form` holds after `req`.
pub open spec fn tui_handle_value(form: CreateForm, f: Field, req: EditRequest) -> Seq<char> {
    match f {
        Field::Url => crate::input::tui_handle(form.url.text(), form.url.pos(), req).0,
        Field::Name => crate::input::tui_handle(form.name.text(), form.name.pos(), req).0,
        Field::Slug => crate::input::tui_handle(form.slug.text(), form.slug.pos(), req).0,
        Field::Note => crate::input::tui_handle(form.note.text(), form.note.pos(), req).0,
        Field::UtmSource => crate::input::tui_handle(form.utm_source.text(), form.utm_source.pos(), req).0,
        Field::UtmMedium => crate::input::tui_handle(form.utm_medium.text(), form.utm_medium.pos(), req).0,
        Field::UtmCampaign => crate::input::tui_handle(form.utm_campaign.text(), form.utm_campaign.pos(), req).0,
        Field::UtmTerm => crate::input::tui_handle(form.utm_term.text(), form.utm_term.pos(), req).0,
        Field::UtmContent => crate::input::tui_handle(form.utm_content.text(), form.utm_content.pos(), req).0,
        Field::OgTitle => crate::input::tui_handle(form.og_title.text(), form.og_title.pos(), req).0,
        Field::OgDescription => crate::input::tui_handle(form.og_description.text(), form.og_description.pos(), req).0,
        Field::OgImage => crate::input::tui_handle(form.og_image.text(), form.og_image.pos(), req).0,
        Field::FbPixel => crate::input::tui_handle(form.fb_pixel_id.text(), form.fb_pixel_id.pos(), req).0,
        Field::TiktokPixel => crate::input::tui_handle(form.tiktok_pixel_id.text(), form.tiktok_pixel_id.pos(), req).0,
        Field::Gtm => crate::input::tui_handle(form.gtm_id.text(), form.gtm_id.pos(), req).0,
        Field::Ga4 => crate::input::tui_handle(form.ga4_tag_id.text(), form.ga4_tag_id.pos(), req).0,
        Field::HeadTags => crate::input::tui_handle(form.head_tags.text(), form.head_tags.pos(), req).0,
        Field::BodyTags => crate::input::tui_handle(form.body_tags.text(), form.body_tags.pos(), req).0,
        Field::LinkifyWords => crate::input::tui_handle(form.linkify_words.text(), form.linkify_words.pos(), req).0,
        _ => Seq::empty(),
    }
}

} // verus!
