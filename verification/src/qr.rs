//! Naming of the QR-code files written for links.
//!
//! Linkly's API exposes no QR image endpoint, so the codes are rendered
//! locally from each link's short URL; this module decides where they go and
//! what they are called.

use vstd::prelude::*;

use crate::text::{
    ascii_lower, chars_of, char_to_ascii_lower, int_decimal, push_char, push_i64, push_str,
    string_of, to_owned_string, trim, trim_bounds,
};

verus! {

/// The Unicode `Alphabetic` or `Numeric` property of a character, as
/// `char::is_alphanumeric` tests it.
pub uninterp spec fn is_alphanumeric_spec(c: char) -> bool;

/// ASCII letters and digits.
pub open spec fn is_ascii_alnum(c: char) -> bool {
    ('a' <= c <= 'z') || ('A' <= c <= 'Z') || ('0' <= c <= '9')
}

/// `char::is_alphanumeric` (std): true when the character has the Unicode
/// `Alphabetic` or `Numeric` property. The contract names that result, and
/// states what it is on ASCII characters: exactly the letters and digits.
#[verifier::external_body]
fn char_is_alphanumeric(c: char) -> (r: bool)
    ensures
        r == is_alphanumeric_spec(c),
        (c as u32) < 128 ==> (r <==> is_ascii_alnum(c)),
{
    c.is_alphanumeric()
}

/// Whether `c` is alphanumeric: on ASCII, the letters and digits; beyond,
/// the Unicode property that `char::is_alphanumeric` tests.
pub open spec fn alnum_spec(c: char) -> bool {
    if (c as u32) < 128 {
        is_ascii_alnum(c)
    } else {
        is_alphanumeric_spec(c)
    }
}

/// `char::is_alphanumeric`, decided here on ASCII characters and asked of
/// std beyond them.
pub fn is_alnum(c: char) -> (r: bool)
    ensures
        r == alnum_spec(c),
        r == is_alphanumeric_spec(c),
{
    let b = char_is_alphanumeric(c);
    b
}

/// The base directory (relative to the working directory) that QR files
/// go under; each workspace has its own directory inside it (see
/// [`workspace_output_dir`]).
pub fn output_dir() -> (r: String)
    ensures
        r@ == "linkly-qr"@,
{
    to_owned_string("linkly-qr")
}

/// `s` without the leading occurrences of `c`.
pub open spec fn strip_start(s: Seq<char>, c: char) -> Seq<char>
    decreases s.len(),
{
    if s.len() > 0 && s[0] == c {
        strip_start(s.drop_first(), c)
    } else {
        s
    }
}

/// `s` without the trailing occurrences of `c`.
pub open spec fn strip_end(s: Seq<char>, c: char) -> Seq<char>
    decreases s.len(),
{
    if s.len() > 0 && s.last() == c {
        strip_end(s.drop_last(), c)
    } else {
        s
    }
}

/// A character that may stand in a file name fragment as it is.
pub open spec fn is_safe_char(c: char) -> bool {
    alnum_spec(c) || c == '-' || c == '_'
}

/// Each unsafe character replaced by `-`.
pub open spec fn safe_char(c: char) -> char {
    if is_safe_char(c) {
        c
    } else {
        '-'
    }
}

/// A slug or name turned into a file-system-safe fragment: leading `/`
/// removed, every other character that is not alphanumeric, `-` or `_`
/// replaced by `-`, and `-` trimmed from both ends.
pub open spec fn sanitize_spec(s: Seq<char>) -> Seq<char> {
    strip_end(strip_start(strip_start(s, '/').map_values(|c: char| safe_char(c)), '-'), '-')
}

proof fn lemma_strip_start_step(s: Seq<char>, c: char, i: int)
    requires
        0 <= i < s.len(),
        s[i] == c,
    ensures
        strip_start(s.subrange(i, s.len() as int), c) == strip_start(
            s.subrange(i + 1, s.len() as int),
            c,
        ),
{
    assert(s.subrange(i, s.len() as int).drop_first() == s.subrange(i + 1, s.len() as int));
}

proof fn lemma_strip_end_step(s: Seq<char>, c: char, i: int, j: int)
    requires
        0 <= i < j <= s.len(),
        s[j - 1] == c,
    ensures
        strip_end(s.subrange(i, j), c) == strip_end(s.subrange(i, j - 1), c),
{
    assert(s.subrange(i, j).drop_last() == s.subrange(i, j - 1));
}

/// The first index of `v` at or after `from` that does not hold `c`.
fn skip_char(v: &Vec<char>, from: usize, c: char) -> (i: usize)
    requires
        from <= v@.len(),
    ensures
        from <= i <= v@.len(),
        strip_start(v@.subrange(from as int, v@.len() as int), c) == v@.subrange(
            i as int,
            v@.len() as int,
        ),
{
    let n = v.len();
    let mut i = from;
    while i < n && v[i] == c
        invariant
            n == v@.len(),
            from <= i <= n,
            strip_start(v@.subrange(from as int, n as int), c) == strip_start(
                v@.subrange(i as int, n as int),
                c,
            ),
        decreases n - i,
    {
        proof {
            lemma_strip_start_step(v@, c, i as int);
        }
        i = i + 1;
    }
    i
}

/// Turn a slug or name into a file-system-safe fragment.
fn sanitize(s: &str) -> (r: String)
    ensures
        r@ == sanitize_spec(s@),
{
    let v = chars_of(s);
    let n = v.len();
    assert(v@.subrange(0, n as int) == v@);
    let start = skip_char(&v, 0, '/');
    let ghost stripped = v@.subrange(start as int, n as int);
    let mut mapped: Vec<char> = Vec::new();
    let mut i = start;
    while i < n
        invariant
            n == v@.len(),
            start <= i <= n,
            stripped == v@.subrange(start as int, n as int),
            mapped@ == stripped.subrange(0, i - start).map_values(|c: char| safe_char(c)),
        decreases n - i,
    {
        let c = v[i];
        let d = if is_alnum(c) || c == '-' || c == '_' {
            c
        } else {
            '-'
        };
        mapped.push(d);
        assert(mapped@ =~= stripped.subrange(0, i + 1 - start).map_values(|c: char| safe_char(c)));
        i = i + 1;
    }
    assert(stripped.subrange(0, n - start) == stripped);
    let m = mapped.len();
    assert(mapped@.subrange(0, m as int) == mapped@);
    let a = skip_char(&mapped, 0, '-');
    let ghost front = mapped@.subrange(a as int, m as int);
    let mut b = m;
    assert(front.subrange(0, front.len() as int) == front);
    while b > a && mapped[b - 1] == '-'
        invariant
            m == mapped@.len(),
            a <= b <= m,
            front == mapped@.subrange(a as int, m as int),
            strip_end(front, '-') == strip_end(mapped@.subrange(a as int, b as int), '-'),
        decreases b,
    {
        proof {
            lemma_strip_end_step(mapped@, '-', a as int, b as int);
        }
        b = b - 1;
    }
    let ghost kept = mapped@.subrange(a as int, b as int);
    assert(strip_end(kept, '-') == kept);
    string_of(mapped.as_slice(), a, b)
}

/// What sanitizing gives, for every slug or name `s`: only alphanumeric
/// characters, `-` and `_`; no `-` at either end; and a fragment that
/// sanitizes to itself. So every file name made from it is safe, and
/// making it again changes nothing.
pub proof fn law_sanitize(s: Seq<char>)
    ensures
        forall|i: int| 0 <= i < sanitize_spec(s).len() ==> is_safe_char(#[trigger] sanitize_spec(s)[i]),
        sanitize_spec(s).len() > 0 ==> sanitize_spec(s)[0] != '-' && sanitize_spec(s).last() != '-',
        sanitize_spec(sanitize_spec(s)) == sanitize_spec(s),
{
    crate::laws::law_sanitized_is_safe(s);
    crate::laws::law_sanitize_idempotent(s);
}

/// The fragment that names a link's file: its sanitized slug, else its
/// sanitized name, whichever is first not empty.
pub open spec fn base_spec(slug: Option<Seq<char>>, name: Option<Seq<char>>) -> Option<Seq<char>> {
    let from_slug = match slug {
        Some(s) if sanitize_spec(s).len() > 0 => Some(sanitize_spec(s)),
        _ => None,
    };
    match from_slug {
        Some(b) => Some(b),
        None => match name {
            Some(n) if sanitize_spec(n).len() > 0 => Some(sanitize_spec(n)),
            _ => None,
        },
    }
}

/// The file name of a link with extension `ext`: `{id}-{base}.{ext}`,
/// `link-{id}.{ext}`, `{base}.{ext}` or `link.{ext}`.
pub open spec fn file_name_ext_spec(
    id: Option<i64>,
    slug: Option<Seq<char>>,
    name: Option<Seq<char>>,
    ext: Seq<char>,
) -> Seq<char> {
    match (id, base_spec(slug, name)) {
        (Some(i), Some(b)) => int_decimal(i as int) + "-"@ + b + "."@ + ext,
        (Some(i), None) => "link-"@ + int_decimal(i as int) + "."@ + ext,
        (None, Some(b)) => b + "."@ + ext,
        (None, None) => "link."@ + ext,
    }
}

/// The PNG file name of a link: `{id}-{base}.png`, `link-{id}.png`,
/// `{base}.png` or `link.png`, after what is known of it.
pub open spec fn file_name_spec(
    id: Option<i64>,
    slug: Option<Seq<char>>,
    name: Option<Seq<char>>,
) -> Seq<char> {
    match (id, base_spec(slug, name)) {
        (Some(i), Some(b)) => int_decimal(i as int) + "-"@ + b + ".png"@,
        (Some(i), None) => "link-"@ + int_decimal(i as int) + ".png"@,
        (None, Some(b)) => b + ".png"@,
        (None, None) => "link.png"@,
    }
}

/// The file name for a link with the given extension, preferring its
/// slug, then its name, then its id.
pub fn file_name_ext(id: Option<i64>, slug: Option<&str>, name: Option<&str>, ext: &str) -> (r: String)
    ensures
        r@ == file_name_ext_spec(
            id,
            match slug {
                Some(s) => Some(s@),
                None => None,
            },
            match name {
                Some(s) => Some(s@),
                None => None,
            },
            ext@,
        ),
{
    let from_slug = match slug {
        Some(s) => {
            let t = sanitize(s);
            if t.unicode_len() > 0 {
                Some(t)
            } else {
                None
            }
        },
        None => None,
    };
    let base = match from_slug {
        Some(b) => Some(b),
        None => match name {
            Some(n) => {
                let t = sanitize(n);
                if t.unicode_len() > 0 {
                    Some(t)
                } else {
                    None
                }
            },
            None => None,
        },
    };
    let mut r = String::new();
    match (id, base) {
        (Some(i), Some(b)) => {
            push_i64(&mut r, i);
            push_str(&mut r, "-");
            push_str(&mut r, b.as_str());
        },
        (Some(i), None) => {
            push_str(&mut r, "link-");
            push_i64(&mut r, i);
        },
        (None, Some(b)) => {
            push_str(&mut r, b.as_str());
        },
        (None, None) => {
            push_str(&mut r, "link");
        },
    }
    push_str(&mut r, ".");
    push_str(&mut r, ext);
    proof {
        reveal_strlit("link.");
        reveal_strlit("link");
        reveal_strlit(".");
    }
    r
}

/// The PNG file name for a link, preferring its slug, then its name, then
/// its id.
pub fn file_name(id: Option<i64>, slug: Option<&str>, name: Option<&str>) -> (r: String)
    ensures
        r@ == file_name_spec(
            id,
            match slug {
                Some(s) => Some(s@),
                None => None,
            },
            match name {
                Some(s) => Some(s@),
                None => None,
            },
        ),
{
    let r = file_name_ext(id, slug, name, "png");
    proof {
        reveal_strlit(".png");
        reveal_strlit("png");
        reveal_strlit(".");
        reveal_strlit("link.png");
        reveal_strlit("link.");
    }
    r
}

/// The directory QR files of a workspace go to: `linkly-qr/{workspace_id}`.
pub fn workspace_output_dir(workspace_id: i64) -> (r: String)
    ensures
        r@ == "linkly-qr/"@ + int_decimal(workspace_id as int),
{
    let mut r = output_dir();
    push_str(&mut r, "/");
    push_i64(&mut r, workspace_id);
    proof {
        reveal_strlit("linkly-qr");
        reveal_strlit("/");
        reveal_strlit("linkly-qr/");
    }
    r
}

/// `dir/name`, the path of a file inside a directory.
pub fn join_path(dir: &str, name: &str) -> (r: String)
    ensures
        r@ == dir@ + "/"@ + name@,
{
    let mut r = to_owned_string(dir);
    push_str(&mut r, "/");
    push_str(&mut r, name);
    r
}

/// The image formats QR codes are exported in.
#[derive(Debug, Clone, Copy, PartialEq, Eq, Structural)]
pub enum QrFormat {
    Png,
    Svg,
    Jpeg,
}

impl QrFormat {
    /// The next format, cycling PNG, SVG, JPEG.
    pub fn next(self) -> (r: QrFormat)
        ensures
            r == (match self {
                QrFormat::Png => QrFormat::Svg,
                QrFormat::Svg => QrFormat::Jpeg,
                QrFormat::Jpeg => QrFormat::Png,
            }),
    {
        match self {
            QrFormat::Png => QrFormat::Svg,
            QrFormat::Svg => QrFormat::Jpeg,
            QrFormat::Jpeg => QrFormat::Png,
        }
    }

    /// The previous format (the inverse of [`QrFormat::next`]).
    pub fn prev(self) -> (r: QrFormat)
        ensures
            r == (match self {
                QrFormat::Png => QrFormat::Jpeg,
                QrFormat::Svg => QrFormat::Png,
                QrFormat::Jpeg => QrFormat::Svg,
            }),
    {
        match self {
            QrFormat::Png => QrFormat::Jpeg,
            QrFormat::Svg => QrFormat::Png,
            QrFormat::Jpeg => QrFormat::Svg,
        }
    }

    /// The name shown in the QR dialog.
    pub fn label(self) -> (r: &'static str)
        ensures
            r@ == (match self {
                QrFormat::Png => "PNG"@,
                QrFormat::Svg => "SVG"@,
                QrFormat::Jpeg => "JPEG"@,
            }),
    {
        match self {
            QrFormat::Png => "PNG",
            QrFormat::Svg => "SVG",
            QrFormat::Jpeg => "JPEG",
        }
    }

    /// The file extension.
    pub fn extension(self) -> (r: &'static str)
        ensures
            r@ == (match self {
                QrFormat::Png => "png"@,
                QrFormat::Svg => "svg"@,
                QrFormat::Jpeg => "jpg"@,
            }),
    {
        match self {
            QrFormat::Png => "png",
            QrFormat::Svg => "svg",
            QrFormat::Jpeg => "jpg",
        }
    }
}

/// How QR codes are exported: format, size in pixels, and foreground and
/// background colours as `#rrggbb`.
pub struct QrSettings {
    pub format: QrFormat,
    pub size: u32,
    pub fg: String,
    pub bg: String,
}

impl QrSettings {
    /// PNG, 320 pixels, black on white.
    pub fn defaults() -> (r: Self)
        ensures
            r.format == QrFormat::Png,
            r.size == 320,
            r.fg@ == "#000000"@,
            r.bg@ == "#ffffff"@,
    {
        QrSettings {
            format: QrFormat::Png,
            size: 320,
            fg: to_owned_string("#000000"),
            bg: to_owned_string("#ffffff"),
        }
    }

    /// A field-by-field copy.
    pub fn duplicate(&self) -> (r: Self)
        ensures
            r.format == self.format,
            r.size == self.size,
            r.fg@ == self.fg@,
            r.bg@ == self.bg@,
    {
        QrSettings { format: self.format, size: self.size, fg: self.fg.clone(), bg: self.bg.clone() }
    }
}

/// A hexadecimal digit.
pub open spec fn is_hex_digit(c: char) -> bool {
    ('0' <= c <= '9') || ('a' <= c <= 'f') || ('A' <= c <= 'F')
}

/// The digits of a typed colour: trimmed, without a leading `#`.
pub open spec fn color_digits(s: Seq<char>) -> Seq<char> {
    let t = trim(s);
    if t.len() > 0 && t[0] == '#' {
        t.drop_first()
    } else {
        t
    }
}

/// Every character is a hexadecimal digit.
pub open spec fn all_hex(h: Seq<char>) -> bool {
    forall|i: int| 0 <= i < h.len() ==> is_hex_digit(#[trigger] h[i])
}

/// A colour as typed (surrounding whitespace and an optional leading `#`
/// allowed) in its normal form `#rrggbb` with lower-case digits; `None`
/// when it is not six hexadecimal digits.
pub open spec fn normalize_color_spec(s: Seq<char>) -> Option<Seq<char>> {
    let h = color_digits(s);
    if h.len() == 6 && all_hex(h) {
        Some(seq!['#'] + ascii_lower(h))
    } else {
        None
    }
}

/// Normalise a typed colour to `#rrggbb`, or `None` when it is none.
pub fn normalize_color(s: &str) -> (r: Option<String>)
    ensures
        r.deep_view() == normalize_color_spec(s@),
{
    let v = chars_of(s);
    let (a, b) = trim_bounds(v.as_slice());
    let ghost t = v@.subrange(a as int, b as int);
    let start = if a < b && v[a] == '#' {
        a + 1
    } else {
        a
    };
    let ghost h = v@.subrange(start as int, b as int);
    assert(h == if t.len() > 0 && t[0] == '#' {
        t.drop_first()
    } else {
        t
    });
    if b - start != 6 {
        return None;
    }
    let mut r = String::new();
    push_char(&mut r, '#');
    let mut i = start;
    while i < b
        invariant
            start <= i <= b <= v@.len(),
            b - start == 6,
            h == v@.subrange(start as int, b as int),
            h == color_digits(s@),
            forall|j: int| 0 <= j < i - start ==> is_hex_digit(#[trigger] h[j]),
            r@ == seq!['#'] + ascii_lower(h.take(i - start)),
        decreases b - i,
    {
        let c = v[i];
        if !(('0' <= c && c <= '9') || ('a' <= c && c <= 'f') || ('A' <= c && c <= 'F')) {
            proof {
                let j = (i - start) as int;
                assert(!is_hex_digit(h[j]));
                assert(!all_hex(h));
                assert(normalize_color_spec(s@) is None);
            }
            return None;
        }
        push_char(&mut r, char_to_ascii_lower(c));
        assert(ascii_lower(h.take(i + 1 - start)) =~= ascii_lower(h.take(i - start)).push(
            crate::text::lower_char(c),
        ));
        i = i + 1;
    }
    assert(h.take(6) == h);
    Some(r)
}

/// The value of a hexadecimal digit.
pub open spec fn hex_value(c: char) -> int {
    if '0' <= c <= '9' {
        c as int - '0' as int
    } else if 'a' <= c <= 'f' {
        c as int - 'a' as int + 10
    } else {
        c as int - 'A' as int + 10
    }
}

/// The (red, green, blue) of a colour written `#rrggbb`; `None` for any
/// other text.
pub open spec fn rgb_spec(s: Seq<char>) -> Option<(u8, u8, u8)> {
    if s.len() == 7 && s[0] == '#' && all_hex(s.drop_first()) {
        Some(
            (
                (hex_value(s[1]) * 16 + hex_value(s[2])) as u8,
                (hex_value(s[3]) * 16 + hex_value(s[4])) as u8,
                (hex_value(s[5]) * 16 + hex_value(s[6])) as u8,
            ),
        )
    } else {
        None
    }
}

fn hex_digit_value(c: char) -> (r: u8)
    requires
        is_hex_digit(c),
    ensures
        r == hex_value(c),
        r < 16,
{
    let u = c as u32;
    if '0' <= c && c <= '9' {
        (u - 48) as u8
    } else if 'a' <= c && c <= 'f' {
        (u - 97 + 10) as u8
    } else {
        (u - 65 + 10) as u8
    }
}

/// The (red, green, blue) of a `#rrggbb` colour.
pub fn color_rgb(s: &str) -> (r: Option<(u8, u8, u8)>)
    ensures
        r == rgb_spec(s@),
{
    let v = chars_of(s);
    if v.len() != 7 || v[0] != '#' {
        return None;
    }
    let mut i: usize = 1;
    while i < 7
        invariant
            1 <= i <= 7,
            v@.len() == 7,
            v@ == s@,
            forall|j: int| 1 <= j < i ==> is_hex_digit(#[trigger] v@[j]),
        decreases 7 - i,
    {
        let c = v[i];
        if !(('0' <= c && c <= '9') || ('a' <= c && c <= 'f') || ('A' <= c && c <= 'F')) {
            assert(!is_hex_digit(s@.drop_first()[i - 1]));
            return None;
        }
        i = i + 1;
    }
    assert(all_hex(s@.drop_first())) by {
        assert forall|j: int| 0 <= j < s@.drop_first().len() implies is_hex_digit(#[trigger] s@.drop_first()[j]) by {
            assert(s@.drop_first()[j] == v@[j + 1]);
        }
    }
    let r = hex_digit_value(v[1]) * 16 + hex_digit_value(v[2]);
    let g = hex_digit_value(v[3]) * 16 + hex_digit_value(v[4]);
    let b = hex_digit_value(v[5]) * 16 + hex_digit_value(v[6]);
    Some((r, g, b))
}

/// The PNG image `qrcode` renders for `data` (at least `size` pixels wide,
/// with the quiet zone), dark modules in `fg`, light ones in `bg`, as
/// `image` encodes it.
pub uninterp spec fn qr_png(data: Seq<char>, size: u32, fg: (u8, u8, u8), bg: (u8, u8, u8)) -> Seq<u8>;

/// The same image encoded as a JPEG.
pub uninterp spec fn qr_jpeg(data: Seq<char>, size: u32, fg: (u8, u8, u8), bg: (u8, u8, u8)) -> Seq<u8>;

/// The bytes of the SVG document `qrcode` renders for `data` (at least
/// `size` wide, with the quiet zone), dark modules in colour `fg`, light
/// ones in `bg`.
pub uninterp spec fn qr_svg(data: Seq<char>, size: u32, fg: Seq<char>, bg: Seq<char>) -> Seq<u8>;

/// Whether `QrCode::new` accepts the bytes of `data` (it refuses data too
/// long for any QR code version).
pub uninterp spec fn qr_encodable(data: Seq<char>) -> bool;

/// `QrCode::new` on the bytes of `data`, rendered by `qrcode` into an RGB
/// image of at least `size` pixels a side and encoded as PNG by `image`.
/// The bytes are named ([`qr_png`]). It fails exactly when `QrCode::new`
/// refuses the data: the image of a size up to 4096 has non-zero sides
/// that fit its arithmetic, and encoding an RGB image into a `Vec` does
/// not fail.
#[verifier::external_body]
fn render_qr_png(data: &str, size: u32, fg: (u8, u8, u8), bg: (u8, u8, u8)) -> (r: Result<Vec<u8>, String>)
    requires
        size <= 4096,
    ensures
        r matches Ok(b) ==> b@ == qr_png(data@, size, fg, bg),
        r is Ok <==> qr_encodable(data@),
{
    let code = qrcode::QrCode::new(data.as_bytes()).map_err(|e| e.to_string())?;
    let img = code.render::<image::Rgb<u8>>().min_dimensions(size, size).dark_color(image::Rgb([fg.0, fg.1, fg.2])).light_color(image::Rgb([bg.0, bg.1, bg.2])).build();
    let mut out = std::io::Cursor::new(Vec::new());
    image::DynamicImage::ImageRgb8(img).write_to(&mut out, image::ImageFormat::Png).map_err(|e| e.to_string())?;
    Ok(out.into_inner())
}

/// As [`render_qr_png`], encoded as JPEG by `image` (named [`qr_jpeg`]);
/// the JPEG encoder takes sides of 1 to 65535 pixels, which an image of a
/// size up to 4096 has, so it too fails exactly when `QrCode::new` does.
#[verifier::external_body]
fn render_qr_jpeg(data: &str, size: u32, fg: (u8, u8, u8), bg: (u8, u8, u8)) -> (r: Result<Vec<u8>, String>)
    requires
        size <= 4096,
    ensures
        r matches Ok(b) ==> b@ == qr_jpeg(data@, size, fg, bg),
        r is Ok <==> qr_encodable(data@),
{
    let code = qrcode::QrCode::new(data.as_bytes()).map_err(|e| e.to_string())?;
    let img = code.render::<image::Rgb<u8>>().min_dimensions(size, size).dark_color(image::Rgb([fg.0, fg.1, fg.2])).light_color(image::Rgb([bg.0, bg.1, bg.2])).build();
    let mut out = std::io::Cursor::new(Vec::new());
    image::DynamicImage::ImageRgb8(img).write_to(&mut out, image::ImageFormat::Jpeg).map_err(|e| e.to_string())?;
    Ok(out.into_inner())
}

/// `QrCode::new` on the bytes of `data`, rendered by `qrcode`'s SVG renderer
/// at least `size` wide, with colours `fg` and `bg` (named [`qr_svg`]). The
/// SVG renderer cannot fail, so this fails exactly when `QrCode::new` does.
#[verifier::external_body]
fn render_qr_svg(data: &str, size: u32, fg: &str, bg: &str) -> (r: Result<Vec<u8>, String>)
    requires
        size <= 4096,
    ensures
        r matches Ok(b) ==> b@ == qr_svg(data@, size, fg@, bg@),
        r is Ok <==> qr_encodable(data@),
{
    let code = qrcode::QrCode::new(data.as_bytes()).map_err(|e| e.to_string())?;
    Ok(code.render::<qrcode::render::svg::Color>().min_dimensions(size, size).dark_color(qrcode::render::svg::Color(fg)).light_color(qrcode::render::svg::Color(bg)).build().into_bytes())
}

/// A size kept within 64..=4096 pixels.
pub open spec fn clamp_size_spec(n: u32) -> u32 {
    if n < 64 {
        64
    } else if n > 4096 {
        4096
    } else {
        n
    }
}

/// `n` kept within 64..=4096 pixels, the sizes a QR code is rendered at.
pub fn clamp_size(n: u32) -> (r: u32)
    ensures
        r == clamp_size_spec(n),
{
    if n < 64 {
        64
    } else if n > 4096 {
        4096
    } else {
        n
    }
}

/// The bytes of the QR code of `url` as the settings ask (format, size
/// kept within 64..=4096, colours): an error when a colour is not
/// `#rrggbb`; otherwise the image the renderer makes, which it makes
/// exactly when the URL fits a QR code.
pub open spec fn render_qr_spec(url: Seq<char>, s: (QrFormat, u32, Seq<char>, Seq<char>), r: Result<Vec<u8>, String>) -> bool {
    let size = clamp_size_spec(s.1);
    match (rgb_spec(s.2), rgb_spec(s.3)) {
        (Some(fg), Some(bg)) => {
            &&& r is Ok <==> qr_encodable(url)
            &&& r matches Ok(b) ==> b@ == match s.0 {
                QrFormat::Png => qr_png(url, size, fg, bg),
                QrFormat::Jpeg => qr_jpeg(url, size, fg, bg),
                QrFormat::Svg => qr_svg(url, size, s.2, s.3),
            }
        },
        _ => r matches Err(e) && e@ == "invalid colour"@,
    }
}

/// Render the QR code of `url` with the settings (see [`render_qr_spec`]).
pub fn render_qr(url: &str, settings: &QrSettings) -> (r: Result<Vec<u8>, String>)
    ensures
        render_qr_spec(url@, (settings.format, settings.size, settings.fg@, settings.bg@), r),
{
    let fg = match color_rgb(settings.fg.as_str()) {
        Some(c) => c,
        None => return Err(to_owned_string("invalid colour")),
    };
    let bg = match color_rgb(settings.bg.as_str()) {
        Some(c) => c,
        None => return Err(to_owned_string("invalid colour")),
    };
    let size = clamp_size(settings.size);
    match settings.format {
        QrFormat::Png => render_qr_png(url, size, fg, bg),
        QrFormat::Jpeg => render_qr_jpeg(url, size, fg, bg),
        QrFormat::Svg => render_qr_svg(url, size, settings.fg.as_str(), settings.bg.as_str()),
    }
}

} // verus!
