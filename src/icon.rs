use vstd::prelude::*;
use vstd::string::StrSliceExecFns;

verus! {

/// The platform categories that a volume's type tag falls into.
#[derive(Clone, Copy, Debug, PartialEq, Eq, Structural)]
pub enum OsCategory {
    Windows,
    Linux,
    Virtual,
    Unrecognized,
}

/// What `str::to_lowercase` returns for a string.
pub uninterp spec fn lower_of(s: Seq<char>) -> Seq<char>;

pub open spec fn is_ascii_chars(s: Seq<char>) -> bool {
    forall|i: int| 0 <= i < s.len() ==> (#[trigger] s[i] as u32) < 128
}

pub open spec fn ascii_lower_char(c: char) -> char {
    if 'A' <= c && c <= 'Z' {
        ((c as u32) + 32) as char
    } else {
        c
    }
}

/// ASCII letters made lower case, other characters kept.
pub open spec fn ascii_lower(s: Seq<char>) -> Seq<char> {
    s.map_values(|c: char| ascii_lower_char(c))
}

/// Cc, the general category of control characters.
pub open spec fn is_control_char(c: char) -> bool {
    (c as u32) <= 0x1f || (0x7f <= (c as u32) && (c as u32) <= 0x9f)
}

/// The category of a type tag that has already been made lower case.
pub open spec fn category_of_lowered(s: Seq<char>) -> OsCategory {
    if s == "windows"@ {
        OsCategory::Windows
    } else if s == "linux"@ {
        OsCategory::Linux
    } else if s == "virtual"@ {
        OsCategory::Virtual
    } else {
        OsCategory::Unrecognized
    }
}

/// The glyph drawn before a volume's name, with a trailing space.
pub open spec fn glyph_text(c: OsCategory) -> Seq<char> {
    match c {
        OsCategory::Windows => "\u{f17a} "@,
        OsCategory::Linux => "\u{f17c} "@,
        OsCategory::Virtual => "\u{f0c2} "@,
        OsCategory::Unrecognized => "\u{f128} "@,
    }
}

/// The plain-text label used where glyphs cannot be drawn.
pub open spec fn fallback_text(c: OsCategory) -> Seq<char> {
    match c {
        OsCategory::Windows => "[W] "@,
        OsCategory::Linux => "[L] "@,
        OsCategory::Virtual => "[V] "@,
        OsCategory::Unrecognized => "[?] "@,
    }
}

pub open spec fn no_control_chars(s: Seq<char>) -> bool {
    forall|i: int| 0 <= i < s.len() ==> !is_control_char(#[trigger] s[i])
}

/// Whether all four glyphs can be drawn; never a mix of glyphs and labels.
pub open spec fn glyphs_renderable() -> bool {
    no_control_chars(glyph_text(OsCategory::Windows)) && no_control_chars(
        glyph_text(OsCategory::Linux),
    ) && no_control_chars(glyph_text(OsCategory::Virtual)) && no_control_chars(
        glyph_text(OsCategory::Unrecognized),
    )
}

pub open spec fn icon_text(c: OsCategory, use_unicode: bool) -> Seq<char> {
    if use_unicode {
        glyph_text(c)
    } else {
        fallback_text(c)
    }
}

/// Relies on `str::to_lowercase`; on ASCII text it lowers the letters A to Z
/// and keeps every other character.
#[verifier::external_body]
fn to_lowercase(s: &str) -> (r: String)
    ensures
        r@ == lower_of(s@),
        is_ascii_chars(s@) ==> r@ == ascii_lower(s@),
{
    s.to_lowercase()
}

/// Whether a character is a control character (general category Cc).
pub fn is_control(c: char) -> (r: bool)
    ensures
        r == is_control_char(c),
{
    let v = c as u32;
    v <= 0x1f || (0x7f <= v && v <= 0x9f)
}

/// The category of a type tag that is already lower case.
pub fn category_from_lowered(lower: &str) -> (r: OsCategory)
    ensures
        r == category_of_lowered(lower@),
{
    let s = String::from_str(lower);
    if s == String::from_str("windows") {
        OsCategory::Windows
    } else if s == String::from_str("linux") {
        OsCategory::Linux
    } else if s == String::from_str("virtual") {
        OsCategory::Virtual
    } else {
        OsCategory::Unrecognized
    }
}

/// The category of a volume's type tag, compared without regard to case.
pub fn category_of(vol_type: &str) -> (r: OsCategory)
    ensures
        r == category_of_lowered(lower_of(vol_type@)),
        is_ascii_chars(vol_type@) ==> r == category_of_lowered(ascii_lower(vol_type@)),
{
    let lower = to_lowercase(vol_type);
    category_from_lowered(lower.as_str())
}

/// Whether no character of the text is a control character.
pub fn renders_plainly(s: &str) -> (r: bool)
    ensures
        r == no_control_chars(s@),
{
    let n = s.unicode_len();
    let mut i: usize = 0;
    while i < n
        invariant
            i <= n,
            n == s@.len(),
            forall|k: int| 0 <= k < i ==> !is_control_char(#[trigger] s@[k]),
        decreases n - i,
    {
        if is_control(s.get_char(i)) {
            return false;
        }
        i = i + 1;
    }
    true
}

pub fn glyph(c: OsCategory) -> (r: String)
    ensures
        r@ == glyph_text(c),
{
    match c {
        OsCategory::Windows => String::from_str("\u{f17a} "),
        OsCategory::Linux => String::from_str("\u{f17c} "),
        OsCategory::Virtual => String::from_str("\u{f0c2} "),
        OsCategory::Unrecognized => String::from_str("\u{f128} "),
    }
}

pub fn fallback(c: OsCategory) -> (r: String)
    ensures
        r@ == fallback_text(c),
{
    match c {
        OsCategory::Windows => String::from_str("[W] "),
        OsCategory::Linux => String::from_str("[L] "),
        OsCategory::Virtual => String::from_str("[V] "),
        OsCategory::Unrecognized => String::from_str("[?] "),
    }
}

/// Tests the four glyphs together: either all of them are used or none.
pub fn can_render_glyphs() -> (r: bool)
    ensures
        r == glyphs_renderable(),
{
    let w = glyph(OsCategory::Windows);
    let l = glyph(OsCategory::Linux);
    let v = glyph(OsCategory::Virtual);
    let u = glyph(OsCategory::Unrecognized);
    renders_plainly(w.as_str()) && renders_plainly(l.as_str()) && renders_plainly(v.as_str())
        && renders_plainly(u.as_str())
}

/// The icon text for a category: its glyph, or its label where glyphs are off.
pub fn icon(c: OsCategory, use_unicode: bool) -> (r: String)
    ensures
        r@ == icon_text(c, use_unicode),
{
    if use_unicode {
        glyph(c)
    } else {
        fallback(c)
    }
}

/// Type tags that differ only in the case of ASCII letters fall into one
/// category, and so get the same icon.
pub proof fn lemma_category_ignores_case(s: Seq<char>, t: Seq<char>, use_unicode: bool)
    requires
        is_ascii_chars(s),
        is_ascii_chars(t),
        ascii_lower(s) == ascii_lower(t),
    ensures
        category_of_lowered(ascii_lower(s)) == category_of_lowered(ascii_lower(t)),
        icon_text(category_of_lowered(ascii_lower(s)), use_unicode) == icon_text(
            category_of_lowered(ascii_lower(t)),
            use_unicode,
        ),
{
}

} // verus!
