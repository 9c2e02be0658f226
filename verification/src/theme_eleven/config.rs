//! The settings of the strip: its font and its colours, and what is used in place
//! of settings that are wrong.
use crate::json::{
    as_i64, as_str, as_u64, get, insert, kind, new_object, null_value, text_value, written, JsonKind,
};
#[allow(unused_imports)]
use crate::json::{json_member, json_text, json_tree, json_with, Json};
use crate::text::{contains_nul, first_chars, is_blank, join2, join3, len_bytes, same_text};
#[allow(unused_imports)]
use crate::text::{blank, byte_len, has_nul, head_of};
use crate::theme::Color;
use crate::theme_api::{NoticeSeverity, ThemeNotice};
#[allow(unused_imports)]
use crate::theme_api::{notice_views, ThemeNoticeView};
use vstd::prelude::*;

verus! {

/// Number of bytes that the name of a font may have.
pub const MAX_FONT_NAME: usize = 256;

/// Number of characters of a wrong setting that are reported.
pub const MAX_REPORTED_VALUE: usize = 512;

/// Where a colour comes from.
#[derive(Clone, Copy, Debug, PartialEq, Eq, Structural)]
pub enum Source {
    System,
    Fixed(Color),
}

/// The sources of a colour, by whether the system is light or dark; none where the
/// strip's own colour is used.
#[derive(Clone, Copy, Debug, PartialEq, Eq)]
pub struct Sources {
    pub light: Option<Source>,
    pub dark: Option<Source>,
}

/// The value of a hexadecimal digit.
pub open spec fn hex_digit(c: char) -> Option<int> {
    let n = c as int;
    if '0' <= c <= '9' {
        Some(n - '0' as int)
    } else if 'a' <= c <= 'f' {
        Some(n - 'a' as int + 10)
    } else if 'A' <= c <= 'F' {
        Some(n - 'A' as int + 10)
    } else {
        None
    }
}

/// The byte that two hexadecimal digits at a place write.
pub open spec fn hex_byte(hex: Seq<char>, i: int) -> int {
    16 * hex_digit(hex[i])->0 + hex_digit(hex[i + 1])->0
}

/// What follows a hash, where a text begins with one.
pub open spec fn after_hash(text: Seq<char>) -> Seq<char> {
    if text.len() > 0 && text[0] == '#' {
        text.skip(1)
    } else {
        text
    }
}

/// Whether a text has hexadecimal digits only.
pub open spec fn all_hex(text: Seq<char>) -> bool {
    forall|i: int| 0 <= i < text.len() ==> hex_digit(#[trigger] text[i]) is Some
}

/// The colour that a text writes: six hexadecimal digits for red, green and blue,
/// or eight with the opacity before them, and a hash before all where there is one.
pub open spec fn color_of(text: Seq<char>) -> Option<Color> {
    let hex = after_hash(text);
    let n = hex.len() as int;
    if (n == 6 || n == 8) && all_hex(hex) {
        Some(
            Color {
                a: if n == 6 {
                    255
                } else {
                    hex_byte(hex, 0) as u8
                },
                r: hex_byte(hex, n - 6) as u8,
                g: hex_byte(hex, n - 4) as u8,
                b: hex_byte(hex, n - 2) as u8,
            },
        )
    } else {
        None
    }
}

/// The value of a hexadecimal digit.
fn digit_value(c: char) -> (r: Option<u8>)
    ensures
        match r {
            Some(n) => n < 16 && hex_digit(c) == Some(n as int),
            None => hex_digit(c) is None,
        },
{
    if '0' <= c && c <= '9' {
        Some((c as u32 - '0' as u32) as u8)
    } else if 'a' <= c && c <= 'f' {
        Some((c as u32 - 'a' as u32 + 10) as u8)
    } else if 'A' <= c && c <= 'F' {
        Some((c as u32 - 'A' as u32 + 10) as u8)
    } else {
        None
    }
}

/// The hexadecimal digits of a text, where it has no others.
fn hex_digits(text: &str) -> (r: Option<Vec<u8>>)
    ensures
        match r {
            Some(digits) => all_hex(after_hash(text@)) && digits@.len() == after_hash(text@).len()
                && forall|i: int|
                0 <= i < digits@.len() ==> (#[trigger] digits@[i]) < 16 && hex_digit(
                    after_hash(text@)[i],
                ) == Some(digits@[i] as int),
            None => !all_hex(after_hash(text@)),
        },
{
    let ghost hex = after_hash(text@);
    let mut digits: Vec<u8> = Vec::new();
    let mut valid: bool = true;
    let mut first: bool = true;
    let ghost skipped: int = text@.len() - hex.len();
    for c in it: text.chars()
        invariant
            it.seq() == text@,
            hex == after_hash(text@),
            skipped == text@.len() - hex.len(),
            first == (it.index() == 0),
            !valid ==> !all_hex(hex),
            valid && it.index() > 0 ==> digits@.len() == it.index() - skipped,
            it.index() == 0 ==> digits@.len() == 0,
            valid ==> forall|i: int|
                0 <= i < digits@.len() ==> (#[trigger] digits@[i]) < 16 && hex_digit(hex[i])
                    == Some(digits@[i] as int),
    {
        let ghost k = it.index() as int;
        assert(c == text@[k]);
        if first && c == '#' {
            assert(skipped == 1);
        } else if valid {
            assert(hex[k - skipped] == c);
            match digit_value(c) {
                Some(n) => {
                    digits.push(n);
                },
                None => {
                    assert(hex_digit(hex[k - skipped]) is None);
                    valid = false;
                },
            }
        }
        first = false;
    }
    if valid {
        assert forall|i: int| 0 <= i < hex.len() implies hex_digit(#[trigger] hex[i]) is Some by {
            assert(hex_digit(hex[i]) == Some(digits@[i] as int));
        }
        Some(digits)
    } else {
        None
    }
}

/// The byte that two digits at a place make.
fn byte_at(digits: &Vec<u8>, i: usize) -> (r: u8)
    requires
        i + 1 < digits.len(),
        digits[i as int] < 16,
        digits[i + 1] < 16,
    ensures
        r == 16 * digits[i as int] + digits[i + 1],
{
    16 * digits[i] + digits[i + 1]
}

/// The colour that a text writes.
pub fn color(text: &str) -> (r: Option<Color>)
    ensures
        r == color_of(text@),
{
    let digits: Vec<u8> = match hex_digits(text) {
        Some(digits) => digits,
        None => {
            return None;
        },
    };
    let n: usize = digits.len();
    if n != 6 && n != 8 {
        return None;
    }
    Some(
        Color {
            a: if n == 6 {
                255
            } else {
                byte_at(&digits, 0)
            },
            r: byte_at(&digits, n - 6),
            g: byte_at(&digits, n - 4),
            b: byte_at(&digits, n - 2),
        },
    )
}

/// The system's accent colour from the number that the registry holds, in which
/// red is the lowest byte.
pub fn registry_color(n: u32) -> (r: Color)
    ensures
        r.a == n / 0x1000000,
        r.b == n / 0x10000 % 0x100,
        r.g == n / 0x100 % 0x100,
        r.r == n % 0x100,
{
    Color {
        a: (n / 0x1000000) as u8,
        r: (n % 0x100) as u8,
        g: (n / 0x100 % 0x100) as u8,
        b: (n / 0x10000 % 0x100) as u8,
    }
}

/// The source of a colour that a setting gives.
pub open spec fn source_of(value: Json) -> Option<Source> {
    match value {
        Json::Text(text) => if text == "system"@ {
            Some(Source::System)
        } else {
            match color_of(text) {
                Some(color) => Some(Source::Fixed(color)),
                None => None,
            }
        },
        _ => None,
    }
}

/// What is said of a wrong setting: which one it is, the start of what it holds, and
/// what is used in its place.
pub open spec fn fallback_notice(field: Seq<char>, value: Json, reason: Seq<char>) ->
    ThemeNoticeView {
    let field_only = json_with(Json::Object(Seq::empty()), "field"@, Json::Text(field));
    let with_value = json_with(
        field_only,
        "value"@,
        Json::Text(head_of(json_text(value), MAX_REPORTED_VALUE as nat)),
    );
    ThemeNoticeView {
        severity: NoticeSeverity::Warning,
        code: "configuration.invalid"@,
        message: "themeSettings.eleven."@ + field + " 无效，已使用回退值。"@,
        details: json_text(json_with(with_value, "reason"@, Json::Text(reason))),
    }
}

/// Says that a setting is wrong.
fn fallback(notices: &mut Vec<ThemeNotice>, field: &str, value: &serde_json::Value, reason: &str)
    ensures
        notice_views(final(notices)@) == notice_views(old(notices)@).push(
            fallback_notice(field@, json_tree(*value), reason@),
        ),
{
    let ghost before = notice_views(notices@);
    let mut details: serde_json::Value = new_object();
    insert(&mut details, "field", text_value(field));
    insert(
        &mut details,
        "value",
        text_value(&first_chars(&written(value), MAX_REPORTED_VALUE)),
    );
    insert(&mut details, "reason", text_value(reason));
    let notice = ThemeNotice {
        severity: NoticeSeverity::Warning,
        code: "configuration.invalid".to_owned(),
        message: join3("themeSettings.eleven.", field, " 无效，已使用回退值。"),
        details: written(&details),
    };
    let ghost shown = notice@;
    notices.push(notice);
    assert(notice_views(notices@) =~= before.push(shown));
}

/// What is said of a setting of a colour, if it is wrong.
pub open spec fn color_notices(field: Seq<char>, value: Json) -> Seq<ThemeNoticeView> {
    if source_of(value) is Some {
        Seq::empty()
    } else {
        seq![
            fallback_notice(
                field,
                value,
                "expected system or RGB/ARGB hexadecimal color; using original palette"@,
            ),
        ]
    }
}

/// The source of a colour that a setting gives; where it gives none, it is said to
/// be wrong.
fn parse_source(notices: &mut Vec<ThemeNotice>, field: &str, value: &serde_json::Value) -> (r:
    Option<Source>)
    ensures
        r == source_of(json_tree(*value)),
        notice_views(final(notices)@) == notice_views(old(notices)@) + color_notices(
            field@,
            json_tree(*value),
        ),
{
    let ghost before = notice_views(notices@);
    let source: Option<Source> = match as_str(value) {
        Some(text) => if same_text(text, "system") {
            Some(Source::System)
        } else {
            match color(text) {
                Some(fixed) => Some(Source::Fixed(fixed)),
                None => None,
            }
        },
        None => None,
    };
    if source.is_none() {
        fallback(
            notices,
            field,
            value,
            "expected system or RGB/ARGB hexadecimal color; using original palette",
        );
    }
    assert(notice_views(notices@) =~= before + color_notices(field@, json_tree(*value)));
    source
}

/// The member of a name, or the value that stands for none.
pub open spec fn member_or_null(value: Json, name: Seq<char>) -> Json {
    match json_member(value, name) {
        Some(item) => item,
        None => Json::Null,
    }
}

/// The sources of a colour that a setting gives: one for both looks, or one for each
/// of them.
pub open spec fn sources_of(value: Json) -> Sources {
    if value is Object {
        Sources {
            light: source_of(member_or_null(value, "light"@)),
            dark: source_of(member_or_null(value, "dark"@)),
        }
    } else {
        Sources { light: source_of(value), dark: source_of(value) }
    }
}

/// What is said of a setting of a colour, for both looks.
pub open spec fn sources_notices(field: Seq<char>, value: Json) -> Seq<ThemeNoticeView> {
    if value is Object {
        color_notices(field + ".light"@, member_or_null(value, "light"@)) + color_notices(
            field + ".dark"@,
            member_or_null(value, "dark"@),
        )
    } else {
        color_notices(field, value)
    }
}

/// The sources of a colour that a setting gives. What is wrong for one look does
/// not touch the other.
pub fn colors(notices: &mut Vec<ThemeNotice>, field: &str, value: &serde_json::Value) -> (r:
    Sources)
    ensures
        r == sources_of(json_tree(*value)),
        notice_views(final(notices)@) == notice_views(old(notices)@) + sources_notices(
            field@,
            json_tree(*value),
        ),
{
    let ghost before = notice_views(notices@);
    if kind(value) == JsonKind::Object {
        let none: serde_json::Value = null_value();
        let light: Option<Source> = parse_source(
            notices,
            &join2(field, ".light"),
            match get(value, "light") {
                Some(item) => item,
                None => &none,
            },
        );
        let dark: Option<Source> = parse_source(
            notices,
            &join2(field, ".dark"),
            match get(value, "dark") {
                Some(item) => item,
                None => &none,
            },
        );
        assert(notice_views(notices@) =~= before + sources_notices(field@, json_tree(*value)));
        Sources { light, dark }
    } else {
        let both: Option<Source> = parse_source(notices, field, value);
        Sources { light: both, dark: both }
    }
}

/// A setting of the strip.
pub open spec fn setting_of(root: Json, name: Seq<char>) -> Json {
    match json_member(root, "themeSettings"@) {
        Some(themes) => match json_member(themes, "eleven"@) {
            Some(settings) => member_or_null(settings, name),
            None => Json::Null,
        },
        None => Json::Null,
    }
}

/// A setting of the strip, where there is one.
fn setting<'a>(root: &'a serde_json::Value, name: &str) -> (r: Option<&'a serde_json::Value>)
    ensures
        setting_of(json_tree(*root), name@) == (match r {
            Some(value) => json_tree(*value),
            None => Json::Null,
        }),
{
    match get(root, "themeSettings") {
        Some(themes) => match get(themes, "eleven") {
            Some(settings) => get(settings, name),
            None => None,
        },
        None => None,
    }
}

/// The name of a font that a setting gives: not blank, not too long, and without
/// the character that ends a text for the system.
pub open spec fn font_of(value: Json) -> Option<Seq<char>> {
    match value {
        Json::Text(name) => if !blank(name) && byte_len(name) <= MAX_FONT_NAME && !has_nul(name) {
            Some(name)
        } else {
            None
        },
        _ => None,
    }
}

/// The name of the font that settings give, which has to be looked up in the system.
pub fn requested_font(root: &serde_json::Value) -> (r: Option<String>)
    ensures
        match r {
            Some(name) => font_of(setting_of(json_tree(*root), "font"@)) == Some(name@),
            None => font_of(setting_of(json_tree(*root), "font"@)) is None,
        },
{
    let name: &str = match setting(root, "font") {
        Some(value) => match as_str(value) {
            Some(name) => name,
            None => {
                return None;
            },
        },
        None => {
            return None;
        },
    };
    if !is_blank(name) && len_bytes(name) <= MAX_FONT_NAME && !contains_nul(name) {
        Some(name.to_owned())
    } else {
        None
    }
}

/// The size of a font that a name stands for, in units of which there are
/// ninety-six to the inch.
pub open spec fn size_named(name: Seq<char>) -> Option<u32> {
    if name == "small"@ {
        Some(14u32)
    } else if name == "medium"@ {
        Some(18u32)
    } else if name == "large"@ {
        Some(22u32)
    } else if name == "extraLarge"@ {
        Some(28u32)
    } else {
        None
    }
}

/// The size of a font that a name stands for, in units of which there are
/// ninety-six to the inch.
pub fn named_size(name: &str) -> (r: Option<u32>)
    ensures
        r == size_named(name@),
{
    if same_text(name, "small") {
        Some(14)
    } else if same_text(name, "medium") {
        Some(18)
    } else if same_text(name, "large") {
        Some(22)
    } else if same_text(name, "extraLarge") {
        Some(28)
    } else {
        None
    }
}

/// The size of a font.
#[derive(Clone, Copy, Debug, PartialEq, Eq, Structural)]
pub enum FontSize {
    /// A whole number of units.
    Whole(u32),
    /// The number that the setting gives, which is not held as a whole one.
    Fraction,
}

/// Whether a value is a number that is not held as a whole one: it has a fraction or
/// an exponent, or it is too large.
pub open spec fn is_fraction(value: Json) -> bool {
    value matches Json::Number { unsigned, signed, .. } && unsigned is None && signed is None
}

/// The size that a setting gives: one that has a name, or a number from 1 to 256. A
/// whole number without an unsigned form is below zero. Whether a number that is not
/// held as a whole one lies within those bounds is `fraction_valid`.
pub open spec fn size_of(value: Json, fraction_valid: bool) -> Option<FontSize> {
    match value {
        Json::Text(name) => match size_named(name) {
            Some(n) => Some(FontSize::Whole(n)),
            None => None,
        },
        Json::Number { unsigned: Some(n), .. } => if 1 <= n <= 256 {
            Some(FontSize::Whole(n as u32))
        } else {
            None
        },
        _ => if is_fraction(value) && fraction_valid {
            Some(FontSize::Fraction)
        } else {
            None
        },
    }
}

/// The size that a setting gives. `fraction_valid` says of a number that is not held as
/// a whole one whether it is from 1 to 256; of every other value it says nothing.
pub fn size(value: &serde_json::Value, fraction_valid: bool) -> (r: Option<FontSize>)
    ensures
        r == size_of(json_tree(*value), fraction_valid),
{
    if let Some(name) = as_str(value) {
        return match named_size(name) {
            Some(n) => Some(FontSize::Whole(n)),
            None => None,
        };
    }
    if let Some(n) = as_u64(value) {
        return if 1 <= n && n <= 256 {
            Some(FontSize::Whole(n as u32))
        } else {
            None
        };
    }
    if fraction_valid && kind(value) == JsonKind::Number && as_i64(value).is_none() {
        Some(FontSize::Fraction)
    } else {
        None
    }
}

/// Whether the system has the font that settings give.
#[derive(Debug, PartialEq, Eq)]
pub enum FontLookup {
    Found,
    /// It has not, or could not say; the outcome as it is reported.
    Unavailable(String),
}

/// The strip's settings.
pub struct ThemeConfig {
    pub font: String,
    pub font_size: FontSize,
    pub accent: Sources,
    pub background: Sources,
    pub text: Sources,
    pub notices: Vec<ThemeNotice>,
}

#[verifier::ext_equal]
pub ghost struct ThemeConfigView {
    pub font: Seq<char>,
    pub font_size: FontSize,
    pub accent: Sources,
    pub background: Sources,
    pub text: Sources,
    pub notices: Seq<ThemeNoticeView>,
}

impl View for ThemeConfig {
    type V = ThemeConfigView;

    open spec fn view(&self) -> ThemeConfigView {
        ThemeConfigView {
            font: self.font@,
            font_size: self.font_size,
            accent: self.accent,
            background: self.background,
            text: self.text,
            notices: notice_views(self.notices@),
        }
    }
}

/// The font that is used, and what is said of the setting, if it is wrong.
pub open spec fn chosen_font(value: Json, lookup: FontLookup) -> (Seq<char>, Seq<
    ThemeNoticeView,
>) {
    match (font_of(value), lookup) {
        (Some(name), FontLookup::Found) => (name, Seq::empty()),
        (Some(_), FontLookup::Unavailable(outcome)) => (
            "Microsoft YaHei UI"@,
            seq![
                fallback_notice(
                    "font"@,
                    value,
                    "font unavailable ("@ + outcome@ + "); using Microsoft YaHei UI"@,
                ),
            ],
        ),
        (None, _) => (
            "Microsoft YaHei UI"@,
            seq![
                fallback_notice(
                    "font"@,
                    value,
                    "expected a nonempty font family; using Microsoft YaHei UI"@,
                ),
            ],
        ),
    }
}

/// The size that is used, and what is said of the setting, if it is wrong.
pub open spec fn chosen_size(value: Json, fraction_valid: bool) -> (FontSize, Seq<
    ThemeNoticeView,
>) {
    match size_of(value, fraction_valid) {
        Some(size) => (size, Seq::empty()),
        None => (
            FontSize::Whole(14),
            seq![
                fallback_notice(
                    "fontSize"@,
                    value,
                    "expected small/medium/large/extraLarge or 1..256 DIP; using 14"@,
                ),
            ],
        ),
    }
}

/// The strip's settings: each that is wrong is replaced by itself, and said to be
/// wrong.
pub open spec fn config_of(root: Json, lookup: FontLookup, fraction_valid: bool) ->
    ThemeConfigView {
    let font = chosen_font(setting_of(root, "font"@), lookup);
    let size = chosen_size(setting_of(root, "fontSize"@), fraction_valid);
    let accent = setting_of(root, "accentColor"@);
    let background = setting_of(root, "backgroundColor"@);
    let text = setting_of(root, "textColor"@);
    ThemeConfigView {
        font: font.0,
        font_size: size.0,
        accent: sources_of(accent),
        background: sources_of(background),
        text: sources_of(text),
        notices: font.1 + size.1 + sources_notices("accentColor"@, accent) + sources_notices(
            "backgroundColor"@,
            background,
        ) + sources_notices("textColor"@, text),
    }
}

impl ThemeConfig {
    /// Reads the strip's settings. `lookup` says whether the system has the font that
    /// they give, and `fraction_valid` whether the size that they give, where it is a
    /// number that is not held as a whole one, is from 1 to 256.
    pub fn load(root: &serde_json::Value, lookup: FontLookup, fraction_valid: bool) -> (r: Self)
        ensures
            r@ == config_of(json_tree(*root), lookup, fraction_valid),
    {
        let none: serde_json::Value = null_value();
        let mut notices: Vec<ThemeNotice> = Vec::new();
        let given: &serde_json::Value = match setting(root, "font") {
            Some(value) => value,
            None => &none,
        };
        let ghost start = notice_views(notices@);
        assert(start =~= Seq::<ThemeNoticeView>::empty());
        let ghost expected = chosen_font(setting_of(json_tree(*root), "font"@), lookup);
        let font: String = match requested_font(root) {
            Some(name) => match lookup {
                FontLookup::Found => name,
                FontLookup::Unavailable(outcome) => {
                    fallback(
                        &mut notices,
                        "font",
                        given,
                        &join3("font unavailable (", &outcome, "); using Microsoft YaHei UI"),
                    );
                    "Microsoft YaHei UI".to_owned()
                },
            },
            None => {
                fallback(
                    &mut notices,
                    "font",
                    given,
                    "expected a nonempty font family; using Microsoft YaHei UI",
                );
                "Microsoft YaHei UI".to_owned()
            },
        };
        assert(notice_views(notices@) =~= expected.1);
        let asked: &serde_json::Value = match setting(root, "fontSize") {
            Some(value) => value,
            None => &none,
        };
        let font_size: FontSize = match size(asked, fraction_valid) {
            Some(given) => given,
            None => {
                fallback(
                    &mut notices,
                    "fontSize",
                    asked,
                    "expected small/medium/large/extraLarge or 1..256 DIP; using 14",
                );
                FontSize::Whole(14)
            },
        };
        assert(notice_views(notices@) =~= expected.1 + chosen_size(
            setting_of(json_tree(*root), "fontSize"@),
            fraction_valid,
        ).1);
        let accent: Sources = colors(
            &mut notices,
            "accentColor",
            match setting(root, "accentColor") {
                Some(value) => value,
                None => &none,
            },
        );
        let background: Sources = colors(
            &mut notices,
            "backgroundColor",
            match setting(root, "backgroundColor") {
                Some(value) => value,
                None => &none,
            },
        );
        let text: Sources = colors(
            &mut notices,
            "textColor",
            match setting(root, "textColor") {
                Some(value) => value,
                None => &none,
            },
        );
        ThemeConfig { font, font_size, accent, background, text, notices }
    }

    /// What is to be said since it was last asked.
    pub fn take_notices(&mut self) -> (r: Vec<ThemeNotice>)
        ensures
            notice_views(r@) == old(self)@.notices,
            final(self)@ == (ThemeConfigView { notices: Seq::empty(), ..old(self)@ }),
    {
        let mut taken: Vec<ThemeNotice> = Vec::new();
        std::mem::swap(&mut taken, &mut self.notices);
        assert(notice_views(self.notices@) =~= Seq::<ThemeNoticeView>::empty());
        taken
    }

    /// The accent colour; `system` is the system's, or why it cannot be read, which
    /// is then said.
    pub fn accent(&mut self, dark: bool, original: Color, system: Result<Color, String>) -> (r:
        Color)
        ensures
            r == (match source_for(old(self).accent, dark) {
                Some(Source::Fixed(color)) => color,
                Some(Source::System) => match system {
                    Ok(color) => color,
                    Err(_) => original,
                },
                None => original,
            }),
            final(self)@ == (match (source_for(old(self).accent, dark), system) {
                (Some(Source::System), Err(error)) => ThemeConfigView {
                    notices: old(self)@.notices.push(
                        fallback_notice(
                            "accentColor"@,
                            Json::Text("system"@),
                            "DWM AccentColor unavailable: "@ + error@
                                + "; using previous palette default"@,
                        ),
                    ),
                    ..old(self)@
                },
                _ => old(self)@,
            }),
    {
        match self.accent.of(dark) {
            Some(Source::Fixed(color)) => color,
            Some(Source::System) => match system {
                Ok(color) => color,
                Err(error) => {
                    fallback(
                        &mut self.notices,
                        "accentColor",
                        &text_value("system"),
                        &join3(
                            "DWM AccentColor unavailable: ",
                            &error,
                            "; using previous palette default",
                        ),
                    );
                    original
                },
            },
            None => original,
        }
    }

    /// The colour of texts.
    pub fn foreground(&self, dark: bool, original: Color) -> (r: Color)
        ensures
            r == (match source_for(self.text, dark) {
                Some(Source::Fixed(color)) => color,
                _ => original,
            }),
    {
        match self.text.of(dark) {
            Some(Source::Fixed(color)) => color,
            _ => original,
        }
    }

    /// The colour of the background, where it is not the strip's own.
    pub fn background(&self, dark: bool) -> (r: Option<Color>)
        ensures
            r == (match source_for(self.background, dark) {
                Some(Source::Fixed(color)) => Some(color),
                _ => None,
            }),
    {
        match self.background.of(dark) {
            Some(Source::Fixed(color)) => Some(color),
            _ => None,
        }
    }
}

/// The source of a colour for a look.
pub open spec fn source_for(sources: Sources, dark: bool) -> Option<Source> {
    if dark {
        sources.dark
    } else {
        sources.light
    }
}

impl Sources {
    /// The source of a colour for a look.
    pub fn of(&self, dark: bool) -> (r: Option<Source>)
        ensures
            r == source_for(*self, dark),
    {
        if dark {
            self.dark
        } else {
            self.light
        }
    }
}

/// What a setting gives for one look does not depend on what it gives for the other.
pub proof fn law_looks_fall_back_independently(a: Json, b: Json)
    requires
        a is Object,
        b is Object,
    ensures
        member_or_null(a, "dark"@) == member_or_null(b, "dark"@) ==> sources_of(a).dark
            == sources_of(b).dark,
        member_or_null(a, "light"@) == member_or_null(b, "light"@) ==> sources_of(a).light
            == sources_of(b).light,
{
}

/// Something is said of the strip's settings exactly where one of them is wrong.
pub proof fn law_right_settings_are_not_mentioned(
    root: Json,
    lookup: FontLookup,
    fraction_valid: bool,
)
    ensures
        ({
            let config = config_of(root, lookup, fraction_valid);
            config.notices.len() == 0 <==> size_of(
                setting_of(root, "fontSize"@),
                fraction_valid,
            ) is Some && lookup is Found && font_of(
                setting_of(root, "font"@),
            ) is Some && config.accent.light is Some && config.accent.dark is Some
                && config.background.light is Some && config.background.dark is Some
                && config.text.light is Some && config.text.dark is Some
        }),
{
}

/// Of a size that is a text or a whole number, and of a value that is no size at all,
/// nothing has to be known beforehand: a text is a size where it is a name of one, and
/// a whole number where it is one from 1 to 256.
pub proof fn law_only_fractions_are_left_open(value: Json, fraction_valid: bool)
    requires
        !is_fraction(value),
    ensures
        size_of(value, fraction_valid) == size_of(value, true),
        size_of(value, fraction_valid) is Some <==> (value matches Json::Text(name)
            && size_named(name) is Some) || (value matches Json::Number { unsigned: Some(n), .. }
            && 1 <= n <= 256),
        size_of(value, fraction_valid) matches Some(size) ==> (size matches FontSize::Whole(n)
            && 1 <= n <= 256),
{
}

/// A hash before a colour changes nothing.
pub proof fn law_hash_is_optional(hex: Seq<char>)
    requires
        hex.len() > 0 ==> hex[0] != '#',
    ensures
        color_of(seq!['#'] + hex) == color_of(hex),
{
    assert((seq!['#'] + hex).skip(1) =~= hex);
}

} // verus!
