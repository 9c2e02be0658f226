//! Which colours, sizes and fonts the settings give, and what a view makes of the window.
#[allow(unused_imports)]
use super::config::{
    all_hex, chosen_font, chosen_size, color_of, config_of, font_of, hex_byte, hex_digit,
    setting_of, size_named, size_of, source_for, source_of, sources_notices, sources_of, FontLookup, FontSize,
    Source, Sources,
};
#[allow(unused_imports)]
use super::window::{has_control, plan_of, ViewPlan};
#[allow(unused_imports)]
use crate::json::{json_member, Json};
#[allow(unused_imports)]
use crate::text::{blank, byte_len, has_nul};
#[allow(unused_imports)]
use crate::theme::{Color, OsVersion};
#[allow(unused_imports)]
use crate::theme_api::{same_view_content, CandidateViewView};
use vstd::prelude::*;

verus! {

/// Every hexadecimal digit has its own value below sixteen, but for the two ways to write a
/// letter; the ten digits have theirs.
pub proof fn law_digits_have_their_values(c: char)
    ensures
        hex_digit(c) matches Some(n) ==> 0 <= n < 16,
        '0' <= c <= '9' ==> hex_digit(c) == Some(c as int - '0' as int),
        'a' <= c <= 'f' ==> hex_digit(c) == Some(10 + (c as int - 'a' as int)),
        'A' <= c <= 'F' ==> hex_digit(c) == Some(10 + (c as int - 'A' as int)),
        hex_digit(c) is Some <==> '0' <= c <= '9' || 'a' <= c <= 'f' || 'A' <= c <= 'F',
{
}

/// Eight digits write opacity, red, green and blue, in this order, two digits each with the
/// higher one first.
pub proof fn law_digits_write_a_colour(a: Seq<char>, r: Seq<char>, g: Seq<char>, b: Seq<char>)
    requires
        a.len() == 2 && r.len() == 2 && g.len() == 2 && b.len() == 2,
        all_hex(a) && all_hex(r) && all_hex(g) && all_hex(b),
    ensures
        ({
            let color = color_of(a + r + g + b);
            &&& color is Some
            &&& color->0.a == 16 * hex_digit(a[0])->0 + hex_digit(a[1])->0
            &&& color->0.r == 16 * hex_digit(r[0])->0 + hex_digit(r[1])->0
            &&& color->0.g == 16 * hex_digit(g[0])->0 + hex_digit(g[1])->0
            &&& color->0.b == 16 * hex_digit(b[0])->0 + hex_digit(b[1])->0
        }),
        ({
            let color = color_of(r + g + b);
            &&& color is Some
            &&& color->0.a == 255
            &&& color->0.r == 16 * hex_digit(r[0])->0 + hex_digit(r[1])->0
            &&& color->0.g == 16 * hex_digit(g[0])->0 + hex_digit(g[1])->0
            &&& color->0.b == 16 * hex_digit(b[0])->0 + hex_digit(b[1])->0
        }),
{
    let long = a + r + g + b;
    let short = r + g + b;
    assert(hex_digit('#') is None);
    assert(hex_digit(a[0]) is Some && hex_digit(a[1]) is Some);
    assert(hex_digit(r[0]) is Some && hex_digit(r[1]) is Some);
    assert(hex_digit(g[0]) is Some && hex_digit(g[1]) is Some);
    assert(hex_digit(b[0]) is Some && hex_digit(b[1]) is Some);
    assert(long[0] == a[0] && long[1] == a[1] && long[2] == r[0] && long[3] == r[1] && long[4]
        == g[0] && long[5] == g[1] && long[6] == b[0] && long[7] == b[1]);
    assert(short[0] == r[0] && short[1] == r[1] && short[2] == g[0] && short[3] == g[1] && short[4]
        == b[0] && short[5] == b[1]);
    assert(all_hex(long));
    assert(all_hex(short));
}

/// A text of another length, or with a character that is no digit, writes no colour.
pub proof fn law_other_texts_write_no_colour(text: Seq<char>, i: int)
    requires
        text.len() == 0 || text[0] != '#',
    ensures
        text.len() != 6 && text.len() != 8 ==> color_of(text) is None,
        0 <= i < text.len() && hex_digit(text[i]) is None ==> color_of(text) is None,
{
}

/// A setting gives the system's colour by its name, or a fixed one by its digits; a value
/// that is no text gives none.
pub proof fn law_settings_give_colours(text: Seq<char>, value: Json)
    ensures
        source_of(Json::Text("system"@)) == Some(Source::System),
        text != "system"@ && color_of(text) is Some ==> source_of(Json::Text(text)) == Some(
            Source::Fixed(color_of(text)->0),
        ),
        text != "system"@ && color_of(text) is None ==> source_of(Json::Text(text)) is None,
        !(value is Text) ==> source_of(value) is None,
{
}

/// A setting that is no object gives both looks the same; one that is gives each look its
/// own member.
pub proof fn law_looks_have_their_own_colours(value: Json, light: Json, dark: Json)
    ensures
        !(value is Object) ==> sources_of(value).light == source_of(value) && sources_of(
            value,
        ).dark == source_of(value),
        value is Object && json_member(value, "light"@) == Some(light) ==> sources_of(value).light
            == source_of(light),
        value is Object && json_member(value, "dark"@) == Some(dark) ==> sources_of(value).dark
            == source_of(dark),
        value is Object && json_member(value, "dark"@) is None ==> sources_of(value).dark is None,
        value is Object && json_member(value, "light"@) is None ==> sources_of(value).light is None,
        source_for(sources_of(value), true) == sources_of(value).dark,
        source_for(sources_of(value), false) == sources_of(value).light,
{
}

/// A font that the settings name and the system has is used; else the usual one is, and that
/// is said once.
pub proof fn law_named_font_is_used(name: Seq<char>, lookup: FontLookup, value: Json)
    requires
        !blank(name),
        byte_len(name) <= 256,
        !has_nul(name),
    ensures
        chosen_font(Json::Text(name), FontLookup::Found).0 == name,
        chosen_font(Json::Text(name), FontLookup::Found).1.len() == 0,
        !(lookup is Found) ==> chosen_font(Json::Text(name), lookup).0 == "Microsoft YaHei UI"@
            && chosen_font(Json::Text(name), lookup).1.len() == 1,
        !(value is Text) ==> chosen_font(value, lookup).0 == "Microsoft YaHei UI"@ && chosen_font(
            value,
            lookup,
        ).1.len() == 1,
{
}

/// A whole size from 1 to 256 is used as it is, and the four names stand for sizes that
/// grow; a size that cannot be used is replaced by 14, which is said once.
pub proof fn law_given_size_is_used(n: u64, signed: Option<i64>, text: Seq<char>, fraction: bool)
    ensures
        1 <= n <= 256 ==> chosen_size(
            Json::Number { text, unsigned: Some(n), signed },
            fraction,
        ).0 == FontSize::Whole(n as u32),
        1 <= n <= 256 ==> chosen_size(
            Json::Number { text, unsigned: Some(n), signed },
            fraction,
        ).1.len() == 0,
        n == 0 || n > 256 ==> chosen_size(
            Json::Number { text, unsigned: Some(n), signed },
            fraction,
        ).0 == FontSize::Whole(14) && chosen_size(
            Json::Number { text, unsigned: Some(n), signed },
            fraction,
        ).1.len() == 1,
{
}

/// Each setting of the strip is read from the member of its own name and from no other: two
/// settings that agree on it give the same.
pub proof fn law_settings_do_not_mix(a: Json, b: Json, lookup: FontLookup, fraction: bool)
    ensures
        ({
            let x = config_of(a, lookup, fraction);
            let y = config_of(b, lookup, fraction);
            &&& setting_of(a, "font"@) == setting_of(b, "font"@) ==> x.font == y.font
            &&& setting_of(a, "fontSize"@) == setting_of(b, "fontSize"@) ==> x.font_size
                == y.font_size
            &&& setting_of(a, "accentColor"@) == setting_of(b, "accentColor"@) ==> x.accent
                == y.accent && x.accent == sources_of(setting_of(a, "accentColor"@))
            &&& setting_of(a, "backgroundColor"@) == setting_of(b, "backgroundColor"@)
                ==> x.background == y.background && x.background == sources_of(
                setting_of(a, "backgroundColor"@),
            )
            &&& setting_of(a, "textColor"@) == setting_of(b, "textColor"@) ==> x.text == y.text
                && x.text == sources_of(setting_of(a, "textColor"@))
        }),
{
}

/// A setting of the strip lies among those of its theme, under its own name.
pub proof fn law_setting_lies_under_its_name(
    root: Json,
    themes: Json,
    own: Json,
    name: Seq<char>,
    value: Json,
)
    requires
        json_member(root, "themeSettings"@) == Some(themes),
        json_member(themes, "eleven"@) == Some(own),
        json_member(own, name) == Some(value),
    ensures
        setting_of(root, name) == value,
{
}

/// Whether a view is to be seen: it asks for it, has candidates, and a valid place.
pub open spec fn to_be_seen(view: CandidateViewView) -> bool {
    view.visible && view.items.len() > 0 && view.anchor is Some && view.anchor->0.valid
}

/// A view that is to be seen is shown at its own place, laid out anew unless its content is
/// shown already; one that is not to be seen conceals the window.
pub proof fn law_view_is_shown_at_its_place(last: Option<CandidateViewView>, view: CandidateViewView)
    ensures
        !to_be_seen(view) ==> plan_of(last, view) is Conceal,
        to_be_seen(view) && (last is None || !same_view_content(last->0, view)) ==> plan_of(
            last,
            view,
        ) == ViewPlan::Rebuild(view.anchor->0),
        to_be_seen(view) && last is Some && same_view_content(last->0, view) ==> plan_of(
            last,
            view,
        ) == ViewPlan::Move(view.anchor->0),
{
}

/// The control is there from build 18362 of ten on, and in every later version.
pub proof fn law_control_came_with_a_build(version: OsVersion)
    ensures
        version.major == 10 && version.minor == 0 && version.pack == 0 ==> has_control(version)
            == (version.build >= 18362),
        version.major > 10 ==> has_control(version),
        version.major < 10 ==> !has_control(version),
{
}

/// The four names of sizes stand for sizes that grow from one to the next, and no other text
/// is a size.
pub proof fn law_names_stand_for_sizes(name: Seq<char>)
    ensures
        size_named("small"@) == Some(14u32),
        size_named("medium"@) == Some(18u32),
        size_named("large"@) == Some(22u32),
        size_named("extraLarge"@) == Some(28u32),
        size_named(name) is Some ==> name == "small"@ || name == "medium"@ || name == "large"@
            || name == "extraLarge"@,
{
    reveal_strlit("small");
    reveal_strlit("medium");
    reveal_strlit("large");
    reveal_strlit("extraLarge");
    assert("small"@.len() == 5 && "medium"@.len() == 6 && "large"@.len() == 5
        && "extraLarge"@.len() == 10);
    assert("small"@[0] == 's');
    assert("large"@[0] == 'l');
}

/// A name of a font that is blank, too long or cut short by a NUL is not used.
pub proof fn law_unusable_names_are_no_fonts(name: Seq<char>)
    ensures
        blank(name) || byte_len(name) > 256 || has_nul(name) ==> font_of(Json::Text(name)) is None,
        !blank(name) && byte_len(name) <= 256 && !has_nul(name) ==> font_of(Json::Text(name))
            == Some(name),
{
}

/// What is wrong with a colour is said once for each look that it is wrong for, and nothing
/// is said of what is right.
pub proof fn law_wrong_colours_are_said_once(field: Seq<char>, value: Json)
    ensures
        !(value is Object) ==> sources_notices(field, value).len() == (if source_of(value) is Some {
            0int
        } else {
            1int
        }),
        value is Object ==> sources_notices(field, value).len() == (if sources_of(
            value,
        ).light is Some {
            0int
        } else {
            1int
        }) + (if sources_of(value).dark is Some {
            0int
        } else {
            1int
        }),
{
}

} // verus!
