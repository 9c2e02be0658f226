//! What becomes of settings that cannot be used, and what an application has of them.
#[allow(unused_imports)]
use super::{
    accepted, app_bool_of, bool_of, checked_members, complete_defaults, defaulted,
    executable_name, has_kind, normalized, packaged, Checked,
};
#[allow(unused_imports)]
use crate::json::{json_member, json_with, kind_of, law_inserted_member, Json, JsonKind};
use vstd::prelude::*;

verus! {

/// A member that has its kind stays, and one that has not is the default's; the others are
/// not touched.
proof fn lemma_member(
    checked: Checked,
    defaults: Json,
    name: Seq<char>,
    kind: JsonKind,
    other: Seq<char>,
)
    requires
        checked.settings is Object,
        json_member(defaults, name) is Some,
    ensures
        ({
            let next = defaulted(checked, defaults, name, kind);
            &&& next.settings is Object
            &&& json_member(next.settings, name) == (if has_kind(checked.settings, name, kind) {
                json_member(checked.settings, name)
            } else {
                json_member(defaults, name)
            })
            &&& other != name ==> json_member(next.settings, other) == json_member(
                checked.settings,
                other,
            )
            &&& next.warnings.len() == checked.warnings.len() + (if has_kind(
                checked.settings,
                name,
                kind,
            ) {
                0int
            } else {
                1int
            })
        }),
{
    law_inserted_member(
        checked.settings->Object_0,
        name,
        json_member(defaults, name)->0,
        other,
    );
}

/// What a setting becomes: itself where it is of its kind, else the default's.
pub open spec fn kept_or_default(
    settings: Json,
    defaults: Json,
    name: Seq<char>,
    kind: JsonKind,
) -> Option<Json> {
    match json_member(settings, name) {
        Some(value) => if kind_of(value) == kind {
            Some(value)
        } else {
            json_member(defaults, name)
        },
        None => json_member(defaults, name),
    }
}

/// Each setting that the server reads is kept where it is of its kind, and is else the
/// default's; a setting that the server does not read is kept in any case.
pub proof fn law_wrong_settings_become_the_defaults(
    settings: Json,
    defaults: Json,
    other: Seq<char>,
)
    requires
        settings is Object,
        complete_defaults(defaults),
        other != "theme"@ && other != "inline_preedit"@ && other != "global_ascii_status"@ && other
            != "ascii_mode"@ && other != "allow_rime_in_secure_fields"@ && other != "app_options"@,
    ensures
        ({
            let result = normalized(settings, defaults).settings;
            &&& json_member(result, "theme"@) == kept_or_default(
                settings,
                defaults,
                "theme"@,
                JsonKind::Text,
            )
            &&& json_member(result, "inline_preedit"@) == kept_or_default(
                settings,
                defaults,
                "inline_preedit"@,
                JsonKind::Bool,
            )
            &&& json_member(result, "global_ascii_status"@) == kept_or_default(
                settings,
                defaults,
                "global_ascii_status"@,
                JsonKind::Bool,
            )
            &&& json_member(result, "ascii_mode"@) == kept_or_default(
                settings,
                defaults,
                "ascii_mode"@,
                JsonKind::Bool,
            )
            &&& json_member(result, "allow_rime_in_secure_fields"@) == kept_or_default(
                settings,
                defaults,
                "allow_rime_in_secure_fields"@,
                JsonKind::Bool,
            )
            &&& json_member(result, other) == json_member(settings, other)
            &&& !has_kind(settings, "app_options"@, JsonKind::Object) ==> json_member(
                result,
                "app_options"@,
            ) == json_member(defaults, "app_options"@)
        }),
{
    let names = seq![
        "theme"@,
        "inline_preedit"@,
        "global_ascii_status"@,
        "ascii_mode"@,
        "allow_rime_in_secure_fields"@,
        "app_options"@,
        other,
    ];
    lemma_lengths();
    let start = Checked { settings, warnings: Seq::empty() };
    let theme = defaulted(start, defaults, "theme"@, JsonKind::Text);
    let inline = defaulted(theme, defaults, "inline_preedit"@, JsonKind::Bool);
    let shared = defaulted(inline, defaults, "global_ascii_status"@, JsonKind::Bool);
    let ascii = defaulted(shared, defaults, "ascii_mode"@, JsonKind::Bool);
    let all = defaulted(ascii, defaults, "allow_rime_in_secure_fields"@, JsonKind::Bool);
    assert(all == checked_members(settings, defaults));
    lemma_others(start, defaults, "theme"@, JsonKind::Text, names);
    lemma_others(theme, defaults, "inline_preedit"@, JsonKind::Bool, names);
    lemma_others(inline, defaults, "global_ascii_status"@, JsonKind::Bool, names);
    lemma_others(shared, defaults, "ascii_mode"@, JsonKind::Bool, names);
    lemma_others(ascii, defaults, "allow_rime_in_secure_fields"@, JsonKind::Bool, names);
    assert forall|i: int, value: Json| 0 <= i < 7 implies (i != 5 ==> json_member(
        #[trigger] json_with(all.settings, "app_options"@, value),
        #[trigger] names[i],
    ) == json_member(all.settings, names[i])) && json_member(
        json_with(all.settings, "app_options"@, value),
        "app_options"@,
    ) == Some(value) by {
        law_inserted_member(all.settings->Object_0, "app_options"@, value, names[i]);
    }
    assert(names[0] == "theme"@ && names[1] == "inline_preedit"@ && names[2]
        == "global_ascii_status"@ && names[3] == "ascii_mode"@ && names[4]
        == "allow_rime_in_secure_fields"@ && names[5] == "app_options"@ && names[6] == other);
}

/// A setting that is put right leaves all others of a list as they are.
proof fn lemma_others(
    checked: Checked,
    defaults: Json,
    name: Seq<char>,
    kind: JsonKind,
    names: Seq<Seq<char>>,
)
    requires
        checked.settings is Object,
        json_member(defaults, name) is Some,
    ensures
        ({
            let next = defaulted(checked, defaults, name, kind);
            &&& next.settings is Object
            &&& json_member(next.settings, name) == kept_or_default(
                checked.settings,
                defaults,
                name,
                kind,
            )
            &&& forall|i: int|
                0 <= i < names.len() && names[i] != name ==> json_member(
                    next.settings,
                    #[trigger] names[i],
                ) == json_member(checked.settings, names[i])
        }),
{
    lemma_member(checked, defaults, name, kind, name);
    assert forall|i: int| 0 <= i < names.len() && names[i] != name implies json_member(
        defaulted(checked, defaults, name, kind).settings,
        #[trigger] names[i],
    ) == json_member(checked.settings, names[i]) by {
        lemma_member(checked, defaults, name, kind, names[i]);
    }
}

/// The names of the settings are told apart by their lengths and first characters.
proof fn lemma_lengths()
    ensures
        "theme"@.len() == 5,
        "inline_preedit"@.len() == 14,
        "global_ascii_status"@.len() == 19,
        "ascii_mode"@.len() == 10,
        "allow_rime_in_secure_fields"@.len() == 27,
        "app_options"@.len() == 11,
{
    reveal_strlit("theme");
    reveal_strlit("inline_preedit");
    reveal_strlit("global_ascii_status");
    reveal_strlit("ascii_mode");
    reveal_strlit("allow_rime_in_secure_fields");
    reveal_strlit("app_options");
}

/// An application's own option comes before what holds for all; without one that is true or
/// false, and for every other application, the latter holds.
pub proof fn law_own_option_comes_first(
    settings: Json,
    apps: Json,
    app: Seq<char>,
    options: Json,
    name: Seq<char>,
    own: bool,
)
    requires
        json_member(settings, "app_options"@) == Some(apps),
    ensures
        json_member(apps, app) == Some(options) && json_member(options, name) == Some(
            Json::Bool(own),
        ) ==> app_bool_of(settings, app, name) == Some(own),
        json_member(apps, app) == Some(options) && bool_of(options, name) is None ==> app_bool_of(
            settings,
            app,
            name,
        ) == bool_of(settings, name),
        json_member(apps, app) is None ==> app_bool_of(settings, app, name) == bool_of(
            settings,
            name,
        ),
{
}

/// Only a value that is true or false counts as such.
pub proof fn law_only_booleans_count(settings: Json, name: Seq<char>, b: bool)
    ensures
        json_member(settings, name) == Some(Json::Bool(b)) ==> bool_of(settings, name) == Some(b),
        !has_kind(settings, name, JsonKind::Bool) ==> bool_of(settings, name) is None,
{
}

/// An executable is named without a path, and by something.
pub proof fn law_executables_have_no_path(a: Seq<char>, b: Seq<char>)
    ensures
        !executable_name(Seq::empty()),
        a.contains('/') || a.contains('\\') ==> !executable_name(a),
        executable_name(a) && executable_name(b) ==> executable_name(a + b),
        a.len() > 0 && !a.contains('/') && !a.contains('\\') ==> executable_name(a),
{
    assert forall|i: int| 0 <= i < a.len() && !a.contains('/') && !a.contains('\\') implies
        #[trigger] a[i] != '/' && a[i] != '\\' by {
        assert(a.contains(a[i]));
    }
}

/// Settings that could be read and are an object are taken and put right; all others are
/// refused.
pub proof fn law_objects_are_accepted(parsed: Result<Json, Seq<char>>, defaults: Json)
    ensures
        accepted(parsed, defaults) is Ok <==> parsed is Ok && parsed->Ok_0 is Object,
        parsed is Ok && parsed->Ok_0 is Object ==> accepted(parsed, defaults)->Ok_0 == normalized(
            parsed->Ok_0,
            defaults,
        ),
        packaged(parsed) is Ok <==> parsed is Ok && complete_defaults(parsed->Ok_0),
        packaged(parsed) is Ok ==> packaged(parsed) == parsed,
{
}

} // verus!
