//! The server's settings: what is unusable in them is replaced by the defaults, and
//! reported.
use crate::json::{
    as_bool, as_str, copy, get, insert, kind, names, parse_text, remove, JsonKind,
};
#[allow(unused_imports)]
use crate::json::{
    in_name_order, json_member, json_of_text, json_tree, json_with, json_without, kind_of,
    law_inserted_member, law_removed_member, lemma_inserted_in_order, lemma_member_at,
    lemma_member_named, lemma_same_member, names_of, read_view, texts, Json,
};
use crate::notifications::{UserNotification, UserNotificationSeverity};
#[allow(unused_imports)]
use crate::notifications::UserNotificationView;
use crate::text::{join2, join3, join_all};
#[allow(unused_imports)]
use crate::text::joined;
use vstd::prelude::*;

pub mod laws;

verus! {

/// Settings, and what was wrong with them.
#[verifier::ext_equal]
pub ghost struct Checked {
    pub settings: Json,
    pub warnings: Seq<Seq<char>>,
}

/// Whether settings have a member of a kind.
pub open spec fn has_kind(settings: Json, name: Seq<char>, kind: JsonKind) -> bool {
    json_member(settings, name) matches Some(item) && kind_of(item) == kind
}

/// Settings with the default in place of a member that is not of its kind.
pub open spec fn defaulted(
    checked: Checked,
    defaults: Json,
    name: Seq<char>,
    kind: JsonKind,
) -> Checked {
    if has_kind(checked.settings, name, kind) {
        checked
    } else {
        Checked {
            settings: json_with(checked.settings, name, json_member(defaults, name)->0),
            warnings: checked.warnings.push(name + " has an invalid type"@),
        }
    }
}

/// Whether a text can be the name of an executable: not empty, and without
/// separators.
pub open spec fn executable_name(name: Seq<char>) -> bool {
    name.len() > 0 && forall|i: int|
        0 <= i < name.len() ==> #[trigger] name[i] != '/' && name[i] != '\\'
}

/// An application's options, without an option that is no boolean: the application
/// then has what holds for all.
pub open spec fn checked_option(checked: Checked, app: Seq<char>, option: Seq<char>) -> Checked {
    if json_member(checked.settings, option) is None || has_kind(
        checked.settings,
        option,
        JsonKind::Bool,
    ) {
        checked
    } else {
        Checked {
            settings: json_without(checked.settings, option),
            warnings: checked.warnings.push(
                "app_options."@ + app + "."@ + option + " must be a boolean"@,
            ),
        }
    }
}

/// The applications' options, with those of one application checked.
pub open spec fn checked_app(checked: Checked, default_apps: Json, app: Seq<char>) -> Checked {
    let apps = checked.settings;
    if !executable_name(app) || !has_kind(apps, app, JsonKind::Object) {
        Checked {
            settings: match json_member(default_apps, app) {
                Some(default) => json_with(apps, app, default),
                None => json_without(apps, app),
            },
            warnings: checked.warnings.push(
                "app_options."@ + app + " must be an executable basename object"@,
            ),
        }
    } else {
        let options = Checked {
            settings: json_member(apps, app)->0,
            warnings: checked.warnings,
        };
        let first = checked_option(options, app, "ascii_mode"@);
        let both = checked_option(first, app, "inline_preedit"@);
        Checked { settings: json_with(apps, app, both.settings), warnings: both.warnings }
    }
}

/// The applications' options, with those of the first applications checked.
pub open spec fn checked_apps(
    checked: Checked,
    default_apps: Json,
    apps: Seq<Seq<char>>,
) -> Checked
    decreases apps.len(),
{
    if apps.len() == 0 {
        checked
    } else {
        checked_app(
            checked_apps(checked, default_apps, apps.drop_last()),
            default_apps,
            apps.last(),
        )
    }
}

/// The members of the settings that are checked by their kind alone.
pub open spec fn checked_members(settings: Json, defaults: Json) -> Checked {
    let start = Checked { settings, warnings: Seq::empty() };
    let theme = defaulted(start, defaults, "theme"@, JsonKind::Text);
    let inline = defaulted(theme, defaults, "inline_preedit"@, JsonKind::Bool);
    let shared = defaulted(inline, defaults, "global_ascii_status"@, JsonKind::Bool);
    let ascii = defaulted(shared, defaults, "ascii_mode"@, JsonKind::Bool);
    defaulted(ascii, defaults, "allow_rime_in_secure_fields"@, JsonKind::Bool)
}

/// Settings that can be used, and what was wrong with those that were given.
pub open spec fn normalized(settings: Json, defaults: Json) -> Checked {
    let members = checked_members(settings, defaults);
    if !has_kind(members.settings, "app_options"@, JsonKind::Object) {
        Checked {
            settings: json_with(
                members.settings,
                "app_options"@,
                json_member(defaults, "app_options"@)->0,
            ),
            warnings: members.warnings.push("app_options must be an object"@),
        }
    } else {
        let apps = json_member(members.settings, "app_options"@)->0;
        let checked = checked_apps(
            Checked { settings: apps, warnings: members.warnings },
            json_member(defaults, "app_options"@)->0,
            names_of(apps->Object_0),
        );
        Checked {
            settings: json_with(members.settings, "app_options"@, checked.settings),
            warnings: checked.warnings,
        }
    }
}

/// Whether defaults have all that can be missing.
pub open spec fn complete_defaults(defaults: Json) -> bool {
    &&& json_member(defaults, "theme"@) is Some
    &&& json_member(defaults, "inline_preedit"@) is Some
    &&& json_member(defaults, "global_ascii_status"@) is Some
    &&& json_member(defaults, "ascii_mode"@) is Some
    &&& json_member(defaults, "allow_rime_in_secure_fields"@) is Some
    &&& has_kind(defaults, "app_options"@, JsonKind::Object)
}

/// Whether defaults have all that can be missing.
pub fn has_complete_defaults(defaults: &serde_json::Value) -> (r: bool)
    ensures
        r == complete_defaults(json_tree(*defaults)),
{
    get(defaults, "theme").is_some() && get(defaults, "inline_preedit").is_some() && get(
        defaults,
        "global_ascii_status",
    ).is_some() && get(defaults, "ascii_mode").is_some() && get(
        defaults,
        "allow_rime_in_secure_fields",
    ).is_some() && is_kind(defaults, "app_options", JsonKind::Object)
}

/// What comes of reading the settings that the program comes with.
pub open spec fn packaged(read: Result<Json, Seq<char>>) -> Result<Json, Seq<char>> {
    match read {
        Ok(defaults) => if complete_defaults(defaults) {
            Ok(defaults)
        } else {
            Err("embedded settings are incomplete"@)
        },
        Err(error) => Err(error),
    }
}

/// Takes the settings that the program comes with, read or not.
pub fn accept_defaults(read: Result<serde_json::Value, String>) -> (r: Result<
    serde_json::Value,
    String,
>)
    ensures
        read_view(r) == packaged(read_view(read)),
{
    match read {
        Ok(defaults) => if has_complete_defaults(&defaults) {
            Ok(defaults)
        } else {
            Err("embedded settings are incomplete".to_owned())
        },
        Err(error) => Err(error),
    }
}

/// Reads the settings that the program comes with.
pub fn packaged_defaults(text: &str) -> (r: Result<serde_json::Value, String>)
    ensures
        read_view(r) == packaged(json_of_text(text@)),
{
    accept_defaults(parse_text(text))
}

/// What settings and warnings hold.
pub open spec fn checked_view(settings: serde_json::Value, warnings: Seq<String>) -> Checked {
    Checked { settings: json_tree(settings), warnings: texts(warnings) }
}

/// One more text.
fn push_text(list: &mut Vec<String>, text: String)
    ensures
        texts(final(list)@) == texts(old(list)@).push(text@),
{
    let ghost before = texts(list@);
    list.push(text);
    assert(texts(list@) =~= before.push(text@));
}

/// Whether settings have a member of a kind.
pub fn is_kind(settings: &serde_json::Value, name: &str, expected: JsonKind) -> (r: bool)
    ensures
        r == has_kind(json_tree(*settings), name@, expected),
{
    match get(settings, name) {
        Some(item) => kind(item) == expected,
        None => false,
    }
}

/// A setting that is true or false.
pub open spec fn bool_of(settings: Json, name: Seq<char>) -> Option<bool> {
    match json_member(settings, name) {
        Some(Json::Bool(b)) => Some(b),
        _ => None,
    }
}

/// A setting that is true or false, where it is either.
pub fn bool_setting(settings: &serde_json::Value, name: &str) -> (r: Option<bool>)
    ensures
        r == bool_of(json_tree(*settings), name@),
{
    match get(settings, name) {
        Some(item) => as_bool(item),
        None => None,
    }
}

/// A setting that is true or false, or what is used in its place.
pub fn bool_setting_or(settings: &serde_json::Value, name: &str, fallback: bool) -> (r: bool)
    ensures
        r == (match bool_of(json_tree(*settings), name@) {
            Some(b) => b,
            None => fallback,
        }),
{
    match bool_setting(settings, name) {
        Some(b) => b,
        None => fallback,
    }
}

/// What an application has of a setting that is true or false: its own option where
/// that is either, else what holds for all.
pub open spec fn app_bool_of(settings: Json, executable: Seq<char>, name: Seq<char>) -> Option<
    bool,
> {
    let own = match json_member(settings, "app_options"@) {
        Some(apps) => match json_member(apps, executable) {
            Some(options) => bool_of(options, name),
            None => None,
        },
        None => None,
    };
    if own is Some {
        own
    } else {
        bool_of(settings, name)
    }
}

/// A setting that is true or false, as an application has it.
pub fn app_bool(settings: &serde_json::Value, executable: &str, name: &str) -> (r: Option<bool>)
    ensures
        r == app_bool_of(json_tree(*settings), executable@, name@),
{
    if let Some(apps) = get(settings, "app_options") {
        if let Some(options) = get(apps, executable) {
            let own: Option<bool> = bool_setting(options, name);
            if own.is_some() {
                return own;
            }
        }
    }
    bool_setting(settings, name)
}

/// A setting that is a text, where it is one.
pub fn text_setting<'a>(settings: &'a serde_json::Value, name: &str) -> (r: Option<&'a str>)
    ensures
        match r {
            Some(text) => json_member(json_tree(*settings), name@) == Some(Json::Text(text@)),
            None => !(json_member(json_tree(*settings), name@) matches Some(Json::Text(_))),
        },
{
    match get(settings, name) {
        Some(item) => as_str(item),
        None => None,
    }
}

/// Puts the default in place of a member that is not of its kind.
fn check_member(
    root: &mut serde_json::Value,
    warnings: &mut Vec<String>,
    defaults: &serde_json::Value,
    name: &str,
    expected: JsonKind,
)
    requires
        json_tree(*old(root)) is Object,
        json_member(json_tree(*defaults), name@) is Some,
    ensures
        json_tree(*final(root)) is Object,
        checked_view(*final(root), final(warnings)@) == defaulted(
            checked_view(*old(root), old(warnings)@),
            json_tree(*defaults),
            name@,
            expected,
        ),
{
    if !is_kind(root, name, expected) {
        if let Some(default) = get(defaults, name) {
            insert(root, name, copy(default));
        }
        push_text(warnings, join2(name, " has an invalid type"));
    }
}

/// Whether a text can be the name of an executable.
fn is_executable_name(name: &str) -> (r: bool)
    ensures
        r == executable_name(name@),
{
    let mut any: bool = false;
    let mut separated: bool = false;
    for c in it: name.chars()
        invariant
            it.seq() == name@,
            any == (it.index() > 0),
            separated == exists|i: int|
                0 <= i < it.index() && (#[trigger] name@[i] == '/' || name@[i] == '\\'),
    {
        let ghost k = it.index();
        assert(c == name@[k as int]);
        any = true;
        if c == '/' || c == '\\' {
            assert(name@[k as int] == c);
            separated = true;
        }
    }
    any && !separated
}

/// Checks one option of an application.
fn check_option(
    options: &mut serde_json::Value,
    warnings: &mut Vec<String>,
    app: &str,
    option: &str,
)
    requires
        json_tree(*old(options)) is Object,
    ensures
        json_tree(*final(options)) is Object,
        checked_view(*final(options), final(warnings)@) == checked_option(
            checked_view(*old(options), old(warnings)@),
            app@,
            option@,
        ),
{
    let valid: bool = match get(options, option) {
        Some(value) => kind(value) == JsonKind::Bool,
        None => true,
    };
    if valid {
        return;
    }
    remove(options, option);
    let named: String = join3("app_options.", app, ".");
    push_text(warnings, join3(&named, option, " must be a boolean"));
}

/// Checks the options of one application.
fn check_app(
    apps: &mut serde_json::Value,
    warnings: &mut Vec<String>,
    default_apps: &serde_json::Value,
    app: &str,
)
    requires
        json_tree(*old(apps)) is Object,
    ensures
        json_tree(*final(apps)) is Object,
        checked_view(*final(apps), final(warnings)@) == checked_app(
            checked_view(*old(apps), old(warnings)@),
            json_tree(*default_apps),
            app@,
        ),
{
    if !is_executable_name(app) || !is_kind(apps, app, JsonKind::Object) {
        match get(default_apps, app) {
            Some(default) => insert(apps, app, copy(default)),
            None => {
                remove(apps, app);
            },
        }
        push_text(
            warnings,
            join3("app_options.", app, " must be an executable basename object"),
        );
        return;
    }
    let mut options: serde_json::Value = match get(apps, app) {
        Some(options) => copy(options),
        None => {
            return;
        },
    };
    check_option(&mut options, warnings, app, "ascii_mode");
    check_option(&mut options, warnings, app, "inline_preedit");
    insert(apps, app, options);
}

/// Replaces what is unusable in the settings by the defaults, and takes out what is
/// unusable among the options of a single application. The result says what was
/// wrong, in order.
pub fn normalize_server_settings(root: &mut serde_json::Value, defaults: &serde_json::Value) -> (r:
    Vec<String>)
    requires
        json_tree(*old(root)) is Object,
        complete_defaults(json_tree(*defaults)),
    ensures
        checked_view(*final(root), r@) == normalized(json_tree(*old(root)), json_tree(*defaults)),
{
    let mut warnings: Vec<String> = Vec::new();
    let ghost settings = json_tree(*root);
    let ghost default = json_tree(*defaults);
    assert(texts(warnings@) =~= Seq::<Seq<char>>::empty());
    check_member(root, &mut warnings, defaults, "theme", JsonKind::Text);
    check_member(root, &mut warnings, defaults, "inline_preedit", JsonKind::Bool);
    check_member(root, &mut warnings, defaults, "global_ascii_status", JsonKind::Bool);
    check_member(root, &mut warnings, defaults, "ascii_mode", JsonKind::Bool);
    check_member(root, &mut warnings, defaults, "allow_rime_in_secure_fields", JsonKind::Bool);
    let ghost members = checked_view(*root, warnings@);
    assert(members == checked_members(settings, default));
    let default_apps: &serde_json::Value = match get(defaults, "app_options") {
        Some(value) => value,
        None => {
            return warnings;
        },
    };
    let mut apps: serde_json::Value = match get(root, "app_options") {
        Some(value) if kind(value) == JsonKind::Object => copy(value),
        _ => {
            insert(root, "app_options", copy(default_apps));
            push_text(&mut warnings, "app_options must be an object".to_owned());
            return warnings;
        },
    };
    let list: Vec<String> = names(&apps);
    let ghost start = checked_view(apps, warnings@);
    let ghost all = texts(list@);
    assert(all.take(0) =~= Seq::<Seq<char>>::empty());
    let mut i: usize = 0;
    while i < list.len()
        invariant
            i <= list.len() == all.len(),
            all == texts(list@),
            json_tree(apps) is Object,
            checked_view(apps, warnings@) == checked_apps(
                start,
                json_tree(*default_apps),
                all.take(i as int),
            ),
        decreases list.len() - i,
    {
        assert(all.take(i + 1).drop_last() =~= all.take(i as int));
        assert(all.take(i + 1).last() == list@[i as int]@);
        check_app(&mut apps, &mut warnings, default_apps, &list[i]);
        i += 1;
    }
    assert(all.take(all.len() as int) =~= all);
    insert(root, "app_options", apps);
    warnings
}

/// The notification of settings that were unusable; none where all of them were
/// usable.
pub fn settings_notice(warnings: &Vec<String>) -> (r: Option<UserNotification>)
    ensures
        match r {
            Some(notice) => warnings.len() > 0 && notice@ == (UserNotificationView {
                source: "server"@,
                code: "configuration.invalid"@,
                severity: UserNotificationSeverity::Warning,
                title: "小狼毫RS：配置项无效"@,
                message: "算法服务配置无效，已使用内置默认值。"@,
                details: joined(texts(warnings@), "\n"@),
            }),
            None => warnings.len() == 0,
        },
{
    if warnings.len() == 0 {
        return None;
    }
    Some(
        UserNotification {
            source: "server".to_owned(),
            code: "configuration.invalid".to_owned(),
            severity: UserNotificationSeverity::Warning,
            title: "小狼毫RS：配置项无效".to_owned(),
            message: "算法服务配置无效，已使用内置默认值。".to_owned(),
            details: join_all(warnings, "\n"),
        },
    )
}

/// What becomes of the settings that a text was read as.
pub open spec fn accepted(parsed: Result<Json, Seq<char>>, defaults: Json) -> Result<
    Checked,
    Seq<char>,
> {
    match parsed {
        Err(error) => Err("broker returned invalid configuration JSON: "@ + error),
        Ok(value) => if value is Object {
            Ok(normalized(value, defaults))
        } else {
            Err("broker returned a non-object configuration root"@)
        },
    }
}

/// The outcome of reading settings.
pub open spec fn settings_outcome(r: Result<(serde_json::Value, Vec<String>), String>) -> Result<
    Checked,
    Seq<char>,
> {
    match r {
        Ok((value, warnings)) => Ok(checked_view(value, warnings@)),
        Err(error) => Err(error@),
    }
}

/// Takes what settings were read as: usable settings, and what was wrong with them.
pub fn accept_settings(
    parsed: Result<serde_json::Value, String>,
    defaults: &serde_json::Value,
) -> (r: Result<(serde_json::Value, Vec<String>), String>)
    requires
        complete_defaults(json_tree(*defaults)),
    ensures
        settings_outcome(r) == accepted(read_view(parsed), json_tree(*defaults)),
{
    let mut value: serde_json::Value = match parsed {
        Ok(value) => value,
        Err(error) => {
            return Err(join2("broker returned invalid configuration JSON: ", &error));
        },
    };
    if kind(&value) != JsonKind::Object {
        return Err("broker returned a non-object configuration root".to_owned());
    }
    let warnings: Vec<String> = normalize_server_settings(&mut value, defaults);
    Ok((value, warnings))
}

/// Reads the settings that the broker answered with.
pub fn load_broker_settings(json: Option<&str>, defaults: &serde_json::Value) -> (r: Result<
    (serde_json::Value, Vec<String>),
    String,
>)
    requires
        complete_defaults(json_tree(*defaults)),
    ensures
        settings_outcome(r) == (match json {
            Some(text) => accepted(json_of_text(text@), json_tree(*defaults)),
            None => Err("broker returned no configuration root"@),
        }),
{
    match json {
        Some(text) => accept_settings(parse_text(text), defaults),
        None => Err("broker returned no configuration root".to_owned()),
    }
}

/// A member that was checked has its kind, if the default has it, and what other
/// names have stays.
proof fn lemma_defaulted(
    checked: Checked,
    defaults: Json,
    name: Seq<char>,
    kind: JsonKind,
    other: Seq<char>,
)
    requires
        checked.settings is Object,
        has_kind(defaults, name, kind),
    ensures
        ({
            let next = defaulted(checked, defaults, name, kind);
            &&& next.settings is Object
            &&& has_kind(next.settings, name, kind)
            &&& other != name ==> json_member(next.settings, other) == json_member(
                checked.settings,
                other,
            )
        }),
{
    law_inserted_member(
        checked.settings->Object_0,
        name,
        json_member(defaults, name)->0,
        other,
    );
}

/// Whether every setting that the server reads has its kind.
pub open spec fn usable(settings: Json) -> bool {
    &&& settings is Object
    &&& has_kind(settings, "theme"@, JsonKind::Text)
    &&& has_kind(settings, "inline_preedit"@, JsonKind::Bool)
    &&& has_kind(settings, "global_ascii_status"@, JsonKind::Bool)
    &&& has_kind(settings, "ascii_mode"@, JsonKind::Bool)
    &&& has_kind(settings, "allow_rime_in_secure_fields"@, JsonKind::Bool)
    &&& has_kind(settings, "app_options"@, JsonKind::Object)
}

/// Whatever settings were given, with usable defaults the outcome is usable.
pub proof fn law_normalized_settings_are_usable(settings: Json, defaults: Json)
    requires
        settings is Object,
        usable(defaults),
    ensures
        usable(normalized(settings, defaults).settings),
{
    reveal_strlit("theme");
    reveal_strlit("inline_preedit");
    reveal_strlit("global_ascii_status");
    reveal_strlit("ascii_mode");
    reveal_strlit("allow_rime_in_secure_fields");
    reveal_strlit("app_options");
    // The names are different, by their lengths or their first letters.
    assert("global_ascii_status"@.len() == 19 && "ascii_mode"@.len() == 10
        && "allow_rime_in_secure_fields"@.len() == 27 && "app_options"@.len() == 11
        && "inline_preedit"@.len() == 14 && "theme"@.len() == 5);
    let start = Checked { settings, warnings: Seq::empty() };
    let theme = defaulted(start, defaults, "theme"@, JsonKind::Text);
    let inline = defaulted(theme, defaults, "inline_preedit"@, JsonKind::Bool);
    let shared = defaulted(inline, defaults, "global_ascii_status"@, JsonKind::Bool);
    let ascii = defaulted(shared, defaults, "ascii_mode"@, JsonKind::Bool);
    let members = defaulted(ascii, defaults, "allow_rime_in_secure_fields"@, JsonKind::Bool);
    lemma_defaulted(start, defaults, "theme"@, JsonKind::Text, "app_options"@);
    lemma_defaulted(theme, defaults, "inline_preedit"@, JsonKind::Bool, "theme"@);
    lemma_defaulted(inline, defaults, "global_ascii_status"@, JsonKind::Bool, "theme"@);
    lemma_defaulted(inline, defaults, "global_ascii_status"@, JsonKind::Bool, "inline_preedit"@);
    lemma_defaulted(shared, defaults, "ascii_mode"@, JsonKind::Bool, "theme"@);
    lemma_defaulted(shared, defaults, "ascii_mode"@, JsonKind::Bool, "inline_preedit"@);
    lemma_defaulted(shared, defaults, "ascii_mode"@, JsonKind::Bool, "global_ascii_status"@);
    let last = "allow_rime_in_secure_fields"@;
    lemma_defaulted(ascii, defaults, last, JsonKind::Bool, "theme"@);
    lemma_defaulted(ascii, defaults, last, JsonKind::Bool, "inline_preedit"@);
    lemma_defaulted(ascii, defaults, last, JsonKind::Bool, "global_ascii_status"@);
    lemma_defaulted(ascii, defaults, last, JsonKind::Bool, "ascii_mode"@);
    let before = members.settings->Object_0;
    let options = if has_kind(members.settings, "app_options"@, JsonKind::Object) {
        let apps = json_member(members.settings, "app_options"@)->0;
        let default_apps = json_member(defaults, "app_options"@)->0;
        lemma_checked_apps(
            Checked { settings: apps, warnings: members.warnings },
            default_apps,
            names_of(apps->Object_0),
        );
        checked_apps(
            Checked { settings: apps, warnings: members.warnings },
            default_apps,
            names_of(apps->Object_0),
        ).settings
    } else {
        json_member(defaults, "app_options"@)->0
    };
    law_inserted_member(before, "app_options"@, options, "theme"@);
    law_inserted_member(before, "app_options"@, options, "inline_preedit"@);
    law_inserted_member(before, "app_options"@, options, "global_ascii_status"@);
    law_inserted_member(before, "app_options"@, options, "ascii_mode"@);
    law_inserted_member(before, "app_options"@, options, last);
}

/// Checking the applications' options leaves an object.
proof fn lemma_checked_apps(checked: Checked, default_apps: Json, apps: Seq<Seq<char>>)
    requires
        checked.settings is Object,
    ensures
        checked_apps(checked, default_apps, apps).settings is Object,
    decreases apps.len(),
{
    if apps.len() > 0 {
        lemma_checked_apps(checked, default_apps, apps.drop_last());
    }
}

/// Members of usable settings are kept as they are, and nothing is reported of
/// them.
pub proof fn law_usable_members_are_kept(settings: Json, defaults: Json)
    requires
        usable(settings),
    ensures
        checked_members(settings, defaults) == (Checked { settings, warnings: Seq::empty() }),
{
}

/// Whether an option of an application is true or false, or missing.
pub open spec fn usable_option(options: Json, option: Seq<char>) -> bool {
    json_member(options, option) is None || has_kind(options, option, JsonKind::Bool)
}

/// Whether an application and its options can be used.
pub open spec fn usable_app(app: Seq<char>, options: Json) -> bool {
    &&& executable_name(app)
    &&& options is Object
    &&& usable_option(options, "ascii_mode"@)
    &&& usable_option(options, "inline_preedit"@)
}

/// Whether all applications and their options can be used.
pub open spec fn usable_apps(apps: Json) -> bool {
    apps is Object && forall|app: Seq<char>|
        (#[trigger] json_member(apps, app)) matches Some(options) ==> usable_app(app, options)
}

/// Whether settings need no change: every setting that the server reads has its
/// kind, down to the options of each application.
pub open spec fn well_typed(settings: Json) -> bool {
    usable(settings) && usable_apps(json_member(settings, "app_options"@)->0)
}

/// Whether an object's members stand in the order of their names, as serde_json
/// keeps them.
pub open spec fn ordered(value: Json) -> bool {
    value matches Json::Object(members) ==> in_name_order(names_of(members))
}

/// Whether the members of settings, of their applications, and of the options of
/// each application stand in the order of their names.
pub open spec fn ordered_settings(settings: Json) -> bool {
    &&& ordered(settings)
    &&& json_member(settings, "app_options"@) matches Some(apps) ==> ordered_apps(apps)
}

/// Whether applications, and the options of each, stand in the order of their
/// names.
pub open spec fn ordered_apps(apps: Json) -> bool {
    &&& ordered(apps)
    &&& forall|app: Seq<char>|
        (#[trigger] json_member(apps, app)) matches Some(options) ==> ordered(options)
}

/// Settings that need no change stay as they are, and nothing is reported of them.
pub proof fn law_well_typed_settings_stay(settings: Json, defaults: Json)
    requires
        well_typed(settings),
        ordered_settings(settings),
    ensures
        normalized(settings, defaults) == (Checked { settings, warnings: Seq::empty() }),
{
    law_usable_members_are_kept(settings, defaults);
    let apps = json_member(settings, "app_options"@)->0;
    let names = names_of(apps->Object_0);
    assert forall|i: int| 0 <= i < names.len() implies json_member(
        apps,
        #[trigger] names[i],
    ) is Some by {
        lemma_member_at(apps->Object_0, i);
    }
    lemma_usable_apps_stay(
        apps,
        Seq::empty(),
        json_member(defaults, "app_options"@)->0,
        names,
    );
    lemma_same_member(settings->Object_0, "app_options"@);
}

/// Applications that can be used stay as they are when they are checked.
proof fn lemma_usable_apps_stay(
    apps: Json,
    warnings: Seq<Seq<char>>,
    default_apps: Json,
    names: Seq<Seq<char>>,
)
    requires
        usable_apps(apps),
        ordered(apps),
        forall|i: int| 0 <= i < names.len() ==> json_member(apps, #[trigger] names[i]) is Some,
    ensures
        checked_apps(Checked { settings: apps, warnings }, default_apps, names) == (Checked {
            settings: apps,
            warnings,
        }),
    decreases names.len(),
{
    if names.len() > 0 {
        let rest = names.drop_last();
        assert forall|i: int| 0 <= i < rest.len() implies json_member(
            apps,
            #[trigger] rest[i],
        ) is Some by {
            assert(rest[i] == names[i]);
        }
        lemma_usable_apps_stay(apps, warnings, default_apps, rest);
        let app = names[names.len() - 1];
        assert(json_member(apps, app) is Some);
        assert(usable_app(app, json_member(apps, app)->0));
        lemma_same_member(apps->Object_0, app);
    }
}

/// What checking one application leaves: its options can be used, and what other
/// names have stays.
proof fn lemma_checked_app(checked: Checked, default_apps: Json, app: Seq<char>, other: Seq<char>)
    requires
        checked.settings is Object,
        ordered(checked.settings),
        json_member(checked.settings, app) matches Some(options) ==> ordered(options),
        usable_apps(default_apps),
        ordered_apps(default_apps),
    ensures
        ({
            let next = checked_app(checked, default_apps, app).settings;
            &&& next is Object
            &&& ordered(next)
            &&& json_member(next, app) matches Some(options) ==> usable_app(app, options)
                && ordered(options)
            &&& other != app ==> json_member(next, other) == json_member(checked.settings, other)
        }),
{
    let apps = checked.settings;
    let members = apps->Object_0;
    if !executable_name(app) || !has_kind(apps, app, JsonKind::Object) {
        match json_member(default_apps, app) {
            Some(default) => {
                assert(usable_app(app, default));
                law_inserted_member(members, app, default, other);
                lemma_inserted_in_order(members, app, default);
            },
            None => {
                law_removed_member(members, app, other);
            },
        }
    } else {
        let options = Checked {
            settings: json_member(apps, app)->0,
            warnings: checked.warnings,
        };
        let first = checked_option(options, app, "ascii_mode"@);
        let both = checked_option(first, app, "inline_preedit"@);
        reveal_strlit("ascii_mode");
        reveal_strlit("inline_preedit");
        assert("ascii_mode"@.len() != "inline_preedit"@.len());
        law_removed_member(options.settings->Object_0, "ascii_mode"@, "inline_preedit"@);
        law_removed_member(first.settings->Object_0, "inline_preedit"@, "ascii_mode"@);
        law_inserted_member(members, app, both.settings, other);
        lemma_inserted_in_order(members, app, both.settings);
    }
}

/// After some applications were checked, those can be used, and the others are as
/// they were.
proof fn lemma_apps_become_usable(
    checked: Checked,
    default_apps: Json,
    names: Seq<Seq<char>>,
    app: Seq<char>,
)
    requires
        checked.settings is Object,
        ordered_apps(checked.settings),
        usable_apps(default_apps),
        ordered_apps(default_apps),
    ensures
        ({
            let next = checked_apps(checked, default_apps, names).settings;
            &&& next is Object
            &&& ordered(next)
            &&& json_member(next, app) matches Some(options) ==> ordered(options) && (
            names.contains(app) ==> usable_app(app, options))
            &&& !names.contains(app) ==> json_member(next, app) == json_member(
                checked.settings,
                app,
            )
        }),
    decreases names.len(),
{
    if names.len() > 0 {
        let rest = names.drop_last();
        let last = names[names.len() - 1];
        let before = checked_apps(checked, default_apps, rest);
        lemma_apps_become_usable(checked, default_apps, rest, app);
        lemma_apps_become_usable(checked, default_apps, rest, last);
        lemma_checked_app(before, default_apps, last, app);
        if names.contains(app) && app != last {
            let i = choose|i: int| 0 <= i < names.len() && names[i] == app;
            assert(rest[i] == app);
        }
        if rest.contains(app) {
            let i = choose|i: int| 0 <= i < rest.len() && rest[i] == app;
            assert(names[i] == app);
        }
        assert(names.contains(last)) by {
            assert(names[names.len() - 1] == last);
        }
    }
}

/// A member that was checked leaves the members in order.
proof fn lemma_defaulted_in_order(
    checked: Checked,
    defaults: Json,
    name: Seq<char>,
    kind: JsonKind,
)
    requires
        checked.settings is Object,
        ordered(checked.settings),
    ensures
        defaulted(checked, defaults, name, kind).settings is Object,
        ordered(defaulted(checked, defaults, name, kind).settings),
{
    lemma_inserted_in_order(checked.settings->Object_0, name, json_member(defaults, name)->0);
}

/// What is checked before the applications leaves these as they were, and the
/// members in order.
proof fn lemma_members_keep_apps(settings: Json, defaults: Json)
    requires
        settings is Object,
        ordered(settings),
        usable(defaults),
    ensures
        checked_members(settings, defaults).settings is Object,
        ordered(checked_members(settings, defaults).settings),
        json_member(checked_members(settings, defaults).settings, "app_options"@) == json_member(
            settings,
            "app_options"@,
        ),
{
    reveal_strlit("theme");
    reveal_strlit("inline_preedit");
    reveal_strlit("global_ascii_status");
    reveal_strlit("ascii_mode");
    reveal_strlit("allow_rime_in_secure_fields");
    reveal_strlit("app_options");
    assert("global_ascii_status"@.len() == 19 && "ascii_mode"@.len() == 10
        && "allow_rime_in_secure_fields"@.len() == 27 && "app_options"@.len() == 11
        && "inline_preedit"@.len() == 14 && "theme"@.len() == 5);
    let start = Checked { settings, warnings: Seq::empty() };
    let theme = defaulted(start, defaults, "theme"@, JsonKind::Text);
    let inline = defaulted(theme, defaults, "inline_preedit"@, JsonKind::Bool);
    let shared = defaulted(inline, defaults, "global_ascii_status"@, JsonKind::Bool);
    let ascii = defaulted(shared, defaults, "ascii_mode"@, JsonKind::Bool);
    let last = "allow_rime_in_secure_fields"@;
    let members = defaulted(ascii, defaults, last, JsonKind::Bool);
    lemma_defaulted_in_order(start, defaults, "theme"@, JsonKind::Text);
    lemma_defaulted_in_order(theme, defaults, "inline_preedit"@, JsonKind::Bool);
    lemma_defaulted_in_order(inline, defaults, "global_ascii_status"@, JsonKind::Bool);
    lemma_defaulted_in_order(shared, defaults, "ascii_mode"@, JsonKind::Bool);
    lemma_defaulted_in_order(ascii, defaults, last, JsonKind::Bool);
    let options = "app_options"@;
    lemma_defaulted(start, defaults, "theme"@, JsonKind::Text, options);
    lemma_defaulted(theme, defaults, "inline_preedit"@, JsonKind::Bool, options);
    lemma_defaulted(inline, defaults, "global_ascii_status"@, JsonKind::Bool, options);
    lemma_defaulted(shared, defaults, "ascii_mode"@, JsonKind::Bool, options);
    lemma_defaulted(ascii, defaults, last, JsonKind::Bool, options);
    assert(members == checked_members(settings, defaults));
}

/// Whatever settings were given, with well typed defaults the outcome needs no
/// further change.
pub proof fn law_normalized_settings_are_well_typed(settings: Json, defaults: Json)
    requires
        settings is Object,
        ordered_settings(settings),
        well_typed(defaults),
        ordered_settings(defaults),
    ensures
        well_typed(normalized(settings, defaults).settings),
        ordered_settings(normalized(settings, defaults).settings),
{
    law_normalized_settings_are_usable(settings, defaults);
    let options = "app_options"@;
    let members = checked_members(settings, defaults);
    lemma_members_keep_apps(settings, defaults);
    let default_apps = json_member(defaults, options)->0;
    let apps = if has_kind(members.settings, options, JsonKind::Object) {
        let given = json_member(settings, options)->0;
        let names = names_of(given->Object_0);
        let from = Checked { settings: given, warnings: members.warnings };
        let next = checked_apps(from, default_apps, names).settings;
        assert forall|app: Seq<char>| (#[trigger] json_member(next, app)) is Some implies ({
            let item = json_member(next, app)->0;
            usable_app(app, item) && ordered(item)
        }) by {
            lemma_apps_become_usable(from, default_apps, names, app);
            if !names.contains(app) {
                lemma_member_named(given->Object_0, app);
            }
        }
        lemma_apps_become_usable(from, default_apps, names, options);
        next
    } else {
        default_apps
    };
    law_inserted_member(members.settings->Object_0, options, apps, options);
    lemma_inserted_in_order(members.settings->Object_0, options, apps);
}

/// Settings that were normalized once stay as they are, and nothing more is
/// reported of them.
pub proof fn law_normalizing_twice_changes_nothing(settings: Json, defaults: Json)
    requires
        settings is Object,
        ordered_settings(settings),
        well_typed(defaults),
        ordered_settings(defaults),
    ensures
        ({
            let once = normalized(settings, defaults).settings;
            normalized(once, defaults) == (Checked { settings: once, warnings: Seq::empty() })
        }),
{
    law_normalized_settings_are_well_typed(settings, defaults);
    law_well_typed_settings_stay(normalized(settings, defaults).settings, defaults);
}

/// Options of an application, without one that is no boolean.
pub open spec fn cleaned(options: Json, option: Seq<char>) -> Json {
    if usable_option(options, option) {
        options
    } else {
        json_without(options, option)
    }
}

/// Options of an application, as far as they can be used.
pub open spec fn cleaned_options(options: Json) -> Json {
    cleaned(cleaned(options, "ascii_mode"@), "inline_preedit"@)
}

/// Checking applications leaves of the options of each what can be used.
proof fn lemma_options_are_cleaned(
    checked: Checked,
    default_apps: Json,
    names: Seq<Seq<char>>,
    app: Seq<char>,
)
    requires
        checked.settings is Object,
        ordered_apps(checked.settings),
        usable_apps(default_apps),
        ordered_apps(default_apps),
        executable_name(app),
        has_kind(checked.settings, app, JsonKind::Object),
    ensures
        json_member(checked_apps(checked, default_apps, names).settings, app) == Some(
            if names.contains(app) {
                cleaned_options(json_member(checked.settings, app)->0)
            } else {
                json_member(checked.settings, app)->0
            },
        ),
    decreases names.len(),
{
    if names.len() > 0 {
        let rest = names.drop_last();
        let last = names[names.len() - 1];
        let before = checked_apps(checked, default_apps, rest);
        lemma_options_are_cleaned(checked, default_apps, rest, app);
        lemma_apps_become_usable(checked, default_apps, rest, app);
        lemma_apps_become_usable(checked, default_apps, rest, last);
        lemma_checked_app(before, default_apps, last, app);
        if names.contains(app) && app != last {
            let i = choose|i: int| 0 <= i < names.len() && names[i] == app;
            assert(rest[i] == app);
        }
        if rest.contains(app) {
            let i = choose|i: int| 0 <= i < rest.len() && rest[i] == app;
            assert(names[i] == app);
        }
        if app == last {
            assert(names[names.len() - 1] == app);
            let options = json_member(before.settings, app)->0;
            law_inserted_member(before.settings->Object_0, app, cleaned_options(options), app);
        }
    }
}

/// An option of an application that is neither true nor false is taken out, so that
/// the application has what holds for all; one that is stays, and so does everything
/// else among the application's options.
pub proof fn law_invalid_options_inherit(
    settings: Json,
    defaults: Json,
    app: Seq<char>,
    option: Seq<char>,
    other: Seq<char>,
)
    requires
        settings is Object,
        ordered_settings(settings),
        well_typed(defaults),
        ordered_settings(defaults),
        has_kind(settings, "app_options"@, JsonKind::Object),
        executable_name(app),
        has_kind(json_member(settings, "app_options"@)->0, app, JsonKind::Object),
        option == "ascii_mode"@ || option == "inline_preedit"@,
        other != "ascii_mode"@ && other != "inline_preedit"@,
    ensures
        ({
            let given = json_member(json_member(settings, "app_options"@)->0, app)->0;
            let next = normalized(settings, defaults).settings;
            let kept = json_member(json_member(next, "app_options"@)->0, app);
            &&& app_bool_of(next, app, option) == (match bool_of(given, option) {
                Some(own) => Some(own),
                None => bool_of(next, option),
            })
            &&& kept is Some
            &&& usable_option(given, option) ==> json_member(kept->0, option) == json_member(
                given,
                option,
            )
            &&& !usable_option(given, option) ==> json_member(kept->0, option) is None
            &&& json_member(kept->0, other) == json_member(given, other)
        }),
{
    let options = "app_options"@;
    let members = checked_members(settings, defaults);
    lemma_members_keep_apps(settings, defaults);
    reveal_strlit("inline_preedit");
    reveal_strlit("ascii_mode");
    assert("ascii_mode"@.len() != "inline_preedit"@.len());
    let apps = json_member(settings, options)->0;
    let given = json_member(apps, app)->0;
    let names = names_of(apps->Object_0);
    let from = Checked { settings: apps, warnings: members.warnings };
    let default_apps = json_member(defaults, options)->0;
    lemma_options_are_cleaned(from, default_apps, names, app);
    lemma_member_named(apps->Object_0, app);
    let checked = checked_apps(from, default_apps, names).settings;
    law_inserted_member(members.settings->Object_0, options, checked, options);
    let first = cleaned(given, "ascii_mode"@);
    law_removed_member(given->Object_0, "ascii_mode"@, "inline_preedit"@);
    law_removed_member(given->Object_0, "ascii_mode"@, other);
    law_removed_member(first->Object_0, "inline_preedit"@, "ascii_mode"@);
    law_removed_member(first->Object_0, "inline_preedit"@, other);
}

} // verus!
