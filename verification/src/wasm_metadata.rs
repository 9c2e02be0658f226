//! The settings that a WASM theme carries in a custom section of its module.
use crate::json::{as_i64, as_str, as_u64, get, items, kind, names, parse_bytes, JsonKind};
#[allow(unused_imports)]
use crate::json::{
    json_member, json_of_bytes, json_tree, json_trees, lemma_member_at, names_of, read_view, texts,
    Json,
};
use crate::text::{join2, same_text};
use vstd::prelude::*;

pub mod laws;

verus! {

/// Name of the section that holds the settings.
pub const SECTION: &'static str = "weasel.settings";

/// Most bytes that the settings may have.
pub const MAX_BYTES: usize = 1048576;

/// Most bytes that a module may have.
pub const MAX_MODULE_BYTES: usize = 33554432;

/// The last place in a module that a section may have, from zero.
pub const LAST_SECTION: usize = 65536;

/// Most levels below the root of the settings.
pub const MAX_DEPTH: usize = 32;

/// Most values that the settings may be made of.
pub const MAX_NODES: usize = 8192;

/// The module's first bytes.
pub open spec fn wasm_header() -> Seq<u8> {
    seq![0u8, 97, 115, 109, 1, 0, 0, 0]
}

/// Something that a module is made of: a custom section with its name and bytes,
/// or anything else.
pub type WasmPayload = Result<Option<(String, Vec<u8>)>, String>;

/// What a payload holds.
pub open spec fn payload_view(payload: WasmPayload) -> Result<
    Option<(Seq<char>, Seq<u8>)>,
    Seq<char>,
> {
    match payload {
        Ok(Some((name, data))) => Ok(Some((name@, data@))),
        Ok(None) => Ok(None),
        Err(error) => Err(error@),
    }
}

/// What payloads hold, in order.
pub open spec fn payload_views(s: Seq<WasmPayload>) -> Seq<
    Result<Option<(Seq<char>, Seq<u8>)>, Seq<char>>,
> {
    Seq::new(s.len(), |i: int| payload_view(s[i]))
}

/// What a module is made of, up to its end or to the error that ends it.
pub uninterp spec fn wasm_payloads(bytes: Seq<u8>) -> Seq<
    Result<Option<(Seq<char>, Seq<u8>)>, Seq<char>>,
>;

/// `wasmparser::Parser::parse_all`: what the module is made of, in order; an error
/// is the last. Of a custom section its name and bytes are kept, of an error its
/// text. All of it depends on the bytes alone.
#[verifier::external_body]
fn payloads(bytes: &[u8]) -> (r: Vec<WasmPayload>)
    ensures
        payload_views(r@) == wasm_payloads(bytes@),
{
    wasmparser::Parser::new(0).parse_all(bytes).map(
        |payload| match payload {
            Ok(wasmparser::Payload::CustomSection(section)) => Ok(
                Some((section.name().to_owned(), section.data().to_vec())),
            ),
            Ok(_) => Ok(None),
            Err(error) => Err(error.to_string()),
        },
    ).collect()
}

/// Number of values that a value is made of, itself included.
pub open spec fn nodes_of(value: Json) -> nat
    decreases value,
{
    match value {
        Json::Array(values) => 1 + array_nodes(values),
        Json::Object(members) => 1 + object_nodes(members),
        _ => 1,
    }
}

/// Number of values in a list.
pub open spec fn array_nodes(values: Seq<Json>) -> nat
    decreases values,
{
    if values.len() == 0 {
        0
    } else {
        array_nodes(values.drop_last()) + nodes_of(values.last())
    }
}

/// Number of values in members.
pub open spec fn object_nodes(members: Seq<(Seq<char>, Json)>) -> nat
    decreases members,
{
    if members.len() == 0 {
        0
    } else {
        object_nodes(members.drop_last()) + nodes_of(members.last().1)
    }
}

/// Number of levels below a value.
pub open spec fn height_of(value: Json) -> nat
    decreases value,
{
    match value {
        Json::Array(values) => array_height(values),
        Json::Object(members) => object_height(members),
        _ => 0,
    }
}

/// Number of levels that a list adds.
pub open spec fn array_height(values: Seq<Json>) -> nat
    decreases values,
{
    if values.len() == 0 {
        0
    } else {
        let below = 1 + height_of(values.last());
        let rest = array_height(values.drop_last());
        if below > rest {
            below
        } else {
            rest
        }
    }
}

/// Number of levels that members add.
pub open spec fn object_height(members: Seq<(Seq<char>, Json)>) -> nat
    decreases members,
{
    if members.len() == 0 {
        0
    } else {
        let below = 1 + height_of(members.last().1);
        let rest = object_height(members.drop_last());
        if below > rest {
            below
        } else {
            rest
        }
    }
}

/// A part of a list has no more values and levels than the whole.
proof fn lemma_array_part(values: Seq<Json>, i: int)
    requires
        0 <= i <= values.len(),
    ensures
        array_nodes(values.take(i)) <= array_nodes(values),
        array_height(values.take(i)) <= array_height(values),
    decreases values.len() - i,
{
    if i < values.len() {
        lemma_array_part(values, i + 1);
        assert(values.take(i + 1).drop_last() =~= values.take(i));
    } else {
        assert(values.take(i) =~= values);
    }
}

/// A part of the members has no more values and levels than the whole.
proof fn lemma_object_part(members: Seq<(Seq<char>, Json)>, i: int)
    requires
        0 <= i <= members.len(),
    ensures
        object_nodes(members.take(i)) <= object_nodes(members),
        object_height(members.take(i)) <= object_height(members),
    decreases members.len() - i,
{
    if i < members.len() {
        lemma_object_part(members, i + 1);
        assert(members.take(i + 1).drop_last() =~= members.take(i));
    } else {
        assert(members.take(i) =~= members);
    }
}

/// Whether a value at a depth, after other values, keeps to the limits.
pub open spec fn within_limits(value: Json, depth: int, nodes: int) -> bool {
    depth + height_of(value) <= MAX_DEPTH && nodes + nodes_of(value) <= MAX_NODES
}

/// Counts the values that a value is made of, and refuses one that is too deep or
/// too large.
pub fn bounded(value: &serde_json::Value, depth: usize, nodes: &mut usize) -> (r: Result<
    (),
    String,
>)
    requires
        *old(nodes) < usize::MAX,
    ensures
        r is Ok <==> within_limits(json_tree(*value), depth as int, *old(nodes) as int),
        r is Ok ==> *final(nodes) == *old(nodes) + nodes_of(json_tree(*value)),
        r matches Err(error) ==> error@ == "theme metadata structure exceeds limits"@,
    decreases MAX_DEPTH + 1 - depth,
{
    let ghost tree = json_tree(*value);
    let ghost start: int = *nodes as int;
    *nodes = *nodes + 1;
    if depth > MAX_DEPTH || *nodes > MAX_NODES {
        return Err("theme metadata structure exceeds limits".to_owned());
    }
    match kind(value) {
        JsonKind::Array => {
            if let Some(values) = items(value) {
                let ghost trees = json_trees(values@);
                let mut i: usize = 0;
                assert(trees.take(0) =~= Seq::<Json>::empty());
                while i < values.len()
                    invariant
                        i <= values.len() == trees.len(),
                        trees == json_trees(values@),
                        tree == json_tree(*value),
                        tree == Json::Array(trees),
                        start == *old(nodes),
                        depth <= MAX_DEPTH,
                        *nodes == start + 1 + array_nodes(trees.take(i as int)),
                        *nodes <= MAX_NODES,
                        depth + array_height(trees.take(i as int)) <= MAX_DEPTH,
                    decreases values.len() - i,
                {
                    proof {
                        lemma_array_part(trees, i + 1);
                        assert(trees.take(i + 1).drop_last() =~= trees.take(i as int));
                        assert(trees.take(i + 1).last() == json_tree(values@[i as int]));
                    }
                    bounded(&values[i], depth + 1, nodes)?;
                    i += 1;
                }
                assert(trees.take(trees.len() as int) =~= trees);
            }
        },
        JsonKind::Object => {
            let keys: Vec<String> = names(value);
            let ghost members = tree->Object_0;
            let mut i: usize = 0;
            assert(members.take(0) =~= Seq::<(Seq<char>, Json)>::empty());
            assert(texts(keys@).len() == names_of(members).len());
            while i < keys.len()
                invariant
                    i <= keys.len() == members.len(),
                    texts(keys@) == names_of(members),
                    crate::json::in_name_order(texts(keys@)),
                    tree == json_tree(*value),
                    tree == Json::Object(members),
                    start == *old(nodes),
                    depth <= MAX_DEPTH,
                    *nodes == start + 1 + object_nodes(members.take(i as int)),
                    *nodes <= MAX_NODES,
                    depth + object_height(members.take(i as int)) <= MAX_DEPTH,
                decreases keys.len() - i,
            {
                proof {
                    lemma_object_part(members, i + 1);
                    assert(members.take(i + 1).drop_last() =~= members.take(i as int));
                    assert(members.take(i + 1).last() == members[i as int]);
                    assert(texts(keys@)[i as int] == names_of(members)[i as int]);
                    lemma_member_at(members, i as int);
                }
                if let Some(item) = get(value, &keys[i]) {
                    bounded(item, depth + 1, nodes)?;
                }
                i += 1;
            }
            assert(members.take(members.len() as int) =~= members);
        },
        _ => {},
    }
    Ok(())
}

/// Whether a value is what a theme's settings have to be: an object of a known
/// version with defaults and a schema, and nothing else.
pub open spec fn valid_envelope(value: Json) -> bool {
    &&& json_member(value, "formatVersion"@) matches Some(version)
    &&& version matches Json::Number { unsigned, .. }
    &&& unsigned == Some(1u64)
    &&& forall|i: int|
        0 <= i < names_of(value->Object_0).len() ==> known_name(
            #[trigger] names_of(value->Object_0)[i],
        )
    &&& json_member(value, "defaults"@) matches Some(defaults)
    &&& defaults is Object
    &&& json_member(value, "richschema"@) matches Some(rich)
    &&& json_member(rich, "formatVersion"@) matches Some(Json::Number { signed, .. })
    &&& signed == Some(1i64)
    &&& json_member(rich, "schema"@) matches Some(schema)
    &&& json_member(schema, "type"@) == Some(Json::Text("object"@))
}

/// The names that a theme's settings may have.
pub open spec fn known_name(name: Seq<char>) -> bool {
    name == "formatVersion"@ || name == "defaults"@ || name == "richschema"@
}

/// Whether every member of an object has a known name.
fn only_known_names(value: &serde_json::Value) -> (r: bool)
    requires
        json_tree(*value) is Object,
    ensures
        r == forall|i: int|
            0 <= i < names_of(json_tree(*value)->Object_0).len() ==> known_name(
                #[trigger] names_of(json_tree(*value)->Object_0)[i],
            ),
{
    let keys: Vec<String> = names(value);
    let ghost all = names_of(json_tree(*value)->Object_0);
    let mut i: usize = 0;
    assert(texts(keys@).len() == all.len());
    while i < keys.len()
        invariant
            i <= keys.len() == all.len(),
            texts(keys@) == all,
            all == names_of(json_tree(*value)->Object_0),
            forall|k: int| 0 <= k < i ==> known_name(#[trigger] all[k]),
        decreases keys.len() - i,
    {
        assert(all[i as int] == keys@[i as int]@);
        if !same_text(&keys[i], "formatVersion") && !same_text(&keys[i], "defaults") && !same_text(
            &keys[i],
            "richschema",
        ) {
            return false;
        }
        i += 1;
    }
    true
}

/// Whether a member of an object is an object.
fn has_object(value: &serde_json::Value, name: &str) -> (r: bool)
    ensures
        r == (json_member(json_tree(*value), name@) matches Some(item) && item is Object),
{
    match get(value, name) {
        Some(item) => kind(item) == JsonKind::Object,
        None => false,
    }
}

/// Whether a theme's schema is of a known version, and of an object.
fn valid_schema(value: &serde_json::Value) -> (r: bool)
    ensures
        r == ({
            &&& json_member(json_tree(*value), "richschema"@) matches Some(rich)
            &&& json_member(rich, "formatVersion"@) matches Some(Json::Number { signed, .. })
            &&& signed == Some(1i64)
            &&& json_member(rich, "schema"@) matches Some(schema)
            &&& json_member(schema, "type"@) == Some(Json::Text("object"@))
        }),
{
    let rich: &serde_json::Value = match get(value, "richschema") {
        Some(rich) => rich,
        None => {
            return false;
        },
    };
    let version: Option<i64> = match get(rich, "formatVersion") {
        Some(version) => as_i64(version),
        None => None,
    };
    if version != Some(1i64) {
        return false;
    }
    match get(rich, "schema") {
        Some(schema) => match get(schema, "type") {
            Some(kind) => match as_str(kind) {
                Some(text) => same_text(text, "object"),
                None => false,
            },
            None => false,
        },
        None => false,
    }
}

/// Whether a value is what a theme's settings have to be.
pub fn envelope_is_valid(value: &serde_json::Value) -> (r: bool)
    requires
        json_tree(*value) is Object,
    ensures
        r == valid_envelope(json_tree(*value)),
{
    let version: Option<u64> = match get(value, "formatVersion") {
        Some(version) => as_u64(version),
        None => None,
    };
    version == Some(1u64) && only_known_names(value) && has_object(value, "defaults")
        && valid_schema(value)
}

/// What becomes of the settings that a section was read as.
pub open spec fn section_value(parsed: Result<Json, Seq<char>>) -> Result<Json, Seq<char>> {
    match parsed {
        Err(error) => Err("theme metadata JSON: "@ + error),
        Ok(value) => if !within_limits(value, 0, 0) {
            Err("theme metadata structure exceeds limits"@)
        } else if !(value is Object) {
            Err("theme metadata must be an object"@)
        } else if !valid_envelope(value) {
            Err("invalid theme metadata envelope/defaults/richschema"@)
        } else {
            Ok(value)
        },
    }
}

/// Takes what a section was read as, where it is valid settings.
pub fn accept_section(parsed: Result<serde_json::Value, String>) -> (r: Result<
    serde_json::Value,
    String,
>)
    ensures
        read_view(r) == section_value(read_view(parsed)),
{
    let value: serde_json::Value = match parsed {
        Ok(value) => value,
        Err(error) => {
            return Err(join2("theme metadata JSON: ", &error));
        },
    };
    let mut nodes: usize = 0;
    bounded(&value, 0, &mut nodes)?;
    if kind(&value) != JsonKind::Object {
        return Err("theme metadata must be an object".to_owned());
    }
    if !envelope_is_valid(&value) {
        return Err("invalid theme metadata envelope/defaults/richschema".to_owned());
    }
    Ok(value)
}

/// The settings in what is left of a module, from a place on, where the settings
/// before it are known.
pub open spec fn settings_from(
    payloads: Seq<Result<Option<(Seq<char>, Seq<u8>)>, Seq<char>>>,
    i: int,
    found: Option<Json>,
) -> Result<Option<Json>, Seq<char>>
    decreases payloads.len() - i,
{
    if i >= payloads.len() {
        Ok(found)
    } else if i > LAST_SECTION {
        Err("too many WASM sections"@)
    } else {
        match payloads[i] {
            Err(error) => Err(error),
            Ok(Some((name, data))) if name == SECTION@ => if found is Some {
                Err("duplicate weasel.settings section"@)
            } else if data.len() > MAX_BYTES {
                Err("theme metadata exceeds 1 MiB"@)
            } else {
                match section_value(json_of_bytes(data)) {
                    Ok(value) => settings_from(payloads, i + 1, Some(value)),
                    Err(error) => Err(error),
                }
            },
            Ok(_) => settings_from(payloads, i + 1, found),
        }
    }
}

/// What optional settings hold.
pub open spec fn settings_view(value: Option<serde_json::Value>) -> Option<Json> {
    match value {
        Some(value) => Some(json_tree(value)),
        None => None,
    }
}

/// The outcome of looking for settings.
pub open spec fn outcome_view(r: Result<Option<serde_json::Value>, String>) -> Result<
    Option<Json>,
    Seq<char>,
> {
    match r {
        Ok(found) => Ok(settings_view(found)),
        Err(error) => Err(error@),
    }
}

/// Finds the settings in what a module is made of. There may be one section of
/// them; everything else is passed over, up to an error.
pub fn find_settings(payloads: &Vec<WasmPayload>) -> (r: Result<
    Option<serde_json::Value>,
    String,
>)
    ensures
        outcome_view(r) == settings_from(payload_views(payloads@), 0, None),
{
    let mut found: Option<serde_json::Value> = None;
    let ghost views = payload_views(payloads@);
    let mut i: usize = 0;
    while i < payloads.len()
        invariant
            i <= payloads.len() == views.len(),
            views == payload_views(payloads@),
            settings_from(views, 0, None) == settings_from(
                views,
                i as int,
                settings_view(found),
            ),
        decreases payloads.len() - i,
    {
        assert(views[i as int] == payload_view(payloads@[i as int]));
        if i > LAST_SECTION {
            return Err("too many WASM sections".to_owned());
        }
        match &payloads[i] {
            Err(error) => {
                return Err(error.clone());
            },
            Ok(None) => {},
            Ok(Some((name, data))) => {
                if same_text(name, SECTION) {
                    if found.is_some() {
                        return Err("duplicate weasel.settings section".to_owned());
                    }
                    if data.len() > MAX_BYTES {
                        return Err("theme metadata exceeds 1 MiB".to_owned());
                    }
                    match accept_section(parse_bytes(data)) {
                        Ok(value) => {
                            found = Some(value);
                        },
                        Err(error) => {
                            return Err(error);
                        },
                    }
                }
            },
        }
        i += 1;
    }
    Ok(found)
}

/// Whether bytes start as those of a module.
fn starts_as_module(bytes: &[u8]) -> (r: bool)
    ensures
        r == (bytes@.len() >= 8 && bytes@.take(8) == wasm_header()),
{
    if bytes.len() < 8 {
        return false;
    }
    let r: bool = bytes[0] == 0 && bytes[1] == 97 && bytes[2] == 115 && bytes[3] == 109 && bytes[4]
        == 1 && bytes[5] == 0 && bytes[6] == 0 && bytes[7] == 0;
    proof {
        let start = bytes@.take(8);
        let header = wasm_header();
        if r {
            assert(start =~= header);
        } else {
            assert(start[0] != header[0] || start[1] != header[1] || start[2] != header[2]
                || start[3] != header[3] || start[4] != header[4] || start[5] != header[5]
                || start[6] != header[6] || start[7] != header[7]);
        }
    }
    r
}

/// The settings that a module carries.
pub open spec fn metadata_of(bytes: Seq<u8>) -> Result<Option<Json>, Seq<char>> {
    if bytes.len() > MAX_MODULE_BYTES || bytes.len() < 8 || bytes.take(8) != wasm_header() {
        Err("unsupported WASM module or exceeds 32 MiB"@)
    } else {
        settings_from(wasm_payloads(bytes), 0, None)
    }
}

/// Reads the settings that a WASM module carries; none where it has no section of
/// them.
pub fn read(bytes: &[u8]) -> (r: Result<Option<serde_json::Value>, String>)
    ensures
        outcome_view(r) == metadata_of(bytes@),
{
    if bytes.len() > MAX_MODULE_BYTES || !starts_as_module(bytes) {
        return Err("unsupported WASM module or exceeds 32 MiB".to_owned());
    }
    find_settings(&payloads(bytes))
}

/// Settings that are found are valid: an object of a known version, with defaults
/// and a schema, within the limits of depth and size.
pub proof fn law_found_settings_are_valid(
    payloads: Seq<Result<Option<(Seq<char>, Seq<u8>)>, Seq<char>>>,
    i: int,
    found: Option<Json>,
)
    requires
        found matches Some(value) ==> value is Object && valid_envelope(value) && within_limits(
            value,
            0,
            0,
        ),
    ensures
        settings_from(payloads, i, found) matches Ok(Some(value)) ==> value is Object
            && valid_envelope(value) && within_limits(value, 0, 0),
    decreases payloads.len() - i,
{
    if i < payloads.len() && i <= LAST_SECTION {
        match payloads[i] {
            Ok(Some((name, data))) if name == SECTION@ => {
                if let Ok(value) = section_value(json_of_bytes(data)) {
                    law_found_settings_are_valid(payloads, i + 1, Some(value));
                }
            },
            Ok(_) => {
                law_found_settings_are_valid(payloads, i + 1, found);
            },
            Err(_) => {},
        }
    }
}

/// A second section of settings is refused, wherever it stands.
pub proof fn law_second_section_is_refused(
    payloads: Seq<Result<Option<(Seq<char>, Seq<u8>)>, Seq<char>>>,
    i: int,
    j: int,
    found: Json,
)
    requires
        0 <= i <= j < payloads.len(),
        payloads[j] matches Ok(Some((name, _))) && name == SECTION@,
    ensures
        settings_from(payloads, i, Some(found)) is Err,
    decreases j - i,
{
    if i < j && i <= LAST_SECTION {
        law_second_section_is_refused(payloads, i + 1, j, found);
    }
}

} // verus!
