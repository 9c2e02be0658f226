//! Which modules carry settings, and which settings are accepted.
#[allow(unused_imports)]
use super::{
    array_height, array_nodes, height_of, metadata_of, nodes_of, object_height, object_nodes,
    section_value, settings_from, valid_envelope, wasm_header, wasm_payloads, within_limits,
    SECTION,
};
#[allow(unused_imports)]
use crate::json::{json_member, json_of_bytes, names_of, Json};
use vstd::prelude::*;

verus! {

/// A list has one value more than those in it together, and lies one level above the
/// deepest of them; with one more value, both grow by what that value brings.
pub proof fn law_lists_count_their_values(values: Seq<Json>, value: Json)
    ensures
        nodes_of(Json::Array(Seq::empty())) == 1,
        height_of(Json::Array(Seq::empty())) == 0,
        nodes_of(Json::Array(values.push(value))) == nodes_of(Json::Array(values)) + nodes_of(
            value,
        ),
        height_of(Json::Array(values.push(value))) >= 1 + height_of(value),
        height_of(Json::Array(values.push(value))) >= height_of(Json::Array(values)),
        height_of(Json::Array(values.push(value))) == 1 + height_of(value) || height_of(
            Json::Array(values.push(value)),
        ) == height_of(Json::Array(values)),
{
    assert(values.push(value).drop_last() =~= values);
}

/// Members count as the values of a list do, whatever their names.
pub proof fn law_members_count_as_values(
    members: Seq<(Seq<char>, Json)>,
    name: Seq<char>,
    value: Json,
)
    ensures
        nodes_of(Json::Object(Seq::empty())) == 1,
        height_of(Json::Object(Seq::empty())) == 0,
        nodes_of(Json::Object(members.push((name, value)))) == nodes_of(Json::Object(members))
            + nodes_of(value),
        height_of(Json::Object(members.push((name, value)))) >= 1 + height_of(value),
        height_of(Json::Object(members.push((name, value)))) >= height_of(Json::Object(members)),
        height_of(Json::Object(members.push((name, value)))) == 1 + height_of(value) || height_of(
            Json::Object(members.push((name, value))),
        ) == height_of(Json::Object(members)),
{
    assert(members.push((name, value)).drop_last() =~= members);
}

/// A value is within the limits up to 32 levels and 8192 values; one that is stays so at a
/// lesser depth and after fewer values.
pub proof fn law_limits_are_those_of_the_whole(value: Json, depth: int, nodes: int)
    ensures
        within_limits(value, 0, 0) <==> height_of(value) <= 32 && nodes_of(value) <= 8192,
        within_limits(value, depth, nodes) && depth >= 0 && nodes >= 0 ==> within_limits(
            value,
            0,
            0,
        ),
{
}

/// Settings are accepted exactly where they could be read, keep to the limits, and are an
/// object with a version, defaults and a schema, and nothing else; what is accepted is not
/// changed.
pub proof fn law_accepted_settings_are_unchanged(value: Json)
    ensures
        section_value(Ok(value)) is Ok ==> section_value(Ok(value)) == Ok::<Json, Seq<char>>(value),
        section_value(Ok(value)) is Ok <==> value is Object && valid_envelope(value)
            && height_of(value) <= 32 && nodes_of(value) <= 8192,
        section_value(Ok(value)) is Ok ==> (json_member(value, "defaults"@) matches Some(
            defaults,
        ) && defaults is Object),
        section_value(Ok(value)) is Ok ==> forall|i: int|
            0 <= i < names_of(value->Object_0).len() ==> (#[trigger] names_of(value->Object_0)[i])
                == "formatVersion"@ || names_of(value->Object_0)[i] == "defaults"@ || names_of(
                value->Object_0,
            )[i] == "richschema"@,
{
}

/// A module without a section of settings has none, and all that it is made of is passed
/// over.
pub proof fn law_other_sections_are_passed_over(
    payloads: Seq<Result<Option<(Seq<char>, Seq<u8>)>, Seq<char>>>,
    i: int,
    found: Option<Json>,
)
    requires
        0 <= i <= payloads.len() <= 65537,
        forall|j: int|
            i <= j < payloads.len() ==> (#[trigger] payloads[j]) is Ok && !(
            payloads[j] matches Ok(Some((name, _))) && name == SECTION@),
    ensures
        settings_from(payloads, i, found) == Ok::<Option<Json>, Seq<char>>(found),
    decreases payloads.len() - i,
{
    if i < payloads.len() {
        assert(payloads[i] is Ok);
        law_other_sections_are_passed_over(payloads, i + 1, found);
    }
}

/// The one section of settings that a module has is what it carries, wherever it stands
/// among the others.
pub proof fn law_the_one_section_is_found(
    payloads: Seq<Result<Option<(Seq<char>, Seq<u8>)>, Seq<char>>>,
    i: int,
    k: int,
    value: Json,
)
    requires
        0 <= i <= k < payloads.len() <= 65537,
        forall|j: int|
            i <= j < payloads.len() && j != k ==> (#[trigger] payloads[j]) is Ok && !(
            payloads[j] matches Ok(Some((name, _))) && name == SECTION@),
        payloads[k] matches Ok(Some((name, data))) && name == SECTION@ && data.len() <= 1048576
            && section_value(json_of_bytes(data)) == Ok::<Json, Seq<char>>(value),
    ensures
        settings_from(payloads, i, None) == Ok::<Option<Json>, Seq<char>>(Some(value)),
    decreases k - i,
{
    if i < k {
        assert(payloads[i] is Ok);
        law_the_one_section_is_found(payloads, i + 1, k, value);
    } else {
        law_other_sections_are_passed_over(payloads, k + 1, Some(value));
    }
}

/// Bytes that do not begin as a module does, and too many of them, are refused without
/// being looked into.
pub proof fn law_only_modules_are_looked_into(bytes: Seq<u8>)
    ensures
        bytes.len() < 8 || bytes.len() > 33554432 ==> metadata_of(bytes) is Err,
        8 <= bytes.len() <= 33554432 && bytes.take(8) == wasm_header() ==> metadata_of(bytes)
            == settings_from(wasm_payloads(bytes), 0, None),
        bytes.len() >= 8 && (bytes[0] != 0 || bytes[1] != 97 || bytes[2] != 115 || bytes[3] != 109
            || bytes[4] != 1) ==> metadata_of(bytes) is Err,
{
    if bytes.len() >= 8 {
        assert(forall|i: int| 0 <= i < 8 ==> bytes.take(8)[i] == #[trigger] bytes[i]);
        assert(wasm_header()[0] == 0 && wasm_header()[1] == 97 && wasm_header()[2] == 115
            && wasm_header()[3] == 109 && wasm_header()[4] == 1);
    }
}

/// Settings of a theme have version one, an object of defaults and a schema of an object,
/// under their names; any other name, version or shape is refused.
pub proof fn law_settings_have_their_shape(
    value: Json,
    version: Json,
    defaults: Json,
    rich: Json,
    rich_version: Json,
    schema: Json,
    i: int,
)
    requires
        value is Object,
        json_member(value, "formatVersion"@) == Some(version),
        json_member(value, "defaults"@) == Some(defaults),
        json_member(value, "richschema"@) == Some(rich),
        json_member(rich, "formatVersion"@) == Some(rich_version),
        json_member(rich, "schema"@) == Some(schema),
    ensures
        valid_envelope(value) ==> version is Number && version->unsigned == Some(1u64)
            && rich_version is Number && rich_version->signed == Some(1i64) && defaults is Object
            && json_member(schema, "type"@) == Some(Json::Text("object"@)),
        valid_envelope(value) && 0 <= i < names_of(value->Object_0).len() ==> names_of(
            value->Object_0,
        )[i] == "formatVersion"@ || names_of(value->Object_0)[i] == "defaults"@ || names_of(
            value->Object_0,
        )[i] == "richschema"@,
        version is Number && version->unsigned == Some(1u64) && rich_version is Number
            && rich_version->signed == Some(1i64) && defaults is Object && json_member(
            schema,
            "type"@,
        ) == Some(Json::Text("object"@)) && (forall|k: int|
            0 <= k < names_of(value->Object_0).len() ==> (#[trigger] names_of(value->Object_0)[k])
                == "formatVersion"@ || names_of(value->Object_0)[k] == "defaults"@ || names_of(
                value->Object_0,
            )[k] == "richschema"@) ==> valid_envelope(value),
{
}

} // verus!
