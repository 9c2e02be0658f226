//! JSON values, as serde_json holds them, and what the library reads and writes of
//! them.
use vstd::prelude::*;

verus! {

/// What a JSON value holds. The members of an object stand in the order of their
/// names.
pub ghost enum Json {
    Null,
    Bool(bool),
    /// A number: as it is written, and as an integer where it is one.
    Number { text: Seq<char>, unsigned: Option<u64>, signed: Option<i64> },
    Text(Seq<char>),
    Array(Seq<Json>),
    Object(Seq<(Seq<char>, Json)>),
}

/// Whether a text stands before another, by the characters' numbers.
pub open spec fn text_before(a: Seq<char>, b: Seq<char>) -> bool
    decreases a.len(),
{
    b.len() > 0 && (a.len() == 0 || (a[0] as u32) < (b[0] as u32) || (a[0] == b[0] && text_before(
        a.drop_first(),
        b.drop_first(),
    )))
}

/// The member of a name.
pub open spec fn member(members: Seq<(Seq<char>, Json)>, name: Seq<char>) -> Option<Json>
    decreases members.len(),
{
    if members.len() == 0 {
        None
    } else if members[0].0 == name {
        Some(members[0].1)
    } else {
        member(members.drop_first(), name)
    }
}

/// The members with one more, at its place in the order, or in place of the one
/// that has its name.
pub open spec fn with_member(
    members: Seq<(Seq<char>, Json)>,
    name: Seq<char>,
    value: Json,
) -> Seq<(Seq<char>, Json)>
    decreases members.len(),
{
    if members.len() == 0 || text_before(name, members[0].0) {
        seq![(name, value)] + members
    } else if members[0].0 == name {
        members.update(0, (name, value))
    } else {
        seq![members[0]] + with_member(members.drop_first(), name, value)
    }
}

/// The members without the one of a name.
pub open spec fn without_member(members: Seq<(Seq<char>, Json)>, name: Seq<char>) -> Seq<
    (Seq<char>, Json),
>
    decreases members.len(),
{
    if members.len() == 0 {
        members
    } else if members[0].0 == name {
        members.drop_first()
    } else {
        seq![members[0]] + without_member(members.drop_first(), name)
    }
}

/// Whether each text stands before all that follow it.
pub open spec fn in_name_order(names: Seq<Seq<char>>) -> bool {
    forall|i: int, j: int|
        0 <= i < j < names.len() ==> text_before(#[trigger] names[i], #[trigger] names[j])
}

/// No text stands before itself.
pub proof fn lemma_not_before_itself(a: Seq<char>)
    ensures
        !text_before(a, a),
    decreases a.len(),
{
    if a.len() > 0 {
        lemma_not_before_itself(a.drop_first());
    }
}

/// Where names stand in order, the member of the name at a place is the one at
/// that place.
pub proof fn lemma_member_at(members: Seq<(Seq<char>, Json)>, i: int)
    requires
        in_name_order(names_of(members)),
        0 <= i < members.len(),
    ensures
        member(members, members[i].0) == Some(members[i].1),
    decreases members.len(),
{
    let names = names_of(members);
    if i > 0 {
        assert(text_before(names[0], names[i]));
        if members[0].0 == members[i].0 {
            lemma_not_before_itself(members[0].0);
        }
        let rest = members.drop_first();
        assert(names_of(rest) =~= names.drop_first());
        assert forall|k: int, l: int| 0 <= k < l < names_of(rest).len() implies text_before(
            #[trigger] names_of(rest)[k],
            #[trigger] names_of(rest)[l],
        ) by {
            assert(text_before(names[k + 1], names[l + 1]));
        }
        lemma_member_at(rest, i - 1);
        assert(rest[i - 1] == members[i]);
    }
}

/// With a member of a name, that name has it, and every other name has what it
/// had.
pub proof fn law_inserted_member(
    members: Seq<(Seq<char>, Json)>,
    name: Seq<char>,
    value: Json,
    other: Seq<char>,
)
    ensures
        member(with_member(members, name, value), name) == Some(value),
        other != name ==> member(with_member(members, name, value), other) == member(
            members,
            other,
        ),
    decreases members.len(),
{
    let next = with_member(members, name, value);
    if members.len() == 0 || text_before(name, members[0].0) {
        assert(next.drop_first() =~= members);
    } else if members[0].0 == name {
        assert(next.drop_first() =~= members.drop_first());
    } else {
        law_inserted_member(members.drop_first(), name, value, other);
        assert(next.drop_first() =~= with_member(members.drop_first(), name, value));
    }
}

/// Of two different characters one has the smaller number.
proof fn lemma_one_char_before(a: char, b: char)
    requires
        a != b,
    ensures
        (a as u32) < (b as u32) || (b as u32) < (a as u32),
{
}

/// Of two different texts one stands before the other.
proof fn lemma_one_before(a: Seq<char>, b: Seq<char>)
    ensures
        text_before(a, b) || text_before(b, a) || a == b,
    decreases a.len(),
{
    if a.len() > 0 && b.len() > 0 {
        if a[0] == b[0] {
            lemma_one_before(a.drop_first(), b.drop_first());
            if a.drop_first() == b.drop_first() {
                assert(a =~= seq![a[0]] + a.drop_first());
                assert(b =~= seq![b[0]] + b.drop_first());
            }
        } else {
            lemma_one_char_before(a[0], b[0]);
        }
    } else if a.len() == 0 && b.len() == 0 {
        assert(a =~= b);
    }
}

/// What stands before a text stands before all that follow it.
proof fn lemma_before_all(a: Seq<char>, b: Seq<char>, c: Seq<char>)
    requires
        text_before(a, b),
        text_before(b, c),
    ensures
        text_before(a, c),
    decreases a.len(),
{
    if a.len() > 0 && a[0] == b[0] && b[0] == c[0] {
        lemma_before_all(a.drop_first(), b.drop_first(), c.drop_first());
    }
}

/// Whether a text stands before all names of members.
spec fn before_names(a: Seq<char>, members: Seq<(Seq<char>, Json)>) -> bool {
    forall|i: int| 0 <= i < members.len() ==> text_before(a, #[trigger] members[i].0)
}

/// Members in the order of their names: the first stands before the rest, which is
/// in order too.
proof fn lemma_order_parts(members: Seq<(Seq<char>, Json)>)
    requires
        members.len() > 0,
    ensures
        in_name_order(names_of(members)) <==> before_names(members[0].0, members.drop_first())
            && in_name_order(names_of(members.drop_first())),
{
    let rest = members.drop_first();
    let names = names_of(members);
    if in_name_order(names) {
        assert forall|i: int| 0 <= i < rest.len() implies text_before(
            members[0].0,
            #[trigger] rest[i].0,
        ) by {
            assert(text_before(names[0], names[i + 1]));
        }
        assert forall|k: int, l: int| 0 <= k < l < names_of(rest).len() implies text_before(
            #[trigger] names_of(rest)[k],
            #[trigger] names_of(rest)[l],
        ) by {
            assert(text_before(names[k + 1], names[l + 1]));
        }
    }
    if before_names(members[0].0, rest) && in_name_order(names_of(rest)) {
        assert forall|k: int, l: int| 0 <= k < l < names.len() implies text_before(
            #[trigger] names[k],
            #[trigger] names[l],
        ) by {
            assert(names[l] == rest[l - 1].0);
            if k > 0 {
                assert(text_before(names_of(rest)[k - 1], names_of(rest)[l - 1]));
            }
        }
    }
}

/// What stands before all names stands before them when one more comes, if it
/// stands before that one too.
proof fn lemma_before_inserted(
    a: Seq<char>,
    members: Seq<(Seq<char>, Json)>,
    name: Seq<char>,
    value: Json,
)
    requires
        text_before(a, name),
        before_names(a, members),
    ensures
        before_names(a, with_member(members, name, value)),
    decreases members.len(),
{
    let next = with_member(members, name, value);
    if members.len() == 0 || text_before(name, members[0].0) {
        assert forall|i: int| 0 <= i < next.len() implies text_before(a, #[trigger] next[i].0) by {
            if i > 0 {
                assert(next[i] == members[i - 1]);
            }
        }
    } else if members[0].0 != name {
        let rest = members.drop_first();
        assert forall|i: int| 0 <= i < rest.len() implies text_before(a, #[trigger] rest[i].0) by {
            assert(rest[i] == members[i + 1]);
        }
        lemma_before_inserted(a, rest, name, value);
        let after = with_member(rest, name, value);
        assert forall|i: int| 0 <= i < next.len() implies text_before(a, #[trigger] next[i].0) by {
            if i > 0 {
                assert(next[i] == after[i - 1]);
            } else {
                assert(next[0] == members[0]);
            }
        }
    }
}

/// With one more member, members stay in the order of their names.
pub proof fn lemma_inserted_in_order(
    members: Seq<(Seq<char>, Json)>,
    name: Seq<char>,
    value: Json,
)
    requires
        in_name_order(names_of(members)),
    ensures
        in_name_order(names_of(with_member(members, name, value))),
    decreases members.len(),
{
    let next = with_member(members, name, value);
    if members.len() > 0 {
        lemma_order_parts(members);
    }
    lemma_order_parts(next);
    if members.len() == 0 || text_before(name, members[0].0) {
        assert(next.drop_first() =~= members);
        assert forall|i: int| 0 <= i < members.len() implies text_before(
            name,
            #[trigger] members[i].0,
        ) by {
            if i > 0 {
                assert(members.drop_first()[i - 1] == members[i]);
                lemma_before_all(name, members[0].0, members[i].0);
            }
        }
    } else if members[0].0 == name {
        assert(next.drop_first() =~= members.drop_first());
    } else {
        let rest = members.drop_first();
        assert(next.drop_first() =~= with_member(rest, name, value));
        lemma_inserted_in_order(rest, name, value);
        lemma_one_before(name, members[0].0);
        lemma_before_inserted(members[0].0, rest, name, value);
    }
}

/// Members in order, without the one of a name: they stay in order, no member has
/// that name any more, and every other name has what it had.
pub proof fn law_removed_member(
    members: Seq<(Seq<char>, Json)>,
    name: Seq<char>,
    other: Seq<char>,
)
    requires
        in_name_order(names_of(members)),
    ensures
        in_name_order(names_of(without_member(members, name))),
        member(without_member(members, name), name) is None,
        other != name ==> member(without_member(members, name), other) == member(members, other),
    decreases members.len(),
{
    let next = without_member(members, name);
    if members.len() > 0 {
        let rest = members.drop_first();
        lemma_order_parts(members);
        if members[0].0 == name {
            lemma_no_member(rest, name);
        } else {
            law_removed_member(rest, name, other);
            let after = without_member(rest, name);
            lemma_before_removed(members[0].0, rest, name);
            assert(next.drop_first() =~= after);
            lemma_order_parts(next);
        }
    }
}

/// A name that stands before all names has no member.
proof fn lemma_no_member(members: Seq<(Seq<char>, Json)>, name: Seq<char>)
    requires
        before_names(name, members),
    ensures
        member(members, name) is None,
    decreases members.len(),
{
    if members.len() > 0 {
        lemma_not_before_itself(name);
        assert(text_before(name, members[0].0));
        let rest = members.drop_first();
        assert forall|i: int| 0 <= i < rest.len() implies text_before(
            name,
            #[trigger] rest[i].0,
        ) by {
            assert(rest[i] == members[i + 1]);
        }
        lemma_no_member(rest, name);
    }
}

/// What stands before all names stands before those that are left.
proof fn lemma_before_removed(a: Seq<char>, members: Seq<(Seq<char>, Json)>, name: Seq<char>)
    requires
        before_names(a, members),
    ensures
        before_names(a, without_member(members, name)),
    decreases members.len(),
{
    let next = without_member(members, name);
    if members.len() > 0 {
        let rest = members.drop_first();
        assert forall|i: int| 0 <= i < rest.len() implies text_before(a, #[trigger] rest[i].0) by {
            assert(rest[i] == members[i + 1]);
        }
        if members[0].0 != name {
            lemma_before_removed(a, rest, name);
            let after = without_member(rest, name);
            assert forall|i: int| 0 <= i < next.len() implies text_before(
                a,
                #[trigger] next[i].0,
            ) by {
                if i > 0 {
                    assert(next[i] == after[i - 1]);
                } else {
                    assert(next[0] == members[0]);
                }
            }
        }
    }
}

/// Members in order stay as they are where a name gets what it has.
pub proof fn lemma_same_member(members: Seq<(Seq<char>, Json)>, name: Seq<char>)
    requires
        in_name_order(names_of(members)),
        member(members, name) is Some,
    ensures
        with_member(members, name, member(members, name)->0) == members,
    decreases members.len(),
{
    let value = member(members, name)->0;
    let rest = members.drop_first();
    lemma_order_parts(members);
    if members[0].0 == name {
        lemma_not_before_itself(name);
        assert(members.update(0, (name, value)) =~= members);
    } else {
        if text_before(name, members[0].0) {
            assert forall|i: int| 0 <= i < rest.len() implies text_before(
                name,
                #[trigger] rest[i].0,
            ) by {
                lemma_before_all(name, members[0].0, rest[i].0);
            }
            lemma_no_member(rest, name);
        }
        lemma_same_member(rest, name);
        assert(seq![members[0]] + rest =~= members);
    }
}

/// A name that has a member is one of the names.
pub proof fn lemma_member_named(members: Seq<(Seq<char>, Json)>, name: Seq<char>)
    requires
        member(members, name) is Some,
    ensures
        names_of(members).contains(name),
    decreases members.len(),
{
    if members[0].0 == name {
        assert(names_of(members)[0] == name);
    } else {
        lemma_member_named(members.drop_first(), name);
        let rest = names_of(members.drop_first());
        let i = choose|i: int| 0 <= i < rest.len() && rest[i] == name;
        assert(names_of(members)[i + 1] == name);
    }
}

/// The names of members, in order.
pub open spec fn names_of(members: Seq<(Seq<char>, Json)>) -> Seq<Seq<char>> {
    Seq::new(members.len(), |i: int| members[i].0)
}

/// The member of a name, where the value is an object that has it.
pub open spec fn json_member(value: Json, name: Seq<char>) -> Option<Json> {
    match value {
        Json::Object(members) => member(members, name),
        _ => None,
    }
}

/// An object with one more member, or another in place of the one of that name.
pub open spec fn json_with(value: Json, name: Seq<char>, item: Json) -> Json {
    Json::Object(with_member(value->Object_0, name, item))
}

/// An object without the member of a name.
pub open spec fn json_without(value: Json, name: Seq<char>) -> Json {
    Json::Object(without_member(value->Object_0, name))
}

/// The kinds of JSON values.
#[derive(Clone, Copy, Debug, PartialEq, Eq, Structural)]
pub enum JsonKind {
    Null,
    Bool,
    Number,
    Text,
    Array,
    Object,
}

/// The kind of a value.
pub open spec fn kind_of(value: Json) -> JsonKind {
    match value {
        Json::Null => JsonKind::Null,
        Json::Bool(_) => JsonKind::Bool,
        Json::Number { .. } => JsonKind::Number,
        Json::Text(_) => JsonKind::Text,
        Json::Array(_) => JsonKind::Array,
        Json::Object(_) => JsonKind::Object,
    }
}

/// A JSON value of serde_json.
#[verifier::external_type_specification]
#[verifier::external_body]
pub struct ExValue(serde_json::Value);

/// What a value of serde_json holds.
pub uninterp spec fn json_tree(value: serde_json::Value) -> Json;

/// The value that bytes are the text of, or why they are none.
pub uninterp spec fn json_of_bytes(bytes: Seq<u8>) -> Result<Json, Seq<char>>;

/// The value that a text is of, or why it is of none.
pub uninterp spec fn json_of_text(text: Seq<char>) -> Result<Json, Seq<char>>;

/// How a value is written out.
pub uninterp spec fn json_text(value: Json) -> Seq<char>;

/// What a list of values holds.
pub open spec fn json_trees(values: Seq<serde_json::Value>) -> Seq<Json> {
    Seq::new(values.len(), |i: int| json_tree(values[i]))
}

/// The outcome of reading a value.
pub open spec fn read_view(r: Result<serde_json::Value, String>) -> Result<Json, Seq<char>> {
    match r {
        Ok(value) => Ok(json_tree(value)),
        Err(error) => Err(error@),
    }
}

/// `serde_json::from_slice`: the value, or the error's text, depends on the bytes
/// alone.
#[verifier::external_body]
pub(crate) fn parse_bytes(bytes: &[u8]) -> (r: Result<serde_json::Value, String>)
    ensures
        read_view(r) == json_of_bytes(bytes@),
{
    serde_json::from_slice(bytes).map_err(|error| error.to_string())
}

/// `serde_json::from_str`: the value, or the error's text, depends on the text
/// alone.
#[verifier::external_body]
pub(crate) fn parse_text(text: &str) -> (r: Result<serde_json::Value, String>)
    ensures
        read_view(r) == json_of_text(text@),
{
    serde_json::from_str(text).map_err(|error| error.to_string())
}

/// The variant of a `serde_json::Value`.
#[verifier::external_body]
pub(crate) fn kind(value: &serde_json::Value) -> (r: JsonKind)
    ensures
        r == kind_of(json_tree(*value)),
{
    match value {
        serde_json::Value::Null => JsonKind::Null,
        serde_json::Value::Bool(_) => JsonKind::Bool,
        serde_json::Value::Number(_) => JsonKind::Number,
        serde_json::Value::String(_) => JsonKind::Text,
        serde_json::Value::Array(_) => JsonKind::Array,
        serde_json::Value::Object(_) => JsonKind::Object,
    }
}

/// `serde_json::Value::get` with a name: the member of an object; none where the
/// value is no object or has no such member.
#[verifier::external_body]
pub(crate) fn get<'a>(value: &'a serde_json::Value, name: &str) -> (r: Option<
    &'a serde_json::Value,
>)
    ensures
        match r {
            Some(item) => json_member(json_tree(*value), name@) == Some(json_tree(*item)),
            None => json_member(json_tree(*value), name@) is None,
        },
{
    value.get(name)
}

/// `serde_json::Value::as_u64`: the number, where it is an integer that fits.
#[verifier::external_body]
pub(crate) fn as_u64(value: &serde_json::Value) -> (r: Option<u64>)
    ensures
        r == (match json_tree(*value) {
            Json::Number { unsigned, .. } => unsigned,
            _ => None,
        }),
{
    value.as_u64()
}

/// `serde_json::Value::as_i64`: the number, where it is an integer that fits.
#[verifier::external_body]
pub(crate) fn as_i64(value: &serde_json::Value) -> (r: Option<i64>)
    ensures
        r == (match json_tree(*value) {
            Json::Number { signed, .. } => signed,
            _ => None,
        }),
{
    value.as_i64()
}

/// `serde_json::Value::as_bool`: whether a value is true or false, where it is either.
#[verifier::external_body]
pub(crate) fn as_bool(value: &serde_json::Value) -> (r: Option<bool>)
    ensures
        match r {
            Some(b) => json_tree(*value) == Json::Bool(b),
            None => kind_of(json_tree(*value)) != JsonKind::Bool,
        },
{
    value.as_bool()
}

/// `serde_json::Value::as_str`: the text of a text value.
#[verifier::external_body]
pub(crate) fn as_str(value: &serde_json::Value) -> (r: Option<&str>)
    ensures
        match r {
            Some(text) => json_tree(*value) == Json::Text(text@),
            None => kind_of(json_tree(*value)) != JsonKind::Text,
        },
{
    value.as_str()
}

/// `serde_json::Value::as_array`: the items of an array.
#[verifier::external_body]
pub(crate) fn items(value: &serde_json::Value) -> (r: Option<&Vec<serde_json::Value>>)
    ensures
        match r {
            Some(items) => json_tree(*value) == Json::Array(json_trees(items@)),
            None => kind_of(json_tree(*value)) != JsonKind::Array,
        },
{
    value.as_array()
}

/// The views of a list of texts, in order.
pub open spec fn texts(s: Seq<String>) -> Seq<Seq<char>> {
    Seq::new(s.len(), |i: int| s[i]@)
}

/// `serde_json::Map::keys` of an object: the names of its members, in order.
#[verifier::external_body]
pub(crate) fn names(value: &serde_json::Value) -> (r: Vec<String>)
    ensures
        texts(r@) == (match json_tree(*value) {
            Json::Object(members) => names_of(members),
            _ => Seq::empty(),
        }),
        in_name_order(texts(r@)),
{
    value.as_object().map(|members| members.keys().cloned().collect()).unwrap_or_default()
}

/// `serde_json::Value::clone`: a value that holds the same.
#[verifier::external_body]
pub(crate) fn copy(value: &serde_json::Value) -> (r: serde_json::Value)
    ensures
        json_tree(r) == json_tree(*value),
{
    value.clone()
}

/// `serde_json::Map::new`: an object without members.
#[verifier::external_body]
pub(crate) fn new_object() -> (r: serde_json::Value)
    ensures
        json_tree(r) == Json::Object(Seq::empty()),
{
    serde_json::Value::Object(serde_json::Map::new())
}

/// `serde_json::Value::Null`: the value that stands for none.
#[verifier::external_body]
pub(crate) fn null_value() -> (r: serde_json::Value)
    ensures
        json_tree(r) == Json::Null,
{
    serde_json::Value::Null
}

/// `serde_json::Value::String`: the value of a text.
#[verifier::external_body]
pub(crate) fn text_value(text: &str) -> (r: serde_json::Value)
    ensures
        json_tree(r) == Json::Text(text@),
{
    serde_json::Value::String(text.to_owned())
}

/// `serde_json::Map::insert` into an object: the member of that name is the given
/// one. What is no object stays as it is.
#[verifier::external_body]
pub(crate) fn insert(value: &mut serde_json::Value, name: &str, item: serde_json::Value)
    ensures
        json_tree(*final(value)) == (if json_tree(*old(value)) is Object {
            json_with(json_tree(*old(value)), name@, json_tree(item))
        } else {
            json_tree(*old(value))
        }),
{
    value.as_object_mut().map(|members| members.insert(name.to_owned(), item));
}

/// `serde_json::Map::remove` from an object: no member has that name, and the
/// result is the one that had it. What is no object stays as it is.
#[verifier::external_body]
pub(crate) fn remove(value: &mut serde_json::Value, name: &str) -> (r: Option<serde_json::Value>)
    ensures
        json_tree(*final(value)) == (if json_tree(*old(value)) is Object {
            json_without(json_tree(*old(value)), name@)
        } else {
            json_tree(*old(value))
        }),
        match r {
            Some(item) => json_member(json_tree(*old(value)), name@) == Some(json_tree(item)),
            None => json_member(json_tree(*old(value)), name@) is None,
        },
{
    value.as_object_mut().and_then(|members| members.remove(name))
}

/// `serde_json::Value::to_string`: how the value is written out depends on what it
/// holds alone.
#[verifier::external_body]
pub(crate) fn written(value: &serde_json::Value) -> (r: String)
    ensures
        r@ == json_text(json_tree(*value)),
{
    value.to_string()
}

} // verus!
