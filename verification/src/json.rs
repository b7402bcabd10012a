//! The JSON values that go out as a method's parameters.

use vstd::prelude::*;

verus! {

/// A JSON value. An object keeps its members in the order they were put in.
#[derive(Debug, PartialEq, Eq)]
pub enum Json {
    Int(i64),
    Uint(u64),
    Bool(bool),
    Text(String),
    Array(Vec<Json>),
    Object(Vec<(String, Json)>),
}

/// What a [`Json`] value stands for.
pub enum JsonValue {
    Int(int),
    Bool(bool),
    Text(Seq<char>),
    Array(Seq<JsonValue>),
    Object(Seq<(Seq<char>, JsonValue)>),
}

impl View for Json {
    type V = JsonValue;

    open spec fn view(&self) -> JsonValue
        decreases self,
    {
        match self {
            Json::Int(n) => JsonValue::Int(*n as int),
            Json::Uint(n) => JsonValue::Int(*n as int),
            Json::Bool(b) => JsonValue::Bool(*b),
            Json::Text(s) => JsonValue::Text(s@),
            Json::Array(items) => JsonValue::Array(
                Seq::new(
                    items@.len(),
                    |i: int|
                        if 0 <= i < items@.len() {
                            items@[i].view()
                        } else {
                            arbitrary()
                        },
                ),
            ),
            Json::Object(members) => JsonValue::Object(
                Seq::new(
                    members@.len(),
                    |i: int|
                        if 0 <= i < members@.len() {
                            (members@[i].0@, members@[i].1.view())
                        } else {
                            arbitrary()
                        },
                ),
            ),
        }
    }
}

/// What a list of values stands for.
pub open spec fn items_view(items: Seq<Json>) -> Seq<JsonValue> {
    Seq::new(items.len(), |i: int| items[i]@)
}

/// What a list of members stands for.
pub open spec fn members_view(members: Seq<(String, Json)>) -> Seq<(Seq<char>, JsonValue)> {
    Seq::new(members.len(), |i: int| (members[i].0@, members[i].1@))
}

/// Whether one of `members` is called `name`.
pub open spec fn is_named(members: Seq<(Seq<char>, JsonValue)>, name: Seq<char>) -> bool {
    exists|i: int| 0 <= i < members.len() && (#[trigger] members[i]).0 == name
}

/// Whether no two of `members` share a name.
pub open spec fn distinct_names(members: Seq<(Seq<char>, JsonValue)>) -> bool {
    forall|i: int, j: int|
        0 <= i < j < members.len() ==> (#[trigger] members[i]).0 != (#[trigger] members[j]).0
}

impl JsonValue {
    /// Whether this is an object with a member called `name`.
    pub open spec fn has_member(self, name: Seq<char>) -> bool {
        match self {
            JsonValue::Object(members) => is_named(members, name),
            _ => false,
        }
    }

    /// Whether this is an object in which no two members share a name.
    pub open spec fn has_distinct_names(self) -> bool {
        match self {
            JsonValue::Object(members) => distinct_names(members),
            _ => false,
        }
    }
}

/// Members with one more part after them: a member, or nothing where there is
/// no value.
pub open spec fn with_part(
    members: Seq<(Seq<char>, JsonValue)>,
    name: Seq<char>,
    value: Option<JsonValue>,
) -> Seq<(Seq<char>, JsonValue)> {
    match value {
        Some(v) => members.push((name, v)),
        None => members,
    }
}

/// The members of an object, from its parts in order.
pub open spec fn members_of(parts: Seq<(Seq<char>, Option<JsonValue>)>) -> Seq<
    (Seq<char>, JsonValue),
>
    decreases parts.len(),
{
    if parts.len() == 0 {
        Seq::empty()
    } else {
        with_part(members_of(parts.drop_last()), parts.last().0, parts.last().1)
    }
}

pub broadcast proof fn lemma_members_of_push(
    parts: Seq<(Seq<char>, Option<JsonValue>)>,
    part: (Seq<char>, Option<JsonValue>),
)
    ensures
        #[trigger] members_of(parts.push(part)) == with_part(members_of(parts), part.0, part.1),
{
    assert(parts.push(part).drop_last() =~= parts);
}

/// The object with these parts.
pub open spec fn object_of(parts: Seq<(Seq<char>, Option<JsonValue>)>) -> JsonValue {
    JsonValue::Object(members_of(parts))
}

/// What an optional value stands for.
pub open spec fn optional_view(value: Option<Json>) -> Option<JsonValue> {
    match value {
        Some(json) => Some(json@),
        None => None,
    }
}

/// One more part adds its name where it has a value, and keeps names distinct
/// where its own is new.
proof fn lemma_with_part(
    members: Seq<(Seq<char>, JsonValue)>,
    name: Seq<char>,
    value: Option<JsonValue>,
)
    ensures
        forall|other: Seq<char>| #[trigger]
            is_named(with_part(members, name, value), other) <==> is_named(members, other) || (
            value is Some && name == other),
        distinct_names(members) && !is_named(members, name) ==> distinct_names(
            with_part(members, name, value),
        ),
{
    let after = with_part(members, name, value);
    assert forall|other: Seq<char>| #[trigger] is_named(after, other) <==> is_named(members, other)
        || (value is Some && name == other) by {
        if is_named(members, other) {
            let i = choose|i: int| 0 <= i < members.len() && (#[trigger] members[i]).0 == other;
            assert(after[i].0 == other);
        } else if is_named(after, other) {
            let i = choose|i: int| 0 <= i < after.len() && (#[trigger] after[i]).0 == other;
            if i < members.len() {
                assert(members[i].0 == other);
            }
        } else if value is Some {
            assert(after[members.len() as int].0 == name);
        }
    }
    if distinct_names(members) && !is_named(members, name) {
        assert forall|i: int, j: int| 0 <= i < j < after.len() implies (#[trigger] after[i]).0 != (
        #[trigger] after[j]).0 by {
            assert(after[i] == members[i]);
            if j < members.len() {
                assert(after[j] == members[j]);
            }
        }
    }
}

/// An object names exactly the parts that have a value, each once, where no two
/// parts share a name.
pub proof fn law_object_names_what_it_has(parts: Seq<(Seq<char>, Option<JsonValue>)>)
    requires
        forall|i: int, j: int|
            0 <= i < j < parts.len() ==> (#[trigger] parts[i]).0 != (#[trigger] parts[j]).0,
    ensures
        object_of(parts).has_distinct_names(),
        forall|name: Seq<char>| #[trigger]
            object_of(parts).has_member(name) <==> exists|k: int|
                0 <= k < parts.len() && (#[trigger] parts[k]).0 == name && parts[k].1 is Some,
    decreases parts.len(),
{
    if parts.len() > 0 {
        let init = parts.drop_last();
        let part = parts.last();
        law_object_names_what_it_has(init);
        lemma_with_part(members_of(init), part.0, part.1);
        assert forall|name: Seq<char>| #[trigger]
            object_of(parts).has_member(name) <==> exists|k: int|
                0 <= k < parts.len() && (#[trigger] parts[k]).0 == name && parts[k].1 is Some by {
            assert(object_of(parts).has_member(name) <==> object_of(init).has_member(name) || (
            part.1 is Some && part.0 == name));
            if object_of(init).has_member(name) {
                let k = choose|k: int|
                    0 <= k < init.len() && (#[trigger] init[k]).0 == name && init[k].1 is Some;
                assert(parts[k].0 == name);
            } else if part.1 is Some && part.0 == name {
                assert(parts[parts.len() - 1].0 == name);
            } else if exists|k: int|
                0 <= k < parts.len() && (#[trigger] parts[k]).0 == name && parts[k].1 is Some {
                let k = choose|k: int|
                    0 <= k < parts.len() && (#[trigger] parts[k]).0 == name && parts[k].1 is Some;
                assert(init[k].0 == name);
            }
        }
        if object_of(init).has_member(part.0) {
            let k = choose|k: int|
                0 <= k < init.len() && (#[trigger] init[k]).0 == part.0 && init[k].1 is Some;
            assert(parts[k].0 != parts[parts.len() - 1].0);
        }
    }
}

/// Put a part after the others.
pub fn push_part(members: &mut Vec<(String, Json)>, name: &str, value: Option<Json>)
    ensures
        members_view(final(members)@) == with_part(
            members_view(old(members)@),
            name@,
            optional_view(value),
        ),
        value is None ==> final(members)@ == old(members)@,
        value matches Some(json) ==> ({
            &&& final(members)@.len() == old(members)@.len() + 1
            &&& final(members)@.drop_last() == old(members)@
            &&& final(members)@.last().0@ == name@
            &&& final(members)@.last().1 == json
        }),
{
    if let Some(json) = value {
        members.push((name.to_owned(), json));
        assert(members_view(members@) =~= members_view(old(members)@).push((name@, json@)));
    }
}

/// No members yet.
pub fn no_members() -> (r: Vec<(String, Json)>)
    ensures
        r@.len() == 0,
        members_view(r@) == members_of(Seq::empty()),
{
    let r: Vec<(String, Json)> = Vec::new();
    assert(members_view(r@) =~= members_of(Seq::empty()));
    r
}

/// An object of `members`.
pub fn object(members: Vec<(String, Json)>) -> (r: Json)
    ensures
        r == Json::Object(members),
        r@ == JsonValue::Object(members_view(members@)),
{
    let r = Json::Object(members);
    proof {
        reveal_with_fuel(<Json as View>::view, 2);
        assert(r@->Object_0 =~= members_view(members@));
    }
    r
}

/// An array of `items`.
pub fn array(items: Vec<Json>) -> (r: Json)
    ensures
        r == Json::Array(items),
        r@ == JsonValue::Array(items_view(items@)),
{
    let r = Json::Array(items);
    proof {
        reveal_with_fuel(<Json as View>::view, 2);
        assert(r@->Array_0 =~= items_view(items@));
    }
    r
}

/// What an optional text stands for.
pub open spec fn optional_text_view(s: Option<&str>) -> Option<JsonValue> {
    match s {
        Some(t) => Some(JsonValue::Text(t@)),
        None => None,
    }
}

/// An optional text.
pub fn optional_text(s: Option<&str>) -> (r: Option<Json>)
    ensures
        optional_view(r) == optional_text_view(s),
        r is Some <==> s is Some,
        s is Some ==> (r matches Some(Json::Text(t)) && t@ == s->0@),
{
    match s {
        Some(t) => Some(text(t)),
        None => None,
    }
}

/// The text `s`.
pub fn text(s: &str) -> (r: Json)
    ensures
        r@ == JsonValue::Text(s@),
        r matches Json::Text(t) && t@ == s@,
{
    Json::Text(s.to_owned())
}

/// A value stands for what it holds: a number, a boolean or a text for itself,
/// an array for its items and an object for its members, each in its place.
pub proof fn law_json_stands_for_what_it_holds(json: Json)
    ensures
        json matches Json::Int(n) ==> json@ == JsonValue::Int(n as int),
        json matches Json::Uint(n) ==> json@ == JsonValue::Int(n as int),
        json matches Json::Bool(b) ==> json@ == JsonValue::Bool(b),
        json matches Json::Text(s) ==> json@ == JsonValue::Text(s@),
        json matches Json::Array(items) ==> (json@ matches JsonValue::Array(values) && values.len()
            == items@.len() && forall|i: int|
            0 <= i < items@.len() ==> #[trigger] values[i] == items@[i]@),
        json matches Json::Object(members) ==> (json@ matches JsonValue::Object(values)
            && values.len() == members@.len() && forall|i: int|
            0 <= i < members@.len() ==> (#[trigger] values[i]).0 == members@[i].0@ && values[i].1
                == members@[i].1@),
{
    reveal_with_fuel(<Json as View>::view, 2);
}

/// A part with a value is the object's last member, after those of the parts
/// before it; a part without one leaves the object as it was.
pub proof fn law_a_part_comes_last(
    parts: Seq<(Seq<char>, Option<JsonValue>)>,
    name: Seq<char>,
    value: JsonValue,
)
    ensures
        object_of(parts.push((name, None))) == object_of(parts),
        object_of(parts) matches JsonValue::Object(before) && object_of(
            parts.push((name, Some(value))),
        ) == JsonValue::Object(before.push((name, value))),
        parts.len() == 0 ==> object_of(parts)->Object_0.len() == 0,
{
    broadcast use lemma_members_of_push;

}

} // verus!
