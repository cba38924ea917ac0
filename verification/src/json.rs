use vstd::prelude::*;

verus! {

/// A JSON document as this library reads it.
///
/// A number keeps only its value as a signed 64-bit integer, when it has one
/// (`None` for fractions and for integers outside the `i64` range), since that
/// is the only numeric reading the API logic makes.
#[derive(Debug)]
pub enum JsonValue {
    Null,
    Bool(bool),
    Number(Option<i64>),
    Str(String),
    Array(Vec<JsonValue>),
    Object(Vec<(String, JsonValue)>),
}

/// The value stored under `key` among the members of an object: the first
/// member with that name, or `Null` when there is none.
pub open spec fn member_value(members: Seq<(String, JsonValue)>, key: Seq<char>) -> JsonValue
    decreases members.len(),
{
    if members.len() == 0 {
        JsonValue::Null
    } else if members[0].0@ == key {
        members[0].1
    } else {
        member_value(members.drop_first(), key)
    }
}

/// `value[key]`: the member named `key` of an object, `Null` otherwise.
pub open spec fn field_of(value: JsonValue, key: Seq<char>) -> JsonValue {
    match value {
        JsonValue::Object(members) => member_value(members@, key),
        _ => JsonValue::Null,
    }
}

/// `value[index]`: the element at `index` of an array, `Null` otherwise.
pub open spec fn element_of(value: JsonValue, index: int) -> JsonValue {
    match value {
        JsonValue::Array(items) => if 0 <= index < items@.len() {
            items@[index]
        } else {
            JsonValue::Null
        },
        _ => JsonValue::Null,
    }
}

/// A missing value reads as `Null`.
pub open spec fn or_null(value: Option<&JsonValue>) -> JsonValue {
    match value {
        Some(v) => *v,
        None => JsonValue::Null,
    }
}

pub open spec fn bool_of(value: JsonValue) -> Option<bool> {
    match value {
        JsonValue::Bool(b) => Some(b),
        _ => None,
    }
}

pub open spec fn i64_of(value: JsonValue) -> Option<i64> {
    match value {
        JsonValue::Number(n) => n,
        _ => None,
    }
}

pub open spec fn str_of(value: JsonValue) -> Option<Seq<char>> {
    match value {
        JsonValue::Str(s) => Some(s@),
        _ => None,
    }
}

/// The text of a string value, or the empty text for any other value.
pub open spec fn str_or_empty_of(value: JsonValue) -> Seq<char> {
    match str_of(value) {
        Some(s) => s,
        None => Seq::empty(),
    }
}

pub open spec fn is_nonempty_array(value: JsonValue) -> bool {
    match value {
        JsonValue::Array(items) => items@.len() > 0,
        _ => false,
    }
}

/// `value[key]` on a value that may be missing.
pub fn field<'a>(value: Option<&'a JsonValue>, key: &str) -> (r: Option<&'a JsonValue>)
    ensures
        or_null(r) == field_of(or_null(value), key@),
{
    match value {
        Some(JsonValue::Object(members)) => {
            let wanted = key.to_owned();
            let mut i: usize = 0;
            assert(members@.subrange(0, members@.len() as int) =~= members@);
            while i < members.len()
                invariant
                    0 <= i <= members@.len(),
                    wanted@ == key@,
                    field_of(or_null(value), key@) == member_value(members@, key@),
                    member_value(members@, key@) == member_value(members@.subrange(i as int, members@.len() as int), key@),
                decreases members@.len() - i,
            {
                let ghost rest = members@.subrange(i as int, members@.len() as int);
                assert(rest[0] == members@[i as int]);
                if members[i].0 == wanted {
                    assert(member_value(rest, key@) == rest[0].1);
                    return Some(&members[i].1);
                }
                assert(rest.drop_first() =~= members@.subrange(i + 1, members@.len() as int));
                i = i + 1;
            }
            None
        },
        _ => None,
    }
}

/// `value[index]` on a value that may be missing.
pub fn element<'a>(value: Option<&'a JsonValue>, index: usize) -> (r: Option<&'a JsonValue>)
    ensures
        or_null(r) == element_of(or_null(value), index as int),
{
    match value {
        Some(JsonValue::Array(items)) => {
            if index < items.len() {
                Some(&items[index])
            } else {
                None
            }
        },
        _ => None,
    }
}

/// `as_bool` on a value that may be missing.
pub fn as_bool(value: Option<&JsonValue>) -> (r: Option<bool>)
    ensures
        r == bool_of(or_null(value)),
{
    match value {
        Some(JsonValue::Bool(b)) => Some(*b),
        _ => None,
    }
}

/// `as_i64` on a value that may be missing.
pub fn as_i64(value: Option<&JsonValue>) -> (r: Option<i64>)
    ensures
        r == i64_of(or_null(value)),
{
    match value {
        Some(JsonValue::Number(n)) => *n,
        _ => None,
    }
}

/// `as_str` on a value that may be missing, copied out.
pub fn as_string(value: Option<&JsonValue>) -> (r: Option<String>)
    ensures
        match r {
            Some(s) => str_of(or_null(value)) == Some(s@),
            None => str_of(or_null(value)) is None,
        },
{
    match value {
        Some(JsonValue::Str(s)) => Some(s.clone()),
        _ => None,
    }
}

/// `as_str().unwrap_or("")` on a value that may be missing, copied out.
pub fn string_or_empty(value: Option<&JsonValue>) -> (r: String)
    ensures
        r@ == str_or_empty_of(or_null(value)),
{
    match value {
        Some(JsonValue::Str(s)) => s.clone(),
        _ => String::new(),
    }
}

/// Whether a value that may be missing is an array with at least one element.
pub fn nonempty_array(value: Option<&JsonValue>) -> (r: bool)
    ensures
        r == is_nonempty_array(or_null(value)),
{
    match value {
        Some(JsonValue::Array(items)) => items.len() > 0,
        _ => false,
    }
}

/// Looking a member up by name finds the member with that name, wherever it
/// stands among the members, when no other member has that name.
pub proof fn lemma_member_found_by_name(members: Seq<(String, JsonValue)>, key: Seq<char>, i: int)
    requires
        0 <= i < members.len(),
        members[i].0@ == key,
        forall|j: int| 0 <= j < members.len() && j != i ==> #[trigger] members[j].0@ != key,
    ensures
        member_value(members, key) == members[i].1,
    decreases members.len(),
{
    if i > 0 {
        let rest = members.drop_first();
        assert(members[0].0@ != key);
        assert forall|j: int| 0 <= j < rest.len() && j != i - 1 implies #[trigger] rest[j].0@ != key by {
            assert(rest[j] == members[j + 1]);
        }
        lemma_member_found_by_name(rest, key, i - 1);
    }
}

/// Looking up a name that no member has gives `Null`.
pub proof fn lemma_member_absent(members: Seq<(String, JsonValue)>, key: Seq<char>)
    requires
        forall|j: int| 0 <= j < members.len() ==> #[trigger] members[j].0@ != key,
    ensures
        member_value(members, key) == JsonValue::Null,
    decreases members.len(),
{
    if members.len() > 0 {
        let rest = members.drop_first();
        assert forall|j: int| 0 <= j < rest.len() implies #[trigger] rest[j].0@ != key by {
            assert(rest[j] == members[j + 1]);
        }
        lemma_member_absent(rest, key);
    }
}

/// The first member with a name is the one read, whatever follows it.
pub proof fn lemma_first_member_wins(members: Seq<(String, JsonValue)>, key: Seq<char>, i: int)
    requires
        0 <= i < members.len(),
        members[i].0@ == key,
        forall|j: int| 0 <= j < i ==> #[trigger] members[j].0@ != key,
    ensures
        member_value(members, key) == members[i].1,
    decreases members.len(),
{
    if i > 0 {
        let rest = members.drop_first();
        assert(members[0].0@ != key);
        assert forall|j: int| 0 <= j < i - 1 implies #[trigger] rest[j].0@ != key by {
            assert(rest[j] == members[j + 1]);
        }
        lemma_first_member_wins(rest, key, i - 1);
    }
}

/// `object[key]` is the member named `key`, wherever it stands, when no other
/// member has that name.
pub proof fn lemma_field_found_by_name(members: Vec<(String, JsonValue)>, key: Seq<char>, i: int)
    requires
        0 <= i < members@.len(),
        members@[i].0@ == key,
        forall|j: int| 0 <= j < members@.len() && j != i ==> #[trigger] members@[j].0@ != key,
    ensures
        field_of(JsonValue::Object(members), key) == members@[i].1,
{
    lemma_member_found_by_name(members@, key, i);
}

/// `value[key]` is `Null` on an object without a member `key`, and on any
/// value that is not an object.
pub proof fn lemma_field_missing_is_null(value: JsonValue, key: Seq<char>)
    requires
        value matches JsonValue::Object(members) ==> forall|j: int|
            0 <= j < members@.len() ==> #[trigger] members@[j].0@ != key,
    ensures
        field_of(value, key) == JsonValue::Null,
{
    if let JsonValue::Object(members) = value {
        lemma_member_absent(members@, key);
    }
}

/// `array[index]` is the element at `index` when there is one, `Null`
/// otherwise and on any value that is not an array.
pub proof fn lemma_element_read(value: JsonValue, index: int)
    ensures
        value matches JsonValue::Array(items) ==> if 0 <= index < items@.len() {
            element_of(value, index) == items@[index]
        } else {
            element_of(value, index) == JsonValue::Null
        },
        !(value is Array) ==> element_of(value, index) == JsonValue::Null,
{
}

/// The readings of a value: a boolean only from a boolean, an integer only
/// from a number that has one, text only from a string.
pub proof fn lemma_readings(value: JsonValue)
    ensures
        forall|b: bool| bool_of(value) == Some(b) <==> value == JsonValue::Bool(b),
        forall|n: i64| i64_of(value) == Some(n) <==> value == JsonValue::Number(Some(n)),
        (value matches JsonValue::Str(s) ==> str_of(value) == Some(s@)),
        !(value is Str) ==> str_of(value) is None && str_or_empty_of(value).len() == 0,
{
}

} // verus!
