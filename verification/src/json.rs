use vstd::prelude::*;

verus! {

/// A JSON document as plain values. A number is kept as its text; an object
/// is the list of its members, in the order the parser hands them out.
#[derive(Debug)]
pub enum JsonValue {
    Null,
    Bool(bool),
    Number(String),
    String(String),
    Array(Vec<JsonValue>),
    Object(Vec<(String, JsonValue)>),
}

/// `serde_json::Value`, opaque here; it is only converted.
#[verifier::external_type_specification]
#[verifier::external_body]
pub struct ExSerdeJsonValue(serde_json::Value);

/// `serde_json::Error`, opaque here; it only signals a rejected text.
#[verifier::external_type_specification]
#[verifier::external_body]
pub struct ExSerdeJsonError(serde_json::Error);

/// The document that `serde_json::from_str::<serde_json::Value>` reads from
/// `text`, as a [`JsonValue`], or `None` where it rejects the text.
pub uninterp spec fn spec_parse_json(text: Seq<char>) -> Option<JsonValue>;

/// Converts the `serde_json::Value` that [`parse_json`] receives into a
/// [`JsonValue`], variant for variant, element for element and member for
/// member (in the map's iteration order); a number becomes the text its
/// `Display` prints. It is a separate function only because the conversion
/// recurses. Nothing is claimed of it on its own: [`parse_json`] states the
/// composed result.
#[verifier::external_body]
fn json_from_serde(value: serde_json::Value) -> JsonValue {
    match value {
        serde_json::Value::Null => JsonValue::Null,
        serde_json::Value::Bool(b) => JsonValue::Bool(b),
        serde_json::Value::Number(n) => JsonValue::Number(n.to_string()),
        serde_json::Value::String(s) => JsonValue::String(s),
        serde_json::Value::Array(a) => JsonValue::Array(a.into_iter().map(json_from_serde).collect()),
        serde_json::Value::Object(m) => JsonValue::Object(
            m.into_iter().map(|(k, v)| (k, json_from_serde(v))).collect(),
        ),
    }
}

/// Parses `text` with `serde_json::from_str` into a `serde_json::Value`.
/// Claimed: the document read is [`spec_parse_json`] of the text, and the call
/// fails exactly where that is `None`. What `serde_json` accepts is not stated.
#[verifier::external_body]
pub(crate) fn parse_json(text: &str) -> (res: Result<JsonValue, serde_json::Error>)
    ensures
        match res {
            Ok(v) => spec_parse_json(text@) == Some(v),
            Err(_) => spec_parse_json(text@) is None,
        },
{
    serde_json::from_str::<serde_json::Value>(text).map(json_from_serde)
}

/// The value of the first member of `members` named `key`.
pub open spec fn spec_object_get(members: Seq<(String, JsonValue)>, key: Seq<char>) -> Option<JsonValue>
    decreases members.len(),
{
    if members.len() == 0 {
        None
    } else if members[0].0@ == key {
        Some(members[0].1)
    } else {
        spec_object_get(members.drop_first(), key)
    }
}

/// Whether two strings are the same text.
pub fn str_equals(a: &str, b: &str) -> (res: bool)
    ensures
        res == (a@ == b@),
{
    let a = a.to_owned();
    let b = b.to_owned();
    a == b
}

/// The value of the first member of `members` named `key`.
pub fn object_get<'a>(members: &'a Vec<(String, JsonValue)>, key: &str) -> (res: Option<&'a JsonValue>)
    ensures
        match res {
            Some(v) => spec_object_get(members@, key@) == Some(*v),
            None => spec_object_get(members@, key@) is None,
        },
{
    let wanted = key.to_owned();
    let n = members.len();
    let mut i: usize = 0;
    assert(members@.skip(0) == members@);
    while i < n
        invariant
            n == members@.len(),
            0 <= i <= n,
            wanted@ == key@,
            spec_object_get(members@, key@) == spec_object_get(members@.skip(i as int), key@),
        decreases n - i,
    {
        assert(members@.skip(i as int).drop_first() == members@.skip(i + 1));
        assert(members@.skip(i as int)[0] == members@[i as int]);
        if members[i].0 == wanted {
            return Some(&members[i].1);
        }
        i = i + 1;
    }
    None
}

/// The text a value contributes to a search result field: a string itself, a
/// number as written, a boolean as `true` or `false`, anything else nothing.
pub open spec fn spec_json_text(v: JsonValue) -> Seq<char> {
    match v {
        JsonValue::String(s) => s@,
        JsonValue::Number(n) => n@,
        JsonValue::Bool(b) => if b {
            "true"@
        } else {
            "false"@
        },
        _ => Seq::empty(),
    }
}

/// The text of an optional value; nothing for an absent one.
pub fn value_to_string(value: Option<&JsonValue>) -> (res: String)
    ensures
        res@ == match value {
            Some(v) => spec_json_text(*v),
            None => Seq::empty(),
        },
{
    match value {
        Some(JsonValue::String(value)) => value.clone(),
        Some(JsonValue::Number(value)) => value.clone(),
        Some(JsonValue::Bool(value)) => {
            if *value {
                "true".to_owned()
            } else {
                "false".to_owned()
            }
        },
        _ => String::new(),
    }
}

/// The value of the first of `keys` that `members` has, whatever that value
/// is; `None` where it has none of them.
pub open spec fn spec_first_present(members: Seq<(String, JsonValue)>, keys: Seq<Seq<char>>) -> Option<JsonValue>
    decreases keys.len(),
{
    if keys.len() == 0 {
        None
    } else {
        match spec_object_get(members, keys[0]) {
            Some(v) => Some(v),
            None => spec_first_present(members, keys.drop_first()),
        }
    }
}

/// The views of a list of string slices.
pub open spec fn str_views(keys: Seq<&str>) -> Seq<Seq<char>> {
    keys.map_values(|k: &str| k@)
}

/// The text of the value under the first of `keys` that the object has; empty
/// where it has none of them.
pub fn get_string_field(object: &Vec<(String, JsonValue)>, keys: &[&str]) -> (res: String)
    ensures
        res@ == match spec_first_present(object@, str_views(keys@)) {
            Some(v) => spec_json_text(v),
            None => Seq::empty(),
        },
{
    let n = keys.len();
    let mut i: usize = 0;
    assert(str_views(keys@).skip(0) == str_views(keys@));
    while i < n
        invariant
            n == keys@.len(),
            0 <= i <= n,
            spec_first_present(object@, str_views(keys@)) == spec_first_present(
                object@,
                str_views(keys@).skip(i as int),
            ),
        decreases n - i,
    {
        assert(str_views(keys@).skip(i as int).drop_first() == str_views(keys@).skip(i + 1));
        assert(str_views(keys@).skip(i as int)[0] == keys@[i as int]@);
        let found = object_get(object, keys[i]);
        if found.is_some() {
            return value_to_string(found);
        }
        i = i + 1;
    }
    String::new()
}


/// A string gives its own text, a number the text it is written as, a
/// boolean `true` or `false`, and null, arrays and objects give nothing.
pub proof fn lemma_json_text(s: String, b: bool, items: Vec<JsonValue>, members: Vec<(String, JsonValue)>)
    ensures
        spec_json_text(JsonValue::String(s)) == s@,
        spec_json_text(JsonValue::Number(s)) == s@,
        spec_json_text(JsonValue::Bool(b)) == (if b {
            "true"@
        } else {
            "false"@
        }),
        spec_json_text(JsonValue::Null).len() == 0,
        spec_json_text(JsonValue::Array(items)).len() == 0,
        spec_json_text(JsonValue::Object(members)).len() == 0,
{
}

/// Looking up a name finds the value of the first member with that name,
/// and nothing where no member has it.
pub proof fn lemma_object_get_first_match(members: Seq<(String, JsonValue)>, key: Seq<char>)
    ensures
        spec_object_get(members, key) is None <==> (forall|i: int| 0 <= i < members.len() ==> #[trigger] members[i].0@ != key),
        spec_object_get(members, key) matches Some(v) ==> exists|i: int| 0 <= i < members.len() && #[trigger] members[i].0@ == key && members[i].1 == v
            && forall|j: int| 0 <= j < i ==> #[trigger] members[j].0@ != key,
    decreases members.len(),
{
    if members.len() > 0 {
        let rest = members.drop_first();
        lemma_object_get_first_match(rest, key);
        if members[0].0@ == key {
            assert(members[0].0@ == key && forall|j: int| 0 <= j < 0 ==> #[trigger] members[j].0@ != key);
        } else {
            assert forall|i: int| 0 <= i < rest.len() implies #[trigger] rest[i] == members[i + 1] by {}
            if spec_object_get(rest, key) is None {
                assert forall|i: int| 0 <= i < members.len() implies #[trigger] members[i].0@ != key by {
                    if i > 0 {
                        assert(members[i] == rest[i - 1]);
                    }
                }
            } else {
                let v = spec_object_get(rest, key).unwrap();
                let k = choose|k: int| 0 <= k < rest.len() && #[trigger] rest[k].0@ == key && rest[k].1 == v
                    && forall|j: int| 0 <= j < k ==> #[trigger] rest[j].0@ != key;
                assert(members[k + 1] == rest[k]);
                assert forall|j: int| 0 <= j < k + 1 implies #[trigger] members[j].0@ != key by {
                    if j > 0 {
                        assert(members[j] == rest[j - 1]);
                    }
                }
                assert(members[k + 1].0@ == key);
            }
            if forall|i: int| 0 <= i < members.len() ==> #[trigger] members[i].0@ != key {
                assert forall|i: int| 0 <= i < rest.len() implies #[trigger] rest[i].0@ != key by {
                    assert(rest[i] == members[i + 1]);
                }
            }
        }
    }
}

} // verus!
