//! JSON documents as plain values. The parse itself is `serde_json`'s; the
//! reading of members, strings and lists out of a parsed document is proved
//! here.

use vstd::prelude::*;

verus! {

/// A JSON value. Numbers are kept as the text `serde_json` prints for them;
/// an object is the list of its members, in the order `serde_json` keeps them.
#[derive(Debug)]
pub enum JsonValue {
    Null,
    Bool(bool),
    Number(String),
    Text(String),
    Array(Vec<JsonValue>),
    Object(Vec<(String, JsonValue)>),
}

#[verifier::external_type_specification]
#[verifier::external_body]
pub struct ExSerdeJsonValue(serde_json::Value);

/// The document that `serde_json::from_slice` reads from `bytes`, as a
/// `JsonValue`; `None` where it refuses the bytes.
pub uninterp spec fn json_of(bytes: Seq<u8>) -> Option<JsonValue>;

/// Turns a `serde_json::Value` into a `JsonValue`, variant for variant; a
/// number becomes its printed text. Part of `parse_json`.
#[verifier::external_body]
fn from_serde(v: serde_json::Value) -> JsonValue {
    match v {
        serde_json::Value::Null => JsonValue::Null,
        serde_json::Value::Bool(b) => JsonValue::Bool(b),
        serde_json::Value::Number(n) => JsonValue::Number(n.to_string()),
        serde_json::Value::String(s) => JsonValue::Text(s),
        serde_json::Value::Array(a) => JsonValue::Array(a.into_iter().map(from_serde).collect()),
        serde_json::Value::Object(m) => JsonValue::Object(m.into_iter().map(|(k, x)| (k, from_serde(x))).collect()),
    }
}

/// Calls `serde_json::from_slice` for a `serde_json::Value`. The document
/// read is named by `json_of` of the bytes; on refusal the error is the
/// parser's message, of which nothing is stated.
#[verifier::external_body]
pub fn parse_json(bytes: &[u8]) -> (r: Result<JsonValue, String>)
    ensures
        r is Ok <==> json_of(bytes@) is Some,
        r matches Ok(v) ==> json_of(bytes@) == Some(v),
{
    match serde_json::from_slice::<serde_json::Value>(bytes) {
        Ok(v) => Ok(from_serde(v)),
        Err(e) => Err(e.to_string()),
    }
}

/// The value of the first member named `key` in a list of members.
pub open spec fn json_field(members: Seq<(String, JsonValue)>, key: Seq<char>) -> Option<JsonValue>
    decreases members.len(),
{
    if members.len() == 0 {
        None
    } else if members[0].0@ == key {
        Some(members[0].1)
    } else {
        json_field(members.drop_first(), key)
    }
}

/// The member `key` of a value, as `value[key]` reads it: `None` where the
/// value is no object or has no such member.
pub open spec fn json_member(v: JsonValue, key: Seq<char>) -> Option<JsonValue> {
    match v {
        JsonValue::Object(members) => json_field(members@, key),
        _ => None,
    }
}

/// The text of a value that is a string.
pub open spec fn json_text(v: Option<JsonValue>) -> Option<Seq<char>> {
    match v {
        Some(JsonValue::Text(s)) => Some(s@),
        _ => None,
    }
}

/// The flag of a value that is a boolean.
pub open spec fn json_flag(v: Option<JsonValue>) -> Option<bool> {
    match v {
        Some(JsonValue::Bool(b)) => Some(b),
        _ => None,
    }
}

/// The text of a string value, and the empty text for any other value.
pub open spec fn text_or_empty(v: JsonValue) -> Seq<char> {
    match v {
        JsonValue::Text(s) => s@,
        _ => Seq::empty(),
    }
}

/// The flag of a boolean value, and `false` for any other value.
pub open spec fn flag_or_false(v: JsonValue) -> bool {
    match v {
        JsonValue::Bool(b) => b,
        _ => false,
    }
}

/// The strings among `items`, in order; other values are left out.
pub open spec fn json_texts(items: Seq<JsonValue>) -> Seq<Seq<char>>
    decreases items.len(),
{
    if items.len() == 0 {
        Seq::empty()
    } else {
        let rest = json_texts(items.drop_last());
        match items.last() {
            JsonValue::Text(s) => rest.push(s@),
            _ => rest,
        }
    }
}

/// The strings of an array value; the empty list for any other value.
pub open spec fn json_text_list(v: Option<JsonValue>) -> Seq<Seq<char>> {
    match v {
        Some(JsonValue::Array(items)) => json_texts(items@),
        _ => Seq::empty(),
    }
}

/// Members with their values read as text (the empty text where a value is
/// no string).
pub open spec fn text_pairs(members: Seq<(String, JsonValue)>) -> Seq<(Seq<char>, Seq<char>)> {
    members.map_values(|m: (String, JsonValue)| (m.0@, text_or_empty(m.1)))
}

/// Members with their values read as flags (`false` where a value is no
/// boolean).
pub open spec fn flag_pairs(members: Seq<(String, JsonValue)>) -> Seq<(Seq<char>, bool)> {
    members.map_values(|m: (String, JsonValue)| (m.0@, flag_or_false(m.1)))
}

/// The names of members.
pub open spec fn member_names(members: Seq<(String, JsonValue)>) -> Seq<Seq<char>> {
    members.map_values(|m: (String, JsonValue)| m.0@)
}

/// The members of an object value with their values read as text (the
/// empty text where a value is no string).
pub open spec fn json_text_pairs(v: Option<JsonValue>) -> Option<Seq<(Seq<char>, Seq<char>)>> {
    match v {
        Some(JsonValue::Object(members)) => Some(text_pairs(members@)),
        _ => None,
    }
}

/// The members of an object value with their values read as flags (`false`
/// where a value is no boolean).
pub open spec fn json_flag_pairs(v: Option<JsonValue>) -> Option<Seq<(Seq<char>, bool)>> {
    match v {
        Some(JsonValue::Object(members)) => Some(flag_pairs(members@)),
        _ => None,
    }
}

/// The member names of an object value; the empty list for any other value.
pub open spec fn json_keys(v: Option<JsonValue>) -> Seq<Seq<char>> {
    match v {
        Some(JsonValue::Object(members)) => member_names(members@),
        _ => Seq::empty(),
    }
}

/// The texts of a list of strings.
pub open spec fn views(v: Seq<String>) -> Seq<Seq<char>> {
    v.map_values(|s: String| s@)
}

/// The texts of a list of pairs of strings.
pub open spec fn pair_views(v: Seq<(String, String)>) -> Seq<(Seq<char>, Seq<char>)> {
    v.map_values(|p: (String, String)| (p.0@, p.1@))
}

/// The texts of a list of pairs of a string and a flag.
pub open spec fn flag_pair_views(v: Seq<(String, bool)>) -> Seq<(Seq<char>, bool)> {
    v.map_values(|p: (String, bool)| (p.0@, p.1))
}

/// The text of an optional string.
pub open spec fn opt_view(o: Option<String>) -> Option<Seq<char>> {
    match o {
        Some(s) => Some(s@),
        None => None,
    }
}

/// The value of the first member named `key`.
pub fn field<'a>(members: &'a Vec<(String, JsonValue)>, key: &str) -> (r: Option<&'a JsonValue>)
    ensures
        match r {
            Some(x) => json_field(members@, key@) == Some(*x),
            None => json_field(members@, key@) is None,
        },
{
    let mut i: usize = 0;
    proof {
        assert(members@.subrange(0, members@.len() as int) =~= members@);
    }
    while i < members.len()
        invariant
            0 <= i <= members.len(),
            json_field(members@, key@) == json_field(members@.subrange(i as int, members@.len() as int), key@),
        decreases members.len() - i,
    {
        let ghost rest = members@.subrange(i as int, members@.len() as int);
        proof {
            assert(rest.drop_first() =~= members@.subrange(i + 1, members@.len() as int));
        }
        if crate::text::str_eq(members[i].0.as_str(), key) {
            return Some(&members[i].1);
        }
        i = i + 1;
    }
    proof {
        assert(members@.subrange(i as int, members@.len() as int).len() == 0);
    }
    None
}

/// The member `key` of a value.
pub fn member<'a>(v: &'a JsonValue, key: &str) -> (r: Option<&'a JsonValue>)
    ensures
        match r {
            Some(x) => json_member(*v, key@) == Some(*x),
            None => json_member(*v, key@) is None,
        },
{
    match v {
        JsonValue::Object(members) => field(members, key),
        _ => None,
    }
}

/// The text of a string value.
pub fn text_of(v: Option<&JsonValue>) -> (r: Option<String>)
    ensures
        opt_view(r) == json_text(
            match v {
                Some(x) => Some(*x),
                None => None,
            },
        ),
{
    match v {
        Some(JsonValue::Text(s)) => Some(s.clone()),
        _ => None,
    }
}

/// The flag of a boolean value.
pub fn flag_of(v: Option<&JsonValue>) -> (r: Option<bool>)
    ensures
        r == json_flag(
            match v {
                Some(x) => Some(*x),
                None => None,
            },
        ),
{
    match v {
        Some(JsonValue::Bool(b)) => Some(*b),
        _ => None,
    }
}

/// The strings among `items`, in order.
pub fn texts_in(items: &Vec<JsonValue>) -> (r: Vec<String>)
    ensures
        views(r@) == json_texts(items@),
{
    let mut r: Vec<String> = Vec::new();
    let mut i: usize = 0;
    while i < items.len()
        invariant
            0 <= i <= items.len(),
            views(r@) == json_texts(items@.subrange(0, i as int)),
        decreases items.len() - i,
    {
        let ghost before = r@;
        proof {
            assert(items@.subrange(0, i + 1).drop_last() =~= items@.subrange(0, i as int));
        }
        match &items[i] {
            JsonValue::Text(s) => {
                r.push(s.clone());
                proof {
                    assert(views(r@) =~= views(before).push(s@));
                }
            },
            _ => {},
        }
        i = i + 1;
    }
    proof {
        assert(items@.subrange(0, items@.len() as int) =~= items@);
    }
    r
}

/// The strings of an array value; empty for any other value.
pub fn text_list_of(v: Option<&JsonValue>) -> (r: Vec<String>)
    ensures
        views(r@) == json_text_list(
            match v {
                Some(x) => Some(*x),
                None => None,
            },
        ),
{
    match v {
        Some(JsonValue::Array(items)) => texts_in(items),
        _ => {
            let r: Vec<String> = Vec::new();
            proof {
                assert(views(r@) =~= Seq::empty());
            }
            r
        },
    }
}

/// The members of an object value with their values read as text.
pub fn text_pairs_of(v: Option<&JsonValue>) -> (r: Option<Vec<(String, String)>>)
    ensures
        match r {
            Some(p) => json_text_pairs(
                match v {
                    Some(x) => Some(*x),
                    None => None,
                },
            ) == Some(pair_views(p@)),
            None => json_text_pairs(
                match v {
                    Some(x) => Some(*x),
                    None => None,
                },
            ) is None,
        },
{
    match v {
        Some(JsonValue::Object(members)) => {
            let mut r: Vec<(String, String)> = Vec::new();
            let mut i: usize = 0;
            while i < members.len()
                invariant
                    0 <= i <= members.len(),
                    r.len() == i,
                    pair_views(r@) == text_pairs(members@.subrange(0, i as int)),
                decreases members.len() - i,
            {
                let ghost before = r@;
                let value = match &members[i].1 {
                    JsonValue::Text(s) => s.clone(),
                    _ => String::new(),
                };
                proof {
                    assert(value@ == text_or_empty(members@[i as int].1));
                }
                r.push((members[i].0.clone(), value));
                proof {
                    let ghost sub0 = members@.subrange(0, i as int);
                    let ghost sub1 = members@.subrange(0, i + 1);
                    assert forall|j: int| 0 <= j < i + 1 implies #[trigger] pair_views(r@)[j] == text_pairs(sub1)[j] by {
                        if j < i {
                            assert(r@[j] == before[j]);
                            assert(sub0[j] == sub1[j]);
                            assert(pair_views(before)[j] == text_pairs(sub0)[j]);
                        }
                    }
                    assert(pair_views(r@) =~= text_pairs(sub1));
                }
                i = i + 1;
            }
            proof {
                assert(members@.subrange(0, members@.len() as int) =~= members@);
            }
            Some(r)
        },
        _ => None,
    }
}

/// The members of an object value with their values read as flags.
pub fn flag_pairs_of(v: Option<&JsonValue>) -> (r: Option<Vec<(String, bool)>>)
    ensures
        match r {
            Some(p) => json_flag_pairs(
                match v {
                    Some(x) => Some(*x),
                    None => None,
                },
            ) == Some(flag_pair_views(p@)),
            None => json_flag_pairs(
                match v {
                    Some(x) => Some(*x),
                    None => None,
                },
            ) is None,
        },
{
    match v {
        Some(JsonValue::Object(members)) => {
            let mut r: Vec<(String, bool)> = Vec::new();
            let mut i: usize = 0;
            while i < members.len()
                invariant
                    0 <= i <= members.len(),
                    r.len() == i,
                    flag_pair_views(r@) == flag_pairs(members@.subrange(0, i as int)),
                decreases members.len() - i,
            {
                let value = match &members[i].1 {
                    JsonValue::Bool(b) => *b,
                    _ => false,
                };
                let ghost before = r@;
                r.push((members[i].0.clone(), value));
                proof {
                    let ghost sub0 = members@.subrange(0, i as int);
                    let ghost sub1 = members@.subrange(0, i + 1);
                    assert forall|j: int| 0 <= j < i + 1 implies #[trigger] flag_pair_views(r@)[j] == flag_pairs(sub1)[j] by {
                        if j < i {
                            assert(r@[j] == before[j]);
                            assert(sub0[j] == sub1[j]);
                            assert(flag_pair_views(before)[j] == flag_pairs(sub0)[j]);
                        }
                    }
                    assert(flag_pair_views(r@) =~= flag_pairs(sub1));
                }
                i = i + 1;
            }
            proof {
                assert(members@.subrange(0, members@.len() as int) =~= members@);
            }
            Some(r)
        },
        _ => None,
    }
}

/// The member names of an object value; empty for any other value.
pub fn keys_of(v: Option<&JsonValue>) -> (r: Vec<String>)
    ensures
        views(r@) == json_keys(
            match v {
                Some(x) => Some(*x),
                None => None,
            },
        ),
{
    let mut r: Vec<String> = Vec::new();
    match v {
        Some(JsonValue::Object(members)) => {
            let mut i: usize = 0;
            while i < members.len()
                invariant
                    0 <= i <= members.len(),
                    r.len() == i,
                    views(r@) == member_names(members@.subrange(0, i as int)),
                decreases members.len() - i,
            {
                let ghost before = r@;
                r.push(members[i].0.clone());
                proof {
                    let ghost sub0 = members@.subrange(0, i as int);
                    let ghost sub1 = members@.subrange(0, i + 1);
                    assert forall|j: int| 0 <= j < i + 1 implies #[trigger] views(r@)[j] == member_names(sub1)[j] by {
                        if j < i {
                            assert(r@[j] == before[j]);
                            assert(sub0[j] == sub1[j]);
                            assert(views(before)[j] == member_names(sub0)[j]);
                        }
                    }
                    assert(views(r@) =~= member_names(sub1));
                }
                i = i + 1;
            }
            proof {
                assert(members@.subrange(0, members@.len() as int) =~= members@);
            }
        },
        _ => {
            proof {
                assert(views(r@) =~= Seq::empty());
            }
        },
    }
    r
}

} // verus!
