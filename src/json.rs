use vstd::prelude::*;

verus! {

/// A JSON value, held as plain data.
///
/// Numbers keep their decimal text; objects keep their members in order.
#[derive(Debug)]
pub enum JsonValue {
    Null,
    Bool(bool),
    Number(String),
    String(String),
    Array(Vec<JsonValue>),
    Object(JsonObject),
}

/// The members of a JSON object, in order.
pub type JsonObject = Vec<(String, JsonValue)>;

/// The position of the first member of `m` named `key`, if any.
#[verifier::opaque]
pub open spec fn member_index(m: Seq<(String, JsonValue)>, key: Seq<char>) -> Option<int> {
    if exists|i: int| 0 <= i < m.len() && m[i].0@ == key {
        Some(
            choose|i: int|
                0 <= i < m.len() && m[i].0@ == key && forall|j: int|
                    0 <= j < i ==> m[j].0@ != key,
        )
    } else {
        None
    }
}

/// The value of the first member of `m` named `key`, if any.
pub open spec fn member(m: Seq<(String, JsonValue)>, key: Seq<char>) -> Option<JsonValue> {
    match member_index(m, key) {
        Some(i) => Some(m[i].1),
        None => None,
    }
}

/// The first member of `m` named `key`.
pub fn get_member<'a>(m: &'a JsonObject, key: &str) -> (r: Option<&'a JsonValue>)
    ensures
        r matches Some(v) ==> member(m@, key@) == Some(*v),
        r is None ==> member(m@, key@) is None,
{
    let mut i: usize = 0;
    while i < m.len()
        invariant
            i <= m@.len(),
            forall|j: int| 0 <= j < i ==> m@[j].0@ != key@,
        decreases m@.len() - i,
    {
        if crate::text::text_eq(m[i].0.as_str(), key) {
            proof {
                reveal(member_index);
                let k = member_index(m@, key@);
                assert(k matches Some(x) && x == i) by {
                    assert(0 <= i < m@.len() && m@[i as int].0@ == key@);
                    let x = k->0;
                    if x < i {
                    } else if x > i {
                    }
                };
            }
            return Some(&m[i].1);
        }
        i = i + 1;
    }
    proof {
        reveal(member_index);
    }
    None
}

/// The position of the first member of `m` named `key`.
pub fn find_member(m: &JsonObject, key: &str) -> (r: Option<usize>)
    ensures
        match r {
            Some(i) => member_index(m@, key@) == Some(i as int) && i < m@.len(),
            None => member_index(m@, key@) is None,
        },
{
    let mut i: usize = 0;
    while i < m.len()
        invariant
            i <= m@.len(),
            forall|j: int| 0 <= j < i ==> m@[j].0@ != key@,
        decreases m@.len() - i,
    {
        if crate::text::text_eq(m[i].0.as_str(), key) {
            proof {
                reveal(member_index);
                let k = member_index(m@, key@);
                assert(k matches Some(x) && x == i) by {
                    assert(0 <= i < m@.len() && m@[i as int].0@ == key@);
                    let x = k->0;
                    if x < i {
                    } else if x > i {
                    }
                };
            }
            return Some(i);
        }
        i = i + 1;
    }
    proof {
        reveal(member_index);
    }
    None
}

/// The text of the first member of `m` named `key`, where that member is a string.
pub open spec fn text_member(m: Seq<(String, JsonValue)>, key: Seq<char>) -> Option<Seq<char>> {
    match member(m, key) {
        Some(JsonValue::String(s)) => Some(s@),
        _ => None,
    }
}

/// The text of the first member of `m` named `key`, where that member is a string.
pub fn get_text_member(m: &JsonObject, key: &str) -> (r: Option<String>)
    ensures
        match r {
            Some(t) => text_member(m@, key@) == Some(t@),
            None => text_member(m@, key@) is None,
        },
{
    match get_member(m, key) {
        Some(JsonValue::String(s)) => Some(s.clone()),
        _ => None,
    }
}

/// The members of a JSON object text, each key with the value's text where that
/// value is a JSON string.
pub uninterp spec fn json_object_strings(b: Seq<u8>) -> Option<Seq<(Seq<char>, Option<Seq<char>>)>>;

/// The view of a list of members, each with the string it holds, if any.
pub open spec fn string_members_view(v: Seq<(String, Option<String>)>) -> Seq<
    (Seq<char>, Option<Seq<char>>),
> {
    v.map_values(
        |e: (String, Option<String>)|
            (
                e.0@,
                match e.1 {
                    Some(t) => Some(t@),
                    None => None,
                },
            ),
    )
}

/// Relies on `serde_json::from_slice` read into a `serde_json::Map`: the members of a
/// JSON object text, each with the string it holds where its value is a string.
#[verifier::external_body]
pub(crate) fn parse_object_strings(b: &[u8]) -> (r: Option<Vec<(String, Option<String>)>>)
    ensures
        match r {
            Some(v) => json_object_strings(b@) == Some(string_members_view(v@)),
            None => json_object_strings(b@) is None,
        },
{
    serde_json::from_slice::<serde_json::Map<String, serde_json::Value>>(b).ok().map(
        |m|
            m.into_iter().map(
                |(k, v)|
                    match v {
                        serde_json::Value::String(t) => (k, Some(t)),
                        _ => (k, None),
                    },
            ).collect()
    )
}

/// The first member of `m` named `key`: `Some(Some(t))` when it holds the string
/// `t`, `Some(None)` when it holds anything else.
pub open spec fn string_member(m: Seq<(Seq<char>, Option<Seq<char>>)>, key: Seq<char>) -> Option<
    Option<Seq<char>>,
> {
    if exists|i: int| 0 <= i < m.len() && m[i].0 == key {
        let i = choose|i: int|
            0 <= i < m.len() && m[i].0 == key && forall|j: int| 0 <= j < i ==> m[j].0 != key;
        Some(m[i].1)
    } else {
        None
    }
}

/// The first member of `m` named `key`, as [`string_member`] describes it.
pub fn find_string_member(m: &Vec<(String, Option<String>)>, key: &str) -> (r: Option<
    Option<String>,
>)
    ensures
        string_member(string_members_view(m@), key@) == match r {
            Some(Some(t)) => Some(Some(t@)),
            Some(None) => Some(None),
            None => None::<Option<Seq<char>>>,
        },
{
    let ghost mv = string_members_view(m@);
    let mut i: usize = 0;
    while i < m.len()
        invariant
            i <= m@.len(),
            mv == string_members_view(m@),
            mv.len() == m@.len(),
            forall|j: int| 0 <= j < i ==> mv[j].0 != key@,
        decreases m@.len() - i,
    {
        if crate::text::text_eq(m[i].0.as_str(), key) {
            proof {
                assert(mv[i as int].0 == key@);
                let x = choose|x: int|
                    0 <= x < mv.len() && mv[x].0 == key@ && forall|j: int|
                        0 <= j < x ==> mv[j].0 != key@;
                assert(x == i) by {
                    if x < i {
                    } else if x > i {
                    }
                };
            }
            return match &m[i].1 {
                Some(t) => Some(Some(t.clone())),
                None => Some(None),
            };
        }
        i = i + 1;
    }
    None
}

} // verus!
