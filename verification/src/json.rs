//! JSON decoding of what the engine returns: lists of strings, and general
//! JSON trees read as plain values.

use vstd::prelude::*;

use crate::cstring::strings_view;

verus! {

/// What parsing `text` as a JSON array of strings yields: the strings, or
/// the parser's error message.
pub uninterp spec fn json_string_array(text: Seq<char>) -> std::result::Result<Seq<Seq<char>>, Seq<char>>;

/// Calls `serde_json::from_str::<Vec<String>>`, handing back the parse
/// error as its `Display` text. Claims that the outcome is the named result
/// for the text: the strings when the text is a JSON array of strings, and
/// otherwise the error's message. Which texts are such arrays, and what the
/// messages say, is left to the name.
#[verifier::external_body]
pub(crate) fn parse_string_array(text: &str) -> (r: std::result::Result<Vec<String>, String>)
    ensures
        json_string_array(text@) == match r {
            Ok(v) => Ok::<Seq<Seq<char>>, Seq<char>>(strings_view(v@)),
            Err(d) => Err(d@),
        },
{
    serde_json::from_str::<Vec<String>>(text).map_err(|e| e.to_string())
}

/// A JSON value as the logic reads it. A number is kept as the unsigned
/// 64-bit integer it denotes, or `None` when it denotes none (a negative or
/// fractional number); an object keeps its members in order, each key once.
#[derive(Debug)]
pub enum JsonValue {
    Null,
    Bool(bool),
    Number(Option<u64>),
    Str(String),
    Array(Vec<JsonValue>),
    Object(Vec<(String, JsonValue)>),
}

/// The mathematical form of a [`JsonValue`].
pub enum JsonView {
    Null,
    Bool(bool),
    Number(Option<u64>),
    Str(Seq<char>),
    Array(Seq<JsonView>),
    Object(Seq<(Seq<char>, JsonView)>),
}

/// The mathematical form of `v`, strings taken by their characters.
pub open spec fn json_view(v: JsonValue) -> JsonView
    decreases v,
{
    match v {
        JsonValue::Null => JsonView::Null,
        JsonValue::Bool(b) => JsonView::Bool(b),
        JsonValue::Number(n) => JsonView::Number(n),
        JsonValue::Str(s) => JsonView::Str(s@),
        JsonValue::Array(a) => JsonView::Array(
            Seq::new(a@.len(), |i: int| if 0 <= i < a@.len() { json_view(a@[i]) } else { JsonView::Null }),
        ),
        JsonValue::Object(o) => JsonView::Object(
            Seq::new(
                o@.len(),
                |i: int| if 0 <= i < o@.len() { (o@[i].0@, json_view(o@[i].1)) } else { (Seq::empty(), JsonView::Null) },
            ),
        ),
    }
}

impl View for JsonValue {
    type V = JsonView;

    open spec fn view(&self) -> JsonView {
        json_view(*self)
    }
}

/// What parsing `text` as JSON yields: the tree it denotes, or the parser's
/// error message.
pub uninterp spec fn json_tree(text: Seq<char>) -> std::result::Result<JsonView, Seq<char>>;

#[verifier::external_type_specification]
#[verifier::external_body]
pub struct ExJsonTree(serde_json::Value);

/// Converts a parsed `serde_json::Value` variant for variant: numbers by
/// `Number::as_u64`, arrays element by element, objects member by member in
/// the map's order. Nothing is claimed of it on its own; `parse_json`
/// states what the parse and this conversion give together.
#[verifier::external_body]
fn from_serde_value(v: serde_json::Value) -> JsonValue {
    match v {
        serde_json::Value::Null => JsonValue::Null,
        serde_json::Value::Bool(b) => JsonValue::Bool(b),
        serde_json::Value::Number(n) => JsonValue::Number(n.as_u64()),
        serde_json::Value::String(s) => JsonValue::Str(s),
        serde_json::Value::Array(a) => JsonValue::Array(a.into_iter().map(from_serde_value).collect()),
        serde_json::Value::Object(o) => JsonValue::Object(o.into_iter().map(|(k, x)| (k, from_serde_value(x))).collect()),
    }
}

/// Calls `serde_json::from_str::<serde_json::Value>` and converts the tree
/// (see `from_serde_value`), handing back a parse error as its `Display`
/// text. Claims that the outcome is the named result for the text; which
/// texts are JSON, the tree each denotes and the messages are left to the
/// name.
#[verifier::external_body]
pub(crate) fn parse_json(text: &str) -> (r: std::result::Result<JsonValue, String>)
    ensures
        json_tree(text@) == match r {
            Ok(v) => Ok::<JsonView, Seq<char>>(v@),
            Err(d) => Err(d@),
        },
{
    match serde_json::from_str::<serde_json::Value>(text) {
        Ok(v) => Ok(from_serde_value(v)),
        Err(e) => Err(e.to_string()),
    }
}

/// The value of the member `key` of an object, if it has one (the first
/// such member); `None` for any value that is not an object.
pub open spec fn json_member(v: JsonView, key: Seq<char>) -> Option<JsonView> {
    match v {
        JsonView::Object(members) => member_lookup(members, key),
        _ => None,
    }
}

/// The value of the first member with key `key`.
pub open spec fn member_lookup(members: Seq<(Seq<char>, JsonView)>, key: Seq<char>) -> Option<JsonView>
    decreases members.len(),
{
    if members.len() == 0 {
        None
    } else {
        match member_lookup(members.drop_last(), key) {
            Some(x) => Some(x),
            None => if members.last().0 == key { Some(members.last().1) } else { None },
        }
    }
}

/// The string held by a value, if it is a string.
pub open spec fn json_str(v: Option<JsonView>) -> Option<Seq<char>> {
    match v {
        Some(JsonView::Str(s)) => Some(s),
        _ => None,
    }
}

/// The unsigned integer a value denotes, if it is such a number.
pub open spec fn json_u64(v: Option<JsonView>) -> Option<u64> {
    match v {
        Some(JsonView::Number(Some(n))) => Some(n),
        _ => None,
    }
}

/// The elements of a value, if it is an array.
pub open spec fn json_array(v: Option<JsonView>) -> Option<Seq<JsonView>> {
    match v {
        Some(JsonView::Array(a)) => Some(a),
        _ => None,
    }
}

/// The view of an optional borrowed value.
pub open spec fn ref_view(v: Option<&JsonValue>) -> Option<JsonView> {
    match v {
        Some(x) => Some(x@),
        None => None,
    }
}

/// The character view of an optional string.
pub open spec fn string_option_view(s: Option<String>) -> Option<Seq<char>> {
    match s {
        Some(t) => Some(t@),
        None => None,
    }
}

/// The member `key` of `v` (`v[key]` in serde_json terms, with an absent
/// member as `None`).
pub fn member<'a>(v: &'a JsonValue, key: &str) -> (r: Option<&'a JsonValue>)
    ensures
        ref_view(r) == json_member(v@, key@),
{
    match v {
        JsonValue::Object(members) => {
            let wanted = key.to_owned();
            let n = members.len();
            let mut i: usize = 0;
            let ghost mv = match v@ {
                JsonView::Object(ms) => ms,
                _ => Seq::empty(),
            };
            assert(v@ == JsonView::Object(mv));
            assert forall|j: int| 0 <= j < n implies #[trigger] mv[j] == (members@[j].0@, json_view(members@[j].1)) by {}
            while i < n
                invariant
                    n == members@.len(),
                    v@ == JsonView::Object(mv),
                    mv.len() == n,
                    forall|j: int| 0 <= j < n ==> #[trigger] mv[j] == (members@[j].0@, json_view(members@[j].1)),
                    i <= n,
                    wanted@ == key@,
                    member_lookup(mv.take(i as int), key@) is None,
                decreases n - i,
            {
                assert(mv.take(i as int + 1).drop_last() =~= mv.take(i as int));
                if members[i].0 == wanted {
                    proof {
                        assert(mv[i as int] == (members@[i as int].0@, json_view(members@[i as int].1)));
                        assert(mv.take(i as int + 1).last() == mv[i as int]);
                        assert(member_lookup(mv.take(i as int + 1), key@) == Some(mv[i as int].1));
                        lemma_member_lookup_prefix(mv, key@, i as int + 1);
                    }
                    return Some(&members[i].1);
                }
                i = i + 1;
            }
            assert(mv.take(n as int) =~= mv);
            None
        },
        _ => None,
    }
}

/// Once a prefix holds the key, the whole sequence's first member with the
/// key is that of the prefix.
proof fn lemma_member_lookup_prefix(members: Seq<(Seq<char>, JsonView)>, key: Seq<char>, k: int)
    requires
        0 <= k <= members.len(),
        member_lookup(members.take(k), key) is Some,
    ensures
        member_lookup(members, key) == member_lookup(members.take(k), key),
    decreases members.len() - k,
{
    if k < members.len() {
        assert(members.take(k + 1).drop_last() =~= members.take(k));
        lemma_member_lookup_prefix(members, key, k + 1);
    } else {
        assert(members.take(k) =~= members);
    }
}

/// The string a value holds, copied, if it is a string.
pub fn as_string(v: Option<&JsonValue>) -> (r: Option<String>)
    ensures
        string_option_view(r) == json_str(ref_view(v)),
{
    match v {
        Some(JsonValue::Str(s)) => Some(s.clone()),
        _ => None,
    }
}

/// The unsigned integer a value denotes, if it is such a number.
pub fn as_u64(v: Option<&JsonValue>) -> (r: Option<u64>)
    ensures
        r == json_u64(ref_view(v)),
{
    match v {
        Some(JsonValue::Number(n)) => *n,
        _ => None,
    }
}

/// The elements of a value, if it is an array.
pub fn as_array(v: Option<&JsonValue>) -> (r: Option<&Vec<JsonValue>>)
    ensures
        match r {
            Some(a) => json_array(ref_view(v)) == Some(Seq::new(a@.len(), |i: int| json_view(a@[i]))),
            None => json_array(ref_view(v)) is None,
        },
{
    match v {
        Some(JsonValue::Array(a)) => {
            proof {
                let av = match ref_view(v) {
                    Some(JsonView::Array(xs)) => xs,
                    _ => Seq::empty(),
                };
                assert(av =~= Seq::new(a@.len(), |i: int| json_view(a@[i])));
            }
            Some(a)
        },
        _ => None,
    }
}

} // verus!
