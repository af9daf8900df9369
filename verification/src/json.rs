//! JSON documents as plain values: reading and writing their text (through
//! `serde_json`), and finding, taking and setting the members of an object.
use vstd::prelude::*;

use crate::text::{owned, str_eq};

verus! {

/// A JSON value. A number keeps its JSON text. An object keeps its members
/// in order; when a name occurs more than once the last member counts, as
/// when `serde_json` builds its map from them.
#[derive(Debug)]
pub enum JsonValue {
    Null,
    Bool(bool),
    Number(String),
    Str(String),
    Array(Vec<JsonValue>),
    Object(Vec<(String, JsonValue)>),
}

/// The member `k` of an object's members: the last one of that name.
pub open spec fn obj_get(e: Seq<(String, JsonValue)>, k: Seq<char>) -> Option<JsonValue>
    decreases e.len(),
{
    if e.len() == 0 {
        None
    } else if e.last().0@ == k {
        Some(e.last().1)
    } else {
        obj_get(e.drop_last(), k)
    }
}

/// Adding a member makes it the one of its name and leaves the others.
pub proof fn lemma_obj_get_push(e: Seq<(String, JsonValue)>, p: (String, JsonValue), x: Seq<char>)
    ensures
        obj_get(e.push(p), x) == if p.0@ == x {
            Some(p.1)
        } else {
            obj_get(e, x)
        },
{
    assert(e.push(p).drop_last() =~= e);
}

/// Removing a member of another name leaves the member `x` as it was.
pub proof fn lemma_obj_get_remove(e: Seq<(String, JsonValue)>, i: int, x: Seq<char>)
    requires
        0 <= i < e.len(),
        e[i].0@ != x,
    ensures
        obj_get(e.remove(i), x) == obj_get(e, x),
    decreases e.len(),
{
    if i == e.len() - 1 {
        assert(e.remove(i) =~= e.drop_last());
    } else {
        assert(e.remove(i).drop_last() =~= e.drop_last().remove(i));
        assert(e.remove(i).last() == e.last());
        lemma_obj_get_remove(e.drop_last(), i, x);
    }
}

/// Where the member `k` is: the last member of that name.
pub fn find_member(e: &Vec<(String, JsonValue)>, k: &str) -> (r: Option<usize>)
    ensures
        r is None <==> obj_get(e@, k@) is None,
        r matches Some(i) ==> i < e@.len() && e@[i as int].0@ == k@ && obj_get(e@, k@) == Some(e@[i as int].1),
{
    let mut i = e.len();
    assert(e@.take(i as int) =~= e@);
    while i > 0
        invariant
            i <= e@.len(),
            obj_get(e@, k@) == obj_get(e@.take(i as int), k@),
        decreases i,
    {
        assert(e@.take(i as int).drop_last() =~= e@.take(i - 1));
        assert(e@.take(i as int).last() == e@[i - 1]);
        if str_eq(e[i - 1].0.as_str(), k) {
            return Some(i - 1);
        }
        i = i - 1;
    }
    None
}

/// The member `k` of an object's members, when there is one.
pub fn member<'a>(e: &'a Vec<(String, JsonValue)>, k: &str) -> (r: Option<&'a JsonValue>)
    ensures
        r is None <==> obj_get(e@, k@) is None,
        r matches Some(v) ==> obj_get(e@, k@) == Some(*v),
{
    match find_member(e, k) {
        Some(i) => Some(&e[i].1),
        None => None,
    }
}

/// Sets the member `k` to `v`; every other member stays.
pub fn set_member(e: &mut Vec<(String, JsonValue)>, k: &str, v: JsonValue)
    ensures
        obj_get(final(e)@, k@) == Some(v),
        forall|x: Seq<char>| x != k@ ==> #[trigger] obj_get(final(e)@, x) == obj_get(old(e)@, x),
{
    let ghost before = e@;
    let key = owned(k);
    let ghost p = (key, v);
    e.push((key, v));
    proof {
        lemma_obj_get_push(before, p, k@);
        assert forall|x: Seq<char>| x != k@ implies #[trigger] obj_get(e@, x) == obj_get(before, x) by {
            lemma_obj_get_push(before, p, x);
        }
    }
}

/// Takes the member `k` out; every other member stays.
pub fn take_member(e: &mut Vec<(String, JsonValue)>, k: &str) -> (r: Option<JsonValue>)
    ensures
        r == obj_get(old(e)@, k@),
        r is None ==> final(e)@ == old(e)@,
        forall|x: Seq<char>| x != k@ ==> #[trigger] obj_get(final(e)@, x) == obj_get(old(e)@, x),
{
    match find_member(e, k) {
        None => None,
        Some(i) => {
            let ghost before = e@;
            let (_, v) = e.remove(i);
            proof {
                assert forall|x: Seq<char>| x != k@ implies #[trigger] obj_get(e@, x) == obj_get(before, x) by {
                    lemma_obj_get_remove(before, i as int, x);
                }
            }
            Some(v)
        },
    }
}

/// The value `serde_json::from_str` reads from a text, member for member;
/// none when the text is not JSON.
pub uninterp spec fn parsed_json(text: Seq<char>) -> Option<JsonValue>;

/// The text `serde_json::to_string_pretty` writes for a value.
pub uninterp spec fn pretty_json(v: JsonValue) -> Seq<char>;

#[verifier::external_type_specification]
#[verifier::external_body]
pub struct ExSerdeJsonValue(serde_json::Value);

/// Turns a `serde_json` value into a `JsonValue`, variant for variant (a
/// number as its text). The conversion half of `parse_json`, which states
/// the result.
#[verifier::external_body]
fn from_serde(v: serde_json::Value) -> JsonValue {
    match v {
        serde_json::Value::Null => JsonValue::Null,
        serde_json::Value::Bool(b) => JsonValue::Bool(b),
        serde_json::Value::Number(n) => JsonValue::Number(n.to_string()),
        serde_json::Value::String(s) => JsonValue::Str(s),
        serde_json::Value::Array(a) => JsonValue::Array(a.into_iter().map(from_serde).collect()),
        serde_json::Value::Object(m) => JsonValue::Object(m.into_iter().map(|(k, x)| (k, from_serde(x))).collect()),
    }
}

/// Turns a `JsonValue` into a `serde_json` value, variant for variant (a
/// number read back from its text). The conversion half of `json_pretty`,
/// which states the result.
#[verifier::external_body]
fn to_serde(v: &JsonValue) -> Result<serde_json::Value, String> {
    Ok(match v {
        JsonValue::Null => serde_json::Value::Null,
        JsonValue::Bool(b) => serde_json::Value::Bool(*b),
        JsonValue::Number(t) => serde_json::Value::Number(t.parse().map_err(|e: serde_json::Error| e.to_string())?),
        JsonValue::Str(s) => serde_json::Value::String(s.clone()),
        JsonValue::Array(a) => serde_json::Value::Array(a.iter().map(to_serde).collect::<Result<_, _>>()?),
        JsonValue::Object(m) => serde_json::Value::Object(
            m.iter().map(|(k, x)| Ok((k.clone(), to_serde(x)?))).collect::<Result<_, String>>()?,
        ),
    })
}

/// Calls `serde_json::from_str` and converts the value. Trusted: it
/// succeeds exactly when `parsed_json` reads a value, and gives that value;
/// the error text is not stated.
#[verifier::external_body]
pub(crate) fn parse_json(text: &str) -> (r: Result<JsonValue, String>)
    ensures
        r is Ok <==> parsed_json(text@) is Some,
        r matches Ok(v) ==> parsed_json(text@) == Some(v),
{
    serde_json::from_str::<serde_json::Value>(text).map(from_serde).map_err(|e| e.to_string())
}

/// Converts the value and calls `serde_json::to_string_pretty`. Trusted: a
/// text it returns is `pretty_json` of the value; when it fails (a number
/// whose text is not a JSON number) is not stated.
#[verifier::external_body]
pub(crate) fn json_pretty(v: &JsonValue) -> (r: Result<String, String>)
    ensures
        r matches Ok(t) ==> t@ == pretty_json(*v),
{
    serde_json::to_string_pretty(&to_serde(v)?).map_err(|e| e.to_string())
}

} // verus!
