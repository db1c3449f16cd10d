//! JSON values: the mathematical model, the owned representation the
//! library's logic reads and builds, and the calls into `serde_json` that
//! read and write JSON text.
use vstd::prelude::*;

verus! {

broadcast use vstd::std_specs::vec::group_vec_axioms;

/// The mathematical model of a JSON value.
///
/// Numbers are kept as the text `serde_json` gives them; objects keep their
/// members in order, each key once.
pub enum Json {
    Null,
    Bool(bool),
    Number(Seq<char>),
    Str(Seq<char>),
    Array(Seq<Json>),
    Object(Seq<(Seq<char>, Json)>),
}

/// An owned JSON value.
#[derive(Debug, PartialEq)]
pub enum JsonValue {
    Null,
    Bool(bool),
    /// The number's literal text.
    Number(String),
    Str(String),
    Array(Vec<JsonValue>),
    /// Members in order.
    Object(Vec<(String, JsonValue)>),
}

/// The model of an owned JSON value.
pub open spec fn json_view(v: JsonValue) -> Json
    decreases v,
{
    proof {
        broadcast use vstd::std_specs::vec::axiom_vec_index_decreases;
    }
    match v {
        JsonValue::Null => Json::Null,
        JsonValue::Bool(b) => Json::Bool(b),
        JsonValue::Number(n) => Json::Number(n@),
        JsonValue::Str(s) => Json::Str(s@),
        JsonValue::Array(items) => Json::Array(
            Seq::new(
                items.len() as nat,
                |i: int| if 0 <= i < items.len() { json_view(items[i]) } else { Json::Null },
            ),
        ),
        JsonValue::Object(members) => Json::Object(
            Seq::new(
                members.len() as nat,
                |i: int|
                    if 0 <= i < members.len() {
                        (members[i].0@, json_view(members[i].1))
                    } else {
                        (Seq::empty(), Json::Null)
                    },
            ),
        ),
    }
}

impl DeepView for JsonValue {
    type V = Json;

    open spec fn deep_view(&self) -> Json {
        json_view(*self)
    }
}

/// The models of a sequence of owned members.
pub open spec fn members_view(ms: Seq<(String, JsonValue)>) -> Seq<(Seq<char>, Json)> {
    Seq::new(ms.len(), |i: int| (ms[i].0@, json_view(ms[i].1)))
}

pub proof fn lemma_array_view(items: Vec<JsonValue>)
    ensures
        json_view(JsonValue::Array(items)) == Json::Array(items.deep_view()),
{
    let a = json_view(JsonValue::Array(items));
    assert(a->Array_0 =~= items.deep_view());
}

pub proof fn lemma_object_view(ms: Vec<(String, JsonValue)>)
    ensures
        json_view(JsonValue::Object(ms)) == Json::Object(members_view(ms@)),
{
    let a = json_view(JsonValue::Object(ms));
    assert(a->Object_0 =~= members_view(ms@));
}

/// The JSON value `serde_json` reads from `text`, or `None` where `text` is
/// not one JSON value.
pub uninterp spec fn serde_json_parse(text: Seq<char>) -> Option<Json>;

/// The compact JSON text `serde_json` writes for a value.
pub uninterp spec fn serde_json_text(v: Json) -> Seq<char>;

/// The value of member `key` of an object: its first member with that key.
pub open spec fn member_value(ms: Seq<(Seq<char>, Json)>, key: Seq<char>) -> Option<Json>
    decreases ms.len(),
{
    if ms.len() == 0 {
        None
    } else if ms[0].0 == key {
        Some(ms[0].1)
    } else {
        member_value(ms.drop_first(), key)
    }
}

/// Reads `text` as one JSON value with `serde_json::from_str`; `None` where
/// `serde_json` reports an error. The result is `serde_json`'s value,
/// converted node for node.
#[verifier::external_body]
pub fn parse_json(text: &str) -> (r: Option<JsonValue>)
    ensures
        r.deep_view() == serde_json_parse(text@),
{
    match serde_json::from_str::<serde_json::Value>(text) {
        Ok(v) => Some(value_from_serde(v)),
        Err(_) => None,
    }
}

/// Writes `v` as compact JSON text with `serde_json::to_string` (after
/// converting it node for node); that call does not fail on a value.
#[verifier::external_body]
pub fn to_json_text(v: &JsonValue) -> (r: String)
    ensures
        r@ == serde_json_text(v.deep_view()),
{
    serde_json::to_string(&value_to_serde(v)).unwrap_or_default()
}

/// `serde_json`'s JSON value, carried opaquely between the two conversions below.
#[verifier::external_type_specification]
#[verifier::external_body]
pub struct ExSerdeValue(serde_json::Value);

/// Converts `serde_json`'s value to the library's, node for node (a number
/// by its text). States nothing: only `parse_json` calls it.
#[verifier::external_body]
fn value_from_serde(v: serde_json::Value) -> JsonValue {
    match v {
        serde_json::Value::Null => JsonValue::Null,
        serde_json::Value::Bool(b) => JsonValue::Bool(b),
        serde_json::Value::Number(n) => JsonValue::Number(n.to_string()),
        serde_json::Value::String(s) => JsonValue::Str(s),
        serde_json::Value::Array(a) => JsonValue::Array(a.into_iter().map(value_from_serde).collect()),
        serde_json::Value::Object(m) => JsonValue::Object(
            m.into_iter().map(|(k, v)| (k, value_from_serde(v))).collect(),
        ),
    }
}

/// Converts the library's value to `serde_json`'s, node for node; a number
/// whose text `serde_json` does not read as a number stays a string. States
/// nothing: only `to_json_text` calls it.
#[verifier::external_body]
fn value_to_serde(v: &JsonValue) -> serde_json::Value {
    match v {
        JsonValue::Null => serde_json::Value::Null,
        JsonValue::Bool(b) => serde_json::Value::Bool(*b),
        JsonValue::Number(n) => serde_json::from_str::<serde_json::Number>(n).map(serde_json::Value::Number)
            .unwrap_or_else(|_| serde_json::Value::String(n.clone())),
        JsonValue::Str(s) => serde_json::Value::String(s.clone()),
        JsonValue::Array(a) => serde_json::Value::Array(a.iter().map(value_to_serde).collect()),
        JsonValue::Object(m) => serde_json::Value::Object(
            m.iter().map(|(k, v)| (k.clone(), value_to_serde(v))).collect(),
        ),
    }
}

impl JsonValue {
    /// An object without members.
    pub fn empty_object() -> (r: JsonValue)
        ensures
            r.deep_view() == Json::Object(Seq::empty()),
    {
        let ms: Vec<(String, JsonValue)> = Vec::new();
        proof {
            lemma_object_view(ms);
            assert(members_view(ms@) =~= Seq::empty());
        }
        JsonValue::Object(ms)
    }

    pub fn is_null(&self) -> (r: bool)
        ensures
            r == (self.deep_view() is Null),
    {
        match self {
            JsonValue::Null => true,
            _ => false,
        }
    }

    pub fn is_object(&self) -> (r: bool)
        ensures
            r == (self.deep_view() is Object),
    {
        match self {
            JsonValue::Object(_) => true,
            _ => false,
        }
    }
}

/// A copy of `v`.
pub fn clone_json(v: &JsonValue) -> (r: JsonValue)
    ensures
        r.deep_view() == v.deep_view(),
    decreases v, 1nat,
{
    match v {
        JsonValue::Null => JsonValue::Null,
        JsonValue::Bool(b) => JsonValue::Bool(*b),
        JsonValue::Number(n) => JsonValue::Number(n.clone()),
        JsonValue::Str(s) => JsonValue::Str(s.clone()),
        JsonValue::Array(items) => {
            let out = clone_items(items);
            proof {
                lemma_array_view(out);
                lemma_array_view(*items);
            }
            JsonValue::Array(out)
        },
        JsonValue::Object(ms) => {
            let out = clone_members(ms);
            proof {
                lemma_object_view(out);
                lemma_object_view(*ms);
            }
            JsonValue::Object(out)
        },
    }
}

fn clone_items(items: &Vec<JsonValue>) -> (out: Vec<JsonValue>)
    ensures
        out.deep_view() == items.deep_view(),
    decreases items, 0nat,
{
    let mut out: Vec<JsonValue> = Vec::new();
    let mut k: usize = 0;
    while k < items.len()
        invariant
            0 <= k <= items.len(),
            out@.len() == k,
            forall|j: int| 0 <= j < k ==> out@[j].deep_view() == items@[j].deep_view(),
        decreases items.len() - k,
    {
        proof {
            vstd::std_specs::vec::axiom_vec_index_decreases(*items, k as int);
        }
        out.push(clone_json(&items[k]));
        k = k + 1;
    }
    assert(out.deep_view() =~= items.deep_view());
    out
}

fn clone_members(ms: &Vec<(String, JsonValue)>) -> (out: Vec<(String, JsonValue)>)
    ensures
        members_view(out@) == members_view(ms@),
    decreases ms, 0nat,
{
    let mut out: Vec<(String, JsonValue)> = Vec::new();
    let mut k: usize = 0;
    while k < ms.len()
        invariant
            0 <= k <= ms.len(),
            out@.len() == k,
            forall|j: int|
                0 <= j < k ==> out@[j].0@ == ms@[j].0@ && json_view(out@[j].1) == json_view(ms@[j].1),
        decreases ms.len() - k,
    {
        proof {
            vstd::std_specs::vec::axiom_vec_index_decreases(*ms, k as int);
            assert(decreases_to!(ms[k as int] => ms[k as int].1));
        }
        let value = clone_json(&ms[k].1);
        out.push((ms[k].0.clone(), value));
        k = k + 1;
    }
    assert(members_view(out@) =~= members_view(ms@));
    out
}

/// The index of the member with key `k`, or -1.
pub open spec fn member_index(ms: Seq<(Seq<char>, Json)>, k: Seq<char>) -> int
    decreases ms.len(),
{
    if ms.len() == 0 {
        -1
    } else if ms.last().0 == k {
        ms.len() - 1
    } else {
        member_index(ms.drop_last(), k)
    }
}

pub proof fn lemma_member_index(ms: Seq<(Seq<char>, Json)>, k: Seq<char>)
    ensures
        -1 <= member_index(ms, k) < ms.len(),
        member_index(ms, k) >= 0 ==> ms[member_index(ms, k)].0 == k,
        member_index(ms, k) < 0 ==> forall|i: int| 0 <= i < ms.len() ==> ms[i].0 != k,
    decreases ms.len(),
{
    if ms.len() > 0 {
        lemma_member_index(ms.drop_last(), k);
        if ms.last().0 != k && member_index(ms.drop_last(), k) < 0 {
            assert forall|i: int| 0 <= i < ms.len() implies ms[i].0 != k by {
                if i < ms.len() - 1 {
                    assert(ms[i] == ms.drop_last()[i]);
                }
            }
        }
    }
}

/// Members with `k` set to `v`: the value replaced where the key is (its
/// last occurrence), appended otherwise (as `serde_json`'s order-keeping map does).
pub open spec fn member_insert(ms: Seq<(Seq<char>, Json)>, k: Seq<char>, v: Json) -> Seq<(Seq<char>, Json)> {
    let i = member_index(ms, k);
    if i >= 0 {
        ms.update(i, (k, v))
    } else {
        ms.push((k, v))
    }
}

/// Sets member `key` of an object to `value` (see `member_insert`); other
/// values are left as they are.
pub fn object_insert(v: JsonValue, key: String, value: JsonValue) -> (r: JsonValue)
    ensures
        r.deep_view() == match v.deep_view() {
            Json::Object(ms) => Json::Object(member_insert(ms, key@, value.deep_view())),
            other => other,
        },
{
    match v {
        JsonValue::Object(ms) => {
            let ghost m0 = members_view(ms@);
            proof {
                lemma_object_view(ms);
                lemma_member_index(m0, key@);
            }
            let mut ms = ms;
            let mut k: usize = ms.len();
            let mut found = false;
            while k > 0
                invariant_except_break
                    !found,
                invariant
                    0 <= k <= ms.len(),
                    members_view(ms@) == m0,
                    forall|j: int| k <= j < ms.len() ==> ms@[j].0@ != key@,
                ensures
                    found ==> k > 0 && ms@[k - 1].0@ == key@,
                    !found ==> k == 0,
                decreases k,
            {
                if ms[k - 1].0.eq(&key) {
                    found = true;
                    break;
                }
                k = k - 1;
            }
            proof {
                if !found {
                    assert forall|j: int| 0 <= j < m0.len() implies m0[j].0 != key@ by {
                        assert(m0[j].0 == ms@[j].0@);
                    }
                    assert(member_index(m0, key@) < 0);
                }
            }
            if found {
                let ghost idx = (k - 1) as int;
                proof {
                    assert(m0[idx].0 == ms@[idx].0@);
                    assert forall|j: int| idx < j < m0.len() implies m0[j].0 != key@ by {
                        assert(m0[j].0 == ms@[j].0@);
                    }
                    lemma_member_index_last(m0, key@, idx);
                }
                let ghost vv = value.deep_view();
                ms.set(k - 1, (key, value));
                proof {
                    lemma_object_view(ms);
                    assert(members_view(ms@) =~= m0.update(idx, (key@, vv)));
                }
                JsonValue::Object(ms)
            } else {
                let ghost vv = value.deep_view();
                let ghost kv = key@;
                ms.push((key, value));
                proof {
                    lemma_object_view(ms);
                    assert(members_view(ms@) =~= m0.push((kv, vv)));
                }
                JsonValue::Object(ms)
            }
        },
        other => other,
    }
}

pub proof fn lemma_member_index_last(ms: Seq<(Seq<char>, Json)>, k: Seq<char>, idx: int)
    requires
        0 <= idx < ms.len(),
        ms[idx].0 == k,
        forall|j: int| idx < j < ms.len() ==> ms[j].0 != k,
    ensures
        member_index(ms, k) == idx,
    decreases ms.len(),
{
    if idx < ms.len() - 1 {
        assert(ms.drop_last()[idx] == ms[idx]);
        assert forall|j: int| idx < j < ms.drop_last().len() implies ms.drop_last()[j].0 != k by {
            assert(ms.drop_last()[j] == ms[j]);
        }
        lemma_member_index_last(ms.drop_last(), k, idx);
    }
}

} // verus!
