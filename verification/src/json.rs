//! JSON documents as plain trees, read and written through `serde_json`.

use vstd::pervasive::unreached;
use vstd::prelude::*;
use vstd::string::StringExecFns;

verus! {

/// A JSON document. A number keeps the text that `serde_json` prints for it.
#[derive(Debug, PartialEq, Eq)]
pub enum Json {
    Null,
    Bool(bool),
    Number(String),
    Text(String),
    Array(Vec<Json>),
    Object(Vec<Member>),
}

/// One `key: value` pair of a JSON object.
#[derive(Debug, PartialEq, Eq)]
pub struct Member {
    pub key: String,
    pub value: Json,
}

/// The mathematical value of a [`Json`] document.
pub enum JsonValue {
    Null,
    Bool(bool),
    Number(Seq<char>),
    Text(Seq<char>),
    Array(Seq<JsonValue>),
    Object(Seq<MemberValue>),
}

/// The mathematical value of a [`Member`].
pub struct MemberValue {
    pub key: Seq<char>,
    pub value: JsonValue,
}

impl View for Json {
    type V = JsonValue;

    open spec fn view(&self) -> JsonValue
        decreases self,
    {
        match self {
            Json::Null => JsonValue::Null,
            Json::Bool(b) => JsonValue::Bool(*b),
            Json::Number(n) => JsonValue::Number(n@),
            Json::Text(t) => JsonValue::Text(t@),
            Json::Array(items) => JsonValue::Array(
                Seq::new(
                    items@.len(),
                    |i: int|
                        if 0 <= i < items@.len() {
                            items[i].view()
                        } else {
                            JsonValue::Null
                        },
                ),
            ),
            Json::Object(members) => JsonValue::Object(
                Seq::new(
                    members@.len(),
                    |i: int|
                        if 0 <= i < members@.len() {
                            MemberValue { key: members[i].key@, value: members[i].value.view() }
                        } else {
                            MemberValue { key: Seq::empty(), value: JsonValue::Null }
                        },
                ),
            ),
        }
    }
}

impl DeepView for Json {
    type V = JsonValue;

    open spec fn deep_view(&self) -> JsonValue {
        self@
    }
}

impl View for Member {
    type V = MemberValue;

    open spec fn view(&self) -> MemberValue {
        MemberValue { key: self.key@, value: self.value@ }
    }
}

impl DeepView for Member {
    type V = MemberValue;

    open spec fn deep_view(&self) -> MemberValue {
        self@
    }
}

/// The value stored under `key` in `members`: that of the first member with
/// this key, if there is one.
pub open spec fn lookup(members: Seq<MemberValue>, key: Seq<char>) -> Option<JsonValue>
    decreases members.len(),
{
    if members.len() == 0 {
        None
    } else if members[0].key == key {
        Some(members[0].value)
    } else {
        lookup(members.drop_first(), key)
    }
}

impl JsonValue {
    /// The value under `key` if this is an object that has one.
    pub open spec fn field(self, key: Seq<char>) -> Option<JsonValue> {
        match self {
            JsonValue::Object(members) => lookup(members, key),
            _ => None,
        }
    }
}

/// The document that a `serde_json::Value` holds.
pub uninterp spec fn value_tree(v: serde_json::Value) -> JsonValue;

/// The document that `serde_json` reads out of `bytes`, `None` where it
/// reports an error.
pub uninterp spec fn json_document(bytes: Seq<u8>) -> Option<JsonValue>;

/// The JSON string literal, quotes and escapes included, that `serde_json`
/// writes for `text`.
pub uninterp spec fn json_string_literal(text: Seq<char>) -> Seq<char>;

/// `serde_json::Value`, which verified code only carries from the parser to
/// the conversion.
#[verifier::external_type_specification]
#[verifier::external_body]
pub struct ExValue(serde_json::Value);

/// `serde_json::Error`, which verified code only tells from a value.
#[verifier::external_type_specification]
#[verifier::external_body]
pub struct ExError(serde_json::Error);

/// Calls `serde_json::from_slice` at type `serde_json::Value`. Nothing is
/// claimed of which bytes parse, nor into what: the contract only gives the
/// answer a name, which rests on the parser giving one answer for the same
/// bytes.
#[verifier::external_body]
fn parse_value(bytes: &[u8]) -> (r: Result<serde_json::Value, serde_json::Error>)
    ensures
        match r {
            Ok(v) => json_document(bytes@) == Some(value_tree(v)),
            Err(_) => json_document(bytes@) is None,
        },
{
    serde_json::from_slice::<serde_json::Value>(bytes)
}

/// Moves a `serde_json::Value` into a [`Json`] tree, variant by variant:
/// texts, array items and object members as they are and in the order in
/// which the value hands them out, a number as the text that its `Display`
/// writes. The contract only gives the tree a name.
#[verifier::external_body]
fn tree_of(v: serde_json::Value) -> (j: Json)
    ensures
        j@ == value_tree(v),
{
    match v {
        serde_json::Value::Null => Json::Null,
        serde_json::Value::Bool(b) => Json::Bool(b),
        serde_json::Value::Number(n) => Json::Number(n.to_string()),
        serde_json::Value::String(s) => Json::Text(s),
        serde_json::Value::Array(a) => Json::Array(a.into_iter().map(tree_of).collect()),
        serde_json::Value::Object(m) => Json::Object(
            m.into_iter().map(|(key, v)| Member { key, value: tree_of(v) }).collect(),
        ),
    }
}

/// Calls `serde_json::to_string` on a `str`, which writes the text as a JSON
/// string literal. It documents two causes of failure, a `Serialize` impl
/// that fails and a map with keys that are no strings; a `str` is neither,
/// so the contract promises a literal. Nothing is claimed of how the literal
/// is spelt: the contract only gives it a name.
#[verifier::external_body]
fn write_string(text: &str) -> (r: Result<String, serde_json::Error>)
    ensures
        match r {
            Ok(literal) => literal@ == json_string_literal(text@),
            Err(_) => false,
        },
{
    serde_json::to_string(text)
}

/// The JSON string literal for `text`, quotes and escapes included.
pub fn string_literal(text: &str) -> (r: String)
    ensures
        r@ == json_string_literal(text@),
{
    match write_string(text) {
        Ok(literal) => literal,
        Err(_) => unreached(),
    }
}

impl Json {
    /// Parses JSON text. Whatever the parser objects to, the answer is
    /// `None`.
    pub fn parse(bytes: &[u8]) -> (r: Option<Json>)
        ensures
            r.deep_view() == json_document(bytes@),
    {
        match parse_value(bytes) {
            Ok(v) => Some(tree_of(v)),
            Err(_) => None,
        }
    }

    /// The value under `key`, if this is an object that has such a member.
    pub fn field(&self, key: &str) -> (r: Option<&Json>)
        ensures
            r.deep_view() == self@.field(key@),
    {
        match self {
            Json::Object(members) => {
                proof {
                    lemma_members_view(*members);
                }
                find_member(members, key)
            },
            _ => None,
        }
    }
}

impl Clone for Json {
    fn clone(&self) -> (r: Json)
        ensures
            r@ == self@,
        decreases self,
    {
        match self {
            Json::Null => Json::Null,
            Json::Bool(b) => Json::Bool(*b),
            Json::Number(n) => Json::Number(n.clone()),
            Json::Text(t) => Json::Text(t.clone()),
            Json::Array(items) => {
                let mut out: Vec<Json> = Vec::new();
                let mut i: usize = 0;
                while i < items.len()
                    invariant
                        i <= items.len(),
                        out.len() == i,
                        *self == Json::Array(*items),
                        forall|k: int| 0 <= k < i ==> out[k]@ == items[k]@,
                    decreases items.len() - i,
                {
                    assert(decreases_to!(self => items[i as int])) by {
                        assert(decreases_to!(*self => self->Array_0));
                    }
                    out.push(items[i].clone());
                    i += 1;
                }
                proof {
                    lemma_items_view(*items);
                    lemma_items_view(out);
                    assert(out.deep_view() =~= items.deep_view());
                }
                Json::Array(out)
            },
            Json::Object(members) => {
                let mut out: Vec<Member> = Vec::new();
                let mut i: usize = 0;
                while i < members.len()
                    invariant
                        i <= members.len(),
                        out.len() == i,
                        *self == Json::Object(*members),
                        forall|k: int| 0 <= k < i ==> out[k]@ == members[k]@,
                    decreases members.len() - i,
                {
                    assert(decreases_to!(self => members[i as int].value)) by {
                        assert(decreases_to!(*self => self->Object_0));
                    }
                    let key = members[i].key.clone();
                    let value = members[i].value.clone();
                    out.push(Member { key, value });
                    i += 1;
                }
                proof {
                    lemma_members_view(*members);
                    lemma_members_view(out);
                    assert(out.deep_view() =~= members.deep_view());
                }
                Json::Object(out)
            },
        }
    }
}

/// The view of an object lists the views of its members.
pub proof fn lemma_members_view(members: Vec<Member>)
    ensures
        Json::Object(members)@ == JsonValue::Object(members.deep_view()),
{
    assert(Json::Object(members)@->Object_0 =~= members.deep_view());
}

/// The view of an array lists the views of its items.
pub proof fn lemma_items_view(items: Vec<Json>)
    ensures
        Json::Array(items)@ == JsonValue::Array(items.deep_view()),
{
    assert(Json::Array(items)@->Array_0 =~= items.deep_view());
}

/// The first member of `members` whose key is `key`.
pub fn find_member<'a>(members: &'a Vec<Member>, key: &str) -> (r: Option<&'a Json>)
    ensures
        r.deep_view() == lookup(members.deep_view(), key@),
{
    let wanted = String::from_str(key);
    let ghost all = members.deep_view();
    let mut i: usize = 0;
    assert(all.skip(0) =~= all);
    while i < members.len()
        invariant
            i <= members.len(),
            all == members.deep_view(),
            wanted@ == key@,
            lookup(all, key@) == lookup(all.skip(i as int), key@),
        decreases members.len() - i,
    {
        let ghost rest = all.skip(i as int);
        if members[i].key == wanted {
            return Some(&members[i].value);
        }
        assert(rest.drop_first() =~= all.skip(i + 1));
        i += 1;
    }
    None
}

} // verus!
