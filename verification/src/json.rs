//! JSON documents as trees of plain values, and the lookups the protocol
//! decoders are built from.

use crate::views::each_view;
use vstd::prelude::*;

verus! {

/// Mathematical model of a JSON document.
pub enum Json {
    Null,
    Bool(bool),
    /// A number, by its literal text.
    Number(Seq<char>),
    Text(Seq<char>),
    List(Seq<Json>),
    /// The members of an object, in the order in which they are held.
    Object(Seq<Member>),
}

/// One named value of an object.
pub struct Member {
    pub name: Seq<char>,
    pub value: Json,
}

/// A JSON document held in memory.
#[derive(Debug, PartialEq, Eq)]
pub enum JsonValue {
    Null,
    Bool(bool),
    /// A number, by its literal text.
    Number(String),
    Text(String),
    List(Vec<JsonValue>),
    /// The members of an object, in the order in which they are held. A
    /// parsed document holds them sorted by name, each name once.
    Object(Vec<JsonMember>),
}

/// One named value of an object.
#[derive(Debug, PartialEq, Eq)]
pub struct JsonMember {
    pub name: String,
    pub value: JsonValue,
}

impl View for JsonValue {
    type V = Json;

    /// The document a value holds. The bounds inside the two closures are
    /// there for the termination argument alone.
    open spec fn view(&self) -> Json
        decreases self,
    {
        match self {
            JsonValue::Null => Json::Null,
            JsonValue::Bool(b) => Json::Bool(*b),
            JsonValue::Number(n) => Json::Number(n@),
            JsonValue::Text(s) => Json::Text(s@),
            JsonValue::List(items) => Json::List(
                Seq::new(
                    items@.len(),
                    |i: int|
                        if 0 <= i < items@.len() {
                            items@[i]@
                        } else {
                            Json::Null
                        },
                ),
            ),
            JsonValue::Object(members) => Json::Object(
                Seq::new(
                    members@.len(),
                    |i: int|
                        if 0 <= i < members@.len() {
                            Member { name: members@[i].name@, value: members@[i].value@ }
                        } else {
                            Member { name: Seq::empty(), value: Json::Null }
                        },
                ),
            ),
        }
    }
}

/// The value of the first of `members` that is called `key`.
pub open spec fn first_member(members: Seq<Member>, key: Seq<char>) -> Option<Json>
    decreases members.len(),
{
    if members.len() == 0 {
        None
    } else if members[0].name == key {
        Some(members[0].value)
    } else {
        first_member(members.drop_first(), key)
    }
}

impl Json {
    /// The member called `key`, where this is an object that has one.
    pub open spec fn member(self, key: Seq<char>) -> Option<Json> {
        match self {
            Json::Object(members) => first_member(members, key),
            _ => None,
        }
    }

    /// The text, where this is a string.
    pub open spec fn text(self) -> Option<Seq<char>> {
        match self {
            Json::Text(text) => Some(text),
            _ => None,
        }
    }

    /// The items, where this is an array.
    pub open spec fn items(self) -> Option<Seq<Json>> {
        match self {
            Json::List(items) => Some(items),
            _ => None,
        }
    }
}

impl View for JsonMember {
    type V = Member;

    open spec fn view(&self) -> Member {
        Member { name: self.name@, value: self.value@ }
    }
}

/// An array holds the documents of its items.
pub proof fn lemma_list_view(items: Vec<JsonValue>)
    ensures
        JsonValue::List(items)@ == Json::List(each_view(items@)),
{
    assert(JsonValue::List(items)@->List_0 =~= each_view(items@));
}

/// An object holds the members of its named values.
pub proof fn lemma_object_view(members: Vec<JsonMember>)
    ensures
        JsonValue::Object(members)@ == Json::Object(each_view(members@)),
{
    assert(JsonValue::Object(members)@->Object_0 =~= each_view(members@));
}

impl JsonValue {
    /// Looks a member of an object up by its name.
    pub fn get(&self, key: &str) -> (r: Option<&JsonValue>)
        ensures
            match r {
                Some(value) => self@.member(key@) == Some(value@),
                None => self@.member(key@) is None,
            },
    {
        match self {
            JsonValue::Object(members) => {
                proof {
                    lemma_object_view(*members);
                }
                let ghost all = each_view(members@);
                let wanted = key.to_owned();
                let mut i: usize = 0;
                assert(all.skip(0) == all);
                while i < members.len()
                    invariant
                        i <= members@.len(),
                        all == each_view(members@),
                        self@ == Json::Object(all),
                        wanted@ == key@,
                        first_member(all, key@) == first_member(all.skip(i as int), key@),
                    decreases members@.len() - i,
                {
                    let member = &members[i];
                    proof {
                        assert(all.skip(i as int)[0] == member@);
                        assert(all.skip(i as int).drop_first() == all.skip(i + 1));
                    }
                    if member.name == wanted {
                        return Some(&member.value);
                    }
                    i = i + 1;
                }
                None
            },
            _ => None,
        }
    }

    /// The text of a string.
    pub fn as_text(&self) -> (r: Option<&str>)
        ensures
            match r {
                Some(text) => self@.text() == Some(text@),
                None => self@.text() is None,
            },
    {
        match self {
            JsonValue::Text(text) => Some(text.as_str()),
            _ => None,
        }
    }

    /// The items of an array.
    pub fn as_list(&self) -> (r: Option<&Vec<JsonValue>>)
        ensures
            match r {
                Some(items) => self@.items() == Some(each_view(items@)),
                None => self@.items() is None,
            },
    {
        match self {
            JsonValue::List(items) => {
                proof {
                    lemma_list_view(*items);
                }
                Some(items)
            },
            _ => None,
        }
    }

    /// Whether this is `null`.
    pub fn is_null(&self) -> (r: bool)
        ensures
            r == (self@ == Json::Null),
    {
        match self {
            JsonValue::Null => true,
            _ => false,
        }
    }
}

/// What `bytes` hold when read as one JSON document; `None` when they are not one.
pub uninterp spec fn json_document(bytes: Seq<u8>) -> Option<Json>;

/// The document that a parsed `serde_json::Value` holds.
pub uninterp spec fn json_tree(value: serde_json::Value) -> Json;

/// Makes `serde_json::Value` known to the verifier as an opaque type.
#[verifier::external_type_specification]
#[verifier::external_body]
pub struct ExJsonValue(serde_json::Value);

/// Calls `serde_json::from_slice` for a `serde_json::Value`. Whether it
/// succeeds, and with which document, depends on the bytes alone.
#[verifier::external_body]
fn serde_parse(bytes: &[u8]) -> (r: Option<serde_json::Value>)
    ensures
        match r {
            Some(v) => json_document(bytes@) == Some(json_tree(v)),
            None => json_document(bytes@) is None,
        },
{
    serde_json::from_slice::<serde_json::Value>(bytes).ok()
}

/// Rebuilds a `serde_json::Value` as a `JsonValue`, one variant for one
/// variant, numbers by the text that `serde_json::Number` displays. Object
/// members keep the order in which `serde_json::Map` yields them. The
/// document that comes out depends on the value alone.
#[verifier::external_body]
fn from_serde(value: &serde_json::Value) -> (r: JsonValue)
    ensures
        r@ == json_tree(*value),
{
    match value {
        serde_json::Value::Null => JsonValue::Null,
        serde_json::Value::Bool(b) => JsonValue::Bool(*b),
        serde_json::Value::Number(n) => JsonValue::Number(n.to_string()),
        serde_json::Value::String(s) => JsonValue::Text(s.clone()),
        serde_json::Value::Array(a) => JsonValue::List(a.iter().map(from_serde).collect()),
        serde_json::Value::Object(m) => JsonValue::Object(
            m.iter().map(|(k, v)| JsonMember { name: k.clone(), value: from_serde(v) }).collect(),
        ),
    }
}

/// Reads `bytes` as one JSON document.
pub fn parse_json(bytes: &[u8]) -> (r: Option<JsonValue>)
    ensures
        match r {
            Some(v) => json_document(bytes@) == Some(v@),
            None => json_document(bytes@) is None,
        },
{
    match serde_parse(bytes) {
        Some(value) => Some(from_serde(&value)),
        None => None,
    }
}

} // verus!
