//! Writing the requests of the protocol as JSON, member by member in the
//! order in which the protocol names them.

use crate::json::{lemma_list_view, lemma_object_view, Json, JsonMember, JsonValue, Member};
use crate::protocol::{
    CsrRequest, CsrRequestView, Identifier, IdentifierView, NewAccountRequest,
    NewAccountRequestView, NewOrderRequest, NewOrderRequestView, Payload, PayloadView,
};
use crate::views::each_view;
use vstd::prelude::*;

verus! {

/// One JSON string for each text.
pub open spec fn text_items(texts: Seq<Seq<char>>) -> Seq<Json> {
    Seq::new(texts.len(), |i: int| Json::Text(texts[i]))
}

impl IdentifierView {
    /// An identifier as a JSON object: `type`, then `value`.
    pub open spec fn json(self) -> Json {
        Json::Object(
            seq![
                Member { name: "type"@, value: Json::Text(self.ty) },
                Member { name: "value"@, value: Json::Text(self.value) },
            ],
        )
    }
}

/// One JSON object for each identifier.
pub open spec fn identifier_items(identifiers: Seq<IdentifierView>) -> Seq<Json> {
    Seq::new(identifiers.len(), |i: int| identifiers[i].json())
}

impl NewAccountRequestView {
    /// The request as a JSON object: `onlyReturnExisting`,
    /// `termsOfServiceAgreed`, then `contact`.
    pub open spec fn json(self) -> Json {
        Json::Object(
            seq![
                Member {
                    name: "onlyReturnExisting"@,
                    value: Json::Bool(self.only_return_existing),
                },
                Member {
                    name: "termsOfServiceAgreed"@,
                    value: Json::Bool(self.terms_of_service_agreed),
                },
                Member { name: "contact"@, value: Json::List(text_items(self.contact)) },
            ],
        )
    }
}

impl NewOrderRequestView {
    /// The request as a JSON object with the one member `identifiers`.
    pub open spec fn json(self) -> Json {
        Json::Object(
            seq![
                Member {
                    name: "identifiers"@,
                    value: Json::List(identifier_items(self.identifiers)),
                },
            ],
        )
    }
}

impl CsrRequestView {
    /// The request as a JSON object with the one member `csr`.
    pub open spec fn json(self) -> Json {
        Json::Object(seq![Member { name: "csr"@, value: Json::Text(self.csr) }])
    }
}

impl PayloadView {
    /// The JSON document a payload is sent as; none for a request that only
    /// fetches.
    pub open spec fn json(self) -> Option<Json> {
        match self {
            PayloadView::PostAsGet => None,
            PayloadView::EmptyObject => Some(Json::Object(Seq::empty())),
            PayloadView::NewAccount(request) => Some(request.json()),
            PayloadView::NewOrder(request) => Some(request.json()),
            PayloadView::Csr(request) => Some(request.json()),
        }
    }
}

/// A member of an object under construction.
fn member(name: &str, value: JsonValue) -> (r: JsonMember)
    ensures
        r@ == (Member { name: name@, value: value@ }),
{
    JsonMember { name: name.to_owned(), value }
}

/// The object with the given members.
fn object(members: Vec<JsonMember>) -> (r: JsonValue)
    ensures
        r@ == Json::Object(each_view(members@)),
{
    proof {
        lemma_object_view(members);
    }
    JsonValue::Object(members)
}

/// The array with the given items.
fn list(items: Vec<JsonValue>) -> (r: JsonValue)
    ensures
        r@ == Json::List(each_view(items@)),
{
    proof {
        lemma_list_view(items);
    }
    JsonValue::List(items)
}

impl Identifier {
    /// Writes the identifier as a JSON object.
    pub fn to_json(&self) -> (r: JsonValue)
        ensures
            r@ == self@.json(),
    {
        let mut members: Vec<JsonMember> = Vec::new();
        members.push(member("type", JsonValue::Text(self.ty.clone())));
        members.push(member("value", JsonValue::Text(self.value.clone())));
        assert(each_view(members@) =~= self@.json()->Object_0);
        object(members)
    }
}

impl NewAccountRequest {
    /// Writes the request as a JSON object.
    pub fn to_json(&self) -> (r: JsonValue)
        ensures
            r@ == self@.json(),
    {
        let mut contact: Vec<JsonValue> = Vec::new();
        let mut i: usize = 0;
        while i < self.contact.len()
            invariant
                i <= self.contact@.len(),
                contact@.len() == i,
                forall|k: int|
                    0 <= k < i ==> (#[trigger] contact@[k])@ == Json::Text(self.contact@[k]@),
            decreases self.contact@.len() - i,
        {
            contact.push(JsonValue::Text(self.contact[i].clone()));
            i = i + 1;
        }
        assert(each_view(contact@) =~= text_items(self@.contact));
        let mut members: Vec<JsonMember> = Vec::new();
        members.push(member("onlyReturnExisting", JsonValue::Bool(self.only_return_existing)));
        members.push(
            member("termsOfServiceAgreed", JsonValue::Bool(self.terms_of_service_agreed)),
        );
        members.push(member("contact", list(contact)));
        assert(each_view(members@) =~= self@.json()->Object_0);
        object(members)
    }
}

impl NewOrderRequest {
    /// Writes the request as a JSON object.
    pub fn to_json(&self) -> (r: JsonValue)
        ensures
            r@ == self@.json(),
    {
        let mut items: Vec<JsonValue> = Vec::new();
        let mut i: usize = 0;
        while i < self.identifiers.len()
            invariant
                i <= self.identifiers@.len(),
                items@.len() == i,
                forall|k: int|
                    0 <= k < i ==> (#[trigger] items@[k])@ == self.identifiers@[k]@.json(),
            decreases self.identifiers@.len() - i,
        {
            items.push(self.identifiers[i].to_json());
            i = i + 1;
        }
        assert(each_view(items@) =~= identifier_items(self@.identifiers));
        let mut members: Vec<JsonMember> = Vec::new();
        members.push(member("identifiers", list(items)));
        assert(each_view(members@) =~= self@.json()->Object_0);
        object(members)
    }
}

impl CsrRequest {
    /// Writes the request as a JSON object.
    pub fn to_json(&self) -> (r: JsonValue)
        ensures
            r@ == self@.json(),
    {
        let mut members: Vec<JsonMember> = Vec::new();
        members.push(member("csr", JsonValue::Text(self.csr.clone())));
        assert(each_view(members@) =~= self@.json()->Object_0);
        object(members)
    }
}

impl Payload {
    /// Writes the payload as the JSON document it is sent as; `None` for a
    /// request that only fetches.
    pub fn to_json(&self) -> (r: Option<JsonValue>)
        ensures
            match r {
                Some(doc) => self@.json() == Some(doc@),
                None => self@.json() is None,
            },
    {
        match self {
            Payload::PostAsGet => None,
            Payload::EmptyObject => {
                let members: Vec<JsonMember> = Vec::new();
                assert(each_view(members@) =~= Seq::<Member>::empty());
                Some(object(members))
            },
            Payload::NewAccount(request) => Some(request.to_json()),
            Payload::NewOrder(request) => Some(request.to_json()),
            Payload::Csr(request) => Some(request.to_json()),
        }
    }
}

} // verus!
