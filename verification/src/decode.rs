//! Reading the documents of the protocol out of JSON. A decoder names the
//! first member that is missing or does not hold what it must.

use crate::error::{AcmeError, AcmeErrorView, ErrorKind};
use crate::json::{Json, JsonValue};
use crate::protocol::{
    Challenge, ChallengeView, Directory, DirectoryView, FetchAuthorizationResponse,
    FetchAuthorizationResponseView, Identifier, IdentifierView, NewOrderResponse,
    NewOrderResponseView,
};
use crate::url::{is_uri, Url};
use crate::views::{each_view, lemma_each_view_push, result_view};
use vstd::prelude::*;

verus! {

/// The text of the member `key`, which must be there and hold a string.
pub open spec fn required_text(doc: Json, key: Seq<char>) -> Result<Seq<char>, AcmeErrorView> {
    match doc.member(key) {
        None => Err(AcmeErrorView::MissingField { name: key }),
        Some(value) => match value.text() {
            Some(text) => Ok(text),
            None => Err(AcmeErrorView::InvalidField { name: key }),
        },
    }
}

/// The address in the member `key`, which must be there and hold a URI.
pub open spec fn required_url(doc: Json, key: Seq<char>) -> Result<Seq<char>, AcmeErrorView> {
    match required_text(doc, key) {
        Ok(text) => if is_uri(text) {
            Ok(text)
        } else {
            Err(AcmeErrorView::InvalidField { name: key })
        },
        Err(e) => Err(e),
    }
}

/// The address in the member `key`, which may be absent or `null`, and must
/// hold a URI otherwise.
pub open spec fn optional_url(doc: Json, key: Seq<char>) -> Result<
    Option<Seq<char>>,
    AcmeErrorView,
> {
    match doc.member(key) {
        None => Ok(None),
        Some(Json::Null) => Ok(None),
        Some(Json::Text(text)) => if is_uri(text) {
            Ok(Some(text))
        } else {
            Err(AcmeErrorView::InvalidField { name: key })
        },
        Some(_) => Err(AcmeErrorView::InvalidField { name: key }),
    }
}

/// Whether a document is a string that holds a URI.
pub open spec fn is_url_item(item: Json) -> bool {
    item matches Json::Text(text) && is_uri(text)
}

/// The addresses in the member `key`, which must be there and hold an array
/// of URIs.
pub open spec fn required_url_list(doc: Json, key: Seq<char>) -> Result<
    Seq<Seq<char>>,
    AcmeErrorView,
> {
    match doc.member(key) {
        None => Err(AcmeErrorView::MissingField { name: key }),
        Some(Json::List(items)) => if forall|i: int|
            0 <= i < items.len() ==> is_url_item(#[trigger] items[i]) {
            Ok(Seq::new(items.len(), |i: int| items[i]->Text_0))
        } else {
            Err(AcmeErrorView::InvalidField { name: key })
        },
        Some(_) => Err(AcmeErrorView::InvalidField { name: key }),
    }
}

/// The directory that a document describes.
pub open spec fn directory_of(doc: Json) -> Result<DirectoryView, AcmeErrorView> {
    match required_url(doc, "newNonce"@) {
        Err(e) => Err(e),
        Ok(new_nonce) => match required_url(doc, "newAccount"@) {
            Err(e) => Err(e),
            Ok(new_account) => match required_url(doc, "newOrder"@) {
                Err(e) => Err(e),
                Ok(new_order) => Ok(DirectoryView { new_nonce, new_account, new_order }),
            },
        },
    }
}

/// Whether a document lacks one of the three endpoints of a directory.
pub open spec fn lacks_endpoint(doc: Json) -> bool {
    ||| doc.member("newNonce"@) is None
    ||| doc.member("newAccount"@) is None
    ||| doc.member("newOrder"@) is None
}

/// The order that a document describes.
pub open spec fn order_of(doc: Json) -> Result<NewOrderResponseView, AcmeErrorView> {
    match required_text(doc, "status"@) {
        Err(e) => Err(e),
        Ok(status) => match required_url_list(doc, "authorizations"@) {
            Err(e) => Err(e),
            Ok(authorizations) => match required_url(doc, "finalize"@) {
                Err(e) => Err(e),
                Ok(finalize) => match optional_url(doc, "certificate"@) {
                    Err(e) => Err(e),
                    Ok(certificate) => Ok(
                        NewOrderResponseView { status, authorizations, finalize, certificate },
                    ),
                },
            },
        },
    }
}

/// The identifier that a document describes.
pub open spec fn identifier_of(doc: Json) -> Result<IdentifierView, AcmeErrorView> {
    match required_text(doc, "type"@) {
        Err(e) => Err(e),
        Ok(ty) => match required_text(doc, "value"@) {
            Err(e) => Err(e),
            Ok(value) => Ok(IdentifierView { ty, value }),
        },
    }
}

/// The challenge that a document describes.
pub open spec fn challenge_of(doc: Json) -> Result<ChallengeView, AcmeErrorView> {
    match required_text(doc, "type"@) {
        Err(e) => Err(e),
        Ok(ty) => match required_url(doc, "url"@) {
            Err(e) => Err(e),
            Ok(url) => match required_text(doc, "token"@) {
                Err(e) => Err(e),
                Ok(token) => Ok(ChallengeView { ty, url, token }),
            },
        },
    }
}

/// The challenges that the documents describe, one for one; where some do
/// not describe a challenge, the failure of the first of them.
pub open spec fn challenges_of(items: Seq<Json>) -> Result<Seq<ChallengeView>, AcmeErrorView>
    decreases items.len(),
{
    if items.len() == 0 {
        Ok(Seq::empty())
    } else {
        match challenges_of(items.drop_last()) {
            Err(e) => Err(e),
            Ok(front) => match challenge_of(items.last()) {
                Err(e) => Err(e),
                Ok(challenge) => Ok(front.push(challenge)),
            },
        }
    }
}

/// The authorization that a document describes.
pub open spec fn authorization_of(doc: Json) -> Result<
    FetchAuthorizationResponseView,
    AcmeErrorView,
> {
    match doc.member("identifier"@) {
        None => Err(AcmeErrorView::MissingField { name: "identifier"@ }),
        Some(id) => match identifier_of(id) {
            Err(e) => Err(e),
            Ok(identifier) => match required_text(doc, "status"@) {
                Err(e) => Err(e),
                Ok(status) => match doc.member("challenges"@) {
                    None => Err(AcmeErrorView::MissingField { name: "challenges"@ }),
                    Some(Json::List(items)) => match challenges_of(items) {
                        Err(e) => Err(e),
                        Ok(challenges) => Ok(
                            FetchAuthorizationResponseView { identifier, status, challenges },
                        ),
                    },
                    Some(_) => Err(AcmeErrorView::InvalidField { name: "challenges"@ }),
                },
            },
        },
    }
}

/// Reads a member that must hold a string.
fn get_text(doc: &JsonValue, key: &str) -> (r: Result<String, AcmeError>)
    ensures
        result_view(r) == required_text(doc@, key@),
{
    match doc.get(key) {
        None => Err(AcmeError::MissingField { name: key.to_owned() }),
        Some(value) => match value.as_text() {
            Some(text) => Ok(text.to_owned()),
            None => Err(AcmeError::InvalidField { name: key.to_owned() }),
        },
    }
}

/// Reads a member that must hold a URI.
fn get_url(doc: &JsonValue, key: &str) -> (r: Result<Url, AcmeError>)
    ensures
        result_view(r) == required_url(doc@, key@),
{
    match doc.get(key) {
        None => Err(AcmeError::MissingField { name: key.to_owned() }),
        Some(value) => match value.as_text() {
            Some(text) => match Url::parse(text) {
                Some(url) => Ok(url),
                None => Err(AcmeError::InvalidField { name: key.to_owned() }),
            },
            None => Err(AcmeError::InvalidField { name: key.to_owned() }),
        },
    }
}

/// Reads a member that holds a URI where it is there and not `null`.
fn get_optional_url(doc: &JsonValue, key: &str) -> (r: Result<Option<Url>, AcmeError>)
    ensures
        match r {
            Ok(Some(url)) => optional_url(doc@, key@) == Ok::<Option<Seq<char>>, AcmeErrorView>(
                Some(url@),
            ),
            Ok(None) => optional_url(doc@, key@) == Ok::<Option<Seq<char>>, AcmeErrorView>(None),
            Err(e) => optional_url(doc@, key@) == Err::<Option<Seq<char>>, AcmeErrorView>(e@),
        },
{
    match doc.get(key) {
        None => Ok(None),
        Some(value) => {
            if value.is_null() {
                return Ok(None);
            }
            match value.as_text() {
                Some(text) => match Url::parse(text) {
                    Some(url) => Ok(Some(url)),
                    None => Err(AcmeError::InvalidField { name: key.to_owned() }),
                },
                None => Err(AcmeError::InvalidField { name: key.to_owned() }),
            }
        },
    }
}

/// Reads a member that must hold an array of URIs.
fn get_url_list(doc: &JsonValue, key: &str) -> (r: Result<Vec<Url>, AcmeError>)
    ensures
        match r {
            Ok(urls) => required_url_list(doc@, key@) == Ok::<Seq<Seq<char>>, AcmeErrorView>(
                each_view(urls@),
            ),
            Err(e) => required_url_list(doc@, key@) == Err::<Seq<Seq<char>>, AcmeErrorView>(e@),
        },
{
    match doc.get(key) {
        None => Err(AcmeError::MissingField { name: key.to_owned() }),
        Some(value) => match value.as_list() {
            None => Err(AcmeError::InvalidField { name: key.to_owned() }),
            Some(items) => {
                let ghost docs = each_view(items@);
                let mut urls: Vec<Url> = Vec::new();
                let mut i: usize = 0;
                while i < items.len()
                    invariant
                        i <= items@.len(),
                        docs == each_view(items@),
                        doc@.member(key@) == Some(Json::List(docs)),
                        urls@.len() == i,
                        forall|k: int| 0 <= k < i ==> is_url_item(#[trigger] docs[k]),
                        forall|k: int| 0 <= k < i ==> (#[trigger] urls@[k])@ == docs[k]->Text_0,
                    decreases items@.len() - i,
                {
                    let parsed = match items[i].as_text() {
                        Some(text) => Url::parse(text),
                        None => None,
                    };
                    match parsed {
                        Some(url) => {
                            urls.push(url);
                        },
                        None => {
                            assert(!is_url_item(docs[i as int]));
                            return Err(AcmeError::InvalidField { name: key.to_owned() });
                        },
                    }
                    i = i + 1;
                }
                assert(each_view(urls@) =~= Seq::new(docs.len(), |k: int| docs[k]->Text_0));
                Ok(urls)
            },
        },
    }
}

/// Reads a directory out of a JSON document. Each of `newNonce`,
/// `newAccount` and `newOrder` must be there and hold a URI; a document
/// that lacks one of them is not read.
pub fn decode_directory(doc: &JsonValue) -> (r: Result<Directory, AcmeError>)
    ensures
        result_view(r) == directory_of(doc@),
        lacks_endpoint(doc@) ==> r is Err && r->Err_0@.kind() == ErrorKind::Decode,
{
    let new_nonce = get_url(doc, "newNonce")?;
    let new_account = get_url(doc, "newAccount")?;
    let new_order = get_url(doc, "newOrder")?;
    Ok(Directory { new_nonce, new_account, new_order })
}

/// Reads an order out of a JSON document. `status`, `authorizations` and
/// `finalize` must be there; `certificate` may be.
pub fn decode_order(doc: &JsonValue) -> (r: Result<NewOrderResponse, AcmeError>)
    ensures
        result_view(r) == order_of(doc@),
{
    let status = get_text(doc, "status")?;
    let authorizations = get_url_list(doc, "authorizations")?;
    let finalize = get_url(doc, "finalize")?;
    let certificate = get_optional_url(doc, "certificate")?;
    Ok(NewOrderResponse { status, authorizations, finalize, certificate })
}

/// Reads an identifier out of a JSON document.
pub fn decode_identifier(doc: &JsonValue) -> (r: Result<Identifier, AcmeError>)
    ensures
        result_view(r) == identifier_of(doc@),
{
    let ty = get_text(doc, "type")?;
    let value = get_text(doc, "value")?;
    Ok(Identifier { ty, value })
}

/// Reads a challenge out of a JSON document.
pub fn decode_challenge(doc: &JsonValue) -> (r: Result<Challenge, AcmeError>)
    ensures
        result_view(r) == challenge_of(doc@),
{
    let ty = get_text(doc, "type")?;
    let url = get_url(doc, "url")?;
    let token = get_text(doc, "token")?;
    Ok(Challenge { ty, url, token })
}

/// Reads the challenges of an authorization, and stops at the first that
/// cannot be read.
fn decode_challenges(items: &Vec<JsonValue>) -> (r: Result<Vec<Challenge>, AcmeError>)
    ensures
        match r {
            Ok(challenges) => challenges_of(each_view(items@)) == Ok::<
                Seq<ChallengeView>,
                AcmeErrorView,
            >(each_view(challenges@)),
            Err(e) => challenges_of(each_view(items@)) == Err::<
                Seq<ChallengeView>,
                AcmeErrorView,
            >(e@),
        },
{
    let ghost docs = each_view(items@);
    let mut challenges: Vec<Challenge> = Vec::new();
    let mut i: usize = 0;
    assert(each_view(challenges@) =~= Seq::<ChallengeView>::empty());
    while i < items.len()
        invariant
            i <= items@.len(),
            docs == each_view(items@),
            challenges_of(docs.take(i as int)) == Ok::<Seq<ChallengeView>, AcmeErrorView>(
                each_view(challenges@),
            ),
        decreases items@.len() - i,
    {
        proof {
            assert(docs.take(i + 1).drop_last() == docs.take(i as int));
            assert(docs.take(i + 1).last() == items@[i as int]@);
        }
        match decode_challenge(&items[i]) {
            Ok(challenge) => {
                proof {
                    lemma_each_view_push(challenges@, challenge);
                }
                challenges.push(challenge);
            },
            Err(e) => {
                proof {
                    lemma_challenges_fail_on(docs, i as int);
                }
                return Err(e);
            },
        }
        i = i + 1;
    }
    assert(docs.take(i as int) == docs);
    Ok(challenges)
}

/// Once a front part of the documents fails, the whole list fails the same way.
proof fn lemma_challenges_fail_on(items: Seq<Json>, n: int)
    requires
        0 <= n < items.len(),
        challenges_of(items.take(n + 1)) is Err,
    ensures
        challenges_of(items) == challenges_of(items.take(n + 1)),
    decreases items.len(),
{
    if n + 1 == items.len() {
        assert(items.take(n + 1) == items);
    } else {
        assert(items.drop_last().take(n + 1) == items.take(n + 1));
        lemma_challenges_fail_on(items.drop_last(), n);
    }
}

/// Reads an authorization out of a JSON document. `identifier`, `status`
/// and `challenges` must be there.
pub fn decode_authorization(doc: &JsonValue) -> (r: Result<
    FetchAuthorizationResponse,
    AcmeError,
>)
    ensures
        result_view(r) == authorization_of(doc@),
{
    let identifier = match doc.get("identifier") {
        None => {
            return Err(AcmeError::MissingField { name: "identifier".to_owned() });
        },
        Some(value) => decode_identifier(value)?,
    };
    let status = get_text(doc, "status")?;
    let challenges = match doc.get("challenges") {
        None => {
            return Err(AcmeError::MissingField { name: "challenges".to_owned() });
        },
        Some(value) => match value.as_list() {
            None => {
                return Err(AcmeError::InvalidField { name: "challenges".to_owned() });
            },
            Some(items) => decode_challenges(items)?,
        },
    };
    Ok(FetchAuthorizationResponse { identifier, status, challenges })
}

} // verus!
