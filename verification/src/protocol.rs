//! The documents of the protocol: what the client sends and what it
//! receives, as plain values.

use crate::base64url::{base64_encode_url_no_pad, base64_len, base64_url, is_base64_url_text};
use crate::url::Url;
use crate::views::each_view;
use vstd::prelude::*;

verus! {

/// The endpoints a certificate authority publishes.
#[derive(Debug, PartialEq, Eq)]
pub struct Directory {
    pub new_nonce: Url,
    pub new_account: Url,
    pub new_order: Url,
}

/// Mathematical model of a `Directory`.
pub struct DirectoryView {
    pub new_nonce: Seq<char>,
    pub new_account: Seq<char>,
    pub new_order: Seq<char>,
}

impl View for Directory {
    type V = DirectoryView;

    open spec fn view(&self) -> DirectoryView {
        DirectoryView {
            new_nonce: self.new_nonce@,
            new_account: self.new_account@,
            new_order: self.new_order@,
        }
    }
}

/// What a certificate is asked for: a kind of name, and the name.
#[derive(Debug, PartialEq, Eq)]
pub struct Identifier {
    pub ty: String,
    pub value: String,
}

/// Mathematical model of an `Identifier`.
pub struct IdentifierView {
    pub ty: Seq<char>,
    pub value: Seq<char>,
}

impl View for Identifier {
    type V = IdentifierView;

    open spec fn view(&self) -> IdentifierView {
        IdentifierView { ty: self.ty@, value: self.value@ }
    }
}

/// An order as the authority reports it.
#[derive(Debug, PartialEq, Eq)]
pub struct NewOrderResponse {
    pub status: String,
    /// One address for each authorization the order waits for, in the
    /// authority's order.
    pub authorizations: Vec<Url>,
    pub finalize: Url,
    /// Where the certificate can be had, once it has been issued.
    pub certificate: Option<Url>,
}

/// Mathematical model of a `NewOrderResponse`.
pub struct NewOrderResponseView {
    pub status: Seq<char>,
    pub authorizations: Seq<Seq<char>>,
    pub finalize: Seq<char>,
    pub certificate: Option<Seq<char>>,
}

impl View for NewOrderResponse {
    type V = NewOrderResponseView;

    open spec fn view(&self) -> NewOrderResponseView {
        NewOrderResponseView {
            status: self.status@,
            authorizations: each_view(self.authorizations@),
            finalize: self.finalize@,
            certificate: match self.certificate {
                Some(url) => Some(url@),
                None => None,
            },
        }
    }
}

/// One way of proving control over an identifier.
#[derive(Debug, PartialEq, Eq)]
pub struct Challenge {
    pub ty: String,
    /// The address that starts the validation.
    pub url: Url,
    pub token: String,
}

/// Mathematical model of a `Challenge`.
pub struct ChallengeView {
    pub ty: Seq<char>,
    pub url: Seq<char>,
    pub token: Seq<char>,
}

impl View for Challenge {
    type V = ChallengeView;

    open spec fn view(&self) -> ChallengeView {
        ChallengeView { ty: self.ty@, url: self.url@, token: self.token@ }
    }
}

/// An authorization as the authority reports it.
#[derive(Debug, PartialEq, Eq)]
pub struct FetchAuthorizationResponse {
    pub identifier: Identifier,
    pub status: String,
    pub challenges: Vec<Challenge>,
}

/// Mathematical model of a `FetchAuthorizationResponse`.
pub struct FetchAuthorizationResponseView {
    pub identifier: IdentifierView,
    pub status: Seq<char>,
    pub challenges: Seq<ChallengeView>,
}

impl View for FetchAuthorizationResponse {
    type V = FetchAuthorizationResponseView;

    open spec fn view(&self) -> FetchAuthorizationResponseView {
        FetchAuthorizationResponseView {
            identifier: self.identifier@,
            status: self.status@,
            challenges: each_view(self.challenges@),
        }
    }
}

/// What the client sends to register an account, or to look one up.
#[derive(Debug, PartialEq, Eq)]
pub struct NewAccountRequest {
    pub only_return_existing: bool,
    pub terms_of_service_agreed: bool,
    pub contact: Vec<String>,
}

/// Mathematical model of a `NewAccountRequest`.
pub struct NewAccountRequestView {
    pub only_return_existing: bool,
    pub terms_of_service_agreed: bool,
    pub contact: Seq<Seq<char>>,
}

impl View for NewAccountRequest {
    type V = NewAccountRequestView;

    open spec fn view(&self) -> NewAccountRequestView {
        NewAccountRequestView {
            only_return_existing: self.only_return_existing,
            terms_of_service_agreed: self.terms_of_service_agreed,
            contact: each_view(self.contact@),
        }
    }
}

/// What the client sends to order a certificate.
#[derive(Debug, PartialEq, Eq)]
pub struct NewOrderRequest {
    pub identifiers: Vec<Identifier>,
}

/// Mathematical model of a `NewOrderRequest`.
pub struct NewOrderRequestView {
    pub identifiers: Seq<IdentifierView>,
}

impl View for NewOrderRequest {
    type V = NewOrderRequestView;

    open spec fn view(&self) -> NewOrderRequestView {
        NewOrderRequestView { identifiers: each_view(self.identifiers@) }
    }
}

/// What the client sends to have an order finalized.
#[derive(Debug, PartialEq, Eq)]
pub struct CsrRequest {
    /// The signing request, in URL-safe base64 without padding.
    pub csr: String,
}

/// Mathematical model of a `CsrRequest`.
pub struct CsrRequestView {
    pub csr: Seq<char>,
}

impl View for CsrRequest {
    type V = CsrRequestView;

    open spec fn view(&self) -> CsrRequestView {
        CsrRequestView { csr: self.csr@ }
    }
}

/// What a signed request carries.
#[derive(Debug, PartialEq, Eq)]
pub enum Payload {
    /// Nothing: the request only fetches the resource at its address.
    PostAsGet,
    /// The empty JSON object.
    EmptyObject,
    NewAccount(NewAccountRequest),
    NewOrder(NewOrderRequest),
    Csr(CsrRequest),
}

/// Mathematical model of a `Payload`.
pub enum PayloadView {
    PostAsGet,
    EmptyObject,
    NewAccount(NewAccountRequestView),
    NewOrder(NewOrderRequestView),
    Csr(CsrRequestView),
}

impl View for Payload {
    type V = PayloadView;

    open spec fn view(&self) -> PayloadView {
        match self {
            Payload::PostAsGet => PayloadView::PostAsGet,
            Payload::EmptyObject => PayloadView::EmptyObject,
            Payload::NewAccount(request) => PayloadView::NewAccount(request@),
            Payload::NewOrder(request) => PayloadView::NewOrder(request@),
            Payload::Csr(request) => PayloadView::Csr(request@),
        }
    }
}

/// The request that registers an account: the terms are agreed to, an
/// account is created where there is none, and no contact is given.
pub open spec fn registration_request() -> NewAccountRequestView {
    NewAccountRequestView {
        only_return_existing: false,
        terms_of_service_agreed: true,
        contact: Seq::empty(),
    }
}

/// One DNS identifier for each domain, in the order of the domains.
pub open spec fn dns_identifiers(domains: Seq<Seq<char>>) -> Seq<IdentifierView> {
    Seq::new(domains.len(), |i: int| IdentifierView { ty: "dns"@, value: domains[i] })
}

impl Identifier {
    /// The DNS identifier of a domain.
    pub fn dns(domain: &str) -> (r: Identifier)
        ensures
            r@ == (IdentifierView { ty: "dns"@, value: domain@ }),
    {
        Identifier { ty: "dns".to_owned(), value: domain.to_owned() }
    }
}

impl NewAccountRequest {
    /// The request that registers an account.
    pub fn registration() -> (r: NewAccountRequest)
        ensures
            r@ == registration_request(),
    {
        let request = NewAccountRequest {
            only_return_existing: false,
            terms_of_service_agreed: true,
            contact: Vec::new(),
        };
        assert(request@.contact =~= Seq::empty());
        request
    }
}

impl NewOrderRequest {
    /// The order for the given domains: one DNS identifier for each, in the
    /// same order, repeated where a domain is repeated.
    pub fn for_domains(domains: &[String]) -> (r: NewOrderRequest)
        ensures
            r@.identifiers == dns_identifiers(each_view(domains@)),
            r@.identifiers.len() == domains@.len(),
            forall|i: int|
                0 <= i < domains@.len() ==> (#[trigger] r@.identifiers[i]).ty == "dns"@
                    && r@.identifiers[i].value == domains@[i]@,
    {
        let mut identifiers: Vec<Identifier> = Vec::new();
        let mut i: usize = 0;
        while i < domains.len()
            invariant
                i <= domains@.len(),
                identifiers@.len() == i,
                forall|k: int|
                    0 <= k < i ==> (#[trigger] identifiers@[k])@ == (IdentifierView {
                        ty: "dns"@,
                        value: domains@[k]@,
                    }),
            decreases domains@.len() - i,
        {
            identifiers.push(Identifier::dns(domains[i].as_str()));
            i = i + 1;
        }
        let request = NewOrderRequest { identifiers };
        assert(request@.identifiers =~= dns_identifiers(each_view(domains@)));
        request
    }
}

impl CsrRequest {
    /// The request that carries a DER-encoded signing request. The text it
    /// holds is drawn from the URL-safe base64 alphabet and has no padding.
    pub fn encode(der: &[u8]) -> (r: CsrRequest)
        requires
            base64_len(der@.len()) <= usize::MAX,
        ensures
            r@.csr == base64_url(der@),
            r@.csr.len() == base64_len(der@.len()),
            is_base64_url_text(r@.csr),
    {
        CsrRequest { csr: base64_encode_url_no_pad(der) }
    }
}

} // verus!
