//! The client: its construction and its five operations, each as a state
//! machine. The caller performs the request a step hands out and gives the
//! reply to the next step; the machine itself never touches the network.
//!
//! Every signed request is preceded by a fetch of a fresh nonce, and the
//! nonce goes into that one request and nowhere else.

use crate::base64url::{base64_len, base64_url, is_base64_url_text};
use crate::error::{AcmeError, AcmeErrorView, ErrorKind};
use crate::http_model::{HttpResponse, HttpResponseView};
use crate::json::{json_document, parse_json};
use crate::views::{each_view, option_view, result_view};
use crate::decode::{
    authorization_of, decode_authorization, decode_directory, decode_order, directory_of,
    lacks_endpoint, order_of,
};
use crate::protocol::{
    dns_identifiers, registration_request, CsrRequest, CsrRequestView, Directory, DirectoryView,
    FetchAuthorizationResponse, FetchAuthorizationResponseView, NewAccountRequest,
    NewOrderRequest, NewOrderRequestView, NewOrderResponse, NewOrderResponseView, Payload,
    PayloadView,
};
use crate::url::Url;
use std::sync::Arc;
use vstd::prelude::*;

verus! {

/// What the transport, or the signer on top of it, hands back: the response,
/// or the failure it met.
pub type Reply = Result<HttpResponse, AcmeError>;

/// Mathematical model of a `Reply`.
pub type ReplyView = Result<HttpResponseView, AcmeErrorView>;

/// A request that the signer wraps in a signed envelope and posts.
#[derive(Debug, PartialEq, Eq)]
pub struct SignedRequest {
    pub url: Url,
    /// The account the request is made for; `None` while there is no
    /// account yet, and the envelope carries the public key instead.
    pub kid: Option<String>,
    /// The anti-replay token, fetched for this request alone.
    pub nonce: String,
    pub payload: Payload,
}

/// Mathematical model of a `SignedRequest`.
pub struct SignedRequestView {
    pub url: Seq<char>,
    pub kid: Option<Seq<char>>,
    pub nonce: Seq<char>,
    pub payload: PayloadView,
}

impl View for SignedRequest {
    type V = SignedRequestView;

    open spec fn view(&self) -> SignedRequestView {
        SignedRequestView {
            url: self.url@,
            kid: option_view(self.kid),
            nonce: self.nonce@,
            payload: self.payload@,
        }
    }
}

/// What the caller has to perform next.
#[derive(Debug, PartialEq, Eq)]
pub enum Request {
    /// A plain GET of the address.
    Get { url: Url },
    /// A signed POST.
    Post { request: SignedRequest },
}

/// Mathematical model of a `Request`.
pub enum RequestView {
    Get { url: Seq<char> },
    Post { request: SignedRequestView },
}

impl View for Request {
    type V = RequestView;

    open spec fn view(&self) -> RequestView {
        match self {
            Request::Get { url } => RequestView::Get { url: url@ },
            Request::Post { request } => RequestView::Post { request: request@ },
        }
    }
}

/// Where a machine stands after a step: it hands out the next request, or
/// it is done.
#[derive(Debug, PartialEq, Eq)]
pub enum Progress<S, T> {
    Next { state: S, request: Request },
    Done { result: Result<T, AcmeError> },
}

/// Mathematical model of a `Progress`.
pub enum ProgressView<S, T> {
    Next { state: S, request: RequestView },
    Done { result: Result<T, AcmeErrorView> },
}

impl<S: View, T: View> View for Progress<S, T> {
    type V = ProgressView<S::V, T::V>;

    open spec fn view(&self) -> ProgressView<S::V, T::V> {
        match self {
            Progress::Next { state, request } => ProgressView::Next {
                state: state@,
                request: request@,
            },
            Progress::Done { result } => ProgressView::Done { result: result_view(*result) },
        }
    }
}

/// The nonce that the reply to a nonce fetch gives. A reply without a
/// `replay-nonce` header, or with one that is not text, gives the empty nonce.
pub open spec fn nonce_of(reply: ReplyView) -> Result<Seq<char>, AcmeErrorView> {
    match reply {
        Err(e) => Err(e),
        Ok(response) => if !response.is_success() {
            Err(AcmeErrorView::Status { code: response.status })
        } else {
            match response.header("replay-nonce"@) {
                Some(nonce) => Ok(nonce),
                None => Ok(Seq::empty()),
            }
        },
    }
}

/// The directory that the reply to a directory fetch gives.
pub open spec fn directory_from(reply: ReplyView) -> Result<DirectoryView, AcmeErrorView> {
    match reply {
        Err(e) => Err(e),
        Ok(response) => if !response.is_success() {
            Err(AcmeErrorView::Status { code: response.status })
        } else {
            match json_document(response.body) {
                None => Err(AcmeErrorView::NotJson),
                Some(doc) => directory_of(doc),
            }
        },
    }
}

/// The account identifier that the reply to a registration gives: the text
/// of its `location` header.
pub open spec fn account_of(reply: ReplyView) -> Result<Seq<char>, AcmeErrorView> {
    match reply {
        Err(e) => Err(e),
        Ok(response) => if !response.is_success() {
            Err(AcmeErrorView::Status { code: response.status })
        } else {
            match response.header("location"@) {
                Some(kid) => Ok(kid),
                None => Err(AcmeErrorView::MissingHeader { name: "location"@ }),
            }
        },
    }
}

/// Reads the reply to a directory fetch. It fails on a failed fetch, on a
/// status outside 200 to 299, on a body that is not JSON, and on JSON that
/// does not describe a directory.
pub fn get_directory(reply: Reply) -> (r: Result<Directory, AcmeError>)
    ensures
        result_view(r) == directory_from(result_view(reply)),
        reply is Ok && !reply->Ok_0@.is_success() ==> r is Err && r->Err_0@
            == (AcmeErrorView::Status { code: reply->Ok_0.status }),
        reply is Ok && reply->Ok_0@.is_success() && json_document(reply->Ok_0@.body) is None
            ==> r is Err && r->Err_0@ == AcmeErrorView::NotJson,
        reply is Ok && reply->Ok_0@.is_success() && json_document(reply->Ok_0@.body) is Some
            && lacks_endpoint(json_document(reply->Ok_0@.body)->Some_0) ==> r is Err
            && r->Err_0@.kind() == ErrorKind::Decode,
{
    let response = reply?;
    if !response.is_success() {
        return Err(AcmeError::Status { code: response.status });
    }
    match parse_json(response.body.as_slice()) {
        None => Err(AcmeError::NotJson),
        Some(doc) => decode_directory(&doc),
    }
}

/// Reads the reply to a nonce fetch. It fails on a failed fetch and on a
/// status outside 200 to 299. The nonce is the text of the `replay-nonce`
/// header, and empty where the reply has no such text.
pub fn get_nonce(reply: Reply) -> (r: Result<String, AcmeError>)
    ensures
        result_view(r) == nonce_of(result_view(reply)),
        reply is Ok && !reply->Ok_0@.is_success() ==> r is Err && r->Err_0@
            == (AcmeErrorView::Status { code: reply->Ok_0.status }),
        reply is Ok && reply->Ok_0@.is_success() ==> r is Ok && (match reply->Ok_0@.header(
            "replay-nonce"@,
        ) {
            Some(text) => r->Ok_0@ == text,
            None => r->Ok_0@.len() == 0,
        }),
{
    let response = reply?;
    if !response.is_success() {
        return Err(AcmeError::Status { code: response.status });
    }
    match response.header("replay-nonce") {
        Some(nonce) => Ok(nonce),
        None => Ok(String::new()),
    }
}

/// Reads the reply to a registration. It fails on a failed exchange, on a
/// status outside 200 to 299, and on a reply without a `location` header,
/// whatever its status.
pub fn account_id(reply: Reply) -> (r: Result<String, AcmeError>)
    ensures
        result_view(r) == account_of(result_view(reply)),
        reply is Ok && reply->Ok_0@.header("location"@) is None ==> r is Err,
        reply is Ok && reply->Ok_0@.is_success() && reply->Ok_0@.header("location"@) is None
            ==> r->Err_0@ == (AcmeErrorView::MissingHeader { name: "location"@ }),
{
    let response = reply?;
    if !response.is_success() {
        return Err(AcmeError::Status { code: response.status });
    }
    match response.header("location") {
        Some(kid) => Ok(kid),
        None => Err(AcmeError::MissingHeader { name: "location".to_owned() }),
    }
}

/// The state of a session: the directory, the key pair and the account,
/// all set when the client is built and never changed. The key pair is held
/// for the signer and handed on as it came: the client has no way to look
/// into a `K`.
#[derive(Debug, PartialEq, Eq)]
pub struct AcmeClient<K> {
    directory: Directory,
    key_pair: Arc<K>,
    kid: String,
}

/// Mathematical model of an `AcmeClient`.
pub struct AcmeClientView<K> {
    pub directory: DirectoryView,
    pub key_pair: Arc<K>,
    pub kid: Seq<char>,
}

impl<K> View for AcmeClient<K> {
    type V = AcmeClientView<K>;

    closed spec fn view(&self) -> AcmeClientView<K> {
        AcmeClientView { directory: self.directory@, key_pair: self.key_pair, kid: self.kid@ }
    }
}

/// The registration of an account, between the directory and the client.
#[derive(Debug, PartialEq, Eq)]
pub enum Registration<K> {
    /// The nonce for the registration has been asked for.
    AwaitNonce { directory: Directory, key_pair: Arc<K> },
    /// The registration has been sent.
    AwaitAccount { directory: Directory, key_pair: Arc<K> },
}

/// Mathematical model of a `Registration`.
pub enum RegistrationView<K> {
    AwaitNonce { directory: DirectoryView, key_pair: Arc<K> },
    AwaitAccount { directory: DirectoryView, key_pair: Arc<K> },
}

impl<K> View for Registration<K> {
    type V = RegistrationView<K>;

    open spec fn view(&self) -> RegistrationView<K> {
        match self {
            Registration::AwaitNonce { directory, key_pair } => RegistrationView::AwaitNonce {
                directory: directory@,
                key_pair: *key_pair,
            },
            Registration::AwaitAccount { directory, key_pair } => RegistrationView::AwaitAccount {
                directory: directory@,
                key_pair: *key_pair,
            },
        }
    }
}

/// The signed request that registers an account: it goes to the
/// directory's `newAccount` address and names no account.
pub open spec fn registration_post(directory: DirectoryView, nonce: Seq<char>) -> RequestView {
    RequestView::Post {
        request: SignedRequestView {
            url: directory.new_account,
            kid: None,
            nonce,
            payload: PayloadView::NewAccount(registration_request()),
        },
    }
}

/// One step of a registration.
pub open spec fn registration_step<K>(state: RegistrationView<K>, reply: ReplyView) -> ProgressView<
    RegistrationView<K>,
    AcmeClientView<K>,
> {
    match state {
        RegistrationView::AwaitNonce { directory, key_pair } => match nonce_of(reply) {
            Err(e) => ProgressView::Done { result: Err(e) },
            Ok(nonce) => ProgressView::Next {
                state: RegistrationView::AwaitAccount { directory, key_pair },
                request: registration_post(directory, nonce),
            },
        },
        RegistrationView::AwaitAccount { directory, key_pair } => match account_of(reply) {
            Err(e) => ProgressView::Done { result: Err(e) },
            Ok(kid) => ProgressView::Done {
                result: Ok(AcmeClientView { directory, key_pair, kid }),
            },
        },
    }
}

/// Starts the registration of an account with the authority whose
/// directory is given. The first request fetches a nonce.
pub fn create_acme_account<K>(directory: Directory, key_pair: Arc<K>) -> (r: (
    Registration<K>,
    Request,
))
    ensures
        r.0@ == (RegistrationView::AwaitNonce { directory: directory@, key_pair }),
        r.1@ == (RequestView::Get { url: directory@.new_nonce }),
{
    let request = Request::Get { url: directory.new_nonce.clone() };
    (Registration::AwaitNonce { directory, key_pair }, request)
}

impl<K> Registration<K> {
    /// Takes the reply to the request handed out last and says what comes
    /// next: the signed registration once the nonce is there, the client
    /// once the account is.
    pub fn step(self, reply: Reply) -> (r: Progress<Registration<K>, AcmeClient<K>>)
        ensures
            r@ == registration_step(self@, result_view(reply)),
    {
        match self {
            Registration::AwaitNonce { directory, key_pair } => match get_nonce(reply) {
                Err(e) => Progress::Done { result: Err(e) },
                Ok(nonce) => {
                    let request = SignedRequest {
                        url: directory.new_account.clone(),
                        kid: None,
                        nonce,
                        payload: Payload::NewAccount(NewAccountRequest::registration()),
                    };
                    Progress::Next {
                        state: Registration::AwaitAccount { directory, key_pair },
                        request: Request::Post { request },
                    }
                },
            },
            Registration::AwaitAccount { directory, key_pair } => match account_id(reply) {
                Err(e) => Progress::Done { result: Err(e) },
                Ok(kid) => Progress::Done {
                    result: Ok(AcmeClient { directory, key_pair, kid }),
                },
            },
        }
    }
}

/// The construction of a client: the directory is fetched, then the
/// account is registered.
#[derive(Debug, PartialEq, Eq)]
pub enum Setup<K> {
    /// The directory has been asked for.
    AwaitDirectory { key_pair: Arc<K> },
    /// The directory is there and the registration runs.
    Registering { registration: Registration<K> },
}

/// Mathematical model of a `Setup`.
pub enum SetupView<K> {
    AwaitDirectory { key_pair: Arc<K> },
    Registering { registration: RegistrationView<K> },
}

impl<K> View for Setup<K> {
    type V = SetupView<K>;

    open spec fn view(&self) -> SetupView<K> {
        match self {
            Setup::AwaitDirectory { key_pair } => SetupView::AwaitDirectory {
                key_pair: *key_pair,
            },
            Setup::Registering { registration } => SetupView::Registering {
                registration: registration@,
            },
        }
    }
}

/// One step of a construction.
pub open spec fn setup_step<K>(state: SetupView<K>, reply: ReplyView) -> ProgressView<
    SetupView<K>,
    AcmeClientView<K>,
> {
    match state {
        SetupView::AwaitDirectory { key_pair } => match directory_from(reply) {
            Err(e) => ProgressView::Done { result: Err(e) },
            Ok(directory) => ProgressView::Next {
                state: SetupView::Registering {
                    registration: RegistrationView::AwaitNonce { directory, key_pair },
                },
                request: RequestView::Get { url: directory.new_nonce },
            },
        },
        SetupView::Registering { registration } => match registration_step(registration, reply) {
            ProgressView::Next { state, request } => ProgressView::Next {
                state: SetupView::Registering { registration: state },
                request,
            },
            ProgressView::Done { result } => ProgressView::Done { result },
        },
    }
}

impl<K> Setup<K> {
    /// Takes the reply to the request handed out last and says what comes
    /// next. Any failure ends the construction, and no client comes of it.
    pub fn step(self, reply: Reply) -> (r: Progress<Setup<K>, AcmeClient<K>>)
        ensures
            r@ == setup_step(self@, result_view(reply)),
    {
        match self {
            Setup::AwaitDirectory { key_pair } => match get_directory(reply) {
                Err(e) => Progress::Done { result: Err(e) },
                Ok(directory) => {
                    let (registration, request) = create_acme_account(directory, key_pair);
                    Progress::Next { state: Setup::Registering { registration }, request }
                },
            },
            Setup::Registering { registration } => match registration.step(reply) {
                Progress::Next { state, request } => Progress::Next {
                    state: Setup::Registering { registration: state },
                    request,
                },
                Progress::Done { result } => Progress::Done { result },
            },
        }
    }
}

/// How the reply to a signed request is read.
#[derive(Clone, Copy, Debug, PartialEq, Eq, Structural)]
pub enum Expect {
    /// The body describes an order.
    Order,
    /// The body describes an authorization.
    Authorization,
    /// Nothing is read from the reply.
    Nothing,
    /// The body is the certificate chain.
    Certificate,
}

/// What an operation yields.
#[derive(Debug, PartialEq, Eq)]
pub enum Outcome {
    Order(NewOrderResponse),
    Authorization(FetchAuthorizationResponse),
    /// The authority has been told to validate a challenge.
    ChallengeTriggered,
    /// The certificate chain, as the authority sent it.
    Certificate(Vec<u8>),
}

/// Mathematical model of an `Outcome`.
pub enum OutcomeView {
    Order(NewOrderResponseView),
    Authorization(FetchAuthorizationResponseView),
    ChallengeTriggered,
    Certificate(Seq<u8>),
}

impl View for Outcome {
    type V = OutcomeView;

    open spec fn view(&self) -> OutcomeView {
        match self {
            Outcome::Order(order) => OutcomeView::Order(order@),
            Outcome::Authorization(authorization) => OutcomeView::Authorization(authorization@),
            Outcome::ChallengeTriggered => OutcomeView::ChallengeTriggered,
            Outcome::Certificate(bytes) => OutcomeView::Certificate(bytes@),
        }
    }
}

/// A signed request that still lacks its nonce.
#[derive(Debug, PartialEq, Eq)]
pub struct Pending {
    pub url: Url,
    pub kid: String,
    pub payload: Payload,
}

/// Mathematical model of a `Pending`.
pub struct PendingView {
    pub url: Seq<char>,
    pub kid: Seq<char>,
    pub payload: PayloadView,
}

impl View for Pending {
    type V = PendingView;

    open spec fn view(&self) -> PendingView {
        PendingView { url: self.url@, kid: self.kid@, payload: self.payload@ }
    }
}

/// One operation of the client in progress.
#[derive(Debug, PartialEq, Eq)]
pub enum Exchange {
    /// The nonce has been asked for.
    AwaitNonce { pending: Pending, expect: Expect },
    /// The signed request has been sent.
    AwaitReply { expect: Expect },
}

/// Mathematical model of an `Exchange`.
pub enum ExchangeView {
    AwaitNonce { pending: PendingView, expect: Expect },
    AwaitReply { expect: Expect },
}

impl View for Exchange {
    type V = ExchangeView;

    open spec fn view(&self) -> ExchangeView {
        match self {
            Exchange::AwaitNonce { pending, expect } => ExchangeView::AwaitNonce {
                pending: pending@,
                expect: *expect,
            },
            Exchange::AwaitReply { expect } => ExchangeView::AwaitReply { expect: *expect },
        }
    }
}

/// What the reply to a signed request yields, read as `expect` says.
pub open spec fn outcome_of(expect: Expect, reply: ReplyView) -> Result<
    OutcomeView,
    AcmeErrorView,
> {
    match reply {
        Err(e) => Err(e),
        Ok(response) => if !response.is_success() {
            Err(AcmeErrorView::Status { code: response.status })
        } else {
            match expect {
                Expect::Order => match json_document(response.body) {
                    None => Err(AcmeErrorView::NotJson),
                    Some(doc) => match order_of(doc) {
                        Ok(order) => Ok(OutcomeView::Order(order)),
                        Err(e) => Err(e),
                    },
                },
                Expect::Authorization => match json_document(response.body) {
                    None => Err(AcmeErrorView::NotJson),
                    Some(doc) => match authorization_of(doc) {
                        Ok(authorization) => Ok(OutcomeView::Authorization(authorization)),
                        Err(e) => Err(e),
                    },
                },
                Expect::Nothing => Ok(OutcomeView::ChallengeTriggered),
                Expect::Certificate => Ok(OutcomeView::Certificate(response.body)),
            }
        },
    }
}

/// The signed request that a pending one becomes once its nonce is there.
pub open spec fn signed_post(pending: PendingView, nonce: Seq<char>) -> RequestView {
    RequestView::Post {
        request: SignedRequestView {
            url: pending.url,
            kid: Some(pending.kid),
            nonce,
            payload: pending.payload,
        },
    }
}

/// One step of an operation.
pub open spec fn exchange_step(state: ExchangeView, reply: ReplyView) -> ProgressView<
    ExchangeView,
    OutcomeView,
> {
    match state {
        ExchangeView::AwaitNonce { pending, expect } => match nonce_of(reply) {
            Err(e) => ProgressView::Done { result: Err(e) },
            Ok(nonce) => ProgressView::Next {
                state: ExchangeView::AwaitReply { expect },
                request: signed_post(pending, nonce),
            },
        },
        ExchangeView::AwaitReply { expect } => ProgressView::Done {
            result: outcome_of(expect, reply),
        },
    }
}

/// Reads the reply to a signed request as `expect` says.
pub fn read_outcome(expect: Expect, reply: Reply) -> (r: Result<Outcome, AcmeError>)
    ensures
        result_view(r) == outcome_of(expect, result_view(reply)),
{
    let response = reply?;
    if !response.is_success() {
        return Err(AcmeError::Status { code: response.status });
    }
    match expect {
        Expect::Order => match parse_json(response.body.as_slice()) {
            None => Err(AcmeError::NotJson),
            Some(doc) => Ok(Outcome::Order(decode_order(&doc)?)),
        },
        Expect::Authorization => match parse_json(response.body.as_slice()) {
            None => Err(AcmeError::NotJson),
            Some(doc) => Ok(Outcome::Authorization(decode_authorization(&doc)?)),
        },
        Expect::Nothing => Ok(Outcome::ChallengeTriggered),
        Expect::Certificate => Ok(Outcome::Certificate(response.body)),
    }
}

impl Exchange {
    /// Takes the reply to the request handed out last and says what comes
    /// next: the signed request once the nonce is there, with that nonce in
    /// it, and the outcome once the signed request is answered.
    pub fn step(self, reply: Reply) -> (r: Progress<Exchange, Outcome>)
        ensures
            r@ == exchange_step(self@, result_view(reply)),
    {
        match self {
            Exchange::AwaitNonce { pending, expect } => match get_nonce(reply) {
                Err(e) => Progress::Done { result: Err(e) },
                Ok(nonce) => {
                    let request = SignedRequest {
                        url: pending.url,
                        kid: Some(pending.kid),
                        nonce,
                        payload: pending.payload,
                    };
                    Progress::Next {
                        state: Exchange::AwaitReply { expect },
                        request: Request::Post { request },
                    }
                },
            },
            Exchange::AwaitReply { expect } => Progress::Done {
                result: read_outcome(expect, reply),
            },
        }
    }
}

/// The start of an operation: the signed request waits for its nonce, and
/// the nonce is asked for at the directory's `newNonce` address.
pub open spec fn start_of<K>(
    client: AcmeClientView<K>,
    url: Seq<char>,
    payload: PayloadView,
    expect: Expect,
) -> (ExchangeView, RequestView) {
    (
        ExchangeView::AwaitNonce {
            pending: PendingView { url, kid: client.kid, payload },
            expect,
        },
        RequestView::Get { url: client.directory.new_nonce },
    )
}

impl<K> AcmeClient<K> {
    /// Starts the construction of a client from the address of a directory
    /// and the key pair of the account. The first request fetches the
    /// directory.
    pub fn try_new(directory_url: Url, key_pair: Arc<K>) -> (r: (Setup<K>, Request))
        ensures
            r.0@ == (SetupView::AwaitDirectory { key_pair }),
            r.1@ == (RequestView::Get { url: directory_url@ }),
    {
        (Setup::AwaitDirectory { key_pair }, Request::Get { url: directory_url })
    }

    /// The key pair the client was built with.
    pub fn key_pair(&self) -> (r: &Arc<K>)
        ensures
            *r == self@.key_pair,
    {
        &self.key_pair
    }

    /// The directory the client was built from.
    pub fn directory(&self) -> (r: &Directory)
        ensures
            r@ == self@.directory,
    {
        &self.directory
    }

    /// The account identifier the authority gave at registration.
    pub fn kid(&self) -> (r: &str)
        ensures
            r@ == self@.kid,
    {
        self.kid.as_str()
    }

    fn start(&self, url: Url, payload: Payload, expect: Expect) -> (r: (Exchange, Request))
        ensures
            (r.0@, r.1@) == start_of(self@, url@, payload@, expect),
    {
        let pending = Pending { url, kid: self.kid.clone(), payload };
        (
            Exchange::AwaitNonce { pending, expect },
            Request::Get { url: self.directory.new_nonce.clone() },
        )
    }

    /// Starts an order for the given domains. The signed request goes to
    /// the directory's `newOrder` address and carries one DNS identifier
    /// for each domain, in the order given.
    pub fn new_order(&self, domains: &[String]) -> (r: (Exchange, Request))
        ensures
            (r.0@, r.1@) == start_of(
                self@,
                self@.directory.new_order,
                PayloadView::NewOrder(
                    NewOrderRequestView { identifiers: dns_identifiers(each_view(domains@)) },
                ),
                Expect::Order,
            ),
            r.0@ is AwaitNonce,
            r.0@->pending.payload is NewOrder,
            r.0@->pending.payload->NewOrder_0.identifiers.len() == domains@.len(),
            forall|i: int|
                0 <= i < domains@.len() ==> {
                    let identifier = #[trigger] r.0@->pending.payload->NewOrder_0.identifiers[i];
                    identifier.ty == "dns"@ && identifier.value == domains@[i]@
                },
    {
        let payload = Payload::NewOrder(NewOrderRequest::for_domains(domains));
        self.start(self.directory.new_order.clone(), payload, Expect::Order)
    }

    /// Starts the fetch of an authorization: a signed request without a
    /// payload to the given address.
    pub fn fetch_authorization(&self, auth_url: &Url) -> (r: (Exchange, Request))
        ensures
            (r.0@, r.1@) == start_of(
                self@,
                auth_url@,
                PayloadView::PostAsGet,
                Expect::Authorization,
            ),
    {
        self.start(auth_url.clone(), Payload::PostAsGet, Expect::Authorization)
    }

    /// Starts the request that tells the authority to validate a
    /// challenge: a signed request with the empty object to the given
    /// address. The domain is for the caller's records and is not sent.
    #[allow(unused_variables)]
    pub fn trigger_challenge(&self, domain: &str, url: &Url) -> (r: (Exchange, Request))
        ensures
            (r.0@, r.1@) == start_of(self@, url@, PayloadView::EmptyObject, Expect::Nothing),
    {
        self.start(url.clone(), Payload::EmptyObject, Expect::Nothing)
    }

    /// Starts the request that finalizes an order with a DER-encoded
    /// signing request. The request carries it in URL-safe base64 without
    /// padding.
    pub fn send_csr(&self, url: &Url, csr: &[u8]) -> (r: (Exchange, Request))
        requires
            base64_len(csr@.len()) <= usize::MAX,
        ensures
            (r.0@, r.1@) == start_of(
                self@,
                url@,
                PayloadView::Csr(CsrRequestView { csr: base64_url(csr@) }),
                Expect::Order,
            ),
            r.0@ is AwaitNonce,
            r.0@->pending.payload is Csr,
            is_base64_url_text(r.0@->pending.payload->Csr_0.csr),
    {
        let payload = Payload::Csr(CsrRequest::encode(csr));
        self.start(url.clone(), payload, Expect::Order)
    }

    /// Starts the download of a certificate: a signed request without a
    /// payload to the given address. The outcome is the body of the reply,
    /// byte for byte.
    pub fn obtain_certificate(&self, url: &Url) -> (r: (Exchange, Request))
        ensures
            (r.0@, r.1@) == start_of(self@, url@, PayloadView::PostAsGet, Expect::Certificate),
    {
        self.start(url.clone(), Payload::PostAsGet, Expect::Certificate)
    }
}

} // verus!
