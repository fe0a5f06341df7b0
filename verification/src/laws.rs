//! What holds of the client's state machines on every input.

use crate::client::{
    account_of, directory_from, exchange_step, nonce_of, outcome_of, registration_post,
    registration_step, setup_step, signed_post, start_of, AcmeClientView, ExchangeView, Expect,
    OutcomeView, RegistrationView, ReplyView, RequestView, SetupView,
};
use crate::error::{AcmeErrorView, ErrorKind};
use crate::http_model::HttpResponseView;
use crate::json::json_document;
use crate::decode::lacks_endpoint;
use crate::protocol::{dns_identifiers, DirectoryView, PayloadView};
use std::sync::Arc;
use vstd::prelude::*;

verus! {

/// An order names its domains one for one: as many identifiers as domains,
/// each of type `dns`, each with the domain at the same place as its value.
pub proof fn lemma_identifiers_follow_domains(domains: Seq<Seq<char>>)
    ensures
        dns_identifiers(domains).len() == domains.len(),
        forall|i: int|
            0 <= i < domains.len() ==> (#[trigger] dns_identifiers(domains)[i]).ty == "dns"@
                && dns_identifiers(domains)[i].value == domains[i],
{
}

/// A directory fetch fails on a status outside 200 to 299, on a body that
/// is not JSON, and on JSON that lacks an endpoint.
pub proof fn lemma_directory_failures(response: HttpResponseView)
    ensures
        !response.is_success() ==> directory_from(Ok(response)) is Err && directory_from(
            Ok(response),
        )->Err_0 == (AcmeErrorView::Status { code: response.status }),
        response.is_success() && json_document(response.body) is None ==> directory_from(
            Ok(response),
        ) is Err && directory_from(Ok(response))->Err_0 == AcmeErrorView::NotJson,
        response.is_success() && json_document(response.body) is Some && lacks_endpoint(
            json_document(response.body)->Some_0,
        ) ==> directory_from(Ok(response)) is Err && directory_from(Ok(response))->Err_0.kind()
            == ErrorKind::Decode,
{
}

/// A construction whose directory fetch fails ends there: it hands out no
/// further request and yields no client.
pub proof fn lemma_failed_directory_ends_setup<K>(key_pair: Arc<K>, reply: ReplyView)
    requires
        directory_from(reply) is Err,
    ensures
        ({
            let end = setup_step(SetupView::AwaitDirectory { key_pair }, reply);
            &&& end is Done
            &&& end->result is Err
            &&& end->result->Err_0 == directory_from(reply)->Err_0
        }),
{
}

/// A construction that meets no failure is three exchanges: the directory
/// is fetched, a nonce is fetched at the directory's `newNonce` address, and
/// the registration is posted with that nonce. The client then holds that
/// directory, the key pair it was given, and the account that the
/// `location` header names.
pub proof fn lemma_setup_runs_directory_then_registration<K>(
    key_pair: Arc<K>,
    directory_reply: ReplyView,
    nonce_reply: ReplyView,
    account_reply: ReplyView,
)
    requires
        directory_from(directory_reply) is Ok,
        nonce_of(nonce_reply) is Ok,
        account_of(account_reply) is Ok,
    ensures
        ({
            let directory = directory_from(directory_reply)->Ok_0;
            let first = setup_step(SetupView::AwaitDirectory { key_pair }, directory_reply);
            let second = setup_step(first->state, nonce_reply);
            let third = setup_step(second->state, account_reply);
            &&& first is Next
            &&& first->request == (RequestView::Get { url: directory.new_nonce })
            &&& second is Next
            &&& second->request == registration_post(directory, nonce_of(nonce_reply)->Ok_0)
            &&& third is Done
            &&& third->result is Ok
            &&& third->result->Ok_0 == (AcmeClientView {
                directory,
                key_pair,
                kid: account_of(account_reply)->Ok_0,
            })
        }),
{
}

/// A registration fails on a reply without a `location` header, whatever
/// the status of the reply, and the failure is one of the protocol.
pub proof fn lemma_registration_fails_without_location<K>(
    directory: DirectoryView,
    key_pair: Arc<K>,
    response: HttpResponseView,
)
    requires
        response.header("location"@) is None,
    ensures
        ({
            let end = registration_step(
                RegistrationView::AwaitAccount { directory, key_pair },
                Ok(response),
            );
            &&& end is Done
            &&& end->result is Err
            &&& end->result->Err_0.kind() == ErrorKind::Protocol
        }),
{
}

/// A nonce fetch gives the text of the `replay-nonce` header when the
/// response has one, and the empty nonce when it has none.
pub proof fn lemma_nonce_is_header_or_empty(response: HttpResponseView)
    requires
        response.is_success(),
    ensures
        nonce_of(Ok(response)) is Ok,
        response.header("replay-nonce"@) is Some ==> nonce_of(Ok(response))->Ok_0
            == response.header("replay-nonce"@)->Some_0,
        response.header("replay-nonce"@) is None ==> nonce_of(Ok(response))->Ok_0.len() == 0,
{
}

/// An operation is two exchanges and no more. Its signed request goes out
/// only after a nonce fetch that succeeded, carries the nonce of that
/// fetch, and is followed by the outcome; a failed nonce fetch ends the
/// operation before anything is signed.
pub proof fn lemma_one_nonce_for_one_signed_request(state: ExchangeView, reply: ReplyView)
    ensures
        state is AwaitNonce && nonce_of(reply) is Ok ==> {
            let next = exchange_step(state, reply);
            &&& next is Next
            &&& next->state == (ExchangeView::AwaitReply { expect: state->AwaitNonce_expect })
            &&& next->request == signed_post(state->pending, nonce_of(reply)->Ok_0)
        },
        state is AwaitNonce && nonce_of(reply) is Err ==> {
            let next = exchange_step(state, reply);
            &&& next is Done
            &&& next->result is Err
            &&& next->result->Err_0 == nonce_of(reply)->Err_0
        },
        state is AwaitReply ==> {
            let next = exchange_step(state, reply);
            &&& next is Done
            &&& next->result == outcome_of(state->AwaitReply_expect, reply)
        },
{
}

/// Every operation of a client signs for the client's account and goes to
/// the address it was started for, with the payload it was started with.
pub proof fn lemma_operations_sign_for_the_account<K>(
    client: AcmeClientView<K>,
    url: Seq<char>,
    payload: PayloadView,
    expect: Expect,
    nonce_reply: ReplyView,
)
    requires
        nonce_of(nonce_reply) is Ok,
    ensures
        ({
            let start = start_of(client, url, payload, expect);
            let next = exchange_step(start.0, nonce_reply);
            &&& start.1 == (RequestView::Get { url: client.directory.new_nonce })
            &&& next is Next
            &&& next->request is Post
            &&& next->request->request.kid == Some(client.kid)
            &&& next->request->request.url == url
            &&& next->request->request.payload == payload
            &&& next->request->request.nonce == nonce_of(nonce_reply)->Ok_0
        }),
{
}

/// A failure that the transport or the signer reports ends an operation,
/// a registration and a construction alike, and comes out as it went in.
pub proof fn lemma_reported_failures_pass_through<K>(
    exchange: ExchangeView,
    registration: RegistrationView<K>,
    setup: SetupView<K>,
    failure: AcmeErrorView,
)
    ensures
        exchange_step(exchange, Err(failure)) is Done,
        exchange_step(exchange, Err(failure))->result is Err,
        exchange_step(exchange, Err(failure))->result->Err_0 == failure,
        registration_step(registration, Err(failure)) is Done,
        registration_step(registration, Err(failure))->result is Err,
        registration_step(registration, Err(failure))->result->Err_0 == failure,
        setup_step(setup, Err(failure)) is Done,
        setup_step(setup, Err(failure))->result is Err,
        setup_step(setup, Err(failure))->result->Err_0 == failure,
{
}

/// Two downloads of a certificate from one address yield the same bytes
/// when the authority answers both with the same body, whichever nonce
/// each of them drew; and each sends the nonce of its own fetch.
pub proof fn lemma_obtain_certificate_is_idempotent<K>(
    client: AcmeClientView<K>,
    url: Seq<char>,
    nonce_a: ReplyView,
    nonce_b: ReplyView,
    answer_a: HttpResponseView,
    answer_b: HttpResponseView,
)
    requires
        nonce_of(nonce_a) is Ok,
        nonce_of(nonce_b) is Ok,
        answer_a.is_success(),
        answer_b.is_success(),
        answer_a.body == answer_b.body,
    ensures
        ({
            let start = start_of(client, url, PayloadView::PostAsGet, Expect::Certificate);
            let a = exchange_step(start.0, nonce_a);
            let b = exchange_step(start.0, nonce_b);
            &&& start.1 == (RequestView::Get { url: client.directory.new_nonce })
            &&& a is Next
            &&& b is Next
            &&& a->request is Post
            &&& b->request is Post
            &&& a->request->request.nonce == nonce_of(nonce_a)->Ok_0
            &&& b->request->request.nonce == nonce_of(nonce_b)->Ok_0
            &&& exchange_step(a->state, Ok(answer_a)) == exchange_step(b->state, Ok(answer_b))
            &&& exchange_step(a->state, Ok(answer_a)) is Done
            &&& exchange_step(a->state, Ok(answer_a))->result is Ok
            &&& exchange_step(a->state, Ok(answer_a))->result->Ok_0 == OutcomeView::Certificate(
                answer_a.body,
            )
        }),
{
}

} // verus!
