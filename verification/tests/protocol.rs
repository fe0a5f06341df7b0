use acme_client::error::AcmeError;
use acme_client::json::{parse_json, JsonMember, JsonValue};
use acme_client::decode::{
    decode_authorization, decode_challenge, decode_directory, decode_identifier, decode_order,
};
use acme_client::protocol::{
    Challenge, CsrRequest, Directory, FetchAuthorizationResponse, Identifier, NewAccountRequest,
    NewOrderRequest, NewOrderResponse, Payload,
};
use acme_client::url::Url;

fn doc(text: &str) -> JsonValue {
    parse_json(text.as_bytes()).expect("JSON")
}

fn url(text: &str) -> Url {
    Url::parse(text).expect("a URI")
}

fn missing(name: &str) -> AcmeError {
    AcmeError::MissingField { name: name.to_string() }
}

fn invalid(name: &str) -> AcmeError {
    AcmeError::InvalidField { name: name.to_string() }
}

#[test]
fn decode_directory_reads_a_hand_built_document() {
    let text = |s: &str| JsonValue::Text(s.to_string());
    let member = |name: &str, value: JsonValue| JsonMember { name: name.to_string(), value };
    let document = JsonValue::Object(vec![
        member("newOrder", text("https://ca/o")),
        member("newNonce", text("https://ca/n")),
        member("newAccount", text("https://ca/a")),
    ]);
    assert_eq!(
        decode_directory(&document),
        Ok(Directory {
            new_nonce: url("https://ca/n"),
            new_account: url("https://ca/a"),
            new_order: url("https://ca/o"),
        })
    );
}

#[test]
fn decode_directory_names_the_first_endpoint_that_is_missing() {
    assert_eq!(decode_directory(&doc("{}")), Err(missing("newNonce")));
    assert_eq!(decode_directory(&doc("{\"newNonce\":\"https://ca/n\"}")), Err(missing("newAccount")));
    assert_eq!(
        decode_directory(&doc("{\"newNonce\":\"https://ca/n\",\"newAccount\":\"https://ca/a\"}")),
        Err(missing("newOrder"))
    );
    assert_eq!(decode_directory(&doc("null")), Err(missing("newNonce")));
    assert_eq!(decode_directory(&doc("\"newNonce\"")), Err(missing("newNonce")));
}

#[test]
fn decode_directory_rejects_an_endpoint_of_the_wrong_kind() {
    assert_eq!(decode_directory(&doc("{\"newNonce\":null}")), Err(invalid("newNonce")));
    assert_eq!(decode_directory(&doc("{\"newNonce\":[\"https://ca/n\"]}")), Err(invalid("newNonce")));
    assert_eq!(decode_directory(&doc("{\"newNonce\":\"\"}")), Err(invalid("newNonce")));
}

#[test]
fn decode_order_reads_every_member() {
    let order = decode_order(&doc(
        "{\"status\":\"valid\",\"authorizations\":[\"https://ca/authz/1\"],\"finalize\":\"https://ca/order/1/finalize\",\"certificate\":\"https://ca/cert/1\",\"expires\":\"2030-01-01T00:00:00Z\"}",
    ));
    assert_eq!(
        order,
        Ok(NewOrderResponse {
            status: "valid".to_string(),
            authorizations: vec![url("https://ca/authz/1")],
            finalize: url("https://ca/order/1/finalize"),
            certificate: Some(url("https://ca/cert/1")),
        })
    );
}

#[test]
fn decode_order_takes_a_missing_or_null_certificate_as_none() {
    let without = decode_order(&doc(
        "{\"status\":\"ready\",\"authorizations\":[],\"finalize\":\"https://ca/f\"}",
    ))
    .expect("an order");
    assert_eq!(without.certificate, None);
    assert_eq!(without.authorizations, vec![]);
    let with_null = decode_order(&doc(
        "{\"status\":\"ready\",\"authorizations\":[],\"finalize\":\"https://ca/f\",\"certificate\":null}",
    ))
    .expect("an order");
    assert_eq!(with_null.certificate, None);
}

#[test]
fn decode_order_keeps_the_order_of_the_authorizations() {
    let order = decode_order(&doc(
        "{\"status\":\"pending\",\"authorizations\":[\"https://ca/z\",\"https://ca/a\",\"https://ca/z\"],\"finalize\":\"https://ca/f\"}",
    ))
    .expect("an order");
    assert_eq!(order.authorizations, vec![url("https://ca/z"), url("https://ca/a"), url("https://ca/z")]);
}

#[test]
fn decode_order_names_what_is_wrong() {
    assert_eq!(decode_order(&doc("{}")), Err(missing("status")));
    assert_eq!(decode_order(&doc("{\"status\":1}")), Err(invalid("status")));
    assert_eq!(decode_order(&doc("{\"status\":\"pending\"}")), Err(missing("authorizations")));
    assert_eq!(
        decode_order(&doc("{\"status\":\"pending\",\"authorizations\":\"https://ca/a\"}")),
        Err(invalid("authorizations"))
    );
    assert_eq!(
        decode_order(&doc("{\"status\":\"pending\",\"authorizations\":[\"https://ca/a\",7]}")),
        Err(invalid("authorizations"))
    );
    assert_eq!(
        decode_order(&doc("{\"status\":\"pending\",\"authorizations\":[\"not a uri\"]}")),
        Err(invalid("authorizations"))
    );
    assert_eq!(
        decode_order(&doc("{\"status\":\"pending\",\"authorizations\":[]}")),
        Err(missing("finalize"))
    );
    assert_eq!(
        decode_order(&doc(
            "{\"status\":\"pending\",\"authorizations\":[],\"finalize\":\"https://ca/f\",\"certificate\":5}"
        )),
        Err(invalid("certificate"))
    );
    assert_eq!(
        decode_order(&doc(
            "{\"status\":\"pending\",\"authorizations\":[],\"finalize\":\"https://ca/f\",\"certificate\":\"not a uri\"}"
        )),
        Err(invalid("certificate"))
    );
}

#[test]
fn decode_identifier_reads_type_and_value() {
    assert_eq!(
        decode_identifier(&doc("{\"value\":\"example.com\",\"type\":\"dns\"}")),
        Ok(Identifier { ty: "dns".to_string(), value: "example.com".to_string() })
    );
    assert_eq!(decode_identifier(&doc("{\"value\":\"example.com\"}")), Err(missing("type")));
    assert_eq!(decode_identifier(&doc("{\"type\":\"dns\"}")), Err(missing("value")));
    assert_eq!(decode_identifier(&doc("{\"type\":\"dns\",\"value\":false}")), Err(invalid("value")));
}

#[test]
fn decode_challenge_reads_type_url_and_token() {
    assert_eq!(
        decode_challenge(&doc(
            "{\"type\":\"tls-alpn-01\",\"url\":\"https://ca/chall/2\",\"token\":\"t0k\",\"status\":\"pending\"}"
        )),
        Ok(Challenge {
            ty: "tls-alpn-01".to_string(),
            url: url("https://ca/chall/2"),
            token: "t0k".to_string(),
        })
    );
    assert_eq!(decode_challenge(&doc("{}")), Err(missing("type")));
    assert_eq!(decode_challenge(&doc("{\"type\":\"http-01\"}")), Err(missing("url")));
    assert_eq!(
        decode_challenge(&doc("{\"type\":\"http-01\",\"url\":\"a b\"}")),
        Err(invalid("url"))
    );
    assert_eq!(
        decode_challenge(&doc("{\"type\":\"http-01\",\"url\":\"https://ca/c\"}")),
        Err(missing("token"))
    );
}

#[test]
fn decode_authorization_reads_identifier_status_and_challenges() {
    let authorization = decode_authorization(&doc(
        "{\"identifier\":{\"type\":\"dns\",\"value\":\"example.com\"},\"status\":\"pending\",\"challenges\":[{\"type\":\"http-01\",\"url\":\"https://ca/chall/1\",\"token\":\"one\"},{\"type\":\"tls-alpn-01\",\"url\":\"https://ca/chall/2\",\"token\":\"two\"}]}",
    ));
    assert_eq!(
        authorization,
        Ok(FetchAuthorizationResponse {
            identifier: Identifier { ty: "dns".to_string(), value: "example.com".to_string() },
            status: "pending".to_string(),
            challenges: vec![
                Challenge {
                    ty: "http-01".to_string(),
                    url: url("https://ca/chall/1"),
                    token: "one".to_string(),
                },
                Challenge {
                    ty: "tls-alpn-01".to_string(),
                    url: url("https://ca/chall/2"),
                    token: "two".to_string(),
                },
            ],
        })
    );
}

#[test]
fn decode_authorization_names_what_is_wrong() {
    assert_eq!(decode_authorization(&doc("{}")), Err(missing("identifier")));
    assert_eq!(decode_authorization(&doc("{\"identifier\":\"example.com\"}")), Err(missing("type")));
    let id = "\"identifier\":{\"type\":\"dns\",\"value\":\"example.com\"}";
    assert_eq!(decode_authorization(&doc(&format!("{{{}}}", id))), Err(missing("status")));
    assert_eq!(
        decode_authorization(&doc(&format!("{{{},\"status\":\"valid\"}}", id))),
        Err(missing("challenges"))
    );
    assert_eq!(
        decode_authorization(&doc(&format!("{{{},\"status\":\"valid\",\"challenges\":{{}}}}", id))),
        Err(invalid("challenges"))
    );
    assert_eq!(
        decode_authorization(&doc(&format!("{{{},\"status\":\"valid\",\"challenges\":[]}}", id)))
            .map(|a| a.challenges.len()),
        Ok(0)
    );
}

#[test]
fn decode_authorization_reports_the_first_challenge_that_fails() {
    let id = "\"identifier\":{\"type\":\"dns\",\"value\":\"example.com\"}";
    let good = "{\"type\":\"http-01\",\"url\":\"https://ca/c\",\"token\":\"t\"}";
    let no_token = "{\"type\":\"http-01\",\"url\":\"https://ca/c\"}";
    let no_url = "{\"type\":\"http-01\",\"token\":\"t\"}";
    let text = format!(
        "{{{},\"status\":\"pending\",\"challenges\":[{},{},{}]}}",
        id, good, no_token, no_url
    );
    assert_eq!(decode_authorization(&doc(&text)), Err(missing("token")));
    let text = format!(
        "{{{},\"status\":\"pending\",\"challenges\":[{},{},{}]}}",
        id, no_url, good, no_token
    );
    assert_eq!(decode_authorization(&doc(&text)), Err(missing("url")));
}

#[test]
fn for_domains_makes_one_dns_identifier_for_each_domain() {
    let domains = vec!["example.com".to_string(), "www.example.com".to_string()];
    let request = NewOrderRequest::for_domains(&domains);
    assert_eq!(
        request.identifiers,
        vec![Identifier::dns("example.com"), Identifier::dns("www.example.com")]
    );
    assert_eq!(NewOrderRequest::for_domains(&[]).identifiers, vec![]);
}

#[test]
fn identifier_dns_has_the_type_dns() {
    assert_eq!(
        Identifier::dns("example.com"),
        Identifier { ty: "dns".to_string(), value: "example.com".to_string() }
    );
}

#[test]
fn registration_is_the_fixed_request() {
    assert_eq!(
        NewAccountRequest::registration(),
        NewAccountRequest {
            only_return_existing: false,
            terms_of_service_agreed: true,
            contact: vec![],
        }
    );
}

#[test]
fn registration_is_written_with_its_three_members_in_order() {
    let written = NewAccountRequest::registration().to_json();
    let member = |name: &str, value: JsonValue| JsonMember { name: name.to_string(), value };
    assert_eq!(
        written,
        JsonValue::Object(vec![
            member("onlyReturnExisting", JsonValue::Bool(false)),
            member("termsOfServiceAgreed", JsonValue::Bool(true)),
            member("contact", JsonValue::List(vec![])),
        ])
    );
}

#[test]
fn a_request_with_contacts_lists_them_as_strings() {
    let request = NewAccountRequest {
        only_return_existing: true,
        terms_of_service_agreed: false,
        contact: vec!["mailto:a@example.com".to_string(), "mailto:b@example.com".to_string()],
    };
    let written = request.to_json();
    assert_eq!(written.get("onlyReturnExisting"), Some(&JsonValue::Bool(true)));
    assert_eq!(written.get("termsOfServiceAgreed"), Some(&JsonValue::Bool(false)));
    assert_eq!(
        written.get("contact"),
        parse_json(b"[\"mailto:a@example.com\",\"mailto:b@example.com\"]").as_ref()
    );
}

#[test]
fn an_identifier_is_written_as_type_then_value() {
    let member = |name: &str, value: &str| JsonMember {
        name: name.to_string(),
        value: JsonValue::Text(value.to_string()),
    };
    assert_eq!(
        Identifier::dns("example.com").to_json(),
        JsonValue::Object(vec![member("type", "dns"), member("value", "example.com")])
    );
}

#[test]
fn an_order_request_is_written_with_its_identifiers() {
    let request = NewOrderRequest::for_domains(&["a.example".to_string()]);
    assert_eq!(
        Some(request.to_json()),
        parse_json(b"{\"identifiers\":[{\"type\":\"dns\",\"value\":\"a.example\"}]}")
    );
}

#[test]
fn csr_request_encodes_known_vectors() {
    assert_eq!(CsrRequest::encode(b"").csr, "");
    assert_eq!(CsrRequest::encode(b"f").csr, "Zg");
    assert_eq!(CsrRequest::encode(b"fo").csr, "Zm8");
    assert_eq!(CsrRequest::encode(b"foo").csr, "Zm9v");
    assert_eq!(CsrRequest::encode(b"foob").csr, "Zm9vYg");
    assert_eq!(CsrRequest::encode(&[0xff, 0xff, 0xfe]).csr, "___-");
    assert_eq!(CsrRequest::encode(&[0xfb]).csr, "-w");
}

#[test]
fn csr_request_is_written_with_the_one_member_csr() {
    assert_eq!(
        Some(CsrRequest::encode(b"foo").to_json()),
        parse_json(b"{\"csr\":\"Zm9v\"}")
    );
}

#[test]
fn payloads_are_written_as_their_documents() {
    assert_eq!(Payload::PostAsGet.to_json(), None);
    assert_eq!(Payload::EmptyObject.to_json(), Some(JsonValue::Object(vec![])));
    assert_eq!(
        Payload::Csr(CsrRequest { csr: "AA".to_string() }).to_json(),
        parse_json(b"{\"csr\":\"AA\"}")
    );
    assert_eq!(
        Payload::NewOrder(NewOrderRequest::for_domains(&[])).to_json(),
        parse_json(b"{\"identifiers\":[]}")
    );
    assert_eq!(
        Payload::NewAccount(NewAccountRequest::registration()).to_json().map(|d| d.get("contact").is_some()),
        Some(true)
    );
}
