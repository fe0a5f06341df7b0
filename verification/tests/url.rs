use acme_client::url::Url;

#[test]
fn parse_keeps_the_text_of_a_uri() {
    let url = Url::parse("https://ca/acme/new-nonce").expect("a URI");
    assert_eq!(url.as_str(), "https://ca/acme/new-nonce");
    assert_eq!(Url::parse("https://EXAMPLE.com:8443/a?b=c").map(|u| u.as_str().to_string()),
        Some("https://EXAMPLE.com:8443/a?b=c".to_string()));
    assert!(Url::parse("/relative/path").is_some());
}

#[test]
fn parse_rejects_what_is_no_uri() {
    assert_eq!(Url::parse(""), None);
    assert_eq!(Url::parse("not a uri"), None);
    assert_eq!(Url::parse("https://ca/a b"), None);
    assert_eq!(Url::parse("http://"), None);
}

#[test]
fn a_clone_holds_the_same_address() {
    let url = Url::parse("https://ca/acme/acct/1").expect("a URI");
    assert_eq!(url.clone(), url);
    assert_eq!(url.clone().as_str(), "https://ca/acme/acct/1");
}
