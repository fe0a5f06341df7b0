use acme_client::http_model::{HeaderField, HttpResponse};

fn field(name: &str, value: &[u8]) -> HeaderField {
    HeaderField { name: name.to_string(), value: value.to_vec() }
}

fn with_status(status: u16) -> HttpResponse {
    HttpResponse { status, headers: vec![], body: vec![] }
}

#[test]
fn is_success_holds_from_200_to_299() {
    assert!(!with_status(0).is_success());
    assert!(!with_status(199).is_success());
    assert!(with_status(200).is_success());
    assert!(with_status(204).is_success());
    assert!(with_status(299).is_success());
    assert!(!with_status(300).is_success());
    assert!(!with_status(500).is_success());
    assert!(!with_status(65535).is_success());
}

#[test]
fn header_ignores_the_case_of_ascii_letters_in_names() {
    let response = HttpResponse {
        status: 200,
        headers: vec![field("Content-Type", b"text/plain"), field("LOCATION", b"https://ca/acct/1")],
        body: vec![],
    };
    assert_eq!(response.header("location"), Some("https://ca/acct/1".to_string()));
    assert_eq!(response.header("Location"), Some("https://ca/acct/1".to_string()));
    assert_eq!(response.header("content-type"), Some("text/plain".to_string()));
    assert_eq!(response.header("locatio"), None);
    assert_eq!(response.header("location "), None);
}

#[test]
fn header_reads_the_first_line_of_a_name() {
    let response = HttpResponse {
        status: 200,
        headers: vec![field("x", b"one"), field("y", b"why"), field("X", b"two")],
        body: vec![],
    };
    assert_eq!(response.header("x"), Some("one".to_string()));
    assert_eq!(response.header("y"), Some("why".to_string()));
}

#[test]
fn header_is_none_where_the_first_line_is_not_text() {
    let response = HttpResponse {
        status: 200,
        headers: vec![field("x", &[0x80]), field("x", b"text"), field("y", &[0x1f]), field("z", &[0x7f])],
        body: vec![],
    };
    assert_eq!(response.header("x"), None);
    assert_eq!(response.header("y"), None);
    assert_eq!(response.header("z"), None);
}

#[test]
fn header_takes_tab_space_and_tilde_as_text() {
    let response = HttpResponse {
        status: 200,
        headers: vec![field("x", b"\t ~"), field("empty", b"")],
        body: vec![],
    };
    assert_eq!(response.header("x"), Some("\t ~".to_string()));
    assert_eq!(response.header("empty"), Some(String::new()));
}

#[test]
fn header_folds_the_case_of_ascii_letters_only() {
    let response = HttpResponse {
        status: 200,
        headers: vec![field("X-Ärger", b"one"), field("x-[", b"two")],
        body: vec![],
    };
    assert_eq!(response.header("x-Ärger"), Some("one".to_string()));
    assert_eq!(response.header("x-ärger"), None);
    assert_eq!(response.header("X-["), Some("two".to_string()));
    assert_eq!(response.header("x-{"), None);
    assert_eq!(response.header("x-;"), None);
}
