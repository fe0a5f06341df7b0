use acme_client::error::{AcmeError, ErrorKind};

#[test]
fn every_failure_has_its_class() {
    assert_eq!(AcmeError::Transport { detail: "x".to_string() }.kind(), ErrorKind::Transport);
    assert_eq!(AcmeError::Status { code: 500 }.kind(), ErrorKind::Protocol);
    assert_eq!(AcmeError::MissingHeader { name: "location".to_string() }.kind(), ErrorKind::Protocol);
    assert_eq!(AcmeError::NotJson.kind(), ErrorKind::Decode);
    assert_eq!(AcmeError::MissingField { name: "a".to_string() }.kind(), ErrorKind::Decode);
    assert_eq!(AcmeError::InvalidField { name: "a".to_string() }.kind(), ErrorKind::Decode);
    assert_eq!(AcmeError::Signing { detail: "x".to_string() }.kind(), ErrorKind::Signing);
}

#[test]
fn every_failure_describes_itself() {
    assert_eq!(
        AcmeError::Transport { detail: "connection refused".to_string() }.message(),
        "transport failure: connection refused"
    );
    assert_eq!(AcmeError::Status { code: 500 }.message(), "unexpected status: 500");
    assert_eq!(AcmeError::Status { code: 0 }.message(), "unexpected status: 0");
    assert_eq!(
        AcmeError::MissingHeader { name: "location".to_string() }.message(),
        "missing header: location"
    );
    assert_eq!(AcmeError::NotJson.message(), "body is not JSON");
    assert_eq!(
        AcmeError::MissingField { name: "newNonce".to_string() }.message(),
        "missing field: newNonce"
    );
    assert_eq!(
        AcmeError::InvalidField { name: "finalize".to_string() }.message(),
        "invalid field: finalize"
    );
    assert_eq!(
        AcmeError::Signing { detail: "no key".to_string() }.message(),
        "signing failure: no key"
    );
}
