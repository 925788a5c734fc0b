use delivery_client::domain::SubscriberEmail;
use delivery_client::email_client::{EmailClient, HttpMethod, SendError, TransportOutcome};
use delivery_client::secret::SecretToken;

fn client(token: &str) -> EmailClient {
    let sender = SubscriberEmail::parse("sender@test.com".to_string()).unwrap();
    EmailClient::new(
        "https://api.example.test".to_string(),
        sender,
        SecretToken::new(token.to_string()),
        100,
    )
}

fn recipient() -> SubscriberEmail {
    SubscriberEmail::parse("subscriber@test.io".to_string()).unwrap()
}

#[test]
fn stores_the_configured_timeout() {
    let client = client("tok");
    assert_eq!(client.timeout_ms(), 100);
}

#[test]
fn builds_the_expected_request() {
    let client = client("tok");
    let request = client.build_send_request(&recipient(), "Subject", "Content", "Content");
    assert!(matches!(request.method, HttpMethod::Post));
    assert_eq!(request.url, "https://api.example.test/email");
    assert_eq!(request.authorization_header_name, "X-Postmark-Server-Token");
    assert_eq!(request.authorization_header_value, "tok");
    assert!(!request.authorization_header_value.is_empty());
    assert_eq!(request.content_type, "application/json");
    assert_eq!(
        request.body,
        "{\"From\":\"sender@test.com\",\"To\":\"subscriber@test.io\",\
         \"Subject\":\"Subject\",\"HtmlBody\":\"Content\",\"TextBody\":\"Content\"}"
    );
}

#[test]
fn send_succeeds_on_any_success_status() {
    let client = client("tok");
    assert!(client.classify_outcome(TransportOutcome::Completed(200)).is_ok());
    assert!(client.classify_outcome(TransportOutcome::Completed(201)).is_ok());
    assert!(client.classify_outcome(TransportOutcome::Completed(299)).is_ok());
}

#[test]
fn send_fails_on_any_non_success_status() {
    let client = client("tok");
    assert!(matches!(
        client.classify_outcome(TransportOutcome::Completed(500)),
        Err(SendError::Transport)
    ));
    assert!(matches!(
        client.classify_outcome(TransportOutcome::Completed(404)),
        Err(SendError::Transport)
    ));
    assert!(matches!(
        client.classify_outcome(TransportOutcome::Completed(199)),
        Err(SendError::Transport)
    ));
    assert!(matches!(
        client.classify_outcome(TransportOutcome::Completed(300)),
        Err(SendError::Transport)
    ));
}

#[test]
fn send_fails_when_no_response_arrives() {
    // A connection failure and an elapsed timeout both reach the
    // classifier as a transport outcome without a status.
    let client = client("tok");
    assert!(matches!(
        client.classify_outcome(TransportOutcome::Failed),
        Err(SendError::Transport)
    ));
}

#[test]
fn identical_clients_build_identical_bodies() {
    let first = client("tok");
    let second = client("tok");
    let a = first.build_send_request(&recipient(), "Subject", "Content", "Content");
    let b = second.build_send_request(&recipient(), "Subject", "Content", "Content");
    assert_eq!(a.body.as_bytes(), b.body.as_bytes());
    assert_eq!(a.url, b.url);
    assert_eq!(a.authorization_header_value, b.authorization_header_value);
}

#[test]
fn description_never_contains_the_token() {
    let token = "super-private-token-value";
    let client = client(token);
    let description = client.describe();
    assert!(!description.contains(token));
    assert!(description.contains("[REDACTED]"));
    assert_eq!(
        description,
        "EmailClient { base_url: https://api.example.test, sender: sender@test.com, \
         authorization_token: [REDACTED], timeout_ms: 100 }"
    );
}

#[test]
fn token_renders_as_fixed_marker() {
    let token = SecretToken::new("another-private-value".to_string());
    assert_eq!(token.redacted(), "[REDACTED]");
    assert_eq!(token.expose_secret(), "another-private-value");
}

#[test]
fn body_escapes_json_special_characters() {
    let client = client("tok");
    let request = client.build_send_request(
        &recipient(),
        "A \"quoted\" subject",
        "line one\nline two",
        "back\\slash and tab\there",
    );
    assert_eq!(
        request.body,
        "{\"From\":\"sender@test.com\",\"To\":\"subscriber@test.io\",\
         \"Subject\":\"A \\\"quoted\\\" subject\",\
         \"HtmlBody\":\"line one\\nline two\",\
         \"TextBody\":\"back\\\\slash and tab\\there\"}"
    );
}

#[test]
fn body_escapes_rare_control_characters() {
    let rendered = delivery_client::wire::render_email_request_body(
        "sender@test.com",
        "subscriber@test.io",
        "bell\u{7}",
        "backspace\u{8}",
        "formfeed\u{c}\r",
    );
    assert_eq!(
        rendered,
        "{\"From\":\"sender@test.com\",\"To\":\"subscriber@test.io\",\
         \"Subject\":\"bell\\u0007\",\
         \"HtmlBody\":\"backspace\\b\",\
         \"TextBody\":\"formfeed\\f\\r\"}"
    );
}

#[test]
fn empty_subject_and_bodies_are_sent_as_empty_strings() {
    let client = client("tok");
    let request = client.build_send_request(&recipient(), "", "", "");
    assert_eq!(
        request.body,
        "{\"From\":\"sender@test.com\",\"To\":\"subscriber@test.io\",\
         \"Subject\":\"\",\"HtmlBody\":\"\",\"TextBody\":\"\"}"
    );
}
