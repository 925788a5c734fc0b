use delivery_client::domain::SubscriberEmail;

#[test]
fn accepts_an_ordinary_address() {
    let parsed = SubscriberEmail::parse("ursula@domain.com".to_string()).unwrap();
    assert_eq!(parsed.as_str(), "ursula@domain.com");
}

#[test]
fn rejects_an_empty_string() {
    assert!(SubscriberEmail::parse("".to_string()).is_err());
}

#[test]
fn rejects_a_string_without_at_symbol() {
    assert!(SubscriberEmail::parse("ursuladomain.com".to_string()).is_err());
}

#[test]
fn rejects_an_address_starting_with_at_symbol() {
    assert!(SubscriberEmail::parse("@domain.com".to_string()).is_err());
}

#[test]
fn rejects_an_address_ending_with_at_symbol() {
    assert!(SubscriberEmail::parse("ursula@".to_string()).is_err());
}

#[test]
fn hands_the_rejected_string_back() {
    let rejected = match SubscriberEmail::parse("not-an-address".to_string()) {
        Err(s) => s,
        Ok(_) => panic!("expected rejection"),
    };
    assert_eq!(rejected, "not-an-address");
}
