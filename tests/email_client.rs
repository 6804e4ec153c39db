use zero2prod_newsletter::domain::SubscriberEmail;
use zero2prod_newsletter::email_client::EmailClient;
use zero2prod_newsletter::secret::Secret;

#[test]
fn email_request_holds_all_fields() {
    let sender = SubscriberEmail::parse("sender@example.com".to_string()).unwrap();
    let client = EmailClient::new(
        "http://127.0.0.1:8080".to_string(),
        sender,
        Secret::new("token".to_string()),
    );
    let recipient = SubscriberEmail::parse("reader@example.com".to_string()).unwrap();
    let r = client.email_request(&recipient, "Hello", "<p>Hi</p>", "Hi");
    assert_eq!(r.url, "http://127.0.0.1:8080/email");
    assert_eq!(r.from, "sender@example.com");
    assert_eq!(r.to, "reader@example.com");
    assert_eq!(r.subject, "Hello");
    assert_eq!(r.html_body, "<p>Hi</p>");
    assert_eq!(r.text_body, "Hi");
    assert_eq!(client.authorization_token().expose_secret(), "token");
    assert_eq!(client.base_url(), "http://127.0.0.1:8080");
    assert_eq!(client.sender().as_str(), "sender@example.com");
}
