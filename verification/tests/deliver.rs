use feed_digest::deliver::{delivery_outcome, ResendClient};

#[test]
fn failure_surfaces_the_body_verbatim() {
    let r = delivery_outcome(false, None, "invalid key".to_string());
    assert_eq!(r, Err("Failed to send email: invalid key".to_string()));
}

#[test]
fn success_takes_the_reported_id() {
    let r = delivery_outcome(true, Some("abc123".to_string()), String::new());
    assert_eq!(r, Ok("abc123".to_string()));
}

#[test]
fn success_without_id_uses_placeholder() {
    let r = delivery_outcome(true, None, String::new());
    assert_eq!(r, Ok("sent".to_string()));
}

#[test]
fn email_is_addressed_and_rendered() {
    let client = ResendClient::new("rk".to_string(), "me@example.com".to_string());
    let email = client.build_email("you@example.com", "Digest", "# Hi");
    assert_eq!(email.from, "me@example.com");
    assert_eq!(email.to, vec!["you@example.com".to_string()]);
    assert_eq!(email.subject, "Digest");
    assert_eq!(email.html, client.markdown_to_html("# Hi"));
    assert!(email.html.contains("<h1>Hi</h1>"));
}
