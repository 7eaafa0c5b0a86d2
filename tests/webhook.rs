use topgg::{InboundRequest, Reply, Webhook, WebhookClient};

fn hook(user: &str) -> Webhook {
    Webhook {
        bot: "668701133069352961".to_string(),
        user: user.to_string(),
        kind: "upvote".to_string(),
        is_weekend: true,
        query: Some("?a=1".to_string()),
    }
}

fn post(auth: Option<&str>, body: Option<Webhook>) -> InboundRequest {
    InboundRequest { is_post: true, authorization: auth.map(|a| a.to_string()), body }
}

#[test]
fn valid_post_yields_its_notification() {
    let receiver = WebhookClient::new("a-very-secret-password".to_string());
    match receiver.handle(post(Some("a-very-secret-password"), Some(hook("195512978634833920")))) {
        Reply::Accepted(w) => {
            assert_eq!(w.bot, "668701133069352961");
            assert_eq!(w.user, "195512978634833920");
            assert_eq!(w.kind, "upvote");
            assert!(w.is_weekend);
            assert_eq!(w.query, Some("?a=1".to_string()));
        },
        _ => panic!("a valid request was not accepted"),
    }
}

#[test]
fn wrong_secret_is_unauthorized() {
    let receiver = WebhookClient::new("secret".to_string());
    assert!(matches!(receiver.handle(post(Some("Secret"), Some(hook("1")))), Reply::Unauthorized));
    assert!(matches!(receiver.handle(post(Some("secret "), Some(hook("1")))), Reply::Unauthorized));
    assert!(matches!(receiver.handle(post(None, Some(hook("1")))), Reply::Unauthorized));
    assert!(matches!(receiver.handle(post(Some("wrong"), None)), Reply::Unauthorized));
}

#[test]
fn malformed_body_is_a_bad_request() {
    let receiver = WebhookClient::new("secret".to_string());
    assert!(matches!(receiver.handle(post(Some("secret"), None)), Reply::BadRequest));
}

#[test]
fn other_methods_are_refused() {
    let receiver = WebhookClient::new("secret".to_string());
    let req = InboundRequest { is_post: false, authorization: Some("secret".to_string()), body: Some(hook("1")) };
    assert!(matches!(receiver.handle(req), Reply::MethodNotAllowed));
}

#[test]
fn ten_valid_posts_yield_ten_notifications() {
    let receiver = WebhookClient::new("secret".to_string());
    let mut seen: Vec<String> = Vec::new();
    for i in 0..10 {
        let user = format!("{}", 1000 + i);
        if let Reply::Accepted(w) = receiver.handle(post(Some("secret"), Some(hook(&user)))) {
            seen.push(w.user);
        }
    }
    let expected: Vec<String> = (0..10).map(|i| format!("{}", 1000 + i)).collect();
    assert_eq!(seen, expected);
}
