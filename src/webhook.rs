use vstd::prelude::*;

verus! {

/// A vote notification pushed by the directory. The IDs stay in the string
/// form in which they were sent.
pub struct Webhook {
    pub bot: String,
    pub user: String,
    pub kind: String,
    pub is_weekend: bool,
    pub query: Option<String>,
}

/// What the listener reads of an incoming HTTP request: whether it is a
/// POST, its `Authorization` header if it has one, and its body decoded as a
/// notification, or `None` when the body does not have that shape.
pub struct InboundRequest {
    pub is_post: bool,
    pub authorization: Option<String>,
    pub body: Option<Webhook>,
}

/// The listener's answer to one request. Only `Accepted` hands a
/// notification on to the event stream.
pub enum Reply {
    Unauthorized,
    MethodNotAllowed,
    BadRequest,
    Accepted(Webhook),
}

/// Whether a request carries exactly the shared secret in its
/// `Authorization` header.
pub open spec fn authorized(secret: Seq<char>, header: Option<String>) -> bool {
    match header {
        Some(h) => h@ == secret,
        None => false,
    }
}

/// The answer that a listener with shared secret `secret` gives to `req`:
/// the secret is checked first, then the method, then the body.
pub open spec fn reply_to(secret: Seq<char>, req: InboundRequest) -> Reply {
    if !authorized(secret, req.authorization) {
        Reply::Unauthorized
    } else if !req.is_post {
        Reply::MethodNotAllowed
    } else {
        match req.body {
            Some(w) => Reply::Accepted(w),
            None => Reply::BadRequest,
        }
    }
}

/// The notification that a reply hands on to the event stream, if any.
pub open spec fn event_of(r: Reply) -> Option<Webhook> {
    match r {
        Reply::Accepted(w) => Some(w),
        _ => None,
    }
}

/// The receiving side of the directory's vote webhooks: it holds the shared
/// secret that every request must carry.
pub struct WebhookClient {
    pub auth: String,
}

impl WebhookClient {
    /// A receiver that accepts requests carrying `auth`.
    pub fn new(auth: String) -> (r: WebhookClient)
        ensures
            r.auth == auth,
    {
        WebhookClient { auth }
    }

    /// Decides what to answer to one request, and so whether it yields a
    /// notification: exactly when it carries the secret, is a POST and has
    /// a well-formed body, and then the notification is that body.
    pub fn handle(&self, req: InboundRequest) -> (r: Reply)
        ensures
            r == reply_to(self.auth@, req),
            event_of(r) == (if authorized(self.auth@, req.authorization) && req.is_post {
                req.body
            } else {
                None
            }),
    {
        let ok = match &req.authorization {
            Some(h) => *h == self.auth,
            None => false,
        };
        if !ok {
            Reply::Unauthorized
        } else if !req.is_post {
            Reply::MethodNotAllowed
        } else {
            match req.body {
                Some(w) => Reply::Accepted(w),
                None => Reply::BadRequest,
            }
        }
    }
}

/// What each request of `reqs`, answered in turn, hands on to the event
/// stream.
pub open spec fn events(secret: Seq<char>, reqs: Seq<InboundRequest>) -> Seq<Option<Webhook>> {
    reqs.map_values(|r: InboundRequest| event_of(reply_to(secret, r)))
}

/// Requests that each carry the secret, are POSTs and have a well-formed body
/// yield one notification each, their own bodies, in the order they came:
/// none is lost and none is added.
pub proof fn lemma_valid_requests_yield_their_bodies(secret: Seq<char>, reqs: Seq<InboundRequest>)
    requires
        forall|i: int|
            0 <= i < reqs.len() ==> {
                &&& authorized(secret, (#[trigger] reqs[i]).authorization)
                &&& reqs[i].is_post
                &&& reqs[i].body is Some
            },
    ensures
        events(secret, reqs).len() == reqs.len(),
        forall|i: int|
            0 <= i < reqs.len() ==> #[trigger] events(secret, reqs)[i] == reqs[i].body
                && events(secret, reqs)[i] is Some,
{
}

} // verus!
