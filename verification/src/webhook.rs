use vstd::prelude::*;
use crate::encoding::{push_str, str_eq};

verus! {

/// `200 OK`
pub const STATUS_OK: u16 = 200;

/// `400 Bad Request`
pub const STATUS_BAD_REQUEST: u16 = 400;

/// `404 Not Found`
pub const STATUS_NOT_FOUND: u16 = 404;

/// `405 Method Not Allowed`
pub const STATUS_METHOD_NOT_ALLOWED: u16 = 405;

/// `500 Internal Server Error`
pub const STATUS_INTERNAL_SERVER_ERROR: u16 = 500;

/// A response of the webhook server
#[derive(Debug)]
pub struct WebhookResponse {
    /// Status code
    pub status: u16,
    /// Headers, each a name and a value
    pub headers: Vec<(String, String)>,
    /// Body
    pub body: String,
}

/// The plain contents of a response: status, headers and body.
pub type WebhookResponseView = (u16, Seq<(Seq<char>, Seq<char>)>, Seq<char>);

impl View for WebhookResponse {
    type V = WebhookResponseView;

    open spec fn view(&self) -> WebhookResponseView {
        (self.status, self.headers@.map_values(|h: (String, String)| (h.0@, h.1@)), self.body@)
    }
}

/// What happens at the webhook, as the server sees it
#[derive(Debug)]
pub enum WebhookEvent {
    /// A request arrived: whether its method is POST, and its path
    Received { is_post: bool, path: String },
    /// The body of an accepted request was read and parsed as an update: the parser's
    /// message where it failed
    Parsed { error: Option<String> },
    /// The update handler finished: whether it succeeded
    Handled { ok: bool },
}

/// What the server does next
#[derive(Debug)]
pub enum WebhookAction {
    /// Read the body and parse it as an update
    ReadBody,
    /// Hand the update to the update handler
    HandleUpdate,
    /// Answer the request
    Respond(WebhookResponse),
}

/// A response with the given contents.
pub open spec fn responds(action: WebhookAction, v: WebhookResponseView) -> bool {
    action matches WebhookAction::Respond(r) && r@ == v
}

/// No headers.
pub open spec fn no_headers() -> Seq<(Seq<char>, Seq<char>)> {
    Seq::empty()
}

/// The answer to a body that is not an update: 400, plain text, and the parser's message.
pub open spec fn parse_failure_view(error: Seq<char>) -> WebhookResponseView {
    (
        STATUS_BAD_REQUEST,
        seq![("Content-Type"@, "text/plain"@)],
        "Failed to parse update: "@ + error + "\n"@,
    )
}

/// What the webhook at `webhook_path` does on an event: a request that is not POST is
/// answered 405 with `Allow: POST`; one to another path 404; otherwise its body is read.
/// A body that parses is handed to the handler, one that does not is answered 400. The
/// request is answered 200 when the handler succeeds and 500 when it fails.
pub open spec fn webhook_step_spec(webhook_path: Seq<char>, event: WebhookEvent, action: WebhookAction) -> bool {
    match event {
        WebhookEvent::Received { is_post, path } => if !is_post {
            responds(action, (STATUS_METHOD_NOT_ALLOWED, seq![("Allow"@, "POST"@)], Seq::empty()))
        } else if path@ != webhook_path {
            responds(action, (STATUS_NOT_FOUND, no_headers(), Seq::empty()))
        } else {
            action is ReadBody
        },
        WebhookEvent::Parsed { error } => match error {
            None => action is HandleUpdate,
            Some(e) => responds(action, parse_failure_view(e@)),
        },
        WebhookEvent::Handled { ok } => if ok {
            responds(action, (STATUS_OK, no_headers(), Seq::empty()))
        } else {
            responds(action, (STATUS_INTERNAL_SERVER_ERROR, no_headers(), Seq::empty()))
        },
    }
}

fn empty_response(status: u16) -> (r: WebhookResponse)
    ensures
        r@ == (status, no_headers(), Seq::<char>::empty()),
{
    let r = WebhookResponse { status, headers: Vec::new(), body: String::new() };
    assert(r@.1 =~= no_headers());
    r
}

fn header(name: &str, value: &str) -> (r: (String, String))
    ensures
        r.0@ == name@,
        r.1@ == value@,
{
    (name.to_owned(), value.to_owned())
}

/// Decides what the webhook at `webhook_path` does on an event
pub fn webhook_step(webhook_path: &str, event: WebhookEvent) -> (r: WebhookAction)
    ensures
        webhook_step_spec(webhook_path@, event, r),
{
    match event {
        WebhookEvent::Received { is_post, path } => {
            if !is_post {
                let mut r = empty_response(STATUS_METHOD_NOT_ALLOWED);
                r.headers.push(header("Allow", "POST"));
                assert(r@.1 =~= seq![("Allow"@, "POST"@)]);
                WebhookAction::Respond(r)
            } else if !str_eq(path.as_str(), webhook_path) {
                WebhookAction::Respond(empty_response(STATUS_NOT_FOUND))
            } else {
                WebhookAction::ReadBody
            }
        },
        WebhookEvent::Parsed { error } => match error {
            None => WebhookAction::HandleUpdate,
            Some(e) => {
                let mut body = String::new();
                push_str(&mut body, "Failed to parse update: ");
                push_str(&mut body, e.as_str());
                push_str(&mut body, "\n");
                let mut headers = Vec::new();
                headers.push(header("Content-Type", "text/plain"));
                let r = WebhookResponse { status: STATUS_BAD_REQUEST, headers, body };
                assert(r@.1 =~= seq![("Content-Type"@, "text/plain"@)]);
                assert(r@.2 =~= "Failed to parse update: "@ + e@ + "\n"@);
                WebhookAction::Respond(r)
            },
        },
        WebhookEvent::Handled { ok } => {
            if ok {
                WebhookAction::Respond(empty_response(STATUS_OK))
            } else {
                WebhookAction::Respond(empty_response(STATUS_INTERNAL_SERVER_ERROR))
            }
        },
    }
}

} // verus!
