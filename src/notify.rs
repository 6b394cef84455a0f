//! The outbound notification: the request that is sent to the
//! home-automation API and the classification of what came back.
use vstd::prelude::*;
use vstd::string::*;

verus! {

/// serde_json's error type, carried opaquely as the error of `json_string`.
#[verifier::external_type_specification]
#[verifier::external_body]
pub struct ExJsonError(serde_json::Error);

/// The JSON string literal that serde_json writes for a text: quoted, with
/// the characters that JSON requires escaped.
pub uninterp spec fn json_string_of(s: Seq<char>) -> Seq<char>;

/// Relies on serde_json::to_string for a `str`: it writes the escaped,
/// quoted literal into a `Vec<u8>`, whose writes cannot fail, so the result
/// is always `Ok`.
#[verifier::external_body]
fn json_string(s: &str) -> (r: Result<String, serde_json::Error>)
    ensures
        r is Ok,
        r matches Ok(t) ==> t@ == json_string_of(s@),
{
    serde_json::to_string(s)
}

/// Title of every notification.
pub open spec fn title_text() -> Seq<char> {
    "REST Call Received"@
}

/// The notification message for some data: `data: ` followed by the data.
pub open spec fn message_text(data: Seq<char>) -> Seq<char> {
    "data: "@ + data
}

/// The JSON body of a notification: an object with the members `message`
/// and `title`, in the key order serde_json gives an object.
pub open spec fn body_text(data: Seq<char>) -> Seq<char> {
    "{\"message\":"@ + json_string_of(message_text(data)) + ",\"title\":"@
        + json_string_of(title_text()) + "}"@
}

/// Media type of the notification body.
pub open spec fn json_media_type() -> Seq<char> {
    "application/json"@
}

/// What goes out for one notification.
pub struct NotifyRequest {
    /// Where the request is posted.
    pub url: String,
    /// `Content-Type` header value.
    pub content_type: String,
    /// `Authorization` header value: the token, verbatim.
    pub authorization: String,
    /// The JSON body.
    pub body: String,
}

/// Why a notification did not go through.
#[derive(Debug, Clone, Copy, PartialEq, Eq, Structural)]
pub enum NotifyError {
    /// No response came back: DNS, connection or timeout failure.
    Transport,
    /// A response came back with a status outside 2xx.
    Status(u16),
    /// The token cannot stand in an HTTP header.
    InvalidHeader,
}

/// Whether a status code is a success (2xx).
pub open spec fn is_success_spec(code: u16) -> bool {
    200 <= code <= 299
}

/// The message text that a notification carries for some data.
pub fn notification_message(data: &str) -> (r: String)
    ensures
        r@ == message_text(data@),
{
    proof {
        reveal_strlit("data: ");
    }
    let mut r = String::new();
    r.append("data: ");
    r.append(data);
    assert(r@ =~= message_text(data@));
    r
}

/// The JSON body of a notification for some data:
/// `{"message":"data: <data>","title":"REST Call Received"}`, both strings
/// escaped as JSON requires.
pub fn notification_body(data: &str) -> (r: String)
    ensures
        r@ == body_text(data@),
{
    proof {
        reveal_strlit("{\"message\":");
        reveal_strlit(",\"title\":");
        reveal_strlit("}");
        reveal_strlit("REST Call Received");
    }
    let message = notification_message(data);
    let mut r = String::new();
    r.append("{\"message\":");
    match json_string(message.as_str()) {
        Ok(m) => r.append(m.as_str()),
        Err(_) => {},
    }
    r.append(",\"title\":");
    match json_string("REST Call Received") {
        Ok(t) => r.append(t.as_str()),
        Err(_) => {},
    }
    r.append("}");
    assert(r@ =~= body_text(data@));
    r
}

/// The request for one notification: posted to `url`, JSON content, the
/// token verbatim as the `Authorization` value, and the body for `data`.
pub fn notify_request(url: &str, token: &str, data: &str) -> (r: NotifyRequest)
    ensures
        r.url@ == url@,
        r.content_type@ == json_media_type(),
        r.authorization@ == token@,
        r.body@ == body_text(data@),
{
    proof {
        reveal_strlit("application/json");
    }
    NotifyRequest {
        url: url.to_owned(),
        content_type: "application/json".to_owned(),
        authorization: token.to_owned(),
        body: notification_body(data),
    }
}

/// Whether a status code is a success (2xx).
pub fn is_success(code: u16) -> (r: bool)
    ensures
        r == is_success_spec(code),
{
    200 <= code && code <= 299
}

/// The outcome of a notification from what came back: `None` when no
/// response arrived, else the response's status code.
pub fn notify_outcome(status: Option<u16>) -> (r: Result<(), NotifyError>)
    ensures
        status is None ==> r == Err::<(), NotifyError>(NotifyError::Transport),
        forall|c: u16| status == Some(c) && is_success_spec(c) ==> r is Ok,
        forall|c: u16| status == Some(c) && !is_success_spec(c)
            ==> r == Err::<(), NotifyError>(NotifyError::Status(c)),
{
    match status {
        None => Err(NotifyError::Transport),
        Some(code) => {
            if is_success(code) {
                Ok(())
            } else {
                Err(NotifyError::Status(code))
            }
        },
    }
}

} // verus!
