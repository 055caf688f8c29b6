//! What goes back to the caller: a status, a content type and a body.

use vstd::prelude::*;

verus! {

/// A reply to the caller, ready to be put on the wire.
#[derive(Clone, Debug, PartialEq, Eq)]
pub struct Reply {
    pub status: u16,
    pub content_type: String,
    pub body: String,
}

/// What a [`Reply`] holds.
pub struct ReplyView {
    pub status: u16,
    pub content_type: Seq<char>,
    pub body: Seq<char>,
}

impl View for Reply {
    type V = ReplyView;

    open spec fn view(&self) -> ReplyView {
        ReplyView { status: self.status, content_type: self.content_type@, body: self.body@ }
    }
}

impl DeepView for Reply {
    type V = ReplyView;

    open spec fn deep_view(&self) -> ReplyView {
        self@
    }
}

/// The content type of every reply.
pub open spec fn json() -> Seq<char> {
    "application/json"@
}

/// The body that reports a failure: an object whose one member, `error`,
/// is the message. The message is put between the quotes as it is.
pub open spec fn error_body(message: Seq<char>) -> Seq<char> {
    "{\"error\": \""@ + message + "\"}"@
}

/// The reply that reports a failure.
pub open spec fn failure(status: u16, message: Seq<char>) -> ReplyView {
    ReplyView { status, content_type: json(), body: error_body(message) }
}

/// What is said of a request that names no receipt.
pub open spec fn missing_receipt_message() -> Seq<char> {
    "Missing receiptId parameter"@
}

/// What is said when no result could be fetched for the receipt, followed
/// by the cause.
pub open spec fn not_found_message(cause: Seq<char>) -> Seq<char> {
    "No results found - "@ + cause
}

/// The reply that reports a failure under the given status.
pub fn error_response(status_code: u16, error_message: &str) -> (reply: Reply)
    ensures
        reply@ == failure(status_code, error_message@),
{
    let mut body = "{\"error\": \"".to_owned();
    body.append(error_message);
    body.append("\"}");
    Reply { status: status_code, content_type: "application/json".to_owned(), body }
}

/// The reply to a request that names no receipt: status 400.
pub fn missing_receipt_id() -> (reply: Reply)
    ensures
        reply@ == failure(400, missing_receipt_message()),
{
    error_response(400, "Missing receiptId parameter")
}

/// The reply when no result could be fetched for the receipt: status 404,
/// with the cause in the message.
pub fn not_found(cause: &str) -> (reply: Reply)
    ensures
        reply@ == failure(404, not_found_message(cause@)),
{
    let mut message = "No results found - ".to_owned();
    message.append(cause);
    error_response(404, message.as_str())
}

/// The reply that carries the results: status 200, with `body` as it is.
pub fn success(body: String) -> (reply: Reply)
    ensures
        reply@ == (ReplyView { status: 200, content_type: json(), body: body@ }),
{
    Reply { status: 200, content_type: "application/json".to_owned(), body }
}

} // verus!
