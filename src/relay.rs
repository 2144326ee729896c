use vstd::prelude::*;

use crate::error::ErrorKind;

verus! {

/// The answering service's chat endpoint when the host configures none.
pub const DEFAULT_ENDPOINT: &'static str = "http://localhost:8000/chat";

/// The JSON string literal (quotes included) that serde_json writes for `s`.
pub uninterp spec fn json_quoted(s: Seq<char>) -> Seq<char>;

/// A string that JSON writes between quotes unchanged: no control
/// character, quote or backslash.
pub open spec fn json_plain(s: Seq<char>) -> bool {
    forall|i: int|
        0 <= i < s.len() ==> {
            let c = #[trigger] s[i];
            c >= ' ' && c != '"' && c != '\\'
        }
}

/// Relies on the compact `Display` of `serde_json::Value::String`: the
/// string's JSON literal, which escapes only control characters, `"` and `\`.
#[verifier::external_body]
fn quote_json(s: &str) -> (r: String)
    ensures
        r@ == json_quoted(s@),
        json_plain(s@) ==> r@ == seq!['"'] + s@ + seq!['"'],
{
    serde_json::Value::String(s.to_string()).to_string()
}

/// The JSON object sent for a question: `{"message":..,"pdf_path":..}`, in
/// that order and without whitespace.
pub open spec fn request_body_spec(message: Seq<char>, pdf_path: Seq<char>) -> Seq<char> {
    "{\"message\":"@ + json_quoted(message) + ",\"pdf_path\":"@ + json_quoted(pdf_path) + "}"@
}

/// `needle` occurs in `hay` as a contiguous run.
pub open spec fn occurs_in(needle: Seq<char>, hay: Seq<char>) -> bool {
    exists|i: int| 0 <= i && i + needle.len() <= hay.len() && #[trigger] hay.subrange(i, i + needle.len()) == needle
}

/// The request body carries both the message and the document reference,
/// each as its JSON literal.
pub proof fn lemma_body_carries_message_and_path(message: Seq<char>, pdf_path: Seq<char>)
    ensures
        occurs_in(json_quoted(message), request_body_spec(message, pdf_path)),
        occurs_in(json_quoted(pdf_path), request_body_spec(message, pdf_path)),
{
    let qm = json_quoted(message);
    let qp = json_quoted(pdf_path);
    let body = request_body_spec(message, pdf_path);
    let at_m = "{\"message\":"@.len() as int;
    let at_p = at_m + qm.len() + ",\"pdf_path\":"@.len();
    assert(body.subrange(at_m, at_m + qm.len()) =~= qm);
    assert(body.subrange(at_p, at_p + qp.len()) =~= qp);
}

/// The request body for a message and a reference that need no escaping:
/// each stands between quotes as it is.
pub open spec fn plain_request_body(message: Seq<char>, pdf_path: Seq<char>) -> Seq<char> {
    "{\"message\":"@ + seq!['"'] + message + seq!['"'] + ",\"pdf_path\":"@ + seq!['"'] + pdf_path
        + seq!['"'] + "}"@
}

/// Where neither needs escaping, the message and the reference each appear
/// verbatim in the request body, so an endpoint that echoes the body answers
/// with both.
pub proof fn lemma_plain_body_holds_message_and_path(message: Seq<char>, pdf_path: Seq<char>)
    requires
        json_plain(message),
        json_plain(pdf_path),
    ensures
        occurs_in(message, plain_request_body(message, pdf_path)),
        occurs_in(pdf_path, plain_request_body(message, pdf_path)),
{
    let body = plain_request_body(message, pdf_path);
    let at_m = "{\"message\":"@.len() + 1int;
    let at_p = at_m + message.len() + 1 + ",\"pdf_path\":"@.len() + 1;
    assert(body.subrange(at_m, at_m + message.len()) =~= message);
    assert(body.subrange(at_p, at_p + pdf_path.len()) =~= pdf_path);
}

/// Builds the JSON body that carries `message` about the document at
/// `pdf_path`.
pub fn request_body(message: &str, pdf_path: &str) -> (r: String)
    ensures
        r@ == request_body_spec(message@, pdf_path@),
        json_plain(message@) && json_plain(pdf_path@) ==> r@ == plain_request_body(
            message@,
            pdf_path@,
        ),
{
    let quoted_message = quote_json(message);
    let quoted_path = quote_json(pdf_path);
    let mut body = String::from_str("{\"message\":");
    body.append(quoted_message.as_str());
    body.append(",\"pdf_path\":");
    body.append(quoted_path.as_str());
    body.append("}");
    proof {
        if json_plain(message@) && json_plain(pdf_path@) {
            assert(body@ =~= plain_request_body(message@, pdf_path@));
        }
    }
    body
}

/// What the host observed after sending one request.
#[derive(Debug)]
pub enum RelayOutcome {
    /// The request could not be sent or the connection failed.
    SendFailed(String),
    /// A response arrived but its body could not be read.
    BodyUnreadable(String),
    /// A response arrived with this status and body text.
    Received { status: u16, body: String },
}

/// An HTTP POST that the host is to perform once.
#[derive(Debug)]
pub struct RelayRequest {
    pub url: String,
    pub body: String,
}

/// Relays questions to one answering endpoint.
#[derive(Debug)]
pub struct RelayService {
    pub endpoint: String,
}

impl RelayService {
    /// A service that posts to `endpoint`.
    pub fn new(endpoint: String) -> (r: Self)
        ensures
            r.endpoint@ == endpoint@,
    {
        RelayService { endpoint }
    }

    /// A service that posts to the local answering service.
    pub fn local() -> (r: Self)
        ensures
            r.endpoint@ == DEFAULT_ENDPOINT@,
    {
        RelayService { endpoint: String::from_str(DEFAULT_ENDPOINT) }
    }

    /// The request that asks `message` about the document at `pdf_path`.
    pub fn prepare(&self, message: &str, pdf_path: &str) -> (r: RelayRequest)
        ensures
            r.url@ == self.endpoint@,
            r.body@ == request_body_spec(message@, pdf_path@),
    {
        RelayRequest { url: self.endpoint.clone(), body: request_body(message, pdf_path) }
    }

    /// The result of a relay, given what happened to its one request: the
    /// body verbatim for any status, or the failure. Nothing is retried.
    pub fn conclude(&self, outcome: RelayOutcome) -> (r: Result<String, ErrorKind>)
        ensures
            match outcome {
                RelayOutcome::SendFailed(m) => r is Err && r->Err_0 is Transport
                    && r->Err_0->Transport_0@ == m@,
                RelayOutcome::BodyUnreadable(m) => r is Err && r->Err_0 is BodyRead
                    && r->Err_0->BodyRead_0@ == m@,
                RelayOutcome::Received { status, body } => r is Ok && r->Ok_0@ == body@,
            },
    {
        match outcome {
            RelayOutcome::SendFailed(m) => Err(ErrorKind::Transport(m)),
            RelayOutcome::BodyUnreadable(m) => Err(ErrorKind::BodyRead(m)),
            RelayOutcome::Received { status, body } => Ok(body),
        }
    }
}

} // verus!
