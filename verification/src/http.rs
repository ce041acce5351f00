//! The two halves of an exchange with the remote service, as plain values:
//! the POST that is to be sent, and the response that came back.
//!
//! Sending is the caller's part. This module says what is sent and how a
//! response is told apart into a success or a rejection.

use crate::error::{result_view, ClientError, ClientErrorView, RejectionKind};
use crate::json::{json_of, json_text, render};
use vstd::prelude::*;
use vstd::string::StringExecFns;

verus! {

/// An HTTP POST that is to be sent.
#[derive(Clone, Debug, PartialEq, Eq)]
pub struct PostRequest {
    /// Where to send it, the access token included.
    pub url: String,
    /// The value of the `Content-Type` header.
    pub content_type: String,
    /// The body.
    pub body: String,
}

/// The mathematical model of a [`PostRequest`].
pub struct PostRequestView {
    pub url: Seq<char>,
    pub content_type: Seq<char>,
    pub body: Seq<char>,
}

impl View for PostRequest {
    type V = PostRequestView;

    open spec fn view(&self) -> PostRequestView {
        PostRequestView { url: self.url@, content_type: self.content_type@, body: self.body@ }
    }
}

/// An HTTP response that has come back whole.
#[derive(Clone, Debug, PartialEq, Eq)]
pub struct HttpResponse {
    /// The status code.
    pub status: u16,
    /// The headers, each a name and a value, in the order received.
    pub headers: Vec<(String, String)>,
    /// The body, as text.
    pub body: String,
}

/// The mathematical model of an [`HttpResponse`].
pub struct HttpResponseView {
    pub status: u16,
    pub headers: Seq<(Seq<char>, Seq<char>)>,
    pub body: Seq<char>,
}

/// The model of a run of headers.
pub open spec fn headers_view(headers: Seq<(String, String)>) -> Seq<(Seq<char>, Seq<char>)> {
    Seq::new(headers.len(), |i: int| (headers[i].0@, headers[i].1@))
}

impl View for HttpResponse {
    type V = HttpResponseView;

    open spec fn view(&self) -> HttpResponseView {
        HttpResponseView {
            status: self.status,
            headers: headers_view(self.headers@),
            body: self.body@,
        }
    }
}

/// What a status code says of the request it answers.
#[derive(Clone, Copy, Debug, PartialEq, Eq, Structural)]
pub enum StatusClass {
    /// The request was carried out: 200, 201 or 202.
    Success,
    /// The request was turned down.
    Rejected(RejectionKind),
}

/// The class of each status code. Every code has one.
pub open spec fn status_class(status: u16) -> StatusClass {
    if status == 200 || status == 201 || status == 202 {
        StatusClass::Success
    } else if status == 400 {
        StatusClass::Rejected(RejectionKind::BadRequest)
    } else if status == 401 {
        StatusClass::Rejected(RejectionKind::Unauthorized)
    } else if status == 403 {
        StatusClass::Rejected(RejectionKind::Forbidden)
    } else if status == 500 {
        StatusClass::Rejected(RejectionKind::InternalServerError)
    } else if status == 503 {
        StatusClass::Rejected(RejectionKind::ServiceUnavailable)
    } else {
        StatusClass::Rejected(RejectionKind::Unexpected)
    }
}

/// Tells a status code's class.
pub fn classify_status(status: u16) -> (class: StatusClass)
    ensures
        class == status_class(status),
{
    match status {
        200 | 201 | 202 => StatusClass::Success,
        400 => StatusClass::Rejected(RejectionKind::BadRequest),
        401 => StatusClass::Rejected(RejectionKind::Unauthorized),
        403 => StatusClass::Rejected(RejectionKind::Forbidden),
        500 => StatusClass::Rejected(RejectionKind::InternalServerError),
        503 => StatusClass::Rejected(RejectionKind::ServiceUnavailable),
        _ => StatusClass::Rejected(RejectionKind::Unexpected),
    }
}

/// Tells whether the body of a response with this status has to be read.
pub fn reads_body(status: u16) -> (reads: bool)
    ensures
        reads == body_counts(status),
{
    match classify_status(status) {
        StatusClass::Success => true,
        StatusClass::Rejected(kind) => match kind {
            RejectionKind::BadRequest => true,
            _ => false,
        },
    }
}

/// The character for a digit below ten.
pub open spec fn digit(value: nat) -> char {
    if value == 0 {
        '0'
    } else if value == 1 {
        '1'
    } else if value == 2 {
        '2'
    } else if value == 3 {
        '3'
    } else if value == 4 {
        '4'
    } else if value == 5 {
        '5'
    } else if value == 6 {
        '6'
    } else if value == 7 {
        '7'
    } else if value == 8 {
        '8'
    } else {
        '9'
    }
}

/// A number in decimal, without leading zeros.
pub open spec fn decimal(value: nat) -> Seq<char>
    decreases value,
{
    if value < 10 {
        seq![digit(value)]
    } else {
        decimal(value / 10).push(digit(value % 10))
    }
}

/// One header as it is shown: its name and its value, each in double quotes,
/// with a colon between them.
pub open spec fn header_shown(header: (Seq<char>, Seq<char>)) -> Seq<char> {
    "\""@ + header.0 + "\": \""@ + header.1 + "\""@
}

/// A run of headers as it is shown: one after the other, with a comma and a
/// space between two of them.
pub open spec fn headers_shown(headers: Seq<(Seq<char>, Seq<char>)>) -> Seq<char>
    decreases headers.len(),
{
    if headers.len() == 0 {
        Seq::empty()
    } else if headers.len() == 1 {
        header_shown(headers[0])
    } else {
        headers_shown(headers.drop_last()) + ", "@ + header_shown(headers.last())
    }
}

/// A response as it is shown in a failure: its status and its headers, not
/// its body.
pub open spec fn response_shown(response: HttpResponseView) -> Seq<char> {
    "Response { status: "@ + decimal(response.status as nat) + ", headers: {"@ + headers_shown(
        response.headers,
    ) + "} }"@
}

/// The message of the rejection that a response stands for.
pub open spec fn rejection_message(kind: RejectionKind, response: HttpResponseView) -> Seq<char> {
    match kind {
        RejectionKind::BadRequest => "400 Bad Request: "@ + response.body,
        RejectionKind::Unauthorized => "401 Unauthorized"@,
        RejectionKind::Forbidden => "403 Forbidden"@,
        RejectionKind::InternalServerError => "500 Internal Server Error"@,
        RejectionKind::ServiceUnavailable => "503 Service Unavailable"@,
        RejectionKind::Unexpected => "Received response: "@ + response_shown(response),
    }
}

/// What a response comes to: its body where the status is a success, and
/// else the rejection that the status stands for.
pub open spec fn response_outcome(response: HttpResponseView) -> Result<Seq<char>, ClientErrorView> {
    match status_class(response.status) {
        StatusClass::Success => Ok(response.body),
        StatusClass::Rejected(kind) => Err(
            ClientErrorView::Rejection { kind, message: rejection_message(kind, response) },
        ),
    }
}

/// Does what a response comes to depend on its body? It does for a success,
/// whose body is the result, and for a bad request, whose body ends the
/// message. Every other status comes to the same whatever the body holds.
pub open spec fn body_counts(status: u16) -> bool {
    status_class(status) == StatusClass::Success || status_class(status) == StatusClass::Rejected(
        RejectionKind::BadRequest,
    )
}

/// Where the body does not count, two responses of one status and the same
/// headers come to the same.
pub proof fn lemma_body_left_unread(response: HttpResponseView, other: HttpResponseView)
    requires
        !body_counts(response.status),
        other.status == response.status,
        other.headers == response.headers,
    ensures
        response_outcome(other) == response_outcome(response),
{
}

/// The model of what came of sending a request: the response, or the text
/// with which the transport failed.
pub open spec fn outcome_view(outcome: Result<HttpResponse, String>) -> Result<
    HttpResponseView,
    Seq<char>,
> {
    match outcome {
        Ok(response) => Ok(response@),
        Err(text) => Err(text@),
    }
}

/// The body that an exchange comes to: the body of a response with a status
/// of success. A transport that failed, and a response with any other
/// status, come to a failure.
pub open spec fn exchange_body(outcome: Result<HttpResponseView, Seq<char>>) -> Result<
    Seq<char>,
    ClientErrorView,
> {
    match outcome {
        Ok(response) => response_outcome(response),
        Err(text) => Err(ClientErrorView::Transport(text)),
    }
}

/// The POST of a JSON body: to the address given, with the content type of
/// JSON. Where the body could not be written, a transport failure.
pub open spec fn json_post(url: Seq<char>, body: Option<Seq<char>>) -> Result<
    PostRequestView,
    ClientErrorView,
> {
    match body {
        Some(text) => Ok(PostRequestView { url, content_type: "application/json"@, body: text }),
        None => Err(ClientErrorView::Transport("the request body could not be written as JSON"@)),
    }
}

fn digit_text(value: u16) -> (text: &'static str)
    requires
        value < 10,
    ensures
        text@ == seq![digit(value as nat)],
{
    proof {
        reveal_strlit("0");
        reveal_strlit("1");
        reveal_strlit("2");
        reveal_strlit("3");
        reveal_strlit("4");
        reveal_strlit("5");
        reveal_strlit("6");
        reveal_strlit("7");
        reveal_strlit("8");
        reveal_strlit("9");
    }
    let text = match value {
        0 => "0",
        1 => "1",
        2 => "2",
        3 => "3",
        4 => "4",
        5 => "5",
        6 => "6",
        7 => "7",
        8 => "8",
        _ => "9",
    };
    assert(text@ =~= seq![digit(value as nat)]);
    text
}

/// Writes a number in decimal.
pub fn decimal_text(value: u16) -> (text: String)
    ensures
        text@ == decimal(value as nat),
    decreases value,
{
    if value < 10 {
        String::from_str(digit_text(value))
    } else {
        let mut text = decimal_text(value / 10);
        text.append(digit_text(value % 10));
        assert(text@ =~= decimal(value as nat));
        text
    }
}

/// Shows a run of headers.
pub fn show_headers(headers: &Vec<(String, String)>) -> (text: String)
    ensures
        text@ == headers_shown(headers_view(headers@)),
{
    let mut text = String::new();
    let mut index: usize = 0;
    while index < headers.len()
        invariant
            index <= headers.len(),
            text@ == headers_shown(headers_view(headers@).take(index as int)),
        decreases headers.len() - index,
    {
        let ghost shown = headers_view(headers@).take(index as int);
        let ghost next = headers_view(headers@).take(index + 1);
        assert(next.drop_last() =~= shown);
        assert(next.last() == (headers@[index as int].0@, headers@[index as int].1@));
        if index > 0 {
            text.append(", ");
        }
        text.append("\"");
        text.append(headers[index].0.as_str());
        text.append("\": \"");
        text.append(headers[index].1.as_str());
        text.append("\"");
        assert(text@ =~= headers_shown(next));
        index = index + 1;
    }
    assert(headers_view(headers@).take(index as int) =~= headers_view(headers@));
    text
}

/// Shows a response: its status and its headers.
pub fn show_response(response: &HttpResponse) -> (text: String)
    ensures
        text@ == response_shown(response@),
{
    let mut text = String::from_str("Response { status: ");
    text.append(decimal_text(response.status).as_str());
    text.append(", headers: {");
    text.append(show_headers(&response.headers).as_str());
    text.append("} }");
    assert(text@ =~= response_shown(response@));
    text
}

/// Tells a response apart: the body of a success, or the rejection that the
/// status stands for, with its message.
pub fn handle_response(response: HttpResponse) -> (result: Result<String, ClientError>)
    ensures
        result_view(result) == response_outcome(response@),
{
    match classify_status(response.status) {
        StatusClass::Success => Ok(response.body),
        StatusClass::Rejected(kind) => {
            let message = match kind {
                RejectionKind::BadRequest => {
                    let mut text = String::from_str("400 Bad Request: ");
                    text.append(response.body.as_str());
                    text
                },
                RejectionKind::Unauthorized => String::from_str("401 Unauthorized"),
                RejectionKind::Forbidden => String::from_str("403 Forbidden"),
                RejectionKind::InternalServerError => String::from_str(
                    "500 Internal Server Error",
                ),
                RejectionKind::ServiceUnavailable => String::from_str("503 Service Unavailable"),
                RejectionKind::Unexpected => {
                    let mut text = String::from_str("Received response: ");
                    text.append(show_response(&response).as_str());
                    text
                },
            };
            Err(ClientError::Rejection { kind, message })
        },
    }
}

/// What an exchange comes to: the body of a success, the rejection that
/// the status stands for, or the failure of the transport.
pub fn body_of(outcome: Result<HttpResponse, String>) -> (result: Result<String, ClientError>)
    ensures
        result_view(result) == exchange_body(outcome_view(outcome)),
{
    match outcome {
        Ok(response) => handle_response(response),
        Err(text) => Err(ClientError::Transport(text)),
    }
}

/// Makes the POST of a body that has been written as JSON, or the failure
/// where it could not be written.
pub fn post_of(url: String, written: Option<String>) -> (planned: Result<PostRequest, ClientError>)
    ensures
        result_view(planned) == json_post(url@, written.deep_view()),
{
    match written {
        Some(body) => Ok(PostRequest { url, content_type: String::from_str("application/json"), body }),
        None => Err(
            ClientError::Transport(
                String::from_str("the request body could not be written as JSON"),
            ),
        ),
    }
}

/// Makes the POST of a JSON value.
pub fn post_json(url: String, value: &serde_json::Value) -> (planned: Result<
    PostRequest,
    ClientError,
>)
    ensures
        result_view(planned) == json_post(url@, json_text(json_of(*value))),
{
    match render(value) {
        Ok(body) => post_of(url, Some(body)),
        Err(_) => post_of(url, None),
    }
}

} // verus!
