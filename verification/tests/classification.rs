use clicksign::client::Client;
use clicksign::error::{ClientError, DecodeFailure, RejectionKind};
use clicksign::http::{
    body_of, classify_status, decimal_text, handle_response, reads_body, show_headers,
    show_response, HttpResponse, StatusClass,
};

fn response(status: u16, body: &str) -> HttpResponse {
    HttpResponse { status, headers: Vec::new(), body: body.to_string() }
}

fn client() -> Client {
    Client::new("token", Some("https://api.example.com/"))
}

#[test]
fn created_gives_the_body_as_it_is() {
    let body = "{\"document\":{\"path\":\"/x\"}}";
    assert_eq!(client().response_handler(response(201, body)), Ok(body.to_string()));
}

#[test]
fn ok_and_accepted_give_the_body_too() {
    assert_eq!(client().response_handler(response(200, "a")), Ok("a".to_string()));
    assert_eq!(client().response_handler(response(202, "")), Ok(String::new()));
}

#[test]
fn unauthorized_message_is_exact() {
    let failure = client().response_handler(response(401, "ignored")).unwrap_err();
    assert_eq!(failure.message(), "401 Unauthorized");
    assert_eq!(
        failure,
        ClientError::Rejection {
            kind: RejectionKind::Unauthorized,
            message: "401 Unauthorized".to_string()
        }
    );
}

#[test]
fn bad_request_carries_the_body() {
    let failure = client().response_handler(response(400, "bad field")).unwrap_err();
    let message = failure.message();
    assert!(message.contains("400 Bad Request"));
    assert!(message.contains("bad field"));
    assert_eq!(message, "400 Bad Request: bad field");
    assert!(matches!(failure, ClientError::Rejection { kind: RejectionKind::BadRequest, .. }));
}

#[test]
fn forbidden_server_error_and_unavailable() {
    assert_eq!(
        handle_response(response(403, "x")),
        Err(ClientError::Rejection {
            kind: RejectionKind::Forbidden,
            message: "403 Forbidden".to_string()
        })
    );
    assert_eq!(
        handle_response(response(500, "x")),
        Err(ClientError::Rejection {
            kind: RejectionKind::InternalServerError,
            message: "500 Internal Server Error".to_string()
        })
    );
    assert_eq!(
        handle_response(response(503, "x")),
        Err(ClientError::Rejection {
            kind: RejectionKind::ServiceUnavailable,
            message: "503 Service Unavailable".to_string()
        })
    );
}

#[test]
fn unmapped_status_is_a_failure_that_shows_status_and_headers() {
    let teapot = HttpResponse {
        status: 418,
        headers: vec![
            ("content-type".to_string(), "text/plain".to_string()),
            ("x-request-id".to_string(), "42".to_string()),
        ],
        body: "short and stout".to_string(),
    };
    let failure = client().response_handler(teapot).unwrap_err();
    assert_eq!(
        failure,
        ClientError::Rejection {
            kind: RejectionKind::Unexpected,
            message: "Received response: Response { status: 418, headers: {\"content-type\": \"text/plain\", \"x-request-id\": \"42\"} }".to_string()
        }
    );
    assert!(!failure.message().contains("short and stout"));
}

#[test]
fn other_successes_of_the_2xx_family_are_not_mapped() {
    for status in [203u16, 204, 206, 299] {
        let failure = handle_response(response(status, "")).unwrap_err();
        assert!(matches!(failure, ClientError::Rejection { kind: RejectionKind::Unexpected, .. }));
    }
}

#[test]
fn every_status_has_a_class() {
    for status in 0..=u16::MAX {
        let expected = match status {
            200 | 201 | 202 => StatusClass::Success,
            400 => StatusClass::Rejected(RejectionKind::BadRequest),
            401 => StatusClass::Rejected(RejectionKind::Unauthorized),
            403 => StatusClass::Rejected(RejectionKind::Forbidden),
            500 => StatusClass::Rejected(RejectionKind::InternalServerError),
            503 => StatusClass::Rejected(RejectionKind::ServiceUnavailable),
            _ => StatusClass::Rejected(RejectionKind::Unexpected),
        };
        assert_eq!(classify_status(status), expected);
    }
}

#[test]
fn decimal_text_writes_numbers_as_they_are_read() {
    assert_eq!(decimal_text(0), "0");
    assert_eq!(decimal_text(7), "7");
    assert_eq!(decimal_text(10), "10");
    assert_eq!(decimal_text(418), "418");
    assert_eq!(decimal_text(1000), "1000");
    assert_eq!(decimal_text(65535), "65535");
    for value in 0..=u16::MAX {
        assert_eq!(decimal_text(value), value.to_string());
    }
}

#[test]
fn headers_are_shown_in_order_with_commas_between() {
    assert_eq!(show_headers(&Vec::new()), "");
    assert_eq!(show_headers(&vec![("a".to_string(), "b".to_string())]), "\"a\": \"b\"");
    assert_eq!(
        show_headers(&vec![
            ("a".to_string(), "b".to_string()),
            ("c".to_string(), "".to_string()),
            ("".to_string(), "d".to_string()),
        ]),
        "\"a\": \"b\", \"c\": \"\", \"\": \"d\""
    );
}

#[test]
fn a_response_is_shown_without_its_body() {
    assert_eq!(show_response(&response(0, "body")), "Response { status: 0, headers: {} }");
    assert_eq!(
        show_response(&HttpResponse {
            status: 302,
            headers: vec![("location".to_string(), "/y".to_string())],
            body: String::new(),
        }),
        "Response { status: 302, headers: {\"location\": \"/y\"} }"
    );
}

#[test]
fn a_failed_transport_is_a_transport_failure() {
    let failure = body_of(Err("connection refused".to_string())).unwrap_err();
    assert_eq!(failure, ClientError::Transport("connection refused".to_string()));
    assert_eq!(failure.message(), "connection refused");
}

#[test]
fn body_of_a_response_is_what_the_handler_gives() {
    assert_eq!(body_of(Ok(response(200, "b"))), Ok("b".to_string()));
    assert_eq!(body_of(Ok(response(401, "b"))), handle_response(response(401, "b")));
}

#[test]
fn decode_failures_have_fixed_messages() {
    assert_eq!(ClientError::Decode(DecodeFailure::MalformedJson).message(), "malformed JSON");
    assert_eq!(
        ClientError::Decode(DecodeFailure::SchemaMismatch).message(),
        "JSON of an unexpected shape"
    );
}

#[test]
fn the_body_is_read_for_a_success_and_for_a_bad_request_only() {
    for status in 0..=u16::MAX {
        assert_eq!(reads_body(status), matches!(status, 200 | 201 | 202 | 400), "{}", status);
    }
}

#[test]
fn a_body_that_does_not_count_changes_nothing() {
    for status in [401u16, 403, 500, 503, 204, 418] {
        assert_eq!(handle_response(response(status, "")), handle_response(response(status, "any")));
    }
}
