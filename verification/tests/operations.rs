use clicksign::client::documents::{create_document_by_model_helper, Document, DocumentTemplate};
use clicksign::client::{read_document, read_signer, read_signer_to_document, Client};
use clicksign::envelope::{enclose, enclosed, read_envelope};
use clicksign::error::{ClientError, DecodeFailure, RejectionKind};
use clicksign::http::{post_json, post_of, HttpResponse, PostRequest};
use clicksign::models::signers::{Signer, SignerToDocument};
use clicksign::string_map::StringMap;

const SIGNER: &str = "{\"auths\":[\"email\"],\"birthday\":\"1983-03-31\",\"documentation\":\"123.321.123-40\",\"email\":\"fulano@example.com\",\"handwritten_enabled\":true,\"has_documentation\":true,\"liveness_enabled\":true,\"name\":\"Marcos Zumba\",\"official_document_enabled\":true,\"phone_number\":\"11999999999\",\"selfie_enabled\":true}";
const LIST: &str = "{\"document_key\":\"27b02527-a576-46ee-b01c-bb4e694036c4\",\"message\":\"Por favor, assine o documento.\",\"sign_as\":\"sign\",\"signer_key\":\"79301388-9567-4320-90ce-9e6f60e70d28\"}";

fn client() -> Client {
    Client::new("some_access_token", Some("https://api.example.com/"))
}

fn value(text: &str) -> serde_json::Value {
    serde_json::from_str(text).unwrap()
}

fn response(status: u16, body: &str) -> HttpResponse {
    HttpResponse { status, headers: Vec::new(), body: body.to_string() }
}

fn the_only_key(body: &str) -> String {
    let parsed = value(body);
    let object = parsed.as_object().unwrap();
    assert_eq!(object.len(), 1);
    object.keys().next().unwrap().clone()
}

#[test]
fn the_endpoint_of_a_document_comes_from_its_template_key() {
    let document = read_document(
        "{\"document\": {\"path\": \"/x\", \"template\": {\"key\": \"tmpl-123\", \"data\": {}}}}",
    )
    .unwrap();
    let request = client().create_document_by_model(&document).unwrap();
    assert_eq!(
        request.url,
        "https://api.example.com/templates/tmpl-123/documents?access_token=some_access_token"
    );
    assert_eq!(request.url, client().build_url("templates/tmpl-123/documents"));
}

#[test]
fn a_document_is_sent_in_an_envelope_under_document() {
    let mut data = StringMap::new();
    data.insert("Company Name".to_string(), "Clicksign".to_string());
    let document = Document::new(
        "/Modelos/Teste-123.docx".to_string(),
        DocumentTemplate { key: "k".to_string(), data },
    );
    let request = client().create_document_by_model(&document).unwrap();
    assert_eq!(the_only_key(&request.body), "document");
    assert_eq!(request.content_type, "application/json");
    assert_eq!(
        request.body,
        "{\"document\":{\"path\":\"/Modelos/Teste-123.docx\",\"template\":{\"data\":{\"Company Name\":\"Clicksign\"},\"key\":\"k\"}}}"
    );
}

#[test]
fn the_helper_posts_to_the_address_it_is_given() {
    let document = Document::new(
        "/x".to_string(),
        DocumentTemplate { key: "k".to_string(), data: StringMap::new() },
    );
    let request =
        create_document_by_model_helper(&"http://localhost:1/anywhere".to_string(), &document).unwrap();
    assert_eq!(
        request,
        PostRequest {
            url: "http://localhost:1/anywhere".to_string(),
            content_type: "application/json".to_string(),
            body: "{\"document\":{\"path\":\"/x\",\"template\":{\"data\":{},\"key\":\"k\"}}}".to_string(),
        }
    );
}

#[test]
fn a_signer_is_sent_in_an_envelope_under_signer() {
    let signer = Signer::from_json(&value(SIGNER)).unwrap();
    let request = client().create_signer(&signer).unwrap();
    assert_eq!(request.url, "https://api.example.com/signers?access_token=some_access_token");
    assert_eq!(request.content_type, "application/json");
    assert_eq!(the_only_key(&request.body), "signer");
    assert_eq!(request.body, format!("{{\"signer\":{}}}", SIGNER));
}

#[test]
fn a_tie_is_sent_in_an_envelope_under_list() {
    let tie = SignerToDocument::from_json(&value(LIST)).unwrap();
    let request = client().add_signer_to_document(&tie).unwrap();
    assert_eq!(request.url, "https://api.example.com/lists?access_token=some_access_token");
    assert_eq!(request.content_type, "application/json");
    assert_eq!(the_only_key(&request.body), "list");
    assert_eq!(request.body, format!("{{\"list\":{}}}", LIST));
}

#[test]
fn a_signer_is_the_object_it_was_made_of() {
    let signer = Signer::from_json(&value(SIGNER)).unwrap();
    assert_eq!(signer.to_json(), value(SIGNER));
    assert_eq!(signer.clone().to_json(), value(SIGNER));
    let tie = SignerToDocument::from_json(&value(LIST)).unwrap();
    assert_eq!(tie.to_json(), value(LIST));
    assert_eq!(tie.clone().to_json(), value(LIST));
    let odd = Signer::from_json(&value("{\"n\": 1.5, \"deep\": {\"a\": [null, {}]}}")).unwrap();
    assert_eq!(odd.to_json(), value("{\"n\": 1.5, \"deep\": {\"a\": [null, {}]}}"));
}

#[test]
fn only_an_object_is_a_signer_or_a_tie() {
    for json in ["null", "true", "1", "\"x\"", "[]", "[{}]"] {
        assert!(Signer::from_json(&value(json)).is_none());
        assert!(SignerToDocument::from_json(&value(json)).is_none());
    }
    assert!(Signer::from_json(&value("{}")).is_some());
    assert!(SignerToDocument::from_json(&value("{}")).is_some());
}

#[test]
fn a_made_document_comes_back_from_a_success() {
    let body = "{\"document\":{\"key\":\"27b0\",\"path\":\"/x\",\"status\":\"running\",\"template\":{\"data\":{},\"key\":\"tmpl-123\"}}}";
    for status in [200u16, 201, 202] {
        let document = client().create_document_by_model_result(Ok(response(status, body))).unwrap();
        assert_eq!(document.key.as_deref(), Some("27b0"));
        assert_eq!(document.status.as_deref(), Some("running"));
        assert_eq!(document.path, "/x");
    }
}

#[test]
fn a_rejection_is_passed_on_as_it_is() {
    let body = "{\"document\":{\"path\":\"/x\",\"template\":{\"data\":{},\"key\":\"k\"}}}";
    assert_eq!(
        client().create_document_by_model_result(Ok(response(401, body))).unwrap_err(),
        ClientError::Rejection {
            kind: RejectionKind::Unauthorized,
            message: "401 Unauthorized".to_string()
        }
    );
    assert_eq!(
        client().create_signer_result(Ok(response(400, "name missing"))).unwrap_err(),
        ClientError::Rejection {
            kind: RejectionKind::BadRequest,
            message: "400 Bad Request: name missing".to_string()
        }
    );
    assert_eq!(
        client().add_signer_to_document_result(Ok(response(503, ""))).unwrap_err(),
        ClientError::Rejection {
            kind: RejectionKind::ServiceUnavailable,
            message: "503 Service Unavailable".to_string()
        }
    );
    assert!(matches!(
        client().create_signer_result(Ok(response(404, ""))).unwrap_err(),
        ClientError::Rejection { kind: RejectionKind::Unexpected, .. }
    ));
}

#[test]
fn a_failed_transport_is_passed_on_as_it_is() {
    let failure = ClientError::Transport("dns error".to_string());
    assert_eq!(
        client().create_document_by_model_result(Err("dns error".to_string())).unwrap_err(),
        failure
    );
    assert_eq!(client().create_signer_result(Err("dns error".to_string())).unwrap_err(), failure);
    assert_eq!(
        client().add_signer_to_document_result(Err("dns error".to_string())).unwrap_err(),
        failure
    );
    assert_eq!(
        client().request_signing_by_email_result(Err("dns error".to_string())).unwrap_err(),
        failure
    );
}

#[test]
fn a_success_with_a_body_that_does_not_fit_is_a_decode_failure() {
    assert_eq!(
        client().create_document_by_model_result(Ok(response(200, "<html>"))).unwrap_err(),
        ClientError::Decode(DecodeFailure::MalformedJson)
    );
    assert_eq!(
        client().create_document_by_model_result(Ok(response(200, "{\"document\":{}}"))).unwrap_err(),
        ClientError::Decode(DecodeFailure::SchemaMismatch)
    );
    assert_eq!(
        client().create_signer_result(Ok(response(201, ""))).unwrap_err(),
        ClientError::Decode(DecodeFailure::MalformedJson)
    );
    assert_eq!(
        client().create_signer_result(Ok(response(201, "{\"signer\":[]}"))).unwrap_err(),
        ClientError::Decode(DecodeFailure::SchemaMismatch)
    );
    assert_eq!(
        client().create_signer_result(Ok(response(201, "{\"list\":{}}"))).unwrap_err(),
        ClientError::Decode(DecodeFailure::SchemaMismatch)
    );
    assert_eq!(
        client().add_signer_to_document_result(Ok(response(202, "{\"signer\":{}}"))).unwrap_err(),
        ClientError::Decode(DecodeFailure::SchemaMismatch)
    );
}

#[test]
fn a_made_signer_and_a_made_tie_come_back_from_a_success() {
    let signer = client()
        .create_signer_result(Ok(response(201, &format!("{{\"signer\": {}}}", SIGNER))))
        .unwrap();
    assert_eq!(signer.to_json(), value(SIGNER));
    let tie = client()
        .add_signer_to_document_result(Ok(response(200, &format!("{{\"list\": {}}}", LIST))))
        .unwrap();
    assert_eq!(tie.to_json(), value(LIST));
    assert_eq!(read_signer(&format!("{{\"signer\": {}}}", SIGNER)).unwrap().to_json(), value(SIGNER));
    assert_eq!(
        read_signer_to_document(&format!("{{\"list\": {}}}", LIST)).unwrap().to_json(),
        value(LIST)
    );
}

#[test]
fn asking_by_email_sends_the_map_of_texts_without_an_envelope() {
    let request = client()
        .request_signing_by_email(
            "{\"request_signature_key\": \"0d5a9615\", \"message\": \"Prezado\", \"url\": \"https://www.example.com/abc\"}",
        )
        .unwrap();
    assert_eq!(request.url, "https://api.example.com/notifications?access_token=some_access_token");
    assert_eq!(request.content_type, "application/json");
    assert_eq!(
        request.body,
        "{\"message\":\"Prezado\",\"request_signature_key\":\"0d5a9615\",\"url\":\"https://www.example.com/abc\"}"
    );
    assert_eq!(client().request_signing_by_email("{}").unwrap().body, "{}");
}

#[test]
fn asking_by_email_turns_down_what_is_no_map_of_texts() {
    for body in ["", "{\"a\": ", "request"] {
        assert_eq!(
            client().request_signing_by_email(body).unwrap_err(),
            ClientError::Decode(DecodeFailure::MalformedJson)
        );
    }
    for body in ["[]", "null", "\"a\"", "{\"a\": 1}", "{\"a\": null}", "{\"a\": {\"b\": \"c\"}}"] {
        assert_eq!(
            client().request_signing_by_email(body).unwrap_err(),
            ClientError::Decode(DecodeFailure::SchemaMismatch)
        );
    }
}

#[test]
fn asking_by_email_gives_no_payload_on_a_success() {
    assert_eq!(client().request_signing_by_email_result(Ok(response(200, "{\"a\":1}"))), Ok(()));
    assert_eq!(client().request_signing_by_email_result(Ok(response(201, ""))), Ok(()));
    assert_eq!(client().request_signing_by_email_result(Ok(response(202, "not json"))), Ok(()));
}

#[test]
fn asking_by_email_passes_a_rejection_on() {
    let failure = client().request_signing_by_email_result(Ok(response(403, ""))).unwrap_err();
    assert_eq!(failure.message(), "403 Forbidden");
    assert_eq!(
        failure,
        ClientError::Rejection {
            kind: RejectionKind::Forbidden,
            message: "403 Forbidden".to_string()
        }
    );
    assert_eq!(
        client().request_signing_by_email_result(Ok(response(403, "no"))),
        client().response_handler(response(403, "no")).map(|_| ())
    );
    assert_eq!(
        client().request_signing_by_email_result(Ok(response(401, "x"))).unwrap_err().message(),
        "401 Unauthorized"
    );
    assert_eq!(
        client().request_signing_by_email_result(Ok(response(400, ""))).unwrap_err().message(),
        "400 Bad Request: "
    );
    assert_eq!(
        client().request_signing_by_email_result(Ok(response(500, ""))).unwrap_err().message(),
        "500 Internal Server Error"
    );
    assert_eq!(
        client().request_signing_by_email_result(Ok(response(503, ""))).unwrap_err().message(),
        "503 Service Unavailable"
    );
    assert!(matches!(
        client().request_signing_by_email_result(Ok(response(418, ""))).unwrap_err(),
        ClientError::Rejection { kind: RejectionKind::Unexpected, .. }
    ));
}

#[test]
fn the_whole_exchange_of_asking_by_email() {
    let client = Client::new("tok", Some("https://h.test/"));
    let request = client
        .request_signing_by_email("{\"request_signature_key\":\"k\",\"message\":\"m\",\"url\":\"u\"}")
        .unwrap();
    assert_eq!(request.url, "https://h.test/notifications?access_token=tok");
    assert_eq!(request.body, "{\"message\":\"m\",\"request_signature_key\":\"k\",\"url\":\"u\"}");
    let failure = client.request_signing_by_email_result(Ok(response(403, ""))).unwrap_err();
    assert_eq!(failure.message(), "403 Forbidden");
    assert_eq!(client.request_signing_by_email_result(Ok(response(200, ""))), Ok(()));
}

#[test]
fn an_envelope_has_one_member() {
    let inside = value("{\"a\": [1, \"b\"]}");
    let envelope = enclose("list", inside.clone());
    assert_eq!(envelope, value("{\"list\": {\"a\": [1, \"b\"]}}"));
    assert_eq!(enclosed("list", &envelope), Some(&inside));
    assert_eq!(enclosed("signer", &envelope), None);
    assert_eq!(enclosed("list", &value("{\"list\": 1, \"signer\": 2}")), None);
    assert_eq!(enclosed("list", &value("{}")), None);
    assert_eq!(enclosed("list", &value("[1]")), None);
    assert_eq!(enclosed("", &value("{\"\": null}")), Some(&serde_json::Value::Null));
}

#[test]
fn read_envelope_tells_malformed_from_mismatch() {
    assert_eq!(read_envelope("signer", "{\"signer\": 7}"), Ok(value("7")));
    assert_eq!(read_envelope("signer", "{\"signer\": 7"), Err(DecodeFailure::MalformedJson));
    assert_eq!(read_envelope("signer", "{\"list\": 7}"), Err(DecodeFailure::SchemaMismatch));
}

#[test]
fn a_post_is_made_of_a_written_body() {
    assert_eq!(
        post_of("u".to_string(), Some("{}".to_string())),
        Ok(PostRequest {
            url: "u".to_string(),
            content_type: "application/json".to_string(),
            body: "{}".to_string()
        })
    );
    assert_eq!(
        post_of("u".to_string(), None),
        Err(ClientError::Transport("the request body could not be written as JSON".to_string()))
    );
    assert_eq!(
        post_json("u".to_string(), &value("{\"b\": [true, null], \"a\": \"x\"}")).unwrap().body,
        "{\"a\":\"x\",\"b\":[true,null]}"
    );
}
