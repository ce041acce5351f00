//! The client and the four operations it offers.
//!
//! An operation is an exchange: one POST goes out, one response comes back.
//! The client does not send anything itself. For each operation it has two
//! functions: one makes the POST that is to be sent, the other takes what
//! came of sending it, the response or the transport's failure, and gives
//! the operation's result.

pub mod documents;

use crate::client::documents::{
    create_document_by_model_helper, document_json, json_document, Document, DocumentView,
};
use crate::envelope::{enclose, entity_in, envelope_json, read_envelope};
use crate::error::{result_view, ClientError, ClientErrorView, DecodeFailure};
use crate::http::{
    body_of, exchange_body, handle_response, json_post, outcome_view, post_json, response_outcome,
    HttpResponse, PostRequest,
};
use crate::json::{json_text, parse, parsed_json, Json};
use crate::models::signers::{Signer, SignerToDocument};
use crate::shape::{as_string_map, read_string_map, string_map_json, write_string_map};
use vstd::prelude::*;
use vstd::string::StringExecFns;

verus! {

/// The host of the service itself, for a client that is given no other.
pub const BASE_URL: &'static str = "https://app.clicksign.com/";

/// A client of the service: where the service is, and the token that lets
/// the client in.
#[derive(Clone, Debug)]
pub struct Client {
    /// The base of every address, up to and with the last `/`.
    pub host: String,
    /// The access token that the service gave out.
    pub access_token: String,
}

/// The address of an endpoint: the host, the endpoint and the access token
/// as a query parameter, put together as they are. Nothing is escaped.
pub open spec fn url_of(host: Seq<char>, endpoint: Seq<char>, access_token: Seq<char>) -> Seq<char> {
    host + endpoint + "?access_token="@ + access_token
}

/// The endpoint at which documents are made from a template.
pub open spec fn document_endpoint(template_key: Seq<char>) -> Seq<char> {
    "templates/"@ + template_key + "/documents"@
}

/// The document in the envelope that a text holds.
pub open spec fn document_in(body: Seq<char>) -> Result<DocumentView, ClientErrorView> {
    match entity_in("document"@, body) {
        Ok(entity) => match json_document(entity) {
            Some(document) => Ok(document),
            None => Err(ClientErrorView::Decode(DecodeFailure::SchemaMismatch)),
        },
        Err(failure) => Err(ClientErrorView::Decode(failure)),
    }
}

/// The JSON object in the envelope that a text holds under a key.
pub open spec fn object_in(key: Seq<char>, body: Seq<char>) -> Result<Json, ClientErrorView> {
    match entity_in(key, body) {
        Ok(entity) => if entity is Object {
            Ok(entity)
        } else {
            Err(ClientErrorView::Decode(DecodeFailure::SchemaMismatch))
        },
        Err(failure) => Err(ClientErrorView::Decode(failure)),
    }
}

/// What making a document comes to: the document in the body of a
/// success, or the failure of the exchange or of reading the body.
pub open spec fn document_result(outcome: Result<crate::http::HttpResponseView, Seq<char>>) -> Result<
    DocumentView,
    ClientErrorView,
> {
    match exchange_body(outcome) {
        Ok(body) => document_in(body),
        Err(failure) => Err(failure),
    }
}

/// What an exchange of JSON objects comes to: the object in the body of a
/// success, or the failure of the exchange or of reading the body.
pub open spec fn object_result(
    key: Seq<char>,
    outcome: Result<crate::http::HttpResponseView, Seq<char>>,
) -> Result<Json, ClientErrorView> {
    match exchange_body(outcome) {
        Ok(body) => object_in(key, body),
        Err(failure) => Err(failure),
    }
}

/// The POST that asks for a signature by e-mail: the map of texts that the
/// request holds, written again as JSON. A request that is not JSON, or not
/// an object of strings, has none.
pub open spec fn notification_post(url: Seq<char>, request: Seq<char>) -> Result<
    crate::http::PostRequestView,
    ClientErrorView,
> {
    match parsed_json(request) {
        Some(json) => match as_string_map(json) {
            Some(map) => json_post(url, json_text(string_map_json(map))),
            None => Err(ClientErrorView::Decode(DecodeFailure::SchemaMismatch)),
        },
        None => Err(ClientErrorView::Decode(DecodeFailure::MalformedJson)),
    }
}

/// Reads the document in the envelope that a text holds.
pub fn read_document(body: &str) -> (found: Result<Document, ClientError>)
    ensures
        result_view(found) == document_in(body@),
{
    match read_envelope("document", body) {
        Ok(entity) => match Document::from_json(&entity) {
            Some(document) => Ok(document),
            None => Err(ClientError::Decode(DecodeFailure::SchemaMismatch)),
        },
        Err(failure) => Err(ClientError::Decode(failure)),
    }
}

/// Reads the signer in the envelope that a text holds.
pub fn read_signer(body: &str) -> (found: Result<Signer, ClientError>)
    ensures
        result_view(found) == object_in("signer"@, body@),
{
    match read_envelope("signer", body) {
        Ok(entity) => match Signer::from_json(&entity) {
            Some(signer) => Ok(signer),
            None => Err(ClientError::Decode(DecodeFailure::SchemaMismatch)),
        },
        Err(failure) => Err(ClientError::Decode(failure)),
    }
}

/// Reads the tie between a signer and a document in the envelope that a
/// text holds.
pub fn read_signer_to_document(body: &str) -> (found: Result<SignerToDocument, ClientError>)
    ensures
        result_view(found) == object_in("list"@, body@),
{
    match read_envelope("list", body) {
        Ok(entity) => match SignerToDocument::from_json(&entity) {
            Some(tie) => Ok(tie),
            None => Err(ClientError::Decode(DecodeFailure::SchemaMismatch)),
        },
        Err(failure) => Err(ClientError::Decode(failure)),
    }
}

impl Client {
    /// A client with the access token given, for the host given or, where
    /// none is given, for the service itself.
    pub fn new(access_token: &str, host: Option<&str>) -> (client: Client)
        ensures
            client.access_token@ == access_token@,
            client.host@ == match host {
                Some(h) => h@,
                None => BASE_URL@,
            },
    {
        let host = match host {
            Some(h) => h.to_owned(),
            None => BASE_URL.to_owned(),
        };
        Client { host, access_token: access_token.to_owned() }
    }

    /// The address of an endpoint: host, endpoint, `?access_token=` and the
    /// token, one after the other and as they are.
    pub fn build_url(&self, endpoint: &str) -> (url: String)
        ensures
            url@ == url_of(self.host@, endpoint@, self.access_token@),
    {
        let mut url = self.host.clone();
        url.append(endpoint);
        url.append("?access_token=");
        url.append(self.access_token.as_str());
        url
    }

    /// Tells a response apart: the body where the status is 200, 201 or
    /// 202, and else the rejection that the status stands for.
    pub fn response_handler(&self, response: HttpResponse) -> (result: Result<String, ClientError>)
        ensures
            result_view(result) == response_outcome(response@),
    {
        handle_response(response)
    }

    /// The POST that makes a document from its template: to the template's
    /// endpoint, with the document in an envelope under `document`.
    pub fn create_document_by_model(&self, request_body: &Document) -> (planned: Result<
        PostRequest,
        ClientError,
    >)
        ensures
            result_view(planned) == json_post(
                url_of(
                    self.host@,
                    document_endpoint(request_body@.template.key),
                    self.access_token@,
                ),
                json_text(envelope_json("document"@, document_json(request_body@))),
            ),
    {
        let mut endpoint = String::from_str("templates/");
        endpoint.append(request_body.template.key.as_str());
        endpoint.append("/documents");
        let uri = self.build_url(endpoint.as_str());
        create_document_by_model_helper(&uri, request_body)
    }

    /// The document that was made, from what came of sending the POST.
    pub fn create_document_by_model_result(&self, outcome: Result<HttpResponse, String>) -> (result:
        Result<Document, ClientError>)
        ensures
            result_view(result) == document_result(outcome_view(outcome)),
    {
        match body_of(outcome) {
            Ok(body) => read_document(body.as_str()),
            Err(failure) => Err(failure),
        }
    }

    /// The POST that makes a signer: to `signers`, with the signer in an
    /// envelope under `signer`.
    pub fn create_signer(&self, request_body: &Signer) -> (planned: Result<PostRequest, ClientError>)
        ensures
            result_view(planned) == json_post(
                url_of(self.host@, "signers"@, self.access_token@),
                json_text(envelope_json("signer"@, request_body@)),
            ),
    {
        let url = self.build_url("signers");
        post_json(url, &enclose("signer", request_body.to_json()))
    }

    /// The signer that was made, from what came of sending the POST.
    pub fn create_signer_result(&self, outcome: Result<HttpResponse, String>) -> (result: Result<
        Signer,
        ClientError,
    >)
        ensures
            result_view(result) == object_result("signer"@, outcome_view(outcome)),
    {
        match body_of(outcome) {
            Ok(body) => read_signer(body.as_str()),
            Err(failure) => Err(failure),
        }
    }

    /// The POST that ties a signer to a document: to `lists`, with the tie
    /// in an envelope under `list`.
    pub fn add_signer_to_document(&self, request_body: &SignerToDocument) -> (planned: Result<
        PostRequest,
        ClientError,
    >)
        ensures
            result_view(planned) == json_post(
                url_of(self.host@, "lists"@, self.access_token@),
                json_text(envelope_json("list"@, request_body@)),
            ),
    {
        let url = self.build_url("lists");
        post_json(url, &enclose("list", request_body.to_json()))
    }

    /// The tie that was made, from what came of sending the POST.
    pub fn add_signer_to_document_result(&self, outcome: Result<HttpResponse, String>) -> (result:
        Result<SignerToDocument, ClientError>)
        ensures
            result_view(result) == object_result("list"@, outcome_view(outcome)),
    {
        match body_of(outcome) {
            Ok(body) => read_signer_to_document(body.as_str()),
            Err(failure) => Err(failure),
        }
    }

    /// The POST that asks a signer by e-mail to sign: to `notifications`,
    /// with the request's map of texts as it is, in no envelope. The request
    /// is a JSON object of strings; one that is not is turned down here.
    pub fn request_signing_by_email(&self, request_body: &str) -> (planned: Result<
        PostRequest,
        ClientError,
    >)
        ensures
            result_view(planned) == notification_post(
                url_of(self.host@, "notifications"@, self.access_token@),
                request_body@,
            ),
    {
        let value = match parse(request_body) {
            Ok(value) => value,
            Err(_) => {
                return Err(ClientError::Decode(DecodeFailure::MalformedJson));
            },
        };
        let map = match read_string_map(&value) {
            Some(map) => map,
            None => {
                return Err(ClientError::Decode(DecodeFailure::SchemaMismatch));
            },
        };
        let url = self.build_url("notifications");
        post_json(url, &write_string_map(&map))
    }

    /// Whether the signer was asked, from what came of sending the POST.
    /// The response is told apart by its status as any other, and a
    /// rejection or the transport's failure is passed on as it is. A
    /// success brings nothing back: its body is not read.
    pub fn request_signing_by_email_result(&self, outcome: Result<HttpResponse, String>) -> (result:
        Result<(), ClientError>)
        ensures
            match exchange_body(outcome_view(outcome)) {
                Ok(_) => result is Ok,
                Err(failure) => result matches Err(found) && found@ == failure,
            },
    {
        match body_of(outcome) {
            Ok(_) => Ok(()),
            Err(failure) => Err(failure),
        }
    }
}

} // verus!
