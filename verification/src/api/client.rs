//! The session and its credential store, and the step that turns every
//! answer of the API into a payload or an `ApiError`.

use crate::api::credentials::{
    credentials_record, file_credentials, keyring_credentials, stored_credentials, Credentials,
    CredentialsView, CredsError, CredsErrorView, KeyringRead,
};
use crate::api::http::{is_success, HttpResponse};
use crate::json::{
    json_document, lemma_member_doc_at, member_doc, parse, parsed_doc, read_member, read_text,
    shape_detail, text_at, FromJson, JsonDoc,
};
use crate::outcome::agrees;
use vstd::prelude::*;
use vstd::utf8::encode_utf8;

verus! {

/// A failure in the one shape that every caller sees, whether the network,
/// the decoding or the API itself reported it.
#[derive(Debug)]
pub struct ApiError {
    name: String,
    message: String,
}

pub struct ApiErrorView {
    pub name: Seq<char>,
    pub message: Seq<char>,
}

/// The body of an answer by which the API reports an error.
#[derive(Debug)]
pub struct ApiErrorResponse {
    pub error: ApiError,
}

pub struct ApiErrorResponseView {
    pub error: ApiErrorView,
}

impl View for ApiError {
    type V = ApiErrorView;

    closed spec fn view(&self) -> ApiErrorView {
        ApiErrorView { name: self.name@, message: self.message@ }
    }
}

impl View for ApiErrorResponse {
    type V = ApiErrorResponseView;

    open spec fn view(&self) -> ApiErrorResponseView {
        ApiErrorResponseView { error: self.error@ }
    }
}

/// The line by which an error is shown to the user.
pub open spec fn error_line(error: ApiErrorView) -> Seq<char> {
    error.name + ": "@ + error.message
}

/// The error for a request that did not get an answer.
pub open spec fn client_request_error(detail: Seq<char>) -> ApiErrorView {
    ApiErrorView { name: "ClientRequestError"@, message: detail }
}

/// The error for a body that does not decode.
pub open spec fn unexpected_json_error(detail: Seq<char>) -> ApiErrorView {
    ApiErrorView {
        name: "UnexpectedJsonError"@,
        message: "error decoding response body: "@ + detail,
    }
}

impl ApiError {
    pub fn new(name: &str, message: &str) -> (error: ApiError)
        ensures
            error@ == (ApiErrorView { name: name@, message: message@ }),
    {
        ApiError { name: name.to_owned(), message: message.to_owned() }
    }

    pub fn name(&self) -> (name: &str)
        ensures
            name@ == self@.name,
    {
        self.name.as_str()
    }

    pub fn message(&self) -> (message: &str)
        ensures
            message@ == self@.message,
    {
        self.message.as_str()
    }

    /// The line `name: message`, for the caller to print.
    pub fn print(&self) -> (line: String)
        ensures
            line@ == error_line(self@),
    {
        self.name.clone().concat(": ").concat(self.message.as_str())
    }

    /// The error for a request that did not get an answer.
    pub fn client_request(detail: &str) -> (error: ApiError)
        ensures
            error@ == client_request_error(detail@),
    {
        ApiError::new("ClientRequestError", detail)
    }

    /// The error for a body that does not decode. Its message is never empty.
    pub fn unexpected_json(detail: &str) -> (error: ApiError)
        ensures
            error@ == unexpected_json_error(detail@),
            error@.message.len() > 0,
    {
        proof {
            reveal_strlit("error decoding response body: ");
        }
        let message = String::from_str("error decoding response body: ").concat(detail);
        ApiError::new("UnexpectedJsonError", message.as_str())
    }
}

impl FromJson for ApiError {
    /// An error is an object with the strings `name` and `message`.
    open spec fn in_doc(doc: JsonDoc) -> Option<ApiErrorView> {
        match (text_at(doc, seq!["name"@]), text_at(doc, seq!["message"@])) {
            (Some(name), Some(message)) => Some(ApiErrorView { name, message }),
            _ => None,
        }
    }

    fn from_json(value: &serde_json::Value) -> (decoded: Option<ApiError>) {
        let name = read_text(value, "name");
        let message = read_text(value, "message");
        match (name, message) {
            (Some(name), Some(message)) => Some(ApiError { name, message }),
            _ => None,
        }
    }

    proof fn lemma_empty_doc_holds_none() {
    }
}

impl FromJson for ApiErrorResponse {
    /// An error report is an object with the error `error`.
    open spec fn in_doc(doc: JsonDoc) -> Option<ApiErrorResponseView> {
        match ApiError::in_doc(member_doc(doc, "error"@)) {
            Some(error) => Some(ApiErrorResponseView { error }),
            None => None,
        }
    }

    fn from_json(value: &serde_json::Value) -> (decoded: Option<ApiErrorResponse>) {
        match read_member::<ApiError>(value, "error") {
            Some(error) => Some(ApiErrorResponse { error }),
            None => None,
        }
    }

    proof fn lemma_empty_doc_holds_none() {
    }
}

/// What a body that was parsed decodes to: the value that the document holds,
/// or the error for a body that does not decode.
pub open spec fn decoded<T: FromJson>(parsed: Result<JsonDoc, Seq<char>>) -> Result<
    T::V,
    ApiErrorView,
> {
    match parsed {
        Ok(doc) => match T::in_doc(doc) {
            Some(value) => Ok(value),
            None => Err(unexpected_json_error(shape_detail())),
        },
        Err(detail) => Err(unexpected_json_error(detail)),
    }
}

/// What an answer with this status and this body is to the caller. With a
/// status in the success range the body is decoded as the payload. With any
/// other status it is decoded as an error report, whose error is handed on.
pub open spec fn unwrapped<T: FromJson>(status: u16, parsed: Result<JsonDoc, Seq<char>>) -> Result<
    T::V,
    ApiErrorView,
> {
    if is_success(status) {
        decoded::<T>(parsed)
    } else {
        match decoded::<ApiErrorResponse>(parsed) {
            Ok(report) => Err(report.error),
            Err(error) => Err(error),
        }
    }
}

/// Decodes a parsed body as a `T`.
pub fn decode_parsed<T: FromJson>(parsed: &Result<serde_json::Value, String>) -> (answer: Result<
    T,
    ApiError,
>)
    ensures
        agrees(answer, decoded::<T>(parsed_doc(*parsed))),
{
    match parsed {
        Ok(value) => match T::from_json(value) {
            Some(payload) => Ok(payload),
            None => {
                Err(ApiError::unexpected_json("missing or mistyped field"))
            },
        },
        Err(detail) => Err(ApiError::unexpected_json(detail.as_str())),
    }
}

/// Turns a status and a parsed body into the payload or the error.
pub fn unwrap_parsed<T: FromJson>(
    status: u16,
    parsed: Result<serde_json::Value, String>,
) -> (answer: Result<T, ApiError>)
    ensures
        agrees(answer, unwrapped::<T>(status, parsed_doc(parsed))),
{
    if !(200 <= status && status <= 299) {
        return match decode_parsed::<ApiErrorResponse>(&parsed) {
            Ok(report) => Err(report.error),
            Err(error) => Err(error),
        };
    }
    decode_parsed::<T>(&parsed)
}

/// With a status outside the success range and a body that is an error
/// report, the answer is the reported error, name and message unchanged.
pub proof fn lemma_reported_error_is_handed_on<T: FromJson>(
    status: u16,
    doc: JsonDoc,
    name: Seq<char>,
    message: Seq<char>,
)
    requires
        !is_success(status),
        text_at(doc, seq!["error"@, "name"@]) == Some(name),
        text_at(doc, seq!["error"@, "message"@]) == Some(message),
    ensures
        unwrapped::<T>(status, Ok(doc)) matches Err(error) && error == (ApiErrorView {
            name,
            message,
        }),
{
    lemma_member_doc_at(doc, "error"@, seq!["name"@]);
    lemma_member_doc_at(doc, "error"@, seq!["message"@]);
    assert(seq!["error"@] + seq!["name"@] =~= seq!["error"@, "name"@]);
    assert(seq!["error"@] + seq!["message"@] =~= seq!["error"@, "message"@]);
}

/// With a status in the success range and a body that does not decode as the
/// payload, the answer is an `UnexpectedJsonError` whose message is not
/// empty.
pub proof fn lemma_undecodable_payload_is_unexpected_json<T: FromJson>(
    status: u16,
    parsed: Result<JsonDoc, Seq<char>>,
)
    requires
        is_success(status),
        parsed matches Ok(doc) ==> T::in_doc(doc) is None,
    ensures
        unwrapped::<T>(status, parsed) matches Err(error) && error.name == "UnexpectedJsonError"@
            && error.message.len() > 0,
{
    reveal_strlit("error decoding response body: ");
}

/// The session: the base URL of the API, the tokens that are held, and
/// whether credentials were loaded when the session was made.
pub struct ApiClient {
    has_creds: bool,
    api_base_url: String,
    access_token: Option<String>,
    refresh_token: Option<String>,
}

pub struct ApiClientView {
    /// Whether the load at construction succeeded. Nothing changes it later.
    pub has_creds: bool,
    pub api_base_url: Seq<char>,
    pub access_token: Option<Seq<char>>,
    pub refresh_token: Option<Seq<char>>,
}

impl View for ApiClient {
    type V = ApiClientView;

    closed spec fn view(&self) -> ApiClientView {
        ApiClientView {
            has_creds: self.has_creds,
            api_base_url: self.api_base_url@,
            access_token: self.access_token.deep_view(),
            refresh_token: self.refresh_token.deep_view(),
        }
    }
}

/// The session that is made for `api_base_url` when loading gave `loaded`:
/// with credentials it holds both tokens, without them none.
pub open spec fn session_after(
    api_base_url: Seq<char>,
    loaded: Result<CredentialsView, CredsErrorView>,
) -> ApiClientView {
    match loaded {
        Ok(credentials) => ApiClientView {
            has_creds: true,
            api_base_url,
            access_token: Some(credentials.access_token),
            refresh_token: Some(credentials.refresh_token),
        },
        Err(_) => ApiClientView {
            has_creds: false,
            api_base_url,
            access_token: None,
            refresh_token: None,
        },
    }
}

/// The session that holds the loaded credentials in place of its tokens.
pub open spec fn with_credentials(
    session: ApiClientView,
    credentials: CredentialsView,
) -> ApiClientView {
    ApiClientView {
        access_token: Some(credentials.access_token),
        refresh_token: Some(credentials.refresh_token),
        ..session
    }
}

/// The credentials that a session has to save: both tokens, or nothing.
pub open spec fn held_credentials(session: ApiClientView) -> Option<CredentialsView> {
    match (session.access_token, session.refresh_token) {
        (Some(access_token), Some(refresh_token)) => Some(
            CredentialsView { access_token, refresh_token },
        ),
        _ => None,
    }
}

impl ApiClient {
    #[verifier::type_invariant]
    spec fn loaded_means_held(&self) -> bool {
        self.has_creds ==> self.access_token is Some && self.refresh_token is Some
    }

    /// Makes the session of a client that keeps its credentials in the
    /// secure store. `read` is what the store answered for the entry.
    pub fn new(api_base_url: &str, read: KeyringRead) -> (client: ApiClient)
        ensures
            client@ == session_after(api_base_url@, keyring_credentials(read)),
            keyring_credentials(read) is Err ==> !client@.has_creds && client@.access_token is None
                && client@.refresh_token is None,
    {
        let mut client = ApiClient {
            has_creds: false,
            api_base_url: api_base_url.to_owned(),
            access_token: None,
            refresh_token: None,
        };
        let creds = client.load_creds_from_keyring(read);
        match creds {
            Ok(_) => {
                client.has_creds = true;
            },
            Err(_) => {
                client.has_creds = false;
            },
        }
        client
    }

    /// Makes the session of a client that keeps its credentials in a file.
    /// `read` is what the file holds, or why it could not be read.
    pub fn new_with_creds_file(api_base_url: &str, read: Result<Vec<u8>, String>) -> (client:
        ApiClient)
        ensures
            client@ == session_after(api_base_url@, file_credentials(read)),
            file_credentials(read) is Err ==> !client@.has_creds && client@.access_token is None
                && client@.refresh_token is None,
    {
        let mut client = ApiClient {
            has_creds: false,
            api_base_url: api_base_url.to_owned(),
            access_token: None,
            refresh_token: None,
        };
        let creds = client.load_creds_from_config_file(read);
        match creds {
            Ok(_) => {
                client.has_creds = true;
            },
            Err(_) => {
                client.has_creds = false;
            },
        }
        client
    }

    /// Whether credentials were loaded when the session was made. A session
    /// of which this holds has both tokens.
    pub fn has_creds(&self) -> (loaded: bool)
        ensures
            loaded == self@.has_creds,
            loaded ==> self@.access_token is Some && self@.refresh_token is Some,
    {
        proof {
            use_type_invariant(self);
        }
        self.has_creds
    }

    pub fn access_token(&self) -> (token: Option<&str>)
        ensures
            token.deep_view() == self@.access_token,
    {
        match &self.access_token {
            Some(token) => Some(token.as_str()),
            None => None,
        }
    }

    pub fn refresh_token(&self) -> (token: Option<&str>)
        ensures
            token.deep_view() == self@.refresh_token,
    {
        match &self.refresh_token {
            Some(token) => Some(token.as_str()),
            None => None,
        }
    }

    /// The absolute URL of `path`: the base URL with `path` behind it, as
    /// both stand.
    pub fn url(&self, path: &str) -> (url: String)
        ensures
            url@ == self@.api_base_url + path@,
    {
        self.api_base_url.clone().concat(path)
    }

    /// Turns the status and the body of an answer into the payload or the
    /// error.
    pub fn unwrap_api_response<T: FromJson>(&self, status: u16, body: &[u8]) -> (answer: Result<
        T,
        ApiError,
    >)
        ensures
            agrees(answer, unwrapped::<T>(status, json_document(body@))),
    {
        unwrap_parsed(status, parse(body))
    }

    /// Takes what sending a request gave: the response, or the detail of the
    /// transport's failure, which becomes a `ClientRequestError`.
    pub fn receive<T: FromJson>(&self, sent: Result<HttpResponse, String>) -> (answer: Result<
        T,
        ApiError,
    >)
        ensures
            agrees(answer, received::<T>(sent)),
    {
        match sent {
            Ok(response) => match response.body {
                Ok(body) => self.unwrap_api_response(response.status, body.as_slice()),
                Err(detail) => unwrap_parsed(response.status, Err(detail)),
            },
            Err(detail) => Err(ApiError::client_request(detail.as_str())),
        }
    }

    pub fn set_access_token(&mut self, access_token: &str)
        ensures
            final(self)@ == (ApiClientView { access_token: Some(access_token@), ..old(self)@ }),
    {
        proof {
            use_type_invariant(&*self);
        }
        self.access_token = Some(access_token.to_owned());
    }

    pub fn set_refresh_token(&mut self, refresh_token: &str)
        ensures
            final(self)@ == (ApiClientView { refresh_token: Some(refresh_token@), ..old(self)@ }),
    {
        proof {
            use_type_invariant(&*self);
        }
        self.refresh_token = Some(refresh_token.to_owned());
    }

    /// The record to put into the credential store, if there is anything to
    /// save: a session that lacks a token saves nothing, and that is no
    /// error. A record that comes out holds the two tokens: loading it gives
    /// them back as they are.
    pub fn save_creds_to_keyring(&self) -> (record: Result<Option<String>, CredsError>)
        ensures
            match held_credentials(self@) {
                Some(credentials) => match credentials_record(credentials) {
                    Ok(text) => record matches Ok(Some(r)) && r@ == text,
                    Err(error) => record matches Err(e) && e@ == error,
                },
                None => record matches Ok(None),
            },
            record matches Ok(Some(r)) ==> (stored_credentials(r@) matches Ok(kept) && Some(kept)
                == held_credentials(self@)),
    {
        match (&self.access_token, &self.refresh_token) {
            (Some(access_token), Some(refresh_token)) => {
                let credentials = Credentials {
                    access_token: access_token.clone(),
                    refresh_token: refresh_token.clone(),
                };
                match credentials.encode() {
                    Ok(record) => Ok(Some(record)),
                    Err(error) => Err(error),
                }
            },
            _ => Ok(None),
        }
    }

    /// Takes what the secure store answered and, where it holds
    /// credentials, puts their tokens into the session.
    pub fn load_creds_from_keyring(&mut self, read: KeyringRead) -> (loaded: Result<(), CredsError>)
        ensures
            match keyring_credentials(read) {
                Ok(credentials) => loaded is Ok && final(self)@ == with_credentials(
                    old(self)@,
                    credentials,
                ),
                Err(error) => loaded matches Err(e) && e@ == error && final(self)@ == old(self)@,
            },
    {
        let creds = match read {
            KeyringRead::Found(record) => Credentials::decode(record.as_str()),
            KeyringRead::NoEntry => Err(CredsError::NotFound),
            KeyringRead::Failed(detail) => Err(CredsError::BackendError(detail)),
        };
        self.take_loaded(creds)
    }

    /// Takes what reading the credentials file gave and, where it holds
    /// credentials, puts their tokens into the session.
    pub fn load_creds_from_config_file(&mut self, read: Result<Vec<u8>, String>) -> (loaded: Result<
        (),
        CredsError,
    >)
        ensures
            match file_credentials(read) {
                Ok(credentials) => loaded is Ok && final(self)@ == with_credentials(
                    old(self)@,
                    credentials,
                ),
                Err(error) => loaded matches Err(e) && e@ == error && final(self)@ == old(self)@,
            },
    {
        let creds = match read {
            Ok(contents) => Credentials::decode_bytes(contents.as_slice()),
            Err(detail) => Err(CredsError::IoError(detail)),
        };
        self.take_loaded(creds)
    }

    fn take_loaded(&mut self, creds: Result<Credentials, CredsError>) -> (loaded: Result<
        (),
        CredsError,
    >)
        ensures
            match creds {
                Ok(credentials) => loaded is Ok && final(self)@ == with_credentials(
                    old(self)@,
                    credentials@,
                ),
                Err(error) => loaded matches Err(e) && e@ == error@ && final(self)@ == old(self)@,
            },
    {
        match creds {
            Ok(credentials) => {
                self.set_access_token(credentials.access_token.as_str());
                self.set_refresh_token(credentials.refresh_token.as_str());
                Ok(())
            },
            Err(error) => Err(error),
        }
    }
}

/// What the body of a response parses to. A body that could not be read
/// counts as one that does not parse.
pub open spec fn body_document(body: Result<Vec<u8>, String>) -> Result<JsonDoc, Seq<char>> {
    match body {
        Ok(bytes) => json_document(bytes@),
        Err(detail) => Err(detail@),
    }
}

/// What sending a request gave, as the caller of the API sees it: without a
/// response a `ClientRequestError`, with one what its status and body make.
pub open spec fn received<T: FromJson>(sent: Result<HttpResponse, String>) -> Result<
    T::V,
    ApiErrorView,
> {
    match sent {
        Ok(response) => unwrapped::<T>(response.status, body_document(response.body)),
        Err(detail) => Err(client_request_error(detail@)),
    }
}

/// The two backends load alike: a record that holds credentials makes the
/// same session whether the secure store hands it out or a file holds it,
/// written in UTF-8, and that session has both tokens as the record has them.
pub proof fn lemma_record_loads_alike_from_either_backend(
    api_base_url: Seq<char>,
    record: String,
    contents: Vec<u8>,
    credentials: CredentialsView,
)
    requires
        stored_credentials(record@) matches Ok(kept) && kept == credentials,
        contents@ == encode_utf8(record@),
    ensures
        session_after(api_base_url, keyring_credentials(KeyringRead::Found(record)))
            == session_after(api_base_url, file_credentials(Ok(contents))),
        session_after(api_base_url, file_credentials(Ok(contents))) == (ApiClientView {
            has_creds: true,
            api_base_url,
            access_token: Some(credentials.access_token),
            refresh_token: Some(credentials.refresh_token),
        }),
{
}

} // verus!
