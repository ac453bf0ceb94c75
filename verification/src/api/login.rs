//! Logging in: the request that carries the email and the password, and the
//! answer that carries the user and the tokens.

use crate::api::client::{client_request_error, received, ApiClient, ApiError, ApiErrorView};
use crate::outcome::agrees;
use crate::api::http::{HttpMethod, HttpRequest, HttpRequestView, HttpResponse};
use crate::api::types::{ApiUser, ApiUserView};
use crate::json::{
    json_document, json_pair_text, member_doc, pair_doc, print_pair, read_member, read_text,
    text_at, FromJson, JsonDoc,
};
use vstd::prelude::*;
use vstd::utf8::encode_utf8;

verus! {

/// The payload of a successful login.
#[derive(Debug)]
pub struct LoginResponse {
    pub user: ApiUser,
    pub tokens: LoginResponseTokens,
}

/// The tokens of a login: the members `accessToken` and `refreshToken`.
#[derive(Debug)]
pub struct LoginResponseTokens {
    access_token: String,
    refresh_token: String,
}

pub struct LoginResponseView {
    pub user: ApiUserView,
    pub tokens: LoginResponseTokensView,
}

pub struct LoginResponseTokensView {
    pub access_token: Seq<char>,
    pub refresh_token: Seq<char>,
}

impl View for LoginResponseTokens {
    type V = LoginResponseTokensView;

    closed spec fn view(&self) -> LoginResponseTokensView {
        LoginResponseTokensView {
            access_token: self.access_token@,
            refresh_token: self.refresh_token@,
        }
    }
}

impl View for LoginResponse {
    type V = LoginResponseView;

    open spec fn view(&self) -> LoginResponseView {
        LoginResponseView { user: self.user@, tokens: self.tokens@ }
    }
}

impl FromJson for LoginResponseTokens {
    /// The tokens are an object with the strings `accessToken` and
    /// `refreshToken`.
    open spec fn in_doc(doc: JsonDoc) -> Option<LoginResponseTokensView> {
        match (text_at(doc, seq!["accessToken"@]), text_at(doc, seq!["refreshToken"@])) {
            (Some(access_token), Some(refresh_token)) => Some(
                LoginResponseTokensView { access_token, refresh_token },
            ),
            _ => None,
        }
    }

    fn from_json(value: &serde_json::Value) -> (decoded: Option<LoginResponseTokens>) {
        let access_token = read_text(value, "accessToken");
        let refresh_token = read_text(value, "refreshToken");
        match (access_token, refresh_token) {
            (Some(access_token), Some(refresh_token)) => Some(
                LoginResponseTokens { access_token, refresh_token },
            ),
            _ => None,
        }
    }

    proof fn lemma_empty_doc_holds_none() {
    }
}

impl FromJson for LoginResponse {
    /// A login payload is an object with the user `user` and the tokens
    /// `tokens`.
    open spec fn in_doc(doc: JsonDoc) -> Option<LoginResponseView> {
        match (
            ApiUser::in_doc(member_doc(doc, "user"@)),
            LoginResponseTokens::in_doc(member_doc(doc, "tokens"@)),
        ) {
            (Some(user), Some(tokens)) => Some(LoginResponseView { user, tokens }),
            _ => None,
        }
    }

    fn from_json(value: &serde_json::Value) -> (decoded: Option<LoginResponse>) {
        let user = read_member::<ApiUser>(value, "user");
        let tokens = read_member::<LoginResponseTokens>(value, "tokens");
        match (user, tokens) {
            (Some(user), Some(tokens)) => Some(LoginResponse { user, tokens }),
            _ => None,
        }
    }

    proof fn lemma_empty_doc_holds_none() {
        ApiUser::lemma_empty_doc_holds_none();
    }
}

impl LoginResponse {
    pub fn get_access_token(&self) -> (token: &str)
        ensures
            token@ == self@.tokens.access_token,
    {
        self.tokens.access_token.as_str()
    }

    pub fn get_refresh_token(&self) -> (token: &str)
        ensures
            token@ == self@.tokens.refresh_token,
    {
        self.tokens.refresh_token.as_str()
    }
}

/// The login request of a client at `api_base_url` whose body is `body`.
pub open spec fn login_request_view(api_base_url: Seq<char>, body: Seq<char>) -> HttpRequestView {
    HttpRequestView {
        method: HttpMethod::Post,
        url: api_base_url + "/auth/login"@,
        authorization: None,
        json: Some(body),
    }
}

/// The login request for this email and this password, or the error where
/// the body could not be written down.
pub open spec fn login_request_for(
    api_base_url: Seq<char>,
    email: Seq<char>,
    password: Seq<char>,
) -> Result<HttpRequestView, ApiErrorView> {
    match json_pair_text("email"@, email, "password"@, password) {
        Ok(body) => Ok(login_request_view(api_base_url, body)),
        Err(detail) => Err(client_request_error(detail)),
    }
}

impl ApiClient {
    /// Takes what printing the body gave and makes the login request of it:
    /// a POST to `/auth/login` without authorization. A body that could not
    /// be printed is a `ClientRequestError`.
    pub fn login_request_with(&self, printed: Result<String, String>) -> (request: Result<
        HttpRequest,
        ApiError,
    >)
        ensures
            match printed {
                Ok(body) => request matches Ok(r) && r@ == login_request_view(
                    self@.api_base_url,
                    body@,
                ),
                Err(detail) => request matches Err(e) && e@ == client_request_error(detail@),
            },
    {
        match printed {
            Ok(body) => Ok(
                HttpRequest {
                    method: HttpMethod::Post,
                    url: self.url("/auth/login"),
                    authorization: None,
                    json: Some(body),
                },
            ),
            Err(detail) => Err(ApiError::client_request(detail.as_str())),
        }
    }

    /// The login request for this email and this password. Its body is the
    /// JSON text of an object that holds the two, as `email` and `password`.
    pub fn login_request(&self, email: &str, password: &str) -> (request: Result<
        HttpRequest,
        ApiError,
    >)
        ensures
            agrees(request, login_request_for(self@.api_base_url, email@, password@)),
            request matches Ok(r) ==> (r@.json matches Some(body) && json_document(
                encode_utf8(body),
            ) matches Ok(doc) && doc == pair_doc("email"@, email@, "password"@, password@)),
    {
        self.login_request_with(print_pair("email", email, "password", password))
    }

    /// Takes what sending the login request gave and hands on the payload or
    /// the error.
    pub fn login(&self, sent: Result<HttpResponse, String>) -> (answer: Result<
        LoginResponse,
        ApiError,
    >)
        ensures
            agrees(answer, received::<LoginResponse>(sent)),
    {
        self.receive::<LoginResponse>(sent)
    }
}

} // verus!
