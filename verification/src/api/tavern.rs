//! Visiting the tavern: the one request that needs the access token.

use crate::api::client::{received, ApiClient, ApiError};
use crate::outcome::agrees;
use crate::api::http::{HttpMethod, HttpRequest, HttpRequestView, HttpResponse};
use crate::api::types::{ApiUser, ApiUserView};
use crate::json::{member_doc, read_member, FromJson, JsonDoc};
use vstd::prelude::*;

verus! {

/// The payload of a visit to the tavern.
#[derive(Debug)]
pub struct TavernResponse {
    pub user: ApiUser,
}

pub struct TavernResponseView {
    pub user: ApiUserView,
}

impl View for TavernResponse {
    type V = TavernResponseView;

    open spec fn view(&self) -> TavernResponseView {
        TavernResponseView { user: self.user@ }
    }
}

impl FromJson for TavernResponse {
    /// A tavern payload is an object with the user `user`.
    open spec fn in_doc(doc: JsonDoc) -> Option<TavernResponseView> {
        match ApiUser::in_doc(member_doc(doc, "user"@)) {
            Some(user) => Some(TavernResponseView { user }),
            None => None,
        }
    }

    fn from_json(value: &serde_json::Value) -> (decoded: Option<TavernResponse>) {
        match read_member::<ApiUser>(value, "user") {
            Some(user) => Some(TavernResponse { user }),
            None => None,
        }
    }

    proof fn lemma_empty_doc_holds_none() {
        ApiUser::lemma_empty_doc_holds_none();
    }
}

/// The tavern request of a client at `api_base_url` that holds the access
/// token `token`.
pub open spec fn tavern_request_view(api_base_url: Seq<char>, token: Seq<char>) -> HttpRequestView {
    HttpRequestView {
        method: HttpMethod::Get,
        url: api_base_url + "/tavern"@,
        authorization: Some("Bearer "@ + token),
        json: None,
    }
}

impl ApiClient {
    /// The tavern request: a GET of `/tavern` that carries the access token
    /// as a bearer token. A session without an access token has no such
    /// request.
    pub fn tavern_request(&self) -> (request: Option<HttpRequest>)
        ensures
            match self@.access_token {
                Some(token) => request matches Some(r) && r@ == tavern_request_view(
                    self@.api_base_url,
                    token,
                ),
                None => request is None,
            },
    {
        match self.access_token() {
            Some(token) => Some(
                HttpRequest {
                    method: HttpMethod::Get,
                    url: self.url("/tavern"),
                    authorization: Some(String::from_str("Bearer ").concat(token)),
                    json: None,
                },
            ),
            None => None,
        }
    }

    /// Takes what sending the tavern request gave and hands on the payload
    /// or the error.
    pub fn tavern(&self, sent: Result<HttpResponse, String>) -> (answer: Result<
        TavernResponse,
        ApiError,
    >)
        ensures
            agrees(answer, received::<TavernResponse>(sent)),
    {
        self.receive::<TavernResponse>(sent)
    }
}

} // verus!
