//! Requests and responses as plain values. Whoever drives the client sends
//! the one and hands back the other.

use vstd::prelude::*;

verus! {

/// The two request methods that the client uses.
#[derive(Clone, Copy, Debug, PartialEq, Eq, Structural)]
pub enum HttpMethod {
    Get,
    Post,
}

/// A request to be sent. A request with a `json` body is sent with the
/// content type `application/json`.
#[derive(Debug)]
pub struct HttpRequest {
    pub method: HttpMethod,
    /// The absolute URL.
    pub url: String,
    /// The value of the `Authorization` header, if the request carries one.
    pub authorization: Option<String>,
    /// The JSON text of the body, if the request has one.
    pub json: Option<String>,
}

pub struct HttpRequestView {
    pub method: HttpMethod,
    pub url: Seq<char>,
    pub authorization: Option<Seq<char>>,
    pub json: Option<Seq<char>>,
}

impl View for HttpRequest {
    type V = HttpRequestView;

    open spec fn view(&self) -> HttpRequestView {
        HttpRequestView {
            method: self.method,
            url: self.url@,
            authorization: self.authorization.deep_view(),
            json: self.json.deep_view(),
        }
    }
}

/// A response that arrived: its status code and its body.
#[derive(Debug)]
pub struct HttpResponse {
    pub status: u16,
    /// The bytes of the body, or the detail of the failure to read them.
    pub body: Result<Vec<u8>, String>,
}

/// The status codes of the success range.
pub open spec fn is_success(status: u16) -> bool {
    200 <= status <= 299
}

impl HttpResponse {
    /// Whether the status is in the success range, 200 to 299.
    pub fn succeeded(&self) -> (yes: bool)
        ensures
            yes == is_success(self.status),
    {
        200 <= self.status && self.status <= 299
    }
}

} // verus!
