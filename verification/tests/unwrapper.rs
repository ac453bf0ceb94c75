use cligame::api::client::{decode_parsed, unwrap_parsed, ApiClient, ApiError, ApiErrorResponse};
use cligame::api::credentials::KeyringRead;
use cligame::api::http::{HttpMethod, HttpResponse};
use cligame::api::login::LoginResponse;
use cligame::api::tavern::TavernResponse;
use cligame::api::types::{ApiCharacter, ApiUser};
use cligame::json::{read_member, read_text, read_u32, FromJson};

const USER: &str = "{\"id\":\"u1\",\"email\":\"a@b.com\",\
    \"character\":{\"name\":\"Bob\",\"money\":42},\
    \"createdAt\":\"2024-01-01\",\"updatedAt\":\"2024-01-02\"}";

fn client() -> ApiClient {
    ApiClient::new("http://localhost:3000", KeyringRead::NoEntry)
}

fn login_body() -> String {
    format!(r#"{{"user":{},"tokens":{{"accessToken":"AT1","refreshToken":"RT1"}}}}"#, USER)
}

fn tavern_body() -> String {
    format!(r#"{{"user":{}}}"#, USER)
}

fn assert_error<T: std::fmt::Debug>(answer: Result<T, ApiError>, name: &str, message: &str) {
    match answer {
        Err(error) => {
            assert_eq!(error.name(), name);
            assert_eq!(error.message(), message);
        }
        Ok(payload) => panic!("unexpected payload: {:?}", payload),
    }
}

#[test]
fn api_error_new_keeps_name_and_message() {
    let error = ApiError::new("Unauthorized", "token expired");
    assert_eq!(error.name(), "Unauthorized");
    assert_eq!(error.message(), "token expired");
    assert_eq!(error.print(), "Unauthorized: token expired");
    assert_eq!(ApiError::new("", "").print(), ": ");
}

#[test]
fn api_error_constructors_name_the_failure() {
    let transport = ApiError::client_request("connection refused");
    assert_eq!(transport.print(), "ClientRequestError: connection refused");
    let decode = ApiError::unexpected_json("");
    assert_eq!(decode.name(), "UnexpectedJsonError");
    assert_eq!(decode.message(), "error decoding response body: ");
}

#[test]
fn error_status_with_error_body_returns_that_error() {
    let body = br#"{"error":{"name":"Unauthorized","message":"token expired"}}"#;
    let answer = client().unwrap_api_response::<TavernResponse>(401, body);
    assert_error(answer, "Unauthorized", "token expired");
    let answer = client().unwrap_api_response::<LoginResponse>(500, body);
    assert_error(answer, "Unauthorized", "token expired");
    let odd = r#"{"error":{"message":"","name":"Ünï \"q\"","code":7},"other":null}"#;
    let answer = client().unwrap_api_response::<TavernResponse>(404, odd.as_bytes());
    assert_error(answer, "Ünï \"q\"", "");
}

#[test]
fn error_status_with_other_body_is_unexpected_json() {
    assert_error(
        client().unwrap_api_response::<TavernResponse>(500, b"<html>oops</html>"),
        "UnexpectedJsonError",
        "error decoding response body: expected value at line 1 column 1",
    );
    assert_error(
        client().unwrap_api_response::<TavernResponse>(500, b""),
        "UnexpectedJsonError",
        "error decoding response body: EOF while parsing a value at line 1 column 0",
    );
    assert_error(
        client().unwrap_api_response::<TavernResponse>(403, br#"{"error":{"name":"Forbidden"}}"#),
        "UnexpectedJsonError",
        "error decoding response body: missing or mistyped field",
    );
    assert_error(
        client().unwrap_api_response::<TavernResponse>(403, br#"{"error":"Forbidden"}"#),
        "UnexpectedJsonError",
        "error decoding response body: missing or mistyped field",
    );
}

#[test]
fn error_status_never_returns_a_payload() {
    let body = tavern_body();
    assert_error(
        client().unwrap_api_response::<TavernResponse>(404, body.as_bytes()),
        "UnexpectedJsonError",
        "error decoding response body: missing or mistyped field",
    );
}

#[test]
fn success_status_with_payload_returns_it() {
    let body = login_body();
    let login = client()
        .unwrap_api_response::<LoginResponse>(200, body.as_bytes())
        .expect("payload");
    assert_eq!(login.get_access_token(), "AT1");
    assert_eq!(login.get_refresh_token(), "RT1");
    assert_eq!(login.user.id, "u1");
    assert_eq!(login.user.email, "a@b.com");
    assert_eq!(login.user.character.name, "Bob");
    assert_eq!(login.user.character.money, 42);
    assert_eq!(login.user.created_at, "2024-01-01");
    assert_eq!(login.user.updated_at, "2024-01-02");
    let body = tavern_body();
    let tavern = client()
        .unwrap_api_response::<TavernResponse>(299, body.as_bytes())
        .expect("payload");
    assert_eq!(tavern.user.character.name, "Bob");
}

#[test]
fn success_status_with_undecodable_body_is_unexpected_json() {
    let bodies: [&[u8]; 6] = [
        b"",
        b"{",
        b"\xff\xfe",
        br#"{"user":{"id":"u1"}}"#,
        br#"{"error":{"name":"Unauthorized","message":"token expired"}}"#,
        br#"[1,2,3]"#,
    ];
    for body in bodies {
        match client().unwrap_api_response::<TavernResponse>(200, body) {
            Err(error) => {
                assert_eq!(error.name(), "UnexpectedJsonError");
                assert!(!error.message().is_empty());
                assert!(error.message().starts_with("error decoding response body: "));
            }
            Ok(payload) => panic!("unexpected payload: {:?}", payload),
        }
    }
}

#[test]
fn success_range_is_200_to_299() {
    let error_body = br#"{"error":{"name":"E","message":"m"}}"#;
    for status in [0u16, 100, 199, 300, 301, 404, 999, u16::MAX] {
        assert_error(client().unwrap_api_response::<TavernResponse>(status, error_body), "E", "m");
        assert!(!HttpResponse { status, body: Ok(Vec::new()) }.succeeded());
    }
    let body = tavern_body();
    for status in [200u16, 201, 204, 250, 299] {
        assert!(client().unwrap_api_response::<TavernResponse>(status, body.as_bytes()).is_ok());
        assert!(HttpResponse { status, body: Ok(Vec::new()) }.succeeded());
    }
}

#[test]
fn unwrap_parsed_takes_the_parser_outcome() {
    let report = r#"{"error":{"name":"N","message":"M"}}"#;
    let value = serde_json::from_str::<serde_json::Value>(report).expect("json");
    assert_error(unwrap_parsed::<TavernResponse>(400, Ok(value)), "N", "M");
    assert_error(
        unwrap_parsed::<TavernResponse>(400, Err("boom".to_string())),
        "UnexpectedJsonError",
        "error decoding response body: boom",
    );
    assert_error(
        unwrap_parsed::<TavernResponse>(200, Err("boom".to_string())),
        "UnexpectedJsonError",
        "error decoding response body: boom",
    );
    let value = serde_json::from_str::<serde_json::Value>(&tavern_body()).expect("json");
    let payload = unwrap_parsed::<TavernResponse>(200, Ok(value)).expect("payload");
    assert_eq!(payload.user.email, "a@b.com");
    let value = serde_json::from_str::<serde_json::Value>(report).expect("json");
    let report = decode_parsed::<ApiErrorResponse>(&Ok(value)).expect("report");
    assert_eq!(report.error.print(), "N: M");
}

#[test]
fn transport_failure_is_a_client_request_error() {
    assert_error(
        client().receive::<TavernResponse>(Err("connection refused".to_string())),
        "ClientRequestError",
        "connection refused",
    );
    assert_error(client().login(Err("dns".to_string())), "ClientRequestError", "dns");
    assert_error(client().tavern(Err(String::new())), "ClientRequestError", "");
}

#[test]
fn received_response_is_unwrapped() {
    let response = HttpResponse { status: 200, body: Ok(login_body().into_bytes()) };
    let login = client().login(Ok(response)).expect("payload");
    assert_eq!(login.get_access_token(), "AT1");
    let response = HttpResponse {
        status: 401,
        body: Ok(br#"{"error":{"name":"Unauthorized","message":"token expired"}}"#.to_vec()),
    };
    assert_error(client().tavern(Ok(response)), "Unauthorized", "token expired");
}

#[test]
fn unreadable_body_is_unexpected_json_whatever_the_status() {
    for status in [200u16, 401, 500] {
        let response = HttpResponse { status, body: Err("connection reset".to_string()) };
        assert_error(
            client().tavern(Ok(response)),
            "UnexpectedJsonError",
            "error decoding response body: connection reset",
        );
    }
}

#[test]
fn login_request_posts_the_credentials_as_json() {
    let request = client().login_request("a@b.com", "x").expect("request");
    assert_eq!(request.method, HttpMethod::Post);
    assert_eq!(request.url, "http://localhost:3000/auth/login");
    assert_eq!(request.authorization, None);
    assert_eq!(request.json.as_deref(), Some(r#"{"email":"a@b.com","password":"x"}"#));
    let request = client().login_request("q\"uote", "p\\w\n").expect("request");
    assert_eq!(request.json.as_deref(), Some(r#"{"email":"q\"uote","password":"p\\w\n"}"#));
}

#[test]
fn login_request_with_takes_the_printer_outcome() {
    let request = client().login_request_with(Ok("{}".to_string())).expect("request");
    assert_eq!(request.method, HttpMethod::Post);
    assert_eq!(request.url, "http://localhost:3000/auth/login");
    assert_eq!(request.json.as_deref(), Some("{}"));
    assert_error(client().login_request_with(Err("no".to_string())), "ClientRequestError", "no");
}

#[test]
fn tavern_request_carries_the_bearer_token() {
    assert!(client().tavern_request().is_none());
    let mut with_token = client();
    with_token.set_access_token("AT1");
    let request = with_token.tavern_request().expect("request");
    assert_eq!(request.method, HttpMethod::Get);
    assert_eq!(request.url, "http://localhost:3000/tavern");
    assert_eq!(request.authorization.as_deref(), Some("Bearer AT1"));
    assert_eq!(request.json, None);
}

#[test]
fn url_joins_base_and_path_as_they_stand() {
    let plain = ApiClient::new("http://h", KeyringRead::NoEntry);
    assert_eq!(plain.url("/tavern"), "http://h/tavern");
    assert_eq!(plain.url("tavern"), "http://htavern");
    assert_eq!(plain.url(""), "http://h");
    let slashed = ApiClient::new("http://h/", KeyringRead::NoEntry);
    assert_eq!(slashed.url("/tavern"), "http://h//tavern");
}

#[test]
fn character_money_is_a_32_bit_unsigned_integer() {
    let decode = |text: &str| {
        let value = serde_json::from_str::<serde_json::Value>(text).expect("json");
        ApiCharacter::from_json(&value).map(|character| character.money)
    };
    assert_eq!(decode(r#"{"name":"Bob","money":0}"#), Some(0));
    assert_eq!(decode(r#"{"name":"Bob","money":4294967295}"#), Some(u32::MAX));
    assert_eq!(decode(r#"{"name":"Bob","money":4294967296}"#), None);
    assert_eq!(decode(r#"{"name":"Bob","money":18446744073709551615}"#), None);
    assert_eq!(decode(r#"{"name":"Bob","money":-1}"#), None);
    assert_eq!(decode(r#"{"name":"Bob","money":1.0}"#), None);
    assert_eq!(decode(r#"{"name":"Bob","money":"7"}"#), None);
    assert_eq!(decode(r#"{"name":"Bob"}"#), None);
    assert_eq!(decode(r#"{"money":7}"#), None);
}

#[test]
fn user_needs_every_member() {
    let value = serde_json::from_str::<serde_json::Value>(USER).expect("json");
    assert!(ApiUser::from_json(&value).is_some());
    for key in ["id", "email", "character", "createdAt", "updatedAt"] {
        let mut value = serde_json::from_str::<serde_json::Value>(USER).expect("json");
        value.as_object_mut().expect("object").remove(key);
        assert!(ApiUser::from_json(&value).is_none(), "without {}", key);
    }
    let renamed = USER.replace("createdAt", "created_at");
    let value = serde_json::from_str::<serde_json::Value>(&renamed).expect("json");
    assert!(ApiUser::from_json(&value).is_none());
}

#[test]
fn readers_look_under_the_key_only() {
    let value = serde_json::from_str::<serde_json::Value>(
        r#"{"a":"x","n":5,"inner":{"a":"y","name":"Bob","money":1},"list":["a"]}"#,
    )
    .expect("json");
    assert_eq!(read_text(&value, "a").as_deref(), Some("x"));
    assert_eq!(read_text(&value, "n"), None);
    assert_eq!(read_text(&value, "inner"), None);
    assert_eq!(read_text(&value, "missing"), None);
    assert_eq!(read_text(&value, "name"), None);
    assert_eq!(read_u32(&value, "n"), Some(5));
    assert_eq!(read_u32(&value, "a"), None);
    assert_eq!(read_u32(&value, "money"), None);
    let inner = read_member::<ApiCharacter>(&value, "inner").expect("character");
    assert_eq!(inner.name, "Bob");
    assert_eq!(inner.money, 1);
    assert!(read_member::<ApiCharacter>(&value, "list").is_none());
    assert!(read_member::<ApiCharacter>(&value, "a").is_none());
    assert!(read_member::<ApiCharacter>(&value, "missing").is_none());
    let text = serde_json::Value::String("a".to_string());
    assert_eq!(read_text(&text, "a"), None);
}
