//! The credentials of a session and the record by which a credential store
//! keeps them: the compact JSON text of an object with the two tokens.

use crate::json::{
    json_document, json_pair_text, pair_doc, parse, parsed_doc, print_pair, read_text,
    shape_detail, text_at, FromJson, JsonDoc,
};
use crate::outcome::agrees;
use vstd::prelude::*;
use vstd::utf8::encode_utf8;

verus! {

/// The two tokens of a session, as the credential store keeps them.
#[derive(Debug)]
pub struct Credentials {
    pub access_token: String,
    pub refresh_token: String,
}

pub struct CredentialsView {
    pub access_token: Seq<char>,
    pub refresh_token: Seq<char>,
}

impl View for Credentials {
    type V = CredentialsView;

    open spec fn view(&self) -> CredentialsView {
        CredentialsView { access_token: self.access_token@, refresh_token: self.refresh_token@ }
    }
}

/// Why the credential store did not load or save.
#[derive(Debug)]
pub enum CredsError {
    /// The secure store holds no entry.
    NotFound,
    /// The secure store is not available, or refused.
    BackendError(String),
    /// The credentials file is missing or cannot be read.
    IoError(String),
    /// The stored record is not a credentials object.
    DecodeError(String),
    /// The credentials could not be written down as a record.
    EncodeError(String),
}

pub enum CredsErrorView {
    NotFound,
    BackendError(Seq<char>),
    IoError(Seq<char>),
    DecodeError(Seq<char>),
    EncodeError(Seq<char>),
}

impl View for CredsError {
    type V = CredsErrorView;

    open spec fn view(&self) -> CredsErrorView {
        match self {
            CredsError::NotFound => CredsErrorView::NotFound,
            CredsError::BackendError(detail) => CredsErrorView::BackendError(detail@),
            CredsError::IoError(detail) => CredsErrorView::IoError(detail@),
            CredsError::DecodeError(detail) => CredsErrorView::DecodeError(detail@),
            CredsError::EncodeError(detail) => CredsErrorView::EncodeError(detail@),
        }
    }
}

/// The text by which a failure of the credential store is shown.
pub open spec fn creds_error_text(error: CredsErrorView) -> Seq<char> {
    match error {
        CredsErrorView::NotFound => "No matching entry found in secure storage"@,
        CredsErrorView::BackendError(detail) => detail,
        CredsErrorView::IoError(detail) => detail,
        CredsErrorView::DecodeError(detail) => detail,
        CredsErrorView::EncodeError(detail) => detail,
    }
}

impl CredsError {
    /// The text by which the failure is shown: its detail, where it has one.
    pub fn describe(&self) -> (text: String)
        ensures
            text@ == creds_error_text(self@),
    {
        match self {
            CredsError::NotFound => String::from_str("No matching entry found in secure storage"),
            CredsError::BackendError(detail) => detail.clone(),
            CredsError::IoError(detail) => detail.clone(),
            CredsError::DecodeError(detail) => detail.clone(),
            CredsError::EncodeError(detail) => detail.clone(),
        }
    }
}

/// What the secure store answered when it was asked for the entry.
#[derive(Debug)]
pub enum KeyringRead {
    /// The entry exists and holds this record.
    Found(String),
    /// There is no entry.
    NoEntry,
    /// The store failed, with this detail.
    Failed(String),
}

impl FromJson for Credentials {
    /// Credentials are an object with the strings `access_token` and
    /// `refresh_token`. Without either there are none.
    open spec fn in_doc(doc: JsonDoc) -> Option<CredentialsView> {
        match (text_at(doc, seq!["access_token"@]), text_at(doc, seq!["refresh_token"@])) {
            (Some(access_token), Some(refresh_token)) => Some(
                CredentialsView { access_token, refresh_token },
            ),
            _ => None,
        }
    }

    fn from_json(value: &serde_json::Value) -> (decoded: Option<Credentials>) {
        let access_token = read_text(value, "access_token");
        let refresh_token = read_text(value, "refresh_token");
        match (access_token, refresh_token) {
            (Some(access_token), Some(refresh_token)) => Some(
                Credentials { access_token, refresh_token },
            ),
            _ => None,
        }
    }

    proof fn lemma_empty_doc_holds_none() {
    }
}

/// The credentials that a parsed record holds.
pub open spec fn record_credentials(parsed: Result<JsonDoc, Seq<char>>) -> Result<
    CredentialsView,
    CredsErrorView,
> {
    match parsed {
        Ok(doc) => match Credentials::in_doc(doc) {
            Some(credentials) => Ok(credentials),
            None => Err(CredsErrorView::DecodeError(shape_detail())),
        },
        Err(detail) => Err(CredsErrorView::DecodeError(detail)),
    }
}

/// The credentials that a stored record holds: the record is read as JSON
/// text in UTF-8.
pub open spec fn stored_credentials(record: Seq<char>) -> Result<CredentialsView, CredsErrorView> {
    record_credentials(json_document(encode_utf8(record)))
}

/// The record by which credentials are stored, or why there is none.
pub open spec fn credentials_record(credentials: CredentialsView) -> Result<
    Seq<char>,
    CredsErrorView,
> {
    match json_pair_text(
        "access_token"@,
        credentials.access_token,
        "refresh_token"@,
        credentials.refresh_token,
    ) {
        Ok(record) => Ok(record),
        Err(detail) => Err(CredsErrorView::EncodeError(detail)),
    }
}

/// What loading from the secure store yields.
pub open spec fn keyring_credentials(read: KeyringRead) -> Result<CredentialsView, CredsErrorView> {
    match read {
        KeyringRead::Found(record) => stored_credentials(record@),
        KeyringRead::NoEntry => Err(CredsErrorView::NotFound),
        KeyringRead::Failed(detail) => Err(CredsErrorView::BackendError(detail@)),
    }
}

/// What loading from a credentials file yields. `read` is what the file
/// holds, or why it could not be read.
pub open spec fn file_credentials(read: Result<Vec<u8>, String>) -> Result<
    CredentialsView,
    CredsErrorView,
> {
    match read {
        Ok(contents) => record_credentials(json_document(contents@)),
        Err(detail) => Err(CredsErrorView::IoError(detail@)),
    }
}

/// The document of a credentials record holds these credentials.
pub proof fn lemma_pair_doc_holds_credentials(credentials: CredentialsView)
    ensures
        Credentials::in_doc(
            pair_doc(
                "access_token"@,
                credentials.access_token,
                "refresh_token"@,
                credentials.refresh_token,
            ),
        ) == Some(credentials),
{
    reveal_strlit("access_token");
    reveal_strlit("refresh_token");
    let first = seq!["access_token"@];
    let second = seq!["refresh_token"@];
    assert(first[0].len() != second[0].len());
    assert(first != second);
}

impl Credentials {
    /// Reads credentials out of a parsed record.
    pub fn from_parsed(parsed: Result<serde_json::Value, String>) -> (loaded: Result<
        Credentials,
        CredsError,
    >)
        ensures
            agrees(loaded, record_credentials(parsed_doc(parsed))),
    {
        match parsed {
            Ok(value) => match Credentials::from_json(&value) {
                Some(credentials) => Ok(credentials),
                None => Err(CredsError::DecodeError(String::from_str("missing or mistyped field"))),
            },
            Err(detail) => Err(CredsError::DecodeError(detail)),
        }
    }

    /// Reads credentials out of the bytes of a stored record.
    pub fn decode_bytes(record: &[u8]) -> (loaded: Result<Credentials, CredsError>)
        ensures
            agrees(loaded, record_credentials(json_document(record@))),
    {
        Credentials::from_parsed(parse(record))
    }

    /// Reads credentials out of a stored record.
    pub fn decode(record: &str) -> (loaded: Result<Credentials, CredsError>)
        ensures
            agrees(loaded, stored_credentials(record@)),
    {
        Credentials::decode_bytes(record.as_bytes())
    }

    /// Takes what printing the record gave and hands on the record, or the
    /// error for a record that could not be written down.
    pub fn from_printed(printed: Result<String, String>) -> (record: Result<String, CredsError>)
        ensures
            match printed {
                Ok(text) => record matches Ok(r) && r@ == text@,
                Err(detail) => record matches Err(e) && e@ == CredsErrorView::EncodeError(detail@),
            },
    {
        match printed {
            Ok(text) => Ok(text),
            Err(detail) => Err(CredsError::EncodeError(detail)),
        }
    }

    /// Writes the credentials down as the record that the store keeps: the
    /// compact JSON text of the object with the two tokens. A record that
    /// comes out decodes to these credentials again.
    pub fn encode(&self) -> (record: Result<String, CredsError>)
        ensures
            match credentials_record(self@) {
                Ok(text) => record matches Ok(r) && r@ == text,
                Err(error) => record matches Err(e) && e@ == error,
            },
            record matches Ok(r) ==> (stored_credentials(r@) matches Ok(kept) && kept == self@),
    {
        proof {
            lemma_pair_doc_holds_credentials(self@);
        }
        Credentials::from_printed(
            print_pair(
                "access_token",
                self.access_token.as_str(),
                "refresh_token",
                self.refresh_token.as_str(),
            ),
        )
    }
}

} // verus!
