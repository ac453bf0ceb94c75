//! The command `login`: one request, and on success the tokens are taken
//! into the session and handed to the credential store.

use crate::api::client::{error_line, received, with_credentials, ApiClient, ApiClientView};
use crate::api::credentials::{creds_error_text, credentials_record, CredentialsView};
use crate::api::http::HttpResponse;
use crate::api::login::{login_request_for, LoginResponse};
use crate::commands::{Action, ActionView};
use vstd::prelude::*;

verus! {

/// Where the command stands.
#[derive(Debug)]
pub enum LoginState {
    /// Not yet invoked.
    Start,
    /// The request is on its way.
    RequestSent,
    /// The tokens are in the session and their record is on its way to the
    /// credential store. `email` is the user who logged in.
    Saving { email: String },
    /// The command has printed its line. Nothing follows.
    Done,
}

pub enum LoginStateView {
    Start,
    RequestSent,
    Saving { email: Seq<char> },
    Done,
}

impl View for LoginState {
    type V = LoginStateView;

    open spec fn view(&self) -> LoginStateView {
        match self {
            LoginState::Start => LoginStateView::Start,
            LoginState::RequestSent => LoginStateView::RequestSent,
            LoginState::Saving { email } => LoginStateView::Saving { email: email@ },
            LoginState::Done => LoginStateView::Done,
        }
    }
}

/// What the driver hands in.
#[derive(Debug)]
pub enum LoginEvent {
    /// The user invoked the command with this email and this password.
    Invoked { email: String, password: String },
    /// Sending the request gave this: the response, or the detail of the
    /// transport's failure.
    Responded(Result<HttpResponse, String>),
    /// Saving the record gave this: success, or the detail of the store's
    /// failure.
    Saved(Result<(), String>),
}

/// The line that confirms a login.
pub open spec fn logged_in_line(email: Seq<char>) -> Seq<char> {
    "Logged in as "@ + email
}

/// The line that reports that the credentials were not saved.
pub open spec fn save_failed_line(detail: Seq<char>) -> Seq<char> {
    "Failed to save credentials to file: "@ + detail
}

/// The step of the command: the session, the state and the action that
/// follow. Invoked, it sends the login request. Of a failure it prints the
/// error and is done, the session unchanged. Of a success it takes both
/// tokens into the session and hands their record to the credential store.
/// When the store has answered it prints the confirmation, or the failure to
/// save, which leaves the tokens in the session. An event that the state does
/// not await changes nothing.
pub open spec fn login_step(session: ApiClientView, state: LoginState, event: LoginEvent) -> (
    ApiClientView,
    LoginStateView,
    ActionView,
) {
    match (state, event) {
        (LoginState::Start, LoginEvent::Invoked { email, password }) => match login_request_for(
            session.api_base_url,
            email@,
            password@,
        ) {
            Ok(request) => (session, LoginStateView::RequestSent, ActionView::Send(request)),
            Err(error) => (session, LoginStateView::Done, ActionView::Print(error_line(error))),
        },
        (LoginState::RequestSent, LoginEvent::Responded(sent)) => match received::<LoginResponse>(
            sent,
        ) {
            Ok(payload) => {
                let tokens = CredentialsView {
                    access_token: payload.tokens.access_token,
                    refresh_token: payload.tokens.refresh_token,
                };
                let session = with_credentials(session, tokens);
                match credentials_record(tokens) {
                    Ok(record) => (
                        session,
                        LoginStateView::Saving { email: payload.user.email },
                        ActionView::Save(record),
                    ),
                    Err(error) => (
                        session,
                        LoginStateView::Done,
                        ActionView::Print(save_failed_line(creds_error_text(error))),
                    ),
                }
            },
            Err(error) => (session, LoginStateView::Done, ActionView::Print(error_line(error))),
        },
        (LoginState::Saving { email }, LoginEvent::Saved(saved)) => match saved {
            Ok(_) => (session, LoginStateView::Done, ActionView::Print(logged_in_line(email@))),
            Err(detail) => (
                session,
                LoginStateView::Done,
                ActionView::Print(save_failed_line(detail@)),
            ),
        },
        _ => (session, state@, ActionView::Nothing),
    }
}

/// Runs one step of the command. A request is sent at most once, from the
/// start, and a record is saved at most once, after the request was answered.
/// The flag `has_creds` of the session stays as it was.
pub fn run(api_client: &mut ApiClient, state: LoginState, event: LoginEvent) -> (step: (
    LoginState,
    Action,
))
    ensures
        final(api_client)@ == login_step(old(api_client)@, state, event).0,
        step.0@ == login_step(old(api_client)@, state, event).1,
        step.1@ == login_step(old(api_client)@, state, event).2,
        final(api_client)@.has_creds == old(api_client)@.has_creds,
        state is Done ==> step.0 is Done && step.1 is Nothing && final(api_client)@ == old(
            api_client,
        )@,
        step.1 is Send ==> state is Start && step.0 is RequestSent,
        step.1 is Save ==> state is RequestSent && step.0 is Saving,
        step.1 is Print ==> step.0 is Done,
{
    match (state, event) {
        (LoginState::Start, LoginEvent::Invoked { email, password }) => {
            match api_client.login_request(email.as_str(), password.as_str()) {
                Ok(request) => (LoginState::RequestSent, Action::Send(request)),
                Err(e) => (LoginState::Done, Action::Print(e.print())),
            }
        },
        (LoginState::RequestSent, LoginEvent::Responded(sent)) => {
            let login_response = match api_client.login(sent) {
                Ok(login_response) => login_response,
                Err(e) => {
                    return (LoginState::Done, Action::Print(e.print()));
                },
            };
            api_client.set_access_token(login_response.get_access_token());
            api_client.set_refresh_token(login_response.get_refresh_token());
            match api_client.save_creds_to_keyring() {
                Ok(Some(record)) => (
                    LoginState::Saving { email: login_response.user.email },
                    Action::Save(record),
                ),
                Ok(None) => (
                    LoginState::Done,
                    Action::Print(
                        String::from_str("Logged in as ").concat(
                            login_response.user.email.as_str(),
                        ),
                    ),
                ),
                Err(error) => (
                    LoginState::Done,
                    Action::Print(
                        String::from_str("Failed to save credentials to file: ").concat(
                            error.describe().as_str(),
                        ),
                    ),
                ),
            }
        },
        (LoginState::Saving { email }, LoginEvent::Saved(saved)) => {
            match saved {
                Ok(_) => (
                    LoginState::Done,
                    Action::Print(String::from_str("Logged in as ").concat(email.as_str())),
                ),
                Err(detail) => (
                    LoginState::Done,
                    Action::Print(
                        String::from_str("Failed to save credentials to file: ").concat(
                            detail.as_str(),
                        ),
                    ),
                ),
            }
        },
        (state, _) => (state, Action::Nothing),
    }
}

} // verus!
