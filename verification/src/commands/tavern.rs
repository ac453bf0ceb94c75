//! The command `tavern`: one authenticated request, and a greeting.

use crate::api::client::{error_line, received, ApiClient, ApiClientView};
use crate::api::http::HttpResponse;
use crate::api::tavern::{tavern_request_view, TavernResponse};
use crate::commands::{Action, ActionView};
use vstd::prelude::*;

verus! {

/// Where the command stands.
#[derive(Clone, Copy, Debug, PartialEq, Eq, Structural)]
pub enum TavernState {
    /// Not yet invoked.
    Start,
    /// The request is on its way.
    RequestSent,
    /// The command has printed its line. Nothing follows.
    Done,
}

/// What the driver hands in.
#[derive(Debug)]
pub enum TavernEvent {
    /// The user invoked the command.
    Invoked,
    /// Sending the request gave this: the response, or the detail of the
    /// transport's failure.
    Responded(Result<HttpResponse, String>),
}

/// The notice for a user who has no credentials.
pub open spec fn not_logged_in_notice() -> Seq<char> {
    "You are not logged in. Please login first."@
}

/// The greeting for the character of this name.
pub open spec fn greeting(name: Seq<char>) -> Seq<char> {
    "Welcome to the tavern, "@ + name + "!"@
}

/// The step of the command. Invoked without credentials it prints the notice
/// and is done, with nothing sent. Invoked with credentials it sends the
/// tavern request. Of the outcome it prints the greeting or the error, and is
/// done. An event that the state does not await changes nothing.
pub open spec fn tavern_step(session: ApiClientView, state: TavernState, event: TavernEvent) -> (
    TavernState,
    ActionView,
) {
    match (state, event) {
        (TavernState::Start, TavernEvent::Invoked) => match session.access_token {
            Some(token) if session.has_creds => (
                TavernState::RequestSent,
                ActionView::Send(tavern_request_view(session.api_base_url, token)),
            ),
            _ => (TavernState::Done, ActionView::Print(not_logged_in_notice())),
        },
        (TavernState::RequestSent, TavernEvent::Responded(sent)) => match received::<
            TavernResponse,
        >(sent) {
            Ok(payload) => (
                TavernState::Done,
                ActionView::Print(greeting(payload.user.character.name)),
            ),
            Err(error) => (TavernState::Done, ActionView::Print(error_line(error))),
        },
        _ => (state, ActionView::Nothing),
    }
}

/// Runs one step of the command. A request is sent at most once, from the
/// start and only by a session that loaded credentials; nothing is saved.
pub fn run(api_client: &ApiClient, state: TavernState, event: TavernEvent) -> (step: (
    TavernState,
    Action,
))
    ensures
        step.0 == tavern_step(api_client@, state, event).0,
        step.1@ == tavern_step(api_client@, state, event).1,
        state == TavernState::Start && event is Invoked && !api_client@.has_creds ==> step.0
            == TavernState::Done && step.1@ == ActionView::Print(not_logged_in_notice()),
        state == TavernState::Done ==> step.0 == TavernState::Done && step.1@
            == ActionView::Nothing,
        step.1 is Send ==> state == TavernState::Start && step.0 == TavernState::RequestSent
            && api_client@.has_creds,
        step.1 is Print ==> step.0 == TavernState::Done,
        !(step.1 is Save),
{
    match (state, event) {
        (TavernState::Start, TavernEvent::Invoked) => {
            let request = if api_client.has_creds() {
                api_client.tavern_request()
            } else {
                None
            };
            match request {
                Some(request) => (TavernState::RequestSent, Action::Send(request)),
                None => (
                    TavernState::Done,
                    Action::Print(String::from_str("You are not logged in. Please login first.")),
                ),
            }
        },
        (TavernState::RequestSent, TavernEvent::Responded(sent)) => {
            match api_client.tavern(sent) {
                Ok(tavern_response) => {
                    let line = String::from_str("Welcome to the tavern, ").concat(
                        tavern_response.user.character.name.as_str(),
                    ).concat("!");
                    (TavernState::Done, Action::Print(line))
                },
                Err(e) => (TavernState::Done, Action::Print(e.print())),
            }
        },
        (state, _) => (state, Action::Nothing),
    }
}

} // verus!
