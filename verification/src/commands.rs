//! The two commands, each as a machine that is driven from outside: the
//! driver hands in what happened, the command says what to do next.

use crate::api::http::{HttpRequest, HttpRequestView};
use vstd::prelude::*;

pub mod login;
pub mod tavern;

verus! {

/// What a command asks its driver to do.
#[derive(Debug)]
pub enum Action {
    /// Send this request and hand back what came of it.
    Send(HttpRequest),
    /// Put this record into the credential store and hand back what came of
    /// it.
    Save(String),
    /// Print this line on standard output.
    Print(String),
    /// Nothing: the event was not awaited.
    Nothing,
}

pub enum ActionView {
    Send(HttpRequestView),
    Save(Seq<char>),
    Print(Seq<char>),
    Nothing,
}

impl View for Action {
    type V = ActionView;

    open spec fn view(&self) -> ActionView {
        match self {
            Action::Send(request) => ActionView::Send(request@),
            Action::Save(record) => ActionView::Save(record@),
            Action::Print(line) => ActionView::Print(line@),
            Action::Nothing => ActionView::Nothing,
        }
    }
}

} // verus!
