//! Client-side core of the `cligame` command line: the credential lifecycle,
//! the requests sent to the game API and the normalisation of its answers.

pub mod api;
pub mod commands;
pub mod json;
pub mod outcome;
