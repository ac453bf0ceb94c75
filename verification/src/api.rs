//! The game API as the client sees it: the session, the requests it sends
//! and the answers it reads.

pub mod client;
pub mod credentials;
pub mod http;
pub mod login;
pub mod tavern;
pub mod types;
