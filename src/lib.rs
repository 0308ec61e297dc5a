//! Verified core of a messaging backend: input validation, one-time codes and
//! reset tokens, expiry arithmetic, and the decision logic of the account,
//! friendship and messaging endpoints.

pub mod validation;
pub mod clock;
pub mod secrets;
pub mod models;
pub mod flow;
pub mod auth;
pub mod friends;
pub mod messaging;
pub mod laws;
