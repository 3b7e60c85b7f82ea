//! Verified core of the finance-tracking back end: users, accounts, authentication
//! tokens, two-factor codes and the decisions that each use case takes between
//! the outside operations (storage, hashing, mail, HTTP) that a driver performs.
use vstd::prelude::*;

pub mod account_flows;
pub mod accounts;
pub mod auth_header;
pub mod clock;
pub mod error;
pub mod flow;
pub mod mail;
pub mod oauth;
pub mod oauth_flows;
pub mod password_flows;
pub mod registration_flows;
pub mod session_flows;
pub mod text;
pub mod tokens;
pub mod two_factor;
pub mod two_factor_flows;
pub mod user_flows;
pub mod users;

verus! {

} // verus!
