//! Device-code sign-in for a headless client: protocol messages, the provider's
//! error vocabulary, the polling schedule and the flow's state machine.

pub mod auth;
pub mod error;
pub mod json;
pub mod utils;
