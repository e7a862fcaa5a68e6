//! A local OAuth2 authorization-code flow for a chat-bot launcher: the
//! listener's callback rules, the coordinator's state machine and the
//! command-line settings that start it, all verified.

pub mod auth_state;
pub mod callback;
pub mod flags;
pub mod flow;
pub mod relay;
pub mod settings;
