//! A chat-integrated calendar notification library: an upcoming-event query
//! engine over canonical `YYYYMMDDTHHMMSSZ` timestamps, a response formatter,
//! a sender-filtering policy, reminder-schedule validation, and a
//! join-with-backoff state machine.

pub mod commands;
pub mod config;
pub mod events;
pub mod format;
pub mod membership;
pub mod schedule;
pub mod text;
pub mod timestamp;
