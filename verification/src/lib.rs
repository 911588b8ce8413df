//! Decision logic of a Slack bot that answers messages with time and weather
//! information: the Slack socket-mode protocol types, the acknowledgement and
//! reply rules, and the NLP service's answer. Network and process I/O live in
//! the application crate around this library.

pub mod bot;
pub mod config;
pub mod nlp;
pub mod slack;

mod json;
