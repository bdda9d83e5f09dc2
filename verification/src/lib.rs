//! Detection core for a sandbagging watchdog on a chess platform.
//!
//! The library holds the verified logic of the scanner: transcript analysis,
//! score thresholds, the tier classifier, rating-limit parsing, the retry
//! backoff schedule, and the framing of the newline-delimited results feed.
//! Network transport, configuration loading and message delivery live outside
//! the library and hand it plain values.

pub mod game_visitor;
pub mod lichess;
pub mod score;
pub mod setting;
pub mod util;
pub mod zulip;
