//! Follows topic streams of a real-time content API, survives the API's failure and
//! rate-limit signals, and turns the messages that arrive into scored, time-stamped samples.
//!
//! The library holds the rules: the reconnect policy and the state machine of a managed
//! stream, the pipeline that treats a decoded message, the append-only series of each topic,
//! and the supervisor that keeps the topics apart. Connections, timers and the decoding of
//! payloads are the caller's part: the caller tells the library what it saw and does what the
//! library answers.

pub mod config;
pub mod scraper;
pub mod tweet;
