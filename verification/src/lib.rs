//! Routing core of a topic splitter: every record read from one source topic
//! is republished, byte for byte, to a destination topic named after a
//! number found in its payload.
//!
//! - `router` turns payload bytes into the name of the destination topic,
//!   with `text` for the UTF-8 view of the bytes, `json` for the field
//!   `payload.YEAR` of the document and `decimal` for the number's text.
//! - `driver` is the state machine that alternates between fetching a
//!   record and forwarding it, over the values of `record`; `trace` states
//!   what whole runs of it publish.
//! - `config` and `error` hold the settings of a process and the failures
//!   that it reports.

pub mod config;
pub mod decimal;
pub mod driver;
pub mod error;
pub mod json;
pub mod record;
pub mod router;
pub mod text;
pub mod trace;
