//! Verified core of a weather poller: it fetches current conditions from a
//! weather API and records them in InfluxDB.
//!
//! The library holds the decisions and the text it builds (compass parsing,
//! request URLs, masked configuration dumps, record headers, the polling
//! state machine); the program around it performs the network and clock work.

pub mod compass;
pub mod config;
pub mod error;
pub mod host;
pub mod influx;
pub mod poll;
pub mod record;
pub mod text;
pub mod weather_api;
