//! Error types of the library, and the outside error types they carry.

use vstd::prelude::*;

verus! {

/// `influxdb::Error`, carried opaquely.
#[verifier::external_type_specification]
#[verifier::external_body]
pub struct ExInfluxError(influxdb::Error);

/// `reqwest::Error`, carried opaquely.
#[verifier::external_type_specification]
#[verifier::external_body]
pub struct ExReqwestError(reqwest::Error);

/// `serde_json::Error`, carried opaquely.
#[verifier::external_type_specification]
#[verifier::external_body]
pub struct ExJsonError(serde_json::Error);

/// `url::ParseError`, carried opaquely.
#[verifier::external_type_specification]
#[verifier::external_body]
pub struct ExUrlParseError(url::ParseError);

/// Errors of the record side: an unreadable wind direction, or a failed
/// InfluxDB call.
#[derive(Debug)]
pub enum RecordError {
    CompassError(String),
    InfluxError(influxdb::Error),
}

/// Errors of the weather API side.
#[derive(Debug)]
pub enum WeatherResponseError {
    Request(reqwest::Error),
    Json(serde_json::Error),
    Parse(url::ParseError),
}

} // verus!
