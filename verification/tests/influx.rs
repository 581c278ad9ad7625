use current_weather::config::{DbConfig, WriterKind};
use current_weather::influx::{InfluxClient, InfluxWriter, WeatherWriter, WritePlan};

#[test]
fn influx_client_address() {
    let client = InfluxClient::new(DbConfig {
        host: "localhost".to_string(),
        port: 8086,
        database: "weather".to_string(),
        token: "SECRET-REDACTED".to_string(),
    });
    assert_eq!(client.url(), "http://localhost:8086");
    assert_eq!(client.database(), "weather");
    assert_eq!(client.client().database_url(), "http://localhost:8086");
    assert_eq!(client.client().database_name(), "weather");
}

#[test]
fn influx_client_port_zero() {
    let client = InfluxClient::new(DbConfig {
        host: "db.local".to_string(),
        port: 0,
        database: "d".to_string(),
        token: String::new(),
    });
    assert_eq!(client.url(), "http://db.local:0");
}

#[test]
fn writer_from_kind() {
    assert!(matches!(
        WeatherWriter::from_kind(WriterKind::Influx),
        WeatherWriter::InfluxCurrentWeather(_)
    ));
    assert!(matches!(
        WeatherWriter::from_kind(WriterKind::Log),
        WeatherWriter::LogCurrentWeather(_)
    ));
}

#[test]
fn writer_plans() {
    match WeatherWriter::from_kind(WriterKind::Influx).write_plan() {
        WritePlan::Influx { measurement } => assert_eq!(measurement, "current_weather_test"),
        WritePlan::Log => panic!("expected an InfluxDB write"),
    }
    assert!(matches!(
        WeatherWriter::from_kind(WriterKind::Log).write_plan(),
        WritePlan::Log
    ));
    assert_eq!(InfluxWriter.measurement(), "current_weather_test");
}
