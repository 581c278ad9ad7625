use current_weather::config::{WeatherApiConfig, WriterKind};
use current_weather::error::WeatherResponseError;
use current_weather::weather_api::{RequestOutcome, UrlParser, WeatherClient};

fn sample_config(key: &str) -> WeatherApiConfig {
    WeatherApiConfig {
        scheme: "http".to_string(),
        host: "api.weather.com".to_string(),
        coords: "New York".to_string(),
        weather_api_key: key.to_string(),
        timeout: 0,
        poll_interval_secs: 0,
    }
}

#[test]
fn test_parse_url_valid() {
    let config: WeatherApiConfig = WeatherApiConfig {
        scheme: "http".to_string(),
        host: "api.weather.com".to_string(),
        coords: "New York".to_string(),
        weather_api_key: "abc123".to_string(),
        timeout: 0,
        poll_interval_secs: 0,
    };

    let url_result = UrlParser.parse_url(&config, Some(vec![("lang", "en")]));
    assert!(url_result.is_ok());

    let expected_url = "http://api.weather.com/v1/current.json?key=abc123&q=New+York&lang=en";
    assert_eq!(url_result.unwrap().to_string(), expected_url);
}

#[test]
fn parse_url_without_extra_params() {
    let url = UrlParser.parse_url(&sample_config("k&y"), None).unwrap();
    assert_eq!(url, "http://api.weather.com/v1/current.json?key=k%26y&q=New+York");
}

#[test]
fn parse_url_rejects_bad_scheme() {
    let mut config = sample_config("abc");
    config.scheme = "".to_string();
    match UrlParser.parse_url(&config, None) {
        Err(WeatherResponseError::Parse(_)) => {}
        other => panic!("expected a parse error, got {:?}", other),
    }
}

#[test]
fn weather_client_keeps_url_and_host() {
    let mut config = sample_config("aaa");
    config.host = "localhost:8082".to_string();
    config.coords = "London".to_string();
    let client = WeatherClient::new(config).unwrap();
    assert_eq!(client.url(), "http://localhost:8082/v1/current.json?key=aaa&q=London");
    assert_eq!(client.host(), "localhost:8082");
}

#[test]
fn weather_client_rejects_bad_url() {
    let mut config = sample_config("aaa");
    config.host = "exa mple.com".to_string();
    match WeatherClient::new(config) {
        Err(WeatherResponseError::Parse(_)) => {}
        Err(other) => panic!("expected a parse error, got {:?}", other),
        Ok(_) => panic!("expected a parse error"),
    }
}

#[test]
fn debug_text_masks_api_key() {
    let config = sample_config("abc123");
    assert_eq!(
        config.debug_text(false),
        "WeatherApiConfig { scheme: \"http\", host: \"api.weather.com\", coords: \"New York\", weather_api_key: \"*************\", timeout: 0 }"
    );
    assert!(!config.debug_text(true).contains("abc123"));
}

#[test]
fn debug_text_pretty() {
    let mut config = sample_config("secret");
    config.timeout = 30;
    config.coords = "a\"b".to_string();
    assert_eq!(
        config.debug_text(true),
        "WeatherApiConfig {\n    scheme: \"http\",\n    host: \"api.weather.com\",\n    coords: \"a\\\"b\",\n    weather_api_key: \"*************\",\n    timeout: 30,\n}"
    );
}

#[test]
fn debug_text_independent_of_key() {
    for pretty in [false, true] {
        assert_eq!(
            sample_config("one").debug_text(pretty),
            sample_config("another key").debug_text(pretty)
        );
    }
}

#[test]
fn status_labels() {
    assert_eq!(RequestOutcome::Status(200).status_label(), "200");
    assert_eq!(RequestOutcome::Status(0).status_label(), "0");
    assert_eq!(RequestOutcome::Status(65535).status_label(), "65535");
    assert_eq!(RequestOutcome::Timeout.status_label(), "timeout");
    assert_eq!(RequestOutcome::ConnectError.status_label(), "connect_error");
    assert_eq!(RequestOutcome::OtherError.status_label(), "error");
}

#[test]
fn error_kind_precedence() {
    assert_eq!(RequestOutcome::from_error_kind(true, true), RequestOutcome::Timeout);
    assert_eq!(RequestOutcome::from_error_kind(false, true), RequestOutcome::ConnectError);
    assert_eq!(RequestOutcome::from_error_kind(false, false), RequestOutcome::OtherError);
}

#[test]
fn writer_kind_default_is_log() {
    assert_eq!(WriterKind::default(), WriterKind::Log);
}

fn failed_request(url: &str) -> reqwest::Error {
    let runtime = tokio::runtime::Builder::new_current_thread().enable_all().build().unwrap();
    runtime.block_on(async { reqwest::Client::new().get(url).send().await.unwrap_err() })
}

#[test]
fn request_outcome_of_refused_connection() {
    let err = failed_request("http://127.0.0.1:1/");
    assert!(!err.is_timeout());
    assert_eq!(
        RequestOutcome::from_error(&err),
        RequestOutcome::from_error_kind(err.is_timeout(), err.is_connect())
    );
    assert_eq!(RequestOutcome::from_error(&err), RequestOutcome::ConnectError);
}

#[test]
fn request_outcome_of_unusable_url() {
    let err = failed_request("not a url");
    assert_eq!(RequestOutcome::from_error(&err), RequestOutcome::OtherError);
}

#[test]
fn parse_url_empty_extra_same_as_none() {
    let config = sample_config("abc123");
    assert_eq!(
        UrlParser.parse_url(&config, None).unwrap(),
        UrlParser.parse_url(&config, Some(vec![])).unwrap()
    );
    let mut bad = sample_config("abc123");
    bad.scheme = "".to_string();
    match (UrlParser.parse_url(&bad, None), UrlParser.parse_url(&bad, Some(vec![]))) {
        (Err(WeatherResponseError::Parse(a)), Err(WeatherResponseError::Parse(b))) => assert_eq!(a, b),
        other => panic!("expected two parse errors, got {:?}", other),
    }
}

#[test]
fn weather_client_from_http_client() {
    let mut config = sample_config("aaa");
    config.host = "localhost:8083".to_string();
    let client = WeatherClient::from_http_client(reqwest::Client::new(), config).unwrap();
    assert_eq!(client.url(), "http://localhost:8083/v1/current.json?key=aaa&q=New+York");
    assert_eq!(client.host(), "localhost:8083");

    let mut bad = sample_config("aaa");
    bad.host = "exa mple.com".to_string();
    match WeatherClient::from_http_client(reqwest::Client::new(), bad) {
        Err(WeatherResponseError::Parse(e)) => assert_eq!(
            e,
            url::Url::parse("http://exa mple.com/v1/current.json").unwrap_err()
        ),
        Err(other) => panic!("expected a parse error, got {:?}", other),
        Ok(_) => panic!("expected a parse error"),
    }
}
