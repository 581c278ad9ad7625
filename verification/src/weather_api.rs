//! The weather API client: the request URL, the client's construction, and
//! the status label that request metrics carry.

use crate::config::WeatherApiConfig;
use crate::error::WeatherResponseError;
use crate::text::{decimal, decimal_string, decimal_value, is_digit, lemma_decimal_reads_back};
use vstd::prelude::*;

verus! {

/// `reqwest::Client`, carried opaquely.
#[verifier::external_type_specification]
#[verifier::external_body]
pub struct ExReqwestClient(reqwest::Client);

/// `reqwest::ClientBuilder`, carried opaquely.
#[verifier::external_type_specification]
#[verifier::external_body]
pub struct ExReqwestClientBuilder(reqwest::ClientBuilder);

/// Calls `reqwest::Client::builder`, a builder with default settings. Nothing
/// is claimed of the builder.
#[verifier::external_body]
fn client_builder() -> reqwest::ClientBuilder {
    reqwest::Client::builder()
}

/// Calls `reqwest::ClientBuilder::build`. Whether it succeeds depends on the
/// TLS backend and the system resolver set-up, so nothing is claimed.
#[verifier::external_body]
fn build_client(builder: reqwest::ClientBuilder) -> Result<reqwest::Client, reqwest::Error> {
    builder.build()
}

/// Whether reqwest counts the error `e` as a timeout (`reqwest::Error::is_timeout`).
pub uninterp spec fn error_timed_out(e: reqwest::Error) -> bool;

/// Whether reqwest counts the error `e` as a connection failure
/// (`reqwest::Error::is_connect`).
pub uninterp spec fn error_connect_failed(e: reqwest::Error) -> bool;

/// Calls `reqwest::Error::is_timeout`. Claimed: the answer is a function of the
/// error alone (named `error_timed_out`); reqwest reads the error's kind and
/// its chain of sources. Which errors count is not stated.
#[verifier::external_body]
fn error_is_timeout(e: &reqwest::Error) -> (b: bool)
    ensures
        b == error_timed_out(*e),
{
    e.is_timeout()
}

/// Calls `reqwest::Error::is_connect`. Claimed: the answer is a function of the
/// error alone (named `error_connect_failed`); reqwest reads the error's kind
/// and its chain of sources. Which errors count is not stated.
#[verifier::external_body]
fn error_is_connect(e: &reqwest::Error) -> (b: bool)
    ensures
        b == error_connect_failed(*e),
{
    e.is_connect()
}

/// What `url::Url::parse_with_params` gives for `input` and the query pairs
/// `params`: the text of the URL it builds, or the error it rejects `input` with.
pub uninterp spec fn url_with_params_text(
    input: Seq<char>,
    params: Seq<(Seq<char>, Seq<char>)>,
) -> Result<Seq<char>, url::ParseError>;

/// A result whose text is taken as characters.
pub open spec fn text_result<E>(r: Result<String, E>) -> Result<Seq<char>, E> {
    match r {
        Ok(s) => Ok(s@),
        Err(e) => Err(e),
    }
}

/// Query pairs as character sequences.
pub open spec fn pairs_view(v: Seq<(&str, &str)>) -> Seq<(Seq<char>, Seq<char>)> {
    v.map_values(|p: (&str, &str)| (p.0@, p.1@))
}

/// Calls `url::Url::parse_with_params` and returns the URL's serialization
/// (`String::from(url)`). Claimed: the outcome, text or error, is a function of
/// the input and the pairs alone (named `url_with_params_text`); how the URL
/// is parsed and the pairs encoded is not stated.
#[verifier::external_body]
fn url_with_params(input: &str, params: &Vec<(&str, &str)>) -> (res: Result<
    String,
    url::ParseError,
>)
    ensures
        text_result(res) == url_with_params_text(input@, pairs_view(params@)),
{
    url::Url::parse_with_params(input, params.iter()).map(String::from)
}

/// The address of the current-conditions endpoint, before the query.
pub open spec fn current_url_text(config: WeatherApiConfig) -> Seq<char> {
    config.scheme@ + "://"@ + config.host@ + "/v1/current.json"@
}

/// The query of a current-conditions request: the API key, the location, and
/// then the extra pairs in their order.
pub open spec fn query_params(
    config: WeatherApiConfig,
    extra: Option<Seq<(Seq<char>, Seq<char>)>>,
) -> Seq<(Seq<char>, Seq<char>)> {
    seq![("key"@, config.weather_api_key@), ("q"@, config.coords@)] + match extra {
        Some(e) => e,
        None => Seq::empty(),
    }
}

/// Extra query pairs as character sequences.
pub open spec fn extra_view(extra: Option<Vec<(&str, &str)>>) -> Option<
    Seq<(Seq<char>, Seq<char>)>,
> {
    match extra {
        Some(v) => Some(pairs_view(v@)),
        None => None,
    }
}

/// The URL of a current-conditions request for `config` with `extra` pairs.
pub open spec fn request_url(
    config: WeatherApiConfig,
    extra: Option<Seq<(Seq<char>, Seq<char>)>>,
) -> Result<Seq<char>, url::ParseError> {
    url_with_params_text(current_url_text(config), query_params(config, extra))
}

/// The outcome of building a request URL, with a rejection as a library error.
pub open spec fn parse_outcome(
    config: WeatherApiConfig,
    extra: Option<Seq<(Seq<char>, Seq<char>)>>,
) -> Result<Seq<char>, WeatherResponseError> {
    match request_url(config, extra) {
        Ok(u) => Ok(u),
        Err(e) => Err(WeatherResponseError::Parse(e)),
    }
}

/// Builds request URLs.
pub struct UrlParser;

impl UrlParser {
    /// The URL of a current-conditions request: `{scheme}://{host}/v1/current.json`
    /// with the query `key=…&q=…` followed by `additional_params`.
    pub fn parse_url<'a>(
        &self,
        config: &'a WeatherApiConfig,
        additional_params: Option<Vec<(&'a str, &'a str)>>,
    ) -> (res: Result<String, WeatherResponseError>)
        ensures
            text_result(res) == parse_outcome(*config, extra_view(additional_params)),
    {
        let mut current_url = String::from_str(config.scheme.as_str());
        current_url.append("://");
        current_url.append(config.host.as_str());
        current_url.append("/v1/current.json");
        let mut params: Vec<(&str, &str)> = Vec::new();
        params.push(("key", config.weather_api_key.as_str()));
        params.push(("q", config.coords.as_str()));
        match additional_params {
            Some(par) => {
                let mut par = par;
                params.append(&mut par);
            },
            None => {},
        }
        assert(pairs_view(params@) =~= query_params(*config, extra_view(additional_params)));
        match url_with_params(current_url.as_str(), &params) {
            Ok(u) => Ok(u),
            Err(e) => Err(WeatherResponseError::Parse(e)),
        }
    }
}

/// The query handed to the URL builder is the API key, then the location, then
/// every extra pair in its order: `2 + n` pairs for `n` extra pairs, with extra
/// pair `i` at place `i + 2`.
pub proof fn lemma_query_pairs(config: WeatherApiConfig, extra: Seq<(Seq<char>, Seq<char>)>)
    ensures
        query_params(config, None).len() == 2,
        query_params(config, Some(extra)).len() == 2 + extra.len(),
        query_params(config, Some(extra))[0] == ("key"@, config.weather_api_key@),
        query_params(config, Some(extra))[1] == ("q"@, config.coords@),
        query_params(config, None)[0] == ("key"@, config.weather_api_key@),
        query_params(config, None)[1] == ("q"@, config.coords@),
        forall|i: int|
            0 <= i < extra.len() ==> #[trigger] query_params(config, Some(extra))[i + 2]
                == extra[i],
{
}

/// Extra pairs reach the URL builder as given: as many, in the same order, each
/// with its name and value.
pub proof fn lemma_extra_pairs_kept(extra: Vec<(&str, &str)>)
    ensures
        pairs_view(extra@).len() == extra@.len(),
        forall|i: int|
            0 <= i < extra@.len() ==> #[trigger] pairs_view(extra@)[i] == (
                extra@[i].0@,
                extra@[i].1@,
            ),
{
}

/// Building a URL with an empty list of extra pairs gives what building it with
/// none gives: the same text, or the same error.
pub proof fn lemma_no_extra_pairs(config: WeatherApiConfig, extra: Vec<(&str, &str)>)
    requires
        extra@.len() == 0,
    ensures
        parse_outcome(config, extra_view(Some(extra))) == parse_outcome(config, extra_view(None)),
{
    assert(query_params(config, extra_view(Some(extra))) =~= query_params(config, extra_view(None)));
}

/// A client of the weather API: an HTTP client, the request URL and the host
/// that metrics are labelled with.
pub struct WeatherClient {
    client: reqwest::Client,
    url: String,
    host: String,
}

impl WeatherClient {
    /// The text of the request URL.
    pub closed spec fn url_text(&self) -> Seq<char> {
        self.url@
    }

    /// The host that metrics are labelled with.
    pub closed spec fn host_text(&self) -> Seq<char> {
        self.host@
    }

    /// Builds the HTTP client and the request URL for `config`. An error of
    /// the HTTP client's construction comes first; then one of the URL.
    pub fn new(config: WeatherApiConfig) -> (res: Result<WeatherClient, WeatherResponseError>)
        ensures
            res matches Ok(c) ==> parse_outcome(config, None) == Ok::<Seq<char>, WeatherResponseError>(c.url_text())
                && c.host_text() == config.host@,
            parse_outcome(config, None) is Err ==> res is Err,
            res matches Err(e) ==> (e is Request || parse_outcome(config, None) == Err::<
                Seq<char>,
                WeatherResponseError,
            >(e)),
    {
        let client = match build_client(client_builder()) {
            Ok(c) => c,
            Err(e) => {
                return Err(WeatherResponseError::Request(e));
            },
        };
        WeatherClient::from_http_client(client, config)
    }

    /// A weather client that sends its requests with `client`: it succeeds
    /// exactly when the request URL for `config` can be built, and otherwise
    /// fails with the URL parser's error.
    pub fn from_http_client(client: reqwest::Client, config: WeatherApiConfig) -> (res: Result<
        WeatherClient,
        WeatherResponseError,
    >)
        ensures
            res is Ok <==> request_url(config, None) is Ok,
            res matches Ok(c) ==> c.http_client() == client && parse_outcome(config, None) == Ok::<
                Seq<char>,
                WeatherResponseError,
            >(c.url_text()) && c.host_text() == config.host@,
            res matches Err(e) ==> parse_outcome(config, None) == Err::<Seq<char>, WeatherResponseError>(
                e,
            ),
    {
        let url = UrlParser.parse_url(&config, None)?;
        let host = config.host.clone();
        Ok(WeatherClient { client, url, host })
    }

    /// The HTTP client the weather client was built with.
    pub closed spec fn http_client(&self) -> reqwest::Client {
        self.client
    }

    /// The HTTP client.
    pub fn client(&self) -> (r: &reqwest::Client)
        ensures
            *r == self.http_client(),
    {
        &self.client
    }

    /// The request URL.
    pub fn url(&self) -> (r: &str)
        ensures
            r@ == self.url_text(),
    {
        self.url.as_str()
    }

    /// The host that metrics are labelled with.
    pub fn host(&self) -> (r: &str)
        ensures
            r@ == self.host_text(),
    {
        self.host.as_str()
    }
}

/// How a request ended, as far as request metrics tell it apart.
#[derive(Debug, Clone, Copy, PartialEq, Eq, Structural)]
pub enum RequestOutcome {
    /// A response came back with this HTTP status code.
    Status(u16),
    Timeout,
    ConnectError,
    OtherError,
}

/// The outcome of a failed request: a timeout if the error says so, else a
/// connection error if it says so, else some other error.
pub open spec fn error_outcome(is_timeout: bool, is_connect: bool) -> RequestOutcome {
    if is_timeout {
        RequestOutcome::Timeout
    } else if is_connect {
        RequestOutcome::ConnectError
    } else {
        RequestOutcome::OtherError
    }
}

/// A failed request that timed out is a timeout whatever else is said of it;
/// one that did not time out but failed to connect is a connection error; any
/// other is some other error. A failure is never counted as a status code.
pub proof fn lemma_error_outcome_precedence(is_timeout: bool, is_connect: bool)
    ensures
        is_timeout ==> error_outcome(is_timeout, is_connect) == RequestOutcome::Timeout,
        !is_timeout && is_connect ==> error_outcome(is_timeout, is_connect)
            == RequestOutcome::ConnectError,
        !is_timeout && !is_connect ==> error_outcome(is_timeout, is_connect)
            == RequestOutcome::OtherError,
        !(error_outcome(is_timeout, is_connect) is Status),
{
}

/// The status label of a response is its status code written in decimal
/// digits, which read back as that code; no two codes share a label.
pub proof fn lemma_status_label_reads_back(code: u16, other: u16)
    ensures
        RequestOutcome::Status(code).label().len() >= 1,
        forall|i: int|
            0 <= i < RequestOutcome::Status(code).label().len() ==> is_digit(
                #[trigger] RequestOutcome::Status(code).label()[i],
            ),
        decimal_value(RequestOutcome::Status(code).label()) == code,
        code != other ==> RequestOutcome::Status(code).label() != RequestOutcome::Status(
            other,
        ).label(),
{
    lemma_decimal_reads_back(code as nat);
    lemma_decimal_reads_back(other as nat);
}

impl RequestOutcome {
    /// The `status` label of request metrics.
    pub open spec fn label(self) -> Seq<char> {
        match self {
            RequestOutcome::Status(code) => decimal(code as nat),
            RequestOutcome::Timeout => "timeout"@,
            RequestOutcome::ConnectError => "connect_error"@,
            RequestOutcome::OtherError => "error"@,
        }
    }

    /// The `status` label of request metrics: the status code in decimal, or
    /// `timeout`, `connect_error`, `error`.
    pub fn status_label(&self) -> (r: String)
        ensures
            r@ == self.label(),
    {
        match self {
            RequestOutcome::Status(code) => decimal_string(*code as u64),
            RequestOutcome::Timeout => String::from_str("timeout"),
            RequestOutcome::ConnectError => String::from_str("connect_error"),
            RequestOutcome::OtherError => String::from_str("error"),
        }
    }

    /// A failed request is a timeout if the error says so, else a connection
    /// error if it says so, else some other error.
    pub fn from_error_kind(is_timeout: bool, is_connect: bool) -> (r: RequestOutcome)
        ensures
            r == error_outcome(is_timeout, is_connect),
    {
        if is_timeout {
            RequestOutcome::Timeout
        } else if is_connect {
            RequestOutcome::ConnectError
        } else {
            RequestOutcome::OtherError
        }
    }

    /// The outcome of a request that failed with `e`.
    pub fn from_error(e: &reqwest::Error) -> (r: RequestOutcome)
        ensures
            r == error_outcome(error_timed_out(*e), error_connect_failed(*e)),
    {
        let timeout = error_is_timeout(e);
        let connect = error_is_connect(e);
        RequestOutcome::from_error_kind(timeout, connect)
    }
}

} // verus!
