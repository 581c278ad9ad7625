//! The InfluxDB side: the database client and the choice of where records go.

use crate::config::{DbConfig, WriterKind};
use crate::text::{append_decimal, decimal, decimal_value, is_digit, lemma_decimal_reads_back};
use vstd::prelude::*;

verus! {

/// `influxdb::Client`, carried opaquely.
#[verifier::external_type_specification]
#[verifier::external_body]
pub struct ExInfluxClient(influxdb::Client);

/// The base URL an InfluxDB client sends its queries to (what
/// `influxdb::Client::database_url` gives).
pub uninterp spec fn influx_client_address(c: influxdb::Client) -> Seq<char>;

/// The database an InfluxDB client queries (its `db` parameter, what
/// `influxdb::Client::database_name` gives).
pub uninterp spec fn influx_client_database(c: influxdb::Client) -> Seq<char>;

/// The token an InfluxDB client authenticates its queries with, if any.
pub uninterp spec fn influx_client_token(c: influxdb::Client) -> Option<Seq<char>>;

/// Calls `influxdb::Client::new`. Claimed, as influxdb's source shows: the
/// client keeps `url` as its address and `database` as its `db` parameter, and
/// has no token. Its inner reqwest client panics when no TLS backend can be
/// set up.
#[verifier::external_body]
fn influx_client_new(url: String, database: String) -> (c: influxdb::Client)
    ensures
        influx_client_address(c) == url@,
        influx_client_database(c) == database@,
        influx_client_token(c) == None::<Seq<char>>,
{
    influxdb::Client::new(url, database)
}

/// Calls `influxdb::Client::with_token`. Claimed, as influxdb's source shows:
/// the client keeps its address and database and now has `token`.
#[verifier::external_body]
fn influx_client_with_token(client: influxdb::Client, token: String) -> (c: influxdb::Client)
    ensures
        influx_client_address(c) == influx_client_address(client),
        influx_client_database(c) == influx_client_database(client),
        influx_client_token(c) == Some(token@),
{
    client.with_token(token)
}

/// The address of the database server: `http://{host}:{port}`.
pub open spec fn influx_url(config: DbConfig) -> Seq<char> {
    "http://"@ + config.host@ + ":"@ + decimal(config.port as nat)
}

/// The database address is `http://`, the host, a colon, and then digits that
/// read as the configured port, up to the end: the port is named in full.
pub proof fn lemma_influx_url_names_port(config: DbConfig)
    ensures
        influx_url(config).len() > config.host@.len() + 8,
        influx_url(config).subrange(0, config.host@.len() + 8int) == "http://"@ + config.host@ + ":"@,
        forall|i: int|
            config.host@.len() + 8 <= i < influx_url(config).len() ==> is_digit(
                #[trigger] influx_url(config)[i],
            ),
        decimal_value(
            influx_url(config).subrange(config.host@.len() + 8int, influx_url(config).len() as int),
        )
            == config.port,
{
    reveal_strlit("http://");
    reveal_strlit(":");
    let a = influx_url(config);
    let p = config.host@.len() + 8;
    let d = decimal(config.port as nat);
    lemma_decimal_reads_back(config.port as nat);
    assert(a.subrange(0, p as int) =~= "http://"@ + config.host@ + ":"@);
    assert(a.subrange(p as int, a.len() as int) =~= d);
    assert forall|i: int| p <= i < a.len() implies is_digit(#[trigger] a[i]) by {
        assert(a[i] == d[i - p]);
    }
}

/// For one host, different ports give different database addresses.
pub proof fn lemma_influx_url_distinct_ports(a: DbConfig, b: DbConfig)
    requires
        a.host@ == b.host@,
        a.port != b.port,
    ensures
        influx_url(a) != influx_url(b),
{
    lemma_influx_url_names_port(a);
    lemma_influx_url_names_port(b);
}

/// Influx Client wrapper, with the address and database it was made for.
pub struct InfluxClient {
    client: influxdb::Client,
    url: String,
    database: String,
}

impl InfluxClient {
    /// The address the client was made for.
    pub closed spec fn url_text(&self) -> Seq<char> {
        self.url@
    }

    /// The database the client was made for.
    pub closed spec fn database_text(&self) -> Seq<char> {
        self.database@
    }

    /// A client of the database at `http://{host}:{port}`, authenticated with
    /// the configured token.
    pub fn new(config: DbConfig) -> (c: InfluxClient)
        ensures
            influx_client_address(c.db_client()) == influx_url(config),
            influx_client_database(c.db_client()) == config.database@,
            influx_client_token(c.db_client()) == Some(config.token@),
            c.url_text() == influx_url(config),
            c.database_text() == config.database@,
    {
        let mut url = String::from_str("http://");
        url.append(config.host.as_str());
        url.append(":");
        append_decimal(&mut url, config.port as u64);
        let client = influx_client_with_token(
            influx_client_new(url.clone(), config.database.clone()),
            config.token,
        );
        InfluxClient { client, url, database: config.database }
    }

    /// The database client made for the configured address, database and token.
    pub closed spec fn db_client(&self) -> influxdb::Client {
        self.client
    }

    /// The database client.
    pub fn client(&self) -> (r: &influxdb::Client)
        ensures
            *r == self.db_client(),
    {
        &self.client
    }

    /// The address the client was made for.
    pub fn url(&self) -> (r: &str)
        ensures
            r@ == self.url_text(),
    {
        self.url.as_str()
    }

    /// The database the client was made for.
    pub fn database(&self) -> (r: &str)
        ensures
            r@ == self.database_text(),
    {
        self.database.as_str()
    }
}

/// Real writer to InfluxDB.
pub struct InfluxWriter;

/// Log writer, for demonstrations.
pub struct LogWriter;

/// Where a current-weather record goes.
pub enum WeatherWriter {
    InfluxCurrentWeather(InfluxWriter),
    LogCurrentWeather(LogWriter),
}

/// What writing one record amounts to.
pub enum WritePlan {
    /// Write it to InfluxDB under this measurement name.
    Influx { measurement: String },
    /// Log it.
    Log,
}

/// The measurement that current-weather records are written under.
pub open spec fn current_weather_measurement() -> Seq<char> {
    "current_weather_test"@
}

impl InfluxWriter {
    /// The measurement this writer writes records under.
    pub fn measurement(&self) -> (m: String)
        ensures
            m@ == current_weather_measurement(),
    {
        String::from_str("current_weather_test")
    }
}

impl WeatherWriter {
    /// The kind of sink this writer is.
    pub open spec fn kind(self) -> WriterKind {
        match self {
            WeatherWriter::InfluxCurrentWeather(_) => WriterKind::Influx,
            WeatherWriter::LogCurrentWeather(_) => WriterKind::Log,
        }
    }

    /// The writer of the configured kind.
    pub fn from_kind(kind: WriterKind) -> (w: WeatherWriter)
        ensures
            w.kind() == kind,
    {
        match kind {
            WriterKind::Influx => WeatherWriter::InfluxCurrentWeather(InfluxWriter),
            WriterKind::Log => WeatherWriter::LogCurrentWeather(LogWriter),
        }
    }

    /// What writing a record with this writer amounts to: an InfluxDB write
    /// under the current-weather measurement, or a log line.
    pub fn write_plan(&self) -> (p: WritePlan)
        ensures
            self.kind() == WriterKind::Influx <==> p is Influx,
            p matches WritePlan::Influx { measurement } ==> measurement@
                == current_weather_measurement(),
    {
        match self {
            WeatherWriter::InfluxCurrentWeather(writer) => WritePlan::Influx {
                measurement: writer.measurement(),
            },
            WeatherWriter::LogCurrentWeather(_) => WritePlan::Log,
        }
    }
}

} // verus!
