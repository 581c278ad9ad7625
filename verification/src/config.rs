//! Configuration of the poller: the weather API, the database, the sink.

use crate::text::{append_decimal, decimal};
use vstd::prelude::*;

verus! {

/// Where current-weather records go.
#[derive(Debug, Clone, Copy, PartialEq, Eq, Structural)]
pub enum WriterKind {
    Log,
    Influx,
}

impl Default for WriterKind {
    /// Records are logged unless configured otherwise.
    fn default() -> (k: WriterKind)
        ensures
            k == WriterKind::Log,
    {
        WriterKind::Log
    }
}

/// Connection settings of the InfluxDB database.
pub struct DbConfig {
    pub host: String,
    pub port: u16,
    pub database: String,
    pub token: String,
}

/// Settings of the weather API client.
pub struct WeatherApiConfig {
    pub host: String,
    pub scheme: String,
    pub coords: String,
    pub weather_api_key: String,
    pub timeout: u64,
    pub poll_interval_secs: u64,
}

/// Settings of the whole program.
pub struct AppConfig {
    pub influx_db_config: DbConfig,
    pub weather_api_config: WeatherApiConfig,
    pub metrics_bind_addr: String,
    pub writer: WriterKind,
}

/// The `Debug` rendering of a string: quoted, with special characters escaped.
pub uninterp spec fn str_debug_text(s: Seq<char>) -> Seq<char>;

/// Calls `format!("{:?}", s)`, std's `Debug` for `str`. Claimed: the result is
/// a function of the characters of `s` alone (named `str_debug_text`); how
/// quoting and escaping go is not stated.
#[verifier::external_body]
fn str_debug(s: &str) -> (r: String)
    ensures
        r@ == str_debug_text(s@),
{
    format!("{:?}", s)
}

/// What is shown in place of the API key.
pub open spec fn api_key_mask() -> Seq<char> {
    "*************"@
}

/// How the debug text opens: the type's name and a brace, then a line break and
/// an indent when `pretty`.
pub open spec fn debug_head(pretty: bool) -> Seq<char> {
    if pretty {
        "WeatherApiConfig {\n    "@
    } else {
        "WeatherApiConfig { "@
    }
}

/// What stands between two fields of the debug text.
pub open spec fn debug_sep(pretty: bool) -> Seq<char> {
    if pretty {
        ",\n    "@
    } else {
        ", "@
    }
}

/// How the debug text closes.
pub open spec fn debug_tail(pretty: bool) -> Seq<char> {
    if pretty {
        ",\n}"@
    } else {
        " }"@
    }
}

impl WeatherApiConfig {
    /// The debug text of the settings, on one line or (`pretty`) one field per
    /// line. The API key is replaced by a mask.
    pub open spec fn debug_text_spec(self, pretty: bool) -> Seq<char> {
        debug_head(pretty) + "scheme: "@ + str_debug_text(self.scheme@) + debug_sep(pretty)
            + "host: "@ + str_debug_text(self.host@) + debug_sep(pretty) + "coords: "@
            + str_debug_text(self.coords@) + debug_sep(pretty) + "weather_api_key: "@
            + str_debug_text(api_key_mask()) + debug_sep(pretty) + "timeout: "@ + decimal(
            self.timeout as nat,
        ) + debug_tail(pretty)
    }

    /// The text that `{:?}` (or, with `pretty`, `{:#?}`) shows for these
    /// settings: scheme, host, coords, a masked API key and the timeout.
    pub fn debug_text(&self, pretty: bool) -> (r: String)
        ensures
            r@ == self.debug_text_spec(pretty),
    {
        let mask = "*************";
        let sep = if pretty { ",\n    " } else { ", " };
        let mut r = if pretty {
            String::from_str("WeatherApiConfig {\n    ")
        } else {
            String::from_str("WeatherApiConfig { ")
        };
        r.append("scheme: ");
        r.append(str_debug(self.scheme.as_str()).as_str());
        r.append(sep);
        r.append("host: ");
        r.append(str_debug(self.host.as_str()).as_str());
        r.append(sep);
        r.append("coords: ");
        r.append(str_debug(self.coords.as_str()).as_str());
        r.append(sep);
        r.append("weather_api_key: ");
        r.append(str_debug(mask).as_str());
        r.append(sep);
        r.append("timeout: ");
        append_decimal(&mut r, self.timeout);
        r.append(if pretty { ",\n}" } else { " }" });
        r
    }
}

/// `text` holds `label` directly followed by `value`.
pub open spec fn shows(text: Seq<char>, label: Seq<char>, value: Seq<char>) -> bool {
    exists|i: int|
        0 <= i && i + label.len() + value.len() <= text.len() && #[trigger] text.subrange(
            i,
            i + label.len() + value.len(),
        ) == label + value
}

proof fn lemma_shows(pre: Seq<char>, label: Seq<char>, value: Seq<char>, post: Seq<char>)
    ensures
        shows(pre + label + value + post, label, value),
{
    let t = pre + label + value + post;
    let i = pre.len() as int;
    assert(t.subrange(i, i + label.len() + value.len()) =~= label + value);
}

/// The debug text shows each setting but the key in full, after its label:
/// the scheme, host and coords in their `Debug` rendering, the mask in place
/// of the key, and, at the end, the timeout in decimal digits.
pub proof fn lemma_debug_text_shows_fields(c: WeatherApiConfig, pretty: bool)
    ensures
        shows(c.debug_text_spec(pretty), "scheme: "@, str_debug_text(c.scheme@)),
        shows(c.debug_text_spec(pretty), "host: "@, str_debug_text(c.host@)),
        shows(c.debug_text_spec(pretty), "coords: "@, str_debug_text(c.coords@)),
        shows(c.debug_text_spec(pretty), "weather_api_key: "@, str_debug_text(api_key_mask())),
        c.debug_text_spec(pretty).len() >= ("timeout: "@ + decimal(c.timeout as nat)
            + debug_tail(pretty)).len(),
        c.debug_text_spec(pretty).subrange(
            c.debug_text_spec(pretty).len() - ("timeout: "@ + decimal(c.timeout as nat)
                + debug_tail(pretty)).len(),
            c.debug_text_spec(pretty).len() as int,
        ) == "timeout: "@ + decimal(c.timeout as nat) + debug_tail(pretty),
{
    let t = c.debug_text_spec(pretty);
    let h = debug_head(pretty);
    let sp = debug_sep(pretty);
    let qs = str_debug_text(c.scheme@);
    let qh = str_debug_text(c.host@);
    let qc = str_debug_text(c.coords@);
    let qm = str_debug_text(api_key_mask());
    let end = "timeout: "@ + decimal(c.timeout as nat) + debug_tail(pretty);
    let after_key = sp + end;
    let after_coords = sp + "weather_api_key: "@ + qm + after_key;
    let after_host = sp + "coords: "@ + qc + after_coords;
    let after_scheme = sp + "host: "@ + qh + after_host;
    assert(t =~= h + "scheme: "@ + qs + after_scheme);
    lemma_shows(h, "scheme: "@, qs, after_scheme);
    let before_host = h + "scheme: "@ + qs + sp;
    assert(t =~= before_host + "host: "@ + qh + after_host);
    lemma_shows(before_host, "host: "@, qh, after_host);
    let before_coords = before_host + "host: "@ + qh + sp;
    assert(t =~= before_coords + "coords: "@ + qc + after_coords);
    lemma_shows(before_coords, "coords: "@, qc, after_coords);
    let before_key = before_coords + "coords: "@ + qc + sp;
    assert(t =~= before_key + "weather_api_key: "@ + qm + after_key);
    lemma_shows(before_key, "weather_api_key: "@, qm, after_key);
    let before_end = before_key + "weather_api_key: "@ + qm + sp;
    assert(t =~= before_end + end);
    assert(t.subrange(before_end.len() as int, t.len() as int) =~= end);
}

/// The debug text of the API settings never depends on the API key: two
/// settings that differ only in their keys (or poll intervals) show the same.
pub proof fn lemma_debug_text_hides_api_key(a: WeatherApiConfig, b: WeatherApiConfig, pretty: bool)
    requires
        a.scheme@ == b.scheme@,
        a.host@ == b.host@,
        a.coords@ == b.coords@,
        a.timeout == b.timeout,
    ensures
        a.debug_text_spec(pretty) == b.debug_text_spec(pretty),
{
}

} // verus!
