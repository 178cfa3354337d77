//! Settings of the metrics exporter.

use vstd::prelude::*;
use vstd::string::StringExecFns;

verus! {

/// What an optional text holds.
pub open spec fn opt_view(o: Option<String>) -> Option<Seq<char>> {
    match o {
        Some(s) => Some(s@),
        None => None,
    }
}

/// The views of a list of tags.
pub open spec fn pairs_view(v: Seq<(String, String)>) -> Seq<(Seq<char>, Seq<char>)> {
    v.map_values(|p: (String, String)| (p.0@, p.1@))
}

/// Where and how metrics are written.
#[derive(Clone, Debug)]
pub struct InfluxConfig {
    /// Address of the server.
    pub url: String,
    /// Database name.
    pub database: String,
    /// User name for the first protocol version.
    pub username: Option<String>,
    /// Password for the first protocol version.
    pub password: Option<String>,
    /// Organisation for the second protocol version.
    pub org: Option<String>,
    /// Token for the second protocol version.
    pub token: Option<String>,
    /// Bucket for the second protocol version; the database name where absent.
    pub bucket: Option<String>,
    /// Prefix of every measurement name.
    pub measurement_prefix: Option<String>,
    /// Tags added to every metric, in order; no key appears twice.
    pub tags: Option<Vec<(String, String)>>,
}

/// Which metrics are collected.
#[derive(Clone, Copy, Debug, PartialEq, Eq, Structural)]
pub struct MetricsConfig {
    /// Processor temperatures.
    pub cpu_temp: bool,
    /// Graphics temperatures.
    pub gpu_temp: bool,
    /// System temperatures.
    pub system_temp: bool,
    /// Power draws.
    pub power: bool,
    /// Fan speeds.
    pub fans: bool,
}

/// The settings of the exporter.
#[derive(Clone, Debug)]
pub struct Config {
    /// Where metrics are written.
    pub influx: InfluxConfig,
    /// Name of the machine.
    pub hostname: Option<String>,
    /// Seconds between collections.
    pub interval: Option<u64>,
    /// Which metrics are collected.
    pub metrics: MetricsConfig,
}

impl InfluxConfig {
    /// A local server, database `macstats`, measurement prefix `mac`, and
    /// nothing else set.
    pub fn standard() -> (r: InfluxConfig)
        ensures
            r.url@ == "http://localhost:8086"@,
            r.database@ == "macstats"@,
            r.username is None,
            r.password is None,
            r.org is None,
            r.token is None,
            r.bucket is None,
            opt_view(r.measurement_prefix) == Some("mac"@),
            r.tags is None,
    {
        InfluxConfig {
            url: String::from_str("http://localhost:8086"),
            database: String::from_str("macstats"),
            username: None,
            password: None,
            org: None,
            token: None,
            bucket: None,
            measurement_prefix: Some(String::from_str("mac")),
            tags: None,
        }
    }
}

impl MetricsConfig {
    /// Every metric collected.
    pub fn all() -> (r: MetricsConfig)
        ensures
            r == (MetricsConfig { cpu_temp: true, gpu_temp: true, system_temp: true, power: true, fans: true }),
    {
        MetricsConfig { cpu_temp: true, gpu_temp: true, system_temp: true, power: true, fans: true }
    }
}

impl Config {
    /// The standard settings for a machine: its name where it has one that is
    /// text, `unknown` otherwise; thirty seconds between collections; every
    /// metric.
    pub fn with_hostname(host: Option<String>) -> (r: Config)
        ensures
            opt_view(r.hostname) == Some(
                match host {
                    Some(h) => h@,
                    None => "unknown"@,
                },
            ),
            r.interval == Some(30u64),
            r.metrics == MetricsConfig::all_spec(),
            r.influx.url@ == "http://localhost:8086"@,
            r.influx.database@ == "macstats"@,
            opt_view(r.influx.measurement_prefix) == Some("mac"@),
            r.influx.tags is None,
            r.influx.token is None,
    {
        let name = match host {
            Some(h) => h,
            None => String::from_str("unknown"),
        };
        Config { influx: InfluxConfig::standard(), hostname: Some(name), interval: Some(30), metrics: MetricsConfig::all() }
    }

    /// An example configuration, with placeholders for the credentials.
    pub fn create_example() -> (r: Config)
        ensures
            r.influx.url@ == "http://localhost:8086"@,
            r.influx.database@ == "macstats"@,
            opt_view(r.influx.username) == Some("your_username"@),
            opt_view(r.influx.password) == Some("your_password"@),
            opt_view(r.influx.org) == Some("your_org"@),
            opt_view(r.influx.token) == Some("your_token_here"@),
            opt_view(r.influx.bucket) == Some("macstats"@),
            opt_view(r.influx.measurement_prefix) == Some("mac"@),
            r.influx.tags is Some,
            pairs_view(r.influx.tags->Some_0@) == seq![("host"@, "your_hostname"@), ("location"@, "office"@)],
            crate::metrics::keys_unique(pairs_view(r.influx.tags->Some_0@)),
            opt_view(r.hostname) == Some("your_mac"@),
            r.interval == Some(30u64),
            r.metrics == MetricsConfig::all_spec(),
    {
        let mut influx = InfluxConfig::standard();
        influx.url = String::from_str("http://localhost:8086");
        influx.database = String::from_str("macstats");
        influx.username = Some(String::from_str("your_username"));
        influx.password = Some(String::from_str("your_password"));
        influx.org = Some(String::from_str("your_org"));
        influx.token = Some(String::from_str("your_token_here"));
        influx.bucket = Some(String::from_str("macstats"));
        let mut tags: Vec<(String, String)> = Vec::new();
        tags.push((String::from_str("host"), String::from_str("your_hostname")));
        tags.push((String::from_str("location"), String::from_str("office")));
        assert(pairs_view(tags@) =~= seq![("host"@, "your_hostname"@), ("location"@, "office"@)]);
        proof {
            reveal_strlit("host");
            reveal_strlit("location");
            assert("host"@.len() != "location"@.len());
        }
        influx.tags = Some(tags);
        Config {
            influx,
            hostname: Some(String::from_str("your_mac")),
            interval: Some(30),
            metrics: MetricsConfig { cpu_temp: true, gpu_temp: true, system_temp: true, power: true, fans: true },
        }
    }
}

impl MetricsConfig {
    /// Every metric collected.
    pub open spec fn all_spec() -> MetricsConfig {
        MetricsConfig { cpu_temp: true, gpu_temp: true, system_temp: true, power: true, fans: true }
    }
}

/// Relies on `hostname::get`: the name of the machine, where it can be had
/// and is text.
#[verifier::external_body]
fn host_name() -> (r: Option<String>) {
    match hostname::get() {
        Ok(h) => h.into_string().ok(),
        Err(_) => None,
    }
}

impl Default for InfluxConfig {
    fn default() -> (r: InfluxConfig)
        ensures
            r.url@ == "http://localhost:8086"@,
            r.database@ == "macstats"@,
            opt_view(r.measurement_prefix) == Some("mac"@),
            r.tags is None,
            r.token is None,
    {
        InfluxConfig::standard()
    }
}

impl Default for MetricsConfig {
    fn default() -> (r: MetricsConfig)
        ensures
            r == MetricsConfig::all_spec(),
    {
        MetricsConfig::all()
    }
}

impl Default for Config {
    /// The standard settings for this machine.
    fn default() -> (r: Config)
        ensures
            r.hostname is Some,
            r.interval == Some(30u64),
            r.metrics == MetricsConfig::all_spec(),
    {
        Config::with_hostname(host_name())
    }
}

} // verus!
