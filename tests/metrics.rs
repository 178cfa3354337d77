use macsmc::config::{Config, InfluxConfig, MetricsConfig};
use macsmc::influx::{health_target, write_target, Auth};
use macsmc::metrics::format_line;
use macsmc::metrics::{
    escape_field_key, escape_tag_key, escape_tag_value, extract_core_name, extract_core_type, extract_gpu_number,
    parse_tags, split_on,
};

#[test]
fn escaping() {
    assert_eq!(escape_tag_key("a b,c=d"), "a\\ b\\,c\\=d");
    assert_eq!(escape_tag_value("plain"), "plain");
    assert_eq!(escape_field_key(""), "");
    assert_eq!(escape_tag_value("é=1"), "é\\=1");
}

#[test]
fn core_labels() {
    assert_eq!(extract_core_name("CPU Efficiency Core"), "efficiency");
    assert_eq!(extract_core_name("CPU Performance Core 3"), "performance_3");
    assert_eq!(extract_core_name("CPU Performance Core"), "performance");
    assert_eq!(extract_core_name(""), "unknown");
    assert_eq!(extract_core_type("CPU Efficiency Core"), "efficiency");
    assert_eq!(extract_core_type("CPU Performance Core 8"), "performance");
    assert_eq!(extract_core_type("GPU 1"), "unknown");
    assert_eq!(extract_gpu_number("GPU 2"), "2");
    assert_eq!(extract_gpu_number("GPU"), "0");
    assert_eq!(extract_gpu_number(""), "0");
}

#[test]
fn splitting() {
    assert_eq!(split_on("a,b,,c", ','), vec!["a", "b", "", "c"]);
    assert_eq!(split_on("", ','), vec![""]);
    assert_eq!(split_on("abc", ','), vec!["abc"]);
}

#[test]
fn tags() {
    assert_eq!(parse_tags(None), Ok(None));
    assert_eq!(
        parse_tags(Some("host=a,loc=b".to_string())),
        Ok(Some(vec![("host".to_string(), "a".to_string()), ("loc".to_string(), "b".to_string())]))
    );
    assert_eq!(parse_tags(Some("host=a,bad".to_string())), Err("bad".to_string()));
    assert_eq!(parse_tags(Some("a=b=c".to_string())), Err("a=b=c".to_string()));
    assert_eq!(parse_tags(Some("".to_string())), Err("".to_string()));
    assert_eq!(
        parse_tags(Some("a=1,b=2,a=3".to_string())),
        Ok(Some(vec![("a".to_string(), "3".to_string()), ("b".to_string(), "2".to_string())]))
    );
}

#[test]
fn example_configuration() {
    let c = Config::create_example();
    assert_eq!(c.influx.url, "http://localhost:8086");
    assert_eq!(c.influx.token.as_deref(), Some("your_token_here"));
    assert_eq!(c.influx.bucket.as_deref(), Some("macstats"));
    assert_eq!(c.hostname.as_deref(), Some("your_mac"));
    assert_eq!(c.interval, Some(30));
    assert_eq!(c.metrics, MetricsConfig::all());
    assert_eq!(
        c.influx.tags.unwrap(),
        vec![("host".to_string(), "your_hostname".to_string()), ("location".to_string(), "office".to_string())]
    );
}

#[test]
fn default_configuration() {
    let c = Config::with_hostname(None);
    assert_eq!(c.hostname.as_deref(), Some("unknown"));
    let c = Config::with_hostname(Some("box".to_string()));
    assert_eq!(c.hostname.as_deref(), Some("box"));
    assert_eq!(c.influx.measurement_prefix.as_deref(), Some("mac"));
    let d = Config::default();
    assert!(d.hostname.is_some());
    assert_eq!(d.interval, Some(30));
    let i = InfluxConfig::default();
    assert_eq!(i.database, "macstats");
    assert!(i.tags.is_none());
    assert_eq!(MetricsConfig::default(), MetricsConfig::all());
}

#[test]
fn line_protocol_lines() {
    let tags = vec![("host".to_string(), "my mac".to_string()), ("core".to_string(), "p=1".to_string())];
    let line = format_line(&Some("mac".to_string()), "cpu_temperature", &tags, "value", "42i", "1700000000");
    assert_eq!(line, "mac_cpu_temperature,host=my\\ mac,core=p\\=1 value=42i 1700000000");
    let line = format_line(&None, "power", &Vec::new(), "the value", "1.5", "7");
    assert_eq!(line, "power the\\ value=1.5 7");
}

#[test]
fn write_targets() {
    let mut c = InfluxConfig::default();
    let t = write_target(&c).unwrap();
    assert_eq!(t.url, "http://localhost:8086/write?db=macstats");
    assert!(matches!(t.auth, Auth::Anonymous));
    c.username = Some("u".to_string());
    c.password = Some("p".to_string());
    let t = write_target(&c).unwrap();
    assert!(matches!(t.auth, Auth::Basic { ref username, ref password } if username == "u" && password == "p"));
    assert_eq!(health_target(&c).url, "http://localhost:8086/ping");
    c.token = Some("tok".to_string());
    assert_eq!(write_target(&c).unwrap_err(), "Organization required for InfluxDB v2");
    c.org = Some("acme".to_string());
    let t = write_target(&c).unwrap();
    assert_eq!(t.url, "http://localhost:8086/api/v2/write?org=acme&bucket=macstats");
    assert!(matches!(t.auth, Auth::Token(ref k) if k == "tok"));
    c.bucket = Some("b".to_string());
    assert_eq!(write_target(&c).unwrap().url, "http://localhost:8086/api/v2/write?org=acme&bucket=b");
    let h = health_target(&c);
    assert_eq!(h.url, "http://localhost:8086/health");
    assert!(matches!(h.auth, Auth::Token(_)));
}
