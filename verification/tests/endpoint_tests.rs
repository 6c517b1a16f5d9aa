use sharkmon::endpoint::parse_endpoint;
use sharkmon::errors::ConfigError;

fn parse(s: &str) -> Result<(String, u16), ConfigError> {
    let e = parse_endpoint(&s.as_bytes().to_vec())?;
    Ok((String::from_utf8(e.host).unwrap(), e.port))
}

#[test]
fn plain_host_and_port_parse() {
    assert_eq!(parse("192.168.1.100:502"), Ok(("192.168.1.100".to_string(), 502)));
    assert_eq!(parse("meter.local:8081"), Ok(("meter.local".to_string(), 8081)));
}

#[test]
fn split_is_at_the_last_colon() {
    assert_eq!(parse("[::1]:502"), Ok(("[::1]".to_string(), 502)));
    assert_eq!(parse("a:b:1"), Ok(("a:b".to_string(), 1)));
}

#[test]
fn port_bounds_are_enforced() {
    assert_eq!(parse("host:65535"), Ok(("host".to_string(), 65535)));
    assert_eq!(parse("host:65536"), Err(ConfigError::BadEndpoint));
    assert_eq!(parse("host:99999"), Err(ConfigError::BadEndpoint));
    assert_eq!(parse("host:123456"), Err(ConfigError::BadEndpoint));
    assert_eq!(parse("host:0"), Ok(("host".to_string(), 0)));
    assert_eq!(parse("host:00080"), Ok(("host".to_string(), 80)));
}

#[test]
fn malformed_endpoints_are_fatal_config_errors() {
    assert_eq!(parse(""), Err(ConfigError::BadEndpoint));
    assert_eq!(parse("nocolon"), Err(ConfigError::BadEndpoint));
    assert_eq!(parse(":502"), Err(ConfigError::BadEndpoint));
    assert_eq!(parse("host:"), Err(ConfigError::BadEndpoint));
    assert_eq!(parse("host:12a4"), Err(ConfigError::BadEndpoint));
    assert_eq!(parse("host: 502"), Err(ConfigError::BadEndpoint));
    assert_eq!(parse("host:-502"), Err(ConfigError::BadEndpoint));
}
