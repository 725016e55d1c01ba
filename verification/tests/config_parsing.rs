use relayer_metrics::config::{
    parse_connection_cap, parse_port, parse_u64, ConfigError, Configuration, Environment,
};

#[test]
fn environment_names_round_trip() {
    assert!(matches!(Environment::from_name("Local"), Ok(Environment::Local)));
    assert!(matches!(Environment::from_name("Production"), Ok(Environment::Production)));
    assert_eq!(Environment::Local.environment_as_string(), "Local");
    assert_eq!(Environment::Production.environment_as_string(), "Production");
}

#[test]
fn unknown_environment_is_rejected() {
    assert_eq!(Environment::from_name("local"), Err(ConfigError::InvalidEnvironment));
    assert_eq!(Environment::from_name(""), Err(ConfigError::InvalidEnvironment));
    assert_eq!(Environment::from_name("Staging"), Err(ConfigError::InvalidEnvironment));
}

#[test]
fn decimal_parsing_accepts_digits_only() {
    assert_eq!(parse_u64("0"), Some(0));
    assert_eq!(parse_u64("8080"), Some(8080));
    assert_eq!(parse_u64("18446744073709551615"), Some(u64::MAX));
    assert_eq!(parse_u64("18446744073709551616"), None);
    assert_eq!(parse_u64(""), None);
    assert_eq!(parse_u64("12a"), None);
    assert_eq!(parse_u64("-3"), None);
    assert_eq!(parse_u64(" 3"), None);
}

#[test]
fn port_and_cap_respect_their_ranges() {
    assert_eq!(parse_port("65535"), Some(65535));
    assert_eq!(parse_port("65536"), None);
    assert_eq!(parse_connection_cap("255"), Some(255));
    assert_eq!(parse_connection_cap("256"), None);
}

#[test]
fn configuration_validates_all_values() {
    let c = Configuration::from_values("Local", "8080", "postgres://localhost/relayer", "10")
        .expect("all values are valid");
    assert!(matches!(c.environment, Environment::Local));
    assert_eq!(c.app_port, 8080);
    assert_eq!(c.max_db_connection, 10);
    assert_eq!(c.database_url, "postgres://localhost/relayer");
}

#[test]
fn configuration_names_the_first_bad_value() {
    assert!(matches!(
        Configuration::from_values("Nowhere", "8080", "u", "10"),
        Err(ConfigError::InvalidEnvironment)
    ));
    assert!(matches!(
        Configuration::from_values("Local", "port", "u", "10"),
        Err(ConfigError::InvalidPort)
    ));
    assert!(matches!(
        Configuration::from_values("Local", "8080", "u", "lots"),
        Err(ConfigError::InvalidMaxConnections)
    ));
}
