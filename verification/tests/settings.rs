use person_service::config::{
    max_connections_setting, port_setting, Config, DEFAULT_MAX_CONNECTIONS, DEFAULT_PORT,
};

#[test]
fn the_database_url_is_required() {
    let error = Config::from_values(None, Some("80".to_owned()), None).unwrap_err();

    assert_eq!(
        error.message(),
        "DATABASE_URL must be set to a PostgreSQL connection string"
    );
}

#[test]
fn missing_numbers_fall_back_to_their_defaults() {
    let config = Config::from_values(Some("postgres://db".to_owned()), None, None).unwrap();

    assert_eq!(config.database_url, "postgres://db");
    assert_eq!(config.port, 8080);
    assert_eq!(config.max_connections, 5);
    assert_eq!(DEFAULT_PORT, 8080);
    assert_eq!(DEFAULT_MAX_CONNECTIONS, 5);
}

#[test]
fn given_numbers_are_used() {
    let config = Config::from_values(
        Some("postgres://db".to_owned()),
        Some("3000".to_owned()),
        Some("+12".to_owned()),
    )
    .unwrap();

    assert_eq!(config.port, 3000);
    assert_eq!(config.max_connections, 12);
}

#[test]
fn unreadable_numbers_fall_back_to_their_defaults() {
    assert_eq!(port_setting(&Some("65536".to_owned())), 8080);
    assert_eq!(port_setting(&Some("-1".to_owned())), 8080);
    assert_eq!(port_setting(&Some(" 80".to_owned())), 8080);
    assert_eq!(port_setting(&Some("".to_owned())), 8080);
    assert_eq!(port_setting(&Some("+".to_owned())), 8080);
    assert_eq!(port_setting(&Some("65535".to_owned())), 65535);
    assert_eq!(max_connections_setting(&Some("4294967296".to_owned())), 5);
    assert_eq!(max_connections_setting(&Some("4294967295".to_owned())), u32::MAX);
    assert_eq!(max_connections_setting(&Some("ten".to_owned())), 5);
}

#[test]
fn numbers_are_read_as_str_parse_reads_them() {
    let samples = [
        "0", "7", "+7", "007", "65535", "65536", "99999", "-0", "+-1", "1_000", "1e3", "", "+",
        "++1", " 1", "1 ", "४", "4294967295", "4294967296", "18446744073709551616",
    ];
    for sample in samples {
        let value = Some(sample.to_owned());
        assert_eq!(
            port_setting(&value),
            sample.parse::<u16>().unwrap_or(DEFAULT_PORT),
            "port from {sample:?}"
        );
        assert_eq!(
            max_connections_setting(&value),
            sample.parse::<u32>().unwrap_or(DEFAULT_MAX_CONNECTIONS),
            "pool size from {sample:?}"
        );
    }
}
