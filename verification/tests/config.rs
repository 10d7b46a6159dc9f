use event_groups::config::{parse_port, strip_prefixes, Config, ConfigError, MAX_CONNECTIONS};

fn text(s: &str) -> Option<String> {
    Some(s.to_string())
}

#[test]
fn defaults_apply_when_host_and_port_are_absent() {
    let c = Config::from_vars(text("sqlite:data/app.db"), None, None).unwrap();
    assert_eq!(c.database_url, "sqlite:data/app.db");
    assert_eq!(c.server_host, "127.0.0.1");
    assert_eq!(c.server_port, 3000);
}

#[test]
fn given_host_and_port_are_taken() {
    let c = Config::from_vars(text("sqlite::memory:"), text("0.0.0.0"), text("8080")).unwrap();
    assert_eq!(c.server_host, "0.0.0.0");
    assert_eq!(c.server_port, 8080);
    assert_eq!(c.listen_address(), "0.0.0.0:8080");
}

#[test]
fn missing_database_url_is_an_error() {
    assert_eq!(
        Config::from_vars(None, text("h"), text("1")),
        Err(ConfigError::MissingDatabaseUrl)
    );
}

#[test]
fn port_must_be_an_unsigned_16_bit_number() {
    let url = || text("sqlite:x.db");
    assert_eq!(Config::from_vars(url(), None, text("65535")).unwrap().server_port, 65535);
    assert_eq!(Config::from_vars(url(), None, text("0")).unwrap().server_port, 0);
    assert_eq!(Config::from_vars(url(), None, text("+80")).unwrap().server_port, 80);
    assert_eq!(Config::from_vars(url(), None, text("00443")).unwrap().server_port, 443);
    assert_eq!(Config::from_vars(url(), None, text("65536")), Err(ConfigError::InvalidPort));
    assert_eq!(Config::from_vars(url(), None, text("")), Err(ConfigError::InvalidPort));
    assert_eq!(Config::from_vars(url(), None, text("+")), Err(ConfigError::InvalidPort));
    assert_eq!(Config::from_vars(url(), None, text("-1")), Err(ConfigError::InvalidPort));
    assert_eq!(Config::from_vars(url(), None, text(" 80")), Err(ConfigError::InvalidPort));
    assert_eq!(Config::from_vars(url(), None, text("80 ")), Err(ConfigError::InvalidPort));
    assert_eq!(Config::from_vars(url(), None, text("8o")), Err(ConfigError::InvalidPort));
    assert_eq!(Config::from_vars(url(), None, text("0x50")), Err(ConfigError::InvalidPort));
}

#[test]
fn database_path_drops_the_scheme() {
    let c = Config::from_vars(text("sqlite:data/app.db"), None, None).unwrap();
    assert_eq!(c.database_path(), "data/app.db");
    let twice = Config::from_vars(text("sqlite:sqlite:x.db"), None, None).unwrap();
    assert_eq!(twice.database_path(), "x.db");
    let bare = Config::from_vars(text("/var/lib/app.db"), None, None).unwrap();
    assert_eq!(bare.database_path(), "/var/lib/app.db");
    let inner = Config::from_vars(text("file:sqlite:x.db"), None, None).unwrap();
    assert_eq!(inner.database_path(), "file:sqlite:x.db");
}

#[test]
fn pool_is_capped_at_ten_connections() {
    assert_eq!(MAX_CONNECTIONS, 10);
}

#[test]
fn prefixes_are_taken_off_as_often_as_they_stand() {
    assert_eq!(strip_prefixes("ababc", "ab"), "c");
    assert_eq!(strip_prefixes("abc", "bc"), "abc");
    assert_eq!(strip_prefixes("aaa", "a"), "");
    assert_eq!(strip_prefixes("abc", ""), "abc");
    assert_eq!(strip_prefixes("", ""), "");
    assert_eq!(strip_prefixes("ab", "abc"), "ab");
}

#[test]
fn ports_are_read_as_decimal_numbers() {
    assert_eq!(parse_port("3000"), Some(3000));
    assert_eq!(parse_port("+1"), Some(1));
    assert_eq!(parse_port("70000"), None);
    assert_eq!(parse_port("12a"), None);
    assert_eq!(parse_port(""), None);
}
