use twitter_sibyl_system::config::{
    from_env, parse_unsigned, read_optional_number, split_topics, ConfigError, Environment,
    Variable, DEFAULT_BATCH_SIZE,
};

fn full_environment() -> Environment {
    Environment {
        port: Some("8080".to_owned()),
        host: Some("127.0.0.1".to_owned()),
        consumer_key: Some("ck".to_owned()),
        consumer_secret: Some("cs".to_owned()),
        access_key: Some("ak".to_owned()),
        access_secret: Some("as".to_owned()),
        topics: Some("rust,verus".to_owned()),
        batch_size: Some("250".to_owned()),
        workers: Some("4".to_owned()),
    }
}

#[test]
fn full_environment_gives_its_configuration() {
    let config = from_env(full_environment()).expect("configuration");
    assert_eq!(config.server.host, "127.0.0.1");
    assert_eq!(config.server.port, 8080);
    assert_eq!(config.scraper.consumer_key, "ck");
    assert_eq!(config.scraper.consumer_secret, "cs");
    assert_eq!(config.scraper.access_key, "ak");
    assert_eq!(config.scraper.access_secret, "as");
    assert_eq!(config.scraper.topics, vec!["rust".to_owned(), "verus".to_owned()]);
    assert_eq!(config.scraper.batch_size, Some(250));
    assert_eq!(config.scraper.workers, Some(4));
}

#[test]
fn host_defaults_to_all_addresses() {
    let mut env = full_environment();
    env.host = None;
    assert_eq!(from_env(env).expect("configuration").server.host, "0.0.0.0");
}

#[test]
fn optional_numbers_may_be_missing_or_unreadable() {
    let mut env = full_environment();
    env.batch_size = None;
    env.workers = Some("many".to_owned());
    let config = from_env(env).expect("configuration");
    assert_eq!(config.scraper.batch_size, None);
    assert_eq!(config.scraper.workers, None);
}

#[test]
fn missing_port_is_the_first_error() {
    let mut env = full_environment();
    env.port = None;
    env.consumer_key = None;
    env.topics = None;
    assert_eq!(from_env(env).err(), Some(ConfigError::Missing(Variable::Port)));
}

#[test]
fn unreadable_port_is_an_error() {
    let ports: Vec<&str> = vec!["", "+", "-1", "65536", "80 ", " 80", "8o", "0x50", "1_000", "99999999999999999999"];
    for port in ports {
        let mut env = full_environment();
        env.port = Some(port.to_owned());
        env.consumer_key = None;
        assert_eq!(from_env(env).err(), Some(ConfigError::Unparsable(Variable::Port)));
    }
}

#[test]
fn each_missing_credential_is_named_in_turn() {
    let mut env = full_environment();
    env.consumer_key = None;
    env.consumer_secret = None;
    env.access_key = None;
    env.access_secret = None;
    env.topics = None;
    assert_eq!(from_env(env.clone()).err(), Some(ConfigError::Missing(Variable::ConsumerKey)));
    env.consumer_key = Some("ck".to_owned());
    assert_eq!(from_env(env.clone()).err(), Some(ConfigError::Missing(Variable::ConsumerSecret)));
    env.consumer_secret = Some("cs".to_owned());
    assert_eq!(from_env(env.clone()).err(), Some(ConfigError::Missing(Variable::AccessKey)));
    env.access_key = Some("ak".to_owned());
    assert_eq!(from_env(env.clone()).err(), Some(ConfigError::Missing(Variable::AccessSecret)));
    env.access_secret = Some("as".to_owned());
    assert_eq!(from_env(env.clone()).err(), Some(ConfigError::Missing(Variable::Topics)));
    env.topics = Some(String::new());
    assert_eq!(from_env(env).expect("configuration").scraper.topics, vec![String::new()]);
}

#[test]
fn error_messages_name_the_variable() {
    assert_eq!(ConfigError::Missing(Variable::Port).message(), "No PORT in environment variables");
    assert_eq!(
        ConfigError::Missing(Variable::ConsumerKey).message(),
        "No CONSUMER_KEY in environment variables"
    );
    assert_eq!(
        ConfigError::Missing(Variable::ConsumerSecret).message(),
        "No CONSUMER_SECRET in environment variables"
    );
    assert_eq!(
        ConfigError::Missing(Variable::AccessKey).message(),
        "No ACCESS_KEY in environment variables"
    );
    assert_eq!(
        ConfigError::Missing(Variable::AccessSecret).message(),
        "No ACCESS_SECRET in environment variables"
    );
    assert_eq!(ConfigError::Missing(Variable::Topics).message(), "No TOPICS in environment variables");
    assert_eq!(ConfigError::Unparsable(Variable::Port).message(), "Could not parse PORT as u16");
}

#[test]
fn variable_names_are_those_of_the_environment() {
    assert_eq!(Variable::Port.name(), "PORT");
    assert_eq!(Variable::ConsumerKey.name(), "CONSUMER_KEY");
    assert_eq!(Variable::ConsumerSecret.name(), "CONSUMER_SECRET");
    assert_eq!(Variable::AccessKey.name(), "ACCESS_KEY");
    assert_eq!(Variable::AccessSecret.name(), "ACCESS_SECRET");
    assert_eq!(Variable::Topics.name(), "TOPICS");
}

#[test]
fn parse_unsigned_reads_decimal_numbers() {
    assert_eq!(parse_unsigned("0", 65535), Some(0));
    assert_eq!(parse_unsigned("8080", 65535), Some(8080));
    assert_eq!(parse_unsigned("+8080", 65535), Some(8080));
    assert_eq!(parse_unsigned("000123", 65535), Some(123));
    assert_eq!(parse_unsigned("65535", 65535), Some(65535));
    assert_eq!(parse_unsigned("18446744073709551615", u64::MAX), Some(u64::MAX));
    assert_eq!(parse_unsigned("7", 7), Some(7));
    assert_eq!(parse_unsigned("0", 0), Some(0));
}

#[test]
fn parse_unsigned_agrees_with_std_on_what_it_refuses() {
    let texts: Vec<&str> = vec![
        "", "+", "++1", "-0", "-1", "65536", "18446744073709551616", "1 ", " 1", "1.0", "1e3", "0x10",
        "１２", "12a", "a12", "+-1", "1+", "١٢", "70000", "+65535", "+065535", "00065536",
    ];
    for text in texts {
        assert_eq!(parse_unsigned(text, 65535), text.parse::<u16>().ok().map(u64::from));
        assert_eq!(parse_unsigned(text, u64::MAX), text.parse::<u64>().ok());
    }
}

#[test]
fn parse_unsigned_respects_the_limit() {
    assert_eq!(parse_unsigned("8", 7), None);
    assert_eq!(parse_unsigned("10", 9), None);
    assert_eq!(parse_unsigned("1", 0), None);
    assert_eq!(parse_unsigned("18446744073709551616", u64::MAX), None);
}

#[test]
fn read_optional_number_takes_what_is_readable() {
    assert_eq!(read_optional_number(&None), None);
    assert_eq!(read_optional_number(&Some("12".to_owned())), Some(12));
    assert_eq!(read_optional_number(&Some("twelve".to_owned())), None);
    assert_eq!(read_optional_number(&Some(String::new())), None);
}

#[test]
fn split_topics_parts_at_each_comma() {
    assert_eq!(split_topics("rust"), vec!["rust".to_owned()]);
    assert_eq!(split_topics("rust,verus,z3"), vec!["rust".to_owned(), "verus".to_owned(), "z3".to_owned()]);
    assert_eq!(split_topics(""), vec![String::new()]);
    assert_eq!(split_topics(","), vec![String::new(), String::new()]);
    assert_eq!(split_topics("a,,b,"), vec!["a".to_owned(), String::new(), "b".to_owned(), String::new()]);
    assert_eq!(split_topics(" a , b "), vec![" a ".to_owned(), " b ".to_owned()]);
    assert_eq!(split_topics("ünï,côdé"), vec!["ünï".to_owned(), "côdé".to_owned()]);
}

#[test]
fn split_topics_agrees_with_std_and_rejoins() {
    let texts: Vec<&str> = vec!["", ",", ",,", "a", "a,b", ",a", "a,", "a, b,,c ,", "日本,語"];
    for text in texts {
        let fields = split_topics(text);
        let expected: Vec<String> = text.split(",").map(|field| field.to_owned()).collect();
        assert_eq!(fields, expected);
        assert_eq!(fields.join(","), text);
    }
}

#[test]
fn default_batch_size_is_one_hundred() {
    assert_eq!(DEFAULT_BATCH_SIZE, 100);
}
