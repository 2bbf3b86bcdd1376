use tradesnap::config::{ConfigError, DotenvFailure};
use tradesnap::{Config, TradingViewScraper};

fn env(pairs: &[(&str, &str)]) -> Vec<(String, String)> {
    pairs
        .iter()
        .map(|(k, v)| (k.to_string(), v.to_string()))
        .collect()
}

fn session_env() -> Vec<(String, String)> {
    env(&[
        ("TRADINGVIEW_SESSION_ID", "dummy_session_id"),
        ("TRADINGVIEW_SESSION_ID_SIGN", "dummy_session_id_sign"),
    ])
}

#[test]
fn test_config_from_env_values() {
    let mut vars = session_env();
    vars.push(("RUST_LOG".to_string(), "trace".to_string()));
    let config = Config::from_env(&vars);
    assert!(config.is_ok());

    let config = config.unwrap();
    assert_eq!(config.rust_log, "trace");
    assert_eq!(config.session_id, "dummy_session_id");
    assert_eq!(config.session_id_sign, "dummy_session_id_sign");
}

#[test]
fn test_config_defaults() {
    let config = Config::from_env(&session_env()).unwrap();
    assert_eq!(config.rust_log, "info");
    assert!(config.headless);
    assert_eq!(config.window_width, 1920);
    assert_eq!(config.window_height, 1080);
    assert_eq!(config.chart_page_id, "");
    assert!(config.use_save_shortcut);
    assert_eq!(config.request_timeout_seconds, 20);
}

#[test]
fn test_config_overrides() {
    let mut vars = session_env();
    vars.extend(env(&[
        ("MCP_SCRAPER_HEADLESS", "  FALSE "),
        ("MCP_SCRAPER_WINDOW_WIDTH", "+1280"),
        ("MCP_SCRAPER_WINDOW_HEIGHT", "720"),
        ("MCP_SCRAPER_CHART_PAGE_ID", "abc123"),
        ("MCP_SCRAPER_USE_SAVE_SHORTCUT", " True\n"),
        ("TRADESNAP_REQUEST_TIMEOUT_SECONDS", "18446744073709551615"),
    ]));
    let config = Config::from_env(&vars).unwrap();
    assert!(!config.headless);
    assert_eq!(config.window_width, 1280);
    assert_eq!(config.window_height, 720);
    assert_eq!(config.chart_page_id, "abc123");
    assert!(config.use_save_shortcut);
    assert_eq!(config.request_timeout_seconds, u64::MAX);
}

#[test]
fn test_config_first_pair_wins() {
    let mut vars = session_env();
    vars.push(("RUST_LOG".to_string(), "debug".to_string()));
    vars.push(("RUST_LOG".to_string(), "warn".to_string()));
    assert_eq!(Config::from_env(&vars).unwrap().rust_log, "debug");
}

#[test]
fn test_config_missing_session_id() {
    let vars = env(&[("TRADINGVIEW_SESSION_ID_SIGN", "sign")]);
    match Config::from_env(&vars) {
        Err(ConfigError::MissingVar(key)) => assert_eq!(key, "TRADINGVIEW_SESSION_ID"),
        other => panic!("unexpected: {:?}", other),
    }
}

#[test]
fn test_config_missing_session_id_sign() {
    let vars = env(&[("TRADINGVIEW_SESSION_ID", "id")]);
    match Config::from_env(&vars) {
        Err(ConfigError::MissingVar(key)) => assert_eq!(key, "TRADINGVIEW_SESSION_ID_SIGN"),
        other => panic!("unexpected: {:?}", other),
    }
}

#[test]
fn test_config_bad_numbers() {
    let cases = [
        ("MCP_SCRAPER_WINDOW_WIDTH", "-1"),
        ("MCP_SCRAPER_WINDOW_WIDTH", "4294967296"),
        ("MCP_SCRAPER_WINDOW_HEIGHT", " 1080"),
        ("MCP_SCRAPER_WINDOW_HEIGHT", ""),
        ("TRADESNAP_REQUEST_TIMEOUT_SECONDS", "+"),
        ("TRADESNAP_REQUEST_TIMEOUT_SECONDS", "1_0"),
    ];
    for (key, value) in cases {
        let mut vars = session_env();
        vars.push((key.to_string(), value.to_string()));
        match Config::from_env(&vars) {
            Err(ConfigError::ParseIntError { key: k, .. }) => assert_eq!(k, key),
            other => panic!("unexpected for {}={:?}: {:?}", key, value, other),
        }
    }
}

#[test]
fn test_config_width_checked_before_height() {
    let mut vars = session_env();
    vars.extend(env(&[
        ("MCP_SCRAPER_WINDOW_HEIGHT", "x"),
        ("MCP_SCRAPER_WINDOW_WIDTH", "y"),
    ]));
    match Config::from_env(&vars) {
        Err(ConfigError::ParseIntError { key, .. }) => assert_eq!(key, "MCP_SCRAPER_WINDOW_WIDTH"),
        other => panic!("unexpected: {:?}", other),
    }
}

#[test]
fn test_parse_flag() {
    assert!(Config::parse_flag("true"));
    assert!(Config::parse_flag("TRUE"));
    assert!(Config::parse_flag(" tRuE\t"));
    assert!(!Config::parse_flag("false"));
    assert!(!Config::parse_flag("1"));
    assert!(!Config::parse_flag("yes"));
    assert!(!Config::parse_flag("true!"));
    assert!(Config::is_true_word("true"));
    assert!(!Config::is_true_word("TRUE"));
}

#[test]
fn test_dotenv_outcome() {
    let missing = dotenvy::Error::Io(std::io::Error::from(std::io::ErrorKind::NotFound));
    let config = Config::from_sources(Some((DotenvFailure::Io, missing)), &session_env()).unwrap();
    assert_eq!(config.session_id, "dummy_session_id");

    let unreadable = dotenvy::Error::Io(std::io::Error::from(std::io::ErrorKind::PermissionDenied));
    assert!(matches!(
        Config::from_sources(Some((DotenvFailure::Io, unreadable)), &Vec::new()),
        Err(ConfigError::MissingVar(_))
    ));

    let bad_line = dotenvy::Error::LineParse("X Y".to_string(), 1);
    match Config::from_sources(Some((DotenvFailure::LineParse, bad_line)), &session_env()) {
        Err(ConfigError::Dotenv(dotenvy::Error::LineParse(line, index))) => {
            assert_eq!(line, "X Y");
            assert_eq!(index, 1);
        }
        other => panic!("unexpected: {:?}", other),
    }

    let other_line = dotenvy::Error::LineParse("=".to_string(), 0);
    assert!(matches!(
        Config::from_sources(Some((DotenvFailure::Other, other_line)), &Vec::new()),
        Err(ConfigError::Dotenv(_))
    ));

    assert!(Config::from_sources(None, &session_env()).is_ok());
    assert!(matches!(
        Config::from_sources(None, &Vec::new()),
        Err(ConfigError::MissingVar(_))
    ));
}

#[test]
fn test_dotenv_failure_is_fatal() {
    assert!(!Config::dotenv_failure_is_fatal(DotenvFailure::Io));
    assert!(Config::dotenv_failure_is_fatal(DotenvFailure::LineParse));
    assert!(Config::dotenv_failure_is_fatal(DotenvFailure::EnvVar));
    assert!(Config::dotenv_failure_is_fatal(DotenvFailure::Other));
}

#[test]
fn test_convert_link_to_image_url() {
    let input = "https://www.tradingview.com/x/abCdEfGh/";
    let output = tradesnap::TradingViewScraper::convert_link_to_image_url(input);
    assert_eq!(
        output,
        Some("https://s3.tradingview.com/snapshots/a/abCdEfGh.png".to_string())
    );

    let input_regional = "https://in.tradingview.com/x/abCdEfG";
    let output_regional = tradesnap::TradingViewScraper::convert_link_to_image_url(input_regional);
    assert_eq!(
        output_regional,
        Some("https://s3.tradingview.com/snapshots/a/abCdEfG.png".to_string())
    );
}

#[test]
fn test_map_interval() {
    assert_eq!(TradingViewScraper::map_interval("15"), "15");
    assert_eq!(TradingViewScraper::map_interval("15m"), "15");
    assert_eq!(TradingViewScraper::map_interval("1h"), "60");
    assert_eq!(TradingViewScraper::map_interval("4H"), "240");
    assert_eq!(TradingViewScraper::map_interval("1D"), "D");
    assert_eq!(TradingViewScraper::map_interval("d"), "D");
    assert_eq!(TradingViewScraper::map_interval("1W"), "W");
    assert_eq!(TradingViewScraper::map_interval("1M"), "M");
    assert_eq!(TradingViewScraper::map_interval("1m"), "1");
}

#[test]
fn test_map_interval_more() {
    assert_eq!(TradingViewScraper::map_interval("2h"), "120");
    assert_eq!(TradingViewScraper::map_interval("2H"), "120");
    assert_eq!(TradingViewScraper::map_interval("4h"), "240");
    assert_eq!(TradingViewScraper::map_interval("1H"), "60");
    assert_eq!(TradingViewScraper::map_interval("1d"), "D");
    assert_eq!(TradingViewScraper::map_interval("D"), "D");
    assert_eq!(TradingViewScraper::map_interval("1w"), "W");
    assert_eq!(TradingViewScraper::map_interval("w"), "W");
    assert_eq!(TradingViewScraper::map_interval("W"), "W");
    assert_eq!(TradingViewScraper::map_interval("  4h \n"), "240");
    assert_eq!(TradingViewScraper::map_interval("\t15m "), "15");
    assert_eq!(TradingViewScraper::map_interval("240M"), "240");
    assert_eq!(TradingViewScraper::map_interval("m"), "");
    assert_eq!(TradingViewScraper::map_interval("M"), "");
    assert_eq!(TradingViewScraper::map_interval("+5m"), "+5m");
    assert_eq!(TradingViewScraper::map_interval("1 m"), "1 m");
    assert_eq!(TradingViewScraper::map_interval("3h"), "3h");
    assert_eq!(TradingViewScraper::map_interval(" weekly "), "weekly");
    assert_eq!(TradingViewScraper::map_interval(""), "");
    assert_eq!(TradingViewScraper::map_interval("\u{3000}60\u{a0}"), "60");
}
