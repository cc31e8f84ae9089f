use bulk_downloader::config::ConfigError;
use bulk_downloader::config::RunConfig;
use bulk_downloader::config::DEFAULT_CONCURRENCY;
use bulk_downloader::config::DEFAULT_RATE_LIMIT;
use bulk_downloader::config::DEFAULT_RETRIES;
use bulk_downloader::record::output_file_name;
use bulk_downloader::record::DownloadRecord;

fn config(concurrency: usize, rate_limit: u32, retries: u32) -> Result<RunConfig, ConfigError> {
    RunConfig::new(String::from("art.csv"), String::from("images"), concurrency, rate_limit, retries)
}

#[test]
fn defaults() {
    assert_eq!(DEFAULT_CONCURRENCY, 50);
    assert_eq!(DEFAULT_RATE_LIMIT, 500);
    assert_eq!(DEFAULT_RETRIES, 3);
}

#[test]
fn valid_limits_are_kept() {
    match config(2, 10, 1) {
        Ok(cfg) => {
            assert_eq!(cfg.input_path(), "art.csv");
            assert_eq!(cfg.output_dir(), "images");
            assert_eq!(cfg.concurrency(), 2);
            assert_eq!(cfg.rate_limit(), 10);
            assert_eq!(cfg.max_retries(), 1);
        }
        Err(_) => panic!("the limits are valid"),
    }
}

#[test]
fn zero_retries_are_valid() {
    assert!(config(1, 1, 0).is_ok());
}

#[test]
fn zero_rate_limit_is_refused() {
    assert!(matches!(config(50, 0, 3), Err(ConfigError::ZeroRateLimit)));
    assert!(matches!(config(0, 0, 3), Err(ConfigError::ZeroRateLimit)));
    assert_eq!(ConfigError::ZeroRateLimit.message(), "Rate limit must be > 0");
}

#[test]
fn zero_concurrency_is_refused() {
    assert!(matches!(config(0, 500, 3), Err(ConfigError::ZeroConcurrency)));
    assert_eq!(ConfigError::ZeroConcurrency.message(), "Concurrency must be > 0");
}

#[test]
fn file_names() {
    assert_eq!(output_file_name(0), "0.jpg");
    assert_eq!(output_file_name(1), "1.jpg");
    assert_eq!(output_file_name(9), "9.jpg");
    assert_eq!(output_file_name(10), "10.jpg");
    assert_eq!(output_file_name(1234567890), "1234567890.jpg");
    assert_eq!(output_file_name(i32::MAX), "2147483647.jpg");
    assert_eq!(output_file_name(-5), "-5.jpg");
    assert_eq!(output_file_name(i32::MIN), "-2147483648.jpg");
}

#[test]
fn record_knows_its_file_name() {
    let record = DownloadRecord::new(42, String::from("http://example.com/42"));
    assert_eq!(record.id, 42);
    assert_eq!(record.url, "http://example.com/42");
    assert_eq!(record.output_file_name(), "42.jpg");
}

#[test]
fn parse_keeps_the_url_as_the_parser_writes_it() {
    match DownloadRecord::parse(7, "HTTP://Example.COM") {
        Some(record) => {
            assert_eq!(record.id, 7);
            assert_eq!(record.url, "http://example.com/");
        }
        None => panic!("the address is absolute"),
    }
    match DownloadRecord::parse(8, "https://example.com/a b.jpg?x=1") {
        Some(record) => assert_eq!(record.url, "https://example.com/a%20b.jpg?x=1"),
        None => panic!("the address is absolute"),
    }
}

#[test]
fn parse_refuses_what_is_no_absolute_url() {
    assert!(DownloadRecord::parse(1, "").is_none());
    assert!(DownloadRecord::parse(1, "images/1.jpg").is_none());
    assert!(DownloadRecord::parse(1, "http://").is_none());
}
