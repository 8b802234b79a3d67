use svg_rasterizer::config::Config;
use svg_rasterizer::error::ServiceError;
use svg_rasterizer::health::HealthReport;
use svg_rasterizer::text::{find_bytes, parse_unsigned};

#[test]
fn default_config_values() {
    let c = Config::default();
    assert_eq!(c.port, 3000);
    assert_eq!(c.redis_url, "redis://localhost:6379");
    assert_eq!((c.max_width, c.max_height), (4096, 4096));
    assert_eq!((c.default_width, c.default_height), (1024, 1024));
    assert_eq!(c.min_dimension, 32);
}

#[test]
fn absent_dimensions_take_defaults() {
    let c = Config::default();
    assert_eq!(c.validate_dimensions(None, None), (1024, 1024));
    assert_eq!(c.validate_dimensions(Some(300), None), (300, 1024));
}

#[test]
fn dimensions_are_clamped_into_bounds() {
    let c = Config::default();
    assert_eq!(c.validate_dimensions(Some(100000), Some(1)), (4096, 32));
    assert_eq!(c.validate_dimensions(Some(0), Some(u32::MAX)), (32, 4096));
    assert_eq!(c.validate_dimensions(Some(32), Some(4096)), (32, 4096));
    for w in [0u32, 1, 31, 32, 33, 500, 4095, 4096, 4097, u32::MAX] {
        let (rw, rh) = c.validate_dimensions(Some(w), Some(w));
        assert!(32 <= rw && rw <= 4096);
        assert!(32 <= rh && rh <= 4096);
    }
}

#[test]
fn settings_override_defaults() {
    let c = Config::from_settings(Some("8080"), Some("redis://cache:6380".to_string()), Some("2048"))
        .ok()
        .unwrap();
    assert_eq!(c.port, 8080);
    assert_eq!(c.redis_url, "redis://cache:6380");
    assert_eq!((c.max_width, c.max_height), (2048, 2048));
    assert_eq!(c.default_width, 1024);
    let d = Config::from_settings(None, None, None).ok().unwrap();
    assert_eq!(d.port, 3000);
    assert_eq!(d.max_width, 4096);
}

#[test]
fn invalid_settings_are_validation_errors() {
    assert!(matches!(
        Config::from_settings(Some("70000"), None, None),
        Err(ServiceError::ValidationError(_))
    ));
    assert!(matches!(
        Config::from_settings(Some("80a"), None, None),
        Err(ServiceError::ValidationError(_))
    ));
    assert!(matches!(
        Config::from_settings(None, None, Some("-5")),
        Err(ServiceError::ValidationError(_))
    ));
    assert!(matches!(
        Config::from_settings(None, None, Some("4294967296")),
        Err(ServiceError::ValidationError(_))
    ));
}

#[test]
fn unsigned_parsing() {
    assert_eq!(parse_unsigned("0", 10), Some(0));
    assert_eq!(parse_unsigned("+42", 100), Some(42));
    assert_eq!(parse_unsigned("100", 100), Some(100));
    assert_eq!(parse_unsigned("101", 100), None);
    assert_eq!(parse_unsigned("", 100), None);
    assert_eq!(parse_unsigned("+", 100), None);
    assert_eq!(parse_unsigned(" 1", 100), None);
    assert_eq!(parse_unsigned("18446744073709551615", u64::MAX), Some(u64::MAX));
    assert_eq!(parse_unsigned("18446744073709551616", u64::MAX), None);
    assert_eq!(parse_unsigned("99999999999999999999999", 7), None);
}

#[test]
fn byte_search() {
    assert!(find_bytes(b"abc<svg x", b"<svg"));
    assert!(find_bytes(b"<svg", b"<svg"));
    assert!(!find_bytes(b"<sv", b"<svg"));
    assert!(!find_bytes(b"<SVG>", b"<svg"));
    assert!(find_bytes(b"", b""));
}

#[test]
fn error_statuses_and_kinds() {
    let cases = [
        (ServiceError::ValidationError("x".to_string()), 400, "validation_error"),
        (ServiceError::RateLimitExceeded, 429, "rate_limit_exceeded"),
        (ServiceError::RequestError("x".to_string()), 502, "request_error"),
        (ServiceError::CacheError("x".to_string()), 500, "cache_error"),
        (ServiceError::RedisError("x".to_string()), 500, "redis_error"),
        (ServiceError::SvgProcessingError("x".to_string()), 400, "svg_processing_error"),
    ];
    for (e, status, kind) in cases {
        assert_eq!(e.status_code(), status);
        assert_eq!(e.kind(), kind);
    }
}

#[test]
fn backend_detail_does_not_leak_into_messages() {
    let secret = "connection refused at 10.0.0.7:6379";
    let store = ServiceError::CacheError(secret.to_string()).message();
    let redis = ServiceError::RedisError(secret.to_string()).message();
    let upstream = ServiceError::RequestError(secret.to_string()).message();
    assert!(!store.contains(secret) && !redis.contains(secret) && !upstream.contains(secret));
    assert_eq!(
        ServiceError::ValidationError("too big".to_string()).message(),
        "Invalid input: too big"
    );
    assert_eq!(
        ServiceError::SvgProcessingError("bad path".to_string()).message(),
        "Failed to process SVG: bad path"
    );
    assert_eq!(ServiceError::RateLimitExceeded.message(), "Rate limit exceeded");
}

#[test]
fn health_report_from_probe() {
    let ok = HealthReport::from_probe(&Ok(()));
    assert!(!ok.degraded);
    assert_eq!(ok.status(), "ok");
    assert!(ok.store_error.is_none());
    let bad = HealthReport::from_probe(&Err(ServiceError::CacheError("down".to_string())));
    assert!(bad.degraded);
    assert_eq!(bad.status(), "degraded");
    assert_eq!(bad.store_error.unwrap(), "Cache unavailable");
}
