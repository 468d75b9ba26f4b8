use tui_service::option_symbol::{days_of, days_to_expiry, option_symbol_parts, OptionSymbolParts};

fn strike(p: &OptionSymbolParts) -> f64 {
    let raw: f64 = p.strike_text.parse().expect("strike text is a number");
    if raw > 100_000.0 {
        raw / 1000.0
    } else {
        raw
    }
}

fn today_days() -> i64 {
    let secs = std::time::SystemTime::now()
        .duration_since(std::time::UNIX_EPOCH)
        .map(|d| d.as_secs())
        .unwrap_or(0);
    (secs / 86_400) as i64
}

fn tte_years(p: &OptionSymbolParts) -> f64 {
    days_to_expiry(p.expiry, today_days()) as f64 / 365.25
}

#[test]
fn test_parse_spx_call() {
    let sym = "SPX 20991231C5000";
    let parsed = option_symbol_parts(sym).expect("should parse");
    assert!(parsed.is_call);
    assert!((strike(&parsed) - 5000.0).abs() < 0.01);
    assert!(tte_years(&parsed) > 0.0);
}

#[test]
fn test_parse_occ_put() {
    let sym = "SPX 20991231P05000000";
    let parsed = option_symbol_parts(sym).expect("should parse OCC format");
    assert!(!parsed.is_call);
    assert!((strike(&parsed) - 5000.0).abs() < 0.01);
}

#[test]
fn test_parse_no_cp() {
    assert!(option_symbol_parts("SPX 20250321X5000").is_none());
}

#[test]
fn test_parse_too_short_date() {
    assert!(option_symbol_parts("SPX 2503C5000").is_none());
}

#[test]
fn six_digit_dates_and_padding_are_read() {
    let p = option_symbol_parts("  SPX  250620C05000000 ").expect("OCC padded");
    assert_eq!(p.expiry, (2025, 6, 20));
    assert!(p.is_call);
    assert_eq!(p.strike_text, "05000000");
}

#[test]
fn invalid_dates_and_strikes_are_rejected() {
    assert!(option_symbol_parts("SPX 20251340C5000").is_none());
    assert!(option_symbol_parts("SPX 2025032C5000").is_none());
    assert!(option_symbol_parts("SPX 20250321Cabc").is_none());
}

#[test]
fn days_count_from_the_unix_epoch() {
    assert_eq!(days_of((1970, 1, 1)), 0);
    assert_eq!(days_of((1969, 12, 31)), -1);
    assert_eq!(days_of((2000, 3, 1)), 11017);
    assert_eq!(days_of((2024, 2, 29)), 19782);
    assert_eq!(days_of((1, 1, 1)), -719162);
}

#[test]
fn days_to_expiry_is_never_negative() {
    assert_eq!(days_to_expiry((2024, 2, 29), 19780), 2);
    assert_eq!(days_to_expiry((2024, 2, 29), 20000), 0);
}
