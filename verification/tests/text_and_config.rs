use lions_pos::config::AppConfig;
use lions_pos::text::{format_i64, parse_i64, parse_u16, replace_spaces, strip_prefix, text_after_last_dot};

fn s(x: &str) -> Option<String> {
    Some(x.to_string())
}

#[test]
fn config_defaults_when_unset() {
    let c = AppConfig::from_settings(None, None, None, None, None, None, None);
    assert_eq!(c.port, 8090);
    assert_eq!(c.host, "0.0.0.0");
    assert_eq!(c.database_url, "sqlite:lions_pos.db?mode=rwc");
    assert_eq!(c.jwt_secret, "lions_pos_super_secret_jwt_key_2026_change_in_production");
    assert_eq!(c.jwt_expiration_hours, 24);
    assert_eq!(c.jwt_refresh_expiration_days, 30);
    assert_eq!(c.upload_dir, "./uploads");
}

#[test]
fn config_reads_given_settings() {
    let c = AppConfig::from_settings(
        s("3000"),
        s("127.0.0.1"),
        s("sqlite::memory:"),
        s("k"),
        s("-2"),
        s("+7"),
        s("/tmp/up"),
    );
    assert_eq!(c.port, 3000);
    assert_eq!(c.host, "127.0.0.1");
    assert_eq!(c.database_url, "sqlite::memory:");
    assert_eq!(c.jwt_secret, "k");
    assert_eq!(c.jwt_expiration_hours, -2);
    assert_eq!(c.jwt_refresh_expiration_days, 7);
    assert_eq!(c.upload_dir, "/tmp/up");
}

#[test]
fn config_falls_back_on_unparsable_numbers() {
    let c = AppConfig::from_settings(s("70000"), None, None, None, s("abc"), s(""), None);
    assert_eq!(c.port, 8090);
    assert_eq!(c.jwt_expiration_hours, 24);
    assert_eq!(c.jwt_refresh_expiration_days, 30);
}

#[test]
fn refresh_lifetime_is_days_in_hours() {
    let c = AppConfig::from_settings(None, None, None, None, None, None, None);
    assert_eq!(c.refresh_expiration_hours(), 720);
}

#[test]
fn parse_u16_matches_std() {
    for t in ["0", "8090", "+80", "65535", "65536", "-1", "+", "", "12a", "007", " 1", "-0"] {
        assert_eq!(parse_u16(t), t.parse::<u16>().ok(), "input {:?}", t);
    }
}

#[test]
fn parse_i64_matches_std() {
    for t in [
        "0",
        "-0",
        "24",
        "+24",
        "-24",
        "9223372036854775807",
        "9223372036854775808",
        "-9223372036854775808",
        "-9223372036854775809",
        "-",
        "+",
        "",
        "1e3",
        "99999999999999999999999",
    ] {
        assert_eq!(parse_i64(t), t.parse::<i64>().ok(), "input {:?}", t);
    }
}

#[test]
fn format_i64_matches_std() {
    for n in [0i64, 7, 10, 54000, -1, -47, i64::MAX, i64::MIN] {
        assert_eq!(format_i64(n), n.to_string());
        assert_eq!(parse_i64(&format_i64(n)), Some(n));
    }
}

#[test]
fn replace_spaces_turns_spaces_into_hyphens() {
    assert_eq!(replace_spaces("snack & cemilan"), "snack-&-cemilan");
    assert_eq!(replace_spaces(""), "");
    assert_eq!(replace_spaces("  "), "--");
}

#[test]
fn strip_prefix_matches_std() {
    assert_eq!(strip_prefix("Bearer abc", "Bearer "), Some("abc".to_string()));
    assert_eq!(strip_prefix("Bearer ", "Bearer "), Some(String::new()));
    assert_eq!(strip_prefix("Basic abc", "Bearer "), None);
    assert_eq!(strip_prefix("Bear", "Bearer "), None);
}

#[test]
fn text_after_last_dot_matches_rsplit() {
    for t in ["image.jpg", "a.b.PNG", "noext", "trailing.", ".hidden", ""] {
        assert_eq!(text_after_last_dot(t), t.rsplit('.').next().unwrap());
    }
}
