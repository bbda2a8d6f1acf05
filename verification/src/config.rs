use vstd::prelude::*;
use crate::text::{parse_i64, parse_u16, spec_parse_i64, spec_parse_u16};

verus! {

/// The settings the server runs with.
#[derive(Clone, Debug, PartialEq, Eq)]
pub struct AppConfig {
    pub port: u16,
    pub host: String,
    pub database_url: String,
    pub jwt_secret: String,
    pub jwt_expiration_hours: i64,
    pub jwt_refresh_expiration_days: i64,
    pub upload_dir: String,
}

/// A setting read as text: its value when given, else the default text.
pub open spec fn text_or(given: Option<String>, default: Seq<char>) -> Seq<char> {
    match given {
        Some(s) => s@,
        None => default,
    }
}

/// A setting read as text and parsed; the default when the text is absent
/// or does not parse.
pub open spec fn port_or(given: Option<String>, default: u16) -> u16 {
    match given {
        Some(s) => match spec_parse_u16(s@) {
            Some(v) => v,
            None => default,
        },
        None => default,
    }
}

/// As `port_or`, for whole numbers.
pub open spec fn number_or(given: Option<String>, default: i64) -> i64 {
    match given {
        Some(s) => match spec_parse_i64(s@) {
            Some(v) => v,
            None => default,
        },
        None => default,
    }
}

/// The text of a setting, or its default.
fn text_setting(given: Option<String>, default: &str) -> (r: String)
    ensures
        r@ == text_or(given, default@),
{
    match given {
        Some(s) => s,
        None => String::from_str(default),
    }
}

impl AppConfig {
    /// The configuration from the raw settings (`PORT`, `HOST`,
    /// `DATABASE_URL`, `JWT_SECRET`, `JWT_EXPIRATION_HOURS`,
    /// `JWT_REFRESH_EXPIRATION_DAYS`, `UPLOAD_DIR`), each `None` when unset.
    /// Unset settings take their defaults, and so do numbers that do not parse.
    pub fn from_settings(
        port: Option<String>,
        host: Option<String>,
        database_url: Option<String>,
        jwt_secret: Option<String>,
        jwt_expiration_hours: Option<String>,
        jwt_refresh_expiration_days: Option<String>,
        upload_dir: Option<String>,
    ) -> (c: AppConfig)
        ensures
            c.port == port_or(port, 8090),
            c.host@ == text_or(host, "0.0.0.0"@),
            c.database_url@ == text_or(database_url, "sqlite:lions_pos.db?mode=rwc"@),
            c.jwt_secret@ == text_or(
                jwt_secret,
                "lions_pos_super_secret_jwt_key_2026_change_in_production"@,
            ),
            c.jwt_expiration_hours == number_or(jwt_expiration_hours, 24),
            c.jwt_refresh_expiration_days == number_or(jwt_refresh_expiration_days, 30),
            c.upload_dir@ == text_or(upload_dir, "./uploads"@),
    {
        let port = match &port {
            Some(s) => match parse_u16(s.as_str()) {
                Some(v) => v,
                None => 8090,
            },
            None => 8090,
        };
        let jwt_expiration_hours = match &jwt_expiration_hours {
            Some(s) => match parse_i64(s.as_str()) {
                Some(v) => v,
                None => 24,
            },
            None => 24,
        };
        let jwt_refresh_expiration_days = match &jwt_refresh_expiration_days {
            Some(s) => match parse_i64(s.as_str()) {
                Some(v) => v,
                None => 30,
            },
            None => 30,
        };
        AppConfig {
            port,
            host: text_setting(host, "0.0.0.0"),
            database_url: text_setting(database_url, "sqlite:lions_pos.db?mode=rwc"),
            jwt_secret: text_setting(
                jwt_secret,
                "lions_pos_super_secret_jwt_key_2026_change_in_production",
            ),
            jwt_expiration_hours,
            jwt_refresh_expiration_days,
            upload_dir: text_setting(upload_dir, "./uploads"),
        }
    }

    /// How long a refresh token lives, in hours: the configured days times 24.
    pub fn refresh_expiration_hours(&self) -> (h: i64)
        requires
            i64::MIN <= self.jwt_refresh_expiration_days * 24 <= i64::MAX,
        ensures
            h == self.jwt_refresh_expiration_days * 24,
    {
        self.jwt_refresh_expiration_days * 24
    }
}

} // verus!
