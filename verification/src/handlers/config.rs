use vstd::prelude::*;

use crate::text::decimal::{parse_i64, parse_signed, parse_u16, parse_unsigned};

verus! {

/// The mail server settings.
#[derive(Clone, Debug)]
pub struct EmailConfig {
    pub smtp_host: String,
    pub smtp_port: u16,
    pub smtp_user: String,
    pub smtp_pass: String,
    pub smtp_from: String,
    pub smtp_to: String,
}

/// The database and token settings.
#[derive(Clone, Debug)]
pub struct DBConfig {
    pub database_url: String,
    pub jwt_secret: String,
    pub jwt_maxage: i64,
    pub port: u16,
}

impl EmailConfig {
    /// The settings from their texts; `None` exactly where the port is not a `u16` as
    /// `str::parse` reads one.
    pub fn from_settings(
        smtp_host: String,
        smtp_port: &str,
        smtp_user: String,
        smtp_pass: String,
        smtp_from: String,
        smtp_to: String,
    ) -> (r: Option<EmailConfig>)
        ensures
            r is Some <==> parse_unsigned(smtp_port@, u16::MAX as int) is Some,
            r matches Some(c) ==> {
                &&& Some(c.smtp_port as int) == parse_unsigned(smtp_port@, u16::MAX as int)
                &&& c.smtp_host == smtp_host
                &&& c.smtp_user == smtp_user
                &&& c.smtp_pass == smtp_pass
                &&& c.smtp_from == smtp_from
                &&& c.smtp_to == smtp_to
            },
    {
        match parse_u16(smtp_port) {
            Some(port) => Some(
                EmailConfig { smtp_host, smtp_port: port, smtp_user, smtp_pass, smtp_from, smtp_to },
            ),
            None => None,
        }
    }
}

impl DBConfig {
    /// The settings from their texts, served on port 8000; `None` exactly where the token
    /// lifetime is not an `i64` as `str::parse` reads one.
    pub fn from_settings(database_url: String, jwt_secret: String, jwt_maxage: &str) -> (r:
        Option<DBConfig>)
        ensures
            r is Some <==> parse_signed(jwt_maxage@, i64::MIN as int, i64::MAX as int) is Some,
            r matches Some(c) ==> {
                &&& Some(c.jwt_maxage as int) == parse_signed(
                    jwt_maxage@,
                    i64::MIN as int,
                    i64::MAX as int,
                )
                &&& c.database_url == database_url
                &&& c.jwt_secret == jwt_secret
                &&& c.port == 8000
            },
    {
        match parse_i64(jwt_maxage) {
            Some(maxage) => Some(DBConfig { database_url, jwt_secret, jwt_maxage: maxage, port: 8000 }),
            None => None,
        }
    }
}

} // verus!
