//! The settings the server reads from its environment, and how the values are read.
use vstd::prelude::*;
use crate::auth::{TIME_MAX, TIME_MIN};
use crate::parsing::{is_digit, lemma_decimal_digits_value, lemma_parse_u64_of_decimal, parse_u16, parse_u64, parsed_u16, parsed_u64};
use crate::strings::decimal;

verus! {

/// The database URL.
#[derive(Debug, Clone, PartialEq)]
pub struct DbUri(pub String);

/// Where the search engine listens, and its key.
#[derive(Debug, Clone, PartialEq)]
pub struct TypesenseConfig {
    pub host: String,
    pub port: u16,
    pub api_key: String,
}

/// The credentials and bucket of the object store.
#[derive(Debug, Clone, PartialEq)]
pub struct AwsConfig {
    pub key_id: String,
    pub access_key: String,
    pub region: String,
    pub bucket_name: String,
}

/// A port setting: the value when it reads as a `u16`, else the default (also when unset).
pub fn port_or_default(value: Option<&str>, default: u16) -> (r: u16)
    ensures
        r == match value {
            Some(v) => match parsed_u16(v@) {
                Some(p) => p,
                None => default,
            },
            None => default,
        },
{
    match value {
        Some(v) => match parse_u16(v) {
            Some(p) => p,
            None => default,
        },
        None => default,
    }
}

/// The number an expiration setting spells, as `u64` parsing reads it, or the default.
pub open spec fn number_or(s: Seq<char>, default: u64) -> int {
    match parsed_u64(s) {
        Some(n) => n as int,
        None => default as int,
    }
}

/// The seconds an expiration setting stands for: `<n>h` is `n` hours, `<n>d` is `n` days,
/// `<n>` is `n` seconds; a number that does not read as `u64` gives the default (which is
/// not scaled).
pub open spec fn expiration_seconds_of(s: Seq<char>, default: u64) -> int {
    if s.len() > 0 && s.last() == 'h' {
        match parsed_u64(s.drop_last()) {
            Some(n) => n * 3600,
            None => default as int,
        }
    } else if s.len() > 0 && s.last() == 'd' {
        match parsed_u64(s.drop_last()) {
            Some(n) => n * 86400,
            None => default as int,
        }
    } else {
        number_or(s, default)
    }
}

/// Reads an expiration setting (`None`: unset, read as the default). The answer is `None`
/// where the hours or days overflow a `u64`, on which the multiplication fails.
pub fn expiration_seconds(value: Option<&str>, default: u64) -> (r: Option<u64>)
    ensures
        value is None ==> r == Some(default),
        value matches Some(v) ==> r == if expiration_seconds_of(v@, default) <= u64::MAX {
            Some(expiration_seconds_of(v@, default) as u64)
        } else {
            None::<u64>
        },
{
    let v = match value {
        None => {
            return Some(default);
        },
        Some(v) => v,
    };
    let n = v.unicode_len();
    if n > 0 {
        let last = v.get_char(n - 1);
        let head = v.substring_char(0, n - 1);
        assert(head@ =~= v@.drop_last());
        if last == 'h' {
            return match parse_u64(head) {
                Some(k) => k.checked_mul(3600),
                None => Some(default),
            };
        } else if last == 'd' {
            return match parse_u64(head) {
                Some(k) => k.checked_mul(86400),
                None => Some(default),
            };
        }
    }
    match parse_u64(v) {
        Some(k) => Some(k),
        None => Some(default),
    }
}

/// The instant (in Unix seconds) `seconds` after `now`, when a date-time can hold it.
pub fn expires_at(now: i64, seconds: u64) -> (r: Option<i64>)
    requires
        TIME_MIN <= now <= TIME_MAX,
    ensures
        now + seconds <= TIME_MAX ==> r == Some((now + seconds) as i64),
        now + seconds > TIME_MAX ==> r is None,
{
    let room: u64 = (TIME_MAX - now) as u64;
    if seconds <= room {
        Some(now + seconds as i64)
    } else {
        None
    }
}

/// A setting that spells the default in decimal, as an unset one is read, stands for the
/// default: the setting and its absence agree.
pub proof fn lemma_spelled_default_expiration(default: u64)
    ensures
        expiration_seconds_of(decimal(default as int), default) == default,
{
    lemma_parse_u64_of_decimal(default);
    lemma_decimal_digits_value(default as nat);
    let s = decimal(default as int);
    assert(is_digit(s[s.len() - 1]));
}

} // verus!
