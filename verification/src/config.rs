//! Application configuration: which values are required, which have
//! defaults, and how the session lifetime is read as a decimal integer.

use crate::text::chars_of;
use url::Url;
use vstd::prelude::*;

verus! {

/// A parsed URL, carried through the configuration opaquely.
#[verifier::external_type_specification]
#[verifier::external_body]
pub struct ExUrl(Url);

/// `Url::clone`, which `url` derives: a field-by-field copy, equal to the
/// URL it copies.
pub assume_specification [<Url as Clone>::clone](u: &Url) -> (r: Url)
    ensures
        r == *u,
;

/// The URL `url::Url::parse` makes of `s`, or `None` when it refuses it.
pub uninterp spec fn parsed_url(s: Seq<char>) -> Option<Url>;

/// Parses an absolute URL (`url::Url::parse`): the named URL, `None` when
/// it is refused.
#[verifier::external_body]
fn parse_url(s: &str) -> (r: Option<Url>)
    ensures
        r == parsed_url(s@),
{
    Url::parse(s).ok()
}

/// Whether `c` is an ASCII decimal digit.
pub open spec fn is_digit(c: char) -> bool {
    48 <= (c as u32) <= 57
}

/// The value of the decimal digit `c`.
pub open spec fn digit_value(c: char) -> int {
    (c as u32) - 48
}

/// The value of the decimal numeral `ds` (most significant digit first).
pub open spec fn decimal_value(ds: Seq<char>) -> int
    decreases ds.len(),
{
    if ds.len() == 0 {
        0
    } else {
        10 * decimal_value(ds.drop_last()) + digit_value(ds.last())
    }
}

/// `s` without its sign, if it starts with one.
pub open spec fn unsigned_part(s: Seq<char>) -> Seq<char> {
    if s.len() > 0 && (s[0] == '-' || s[0] == '+') {
        s.drop_first()
    } else {
        s
    }
}

/// Whether every character of `ds` is a decimal digit.
pub open spec fn all_digits(ds: Seq<char>) -> bool {
    forall|i: int| 0 <= i < ds.len() ==> is_digit(#[trigger] ds[i])
}

/// What std's `i64::from_str` makes of `s`: an optional `+` or `-` followed by
/// at least one decimal digit and nothing else, whose value fits in an `i64`.
pub open spec fn parsed_i64(s: Seq<char>) -> Option<i64> {
    let neg = s.len() > 0 && s[0] == '-';
    let ds = unsigned_part(s);
    let v = if neg { -decimal_value(ds) } else { decimal_value(ds) };
    if ds.len() == 0 || !all_digits(ds) {
        None
    } else if i64::MIN <= v <= i64::MAX {
        Some(v as i64)
    } else {
        None
    }
}

proof fn lemma_decimal_value_grows(ds: Seq<char>, k: int)
    requires
        0 <= k <= ds.len(),
        forall|i: int| 0 <= i < ds.len() ==> is_digit(#[trigger] ds[i]),
    ensures
        decimal_value(ds.take(k)) <= decimal_value(ds),
        0 <= decimal_value(ds.take(k)),
    decreases ds.len() - k,
{
    if k < ds.len() {
        lemma_decimal_value_grows(ds, k + 1);
        assert(ds.take(k + 1).drop_last() =~= ds.take(k));
    } else {
        assert(ds.take(k) =~= ds);
        lemma_decimal_value_nonneg(ds);
    }
}

proof fn lemma_decimal_value_nonneg(ds: Seq<char>)
    requires
        forall|i: int| 0 <= i < ds.len() ==> is_digit(#[trigger] ds[i]),
    ensures
        0 <= decimal_value(ds),
    decreases ds.len(),
{
    if ds.len() > 0 {
        lemma_decimal_value_nonneg(ds.drop_last());
    }
}

/// Parses a decimal `i64` as std's `str::parse::<i64>` does.
pub fn parse_i64(s: &str) -> (r: Option<i64>)
    ensures
        r == parsed_i64(s@),
{
    let cs = chars_of(s);
    let n = cs.len();
    let neg = n > 0 && cs[0] == '-';
    let start: usize = if n > 0 && (cs[0] == '-' || cs[0] == '+') { 1 } else { 0 };
    let ghost ds = unsigned_part(s@);
    assert(ds =~= cs@.subrange(start as int, n as int));
    if start == n {
        return None;
    }
    let limit: u128 = 9223372036854775808;
    let mut acc: u128 = 0;
    let mut i: usize = start;
    while i < n
        invariant
            start <= i <= n,
            n == cs@.len(),
            ds == cs@.subrange(start as int, n as int),
            ds == unsigned_part(s@),
            neg == (s@.len() > 0 && s@[0] == '-'),
            limit == 9223372036854775808,
            acc <= limit,
            acc == decimal_value(ds.take(i - start)),
            forall|j: int| 0 <= j < i - start ==> is_digit(#[trigger] ds[j]),
        decreases n - i,
    {
        let c = cs[i];
        let u = c as u32;
        if u < 48 || u > 57 {
            assert(ds[i - start] == c && !is_digit(ds[i - start]));
            assert(!all_digits(ds));
            return None;
        }
        assert(ds.take(i - start + 1).drop_last() =~= ds.take(i - start));
        acc = acc * 10 + (u - 48) as u128;
        i = i + 1;
        if acc > limit {
            proof {
                if all_digits(ds) {
                    lemma_decimal_value_grows(ds, i - start);
                }
            }
            // Any further digits only make the magnitude larger; a non-digit
            // makes the text invalid. Either way it is refused.
            return None;
        }
    }
    assert(ds.take(n - start) =~= ds);
    if neg {
        if acc == limit {
            Some(-9223372036854775807i64 - 1)
        } else {
            Some(-(acc as i64))
        }
    } else {
        if acc == limit {
            None
        } else {
            Some(acc as i64)
        }
    }
}

/// Why a configuration was refused.
#[derive(Debug, Clone, Copy, PartialEq, Eq)]
pub enum ConfigError {
    MissingRpId,
    MissingRpOrigin,
    InvalidRpOrigin,
    MissingDatabaseUrl,
    InvalidSessionTtl,
}

impl ConfigError {
    /// The message the server stops with.
    pub fn message(&self) -> (r: &'static str)
        ensures
            r@ == match *self {
                ConfigError::MissingRpId => "RP_ID must be set"@,
                ConfigError::MissingRpOrigin => "RP_ORIGIN must be set"@,
                ConfigError::InvalidRpOrigin => "RP_ORIGIN must be a valid URL"@,
                ConfigError::MissingDatabaseUrl => "DATABASE_URL must be set"@,
                ConfigError::InvalidSessionTtl => "SESSION_TTL_SECS must be a valid integer"@,
            },
    {
        match self {
            ConfigError::MissingRpId => "RP_ID must be set",
            ConfigError::MissingRpOrigin => "RP_ORIGIN must be set",
            ConfigError::InvalidRpOrigin => "RP_ORIGIN must be a valid URL",
            ConfigError::MissingDatabaseUrl => "DATABASE_URL must be set",
            ConfigError::InvalidSessionTtl => "SESSION_TTL_SECS must be a valid integer",
        }
    }
}

/// Application configuration.
#[derive(Debug, Clone)]
pub struct AppConfig {
    pub rp_id: String,
    pub rp_origin: Url,
    pub rp_name: String,
    pub database_url: String,
    pub bind_address: String,
    pub session_ttl_secs: i64,
}

/// `v`, or `default` when it is absent.
pub open spec fn or_default(v: Option<String>, default: Seq<char>) -> Seq<char> {
    match v {
        Some(s) => s@,
        None => default,
    }
}

/// The first problem with a set of configuration values, in the order in
/// which they are read: relying party id, origin (present, then a valid
/// URL), database URL, session lifetime (a valid `i64`, default 86400).
pub open spec fn config_problem(
    rp_id: Option<String>,
    rp_origin: Option<String>,
    database_url: Option<String>,
    session_ttl_secs: Option<String>,
) -> Option<ConfigError> {
    if rp_id is None {
        Some(ConfigError::MissingRpId)
    } else if rp_origin is None {
        Some(ConfigError::MissingRpOrigin)
    } else if parsed_url(rp_origin->0@) is None {
        Some(ConfigError::InvalidRpOrigin)
    } else if database_url is None {
        Some(ConfigError::MissingDatabaseUrl)
    } else if parsed_i64(or_default(session_ttl_secs, "86400"@)) is None {
        Some(ConfigError::InvalidSessionTtl)
    } else {
        None
    }
}

impl AppConfig {
    /// Builds the configuration from the values of `RP_ID`, `RP_ORIGIN`,
    /// `RP_NAME`, `DATABASE_URL`, `BIND_ADDRESS` and `SESSION_TTL_SECS`
    /// (`None` where a variable is unset). `RP_NAME` defaults to
    /// "Passkey Auth", `BIND_ADDRESS` to "0.0.0.0:3000" and
    /// `SESSION_TTL_SECS` to 86400.
    pub fn from_vars(
        rp_id: Option<String>,
        rp_origin: Option<String>,
        rp_name: Option<String>,
        database_url: Option<String>,
        bind_address: Option<String>,
        session_ttl_secs: Option<String>,
    ) -> (r: Result<AppConfig, ConfigError>)
        ensures
            match config_problem(rp_id, rp_origin, database_url, session_ttl_secs) {
                Some(e) => r == Err::<AppConfig, ConfigError>(e),
                None => r matches Ok(c) && {
                    &&& c.rp_id@ == rp_id->0@
                    &&& parsed_url(rp_origin->0@) == Some(c.rp_origin)
                    &&& c.rp_name@ == or_default(rp_name, "Passkey Auth"@)
                    &&& c.database_url@ == database_url->0@
                    &&& c.bind_address@ == or_default(bind_address, "0.0.0.0:3000"@)
                    &&& Some(c.session_ttl_secs) == parsed_i64(or_default(session_ttl_secs, "86400"@))
                },
            },
    {
        let rp_id = match rp_id {
            Some(v) => v,
            None => return Err(ConfigError::MissingRpId),
        };
        let rp_origin_str = match rp_origin {
            Some(v) => v,
            None => return Err(ConfigError::MissingRpOrigin),
        };
        let rp_origin = match parse_url(rp_origin_str.as_str()) {
            Some(u) => u,
            None => return Err(ConfigError::InvalidRpOrigin),
        };
        let rp_name = match rp_name {
            Some(v) => v,
            None => String::from_str("Passkey Auth"),
        };
        let database_url = match database_url {
            Some(v) => v,
            None => return Err(ConfigError::MissingDatabaseUrl),
        };
        let bind_address = match bind_address {
            Some(v) => v,
            None => String::from_str("0.0.0.0:3000"),
        };
        let ttl_text = match session_ttl_secs {
            Some(v) => v,
            None => String::from_str("86400"),
        };
        let session_ttl_secs = match parse_i64(ttl_text.as_str()) {
            Some(v) => v,
            None => return Err(ConfigError::InvalidSessionTtl),
        };
        Ok(AppConfig { rp_id, rp_origin, rp_name, database_url, bind_address, session_ttl_secs })
    }
}

} // verus!
