use vstd::prelude::*;
use vstd::string::{StrSliceExecFns, StringExecFns};

use crate::remote::RedisConfig;
use crate::text::{has_prefix, starts_with};

verus! {

/// Address the server listens on, and its database, if any.
#[derive(Debug, Clone)]
pub struct AppConfig {
    pub host: String,
    pub port: u16,
    pub database: Option<DatabaseConfig>,
}

/// The main database and the secondary ones.
#[derive(Debug, Clone)]
pub struct DatabaseConfig {
    pub main_url: String,
    pub main_max_connections: u32,
    pub main_min_connections: u32,
    pub secondary_databases: Vec<SecondaryDbConfig>,
}

/// A secondary database, reached by name.
#[derive(Debug, Clone)]
pub struct SecondaryDbConfig {
    pub name: String,
    pub url: String,
    pub max_connections: u32,
}

/// The lowercase form of a text, as `str::to_lowercase` gives it.
pub uninterp spec fn lower_of(s: Seq<char>) -> Seq<char>;

/// Relies on `str::to_lowercase`: the result depends on the characters alone.
#[verifier::external_body]
fn to_lowercase(s: &str) -> (r: String)
    ensures
        r@ == lower_of(s@),
{
    s.to_lowercase()
}

/// The value of a nonempty run of decimal digits.
pub open spec fn digits_value(s: Seq<char>) -> nat
    decreases s.len(),
{
    if s.len() == 0 {
        0
    } else {
        digits_value(s.drop_last()) * 10 + (s.last() as nat - '0' as nat) as nat
    }
}

/// Whether `s` is a nonempty run of decimal digits.
pub open spec fn is_digits(s: Seq<char>) -> bool {
    s.len() > 0 && forall|i: int| 0 <= i < s.len() ==> '0' <= #[trigger] s[i] <= '9'
}

/// A `u32` written in decimal with an optional leading `+`, as `u32`'s
/// `FromStr` reads it: nothing else is accepted, nor a value above `u32::MAX`.
pub open spec fn decimal_u32(s: Seq<char>) -> Option<u32> {
    let d = if s.len() > 0 && s[0] == '+' {
        s.drop_first()
    } else {
        s
    };
    if is_digits(d) && digits_value(d) <= u32::MAX {
        Some(digits_value(d) as u32)
    } else {
        None
    }
}

/// Relies on `u32`'s `FromStr`: an optional `+` followed by decimal digits,
/// with overflow an error.
#[verifier::external_body]
fn parse_u32(s: &str) -> (r: Option<u32>)
    ensures
        r == decimal_u32(s@),
{
    s.parse::<u32>().ok()
}

/// Prefix of the environment variables that name secondary databases.
pub open spec fn secondary_prefix() -> Seq<char> {
    "SECONDARY_DB_"@
}

/// Connections a secondary database gets when its entry names no number.
pub const DEFAULT_SECONDARY_MAX_CONNECTIONS: u32 = 20;

/// Index of the first `,` in `s`, or its length when there is none.
pub open spec fn first_comma(s: Seq<char>) -> int
    decreases s.len(),
{
    if s.len() == 0 {
        0
    } else if s[0] == ',' {
        0
    } else {
        1 + first_comma(s.drop_first())
    }
}

proof fn lemma_first_comma_bounds(s: Seq<char>)
    ensures
        0 <= first_comma(s) <= s.len(),
        forall|j: int| 0 <= j < first_comma(s) ==> s[j] != ',',
        first_comma(s) < s.len() ==> s[first_comma(s)] == ',',
    decreases s.len(),
{
    if s.len() > 0 && s[0] != ',' {
        lemma_first_comma_bounds(s.drop_first());
        assert forall|j: int| 0 <= j < first_comma(s) implies s[j] != ',' by {
            if j > 0 {
                assert(s[j] == s.drop_first()[j - 1]);
            }
        }
    }
}

proof fn lemma_first_comma_at(s: Seq<char>, k: int)
    requires
        0 <= k <= s.len(),
        forall|j: int| 0 <= j < k ==> s[j] != ',',
        k == s.len() || s[k] == ',',
    ensures
        first_comma(s) == k,
    decreases s.len(),
{
    if s.len() > 0 && s[0] != ',' {
        assert forall|j: int| 0 <= j < k - 1 implies s.drop_first()[j] != ',' by {
            assert(s.drop_first()[j] == s[j + 1]);
        }
        if k < s.len() {
            assert(s.drop_first()[k - 1] == s[k]);
        }
        lemma_first_comma_at(s.drop_first(), k - 1);
    }
}

fn find_comma(s: &str) -> (r: usize)
    ensures
        r == first_comma(s@),
{
    let n = s.unicode_len();
    let mut i: usize = 0;
    while i < n
        invariant
            n == s@.len(),
            0 <= i <= n,
            forall|j: int| 0 <= j < i ==> s@[j] != ',',
        decreases n - i,
    {
        if s.get_char(i) == ',' {
            proof {
                lemma_first_comma_at(s@, i as int);
            }
            return i;
        }
        i += 1;
    }
    proof {
        lemma_first_comma_at(s@, n as int);
    }
    n
}

/// The secondary database an entry describes, given its name already in
/// lowercase and the entry's value `<url>` or `<url>,<max connections>`
/// (a count that does not read as a number gives the default).
pub open spec fn is_secondary_from_parts(name: String, value: Seq<char>, r: SecondaryDbConfig) -> bool {
    let k = first_comma(value);
    &&& r.name == name
    &&& r.url@ == value.subrange(0, k)
    &&& r.max_connections == if k < value.len() {
        match decimal_u32(value.subrange(k + 1, value.len() as int)) {
            Some(n) => n,
            None => DEFAULT_SECONDARY_MAX_CONNECTIONS,
        }
    } else {
        DEFAULT_SECONDARY_MAX_CONNECTIONS
    }
}

impl SecondaryDbConfig {
    /// The secondary database named `name` whose entry reads `value`.
    pub fn from_parts(name: String, value: &str) -> (r: SecondaryDbConfig)
        ensures
            is_secondary_from_parts(name, value@, r),
    {
        let k = find_comma(value);
        proof {
            lemma_first_comma_bounds(value@);
        }
        let n = value.unicode_len();
        let url = value.substring_char(0, k).to_owned();
        let max_connections = if k < n {
            match parse_u32(value.substring_char(k + 1, n)) {
                Some(c) => c,
                None => DEFAULT_SECONDARY_MAX_CONNECTIONS,
            }
        } else {
            DEFAULT_SECONDARY_MAX_CONNECTIONS
        };
        SecondaryDbConfig { name, url: url, max_connections }
    }

    /// The secondary database that the environment entry `key=value`
    /// describes, if `key` is `SECONDARY_DB_<NAME>`; its name is `<NAME>`
    /// in lowercase.
    pub fn from_env_entry(key: &str, value: &str) -> (r: Option<SecondaryDbConfig>)
        ensures
            r is Some <==> has_prefix(key@, secondary_prefix()),
            r is Some ==> {
                &&& r->0.name@ == lower_of(
                    key@.subrange(secondary_prefix().len() as int, key@.len() as int),
                )
                &&& is_secondary_from_parts(r->0.name, value@, r->0)
            },
    {
        if !starts_with(key, "SECONDARY_DB_") {
            return None;
        }
        proof {
            reveal_strlit("SECONDARY_DB_");
        }
        let n = key.unicode_len();
        let name = to_lowercase(key.substring_char(13, n));
        Some(SecondaryDbConfig::from_parts(name, value))
    }
}

/// Whether the periodic task scheduler runs.
#[derive(Debug, Clone, Copy, PartialEq, Eq, Structural)]
pub struct SchedulerConfig {
    pub enabled: bool,
}

impl Default for SchedulerConfig {
    fn default() -> (r: Self)
        ensures
            r.enabled,
    {
        SchedulerConfig { enabled: true }
    }
}

/// Logging and alerting settings.
#[derive(Debug, Clone)]
pub struct TelemetryConfig {
    /// Log as JSON lines.
    pub json_logs: bool,
    /// Service name in traces.
    pub service_name: String,
    /// Raise alerts on errors.
    pub alerts_enabled: bool,
    /// Where alerts go; the console when absent.
    pub alert_webhook_url: Option<String>,
}

impl Default for TelemetryConfig {
    fn default() -> (r: Self)
        ensures
            !r.json_logs,
            r.service_name@ == "apex-api"@,
            r.alerts_enabled,
            r.alert_webhook_url is None,
    {
        TelemetryConfig {
            json_logs: false,
            service_name: "apex-api".to_owned(),
            alerts_enabled: true,
            alert_webhook_url: None,
        }
    }
}

/// Severity of a log event.
#[derive(Debug, Clone, Copy, PartialEq, Eq, Structural)]
pub enum LogLevel {
    Trace,
    Debug,
    Info,
    Warn,
    Error,
}

/// Settings of the alerting layer.
#[derive(Debug, Clone, Copy, PartialEq, Eq, Structural)]
pub struct AlertConfig {
    /// Least severe level that raises an alert.
    pub min_level: LogLevel,
    /// Alerts buffered before new ones are dropped.
    pub buffer_size: usize,
}

impl Default for AlertConfig {
    fn default() -> (r: Self)
        ensures
            r.min_level == LogLevel::Error,
            r.buffer_size == 100,
    {
        AlertConfig { min_level: LogLevel::Error, buffer_size: 100 }
    }
}

/// Settings of the token service.
#[derive(Debug, Clone)]
pub struct JwtConfig {
    pub secret: String,
    pub expiration_hours: i64,
    pub issuer: String,
}

impl Default for JwtConfig {
    fn default() -> (r: Self)
        ensures
            r.secret@ == "change-me-in-production"@,
            r.expiration_hours == 24,
            r.issuer@ == "apex-api"@,
    {
        JwtConfig {
            secret: "change-me-in-production".to_owned(),
            expiration_hours: 24,
            issuer: "apex-api".to_owned(),
        }
    }
}

/// Settings of the in-process rate limiter.
#[derive(Debug, Clone, Copy, PartialEq, Eq, Structural)]
pub struct RateLimitConfig {
    /// Requests allowed per window.
    pub max_requests: u32,
    /// Length of the window, in seconds.
    pub window_secs: u64,
}

impl Default for RateLimitConfig {
    fn default() -> (r: Self)
        ensures
            r.max_requests == 100,
            r.window_secs == 60,
    {
        RateLimitConfig { max_requests: 100, window_secs: 60 }
    }
}

/// Settings of the rate limiter kept in the remote store.
#[derive(Debug, Clone)]
pub struct RedisRateLimitConfig {
    pub redis: RedisConfig,
    /// Requests allowed per window.
    pub max_requests: u32,
    /// Length of the window, in seconds.
    pub window_secs: u64,
    /// Namespace of the limiter's keys.
    pub key_prefix: String,
}

impl Default for RedisRateLimitConfig {
    fn default() -> (r: Self)
        ensures
            r.redis.url@ == "redis://localhost:6379"@,
            r.redis.connect_timeout_secs == 5,
            r.redis.fallback_to_memory,
            r.max_requests == 100,
            r.window_secs == 60,
            r.key_prefix@ == "ratelimit"@,
    {
        RedisRateLimitConfig {
            redis: RedisConfig::default(),
            max_requests: 100,
            window_secs: 60,
            key_prefix: "ratelimit".to_owned(),
        }
    }
}

impl RedisRateLimitConfig {
    /// The store key that counts requests for `key`.
    pub fn make_key(&self, key: &str) -> (r: String)
        ensures
            r@ == self.key_prefix@ + ":"@ + key@,
    {
        self.key_prefix.clone().concat(":").concat(key)
    }
}

} // verus!
