//! Configuration, read from a snapshot of the environment.

use vstd::prelude::*;
use vstd::string::StrSliceExecFns;
use crate::text::{optional_view, owned, same_text};

verus! {

/// Everything that is configured.
pub struct Config {
    pub openai: OpenAIConfig,
    pub server: ServerConfig,
    pub policy: PolicyConfig,
    pub logging: LoggingConfig,
}

/// How OpenAI is reached.
pub struct OpenAIConfig {
    pub api_key: String,
    pub org_id: Option<String>,
    pub timeout_secs: u64,
    pub pool_idle_timeout_secs: u64,
}

/// Where the service keeps its data, and the organization it assumes.
pub struct ServerConfig {
    pub default_org: String,
    pub database_url: Option<String>,
    pub redis_url: Option<String>,
}

/// Which policies apply where none is named.
pub struct PolicyConfig {
    pub version: String,
    pub default_policy_path: String,
}

/// How much is logged.
pub struct LoggingConfig {
    pub level: String,
}

/// The configuration as plain values.
pub struct ConfigView {
    pub openai: OpenAIConfigView,
    pub server: ServerConfigView,
    pub policy: PolicyConfigView,
    pub logging: LoggingConfigView,
}

/// The OpenAI settings as plain values.
pub struct OpenAIConfigView {
    pub api_key: Seq<char>,
    pub org_id: Option<Seq<char>>,
    pub timeout_secs: u64,
    pub pool_idle_timeout_secs: u64,
}

/// The server settings as plain values.
pub struct ServerConfigView {
    pub default_org: Seq<char>,
    pub database_url: Option<Seq<char>>,
    pub redis_url: Option<Seq<char>>,
}

/// The policy settings as plain values.
pub struct PolicyConfigView {
    pub version: Seq<char>,
    pub default_policy_path: Seq<char>,
}

/// The logging settings as plain values.
pub struct LoggingConfigView {
    pub level: Seq<char>,
}

impl View for OpenAIConfig {
    type V = OpenAIConfigView;

    open spec fn view(&self) -> OpenAIConfigView {
        OpenAIConfigView {
            api_key: self.api_key@,
            org_id: optional_view(self.org_id),
            timeout_secs: self.timeout_secs,
            pool_idle_timeout_secs: self.pool_idle_timeout_secs,
        }
    }
}

impl View for ServerConfig {
    type V = ServerConfigView;

    open spec fn view(&self) -> ServerConfigView {
        ServerConfigView {
            default_org: self.default_org@,
            database_url: optional_view(self.database_url),
            redis_url: optional_view(self.redis_url),
        }
    }
}

impl View for PolicyConfig {
    type V = PolicyConfigView;

    open spec fn view(&self) -> PolicyConfigView {
        PolicyConfigView { version: self.version@, default_policy_path: self.default_policy_path@ }
    }
}

impl View for LoggingConfig {
    type V = LoggingConfigView;

    open spec fn view(&self) -> LoggingConfigView {
        LoggingConfigView { level: self.level@ }
    }
}

impl View for Config {
    type V = ConfigView;

    open spec fn view(&self) -> ConfigView {
        ConfigView {
            openai: self.openai@,
            server: self.server@,
            policy: self.policy@,
            logging: self.logging@,
        }
    }
}

/// Why no configuration could be read.
#[derive(Clone, Copy, Debug, PartialEq, Eq, Structural)]
pub enum ConfigError {
    /// `OPENAI_API_KEY` is not set.
    MissingApiKey,
}

impl ConfigError {
    /// A message for people.
    pub fn message(&self) -> (r: String)
        ensures
            r@ == "OPENAI_API_KEY must be set"@,
    {
        owned("OPENAI_API_KEY must be set")
    }
}

/// The variables of an environment as pairs of name and value.
pub open spec fn env_view(vars: Seq<(String, String)>) -> Seq<(Seq<char>, Seq<char>)> {
    Seq::new(vars.len(), |i: int| (vars[i].0@, vars[i].1@))
}

/// The value of the first variable with the given name.
pub open spec fn env_value(vars: Seq<(Seq<char>, Seq<char>)>, name: Seq<char>) -> Option<Seq<char>>
    decreases vars.len(),
{
    if vars.len() == 0 {
        None
    } else if vars[0].0 == name {
        Some(vars[0].1)
    } else {
        env_value(vars.drop_first(), name)
    }
}

/// Looks a variable up in a snapshot of the environment.
pub fn env_var(vars: &Vec<(String, String)>, name: &str) -> (r: Option<String>)
    ensures
        optional_view(r) == env_value(env_view(vars@), name@),
{
    let ghost all = env_view(vars@);
    let mut i: usize = 0;
    assert(all.skip(0) =~= all);
    while i < vars.len()
        invariant
            i <= vars.len(),
            all == env_view(vars@),
            env_value(all, name@) == env_value(all.skip(i as int), name@),
        decreases vars.len() - i,
    {
        let ghost rest = all.skip(i as int);
        assert(rest[0] == (vars[i as int].0@, vars[i as int].1@));
        if same_text(vars[i].0.as_str(), name) {
            return Some(vars[i].1.clone());
        }
        assert(rest.drop_first() =~= all.skip(i as int + 1));
        i += 1;
    }
    assert(all.skip(i as int).len() == 0);
    None
}

/// Whether a character is a decimal digit.
pub open spec fn is_digit(c: char) -> bool {
    '0' <= c && c <= '9'
}

/// The number that a run of decimal digits writes.
pub open spec fn decimal(digits: Seq<char>) -> nat
    decreases digits.len(),
{
    if digits.len() == 0 {
        0
    } else {
        decimal(digits.drop_last()) * 10 + (digits.last() as nat - '0' as nat) as nat
    }
}

/// Whether a text holds decimal digits only.
pub open spec fn all_digits(text: Seq<char>) -> bool {
    forall|i: int| 0 <= i < text.len() ==> is_digit(#[trigger] text[i])
}

/// The text without one leading plus sign.
pub open spec fn unsigned_part(text: Seq<char>) -> Seq<char> {
    if text.len() > 0 && text[0] == '+' {
        text.skip(1)
    } else {
        text
    }
}

/// The number that a text writes: an optional plus sign, then one or more
/// decimal digits and nothing else, the value within 64 bits.
pub open spec fn number_in(text: Seq<char>) -> Option<u64> {
    let digits = unsigned_part(text);
    if digits.len() > 0 && all_digits(digits) && decimal(digits) <= u64::MAX {
        Some(decimal(digits) as u64)
    } else {
        None
    }
}

/// A prefix of a run of digits writes no larger a number than the run.
pub proof fn lemma_decimal_grows(digits: Seq<char>, k: int)
    requires
        0 <= k <= digits.len(),
        all_digits(digits),
    ensures
        decimal(digits.take(k)) <= decimal(digits),
    decreases digits.len() - k,
{
    if k < digits.len() {
        let next = digits.take(k + 1);
        assert(next.drop_last() =~= digits.take(k));
        assert(is_digit(digits[k]));
        assert(next.last() == digits[k]);
        lemma_decimal_grows(digits, k + 1);
    } else {
        assert(digits.take(k) =~= digits);
    }
}

/// Reads an unsigned number from its decimal text.
pub fn parse_u64(text: &str) -> (r: Option<u64>)
    ensures
        r == number_in(text@),
{
    let n = text.unicode_len();
    if n == 0 {
        return None;
    }
    let start: usize = if text.get_char(0) == '+' {
        1
    } else {
        0
    };
    let ghost digits = unsigned_part(text@);
    assert(digits =~= text@.skip(start as int));
    if start == n {
        return None;
    }
    let mut value: u64 = 0;
    let mut i: usize = start;
    assert(digits.take(0) =~= Seq::<char>::empty());
    while i < n
        invariant
            start <= i <= n,
            n == text@.len(),
            digits == text@.skip(start as int),
            digits == unsigned_part(text@),
            digits.len() == n - start,
            all_digits(digits.take(i - start)),
            value == decimal(digits.take(i - start)),
        decreases n - i,
    {
        let c = text.get_char(i);
        let ghost k = i - start;
        assert(digits[k] == c);
        if !(c >= '0' && c <= '9') {
            assert(!is_digit(digits[k]));
            return None;
        }
        let d: u64 = (c as u32 - '0' as u32) as u64;
        let ghost next = digits.take(k + 1);
        assert(next.drop_last() =~= digits.take(k));
        assert(next.last() == c);
        assert(decimal(next) == value * 10 + d);
        assert(all_digits(next)) by {
            assert forall|j: int| 0 <= j < next.len() implies is_digit(#[trigger] next[j]) by {
                if j < k {
                    assert(digits.take(k)[j] == next[j]);
                }
            }
        }
        if value > (u64::MAX - d) / 10 {
            proof {
                if all_digits(digits) {
                    lemma_decimal_grows(digits, k + 1);
                }
            }
            return None;
        }
        value = value * 10 + d;
        i += 1;
    }
    assert(digits.take(i - start) =~= digits);
    Some(value)
}

/// The number under a variable, or `fallback` where the variable is not
/// set or does not hold a number.
pub open spec fn number_or(vars: Seq<(Seq<char>, Seq<char>)>, name: Seq<char>, fallback: u64) -> u64 {
    match env_value(vars, name) {
        Some(text) => match number_in(text) {
            Some(n) => n,
            None => fallback,
        },
        None => fallback,
    }
}

/// The text under a variable, or `fallback` where the variable is not set.
pub open spec fn text_or(vars: Seq<(Seq<char>, Seq<char>)>, name: Seq<char>, fallback: Seq<char>) -> Seq<
    char,
> {
    match env_value(vars, name) {
        Some(text) => text,
        None => fallback,
    }
}

/// Reads the number under a variable, with a fallback.
pub fn env_number_or(vars: &Vec<(String, String)>, name: &str, fallback: u64) -> (r: u64)
    ensures
        r == number_or(env_view(vars@), name@, fallback),
{
    match env_var(vars, name) {
        Some(text) => match parse_u64(text.as_str()) {
            Some(n) => n,
            None => fallback,
        },
        None => fallback,
    }
}

/// Reads the text under a variable, with a fallback.
pub fn env_text_or(vars: &Vec<(String, String)>, name: &str, fallback: &str) -> (r: String)
    ensures
        r@ == text_or(env_view(vars@), name@, fallback@),
{
    match env_var(vars, name) {
        Some(text) => text,
        None => owned(fallback),
    }
}

/// The configuration that an environment with an API key describes.
pub open spec fn config_of(vars: Seq<(Seq<char>, Seq<char>)>) -> ConfigView {
    ConfigView {
        openai: OpenAIConfigView {
            api_key: env_value(vars, "OPENAI_API_KEY"@).unwrap(),
            org_id: env_value(vars, "OPENAI_ORG_ID"@),
            timeout_secs: number_or(vars, "OPENAI_TIMEOUT_SECS"@, 30),
            pool_idle_timeout_secs: number_or(vars, "OPENAI_POOL_IDLE_TIMEOUT_SECS"@, 90),
        },
        server: ServerConfigView {
            default_org: text_or(vars, "DEFAULT_ORG"@, "default"@),
            database_url: env_value(vars, "SENTINEL_DATABASE_URL"@),
            redis_url: env_value(vars, "SENTINEL_REDIS_URL"@),
        },
        policy: PolicyConfigView {
            version: text_or(vars, "POLICY_VERSION"@, "1.0.0"@),
            default_policy_path: text_or(
                vars,
                "DEFAULT_POLICY_PATH"@,
                "./shared/policies/default.yaml"@,
            ),
        },
        logging: LoggingConfigView { level: text_or(vars, "LOG_LEVEL"@, "INFO"@) },
    }
}

impl OpenAIConfig {
    /// Reads the OpenAI settings. The API key is required.
    pub fn from_env(vars: &Vec<(String, String)>) -> (r: Result<OpenAIConfig, ConfigError>)
        ensures
            match r {
                Ok(c) => env_value(env_view(vars@), "OPENAI_API_KEY"@) is Some && c@ == config_of(
                    env_view(vars@),
                ).openai,
                Err(e) => env_value(env_view(vars@), "OPENAI_API_KEY"@) is None,
            },
    {
        let api_key = match env_var(vars, "OPENAI_API_KEY") {
            Some(key) => key,
            None => { return Err(ConfigError::MissingApiKey); },
        };
        Ok(
            OpenAIConfig {
                api_key,
                org_id: env_var(vars, "OPENAI_ORG_ID"),
                timeout_secs: env_number_or(vars, "OPENAI_TIMEOUT_SECS", 30),
                pool_idle_timeout_secs: env_number_or(vars, "OPENAI_POOL_IDLE_TIMEOUT_SECS", 90),
            },
        )
    }
}

impl ServerConfig {
    /// Reads the server settings.
    pub fn from_env(vars: &Vec<(String, String)>) -> (r: ServerConfig)
        ensures
            r@ == config_of(env_view(vars@)).server,
    {
        ServerConfig {
            default_org: env_text_or(vars, "DEFAULT_ORG", "default"),
            database_url: env_var(vars, "SENTINEL_DATABASE_URL"),
            redis_url: env_var(vars, "SENTINEL_REDIS_URL"),
        }
    }
}

impl PolicyConfig {
    /// Reads the policy settings.
    pub fn from_env(vars: &Vec<(String, String)>) -> (r: PolicyConfig)
        ensures
            r@ == config_of(env_view(vars@)).policy,
    {
        PolicyConfig {
            version: env_text_or(vars, "POLICY_VERSION", "1.0.0"),
            default_policy_path: env_text_or(
                vars,
                "DEFAULT_POLICY_PATH",
                "./shared/policies/default.yaml",
            ),
        }
    }
}

impl LoggingConfig {
    /// Reads the logging settings.
    pub fn from_env(vars: &Vec<(String, String)>) -> (r: LoggingConfig)
        ensures
            r@ == config_of(env_view(vars@)).logging,
    {
        LoggingConfig { level: env_text_or(vars, "LOG_LEVEL", "INFO") }
    }
}

impl Config {
    /// Reads the configuration from a snapshot of the environment: pairs of
    /// variable name and value. Only the API key is required. Every other
    /// setting has a default, and a timeout that is no number falls back to
    /// its default.
    pub fn from_env(vars: &Vec<(String, String)>) -> (r: Result<Config, ConfigError>)
        ensures
            match r {
                Ok(c) => env_value(env_view(vars@), "OPENAI_API_KEY"@) is Some && c@ == config_of(
                    env_view(vars@),
                ),
                Err(e) => env_value(env_view(vars@), "OPENAI_API_KEY"@) is None && e
                    == ConfigError::MissingApiKey,
            },
    {
        let openai = match OpenAIConfig::from_env(vars) {
            Ok(c) => c,
            Err(e) => { return Err(ConfigError::MissingApiKey); },
        };
        Ok(
            Config {
                openai,
                server: ServerConfig::from_env(vars),
                policy: PolicyConfig::from_env(vars),
                logging: LoggingConfig::from_env(vars),
            },
        )
    }
}

} // verus!
