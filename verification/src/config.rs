use vstd::prelude::*;
use vstd::string::StrSliceExecFns;

verus! {

/// The port the service listens on where none is configured.
pub const DEFAULT_PORT: u16 = 3000;

/// The most connections the pool may hold open at once.
pub const MAX_CONNECTIONS: u32 = 5;

/// Why the service cannot start.
#[derive(Clone, Copy, Debug, PartialEq, Eq, Structural)]
pub enum ConfigError {
    /// No store connection string was given.
    MissingDatabaseUrl,
    /// The port given is not a number from 0 to 65535.
    InvalidPort,
}

/// What the service reads once, at startup.
#[derive(Debug, PartialEq, Eq)]
pub struct Config {
    pub database_url: String,
    pub port: u16,
}

/// A decimal digit.
pub open spec fn is_digit(c: char) -> bool {
    '0' <= c <= '9'
}

/// The number a decimal digit stands for.
pub open spec fn digit_value(c: char) -> nat {
    if is_digit(c) {
        (c as nat - '0' as nat) as nat
    } else {
        0
    }
}

/// The number that a run of decimal digits writes.
pub open spec fn decimal_value(digits: Seq<char>) -> nat
    decreases digits.len(),
{
    if digits.len() == 0 {
        0
    } else {
        decimal_value(digits.drop_last()) * 10 + digit_value(digits.last())
    }
}

/// The text without one leading `+`.
pub open spec fn unsigned_part(text: Seq<char>) -> Seq<char> {
    if text.len() > 0 && text[0] == '+' {
        text.subrange(1, text.len() as int)
    } else {
        text
    }
}

/// The port a text names: an optional `+`, then one or more decimal digits
/// and nothing else, writing a number that is at most 65535.
pub open spec fn port_of(text: Seq<char>) -> Option<u16> {
    let digits = unsigned_part(text);
    if digits.len() > 0 && (forall|i: int| 0 <= i < digits.len() ==> is_digit(#[trigger] digits[i]))
        && decimal_value(digits) <= 65535 {
        Some(decimal_value(digits) as u16)
    } else {
        None
    }
}

/// The digits read so far never write more than all the digits do.
proof fn lemma_prefix_value(digits: Seq<char>, k: int)
    requires
        0 <= k <= digits.len(),
    ensures
        decimal_value(digits.subrange(0, k)) <= decimal_value(digits),
    decreases digits.len() - k,
{
    if k == digits.len() {
        assert(digits.subrange(0, k) =~= digits);
    } else {
        let rest = digits.drop_last();
        assert(rest.subrange(0, k) =~= digits.subrange(0, k));
        lemma_prefix_value(rest, k);
    }
}

/// Reads a port from its text.
pub fn parse_port(text: &str) -> (port: Option<u16>)
    ensures
        port == port_of(text@),
{
    let n = text.unicode_len();
    let start: usize = if n > 0 && text.get_char(0) == '+' {
        1
    } else {
        0
    };
    let ghost digits = unsigned_part(text@);
    assert(digits =~= text@.subrange(start as int, n as int));
    if start == n {
        return None;
    }
    let mut value: u32 = 0;
    let mut i: usize = start;
    assert(digits.subrange(0, 0) =~= Seq::<char>::empty());
    while i < n
        invariant
            start <= i <= n,
            n == text@.len(),
            digits == unsigned_part(text@),
            digits == text@.subrange(start as int, n as int),
            value <= 65535,
            value == decimal_value(digits.subrange(0, i - start)),
            forall|k: int| 0 <= k < i - start ==> is_digit(#[trigger] digits[k]),
        decreases n - i,
    {
        let c = text.get_char(i);
        assert(digits[i - start] == c);
        if c < '0' || c > '9' {
            return None;
        }
        let d: u32 = c as u32 - '0' as u32;
        assert(digits.subrange(0, i + 1 - start).drop_last() =~= digits.subrange(0, i - start));
        assert(digits.subrange(0, i + 1 - start).last() == c);
        value = value * 10 + d;
        if value > 65535 {
            proof {
                lemma_prefix_value(digits, i + 1 - start);
            }
            return None;
        }
        i += 1;
    }
    assert(digits.subrange(0, n - start) =~= digits);
    Some(value as u16)
}

/// The store connection string, which is required.
pub fn store_url(raw: Option<String>) -> (outcome: Result<String, ConfigError>)
    ensures
        match raw {
            Some(url) => outcome == Ok::<String, ConfigError>(url),
            None => outcome == Err::<String, ConfigError>(ConfigError::MissingDatabaseUrl),
        },
{
    match raw {
        Some(url) => Ok(url),
        None => Err(ConfigError::MissingDatabaseUrl),
    }
}

/// The port to listen on: `DEFAULT_PORT` where none is given, else the port
/// that the text names, and an error where it names none.
pub fn listen_port(raw: Option<String>) -> (outcome: Result<u16, ConfigError>)
    ensures
        match raw {
            None => outcome == Ok::<u16, ConfigError>(3000),
            Some(text) => match port_of(text@) {
                Some(number) => outcome == Ok::<u16, ConfigError>(number),
                None => outcome == Err::<u16, ConfigError>(ConfigError::InvalidPort),
            },
        },
{
    match raw {
        None => Ok(DEFAULT_PORT),
        Some(text) => match parse_port(text.as_str()) {
            Some(number) => Ok(number),
            None => Err(ConfigError::InvalidPort),
        },
    }
}

impl Config {
    /// The configuration from the two values the environment may hold. The
    /// connection string is required; the port defaults to `DEFAULT_PORT`.
    pub fn from_values(database_url: Option<String>, port: Option<String>) -> (outcome: Result<
        Config,
        ConfigError,
    >)
        ensures
            match database_url {
                None => outcome == Err::<Config, ConfigError>(ConfigError::MissingDatabaseUrl),
                Some(url) => match port {
                    None => outcome == Ok::<Config, ConfigError>(
                        Config { database_url: url, port: 3000 },
                    ),
                    Some(text) => match port_of(text@) {
                        Some(number) => outcome == Ok::<Config, ConfigError>(
                            Config { database_url: url, port: number },
                        ),
                        None => outcome == Err::<Config, ConfigError>(ConfigError::InvalidPort),
                    },
                },
            },
    {
        match store_url(database_url) {
            Err(e) => Err(e),
            Ok(url) => match listen_port(port) {
                Err(e) => Err(e),
                Ok(number) => Ok(Config { database_url: url, port: number }),
            },
        }
    }
}

} // verus!
