//! Start-up configuration: the secret that guards generation, and where to
//! listen.

use vstd::prelude::*;

verus! {

/// The port used when none is configured.
pub const DEFAULT_PORT: u16 = 8080;

/// Why the service cannot start.
#[derive(Clone, Copy, Debug, PartialEq, Eq, Structural)]
pub enum ConfigError {
    /// No secret was configured.
    MissingApiKey,
    /// The configured port is not a decimal number from 0 to 65535.
    InvalidPort,
}

/// What the service needs to start: the secret, the port and the address
/// (all interfaces) to listen on.
#[derive(Clone, Debug)]
pub struct Config {
    pub api_key: String,
    pub port: u16,
    pub address: [u8; 4],
}

pub open spec fn is_digit(c: char) -> bool {
    48 <= c as u32 && c as u32 <= 57
}

/// The value of a string of decimal digits.
pub open spec fn digits_value(s: Seq<char>) -> nat
    decreases s.len(),
{
    if s.len() == 0 {
        0
    } else {
        digits_value(s.drop_last()) * 10 + (s.last() as u32 - 48) as nat
    }
}

/// The digits of a port text: what follows an optional leading `+`.
pub open spec fn port_digits(s: Seq<char>) -> Seq<char> {
    if s.len() > 0 && s[0] == '+' {
        s.drop_first()
    } else {
        s
    }
}

/// The port that `s` denotes, read as `u16`'s `from_str` reads it: an
/// optional `+`, then at least one decimal digit, to a value of at most
/// 65535.
pub open spec fn port_of(s: Seq<char>) -> Option<u16> {
    let d = port_digits(s);
    if d.len() > 0 && (forall|i: int| 0 <= i < d.len() ==> is_digit(#[trigger] d[i]))
        && digits_value(d) <= 65535 {
        Some(digits_value(d) as u16)
    } else {
        None
    }
}

/// A longer string of digits is worth at least as much as its prefix.
proof fn lemma_digits_value_grows(d: Seq<char>, i: int)
    requires
        0 <= i <= d.len(),
        forall|j: int| 0 <= j < d.len() ==> is_digit(#[trigger] d[j]),
    ensures
        digits_value(d.subrange(0, i)) <= digits_value(d),
    decreases d.len() - i,
{
    if i < d.len() {
        lemma_digits_value_grows(d, i + 1);
        assert(d.subrange(0, i + 1).drop_last() =~= d.subrange(0, i));
    } else {
        assert(d.subrange(0, i) =~= d);
    }
}

/// Reads a port number; `None` where `s` is not one.
pub fn parse_port(s: &str) -> (r: Option<u16>)
    ensures
        r == port_of(s@),
{
    let n = s.unicode_len();
    let mut start: usize = 0;
    if n > 0 && s.get_char(0) == '+' {
        start = 1;
    }
    let ghost d = port_digits(s@);
    assert(d =~= s@.subrange(start as int, n as int));
    if start == n {
        return None;
    }
    let mut value: u32 = 0;
    let mut i: usize = start;
    while i < n
        invariant
            n == s@.len(),
            start <= i <= n,
            d == s@.subrange(start as int, n as int),
            d == port_digits(s@),
            value as nat == digits_value(d.subrange(0, i - start)),
            value <= 65535,
            forall|j: int| 0 <= j < i - start ==> is_digit(#[trigger] d[j]),
        decreases n - i,
    {
        let c = s.get_char(i);
        let code = c as u32;
        if code < 48 || code > 57 {
            assert(d[i - start] == c);
            assert(!is_digit(d[i - start]));
            assert(!(forall|j: int| 0 <= j < d.len() ==> is_digit(#[trigger] d[j])));
            return None;
        }
        assert(d[i - start] == c);
        assert(d.subrange(0, i + 1 - start).drop_last() =~= d.subrange(0, i - start));
        assert(d.subrange(0, i + 1 - start).last() == c);
        value = value * 10 + (code - 48);
        i = i + 1;
        if value > 65535 {
            proof {
                if forall|j: int| 0 <= j < d.len() ==> is_digit(#[trigger] d[j]) {
                    lemma_digits_value_grows(d, i - start);
                    assert(digits_value(d) > 65535);
                }
            }
            return None;
        }
    }
    assert(d.subrange(0, n - start) =~= d);
    Some(value as u16)
}

impl Config {
    /// The configuration from the configured values: the secret (required)
    /// and the port text (8080 when absent). Listens on all interfaces.
    pub fn from_values(api_key: Option<&str>, port: Option<&str>) -> (r: Result<Config, ConfigError>)
        ensures
            api_key is None ==> r == Err::<Config, ConfigError>(ConfigError::MissingApiKey),
            api_key matches Some(k) ==> match port {
                None => r matches Ok(c) && c.api_key@ == k@ && c.port == DEFAULT_PORT,
                Some(p) => match port_of(p@) {
                    Some(v) => r matches Ok(c) && c.api_key@ == k@ && c.port == v,
                    None => r == Err::<Config, ConfigError>(ConfigError::InvalidPort),
                },
            },
            r matches Ok(c) ==> c.address == [0u8, 0u8, 0u8, 0u8],
    {
        let key = match api_key {
            None => return Err(ConfigError::MissingApiKey),
            Some(k) => k.to_string(),
        };
        let port = match port {
            None => DEFAULT_PORT,
            Some(p) => match parse_port(p) {
                Some(v) => v,
                None => return Err(ConfigError::InvalidPort),
            },
        };
        Ok(Config { api_key: key, port, address: [0, 0, 0, 0] })
    }
}

} // verus!
