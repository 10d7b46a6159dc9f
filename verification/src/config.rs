//! The settings the server starts with.

use vstd::prelude::*;
use vstd::string::*;

verus! {

/// How many connections to the store are kept open at most.
pub const MAX_CONNECTIONS: u32 = 10;

/// Where the store is and where the server listens.
#[derive(Debug, PartialEq, Eq)]
pub struct Config {
    pub database_url: String,
    pub server_host: String,
    pub server_port: u16,
}

impl Clone for Config {
    fn clone(&self) -> (r: Self)
        ensures
            r == *self,
    {
        Config {
            database_url: self.database_url.clone(),
            server_host: self.server_host.clone(),
            server_port: self.server_port,
        }
    }
}

/// Why settings could not be put together.
#[derive(Clone, Copy, Debug, PartialEq, Eq)]
pub enum ConfigError {
    /// No address of the store was given.
    MissingDatabaseUrl,
    /// The port is not a whole number from 0 to 65535.
    InvalidPort,
}

/// The value of a decimal digit.
pub open spec fn digit_value(c: char) -> Option<int> {
    if c == '0' {
        Some(0)
    } else if c == '1' {
        Some(1)
    } else if c == '2' {
        Some(2)
    } else if c == '3' {
        Some(3)
    } else if c == '4' {
        Some(4)
    } else if c == '5' {
        Some(5)
    } else if c == '6' {
        Some(6)
    } else if c == '7' {
        Some(7)
    } else if c == '8' {
        Some(8)
    } else if c == '9' {
        Some(9)
    } else {
        None
    }
}

/// The number that a non-empty run of decimal digits stands for.
pub open spec fn digits_value(text: Seq<char>) -> Option<int>
    decreases text.len(),
{
    if text.len() == 0 {
        None
    } else {
        match digit_value(text.last()) {
            Some(d) => if text.len() == 1 {
                Some(d)
            } else {
                match digits_value(text.drop_last()) {
                    Some(v) => Some(10 * v + d),
                    None => None,
                }
            },
            None => None,
        }
    }
}

/// The port that a run of digits stands for, if it names a number up to
/// 65535.
pub open spec fn port_of_digits(digits: Seq<char>) -> Option<u16> {
    match digits_value(digits) {
        Some(v) => if v <= 65535 {
            Some(v as u16)
        } else {
            None
        },
        None => None,
    }
}

/// The port that a text stands for: an optional plus sign followed by
/// decimal digits and nothing else, naming a number up to 65535.
pub open spec fn port_of(text: Seq<char>) -> Option<u16> {
    if text.len() > 0 && text[0] == '+' {
        port_of_digits(text.skip(1))
    } else {
        port_of_digits(text)
    }
}

/// `text` with every leading repetition of `prefix` taken off.
pub open spec fn without_prefixes(text: Seq<char>, prefix: Seq<char>) -> Seq<char>
    decreases text.len(),
{
    if prefix.len() > 0 && prefix.len() <= text.len() && text.take(prefix.len() as int) == prefix {
        without_prefixes(text.skip(prefix.len() as int), prefix)
    } else {
        text
    }
}

/// The number that a run of digits stands for is not negative.
proof fn lemma_digits_value_is_natural(text: Seq<char>)
    ensures
        digits_value(text) matches Some(v) ==> v >= 0,
    decreases text.len(),
{
    if text.len() > 1 {
        lemma_digits_value_is_natural(text.drop_last());
    }
}

/// A text with a character that is no digit stands for no number.
proof fn lemma_not_all_digits(text: Seq<char>, at: int)
    requires
        0 <= at < text.len(),
        digit_value(text[at]) is None,
    ensures
        digits_value(text) is None,
    decreases text.len(),
{
    if at < text.len() - 1 {
        lemma_not_all_digits(text.drop_last(), at);
    }
}

/// A run of digits stands for no less than any of its beginnings.
proof fn lemma_digits_value_grows(text: Seq<char>, length: int)
    requires
        1 <= length <= text.len(),
    ensures
        digits_value(text.take(length)) matches Some(part) ==> (digits_value(text) matches Some(
            whole,
        ) ==> part <= whole),
    decreases text.len() - length,
{
    if length == text.len() {
        assert(text.take(length) =~= text);
    } else {
        let shorter = text.drop_last();
        assert(shorter.take(length) =~= text.take(length));
        lemma_digits_value_grows(shorter, length);
        lemma_digits_value_is_natural(text.take(length));
    }
}

/// The value of a decimal digit.
fn digit_of(c: char) -> (d: Option<u8>)
    ensures
        d matches Some(v) ==> digit_value(c) == Some(v as int),
        d is None ==> digit_value(c) is None,
{
    if c == '0' {
        Some(0)
    } else if c == '1' {
        Some(1)
    } else if c == '2' {
        Some(2)
    } else if c == '3' {
        Some(3)
    } else if c == '4' {
        Some(4)
    } else if c == '5' {
        Some(5)
    } else if c == '6' {
        Some(6)
    } else if c == '7' {
        Some(7)
    } else if c == '8' {
        Some(8)
    } else if c == '9' {
        Some(9)
    } else {
        None
    }
}

/// Reads a port number.
pub fn parse_port(text: &str) -> (port: Option<u16>)
    ensures
        port == port_of(text@),
{
    let length = text.unicode_len();
    let start: usize = if length > 0 && text.get_char(0) == '+' {
        1
    } else {
        0
    };
    let ghost digits = text@.skip(start as int);
    assert(text@.skip(0) =~= text@);
    if start == length {
        return None;
    }
    let mut value: u32 = 0;
    let mut i: usize = start;
    while i < length
        invariant
            start <= i <= length,
            length == text@.len(),
            digits == text@.skip(start as int),
            port_of(text@) == port_of_digits(digits),
            i > start ==> digits_value(digits.take(i - start)) == Some(value as int),
            i == start ==> value == 0,
            value <= 65535,
        decreases length - i,
    {
        let c = text.get_char(i);
        match digit_of(c) {
            None => {
                proof {
                    lemma_not_all_digits(digits, i - start);
                }
                return None;
            },
            Some(d) => {
                let next: u32 = value * 10 + d as u32;
                proof {
                    let longer = digits.take(i - start + 1);
                    assert(longer.drop_last() =~= digits.take(i - start));
                }
                if next > 65535 {
                    proof {
                        lemma_digits_value_grows(digits, i - start + 1);
                    }
                    return None;
                }
                value = next;
            },
        }
        i = i + 1;
    }
    assert(digits.take(length - start) =~= digits);
    Some(value as u16)
}

/// Tells whether `prefix` stands in `text` from the place `from` on.
fn stands_at(text: &str, from: usize, prefix: &str) -> (r: bool)
    requires
        from + prefix@.len() <= text@.len(),
    ensures
        r == (text@.skip(from as int).take(prefix@.len() as int) == prefix@),
{
    let length = prefix.unicode_len();
    let total = text.unicode_len();
    let mut k: usize = 0;
    while k < length
        invariant
            k <= length,
            length == prefix@.len(),
            total == text@.len(),
            from + length <= total,
            forall|j: int| 0 <= j < k ==> text@[from + j] == prefix@[j],
        decreases length - k,
    {
        if text.get_char(from + k) != prefix.get_char(k) {
            return false;
        }
        k = k + 1;
    }
    assert(text@.skip(from as int).take(length as int) =~= prefix@);
    true
}

/// Takes `prefix` off the front of `text` as often as it stands there.
/// An empty prefix takes nothing off.
pub fn strip_prefixes(text: &str, prefix: &str) -> (rest: String)
    ensures
        rest@ == without_prefixes(text@, prefix@),
{
    let length = text.unicode_len();
    let step = prefix.unicode_len();
    if step == 0 {
        return String::from_str(text);
    }
    let mut from: usize = 0;
    let mut more: bool = length >= step;
    assert(text@.skip(0) =~= text@);
    while more
        invariant
            from <= length,
            length == text@.len(),
            step == prefix@.len(),
            step > 0,
            more ==> from + step <= length,
            without_prefixes(text@, prefix@) == if more {
                without_prefixes(text@.skip(from as int), prefix@)
            } else {
                text@.skip(from as int)
            },
        decreases length - from, more as int,
    {
        let ghost here = text@.skip(from as int);
        if stands_at(text, from, prefix) {
            proof {
                assert(here.skip(step as int) =~= text@.skip(from + step));
            }
            from = from + step;
            more = length - from >= step;
            assert(!more ==> without_prefixes(text@.skip(from as int), prefix@) == text@.skip(
                from as int,
            ));
        } else {
            more = false;
        }
    }
    let rest = text.substring_char(from, length);
    String::from_str(rest)
}

impl Config {
    /// The host the server listens on when none is named.
    pub open spec fn default_host() -> Seq<char> {
        "127.0.0.1"@
    }

    /// The port the server listens on when none is named.
    pub open spec fn default_port() -> Seq<char> {
        "3000"@
    }

    /// Puts the settings together from the three values that the
    /// environment may hold. The address of the store must be there; the
    /// host defaults to `127.0.0.1` and the port to `3000`.
    pub fn from_vars(
        database_url: Option<String>,
        server_host: Option<String>,
        server_port: Option<String>,
    ) -> (r: Result<Config, ConfigError>)
        ensures
            database_url is None ==> r == Err::<Config, ConfigError>(
                ConfigError::MissingDatabaseUrl,
            ),
            database_url is Some ==> {
                let port_text = match server_port {
                    Some(p) => p@,
                    None => Config::default_port(),
                };
                match port_of(port_text) {
                    Some(port) => r matches Ok(c) && c.database_url@ == database_url.unwrap()@
                        && c.server_host@ == (match server_host {
                        Some(h) => h@,
                        None => Config::default_host(),
                    }) && c.server_port == port,
                    None => r == Err::<Config, ConfigError>(ConfigError::InvalidPort),
                }
            },
    {
        let database_url = match database_url {
            Some(url) => url,
            None => {
                return Err(ConfigError::MissingDatabaseUrl);
            },
        };
        let server_host = match server_host {
            Some(host) => host,
            None => String::from_str("127.0.0.1"),
        };
        let port_text = match server_port {
            Some(port) => port,
            None => String::from_str("3000"),
        };
        match parse_port(port_text.as_str()) {
            Some(server_port) => Ok(Config { database_url, server_host, server_port }),
            None => Err(ConfigError::InvalidPort),
        }
    }

    /// The path of the store's file: the address without its leading
    /// `sqlite:`.
    pub fn database_path(&self) -> (path: String)
        ensures
            path@ == without_prefixes(self.database_url@, "sqlite:"@),
    {
        strip_prefixes(self.database_url.as_str(), "sqlite:")
    }

    /// The address the server listens on: host, a colon, the port.
    pub fn listen_address(&self) -> (address: String)
        ensures
            address@ == self.server_host@ + ":"@ + crate::text::decimal(self.server_port as int),
    {
        let mut address = self.server_host.clone();
        address.append(":");
        let port = crate::text::decimal_text(self.server_port as i64);
        address.append(port.as_str());
        address
    }
}

} // verus!
