//! A minimal HTTP/1.1 file server core: request-line parsing, MIME
//! resolution, response-header construction, and the dispatch logic of a
//! fixed-size worker pool. Socket and filesystem access live outside this
//! crate; everything here is pure logic over the values they hand in.
use vstd::prelude::*;

pub mod text;
pub mod request;
pub mod mime;
pub mod headers;
pub mod handler;
pub mod pool;

verus! {

/// Bind address used when no argument is supplied.
pub const DEFAULT_ADDRESS: &'static str = "127.0.0.1";

/// TCP port used when no argument is supplied.
pub const DEFAULT_PORT: u16 = 8080;

/// A decimal digit.
pub open spec fn is_digit(c: char) -> bool {
    '0' <= c && c <= '9'
}

/// Whether every character of `s` is a decimal digit.
pub open spec fn all_digits(s: Seq<char>) -> bool {
    forall|i: int| 0 <= i < s.len() ==> is_digit(s[i])
}

/// The number written in decimal by `s` (meaningful when `s` is all
/// digits).
pub open spec fn dec_value(s: Seq<char>) -> int
    decreases s.len(),
{
    if s.len() == 0 {
        0
    } else {
        dec_value(s.drop_last()) * 10 + (s.last() as int - 48)
    }
}

/// The port a command-line argument names: a nonempty string of digits
/// whose value fits a `u16`; anything else is invalid.
pub open spec fn parsed_port(s: Seq<char>) -> Option<u16> {
    if s.len() == 0 || !all_digits(s) {
        None
    } else if dec_value(s) > 65535 {
        None
    } else {
        Some(dec_value(s) as u16)
    }
}

proof fn lemma_dec_value_nonneg(s: Seq<char>)
    requires
        all_digits(s),
    ensures
        dec_value(s) >= 0,
    decreases s.len(),
{
    if s.len() > 0 {
        lemma_dec_value_nonneg(s.drop_last());
    }
}

proof fn lemma_dec_value_prefix(s: Seq<char>, k: int)
    requires
        0 <= k <= s.len(),
        all_digits(s),
    ensures
        dec_value(s.subrange(0, k)) <= dec_value(s),
    decreases s.len() - k,
{
    if k < s.len() {
        lemma_dec_value_prefix(s, k + 1);
        let p = s.subrange(0, k + 1);
        assert(p.drop_last() =~= s.subrange(0, k));
        assert(all_digits(s.subrange(0, k)));
        lemma_dec_value_nonneg(s.subrange(0, k));
    } else {
        assert(s.subrange(0, k) =~= s);
    }
}

/// Parse a decimal port number.
pub fn parse_port(s: &str) -> (r: Option<u16>)
    ensures
        r == parsed_port(s@),
{
    let len = s.unicode_len();
    if len == 0 {
        return None;
    }
    let mut acc: u32 = 0;
    let mut i: usize = 0;
    while i < len
        invariant
            0 <= i <= len,
            len == s@.len(),
            all_digits(s@.subrange(0, i as int)),
            acc == dec_value(s@.subrange(0, i as int)),
            acc <= 65535,
        decreases len - i,
    {
        let c = s.get_char(i);
        if !('0' <= c && c <= '9') {
            return None;
        }
        let d: u32 = (c as u32) - 48;
        acc = acc * 10 + d;
        proof {
            assert(s@.subrange(0, i + 1).drop_last() =~= s@.subrange(0, i as int));
            assert(s@.subrange(0, i + 1).last() == s@[i as int]);
        }
        if acc > 65535 {
            proof {
                if all_digits(s@) {
                    lemma_dec_value_prefix(s@, i + 1);
                }
            }
            return None;
        }
        i = i + 1;
    }
    proof {
        assert(s@.subrange(0, len as int) =~= s@);
    }
    Some(acc as u16)
}

/// The listener configuration: where the server binds.
pub struct Config {
    pub port: u16,
    pub address: String,
}

impl Config {
    /// Build the configuration from the two optional positional arguments,
    /// bind address then port, falling back to the defaults where an
    /// argument is absent. An invalid port string is a fatal startup
    /// error.
    pub fn new(address_arg: Option<String>, port_arg: Option<String>) -> (r: Result<
        Config,
        &'static str,
    >)
        ensures
            match r {
                Ok(c) => {
                    &&& c.address@ == match address_arg {
                        Some(a) => a@,
                        None => "127.0.0.1"@,
                    }
                    &&& match port_arg {
                        Some(p) => parsed_port(p@) == Some(c.port),
                        None => c.port == 8080,
                    }
                },
                Err(_) => port_arg matches Some(p) && parsed_port(p@) is None,
            },
    {
        let address = match address_arg {
            Some(a) => a,
            None => "127.0.0.1".to_owned(),
        };
        let port: u16 = match port_arg {
            Some(p) => match parse_port(p.as_str()) {
                Some(v) => v,
                None => {
                    return Err("Please provide a valid port.");
                },
            },
            None => 8080,
        };
        Ok(Config { address, port })
    }
}

} // verus!
