//! The handshake as the proxy keeps it, and the rewrite of its target.
use vstd::prelude::*;
use vstd::string::*;

use crate::minecraft::{rewrite_host, spec_rewrite_host};
use crate::text::{digit_char, lemma_decimal_chars, spec_decimal};

verus! {

/// The pattern a rewrite address must match: `host:port` or
/// `[ipv6]:port`. Its groups are the bracketed host, the plain host and
/// the port.
pub const ADDR_PATTERN: &'static str = "^(?:\\[(?P<ipv6>.+?)\\]|(?P<host>.+?)):(?P<port>\\d+)$";

/// What `regex::Regex` compiled from `pattern` captures in `text`: every
/// group of the first match in order, group 0 being the whole match, or
/// `None` when the pattern does not compile or does not match.
pub uninterp spec fn regex_captures(pattern: Seq<char>, text: Seq<char>) -> Option<
    Seq<Option<Seq<char>>>,
>;

/// Compiles `pattern` with `regex::Regex::new` and gives the groups of its
/// first match in `text` (`Regex::captures`, then `Captures::iter`); the
/// result is named `regex_captures`.
#[verifier::external_body]
fn captures(pattern: &str, text: &str) -> (res: Option<Vec<Option<String>>>)
    ensures
        match regex_captures(pattern@, text@) {
            None => res is None,
            Some(groups) => res matches Some(v) && v@.len() == groups.len() && forall|i: int|
                0 <= i < groups.len() ==> match #[trigger] groups[i] {
                    None => v@[i] is None,
                    Some(g) => v@[i] matches Some(s) && s@ == g,
                },
        },
{
    let regex = regex::Regex::new(pattern).ok()?;
    let caps = regex.captures(text)?;
    Some(caps.iter().map(|m| m.map(|m| m.as_str().to_owned())).collect())
}

/// The host and the port text of a rewrite address, or `None` when it does
/// not have the form `host:port` or `[ipv6]:port`.
pub open spec fn spec_addr_parts(addr: Seq<char>) -> Option<(Seq<char>, Seq<char>)> {
    match regex_captures(ADDR_PATTERN@, addr) {
        Some(g) => if g.len() == 4 && (g[1] is Some || g[2] is Some) && g[3] is Some {
            Some(
                (
                    if g[1] is Some {
                        g[1]->0
                    } else {
                        g[2]->0
                    },
                    g[3]->0,
                ),
            )
        } else {
            None
        },
        None => None,
    }
}

/// The value of the decimal digits `d`.
pub open spec fn spec_digits_value(d: Seq<char>) -> nat
    decreases d.len(),
{
    if d.len() == 0 {
        0
    } else {
        spec_digits_value(d.drop_last()) * 10 + ((d.last() as nat) - 48) as nat
    }
}

pub open spec fn is_ascii_digit(c: char) -> bool {
    48 <= (c as u32) <= 57
}

/// Every character of `d` is an ASCII digit.
pub open spec fn all_ascii_digits(d: Seq<char>) -> bool {
    forall|i: int| 0 <= i < d.len() ==> is_ascii_digit(#[trigger] d[i])
}

/// `s` without one leading `+`.
pub open spec fn without_plus(s: Seq<char>) -> Seq<char> {
    if s.len() > 0 && s[0] == '+' {
        s.skip(1)
    } else {
        s
    }
}

/// `u16::from_str`: an optional `+`, then one or more ASCII digits whose
/// value fits in 16 bits.
pub open spec fn spec_parse_u16(s: Seq<char>) -> Option<u16> {
    let d = without_plus(s);
    if d.len() > 0 && all_ascii_digits(d) && spec_digits_value(d) < 65536 {
        Some(spec_digits_value(d) as u16)
    } else {
        None
    }
}

/// Decimal text read back as digits gives the number it was written from.
pub proof fn lemma_decimal_value(n: nat)
    ensures
        spec_digits_value(spec_decimal(n)) == n,
    decreases n,
{
    let d = spec_decimal(n);
    let r = n % 10;
    assert((digit_char(r as int) as nat) == 48 + r);
    assert(d.len() > 0);
    assert(spec_digits_value(d) == spec_digits_value(d.drop_last()) * 10 + ((d.last() as nat) - 48) as nat);
    if n >= 10 {
        lemma_decimal_value(n / 10);
        assert(d.drop_last() =~= spec_decimal(n / 10));
        assert(d.last() == digit_char(r as int));
        assert(n == (n / 10) * 10 + r);
    } else {
        assert(d.drop_last() =~= Seq::<char>::empty());
        assert(r == n);
    }
}

/// A port written in decimal parses back to itself.
pub proof fn lemma_parse_decimal_port(port: u16)
    ensures
        spec_parse_u16(spec_decimal(port as nat)) == Some(port),
{
    let d = spec_decimal(port as nat);
    lemma_decimal_chars(port as nat);
    lemma_decimal_value(port as nat);
    assert(d[0] != '+') by {
        assert(48 <= (d[0] as u32) <= 57);
    }
    assert(without_plus(d) == d);
    assert(all_ascii_digits(d));
}

/// Parses a port number as `u16::from_str` does.
pub fn parse_u16(s: &str) -> (res: Option<u16>)
    ensures
        res == spec_parse_u16(s@),
{
    let n = s.unicode_len();
    let mut i: usize = 0;
    if n > 0 && s.get_char(0) == '+' {
        i = 1;
    }
    let start = i;
    let ghost d = s@.skip(start as int);
    assert(s@.skip(0) =~= s@);
    assert(d == without_plus(s@));
    if start == n {
        return None;
    }
    let mut acc: u32 = 0;
    while i < n
        invariant
            start <= i <= n,
            n == s@.len(),
            d == s@.skip(start as int),
            d == without_plus(s@),
            acc <= 65536,
            acc == if spec_digits_value(d.take(i - start)) < 65536 {
                spec_digits_value(d.take(i - start))
            } else {
                65536
            },
            forall|j: int| 0 <= j < i - start ==> is_ascii_digit(#[trigger] d[j]),
        decreases n - i,
    {
        let c = s.get_char(i);
        let code = c as u32;
        if code < 48 || code > 57 {
            assert(d[i - start] == c);
            assert(!is_ascii_digit(d[i - start]));
            return None;
        }
        let digit = code - 48;
        assert(d.take(i + 1 - start).drop_last() =~= d.take(i - start));
        assert(d.take(i + 1 - start).last() == c);
        acc = if acc * 10 + digit < 65536 {
            acc * 10 + digit
        } else {
            65536
        };
        i = i + 1;
    }
    assert(d.take(n - start) =~= d);
    if acc < 65536 {
        Some(acc as u16)
    } else {
        None
    }
}

/// The handshake fields the proxy reads and rewrites.
#[derive(Clone, Debug, PartialEq, Eq)]
pub struct HandshakeInfo {
    pub protocol_version: i32,
    pub server_address: String,
    pub server_port: u16,
    pub next_state: i32,
}

/// The message when a rewrite address has no `host:port` form.
pub open spec fn spec_addr_format_error(addr: Seq<char>) -> Seq<char> {
    "invalid rewrite address format: "@ + addr + " (expected host:port or [ipv6]:port)"@
}

/// The message when a rewrite address has no valid port.
pub open spec fn spec_addr_port_error(addr: Seq<char>) -> Seq<char> {
    "invalid rewrite address port: "@ + addr
}

impl HandshakeInfo {
    /// Points the handshake at `addr`: its host replaces the address's host,
    /// keeping what follows the first NUL, and its port replaces the port.
    /// On an error the handshake is left as it was.
    pub fn rewrite_addr(&mut self, addr: &str) -> (res: Result<(), String>)
        ensures
            match spec_addr_parts(addr@) {
                None => {
                    &&& res matches Err(m) && m@ == spec_addr_format_error(addr@)
                    &&& *final(self) == *old(self)
                },
                Some((host, port)) => match spec_parse_u16(port) {
                    None => {
                        &&& res matches Err(m) && m@ == spec_addr_port_error(addr@)
                        &&& *final(self) == *old(self)
                    },
                    Some(p) => {
                        &&& res is Ok
                        &&& final(self).server_address@ == spec_rewrite_host(
                            old(self).server_address@,
                            host,
                        )
                        &&& final(self).server_port == p
                        &&& final(self).protocol_version == old(self).protocol_version
                        &&& final(self).next_state == old(self).next_state
                    },
                },
            },
    {
        let groups = match captures(ADDR_PATTERN, addr) {
            Some(g) => g,
            None => return Err(format_error(addr)),
        };
        if groups.len() != 4 || groups[3].is_none() {
            return Err(format_error(addr));
        }
        let host = match &groups[1] {
            Some(h) => h,
            None => match &groups[2] {
                Some(h) => h,
                None => return Err(format_error(addr)),
            },
        };
        let port_text = match &groups[3] {
            Some(p) => p,
            None => return Err(format_error(addr)),
        };
        let port = match parse_u16(port_text.as_str()) {
            Some(p) => p,
            None => {
                let mut m = String::from_str("invalid rewrite address port: ");
                m.append(addr);
                return Err(m);
            },
        };
        self.server_address = rewrite_host(self.server_address.as_str(), host.as_str());
        self.server_port = port;
        Ok(())
    }
}

fn format_error(addr: &str) -> (m: String)
    ensures
        m@ == spec_addr_format_error(addr@),
{
    let mut m = String::from_str("invalid rewrite address format: ");
    m.append(addr);
    m.append(" (expected host:port or [ipv6]:port)");
    m
}

} // verus!
