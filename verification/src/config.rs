//! The server's settings, as read from the environment.

use vstd::prelude::*;
use vstd::string::*;

verus! {

/// The port that the server listens on unless told otherwise.
pub const DEFAULT_PORT: u16 = 3000;

/// Whether `c` is one of the ten decimal digits.
pub open spec fn is_digit(c: char) -> bool {
    '0' <= c <= '9'
}

/// Whether `s` is one or more decimal digits and nothing else.
pub open spec fn is_numeral(s: Seq<char>) -> bool {
    &&& s.len() > 0
    &&& forall|i: int| 0 <= i < s.len() ==> is_digit(#[trigger] s[i])
}

/// The number that a row of decimal digits stands for.
pub open spec fn numeral_value(s: Seq<char>) -> nat
    decreases s.len(),
{
    if s.len() == 0 {
        0
    } else {
        10 * numeral_value(s.drop_last()) + (s.last() as nat - '0' as nat) as nat
    }
}

/// `s` without the plus sign that it may begin with.
pub open spec fn unsigned_part(s: Seq<char>) -> Seq<char> {
    if s.len() > 0 && s[0] == '+' {
        s.skip(1)
    } else {
        s
    }
}

/// The port that `s` names: decimal digits, after a plus sign or not, for a
/// number of 16 bits.
pub open spec fn port_named(s: Seq<char>) -> Option<u16> {
    let digits = unsigned_part(s);
    if is_numeral(digits) && numeral_value(digits) <= u16::MAX {
        Some(numeral_value(digits) as u16)
    } else {
        None
    }
}

proof fn lemma_value_grows(s: Seq<char>, k: int)
    requires
        0 <= k <= s.len(),
    ensures
        numeral_value(s.take(k)) <= numeral_value(s),
    decreases s.len() - k,
{
    if k < s.len() {
        lemma_value_grows(s, k + 1);
        assert(s.take(k + 1).drop_last() == s.take(k));
    } else {
        assert(s.take(k) == s);
    }
}

/// Reads a port number.
pub fn parse_port(s: &str) -> (port: Option<u16>)
    ensures
        port == port_named(s@),
{
    let ghost digits = unsigned_part(s@);
    let mut rest = s.chars();
    let mut next: Option<char> = rest.next();
    if next == Some('+') {
        next = rest.next();
    }
    if next.is_none() {
        return None;
    }
    let mut value: u32 = 0;
    let ghost mut read: int = 0;
    loop
        invariant
            digits == unsigned_part(s@),
            0 <= read <= digits.len(),
            next matches Some(d) ==> {
                &&& read < digits.len()
                &&& d == digits[read]
                &&& vstd::std_specs::iter::IteratorSpec::remaining(&rest) == digits.skip(read + 1)
            },
            next is None ==> read == digits.len() && read > 0,
            forall|i: int| 0 <= i < read ==> is_digit(#[trigger] digits[i]),
            value == numeral_value(digits.take(read)),
            value <= u16::MAX,
        decreases digits.len() - read,
    {
        match next {
            None => {
                assert(digits.take(read) == digits);
                return Some(value as u16);
            },
            Some(c) => {
                if c < '0' || c > '9' {
                    return None;
                }
                assert(digits.take(read + 1).drop_last() == digits.take(read));
                value = value * 10 + (c as u32 - '0' as u32);
                if value > u16::MAX as u32 {
                    proof {
                        lemma_value_grows(digits, read + 1);
                    }
                    return None;
                }
                next = rest.next();
                proof {
                    read = read + 1;
                }
            },
        }
    }
}

/// The port to listen on: the one that the setting names, and the default where
/// nothing is set or the setting names none.
pub fn resolve_port(setting: Option<&str>) -> (port: u16)
    ensures
        port == match setting {
            Some(s) => match port_named(s@) {
                Some(named) => named,
                None => DEFAULT_PORT,
            },
            None => DEFAULT_PORT,
        },
{
    match setting {
        Some(s) => match parse_port(s) {
            Some(named) => named,
            None => DEFAULT_PORT,
        },
        None => DEFAULT_PORT,
    }
}

/// The log filter: the setting, or one that shows the server's own debug output.
pub fn log_filter(setting: Option<String>) -> (filter: String)
    ensures
        filter@ == match setting {
            Some(s) => s@,
            None => "server=debug,tower_http=debug"@,
        },
{
    match setting {
        Some(s) => s,
        None => "server=debug,tower_http=debug".to_owned(),
    }
}

} // verus!
