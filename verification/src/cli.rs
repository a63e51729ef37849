//! The decisions behind the command-line flags: the served directory,
//! the port, and the timing toggle, each from the flag's optional text.

use vstd::prelude::*;
use vstd::string::{StringExecFns, StrSliceExecFns};

verus! {

/// True for the characters '0' through '9'.
pub open spec fn is_digit(c: char) -> bool {
    '0' <= c && c <= '9'
}

/// Numeric value of the digit character `c`.
pub open spec fn digit_val(c: char) -> nat {
    ((c as int) - ('0' as int)) as nat
}

/// True when `s` consists of decimal digits only.
pub open spec fn all_digits(s: Seq<char>) -> bool {
    forall|i: int| 0 <= i < s.len() ==> is_digit(#[trigger] s[i])
}

/// Value of the digit string `s` read as a decimal number.
pub open spec fn dec_value(s: Seq<char>) -> nat
    decreases s.len(),
{
    if s.len() == 0 {
        0
    } else {
        dec_value(s.drop_last()) * 10 + digit_val(s.last())
    }
}

/// Reading further digits never lowers the value: a prefix of a digit
/// string is worth at most the whole string.
proof fn lemma_dec_value_prefix(s: Seq<char>, i: int)
    requires
        0 <= i <= s.len(),
    ensures
        dec_value(s.take(i)) <= dec_value(s),
    decreases s.len() - i,
{
    if i < s.len() {
        assert(s.take(i + 1).drop_last() =~= s.take(i));
        assert(s.take(i + 1).last() == s[i]);
        lemma_dec_value_prefix(s, i + 1);
    } else {
        assert(s.take(i) =~= s);
    }
}

/// Parses a decimal port number: `Some` exactly when `s` is one or more
/// decimal digits whose value fits a 16-bit port, and then that value.
pub fn parse_port(s: &str) -> (r: Option<u16>)
    ensures
        r is Some <==> (s@.len() > 0 && all_digits(s@) && dec_value(s@) <= 65_535),
        r matches Some(p) ==> p as nat == dec_value(s@),
{
    let n = s.unicode_len();
    if n == 0 {
        return None;
    }
    let mut i: usize = 0;
    let mut acc: u32 = 0;
    while i < n
        invariant
            0 < n == s@.len(),
            i <= n,
            all_digits(s@.take(i as int)),
            acc as nat == dec_value(s@.take(i as int)),
            acc <= 65_535,
        decreases n - i,
    {
        let c = s.get_char(i);
        if c < '0' || c > '9' {
            proof {
                assert(!is_digit(s@[i as int]));
            }
            return None;
        }
        let d: u32 = (c as u32) - 48;
        let next: u32 = acc * 10 + d;
        proof {
            assert(s@.take(i + 1).drop_last() =~= s@.take(i as int));
            assert(s@.take(i + 1).last() == s@[i as int]);
        }
        if next > 65_535 {
            proof {
                lemma_dec_value_prefix(s@, i + 1);
            }
            return None;
        }
        acc = next;
        i += 1;
    }
    proof {
        assert(s@.take(n as int) =~= s@);
    }
    Some(acc as u16)
}

/// Port from the optional `-p` flag text: 8080 when the flag is absent,
/// else the flag parsed as a decimal port; `None` when that fails.
pub fn resolve_port(opt: Option<&str>) -> (r: Option<u16>)
    ensures
        opt is None ==> r == Some(8080u16),
        opt matches Some(s) ==> {
            &&& r is Some <==> (s@.len() > 0 && all_digits(s@) && dec_value(s@) <= 65_535)
            &&& (r matches Some(p) ==> p as nat == dec_value(s@))
        },
{
    match opt {
        None => Some(8080),
        Some(s) => parse_port(s),
    }
}

/// Directory from the optional `-d` flag text: the flag's value, or the
/// current directory "." when the flag is absent.
pub fn resolve_dir(opt: Option<String>) -> (d: String)
    ensures
        opt matches Some(s) ==> d@ == s@,
        opt is None ==> d@ == "."@,
{
    match opt {
        Some(s) => s,
        None => String::from_str("."),
    }
}

/// Timing toggle from the optional `-t` flag text: timing stays on
/// unless the flag is exactly the word "false".
pub fn resolve_timing(opt: Option<String>) -> (timed: bool)
    ensures
        opt is None ==> timed,
        opt matches Some(s) ==> (timed <==> s@ != "false"@),
{
    match opt {
        None => true,
        Some(p) => {
            let f = String::from_str("false");
            !(p == f)
        },
    }
}

} // verus!
