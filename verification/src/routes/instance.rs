//! Where the bank service this market talks to can be reached.
use crate::text::{all_digits, decimal, digit_value, digits_value, is_decimal_digit, lemma_decimal_reads_back};
use vstd::prelude::*;
use vstd::string::{StrSliceExecFns, StringExecFns};

verus! {

/// The bank service's address and port.
pub struct BankIp {
    pub ip: String,
    pub port: u32,
}

/// What `u32::from_str` gives: an optional leading `+`, then one or more
/// decimal digits spelling a number no larger than `u32::MAX`; anything else
/// (empty text, other characters, a value too large) is an error.
pub open spec fn parse_u32(s: Seq<char>) -> Option<u32> {
    let d = if s.len() > 0 && s[0] == '+' { s.drop_first() } else { s };
    if d.len() > 0 && all_digits(d) && digits_value(d) <= u32::MAX {
        Some(digits_value(d) as u32)
    } else {
        None
    }
}

/// A number's decimal text, with or without a leading `+`, reads back as
/// that number; text with a character that is neither a digit nor a
/// leading `+` reads as nothing.
pub proof fn lemma_parse_reads_decimal(n: u32, s: Seq<char>, i: int)
    ensures
        parse_u32(decimal(n as nat)) == Some(n),
        parse_u32(seq!['+'] + decimal(n as nat)) == Some(n),
        (0 <= i < s.len() && !is_decimal_digit(s[i]) && !(i == 0 && s[i] == '+')) ==> parse_u32(s) is None,
{
    lemma_decimal_reads_back(n as nat);
    let t = decimal(n as nat);
    assert(t[0] != '+') by {
        assert(is_decimal_digit(t[0]));
    }
    assert((seq!['+'] + t).drop_first() =~= t);
    if 0 <= i < s.len() && !is_decimal_digit(s[i]) && !(i == 0 && s[i] == '+') {
        let d = if s.len() > 0 && s[0] == '+' { s.drop_first() } else { s };
        if s.len() > 0 && s[0] == '+' {
            assert(d[i - 1] == s[i]);
            assert(!is_decimal_digit(d[i - 1]));
        } else {
            assert(!is_decimal_digit(d[i]));
        }
    }
}

fn digit_of(c: char) -> (r: Option<u64>)
    ensures
        r is Some <==> is_decimal_digit(c),
        r matches Some(v) ==> v == digit_value(c),
{
    if c == '0' {
        Some(0)
    } else if c == '1' {
        Some(1)
    } else if c == '2' {
        Some(2)
    } else if c == '3' {
        Some(3)
    } else if c == '4' {
        Some(4)
    } else if c == '5' {
        Some(5)
    } else if c == '6' {
        Some(6)
    } else if c == '7' {
        Some(7)
    } else if c == '8' {
        Some(8)
    } else if c == '9' {
        Some(9)
    } else {
        None
    }
}

proof fn lemma_prefix_value_at_most(d: Seq<char>, k: int)
    requires
        0 <= k <= d.len(),
    ensures
        digits_value(d.take(k)) <= digits_value(d),
    decreases d.len(),
{
    if k < d.len() {
        lemma_prefix_value_at_most(d.drop_last(), k);
        assert(d.drop_last().take(k) =~= d.take(k));
    } else {
        assert(d.take(k) =~= d);
    }
}

/// Reads a `u32` the way `str::parse::<u32>` does (see `parse_u32`).
pub fn parse_u32_text(s: &str) -> (r: Option<u32>)
    ensures
        r == parse_u32(s@),
{
    let n = s.unicode_len();
    let start: usize = if n > 0 && s.get_char(0) == '+' { 1 } else { 0 };
    let ghost d = if s@.len() > 0 && s@[0] == '+' { s@.drop_first() } else { s@ };
    proof {
        assert(d =~= s@.subrange(start as int, n as int));
    }
    if start == n {
        return None;
    }
    let mut value: u64 = 0;
    let mut i: usize = start;
    while i < n
        invariant
            start <= i <= n,
            n == s@.len(),
            d == s@.subrange(start as int, n as int),
            d == (if s@.len() > 0 && s@[0] == '+' { s@.drop_first() } else { s@ }),
            forall|j: int| 0 <= j < i - start ==> is_decimal_digit(#[trigger] d[j]),
            value == digits_value(d.take(i - start)),
            value <= u32::MAX,
        decreases n - i,
    {
        let c = s.get_char(i);
        let k = i - start;
        proof {
            assert(d[k as int] == c);
        }
        match digit_of(c) {
            None => {
                proof {
                    assert(!is_decimal_digit(d[k as int]));
                    assert((k as int) < d.len());
                    assert(!all_digits(d));
                }
                return None;
            },
            Some(v) => {
                proof {
                    assert(d.take(k + 1).drop_last() =~= d.take(k as int));
                    assert(d.take(k + 1).last() == c);
                }
                value = value * 10 + v;
                assert(value == digits_value(d.take(k + 1)));
                if value > 0xffff_ffff {
                    proof {
                        lemma_prefix_value_at_most(d, k + 1);
                        assert(parse_u32(s@) is None);
                    }
                    return None;
                }
            },
        }
        i = i + 1;
    }
    proof {
        assert(d.take(d.len() as int) =~= d);
    }
    Some(value as u32)
}

/// The bank's address, and its port as the `BANK_PORT` setting gives it
/// (80 when unset); `None` when the setting is not a `u32`.
pub fn get_bank_ip(ip: String, port_setting: Option<String>) -> (r: Option<BankIp>)
    ensures
        r matches Some(b) ==> b.ip@ == ip@,
        match port_setting {
            Some(p) => r is Some <==> parse_u32(p@) is Some,
            None => r is Some,
        },
        r matches Some(b) ==> match port_setting {
            Some(p) => parse_u32(p@) == Some(b.port),
            None => b.port == 80,
        },
{
    let port_text = match port_setting {
        Some(p) => p,
        None => String::from_str("80"),
    };
    proof {
        reveal_strlit("80");
        if port_setting is None {
            assert(port_text@ =~= seq!['8', '0']);
            assert(port_text@.drop_last() =~= seq!['8']);
            assert(seq!['8'].drop_last() =~= Seq::<char>::empty());
            assert(digits_value(Seq::<char>::empty()) == 0);
            assert(seq!['8'].last() == '8');
            assert(digits_value(seq!['8']) == 8);
            assert(digits_value(port_text@.drop_last()) == 8);
            assert(digits_value(port_text@) == 80);
        }
    }
    match parse_u32_text(port_text.as_str()) {
        Some(port) => Some(BankIp { ip, port }),
        None => None,
    }
}

} // verus!
