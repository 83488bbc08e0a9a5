//! Application configuration: the defaults, and the verified fallback
//! parser for the port value read from the environment. Reading the
//! environment itself is the caller's job; it hands the raw strings in.

use vstd::prelude::*;

verus! {

/// Process-wide configuration values.
#[derive(Debug)]
pub struct AppConfig {
    pub redis_url: String,
    pub redis_host: String,
    pub redis_port: u16,
    pub ffmpeg_path: String,
    pub log_level: String,
}

impl Clone for AppConfig {
    fn clone(&self) -> (r: Self)
        ensures
            r == *self,
    {
        AppConfig {
            redis_url: self.redis_url.clone(),
            redis_host: self.redis_host.clone(),
            redis_port: self.redis_port,
            ffmpeg_path: self.ffmpeg_path.clone(),
            log_level: self.log_level.clone(),
        }
    }
}

impl Default for AppConfig {
    fn default() -> (c: Self)
        ensures
            c.redis_url@ == "redis://localhost:6379"@,
            c.redis_host@ == "localhost"@,
            c.redis_port == 6379u16,
            c.ffmpeg_path@ == "/opt/homebrew/bin/ffmpeg"@,
            c.log_level@ == "info"@,
    {
        AppConfig {
            redis_url: String::from_str("redis://localhost:6379"),
            redis_host: String::from_str("localhost"),
            redis_port: 6379,
            ffmpeg_path: String::from_str("/opt/homebrew/bin/ffmpeg"),
            log_level: String::from_str("info"),
        }
    }
}

/// The value of a decimal digit character; ten for anything else.
pub open spec fn spec_digit_value(c: char) -> nat {
    if c == '0' {
        0
    } else if c == '1' {
        1
    } else if c == '2' {
        2
    } else if c == '3' {
        3
    } else if c == '4' {
        4
    } else if c == '5' {
        5
    } else if c == '6' {
        6
    } else if c == '7' {
        7
    } else if c == '8' {
        8
    } else if c == '9' {
        9
    } else {
        10
    }
}

pub open spec fn spec_is_digit(c: char) -> bool {
    spec_digit_value(c) < 10
}

/// A non-empty string of decimal digits.
pub open spec fn spec_all_digits(s: Seq<char>) -> bool {
    &&& s.len() > 0
    &&& forall|i: int| 0 <= i < s.len() ==> spec_is_digit(s[i])
}

/// The number a digit string denotes, most significant digit first.
pub open spec fn spec_num(s: Seq<char>) -> nat
    decreases s.len(),
{
    if s.len() == 0 {
        0
    } else {
        spec_num(s.drop_last()) * 10 + spec_digit_value(s.last())
    }
}

/// A digit string denotes at least what any of its prefixes denotes.
proof fn lemma_num_prefix_monotone(s: Seq<char>, k: int)
    requires
        0 <= k <= s.len(),
    ensures
        spec_num(s.subrange(0, k)) <= spec_num(s),
    decreases s.len() - k,
{
    if k == s.len() {
        assert(s.subrange(0, k) =~= s);
    } else {
        lemma_num_prefix_monotone(s.drop_last(), k);
        assert(s.drop_last().subrange(0, k) =~= s.subrange(0, k));
    }
}

fn digit_value(c: char) -> (d: u32)
    ensures
        d as nat == spec_digit_value(c),
{
    if c == '0' {
        0
    } else if c == '1' {
        1
    } else if c == '2' {
        2
    } else if c == '3' {
        3
    } else if c == '4' {
        4
    } else if c == '5' {
        5
    } else if c == '6' {
        6
    } else if c == '7' {
        7
    } else if c == '8' {
        8
    } else if c == '9' {
        9
    } else {
        10
    }
}

/// The digits of a port string: a single leading plus sign, when
/// present, is a sign marker and not part of the number.
pub open spec fn spec_port_digits(s: Seq<char>) -> Seq<char> {
    if s.len() > 0 && s[0] == '+' {
        s.drop_first()
    } else {
        s
    }
}

/// Parses a port number the way the standard integer parse reads an
/// unsigned value — an optional single leading plus sign, then one or
/// more decimal digits — falling back to the default port exactly when
/// the string is not of that shape or denotes a value too large for a
/// port.
pub fn parse_port_or_default(s: &str) -> (p: u16)
    ensures
        (spec_all_digits(spec_port_digits(s@)) && spec_num(spec_port_digits(s@)) <= u16::MAX)
            ==> p as nat == spec_num(spec_port_digits(s@)),
        !(spec_all_digits(spec_port_digits(s@)) && spec_num(spec_port_digits(s@)) <= u16::MAX)
            ==> p == 6379u16,
{
    let len = s.unicode_len();
    if len == 0 {
        return 6379;
    }
    let start: usize = if s.get_char(0) == '+' {
        1
    } else {
        0
    };
    let ghost dp = spec_port_digits(s@);
    proof {
        assert(dp =~= s@.subrange(start as int, len as int));
    }
    if start == len {
        return 6379;
    }
    let mut acc: u32 = 0;
    let mut i: usize = start;
    while i < len
        invariant
            start <= i <= len,
            start < len,
            len as nat == s@.len(),
            dp == s@.subrange(start as int, len as int),
            dp == spec_port_digits(s@),
            forall|j: int| 0 <= j < i - start ==> spec_is_digit(dp[j]),
            acc as nat == spec_num(dp.subrange(0, i - start)),
            acc <= 65535,
        decreases len - i,
    {
        let c = s.get_char(i);
        let d = digit_value(c);
        proof {
            assert(dp[i - start] == s@[i as int]);
        }
        if d >= 10 {
            return 6379;
        }
        proof {
            assert(dp.subrange(0, i + 1 - start).drop_last() =~= dp.subrange(0, i - start));
            assert(dp.subrange(0, i + 1 - start).last() == dp[i - start]);
        }
        let next: u32 = acc * 10 + d;
        if next > 65535 {
            proof {
                lemma_num_prefix_monotone(dp, i + 1 - start);
            }
            return 6379;
        }
        acc = next;
        i += 1;
    }
    proof {
        assert(dp.subrange(0, len - start) =~= dp);
    }
    acc as u16
}

} // verus!
