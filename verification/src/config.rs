//! The decisions inside configuration loading: turning the raw text of the
//! port setting into a port number, and the raw mode setting into the
//! development flag. Reading the environment itself stays with the caller.

use vstd::prelude::*;

verus! {

/// A decimal digit, by code point.
pub open spec fn is_digit(c: char) -> bool {
    48 <= c as int <= 57
}

/// Every character is a decimal digit.
pub open spec fn all_digits(s: Seq<char>) -> bool {
    forall|i: int| 0 <= i < s.len() ==> is_digit(#[trigger] s[i])
}

/// The numeric value of a digit string.
pub open spec fn digits_value(s: Seq<char>) -> int
    decreases s.len(),
{
    if s.len() == 0 {
        0
    } else {
        digits_value(s.drop_last()) * 10 + (s.last() as int - 48)
    }
}

proof fn lemma_digits_value_nonneg(s: Seq<char>)
    requires
        all_digits(s),
    ensures
        digits_value(s) >= 0,
    decreases s.len(),
{
    if s.len() > 0 {
        assert(all_digits(s.drop_last())) by {
            assert(forall|i: int|
                0 <= i < s.drop_last().len() ==> is_digit(#[trigger] s.drop_last()[i]));
        }
        lemma_digits_value_nonneg(s.drop_last());
        assert(is_digit(s[s.len() - 1]));
    }
}

proof fn lemma_prefix_value_le(s: Seq<char>, i: int)
    requires
        all_digits(s),
        0 <= i <= s.len(),
    ensures
        digits_value(s.subrange(0, i)) <= digits_value(s),
    decreases s.len() - i,
{
    if i < s.len() {
        let t = s.subrange(0, i + 1);
        assert(t.drop_last() =~= s.subrange(0, i));
        assert(t.last() == s[i]);
        assert(is_digit(s[i]));
        assert(all_digits(s.subrange(0, i))) by {
            assert(forall|j: int|
                0 <= j < i ==> is_digit(#[trigger] s.subrange(0, i)[j]));
        }
        lemma_digits_value_nonneg(s.subrange(0, i));
        assert(digits_value(s.subrange(0, i)) <= digits_value(t));
        lemma_prefix_value_le(s, i + 1);
    } else {
        assert(s.subrange(0, i) =~= s);
    }
}

/// What parsing a port setting answers: the numeric value of a non-empty
/// string of decimal digits, if it fits a port number; nothing otherwise.
pub open spec fn parse_port_spec(s: Seq<char>) -> Option<u16> {
    if s.len() > 0 && all_digits(s) && digits_value(s) <= u16::MAX {
        Some(digits_value(s) as u16)
    } else {
        None
    }
}

/// Parse a port setting: a non-empty string of decimal digits whose value
/// fits a port number. Anything else is rejected.
pub fn parse_port(s: &str) -> (r: Option<u16>)
    ensures
        r == parse_port_spec(s@),
{
    let ghost chars = s@;
    let n = s.unicode_len();
    if n == 0 {
        return None;
    }
    let mut value: u32 = 0;
    let mut i: usize = 0;
    while i < n
        invariant
            n == chars.len(),
            0 < n,
            chars == s@,
            i <= n,
            all_digits(chars.subrange(0, i as int)),
            value as int == digits_value(chars.subrange(0, i as int)),
            value <= u16::MAX,
        decreases n - i,
    {
        let c = s.get_char(i);
        let cv = c as u32;
        if cv < 48 || cv > 57 {
            assert(!is_digit(chars[i as int]));
            return None;
        }
        assert(is_digit(chars[i as int]));
        let d: u32 = cv - 48;
        let next: u32 = value * 10 + d;
        proof {
            let t = chars.subrange(0, i as int + 1);
            assert(t.drop_last() =~= chars.subrange(0, i as int));
            assert(t.last() == chars[i as int]);
            assert(all_digits(t)) by {
                assert(forall|j: int| 0 <= j < t.len() ==> is_digit(#[trigger] t[j]));
            }
        }
        if next > 65535 {
            proof {
                if all_digits(chars) {
                    lemma_prefix_value_le(chars, i as int + 1);
                }
            }
            return None;
        }
        value = next;
        i = i + 1;
    }
    proof {
        assert(chars.subrange(0, chars.len() as int) =~= chars);
    }
    Some(value as u16)
}

/// The port the server listens on: the configured value if one was set,
/// otherwise 8080. The caller treats an unparsable setting as fatal, as a
/// misconfiguration.
pub fn effective_port(setting: Option<&str>) -> (r: Option<u16>)
    ensures
        match setting {
            Some(s) => r == parse_port_spec(s@),
            None => r == Some(8080u16),
        },
{
    match setting {
        Some(s) => parse_port(s),
        None => Some(8080),
    }
}

/// The development flag: set exactly when the mode setting is `dev`.
pub fn mode_is_dev(mode: Option<&str>) -> (r: bool)
    ensures
        r <==> (match mode {
            Some(m) => m@ == "dev"@,
            None => false,
        }),
{
    match mode {
        Some(m) => {
            let dev = String::from_str("dev");
            let owned = m.to_owned();
            owned == dev
        },
        None => false,
    }
}

} // verus!
