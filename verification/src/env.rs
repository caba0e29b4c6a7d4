//! Decoding of the invocation state the front-end passes through its
//! environment variable.
//!
//! The variable holds a small signed integer; a fixed mapping turns it
//! into a typed state.  An integer outside every defined range is a
//! protocol violation: decoding reports it as an error instead of
//! aborting, since the variable is external input that nothing
//! guarantees.

use vstd::prelude::*;

verus! {

/// The interaction state of the current invocation.
#[derive(Clone, Copy, Debug, PartialEq, Eq, Structural)]
pub enum Retv {
    /// The first call of a session, before any selection.
    InitialCall,
    /// The user selected one of the listed entries.
    EntrySelected,
    /// The user entered and selected a custom entry.
    CustomEntrySelected,
    /// The user pressed a custom key; the payload is the key number,
    /// counted from 1.
    CustomKey(i8),
}

/// The mapping from the raw integer to the typed state: 0, 1 and 2 name
/// the three plain states, 10 through 28 name custom keys 1 through 19,
/// and every other value is reported back as an error.
pub open spec fn spec_decode_retv(v: i8) -> Result<Retv, i8> {
    if v == 0 {
        Ok(Retv::InitialCall)
    } else if v == 1 {
        Ok(Retv::EntrySelected)
    } else if v == 2 {
        Ok(Retv::CustomEntrySelected)
    } else if 10 <= v && v <= 28 {
        Ok(Retv::CustomKey((v - 9) as i8))
    } else {
        Err(v)
    }
}

impl Retv {
    /// Decodes the raw integer of the environment variable.  An
    /// out-of-range value comes back unchanged as the error, for the
    /// caller to report.
    pub fn from_value(v: i8) -> (r: Result<Retv, i8>)
        ensures
            r == spec_decode_retv(v),
    {
        match v {
            0 => Ok(Retv::InitialCall),
            1 => Ok(Retv::EntrySelected),
            2 => Ok(Retv::CustomEntrySelected),
            10..=28 => Ok(Retv::CustomKey(v - 9)),
            _ => Err(v),
        }
    }
}

/// An ASCII decimal digit.
pub open spec fn spec_is_digit(c: char) -> bool {
    '0' <= c && c <= '9'
}

/// The numeric value of one ASCII digit.
pub open spec fn spec_digit_val(c: char) -> int {
    c as int - '0' as int
}

/// Every character of `s` is an ASCII digit.
pub open spec fn spec_all_digits(s: Seq<char>) -> bool {
    forall|i: int| 0 <= i < s.len() ==> spec_is_digit(#[trigger] s[i])
}

/// The value of a digit string read in base ten; leading zeros are
/// allowed and carry no weight.
pub open spec fn spec_digits_val(s: Seq<char>) -> int
    decreases s.len(),
{
    if s.len() == 0 {
        0
    } else {
        10 * spec_digits_val(s.drop_last()) + spec_digit_val(s.last())
    }
}

/// The signed value of a digit string, and whether it fits in a signed
/// 8-bit integer: at least one digit, digits only, value in range.
pub open spec fn spec_parse_digits(neg: bool, ds: Seq<char>) -> Option<i8> {
    if ds.len() > 0 && spec_all_digits(ds) {
        let v = if neg {
            -spec_digits_val(ds)
        } else {
            spec_digits_val(ds)
        };
        if i8::MIN <= v <= i8::MAX {
            Some(v as i8)
        } else {
            None
        }
    } else {
        None
    }
}

/// What a signed 8-bit decimal parse accepts: an optional leading `+` or
/// `-` followed by one or more ASCII digits, with the value in range.
/// Anything else — the empty string, a bare sign, a stray character, an
/// out-of-range value — parses to nothing.
pub open spec fn spec_parse_i8(s: Seq<char>) -> Option<i8> {
    if s.len() > 0 && (s[0] == '-' || s[0] == '+') {
        spec_parse_digits(s[0] == '-', s.drop_first())
    } else {
        spec_parse_digits(false, s)
    }
}

/// Parses a signed 8-bit decimal integer, accepting exactly the strings
/// `spec_parse_i8` accepts.
#[verifier::loop_isolation(false)]
pub fn parse_i8(s: &str) -> (r: Option<i8>)
    ensures
        r == spec_parse_i8(s@),
{
    let n = s.unicode_len();
    if n == 0 {
        return None;
    }
    let first = s.get_char(0);
    let neg = first == '-';
    let start: usize = if first == '-' || first == '+' {
        1
    } else {
        0
    };
    let ghost ds = s@.subrange(start as int, n as int);
    proof {
        if start == 1 {
            assert(ds =~= s@.drop_first());
        } else {
            assert(ds =~= s@);
        }
    }
    if n == start {
        return None;
    }
    let mut acc: u32 = 0;
    let mut i: usize = start;
    while i < n
        invariant
            start <= i <= n,
            n == s@.len(),
            start == 0 || start == 1,
            ds == s@.subrange(start as int, n as int),
            spec_all_digits(s@.subrange(start as int, i as int)),
            acc <= 1000,
            spec_digits_val(s@.subrange(start as int, i as int)) <= 999 ==> acc
                == spec_digits_val(s@.subrange(start as int, i as int)),
            spec_digits_val(s@.subrange(start as int, i as int)) > 999 ==> acc == 1000,
        decreases n - i,
    {
        let c = s.get_char(i);
        if c < '0' || c > '9' {
            proof {
                assert(ds[i - start] == s@[i as int]);
                assert(!spec_all_digits(ds));
            }
            return None;
        }
        let d: u32 = (c as u32) - ('0' as u32);
        proof {
            let p = s@.subrange(start as int, i as int);
            let p2 = s@.subrange(start as int, i + 1 as int);
            assert(p2.drop_last() =~= p);
            assert(p2.last() == s@[i as int]);
            assert(spec_digits_val(p2) == 10 * spec_digits_val(p) + spec_digit_val(s@[i as int]));
            assert forall|j: int| 0 <= j < p2.len() implies spec_is_digit(#[trigger] p2[j]) by {
                if j < p.len() {
                    assert(p2[j] == p[j]);
                } else {
                    assert(p2[j] == s@[i as int]);
                }
            }
        }
        let next: u32 = acc * 10 + d;
        acc = if next > 1000 {
            1000
        } else {
            next
        };
        i = i + 1;
    }
    proof {
        assert(s@.subrange(start as int, n as int) == ds);
    }
    if neg {
        if acc <= 128 {
            Some((-(acc as i32)) as i8)
        } else {
            None
        }
    } else {
        if acc <= 127 {
            Some(acc as i8)
        } else {
            None
        }
    }
}

} // verus!
