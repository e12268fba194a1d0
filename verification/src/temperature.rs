//! The sensor side: locating the temperature source and parsing its reading.
//!
//! The concrete transport reads a small text file whose content is an
//! integer number of millidegrees Celsius, surrounded by optional ASCII
//! whitespace. The parsing of that text is done here and verified; the file
//! read itself, and the final division by 1000 into a floating-point Celsius
//! value, are the caller's.

use vstd::prelude::*;

verus! {

/// Why a sensor reading could not be produced.
#[derive(Clone, Copy, Debug, PartialEq, Eq, Structural)]
pub enum SensorError {
    /// The temperature source could not be read at all.
    Unreadable,
    /// The content of the source was not a plain decimal reading.
    Malformed,
}

/// Locates the temperature source; the path names the file whose content is
/// the raw millidegree reading.
pub struct TemperatureMonitor {
    pub temp_path: String,
}

impl TemperatureMonitor {
    pub fn new(temp_path: String) -> (m: Self)
        ensures
            m.temp_path@ == temp_path@,
    {
        TemperatureMonitor { temp_path }
    }
}

/// The ASCII whitespace bytes the sensor file may carry around the number:
/// space, tab, line feed, carriage return.
pub open spec fn is_ascii_whitespace(b: u8) -> bool {
    b == 32 || b == 9 || b == 10 || b == 13
}

/// An ASCII decimal digit.
pub open spec fn is_ascii_digit(b: u8) -> bool {
    48 <= b && b <= 57
}

/// The bytes with leading ASCII whitespace removed.
pub open spec fn trim_start(s: Seq<u8>) -> Seq<u8>
    decreases s.len(),
{
    if s.len() > 0 && is_ascii_whitespace(s[0]) {
        trim_start(s.drop_first())
    } else {
        s
    }
}

/// The bytes with trailing ASCII whitespace removed.
pub open spec fn trim_end(s: Seq<u8>) -> Seq<u8>
    decreases s.len(),
{
    if s.len() > 0 && is_ascii_whitespace(s.last()) {
        trim_end(s.drop_last())
    } else {
        s
    }
}

/// The bytes with ASCII whitespace removed from both ends.
pub open spec fn trimmed(s: Seq<u8>) -> Seq<u8> {
    trim_end(trim_start(s))
}

/// Every byte is an ASCII decimal digit.
pub open spec fn all_digits(s: Seq<u8>) -> bool {
    forall|i: int| 0 <= i < s.len() ==> is_ascii_digit(s[i])
}

/// The number a sequence of decimal digits denotes, most significant first.
pub open spec fn digits_value(s: Seq<u8>) -> int
    decreases s.len(),
{
    if s.len() == 0 {
        0
    } else {
        digits_value(s.drop_last()) * 10 + s.last() - 48
    }
}

/// A raw sensor reading is valid when, after trimming, it is a non-empty run
/// of decimal digits whose value fits in a `u32` — exactly the readings the
/// parser accepts.
pub open spec fn reading_valid(s: Seq<u8>) -> bool {
    trimmed(s).len() > 0 && all_digits(trimmed(s)) && digits_value(trimmed(s)) <= u32::MAX
}

proof fn lemma_digits_value_nonneg(s: Seq<u8>)
    requires
        all_digits(s),
    ensures
        digits_value(s) >= 0,
    decreases s.len(),
{
    if s.len() > 0 {
        assert(all_digits(s.drop_last()));
        lemma_digits_value_nonneg(s.drop_last());
    }
}

/// A digit string denotes at least as much as any of its prefixes: appending
/// digits never decreases the value.
proof fn lemma_digits_value_prefix_le(s: Seq<u8>, j: int)
    requires
        all_digits(s),
        0 <= j <= s.len(),
    ensures
        digits_value(s.take(j)) <= digits_value(s),
    decreases s.len(),
{
    if j == s.len() {
        assert(s.take(j) =~= s);
    } else {
        assert(all_digits(s.drop_last()));
        lemma_digits_value_nonneg(s.drop_last());
        assert(s.take(j) =~= s.drop_last().take(j));
        lemma_digits_value_prefix_le(s.drop_last(), j);
    }
}

fn is_whitespace_byte(b: u8) -> (r: bool)
    ensures
        r == is_ascii_whitespace(b),
{
    b == 32 || b == 9 || b == 10 || b == 13
}

fn is_digit_byte(b: u8) -> (r: bool)
    ensures
        r == is_ascii_digit(b),
{
    b >= 48 && b <= 57
}

/// Parse the content of the sensor file into a millidegree reading.
///
/// The reading is accepted exactly when, after stripping ASCII whitespace
/// from both ends, the content is a non-empty run of decimal digits whose
/// value fits in a `u32`; the result is then that value. Anything else —
/// empty content, a stray sign or letter, a number too large — is malformed.
pub fn parse_millicelsius(raw: &[u8]) -> (r: Result<u32, SensorError>)
    ensures
        reading_valid(raw@) ==> (r matches Ok(v) && v as int == digits_value(trimmed(raw@))),
        !reading_valid(raw@) ==> r == Err::<u32, SensorError>(SensorError::Malformed),
{
    let n: usize = raw.len();
    proof {
        assert(raw@.subrange(0, n as int) =~= raw@);
    }
    let mut lo: usize = 0;
    while lo < n && is_whitespace_byte(raw[lo])
        invariant
            n == raw@.len(),
            lo <= n,
            trim_start(raw@) == trim_start(raw@.subrange(lo as int, n as int)),
        decreases n - lo,
    {
        proof {
            let t = raw@.subrange(lo as int, n as int);
            assert(t[0] == raw@[lo as int]);
            assert(t.drop_first() =~= raw@.subrange(lo as int + 1, n as int));
        }
        lo = lo + 1;
    }
    proof {
        if lo < n {
            assert(!is_ascii_whitespace(raw@.subrange(lo as int, n as int)[0]));
        }
        assert(trim_start(raw@) =~= raw@.subrange(lo as int, n as int));
    }

    let mut hi: usize = n;
    while hi > lo && is_whitespace_byte(raw[hi - 1])
        invariant
            n == raw@.len(),
            lo <= hi <= n,
            trim_start(raw@) == raw@.subrange(lo as int, n as int),
            trimmed(raw@) == trim_end(raw@.subrange(lo as int, hi as int)),
        decreases hi,
    {
        proof {
            let t = raw@.subrange(lo as int, hi as int);
            assert(t.last() == raw@[hi - 1]);
            assert(t.drop_last() =~= raw@.subrange(lo as int, hi as int - 1));
        }
        hi = hi - 1;
    }
    proof {
        if hi > lo {
            assert(!is_ascii_whitespace(raw@.subrange(lo as int, hi as int).last()));
        }
        assert(trimmed(raw@) =~= raw@.subrange(lo as int, hi as int));
    }

    if lo == hi {
        return Err(SensorError::Malformed);
    }

    let ghost t = trimmed(raw@);
    let mut acc: u32 = 0;
    let mut i: usize = lo;
    while i < hi
        invariant
            n == raw@.len(),
            lo <= i <= hi <= n,
            lo < hi,
            t == trimmed(raw@),
            t =~= raw@.subrange(lo as int, hi as int),
            forall|j: int| 0 <= j < i - lo ==> is_ascii_digit(t[j]),
            acc as int == digits_value(t.take(i - lo)),
        decreases hi - i,
    {
        let b = raw[i];
        proof {
            assert(t[i - lo] == raw@[i as int]);
        }
        if !is_digit_byte(b) {
            proof {
                assert(!is_ascii_digit(t[i - lo]));
                assert(!all_digits(t));
            }
            return Err(SensorError::Malformed);
        }
        let d: u32 = (b - 48) as u32;
        proof {
            assert(t.take(i - lo + 1).drop_last() =~= t.take(i - lo));
            assert(t.take(i - lo + 1).last() == t[i - lo]);
            assert(digits_value(t.take(i - lo + 1)) == acc as int * 10 + d);
        }
        if acc > 429496729 || (acc == 429496729 && d > 5) {
            proof {
                assert(digits_value(t.take(i - lo + 1)) > u32::MAX);
                if all_digits(t) {
                    lemma_digits_value_prefix_le(t, i - lo + 1);
                    assert(digits_value(t) > u32::MAX);
                }
            }
            return Err(SensorError::Malformed);
        }
        acc = acc * 10 + d;
        i = i + 1;
    }
    proof {
        assert(t.take(hi - lo) =~= t);
        assert(all_digits(t));
    }
    Ok(acc)
}

} // verus!
