//! Daemon bookkeeping: the daemon's configuration, where its PID file
//! lives, and how the PID file's contents are read.
//!
//! The surrounding program does the file and process work (reading and
//! writing the file, probing and signalling processes); what a PID file's
//! bytes mean is decided here.

use vstd::prelude::*;
use vstd::string::StringExecFns;

verus! {

/// Daemon configuration.
pub struct DaemonConfig {
    /// Jamming mode the daemon runs in.
    pub mode: String,
    /// Overall gain in thousandths of full scale.
    pub amplitude_thousandths: u32,
    /// Base frequency in millihertz.
    pub frequency_millihertz: u64,
    /// Whether the daemon is registered to start on boot.
    pub auto_start: bool,
}

impl Default for DaemonConfig {
    /// Default daemon tuning: speaker mode at quarter amplitude around
    /// 23 kHz, auto-started.
    fn default() -> (c: DaemonConfig)
        ensures
            c.mode@ == "speaker"@,
            c.amplitude_thousandths == 250,
            c.frequency_millihertz == 23_000_000,
            c.auto_start,
    {
        DaemonConfig {
            mode: "speaker".to_owned(),
            amplitude_thousandths: 250,
            frequency_millihertz: 23_000_000,
            auto_start: true,
        }
    }
}

/// The PID file path inside the given configuration directory.
pub fn get_pid_file(config_dir: &str) -> (r: String)
    ensures
        r@ == config_dir@ + "/camouflage.pid"@,
{
    let mut path = config_dir.to_owned();
    path.append("/camouflage.pid");
    path
}

/// ASCII whitespace, as it appears around the digits in a PID file.
pub open spec fn is_ascii_whitespace(b: u8) -> bool {
    b == 32 || b == 9 || b == 10 || b == 13 || b == 11 || b == 12
}

/// ASCII decimal digit.
pub open spec fn is_ascii_digit(b: u8) -> bool {
    48 <= b <= 57
}

/// Every byte is a decimal digit.
pub open spec fn all_digits(s: Seq<u8>) -> bool {
    forall|i: int| 0 <= i < s.len() ==> is_ascii_digit(#[trigger] s[i])
}

/// The number the decimal digits spell, most significant first.
pub open spec fn digits_value(s: Seq<u8>) -> int
    decreases s.len(),
{
    if s.len() == 0 {
        0
    } else {
        digits_value(s.drop_last()) * 10 + (s.last() - 48)
    }
}

/// The sequence with leading ASCII whitespace removed.
pub open spec fn trim_start_spec(s: Seq<u8>) -> Seq<u8>
    decreases s.len(),
{
    if s.len() > 0 && is_ascii_whitespace(s[0]) {
        trim_start_spec(s.subrange(1, s.len() as int))
    } else {
        s
    }
}

/// The sequence with trailing ASCII whitespace removed.
pub open spec fn trim_end_spec(s: Seq<u8>) -> Seq<u8>
    decreases s.len(),
{
    if s.len() > 0 && is_ascii_whitespace(s.last()) {
        trim_end_spec(s.drop_last())
    } else {
        s
    }
}

/// The sequence with ASCII whitespace removed from both ends.
pub open spec fn trim_spec(s: Seq<u8>) -> Seq<u8> {
    trim_end_spec(trim_start_spec(s))
}

/// Removes ASCII whitespace from both ends of a byte slice.
pub fn trim_ascii_whitespace(s: &[u8]) -> (r: &[u8])
    ensures
        r@ == trim_spec(s@),
{
    let len = s.len();
    proof {
        assert(s@.subrange(0, len as int) =~= s@);
    }
    let mut start: usize = 0;
    while start < len && (s[start] == 32 || s[start] == 9 || s[start] == 10 || s[start] == 13
        || s[start] == 11 || s[start] == 12)
        invariant
            len == s@.len(),
            start <= len,
            trim_start_spec(s@) == trim_start_spec(s@.subrange(start as int, len as int)),
        decreases len - start,
    {
        proof {
            assert(s@.subrange(start as int, len as int).subrange(
                1,
                s@.subrange(start as int, len as int).len() as int,
            ) =~= s@.subrange(start + 1, len as int));
        }
        start = start + 1;
    }
    let ghost mid = s@.subrange(start as int, len as int);
    proof {
        assert(trim_start_spec(s@) == mid);
    }
    let mut end: usize = len;
    while end > start && (s[end - 1] == 32 || s[end - 1] == 9 || s[end - 1] == 10 || s[end - 1]
        == 13 || s[end - 1] == 11 || s[end - 1] == 12)
        invariant
            len == s@.len(),
            start <= end <= len,
            mid == s@.subrange(start as int, len as int),
            trim_end_spec(mid) == trim_end_spec(s@.subrange(start as int, end as int)),
        decreases end,
    {
        proof {
            assert(s@.subrange(start as int, end as int).drop_last() =~= s@.subrange(
                start as int,
                end - 1,
            ));
        }
        end = end - 1;
    }
    proof {
        assert(trim_spec(s@) == s@.subrange(start as int, end as int));
    }
    &s[start..end]
}

/// Value of a digit prefix never shrinks as digits are appended.
proof fn lemma_digits_value_monotone(s: Seq<u8>, i: int, j: int)
    requires
        all_digits(s),
        0 <= i <= j <= s.len(),
    ensures
        0 <= digits_value(s.subrange(0, i)) <= digits_value(s.subrange(0, j)),
    decreases j - i,
{
    lemma_digits_value_nonneg(s.subrange(0, i));
    if i < j {
        lemma_digits_value_monotone(s, i, j - 1);
        let p = s.subrange(0, j - 1);
        let q = s.subrange(0, j);
        assert(q.drop_last() =~= p);
        lemma_digits_value_nonneg(p);
        assert(digits_value(p) * 10 >= digits_value(p)) by (nonlinear_arith)
            requires digits_value(p) >= 0;
    }
}

/// A digit string's value is nonnegative.
proof fn lemma_digits_value_nonneg(s: Seq<u8>)
    requires
        all_digits(s),
    ensures
        digits_value(s) >= 0,
    decreases s.len(),
{
    if s.len() > 0 {
        assert(all_digits(s.drop_last()));
        lemma_digits_value_nonneg(s.drop_last());
        assert(digits_value(s.drop_last()) * 10 >= 0) by (nonlinear_arith)
            requires digits_value(s.drop_last()) >= 0;
    }
}

/// Parses an unsigned decimal number that fits a process id: `Some`
/// exactly when the slice is nonempty, all digits, and the value is at
/// most `i32::MAX`.
pub fn parse_decimal(s: &[u8]) -> (r: Option<i32>)
    ensures
        r matches Some(v) ==> s@.len() > 0 && all_digits(s@) && v == digits_value(s@),
        r is None ==> s@.len() == 0 || !all_digits(s@) || digits_value(s@) > i32::MAX,
{
    let len = s.len();
    if len == 0 {
        return None;
    }
    let mut acc: u64 = 0;
    let mut i: usize = 0;
    while i < len
        invariant
            len == s@.len(),
            i <= len,
            all_digits(s@.subrange(0, i as int)),
            acc == digits_value(s@.subrange(0, i as int)),
            acc <= i32::MAX,
        decreases len - i,
    {
        let b = s[i];
        if b < 48 || b > 57 {
            proof {
                assert(!is_ascii_digit(s@[i as int]));
            }
            return None;
        }
        proof {
            assert(s@.subrange(0, i + 1).drop_last() =~= s@.subrange(0, i as int));
            assert(all_digits(s@.subrange(0, i + 1)));
        }
        acc = acc * 10 + ((b - 48) as u64);
        i = i + 1;
        if acc > i32::MAX as u64 {
            proof {
                if all_digits(s@) {
                    lemma_digits_value_monotone(s@, i as int, len as int);
                    assert(s@.subrange(0, len as int) =~= s@);
                }
            }
            return None;
        }
    }
    proof {
        assert(s@.subrange(0, len as int) =~= s@);
    }
    Some(acc as i32)
}

/// Reads a process id from PID file contents: the digits between
/// optional ASCII whitespace. `Some` exactly when the trimmed contents
/// are a nonempty digit string whose value fits a process id.
pub fn parse_pid(contents: &[u8]) -> (r: Option<i32>)
    ensures
        r matches Some(v) ==> trim_spec(contents@).len() > 0 && all_digits(trim_spec(contents@))
            && v == digits_value(trim_spec(contents@)),
        r is None ==> trim_spec(contents@).len() == 0 || !all_digits(trim_spec(contents@))
            || digits_value(trim_spec(contents@)) > i32::MAX,
{
    let trimmed = trim_ascii_whitespace(contents);
    parse_decimal(trimmed)
}

} // verus!
