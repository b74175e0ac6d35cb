//! The activation protocol reader's decision core. A supervisor announces
//! inherited descriptors through two environment signals: a descriptor
//! count, and an optional target process identifier. This module decides,
//! from the two signal values and the process's own identifier, whether the
//! handoff is addressed to this process and which descriptor numbers it
//! announces. Reading and erasing the process environment itself is the
//! caller's part; the erasure is unconditional, so a second acquisition in
//! the same process observes no signal and can never claim the same
//! descriptors twice.
//!
//! A malformed or missing signal is never an error: it degrades to "no
//! activation occurred", the normal mode of a process started without a
//! supervisor.

use crate::numeral::lemma_dec_value_prefix;
use crate::numeral::spec_dec_value;
use crate::numeral::spec_digit_seq;
use crate::numeral::spec_is_digit;
use vstd::prelude::*;

verus! {

/// The largest announced descriptor count the reader claims: descriptors
/// are numbered upward from [`FIRST_FD`], and the last one must still fit
/// the OS descriptor type.
pub const COUNT_LIMIT: i32 = 2147483645;

/// The first inherited descriptor's number: 0 through 2 are the standard
/// streams, inherited descriptors begin immediately after.
pub const FIRST_FD: i32 = 3;

/// The digits of a count signal: an optional leading `+` is accepted, as a
/// non-negative decimal integer is ordinarily written.
pub open spec fn spec_count_digits(s: Seq<char>) -> Seq<char> {
    if s.len() > 0 && s[0] == '+' {
        s.subrange(1, s.len() as int)
    } else {
        s
    }
}

/// What a count signal parses to: the value of its digits, provided it is
/// made of decimal digits alone and no larger than [`COUNT_LIMIT`].
pub open spec fn spec_parse_count(s: Seq<char>) -> Option<int> {
    let digits = spec_count_digits(s);
    if spec_digit_seq(digits) && spec_dec_value(digits) <= COUNT_LIMIT {
        Some(spec_dec_value(digits))
    } else {
        None
    }
}

/// Parses a count signal: `Some` exactly where [`spec_parse_count`] is.
pub fn parse_count(s: &str) -> (r: Option<i32>)
    ensures
        r matches Some(n) ==> spec_parse_count(s@) == Some(n as int) && 0 <= n <= COUNT_LIMIT,
        r is None ==> spec_parse_count(s@) is None,
{
    let len = s.unicode_len();
    let start: usize = if len > 0 && s.get_char(0) == '+' {
        1
    } else {
        0
    };
    let ghost digits = spec_count_digits(s@);
    proof {
        assert(digits =~= s@.subrange(start as int, len as int));
    }
    if start >= len {
        return None;
    }
    let mut i: usize = start;
    let mut acc: u64 = 0;
    while i < len
        invariant
            start <= i <= len,
            len == s@.len(),
            digits == s@.subrange(start as int, len as int),
            digits == spec_count_digits(s@),
            forall|j: int| 0 <= j < i - start ==> spec_is_digit(digits[j]),
            acc == spec_dec_value(digits.subrange(0, i - start)),
            acc <= COUNT_LIMIT,
        decreases len - i,
    {
        let c = s.get_char(i);
        let code = c as u32;
        if code < 48 || code > 57 {
            proof {
                assert(digits[i - start] == s@[i as int]);
                assert(!spec_is_digit(digits[i - start]));
                assert(!spec_digit_seq(digits));
            }
            return None;
        }
        acc = acc * 10 + ((code - 48) as u64);
        proof {
            let k = i - start;
            assert(digits.subrange(0, k + 1).drop_last() =~= digits.subrange(0, k));
            assert(digits.subrange(0, k + 1).last() == digits[k]);
            assert(digits[k] == s@[i as int]);
            assert(acc == spec_dec_value(digits.subrange(0, k + 1)));
        }
        if acc > (COUNT_LIMIT as u64) {
            proof {
                if spec_digit_seq(digits) {
                    lemma_dec_value_prefix(digits, i - start + 1);
                    assert(spec_dec_value(digits) >= acc > COUNT_LIMIT);
                }
            }
            return None;
        }
        i = i + 1;
    }
    proof {
        assert(digits.subrange(0, i - start) =~= digits);
    }
    Some(acc as i32)
}

/// Whether a target-process signal is negative.
pub open spec fn spec_pid_negative(s: Seq<char>) -> bool {
    s.len() > 0 && s[0] == '-'
}

/// The digits of a target-process signal: one optional leading sign.
pub open spec fn spec_pid_digits(s: Seq<char>) -> Seq<char> {
    if s.len() > 0 && (s[0] == '-' || s[0] == '+') {
        s.subrange(1, s.len() as int)
    } else {
        s
    }
}

/// What a target-process signal parses to: a signed decimal integer of the
/// OS process-identifier type, excluding zero, which names no process.
pub open spec fn spec_parse_pid(s: Seq<char>) -> Option<int> {
    let digits = spec_pid_digits(s);
    let value = if spec_pid_negative(s) {
        -spec_dec_value(digits)
    } else {
        spec_dec_value(digits)
    };
    if spec_digit_seq(digits) && value != 0 && -2147483648 <= value <= 2147483647 {
        Some(value)
    } else {
        None
    }
}

/// Parses a target-process signal: `Some` exactly where
/// [`spec_parse_pid`] is.
pub fn parse_pid(s: &str) -> (r: Option<i32>)
    ensures
        r matches Some(n) ==> spec_parse_pid(s@) == Some(n as int),
        r is None ==> spec_parse_pid(s@) is None,
{
    let len = s.unicode_len();
    let mut neg = false;
    let mut start: usize = 0;
    if len > 0 {
        let c0 = s.get_char(0);
        if c0 == '-' {
            neg = true;
            start = 1;
        } else if c0 == '+' {
            start = 1;
        }
    }
    let ghost digits = spec_pid_digits(s@);
    proof {
        assert(digits =~= s@.subrange(start as int, len as int));
        assert(neg == spec_pid_negative(s@));
    }
    if start >= len {
        return None;
    }
    let bound: u64 = if neg {
        2147483648
    } else {
        2147483647
    };
    let mut i: usize = start;
    let mut acc: u64 = 0;
    while i < len
        invariant
            start <= i <= len,
            len == s@.len(),
            digits == s@.subrange(start as int, len as int),
            digits == spec_pid_digits(s@),
            neg == spec_pid_negative(s@),
            bound == if neg { 2147483648u64 } else { 2147483647u64 },
            forall|j: int| 0 <= j < i - start ==> spec_is_digit(digits[j]),
            acc == spec_dec_value(digits.subrange(0, i - start)),
            acc <= bound,
        decreases len - i,
    {
        let c = s.get_char(i);
        let code = c as u32;
        if code < 48 || code > 57 {
            proof {
                assert(digits[i - start] == s@[i as int]);
                assert(!spec_is_digit(digits[i - start]));
                assert(!spec_digit_seq(digits));
            }
            return None;
        }
        acc = acc * 10 + ((code - 48) as u64);
        proof {
            let k = i - start;
            assert(digits.subrange(0, k + 1).drop_last() =~= digits.subrange(0, k));
            assert(digits.subrange(0, k + 1).last() == digits[k]);
            assert(digits[k] == s@[i as int]);
            assert(acc == spec_dec_value(digits.subrange(0, k + 1)));
        }
        if acc > bound {
            proof {
                if spec_digit_seq(digits) {
                    lemma_dec_value_prefix(digits, i - start + 1);
                    assert(spec_dec_value(digits) >= acc > bound);
                }
            }
            return None;
        }
        i = i + 1;
    }
    proof {
        assert(digits.subrange(0, i - start) =~= digits);
    }
    if acc == 0 {
        return None;
    }
    if neg {
        if acc == 2147483648 {
            Some(i32::MIN)
        } else {
            Some(-(acc as i32))
        }
    } else {
        Some(acc as i32)
    }
}

/// The deep view of an optional environment value.
pub open spec fn env_view(v: Option<String>) -> Option<Seq<char>> {
    match v {
        Some(s) => Some(s@),
        None => None,
    }
}

/// Whether a handoff with this target-process signal is addressed to the
/// process with identifier `my_pid`: the signal is absent, or present but
/// empty, or parses to exactly `my_pid`. Anything else — another process's
/// identifier, or an unparsable value — means the handoff is someone
/// else's, and the reader must not claim the descriptors.
pub open spec fn spec_authorized(pid_var: Option<Seq<char>>, my_pid: int) -> bool {
    match pid_var {
        None => true,
        Some(s) => s.len() == 0 || spec_parse_pid(s) == Some(my_pid),
    }
}

/// Executable counterpart of [`spec_authorized`].
pub fn authorized(pid_var: &Option<String>, my_pid: i32) -> (r: bool)
    ensures
        r == spec_authorized(env_view(*pid_var), my_pid as int),
{
    match pid_var {
        None => true,
        Some(s) => {
            if s.unicode_len() == 0 {
                true
            } else {
                match parse_pid(s.as_str()) {
                    Some(p) => p == my_pid,
                    None => false,
                }
            }
        },
    }
}

/// How many descriptors an acquisition with these signal values claims:
/// the parsed count where the count signal parses and the handoff is
/// addressed to `my_pid`; no claim otherwise.
pub open spec fn spec_claimed_count(
    fds_var: Option<Seq<char>>,
    pid_var: Option<Seq<char>>,
    my_pid: int,
) -> Option<int> {
    match fds_var {
        None => None,
        Some(s) => match spec_parse_count(s) {
            None => None,
            Some(count) => if spec_authorized(pid_var, my_pid) {
                Some(count)
            } else {
                None
            },
        },
    }
}

/// The numbers of the announced descriptors: `count` of them, contiguous
/// from [`FIRST_FD`].
pub fn activation_fd_numbers(count: i32) -> (r: Vec<i32>)
    requires
        0 <= count <= COUNT_LIMIT,
    ensures
        r@.len() == count,
        forall|k: int| 0 <= k < count ==> r@[k] == FIRST_FD + k,
{
    let mut v: Vec<i32> = Vec::new();
    let mut offset: i32 = 0;
    while offset < count
        invariant
            0 <= offset <= count,
            count <= COUNT_LIMIT,
            v@.len() == offset,
            forall|k: int| 0 <= k < offset ==> v@[k] == FIRST_FD + k,
        decreases count - offset,
    {
        v.push(FIRST_FD + offset);
        offset = offset + 1;
    }
    v
}

/// The acquisition decision on the two signal values: the announced
/// descriptor numbers, contiguous from [`FIRST_FD`], where the count signal
/// parses and the handoff is addressed to this process; `None` otherwise.
///
/// The descriptor numbers are claimed by convention of the calling
/// protocol: the reader asserts nothing of their state here, and each one
/// is inspected only when it is later converted.
pub fn acquire_activation(
    fds_var: &Option<String>,
    pid_var: &Option<String>,
    my_pid: i32,
) -> (r: Option<Vec<i32>>)
    ensures
        r matches Some(v) ==> spec_claimed_count(
            env_view(*fds_var),
            env_view(*pid_var),
            my_pid as int,
        ) == Some(v@.len() as int) && (forall|k: int|
            0 <= k < v@.len() ==> v@[k] == FIRST_FD + k),
        r is None ==> spec_claimed_count(
            env_view(*fds_var),
            env_view(*pid_var),
            my_pid as int,
        ) is None,
{
    match fds_var {
        None => None,
        Some(s) => match parse_count(s.as_str()) {
            None => None,
            Some(count) => if authorized(pid_var, my_pid) {
                Some(activation_fd_numbers(count))
            } else {
                None
            },
        },
    }
}

/// With the count signal absent, acquisition claims nothing, whatever the
/// target-process signal holds.
pub proof fn lemma_no_count_no_claim(pid_var: Option<Seq<char>>, my_pid: int)
    ensures
        spec_claimed_count(None, pid_var, my_pid) is None,
{
}

/// With a count signal that does not parse as a non-negative decimal
/// integer within [`COUNT_LIMIT`], acquisition claims nothing.
pub proof fn lemma_unparsable_count_no_claim(
    fds: Seq<char>,
    pid_var: Option<Seq<char>>,
    my_pid: int,
)
    requires
        spec_parse_count(fds) is None,
    ensures
        spec_claimed_count(Some(fds), pid_var, my_pid) is None,
{
}

/// A handoff addressed to a different process is refused, however many
/// descriptors it announces.
pub proof fn lemma_foreign_target_refused(fds: Seq<char>, pid: Seq<char>, my_pid: int)
    requires
        pid.len() > 0,
        spec_parse_pid(pid) != Some(my_pid),
    ensures
        spec_claimed_count(Some(fds), Some(pid), my_pid) is None,
{
}

/// A handoff addressed to this process is claimed in full: the claim is
/// exactly the announced count.
pub proof fn lemma_own_target_claimed(fds: Seq<char>, pid_var: Option<Seq<char>>, my_pid: int)
    requires
        spec_authorized(pid_var, my_pid),
    ensures
        spec_claimed_count(Some(fds), pid_var, my_pid) == spec_parse_count(fds),
{
}

} // verus!
