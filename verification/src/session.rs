//! Session discovery: deciding, from the two descriptor markers a parent
//! process may have exported, whether an inherited session is available.
//!
//! Each marker is read as a decimal integer; an absent or malformed value
//! counts as -1, and a session exists only when both values are
//! non-negative.

use vstd::prelude::*;
use vstd::string::StrSliceExecFns;
use vstd::string::StringExecFns;

verus! {

/// An ASCII decimal digit.
pub open spec fn is_digit_char(c: char) -> bool {
    48 <= c as u32 <= 57
}

/// The numeric value of one ASCII decimal digit.
pub open spec fn digit_val(c: char) -> int {
    c as u32 - 48
}

/// Every character of the sequence is an ASCII decimal digit.
pub open spec fn all_digits(s: Seq<char>) -> bool {
    forall|i: int| 0 <= i < s.len() ==> is_digit_char(#[trigger] s[i])
}

/// The value of a digit sequence read as a base-10 numeral.
pub open spec fn digits_val(s: Seq<char>) -> int
    decreases s.len(),
{
    if s.len() == 0 {
        0
    } else {
        digits_val(s.drop_last()) * 10 + digit_val(s.last())
    }
}

/// How `str::parse::<i32>` reads a string: an optional single sign, then at
/// least one decimal digit and nothing else, with the signed value inside
/// the 32-bit range. Anything else does not parse.
pub open spec fn parse_i32_spec(s: Seq<char>) -> Option<int> {
    let signed = s.len() > 0 && (s[0] == '+' || s[0] == '-');
    let digits = if signed {
        s.subrange(1, s.len() as int)
    } else {
        s
    };
    if digits.len() > 0 && all_digits(digits) {
        let magnitude = digits_val(digits);
        let value = if signed && s[0] == '-' {
            -magnitude
        } else {
            magnitude
        };
        if -0x8000_0000 <= value <= 0x7FFF_FFFF {
            Some(value)
        } else {
            None
        }
    } else {
        None
    }
}

/// The integer a marker string stands for: its parsed value, or -1 when it
/// does not parse as an `i32`.
pub open spec fn atoi_spec(s: Seq<char>) -> int {
    match parse_i32_spec(s) {
        Some(v) => v,
        None => -1,
    }
}

/// A base-10 numeral made of digits never has a negative value.
proof fn lemma_digits_val_nonneg(s: Seq<char>)
    requires
        all_digits(s),
    ensures
        digits_val(s) >= 0,
    decreases s.len(),
{
    if s.len() > 0 {
        assert(all_digits(s.drop_last())) by {
            assert(forall|i: int|
                0 <= i < s.drop_last().len() ==> #[trigger] s.drop_last()[i] == s[i]);
        }
        lemma_digits_val_nonneg(s.drop_last());
        assert(is_digit_char(s.last()));
    }
}

/// Reads a string as a decimal `i32`, yielding -1 for anything that does
/// not parse (no digits, stray characters, or a value out of range).
pub fn atoi(k: &str) -> (r: i32)
    ensures
        r as int == atoi_spec(k@),
{
    let n = k.unicode_len();
    if n == 0 {
        return -1;
    }
    let first = k.get_char(0);
    let signed = first == '+' || first == '-';
    let start: usize = if signed {
        1
    } else {
        0
    };
    if start >= n {
        // a sign with no digits after it
        return -1;
    }
    let ghost digits: Seq<char> = k@.subrange(start as int, n as int);
    let mut i = start;
    let mut mag: u64 = 0;
    while i < n
        invariant
            start <= i <= n,
            n == k@.len(),
            signed == (k@.len() > 0 && (k@[0] == '+' || k@[0] == '-')),
            start == if signed { 1int } else { 0int },
            digits =~= k@.subrange(start as int, n as int),
            all_digits(k@.subrange(start as int, i as int)),
            mag <= 0x8000_0001,
            digits_val(k@.subrange(start as int, i as int)) <= 0x8000_0000 ==> mag as int
                == digits_val(k@.subrange(start as int, i as int)),
            digits_val(k@.subrange(start as int, i as int)) > 0x8000_0000 ==> mag == 0x8000_0001,
        decreases n - i,
    {
        let ghost prefix = k@.subrange(start as int, i as int);
        let c = k.get_char(i);
        let u = c as u32;
        if u < 48 || u > 57 {
            proof {
                let sdigits = if signed {
                    k@.subrange(1, n as int)
                } else {
                    k@
                };
                assert(digits =~= sdigits);
                assert(!all_digits(sdigits)) by {
                    assert(sdigits[i - start] == c);
                    assert(!is_digit_char(c));
                }
            }
            return -1;
        }
        let d: u64 = (u - 48) as u64;
        mag = mag * 10 + d;
        if mag > 0x8000_0000 {
            mag = 0x8000_0001;
        }
        i = i + 1;
        proof {
            let extended = k@.subrange(start as int, i as int);
            assert(extended =~= prefix.push(c));
            assert(extended.drop_last() =~= prefix);
            assert(digits_val(extended) == digits_val(prefix) * 10 + digit_val(c));
        }
    }
    proof {
        let sdigits = if signed {
            k@.subrange(1, n as int)
        } else {
            k@
        };
        assert(k@.subrange(start as int, i as int) =~= digits);
        assert(digits =~= sdigits);
        assert(sdigits.len() > 0);
        assert(all_digits(sdigits));
        lemma_digits_val_nonneg(sdigits);
    }
    if signed && first == '-' {
        if mag > 0x8000_0000 {
            -1
        } else if mag == 0x8000_0000 {
            i32::MIN
        } else {
            -(mag as i32)
        }
    } else {
        if mag > 0x7FFF_FFFF {
            -1
        } else {
            mag as i32
        }
    }
}

/// The integer a marker resolves to: the parsed value of a present marker,
/// -1 when the marker is absent or malformed.
pub open spec fn env_fd_spec(v: Option<String>) -> int {
    match v {
        Some(s) => atoi_spec(s@),
        None => -1,
    }
}

/// Resolves one descriptor marker, as read from process-wide state, to an
/// integer; absent or malformed values resolve to -1.
pub fn env_fd(val: &Option<String>) -> (r: i32)
    ensures
        r as int == env_fd_spec(*val),
{
    match val {
        Some(s) => atoi(s.as_str()),
        None => -1,
    }
}

/// Decides whether an inherited session is available from the two
/// descriptor markers: both must resolve to non-negative integers, and the
/// resulting pair carries exactly those two descriptors. Either marker
/// absent or non-numeric means no session.
pub fn in_session_from(fin: &Option<String>, fout: &Option<String>) -> (r: Option<(i32, i32)>)
    ensures
        r is Some <==> (env_fd_spec(*fin) >= 0 && env_fd_spec(*fout) >= 0),
        r matches Some(p) ==> p.0 as int == env_fd_spec(*fin) && p.1 as int == env_fd_spec(
            *fout,
        ),
{
    let f_in = env_fd(fin);
    let f_out = env_fd(fout);
    if f_in < 0 || f_out < 0 {
        None
    } else {
        Some((f_in, f_out))
    }
}

/// The full named-pipe path a pipe-path marker stands for, on the platform
/// where sessions are inherited through a named pipe rather than raw
/// descriptors: the marker appended to the named-pipe root.
pub fn windows_pipe_path(name: &str) -> (r: String)
    ensures
        r@ == "\\\\.\\pipe\\"@ + name@,
{
    let mut path: String = "\\\\.\\pipe\\".to_owned();
    path.append(name);
    path
}

/// The delegation rule of spawning: an empty target name while a session is
/// already available means the caller is embedded, and the spawn call must
/// fall back to opening the inherited session instead of launching a
/// process.
pub fn spawn_should_open(name: &str, have_session: bool) -> (r: bool)
    ensures
        r == (name@.len() == 0 && have_session),
{
    name.is_empty() && have_session
}

} // verus!
