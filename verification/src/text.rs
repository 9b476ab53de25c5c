//! Text helpers of the pipeline: decimal rendering for sizes and wire
//! values, and interpretation of the user's typed answers (a 1-based index,
//! a yes/no confirmation).
//!
//! Everything here works on `&str` and `String` with contracts over their
//! `Seq<char>` views.

use crate::error::Error;
use vstd::prelude::*;
use vstd::string::StrSliceExecFns;
use vstd::string::StringExecFns;

verus! {

/// The character for one decimal digit value.
pub open spec fn digit_char(d: int) -> char
    recommends
        0 <= d < 10,
{
    if d == 0 {
        '0'
    } else if d == 1 {
        '1'
    } else if d == 2 {
        '2'
    } else if d == 3 {
        '3'
    } else if d == 4 {
        '4'
    } else if d == 5 {
        '5'
    } else if d == 6 {
        '6'
    } else if d == 7 {
        '7'
    } else if d == 8 {
        '8'
    } else {
        '9'
    }
}

/// The decimal rendering of a number, without sign or leading zeros
/// (`0` renders as `"0"`).
pub open spec fn decimal_digits(n: nat) -> Seq<char>
    decreases n,
{
    if n < 10 {
        seq![digit_char(n as int)]
    } else {
        decimal_digits(n / 10) + seq![digit_char((n % 10) as int)]
    }
}

/// The one-character string for one decimal digit value.
fn digit_str(d: u64) -> (s: &'static str)
    requires
        d < 10,
    ensures
        s@ == seq![digit_char(d as int)],
{
    proof {
        reveal_strlit("0");
        reveal_strlit("1");
        reveal_strlit("2");
        reveal_strlit("3");
        reveal_strlit("4");
        reveal_strlit("5");
        reveal_strlit("6");
        reveal_strlit("7");
        reveal_strlit("8");
        reveal_strlit("9");
    }
    let s: &'static str = if d == 0 {
        "0"
    } else if d == 1 {
        "1"
    } else if d == 2 {
        "2"
    } else if d == 3 {
        "3"
    } else if d == 4 {
        "4"
    } else if d == 5 {
        "5"
    } else if d == 6 {
        "6"
    } else if d == 7 {
        "7"
    } else if d == 8 {
        "8"
    } else {
        "9"
    };
    proof {
        assert(s@ =~= seq![digit_char(d as int)]);
    }
    s
}

/// Renders a number in decimal.
pub fn decimal_string(n: u64) -> (s: String)
    ensures
        s@ == decimal_digits(n as nat),
    decreases n,
{
    if n < 10 {
        digit_str(n).to_owned()
    } else {
        let rest = decimal_string(n / 10);
        let s = rest.concat(digit_str(n % 10));
        proof {
            assert(s@ =~= decimal_digits(n as nat));
        }
        s
    }
}

/// The human-readable size label: megabytes when at least one whole
/// megabyte, else kilobytes when at least one whole kilobyte, else bytes.
/// Units are decimal (1 kb = 1000 b) and quotients round down.
pub open spec fn spec_format_size(size: nat) -> Seq<char> {
    if size / 1000 / 1000 > 0 {
        decimal_digits(size / 1000 / 1000) + seq![' ', 'm', 'b']
    } else if size / 1000 > 0 {
        decimal_digits(size / 1000) + seq![' ', 'k', 'b']
    } else {
        decimal_digits(size) + seq![' ', 'b']
    }
}

/// Renders a byte count for display: `"5 mb"`, `"12 kb"`, `"999 b"`.
pub fn format_size(size: usize) -> (s: String)
    ensures
        s@ == spec_format_size(size as nat),
{
    let mb: usize = size / 1000 / 1000;
    let kb: usize = size / 1000;
    if mb > 0 {
        let mut s = decimal_string(mb as u64);
        proof {
            reveal_strlit(" mb");
            assert(" mb"@ =~= seq![' ', 'm', 'b']);
        }
        s.append(" mb");
        proof {
            assert(s@ =~= spec_format_size(size as nat));
        }
        s
    } else if kb > 0 {
        let mut s = decimal_string(kb as u64);
        proof {
            reveal_strlit(" kb");
            assert(" kb"@ =~= seq![' ', 'k', 'b']);
        }
        s.append(" kb");
        proof {
            assert(s@ =~= spec_format_size(size as nat));
        }
        s
    } else {
        let mut s = decimal_string(size as u64);
        proof {
            reveal_strlit(" b");
            assert(" b"@ =~= seq![' ', 'b']);
        }
        s.append(" b");
        proof {
            assert(s@ =~= spec_format_size(size as nat));
        }
        s
    }
}

/// ASCII whitespace, as typed at a terminal prompt.
pub open spec fn is_space(c: char) -> bool {
    c == ' ' || c == '\t' || c == '\n' || c == '\r'
}

/// The sequence with its leading whitespace dropped.
pub open spec fn trim_start(s: Seq<char>) -> Seq<char>
    decreases s.len(),
{
    if s.len() > 0 && is_space(s[0]) {
        trim_start(s.drop_first())
    } else {
        s
    }
}

/// The sequence with its trailing whitespace dropped.
pub open spec fn trim_end(s: Seq<char>) -> Seq<char>
    decreases s.len(),
{
    if s.len() > 0 && is_space(s.last()) {
        trim_end(s.drop_last())
    } else {
        s
    }
}

/// The sequence with whitespace dropped from both ends.
pub open spec fn spec_trim(s: Seq<char>) -> Seq<char> {
    trim_end(trim_start(s))
}

/// Finds the bounds of the trimmed region of `s`: the trimmed view is
/// `s@.subrange(r.0, r.1)`.
fn trim_bounds(s: &str) -> (r: (usize, usize))
    ensures
        r.0 <= r.1 <= s@.len(),
        spec_trim(s@) == s@.subrange(r.0 as int, r.1 as int),
{
    let len: usize = s.unicode_len();
    proof {
        assert(s@.subrange(0, len as int) =~= s@);
    }
    let mut start: usize = 0;
    loop
        invariant_except_break
            start <= len,
            len == s@.len(),
            trim_start(s@) == trim_start(s@.subrange(start as int, len as int)),
        ensures
            start <= len,
            len == s@.len(),
            trim_start(s@) == s@.subrange(start as int, len as int),
        decreases len - start,
    {
        let ghost tail = s@.subrange(start as int, len as int);
        if start == len {
            proof {
                assert(trim_start(tail) == tail);
            }
            break;
        }
        let c = s.get_char(start);
        if !(c == ' ' || c == '\t' || c == '\n' || c == '\r') {
            proof {
                assert(tail[0] == c);
                assert(trim_start(tail) == tail);
            }
            break;
        }
        proof {
            assert(tail.drop_first() =~= s@.subrange(start as int + 1, len as int));
        }
        start = start + 1;
    }
    let mut end: usize = len;
    loop
        invariant_except_break
            start <= end <= len,
            len == s@.len(),
            trim_start(s@) == s@.subrange(start as int, len as int),
            trim_end(s@.subrange(start as int, len as int)) == trim_end(
                s@.subrange(start as int, end as int),
            ),
        ensures
            start <= end <= len,
            len == s@.len(),
            trim_start(s@) == s@.subrange(start as int, len as int),
            spec_trim(s@) == s@.subrange(start as int, end as int),
        decreases end,
    {
        let ghost mid = s@.subrange(start as int, end as int);
        if end == start {
            proof {
                assert(trim_end(mid) == mid);
            }
            break;
        }
        let c = s.get_char(end - 1);
        if !(c == ' ' || c == '\t' || c == '\n' || c == '\r') {
            proof {
                assert(mid.last() == c);
                assert(trim_end(mid) == mid);
            }
            break;
        }
        proof {
            assert(mid.drop_last() =~= s@.subrange(start as int, end as int - 1));
        }
        end = end - 1;
    }
    (start, end)
}

/// A decimal digit character.
pub open spec fn is_digit(c: char) -> bool {
    '0' <= c <= '9'
}

/// The value of one decimal digit character.
pub open spec fn digit_val(c: char) -> int {
    c as int - '0' as int
}

/// Every character of the sequence is a decimal digit.
pub open spec fn all_digits(s: Seq<char>) -> bool {
    forall|i: int| 0 <= i < s.len() ==> is_digit(#[trigger] s[i])
}

/// The number denoted by a sequence of decimal digit characters.
pub open spec fn digits_value(s: Seq<char>) -> int
    decreases s.len(),
{
    if s.len() == 0 {
        0
    } else {
        digits_value(s.drop_last()) * 10 + digit_val(s.last())
    }
}

/// A digit string's value is never negative.
proof fn lemma_digits_value_nonneg(s: Seq<char>)
    requires
        all_digits(s),
    ensures
        digits_value(s) >= 0,
    decreases s.len(),
{
    if s.len() > 0 {
        assert(all_digits(s.drop_last())) by {
            assert(forall|i: int|
                0 <= i < s.len() - 1 ==> is_digit(#[trigger] s.drop_last()[i]));
        }
        lemma_digits_value_nonneg(s.drop_last());
    }
}

/// Reading more digits never shrinks the value.
proof fn lemma_digits_value_prefix_le(s: Seq<char>, m: int)
    requires
        all_digits(s),
        0 <= m <= s.len(),
    ensures
        digits_value(s.subrange(0, m)) <= digits_value(s),
    decreases s.len() - m,
{
    if m < s.len() {
        let t = s.subrange(0, m + 1);
        assert(t.drop_last() =~= s.subrange(0, m));
        assert(all_digits(t.drop_last()));
        lemma_digits_value_nonneg(t.drop_last());
        assert(digits_value(t) == digits_value(s.subrange(0, m)) * 10 + digit_val(s[m]));
        assert(digits_value(s.subrange(0, m)) <= digits_value(t));
        lemma_digits_value_prefix_le(s, m + 1);
        assert(s.subrange(0, s.len() as int) =~= s);
    } else {
        assert(s.subrange(0, m) =~= s);
    }
}

/// Reads the user's typed index: the input trimmed of surrounding
/// whitespace must be a nonempty, all-digit decimal number that fits in a
/// `u64`; anything else is `Error::ParseInt`.
pub fn parse_choice(s: &str) -> (r: Result<u64, Error>)
    ensures
        ({
            let t = spec_trim(s@);
            if t.len() > 0 && all_digits(t) && digits_value(t) <= u64::MAX {
                r matches Ok(n) && n == digits_value(t)
            } else {
                r == Err::<u64, Error>(Error::ParseInt)
            }
        }),
{
    let (start, end) = trim_bounds(s);
    let ghost t = spec_trim(s@);
    if start == end {
        return Err(Error::ParseInt);
    }
    let mut acc: u64 = 0;
    let mut k: usize = start;
    while k < end
        invariant
            start <= k <= end <= s@.len(),
            end > start,
            t == spec_trim(s@),
            t == s@.subrange(start as int, end as int),
            all_digits(t.subrange(0, k - start)),
            acc == digits_value(t.subrange(0, k - start)),
        decreases end - k,
    {
        let c = s.get_char(k);
        if !(c >= '0' && c <= '9') {
            proof {
                assert(t[k - start] == c);
                assert(!is_digit(t[k - start]));
                assert(!all_digits(t));
            }
            return Err(Error::ParseInt);
        }
        let d: u64 = (c as u32 as u64) - 48;
        proof {
            assert(t.subrange(0, k + 1 - start).drop_last() =~= t.subrange(0, k - start));
            assert(t.subrange(0, k + 1 - start).last() == c);
        }
        if acc > (u64::MAX - d) / 10 {
            proof {
                let prefix = t.subrange(0, k + 1 - start);
                assert(digits_value(prefix) == acc * 10 + d);
                assert((u64::MAX - d) / 10 * 10 + d + 9 >= u64::MAX);
                assert(acc * 10 >= ((u64::MAX - d) / 10 + 1) * 10);
                assert(digits_value(prefix) > u64::MAX);
                if all_digits(t) {
                    lemma_digits_value_prefix_le(t, k + 1 - start);
                    assert(digits_value(t) > u64::MAX);
                }
            }
            return Err(Error::ParseInt);
        }
        proof {
            assert(acc * 10 <= (u64::MAX - d) / 10 * 10 <= u64::MAX - d);
        }
        acc = acc * 10 + d;
        k = k + 1;
    }
    proof {
        assert(t.subrange(0, end - start) =~= t);
    }
    Ok(acc)
}

/// True when the trimmed answer is exactly the letter `y`, in either case —
/// the tool's reading of "yes".
pub fn answer_is_yes(s: &str) -> (r: bool)
    ensures
        r == ({
            let t = spec_trim(s@);
            t.len() == 1 && (t[0] == 'y' || t[0] == 'Y')
        }),
{
    let (start, end) = trim_bounds(s);
    if end - start == 1 {
        let c = s.get_char(start);
        c == 'y' || c == 'Y'
    } else {
        false
    }
}

/// Compares two string slices by their character views.
pub fn str_eq(a: &str, b: &str) -> (r: bool)
    ensures
        r == (a@ == b@),
{
    let sa: String = a.to_owned();
    let sb: String = b.to_owned();
    sa == sb
}

} // verus!
