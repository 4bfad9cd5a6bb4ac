//! Pure text helpers: line counting, path-separator scanning, and decimal
//! formatting. Everything here is executable and verified against small
//! recursive specification functions.

use vstd::prelude::*;

verus! {

/// Number of newline characters in `s`.
pub open spec fn spec_newline_count(s: Seq<char>) -> nat
    decreases s.len(),
{
    if s.len() == 0 {
        0
    } else {
        spec_newline_count(s.drop_last()) + if s.last() == '\n' {
            1nat
        } else {
            0nat
        }
    }
}

/// Number of lines in `s`, counted the way line-oriented text is displayed:
/// an empty text has no lines, and a trailing newline terminates the last
/// line rather than opening a new one.
pub open spec fn spec_lines_count(s: Seq<char>) -> nat {
    if s.len() == 0 {
        0
    } else {
        spec_newline_count(s) + if s.last() == '\n' {
            0nat
        } else {
            1nat
        }
    }
}

proof fn lemma_newline_count_le(s: Seq<char>)
    ensures
        spec_newline_count(s) <= s.len(),
    decreases s.len(),
{
    if s.len() > 0 {
        lemma_newline_count_le(s.drop_last());
    }
}

/// Counts display lines of `s`; see [`spec_lines_count`].
pub fn count_lines(s: &str) -> (n: usize)
    ensures
        n == spec_lines_count(s@),
{
    let len = s.unicode_len();
    let mut nl: usize = 0;
    let mut i: usize = 0;
    while i < len
        invariant
            i <= len,
            len == s@.len(),
            nl == spec_newline_count(s@.subrange(0, i as int)),
            nl <= i,
        decreases len - i,
    {
        let c = s.get_char(i);
        proof {
            assert(s@.subrange(0, i + 1).drop_last() =~= s@.subrange(0, i as int));
            assert(s@.subrange(0, i + 1).last() == s@[i as int]);
        }
        if c == '\n' {
            nl = nl + 1;
        }
        i = i + 1;
    }
    proof {
        assert(s@.subrange(0, len as int) =~= s@);
    }
    if len == 0 {
        0
    } else {
        let last = s.get_char(len - 1);
        if last == '\n' {
            nl
        } else {
            proof {
                assert(spec_newline_count(s@) == spec_newline_count(s@.drop_last()));
                lemma_newline_count_le(s@.drop_last());
            }
            nl + 1
        }
    }
}

/// True when `s` ends with the path separator.
pub open spec fn spec_ends_with_slash(s: Seq<char>) -> bool {
    s.len() > 0 && s.last() == '/'
}

/// Whether `s` ends with the path separator, i.e. denotes a directory.
pub fn ends_with_slash(s: &str) -> (r: bool)
    ensures
        r == spec_ends_with_slash(s@),
{
    let len = s.unicode_len();
    len > 0 && s.get_char(len - 1) == '/'
}

/// `s` with every trailing path separator removed.
pub open spec fn spec_strip_trailing_slashes(s: Seq<char>) -> Seq<char>
    decreases s.len(),
{
    if s.len() > 0 && s.last() == '/' {
        spec_strip_trailing_slashes(s.drop_last())
    } else {
        s
    }
}

/// Index of the last path separator in `s`, or -1 when there is none.
pub open spec fn spec_rfind_slash(s: Seq<char>) -> int
    decreases s.len(),
{
    if s.len() == 0 {
        -1
    } else if s.last() == '/' {
        s.len() - 1
    } else {
        spec_rfind_slash(s.drop_last())
    }
}

/// The last-separator index is always inside `s`, and names a separator.
pub proof fn lemma_rfind_slash_in_range(s: Seq<char>)
    ensures
        -1 <= spec_rfind_slash(s) < s.len(),
        spec_rfind_slash(s) >= 0 ==> s[spec_rfind_slash(s)] == '/',
        spec_rfind_slash(s) >= 0 ==> spec_rfind_slash(s) <= s.len() - 1,
    decreases s.len(),
{
    if s.len() > 0 && s.last() != '/' {
        lemma_rfind_slash_in_range(s.drop_last());
    }
}

/// Finds the last path separator of `s`, if any.
pub fn rfind_slash(s: &str) -> (r: Option<usize>)
    ensures
        match r {
            Some(i) => spec_rfind_slash(s@) == i as int && i < s@.len() <= usize::MAX,
            None => spec_rfind_slash(s@) == -1,
        },
{
    let len = s.unicode_len();
    let mut end = len;
    proof {
        assert(s@.subrange(0, len as int) =~= s@);
    }
    while end > 0
        invariant
            end <= len,
            len == s@.len(),
            spec_rfind_slash(s@) == spec_rfind_slash(s@.subrange(0, end as int)),
        decreases end,
    {
        let c = s.get_char(end - 1);
        proof {
            assert(s@.subrange(0, end as int).last() == s@[end - 1]);
            assert(s@.subrange(0, end as int).drop_last() =~= s@.subrange(0, end - 1));
        }
        if c == '/' {
            proof {
                assert(spec_rfind_slash(s@.subrange(0, end as int)) == end - 1);
            }
            return Some(end - 1);
        }
        end = end - 1;
    }
    proof {
        assert(s@.subrange(0, 0) =~= Seq::<char>::empty());
    }
    None
}

/// `s` truncated to its first `end` characters.
pub fn prefix_of(s: &str, end: usize) -> (r: String)
    requires
        end <= s@.len(),
    ensures
        r@ == s@.subrange(0, end as int),
{
    let sub = s.substring_char(0, end);
    sub.to_owned()
}

/// `s` with every trailing path separator removed; see
/// [`spec_strip_trailing_slashes`].
pub fn strip_trailing_slashes(s: &str) -> (r: String)
    ensures
        r@ == spec_strip_trailing_slashes(s@),
{
    let len = s.unicode_len();
    let mut end = len;
    let mut done = false;
    proof {
        assert(s@.subrange(0, len as int) =~= s@);
    }
    while !done && end > 0
        invariant
            end <= len,
            len == s@.len(),
            spec_strip_trailing_slashes(s@) == spec_strip_trailing_slashes(
                s@.subrange(0, end as int),
            ),
            done ==> end > 0 && s@[end - 1] != '/',
        decreases end + (if done {
            0int
        } else {
            1int
        }),
    {
        let c = s.get_char(end - 1);
        proof {
            assert(s@.subrange(0, end as int).last() == s@[end - 1]);
            assert(s@.subrange(0, end as int).drop_last() =~= s@.subrange(0, end - 1));
        }
        if c != '/' {
            done = true;
        } else {
            end = end - 1;
        }
    }
    proof {
        if end == 0 {
            assert(s@.subrange(0, 0) =~= Seq::<char>::empty());
        } else {
            assert(s@.subrange(0, end as int).last() == s@[end - 1]);
            assert(spec_strip_trailing_slashes(s@.subrange(0, end as int)) == s@.subrange(
                0,
                end as int,
            ));
        }
    }
    prefix_of(s, end)
}

/// The decimal digit character for `d`.
pub open spec fn spec_digit_char(d: int) -> char {
    if d == 0 {
        '0'
    } else if d == 1 {
        '1'
    } else if d == 2 {
        '2'
    } else if d == 3 {
        '3'
    } else if d == 4 {
        '4'
    } else if d == 5 {
        '5'
    } else if d == 6 {
        '6'
    } else if d == 7 {
        '7'
    } else if d == 8 {
        '8'
    } else {
        '9'
    }
}

/// The decimal representation of `n`, most significant digit first.
pub open spec fn spec_u64_dec(n: nat) -> Seq<char>
    decreases n,
{
    if n < 10 {
        seq![spec_digit_char(n as int)]
    } else {
        spec_u64_dec(n / 10).push(spec_digit_char((n % 10) as int))
    }
}

fn digit_str(d: u64) -> (s: &'static str)
    requires
        d < 10,
    ensures
        s@ =~= seq![spec_digit_char(d as int)],
{
    proof {
        reveal_strlit("0");
        reveal_strlit("1");
        reveal_strlit("2");
        reveal_strlit("3");
        reveal_strlit("4");
        reveal_strlit("5");
        reveal_strlit("6");
        reveal_strlit("7");
        reveal_strlit("8");
        reveal_strlit("9");
    }
    if d == 0 {
        "0"
    } else if d == 1 {
        "1"
    } else if d == 2 {
        "2"
    } else if d == 3 {
        "3"
    } else if d == 4 {
        "4"
    } else if d == 5 {
        "5"
    } else if d == 6 {
        "6"
    } else if d == 7 {
        "7"
    } else if d == 8 {
        "8"
    } else {
        "9"
    }
}

/// Renders `n` in decimal; see [`spec_u64_dec`].
pub fn u64_to_dec(n: u64) -> (s: String)
    ensures
        s@ == spec_u64_dec(n as nat),
    decreases n,
{
    if n < 10 {
        digit_str(n).to_owned()
    } else {
        let mut s = u64_to_dec(n / 10);
        let d = digit_str(n % 10);
        s.append(d);
        proof {
            assert(spec_u64_dec((n / 10) as nat) + seq![
                spec_digit_char((n % 10) as int),
            ] =~= spec_u64_dec((n / 10) as nat).push(spec_digit_char((n % 10) as int)));
        }
        s
    }
}

} // verus!
