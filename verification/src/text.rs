//! Plain-text helpers: decimal rendering of integers, character-based
//! truncation, the spinner animation, and log-line classification.

use vstd::prelude::*;

verus! {

/// The decimal digit character for `d` (`d < 10`).
pub open spec fn digit_char(d: nat) -> char {
    if d == 0 {
        '0'
    } else if d == 1 {
        '1'
    } else if d == 2 {
        '2'
    } else if d == 3 {
        '3'
    } else if d == 4 {
        '4'
    } else if d == 5 {
        '5'
    } else if d == 6 {
        '6'
    } else if d == 7 {
        '7'
    } else if d == 8 {
        '8'
    } else {
        '9'
    }
}

/// Decimal form of `n`, most significant digit first, no leading zeros
/// (a single `'0'` for zero).
pub open spec fn u64_digits(n: nat) -> Seq<char>
    decreases n,
{
    if n < 10 {
        seq![digit_char(n)]
    } else {
        u64_digits(n / 10) + seq![digit_char(n % 10)]
    }
}

/// Decimal form of a signed value: a leading `'-'` for negative values.
pub open spec fn i64_digits(n: int) -> Seq<char> {
    if n < 0 {
        seq!['-'] + u64_digits((-n) as nat)
    } else {
        u64_digits(n as nat)
    }
}

fn digit_str(d: u64) -> (r: &'static str)
    requires
        d < 10,
    ensures
        r@ == seq![digit_char(d as nat)],
{
    proof {
        reveal_strlit("0");
        reveal_strlit("1");
        reveal_strlit("2");
        reveal_strlit("3");
        reveal_strlit("4");
        reveal_strlit("5");
        reveal_strlit("6");
        reveal_strlit("7");
        reveal_strlit("8");
        reveal_strlit("9");
        assert("0"@ =~= seq!['0']);
        assert("1"@ =~= seq!['1']);
        assert("2"@ =~= seq!['2']);
        assert("3"@ =~= seq!['3']);
        assert("4"@ =~= seq!['4']);
        assert("5"@ =~= seq!['5']);
        assert("6"@ =~= seq!['6']);
        assert("7"@ =~= seq!['7']);
        assert("8"@ =~= seq!['8']);
        assert("9"@ =~= seq!['9']);
    }
    match d {
        0 => "0",
        1 => "1",
        2 => "2",
        3 => "3",
        4 => "4",
        5 => "5",
        6 => "6",
        7 => "7",
        8 => "8",
        _ => "9",
    }
}

/// Render `n` in decimal.
pub fn u64_to_string(n: u64) -> (r: String)
    ensures
        r@ == u64_digits(n as nat),
    decreases n,
{
    if n < 10 {
        String::from_str(digit_str(n))
    } else {
        let mut s = u64_to_string(n / 10);
        s.append(digit_str(n % 10));
        s
    }
}

/// Render `n` in decimal, with a `-` sign for negative values.
pub fn i64_to_string(n: i64) -> (r: String)
    requires
        n > i64::MIN,
    ensures
        r@ == i64_digits(n as int),
{
    if n >= 0 {
        u64_to_string(n as u64)
    } else {
        let mut s = String::from_str("-");
        proof {
            reveal_strlit("-");
            assert("-"@ =~= seq!['-']);
        }
        s.append(u64_to_string((-n) as u64).as_str());
        s
    }
}

/// What truncation to `max` characters yields: the text itself when it fits,
/// otherwise its first `max - 1` characters with an ellipsis appended
/// (a bare ellipsis when even that does not fit).
pub open spec fn spec_truncate(s: Seq<char>, max: nat) -> Seq<char> {
    if s.len() <= max {
        s
    } else if max <= 1 {
        seq!['…']
    } else {
        s.subrange(0, max - 1) + seq!['…']
    }
}

/// Shorten `text` to at most `max_chars` characters, marking an elision
/// with an ellipsis.
pub fn truncate_text(text: &str, max_chars: usize) -> (r: String)
    ensures
        r@ == spec_truncate(text@, max_chars as nat),
{
    proof {
        reveal_strlit("…");
        assert("…"@ =~= seq!['…']);
    }
    let len = text.unicode_len();
    if len <= max_chars {
        String::from_str(text)
    } else if max_chars <= 1 {
        String::from_str("…")
    } else {
        let head = text.substring_char(0, max_chars - 1);
        let mut s = String::from_str(head);
        s.append("…");
        s
    }
}

/// The spinner frame shown at a given millisecond timestamp: the animation
/// advances every 120 ms through eight frames.
pub open spec fn spec_spinner(millis: nat) -> Seq<char> {
    let i = (millis / 120) % 8;
    if i == 0 {
        "⠋"@
    } else if i == 1 {
        "⠙"@
    } else if i == 2 {
        "⠹"@
    } else if i == 3 {
        "⠸"@
    } else if i == 4 {
        "⠼"@
    } else if i == 5 {
        "⠴"@
    } else if i == 6 {
        "⠦"@
    } else {
        "⠧"@
    }
}

/// Pick the spinner frame for the given millisecond timestamp.
pub fn spinner_frame(millis: u64) -> (r: &'static str)
    ensures
        r@ == spec_spinner(millis as nat),
{
    let i = (millis / 120) % 8;
    match i {
        0 => "⠋",
        1 => "⠙",
        2 => "⠹",
        3 => "⠸",
        4 => "⠼",
        5 => "⠴",
        6 => "⠦",
        _ => "⠧",
    }
}

/// `t` occurs in `s` starting at position `i`.
pub open spec fn contains_at(s: Seq<char>, t: Seq<char>, i: int) -> bool {
    0 <= i && i + t.len() <= s.len() && s.subrange(i, i + t.len()) == t
}

/// `t` occurs somewhere in `s`.
pub open spec fn spec_contains(s: Seq<char>, t: Seq<char>) -> bool {
    exists|i: int| contains_at(s, t, i)
}

/// Substring search, character by character.
pub fn str_contains(s: &str, t: &str) -> (r: bool)
    ensures
        r == spec_contains(s@, t@),
{
    let s_len = s.unicode_len();
    let t_len = t.unicode_len();
    if t_len == 0 {
        proof {
            assert(contains_at(s@, t@, 0)) by {
                assert(s@.subrange(0, 0) =~= t@);
            }
        }
        return true;
    }
    if t_len > s_len {
        proof {
            assert(forall|i: int| !contains_at(s@, t@, i));
        }
        return false;
    }
    let mut i: usize = 0;
    while i <= s_len - t_len
        invariant
            t_len == t@.len(),
            s_len == s@.len(),
            0 < t_len <= s_len,
            i <= s_len - t_len + 1,
            forall|k: int| 0 <= k < i ==> !contains_at(s@, t@, k),
        decreases s_len - i,
    {
        let mut j: usize = 0;
        let mut matched = true;
        while j < t_len
            invariant
                t_len == t@.len(),
                s_len == s@.len(),
                0 < t_len <= s_len,
                i <= s_len - t_len,
                j <= t_len,
                matched == (forall|k: int| 0 <= k < j ==> s@[i + k] == t@[k]),
            decreases t_len - j,
        {
            if s.get_char(i + j) != t.get_char(j) {
                matched = false;
                proof {
                    assert(s@[i + j] != t@[j as int]);
                }
                j = t_len;
            } else {
                j = j + 1;
            }
        }
        if matched {
            proof {
                assert(contains_at(s@, t@, i as int)) by {
                    assert(s@.subrange(i as int, i + t@.len()) =~= t@);
                }
            }
            return true;
        }
        i = i + 1;
    }
    proof {
        assert(forall|k: int| 0 <= k < i ==> !contains_at(s@, t@, k));
        assert(forall|k: int| i <= k ==> !contains_at(s@, t@, k));
    }
    false
}

/// Blank characters stripped by trimming.
pub open spec fn is_space(c: char) -> bool {
    c == ' ' || c == '\t' || c == '\n' || c == '\r'
}

/// `s` without leading blanks.
pub open spec fn spec_trim_front(s: Seq<char>) -> Seq<char>
    decreases s.len(),
{
    if s.len() > 0 && is_space(s[0]) {
        spec_trim_front(s.skip(1))
    } else {
        s
    }
}

/// `s` without trailing blanks.
pub open spec fn spec_trim_back(s: Seq<char>) -> Seq<char>
    decreases s.len(),
{
    if s.len() > 0 && is_space(s[s.len() - 1]) {
        spec_trim_back(s.take(s.len() - 1))
    } else {
        s
    }
}

/// `s` without leading and trailing blanks.
pub open spec fn spec_trim(s: Seq<char>) -> Seq<char> {
    spec_trim_back(spec_trim_front(s))
}

fn exec_is_space(c: char) -> (r: bool)
    ensures
        r == is_space(c),
{
    c == ' ' || c == '\t' || c == '\n' || c == '\r'
}

/// The bounds of `s` with blanks trimmed at both ends:
/// `s[r.0 .. r.1]` is the trimmed text.
pub fn trim_bounds(s: &str) -> (r: (usize, usize))
    ensures
        r.0 <= r.1 <= s@.len(),
        s@.subrange(r.0 as int, r.1 as int) == spec_trim(s@),
{
    let n = s.unicode_len();
    proof {
        assert(s@.skip(0) =~= s@);
    }
    let mut start: usize = 0;
    while start < n && exec_is_space(s.get_char(start))
        invariant
            n == s@.len(),
            start <= n,
            spec_trim_front(s@) == spec_trim_front(s@.skip(start as int)),
        decreases n - start,
    {
        proof {
            assert(s@.skip(start as int).skip(1) =~= s@.skip(start + 1));
            assert(s@.skip(start as int)[0] == s@[start as int]);
        }
        start = start + 1;
    }
    proof {
        if start < n {
            assert(s@.skip(start as int)[0] == s@[start as int]);
        }
        assert(spec_trim_front(s@) == s@.skip(start as int));
    }
    let ghost f = s@.skip(start as int);
    proof {
        assert(f.take(n - start) =~= f);
    }
    let mut end: usize = n;
    while end > start && exec_is_space(s.get_char(end - 1))
        invariant
            n == s@.len(),
            start <= end <= n,
            f == s@.skip(start as int),
            spec_trim_front(s@) == f,
            spec_trim_back(f) == spec_trim_back(f.take(end - start)),
        decreases end,
    {
        proof {
            assert(f.take(end - start).take(end - start - 1) =~= f.take(end - 1 - start));
            assert(f.take(end - start)[end - start - 1] == s@[end - 1]);
        }
        end = end - 1;
    }
    proof {
        if end > start {
            assert(f.take(end - start)[end - start - 1] == s@[end - 1]);
        }
        assert(spec_trim_back(f.take(end - start)) == f.take(end - start));
        assert(f.take(end - start) =~= s@.subrange(start as int, end as int));
    }
    (start, end)
}

/// Copy of `s` with blanks trimmed at both ends.
pub fn trim_to_string(s: &str) -> (r: String)
    ensures
        r@ == spec_trim(s@),
{
    let (start, end) = trim_bounds(s);
    let t = s.substring_char(start, end);
    String::from_str(t)
}

/// `c` matches `t` up to ASCII case, where `t` is expected lower-case:
/// either the same character, or its upper-case ASCII counterpart.
pub open spec fn ci_char_eq(c: char, t: char) -> bool {
    c == t || (('a' as u32) <= (t as u32) <= ('z' as u32) && (c as u32) + 32 == (t as u32))
}

/// `s` matches `t` character-wise up to ASCII case.
pub open spec fn ascii_ci_eq(s: Seq<char>, t: Seq<char>) -> bool {
    s.len() == t.len() && forall|i: int| 0 <= i < s.len() ==> ci_char_eq(s[i], #[trigger] t[i])
}

/// Does `s[start..end]` match `t` up to ASCII case?
pub fn str_ci_eq_range(s: &str, start: usize, end: usize, t: &str) -> (r: bool)
    requires
        start <= end <= s@.len(),
    ensures
        r == ascii_ci_eq(s@.subrange(start as int, end as int), t@),
{
    let t_len = t.unicode_len();
    if end - start != t_len {
        return false;
    }
    let mut i: usize = 0;
    while i < t_len
        invariant
            start <= end <= s@.len(),
            t_len == t@.len(),
            end - start == t_len,
            i <= t_len,
            forall|k: int| 0 <= k < i ==> ci_char_eq(s@[start + k], #[trigger] t@[k]),
        decreases t_len - i,
    {
        let c = s.get_char(start + i);
        let tc = t.get_char(i);
        let c32 = c as u32;
        let t32 = tc as u32;
        if !(c == tc || (97 <= t32 && t32 <= 122 && c32 + 32 == t32)) {
            proof {
                assert(!ci_char_eq(s@[start + i], t@[i as int]));
                assert(s@.subrange(start as int, end as int)[i as int] == s@[start + i]);
            }
            return false;
        }
        i = i + 1;
    }
    proof {
        assert forall|k: int| 0 <= k < t@.len() implies ci_char_eq(
            s@.subrange(start as int, end as int)[k],
            #[trigger] t@[k],
        ) by {
            assert(s@.subrange(start as int, end as int)[k] == s@[start + k]);
        }
    }
    true
}

/// Character-for-character equality of two strings.
pub fn str_eq(a: &str, b: &str) -> (r: bool)
    ensures
        r == (a@ == b@),
{
    let a_len = a.unicode_len();
    let b_len = b.unicode_len();
    if a_len != b_len {
        return false;
    }
    let mut i: usize = 0;
    while i < a_len
        invariant
            a_len == a@.len(),
            b_len == b@.len(),
            a_len == b_len,
            i <= a_len,
            forall|k: int| 0 <= k < i ==> a@[k] == b@[k],
        decreases a_len - i,
    {
        if a.get_char(i) != b.get_char(i) {
            return false;
        }
        i = i + 1;
    }
    proof {
        assert(a@ =~= b@);
    }
    true
}

/// How a log line should be rendered: errors, warnings, confirmations,
/// and everything else.
#[derive(Clone, Copy, Debug, PartialEq, Eq, Structural)]
pub enum LogClass {
    Failure,
    Warning,
    Success,
    Info,
}

/// Classification of a log line by the markers the library puts in its
/// messages, errors first.
pub open spec fn spec_log_class(s: Seq<char>) -> LogClass {
    if spec_contains(s, "failed"@) || spec_contains(s, "error"@) || spec_contains(s, "❌"@) {
        LogClass::Failure
    } else if spec_contains(s, "warning"@) || spec_contains(s, "timed out"@) {
        LogClass::Warning
    } else if spec_contains(s, "✓"@) || spec_contains(s, "success"@) || spec_contains(s, "ready"@) {
        LogClass::Success
    } else {
        LogClass::Info
    }
}

/// Classify a log line for rendering.
pub fn log_line_class(line: &str) -> (r: LogClass)
    ensures
        r == spec_log_class(line@),
{
    if str_contains(line, "failed") || str_contains(line, "error") || str_contains(line, "❌") {
        LogClass::Failure
    } else if str_contains(line, "warning") || str_contains(line, "timed out") {
        LogClass::Warning
    } else if str_contains(line, "✓") || str_contains(line, "success") || str_contains(
        line,
        "ready",
    ) {
        LogClass::Success
    } else {
        LogClass::Info
    }
}

} // verus!
