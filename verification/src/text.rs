//! Small verified text helpers shared across the crate.
//!
//! The coordinator renders configuration files and parses simple
//! line-oriented formats, so it needs character-exact string primitives:
//! equality, prefix tests, splitting into lines and words, joining, and
//! decimal rendering of integers.

use vstd::prelude::*;

verus! {

/// Compare two string slices character by character.
pub fn str_eq(a: &str, b: &str) -> (equal: bool)
    ensures
        equal == (a@ == b@),
{
    let a_len = a.unicode_len();
    let b_len = b.unicode_len();
    if a_len != b_len {
        return false;
    }
    let mut i: usize = 0;
    while i < a_len
        invariant
            a_len == a@.len(),
            b_len == b@.len(),
            a_len == b_len,
            i <= a_len,
            forall|j: int| 0 <= j < i ==> a@[j] == b@[j],
        decreases a_len - i,
    {
        if a.get_char(i) != b.get_char(i) {
            return false;
        }
        i = i + 1;
    }
    proof {
        assert(a@ =~= b@);
    }
    true
}

/// The decimal digit character for `d`.
pub open spec fn spec_digit_char(d: int) -> char {
    if d == 0 {
        '0'
    } else if d == 1 {
        '1'
    } else if d == 2 {
        '2'
    } else if d == 3 {
        '3'
    } else if d == 4 {
        '4'
    } else if d == 5 {
        '5'
    } else if d == 6 {
        '6'
    } else if d == 7 {
        '7'
    } else if d == 8 {
        '8'
    } else {
        '9'
    }
}

/// The usual decimal rendering of `n`: most significant digit first, no
/// leading zeroes but for `n == 0` itself.
pub open spec fn spec_dec(n: int) -> Seq<char>
    decreases n,
{
    if n <= 9 {
        seq![spec_digit_char(n)]
    } else {
        spec_dec(n / 10).push(spec_digit_char(n % 10))
    }
}

/// The decimal digit character for `d`, as a one-character string slice.
fn digit_str(d: u64) -> (s: &'static str)
    requires
        d <= 9,
    ensures
        s@ =~= seq![spec_digit_char(d as int)],
{
    proof {
        reveal_strlit("0");
        reveal_strlit("1");
        reveal_strlit("2");
        reveal_strlit("3");
        reveal_strlit("4");
        reveal_strlit("5");
        reveal_strlit("6");
        reveal_strlit("7");
        reveal_strlit("8");
        reveal_strlit("9");
    }
    match d {
        0 => "0",
        1 => "1",
        2 => "2",
        3 => "3",
        4 => "4",
        5 => "5",
        6 => "6",
        7 => "7",
        8 => "8",
        _ => "9",
    }
}

/// Render `n` in decimal.
pub fn u64_to_dec(n: u64) -> (s: String)
    ensures
        s@ == spec_dec(n as int),
    decreases n,
{
    if n <= 9 {
        String::from_str(digit_str(n))
    } else {
        let mut s = u64_to_dec(n / 10);
        s.append(digit_str(n % 10));
        s
    }
}

/// The views of a list of owned strings.
pub open spec fn spec_str_views(parts: Seq<String>) -> Seq<Seq<char>> {
    parts.map_values(|p: String| p@)
}

/// The segments of `s` between occurrences of `sep`: always one segment
/// more than there are separators, with empty segments kept.
pub open spec fn spec_split(s: Seq<char>, sep: char) -> Seq<Seq<char>>
    decreases s.len(),
{
    if s.len() == 0 {
        seq![Seq::empty()]
    } else if s.last() == sep {
        spec_split(s.drop_last(), sep).push(Seq::empty())
    } else {
        let parts = spec_split(s.drop_last(), sep);
        parts.update(parts.len() - 1, parts.last().push(s.last()))
    }
}

/// A split has at least one segment.
pub proof fn lemma_split_len(s: Seq<char>, sep: char)
    ensures
        spec_split(s, sep).len() >= 1,
    decreases s.len(),
{
    if s.len() > 0 {
        lemma_split_len(s.drop_last(), sep);
    }
}

/// Split `s` at every occurrence of `sep`.
#[verifier::loop_isolation(false)]
pub fn split_on(s: &str, sep: char) -> (parts: Vec<String>)
    ensures
        spec_str_views(parts@) == spec_split(s@, sep),
{
    let len = s.unicode_len();
    let mut parts: Vec<String> = Vec::new();
    let mut start: usize = 0;
    let mut i: usize = 0;
    while i < len
        invariant
            start <= i <= len,
            spec_split(s@.take(i as int), sep) =~~= spec_str_views(parts@).push(
                s@.subrange(start as int, i as int),
            ),
        decreases len - i,
    {
        proof {
            assert(s@.take(i + 1).drop_last() =~= s@.take(i as int));
            lemma_split_len(s@.take(i as int), sep);
        }
        if s.get_char(i) == sep {
            parts.push(String::from_str(s.substring_char(start, i)));
            start = i + 1;
            proof {
                assert(spec_split(s@.take(i + 1), sep) =~~= spec_str_views(parts@).push(
                    s@.subrange(i + 1, i + 1),
                ));
            }
        } else {
            proof {
                assert(s@.subrange(start as int, i as int).push(s@[i as int]) =~= s@.subrange(
                    start as int,
                    i + 1,
                ));
                assert(spec_split(s@.take(i + 1), sep) =~~= spec_str_views(parts@).push(
                    s@.subrange(start as int, i + 1),
                ));
            }
        }
        i = i + 1;
    }
    proof {
        assert(s@.take(len as int) =~= s@);
    }
    parts.push(String::from_str(s.substring_char(start, len)));
    proof {
        assert(spec_str_views(parts@) =~~= spec_split(s@, sep));
    }
    parts
}

/// The lines of a configuration text: the newline-separated segments,
/// without the empty segment a trailing newline would leave.
pub open spec fn spec_config_lines(content: Seq<char>) -> Seq<Seq<char>> {
    let parts = spec_split(content, '\n');
    if parts.len() > 0 && parts.last().len() == 0 {
        parts.drop_last()
    } else {
        parts
    }
}

/// Split a configuration text into lines, dropping the empty segment a
/// trailing newline leaves.
#[verifier::loop_isolation(false)]
pub fn config_lines(content: &str) -> (lines: Vec<String>)
    ensures
        spec_str_views(lines@) == spec_config_lines(content@),
{
    let mut lines = split_on(content, '\n');
    if lines.len() > 0 && lines[lines.len() - 1].as_str().unicode_len() == 0 {
        lines.pop();
        proof {
            assert(spec_str_views(lines@) =~= spec_config_lines(content@));
        }
    }
    proof {
        assert(spec_str_views(lines@) =~= spec_config_lines(content@));
    }
    lines
}

/// The non-empty entries of a split, in order.
pub open spec fn spec_nonempty_parts(parts: Seq<Seq<char>>) -> Seq<Seq<char>>
    decreases parts.len(),
{
    if parts.len() == 0 {
        Seq::empty()
    } else {
        let rest = spec_nonempty_parts(parts.drop_last());
        if parts.last().len() > 0 {
            rest.push(parts.last())
        } else {
            rest
        }
    }
}

/// The segments joined back together with `sep` between them.
pub open spec fn spec_join(parts: Seq<Seq<char>>, sep: Seq<char>) -> Seq<char>
    decreases parts.len(),
{
    if parts.len() == 0 {
        Seq::empty()
    } else if parts.len() == 1 {
        parts[0]
    } else {
        spec_join(parts.drop_last(), sep) + sep + parts.last()
    }
}

/// Join `parts` with `sep` between consecutive entries.
#[verifier::loop_isolation(false)]
pub fn join_with(parts: &Vec<String>, sep: &str) -> (joined: String)
    ensures
        joined@ == spec_join(spec_str_views(parts@), sep@),
{
    let mut joined = String::new();
    let mut i: usize = 0;
    while i < parts.len()
        invariant
            i <= parts@.len(),
            joined@ == spec_join(spec_str_views(parts@).take(i as int), sep@),
        decreases parts@.len() - i,
    {
        proof {
            assert(spec_str_views(parts@).take(i + 1).drop_last() =~= spec_str_views(
                parts@,
            ).take(i as int));
        }
        if i > 0 {
            joined.append(sep);
        }
        joined.append(parts[i].as_str());
        i = i + 1;
    }
    proof {
        assert(spec_str_views(parts@).take(parts@.len() as int) =~= spec_str_views(parts@));
    }
    joined
}

/// Decide whether some entry of `parts` reads exactly `needle`.
pub fn contains_str(parts: &Vec<String>, needle: &str) -> (found: bool)
    ensures
        found == spec_str_views(parts@).contains(needle@),
{
    let mut i: usize = 0;
    while i < parts.len()
        invariant
            i <= parts@.len(),
            forall|j: int| 0 <= j < i ==> spec_str_views(parts@)[j] != needle@,
        decreases parts@.len() - i,
    {
        if str_eq(parts[i].as_str(), needle) {
            proof {
                assert(spec_str_views(parts@)[i as int] == needle@);
            }
            return true;
        }
        i = i + 1;
    }
    proof {
        assert(forall|j: int|
            0 <= j < spec_str_views(parts@).len() ==> spec_str_views(parts@)[j] != needle@);
    }
    false
}

/// Index right after the last `sep` in `s`, or 0 when `s` has none.
pub open spec fn spec_after_last(s: Seq<char>, sep: char) -> int
    decreases s.len(),
{
    if s.len() == 0 {
        0
    } else if s.last() == sep {
        s.len() as int
    } else {
        spec_after_last(s.drop_last(), sep)
    }
}

/// The last `sep`-separated segment of `s`: everything after the last
/// `sep`, or all of `s` when it has none.
pub open spec fn spec_last_segment(s: Seq<char>, sep: char) -> Seq<char> {
    s.skip(spec_after_last(s, sep))
}

/// The boundary after the last separator is where the separator-free tail
/// begins.
proof fn lemma_after_last_at(s: Seq<char>, sep: char, i: int)
    requires
        0 <= i <= s.len(),
        forall|j: int| i <= j < s.len() ==> s[j] != sep,
        i > 0 ==> s[i - 1] == sep,
    ensures
        spec_after_last(s, sep) == i,
    decreases s.len(),
{
    if s.len() == 0 {
    } else if s.last() == sep {
        assert(i == s.len());
    } else {
        assert(i < s.len());
        lemma_after_last_at(s.drop_last(), sep, i);
    }
}

/// Extract the last `sep`-separated segment of `s`.
pub fn last_segment(s: &str, sep: char) -> (segment: String)
    ensures
        segment@ == spec_last_segment(s@, sep),
{
    let len = s.unicode_len();
    let mut start: usize = len;
    while start > 0 && s.get_char(start - 1) != sep
        invariant
            len == s@.len(),
            start <= len,
            forall|j: int| start <= j < len ==> s@[j] != sep,
        decreases start,
    {
        start = start - 1;
    }
    proof {
        lemma_after_last_at(s@, sep, start as int);
        assert(s@.subrange(start as int, len as int) =~= s@.skip(start as int));
    }
    String::from_str(s.substring_char(start, len))
}

/// `pattern` occurs somewhere in `s`.
pub open spec fn spec_contains_seq(s: Seq<char>, pattern: Seq<char>) -> bool {
    exists|k: int|
        0 <= k <= s.len() - pattern.len() && #[trigger] s.subrange(k, k + pattern.len())
            == pattern
}

/// Decide whether `pattern` occurs somewhere in `s`.
pub fn str_contains(s: &str, pattern: &str) -> (found: bool)
    ensures
        found == spec_contains_seq(s@, pattern@),
{
    let s_len = s.unicode_len();
    let p_len = pattern.unicode_len();
    if p_len > s_len {
        return false;
    }
    if p_len == 0 {
        proof {
            assert(s@.subrange(0, 0 + pattern@.len() as int) =~= pattern@);
            assert(spec_contains_seq(s@, pattern@));
        }
        return true;
    }
    let mut k: usize = 0;
    while k <= s_len - p_len
        invariant
            s_len == s@.len(),
            p_len == pattern@.len(),
            0 < p_len <= s_len,
            k <= s_len - p_len + 1,
            forall|j: int|
                0 <= j < k ==> #[trigger] s@.subrange(j, j + pattern@.len()) != pattern@,
        decreases s_len - p_len - k + 1,
    {
        let window = s.substring_char(k, k + p_len);
        if str_eq(window, pattern) {
            return true;
        }
        k = k + 1;
    }
    false
}

/// Whitespace, as far as trimming is concerned.
pub open spec fn spec_is_space(c: char) -> bool {
    c == ' ' || c == '\t' || c == '\n' || c == '\r'
}

/// `s` without leading whitespace.
pub open spec fn spec_trim_start(s: Seq<char>) -> Seq<char>
    decreases s.len(),
{
    if s.len() == 0 {
        s
    } else if spec_is_space(s.first()) {
        spec_trim_start(s.drop_first())
    } else {
        s
    }
}

/// `s` without trailing whitespace.
pub open spec fn spec_trim_end(s: Seq<char>) -> Seq<char>
    decreases s.len(),
{
    if s.len() == 0 {
        s
    } else if spec_is_space(s.last()) {
        spec_trim_end(s.drop_last())
    } else {
        s
    }
}

/// `s` without leading and trailing whitespace.
pub open spec fn spec_trim(s: Seq<char>) -> Seq<char> {
    spec_trim_end(spec_trim_start(s))
}

/// Dropping leading whitespace is skipping up to the first non-space.
proof fn lemma_trim_start_skip(s: Seq<char>, i: int)
    requires
        0 <= i <= s.len(),
        forall|j: int| 0 <= j < i ==> spec_is_space(s[j]),
        i < s.len() ==> !spec_is_space(s[i]),
    ensures
        spec_trim_start(s) == s.skip(i),
    decreases i,
{
    if i == 0 {
        assert(s.skip(0) =~= s);
    } else {
        lemma_trim_start_skip(s.drop_first(), i - 1);
        assert(s.drop_first().skip(i - 1) =~= s.skip(i));
    }
}

/// Dropping trailing whitespace is taking up to the last non-space.
proof fn lemma_trim_end_take(s: Seq<char>, i: int)
    requires
        0 <= i <= s.len(),
        forall|j: int| i <= j < s.len() ==> spec_is_space(s[j]),
        i > 0 ==> !spec_is_space(s[i - 1]),
    ensures
        spec_trim_end(s) == s.take(i),
    decreases s.len() - i,
{
    if i == s.len() {
        assert(s.take(i) =~= s);
    } else {
        lemma_trim_end_take(s.drop_last(), i);
        assert(s.drop_last().take(i) =~= s.take(i));
    }
}

/// Trim leading and trailing whitespace.
pub fn str_trim<'a>(s: &'a str) -> (trimmed: &'a str)
    ensures
        trimmed@ == spec_trim(s@),
{
    let len = s.unicode_len();
    let mut start: usize = 0;
    while start < len && is_space_char(s.get_char(start))
        invariant
            len == s@.len(),
            start <= len,
            forall|j: int| 0 <= j < start ==> spec_is_space(s@[j]),
        decreases len - start,
    {
        start = start + 1;
    }
    let mut end: usize = len;
    while end > start && is_space_char(s.get_char(end - 1))
        invariant
            len == s@.len(),
            start <= end <= len,
            forall|j: int| end <= j < len ==> spec_is_space(s@[j]),
        decreases end,
    {
        end = end - 1;
    }
    proof {
        lemma_trim_start_skip(s@, start as int);
        lemma_trim_end_take(s@.skip(start as int), end - start);
        assert(s@.skip(start as int).take(end - start) =~= s@.subrange(
            start as int,
            end as int,
        ));
    }
    s.substring_char(start, end)
}

/// Decide whether a character counts as whitespace.
fn is_space_char(c: char) -> (space: bool)
    ensures
        space == spec_is_space(c),
{
    c == ' ' || c == '\t' || c == '\n' || c == '\r'
}

/// `prefix` starts `s`.
pub open spec fn spec_starts_with(s: Seq<char>, prefix: Seq<char>) -> bool {
    prefix.len() <= s.len() && s.take(prefix.len() as int) == prefix
}

/// Decide whether `s` starts with `prefix`.
pub fn str_starts_with(s: &str, prefix: &str) -> (starts: bool)
    ensures
        starts == spec_starts_with(s@, prefix@),
{
    let s_len = s.unicode_len();
    let p_len = prefix.unicode_len();
    if p_len > s_len {
        proof {
            assert(!spec_starts_with(s@, prefix@));
        }
        return false;
    }
    let mut i: usize = 0;
    while i < p_len
        invariant
            s_len == s@.len(),
            p_len == prefix@.len(),
            p_len <= s_len,
            i <= p_len,
            forall|j: int| 0 <= j < i ==> s@[j] == prefix@[j],
        decreases p_len - i,
    {
        if s.get_char(i) != prefix.get_char(i) {
            proof {
                assert(s@.take(prefix@.len() as int)[i as int] != prefix@[i as int]);
            }
            return false;
        }
        i = i + 1;
    }
    proof {
        assert(s@.take(prefix@.len() as int) =~= prefix@);
    }
    true
}

} // verus!
