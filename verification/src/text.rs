//! Character-level text model: whitespace, lines, tokens, decimal digits and
//! substring search, each as a specification over `Seq<char>` together with
//! an executable counterpart over `Vec<char>`.

use vstd::prelude::*;

verus! {

/// The characters that carry the Unicode `White_Space` property.
pub open spec fn is_whitespace(c: char) -> bool {
    let n = c as u32;
    ||| 0x09 <= n <= 0x0D
    ||| n == 0x20
    ||| n == 0x85
    ||| n == 0xA0
    ||| n == 0x1680
    ||| 0x2000 <= n <= 0x200A
    ||| n == 0x2028
    ||| n == 0x2029
    ||| n == 0x202F
    ||| n == 0x205F
    ||| n == 0x3000
}

/// An ASCII decimal digit.
pub open spec fn is_digit(c: char) -> bool {
    0x30 <= c as u32 <= 0x39
}

/// The number that an ASCII decimal digit stands for.
pub open spec fn digit_value(c: char) -> nat {
    (c as u32 - 0x30) as nat
}

/// Every character of `s` is an ASCII decimal digit.
pub open spec fn all_digits(s: Seq<char>) -> bool {
    forall|i: int| 0 <= i < s.len() ==> is_digit(#[trigger] s[i])
}

/// The number written by a run of decimal digits, most significant first.
pub open spec fn digits_value(s: Seq<char>) -> nat
    decreases s.len(),
{
    if s.len() == 0 {
        0
    } else {
        digits_value(s.drop_last()) * 10 + digit_value(s.last())
    }
}

/// The index of the first character at or after `i` that is not whitespace,
/// or the length of `s` when only whitespace follows.
pub open spec fn skip_whitespace(s: Seq<char>, i: int) -> int
    decreases s.len() - i,
{
    if 0 <= i < s.len() && is_whitespace(s[i]) {
        skip_whitespace(s, i + 1)
    } else {
        i
    }
}

/// The index of the first whitespace character at or after `i`, or the
/// length of `s` when none follows.
pub open spec fn skip_token(s: Seq<char>, i: int) -> int
    decreases s.len() - i,
{
    if 0 <= i < s.len() && !is_whitespace(s[i]) {
        skip_token(s, i + 1)
    } else {
        i
    }
}

/// `s` without its leading whitespace.
pub open spec fn trim_start(s: Seq<char>) -> Seq<char> {
    s.skip(skip_whitespace(s, 0))
}

/// The first whitespace-delimited token of `s`; empty when `s` holds only
/// whitespace.
pub open spec fn first_token(s: Seq<char>) -> Seq<char> {
    let from = skip_whitespace(s, 0);
    s.subrange(from, skip_token(s, from))
}

/// The index just behind the last character of `s` that is not whitespace,
/// looking at the first `n` characters only.
pub open spec fn trim_end_len(s: Seq<char>, n: int) -> int
    decreases n,
{
    if 0 < n <= s.len() && is_whitespace(s[n - 1]) {
        trim_end_len(s, n - 1)
    } else {
        n
    }
}

/// `s` without its leading and trailing whitespace.
pub open spec fn trim(s: Seq<char>) -> Seq<char> {
    let from = skip_whitespace(s, 0);
    let to = trim_end_len(s, s.len() as int);
    if from <= to {
        s.subrange(from, to)
    } else {
        Seq::empty()
    }
}

/// `s` holds nothing but whitespace.
pub open spec fn is_blank(s: Seq<char>) -> bool {
    skip_whitespace(s, 0) >= s.len()
}

/// `needle` occurs in `hay` as a contiguous run starting at index `at`.
pub open spec fn occurs_at(hay: Seq<char>, needle: Seq<char>, at: int) -> bool {
    &&& 0 <= at
    &&& at + needle.len() <= hay.len()
    &&& hay.subrange(at, at + needle.len()) == needle
}

/// `needle` occurs somewhere in `hay`. The empty needle occurs in every text.
pub open spec fn contains(hay: Seq<char>, needle: Seq<char>) -> bool {
    exists|at: int| occurs_at(hay, needle, at)
}

/// The index of the first line feed at or after `i`, or the length of `text`
/// when none follows.
pub open spec fn line_end(text: Seq<char>, i: int) -> int
    decreases text.len() - i,
{
    if 0 <= i < text.len() && text[i] != '\n' {
        line_end(text, i + 1)
    } else {
        i
    }
}

/// The content of the line that spans `start..end`, where `end` is the index
/// of its line feed or the end of the text: a carriage return directly in
/// front of the line feed belongs to the line ending.
pub open spec fn line_content(text: Seq<char>, start: int, end: int) -> Seq<char> {
    if start < end < text.len() && text[end - 1] == '\r' {
        text.subrange(start, end - 1)
    } else {
        text.subrange(start, end)
    }
}

/// The lines of `text` from index `start` on.
pub open spec fn lines_from(text: Seq<char>, start: int) -> Seq<Seq<char>>
    decreases text.len() + 1 - start,
{
    if 0 <= start < text.len() {
        let end = line_end(text, start);
        proof {
            lemma_line_end_bounds(text, start);
        }
        seq![line_content(text, start, end)] + lines_from(text, end + 1)
    } else {
        Seq::empty()
    }
}

/// The lines of `text`. A line ends at a line feed, or at a carriage return
/// followed by a line feed; the last line needs no line ending, and a text
/// that ends in one has no empty line behind it.
pub open spec fn lines_of(text: Seq<char>) -> Seq<Seq<char>> {
    lines_from(text, 0)
}

/// The character sequences that a vector of lines holds.
pub open spec fn line_views(lines: Seq<Vec<char>>) -> Seq<Seq<char>> {
    Seq::new(lines.len(), |i: int| lines[i]@)
}

/// The character sequences that a vector of strings holds.
pub open spec fn strings_view(strings: Seq<String>) -> Seq<Seq<char>> {
    Seq::new(strings.len(), |i: int| strings[i]@)
}

/// Reading an unsigned decimal integer of 32 bits: an optional `+`, then one
/// or more ASCII digits whose value fits.
pub open spec fn parse_u32(s: Seq<char>) -> Option<u32> {
    let body = if s.len() > 0 && s[0] == '+' {
        s.drop_first()
    } else {
        s
    };
    if body.len() > 0 && all_digits(body) && digits_value(body) <= u32::MAX {
        Some(digits_value(body) as u32)
    } else {
        None
    }
}

/// No character of `s` is a line feed.
pub open spec fn no_line_feed(s: Seq<char>) -> bool {
    forall|i: int| 0 <= i < s.len() ==> #[trigger] s[i] != '\n'
}

/// `s` is empty or ends in a line feed.
pub open spec fn ends_lines(s: Seq<char>) -> bool {
    s.len() == 0 || s.last() == '\n'
}

/// A line ends at or behind its start, within the text, at the first line
/// feed that follows.
pub proof fn lemma_line_end_bounds(text: Seq<char>, i: int)
    requires
        0 <= i <= text.len(),
    ensures
        i <= line_end(text, i) <= text.len(),
        line_end(text, i) < text.len() ==> text[line_end(text, i)] == '\n',
        forall|k: int| i <= k < line_end(text, i) ==> text[k] != '\n',
    decreases text.len() - i,
{
    if i < text.len() && text[i] != '\n' {
        lemma_line_end_bounds(text, i + 1);
    }
}

/// The value of a digit run grows with every digit appended to it.
pub proof fn lemma_digits_value_prefix(s: Seq<char>, n: int)
    requires
        0 <= n <= s.len(),
    ensures
        digits_value(s.take(n)) <= digits_value(s),
    decreases s.len() - n,
{
    if n < s.len() {
        lemma_digits_value_prefix(s, n + 1);
        assert(s.take(n + 1).drop_last() == s.take(n));
    } else {
        assert(s.take(n) == s);
    }
}

/// Where a line feed follows `i` in `a`, the line that starts at `i` ends at
/// the same place in `a + b`.
proof fn lemma_line_end_in_prefix(a: Seq<char>, b: Seq<char>, i: int, feed: int)
    requires
        0 <= i <= feed < a.len(),
        a[feed] == '\n',
    ensures
        line_end(a + b, i) == line_end(a, i),
        line_end(a, i) <= feed,
    decreases feed - i,
{
    assert((a + b)[i] == a[i]);
    if a[i] != '\n' {
        lemma_line_end_in_prefix(a, b, i + 1, feed);
    }
}

/// Behind `a`, the lines of `a + b` end where those of `b` end.
proof fn lemma_line_end_shift(a: Seq<char>, b: Seq<char>, k: int)
    requires
        0 <= k <= b.len(),
    ensures
        line_end(a + b, a.len() + k) == a.len() + line_end(b, k),
    decreases b.len() - k,
{
    if k < b.len() {
        assert((a + b)[a.len() + k] == b[k]);
        if b[k] != '\n' {
            lemma_line_end_shift(a, b, k + 1);
        }
    }
}

/// Behind `a`, the lines of `a + b` are those of `b`.
proof fn lemma_lines_from_shift(a: Seq<char>, b: Seq<char>, k: int)
    requires
        0 <= k <= b.len() + 1,
    ensures
        lines_from(a + b, a.len() + k) == lines_from(b, k),
    decreases b.len() + 1 - k,
{
    if k < b.len() {
        let text = a + b;
        let end = line_end(b, k);
        lemma_line_end_bounds(b, k);
        lemma_line_end_shift(a, b, k);
        if k < end {
            assert(text[a.len() + end - 1] == b[end - 1]);
        }
        assert(line_content(text, a.len() + k, a.len() + end) == line_content(b, k, end)) by {
            assert(text.subrange(a.len() + k, a.len() + end) == b.subrange(k, end));
            if k < end {
                assert(text.subrange(a.len() + k, a.len() + end - 1) == b.subrange(k, end - 1));
            }
        }
        lemma_lines_from_shift(a, b, end + 1);
    }
}

/// In front of `b`, the lines of `a + b` from `start` on are those of `a`,
/// where `a` ends in a line feed.
proof fn lemma_lines_from_prefix(a: Seq<char>, b: Seq<char>, start: int)
    requires
        0 <= start <= a.len(),
        ends_lines(a),
    ensures
        lines_from(a + b, start) == lines_from(a, start) + lines_of(b),
    decreases a.len() - start,
{
    let text = a + b;
    if start == a.len() {
        lemma_lines_from_shift(a, b, 0);
        assert(lines_from(a, start) + lines_of(b) == lines_of(b));
    } else {
        let end = line_end(a, start);
        lemma_line_end_in_prefix(a, b, start, a.len() - 1);
        lemma_line_end_bounds(a, start);
        assert(line_content(text, start, end) == line_content(a, start, end)) by {
            assert(text.subrange(start, end) == a.subrange(start, end));
            if start < end {
                assert(text[end - 1] == a[end - 1]);
                assert(text.subrange(start, end - 1) == a.subrange(start, end - 1));
            }
        }
        lemma_lines_from_prefix(a, b, end + 1);
        assert(seq![line_content(a, start, end)] + (lines_from(a, end + 1) + lines_of(b)) == (
        seq![line_content(a, start, end)] + lines_from(a, end + 1)) + lines_of(b));
    }
}

/// The lines of two texts put together are the lines of the first, then the
/// lines of the second, where the first is empty or ends in a line feed.
pub proof fn lemma_lines_of_concat(a: Seq<char>, b: Seq<char>)
    requires
        ends_lines(a),
    ensures
        lines_of(a + b) == lines_of(a) + lines_of(b),
{
    lemma_lines_from_prefix(a, b, 0);
}

/// A text without line feed that does not end in a carriage return, followed
/// by a line feed, is one line.
pub proof fn lemma_lines_of_single(body: Seq<char>)
    requires
        no_line_feed(body),
        body.len() > 0 ==> body.last() != '\r',
    ensures
        lines_of(body + seq!['\n']) == seq![body],
{
    let text = body + seq!['\n'];
    lemma_line_end_bounds(text, 0);
    let end = line_end(text, 0);
    if end < body.len() {
        assert(text[end] == body[end]);
    }
    assert(text[body.len() as int] == '\n');
    assert(end == body.len());
    assert(text.subrange(0, end) == body);
    if 0 < end {
        assert(text[end - 1] == body.last());
    }
    assert(lines_from(text, end + 1) == Seq::<Seq<char>>::empty());
    assert(seq![body] + Seq::<Seq<char>>::empty() == seq![body]);
}

/// Whether `c` is whitespace.
pub fn char_is_whitespace(c: char) -> (b: bool)
    ensures
        b == is_whitespace(c),
{
    let n: u32 = c as u32;
    (0x09 <= n && n <= 0x0D) || n == 0x20 || n == 0x85 || n == 0xA0 || n == 0x1680 || (0x2000 <= n
        && n <= 0x200A) || n == 0x2028 || n == 0x2029 || n == 0x202F || n == 0x205F || n == 0x3000
}

/// Whether `c` is an ASCII decimal digit.
pub fn char_is_digit(c: char) -> (b: bool)
    ensures
        b == is_digit(c),
{
    let n: u32 = c as u32;
    0x30 <= n && n <= 0x39
}

/// The characters of a string slice, in order.
pub fn chars_of(s: &str) -> (v: Vec<char>)
    ensures
        v@ == s@,
{
    let mut v: Vec<char> = Vec::new();
    for c in it: s.chars()
        invariant
            v@ == it.seq().take(it.index() as int),
            it.seq() == s@,
    {
        v.push(c);
    }
    v
}

/// A copy of the characters `from..to` of `s`.
pub(crate) fn copy_range(s: &Vec<char>, from: usize, to: usize) -> (v: Vec<char>)
    requires
        from <= to <= s.len(),
    ensures
        v@ == s@.subrange(from as int, to as int),
{
    let mut v: Vec<char> = Vec::new();
    let mut i: usize = from;
    while i < to
        invariant
            from <= i <= to <= s.len(),
            v@ == s@.subrange(from as int, i as int),
        decreases to - i,
    {
        v.push(s[i]);
        i += 1;
    }
    v
}

/// The index of the first character at or after `i` that is not whitespace.
pub(crate) fn scan_whitespace(s: &Vec<char>, i: usize) -> (j: usize)
    requires
        i <= s.len(),
    ensures
        j == skip_whitespace(s@, i as int),
        i <= j <= s.len(),
{
    let mut j: usize = i;
    while j < s.len() && char_is_whitespace(s[j])
        invariant
            i <= j <= s.len(),
            skip_whitespace(s@, i as int) == skip_whitespace(s@, j as int),
        decreases s.len() - j,
    {
        j += 1;
    }
    j
}

/// The index just behind the last character among the first `n` of `s` that
/// is not whitespace.
pub(crate) fn scan_trailing_whitespace(s: &Vec<char>, n: usize) -> (j: usize)
    requires
        n <= s.len(),
    ensures
        j == trim_end_len(s@, n as int),
        j <= n,
{
    let mut j: usize = n;
    while j > 0 && char_is_whitespace(s[j - 1])
        invariant
            j <= n <= s.len(),
            trim_end_len(s@, n as int) == trim_end_len(s@, j as int),
        decreases j,
    {
        j -= 1;
    }
    j
}

/// The index of the first whitespace character at or after `i`.
pub(crate) fn scan_token(s: &Vec<char>, i: usize) -> (j: usize)
    requires
        i <= s.len(),
    ensures
        j == skip_token(s@, i as int),
        i <= j <= s.len(),
{
    let mut j: usize = i;
    while j < s.len() && !char_is_whitespace(s[j])
        invariant
            i <= j <= s.len(),
            skip_token(s@, i as int) == skip_token(s@, j as int),
        decreases s.len() - j,
    {
        j += 1;
    }
    j
}

/// The index of the first line feed at or after `i`.
pub(crate) fn scan_line(text: &Vec<char>, i: usize) -> (j: usize)
    requires
        i <= text.len(),
    ensures
        j == line_end(text@, i as int),
        i <= j <= text.len(),
{
    let mut j: usize = i;
    while j < text.len() && text[j] != '\n'
        invariant
            i <= j <= text.len(),
            line_end(text@, i as int) == line_end(text@, j as int),
        decreases text.len() - j,
    {
        j += 1;
    }
    j
}

/// The lines of `text`, each as a vector of its own.
pub fn split_lines(text: &Vec<char>) -> (lines: Vec<Vec<char>>)
    ensures
        line_views(lines@) == lines_of(text@),
{
    let mut lines: Vec<Vec<char>> = Vec::new();
    let mut start: usize = 0;
    while start < text.len()
        invariant
            start <= text.len(),
            lines_of(text@) == line_views(lines@) + lines_from(text@, start as int),
        decreases text.len() - start,
    {
        let end = scan_line(text, start);
        let stop = if start < end && end < text.len() && text[end - 1] == '\r' {
            end - 1
        } else {
            end
        };
        let line = copy_range(text, start, stop);
        proof {
            assert(line_views(lines@.push(line)) == line_views(lines@).push(line@));
            assert(line_views(lines@).push(line@) + lines_from(text@, end + 1) == line_views(
                lines@,
            ) + (seq![line@] + lines_from(text@, end + 1)));
        }
        lines.push(line);
        if end == text.len() {
            return lines;
        }
        start = end + 1;
    }
    lines
}

/// Whether `needle` occurs in `hay` at index `at`.
pub(crate) fn matches_at(hay: &Vec<char>, needle: &Vec<char>, at: usize) -> (found: bool)
    requires
        at + needle.len() <= hay.len(),
    ensures
        found == occurs_at(hay@, needle@, at as int),
{
    let mut k: usize = 0;
    while k < needle.len()
        invariant
            k <= needle.len(),
            at + needle.len() <= hay.len(),
            forall|j: int| 0 <= j < k ==> hay@[at + j] == needle@[j],
        decreases needle.len() - k,
    {
        if hay[at + k] != needle[k] {
            proof {
                let window = hay@.subrange(at as int, at + needle.len());
                assert(window[k as int] == hay@[at + k]);
            }
            return false;
        }
        k += 1;
    }
    assert(hay@.subrange(at as int, at + needle.len()) =~= needle@);
    true
}

/// Whether `needle` occurs in `hay` at or after index `from`.
pub(crate) fn contains_from(hay: &Vec<char>, from: usize, needle: &Vec<char>) -> (found: bool)
    requires
        from <= hay.len(),
    ensures
        found == contains(hay@.skip(from as int), needle@),
{
    let ghost tail = hay@.skip(from as int);
    if hay.len() - from < needle.len() {
        return false;
    }
    let last: usize = hay.len() - needle.len();
    let mut at: usize = from;
    loop
        invariant
            from <= at <= last,
            last == hay.len() - needle.len(),
            tail == hay@.skip(from as int),
            forall|k: int| 0 <= k < at - from ==> !occurs_at(tail, needle@, k),
        decreases last - at,
    {
        let hit = matches_at(hay, needle, at);
        proof {
            assert(tail.subrange(at - from, at - from + needle.len()) == hay@.subrange(
                at as int,
                at + needle.len(),
            ));
        }
        if hit {
            assert(occurs_at(tail, needle@, at - from));
            return true;
        }
        if at == last {
            return false;
        }
        at += 1;
    }
}

/// Whether the characters `from..to` of `s` are all decimal digits.
pub(crate) fn digits_only(s: &Vec<char>, from: usize, to: usize) -> (ok: bool)
    requires
        from <= to <= s.len(),
    ensures
        ok == all_digits(s@.subrange(from as int, to as int)),
{
    let ghost run = s@.subrange(from as int, to as int);
    let mut i: usize = from;
    while i < to
        invariant
            from <= i <= to <= s.len(),
            run == s@.subrange(from as int, to as int),
            forall|k: int| 0 <= k < i - from ==> is_digit(#[trigger] run[k]),
        decreases to - i,
    {
        if !char_is_digit(s[i]) {
            assert(run[i - from] == s@[i as int]);
            return false;
        }
        i += 1;
    }
    true
}

/// The value of the digit run `from..to` of `s`, where it is at most `limit`.
pub(crate) fn read_digits(s: &Vec<char>, from: usize, to: usize, limit: u64) -> (value: Option<
    u64,
>)
    requires
        from <= to <= s.len(),
        limit <= 0xFFFF_FFFF_FFFF,
        all_digits(s@.subrange(from as int, to as int)),
    ensures
        value == (if digits_value(s@.subrange(from as int, to as int)) <= limit {
            Some(digits_value(s@.subrange(from as int, to as int)) as u64)
        } else {
            None
        }),
{
    let ghost run = s@.subrange(from as int, to as int);
    let mut acc: u64 = 0;
    let mut i: usize = from;
    while i < to
        invariant
            from <= i <= to <= s.len(),
            run == s@.subrange(from as int, to as int),
            all_digits(run),
            acc == digits_value(run.take(i - from)),
            acc <= limit <= 0xFFFF_FFFF_FFFF,
        decreases to - i,
    {
        let c = s[i];
        let ghost next = run.take(i - from + 1);
        proof {
            assert(run[i - from] == c);
            assert(next.drop_last() == run.take(i - from));
            assert(next.last() == c);
        }
        let d: u64 = (c as u32 - 0x30) as u64;
        acc = acc * 10 + d;
        if acc > limit {
            proof {
                lemma_digits_value_prefix(run, i - from + 1);
            }
            return None;
        }
        i += 1;
    }
    assert(run.take(to - from) == run);
    Some(acc)
}

/// Reads an unsigned decimal integer of 32 bits from the characters
/// `from..to` of `s`.
pub(crate) fn read_u32(s: &Vec<char>, from: usize, to: usize) -> (value: Option<u32>)
    requires
        from <= to <= s.len(),
    ensures
        value == parse_u32(s@.subrange(from as int, to as int)),
{
    let ghost token = s@.subrange(from as int, to as int);
    let first: usize = if from < to && s[from] == '+' {
        from + 1
    } else {
        from
    };
    proof {
        let body = s@.subrange(first as int, to as int);
        if first == from {
            assert(body == token);
            assert(token.len() > 0 ==> token[0] != '+');
        } else {
            assert(token[0] == '+');
            assert(body == token.drop_first());
        }
    }
    if first == to || !digits_only(s, first, to) {
        return None;
    }
    match read_digits(s, first, to, 0xFFFF_FFFF) {
        Some(value) => Some(value as u32),
        None => None,
    }
}

} // verus!
