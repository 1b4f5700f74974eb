//! Small operations on text that the rules in this crate are stated with.

use vstd::prelude::*;
use vstd::std_specs::iter::IteratorSpec;
use vstd::string::*;

verus! {

/// The characters of `s`, in order.
pub fn chars_of(s: &str) -> (v: Vec<char>)
    ensures
        v@ == s@,
{
    broadcast use axiom_spec_iter, next_postcondition;

    let mut v: Vec<char> = Vec::new();
    let mut it = s.chars();
    loop
        invariant
            it.obeys_prophetic_iter_laws(),
            it.decrease() is Some,
            v@ + it.remaining() == s@,
        decreases it.decrease()->0,
    {
        let ghost before = it;
        match it.next() {
            Some(c) => {
                proof {
                    assert(v@.push(c) + before.remaining().drop_first() =~= v@
                        + before.remaining());
                }
                v.push(c);
            },
            None => {
                proof {
                    assert(it.remaining().len() == 0);
                    assert(v@ + it.remaining() =~= v@);
                }
                return v;
            },
        }
    }
}

/// The character for one decimal digit.
pub open spec fn digit_char(d: nat) -> char {
    if d == 0 {
        '0'
    } else if d == 1 {
        '1'
    } else if d == 2 {
        '2'
    } else if d == 3 {
        '3'
    } else if d == 4 {
        '4'
    } else if d == 5 {
        '5'
    } else if d == 6 {
        '6'
    } else if d == 7 {
        '7'
    } else if d == 8 {
        '8'
    } else {
        '9'
    }
}

/// The decimal numeral of `n`, without sign or leading zeros.
pub open spec fn decimal(n: nat) -> Seq<char>
    decreases n,
{
    if n < 10 {
        seq![digit_char(n)]
    } else {
        decimal(n / 10).push(digit_char(n % 10))
    }
}

fn digit_str(d: u64) -> (s: &'static str)
    requires
        d < 10,
    ensures
        s@ == seq![digit_char(d as nat)],
{
    proof {
        reveal_strlit("0");
        reveal_strlit("1");
        reveal_strlit("2");
        reveal_strlit("3");
        reveal_strlit("4");
        reveal_strlit("5");
        reveal_strlit("6");
        reveal_strlit("7");
        reveal_strlit("8");
        reveal_strlit("9");
    }
    let s = match d {
        0 => "0",
        1 => "1",
        2 => "2",
        3 => "3",
        4 => "4",
        5 => "5",
        6 => "6",
        7 => "7",
        8 => "8",
        _ => "9",
    };
    assert(s@ =~= seq![digit_char(d as nat)]);
    s
}

/// Writes `n` in decimal.
pub fn decimal_string(n: u64) -> (s: String)
    ensures
        s@ == decimal(n as nat),
    decreases n,
{
    if n < 10 {
        String::from_str(digit_str(n))
    } else {
        let head = decimal_string(n / 10);
        let digit = digit_str(n % 10);
        let s = head.concat(digit);
        assert(s@ =~= decimal((n / 10) as nat).push(digit_char((n % 10) as nat)));
        s
    }
}

/// `s` without the run of `c` at its end.
pub open spec fn trim_end(s: Seq<char>, c: char) -> Seq<char>
    decreases s.len(),
{
    if s.len() > 0 && s.last() == c {
        trim_end(s.drop_last(), c)
    } else {
        s
    }
}

/// What is left of `s` has no `c` at its end, and only `c` was taken away.
pub proof fn lemma_trim_end(s: Seq<char>, c: char)
    ensures
        trim_end(s, c).len() <= s.len(),
        trim_end(s, c) == s.take(trim_end(s, c).len() as int),
        trim_end(s, c).len() > 0 ==> trim_end(s, c).last() != c,
        forall|i: int| trim_end(s, c).len() <= i < s.len() ==> #[trigger] s[i] == c,
    decreases s.len(),
{
    if s.len() > 0 && s.last() == c {
        lemma_trim_end(s.drop_last(), c);
        let n = trim_end(s, c).len() as int;
        assert(s.drop_last().take(n) =~= s.take(n));
        assert forall|i: int| n <= i < s.len() implies s[i] == c by {
            if i < s.len() - 1 {
                assert(s.drop_last()[i] == s[i]);
            }
        }
    } else {
        assert(s.take(s.len() as int) =~= s);
    }
}

/// The length of `chars[..len]` without the run of `c` at its end.
fn trim_end_len(chars: &Vec<char>, len: usize, c: char) -> (n: usize)
    requires
        len <= chars.len(),
    ensures
        n <= len,
        chars@.take(n as int) == trim_end(chars@.take(len as int), c),
{
    let mut n = len;
    while n > 0 && chars[n - 1] == c
        invariant
            n <= len <= chars.len(),
            trim_end(chars@.take(n as int), c) == trim_end(chars@.take(len as int), c),
        decreases n,
    {
        assert(chars@.take(n as int).drop_last() =~= chars@.take(n - 1));
        n -= 1;
    }
    n
}

/// `s` without the run of `c` at its end, as text.
pub fn trim_end_matches(s: &str, c: char) -> (t: String)
    ensures
        t@ == trim_end(s@, c),
{
    let chars = chars_of(s);
    let n = trim_end_len(&chars, chars.len(), c);
    assert(chars@.take(chars.len() as int) =~= chars@);
    String::from_str(s.substring_char(0, n))
}

/// The last character of `s` is `c`.
pub open spec fn ends_with(s: Seq<char>, c: char) -> bool {
    s.len() > 0 && s.last() == c
}

pub fn ends_with_char(s: &str, c: char) -> (b: bool)
    ensures
        b == ends_with(s@, c),
{
    let n = s.unicode_len();
    n > 0 && s.get_char(n - 1) == c
}

/// An ASCII capital as its small letter; any other character unchanged.
pub open spec fn ascii_lower(c: char) -> char {
    if 'A' <= c && c <= 'Z' {
        ((c as u8) + 32) as char
    } else {
        c
    }
}

pub fn to_ascii_lower(c: char) -> (l: char)
    ensures
        l == ascii_lower(c),
{
    if 'A' <= c && c <= 'Z' {
        ((c as u8) + 32) as char
    } else {
        c
    }
}

/// `a` and `b` are equal but for the case of ASCII letters.
pub open spec fn eq_ignore_case(a: Seq<char>, b: Seq<char>) -> bool {
    a.len() == b.len() && forall|i: int|
        0 <= i < a.len() ==> ascii_lower(#[trigger] a[i]) == ascii_lower(b[i])
}

/// Compares `a[from..]` with `b`, ignoring the case of ASCII letters.
fn tail_eq_ignore_case(a: &Vec<char>, from: usize, b: &Vec<char>) -> (eq: bool)
    requires
        from <= a.len(),
    ensures
        eq == eq_ignore_case(a@.skip(from as int), b@),
{
    if a.len() - from != b.len() {
        return false;
    }
    let mut i: usize = 0;
    while i < b.len()
        invariant
            i <= b.len(),
            from + b.len() == a.len(),
            forall|j: int|
                0 <= j < i ==> ascii_lower(#[trigger] a@.skip(from as int)[j]) == ascii_lower(
                    b[j],
                ),
        decreases b.len() - i,
    {
        if to_ascii_lower(a[from + i]) != to_ascii_lower(b[i]) {
            assert(a@.skip(from as int)[i as int] == a[from + i]);
            return false;
        }
        assert(a@.skip(from as int)[i as int] == a[from + i]);
        i += 1;
    }
    true
}

/// The position of the last `.` in `name`, if it has one.
pub open spec fn last_dot(name: Seq<char>) -> Option<int>
    decreases name.len(),
{
    if name.len() == 0 {
        None
    } else if name.last() == '.' {
        Some(name.len() - 1)
    } else {
        last_dot(name.drop_last())
    }
}

/// The extension of a file name: what follows its last `.`, unless the name
/// has no `.`, has its only `.` in front, or is `..`.
pub open spec fn extension_of(name: Seq<char>) -> Option<Seq<char>> {
    if name == seq!['.', '.'] {
        None
    } else {
        match last_dot(name) {
            Some(i) => if i > 0 {
                Some(name.skip(i + 1))
            } else {
                None
            },
            None => None,
        }
    }
}

/// The file name has the extension `ext`, whatever the case of its ASCII
/// letters.
pub open spec fn has_extension(name: Seq<char>, ext: Seq<char>) -> bool {
    match extension_of(name) {
        Some(found) => eq_ignore_case(found, ext),
        None => false,
    }
}

fn find_last_dot(name: &Vec<char>) -> (found: Option<usize>)
    ensures
        match found {
            Some(i) => i < name.len() && last_dot(name@) == Some(i as int),
            None => last_dot(name@) is None,
        },
{
    let mut n = name.len();
    assert(name@.take(n as int) =~= name@);
    while n > 0
        invariant
            n <= name.len(),
            last_dot(name@.take(n as int)) == last_dot(name@),
        decreases n,
    {
        if name[n - 1] == '.' {
            return Some(n - 1);
        }
        assert(name@.take(n as int).drop_last() =~= name@.take(n - 1));
        n -= 1;
    }
    None
}

/// Tests a file name, given as its characters, for the extension `ext`.
pub fn name_has_extension(name: &Vec<char>, ext: &Vec<char>) -> (b: bool)
    ensures
        b == has_extension(name@, ext@),
{
    if name.len() == 2 && name[0] == '.' && name[1] == '.' {
        assert(name@ =~= seq!['.', '.']);
        return false;
    }
    match find_last_dot(name) {
        Some(i) => {
            if i > 0 {
                tail_eq_ignore_case(name, i + 1, ext)
            } else {
                false
            }
        },
        None => false,
    }
}

/// The characters with the Unicode property `White_Space`.
pub open spec fn is_whitespace(c: char) -> bool {
    let n = c as u32;
    ||| 0x09 <= n <= 0x0D
    ||| n == 0x20
    ||| n == 0x85
    ||| n == 0xA0
    ||| n == 0x1680
    ||| 0x2000 <= n <= 0x200A
    ||| n == 0x2028
    ||| n == 0x2029
    ||| n == 0x202F
    ||| n == 0x205F
    ||| n == 0x3000
}

#[verifier::when_used_as_spec(is_whitespace)]
pub fn char_is_whitespace(c: char) -> (b: bool)
    ensures
        b == is_whitespace(c),
{
    let n = c as u32;
    (0x09 <= n && n <= 0x0D) || n == 0x20 || n == 0x85 || n == 0xA0 || n == 0x1680 || (0x2000 <= n
        && n <= 0x200A) || n == 0x2028 || n == 0x2029 || n == 0x202F || n == 0x205F || n
        == 0x3000
}

/// `s` holds nothing but white space.
pub open spec fn is_blank(s: Seq<char>) -> bool {
    forall|i: int| 0 <= i < s.len() ==> is_whitespace(#[trigger] s[i])
}

/// `pattern` stands in `s` at position `at`.
pub open spec fn occurs_at(s: Seq<char>, pattern: Seq<char>, at: int) -> bool {
    0 <= at && at + pattern.len() <= s.len() && s.subrange(at, at + pattern.len()) == pattern
}

/// `pattern` stands somewhere in `s`.
pub open spec fn contains(s: Seq<char>, pattern: Seq<char>) -> bool {
    exists|at: int| occurs_at(s, pattern, at)
}

fn range_is_blank(chars: &Vec<char>, lo: usize, hi: usize) -> (b: bool)
    requires
        lo <= hi <= chars.len(),
    ensures
        b == is_blank(chars@.subrange(lo as int, hi as int)),
{
    let ghost line = chars@.subrange(lo as int, hi as int);
    let mut i = lo;
    while i < hi
        invariant
            lo <= i <= hi <= chars.len(),
            line == chars@.subrange(lo as int, hi as int),
            forall|j: int| 0 <= j < i - lo ==> is_whitespace(#[trigger] line[j]),
        decreases hi - i,
    {
        if !char_is_whitespace(chars[i]) {
            assert(line[i - lo] == chars[i as int]);
            return false;
        }
        assert(line[i - lo] == chars[i as int]);
        i += 1;
    }
    true
}

fn range_matches(chars: &Vec<char>, lo: usize, hi: usize, pattern: &Vec<char>, at: usize) -> (b:
    bool)
    requires
        lo <= hi <= chars.len(),
        lo + at + pattern.len() <= hi,
    ensures
        b == occurs_at(chars@.subrange(lo as int, hi as int), pattern@, at as int),
{
    let ghost line = chars@.subrange(lo as int, hi as int);
    let ghost piece = line.subrange(at as int, at + pattern.len());
    let mut k: usize = 0;
    while k < pattern.len()
        invariant
            k <= pattern.len(),
            lo <= hi <= chars.len(),
            lo + at + pattern.len() <= hi,
            line == chars@.subrange(lo as int, hi as int),
            piece == line.subrange(at as int, at + pattern.len()),
            forall|j: int| 0 <= j < k ==> #[trigger] piece[j] == pattern[j],
        decreases pattern.len() - k,
    {
        assert(piece[k as int] == chars[lo + at + k]);
        if chars[lo + at + k] != pattern[k] {
            return false;
        }
        k += 1;
    }
    assert(piece =~= pattern@);
    true
}

fn range_contains(chars: &Vec<char>, lo: usize, hi: usize, pattern: &Vec<char>) -> (b: bool)
    requires
        lo <= hi <= chars.len(),
    ensures
        b == contains(chars@.subrange(lo as int, hi as int), pattern@),
{
    let ghost line = chars@.subrange(lo as int, hi as int);
    if pattern.len() > hi - lo {
        assert(!contains(line, pattern@));
        return false;
    }
    let last = hi - lo - pattern.len();
    let mut at: usize = 0;
    loop
        invariant
            lo <= hi <= chars.len(),
            pattern.len() <= hi - lo,
            last == hi - lo - pattern.len(),
            at <= last,
            line == chars@.subrange(lo as int, hi as int),
            forall|j: int| 0 <= j < at ==> !occurs_at(line, pattern@, j),
        decreases last - at,
    {
        if range_matches(chars, lo, hi, pattern, at) {
            return true;
        }
        if at == last {
            assert(!contains(line, pattern@));
            return false;
        }
        at += 1;
    }
}

/// The position of the first line feed in `s` at or after `from`, or the
/// length of `s` if there is none.
pub open spec fn next_newline(s: Seq<char>, from: int) -> int
    decreases s.len() - from,
{
    if from < 0 || from >= s.len() {
        s.len() as int
    } else if s[from] == '\n' {
        from
    } else {
        next_newline(s, from + 1)
    }
}

/// The line of `s` that starts at `from` and ends before `end`: without its
/// line feed, and without the carriage return before the line feed. A last
/// line that no line feed ends is kept as it is.
pub open spec fn line_at(s: Seq<char>, from: int, end: int) -> Seq<char> {
    if end < s.len() && from < end && s[end - 1] == '\r' {
        s.subrange(from, end - 1)
    } else {
        s.subrange(from, end)
    }
}

/// A line that says something: it is not blank and does not hold `noise`.
pub open spec fn is_essential(line: Seq<char>, noise: Seq<char>) -> bool {
    !is_blank(line) && !contains(line, noise)
}

/// The first line of `s`, from `from` on, that says something.
pub open spec fn first_essential(s: Seq<char>, from: int, noise: Seq<char>) -> Option<Seq<char>>
    decreases s.len() - from,
{
    if from < 0 || from >= s.len() {
        None
    } else {
        let end = next_newline(s, from);
        let line = line_at(s, from, end);
        if is_essential(line, noise) {
            Some(line)
        } else if from <= end < s.len() {
            first_essential(s, end + 1, noise)
        } else {
            None
        }
    }
}

fn find_newline(chars: &Vec<char>, from: usize) -> (end: usize)
    requires
        from <= chars.len(),
    ensures
        from <= end <= chars.len(),
        end == next_newline(chars@, from as int),
{
    let mut end = from;
    while end < chars.len() && chars[end] != '\n'
        invariant
            from <= end <= chars.len(),
            next_newline(chars@, end as int) == next_newline(chars@, from as int),
        decreases chars.len() - end,
    {
        end += 1;
    }
    end
}

/// The first line of `text` that is not blank and does not hold `noise`, or
/// `None` where no line is such.
pub fn first_essential_line(text: &str, noise: &str) -> (line: Option<String>)
    ensures
        match first_essential(text@, 0, noise@) {
            Some(found) => line is Some && line->0@ == found,
            None => line is None,
        },
{
    let chars = chars_of(text);
    let pattern = chars_of(noise);
    let mut from: usize = 0;
    while from < chars.len()
        invariant
            from <= chars.len(),
            chars@ == text@,
            pattern@ == noise@,
            first_essential(chars@, from as int, pattern@) == first_essential(
                chars@,
                0,
                pattern@,
            ),
        decreases chars.len() - from,
    {
        let end = find_newline(&chars, from);
        let stop = if end < chars.len() && from < end && chars[end - 1] == '\r' {
            end - 1
        } else {
            end
        };
        assert(chars@.subrange(from as int, stop as int) == line_at(
            chars@,
            from as int,
            end as int,
        ));
        if !range_is_blank(&chars, from, stop) && !range_contains(&chars, from, stop, &pattern) {
            return Some(String::from_str(text.substring_char(from, stop)));
        }
        if end >= chars.len() {
            return None;
        }
        from = end + 1;
    }
    None
}

/// `s` in capitals, as the standard library's `str::to_uppercase` gives it.
pub uninterp spec fn uppercase_of(s: Seq<char>) -> Seq<char>;

/// Calls `str::to_uppercase`. The contract only gives its result a name: the
/// conversion follows the Unicode tables, which are not restated here.
#[verifier::external_body]
pub(crate) fn to_uppercase(s: &str) -> (upper: String)
    ensures
        upper@ == uppercase_of(s@),
{
    s.to_uppercase()
}

} // verus!
