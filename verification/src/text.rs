//! Character-level text utilities used by the diagnostic scrapers.
//!
//! Every function here works on a slice of characters and is specified over
//! the corresponding `Seq<char>`.

use vstd::prelude::*;
use vstd::slice::{slice_subrange, slice_to_vec};

verus! {

/// `needle` occurs in `hay` starting at position `i`.
pub open spec fn matches_at(hay: Seq<char>, needle: Seq<char>, i: int) -> bool {
    &&& 0 <= i
    &&& i + needle.len() <= hay.len()
    &&& hay.subrange(i, i + needle.len()) == needle
}

/// `needle` occurs somewhere in `hay`.
pub open spec fn contains(hay: Seq<char>, needle: Seq<char>) -> bool {
    exists|i: int| matches_at(hay, needle, i)
}

/// `i` is the leftmost position at which `needle` occurs in `hay`.
pub open spec fn is_first_match(hay: Seq<char>, needle: Seq<char>, i: int) -> bool {
    &&& matches_at(hay, needle, i)
    &&& forall|j: int| 0 <= j < i ==> !matches_at(hay, needle, j)
}

/// The leftmost position at which `needle` occurs in `hay`, if any.
pub open spec fn find(hay: Seq<char>, needle: Seq<char>) -> Option<int> {
    if contains(hay, needle) {
        Some(choose|i: int| is_first_match(hay, needle, i))
    } else {
        None
    }
}

/// A leftmost match is unique, so it is the one `find` reports.
pub proof fn lemma_find_is_first_match(hay: Seq<char>, needle: Seq<char>, i: int)
    requires
        is_first_match(hay, needle, i),
    ensures
        find(hay, needle) == Some(i),
{
    assert(matches_at(hay, needle, i));
    let c = choose|k: int| is_first_match(hay, needle, k);
    assert(is_first_match(hay, needle, c));
    if c < i {
        assert(!matches_at(hay, needle, c));
    }
    if i < c {
        assert(!matches_at(hay, needle, i));
    }
}

/// When `find` reports a position, it is the leftmost match.
pub proof fn lemma_find_some(hay: Seq<char>, needle: Seq<char>)
    requires
        contains(hay, needle),
    ensures
        find(hay, needle) is Some,
        is_first_match(hay, needle, find(hay, needle).unwrap()),
{
    let w = choose|i: int| matches_at(hay, needle, i);
    lemma_first_match_exists(hay, needle, w);
}

proof fn lemma_first_match_exists(hay: Seq<char>, needle: Seq<char>, w: int)
    requires
        matches_at(hay, needle, w),
    ensures
        exists|i: int| is_first_match(hay, needle, i),
    decreases w,
{
    if exists|j: int| 0 <= j < w && matches_at(hay, needle, j) {
        let j = choose|j: int| 0 <= j < w && matches_at(hay, needle, j);
        lemma_first_match_exists(hay, needle, j);
    } else {
        assert(is_first_match(hay, needle, w));
    }
}

/// Whether `needle` occurs in `hay` at position `i`.
pub fn starts_at(hay: &[char], needle: &[char], i: usize) -> (r: bool)
    ensures
        r == matches_at(hay@, needle@, i as int),
{
    if needle.len() > hay.len() || i > hay.len() - needle.len() {
        return false;
    }
    let mut k: usize = 0;
    while k < needle.len()
        invariant
            k <= needle.len(),
            i + needle.len() <= hay.len(),
            forall|t: int| 0 <= t < k ==> hay@[i + t] == needle@[t],
        decreases needle.len() - k,
    {
        if hay[i + k] != needle[k] {
            assert(hay@.subrange(i as int, i + needle@.len())[k as int] == hay@[i + k]);
            return false;
        }
        k += 1;
    }
    assert(hay@.subrange(i as int, i + needle@.len()) =~= needle@);
    true
}

/// Leftmost position of `needle` in `hay`.
pub fn find_in(hay: &[char], needle: &[char]) -> (r: Option<usize>)
    ensures
        r.is_some() == find(hay@, needle@).is_some(),
        r matches Some(i) ==> find(hay@, needle@) == Some(i as int) && is_first_match(
            hay@,
            needle@,
            i as int,
        ),
{
    if needle.len() > hay.len() {
        assert(forall|j: int| !matches_at(hay@, needle@, j));
        return None;
    }
    let last: usize = hay.len() - needle.len();
    let mut i: usize = 0;
    loop
        invariant
            last == hay.len() - needle.len(),
            i <= last,
            forall|j: int| 0 <= j < i ==> !matches_at(hay@, needle@, j),
        decreases last - i,
    {
        if starts_at(hay, needle, i) {
            proof {
                lemma_find_is_first_match(hay@, needle@, i as int);
            }
            return Some(i);
        }
        if i == last {
            assert(forall|j: int| !matches_at(hay@, needle@, j));
            return None;
        }
        i += 1;
    }
}

/// Whether `needle` occurs in `hay`.
pub fn contains_in(hay: &[char], needle: &[char]) -> (r: bool)
    ensures
        r == contains(hay@, needle@),
{
    find_in(hay, needle).is_some()
}

/// The characters that Unicode gives the `White_Space` property.
pub open spec fn is_whitespace(c: char) -> bool {
    ||| ('\u{9}' <= c && c <= '\u{D}')
    ||| c == ' '
    ||| c == '\u{85}'
    ||| c == '\u{A0}'
    ||| c == '\u{1680}'
    ||| ('\u{2000}' <= c && c <= '\u{200A}')
    ||| c == '\u{2028}'
    ||| c == '\u{2029}'
    ||| c == '\u{202F}'
    ||| c == '\u{205F}'
    ||| c == '\u{3000}'
}

/// `s` without its leading whitespace.
pub open spec fn trim_start(s: Seq<char>) -> Seq<char>
    decreases s.len(),
{
    if s.len() > 0 && is_whitespace(s.first()) {
        trim_start(s.drop_first())
    } else {
        s
    }
}

/// `s` without its trailing whitespace.
pub open spec fn trim_end(s: Seq<char>) -> Seq<char>
    decreases s.len(),
{
    if s.len() > 0 && is_whitespace(s.last()) {
        trim_end(s.drop_last())
    } else {
        s
    }
}

/// `s` without leading and trailing whitespace.
pub open spec fn trim(s: Seq<char>) -> Seq<char> {
    trim_end(trim_start(s))
}

/// Whether `c` is a whitespace character.
pub fn is_space(c: char) -> (r: bool)
    ensures
        r == is_whitespace(c),
{
    (c >= '\u{9}' && c <= '\u{D}') || c == ' ' || c == '\u{85}' || c == '\u{A0}' || c
        == '\u{1680}' || (c >= '\u{2000}' && c <= '\u{200A}') || c == '\u{2028}' || c
        == '\u{2029}' || c == '\u{202F}' || c == '\u{205F}' || c == '\u{3000}'
}

/// The part of `s` that remains after leading and trailing whitespace is removed.
pub fn trim_slice(s: &[char]) -> (r: &[char])
    ensures
        r@ == trim(s@),
{
    let n: usize = s.len();
    let mut lo: usize = 0;
    assert(s@.skip(0) =~= s@);
    while lo < n && is_space(s[lo])
        invariant
            n == s@.len(),
            lo <= n,
            trim_start(s@) == trim_start(s@.skip(lo as int)),
        decreases n - lo,
    {
        assert(s@.skip(lo as int).drop_first() =~= s@.skip(lo + 1));
        lo += 1;
    }
    assert(s@.skip(lo as int) =~= s@.subrange(lo as int, n as int));
    let mut hi: usize = n;
    while hi > lo && is_space(s[hi - 1])
        invariant
            lo <= hi <= n,
            n == s@.len(),
            trim(s@) == trim_end(s@.subrange(lo as int, hi as int)),
        decreases hi,
    {
        assert(s@.subrange(lo as int, hi as int).drop_last() =~= s@.subrange(
            lo as int,
            hi - 1,
        ));
        hi -= 1;
    }
    slice_subrange(s, lo, hi)
}

/// The part of `s` that remains after leading whitespace is removed.
pub fn trim_start_slice(s: &[char]) -> (r: &[char])
    ensures
        r@ == trim_start(s@),
{
    let n: usize = s.len();
    let mut lo: usize = 0;
    assert(s@.skip(0) =~= s@);
    while lo < n && is_space(s[lo])
        invariant
            n == s@.len(),
            lo <= n,
            trim_start(s@) == trim_start(s@.skip(lo as int)),
        decreases n - lo,
    {
        assert(s@.skip(lo as int).drop_first() =~= s@.skip(lo + 1));
        lo += 1;
    }
    assert(s@.skip(lo as int) =~= s@.subrange(lo as int, n as int));
    slice_subrange(s, lo, n)
}

/// `c` is one of the ASCII digits `'0'..='9'`.
pub open spec fn is_digit(c: char) -> bool {
    '0' <= c && c <= '9'
}

/// The value of the ASCII digit `c`.
pub open spec fn digit_value(c: char) -> nat {
    (c as int - '0' as int) as nat
}

/// Every character of `s` is an ASCII digit.
pub open spec fn all_digits(s: Seq<char>) -> bool {
    forall|i: int| 0 <= i < s.len() ==> is_digit(#[trigger] s[i])
}

/// The number that the digit string `s` denotes in base ten.
pub open spec fn digits_value(s: Seq<char>) -> nat
    decreases s.len(),
{
    if s.len() == 0 {
        0
    } else {
        digits_value(s.drop_last()) * 10 + digit_value(s.last())
    }
}

/// What remains of `s` once one optional leading `'+'` is dropped.
pub open spec fn unsigned_body(s: Seq<char>) -> Seq<char> {
    if s.len() > 0 && s[0] == '+' {
        s.drop_first()
    } else {
        s
    }
}

/// The number that `s` denotes when it is an optional `'+'` followed by one
/// or more ASCII digits and nothing else, and the number is at most `max`.
pub open spec fn parse_decimal(s: Seq<char>, max: nat) -> Option<nat> {
    let body = unsigned_body(s);
    if body.len() > 0 && all_digits(body) && digits_value(body) <= max {
        Some(digits_value(body))
    } else {
        None
    }
}

/// A digit string is worth at least as much as any of its prefixes.
pub proof fn lemma_digits_value_prefix(s: Seq<char>, k: int)
    requires
        0 <= k <= s.len(),
    ensures
        digits_value(s.take(k)) <= digits_value(s),
    decreases s.len(),
{
    if k == s.len() {
        assert(s.take(k) =~= s);
    } else {
        assert(s.drop_last().take(k) =~= s.take(k));
        lemma_digits_value_prefix(s.drop_last(), k);
    }
}

/// Appending one digit multiplies the value by ten and adds the digit.
pub proof fn lemma_digits_value_step(s: Seq<char>, k: int)
    requires
        0 <= k < s.len(),
    ensures
        digits_value(s.take(k + 1)) == digits_value(s.take(k)) * 10 + digit_value(s[k]),
{
    assert(s.take(k + 1).drop_last() =~= s.take(k));
}

/// The value of the ASCII digit `c`.
pub fn digit_of(c: char) -> (r: Option<u8>)
    ensures
        r.is_some() == is_digit(c),
        r matches Some(d) ==> d as nat == digit_value(c) && d <= 9,
{
    if c >= '0' && c <= '9' {
        Some((c as u32 - '0' as u32) as u8)
    } else {
        None
    }
}

fn parse_bounded(s: &[char], max: u64) -> (r: Option<u64>)
    requires
        max <= 0xffff_ffff,
    ensures
        r.is_some() == parse_decimal(s@, max as nat).is_some(),
        r matches Some(v) ==> parse_decimal(s@, max as nat) == Some(v as nat),
{
    let n: usize = s.len();
    let start: usize = if n > 0 && s[0] == '+' {
        1
    } else {
        0
    };
    let ghost body = unsigned_body(s@);
    assert(body =~= s@.skip(start as int));
    if start == n {
        return None;
    }
    let mut acc: u64 = 0;
    let mut i: usize = start;
    assert(body.take(0) =~= Seq::<char>::empty());
    while i < n
        invariant
            start <= i <= n,
            n == s@.len(),
            body == s@.skip(start as int),
            body == unsigned_body(s@),
            max <= 0xffff_ffff,
            acc <= max,
            acc == digits_value(body.take(i - start)),
            forall|j: int| 0 <= j < i - start ==> is_digit(#[trigger] body[j]),
        decreases n - i,
    {
        proof {
            lemma_digits_value_step(body, i - start);
            lemma_digits_value_prefix(body, i - start + 1);
        }
        match digit_of(s[i]) {
            None => {
                assert(!is_digit(body[i - start]));
                return None;
            },
            Some(d) => {
                let next: u64 = acc * 10 + d as u64;
                if next > max {
                    return None;
                }
                acc = next;
            },
        }
        i += 1;
    }
    assert(body.take(n - start) =~= body);
    Some(acc)
}

/// `parse_decimal` with the range of `u32`.
pub open spec fn parse_u32_spec(s: Seq<char>) -> Option<u32> {
    match parse_decimal(s, u32::MAX as nat) {
        Some(v) => Some(v as u32),
        None => None,
    }
}

/// `parse_decimal` with the range of `u16`.
pub open spec fn parse_u16_spec(s: Seq<char>) -> Option<u16> {
    match parse_decimal(s, u16::MAX as nat) {
        Some(v) => Some(v as u16),
        None => None,
    }
}

/// Reads `s` as a `u32`: an optional `'+'`, then decimal digits only.
pub fn parse_u32(s: &[char]) -> (r: Option<u32>)
    ensures
        r == parse_u32_spec(s@),
{
    match parse_bounded(s, 0xffff_ffff) {
        Some(v) => Some(v as u32),
        None => None,
    }
}

/// Reads `s` as a `u16`: an optional `'+'`, then decimal digits only.
pub fn parse_u16(s: &[char]) -> (r: Option<u16>)
    ensures
        r == parse_u16_spec(s@),
{
    match parse_bounded(s, 0xffff) {
        Some(v) => Some(v as u16),
        None => None,
    }
}

/// The number of ASCII digits that `s` starts with.
pub open spec fn digit_run_len(s: Seq<char>) -> nat
    decreases s.len(),
{
    if s.len() > 0 && is_digit(s.first()) {
        1 + digit_run_len(s.drop_first())
    } else {
        0
    }
}

/// `n` limited to the range of `u32`.
pub open spec fn saturate_u32(n: int) -> u32 {
    if n >= u32::MAX {
        u32::MAX
    } else if n <= 0 {
        0
    } else {
        n as u32
    }
}

/// The number that the leading digits of `s` denote, limited to the range of
/// `u32`; `None` when `s` does not start with a digit.
pub open spec fn leading_number(s: Seq<char>) -> Option<u32> {
    let k = digit_run_len(s) as int;
    if k > 0 {
        Some(saturate_u32(digits_value(s.take(k)) as int))
    } else {
        None
    }
}

/// `k` digits followed by a non-digit or the end make a digit run of length `k`.
pub proof fn lemma_digit_run_len(s: Seq<char>, k: int)
    requires
        0 <= k <= s.len(),
        forall|j: int| 0 <= j < k ==> is_digit(#[trigger] s[j]),
        k == s.len() || !is_digit(s[k]),
    ensures
        digit_run_len(s) == k,
    decreases k,
{
    if k > 0 {
        let t = s.drop_first();
        assert forall|j: int| 0 <= j < k - 1 implies is_digit(#[trigger] t[j]) by {
            assert(t[j] == s[j + 1]);
        }
        lemma_digit_run_len(t, k - 1);
    }
}

/// Reads the digits that `s` starts with as a number that saturates at `u32::MAX`.
pub fn read_leading_number(s: &[char]) -> (r: Option<u32>)
    ensures
        r == leading_number(s@),
{
    let n: usize = s.len();
    let mut acc: u64 = 0;
    let mut i: usize = 0;
    assert(s@.take(0) =~= Seq::<char>::empty());
    while i < n
        invariant
            i <= n,
            n == s@.len(),
            acc <= u32::MAX,
            acc == saturate_u32(digits_value(s@.take(i as int)) as int),
            forall|j: int| 0 <= j < i ==> is_digit(#[trigger] s@[j]),
        ensures
            i == n || !is_digit(s@[i as int]),
        decreases n - i,
    {
        match digit_of(s[i]) {
            None => {
                break ;
            },
            Some(d) => {
                proof {
                    lemma_digits_value_step(s@, i as int);
                }
                let next: u64 = acc * 10 + d as u64;
                acc = if next > 0xffff_ffff {
                    0xffff_ffff
                } else {
                    next
                };
            },
        }
        i += 1;
    }
    proof {
        lemma_digit_run_len(s@, i as int);
    }
    if i == 0 {
        None
    } else {
        Some(acc as u32)
    }
}

/// Copies the characters of `s` into a vector.
pub fn chars_of(s: &str) -> (v: Vec<char>)
    ensures
        v@ == s@,
{
    let mut v: Vec<char> = Vec::new();
    for c in it: s.chars()
        invariant
            it.seq() == s@,
            v@ == it.seq().take(it.index() as int),
    {
        v.push(c);
    }
    v
}

/// The character that ends a line.
pub open spec fn line_feed() -> Seq<char> {
    seq!['\n']
}

/// `line` without the carriage return that it ends with, if it ends with one.
pub open spec fn strip_carriage_return(line: Seq<char>) -> Seq<char> {
    if line.len() > 0 && line.last() == '\r' {
        line.drop_last()
    } else {
        line
    }
}

/// The lines of `text`. A line ends with a line feed, or with a carriage
/// return and a line feed, neither of which belongs to it; the last line
/// may do without, and is then taken as it stands.
pub open spec fn lines(text: Seq<char>) -> Seq<Seq<char>>
    decreases text.len(),
{
    if text.len() == 0 {
        Seq::empty()
    } else {
        match find(text, line_feed()) {
            Some(i) => {
                proof {
                    lemma_find_some(text, line_feed());
                }
                seq![strip_carriage_return(text.take(i))] + lines(text.skip(i + 1))
            },
            None => seq![text],
        }
    }
}

/// What each of `lines` holds.
pub open spec fn line_views(lines: Seq<Vec<char>>) -> Seq<Seq<char>> {
    Seq::new(lines.len(), |i: int| lines[i]@)
}

/// Splits `text` into its lines.
pub fn lines_of(text: &[char]) -> (r: Vec<Vec<char>>)
    ensures
        line_views(r@) == lines(text@),
{
    let n: usize = text.len();
    let feed: Vec<char> = vec!['\n'];
    assert(feed@ =~= line_feed());
    let mut out: Vec<Vec<char>> = Vec::new();
    let mut start: usize = 0;
    assert(text@.skip(0) =~= text@);
    assert(line_views(out@) =~= Seq::<Seq<char>>::empty());
    while start < n
        invariant
            start <= n,
            n == text@.len(),
            feed@ == line_feed(),
            lines(text@) == line_views(out@) + lines(text@.skip(start as int)),
        decreases n - start,
    {
        let rest = slice_subrange(text, start, n);
        assert(rest@ =~= text@.skip(start as int));
        let ghost before = line_views(out@);
        match find_in(rest, feed.as_slice()) {
            None => {
                out.push(slice_to_vec(rest));
                assert(line_views(out@) =~= before + seq![rest@]);
                assert(text@.skip(n as int) =~= Seq::<char>::empty());
                start = n;
            },
            Some(i) => {
                assert(matches_at(rest@, feed@, i as int));
                let end: usize = if i > 0 && rest[i - 1] == '\r' {
                    i - 1
                } else {
                    i
                };
                let line = slice_subrange(rest, 0, end);
                assert(line@ =~= strip_carriage_return(rest@.take(i as int)));
                out.push(slice_to_vec(line));
                assert(line_views(out@) =~= before + seq![line@]);
                assert(rest@.skip(i + 1) =~= text@.skip(start + i + 1));
                start = start + i + 1;
            },
        }
    }
    assert(text@.skip(n as int) =~= Seq::<char>::empty());
    out
}

/// The part of `s` before the first `separator`, or all of `s` when it
/// holds none.
pub open spec fn before_first(s: Seq<char>, separator: Seq<char>) -> Seq<char> {
    match find(s, separator) {
        Some(i) => s.take(i),
        None => s,
    }
}

/// The part of `s` after the first `separator`, if it holds one.
pub open spec fn after_first(s: Seq<char>, separator: Seq<char>) -> Option<Seq<char>> {
    match find(s, separator) {
        Some(i) => Some(s.skip(i + separator.len())),
        None => None,
    }
}

/// The second of the parts into which `separator` divides `s`, if there
/// are two.
pub open spec fn second_part(s: Seq<char>, separator: Seq<char>) -> Option<Seq<char>> {
    match after_first(s, separator) {
        Some(rest) => Some(before_first(rest, separator)),
        None => None,
    }
}

/// The part of `s` before the first `separator`.
pub fn take_before<'a>(s: &'a [char], separator: &[char]) -> (r: &'a [char])
    ensures
        r@ == before_first(s@, separator@),
{
    match find_in(s, separator) {
        Some(i) => {
            assert(matches_at(s@, separator@, i as int));
            let r = slice_subrange(s, 0, i);
            assert(r@ =~= s@.take(i as int));
            r
        },
        None => s,
    }
}

/// The part of `s` after the first `separator`.
pub fn take_after<'a>(s: &'a [char], separator: &[char]) -> (r: Option<&'a [char]>)
    ensures
        r.is_some() == after_first(s@, separator@).is_some(),
        r matches Some(rest) ==> after_first(s@, separator@) == Some(rest@),
{
    match find_in(s, separator) {
        Some(i) => {
            assert(matches_at(s@, separator@, i as int));
            let n: usize = s.len();
            let r = slice_subrange(s, i + separator.len(), n);
            assert(r@ =~= s@.skip(i + separator@.len()));
            Some(r)
        },
        None => None,
    }
}

/// The second of the parts into which `separator` divides `s`.
pub fn take_second<'a>(s: &'a [char], separator: &[char]) -> (r: Option<&'a [char]>)
    ensures
        r.is_some() == second_part(s@, separator@).is_some(),
        r matches Some(part) ==> second_part(s@, separator@) == Some(part@),
{
    match take_after(s, separator) {
        Some(rest) => Some(take_before(rest, separator)),
        None => None,
    }
}

/// `String::push` appends the character to the end of the string.
pub assume_specification[ String::push ](s: &mut String, c: char)
    ensures
        final(s)@ == old(s)@.push(c),
;

/// Makes a string of the characters of `chars`.
pub fn string_of(chars: &[char]) -> (r: String)
    ensures
        r@ == chars@,
{
    let mut r = String::new();
    let mut i: usize = 0;
    while i < chars.len()
        invariant
            i <= chars@.len(),
            r@ == chars@.take(i as int),
        decreases chars@.len() - i,
    {
        r.push(chars[i]);
        assert(chars@.take(i + 1) =~= chars@.take(i as int).push(chars@[i as int]));
        i += 1;
    }
    assert(chars@.take(chars@.len() as int) =~= chars@);
    r
}

/// `s` without the double quotes that it starts with.
pub open spec fn strip_quotes_start(s: Seq<char>) -> Seq<char>
    decreases s.len(),
{
    if s.len() > 0 && s.first() == '"' {
        strip_quotes_start(s.drop_first())
    } else {
        s
    }
}

/// `s` without the double quotes that it ends with.
pub open spec fn strip_quotes_end(s: Seq<char>) -> Seq<char>
    decreases s.len(),
{
    if s.len() > 0 && s.last() == '"' {
        strip_quotes_end(s.drop_last())
    } else {
        s
    }
}

/// `s` without the double quotes at its start and at its end.
pub open spec fn strip_quotes(s: Seq<char>) -> Seq<char> {
    strip_quotes_end(strip_quotes_start(s))
}

/// The part of `s` that remains after the double quotes at its start and
/// at its end are removed.
pub fn strip_quotes_slice(s: &[char]) -> (r: &[char])
    ensures
        r@ == strip_quotes(s@),
{
    let n: usize = s.len();
    let mut lo: usize = 0;
    assert(s@.skip(0) =~= s@);
    while lo < n && s[lo] == '"'
        invariant
            n == s@.len(),
            lo <= n,
            strip_quotes_start(s@) == strip_quotes_start(s@.skip(lo as int)),
        decreases n - lo,
    {
        assert(s@.skip(lo as int).drop_first() =~= s@.skip(lo + 1));
        lo += 1;
    }
    assert(s@.skip(lo as int) =~= s@.subrange(lo as int, n as int));
    let mut hi: usize = n;
    while hi > lo && s[hi - 1] == '"'
        invariant
            lo <= hi <= n,
            n == s@.len(),
            strip_quotes(s@) == strip_quotes_end(s@.subrange(lo as int, hi as int)),
        decreases hi,
    {
        assert(s@.subrange(lo as int, hi as int).drop_last() =~= s@.subrange(
            lo as int,
            hi - 1,
        ));
        hi -= 1;
    }
    slice_subrange(s, lo, hi)
}

} // verus!
