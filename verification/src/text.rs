//! Character-level string helpers shared by the parsers and formatters.
//!
//! Strings are modelled by their `Seq<char>` views. The spec functions here
//! describe the standard string operations the library relies on
//! (whitespace splitting, line splitting, trimming, searching, decimal and
//! hexadecimal rendering, integer parsing); the executable functions compute
//! them and are proved against those descriptions.

use vstd::prelude::*;

verus! {

// ---------------------------------------------------------------------------
// Characters
// ---------------------------------------------------------------------------

/// Unicode `White_Space`, the set used by `char::is_whitespace`.
pub open spec fn is_space(c: char) -> bool {
    let u = c as u32;
    ||| 0x09 <= u <= 0x0d
    ||| u == 0x20
    ||| u == 0x85
    ||| u == 0xa0
    ||| u == 0x1680
    ||| 0x2000 <= u <= 0x200a
    ||| u == 0x2028
    ||| u == 0x2029
    ||| u == 0x202f
    ||| u == 0x205f
    ||| u == 0x3000
}

/// An ASCII decimal digit.
pub open spec fn is_digit(c: char) -> bool {
    '0' <= c <= '9'
}

/// The value of a decimal digit character.
pub open spec fn digit_value(c: char) -> int {
    (c as int) - ('0' as int)
}

/// The character for a digit value below 16 (lower-case letters above 9).
pub open spec fn digit_char(d: int) -> char {
    if d < 10 {
        (d + ('0' as int)) as char
    } else {
        (d - 10 + ('a' as int)) as char
    }
}

/// ASCII upper-case letters mapped to lower case, all else unchanged.
pub open spec fn ascii_lower_char(c: char) -> char {
    if 'A' <= c <= 'Z' {
        ((c as int) + 32) as char
    } else {
        c
    }
}

pub open spec fn ascii_lower(s: Seq<char>) -> Seq<char> {
    s.map_values(|c: char| ascii_lower_char(c))
}

/// ASCII lower-case letters mapped to upper case, all else unchanged.
pub open spec fn ascii_upper_char(c: char) -> char {
    if 'a' <= c <= 'z' {
        ((c as int) - 32) as char
    } else {
        c
    }
}

pub open spec fn ascii_upper(s: Seq<char>) -> Seq<char> {
    s.map_values(|c: char| ascii_upper_char(c))
}

pub open spec fn all_ascii(s: Seq<char>) -> bool {
    forall|i: int| 0 <= i < s.len() ==> (s[i] as u32) < 128
}

/// Whether `c` is white space (`char::is_whitespace`).
pub fn char_is_space(c: char) -> (b: bool)
    ensures
        b == is_space(c),
{
    let u = c as u32;
    (0x09 <= u && u <= 0x0d) || u == 0x20 || u == 0x85 || u == 0xa0 || u == 0x1680 || (0x2000
        <= u && u <= 0x200a) || u == 0x2028 || u == 0x2029 || u == 0x202f || u == 0x205f || u
        == 0x3000
}

/// Whether `c` is an ASCII decimal digit (`char::is_ascii_digit`).
pub fn char_is_digit(c: char) -> (b: bool)
    ensures
        b == is_digit(c),
{
    '0' <= c && c <= '9'
}

// ---------------------------------------------------------------------------
// Building strings
// ---------------------------------------------------------------------------

/// Appends one character to a string (`String::push`).
#[verifier::external_body]
pub fn push_char(s: &mut String, c: char)
    ensures
        final(s)@ == old(s)@.push(c),
{
    s.push(c);
}

/// The characters of `s`, in order.
pub fn chars_of(s: &str) -> (v: Vec<char>)
    ensures
        v@ == s@,
{
    let mut v: Vec<char> = Vec::new();
    for c in it: s.chars()
        invariant
            v@ == it.seq().take(it.index() as int),
            it.seq() == s@,
    {
        v.push(c);
    }
    v
}

/// A string holding the characters `v`.
pub fn string_of(v: &[char]) -> (s: String)
    ensures
        s@ == v@,
{
    let mut s = String::new();
    for i in 0..v.len()
        invariant
            s@ == v@.take(i as int),
    {
        push_char(&mut s, v[i]);
        assert(v@.take(i + 1) == v@.take(i as int).push(v@[i as int]));
    }
    assert(v@.take(v.len() as int) == v@);
    s
}

/// Whether two character sequences are equal.
pub fn chars_eq(a: &[char], b: &[char]) -> (r: bool)
    ensures
        r == (a@ == b@),
{
    if a.len() != b.len() {
        return false;
    }
    for i in 0..a.len()
        invariant
            a.len() == b.len(),
            forall|k: int| 0 <= k < i ==> a@[k] == b@[k],
    {
        if a[i] != b[i] {
            return false;
        }
    }
    assert(a@ =~= b@);
    true
}

/// Whether two strings are equal.
pub fn str_eq(a: &str, b: &str) -> (r: bool)
    ensures
        r == (a@ == b@),
{
    let x = chars_of(a);
    let y = chars_of(b);
    chars_eq(x.as_slice(), y.as_slice())
}


// ---------------------------------------------------------------------------
// Splitting
// ---------------------------------------------------------------------------

/// The views of a vector of character vectors.
pub open spec fn views(v: Seq<Vec<char>>) -> Seq<Seq<char>> {
    v.map_values(|w: Vec<char>| w@)
}

/// Left-to-right scan of `s` for `split_whitespace`: the words completed so
/// far and the word being read.
pub open spec fn words_scan(s: Seq<char>) -> (Seq<Seq<char>>, Seq<char>)
    decreases s.len(),
{
    if s.len() == 0 {
        (seq![], seq![])
    } else {
        let (done, cur) = words_scan(s.drop_last());
        let c = s.last();
        if is_space(c) {
            if cur.len() > 0 {
                (done.push(cur), seq![])
            } else {
                (done, seq![])
            }
        } else {
            (done, cur.push(c))
        }
    }
}

/// `str::split_whitespace`: the maximal runs of non-white-space characters.
pub open spec fn words(s: Seq<char>) -> Seq<Seq<char>> {
    let (done, cur) = words_scan(s);
    if cur.len() > 0 {
        done.push(cur)
    } else {
        done
    }
}

/// Left-to-right scan of `s` for `split(sep)`.
pub open spec fn split_scan(s: Seq<char>, sep: char) -> (Seq<Seq<char>>, Seq<char>)
    decreases s.len(),
{
    if s.len() == 0 {
        (seq![], seq![])
    } else {
        let (done, cur) = split_scan(s.drop_last(), sep);
        let c = s.last();
        if c == sep {
            (done.push(cur), seq![])
        } else {
            (done, cur.push(c))
        }
    }
}

/// `str::split(sep)` for a character separator: the pieces between
/// separators, the last one included even when empty.
pub open spec fn split_on(s: Seq<char>, sep: char) -> Seq<Seq<char>> {
    let (done, cur) = split_scan(s, sep);
    done.push(cur)
}

/// A line with one trailing carriage return removed.
pub open spec fn strip_cr(line: Seq<char>) -> Seq<char> {
    if line.len() > 0 && line.last() == '\r' {
        line.drop_last()
    } else {
        line
    }
}

/// Left-to-right scan of `s` for `lines`.
pub open spec fn lines_scan(s: Seq<char>) -> (Seq<Seq<char>>, Seq<char>)
    decreases s.len(),
{
    if s.len() == 0 {
        (seq![], seq![])
    } else {
        let (done, cur) = lines_scan(s.drop_last());
        let c = s.last();
        if c == '\n' {
            (done.push(strip_cr(cur)), seq![])
        } else {
            (done, cur.push(c))
        }
    }
}

/// `str::lines`: the pieces ended by `\n` (each without a trailing `\r`),
/// then the unterminated rest when it is not empty.
pub open spec fn lines(s: Seq<char>) -> Seq<Seq<char>> {
    let (done, cur) = lines_scan(s);
    if cur.len() > 0 {
        done.push(cur)
    } else {
        done
    }
}

/// Splits `s` at runs of white space (`str::split_whitespace`).
pub fn split_whitespace(s: &[char]) -> (r: Vec<Vec<char>>)
    ensures
        views(r@) == words(s@),
{
    let mut done: Vec<Vec<char>> = Vec::new();
    let mut cur: Vec<char> = Vec::new();
    for i in 0..s.len()
        invariant
            (views(done@), cur@) == words_scan(s@.take(i as int)),
    {
        assert(s@.take(i + 1).drop_last() == s@.take(i as int));
        let c = s[i];
        if char_is_space(c) {
            if cur.len() > 0 {
                let ghost before = done@;
                let w = cur;
                cur = Vec::new();
                done.push(w);
                assert(views(done@) =~= views(before).push(w@));
            }
        } else {
            cur.push(c);
        }
    }
    assert(s@.take(s.len() as int) == s@);
    if cur.len() > 0 {
        let ghost before = done@;
        let ghost w = cur@;
        done.push(cur);
        assert(views(done@) =~= views(before).push(w));
    }
    done
}


/// Splits `s` at every `sep` (`str::split` with a character pattern).
pub fn split_at_char(s: &[char], sep: char) -> (r: Vec<Vec<char>>)
    ensures
        views(r@) == split_on(s@, sep),
{
    let mut done: Vec<Vec<char>> = Vec::new();
    let mut cur: Vec<char> = Vec::new();
    for i in 0..s.len()
        invariant
            (views(done@), cur@) == split_scan(s@.take(i as int), sep),
    {
        assert(s@.take(i + 1).drop_last() == s@.take(i as int));
        let c = s[i];
        if c == sep {
            let ghost before = done@;
            let w = cur;
            cur = Vec::new();
            done.push(w);
            assert(views(done@) =~= views(before).push(w@));
        } else {
            cur.push(c);
        }
    }
    assert(s@.take(s.len() as int) == s@);
    let ghost before = done@;
    let ghost w = cur@;
    done.push(cur);
    assert(views(done@) =~= views(before).push(w));
    done
}

/// Removes one trailing carriage return.
fn strip_trailing_cr(v: &mut Vec<char>)
    ensures
        final(v)@ == strip_cr(old(v)@),
{
    if v.len() > 0 && v[v.len() - 1] == '\r' {
        v.pop();
    }
}

/// Splits `s` into lines (`str::lines`).
pub fn split_lines(s: &[char]) -> (r: Vec<Vec<char>>)
    ensures
        views(r@) == lines(s@),
{
    let mut done: Vec<Vec<char>> = Vec::new();
    let mut cur: Vec<char> = Vec::new();
    for i in 0..s.len()
        invariant
            (views(done@), cur@) == lines_scan(s@.take(i as int)),
    {
        assert(s@.take(i + 1).drop_last() == s@.take(i as int));
        let c = s[i];
        if c == '\n' {
            let ghost before = done@;
            let mut w = cur;
            cur = Vec::new();
            strip_trailing_cr(&mut w);
            done.push(w);
            assert(views(done@) =~= views(before).push(w@));
        } else {
            cur.push(c);
        }
    }
    assert(s@.take(s.len() as int) == s@);
    if cur.len() > 0 {
        let ghost before = done@;
        let ghost w = cur@;
        done.push(cur);
        assert(views(done@) =~= views(before).push(w));
    }
    done
}

// ---------------------------------------------------------------------------
// Trimming and searching
// ---------------------------------------------------------------------------

/// `s` without its leading white space.
pub open spec fn trim_start(s: Seq<char>) -> Seq<char>
    decreases s.len(),
{
    if s.len() > 0 && is_space(s[0]) {
        trim_start(s.drop_first())
    } else {
        s
    }
}

/// `s` without its trailing white space.
pub open spec fn trim_end(s: Seq<char>) -> Seq<char>
    decreases s.len(),
{
    if s.len() > 0 && is_space(s.last()) {
        trim_end(s.drop_last())
    } else {
        s
    }
}

/// `str::trim`: `s` without leading and trailing white space.
pub open spec fn trim(s: Seq<char>) -> Seq<char> {
    trim_end(trim_start(s))
}

/// Whether `needle` occurs in `hay` at position `i`.
pub open spec fn occurs_at(hay: Seq<char>, needle: Seq<char>, i: int) -> bool {
    0 <= i && i + needle.len() <= hay.len() && hay.subrange(i, i + needle.len()) == needle
}

/// `str::contains`: `needle` occurs somewhere in `hay`.
pub open spec fn contains(hay: Seq<char>, needle: Seq<char>) -> bool {
    exists|i: int| occurs_at(hay, needle, i)
}

/// The first position at or after `from` where `needle` occurs.
pub open spec fn find_from(hay: Seq<char>, needle: Seq<char>, from: int) -> Option<int>
    decreases hay.len() + 1 - from,
{
    if from < 0 || from + needle.len() > hay.len() {
        None
    } else if occurs_at(hay, needle, from) {
        Some(from)
    } else {
        find_from(hay, needle, from + 1)
    }
}

/// `str::find`: the first position where `needle` occurs.
pub open spec fn find(hay: Seq<char>, needle: Seq<char>) -> Option<int> {
    find_from(hay, needle, 0)
}

/// A copy of `v`.
pub fn copy_chars(v: &[char]) -> (r: Vec<char>)
    ensures
        r@ == v@,
{
    let mut r: Vec<char> = Vec::new();
    for i in 0..v.len()
        invariant
            r@ == v@.take(i as int),
    {
        r.push(v[i]);
        assert(v@.take(i + 1) == v@.take(i as int).push(v@[i as int]));
    }
    assert(v@.take(v.len() as int) == v@);
    r
}

/// Trims white space from both ends (`str::trim`).
pub fn trim_chars(s: &[char]) -> (r: Vec<char>)
    ensures
        r@ == trim(s@),
{
    let mut start: usize = 0;
    assert(s@.skip(0) == s@);
    while start < s.len() && char_is_space(s[start])
        invariant
            start <= s.len(),
            trim_start(s@) == trim_start(s@.skip(start as int)),
        decreases s.len() - start,
    {
        assert(s@.skip(start as int).drop_first() == s@.skip(start + 1));
        start = start + 1;
    }
    let ghost t = s@.skip(start as int);
    assert(trim_start(s@) == t);
    let mut end: usize = s.len();
    while end > start && char_is_space(s[end - 1])
        invariant
            start <= end <= s.len(),
            t == s@.skip(start as int),
            trim_end(t) == trim_end(s@.subrange(start as int, end as int)),
        decreases end,
    {
        assert(s@.subrange(start as int, end as int).drop_last() == s@.subrange(
            start as int,
            end - 1,
        ));
        end = end - 1;
    }
    let ghost u = s@.subrange(start as int, end as int);
    assert(trim_end(u) == u);
    assert(s@.subrange(start as int, s.len() as int) == t);
    let mut r: Vec<char> = Vec::new();
    let mut k = start;
    while k < end
        invariant
            start <= k <= end <= s.len(),
            r@ == s@.subrange(start as int, k as int),
        decreases end - k,
    {
        r.push(s[k]);
        assert(s@.subrange(start as int, k + 1) == s@.subrange(start as int, k as int).push(
            s@[k as int],
        ));
        k = k + 1;
    }
    r
}

/// Whether `needle` occurs in `hay` at `i`.
fn chars_occur_at(hay: &[char], needle: &[char], i: usize) -> (b: bool)
    requires
        i + needle.len() <= hay.len(),
    ensures
        b == occurs_at(hay@, needle@, i as int),
{
    for k in 0..needle.len()
        invariant
            i + needle.len() <= hay.len(),
            forall|j: int| 0 <= j < k ==> hay@[i + j] == needle@[j],
    {
        if hay[i + k] != needle[k] {
            assert(hay@.subrange(i as int, i + needle.len())[k as int] != needle@[k as int]);
            return false;
        }
    }
    assert(hay@.subrange(i as int, i + needle.len()) =~= needle@);
    true
}

/// The first position of `needle` in `hay` (`str::find`).
pub fn find_chars(hay: &[char], needle: &[char]) -> (r: Option<usize>)
    ensures
        r matches Some(i) ==> find(hay@, needle@) == Some(i as int) && i + needle.len()
            <= hay.len(),
        r is None ==> find(hay@, needle@) is None,
{
    if needle.len() > hay.len() {
        return None;
    }
    let last = hay.len() - needle.len();
    let mut i: usize = 0;
    while i <= last
        invariant
            last + needle.len() == hay.len(),
            i <= last + 1,
            find(hay@, needle@) == find_from(hay@, needle@, i as int),
        decreases last + 1 - i,
    {
        if chars_occur_at(hay, needle, i) {
            return Some(i);
        }
        if i == last {
            return None;
        }
        i = i + 1;
    }
    None
}

/// Whether `needle` occurs in `hay` (`str::contains`).
pub fn contains_chars(hay: &[char], needle: &[char]) -> (b: bool)
    ensures
        b == contains(hay@, needle@),
{
    if needle.len() > hay.len() {
        return false;
    }
    let last = hay.len() - needle.len();
    let mut i: usize = 0;
    while i <= last
        invariant
            last + needle.len() == hay.len(),
            i <= last + 1,
            forall|j: int| 0 <= j < i ==> !occurs_at(hay@, needle@, j),
        decreases last + 1 - i,
    {
        if chars_occur_at(hay, needle, i) {
            return true;
        }
        if i == last {
            assert forall|j: int| #![auto] occurs_at(hay@, needle@, j) implies j <= last by {}
            return false;
        }
        i = i + 1;
    }
    false
}

/// Whether `c` occurs in `s` (`str::contains` with a character pattern).
pub fn contains_char(s: &[char], c: char) -> (b: bool)
    ensures
        b == s@.contains(c),
{
    for i in 0..s.len()
        invariant
            forall|j: int| 0 <= j < i ==> s@[j] != c,
    {
        if s[i] == c {
            return true;
        }
    }
    false
}


// ---------------------------------------------------------------------------
// Replacing
// ---------------------------------------------------------------------------

/// `str::replace` for a non-empty pattern: every occurrence of `from`,
/// found left to right without overlap, replaced by `to`.
pub open spec fn replace_all(s: Seq<char>, from: Seq<char>, to: Seq<char>) -> Seq<char>
    decreases s.len(),
{
    if from.len() == 0 || s.len() < from.len() {
        s
    } else if s.subrange(0, from.len() as int) == from {
        to + replace_all(s.skip(from.len() as int), from, to)
    } else {
        seq![s[0]] + replace_all(s.drop_first(), from, to)
    }
}

/// Replaces every occurrence of the non-empty pattern `from` by `to`, as
/// `str::replace` does; the placeholders this crate replaces are never empty.
pub(crate) fn replace_chars(s: &[char], from: &[char], to: &[char]) -> (r: Vec<char>)
    requires
        from.len() > 0,
    ensures
        r@ == replace_all(s@, from@, to@),
{
    let mut out: Vec<char> = Vec::new();
    let mut i: usize = 0;
    assert(s@.skip(0) == s@);
    assert(out@ + s@ =~= s@);
    while i < s.len()
        invariant
            i <= s.len(),
            from.len() > 0,
            replace_all(s@, from@, to@) == out@ + replace_all(s@.skip(i as int), from@, to@),
        decreases s.len() - i,
    {
        let ghost rest = s@.skip(i as int);
        if from.len() <= s.len() - i && chars_occur_at(s, from, i) {
            assert(rest.subrange(0, from.len() as int) == s@.subrange(i as int, i + from.len()));
            assert(rest.skip(from.len() as int) == s@.skip(i + from.len()));
            for k in 0..to.len()
                invariant
                    replace_all(s@, from@, to@) == out@ + to@.subrange(k as int, to.len() as int)
                        + replace_all(s@.skip(i + from.len()), from@, to@),
            {
                let ghost before = out@;
                out.push(to[k]);
                assert(to@.subrange(k as int, to.len() as int) == seq![to@[k as int]]
                    + to@.subrange(k + 1, to.len() as int));
                assert(out@ == before.push(to@[k as int]));
            }
            assert(to@.subrange(to.len() as int, to.len() as int) =~= Seq::<char>::empty());
            assert(out@ + Seq::<char>::empty() == out@);
            i = i + from.len();
        } else {
            if from.len() <= s.len() - i {
                assert(rest.subrange(0, from.len() as int) == s@.subrange(
                    i as int,
                    i + from.len(),
                ));
            }
            assert(rest.drop_first() == s@.skip(i + 1));
            assert(rest[0] == s@[i as int]);
            let ghost before = out@;
            out.push(s[i]);
            assert(out@ == before + seq![s@[i as int]]);
            i = i + 1;
        }
    }
    assert(s@.skip(i as int).len() == 0);
    assert(out@ + s@.skip(i as int) == out@);
    out
}

// ---------------------------------------------------------------------------
// Numbers
// ---------------------------------------------------------------------------

/// The decimal rendering of `n` (`format!("{}", n)`).
pub open spec fn decimal(n: nat) -> Seq<char>
    decreases n,
{
    if n < 10 {
        seq![digit_char(n as int)]
    } else {
        decimal(n / 10).push(digit_char((n % 10) as int))
    }
}

/// The lower-case hexadecimal rendering of `n` (`format!("{:x}", n)`).
pub open spec fn hex(n: nat) -> Seq<char>
    decreases n,
{
    if n < 16 {
        seq![digit_char(n as int)]
    } else {
        hex(n / 16).push(digit_char((n % 16) as int))
    }
}

/// Two lower-case hexadecimal digits of a byte (`format!("{:02x}", b)`).
pub open spec fn hex2(b: u8) -> Seq<char> {
    seq![digit_char((b / 16) as int), digit_char((b % 16) as int)]
}

/// The character of a digit value below 16.
pub fn digit_to_char(d: u64) -> (c: char)
    requires
        d < 16,
    ensures
        c == digit_char(d as int),
{
    let b: u8 = d as u8;
    if b < 10 {
        (b + 48u8) as char
    } else {
        (b + 87u8) as char
    }
}

/// Appends the decimal rendering of `n`.
pub fn push_decimal(s: &mut String, n: u64)
    ensures
        final(s)@ == old(s)@ + decimal(n as nat),
    decreases n,
{
    if n >= 10 {
        push_decimal(s, n / 10);
    }
    push_char(s, digit_to_char(n % 10));
}

/// Appends the lower-case hexadecimal rendering of `n`.
pub fn push_hex(s: &mut String, n: u64)
    ensures
        final(s)@ == old(s)@ + hex(n as nat),
    decreases n,
{
    if n >= 16 {
        push_hex(s, n / 16);
    }
    push_char(s, digit_to_char(n % 16));
}

/// Appends two lower-case hexadecimal digits of `b`.
pub fn push_hex2(s: &mut String, b: u8)
    ensures
        final(s)@ == old(s)@ + hex2(b),
{
    push_char(s, digit_to_char((b / 16) as u64));
    push_char(s, digit_to_char((b % 16) as u64));
}

/// The value of a sequence of decimal digits.
pub open spec fn digits_value(s: Seq<char>) -> nat
    decreases s.len(),
{
    if s.len() == 0 {
        0
    } else {
        digits_value(s.drop_last()) * 10 + (digit_value(s.last()) as nat)
    }
}

pub open spec fn all_digits(s: Seq<char>) -> bool {
    forall|i: int| 0 <= i < s.len() ==> is_digit(s[i])
}

/// `str::parse::<u32>`: an optional `+`, then one or more decimal digits
/// whose value fits in 32 bits.
pub open spec fn parse_u32(s: Seq<char>) -> Option<u32> {
    let d = if s.len() > 1 && s[0] == '+' {
        s.drop_first()
    } else {
        s
    };
    if d.len() > 0 && all_digits(d) && digits_value(d) <= u32::MAX {
        Some(digits_value(d) as u32)
    } else {
        None
    }
}

/// Parses an unsigned 32-bit decimal number (`str::parse::<u32>`).
pub fn parse_u32_chars(s: &[char]) -> (r: Option<u32>)
    ensures
        r == parse_u32(s@),
{
    let start: usize = if s.len() > 1 && s[0] == '+' {
        1
    } else {
        0
    };
    let ghost d = s@.skip(start as int);
    assert(d == (if s@.len() > 1 && s@[0] == '+' {
        s@.drop_first()
    } else {
        s@
    }));
    if start >= s.len() {
        return None;
    }
    let cap: u64 = 0x1_0000_0000;
    let mut value: u64 = 0;
    let mut i: usize = start;
    assert(d.take(0) =~= Seq::<char>::empty());
    while i < s.len()
        invariant
            start <= i <= s.len(),
            d == s@.skip(start as int),
            d == (if s@.len() > 1 && s@[0] == '+' {
                s@.drop_first()
            } else {
                s@
            }),
            cap == 0x1_0000_0000,
            forall|k: int| 0 <= k < i - start ==> is_digit(d[k]),
            value as int == if digits_value(d.take(i - start)) < cap {
                digits_value(d.take(i - start)) as int
            } else {
                cap as int
            },
        decreases s.len() - i,
    {
        let c = s[i];
        if !char_is_digit(c) {
            assert(d.len() == s.len() - start);
            assert(d[i - start] == c);
            assert(!all_digits(d));
            return None;
        }
        assert(d.take(i - start + 1).drop_last() == d.take(i - start));
        assert(d.take(i - start + 1).last() == c);
        let digit: u64 = (c as u64) - 48;
        let next = value * 10 + digit;
        value = if next < cap {
            next
        } else {
            cap
        };
        i = i + 1;
    }
    assert(d.take(s.len() - start) == d);
    if value < cap {
        Some(value as u32)
    } else {
        None
    }
}

// ---------------------------------------------------------------------------
// Case mapping
// ---------------------------------------------------------------------------

/// The Unicode lower-case mapping of a string, as `str::to_lowercase`
/// computes it.
pub uninterp spec fn unicode_lowercase(s: Seq<char>) -> Seq<char>;

/// `str::to_lowercase`. The result is the Unicode lower-case mapping of the
/// argument; on ASCII input that mapping turns `A`-`Z` into `a`-`z` and keeps
/// every other character. What it does to other characters is not stated
/// here.
#[verifier::external_body]
pub fn to_lowercase(s: &str) -> (r: String)
    ensures
        r@ == unicode_lowercase(s@),
        all_ascii(s@) ==> r@ == ascii_lower(s@),
{
    s.to_lowercase()
}


// ---------------------------------------------------------------------------
// Optional strings and string lists
// ---------------------------------------------------------------------------

/// The view of an optional string.
pub open spec fn opt_view(o: Option<String>) -> Option<Seq<char>> {
    match o {
        Some(s) => Some(s@),
        None => None,
    }
}

/// The views of a sequence of strings.
pub open spec fn string_views(v: Seq<String>) -> Seq<Seq<char>> {
    v.map_values(|s: String| s@)
}

/// A new string holding `s` (`str::to_string`).
pub fn owned(s: &str) -> (r: String)
    ensures
        r@ == s@,
{
    String::from_str(s)
}

/// `a` followed by `b`.
pub fn joined(a: &str, b: &str) -> (r: String)
    ensures
        r@ == a@ + b@,
{
    String::from_str(a).concat(b)
}


// ---------------------------------------------------------------------------
// Facts about the renderings and scans
// ---------------------------------------------------------------------------

/// The character of a decimal digit value is a digit with that value.
pub proof fn lemma_digit_char(k: int)
    requires
        0 <= k < 10,
    ensures
        is_digit(digit_char(k)),
        digit_value(digit_char(k)) == k,
{
    assert('0' as int == 48);
    assert('9' as int == 57);
    assert(digit_char(k) == (k + 48) as char);
    assert(((k + 48) as char) as int == k + 48);
}

/// A decimal rendering is a non-empty run of digits with the rendered value.
pub proof fn lemma_decimal_digits(n: nat)
    ensures
        decimal(n).len() > 0,
        all_digits(decimal(n)),
        digits_value(decimal(n)) == n,
    decreases n,
{
    lemma_digit_char((n % 10) as int);
    if n < 10 {
        assert(decimal(n).drop_last() =~= Seq::<char>::empty());
        assert(decimal(n).last() == digit_char(n as int));
        assert(digits_value(Seq::<char>::empty()) == 0);
    }
    if n >= 10 {
        lemma_decimal_digits(n / 10);
        let d = decimal(n);
        assert(d.drop_last() == decimal(n / 10));
        assert(d.last() == digit_char((n % 10) as int));
        assert(digits_value(d) == digits_value(decimal(n / 10)) * 10 + digit_value(d.last()));
        assert((n / 10) * 10 + n % 10 == n);
        assert(forall|i: int| 0 <= i < d.len() - 1 ==> d[i] == decimal(n / 10)[i]);
    }
}

/// Parsing a decimal rendering of a 32-bit number gives the number back.
pub proof fn lemma_parse_decimal(n: u32)
    ensures
        parse_u32(decimal(n as nat)) == Some(n),
{
    lemma_decimal_digits(n as nat);
    assert(is_digit(decimal(n as nat)[0]));
}

/// Scanning text without the separator leaves it all in the current piece.
proof fn lemma_split_scan_plain(s: Seq<char>, sep: char)
    requires
        !s.contains(sep),
    ensures
        split_scan(s, sep) == (Seq::<Seq<char>>::empty(), s),
    decreases s.len(),
{
    if s.len() > 0 {
        assert(!s.drop_last().contains(sep)) by {
            if s.drop_last().contains(sep) {
                let i = choose|i: int| 0 <= i < s.drop_last().len() && s.drop_last()[i] == sep;
                assert(s[i] == sep);
            }
        }
        lemma_split_scan_plain(s.drop_last(), sep);
        assert(s.drop_last().push(s.last()) == s);
    }
}

/// Scanning `prefix` followed by separator-free text adds that text to the
/// current piece.
proof fn lemma_split_scan_append(prefix: Seq<char>, s: Seq<char>, sep: char)
    requires
        !s.contains(sep),
    ensures
        split_scan(prefix + s, sep) == (split_scan(prefix, sep).0, split_scan(prefix, sep).1 + s),
    decreases s.len(),
{
    if s.len() == 0 {
        assert(prefix + s == prefix);
        assert(split_scan(prefix, sep).1 + s == split_scan(prefix, sep).1);
    } else {
        assert(!s.drop_last().contains(sep)) by {
            if s.drop_last().contains(sep) {
                let i = choose|i: int| 0 <= i < s.drop_last().len() && s.drop_last()[i] == sep;
                assert(s[i] == sep);
            }
        }
        lemma_split_scan_append(prefix, s.drop_last(), sep);
        assert((prefix + s).drop_last() == prefix + s.drop_last());
        assert((prefix + s).last() == s.last());
        assert(s.last() != sep);
        assert(split_scan(prefix, sep).1 + s.drop_last() + seq![s.last()] == split_scan(prefix, sep).1 + s);
        assert((split_scan(prefix, sep).1 + s.drop_last()).push(s.last()) == split_scan(prefix, sep).1 + s);
    }
}

/// Two separator-free pieces joined by the separator split back into them.
pub proof fn lemma_split_two(a: Seq<char>, b: Seq<char>, sep: char)
    requires
        !a.contains(sep),
        !b.contains(sep),
    ensures
        split_on(a + seq![sep] + b, sep) == seq![a, b],
{
    lemma_split_scan_plain(a, sep);
    let with_sep = a + seq![sep];
    assert(with_sep.drop_last() == a);
    assert(with_sep.last() == sep);
    assert(split_scan(with_sep, sep) == (seq![a], Seq::<char>::empty()));
    lemma_split_scan_append(with_sep, b, sep);
    assert(Seq::<char>::empty() + b == b);
    assert(split_on(with_sep + b, sep) =~= seq![a, b]);
}

/// A run of digits holds no other character.
pub proof fn lemma_digits_lack(s: Seq<char>, c: char)
    requires
        all_digits(s),
        !is_digit(c),
    ensures
        !s.contains(c),
{
    if s.contains(c) {
        let i = choose|i: int| 0 <= i < s.len() && s[i] == c;
        assert(is_digit(s[i]));
    }
}


/// Replacing a pattern that does not occur changes nothing.
pub proof fn lemma_replace_absent(s: Seq<char>, from: Seq<char>, to: Seq<char>)
    requires
        from.len() > 0,
        !contains(s, from),
    ensures
        replace_all(s, from, to) == s,
    decreases s.len(),
{
    if s.len() >= from.len() {
        if s.subrange(0, from.len() as int) == from {
            assert(occurs_at(s, from, 0));
        } else {
            let rest = s.drop_first();
            assert(!contains(rest, from)) by {
                if contains(rest, from) {
                    let i = choose|i: int| occurs_at(rest, from, i);
                    assert(rest.subrange(i, i + from.len()) =~= s.subrange(i + 1, i + 1 + from.len()));
                    assert(occurs_at(s, from, i + 1));
                }
            }
            lemma_replace_absent(rest, from, to);
            assert(seq![s[0]] + rest =~= s);
        }
    }
}

} // verus!
