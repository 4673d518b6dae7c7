//! Text as sequences of characters: conversion between strings and character
//! vectors, trimming, splitting, prefixes and decimal numerals.

use vstd::prelude::*;

verus! {

/// Whether `c` is white space: the code points that carry the Unicode
/// property of that name.
pub open spec fn white_space(c: char) -> bool {
    let u = c as u32;
    ||| 0x09 <= u <= 0x0D
    ||| u == 0x20
    ||| u == 0x85
    ||| u == 0xA0
    ||| u == 0x1680
    ||| 0x2000 <= u <= 0x200A
    ||| u == 0x2028
    ||| u == 0x2029
    ||| u == 0x202F
    ||| u == 0x205F
    ||| u == 0x3000
}

/// `s` without its leading white space.
pub open spec fn trim_start(s: Seq<char>) -> Seq<char>
    decreases s.len(),
{
    if s.len() > 0 && white_space(s[0]) {
        trim_start(s.drop_first())
    } else {
        s
    }
}

/// `s` without its trailing white space.
pub open spec fn trim_end(s: Seq<char>) -> Seq<char>
    decreases s.len(),
{
    if s.len() > 0 && white_space(s.last()) {
        trim_end(s.drop_last())
    } else {
        s
    }
}

/// `s` without its leading and trailing white space.
pub open spec fn trim(s: Seq<char>) -> Seq<char> {
    trim_end(trim_start(s))
}

/// The pieces of `s` between occurrences of `sep`, in order. There is always
/// at least one piece; `k` separators give `k + 1` pieces, empty ones included.
pub open spec fn split(s: Seq<char>, sep: char) -> Seq<Seq<char>>
    decreases s.len(),
{
    if s.len() == 0 {
        seq![Seq::<char>::empty()]
    } else {
        let before = split(s.drop_last(), sep);
        if s.last() == sep {
            before.push(Seq::<char>::empty())
        } else {
            before.drop_last().push(before.last().push(s.last()))
        }
    }
}

/// The character that writes the digit `d`.
pub open spec fn digit(d: int) -> char {
    if d == 0 {
        '0'
    } else if d == 1 {
        '1'
    } else if d == 2 {
        '2'
    } else if d == 3 {
        '3'
    } else if d == 4 {
        '4'
    } else if d == 5 {
        '5'
    } else if d == 6 {
        '6'
    } else if d == 7 {
        '7'
    } else if d == 8 {
        '8'
    } else {
        '9'
    }
}

/// The decimal numeral of `n`, without leading zeros.
pub open spec fn digits(n: nat) -> Seq<char>
    decreases n,
{
    if n < 10 {
        seq![digit(n as int)]
    } else {
        digits(n / 10).push(digit((n % 10) as int))
    }
}

/// The decimal numeral of `n`, with a minus sign in front where `n` is
/// negative.
pub open spec fn decimal(n: int) -> Seq<char> {
    if n < 0 {
        seq!['-'] + digits((-n) as nat)
    } else {
        digits(n as nat)
    }
}

/// The views of a sequence of character vectors, in order.
pub open spec fn piece_views(pieces: Seq<Vec<char>>) -> Seq<Seq<char>> {
    Seq::new(pieces.len(), |i: int| pieces[i]@)
}

/// Appends one character to a string.
///
/// Calls `String::push` of the standard library, which is documented to
/// append the given character to the end of the string; the contract says
/// that and nothing else.
#[verifier::external_body]
pub(crate) fn push_char(s: &mut String, c: char)
    ensures
        final(s)@ == old(s)@.push(c),
{
    s.push(c);
}

/// The characters of `s`, in order.
pub fn chars_of(s: &str) -> (out: Vec<char>)
    ensures
        out@ == s@,
{
    let mut out: Vec<char> = Vec::new();
    for c in it: s.chars()
        invariant
            out@ == it.seq().take(it.index() as int),
            it.seq() == s@,
    {
        out.push(c);
    }
    out
}

/// The string made of the characters of `chars`, in order.
pub fn string_of(chars: &Vec<char>) -> (out: String)
    ensures
        out@ == chars@,
{
    let mut out: String = String::new();
    let mut i: usize = 0;
    while i < chars.len()
        invariant
            i <= chars.len(),
            out@ == chars@.take(i as int),
        decreases chars.len() - i,
    {
        push_char(&mut out, chars[i]);
        i += 1;
    }
    out
}

/// Whether `c` is white space.
pub fn is_white_space(c: char) -> (r: bool)
    ensures
        r == white_space(c),
{
    let u: u32 = c as u32;
    (0x09 <= u && u <= 0x0D) || u == 0x20 || u == 0x85 || u == 0xA0 || u == 0x1680 || (0x2000 <= u
        && u <= 0x200A) || u == 0x2028 || u == 0x2029 || u == 0x202F || u == 0x205F || u == 0x3000
}

/// `chars` without its leading and trailing white space.
pub fn trimmed(chars: &Vec<char>) -> (out: Vec<char>)
    ensures
        out@ == trim(chars@),
{
    let n: usize = chars.len();
    let mut start: usize = 0;
    assert(chars@.skip(0) == chars@);
    while start < n && is_white_space(chars[start])
        invariant
            n == chars.len(),
            start <= n,
            trim_start(chars@) == trim_start(chars@.skip(start as int)),
        decreases n - start,
    {
        assert(chars@.skip(start as int).drop_first() == chars@.skip(start as int + 1));
        start += 1;
    }
    assert(trim_start(chars@) == chars@.skip(start as int));
    let mut end: usize = n;
    while end > start && is_white_space(chars[end - 1])
        invariant
            n == chars.len(),
            start <= end <= n,
            trim(chars@) == trim_end(chars@.subrange(start as int, end as int)),
        decreases end - start,
    {
        assert(chars@.subrange(start as int, end as int).drop_last() == chars@.subrange(
            start as int,
            end as int - 1,
        ));
        end -= 1;
    }
    let mut out: Vec<char> = Vec::new();
    let mut i: usize = start;
    while i < end
        invariant
            start <= i <= end <= chars.len(),
            out@ == chars@.subrange(start as int, i as int),
        decreases end - i,
    {
        out.push(chars[i]);
        i += 1;
    }
    out
}

/// Whether `chars` begins with `prefix`.
pub fn starts_with(chars: &Vec<char>, prefix: &Vec<char>) -> (r: bool)
    ensures
        r == prefix@.is_prefix_of(chars@),
{
    if prefix.len() > chars.len() {
        return false;
    }
    let mut i: usize = 0;
    while i < prefix.len()
        invariant
            i <= prefix.len() <= chars.len(),
            forall|k: int| 0 <= k < i ==> prefix@[k] == chars@[k],
        decreases prefix.len() - i,
    {
        if prefix[i] != chars[i] {
            return false;
        }
        i += 1;
    }
    assert(prefix@ == chars@.subrange(0, prefix@.len() as int));
    true
}

/// The part of `chars` from position `from` on.
pub fn tail_from(chars: &Vec<char>, from: usize) -> (out: Vec<char>)
    requires
        from <= chars.len(),
    ensures
        out@ == chars@.skip(from as int),
{
    let mut out: Vec<char> = Vec::new();
    let mut i: usize = from;
    while i < chars.len()
        invariant
            from <= i <= chars.len(),
            out@ == chars@.subrange(from as int, i as int),
        decreases chars.len() - i,
    {
        out.push(chars[i]);
        i += 1;
    }
    out
}

/// The pieces of `chars` between occurrences of `sep`, in order.
pub fn split_on(chars: &Vec<char>, sep: char) -> (out: Vec<Vec<char>>)
    ensures
        piece_views(out@) == split(chars@, sep),
{
    let mut out: Vec<Vec<char>> = Vec::new();
    let mut current: Vec<char> = Vec::new();
    let mut i: usize = 0;
    while i < chars.len()
        invariant
            i <= chars.len(),
            piece_views(out@).push(current@) == split(chars@.take(i as int), sep),
        decreases chars.len() - i,
    {
        let ghost before = split(chars@.take(i as int), sep);
        let ghost grown = chars@.take(i as int + 1);
        assert(grown.drop_last() == chars@.take(i as int));
        assert(grown.last() == chars@[i as int]);
        assert(before.last() == current@);
        assert(before.drop_last() == piece_views(out@));
        if chars[i] == sep {
            let done = current;
            current = Vec::new();
            out.push(done);
            assert(piece_views(out@) == before);
        } else {
            current.push(chars[i]);
        }
        i += 1;
    }
    assert(chars@.take(i as int) == chars@);
    out.push(current);
    out
}

/// The character that writes the digit `d`.
pub fn digit_char(d: u64) -> (c: char)
    requires
        d < 10,
    ensures
        c == digit(d as int),
{
    if d == 0 {
        '0'
    } else if d == 1 {
        '1'
    } else if d == 2 {
        '2'
    } else if d == 3 {
        '3'
    } else if d == 4 {
        '4'
    } else if d == 5 {
        '5'
    } else if d == 6 {
        '6'
    } else if d == 7 {
        '7'
    } else if d == 8 {
        '8'
    } else {
        '9'
    }
}

/// Appends the decimal numeral of `n` to `out`.
pub fn append_digits(out: &mut String, n: u64)
    ensures
        final(out)@ == old(out)@ + digits(n as nat),
    decreases n,
{
    if n >= 10 {
        append_digits(out, n / 10);
    }
    push_char(out, digit_char(n % 10));
}

/// Appends the decimal numeral of `n` to `out`, with a minus sign in front
/// where `n` is negative.
pub fn append_decimal(out: &mut String, n: i32)
    ensures
        final(out)@ == old(out)@ + decimal(n as int),
{
    let wide: i64 = n as i64;
    if wide < 0 {
        push_char(out, '-');
        append_digits(out, (-wide) as u64);
    } else {
        append_digits(out, wide as u64);
    }
}

} // verus!
