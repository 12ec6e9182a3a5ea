//! Text helpers over character sequences: conversion between strings and
//! characters, substring search, trimming, word splitting and decimal
//! numbers.

use vstd::prelude::*;

verus! {

/// `String::push` of the standard library appends one character to the end
/// of the string and leaves the rest as it was.
pub assume_specification[ String::push ](s: &mut String, c: char)
    ensures
        final(s)@ == old(s)@.push(c),
;

/// The characters of `s`, in order.
pub fn chars_of(s: &str) -> (v: Vec<char>)
    ensures
        v@ == s@,
{
    let mut v: Vec<char> = Vec::new();
    for c in it: s.chars()
        invariant
            v@ == it.seq().take(it.index() as int),
            it.seq() == s@,
    {
        v.push(c);
    }
    v
}

/// The string made of the characters `chars[from..to]`.
pub fn text_of(chars: &Vec<char>, from: usize, to: usize) -> (s: String)
    requires
        from <= to <= chars@.len(),
    ensures
        s@ == chars@.subrange(from as int, to as int),
{
    let mut s: String = String::new();
    let mut i: usize = from;
    while i < to
        invariant
            from <= i <= to <= chars@.len(),
            s@ == chars@.subrange(from as int, i as int),
        decreases to - i,
    {
        s.push(chars[i]);
        i += 1;
    }
    s
}

/// Whether `needle` stands in `hay` at index `at`.
pub open spec fn occurs_at(needle: Seq<char>, hay: Seq<char>, at: int) -> bool {
    &&& 0 <= at
    &&& at + needle.len() <= hay.len()
    &&& hay.subrange(at, at + needle.len()) == needle
}

/// Whether `needle` is a contiguous part of `hay`. The empty sequence is part
/// of every sequence.
pub open spec fn is_substring(needle: Seq<char>, hay: Seq<char>) -> bool {
    exists|at: int| occurs_at(needle, hay, at)
}

fn matches_at(hay: &Vec<char>, needle: &Vec<char>, at: usize) -> (found: bool)
    requires
        at + needle@.len() <= hay@.len(),
    ensures
        found == occurs_at(needle@, hay@, at as int),
{
    let size: usize = hay.len();
    let mut k: usize = 0;
    while k < needle.len()
        invariant
            k <= needle@.len(),
            at + needle@.len() <= hay@.len() == size,
            forall|j: int| 0 <= j < k ==> hay@[at + j] == needle@[j],
        decreases needle@.len() - k,
    {
        if hay[at + k] != needle[k] {
            return false;
        }
        k += 1;
    }
    assert(hay@.subrange(at as int, at + needle@.len()) =~= needle@);
    true
}

/// Substring search over characters.
pub fn contains_chars(hay: &Vec<char>, needle: &Vec<char>) -> (found: bool)
    ensures
        found == is_substring(needle@, hay@),
{
    if needle.len() > hay.len() {
        return false;
    }
    let last: usize = hay.len() - needle.len();
    let mut at: usize = 0;
    loop
        invariant
            at <= last,
            last == hay@.len() - needle@.len(),
            forall|k: int| 0 <= k < at ==> !occurs_at(needle@, hay@, k),
        decreases last - at,
    {
        if matches_at(hay, needle, at) {
            return true;
        }
        if at == last {
            return false;
        }
        at += 1;
    }
}

/// Whether the text `needle` is a contiguous part of the text `hay`.
pub fn contains(hay: &str, needle: &str) -> (found: bool)
    ensures
        found == is_substring(needle@, hay@),
{
    let h = chars_of(hay);
    let n = chars_of(needle);
    contains_chars(&h, &n)
}

/// Whether two texts hold the same characters.
pub fn same_text(a: &str, b: &str) -> (same: bool)
    ensures
        same == (a@ == b@),
{
    let x = chars_of(a);
    let y = chars_of(b);
    if x.len() != y.len() {
        return false;
    }
    let mut i: usize = 0;
    while i < x.len()
        invariant
            i <= x@.len(),
            x@.len() == y@.len(),
            x@ == a@,
            y@ == b@,
            forall|j: int| 0 <= j < i ==> x@[j] == y@[j],
        decreases x@.len() - i,
    {
        if x[i] != y[i] {
            return false;
        }
        i += 1;
    }
    assert(x@ =~= y@);
    true
}

/// Whether `c` has the Unicode property `White_Space`.
pub open spec fn is_space(c: char) -> bool {
    let code = c as u32;
    ||| 0x09 <= code <= 0x0D
    ||| code == 0x20
    ||| code == 0x85
    ||| code == 0xA0
    ||| code == 0x1680
    ||| 0x2000 <= code <= 0x200A
    ||| code == 0x2028
    ||| code == 0x2029
    ||| code == 0x202F
    ||| code == 0x205F
    ||| code == 0x3000
}

/// Whether `c` is a whitespace character.
pub fn is_whitespace(c: char) -> (space: bool)
    ensures
        space == is_space(c),
{
    let code: u32 = c as u32;
    (0x09 <= code && code <= 0x0D) || code == 0x20 || code == 0x85 || code == 0xA0 || code
        == 0x1680 || (0x2000 <= code && code <= 0x200A) || code == 0x2028 || code == 0x2029 || code
        == 0x202F || code == 0x205F || code == 0x3000
}

/// A set of characters to strip from the ends of a text.
#[derive(Debug, Clone, Copy)]
pub enum Strip {
    /// Whitespace characters.
    Whitespace,
    /// Round brackets, opening and closing.
    Parentheses,
}

impl Strip {
    /// Whether `c` is one of the characters to strip.
    pub open spec fn takes(self, c: char) -> bool {
        match self {
            Strip::Whitespace => is_space(c),
            Strip::Parentheses => c == '(' || c == ')',
        }
    }

    fn matches(self, c: char) -> (taken: bool)
        ensures
            taken == self.takes(c),
    {
        match self {
            Strip::Whitespace => is_whitespace(c),
            Strip::Parentheses => c == '(' || c == ')',
        }
    }
}

/// `s` without its leading characters of the set `what`.
pub open spec fn strip_start(s: Seq<char>, what: Strip) -> Seq<char>
    decreases s.len(),
{
    if s.len() > 0 && what.takes(s[0]) {
        strip_start(s.skip(1), what)
    } else {
        s
    }
}

/// `s` without its trailing characters of the set `what`.
pub open spec fn strip_end(s: Seq<char>, what: Strip) -> Seq<char>
    decreases s.len(),
{
    if s.len() > 0 && what.takes(s.last()) {
        strip_end(s.drop_last(), what)
    } else {
        s
    }
}

/// `s` without its leading and trailing characters of the set `what`.
pub open spec fn strip(s: Seq<char>, what: Strip) -> Seq<char> {
    strip_end(strip_start(s, what), what)
}

/// `s` without leading and trailing whitespace.
pub open spec fn trim(s: Seq<char>) -> Seq<char> {
    strip(s, Strip::Whitespace)
}

/// The bounds of `chars[from..to]` once the characters of the set `what` are
/// stripped from both ends.
pub fn strip_range(chars: &Vec<char>, from: usize, to: usize, what: Strip) -> (bounds: (
    usize,
    usize,
))
    requires
        from <= to <= chars@.len(),
    ensures
        from <= bounds.0 <= bounds.1 <= to,
        chars@.subrange(bounds.0 as int, bounds.1 as int) == strip(
            chars@.subrange(from as int, to as int),
            what,
        ),
{
    let mut lo: usize = from;
    while lo < to && what.matches(chars[lo])
        invariant
            from <= lo <= to <= chars@.len(),
            strip_start(chars@.subrange(from as int, to as int), what) == strip_start(
                chars@.subrange(lo as int, to as int),
                what,
            ),
        decreases to - lo,
    {
        assert(chars@.subrange(lo as int, to as int).skip(1) =~= chars@.subrange(
            lo + 1,
            to as int,
        ));
        lo += 1;
    }
    let mut hi: usize = to;
    while lo < hi && what.matches(chars[hi - 1])
        invariant
            lo <= hi <= to <= chars@.len(),
            strip_end(chars@.subrange(lo as int, to as int), what) == strip_end(
                chars@.subrange(lo as int, hi as int),
                what,
            ),
        decreases hi - lo,
    {
        assert(chars@.subrange(lo as int, hi as int).drop_last() =~= chars@.subrange(
            lo as int,
            hi - 1,
        ));
        hi -= 1;
    }
    (lo, hi)
}

/// The index of the first whitespace character at or after `from`, or the
/// length of `s` where there is none.
pub open spec fn word_end(s: Seq<char>, from: int) -> int
    decreases s.len() - from,
{
    if 0 <= from < s.len() && !is_space(s[from]) {
        word_end(s, from + 1)
    } else {
        from
    }
}

/// Whether a word begins at index `at`: a character that is no whitespace,
/// at the start of `s` or behind a whitespace character.
pub open spec fn is_word_start(s: Seq<char>, at: int) -> bool {
    &&& 0 <= at < s.len()
    &&& !is_space(s[at])
    &&& (at == 0 || is_space(s[at - 1]))
}

/// The words that begin at or after index `from`, in order.
pub open spec fn words_from(s: Seq<char>, from: int) -> Seq<Seq<char>>
    decreases s.len() - from,
{
    if from < 0 || from >= s.len() {
        Seq::empty()
    } else if is_word_start(s, from) {
        seq![s.subrange(from, word_end(s, from))] + words_from(s, from + 1)
    } else {
        words_from(s, from + 1)
    }
}

/// The maximal runs of characters of `s` that are no whitespace, in order.
pub open spec fn words(s: Seq<char>) -> Seq<Seq<char>> {
    words_from(s, 0)
}

/// The bounds of each word of `chars`, in order.
pub fn split_words(chars: &Vec<char>) -> (parts: Vec<(usize, usize)>)
    ensures
        parts@.len() == words(chars@).len(),
        forall|k: int|
            0 <= k < parts@.len() ==> {
                &&& (#[trigger] parts@[k]).0 < parts@[k].1 <= chars@.len()
                &&& chars@.subrange(parts@[k].0 as int, parts@[k].1 as int) == words(chars@)[k]
            },
{
    let size: usize = chars.len();
    let mut parts: Vec<(usize, usize)> = Vec::new();
    let ghost mut done: Seq<Seq<char>> = Seq::empty();
    let mut at: usize = 0;
    while at < size
        invariant
            at <= size == chars@.len(),
            !(0 < at < size && !is_space(chars@[at - 1]) && !is_space(chars@[at as int])),
            words(chars@) == done + words_from(chars@, at as int),
            done.len() == parts@.len(),
            forall|k: int|
                0 <= k < parts@.len() ==> {
                    &&& (#[trigger] parts@[k]).0 < parts@[k].1 <= chars@.len()
                    &&& chars@.subrange(parts@[k].0 as int, parts@[k].1 as int) == done[k]
                },
        decreases size - at,
    {
        if is_whitespace(chars[at]) {
            at += 1;
        } else {
            let mut end: usize = at + 1;
            while end < size && !is_whitespace(chars[end])
                invariant
                    at < end <= size == chars@.len(),
                    forall|j: int| at <= j < end ==> !is_space(chars@[j]),
                    word_end(chars@, at as int) == word_end(chars@, end as int),
                    words_from(chars@, at + 1) == words_from(chars@, end as int),
                decreases size - end,
            {
                end += 1;
            }
            let ghost word = chars@.subrange(at as int, end as int);
            proof {
                done = done.push(word);
            }
            parts.push((at, end));
            at = end;
        }
    }
    parts
}

/// Whether `c` is a decimal digit.
pub open spec fn is_digit(c: char) -> bool {
    0x30 <= c as u32 <= 0x39
}

/// Whether `s` holds decimal digits only.
pub open spec fn all_digits(s: Seq<char>) -> bool {
    forall|i: int| 0 <= i < s.len() ==> is_digit(#[trigger] s[i])
}

/// The number that the decimal digits `s` write.
pub open spec fn digits_value(s: Seq<char>) -> nat
    decreases s.len(),
{
    if s.len() == 0 {
        0
    } else {
        (digits_value(s.drop_last()) * 10 + (s.last() as u32 - 0x30)) as nat
    }
}

/// The number that `s` writes, if `s` is an optional `+` followed by one or
/// more decimal digits and nothing else, and the number is at most `max`.
pub open spec fn parse_decimal(s: Seq<char>, max: nat) -> Option<nat> {
    let digits = if s.len() > 0 && s[0] == '+' {
        s.skip(1)
    } else {
        s
    };
    if digits.len() > 0 && all_digits(digits) && digits_value(digits) <= max {
        Some(digits_value(digits))
    } else {
        None
    }
}

/// A longer run of digits never writes a smaller number than its start.
proof fn lemma_digits_value_grows(s: Seq<char>, k: int)
    requires
        0 <= k <= s.len(),
        all_digits(s),
    ensures
        digits_value(s.take(k)) <= digits_value(s),
    decreases s.len() - k,
{
    if k < s.len() {
        lemma_digits_value_grows(s, k + 1);
        assert(s.take(k + 1).drop_last() =~= s.take(k));
    } else {
        assert(s.take(k) =~= s);
    }
}

/// Reads `chars[from..to]` as a decimal number of 64 bits.
pub fn parse_u64(chars: &Vec<char>, from: usize, to: usize) -> (value: Option<u64>)
    requires
        from <= to <= chars@.len(),
    ensures
        match value {
            Some(v) => parse_decimal(chars@.subrange(from as int, to as int), u64::MAX as nat)
                == Some(v as nat),
            None => parse_decimal(chars@.subrange(from as int, to as int), u64::MAX as nat)
                is None,
        },
{
    let ghost text = chars@.subrange(from as int, to as int);
    let start: usize = if from < to && chars[from] == '+' {
        from + 1
    } else {
        from
    };
    let ghost digits = chars@.subrange(start as int, to as int);
    if start == to {
        return None;
    }
    let mut total: u64 = 0;
    let mut at: usize = start;
    while at < to
        invariant
            start <= at <= to <= chars@.len(),
            digits == chars@.subrange(start as int, to as int),
            text == chars@.subrange(from as int, to as int),
            digits == (if text.len() > 0 && text[0] == '+' {
                text.skip(1)
            } else {
                text
            }),
            all_digits(digits.take(at - start)),
            total == digits_value(digits.take(at - start)),
        decreases to - at,
    {
        let code: u32 = chars[at] as u32;
        proof {
            assert(digits.take(at - start + 1).drop_last() =~= digits.take(at - start));
        }
        if code < 0x30 || code > 0x39 {
            assert(!is_digit(digits[at - start]));
            return None;
        }
        let digit: u64 = (code - 0x30) as u64;
        if total > (u64::MAX - digit) / 10 {
            proof {
                if all_digits(digits) {
                    lemma_digits_value_grows(digits, at - start + 1);
                }
            }
            return None;
        }
        total = total * 10 + digit;
        at += 1;
    }
    proof {
        assert(digits.take(at - start) =~= digits);
    }
    Some(total)
}

/// Reads `chars[from..to]` as a decimal number of 32 bits.
pub fn parse_u32(chars: &Vec<char>, from: usize, to: usize) -> (value: Option<u32>)
    requires
        from <= to <= chars@.len(),
    ensures
        match value {
            Some(v) => parse_decimal(chars@.subrange(from as int, to as int), u32::MAX as nat)
                == Some(v as nat),
            None => parse_decimal(chars@.subrange(from as int, to as int), u32::MAX as nat)
                is None,
        },
{
    match parse_u64(chars, from, to) {
        Some(v) => if v <= u32::MAX as u64 {
            Some(v as u32)
        } else {
            None
        },
        None => None,
    }
}

/// The character that writes the digit `d`.
pub open spec fn digit_char(d: nat) -> char {
    ((0x30 + d) as u8) as char
}

/// The decimal digits of `n`, without leading zeros.
pub open spec fn decimal(n: nat) -> Seq<char>
    decreases n,
{
    if n < 10 {
        seq![digit_char(n)]
    } else {
        decimal(n / 10).push(digit_char(n % 10))
    }
}

/// `n` in decimal digits.
pub fn decimal_text(n: u64) -> (s: String)
    ensures
        s@ == decimal(n as nat),
{
    let mut reversed: Vec<char> = Vec::new();
    let mut rest: u64 = n;
    while rest >= 10
        invariant
            decimal(n as nat) == decimal(rest as nat) + reversed@.reverse(),
        decreases rest,
    {
        let digit: u8 = (rest % 10) as u8;
        reversed.push((0x30 + digit) as char);
        rest = rest / 10;
    }
    reversed.push((0x30 + rest as u8) as char);
    let mut s: String = String::new();
    let mut left: usize = reversed.len();
    while left > 0
        invariant
            left <= reversed@.len(),
            s@ == reversed@.reverse().take(reversed@.len() - left),
        decreases left,
    {
        left -= 1;
        s.push(reversed[left]);
    }
    s
}

/// `i` in decimal digits, behind a minus sign where it is negative.
pub open spec fn signed_decimal(i: int) -> Seq<char> {
    if i < 0 {
        seq!['-'] + decimal((-i) as nat)
    } else {
        decimal(i as nat)
    }
}

/// `i` in decimal digits, behind a minus sign where it is negative.
pub fn signed_decimal_text(i: i32) -> (s: String)
    ensures
        s@ == signed_decimal(i as int),
{
    if i < 0 {
        let size: u64 = (-(i as i64)) as u64;
        let digits = decimal_text(size);
        let mut s: String = String::new();
        s.push('-');
        s.append(digits.as_str());
        s
    } else {
        decimal_text(i as u64)
    }
}

} // verus!
