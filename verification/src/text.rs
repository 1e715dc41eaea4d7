//! Text as sequences of characters: white space, lines, words and decimal
//! numbers, as the services and the configuration read and write them.

use vstd::prelude::*;
use vstd::string::StrSliceExecFns;

verus! {

/// Whether a character is white space in the sense of Unicode: the characters
/// that carry the property `White_Space`.
pub open spec fn is_space(c: char) -> bool {
    let u = c as u32;
    ||| 0x09 <= u <= 0x0D
    ||| u == 0x20
    ||| u == 0x85
    ||| u == 0xA0
    ||| u == 0x1680
    ||| 0x2000 <= u <= 0x200A
    ||| u == 0x2028
    ||| u == 0x2029
    ||| u == 0x202F
    ||| u == 0x205F
    ||| u == 0x3000
}

/// Tells white space from other characters.
pub fn is_white_space(c: char) -> (b: bool)
    ensures
        b == is_space(c),
{
    let u: u32 = c as u32;
    (0x09 <= u && u <= 0x0D) || u == 0x20 || u == 0x85 || u == 0xA0 || u == 0x1680 || (0x2000 <= u
        && u <= 0x200A) || u == 0x2028 || u == 0x2029 || u == 0x202F || u == 0x205F || u == 0x3000
}

/// What a scan through a text looks for.
#[derive(Clone, Copy, Debug, PartialEq, Eq, Structural)]
pub enum Mark {
    /// A white space character.
    Space,
    /// A character that is no white space.
    Ink,
    /// This very character.
    Char(char),
}

impl Mark {
    /// Whether `c` is what the scan looks for.
    pub open spec fn hits(self, c: char) -> bool {
        match self {
            Mark::Space => is_space(c),
            Mark::Ink => !is_space(c),
            Mark::Char(wanted) => c == wanted,
        }
    }

    /// Tells whether `c` is what the scan looks for.
    pub fn matches_char(self, c: char) -> (b: bool)
        ensures
            b == self.hits(c),
    {
        match self {
            Mark::Space => is_white_space(c),
            Mark::Ink => !is_white_space(c),
            Mark::Char(wanted) => c == wanted,
        }
    }
}

/// The index of the first character at or behind `from` that `mark` looks for,
/// or the length of the text where there is none.
pub open spec fn find(s: Seq<char>, from: int, mark: Mark) -> int
    decreases s.len() - from,
{
    if from >= s.len() {
        s.len() as int
    } else if mark.hits(s[from]) {
        from
    } else {
        find(s, from + 1, mark)
    }
}

/// What `find` returns lies between `from` and the end of the text, the mark
/// is there unless it is the end, and it is nowhere between `from` and there.
pub proof fn lemma_find(s: Seq<char>, from: int, mark: Mark)
    requires
        0 <= from <= s.len(),
    ensures
        from <= find(s, from, mark) <= s.len(),
        find(s, from, mark) < s.len() ==> mark.hits(s[find(s, from, mark)]),
        forall|i: int| from <= i < find(s, from, mark) ==> !mark.hits(#[trigger] s[i]),
    decreases s.len() - from,
{
    if from < s.len() && !mark.hits(s[from]) {
        lemma_find(s, from + 1, mark);
    }
}

/// A scan through the rest of a text finds what a scan through the whole text
/// finds behind the part that was cut off.
pub proof fn lemma_find_skip(s: Seq<char>, cut: int, from: int, mark: Mark)
    requires
        0 <= cut <= s.len(),
        0 <= from,
    ensures
        find(s.skip(cut), from, mark) + cut == find(s, cut + from, mark),
    decreases s.len() - cut - from,
{
    if from < s.len() - cut {
        assert(s.skip(cut)[from] == s[cut + from]);
        if !mark.hits(s[cut + from]) {
            lemma_find_skip(s, cut, from + 1, mark);
        }
    }
}

/// A scan that ends inside the front part of a text ends at the same place in
/// that front part alone.
pub proof fn lemma_find_take(s: Seq<char>, end: int, from: int, mark: Mark)
    requires
        0 <= from <= end <= s.len(),
    ensures
        find(s.take(end), from, mark) == if find(s, from, mark) < end {
            find(s, from, mark)
        } else {
            end
        },
    decreases end - from,
{
    if from < end {
        assert(s.take(end)[from] == s[from]);
        if !mark.hits(s[from]) {
            lemma_find_take(s, end, from + 1, mark);
        }
    } else {
        lemma_find(s, from, mark);
    }
}

/// Scans `chars` from `from` on for `mark`.
pub fn scan(chars: &[char], from: usize, mark: Mark) -> (at: usize)
    requires
        from <= chars@.len(),
    ensures
        at == find(chars@, from as int, mark),
        from <= at <= chars@.len(),
{
    let mut at: usize = from;
    while at < chars.len() && !mark.matches_char(chars[at])
        invariant
            from <= at <= chars@.len(),
            find(chars@, from as int, mark) == find(chars@, at as int, mark),
        decreases chars@.len() - at,
    {
        at += 1;
    }
    at
}

/// The characters of a string, one by one.
pub fn chars_of(s: &str) -> (chars: Vec<char>)
    ensures
        chars@ == s@,
{
    let mut chars: Vec<char> = Vec::new();
    for c in it: s.chars()
        invariant
            chars@ == it.seq().take(it.index()),
            it.seq() == s@,
    {
        chars.push(c);
    }
    chars
}

/// The text without the white space at its start.
pub open spec fn trim_start(s: Seq<char>) -> Seq<char> {
    s.skip(find(s, 0, Mark::Ink))
}

/// The text without the white space at its end.
pub open spec fn trim_end(s: Seq<char>) -> Seq<char>
    decreases s.len(),
{
    if s.len() > 0 && is_space(s.last()) {
        trim_end(s.drop_last())
    } else {
        s
    }
}

/// The text without the white space at its start and at its end.
pub open spec fn trim(s: Seq<char>) -> Seq<char> {
    trim_end(trim_start(s))
}

/// The length of the text without the white space at its end.
pub fn trimmed_len(chars: &[char]) -> (len: usize)
    ensures
        len <= chars@.len(),
        chars@.take(len as int) == trim_end(chars@),
{
    let mut len: usize = chars.len();
    assert(chars@.take(len as int) =~= chars@);
    while len > 0 && is_white_space(chars[len - 1])
        invariant
            len <= chars@.len(),
            trim_end(chars@) == trim_end(chars@.take(len as int)),
        decreases len,
    {
        assert(chars@.take(len as int).drop_last() =~= chars@.take(len - 1));
        len -= 1;
    }
    len
}

/// The views of the strings of a list.
pub open spec fn texts(list: Seq<String>) -> Seq<Seq<char>> {
    Seq::new(list.len(), |i: int| list[i]@)
}

/// A line without the carriage return at its end, if it has one.
pub open spec fn strip_cr(line: Seq<char>) -> Seq<char> {
    if line.len() > 0 && line.last() == '\r' {
        line.drop_last()
    } else {
        line
    }
}

/// The lines of a text. A line ends at a line feed, or at a carriage return
/// in front of one, and neither belongs to it; a carriage return alone ends
/// nothing. What follows the last line feed is a line of its own unless it is
/// empty.
pub open spec fn lines(s: Seq<char>) -> Seq<Seq<char>>
    decreases s.len(),
{
    let feed = find(s, 0, Mark::Char('\n'));
    if s.len() == 0 {
        Seq::empty()
    } else if 0 <= feed < s.len() {
        seq![strip_cr(s.take(feed))] + lines(s.skip(feed + 1))
    } else {
        seq![s]
    }
}

/// Splits a text into its lines.
pub fn split_lines(text: &str) -> (out: Vec<String>)
    ensures
        texts(out@) == lines(text@),
{
    let chars: Vec<char> = chars_of(text);
    let mut out: Vec<String> = Vec::new();
    let mut pos: usize = 0;
    assert(text@.skip(0) =~= text@);
    assert(texts(out@) + lines(text@) =~= lines(text@));
    while pos < chars.len()
        invariant
            pos <= chars@.len(),
            chars@ == text@,
            texts(out@) + lines(text@.skip(pos as int)) == lines(text@),
        decreases chars@.len() - pos,
    {
        let ghost rest = text@.skip(pos as int);
        let ghost before = texts(out@);
        let feed: usize = scan(chars.as_slice(), pos, Mark::Char('\n'));
        proof {
            lemma_find_skip(text@, pos as int, 0, Mark::Char('\n'));
        }
        if feed >= chars.len() {
            let line: String = text.substring_char(pos, chars.len()).to_owned();
            assert(line@ =~= rest);
            out.push(line);
            assert(texts(out@) =~= before + seq![rest]);
            pos = chars.len();
            assert(lines(text@.skip(pos as int)) =~= Seq::<Seq<char>>::empty());
        } else {
            let end: usize = if feed > pos && chars[feed - 1] == '\r' {
                feed - 1
            } else {
                feed
            };
            let line: String = text.substring_char(pos, end).to_owned();
            assert(rest.take(feed - pos) =~= text@.subrange(pos as int, feed as int));
            assert(line@ =~= strip_cr(rest.take(feed - pos)));
            out.push(line);
            assert(texts(out@) =~= before + seq![strip_cr(rest.take(feed - pos))]);
            assert(rest.skip(feed - pos + 1) =~= text@.skip(feed + 1));
            pos = feed + 1;
        }
    }
    assert(lines(text@.skip(pos as int)) =~= Seq::<Seq<char>>::empty());
    out
}

/// The character of a decimal digit.
pub open spec fn digit(d: nat) -> char
    recommends
        d < 10,
{
    if d == 0 {
        '0'
    } else if d == 1 {
        '1'
    } else if d == 2 {
        '2'
    } else if d == 3 {
        '3'
    } else if d == 4 {
        '4'
    } else if d == 5 {
        '5'
    } else if d == 6 {
        '6'
    } else if d == 7 {
        '7'
    } else if d == 8 {
        '8'
    } else {
        '9'
    }
}

/// A number in decimal digits, without a sign and without leading zeros.
pub open spec fn decimal(n: nat) -> Seq<char>
    decreases n,
{
    if n < 10 {
        seq![digit(n)]
    } else {
        decimal(n / 10).push(digit(n % 10))
    }
}

/// One decimal digit as a string.
fn digit_str(d: usize) -> (s: &'static str)
    requires
        d < 10,
    ensures
        s@ == seq![digit(d as nat)],
{
    proof {
        reveal_strlit("0");
        reveal_strlit("1");
        reveal_strlit("2");
        reveal_strlit("3");
        reveal_strlit("4");
        reveal_strlit("5");
        reveal_strlit("6");
        reveal_strlit("7");
        reveal_strlit("8");
        reveal_strlit("9");
    }
    let s: &'static str = if d == 0 {
        "0"
    } else if d == 1 {
        "1"
    } else if d == 2 {
        "2"
    } else if d == 3 {
        "3"
    } else if d == 4 {
        "4"
    } else if d == 5 {
        "5"
    } else if d == 6 {
        "6"
    } else if d == 7 {
        "7"
    } else if d == 8 {
        "8"
    } else {
        "9"
    };
    assert(s@ =~= seq![digit(d as nat)]);
    s
}

/// Appends a number in decimal digits to a string.
pub fn push_decimal(out: &mut String, n: usize)
    ensures
        final(out)@ == old(out)@ + decimal(n as nat),
    decreases n,
{
    if n >= 10 {
        push_decimal(out, n / 10);
    }
    out.append(digit_str(n % 10));
    assert(out@ =~= old(out)@ + decimal(n as nat));
}

/// Whether a character is a decimal digit.
pub open spec fn is_digit(c: char) -> bool {
    0x30 <= c as u32 <= 0x39
}

/// The value of a decimal digit.
pub open spec fn digit_value(c: char) -> nat
    recommends
        is_digit(c),
{
    (c as u32 - 0x30) as nat
}

/// Whether a text holds decimal digits only.
pub open spec fn all_digits(s: Seq<char>) -> bool {
    forall|i: int| 0 <= i < s.len() ==> is_digit(#[trigger] s[i])
}

/// The number that a text of decimal digits spells.
pub open spec fn digits_value(s: Seq<char>) -> nat
    decreases s.len(),
{
    if s.len() == 0 {
        0
    } else {
        digits_value(s.drop_last()) * 10 + digit_value(s.last())
    }
}

/// A text without the plus sign in front of it, if it has one.
pub open spec fn unsigned_part(s: Seq<char>) -> Seq<char> {
    if s.len() > 0 && s[0] == '+' {
        s.skip(1)
    } else {
        s
    }
}

/// The number that a text spells: decimal digits, at least one, with nothing
/// around them but an optional plus sign in front. Any other text spells no
/// number.
pub open spec fn unsigned_value(s: Seq<char>) -> Option<nat> {
    let digits = unsigned_part(s);
    if digits.len() > 0 && all_digits(digits) {
        Some(digits_value(digits))
    } else {
        None
    }
}

/// The number that a text spells, if it spells one that is at most `max`.
pub open spec fn bounded_value(s: Seq<char>, max: nat) -> Option<nat> {
    match unsigned_value(s) {
        Some(v) => if v <= max {
            Some(v)
        } else {
            None
        },
        None => None,
    }
}

/// The front part of a text of digits spells no more than the whole.
pub proof fn lemma_digits_prefix(s: Seq<char>, k: int)
    requires
        0 <= k <= s.len(),
    ensures
        digits_value(s.take(k)) <= digits_value(s),
    decreases s.len(),
{
    if k == s.len() {
        assert(s.take(k) =~= s);
    } else {
        assert(s.drop_last().take(k) =~= s.take(k));
        lemma_digits_prefix(s.drop_last(), k);
    }
}

/// Reads the number that a text spells, up to `max`.
pub fn parse_bounded(text: &str, max: u32) -> (value: Option<u32>)
    ensures
        value is Some <==> bounded_value(text@, max as nat) is Some,
        value matches Some(v) ==> bounded_value(text@, max as nat) == Some(v as nat),
{
    let chars: Vec<char> = chars_of(text);
    let start: usize = if chars.len() > 0 && chars[0] == '+' {
        1
    } else {
        0
    };
    let ghost digits = unsigned_part(text@);
    assert(digits =~= text@.skip(start as int));
    if start >= chars.len() {
        return None;
    }
    let mut acc: u64 = 0;
    let mut i: usize = start;
    assert(digits.take(0) =~= Seq::<char>::empty());
    while i < chars.len()
        invariant
            start <= i <= chars@.len(),
            chars@ == text@,
            digits == text@.skip(start as int),
            digits == unsigned_part(text@),
            digits.len() > 0,
            all_digits(digits.take(i - start)),
            acc == digits_value(digits.take(i - start)),
            acc <= max,
        decreases chars@.len() - i,
    {
        let c: char = chars[i];
        let u: u32 = c as u32;
        if u < 0x30 || u > 0x39 {
            assert(!is_digit(digits[i - start]));
            return None;
        }
        let next: u64 = acc * 10 + (u - 0x30) as u64;
        proof {
            let longer = digits.take(i - start + 1);
            assert(longer.drop_last() =~= digits.take(i - start));
            assert(longer.last() == c);
            assert(next == digits_value(longer));
            assert forall|j: int| 0 <= j < longer.len() implies is_digit(#[trigger] longer[j]) by {
                if j < i - start {
                    assert(digits.take(i - start)[j] == longer[j]);
                }
            }
        }
        if next > max as u64 {
            proof {
                lemma_digits_prefix(digits, i - start + 1);
            }
            return None;
        }
        acc = next;
        i += 1;
    }
    assert(digits.take(i - start) =~= digits);
    Some(acc as u32)
}

} // verus!
