//! Work on texts that the other modules share: decimal numerals, letters
//! without regard to case, words at a position, white space, and lists that
//! are written with a separator.
//!
//! Texts are taken character by character. What a function computes is
//! stated over `Seq<char>`, the view of a string.

use vstd::prelude::*;
use vstd::string::*;

verus! {

/// The character that stands for the digit `d`.
pub open spec fn digit_char(d: int) -> char
    recommends
        0 <= d < 10,
{
    ('0' as int + d) as char
}

/// The decimal numeral of `n`, without leading zeros.
pub open spec fn decimal(n: nat) -> Seq<char>
    decreases n,
{
    if n < 10 {
        seq![digit_char(n as int)]
    } else {
        decimal(n / 10).push(digit_char((n % 10) as int))
    }
}

fn digit_str(d: u32) -> (s: &'static str)
    requires
        d < 10,
    ensures
        s@ == seq![digit_char(d as int)],
{
    proof {
        reveal_strlit("0");
        reveal_strlit("1");
        reveal_strlit("2");
        reveal_strlit("3");
        reveal_strlit("4");
        reveal_strlit("5");
        reveal_strlit("6");
        reveal_strlit("7");
        reveal_strlit("8");
        reveal_strlit("9");
    }
    let s = if d == 0 {
        "0"
    } else if d == 1 {
        "1"
    } else if d == 2 {
        "2"
    } else if d == 3 {
        "3"
    } else if d == 4 {
        "4"
    } else if d == 5 {
        "5"
    } else if d == 6 {
        "6"
    } else if d == 7 {
        "7"
    } else if d == 8 {
        "8"
    } else {
        "9"
    };
    s
}

/// Appends the decimal numeral of `n` to `out`.
pub fn push_decimal(out: &mut String, n: u32)
    ensures
        final(out)@ == old(out)@ + decimal(n as nat),
    decreases n,
{
    if n >= 10 {
        push_decimal(out, n / 10);
    }
    out.append(digit_str(n % 10));
    proof {
        if n >= 10 {
            assert(old(out)@ + decimal((n / 10) as nat) + seq![digit_char((n % 10) as int)]
                =~= old(out)@ + decimal(n as nat));
        }
    }
}

/// The decimal numeral of `n` as a string.
pub fn decimal_string(n: u32) -> (s: String)
    ensures
        s@ == decimal(n as nat),
{
    let mut s = String::new();
    push_decimal(&mut s, n);
    s
}

/// The characters of `s`, in order.
pub fn to_chars(s: &str) -> (v: Vec<char>)
    ensures
        v@ == s@,
{
    let mut v: Vec<char> = Vec::new();
    for c in it: s.chars()
        invariant
            v@ == it.seq().take(it.index() as int),
            it.seq() == s@,
    {
        v.push(c);
    }
    v
}

/// The lower-case form of a capital letter of the basic Latin alphabet; any
/// other character is left as it is.
pub open spec fn ascii_lower(c: char) -> char {
    if 'A' <= c <= 'Z' {
        (c as int + 32) as char
    } else {
        c
    }
}

/// `s` with each of its characters put through `ascii_lower`.
pub open spec fn lowered(s: Seq<char>) -> Seq<char> {
    Seq::new(s.len(), |i: int| ascii_lower(s[i]))
}

/// Computes `ascii_lower`.
pub fn to_ascii_lower(c: char) -> (l: char)
    ensures
        l == ascii_lower(c),
{
    if c >= 'A' && c <= 'Z' {
        let code: u8 = c as u8;
        (code + 32) as char
    } else {
        c
    }
}

/// Tells whether `chars`, in lower case, spell `word`.
pub fn spells_ignoring_case(chars: &Vec<char>, word: &str) -> (b: bool)
    ensures
        b == (lowered(chars@) == word@),
{
    let letters = to_chars(word);
    if chars.len() != letters.len() {
        return false;
    }
    let mut i: usize = 0;
    while i < chars.len()
        invariant
            i <= chars.len(),
            chars.len() == letters.len(),
            letters@ == word@,
            forall|j: int| 0 <= j < i ==> ascii_lower(chars@[j]) == letters@[j],
        decreases chars.len() - i,
    {
        if to_ascii_lower(chars[i]) != letters[i] {
            return false;
        }
        i += 1;
    }
    assert(lowered(chars@) =~= word@);
    true
}

/// `s` holds `word` from the position `at` on.
pub open spec fn holds_at(s: Seq<char>, at: int, word: Seq<char>) -> bool {
    &&& 0 <= at
    &&& at + word.len() <= s.len()
    &&& s.subrange(at, at + word.len()) == word
}

/// The position behind `word`, where `s` holds it from `at` on.
pub open spec fn after_word(s: Seq<char>, at: int, word: Seq<char>) -> Option<int> {
    if holds_at(s, at, word) {
        Some(at + word.len())
    } else {
        None
    }
}

/// The first position from `from` on at which `s` holds `stop`, or the
/// length of `s` where it holds none.
pub open spec fn until(s: Seq<char>, from: int, stop: char) -> int
    decreases s.len() - from,
{
    if 0 <= from < s.len() && s[from] != stop {
        until(s, from + 1, stop)
    } else {
        from
    }
}

/// Between `from` and `until(s, from, stop)` no character is `stop`, and the
/// character at that position, if there is one, is `stop`.
pub proof fn lemma_until(s: Seq<char>, from: int, stop: char)
    requires
        0 <= from <= s.len(),
    ensures
        from <= until(s, from, stop) <= s.len(),
        forall|i: int| from <= i < until(s, from, stop) ==> s[i] != stop,
        until(s, from, stop) < s.len() ==> s[until(s, from, stop)] == stop,
    decreases s.len() - from,
{
    if from < s.len() && s[from] != stop {
        lemma_until(s, from + 1, stop);
    }
}

/// Computes `after_word` for a word that is given by its characters.
pub fn skip_letters(chars: &Vec<char>, at: usize, letters: &Vec<char>) -> (end: Option<usize>)
    requires
        at <= chars@.len(),
    ensures
        match end {
            Some(e) => after_word(chars@, at as int, letters@) == Some(e as int),
            None => after_word(chars@, at as int, letters@) is None,
        },
{
    if letters.len() > chars.len() - at {
        return None;
    }
    let mut i: usize = 0;
    while i < letters.len()
        invariant
            i <= letters.len(),
            at + letters.len() <= chars.len(),
            forall|j: int| 0 <= j < i ==> chars@[at + j] == letters@[j],
        decreases letters.len() - i,
    {
        if chars[at + i] != letters[i] {
            return None;
        }
        i += 1;
    }
    assert(chars@.subrange(at as int, at + letters@.len()) =~= letters@);
    Some(at + letters.len())
}

/// Computes `after_word`.
pub fn skip_word(chars: &Vec<char>, at: usize, word: &str) -> (end: Option<usize>)
    requires
        at <= chars@.len(),
    ensures
        match end {
            Some(e) => after_word(chars@, at as int, word@) == Some(e as int),
            None => after_word(chars@, at as int, word@) is None,
        },
{
    let letters = to_chars(word);
    skip_letters(chars, at, &letters)
}

/// Computes `until`.
pub fn scan_until(chars: &Vec<char>, from: usize, stop: char) -> (end: usize)
    requires
        from <= chars@.len(),
    ensures
        end == until(chars@, from as int, stop),
        from <= end <= chars@.len(),
{
    let mut i: usize = from;
    while i < chars.len() && chars[i] != stop
        invariant
            from <= i <= chars.len(),
            until(chars@, from as int, stop) == until(chars@, i as int, stop),
        decreases chars.len() - i,
    {
        i += 1;
    }
    i
}

/// The characters of `s` from `from` up to `to`, as a string of their own.
pub fn copy_range(s: &str, from: usize, to: usize) -> (part: String)
    requires
        from <= to <= s@.len(),
    ensures
        part@ == s@.subrange(from as int, to as int),
{
    String::from_str(s.substring_char(from, to))
}

/// A character of white space: a blank, a tab, a line break, and the other
/// characters that have the Unicode property `White_Space`.
pub open spec fn is_space(c: char) -> bool {
    let code = c as u32;
    ||| 0x09 <= code <= 0x0D
    ||| code == 0x20
    ||| code == 0x85
    ||| code == 0xA0
    ||| code == 0x1680
    ||| 0x2000 <= code <= 0x200A
    ||| code == 0x2028
    ||| code == 0x2029
    ||| code == 0x202F
    ||| code == 0x205F
    ||| code == 0x3000
}

/// Computes `is_space`.
pub fn is_white_space(c: char) -> (b: bool)
    ensures
        b == is_space(c),
{
    let code: u32 = c as u32;
    (0x09 <= code && code <= 0x0D) || code == 0x20 || code == 0x85 || code == 0xA0 || code
        == 0x1680 || (0x2000 <= code && code <= 0x200A) || code == 0x2028 || code == 0x2029
        || code == 0x202F || code == 0x205F || code == 0x3000
}

/// The first position from `lo` on, and before `hi`, that holds no white
/// space; `hi` where there is none.
pub open spec fn skip_spaces(s: Seq<char>, lo: int, hi: int) -> int
    decreases hi - lo,
{
    if 0 <= lo < hi <= s.len() && is_space(s[lo]) {
        skip_spaces(s, lo + 1, hi)
    } else {
        lo
    }
}

/// The position behind the last character between `lo` and `hi` that is no
/// white space; `lo` where there is none.
pub open spec fn drop_spaces(s: Seq<char>, lo: int, hi: int) -> int
    decreases hi - lo,
{
    if 0 <= lo < hi <= s.len() && is_space(s[hi - 1]) {
        drop_spaces(s, lo, hi - 1)
    } else {
        hi
    }
}

/// The part of `s` between `lo` and `hi`, without the white space at its
/// two ends.
pub open spec fn trimmed_range(s: Seq<char>, lo: int, hi: int) -> Seq<char> {
    let start = skip_spaces(s, lo, hi);
    s.subrange(start, drop_spaces(s, start, hi))
}

/// `s` without the white space at its two ends.
pub open spec fn trimmed(s: Seq<char>) -> Seq<char> {
    trimmed_range(s, 0, s.len() as int)
}

/// The parts into which the separator `sep` cuts `s` from `from` on, each
/// without the white space at its two ends. There is one part more than
/// there are separators: a text without a separator is one part, and so is
/// the empty text.
pub open spec fn trimmed_parts(s: Seq<char>, from: int, sep: char) -> Seq<Seq<char>>
    decreases s.len() - from,
{
    let cut = until(s, from, sep);
    if 0 <= from <= cut < s.len() {
        seq![trimmed_range(s, from, cut)] + trimmed_parts(s, cut + 1, sep)
    } else {
        seq![trimmed_range(s, from, s.len() as int)]
    }
}

/// The texts of a list of strings.
pub open spec fn texts(list: Seq<String>) -> Seq<Seq<char>> {
    Seq::new(list.len(), |i: int| list[i]@)
}

/// The bounds of the part of `chars` between `lo` and `hi` that is left
/// when the white space at its two ends is taken away.
pub fn trim_bounds(chars: &Vec<char>, lo: usize, hi: usize) -> (bounds: (usize, usize))
    requires
        lo <= hi <= chars@.len(),
    ensures
        bounds.0 == skip_spaces(chars@, lo as int, hi as int),
        bounds.1 == drop_spaces(chars@, bounds.0 as int, hi as int),
        lo <= bounds.0 <= bounds.1 <= hi,
{
    let mut start: usize = lo;
    while start < hi && is_white_space(chars[start])
        invariant
            lo <= start <= hi <= chars@.len(),
            skip_spaces(chars@, lo as int, hi as int) == skip_spaces(chars@, start as int, hi as int),
        decreases hi - start,
    {
        start += 1;
    }
    let mut end: usize = hi;
    while start < end && is_white_space(chars[end - 1])
        invariant
            start <= end <= hi <= chars@.len(),
            drop_spaces(chars@, start as int, hi as int) == drop_spaces(chars@, start as int, end as int),
        decreases end - start,
    {
        end -= 1;
    }
    (start, end)
}

/// Cuts `s` at each `sep` and takes the white space from the two ends of
/// each part.
pub fn split_trimmed(s: &str, sep: char) -> (parts: Vec<String>)
    ensures
        texts(parts@) == trimmed_parts(s@, 0, sep),
{
    let chars = to_chars(s);
    let n: usize = chars.len();
    let mut parts: Vec<String> = Vec::new();
    let mut from: usize = 0;
    loop
        invariant_except_break
            from <= n,
            texts(parts@) + trimmed_parts(s@, from as int, sep) == trimmed_parts(s@, 0, sep),
        invariant
            n == chars.len(),
            chars@ == s@,
        ensures
            texts(parts@) == trimmed_parts(s@, 0, sep),
        decreases n - from,
    {
        let cut = scan_until(&chars, from, sep);
        let ghost before = texts(parts@);
        if cut < n {
            let (start, end) = trim_bounds(&chars, from, cut);
            parts.push(copy_range(s, start, end));
            assert(before + (seq![trimmed_range(s@, from as int, cut as int)] + trimmed_parts(
                s@,
                cut + 1,
                sep,
            )) =~= texts(parts@) + trimmed_parts(s@, cut + 1, sep));
            from = cut + 1;
        } else {
            let (start, end) = trim_bounds(&chars, from, n);
            parts.push(copy_range(s, start, end));
            break;
        }
    }
    parts
}

/// The texts of `parts` in a row, with `sep` between each two of them.
pub open spec fn joined(parts: Seq<Seq<char>>, sep: Seq<char>) -> Seq<char>
    decreases parts.len(),
{
    if parts.len() == 0 {
        Seq::<char>::empty()
    } else if parts.len() == 1 {
        parts[0]
    } else {
        joined(parts.drop_last(), sep) + sep + parts.last()
    }
}

/// Appends to `out` the texts of `parts`, with `sep` between each two.
pub fn push_joined(out: &mut String, parts: &Vec<String>, sep: &str)
    ensures
        final(out)@ == old(out)@ + joined(texts(parts@), sep@),
{
    let mut i: usize = 0;
    while i < parts.len()
        invariant
            i <= parts.len(),
            out@ == old(out)@ + joined(texts(parts@).take(i as int), sep@),
        decreases parts.len() - i,
    {
        let ghost done = texts(parts@).take(i as int);
        let ghost next = texts(parts@).take(i + 1);
        proof {
            assert(next.drop_last() =~= done);
        }
        if i > 0 {
            out.append(sep);
            proof {
                assert(old(out)@ + joined(done, sep@) + sep@ + parts@[i as int]@ =~= old(out)@ + (joined(
                    done,
                    sep@,
                ) + sep@ + parts@[i as int]@));
            }
        } else {
            proof {
                assert(old(out)@ + joined(done, sep@) + parts@[i as int]@ =~= old(out)@
                    + parts@[i as int]@);
            }
        }
        out.append(parts[i].as_str());
        i += 1;
    }
    proof {
        assert(texts(parts@).take(parts@.len() as int) =~= texts(parts@));
    }
}

/// A text that can stand as one part of a list written with `sep`: it
/// holds no `sep` and neither begins nor ends with white space.
pub open spec fn is_part(p: Seq<char>, sep: char) -> bool {
    &&& forall|i: int| 0 <= i < p.len() ==> p[i] != sep
    &&& p.len() > 0 ==> !is_space(p[0]) && !is_space(p[p.len() - 1])
}

/// `skip_spaces` stays within its bounds and stops at the first character
/// that is no white space.
pub proof fn lemma_skip_spaces(s: Seq<char>, lo: int, hi: int)
    requires
        0 <= lo <= hi <= s.len(),
    ensures
        lo <= skip_spaces(s, lo, hi) <= hi,
        skip_spaces(s, lo, hi) < hi ==> !is_space(s[skip_spaces(s, lo, hi)]),
    decreases hi - lo,
{
    if lo < hi && is_space(s[lo]) {
        lemma_skip_spaces(s, lo + 1, hi);
    }
}

/// `drop_spaces` stays within its bounds and stops behind the last
/// character that is no white space.
pub proof fn lemma_drop_spaces(s: Seq<char>, lo: int, hi: int)
    requires
        0 <= lo <= hi <= s.len(),
    ensures
        lo <= drop_spaces(s, lo, hi) <= hi,
        lo < drop_spaces(s, lo, hi) ==> !is_space(s[drop_spaces(s, lo, hi) - 1]),
    decreases hi - lo,
{
    if lo < hi && is_space(s[hi - 1]) {
        lemma_drop_spaces(s, lo, hi - 1);
    }
}

/// Every part that `trimmed_parts` gives holds no separator and neither
/// begins nor ends with white space, and there is at least one part.
pub proof fn lemma_parts_are_parts(s: Seq<char>, from: int, sep: char)
    requires
        0 <= from <= s.len(),
    ensures
        trimmed_parts(s, from, sep).len() >= 1,
        forall|i: int|
            0 <= i < trimmed_parts(s, from, sep).len() ==> is_part(
                #[trigger] trimmed_parts(s, from, sep)[i],
                sep,
            ),
    decreases s.len() - from,
{
    lemma_until(s, from, sep);
    let cut = until(s, from, sep);
    let start = skip_spaces(s, from, cut);
    lemma_skip_spaces(s, from, cut);
    lemma_drop_spaces(s, start, cut);
    assert(is_part(trimmed_range(s, from, cut), sep));
    if cut < s.len() {
        lemma_parts_are_parts(s, cut + 1, sep);
        let rest = trimmed_parts(s, cut + 1, sep);
        assert forall|i: int| 0 <= i < trimmed_parts(s, from, sep).len() implies is_part(
            #[trigger] trimmed_parts(s, from, sep)[i],
            sep,
        ) by {
            if i > 0 {
                assert(trimmed_parts(s, from, sep)[i] == rest[i - 1]);
            }
        }
    }
}

proof fn lemma_until_shift(x: Seq<char>, y: Seq<char>, from: int, stop: char)
    requires
        0 <= from <= y.len(),
    ensures
        until(x + y, x.len() + from, stop) == x.len() + until(y, from, stop),
    decreases y.len() - from,
{
    if from < y.len() && y[from] != stop {
        lemma_until_shift(x, y, from + 1, stop);
    }
}

proof fn lemma_skip_spaces_shift(x: Seq<char>, y: Seq<char>, lo: int, hi: int)
    requires
        0 <= lo <= hi <= y.len(),
    ensures
        skip_spaces(x + y, x.len() + lo, x.len() + hi) == x.len() + skip_spaces(y, lo, hi),
    decreases hi - lo,
{
    if lo < hi && is_space(y[lo]) {
        lemma_skip_spaces_shift(x, y, lo + 1, hi);
    }
}

proof fn lemma_drop_spaces_shift(x: Seq<char>, y: Seq<char>, lo: int, hi: int)
    requires
        0 <= lo <= hi <= y.len(),
    ensures
        drop_spaces(x + y, x.len() + lo, x.len() + hi) == x.len() + drop_spaces(y, lo, hi),
    decreases hi - lo,
{
    if lo < hi && is_space(y[hi - 1]) {
        lemma_drop_spaces_shift(x, y, lo, hi - 1);
    }
}

proof fn lemma_trimmed_range_shift(x: Seq<char>, y: Seq<char>, lo: int, hi: int)
    requires
        0 <= lo <= hi <= y.len(),
    ensures
        trimmed_range(x + y, x.len() + lo, x.len() + hi) == trimmed_range(y, lo, hi),
{
    lemma_skip_spaces_shift(x, y, lo, hi);
    lemma_skip_spaces(y, lo, hi);
    let start = skip_spaces(y, lo, hi);
    lemma_drop_spaces_shift(x, y, start, hi);
    lemma_drop_spaces(y, start, hi);
}

/// What stands before the position at which `trimmed_parts` begins has no
/// part in what it gives.
proof fn lemma_parts_shift(x: Seq<char>, y: Seq<char>, from: int, sep: char)
    requires
        0 <= from <= y.len(),
    ensures
        trimmed_parts(x + y, x.len() + from, sep) == trimmed_parts(y, from, sep),
    decreases y.len() - from,
{
    lemma_until_shift(x, y, from, sep);
    lemma_until(y, from, sep);
    let cut = until(y, from, sep);
    if cut < y.len() {
        lemma_trimmed_range_shift(x, y, from, cut);
        lemma_parts_shift(x, y, cut + 1, sep);
    } else {
        lemma_trimmed_range_shift(x, y, from, y.len() as int);
    }
}

proof fn lemma_joined_from_the_left(parts: Seq<Seq<char>>, sep: Seq<char>)
    requires
        parts.len() >= 2,
    ensures
        joined(parts, sep) == parts[0] + sep + joined(parts.drop_first(), sep),
    decreases parts.len(),
{
    let front = parts.drop_last();
    let back = parts.drop_first();
    if parts.len() == 2 {
        assert(joined(front, sep) == parts[0]);
        assert(joined(back, sep) == parts[1]);
    } else {
        lemma_joined_from_the_left(front, sep);
        assert(front.drop_first() =~= back.drop_last());
        assert(front[0] == parts[0]);
        assert(back.last() == parts.last());
        assert(parts[0] + sep + joined(back.drop_last(), sep) + sep + parts.last() =~= parts[0] + sep + (
        joined(back.drop_last(), sep) + sep + parts.last()));
    }
}

/// A list that is written with a separator and read back is the list that
/// it was, if each of its parts can stand as a part: if none holds the
/// separator, and none begins or ends with white space.
pub proof fn lemma_split_of_joined(parts: Seq<Seq<char>>, sep: char)
    requires
        parts.len() >= 1,
        forall|i: int| 0 <= i < parts.len() ==> is_part(#[trigger] parts[i], sep),
    ensures
        trimmed_parts(joined(parts, seq![sep]), 0, sep) == parts,
    decreases parts.len(),
{
    let first = parts[0];
    let text = joined(parts, seq![sep]);
    assert(is_part(first, sep));
    if parts.len() == 1 {
        assert(text == first);
        lemma_until(text, 0, sep);
        assert(until(text, 0, sep) == text.len());
        assert(first.subrange(0, first.len() as int) =~= first);
        assert(trimmed_parts(text, 0, sep) =~= parts);
    } else {
        let rest = parts.drop_first();
        let tail = joined(rest, seq![sep]);
        lemma_joined_from_the_left(parts, seq![sep]);
        let head = first + seq![sep];
        assert(text =~= head + tail);
        lemma_until(text, 0, sep);
        assert(text[first.len() as int] == sep);
        assert(forall|i: int| 0 <= i < first.len() ==> text[i] == first[i]);
        assert(until(text, 0, sep) == first.len());
        assert(text.subrange(0, first.len() as int) =~= first);
        assert(trimmed_range(text, 0, first.len() as int) == first);
        assert forall|i: int| 0 <= i < rest.len() implies is_part(#[trigger] rest[i], sep) by {
            assert(rest[i] == parts[i + 1]);
        }
        lemma_split_of_joined(rest, sep);
        lemma_parts_shift(head, tail, 0, sep);
        assert(trimmed_parts(text, 0, sep) =~= seq![first] + rest);
        assert(seq![first] + rest =~= parts);
    }
}

} // verus!
