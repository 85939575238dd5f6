//! The text of the files the daemon reads: decimal levels, and the status of
//! the sound card.

use vstd::prelude::*;

verus! {

/// One-byte whitespace: space, tab, line feed, vertical tab, form feed,
/// carriage return.
pub open spec fn is_space(c: u8) -> bool {
    c == 32 || (9 <= c && c <= 13)
}

/// Two-byte UTF-8 whitespace: U+0085 and U+00A0.
pub open spec fn is_space2(a: u8, b: u8) -> bool {
    a == 0xc2 && (b == 0x85 || b == 0xa0)
}

/// Three-byte UTF-8 whitespace: U+1680, U+2000 to U+200A, U+2028, U+2029,
/// U+202F, U+205F and U+3000.
pub open spec fn is_space3(a: u8, b: u8, c: u8) -> bool {
    ||| (a == 0xe1 && b == 0x9a && c == 0x80)
    ||| (a == 0xe2 && b == 0x80 && ((0x80 <= c && c <= 0x8a) || c == 0xa8 || c == 0xa9 || c
        == 0xaf))
    ||| (a == 0xe2 && b == 0x81 && c == 0x9f)
    ||| (a == 0xe3 && b == 0x80 && c == 0x80)
}

/// The length in bytes of the whitespace character that ends the UTF-8 text
/// `s`, or 0 when `s` does not end in whitespace. These are the characters
/// with the Unicode White_Space property.
pub open spec fn space_suffix(s: Seq<u8>) -> int {
    let n = s.len() as int;
    if n >= 1 && is_space(s[n - 1]) {
        1
    } else if n >= 2 && is_space2(s[n - 2], s[n - 1]) {
        2
    } else if n >= 3 && is_space3(s[n - 3], s[n - 2], s[n - 1]) {
        3
    } else {
        0
    }
}

pub open spec fn is_digit(c: u8) -> bool {
    48 <= c && c <= 57
}

/// The UTF-8 text `s` without its trailing whitespace.
pub open spec fn trim_end(s: Seq<u8>) -> Seq<u8>
    decreases s.len(),
{
    if space_suffix(s) > 0 {
        trim_end(s.subrange(0, s.len() - space_suffix(s)))
    } else {
        s
    }
}

/// The number that a run of decimal digits spells.
pub open spec fn digits_value(s: Seq<u8>) -> int
    decreases s.len(),
{
    if s.len() == 0 {
        0
    } else {
        digits_value(s.drop_last()) * 10 + (s.last() - 48)
    }
}

/// The digits of a decimal number, an optional leading `+` left out.
pub open spec fn unsigned_digits(t: Seq<u8>) -> Seq<u8> {
    if t.len() > 0 && t[0] == 43 {
        t.drop_first()
    } else {
        t
    }
}

/// The level a file's text holds: after trailing whitespace is trimmed, an
/// optional `+` and at least one decimal digit, with a value that fits in
/// `u32`; nothing otherwise.
pub open spec fn level_in(s: Seq<u8>) -> Option<u32> {
    let d = unsigned_digits(trim_end(s));
    if d.len() > 0 && (forall|i: int| 0 <= i < d.len() ==> is_digit(#[trigger] d[i]))
        && digits_value(d) <= u32::MAX {
        Some(digits_value(d) as u32)
    } else {
        None
    }
}

/// The length of the whitespace character that ends `text` before `end`.
fn space_suffix_at(text: &[u8], end: usize) -> (r: usize)
    requires
        end <= text@.len(),
    ensures
        r == space_suffix(text@.subrange(0, end as int)),
{
    let ghost s = text@.subrange(0, end as int);
    if end >= 1 {
        let c = text[end - 1];
        assert(s[end - 1] == c);
        if c == 32 || (9 <= c && c <= 13) {
            return 1;
        }
    }
    if end >= 2 {
        let a = text[end - 2];
        let b = text[end - 1];
        assert(s[end - 2] == a && s[end - 1] == b);
        if a == 0xc2 && (b == 0x85 || b == 0xa0) {
            return 2;
        }
    }
    if end >= 3 {
        let a = text[end - 3];
        let b = text[end - 2];
        let c = text[end - 1];
        assert(s[end - 3] == a && s[end - 2] == b && s[end - 1] == c);
        if (a == 0xe1 && b == 0x9a && c == 0x80) || (a == 0xe2 && b == 0x80 && ((0x80 <= c && c
            <= 0x8a) || c == 0xa8 || c == 0xa9 || c == 0xaf)) || (a == 0xe2 && b == 0x81 && c
            == 0x9f) || (a == 0xe3 && b == 0x80 && c == 0x80) {
            return 3;
        }
    }
    0
}

proof fn lemma_digits_value_nonneg(s: Seq<u8>)
    requires
        forall|i: int| 0 <= i < s.len() ==> is_digit(#[trigger] s[i]),
    ensures
        digits_value(s) >= 0,
    decreases s.len(),
{
    if s.len() > 0 {
        lemma_digits_value_nonneg(s.drop_last());
    }
}

/// Parse the text of a level file.
pub fn parse_level(text: &[u8]) -> (r: Option<u32>)
    ensures
        r == level_in(text@),
{
    let mut end: usize = text.len();
    assert(text@.subrange(0, end as int) =~= text@);
    let mut k = space_suffix_at(text, end);
    while k > 0
        invariant
            end <= text@.len(),
            k == space_suffix(text@.subrange(0, end as int)),
            trim_end(text@) == trim_end(text@.subrange(0, end as int)),
        decreases end,
    {
        assert(text@.subrange(0, end as int).subrange(0, end - k) =~= text@.subrange(
            0,
            end - k,
        ));
        end = end - k;
        k = space_suffix_at(text, end);
    }
    let ghost t = text@.subrange(0, end as int);
    let mut start: usize = 0;
    if end > 0 && text[0] == 43 {
        start = 1;
    }
    let ghost d = text@.subrange(start as int, end as int);
    assert(d =~= unsigned_digits(t));
    assert(unsigned_digits(trim_end(text@)) == d);
    if start == end {
        assert(d.len() == 0);
        return None;
    }
    let mut acc: u64 = 0;
    let mut over = false;
    let mut i: usize = start;
    while i < end
        invariant
            start <= i <= end <= text@.len(),
            d == text@.subrange(start as int, end as int),
            unsigned_digits(trim_end(text@)) == d,
            forall|j: int| start <= j < i ==> is_digit(#[trigger] text@[j]),
            !over ==> acc == digits_value(text@.subrange(start as int, i as int)),
            !over ==> acc <= u32::MAX,
            over ==> digits_value(text@.subrange(start as int, i as int)) > u32::MAX,
        decreases end - i,
    {
        let c = text[i];
        if c < 48 || c > 57 {
            assert(d[i - start] == c);
            return None;
        }
        let ghost prev = text@.subrange(start as int, i as int);
        let ghost next = text@.subrange(start as int, i + 1);
        assert(next.drop_last() =~= prev);
        proof {
            lemma_digits_value_nonneg(prev);
        }
        if !over {
            acc = acc * 10 + (c - 48) as u64;
            if acc > 0xffff_ffff {
                over = true;
            }
        }
        i = i + 1;
    }
    assert(text@.subrange(start as int, i as int) =~= d);
    if over {
        None
    } else {
        Some(acc as u32)
    }
}

/// Letters, digits and underscore make up words.
pub open spec fn is_word_byte(c: u8) -> bool {
    is_digit(c) || (65 <= c && c <= 90) || (97 <= c && c <= 122) || c == 95
}

/// `p` stands in `s` from `i` on.
pub open spec fn occurs_at(s: Seq<u8>, i: int, p: Seq<u8>) -> bool {
    0 <= i && i + p.len() <= s.len() && s.subrange(i, i + p.len()) == p
}

/// `p` stands in `s` from `i` on as a whole word.
pub open spec fn word_at(s: Seq<u8>, i: int, p: Seq<u8>) -> bool {
    &&& occurs_at(s, i, p)
    &&& (i == 0 || !is_word_byte(s[i - 1]))
    &&& (i + p.len() == s.len() || !is_word_byte(s[i + p.len()]))
}

/// No line feed in `s` from `a` up to `b`.
pub open spec fn one_line(s: Seq<u8>, a: int, b: int) -> bool {
    forall|k: int| a <= k < b ==> s[k] != 10
}

pub open spec fn state_text() -> Seq<u8> {
    seq![115u8, 116, 97, 116, 101]
}

pub open spec fn running_text() -> Seq<u8> {
    seq![82u8, 85, 78, 78, 73, 78, 71]
}

/// A sound card status reports playback: one line holds the word `state`
/// and the text `RUNNING`.
pub open spec fn status_running(s: Seq<u8>) -> bool {
    exists|i: int, j: int|
        #![trigger word_at(s, i, state_text()), occurs_at(s, j, running_text())]
        word_at(s, i, state_text()) && occurs_at(s, j, running_text()) && one_line(
            s,
            if i < j { i } else { j },
            if i + 5 > j + 7 { i + 5 } else { j + 7 },
        )
}

fn occurs_at_exec(s: &[u8], i: usize, p: &[u8]) -> (r: bool)
    ensures
        r == occurs_at(s@, i as int, p@),
{
    if i > s.len() || p.len() > s.len() - i {
        return false;
    }
    let mut k: usize = 0;
    while k < p.len()
        invariant
            i + p@.len() <= s@.len(),
            s@.len() <= usize::MAX,
            k <= p@.len(),
            forall|m: int| 0 <= m < k ==> s@[i + m] == p@[m],
        decreases p@.len() - k,
    {
        if s[i + k] != p[k] {
            assert(s@.subrange(i as int, i + p@.len())[k as int] != p@[k as int]);
            return false;
        }
        k = k + 1;
    }
    assert(s@.subrange(i as int, i + p@.len()) =~= p@);
    true
}

fn is_word_byte_exec(c: u8) -> (r: bool)
    ensures
        r == is_word_byte(c),
{
    (48 <= c && c <= 57) || (65 <= c && c <= 90) || (97 <= c && c <= 122) || c == 95
}

/// Whether `p` stands in `s` from `a` on, ending by `b`, as a whole word if
/// `whole` is set.
fn find_between(s: &[u8], a: usize, b: usize, p: &[u8], whole: bool) -> (r: bool)
    requires
        a <= b <= s@.len(),
        p@.len() > 0,
    ensures
        r == exists|i: int|
            a <= i && i + p@.len() <= b && (if whole {
                word_at(s@, i, p@)
            } else {
                occurs_at(s@, i, p@)
            }),
{
    let mut i: usize = a;
    while i < b
        invariant
            a <= i <= b <= s@.len(),
            forall|m: int|
                a <= m < i && m + p@.len() <= b ==> !(if whole {
                    word_at(s@, m, p@)
                } else {
                    occurs_at(s@, m, p@)
                }),
        decreases b - i,
    {
        if p.len() <= b - i && occurs_at_exec(s, i, p) {
            let end = i + p.len();
            if !whole || ((i == 0 || !is_word_byte_exec(s[i - 1])) && (end == s.len()
                || !is_word_byte_exec(s[end]))) {
                return true;
            }
        }
        i = i + 1;
    }
    false
}

/// Whether a sound card status reports playback.
pub fn media_running(status: &[u8]) -> (r: bool)
    ensures
        r == status_running(status@),
{
    let state = vec![115u8, 116, 97, 116, 101];
    let running = vec![82u8, 85, 78, 78, 73, 78, 71];
    assert(state@ =~= state_text());
    assert(running@ =~= running_text());
    let n = status.len();
    let mut a: usize = 0;
    while a < n
        invariant
            n == status@.len(),
            a <= n,
            state@ == state_text(),
            running@ == running_text(),
            a > 0 ==> status@[a - 1] == 10,
            forall|i: int, j: int|
                #![trigger word_at(status@, i, state_text()), occurs_at(status@, j, running_text())]
                word_at(status@, i, state_text()) && occurs_at(status@, j, running_text())
                    && one_line(
                    status@,
                    if i < j { i } else { j },
                    if i + 5 > j + 7 { i + 5 } else { j + 7 },
                ) ==> (if i < j { i } else { j }) >= a,
        decreases n - a,
    {
        let mut b: usize = a;
        while b < n && status[b] != 10
            invariant
                a <= b <= n == status@.len(),
                one_line(status@, a as int, b as int),
            decreases n - b,
        {
            b = b + 1;
        }
        let has_state = find_between(status, a, b, state.as_slice(), true);
        let has_running = find_between(status, a, b, running.as_slice(), false);
        if has_state && has_running {
            let ghost i = choose|i: int| a <= i && i + 5 <= b && word_at(status@, i, state_text());
            let ghost j = choose|j: int| a <= j && j + 7 <= b && occurs_at(status@, j, running_text());
            assert(one_line(status@, if i < j { i } else { j }, if i + 5 > j + 7 { i + 5 } else { j + 7 }));
            return true;
        }
        assert forall|i: int, j: int|
            word_at(status@, i, state_text()) && occurs_at(status@, j, running_text()) && one_line(
                status@,
                if i < j { i } else { j },
                if i + 5 > j + 7 { i + 5 } else { j + 7 },
            ) implies (if i < j { i } else { j }) >= b + 1 by {
            let lo = if i < j { i } else { j };
            let hi = if i + 5 > j + 7 { i + 5 } else { j + 7 };
            assert(lo >= a);
            if lo <= b {
                if b < n {
                    assert(status@[b as int] == 10);
                    assert(hi <= b);
                } else {
                    assert(hi <= n);
                }
                assert(a <= i && i + 5 <= b);
                assert(a <= j && j + 7 <= b);
                assert(false);
            }
        }
        if b == n {
            return false;
        }
        a = b + 1;
    }
    false
}

} // verus!
